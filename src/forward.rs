//! The call that the proxy hands to the AMM program.
use vstd::prelude::*;

use crate::account::{AccountInput, AccountRule, ProxyError, check_accounts, validation};

verus! {

/// An AMM instruction with its parameters.
#[derive(Clone, Copy, Debug, PartialEq, Eq, Structural)]
pub enum AmmInstruction {
    Initialize { nonce: u8, open_time: u64, init_pc_amount: u64, init_coin_amount: u64 },
    Deposit { max_coin_amount: u64, max_pc_amount: u64, base_side: u64 },
    Withdraw { amount: u64 },
    SwapBaseIn { amount_in: u64, minimum_amount_out: u64 },
    SwapBaseOut { max_amount_in: u64, amount_out: u64 },
}

/// An invocation of the AMM program: which program, with which accounts in
/// which order, and which instruction.
#[derive(Debug, PartialEq, Eq)]
pub struct AmmCall {
    pub program: [u8; 32],
    pub accounts: Vec<AccountInput>,
    pub instruction: AmmInstruction,
}

/// The accounts among the first `n` positions that the rules mark as handed
/// on, in their order.
pub open spec fn forwarded(rules: Seq<AccountRule>, infos: Seq<AccountInput>, n: int) -> Seq<
    AccountInput,
>
    decreases n,
{
    if n <= 0 {
        Seq::empty()
    } else if rules[n - 1].forwarded {
        forwarded(rules, infos, n - 1).push(infos[n - 1])
    } else {
        forwarded(rules, infos, n - 1)
    }
}

/// Whether `call` is exactly the invocation made for `infos` checked against
/// `rules`, the AMM program standing at position `program`.
pub open spec fn is_forwarded_call(
    call: AmmCall,
    rules: Seq<AccountRule>,
    program: int,
    infos: Seq<AccountInput>,
    instruction: AmmInstruction,
) -> bool {
    &&& call.program@ == infos[program].key@
    &&& call.accounts@ == forwarded(rules, infos, rules.len() as int)
    &&& call.instruction == instruction
}

/// The outcome of an operation: the account check's error, or the call
/// made with the accounts and the parameters unchanged.
pub open spec fn operation_result(
    r: Result<AmmCall, ProxyError>,
    rules: Seq<AccountRule>,
    program: int,
    infos: Seq<AccountInput>,
    instruction: AmmInstruction,
) -> bool {
    match validation(rules, infos) {
        Err(e) => r == Err::<AmmCall, ProxyError>(e),
        Ok(()) => r is Ok && is_forwarded_call(r->Ok_0, rules, program, infos, instruction),
    }
}

/// Builds the call for accounts that passed the check: the program found at
/// position `program`, the accounts marked as handed on, and `instruction`.
pub fn forward(
    rules: &Vec<AccountRule>,
    program: usize,
    infos: &Vec<AccountInput>,
    instruction: AmmInstruction,
) -> (r: AmmCall)
    requires
        program < rules@.len(),
        rules@.len() <= infos@.len(),
    ensures
        is_forwarded_call(r, rules@, program as int, infos@, instruction),
{
    let n = rules.len();
    let mut accounts: Vec<AccountInput> = Vec::new();
    let mut i: usize = 0;
    while i < n
        invariant
            n == rules@.len(),
            n <= infos@.len(),
            i <= n,
            accounts@ == forwarded(rules@, infos@, i as int),
        decreases n - i,
    {
        if rules[i].forwarded {
            accounts.push(infos[i]);
        }
        i = i + 1;
    }
    AmmCall { program: infos[program].key, accounts, instruction }
}

/// Checks `infos` against `rules` and, where they pass, builds the call.
pub fn checked_call(
    rules: &Vec<AccountRule>,
    program: usize,
    infos: &Vec<AccountInput>,
    instruction: AmmInstruction,
) -> (r: Result<AmmCall, ProxyError>)
    requires
        program < rules@.len(),
    ensures
        operation_result(r, rules@, program as int, infos@, instruction),
{
    match check_accounts(rules, infos) {
        Err(e) => Err(e),
        Ok(()) => {
            proof {
                lemma_valid_has_all(rules@, infos@, 0);
            }
            Ok(forward(rules, program, infos, instruction))
        },
    }
}

/// Accounts that load without error fill every position of the rules.
pub proof fn lemma_valid_has_all(rules: Seq<AccountRule>, infos: Seq<AccountInput>, i: int)
    requires
        0 <= i <= rules.len(),
        i <= infos.len(),
        crate::account::load_error(rules, infos, i) is None,
    ensures
        rules.len() <= infos.len(),
    decreases rules.len() - i,
{
    if i < rules.len() {
        lemma_valid_has_all(rules, infos, i + 1);
    }
}

} // verus!
