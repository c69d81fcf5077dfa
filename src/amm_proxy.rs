//! The proxy's operations. Each one checks its accounts and, where they pass,
//! yields the call to the AMM program with the same accounts and parameters.
use vstd::prelude::*;

use crate::account::{AccountInput, AccountRule, ProxyError, validation};
use crate::deposit::{DEPOSIT_ACCOUNTS, DEPOSIT_PROGRAM_AT, ProxyDeposit, deposit_rules};
use crate::forward::{AmmCall, AmmInstruction, checked_call, forwarded, operation_result};

verus! {

/// The accounts an operation expects: a rule per position, and the position
/// of the AMM program to call.
#[derive(Debug, PartialEq, Eq)]
pub struct OperationShape {
    pub rules: Vec<AccountRule>,
    pub program: usize,
}

impl OperationShape {
    pub open spec fn wf(self) -> bool {
        self.program < self.rules@.len()
    }
}

/// Creates a pool.
pub fn proxy_initialize(
    shape: &OperationShape,
    infos: &Vec<AccountInput>,
    nonce: u8,
    open_time: u64,
    init_pc_amount: u64,
    init_coin_amount: u64,
) -> (r: Result<AmmCall, ProxyError>)
    requires
        shape.wf(),
    ensures
        operation_result(
            r,
            shape.rules@,
            shape.program as int,
            infos@,
            AmmInstruction::Initialize { nonce, open_time, init_pc_amount, init_coin_amount },
        ),
{
    checked_call(
        &shape.rules,
        shape.program,
        infos,
        AmmInstruction::Initialize { nonce, open_time, init_pc_amount, init_coin_amount },
    )
}

/// Deposits into a pool, with the deposit's own accounts.
pub fn proxy_deposit(
    infos: &Vec<AccountInput>,
    max_coin_amount: u64,
    max_pc_amount: u64,
    base_side: u64,
) -> (r: Result<AmmCall, ProxyError>)
    ensures
        operation_result(
            r,
            deposit_rules(),
            DEPOSIT_PROGRAM_AT as int,
            infos@,
            AmmInstruction::Deposit { max_coin_amount, max_pc_amount, base_side },
        ),
{
    match ProxyDeposit::try_accounts(infos) {
        Err(e) => Err(e),
        Ok(d) => {
            let r = d.handler(max_coin_amount, max_pc_amount, base_side);
            proof {
                crate::forward::lemma_valid_has_all(deposit_rules(), infos@, 0);
                lemma_forwarded_prefix(deposit_rules(), infos@, DEPOSIT_ACCOUNTS as int);
                assert(d.spec_accounts()[DEPOSIT_PROGRAM_AT as int] == infos@[
                    DEPOSIT_PROGRAM_AT as int
                ]);
            }
            Ok(r)
        },
    }
}

/// Withdraws from a pool.
pub fn proxy_withdraw(shape: &OperationShape, infos: &Vec<AccountInput>, amount: u64) -> (r:
    Result<AmmCall, ProxyError>)
    requires
        shape.wf(),
    ensures
        operation_result(
            r,
            shape.rules@,
            shape.program as int,
            infos@,
            AmmInstruction::Withdraw { amount },
        ),
{
    checked_call(&shape.rules, shape.program, infos, AmmInstruction::Withdraw { amount })
}

/// Swaps a fixed amount in for at least a minimum out.
pub fn proxy_swap_base_in(
    shape: &OperationShape,
    infos: &Vec<AccountInput>,
    amount_in: u64,
    minimum_amount_out: u64,
) -> (r: Result<AmmCall, ProxyError>)
    requires
        shape.wf(),
    ensures
        operation_result(
            r,
            shape.rules@,
            shape.program as int,
            infos@,
            AmmInstruction::SwapBaseIn { amount_in, minimum_amount_out },
        ),
{
    checked_call(
        &shape.rules,
        shape.program,
        infos,
        AmmInstruction::SwapBaseIn { amount_in, minimum_amount_out },
    )
}

/// Swaps at most a maximum in for a fixed amount out.
pub fn proxy_swap_base_out(
    shape: &OperationShape,
    infos: &Vec<AccountInput>,
    max_amount_in: u64,
    amount_out: u64,
) -> (r: Result<AmmCall, ProxyError>)
    requires
        shape.wf(),
    ensures
        operation_result(
            r,
            shape.rules@,
            shape.program as int,
            infos@,
            AmmInstruction::SwapBaseOut { max_amount_in, amount_out },
        ),
{
    checked_call(
        &shape.rules,
        shape.program,
        infos,
        AmmInstruction::SwapBaseOut { max_amount_in, amount_out },
    )
}

/// What is handed on from the first `n` positions depends on those positions
/// alone.
pub proof fn lemma_forwarded_prefix(rules: Seq<AccountRule>, infos: Seq<AccountInput>, n: int)
    requires
        0 <= n <= infos.len(),
    ensures
        forwarded(rules, infos, n) == forwarded(rules, infos.take(n), n),
    decreases n,
{
    if n > 0 {
        lemma_forwarded_prefix(rules, infos, n - 1);
        lemma_forwarded_prefix(rules, infos.take(n), n - 1);
        assert(infos.take(n).take(n - 1) =~= infos.take(n - 1));
    }
}

} // verus!
