//! The deposit operation: its accounts, their rules, and the call it makes.
use vstd::prelude::*;

use crate::account::{
    AccountInput, AccountKind, AccountRule, ProxyError, TOKEN_PROGRAM_ID, check_accounts,
    validation,
};
use crate::forward::{AmmCall, AmmInstruction, forward, forwarded, is_forwarded_call};

verus! {

/// Number of accounts of a deposit.
pub const DEPOSIT_ACCOUNTS: usize = 16;

/// Position of the AMM program among a deposit's accounts.
pub const DEPOSIT_PROGRAM_AT: usize = 1;

pub open spec fn rule(kind: AccountKind, writable: bool, forwarded: bool) -> AccountRule {
    AccountRule { kind, writable, forwarded }
}

/// The rules of a deposit's accounts, position by position: the payer, the
/// AMM program, then the accounts of the AMM's own deposit instruction.
pub open spec fn deposit_rules() -> Seq<AccountRule> {
    seq![
        rule(AccountKind::Signer, true, false),
        rule(AccountKind::Unchecked, false, false),
        rule(AccountKind::Unchecked, true, true),
        rule(AccountKind::Unchecked, false, true),
        rule(AccountKind::Unchecked, true, true),
        rule(AccountKind::Unchecked, true, true),
        rule(AccountKind::Unchecked, true, true),
        rule(AccountKind::Unchecked, true, true),
        rule(AccountKind::Unchecked, true, true),
        rule(AccountKind::Unchecked, false, true),
        rule(AccountKind::Unchecked, false, true),
        rule(AccountKind::Unchecked, true, true),
        rule(AccountKind::Unchecked, true, true),
        rule(AccountKind::Unchecked, true, true),
        rule(AccountKind::Signer, true, true),
        rule(AccountKind::Program(TOKEN_PROGRAM_ID), false, true),
    ]
}

/// The rules of a deposit's accounts.
pub fn deposit_shape() -> (r: Vec<AccountRule>)
    ensures
        r@ == deposit_rules(),
{
    let mut r: Vec<AccountRule> = Vec::new();
    r.push(AccountRule { kind: AccountKind::Signer, writable: true, forwarded: false });
    r.push(AccountRule { kind: AccountKind::Unchecked, writable: false, forwarded: false });
    r.push(AccountRule { kind: AccountKind::Unchecked, writable: true, forwarded: true });
    r.push(AccountRule { kind: AccountKind::Unchecked, writable: false, forwarded: true });
    r.push(AccountRule { kind: AccountKind::Unchecked, writable: true, forwarded: true });
    r.push(AccountRule { kind: AccountKind::Unchecked, writable: true, forwarded: true });
    r.push(AccountRule { kind: AccountKind::Unchecked, writable: true, forwarded: true });
    r.push(AccountRule { kind: AccountKind::Unchecked, writable: true, forwarded: true });
    r.push(AccountRule { kind: AccountKind::Unchecked, writable: true, forwarded: true });
    r.push(AccountRule { kind: AccountKind::Unchecked, writable: false, forwarded: true });
    r.push(AccountRule { kind: AccountKind::Unchecked, writable: false, forwarded: true });
    r.push(AccountRule { kind: AccountKind::Unchecked, writable: true, forwarded: true });
    r.push(AccountRule { kind: AccountKind::Unchecked, writable: true, forwarded: true });
    r.push(AccountRule { kind: AccountKind::Unchecked, writable: true, forwarded: true });
    r.push(AccountRule { kind: AccountKind::Signer, writable: true, forwarded: true });
    r.push(AccountRule { kind: AccountKind::Program(TOKEN_PROGRAM_ID), writable: false, forwarded: true });
    assert(r@ =~= deposit_rules());
    r
}

/// The accounts of a deposit, checked.
#[derive(Clone, Copy, Debug, PartialEq, Eq)]
pub struct ProxyDeposit {
    /// Pays for the transaction; signs and is writable.
    pub payer: AccountInput,
    /// The AMM program that is called.
    pub amm_program: AccountInput,
    /// The pool; writable.
    pub amm: AccountInput,
    /// The pool's authority.
    pub amm_authority: AccountInput,
    /// The pool's open orders; writable.
    pub amm_open_orders: AccountInput,
    /// The pool's target orders; writable.
    pub amm_target_orders: AccountInput,
    /// The pool's LP mint; writable.
    pub amm_lp_mint: AccountInput,
    /// The pool's coin vault; writable.
    pub amm_coin_vault: AccountInput,
    /// The pool's pc vault; writable.
    pub amm_pc_vault: AccountInput,
    /// The order book market.
    pub market: AccountInput,
    /// The market's event queue.
    pub market_event_queue: AccountInput,
    /// The user's coin token account; writable.
    pub user_token_coin: AccountInput,
    /// The user's pc token account; writable.
    pub user_token_pc: AccountInput,
    /// The user's LP token account; writable.
    pub user_token_lp: AccountInput,
    /// The user's wallet; signs and is writable.
    pub user_owner: AccountInput,
    /// The SPL token program.
    pub token_program: AccountInput,
}

impl ProxyDeposit {
    /// The accounts in the order in which they are given.
    pub open spec fn spec_accounts(self) -> Seq<AccountInput> {
        seq![
            self.payer,
            self.amm_program,
            self.amm,
            self.amm_authority,
            self.amm_open_orders,
            self.amm_target_orders,
            self.amm_lp_mint,
            self.amm_coin_vault,
            self.amm_pc_vault,
            self.market,
            self.market_event_queue,
            self.user_token_coin,
            self.user_token_pc,
            self.user_token_lp,
            self.user_owner,
            self.token_program,
        ]
    }

    /// The accounts of the AMM's deposit instruction, in its order.
    pub open spec fn cpi_accounts(self) -> Seq<AccountInput> {
        seq![
            self.amm,
            self.amm_authority,
            self.amm_open_orders,
            self.amm_target_orders,
            self.amm_lp_mint,
            self.amm_coin_vault,
            self.amm_pc_vault,
            self.market,
            self.market_event_queue,
            self.user_token_coin,
            self.user_token_pc,
            self.user_token_lp,
            self.user_owner,
            self.token_program,
        ]
    }

    /// The accounts in the order in which they are given.
    pub fn accounts(&self) -> (r: Vec<AccountInput>)
        ensures
            r@ == self.spec_accounts(),
    {
        let mut r: Vec<AccountInput> = Vec::new();
        r.push(self.payer);
        r.push(self.amm_program);
        r.push(self.amm);
        r.push(self.amm_authority);
        r.push(self.amm_open_orders);
        r.push(self.amm_target_orders);
        r.push(self.amm_lp_mint);
        r.push(self.amm_coin_vault);
        r.push(self.amm_pc_vault);
        r.push(self.market);
        r.push(self.market_event_queue);
        r.push(self.user_token_coin);
        r.push(self.user_token_pc);
        r.push(self.user_token_lp);
        r.push(self.user_owner);
        r.push(self.token_program);
        assert(r@ =~= self.spec_accounts());
        r
    }

    /// Checks `infos` against the deposit's rules and names its accounts.
    pub fn try_accounts(infos: &Vec<AccountInput>) -> (r: Result<ProxyDeposit, ProxyError>)
        ensures
            match validation(deposit_rules(), infos@) {
                Err(e) => r == Err::<ProxyDeposit, ProxyError>(e),
                Ok(()) => r is Ok && r->Ok_0.spec_accounts() == infos@.take(
                    DEPOSIT_ACCOUNTS as int,
                ),
            },
    {
        let rules = deposit_shape();
        match check_accounts(&rules, infos) {
            Err(e) => Err(e),
            Ok(()) => {
                proof {
                    crate::forward::lemma_valid_has_all(rules@, infos@, 0);
                }
                let d = ProxyDeposit {
                    payer: infos[0],
                    amm_program: infos[1],
                    amm: infos[2],
                    amm_authority: infos[3],
                    amm_open_orders: infos[4],
                    amm_target_orders: infos[5],
                    amm_lp_mint: infos[6],
                    amm_coin_vault: infos[7],
                    amm_pc_vault: infos[8],
                    market: infos[9],
                    market_event_queue: infos[10],
                    user_token_coin: infos[11],
                    user_token_pc: infos[12],
                    user_token_lp: infos[13],
                    user_owner: infos[14],
                    token_program: infos[15],
                };
                assert(d.spec_accounts() =~= infos@.take(DEPOSIT_ACCOUNTS as int));
                Ok(d)
            },
        }
    }

    /// The call that deposits into the pool: the AMM program is called with the
    /// accounts of its deposit instruction and the three amounts, unchanged.
    pub fn handler(&self, max_coin_amount: u64, max_pc_amount: u64, base_side: u64) -> (r: AmmCall)
        ensures
            is_forwarded_call(
                r,
                deposit_rules(),
                DEPOSIT_PROGRAM_AT as int,
                self.spec_accounts(),
                AmmInstruction::Deposit { max_coin_amount, max_pc_amount, base_side },
            ),
            r.program == self.amm_program.key,
            r.accounts@ == self.cpi_accounts(),
    {
        let rules = deposit_shape();
        let infos = self.accounts();
        let r = forward(
            &rules,
            DEPOSIT_PROGRAM_AT,
            &infos,
            AmmInstruction::Deposit { max_coin_amount, max_pc_amount, base_side },
        );
        proof {
            self.lemma_cpi_accounts();
            assert(r.program@ =~= self.amm_program.key@);
        }
        r
    }

    /// The accounts that the rules hand on are those of the AMM's deposit
    /// instruction.
    pub proof fn lemma_cpi_accounts(self)
        ensures
            forwarded(deposit_rules(), self.spec_accounts(), DEPOSIT_ACCOUNTS as int)
                == self.cpi_accounts(),
    {
        reveal_with_fuel(forwarded, 17);
        assert(forwarded(deposit_rules(), self.spec_accounts(), DEPOSIT_ACCOUNTS as int)
            =~= self.cpi_accounts());
    }
}

/// A deposit hands on the accounts it was given from the third position on,
/// all of them and in the same order, and nothing else.
pub proof fn lemma_deposit_pass_through(infos: Seq<AccountInput>)
    requires
        infos.len() >= DEPOSIT_ACCOUNTS,
    ensures
        forwarded(deposit_rules(), infos, DEPOSIT_ACCOUNTS as int) == infos.subrange(
            DEPOSIT_PROGRAM_AT + 1,
            DEPOSIT_ACCOUNTS as int,
        ),
{
    lemma_forwarded_suffix(deposit_rules(), infos, DEPOSIT_PROGRAM_AT + 1, DEPOSIT_ACCOUNTS as int);
}

/// Where the rules hand on no position before `k` and every position from `k`
/// to `n`, the first `n` positions hand on exactly the accounts from `k` to `n`.
pub proof fn lemma_forwarded_suffix(
    rules: Seq<AccountRule>,
    infos: Seq<AccountInput>,
    k: int,
    n: int,
)
    requires
        0 <= k <= n <= rules.len(),
        n <= infos.len(),
        forall|j: int| 0 <= j < k ==> !(#[trigger] rules[j]).forwarded,
        forall|j: int| k <= j < n ==> (#[trigger] rules[j]).forwarded,
    ensures
        forwarded(rules, infos, n) == infos.subrange(k, n),
    decreases n,
{
    if n > k {
        lemma_forwarded_suffix(rules, infos, k, n - 1);
        assert(infos.subrange(k, n - 1).push(infos[n - 1]) =~= infos.subrange(k, n));
    } else if n > 0 {
        lemma_forwarded_suffix(rules, infos, n - 1, n - 1);
        assert(infos.subrange(n - 1, n - 1) =~= infos.subrange(k, n));
    } else {
        assert(infos.subrange(k, n) =~= Seq::<AccountInput>::empty());
    }
}

} // verus!
