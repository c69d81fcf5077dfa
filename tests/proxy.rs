use amm_proxy::account::{
    check_accounts, same_key, AccountInput, AccountKind, AccountRule, ProxyError, TOKEN_PROGRAM_ID,
};
use amm_proxy::amm_proxy::{
    proxy_deposit, proxy_initialize, proxy_swap_base_in, proxy_swap_base_out, proxy_withdraw,
    OperationShape,
};
use amm_proxy::deposit::{deposit_shape, ProxyDeposit};
use amm_proxy::forward::{AmmCall, AmmInstruction};
use anchor_lang::error::ErrorCode;

fn key(n: u8) -> [u8; 32] {
    let mut k = [0u8; 32];
    k[0] = n;
    k[31] = n.wrapping_mul(7);
    k
}

fn plain(n: u8, is_writable: bool) -> AccountInput {
    AccountInput { key: key(n), is_signer: false, is_writable, executable: false }
}

fn token_program() -> AccountInput {
    AccountInput { key: TOKEN_PROGRAM_ID, is_signer: false, is_writable: false, executable: true }
}

fn deposit_accounts() -> Vec<AccountInput> {
    vec![
        AccountInput { key: key(1), is_signer: true, is_writable: true, executable: false },
        AccountInput { key: key(2), is_signer: false, is_writable: false, executable: true },
        plain(3, true),
        plain(4, false),
        plain(5, true),
        plain(6, true),
        plain(7, true),
        plain(8, true),
        plain(9, true),
        plain(10, false),
        plain(11, false),
        plain(12, true),
        plain(13, true),
        plain(14, true),
        AccountInput { key: key(15), is_signer: true, is_writable: true, executable: false },
        token_program(),
    ]
}

#[test]
fn token_program_id_is_spl_token() {
    assert_eq!(TOKEN_PROGRAM_ID, anchor_spl::token::ID.to_bytes());
}

#[test]
fn error_codes_are_anchor_codes() {
    assert_eq!(ProxyError::AccountNotEnoughKeys.code(), ErrorCode::AccountNotEnoughKeys as u32);
    assert_eq!(ProxyError::InvalidProgramId.code(), ErrorCode::InvalidProgramId as u32);
    assert_eq!(
        ProxyError::InvalidProgramExecutable.code(),
        ErrorCode::InvalidProgramExecutable as u32
    );
    assert_eq!(ProxyError::AccountNotSigner.code(), ErrorCode::AccountNotSigner as u32);
    assert_eq!(ProxyError::ConstraintMut.code(), ErrorCode::ConstraintMut as u32);
    assert_eq!(ProxyError::ConstraintMut.code(), 2000);
    assert_eq!(ProxyError::AccountNotSigner.code(), 3010);
}

#[test]
fn same_key_compares_every_byte() {
    assert!(same_key(&key(3), &key(3)));
    let mut k = key(3);
    k[31] ^= 1;
    assert!(!same_key(&key(3), &k));
    assert!(!same_key(&key(3), &key(4)));
}

#[test]
fn deposit_forwards_accounts_and_amounts_unchanged() {
    let infos = deposit_accounts();
    let call = proxy_deposit(&infos, 1_000, 2_000, 1).unwrap();
    assert_eq!(call.program, key(2));
    assert_eq!(call.accounts, infos[2..16].to_vec());
    assert_eq!(
        call.instruction,
        AmmInstruction::Deposit { max_coin_amount: 1_000, max_pc_amount: 2_000, base_side: 1 }
    );
}

#[test]
fn deposit_keeps_largest_amounts() {
    let infos = deposit_accounts();
    let call = proxy_deposit(&infos, u64::MAX, u64::MAX, u64::MAX).unwrap();
    assert_eq!(
        call.instruction,
        AmmInstruction::Deposit {
            max_coin_amount: u64::MAX,
            max_pc_amount: u64::MAX,
            base_side: u64::MAX
        }
    );
}

#[test]
fn deposit_ignores_extra_accounts() {
    let mut infos = deposit_accounts();
    infos.push(plain(40, false));
    let call = proxy_deposit(&infos, 5, 6, 0).unwrap();
    assert_eq!(call.accounts.len(), 14);
    assert_eq!(call.accounts, infos[2..16].to_vec());
}

#[test]
fn deposit_with_too_few_accounts() {
    let mut infos = deposit_accounts();
    infos.pop();
    assert_eq!(proxy_deposit(&infos, 1, 1, 0), Err(ProxyError::AccountNotEnoughKeys));
    assert_eq!(proxy_deposit(&Vec::new(), 1, 1, 0), Err(ProxyError::AccountNotEnoughKeys));
}

#[test]
fn deposit_payer_must_sign() {
    let mut infos = deposit_accounts();
    infos[0].is_signer = false;
    assert_eq!(proxy_deposit(&infos, 1, 1, 0), Err(ProxyError::AccountNotSigner));
}

#[test]
fn deposit_token_program_must_match() {
    let mut infos = deposit_accounts();
    infos[15].key = key(99);
    assert_eq!(proxy_deposit(&infos, 1, 1, 0), Err(ProxyError::InvalidProgramId));
}

#[test]
fn deposit_token_program_must_be_executable() {
    let mut infos = deposit_accounts();
    infos[15].executable = false;
    assert_eq!(proxy_deposit(&infos, 1, 1, 0), Err(ProxyError::InvalidProgramExecutable));
}

#[test]
fn deposit_pool_must_be_writable() {
    let mut infos = deposit_accounts();
    infos[2].is_writable = false;
    assert_eq!(proxy_deposit(&infos, 1, 1, 0), Err(ProxyError::ConstraintMut));
}

#[test]
fn deposit_loads_all_accounts_before_writable_checks() {
    let mut infos = deposit_accounts();
    infos[0].is_writable = false;
    infos[14].is_signer = false;
    assert_eq!(proxy_deposit(&infos, 1, 1, 0), Err(ProxyError::AccountNotSigner));
}

#[test]
fn deposit_short_list_reports_earlier_kind_error() {
    let mut infos = deposit_accounts();
    infos.truncate(3);
    infos[0].is_signer = false;
    assert_eq!(proxy_deposit(&infos, 1, 1, 0), Err(ProxyError::AccountNotSigner));
}

#[test]
fn try_accounts_names_positions() {
    let infos = deposit_accounts();
    let d = ProxyDeposit::try_accounts(&infos).unwrap();
    assert_eq!(d.payer, infos[0]);
    assert_eq!(d.amm_program, infos[1]);
    assert_eq!(d.amm, infos[2]);
    assert_eq!(d.market_event_queue, infos[10]);
    assert_eq!(d.user_owner, infos[14]);
    assert_eq!(d.token_program, infos[15]);
    assert_eq!(d.accounts(), infos);
}

#[test]
fn handler_builds_deposit_call() {
    let infos = deposit_accounts();
    let d = ProxyDeposit::try_accounts(&infos).unwrap();
    let call = d.handler(7, 8, 1);
    assert_eq!(
        call,
        AmmCall {
            program: infos[1].key,
            accounts: infos[2..].to_vec(),
            instruction: AmmInstruction::Deposit {
                max_coin_amount: 7,
                max_pc_amount: 8,
                base_side: 1
            },
        }
    );
}

#[test]
fn deposit_shape_has_sixteen_positions() {
    let rules = deposit_shape();
    assert_eq!(rules.len(), 16);
    assert_eq!(rules[15].kind, AccountKind::Program(TOKEN_PROGRAM_ID));
    assert!(check_accounts(&rules, &deposit_accounts()).is_ok());
}

fn two_account_shape() -> OperationShape {
    OperationShape {
        rules: vec![
            AccountRule { kind: AccountKind::Unchecked, writable: false, forwarded: false },
            AccountRule { kind: AccountKind::Signer, writable: true, forwarded: true },
            AccountRule { kind: AccountKind::Unchecked, writable: true, forwarded: true },
        ],
        program: 0,
    }
}

fn two_account_infos() -> Vec<AccountInput> {
    vec![
        plain(20, false),
        AccountInput { key: key(21), is_signer: true, is_writable: true, executable: false },
        plain(22, true),
    ]
}

#[test]
fn withdraw_forwards_amount() {
    let infos = two_account_infos();
    let call = proxy_withdraw(&two_account_shape(), &infos, 42).unwrap();
    assert_eq!(call.program, key(20));
    assert_eq!(call.accounts, infos[1..].to_vec());
    assert_eq!(call.instruction, AmmInstruction::Withdraw { amount: 42 });
}

#[test]
fn withdraw_rejects_read_only_account() {
    let mut infos = two_account_infos();
    infos[2].is_writable = false;
    assert_eq!(proxy_withdraw(&two_account_shape(), &infos, 42), Err(ProxyError::ConstraintMut));
}

#[test]
fn swap_base_in_forwards_amounts() {
    let infos = two_account_infos();
    let call = proxy_swap_base_in(&two_account_shape(), &infos, 100, 95).unwrap();
    assert_eq!(call.accounts, infos[1..].to_vec());
    assert_eq!(
        call.instruction,
        AmmInstruction::SwapBaseIn { amount_in: 100, minimum_amount_out: 95 }
    );
}

#[test]
fn swap_base_out_forwards_amounts() {
    let infos = two_account_infos();
    let call = proxy_swap_base_out(&two_account_shape(), &infos, 110, 100).unwrap();
    assert_eq!(call.program, key(20));
    assert_eq!(
        call.instruction,
        AmmInstruction::SwapBaseOut { max_amount_in: 110, amount_out: 100 }
    );
}

#[test]
fn swap_base_out_rejects_unsigned_owner() {
    let mut infos = two_account_infos();
    infos[1].is_signer = false;
    assert_eq!(
        proxy_swap_base_out(&two_account_shape(), &infos, 110, 100),
        Err(ProxyError::AccountNotSigner)
    );
}

#[test]
fn initialize_forwards_parameters() {
    let infos = two_account_infos();
    let call = proxy_initialize(&two_account_shape(), &infos, 254, 1_700_000_000, 10, 20).unwrap();
    assert_eq!(call.accounts, infos[1..].to_vec());
    assert_eq!(
        call.instruction,
        AmmInstruction::Initialize {
            nonce: 254,
            open_time: 1_700_000_000,
            init_pc_amount: 10,
            init_coin_amount: 20
        }
    );
}

#[test]
fn initialize_with_too_few_accounts() {
    let infos = vec![plain(20, false)];
    assert_eq!(
        proxy_initialize(&two_account_shape(), &infos, 1, 0, 10, 20),
        Err(ProxyError::AccountNotEnoughKeys)
    );
}
