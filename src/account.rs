//! Accounts as plain values, the rules an operation places on them, and the
//! order in which those rules are checked.
use vstd::prelude::*;

verus! {

/// Length of an account address in bytes.
pub const KEY_LEN: usize = 32;

/// Address of the SPL token program (`TokenkegQfeZyiNwAJbNbGKPFXCWuBvf9Ss623VQ5DA`).
pub const TOKEN_PROGRAM_ID: [u8; 32] = [
    6, 221, 246, 225, 215, 101, 161, 147, 217, 203, 225, 70, 206, 235, 121, 172,
    28, 180, 133, 237, 95, 91, 55, 145, 58, 140, 245, 133, 126, 255, 0, 169,
];

/// One account reference handed to an operation.
#[derive(Clone, Copy, Debug, PartialEq, Eq)]
pub struct AccountInput {
    pub key: [u8; 32],
    pub is_signer: bool,
    pub is_writable: bool,
    pub executable: bool,
}

/// What an operation expects of the account at one position.
#[derive(Clone, Copy, Debug, PartialEq, Eq)]
pub enum AccountKind {
    /// Any account; nothing is checked.
    Unchecked,
    /// The account must have signed.
    Signer,
    /// The account must be the executable program with this address.
    Program([u8; 32]),
}

/// The rule for one position of an operation's account list.
#[derive(Clone, Copy, Debug, PartialEq, Eq)]
pub struct AccountRule {
    pub kind: AccountKind,
    /// The account must be writable.
    pub writable: bool,
    /// The account is handed on to the AMM program.
    pub forwarded: bool,
}

/// Why an account list was rejected.
#[derive(Clone, Copy, Debug, PartialEq, Eq, Structural)]
pub enum ProxyError {
    /// Fewer accounts were given than the operation needs.
    AccountNotEnoughKeys,
    /// A program account has another address than expected.
    InvalidProgramId,
    /// A program account is not executable.
    InvalidProgramExecutable,
    /// An account that must sign did not.
    AccountNotSigner,
    /// An account that must be writable is not.
    ConstraintMut,
}

impl ProxyError {
    /// Anchor's numeric error code for this error.
    pub open spec fn spec_code(self) -> u32 {
        match self {
            ProxyError::AccountNotEnoughKeys => 3005,
            ProxyError::InvalidProgramId => 3008,
            ProxyError::InvalidProgramExecutable => 3009,
            ProxyError::AccountNotSigner => 3010,
            ProxyError::ConstraintMut => 2000,
        }
    }

    pub fn code(&self) -> (r: u32)
        ensures
            r == self.spec_code(),
    {
        match self {
            ProxyError::AccountNotEnoughKeys => 3005,
            ProxyError::InvalidProgramId => 3008,
            ProxyError::InvalidProgramExecutable => 3009,
            ProxyError::AccountNotSigner => 3010,
            ProxyError::ConstraintMut => 2000,
        }
    }
}

/// The error, if any, of loading `a` as an account of kind `kind`.
pub open spec fn kind_error(kind: AccountKind, a: AccountInput) -> Option<ProxyError> {
    match kind {
        AccountKind::Unchecked => None,
        AccountKind::Signer => if a.is_signer {
            None
        } else {
            Some(ProxyError::AccountNotSigner)
        },
        AccountKind::Program(id) => if a.key@ != id@ {
            Some(ProxyError::InvalidProgramId)
        } else if !a.executable {
            Some(ProxyError::InvalidProgramExecutable)
        } else {
            None
        },
    }
}

/// The first error met when the accounts are loaded position by position from
/// position `i` on: a position with no account left, or an account of the wrong
/// kind.
pub open spec fn load_error(rules: Seq<AccountRule>, infos: Seq<AccountInput>, i: int) -> Option<
    ProxyError,
>
    decreases rules.len() - i,
{
    if i < 0 || i >= rules.len() {
        None
    } else if i >= infos.len() {
        Some(ProxyError::AccountNotEnoughKeys)
    } else {
        match kind_error(rules[i].kind, infos[i]) {
            Some(e) => Some(e),
            None => load_error(rules, infos, i + 1),
        }
    }
}

/// The first position from `i` on whose account must be writable and is not.
pub open spec fn constraint_error(rules: Seq<AccountRule>, infos: Seq<AccountInput>, i: int) -> Option<
    ProxyError,
>
    decreases rules.len() - i,
{
    if i < 0 || i >= rules.len() || i >= infos.len() {
        None
    } else if rules[i].writable && !infos[i].is_writable {
        Some(ProxyError::ConstraintMut)
    } else {
        constraint_error(rules, infos, i + 1)
    }
}

/// The outcome of checking `infos` against `rules`: every account is loaded
/// first, in order, and only then are the writable constraints checked, in
/// order. Accounts beyond the rules are left alone.
pub open spec fn validation(rules: Seq<AccountRule>, infos: Seq<AccountInput>) -> Result<
    (),
    ProxyError,
> {
    match load_error(rules, infos, 0) {
        Some(e) => Err(e),
        None => match constraint_error(rules, infos, 0) {
            Some(e) => Err(e),
            None => Ok(()),
        },
    }
}

/// Whether two addresses are equal.
pub fn same_key(a: &[u8; 32], b: &[u8; 32]) -> (r: bool)
    ensures
        r == (a@ == b@),
{
    let mut i: usize = 0;
    while i < KEY_LEN
        invariant
            i <= KEY_LEN,
            a@.len() == KEY_LEN,
            b@.len() == KEY_LEN,
            forall|j: int| 0 <= j < i ==> a@[j] == b@[j],
        decreases KEY_LEN - i,
    {
        if a[i] != b[i] {
            return false;
        }
        i = i + 1;
    }
    assert(a@ =~= b@);
    true
}

/// Loads one account as `kind`.
pub fn check_kind(kind: &AccountKind, a: &AccountInput) -> (r: Option<ProxyError>)
    ensures
        r == kind_error(*kind, *a),
{
    match kind {
        AccountKind::Unchecked => None,
        AccountKind::Signer => if a.is_signer {
            None
        } else {
            Some(ProxyError::AccountNotSigner)
        },
        AccountKind::Program(id) => if !same_key(&a.key, id) {
            Some(ProxyError::InvalidProgramId)
        } else if !a.executable {
            Some(ProxyError::InvalidProgramExecutable)
        } else {
            None
        },
    }
}

/// Checks `infos` against `rules`.
pub fn check_accounts(rules: &Vec<AccountRule>, infos: &Vec<AccountInput>) -> (r: Result<(), ProxyError>)
    ensures
        r == validation(rules@, infos@),
{
    let n = rules.len();
    let mut i: usize = 0;
    while i < n
        invariant
            n == rules@.len(),
            i <= n,
            i <= infos@.len(),
            load_error(rules@, infos@, 0) == load_error(rules@, infos@, i as int),
        decreases n - i,
    {
        if i >= infos.len() {
            return Err(ProxyError::AccountNotEnoughKeys);
        }
        match check_kind(&rules[i].kind, &infos[i]) {
            Some(e) => {
                return Err(e);
            },
            None => {},
        }
        i = i + 1;
    }
    let mut k: usize = 0;
    while k < n
        invariant
            n == rules@.len(),
            n <= infos@.len(),
            k <= n,
            load_error(rules@, infos@, 0) == None::<ProxyError>,
            constraint_error(rules@, infos@, 0) == constraint_error(rules@, infos@, k as int),
        decreases n - k,
    {
        if rules[k].writable && !infos[k].is_writable {
            return Err(ProxyError::ConstraintMut);
        }
        k = k + 1;
    }
    Ok(())
}

} // verus!
