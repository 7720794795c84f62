//! Account records as a state provider holds them, and the canonical view of
//! an account that the query returns.
use vstd::prelude::*;

use crate::error::{ProviderError, RpcError, INTERNAL_ERROR_CODE};
use crate::primitives::{keccak_empty, H256, U256};

verus! {

/// An account record as a state view holds it.
#[derive(Clone, Copy, Debug, PartialEq, Eq, Structural)]
pub struct Account {
    pub nonce: u64,
    pub balance: U256,
    /// The hash of the account's bytecode, if it has any record of one.
    pub bytecode_hash: Option<H256>,
}

/// What the query returns of an account.
#[derive(Clone, Copy, Debug, PartialEq, Eq, Structural)]
pub struct AccountExt {
    pub balance: U256,
    pub nonce: u64,
    /// The hash of the account's bytecode; absent where it has none.
    pub code_hash: Option<H256>,
}

/// A code hash that stands for no code: none at all, or the hash of
/// zero-length bytecode.
pub open spec fn is_empty_code_hash(h: Option<H256>) -> bool {
    h is None || h == Some(keccak_empty())
}

/// A code hash in canonical form: the hash of zero-length bytecode is
/// dropped, any other is kept.
pub open spec fn spec_normalize_code_hash(h: Option<H256>) -> Option<H256> {
    if h == Some(keccak_empty()) {
        None
    } else {
        h
    }
}

/// The view of an account that the query returns for what a state view
/// holds at its address: zeros where it holds no record, else the record's
/// balance and nonce with its code hash in canonical form.
pub open spec fn spec_normalize(lookup: Option<Account>) -> AccountExt {
    match lookup {
        None => AccountExt { balance: U256 { hi: 0, lo: 0 }, nonce: 0, code_hash: None },
        Some(a) => AccountExt {
            balance: a.balance,
            nonce: a.nonce,
            code_hash: spec_normalize_code_hash(a.bytecode_hash),
        },
    }
}

/// What the query returns for the outcome of one account lookup: the
/// canonical view when the lookup succeeded, else an internal error that
/// carries the provider's message.
pub open spec fn spec_account_ext_from_lookup(
    lookup: Result<Option<Account>, ProviderError>,
    r: Result<AccountExt, RpcError>,
) -> bool {
    match lookup {
        Ok(a) => r == Ok::<AccountExt, RpcError>(spec_normalize(a)),
        Err(e) => r matches Err(re) && re.code == INTERNAL_ERROR_CODE && re.message@
            == e.spec_message(),
    }
}

/// Drops the hash of zero-length bytecode and keeps any other code hash.
pub fn normalize_code_hash(h: Option<H256>) -> (r: Option<H256>)
    ensures
        r == spec_normalize_code_hash(h),
{
    match h {
        None => None,
        Some(hash) => {
            if hash.is_keccak_empty() {
                None
            } else {
                Some(hash)
            }
        },
    }
}

impl AccountExt {
    /// Whether the account is empty: nonce and balance zero and no code.
    pub open spec fn spec_is_empty(&self) -> bool {
        self.nonce == 0 && self.balance@ == 0 && is_empty_code_hash(self.code_hash)
    }

    /// A view in canonical form never carries the hash of zero-length
    /// bytecode.
    pub open spec fn is_canonical(&self) -> bool {
        self.code_hash != Some(keccak_empty())
    }

    /// The empty account: balance and nonce zero, no code hash.
    pub fn zero() -> (r: AccountExt)
        ensures
            r == spec_normalize(None),
    {
        AccountExt { balance: U256::zero(), nonce: 0, code_hash: None }
    }

    /// Whether the account is empty: nonce and balance zero, and a code hash
    /// that is absent or the hash of zero-length bytecode.
    pub fn is_empty(&self) -> (r: bool)
        ensures
            r == self.spec_is_empty(),
    {
        let is_bytecode_empty = match self.code_hash {
            None => true,
            Some(hash) => hash.is_keccak_empty(),
        };
        self.nonce == 0 && self.balance.is_zero() && is_bytecode_empty
    }

    /// The canonical view of what a state view holds at an address.
    pub fn normalize(lookup: Option<Account>) -> (r: AccountExt)
        ensures
            r == spec_normalize(lookup),
            r.is_canonical(),
    {
        match lookup {
            None => AccountExt::zero(),
            Some(account) => AccountExt {
                balance: account.balance,
                nonce: account.nonce,
                code_hash: normalize_code_hash(account.bytecode_hash),
            },
        }
    }
}

impl Default for AccountExt {
    fn default() -> (r: AccountExt)
        ensures
            r == spec_normalize(None),
    {
        AccountExt::zero()
    }
}

/// Turns the outcome of one account lookup into the query's answer: the
/// canonical view of the account, or an internal error with the provider's
/// message.
pub fn account_ext_from_lookup(lookup: Result<Option<Account>, ProviderError>) -> (r: Result<
    AccountExt,
    RpcError,
>)
    ensures
        spec_account_ext_from_lookup(lookup, r),
{
    match lookup {
        Ok(account) => Ok(AccountExt::normalize(account)),
        Err(e) => Err(RpcError::from_provider(e)),
    }
}

/// An address that a state view holds no record for reads as the zero
/// account: balance and nonce zero, no code hash, and empty.
pub proof fn lemma_absent_account_is_zero(r: Result<AccountExt, RpcError>)
    requires
        spec_account_ext_from_lookup(Ok(None), r),
    ensures
        r matches Ok(v) && v.balance@ == 0 && v.nonce == 0 && v.code_hash is None
            && v.spec_is_empty(),
{
}

/// A record whose code hash is the hash of zero-length bytecode reads as
/// having no code hash, exactly as the same record without one.
pub proof fn lemma_empty_bytecode_hash_is_omitted(a: Account)
    requires
        a.bytecode_hash == Some(keccak_empty()),
    ensures
        spec_normalize(Some(a)).code_hash is None,
        spec_normalize(Some(a)) == spec_normalize(Some(Account { bytecode_hash: None, ..a })),
{
}

/// A record whose code hash is not the hash of zero-length bytecode keeps it
/// unchanged.
pub proof fn lemma_code_hash_is_kept(a: Account, h: H256)
    requires
        a.bytecode_hash == Some(h),
        h != keccak_empty(),
    ensures
        spec_normalize(Some(a)).code_hash == Some(h),
{
}

/// The balance and nonce of a record are carried over unchanged.
pub proof fn lemma_balance_and_nonce_verbatim(a: Account)
    ensures
        spec_normalize(Some(a)).balance == a.balance,
        spec_normalize(Some(a)).balance@ == a.balance@,
        spec_normalize(Some(a)).nonce == a.nonce,
{
}

/// Whether the canonical view of a lookup is empty agrees with testing the
/// record itself: no record, or nonce and balance zero and a code hash that
/// is absent or the hash of zero-length bytecode.
pub proof fn lemma_is_empty_agrees_with_record(lookup: Option<Account>)
    ensures
        spec_normalize(lookup).spec_is_empty() == match lookup {
            None => true,
            Some(a) => a.nonce == 0 && a.balance@ == 0 && (a.bytecode_hash is None
                || a.bytecode_hash == Some(keccak_empty())),
        },
{
}

} // verus!
