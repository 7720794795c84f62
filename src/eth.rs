//! The `eth_getAccountExt` query over a state provider.
use vstd::prelude::*;

use crate::account::{account_ext_from_lookup, spec_account_ext_from_lookup, Account, AccountExt};
use crate::block::{block_id_or_latest, spec_block_id_or_latest, spec_latest, BlockId};
use crate::error::{ProviderError, RpcError, INTERNAL_ERROR_CODE};
use crate::primitives::Address;
use crate::provider::{AccountReader, StateProviderFactory};

verus! {

/// The extension's query methods.
pub trait EthExtApi {
    /// The balance, nonce and code hash of `address` in the state of the
    /// block that `block_number` names, or of the latest block where it names
    /// none. Transactions still pending are not taken into account.
    fn get_account_ext(&self, address: Address, block_number: Option<BlockId>) -> (r: Result<
        AccountExt,
        RpcError,
    >)
        ensures
            r matches Ok(v) ==> v.is_canonical(),
            r matches Err(e) ==> e.code == INTERNAL_ERROR_CODE,
    ;
}

/// The extension: the query methods over a state provider.
pub struct EthExt<Provider> {
    inner: EthExtApiInner<Provider>,
}

/// What the query methods share: the state provider.
pub struct EthExtApiInner<Provider> {
    provider: Provider,
}

impl<Provider: StateProviderFactory> EthExt<Provider> {
    /// The provider that the extension reads from.
    pub closed spec fn spec_provider(&self) -> Provider {
        self.inner.provider
    }

    /// An extension that reads from `provider`.
    pub fn new(provider: Provider) -> (r: Self)
        ensures
            r.spec_provider() == provider,
    {
        EthExt { inner: EthExtApiInner { provider } }
    }

    /// The provider that the extension reads from.
    pub fn provider(&self) -> (r: &Provider)
        ensures
            *r == self.spec_provider(),
    {
        &self.inner.provider
    }

    /// The state as of the block that `at` names.
    pub fn state_at_block_id(&self, at: BlockId) -> (r: Result<Provider::State, ProviderError>)
        ensures
            self.spec_provider().spec_resolves(at, r),
    {
        self.provider().state_by_block_id(at)
    }

    /// The state as of the block that `block_id` names, or of the latest
    /// block where it names none: no identifier reads as the `Latest` tag.
    pub fn state_at_block_id_or_latest(&self, block_id: Option<BlockId>) -> (r: Result<
        Provider::State,
        ProviderError,
    >)
        ensures
            self.spec_provider().spec_resolves(spec_block_id_or_latest(block_id), r),
            block_id is None ==> self.spec_provider().spec_resolves(spec_latest(), r),
    {
        self.state_at_block_id(block_id_or_latest(block_id))
    }

    /// The most recent committed state.
    pub fn latest_state(&self) -> (r: Result<Provider::State, ProviderError>)
        ensures
            self.spec_provider().spec_resolves(spec_latest(), r),
    {
        self.provider().latest()
    }

    /// Whether `r` is an answer of the query for `address` at `block_number`:
    /// the state is resolved once; a failure there is an internal error with
    /// the provider's message; else one read of `address` from the resolved
    /// view decides the answer as `spec_account_ext_from_lookup` says.
    pub open spec fn spec_answers(
        &self,
        address: Address,
        block_number: Option<BlockId>,
        r: Result<AccountExt, RpcError>,
    ) -> bool {
        exists|s: Result<Provider::State, ProviderError>|
            #![trigger self.spec_provider().spec_resolves(spec_block_id_or_latest(block_number), s)]
            {
                &&& self.spec_provider().spec_resolves(spec_block_id_or_latest(block_number), s)
                &&& match s {
                    Err(e) => spec_account_ext_from_lookup(Err(e), r),
                    Ok(state) => exists|l: Result<Option<Account>, ProviderError>|
                        #![trigger state.spec_reads(address, l)]
                        state.spec_reads(address, l) && spec_account_ext_from_lookup(l, r),
                }
            }
    }
}

impl<Provider: StateProviderFactory> EthExtApi for EthExt<Provider> {
    fn get_account_ext(&self, address: Address, block_number: Option<BlockId>) -> (r: Result<
        AccountExt,
        RpcError,
    >)
        ensures
            self.spec_answers(address, block_number, r),
    {
        let resolved = self.state_at_block_id_or_latest(block_number);
        match resolved {
            Ok(state) => {
                let lookup = state.basic_account(address);
                let r = account_ext_from_lookup(lookup);
                proof {
                    assert(state.spec_reads(address, lookup) && spec_account_ext_from_lookup(lookup, r));
                    assert(self.spec_provider().spec_resolves(spec_block_id_or_latest(block_number), resolved));
                }
                r
            },
            Err(e) => {
                let ghost err = e;
                let r = Err(RpcError::from_provider(e));
                proof {
                    assert(spec_account_ext_from_lookup(Err(err), r));
                    assert(self.spec_provider().spec_resolves(spec_block_id_or_latest(block_number), resolved));
                }
                r
            },
        }
    }
}

} // verus!
