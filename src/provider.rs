//! What the query needs of the node's state: views of the account state at a
//! block, and reads of one account from such a view. Nodes and test fixtures
//! implement these.
use vstd::prelude::*;

use crate::account::Account;
use crate::block::{spec_latest, BlockId};
use crate::error::ProviderError;
use crate::primitives::Address;

verus! {

/// A read-only view of the account state as of one block.
pub trait AccountReader {
    /// Whether `r` is an outcome that reading `address` from this view may
    /// have. Each view states its own relation.
    spec fn spec_reads(&self, address: Address, r: Result<Option<Account>, ProviderError>) -> bool;

    /// The record held at `address`, `None` where the view holds none.
    fn basic_account(&self, address: Address) -> (r: Result<Option<Account>, ProviderError>)
        ensures
            self.spec_reads(address, r),
    ;
}

/// A source of state views, one for each block whose state is kept.
pub trait StateProviderFactory {
    /// The views this source hands out.
    type State: AccountReader;

    /// Whether `r` is an outcome that resolving the state of the block that
    /// `block_id` names may have. Each source states its own relation.
    spec fn spec_resolves(&self, block_id: BlockId, r: Result<Self::State, ProviderError>) -> bool;

    /// The view of the most recent committed state: an outcome of resolving
    /// the `Latest` tag.
    fn latest(&self) -> (r: Result<Self::State, ProviderError>)
        ensures
            self.spec_resolves(spec_latest(), r),
    ;

    /// The view of the state as of the block that `block_id` names.
    fn state_by_block_id(&self, block_id: BlockId) -> (r: Result<Self::State, ProviderError>)
        ensures
            self.spec_resolves(block_id, r),
    ;
}

} // verus!
