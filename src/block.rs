//! Identifiers of the block whose state a query reads.
use vstd::prelude::*;

use crate::primitives::H256;

verus! {

/// A block named by its number or by a tag.
#[derive(Clone, Copy, Debug, PartialEq, Eq, Structural)]
pub enum BlockNumberOrTag {
    /// The most recent block that the node has committed.
    Latest,
    /// The most recent finalized block.
    Finalized,
    /// The most recent safe block.
    Safe,
    /// The genesis block.
    Earliest,
    /// The block being built from pending transactions.
    Pending,
    /// The block with this number.
    Number(u64),
}

/// A block named by its hash, or by its number or a tag.
#[derive(Clone, Copy, Debug, PartialEq, Eq, Structural)]
pub enum BlockId {
    Hash(H256),
    Number(BlockNumberOrTag),
}

/// The identifier of the most recent committed block.
pub open spec fn spec_latest() -> BlockId {
    BlockId::Number(BlockNumberOrTag::Latest)
}

/// The block that an optional identifier names: the one given, else the
/// latest.
pub open spec fn spec_block_id_or_latest(block_id: Option<BlockId>) -> BlockId {
    match block_id {
        Some(id) => id,
        None => spec_latest(),
    }
}

impl BlockId {
    /// The identifier of the most recent committed block.
    pub fn latest() -> (r: BlockId)
        ensures
            r == spec_latest(),
    {
        BlockId::Number(BlockNumberOrTag::Latest)
    }

    /// The identifier of the block with number `n`.
    pub fn number(n: u64) -> (r: BlockId)
        ensures
            r == BlockId::Number(BlockNumberOrTag::Number(n)),
    {
        BlockId::Number(BlockNumberOrTag::Number(n))
    }
}

/// The block that an optional identifier names: the one given, else the
/// latest.
pub fn block_id_or_latest(block_id: Option<BlockId>) -> (r: BlockId)
    ensures
        r == spec_block_id_or_latest(block_id),
{
    match block_id {
        Some(id) => id,
        None => BlockId::latest(),
    }
}

/// No identifier names exactly the block that the `Latest` tag names, and a
/// given identifier is used as it is.
pub proof fn lemma_no_block_id_is_latest(id: BlockId)
    ensures
        spec_block_id_or_latest(None) == BlockId::Number(BlockNumberOrTag::Latest),
        spec_block_id_or_latest(None) == spec_block_id_or_latest(Some(spec_latest())),
        spec_block_id_or_latest(Some(id)) == id,
{
}

} // verus!
