//! Which block a request is about.

use crate::primitives::B256;
use vstd::prelude::*;

verus! {

/// A block by number, or by what it is to the chain.
#[derive(Clone, Copy, Debug, PartialEq, Eq)]
pub enum BlockNumberOrTag {
    /// The latest block.
    Latest,
    /// The finalized block.
    Finalized,
    /// The safe head.
    Safe,
    /// The first block.
    Earliest,
    /// The block that is not yet part of the chain.
    Pending,
    /// The block with a number.
    Number(u64),
}

/// A block by hash, number or tag.
#[derive(Clone, Copy, Debug, PartialEq, Eq)]
pub enum BlockId {
    /// The block with a hash, and whether it has to be canonical.
    Hash { block_hash: B256, require_canonical: Option<bool> },
    /// The block with a number or tag.
    Number(BlockNumberOrTag),
}

/// How many transactions of a block come before a call.
#[derive(Clone, Copy, Debug, PartialEq, Eq)]
pub enum TransactionIndex {
    /// All of them.
    All,
    /// Those before an index.
    Index(usize),
}

impl BlockId {
    /// The latest block.
    pub open spec fn latest() -> BlockId {
        BlockId::Number(BlockNumberOrTag::Latest)
    }

    /// The block with a hash, canonical or not.
    pub open spec fn of_hash(block_hash: B256) -> BlockId {
        BlockId::Hash { block_hash, require_canonical: None }
    }

    /// The block that a request is about: the latest, unless it names another.
    pub open spec fn requested(block: Option<BlockId>) -> BlockId {
        match block {
            Some(id) => id,
            None => BlockId::latest(),
        }
    }

    /// Whether this is the pending block.
    pub open spec fn pending(self) -> bool {
        self == BlockId::Number(BlockNumberOrTag::Pending)
    }

    /// Whether this is the pending block.
    pub fn is_pending(&self) -> (pending: bool)
        ensures
            pending == self.pending(),
    {
        match self {
            BlockId::Number(BlockNumberOrTag::Pending) => true,
            _ => false,
        }
    }

    /// The block with a hash, canonical or not.
    pub fn from_hash(block_hash: B256) -> (id: BlockId)
        ensures
            id == BlockId::of_hash(block_hash),
    {
        BlockId::Hash { block_hash, require_canonical: None }
    }

    /// The block that a request is about: the latest, unless it names another.
    pub fn or_latest(block: Option<BlockId>) -> (id: BlockId)
        ensures
            id == BlockId::requested(block),
    {
        match block {
            Some(id) => id,
            None => BlockId::Number(BlockNumberOrTag::Latest),
        }
    }
}

} // verus!
