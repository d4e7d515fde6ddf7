//! Which transactions of a block come before another.

use crate::block::TransactionIndex;
use crate::primitives::B256;
use vstd::prelude::*;

verus! {

/// The hashes of a list.
pub open spec fn hash_values(hashes: Seq<B256>) -> Seq<Seq<u8>> {
    Seq::new(hashes.len(), |i: int| hashes[i]@)
}

/// How many transactions come before the first with a hash: all of them where none has
/// it.
pub open spec fn count_before(hashes: Seq<Seq<u8>>, target: Seq<u8>) -> nat
    decreases hashes.len(),
{
    if hashes.len() == 0 || hashes[0] == target {
        0
    } else {
        1 + count_before(hashes.drop_first(), target)
    }
}

/// The transactions before the first with a hash do not have it, and the one after them
/// has it.
pub proof fn count_before_finds_target(hashes: Seq<Seq<u8>>, target: Seq<u8>)
    ensures
        count_before(hashes, target) <= hashes.len(),
        forall|i: int| 0 <= i < count_before(hashes, target) ==> #[trigger] hashes[i] != target,
        count_before(hashes, target) < hashes.len() ==> hashes[count_before(hashes, target) as int] == target,
        hashes.contains(target) <==> count_before(hashes, target) < hashes.len(),
    decreases hashes.len(),
{
    if hashes.len() > 0 && hashes[0] != target {
        let rest = hashes.drop_first();
        count_before_finds_target(rest, target);
        assert forall|i: int| 0 <= i < count_before(hashes, target) implies #[trigger] hashes[i] != target by {
            if i > 0 {
                assert(rest[i - 1] == hashes[i]);
            }
        }
        if hashes.contains(target) {
            let i = hashes.index_of(target);
            assert(rest[i - 1] == target);
        }
    }
}

/// How many transactions come before the first with a hash: all of them where none has
/// it.
pub fn transactions_before(hashes: &[B256], target: &B256) -> (count: usize)
    ensures
        count == count_before(hash_values(hashes@), target@),
{
    let ghost values = hash_values(hashes@);
    let mut count: usize = 0;
    assert(values.skip(0) =~= values);
    while count < hashes.len() && !hashes[count].same(target)
        invariant
            count <= hashes@.len(),
            values == hash_values(hashes@),
            count_before(values, target@) == count + count_before(values.skip(count as int), target@),
        decreases hashes@.len() - count,
    {
        assert(values.skip(count as int)[0] == hashes@[count as int]@);
        assert(values.skip(count as int).drop_first() =~= values.skip(count + 1));
        count = count + 1;
    }
    assert(count < hashes@.len() ==> values.skip(count as int)[0] == hashes@[count as int]@);
    count
}

/// How many transactions of a block come before a call: all of them, unless an index is
/// given.
pub open spec fn requested_count(index: Option<TransactionIndex>, count: usize) -> usize {
    match index {
        Some(TransactionIndex::Index(i)) => i,
        _ => count,
    }
}

/// How many transactions of a block come before a call.
pub fn transactions_requested(index: Option<TransactionIndex>, count: usize) -> (requested: usize)
    ensures
        requested == requested_count(index, count),
{
    match index {
        Some(TransactionIndex::Index(i)) => i,
        _ => count,
    }
}

/// The state that calls start from: that of a block, and how many transactions of the
/// next block are replayed on it, if it is to be replayed at all.
#[derive(Debug, Clone, Copy, PartialEq, Eq)]
pub struct StartingPoint {
    /// The block whose state it is.
    pub at: B256,
    /// How many transactions are replayed, or none if the block is not replayed.
    pub replay: Option<usize>,
}

/// The state that calls start from. Where all transactions of a block come before them,
/// that is the state of the block itself; else, and for the pending block, whose state
/// may not be there, the transactions are replayed on the state of its parent.
pub open spec fn starting_point(
    pending: bool,
    index: Option<TransactionIndex>,
    hash: B256,
    parent_hash: B256,
    count: usize,
) -> StartingPoint {
    let requested = requested_count(index, count);
    if !pending && requested == count {
        StartingPoint { at: hash, replay: None }
    } else {
        StartingPoint {
            at: parent_hash,
            replay: Some(
                if requested < count {
                    requested
                } else {
                    count
                },
            ),
        }
    }
}

/// The state that calls start from.
pub fn choose_starting_point(
    pending: bool,
    index: Option<TransactionIndex>,
    hash: B256,
    parent_hash: B256,
    count: usize,
) -> (point: StartingPoint)
    ensures
        point == starting_point(pending, index, hash, parent_hash, count),
{
    let requested = transactions_requested(index, count);
    if !pending && requested == count {
        StartingPoint { at: hash, replay: None }
    } else {
        StartingPoint {
            at: parent_hash,
            replay: Some(
                if requested < count {
                    requested
                } else {
                    count
                },
            ),
        }
    }
}

/// No more transactions are replayed than the block has.
pub proof fn replay_is_in_bounds(
    pending: bool,
    index: Option<TransactionIndex>,
    hash: B256,
    parent_hash: B256,
    count: usize,
)
    ensures
        starting_point(pending, index, hash, parent_hash, count).replay matches Some(n) ==> n <= count,
{
}

/// For the pending block the transactions are always replayed.
pub proof fn pending_is_replayed(index: Option<TransactionIndex>, hash: B256, parent_hash: B256, count: usize)
    ensures
        starting_point(true, index, hash, parent_hash, count).at == parent_hash,
        starting_point(true, index, hash, parent_hash, count).replay is Some,
{
}

} // verus!
