//! What holds of any replay of transactions.

use crate::block::{BlockId, TransactionIndex};
use crate::errors::CallError;
use crate::primitives::B256;
use crate::replay::{count_before, count_before_finds_target, hash_values, requested_count, starting_point};
use crate::replay_until::{UntilAction, UntilPhase};
use crate::transaction_replay::{ReplayAction, ReplayEvent, ReplayPhase, ReplayState, TransactionBlock};
use vstd::prelude::*;

verus! {

/// Hashes are those at each position, with their bytes.
pub proof fn hashes_hold_what_they_list(hashes: Seq<B256>)
    ensures
        hash_values(hashes).len() == hashes.len(),
        forall|i: int| 0 <= i < hashes.len() ==> #[trigger] hash_values(hashes)[i] == hashes[i].bytes@,
{
}

/// A transaction whose hash is at a position and at none before it has that many before it;
/// one whose hash is nowhere has all of them.
pub proof fn transactions_before_are_counted(hashes: Seq<Seq<u8>>, target: Seq<u8>, at: nat)
    requires
        at <= hashes.len(),
        forall|i: int| 0 <= i < at ==> #[trigger] hashes[i] != target,
        at < hashes.len() ==> hashes[at as int] == target,
    ensures
        count_before(hashes, target) == at,
{
    count_before_finds_target(hashes, target);
    let count = count_before(hashes, target);
    if count < at {
        assert(hashes[count as int] != target);
    } else if at < count {
        assert(hashes[at as int] != target);
    }
}

/// An index is how many transactions come before a call, whatever the block has; without one,
/// or with that of all, it is as many as the block has.
pub proof fn index_is_number_of_transactions(i: usize, count: usize)
    ensures
        requested_count(Some(TransactionIndex::Index(i)), count) == i,
        requested_count(Some(TransactionIndex::All), count) == count,
        requested_count(None, count) == count,
{
}

/// Calls after all transactions of a block start from its own state, unless it is pending;
/// any other start from the state of the parent, with the transactions replayed that the
/// index asks for and that there are.
pub proof fn calls_start_where_index_says(pending: bool, i: usize, hash: B256, parent_hash: B256, count: usize)
    ensures
        ({
            let given = starting_point(pending, Some(TransactionIndex::Index(i)), hash, parent_hash, count);
            let all = starting_point(pending, Some(TransactionIndex::All), hash, parent_hash, count);
            &&& starting_point(pending, None, hash, parent_hash, count) == all
            &&& !pending ==> all.at == hash && all.replay is None
            &&& pending ==> all.at == parent_hash && all.replay == Some(count)
            &&& !pending && i == count ==> given.at == hash && given.replay is None
            &&& pending || i != count ==> given.at == parent_hash
            &&& (pending || i != count) && i <= count ==> given.replay == Some(i)
            &&& (pending || i != count) && i > count ==> given.replay == Some(count)
        }),
{
}

/// A replay up to a transaction executes those before it, from the first on; without any it
/// is answered at once. Its answer is the position of the transaction, or the number of all
/// where it is not among them.
pub proof fn replay_goes_up_to_target<E>(hashes: Seq<Seq<u8>>, target: Seq<u8>, at: nat)
    requires
        at <= hashes.len() <= usize::MAX,
        forall|i: int| 0 <= i < at ==> #[trigger] hashes[i] != target,
        at < hashes.len() ==> hashes[at as int] == target,
    ensures
        ({
            let start = UntilPhase::<E>::start(hashes, target);
            &&& at == 0 ==> start == UntilPhase::<E>::Finished(Ok(0))
            &&& at > 0 ==> start == (UntilPhase::<E>::Execute { done: 0, count: at as usize }) && start.due()
                == UntilAction::Execute(0)
        }),
{
    transactions_before_are_counted(hashes, target, at);
}

/// Behind a transaction that works comes the next one; behind the last the replay is answered
/// with how many there were. A failure is the answer. An answer stays.
pub proof fn replay_goes_on<E>(done: usize, count: usize, error: E, answer: Result<usize, CallError<E>>, came: Result<(), E>)
    requires
        done < count,
    ensures
        ({
            let state = UntilPhase::<E>::Execute { done, count };
            &&& state.due() == UntilAction::Execute(done)
            &&& done + 1 < count ==> state.after(Ok(())) == (UntilPhase::<E>::Execute {
                done: (done + 1) as usize,
                count,
            })
            &&& done + 1 == count ==> state.after(Ok(())) == UntilPhase::<E>::Finished(Ok(count))
            &&& state.after(Err(error)) == UntilPhase::<E>::Finished(Err(CallError::Node(error)))
        }),
        UntilPhase::<E>::Finished(answer).due() == UntilAction::Finish,
        UntilPhase::<E>::Finished(answer).after(came) == UntilPhase::<E>::Finished(answer),
{
}

/// A transaction is looked up first. One that is not there is answered as such; of one that is
/// there, the state at the parent of its block is loaded and what comes before the
/// transactions of the block is applied.
pub proof fn transaction_is_looked_up_first<E>(target: B256, block: TransactionBlock)
    ensures
        ({
            let start = ReplayState::<E>::start(target);
            let found = start.after(ReplayEvent::Found(Ok(Some(block))));
            let loaded = found.after(ReplayEvent::StateLoaded(Ok(())));
            &&& start.target == target
            &&& start.due() == ReplayAction::LookUp(target)
            &&& start.after(ReplayEvent::Found(Ok(None))).phase == ReplayPhase::<E>::Finished(Ok(false))
            &&& found.target == target
            &&& found.due() == ReplayAction::LoadState(
                BlockId::Hash { block_hash: block.parent_hash, require_canonical: None },
            )
            &&& loaded.target == target
            &&& loaded.due() == ReplayAction::Begin
            &&& loaded.phase == (ReplayPhase::<E>::Begin { block })
        }),
{
}

/// The transactions of the block before the one that was looked up are replayed from the
/// first on, and then that one is executed; where it comes first, or none is before it, at
/// once.
pub proof fn transactions_before_come_first<E>(state: ReplayState<E>, block: TransactionBlock, at: nat)
    requires
        state.phase == (ReplayPhase::<E>::Begin { block }),
        at <= block.transactions@.len() <= usize::MAX,
        forall|i: int| 0 <= i < at ==> (#[trigger] block.transactions@[i]).bytes@ != state.target.bytes@,
        at < block.transactions@.len() ==> block.transactions@[at as int].bytes@ == state.target.bytes@,
    ensures
        ({
            let begun = state.after(ReplayEvent::Begun(Ok(())));
            &&& begun.target == state.target
            &&& at == 0 ==> begun.phase is Transact && begun.due() == ReplayAction::Transact
            &&& at > 0 ==> begun.phase == (ReplayPhase::<E>::Replay { done: 0, count: at as usize }) && begun.due()
                == ReplayAction::Replay(0)
        }),
{
    let hashes = hash_values(block.transactions@);
    assert forall|i: int| 0 <= i < at implies #[trigger] hashes[i] != state.target@ by {
        assert(block.transactions@[i].bytes@ != state.target.bytes@);
    }
    transactions_before_are_counted(hashes, state.target@, at);
}

/// Behind a transaction that is replayed comes the next one, and behind the last the one that
/// was looked up, whose execution is the answer.
pub proof fn transaction_comes_last<E>(state: ReplayState<E>, done: usize, count: usize)
    requires
        done < count,
    ensures
        state.phase == (ReplayPhase::<E>::Replay { done, count }) ==> {
            let replayed = state.after(ReplayEvent::Replayed(Ok(())));
            &&& state.due() == ReplayAction::Replay(done)
            &&& replayed.target == state.target
            &&& done + 1 < count ==> replayed.phase == (ReplayPhase::<E>::Replay {
                done: (done + 1) as usize,
                count,
            })
            &&& done + 1 == count ==> replayed.phase is Transact
        },
        state.phase is Transact ==> state.due() == ReplayAction::Transact && state.after(
            ReplayEvent::Transacted(Ok(())),
        ).phase == ReplayPhase::<E>::Finished(Ok(true)),
        state.phase is Finished <==> state.due() is Finish,
{
}

/// A failure of the node at any step is the answer.
pub proof fn failures_end_replay<E>(state: ReplayState<E>, error: E)
    ensures
        ({
            let failed = ReplayPhase::<E>::Finished(Err(CallError::Node(error)));
            &&& state.due() is LookUp ==> state.after(ReplayEvent::Found(Err(error))).phase == failed
            &&& state.due() is LoadState ==> state.after(ReplayEvent::StateLoaded(Err(error))).phase == failed
            &&& state.due() is Begin ==> state.after(ReplayEvent::Begun(Err(error))).phase == failed
            &&& state.due() is Replay ==> state.after(ReplayEvent::Replayed(Err(error))).phase == failed
            &&& state.due() is Transact ==> state.after(ReplayEvent::Transacted(Err(error))).phase == failed
        }),
{
}

/// An answer stays, and an event that is not asked for changes nothing.
pub proof fn only_answers_move_replay<E>(state: ReplayState<E>, event: ReplayEvent<E>)
    requires
        !(state.due() is LookUp && event is Found),
        !(state.due() is LoadState && event is StateLoaded),
        !(state.due() is Begin && event is Begun),
        !(state.due() is Replay && event is Replayed),
        !(state.due() is Transact && event is Transacted),
    ensures
        state.after(event) == state,
{
}

} // verus!
