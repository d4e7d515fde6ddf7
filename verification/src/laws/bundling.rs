//! What holds of any request for bundles of calls.

use crate::block::{BlockId, BlockNumberOrTag, TransactionIndex};
use crate::bundles::{
    bundle_values, next_bundle, run, BlockFacts, BundlesAction, BundlesEvent, BundlesPhase, BundlesState,
    EthCallResponse,
};
use crate::errors::{CallError, InvalidParams};
use crate::primitives::B256;
use vstd::prelude::*;

verus! {

/// A request without bundles is refused. Else the pending block is loaded as it is, and any
/// other block that the request names, by hash, number or tag, has its hash looked up; only
/// a request that names none is about the latest.
pub proof fn request_starts_at_its_block<E>(
    bundles: Seq<usize>,
    index: Option<TransactionIndex>,
    block: Option<BlockId>,
)
    ensures
        ({
            let start = BundlesState::<E>::start(bundles, index, block);
            let pending = BlockId::Number(BlockNumberOrTag::Pending);
            &&& start.bundles == bundles
            &&& start.index == index
            &&& start.done.len() == 0
            &&& start.current.len() == 0
            &&& start.pending == (block == Some(pending))
            &&& bundles.len() == 0 ==> start.phase == BundlesPhase::<E>::Finished(
                Err(CallError::InvalidParams(InvalidParams::BundlesEmpty)),
            )
            &&& bundles.len() > 0 && block == Some(pending) ==> start.due() == BundlesAction::LoadBlock(pending)
            &&& bundles.len() > 0 && block is Some && block != Some(pending) ==> start.due()
                == BundlesAction::ResolveBlock(block->0)
            &&& bundles.len() > 0 && block is None ==> start.due() == BundlesAction::ResolveBlock(
                BlockId::Number(BlockNumberOrTag::Latest),
            )
        }),
{
}

/// The same request: the calls, the index, whether it is for the pending block, and the
/// responses so far.
pub open spec fn same_request<E>(state: BundlesState<E>, next: BundlesState<E>) -> bool {
    &&& next.bundles == state.bundles
    &&& next.index == state.index
    &&& next.pending == state.pending
    &&& next.done == state.done
    &&& next.current == state.current
}

/// A block that is not there is named in the error, whether its hash is looked up or it is
/// loaded; one whose hash is found is loaded by that hash.
pub proof fn request_goes_by_hash<E>(state: BundlesState<E>, target: BlockId, hash: B256)
    ensures
        state.due() == BundlesAction::ResolveBlock(target) ==> {
            &&& state.after(BundlesEvent::BlockHash(Ok(None))).phase == BundlesPhase::<E>::Finished(
                Err(CallError::HeaderNotFound(target)),
            )
            &&& state.after(BundlesEvent::BlockHash(Ok(Some(hash)))).due() == BundlesAction::LoadBlock(
                BlockId::Hash { block_hash: hash, require_canonical: None },
            )
            &&& same_request(state, state.after(BundlesEvent::BlockHash(Ok(Some(hash)))))
        },
        state.due() == BundlesAction::LoadBlock(target) ==> state.after(BundlesEvent::Block(Ok(None))).phase
            == BundlesPhase::<E>::Finished(Err(CallError::HeaderNotFound(target))),
{
}

/// Calls that come after all transactions of a block start from the state of the block, and
/// nothing is replayed. Those that come before some of them, and all calls on the pending
/// block, start from the state of its parent, on which as many transactions are replayed as
/// the index says, and no more than there are. Without an index, or with that of all, the
/// calls come after all transactions.
pub proof fn calls_start_after_their_transactions<E>(state: BundlesState<E>, facts: BlockFacts, i: usize)
    requires
        state.due() is LoadBlock,
    ensures
        ({
            let found = state.after(BundlesEvent::Block(Ok(Some(facts))));
            let made = found.after(BundlesEvent::Environment(Ok(())));
            let loaded = made.after(BundlesEvent::Loaded(Ok(())));
            let count = facts.transactions;
            let all = state.index is None || state.index == Some(TransactionIndex::All);
            let given = state.index == Some(TransactionIndex::Index(i));
            &&& found.due() == BundlesAction::LoadEnvironment
            &&& same_request(state, found)
            &&& same_request(state, made)
            &&& same_request(state, loaded)
            &&& !state.pending && (all || (given && i == count)) ==> made.due() == BundlesAction::LoadState(
                facts.hash,
            ) && !(loaded.phase is BeginReplay) && !(loaded.phase is Replay)
            &&& !state.pending && given && i != count ==> made.due() == BundlesAction::LoadState(facts.parent_hash)
            &&& state.pending ==> made.due() == BundlesAction::LoadState(facts.parent_hash)
            &&& state.pending && all ==> loaded.phase == (BundlesPhase::<E>::BeginReplay { count })
            &&& given && (state.pending || i != count) && i <= count ==> loaded.phase == (
            BundlesPhase::<E>::BeginReplay { count: i })
            &&& given && i > count ==> loaded.phase == (BundlesPhase::<E>::BeginReplay { count })
        }),
{
}

/// The transactions of a replay are executed from the first on, one after the other, and as
/// many as there are to replay.
pub proof fn transactions_are_replayed_in_order<E>(state: BundlesState<E>, next: usize, count: usize)
    requires
        state.bundles.len() <= usize::MAX,
    ensures
        state.phase == (BundlesPhase::<E>::BeginReplay { count }) ==> {
            let begun = state.after(BundlesEvent::ReplayBegun(Ok(())));
            &&& state.due() == BundlesAction::BeginReplay
            &&& same_request(state, begun)
            &&& count > 0 ==> begun.phase == (BundlesPhase::<E>::Replay { next: 0, count }) && begun.due()
                == BundlesAction::Replay(0)
            &&& count == 0 ==> is_at_next_bundle(state, begun, 0)
        },
        state.phase == (BundlesPhase::<E>::Replay { next, count }) ==> {
            let replayed = state.after(BundlesEvent::Replayed(Ok(())));
            &&& state.due() == BundlesAction::Replay(next)
            &&& same_request(state, replayed)
            &&& next + 1 < count ==> replayed.phase == (BundlesPhase::<E>::Replay {
                next: (next + 1) as usize,
                count,
            })
            &&& next + 1 >= count ==> is_at_next_bundle(state, replayed, 0)
        },
{
    next_is_first_with_calls(state, 0);
}

/// A request goes on with the first call of the first bundle from a position on that has
/// calls; where none has, it is answered.
pub open spec fn is_at_next_bundle<E>(state: BundlesState<E>, next: BundlesState<E>, from: int) -> bool {
    ||| next.phase == BundlesPhase::<E>::Finished(Ok(())) && forall|b: int|
        from <= b < state.bundles.len() ==> #[trigger] state.bundles[b] == 0
    ||| next.phase is Prepare && next.phase->Prepare_tx == 0 && {
        let bundle = next.phase->Prepare_bundle as int;
        &&& from <= bundle < state.bundles.len()
        &&& state.bundles[bundle] > 0
        &&& forall|b: int| from <= b < bundle ==> #[trigger] state.bundles[b] == 0
    }
}

/// The next bundle is the first from a position on that has calls; where none has, it is
/// the number of bundles.
pub proof fn next_bundle_is_first_with_calls(bundles: Seq<usize>, from: int)
    requires
        0 <= from <= bundles.len(),
    ensures
        from <= next_bundle(bundles, from) <= bundles.len(),
        next_bundle(bundles, from) < bundles.len() ==> bundles[next_bundle(bundles, from)] > 0,
        forall|b: int| from <= b < next_bundle(bundles, from) ==> #[trigger] bundles[b] == 0,
    decreases bundles.len() - from,
{
    if from < bundles.len() && bundles[from] == 0 {
        next_bundle_is_first_with_calls(bundles, from + 1);
    }
}

/// Going on to the next bundle.
proof fn next_is_first_with_calls<E>(state: BundlesState<E>, from: int)
    requires
        0 <= from <= state.bundles.len() <= usize::MAX,
    ensures
        is_at_next_bundle(state, state.at(state.bundles_from(from)), from),
{
    next_bundle_is_first_with_calls(state.bundles, from);
}

/// Once the state is loaded and nothing is to be replayed, the first bundle that has calls is
/// next.
pub proof fn first_bundle_with_calls_is_next<E>(state: BundlesState<E>)
    requires
        state.phase is LoadState,
        state.phase->LoadState_start.replay is None,
        state.bundles.len() <= usize::MAX,
    ensures
        is_at_next_bundle(state, state.after(BundlesEvent::Loaded(Ok(()))), 0),
        same_request(state, state.after(BundlesEvent::Loaded(Ok(())))),
{
    next_is_first_with_calls(state, 0);
}

/// A call is prepared, executed and committed in turn. Its response is behind those of its
/// bundle and has its output, or the text of why it failed, and not both. State overrides go
/// with a call before which there is no response at all.
pub proof fn call_is_made_in_turn<E>(
    state: BundlesState<E>,
    bundle: usize,
    tx: usize,
    output: Vec<u8>,
    text: String,
)
    requires
        state.phase == (BundlesPhase::<E>::Prepare { bundle, tx }),
    ensures
        ({
            let prepared = state.after(BundlesEvent::Prepared(Ok(())));
            let worked = prepared.after(BundlesEvent::Executed(Ok(Ok(output))));
            let failed = prepared.after(BundlesEvent::Executed(Ok(Err(text))));
            &&& state.due() == (BundlesAction::Prepare {
                bundle,
                tx,
                apply_state_override: state.done.len() == 0 && state.current.len() == 0,
            })
            &&& prepared.due() == BundlesAction::Execute
            &&& same_request(state, prepared)
            &&& worked.phase == (BundlesPhase::<E>::Commit { bundle, tx })
            &&& failed.phase == (BundlesPhase::<E>::Commit { bundle, tx })
            &&& worked.due() == BundlesAction::Commit
            &&& worked.current.len() == state.current.len() + 1
            &&& worked.current.drop_last() == state.current
            &&& worked.current.last().value == Some(output@)
            &&& worked.current.last().error is None
            &&& failed.current.drop_last() == state.current
            &&& failed.current.len() == state.current.len() + 1
            &&& failed.current.last().value is None
            &&& failed.current.last().error == Some(text@)
            &&& worked.done == state.done
            &&& failed.done == state.done
            &&& worked.bundles == state.bundles
            &&& failed.bundles == state.bundles
        }),
{
    let prepared = state.after(BundlesEvent::Prepared(Ok(())));
    assert(prepared.after(BundlesEvent::Executed(Ok(Ok(output)))).current.drop_last() =~= state.current);
    assert(prepared.after(BundlesEvent::Executed(Ok(Err(text)))).current.drop_last() =~= state.current);
}

/// Behind a call comes the next of its bundle. Behind the last of a bundle its responses are
/// put behind those of the bundles before it, and the next bundle that has calls is at hand,
/// without responses so far.
pub proof fn commit_leads_to_next_call<E>(state: BundlesState<E>, bundle: usize, tx: usize)
    requires
        state.phase == (BundlesPhase::<E>::Commit { bundle, tx }),
        bundle < state.bundles.len() <= usize::MAX,
    ensures
        ({
            let next = state.after(BundlesEvent::Committed);
            &&& next.bundles == state.bundles
            &&& tx + 1 < state.bundles[bundle as int] ==> next.phase == (BundlesPhase::<E>::Prepare {
                bundle,
                tx: (tx + 1) as usize,
            }) && same_request(state, next)
            &&& tx + 1 >= state.bundles[bundle as int] ==> {
                &&& is_at_next_bundle(state, next, bundle + 1)
                &&& next.done.len() == state.done.len() + 1
                &&& next.done.drop_last() == state.done
                &&& next.done.last() == state.current
                &&& next.current.len() == 0
            }
        }),
{
    next_is_first_with_calls(state, bundle + 1);
    if tx + 1 >= state.bundles[bundle as int] {
        assert(state.after(BundlesEvent::Committed).done.drop_last() =~= state.done);
    }
}

/// A failure of the node before the calls is the answer; one at a call is the answer with the
/// positions of the bundle and of the call in it.
pub proof fn failures_end_request<E>(state: BundlesState<E>, error: E, bundle: usize, tx: usize)
    ensures
        ({
            let failed = BundlesPhase::<E>::Finished(Err(CallError::Node(error)));
            let failed_call = BundlesPhase::<E>::Finished(
                Err(CallError::CallMany { bundle_index: bundle, tx_index: tx, error }),
            );
            &&& state.due() is ResolveBlock ==> state.after(BundlesEvent::BlockHash(Err(error))).phase == failed
            &&& state.due() is LoadBlock ==> state.after(BundlesEvent::Block(Err(error))).phase == failed
            &&& state.due() is LoadEnvironment ==> state.after(BundlesEvent::Environment(Err(error))).phase
                == failed
            &&& state.due() is LoadState ==> state.after(BundlesEvent::Loaded(Err(error))).phase == failed
            &&& state.due() is BeginReplay ==> state.after(BundlesEvent::ReplayBegun(Err(error))).phase == failed
            &&& state.due() is Replay ==> state.after(BundlesEvent::Replayed(Err(error))).phase == failed
            &&& state.phase == (BundlesPhase::<E>::Prepare { bundle, tx }) ==> state.after(
                BundlesEvent::Prepared(Err(error)),
            ).phase == failed_call
            &&& state.phase == (BundlesPhase::<E>::Execute { bundle, tx }) ==> state.after(
                BundlesEvent::Executed(Err(error)),
            ).phase == failed_call
        }),
{
}

/// An answer stays, and an event that is not asked for changes nothing.
pub proof fn only_answers_move_request<E>(state: BundlesState<E>, event: BundlesEvent<E>)
    requires
        !(state.due() is ResolveBlock && event is BlockHash),
        !(state.due() is LoadBlock && event is Block),
        !(state.due() is LoadEnvironment && event is Environment),
        !(state.due() is LoadState && event is Loaded),
        !(state.due() is BeginReplay && event is ReplayBegun),
        !(state.due() is Replay && event is Replayed),
        !(state.due() is Prepare && event is Prepared),
        !(state.due() is Execute && event is Executed),
        !(state.due() is Commit && event is Committed),
    ensures
        state.after(event) == state,
{
}

/// Nothing is due once a request is answered, and only then.
pub proof fn nothing_is_due_once_answered<E>(state: BundlesState<E>)
    ensures
        state.due() is Finish <==> state.phase is Finished,
        state.due() is Prepare <==> state.phase is Prepare,
        state.due() is Execute <==> state.phase is Execute,
        state.due() is Commit <==> state.phase is Commit,
{
}

/// Responses are those at each position, with the output and the error that they hold.
pub proof fn responses_hold_what_they_list(bundles: Seq<Vec<EthCallResponse>>)
    ensures
        bundle_values(bundles).len() == bundles.len(),
        forall|b: int| 0 <= b < bundles.len() ==> (#[trigger] bundle_values(bundles)[b]).len() == bundles[b]@.len(),
        forall|b: int, i: int|
            0 <= b < bundles.len() && 0 <= i < bundles[b]@.len() ==> {
                let response = bundles[b]@[i];
                let value = #[trigger] bundle_values(bundles)[b][i];
                &&& response.value is Some ==> value.value == Some(response.value->0@)
                &&& response.value is None ==> value.value is None
                &&& response.error is Some ==> value.error == Some(response.error->0@)
                &&& response.error is None ==> value.error is None
            },
{
}

/// For every request with bundles that names a block other than the pending one, nothing is
/// loaded and no call is made before the hash of exactly that block was looked up and found.
pub proof fn named_block_is_looked_up_first<E>(
    bundles: Seq<usize>,
    index: Option<TransactionIndex>,
    block: BlockId,
    events: Seq<BundlesEvent<E>>,
)
    requires
        bundles.len() > 0,
        block != BlockId::Number(BlockNumberOrTag::Pending),
        forall|i: int| 0 <= i < events.len() ==> !(#[trigger] events[i] is BlockHash),
    ensures
        run(BundlesState::<E>::start(bundles, index, Some(block)), events).due() == BundlesAction::ResolveBlock(
            block,
        ),
    decreases events.len(),
{
    if events.len() > 0 {
        let earlier = events.drop_last();
        assert forall|i: int| 0 <= i < earlier.len() implies !(#[trigger] earlier[i] is BlockHash) by {
            assert(earlier[i] == events[i]);
        }
        named_block_is_looked_up_first(bundles, index, block, earlier);
        assert(!(events[events.len() - 1] is BlockHash));
    }
}

/// No step changes what the request asks for. Responses are added to the bundle at hand when a
/// call is executed, and bundles are put with those that are done when a call is committed;
/// no other step changes these.
pub proof fn steps_keep_the_rest<E>(state: BundlesState<E>, event: BundlesEvent<E>)
    ensures
        ({
            let next = state.after(event);
            let executes = state.due() is Execute && event is Executed;
            let commits = state.due() is Commit && event is Committed;
            &&& next.bundles == state.bundles
            &&& next.index == state.index
            &&& next.pending == state.pending
            &&& !commits ==> next.done == state.done
            &&& !commits && !executes ==> next.current == state.current
        }),
{
}

} // verus!
