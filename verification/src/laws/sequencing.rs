//! What holds of any sequence of calls, tracked or not.

use crate::block::{BlockId, BlockNumberOrTag};
use crate::errors::{CallError, InvalidParams};
use crate::logs::{event_signatures, log_values, movements, CallSequenceLog, Movement};
use crate::outcome::{summary_of, Execution, Outcome};
use crate::primitives::{Address, B256};
use crate::sequence::{SequenceAction, SequenceEvent, SequencePhase, SequenceState};
use crate::text::digits;
use crate::token_changes::{erc20_report, erc721_report, reports_erc1155};
use crate::tracking::{
    is_result_of, steps_to, tracked_values, CallSequenceWithBalanceTrackingResult, NativeChange, TrackedAction,
    TrackedEvent, TrackedExecution, TrackedPhase, TrackedResult, TrackedState,
};
use crate::word::U256;
use vstd::prelude::*;

verus! {

/// A sequence without calls is refused. Else the pending block is loaded as it is, and any
/// other block that the request names, by hash, number or tag, has its hash looked up; only
/// a request that names none is about the latest.
pub proof fn sequence_starts_at_its_block<E>(calls: usize, block: Option<BlockId>)
    ensures
        ({
            let start = SequenceState::<E>::start(calls, block);
            let pending = BlockId::Number(BlockNumberOrTag::Pending);
            &&& start.calls == calls
            &&& start.results.len() == 0
            &&& calls == 0 ==> start.phase == SequencePhase::<E>::Finished(
                Err(CallError::InvalidParams(InvalidParams::CallsEmpty)),
            )
            &&& calls > 0 && block == Some(pending) ==> start.due() == SequenceAction::Load(pending)
            &&& calls > 0 && block is Some && block != Some(pending) ==> start.due() == SequenceAction::ResolveBlock(
                block->0,
            )
            &&& calls > 0 && block is None ==> start.due() == SequenceAction::ResolveBlock(
                BlockId::Number(BlockNumberOrTag::Latest),
            )
        }),
{
}

/// A block whose hash is not found, or cannot be looked up, is named in the error; one whose
/// hash is found is loaded by that hash.
pub proof fn sequence_goes_by_hash<E>(state: SequenceState<E>, target: BlockId, hash: B256, error: E)
    requires
        state.due() == SequenceAction::ResolveBlock(target),
    ensures
        state.after(SequenceEvent::BlockHash(Ok(None))).phase == SequencePhase::<E>::Finished(
            Err(CallError::HeaderNotFound(target)),
        ),
        state.after(SequenceEvent::BlockHash(Err(error))).phase == SequencePhase::<E>::Finished(
            Err(CallError::HeaderNotFound(target)),
        ),
        state.after(SequenceEvent::BlockHash(Ok(Some(hash)))).due() == SequenceAction::Load(
            BlockId::Hash { block_hash: hash, require_canonical: None },
        ),
        state.after(SequenceEvent::BlockHash(Ok(Some(hash)))).calls == state.calls,
        state.after(SequenceEvent::BlockHash(Ok(Some(hash)))).results == state.results,
{
}

/// The call that is prepared is the one behind those that are answered; state overrides go
/// with the first alone.
pub proof fn sequence_prepares_next_call<E>(state: SequenceState<E>)
    ensures
        state.due() is Load ==> state.after(SequenceEvent::Loaded(Ok(()))).phase is Prepare && state.after(
            SequenceEvent::Loaded(Ok(())),
        ).results == state.results && state.after(SequenceEvent::Loaded(Ok(()))).calls == state.calls,
        state.phase is Prepare && state.results.len() <= usize::MAX ==> state.due() == (SequenceAction::Prepare {
            index: state.results.len() as usize,
            apply_state_override: state.results.len() == 0,
        }),
{
}

/// A call that works: the balance of its sender is read, it is executed, its changes are
/// committed, and the balance of the same sender is read again. Its result is behind those
/// before it, has the gas and the end of its execution, and has in decimal what the balance
/// after it is above the balance before it, or below.
pub proof fn sequence_answers_call<E>(
    state: SequenceState<E>,
    caller: Address,
    before: Option<U256>,
    execution: Execution,
    after: Option<U256>,
)
    requires
        state.phase is Prepare,
    ensures
        ({
            let prepared = state.after(SequenceEvent::Prepared(Ok(caller)));
            let read = prepared.after(SequenceEvent::Balance(Ok(before)));
            let executed = read.after(SequenceEvent::Executed(Ok(execution)));
            let committed = executed.after(SequenceEvent::Committed);
            let answered = committed.after(SequenceEvent::Balance(Ok(after)));
            let had: nat = if before is Some {
                before->0@
            } else {
                0
            };
            let has: nat = if after is Some {
                after->0@
            } else {
                0
            };
            let result = answered.results.last();
            &&& prepared.due() == SequenceAction::ReadBalance(caller)
            &&& read.due() == SequenceAction::Execute
            &&& executed.due() == SequenceAction::Commit
            &&& committed.due() == SequenceAction::ReadBalance(caller)
            &&& committed.results == state.results
            &&& answered.calls == state.calls
            &&& answered.results.len() == state.results.len() + 1
            &&& answered.results.drop_last() == state.results
            &&& result.summary == summary_of(execution.outcome)
            &&& result.used_gas == execution.used_gas
            &&& has >= had ==> result.from_balance_change == digits((has - had) as nat, 10)
            &&& has < had ==> result.from_balance_change == seq!['-'] + digits((had - has) as nat, 10)
            &&& state.results.len() + 1 < state.calls ==> answered.phase is Prepare
            &&& state.results.len() + 1 >= state.calls ==> answered.phase == SequencePhase::<E>::Finished(Ok(()))
        }),
{
    let prepared = state.after(SequenceEvent::Prepared(Ok(caller)));
    let read = prepared.after(SequenceEvent::Balance(Ok(before)));
    let executed = read.after(SequenceEvent::Executed(Ok(execution)));
    let committed = executed.after(SequenceEvent::Committed);
    let answered = committed.after(SequenceEvent::Balance(Ok(after)));
    assert(answered.results.drop_last() =~= state.results);
}

/// A failure of the node at any step after the block is known is the answer.
pub proof fn failures_end_sequence<E>(state: SequenceState<E>, error: E)
    ensures
        ({
            let failed = SequencePhase::<E>::Finished(Err(CallError::Node(error)));
            &&& state.due() is Load ==> state.after(SequenceEvent::Loaded(Err(error))).phase == failed
            &&& state.due() is Prepare ==> state.after(SequenceEvent::Prepared(Err(error))).phase == failed
            &&& state.due() is ReadBalance ==> state.after(SequenceEvent::Balance(Err(error))).phase == failed
            &&& state.due() is Execute ==> state.after(SequenceEvent::Executed(Err(error))).phase == failed
        }),
{
}

/// An answer stays, and an event that is not asked for changes nothing.
pub proof fn only_answers_move_sequence<E>(state: SequenceState<E>, event: SequenceEvent<E>)
    requires
        !(state.due() is ResolveBlock && event is BlockHash),
        !(state.due() is Load && event is Loaded),
        !(state.due() is Prepare && event is Prepared),
        !(state.due() is ReadBalance && event is Balance),
        !(state.due() is Execute && event is Executed),
        !(state.due() is Commit && event is Committed),
    ensures
        state.after(event) == state,
{
}

/// A tracked sequence without calls is refused. Else the pending block is loaded as it is,
/// and any other block that the request names, by hash, number or tag, has its hash looked
/// up; only a request that names none is about the latest.
pub proof fn tracked_sequence_starts_at_its_block<E>(
    calls: usize,
    block: Option<BlockId>,
    has_state_override: bool,
)
    ensures
        ({
            let start = TrackedState::<E>::start(calls, block, has_state_override);
            let pending = BlockId::Number(BlockNumberOrTag::Pending);
            &&& start.calls == calls
            &&& start.has_state_override == has_state_override
            &&& start.results.len() == 0
            &&& start.native == Map::<Seq<u8>, NativeChange>::empty()
            &&& calls == 0 ==> start.phase == TrackedPhase::<E>::Finished(
                Err(CallError::InvalidParams(InvalidParams::CallsEmpty)),
            )
            &&& calls > 0 && block == Some(pending) ==> start.due() == TrackedAction::Load(pending)
            &&& calls > 0 && block is Some && block != Some(pending) ==> start.due() == TrackedAction::ResolveBlock(
                block->0,
            )
            &&& calls > 0 && block is None ==> start.due() == TrackedAction::ResolveBlock(
                BlockId::Number(BlockNumberOrTag::Latest),
            )
        }),
{
}

/// A block whose hash is not found, or cannot be looked up, is named in the error; one whose
/// hash is found is loaded by that hash.
pub proof fn tracked_sequence_goes_by_hash<E>(
    state: TrackedState<E>,
    target: BlockId,
    hash: B256,
    error: E,
    any: TrackedResult,
)
    requires
        state.due() == TrackedAction::ResolveBlock(target),
    ensures
        state.after(TrackedEvent::BlockHash(Ok(None)), any).phase == TrackedPhase::<E>::Finished(
            Err(CallError::HeaderNotFound(target)),
        ),
        state.after(TrackedEvent::BlockHash(Err(error)), any).phase == TrackedPhase::<E>::Finished(
            Err(CallError::HeaderNotFound(target)),
        ),
        state.after(TrackedEvent::BlockHash(Ok(Some(hash))), any).due() == TrackedAction::Load(
            BlockId::Hash { block_hash: hash, require_canonical: None },
        ),
        state.after(TrackedEvent::BlockHash(Ok(Some(hash))), any).results == state.results,
        state.after(TrackedEvent::BlockHash(Ok(Some(hash))), any).calls == state.calls,
        state.after(TrackedEvent::BlockHash(Ok(Some(hash))), any).native == state.native,
        state.after(TrackedEvent::BlockHash(Ok(Some(hash))), any).has_state_override == state.has_state_override,
{
}

/// The call that is prepared is the one behind those that are answered. State overrides go
/// with the first alone, and so do the precompiles that they move.
pub proof fn tracked_sequence_prepares_next_call<E>(state: TrackedState<E>, any: TrackedResult)
    ensures
        state.due() is Load ==> state.after(TrackedEvent::Loaded(Ok(())), any) == (TrackedState {
            phase: TrackedPhase::<E>::Prepare,
            ..state
        }),
        state.phase is Prepare && state.results.len() <= usize::MAX ==> state.due() == (TrackedAction::Prepare {
            index: state.results.len() as usize,
            apply_state_override: state.results.len() == 0,
        }),
        state.phase is Prepare ==> state.after(TrackedEvent::Prepared(Ok(())), any).due() == (
        TrackedAction::Execute { apply_precompile_overrides: state.results.len() == 0 && state.has_state_override }),
        state.phase is Prepare ==> state.after(TrackedEvent::Prepared(Ok(())), any).native == state.native,
        state.phase is Prepare ==> state.after(TrackedEvent::Prepared(Ok(())), any).results == state.results,
        state.phase is Prepare ==> state.after(TrackedEvent::Prepared(Ok(())), any).calls == state.calls,
{
}

/// After an execution the balance of each account that it touched is read, from the first
/// on; without any its changes are committed at once.
pub proof fn touched_accounts_are_read<E>(state: TrackedState<E>, execution: TrackedExecution, any: TrackedResult)
    requires
        state.due() is Execute,
    ensures
        ({
            let next = state.after(TrackedEvent::Executed(Ok(execution)), any);
            &&& next.native == state.native
            &&& next.results == state.results
            &&& next.calls == state.calls
            &&& next.has_state_override == state.has_state_override
            &&& execution.touched@.len() > 0 ==> next.phase == (TrackedPhase::<E>::ReadTouched { execution, at: 0 })
                && next.due() == TrackedAction::ReadBalance(execution.touched@[0].address)
            &&& execution.touched@.len() == 0 ==> next.phase == (TrackedPhase::<E>::Commit { execution })
        }),
{
}

/// An account whose balance before the call is not that after it is noted with both in
/// hexadecimal and the difference in decimal, over what was noted of it before; one whose
/// balance is the same is not. Then the next account is read, or the changes are committed.
pub proof fn changed_balance_is_noted<E>(
    state: TrackedState<E>,
    execution: TrackedExecution,
    at: usize,
    balance: Option<U256>,
    any: TrackedResult,
)
    requires
        state.phase == (TrackedPhase::<E>::ReadTouched { execution, at }),
        at < execution.touched@.len() <= usize::MAX,
    ensures
        ({
            let next = state.after(TrackedEvent::Balance(Ok(balance)), any);
            let account = execution.touched@[at as int].address.bytes@;
            let had: nat = if balance is Some {
                balance->0@
            } else {
                0
            };
            let has = execution.touched@[at as int].after@;
            let noted = next.native[account];
            &&& state.due() == TrackedAction::ReadBalance(execution.touched@[at as int].address)
            &&& had == has ==> next.native == state.native
            &&& had != has ==> {
                &&& next.native.contains_key(account)
                &&& next.native.remove(account) == state.native.remove(account)
                &&& noted.before == seq!['0', 'x'] + digits(had, 16)
                &&& noted.after == seq!['0', 'x'] + digits(has, 16)
                &&& has > had ==> noted.change == digits((has - had) as nat, 10)
                &&& has < had ==> noted.change == seq!['-'] + digits((had - has) as nat, 10)
            }
            &&& next.results == state.results
            &&& next.calls == state.calls
            &&& at + 1 < execution.touched@.len() ==> next.phase == (TrackedPhase::<E>::ReadTouched {
                execution,
                at: (at + 1) as usize,
            })
            &&& at + 1 == execution.touched@.len() ==> next.phase == (TrackedPhase::<E>::Commit { execution })
        }),
{
    let next = state.after(TrackedEvent::Balance(Ok(balance)), any);
    let account = execution.touched@[at as int].address.bytes@;
    assert(next.native.remove(account) =~= state.native.remove(account));
}

/// Once the changes of a call are committed its result is behind those before it, the next
/// call starts with nothing noted, and the request is answered when there is none.
pub proof fn committed_call_is_answered<E>(state: TrackedState<E>, result: TrackedResult)
    requires
        state.phase is Commit,
    ensures
        ({
            let next = state.after(TrackedEvent::Committed, result);
            &&& state.due() == TrackedAction::Commit
            &&& next.results == state.results.push(result)
            &&& next.native == Map::<Seq<u8>, NativeChange>::empty()
            &&& next.calls == state.calls
            &&& next.has_state_override == state.has_state_override
            &&& state.results.len() + 1 < state.calls ==> next.phase is Prepare
            &&& state.results.len() + 1 >= state.calls ==> next.phase == TrackedPhase::<E>::Finished(Ok(()))
        }),
{
}

/// The result of a tracked call has the end and the gas of its execution and what was noted
/// of native balances. Its token changes are those of the logs of a success, decoded by the
/// five events; a call that fails has none.
pub proof fn tracked_result_is_complete(
    result: TrackedResult,
    used_gas: u64,
    output: Vec<u8>,
    logs: Vec<CallSequenceLog>,
    reason: String,
    native: Map<Seq<u8>, NativeChange>,
)
    ensures
        is_result_of(result, Execution { used_gas, outcome: Outcome::Success { output, logs } }, native) ==> {
            let moves = movements(event_signatures(), log_values(logs@));
            &&& result.summary == summary_of(Outcome::Success { output, logs })
            &&& result.used_gas == used_gas
            &&& result.native == native
            &&& result.erc20 == erc20_report(moves)
            &&& result.erc721 == erc721_report(moves)
            &&& reports_erc1155(result.erc1155, moves)
        },
        is_result_of(result, Execution { used_gas, outcome: Outcome::Revert { output } }, native) ==> {
            &&& result.summary == summary_of(Outcome::Revert { output })
            &&& result.used_gas == used_gas
            &&& result.native == native
            &&& reports_nothing(result)
        },
        is_result_of(result, Execution { used_gas, outcome: Outcome::Halt { reason } }, native) ==> {
            &&& result.summary == summary_of(Outcome::Halt { reason })
            &&& result.used_gas == used_gas
            &&& result.native == native
            &&& reports_nothing(result)
        },
{
    crate::tracking::nothing_to_report();
    let none = Seq::<Movement>::empty();
    assert forall|owner: Seq<u8>, token: Seq<u8>| !#[trigger] crate::token_changes::erc1155_touched(
        none,
        owner,
        token,
    ) by {
        assert forall|id: nat|
            (#[trigger] crate::token_changes::erc1155_net(none, owner, token, id)).magnitude == 0 by {}
    }
    if reports_erc1155(result.erc1155, none) {
        assert(result.erc1155 =~= Map::empty());
    }
}

/// A result without token changes.
pub open spec fn reports_nothing(result: TrackedResult) -> bool {
    &&& result.erc20.dom() == Set::<Seq<u8>>::empty()
    &&& result.erc721.dom() == Set::<Seq<u8>>::empty()
    &&& result.erc1155.dom() == Set::<Seq<u8>>::empty()
}

/// A step that ends a call adds the result of the execution that was committed, with what
/// was noted for it.
pub proof fn step_adds_result_of_execution<E>(
    state: TrackedState<E>,
    execution: TrackedExecution,
    next: TrackedState<E>,
)
    requires
        state.phase == (TrackedPhase::<E>::Commit { execution }),
        steps_to(state, TrackedEvent::Committed, next),
    ensures
        next.results.len() == state.results.len() + 1,
        next.results.last().summary == summary_of(execution.execution.outcome),
        next.results.last().used_gas == execution.execution.used_gas,
        next.results.last().native == state.native,
{
    assert(state.ends_call(TrackedEvent::Committed, execution.execution));
}

/// A failure of the node at any step after the block is known is the answer.
pub proof fn failures_end_tracked_sequence<E>(state: TrackedState<E>, error: E, any: TrackedResult)
    ensures
        ({
            let failed = TrackedPhase::<E>::Finished(Err(CallError::Node(error)));
            &&& state.due() is Load ==> state.after(TrackedEvent::Loaded(Err(error)), any).phase == failed
            &&& state.due() is Prepare ==> state.after(TrackedEvent::Prepared(Err(error)), any).phase == failed
            &&& state.due() is Execute ==> state.after(TrackedEvent::Executed(Err(error)), any).phase == failed
            &&& state.due() is ReadBalance ==> state.after(TrackedEvent::Balance(Err(error)), any).phase == failed
        }),
{
}

/// An answer stays, and an event that is not asked for changes nothing.
pub proof fn only_answers_move_tracked_sequence<E>(
    state: TrackedState<E>,
    event: TrackedEvent<E>,
    any: TrackedResult,
)
    requires
        !(state.due() is ResolveBlock && event is BlockHash),
        !(state.due() is Load && event is Loaded),
        !(state.due() is Prepare && event is Prepared),
        !(state.due() is Execute && event is Executed),
        !(state.due() is ReadBalance && event is Balance),
        !(state.due() is Commit && event is Committed),
    ensures
        state.after(event, any) == state,
{
}

/// The results of a list are those at each position, with all that they hold.
pub proof fn tracked_lists_hold_what_they_list(results: Seq<CallSequenceWithBalanceTrackingResult>)
    ensures
        tracked_values(results).len() == results.len(),
        forall|i: int|
            0 <= i < results.len() ==> {
                let value = #[trigger] tracked_values(results)[i];
                &&& value.summary.ok == results[i].ok
                &&& value.summary.result == results[i].result@
                &&& value.summary.logs == log_values(results[i].logs@)
                &&& value.summary.revert_reason == results[i].revert_reason@
                &&& value.used_gas == results[i].used_gas
                &&& value.native == results[i].native_changes.deep_view()
                &&& value.erc20 == results[i].erc20_changes.deep_view()
                &&& value.erc721 == results[i].erc721_changes.deep_view()
                &&& value.erc1155 == results[i].erc1155_changes.deep_view()
            },
{
}

/// No step of a sequence changes how many calls there are, and no step but the last of a call
/// changes the results.
pub proof fn steps_keep_the_rest<E>(state: SequenceState<E>, event: SequenceEvent<E>)
    ensures
        state.after(event).calls == state.calls,
        !(state.phase is ReadAfter && event is Balance) ==> state.after(event).results == state.results,
{
}

/// No step of a tracked sequence changes what the request asks for. What is noted of native
/// balances changes when one is read or a call is committed, and the results when a call is
/// committed; no other step changes these.
pub proof fn tracked_steps_keep_the_rest<E>(state: TrackedState<E>, event: TrackedEvent<E>, result: TrackedResult)
    ensures
        ({
            let next = state.after(event, result);
            let commits = state.due() is Commit && event is Committed;
            let reads = state.due() is ReadBalance && event is Balance;
            &&& next.calls == state.calls
            &&& next.has_state_override == state.has_state_override
            &&& !commits ==> next.results == state.results
            &&& !commits && !reads ==> next.native == state.native
        }),
{
}

/// Nothing is due once a request is answered, and only then.
pub proof fn nothing_is_due_once_answered<E>(state: SequenceState<E>, tracking: TrackedState<E>)
    ensures
        state.due() is Finish <==> state.phase is Finished,
        tracking.due() is Finish <==> tracking.phase is Finished,
{
}

} // verus!
