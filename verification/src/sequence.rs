//! `eth_callSequence`: calls executed one after the other over the same state.
//!
//! The node does the work, one step at a time: [`CallSequence::action`] says which step
//! is next, and [`CallSequence::advance`] takes what came of it.

use crate::block::BlockId;
use crate::errors::{CallError, InvalidParams};
use crate::outcome::{
    balance_of, balance_or_zero, build_call_result, call_result, result_values, CallResult, CallSequenceResult,
    Execution,
};
use crate::primitives::{Address, B256};
use crate::word::U256;
use vstd::prelude::*;

verus! {

/// What the node has to do next.
#[derive(Debug, Clone, Copy, PartialEq, Eq)]
pub enum SequenceAction {
    /// Look up the hash of a block.
    ResolveBlock(BlockId),
    /// Load the environment of a block and the state at it.
    Load(BlockId),
    /// Prepare the call with an index, and apply the state overrides if it says so.
    Prepare { index: usize, apply_state_override: bool },
    /// Read the balance of an account.
    ReadBalance(Address),
    /// Execute the call that was prepared, without committing its changes.
    Execute,
    /// Commit the changes of the call that was executed.
    Commit,
    /// Nothing: the request is answered.
    Finish,
}

/// What came of an action.
#[derive(Debug)]
pub enum SequenceEvent<E> {
    /// The hash of the block, if there is such a block.
    BlockHash(Result<Option<B256>, E>),
    /// Environment and state were loaded.
    Loaded(Result<(), E>),
    /// The call was prepared. It is sent by the account.
    Prepared(Result<Address, E>),
    /// The balance of the account, if there is such an account.
    Balance(Result<Option<U256>, E>),
    /// The call was executed.
    Executed(Result<Execution, E>),
    /// The changes were committed.
    Committed,
}

/// How far a sequence of calls is.
#[derive(Debug)]
pub enum SequencePhase<E> {
    /// The hash of the block is wanted.
    ResolveBlock { target: BlockId },
    /// Environment and state of the block are wanted.
    Load { target: BlockId },
    /// The next call is to be prepared.
    Prepare,
    /// The balance of the sender before the call is wanted.
    ReadBefore { caller: Address },
    /// The call is to be executed.
    Execute { caller: Address, before: Option<U256> },
    /// The changes of the call are to be committed.
    Commit { caller: Address, before: Option<U256>, execution: Execution },
    /// The balance of the sender after the call is wanted.
    ReadAfter { caller: Address, before: Option<U256>, execution: Execution },
    /// The request is answered.
    Finished(Result<(), CallError<E>>),
}

/// A sequence of calls on its way.
#[derive(Debug)]
pub struct CallSequence<E> {
    calls: usize,
    results: Vec<CallSequenceResult>,
    phase: SequencePhase<E>,
}

/// A sequence of calls on its way: how many calls there are, the results so far, and
/// how far it is.
pub struct SequenceState<E> {
    pub calls: usize,
    pub results: Seq<CallResult>,
    pub phase: SequencePhase<E>,
}

impl<E> View for CallSequence<E> {
    type V = SequenceState<E>;

    closed spec fn view(&self) -> SequenceState<E> {
        SequenceState { calls: self.calls, results: result_values(self.results@), phase: self.phase }
    }
}

impl<E> SequenceState<E> {
    /// A request for a number of calls at a block. Without calls it fails. The hash of
    /// the block is looked up first, unless it is the pending block, which has none.
    pub open spec fn start(calls: usize, block: Option<BlockId>) -> SequenceState<E> {
        let target = BlockId::requested(block);
        SequenceState {
            calls,
            results: Seq::empty(),
            phase: if calls == 0 {
                SequencePhase::Finished(Err(CallError::InvalidParams(InvalidParams::CallsEmpty)))
            } else if target.pending() {
                SequencePhase::Load { target }
            } else {
                SequencePhase::ResolveBlock { target }
            },
        }
    }

    /// The same sequence in another phase.
    pub open spec fn at(self, phase: SequencePhase<E>) -> SequenceState<E> {
        SequenceState { phase, ..self }
    }

    /// The same sequence, failed.
    pub open spec fn failed(self, error: CallError<E>) -> SequenceState<E> {
        self.at(SequencePhase::Finished(Err(error)))
    }

    /// The sequence with one more result.
    pub open spec fn with_result(self, result: CallResult) -> SequenceState<E> {
        SequenceState {
            calls: self.calls,
            results: self.results.push(result),
            phase: if self.results.len() + 1 < self.calls {
                SequencePhase::Prepare
            } else {
                SequencePhase::Finished(Ok(()))
            },
        }
    }

    /// What an event makes of the sequence. One that does not answer the action that is
    /// due changes nothing.
    pub open spec fn after(self, event: SequenceEvent<E>) -> SequenceState<E> {
        match (self.phase, event) {
            (SequencePhase::ResolveBlock { target }, SequenceEvent::BlockHash(found)) => match found {
                Ok(Some(hash)) => self.at(SequencePhase::Load { target: BlockId::of_hash(hash) }),
                _ => self.failed(CallError::HeaderNotFound(target)),
            },
            (SequencePhase::Load { .. }, SequenceEvent::Loaded(loaded)) => match loaded {
                Ok(_) => self.at(SequencePhase::Prepare),
                Err(error) => self.failed(CallError::Node(error)),
            },
            (SequencePhase::Prepare, SequenceEvent::Prepared(prepared)) => match prepared {
                Ok(caller) => self.at(SequencePhase::ReadBefore { caller }),
                Err(error) => self.failed(CallError::Node(error)),
            },
            (SequencePhase::ReadBefore { caller }, SequenceEvent::Balance(balance)) => match balance {
                Ok(before) => self.at(SequencePhase::Execute { caller, before }),
                Err(error) => self.failed(CallError::Node(error)),
            },
            (SequencePhase::Execute { caller, before }, SequenceEvent::Executed(executed)) => match executed {
                Ok(execution) => self.at(SequencePhase::Commit { caller, before, execution }),
                Err(error) => self.failed(CallError::Node(error)),
            },
            (SequencePhase::Commit { caller, before, execution }, SequenceEvent::Committed) => self.at(
                SequencePhase::ReadAfter { caller, before, execution },
            ),
            (SequencePhase::ReadAfter { before, execution, .. }, SequenceEvent::Balance(balance)) => match balance {
                Ok(after) => self.with_result(call_result(execution, balance_or_zero(before), balance_or_zero(after))),
                Err(error) => self.failed(CallError::Node(error)),
            },
            _ => self,
        }
    }

    /// The action that is due. State overrides are for the first call alone.
    pub open spec fn due(self) -> SequenceAction {
        match self.phase {
            SequencePhase::ResolveBlock { target } => SequenceAction::ResolveBlock(target),
            SequencePhase::Load { target } => SequenceAction::Load(target),
            SequencePhase::Prepare => SequenceAction::Prepare {
                index: self.results.len() as usize,
                apply_state_override: self.results.len() == 0,
            },
            SequencePhase::ReadBefore { caller } => SequenceAction::ReadBalance(caller),
            SequencePhase::Execute { .. } => SequenceAction::Execute,
            SequencePhase::Commit { .. } => SequenceAction::Commit,
            SequencePhase::ReadAfter { caller, .. } => SequenceAction::ReadBalance(caller),
            SequencePhase::Finished(_) => SequenceAction::Finish,
        }
    }
}

impl<E> CallSequence<E> {
    /// A request for a number of calls at a block, the latest unless it names another.
    pub fn call_sequence(calls: usize, block: Option<BlockId>) -> (sequence: CallSequence<E>)
        ensures
            sequence@ == SequenceState::<E>::start(calls, block),
    {
        let target = BlockId::or_latest(block);
        let phase = if calls == 0 {
            SequencePhase::Finished(Err(CallError::InvalidParams(InvalidParams::CallsEmpty)))
        } else if target.is_pending() {
            SequencePhase::Load { target }
        } else {
            SequencePhase::ResolveBlock { target }
        };
        let sequence = CallSequence { calls, results: Vec::new(), phase };
        assert(sequence@.results =~= Seq::empty());
        sequence
    }

    /// The action that is due.
    pub fn action(&self) -> (action: SequenceAction)
        ensures
            action == self@.due(),
    {
        match &self.phase {
            SequencePhase::ResolveBlock { target } => SequenceAction::ResolveBlock(*target),
            SequencePhase::Load { target } => SequenceAction::Load(*target),
            SequencePhase::Prepare => SequenceAction::Prepare {
                index: self.results.len(),
                apply_state_override: self.results.len() == 0,
            },
            SequencePhase::ReadBefore { caller } => SequenceAction::ReadBalance(*caller),
            SequencePhase::Execute { .. } => SequenceAction::Execute,
            SequencePhase::Commit { .. } => SequenceAction::Commit,
            SequencePhase::ReadAfter { caller, .. } => SequenceAction::ReadBalance(*caller),
            SequencePhase::Finished(_) => SequenceAction::Finish,
        }
    }

    /// Takes what came of the action that was due.
    pub fn advance(self, event: SequenceEvent<E>) -> (next: CallSequence<E>)
        ensures
            next@ == self@.after(event),
    {
        let CallSequence { calls, results, phase } = self;
        let phase = match (phase, event) {
            (SequencePhase::ResolveBlock { target }, SequenceEvent::BlockHash(found)) => match found {
                Ok(Some(hash)) => SequencePhase::Load { target: BlockId::from_hash(hash) },
                _ => SequencePhase::Finished(Err(CallError::HeaderNotFound(target))),
            },
            (SequencePhase::Load { .. }, SequenceEvent::Loaded(loaded)) => match loaded {
                Ok(_) => SequencePhase::Prepare,
                Err(error) => SequencePhase::Finished(Err(CallError::Node(error))),
            },
            (SequencePhase::Prepare, SequenceEvent::Prepared(prepared)) => match prepared {
                Ok(caller) => SequencePhase::ReadBefore { caller },
                Err(error) => SequencePhase::Finished(Err(CallError::Node(error))),
            },
            (SequencePhase::ReadBefore { caller }, SequenceEvent::Balance(balance)) => match balance {
                Ok(before) => SequencePhase::Execute { caller, before },
                Err(error) => SequencePhase::Finished(Err(CallError::Node(error))),
            },
            (SequencePhase::Execute { caller, before }, SequenceEvent::Executed(executed)) => match executed {
                Ok(execution) => SequencePhase::Commit { caller, before, execution },
                Err(error) => SequencePhase::Finished(Err(CallError::Node(error))),
            },
            (
                SequencePhase::Commit { caller, before, execution },
                SequenceEvent::Committed,
            ) => SequencePhase::ReadAfter { caller, before, execution },
            (SequencePhase::ReadAfter { caller: _, before, execution }, SequenceEvent::Balance(balance)) => match balance {
                Ok(after) => {
                    return Self::with_result(calls, results, build_call_result(
                        execution,
                        balance_of(before),
                        balance_of(after),
                    ));
                },
                Err(error) => SequencePhase::Finished(Err(CallError::Node(error))),
            },
            (phase, _) => phase,
        };
        CallSequence { calls, results, phase }
    }

    /// The sequence with one more result.
    fn with_result(calls: usize, results: Vec<CallSequenceResult>, result: CallSequenceResult) -> (next: CallSequence<
        E,
    >)
        ensures
            next@.calls == calls,
            next@.results == result_values(results@).push(result@),
            next@.phase == if results@.len() + 1 < calls {
                SequencePhase::<E>::Prepare
            } else {
                SequencePhase::<E>::Finished(Ok(()))
            },
    {
        let mut results = results;
        let ghost before = results@;
        results.push(result);
        assert(result_values(results@) =~= result_values(before).push(result@));
        let phase = if results.len() < calls {
            SequencePhase::Prepare
        } else {
            SequencePhase::Finished(Ok(()))
        };
        CallSequence { calls, results, phase }
    }

    /// The answer to the request, once there is one.
    pub fn answer(self) -> (answer: Option<Result<Vec<CallSequenceResult>, CallError<E>>>)
        ensures
            match answer {
                Some(Ok(results)) => self@.phase is Finished && self@.phase->Finished_0 is Ok && result_values(
                    results@,
                ) == self@.results,
                Some(Err(error)) => self@.phase == SequencePhase::<E>::Finished(Err(error)),
                None => !(self@.phase is Finished),
            },
    {
        match self.phase {
            SequencePhase::Finished(Ok(_)) => Some(Ok(self.results)),
            SequencePhase::Finished(Err(error)) => Some(Err(error)),
            _ => None,
        }
    }
}

/// What a number of events make of a sequence.
pub open spec fn run<E>(state: SequenceState<E>, events: Seq<SequenceEvent<E>>) -> SequenceState<E>
    decreases events.len(),
{
    if events.len() == 0 {
        state
    } else {
        run(state, events.drop_last()).after(events.last())
    }
}

/// What the node reports of one call that works.
pub struct CallReport {
    pub caller: Address,
    pub before: Option<U256>,
    pub execution: Execution,
    pub after: Option<U256>,
}

/// The events of one call that works.
pub open spec fn call_events<E>(report: CallReport) -> Seq<SequenceEvent<E>> {
    seq![
        SequenceEvent::Prepared(Ok(report.caller)),
        SequenceEvent::Balance(Ok(report.before)),
        SequenceEvent::Executed(Ok(report.execution)),
        SequenceEvent::Committed,
        SequenceEvent::Balance(Ok(report.after)),
    ]
}

/// The events of calls that work, one after the other.
pub open spec fn all_call_events<E>(reports: Seq<CallReport>) -> Seq<SequenceEvent<E>>
    decreases reports.len(),
{
    if reports.len() == 0 {
        Seq::empty()
    } else {
        all_call_events(reports.drop_last()) + call_events(reports.last())
    }
}

/// The results of calls that work.
pub open spec fn report_results(reports: Seq<CallReport>) -> Seq<CallResult> {
    Seq::new(
        reports.len(),
        |i: int|
            call_result(
                reports[i].execution,
                balance_or_zero(reports[i].before),
                balance_or_zero(reports[i].after),
            ),
    )
}

/// Events one after the other.
pub proof fn run_appends<E>(state: SequenceState<E>, first: Seq<SequenceEvent<E>>, second: Seq<SequenceEvent<E>>)
    ensures
        run(state, first + second) == run(run(state, first), second),
    decreases second.len(),
{
    if second.len() == 0 {
        assert(first + second =~= first);
    } else {
        run_appends(state, first, second.drop_last());
        assert((first + second).drop_last() =~= first + second.drop_last());
    }
}

/// One event after others.
proof fn run_one_more<E>(state: SequenceState<E>, events: Seq<SequenceEvent<E>>, event: SequenceEvent<E>)
    ensures
        run(state, events.push(event)) == run(state, events).after(event),
{
    assert(events.push(event).drop_last() =~= events);
}

/// The five events of a call add its result.
proof fn one_call_runs<E>(state: SequenceState<E>, report: CallReport)
    requires
        state.phase is Prepare,
    ensures
        run(state, call_events(report)) == state.with_result(
            call_result(report.execution, balance_or_zero(report.before), balance_or_zero(report.after)),
        ),
{
    let none = Seq::<SequenceEvent<E>>::empty();
    let prepared = none.push(SequenceEvent::Prepared(Ok(report.caller)));
    let read = prepared.push(SequenceEvent::Balance(Ok(report.before)));
    let executed = read.push(SequenceEvent::Executed(Ok(report.execution)));
    let committed = executed.push(SequenceEvent::Committed);
    let all = committed.push(SequenceEvent::Balance(Ok(report.after)));
    run_one_more(state, none, SequenceEvent::Prepared(Ok(report.caller)));
    run_one_more(state, prepared, SequenceEvent::Balance(Ok(report.before)));
    run_one_more(state, read, SequenceEvent::Executed(Ok(report.execution)));
    run_one_more(state, executed, SequenceEvent::Committed);
    run_one_more(state, committed, SequenceEvent::Balance(Ok(report.after)));
    assert(call_events::<E>(report) =~= all);
}

/// Calls that work are answered with one result each, in the order of the calls, and
/// each result is that of its call.
pub proof fn calls_are_answered_in_order<E>(state: SequenceState<E>, reports: Seq<CallReport>)
    requires
        state.phase is Prepare,
        state.results.len() == 0,
        reports.len() == state.calls,
        reports.len() > 0,
    ensures
        run(state, all_call_events(reports)) == (SequenceState {
            calls: state.calls,
            results: report_results(reports),
            phase: SequencePhase::<E>::Finished(Ok(())),
        }),
{
    calls_run(state, reports);
}

/// The first calls of a sequence add their results.
proof fn calls_run<E>(state: SequenceState<E>, reports: Seq<CallReport>)
    requires
        state.phase is Prepare,
        state.results.len() == 0,
        reports.len() <= state.calls,
        state.calls > 0,
    ensures
        run(state, all_call_events(reports)) == (SequenceState {
            calls: state.calls,
            results: report_results(reports),
            phase: if reports.len() < state.calls {
                SequencePhase::<E>::Prepare
            } else {
                SequencePhase::<E>::Finished(Ok(()))
            },
        }),
    decreases reports.len(),
{
    if reports.len() == 0 {
        assert(report_results(reports) =~= Seq::empty());
        assert(state.results =~= Seq::empty());
    } else {
        let earlier = reports.drop_last();
        calls_run(state, earlier);
        let middle = run(state, all_call_events(earlier));
        run_appends(state, all_call_events(earlier), call_events(reports.last()));
        one_call_runs(middle, reports.last());
        assert(report_results(reports) =~= report_results(earlier).push(
            call_result(
                reports.last().execution,
                balance_or_zero(reports.last().before),
                balance_or_zero(reports.last().after),
            ),
        ));
    }
}

/// The changes of a call are committed before the next call is prepared: the next call
/// comes only after the balance that is read once the changes are committed.
pub proof fn commit_comes_before_next_call<E>(state: SequenceState<E>, event: SequenceEvent<E>)
    ensures
        state.after(event).phase is Prepare && !(state.phase is Prepare) ==> state.phase is Load || state.phase is ReadAfter,
        state.after(event).phase is ReadAfter && !(state.phase is ReadAfter) ==> state.phase is Commit
            && event is Committed,
        state.after(event).phase is Commit && !(state.phase is Commit) ==> state.phase is Execute,
{
}

/// State overrides are for the first call alone.
pub proof fn override_is_for_first_call<E>(state: SequenceState<E>)
    ensures
        state.due() matches SequenceAction::Prepare { apply_state_override, .. } ==> (apply_state_override
            <==> state.results.len() == 0),
{
}

/// There are never more results than calls, and a request that is answered without an
/// error has one for each.
pub open spec fn results_in_bounds<E>(state: SequenceState<E>) -> bool {
    match state.phase {
        SequencePhase::Finished(Ok(_)) => state.results.len() == state.calls,
        SequencePhase::Finished(Err(_)) => state.results.len() <= state.calls,
        _ => state.results.len() < state.calls,
    }
}

/// Whatever the node reports, there are never more results than calls, and a request
/// that is answered without an error has one for each.
pub proof fn results_stay_in_bounds<E>(calls: usize, block: Option<BlockId>, events: Seq<SequenceEvent<E>>)
    ensures
        results_in_bounds(run(SequenceState::<E>::start(calls, block), events)),
    decreases events.len(),
{
    if events.len() > 0 {
        results_stay_in_bounds::<E>(calls, block, events.drop_last());
    }
}

/// An answer is final.
pub proof fn answer_is_final<E>(state: SequenceState<E>, events: Seq<SequenceEvent<E>>)
    requires
        state.phase is Finished,
    ensures
        run(state, events) == state,
    decreases events.len(),
{
    if events.len() > 0 {
        answer_is_final(state, events.drop_last());
    }
}

} // verus!
