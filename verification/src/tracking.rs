//! `eth_callSequenceWithBalanceTracking`: calls executed one after the other over the
//! same state, with the native and token balances that each of them changes.
//!
//! The node does the work, one step at a time: [`TrackedSequence::action`] says which
//! step is next, and [`TrackedSequence::advance`] takes what came of it.

use crate::block::BlockId;
use crate::errors::{CallError, InvalidParams};
use crate::ledger::{Erc1155Change, Erc1155Changes, Erc20Changes, Erc721Change, Erc721Changes};
use crate::logs::{event_signatures, log_values, movements, CallSequenceLog, Movement};
use crate::outcome::{
    balance_of, balance_or_zero, call_result, summarize, summary_of, CallResult, Execution, Outcome, Summary,
};
use crate::primitives::{Address, B256};
use crate::sequence::{all_call_events, calls_are_answered_in_order, run, CallReport, SequenceState};
use crate::table::Table;
use crate::text::{hex_text, signed_decimal_text, signed_u256_to_decimal, u256_to_hex};
use crate::token_changes::{
    erc1155_net, erc1155_touched, erc20_net, erc20_report, erc721_report, extract_token_changes,
    reports_erc1155,
};
use crate::word::{word_is_bounded, U256};
use vstd::prelude::*;

verus! {

/// Native balance change for one account.
#[derive(Debug, Clone, PartialEq, Eq)]
pub struct CallSequenceNativeChange {
    /// Signed delta encoded as decimal string.
    pub change: String,
    /// Balance before the call.
    pub before: String,
    /// Balance after the call.
    pub after: String,
}

/// What a native balance changed by, and what it was before and after.
pub struct NativeChange {
    pub change: Seq<char>,
    pub before: Seq<char>,
    pub after: Seq<char>,
}

impl DeepView for CallSequenceNativeChange {
    type V = NativeChange;

    open spec fn deep_view(&self) -> NativeChange {
        NativeChange { change: self.change@, before: self.before@, after: self.after@ }
    }
}

/// Per-transaction result returned by `eth_callSequenceWithBalanceTracking`.
#[derive(Debug)]
pub struct CallSequenceWithBalanceTrackingResult {
    /// Whether the transaction call executed without halt/revert.
    pub ok: bool,
    /// Return bytes (success output or revert bytes when available).
    pub result: Vec<u8>,
    /// Simplified logs from this transaction.
    pub logs: Vec<CallSequenceLog>,
    /// Gas used by this transaction.
    pub used_gas: u64,
    /// Native balance changes keyed by account.
    pub native_changes: Table<Address, CallSequenceNativeChange>,
    /// ERC-20 deltas keyed by owner account, then token contract.
    pub erc20_changes: Erc20Changes,
    /// ERC-721 ownership changes keyed by owner account, then token contract.
    pub erc721_changes: Erc721Changes,
    /// ERC-1155 deltas keyed by owner account, then token contract.
    pub erc1155_changes: Erc1155Changes,
    /// Decoded or synthesized revert/halt reason; empty on success.
    pub revert_reason: String,
}

/// The result of one tracked call.
pub struct TrackedResult {
    pub summary: Summary,
    pub used_gas: u64,
    pub native: Map<Seq<u8>, NativeChange>,
    pub erc20: Map<Seq<u8>, Map<Seq<u8>, Seq<char>>>,
    pub erc721: Map<Seq<u8>, Map<Seq<u8>, Seq<Erc721Change>>>,
    pub erc1155: Map<Seq<u8>, Map<Seq<u8>, Seq<Erc1155Change>>>,
}

impl View for CallSequenceWithBalanceTrackingResult {
    type V = TrackedResult;

    open spec fn view(&self) -> TrackedResult {
        TrackedResult {
            summary: Summary {
                ok: self.ok,
                result: self.result@,
                logs: log_values(self.logs@),
                revert_reason: self.revert_reason@,
            },
            used_gas: self.used_gas,
            native: self.native_changes.deep_view(),
            erc20: self.erc20_changes.deep_view(),
            erc721: self.erc721_changes.deep_view(),
            erc1155: self.erc1155_changes.deep_view(),
        }
    }
}

/// The results of a list.
pub open spec fn tracked_values(results: Seq<CallSequenceWithBalanceTrackingResult>) -> Seq<TrackedResult> {
    Seq::new(results.len(), |i: int| results[i]@)
}

/// An account that a call touched, with its balance after the call.
#[derive(Debug, Clone, Copy, PartialEq, Eq)]
pub struct TouchedAccount {
    /// The account.
    pub address: Address,
    /// Its balance after the call.
    pub after: U256,
}

/// The execution of a call, and the accounts that it touched.
#[derive(Debug)]
pub struct TrackedExecution {
    /// The accounts, each of them once.
    pub touched: Vec<TouchedAccount>,
    /// The execution.
    pub execution: Execution,
}

/// A change of a native balance.
pub open spec fn native_change(before: nat, after: nat) -> NativeChange {
    NativeChange {
        change: signed_decimal_text(after - before),
        before: hex_text(before),
        after: hex_text(after),
    }
}

/// The native changes with that of one more account, if its balance changed.
pub open spec fn with_native(
    changes: Map<Seq<u8>, NativeChange>,
    account: Seq<u8>,
    before: nat,
    after: nat,
) -> Map<Seq<u8>, NativeChange> {
    if before == after {
        changes
    } else {
        changes.insert(account, native_change(before, after))
    }
}

/// Adds the native change of an account, if its balance changed.
pub fn add_native_change(
    changes: Table<Address, CallSequenceNativeChange>,
    account: Address,
    before: U256,
    after: U256,
) -> (more: Table<Address, CallSequenceNativeChange>)
    ensures
        more.deep_view() == with_native(changes.deep_view(), account@, before@, after@),
{
    if before.same(&after) {
        return changes;
    }
    proof {
        word_is_bounded(before);
        word_is_bounded(after);
    }
    let change = if before.exceeds(&after) {
        signed_u256_to_decimal(true, before.minus(after))
    } else {
        signed_u256_to_decimal(false, after.minus(before))
    };
    changes.insert(
        account,
        CallSequenceNativeChange { change, before: u256_to_hex(before), after: u256_to_hex(after) },
    )
}

/// The token movements of an outcome: those of its logs, if it is a success.
pub open spec fn outcome_movements(outcome: Outcome) -> Seq<Movement> {
    match outcome {
        Outcome::Success { logs, .. } => movements(event_signatures(), log_values(logs@)),
        _ => Seq::empty(),
    }
}

/// A result is that of an execution with the native changes.
pub open spec fn is_result_of(
    result: TrackedResult,
    execution: Execution,
    native: Map<Seq<u8>, NativeChange>,
) -> bool {
    &&& result.summary == summary_of(execution.outcome)
    &&& result.used_gas == execution.used_gas
    &&& result.native == native
    &&& result.erc20 == erc20_report(outcome_movements(execution.outcome))
    &&& result.erc721 == erc721_report(outcome_movements(execution.outcome))
    &&& reports_erc1155(result.erc1155, outcome_movements(execution.outcome))
}

/// Without movements there is nothing to report.
pub proof fn nothing_to_report()
    ensures
        erc20_report(Seq::empty()) == Map::<Seq<u8>, Map<Seq<u8>, Seq<char>>>::empty(),
        erc721_report(Seq::empty()) == Map::<Seq<u8>, Map<Seq<u8>, Seq<Erc721Change>>>::empty(),
        reports_erc1155(Map::empty(), Seq::empty()),
{
    let none = Seq::<Movement>::empty();
    assert forall|owner: Seq<u8>| !#[trigger] erc20_report(none).contains_key(owner) by {
        assert forall|token: Seq<u8>| (#[trigger] erc20_net(none, owner, token)).magnitude == 0 by {}
    }
    assert(erc20_report(none) =~= Map::empty());
    assert(erc721_report(none) =~= Map::empty());
    assert forall|owner: Seq<u8>, token: Seq<u8>| !#[trigger] erc1155_touched(none, owner, token) by {
        assert forall|id: nat| (#[trigger] erc1155_net(none, owner, token, id)).magnitude == 0 by {}
    }
}

/// The result of an execution with the native changes.
pub fn build_tracked_result(
    execution: Execution,
    native_changes: Table<Address, CallSequenceNativeChange>,
) -> (result: CallSequenceWithBalanceTrackingResult)
    ensures
        is_result_of(result@, execution, native_changes.deep_view()),
{
    let (erc20_changes, erc721_changes, erc1155_changes) = match &execution.outcome {
        Outcome::Success { logs, .. } => extract_token_changes(logs.as_slice()),
        _ => {
            proof {
                nothing_to_report();
            }
            (Table::new(), Table::new(), Table::new())
        },
    };
    let used_gas = execution.used_gas;
    let (ok, result, logs, revert_reason) = summarize(execution.outcome);
    CallSequenceWithBalanceTrackingResult {
        ok,
        result,
        logs,
        used_gas,
        native_changes,
        erc20_changes,
        erc721_changes,
        erc1155_changes,
        revert_reason,
    }
}

/// What the node has to do next.
#[derive(Debug, Clone, Copy, PartialEq, Eq)]
pub enum TrackedAction {
    /// Look up the hash of a block.
    ResolveBlock(BlockId),
    /// Load the environment of a block and the state at it.
    Load(BlockId),
    /// Prepare the call with an index with the block overrides, and apply the state
    /// overrides if it says so.
    Prepare { index: usize, apply_state_override: bool },
    /// Execute the call that was prepared, without committing its changes, with the
    /// precompile overrides if it says so.
    Execute { apply_precompile_overrides: bool },
    /// Read the balance that an account had before the call.
    ReadBalance(Address),
    /// Commit the changes of the call that was executed.
    Commit,
    /// Nothing: the request is answered.
    Finish,
}

/// What came of an action.
#[derive(Debug)]
pub enum TrackedEvent<E> {
    /// The hash of the block, if there is such a block.
    BlockHash(Result<Option<B256>, E>),
    /// Environment and state were loaded.
    Loaded(Result<(), E>),
    /// The call was prepared.
    Prepared(Result<(), E>),
    /// The call was executed.
    Executed(Result<TrackedExecution, E>),
    /// The balance of the account, if there is such an account.
    Balance(Result<Option<U256>, E>),
    /// The changes were committed.
    Committed,
}

/// How far a sequence of tracked calls is.
#[derive(Debug)]
pub enum TrackedPhase<E> {
    /// The hash of the block is wanted.
    ResolveBlock { target: BlockId },
    /// Environment and state of the block are wanted.
    Load { target: BlockId },
    /// The next call is to be prepared.
    Prepare,
    /// The call is to be executed.
    Execute,
    /// The balance before the call of one of the accounts that it touched is wanted.
    ReadTouched { execution: TrackedExecution, at: usize },
    /// The changes of the call are to be committed.
    Commit { execution: TrackedExecution },
    /// The request is answered.
    Finished(Result<(), CallError<E>>),
}

/// A sequence of tracked calls on its way.
#[derive(Debug)]
pub struct TrackedSequence<E> {
    calls: usize,
    has_state_override: bool,
    results: Vec<CallSequenceWithBalanceTrackingResult>,
    native: Table<Address, CallSequenceNativeChange>,
    phase: TrackedPhase<E>,
}

/// A sequence of tracked calls on its way: the results so far, the native changes of
/// the call at hand, and how far it is.
pub struct TrackedState<E> {
    pub calls: usize,
    pub has_state_override: bool,
    pub results: Seq<TrackedResult>,
    pub native: Map<Seq<u8>, NativeChange>,
    pub phase: TrackedPhase<E>,
}

impl<E> View for TrackedSequence<E> {
    type V = TrackedState<E>;

    closed spec fn view(&self) -> TrackedState<E> {
        TrackedState {
            calls: self.calls,
            has_state_override: self.has_state_override,
            results: tracked_values(self.results@),
            native: self.native.deep_view(),
            phase: self.phase,
        }
    }
}

impl<E> TrackedState<E> {
    /// A request for a number of calls at a block. Without calls it fails. The hash of
    /// the block is looked up first, unless it is the pending block, which has none.
    pub open spec fn start(calls: usize, block: Option<BlockId>, has_state_override: bool) -> TrackedState<E> {
        let target = BlockId::requested(block);
        TrackedState {
            calls,
            has_state_override,
            results: Seq::empty(),
            native: Map::empty(),
            phase: if calls == 0 {
                TrackedPhase::Finished(Err(CallError::InvalidParams(InvalidParams::CallsEmpty)))
            } else if target.pending() {
                TrackedPhase::Load { target }
            } else {
                TrackedPhase::ResolveBlock { target }
            },
        }
    }

    /// The same sequence in another phase.
    pub open spec fn at(self, phase: TrackedPhase<E>) -> TrackedState<E> {
        TrackedState { phase, ..self }
    }

    /// The same sequence, failed.
    pub open spec fn failed(self, error: CallError<E>) -> TrackedState<E> {
        self.at(TrackedPhase::Finished(Err(error)))
    }

    /// The sequence once the balances of a number of accounts were read.
    pub open spec fn after_reading(self, execution: TrackedExecution, count: int) -> TrackedState<E> {
        self.at(
            if count < execution.touched@.len() {
                TrackedPhase::ReadTouched { execution, at: count as usize }
            } else {
                TrackedPhase::Commit { execution }
            },
        )
    }

    /// The sequence with one more result.
    pub open spec fn with_result(self, result: TrackedResult) -> TrackedState<E> {
        TrackedState {
            results: self.results.push(result),
            native: Map::empty(),
            phase: if self.results.len() + 1 < self.calls {
                TrackedPhase::Prepare
            } else {
                TrackedPhase::Finished(Ok(()))
            },
            ..self
        }
    }

    /// What an event makes of the sequence. One that does not answer the action that is
    /// due changes nothing. Where the event ends a call, `result` is its result.
    pub open spec fn after(self, event: TrackedEvent<E>, result: TrackedResult) -> TrackedState<E> {
        match (self.phase, event) {
            (TrackedPhase::ResolveBlock { target }, TrackedEvent::BlockHash(found)) => match found {
                Ok(Some(hash)) => self.at(TrackedPhase::Load { target: BlockId::of_hash(hash) }),
                _ => self.failed(CallError::HeaderNotFound(target)),
            },
            (TrackedPhase::Load { .. }, TrackedEvent::Loaded(loaded)) => match loaded {
                Ok(_) => self.at(TrackedPhase::Prepare),
                Err(error) => self.failed(CallError::Node(error)),
            },
            (TrackedPhase::Prepare, TrackedEvent::Prepared(prepared)) => match prepared {
                Ok(_) => self.at(TrackedPhase::Execute),
                Err(error) => self.failed(CallError::Node(error)),
            },
            (TrackedPhase::Execute, TrackedEvent::Executed(executed)) => match executed {
                Ok(execution) => self.after_reading(execution, 0),
                Err(error) => self.failed(CallError::Node(error)),
            },
            (TrackedPhase::ReadTouched { execution, at }, TrackedEvent::Balance(balance)) => match balance {
                Ok(before) => TrackedState {
                    native: with_native(
                        self.native,
                        execution.touched@[at as int].address@,
                        balance_or_zero(before),
                        execution.touched@[at as int].after@,
                    ),
                    ..self.after_reading(execution, at + 1)
                },
                Err(error) => self.failed(CallError::Node(error)),
            },
            (TrackedPhase::Commit { execution }, TrackedEvent::Committed) => self.with_result(result),
            _ => self,
        }
    }

    /// Whether an event ends the execution of a call.
    pub open spec fn ends_call(self, event: TrackedEvent<E>, execution: Execution) -> bool {
        self.phase is Commit && self.phase->Commit_execution.execution == execution && event is Committed
    }

    /// The action that is due. State overrides, and the precompile overrides among
    /// them, are for the first call alone.
    pub open spec fn due(self) -> TrackedAction {
        match self.phase {
            TrackedPhase::ResolveBlock { target } => TrackedAction::ResolveBlock(target),
            TrackedPhase::Load { target } => TrackedAction::Load(target),
            TrackedPhase::Prepare => TrackedAction::Prepare {
                index: self.results.len() as usize,
                apply_state_override: self.results.len() == 0,
            },
            TrackedPhase::Execute => TrackedAction::Execute {
                apply_precompile_overrides: self.results.len() == 0 && self.has_state_override,
            },
            TrackedPhase::ReadTouched { execution, at } => TrackedAction::ReadBalance(
                execution.touched@[at as int].address,
            ),
            TrackedPhase::Commit { .. } => TrackedAction::Commit,
            TrackedPhase::Finished(_) => TrackedAction::Finish,
        }
    }
}

impl<E> TrackedSequence<E> {
    #[verifier::type_invariant]
    spec fn reads_an_account(&self) -> bool {
        match self.phase {
            TrackedPhase::ReadTouched { execution, at } => at < execution.touched@.len(),
            _ => true,
        }
    }

    /// A request for a number of calls at a block, the latest unless it names another,
    /// with or without state overrides.
    pub fn call_sequence_with_balance_tracking(
        calls: usize,
        block: Option<BlockId>,
        has_state_override: bool,
    ) -> (sequence: TrackedSequence<E>)
        ensures
            sequence@ == TrackedState::<E>::start(calls, block, has_state_override),
    {
        let target = BlockId::or_latest(block);
        let phase = if calls == 0 {
            TrackedPhase::Finished(Err(CallError::InvalidParams(InvalidParams::CallsEmpty)))
        } else if target.is_pending() {
            TrackedPhase::Load { target }
        } else {
            TrackedPhase::ResolveBlock { target }
        };
        let sequence = TrackedSequence {
            calls,
            has_state_override,
            results: Vec::new(),
            native: Table::new(),
            phase,
        };
        assert(sequence@.results =~= Seq::empty());
        sequence
    }

    /// The action that is due.
    pub fn action(&self) -> (action: TrackedAction)
        ensures
            action == self@.due(),
    {
        proof {
            use_type_invariant(self);
        }
        match &self.phase {
            TrackedPhase::ResolveBlock { target } => TrackedAction::ResolveBlock(*target),
            TrackedPhase::Load { target } => TrackedAction::Load(*target),
            TrackedPhase::Prepare => TrackedAction::Prepare {
                index: self.results.len(),
                apply_state_override: self.results.len() == 0,
            },
            TrackedPhase::Execute => TrackedAction::Execute {
                apply_precompile_overrides: self.results.len() == 0 && self.has_state_override,
            },
            TrackedPhase::ReadTouched { execution, at } => TrackedAction::ReadBalance(
                execution.touched[*at].address,
            ),
            TrackedPhase::Commit { .. } => TrackedAction::Commit,
            TrackedPhase::Finished(_) => TrackedAction::Finish,
        }
    }

    /// Takes what came of the action that was due.
    pub fn advance(self, event: TrackedEvent<E>) -> (next: TrackedSequence<E>)
        ensures
            next@ == self@.after(event, next@.results.last()),
            forall|execution: Execution| #[trigger]
                self@.ends_call(event, execution) ==> is_result_of(
                    next@.results.last(),
                    execution,
                    self@.native,
                ),
    {
        proof {
            use_type_invariant(&self);
        }
        let ghost before = self@;
        let TrackedSequence { calls, has_state_override, results, native, phase } = self;
        let mut native = native;
        let phase = match (phase, event) {
            (TrackedPhase::ResolveBlock { target }, TrackedEvent::BlockHash(found)) => match found {
                Ok(Some(hash)) => TrackedPhase::Load { target: BlockId::from_hash(hash) },
                _ => TrackedPhase::Finished(Err(CallError::HeaderNotFound(target))),
            },
            (TrackedPhase::Load { .. }, TrackedEvent::Loaded(loaded)) => match loaded {
                Ok(_) => TrackedPhase::Prepare,
                Err(error) => TrackedPhase::Finished(Err(CallError::Node(error))),
            },
            (TrackedPhase::Prepare, TrackedEvent::Prepared(prepared)) => match prepared {
                Ok(_) => TrackedPhase::Execute,
                Err(error) => TrackedPhase::Finished(Err(CallError::Node(error))),
            },
            (TrackedPhase::Execute, TrackedEvent::Executed(executed)) => match executed {
                Ok(execution) => {
                    if execution.touched.len() > 0 {
                        TrackedPhase::ReadTouched { execution, at: 0 }
                    } else {
                        TrackedPhase::Commit { execution }
                    }
                },
                Err(error) => TrackedPhase::Finished(Err(CallError::Node(error))),
            },
            (TrackedPhase::ReadTouched { execution, at }, TrackedEvent::Balance(balance)) => match balance {
                Ok(found) => {
                    let account = execution.touched[at];
                    native = add_native_change(native, account.address, balance_of(found), account.after);
                    if at < execution.touched.len() - 1 {
                        TrackedPhase::ReadTouched { execution, at: at + 1 }
                    } else {
                        TrackedPhase::Commit { execution }
                    }
                },
                Err(error) => TrackedPhase::Finished(Err(CallError::Node(error))),
            },
            (TrackedPhase::Commit { execution }, TrackedEvent::Committed) => {
                return Self::with_result(calls, has_state_override, results, native, execution.execution);
            },
            (phase, _) => phase,
        };
        TrackedSequence { calls, has_state_override, results, native, phase }
    }

    /// The sequence with the result of one more execution.
    fn with_result(
        calls: usize,
        has_state_override: bool,
        results: Vec<CallSequenceWithBalanceTrackingResult>,
        native: Table<Address, CallSequenceNativeChange>,
        execution: Execution,
    ) -> (next: TrackedSequence<E>)
        ensures
            next@.calls == calls,
            next@.has_state_override == has_state_override,
            next@.results == tracked_values(results@).push(next@.results.last()),
            next@.native == Map::<Seq<u8>, NativeChange>::empty(),
            next@.phase == if results@.len() + 1 < calls {
                TrackedPhase::<E>::Prepare
            } else {
                TrackedPhase::<E>::Finished(Ok(()))
            },
            is_result_of(next@.results.last(), execution, native.deep_view()),
    {
        let mut results = results;
        let ghost earlier = results@;
        let result = build_tracked_result(execution, native);
        results.push(result);
        assert(tracked_values(results@) =~= tracked_values(earlier).push(result@));
        let phase = if results.len() < calls {
            TrackedPhase::Prepare
        } else {
            TrackedPhase::Finished(Ok(()))
        };
        TrackedSequence { calls, has_state_override, results, native: Table::new(), phase }
    }

    /// The answer to the request, once there is one.
    pub fn answer(self) -> (answer: Option<Result<Vec<CallSequenceWithBalanceTrackingResult>, CallError<E>>>)
        ensures
            match answer {
                Some(Ok(results)) => self@.phase is Finished && self@.phase->Finished_0 is Ok && tracked_values(
                    results@,
                ) == self@.results,
                Some(Err(error)) => self@.phase == TrackedPhase::<E>::Finished(Err(error)),
                None => !(self@.phase is Finished),
            },
    {
        match self.phase {
            TrackedPhase::Finished(Ok(_)) => Some(Ok(self.results)),
            TrackedPhase::Finished(Err(error)) => Some(Err(error)),
            _ => None,
        }
    }
}

/// One step of a sequence: an event leads from one state to another.
pub open spec fn steps_to<E>(state: TrackedState<E>, event: TrackedEvent<E>, next: TrackedState<E>) -> bool {
    &&& next == state.after(event, next.results.last())
    &&& forall|execution: Execution| #[trigger]
        state.ends_call(event, execution) ==> is_result_of(next.results.last(), execution, state.native)
}

/// Events lead from one state to another, one step after the other.
pub open spec fn leads_to<E>(states: Seq<TrackedState<E>>, events: Seq<TrackedEvent<E>>) -> bool {
    &&& states.len() == events.len() + 1
    &&& forall|i: int| 0 <= i < events.len() ==> #[trigger] steps_to(states[i], events[i], states[i + 1])
}

/// There are never more results than calls, and a request that is answered without an
/// error has one for each.
pub open spec fn results_in_bounds<E>(state: TrackedState<E>) -> bool {
    match state.phase {
        TrackedPhase::Finished(Ok(_)) => state.results.len() == state.calls,
        TrackedPhase::Finished(Err(_)) => state.results.len() <= state.calls,
        _ => state.results.len() < state.calls,
    }
}

/// Whatever the node reports, there are never more results than calls, and a request
/// that is answered without an error has one for each.
pub proof fn results_stay_in_bounds<E>(
    calls: usize,
    block: Option<BlockId>,
    has_state_override: bool,
    states: Seq<TrackedState<E>>,
    events: Seq<TrackedEvent<E>>,
)
    requires
        leads_to(states, events),
        states[0] == TrackedState::<E>::start(calls, block, has_state_override),
    ensures
        states.last().calls == calls,
        results_in_bounds(states.last()),
    decreases events.len(),
{
    if events.len() > 0 {
        let earlier_states = states.drop_last();
        let earlier_events = events.drop_last();
        assert forall|i: int| 0 <= i < earlier_events.len() implies #[trigger] steps_to(
            earlier_states[i],
            earlier_events[i],
            earlier_states[i + 1],
        ) by {
            assert(steps_to(states[i], events[i], states[i + 1]));
        }
        results_stay_in_bounds::<E>(calls, block, has_state_override, earlier_states, earlier_events);
        assert(steps_to(states[events.len() - 1], events[events.len() - 1], states[events.len() - 1 + 1]));
    }
}

/// An answer is final.
pub proof fn answer_is_final<E>(state: TrackedState<E>, event: TrackedEvent<E>, next: TrackedState<E>)
    requires
        state.phase is Finished,
        steps_to(state, event, next),
    ensures
        next == state,
{
}

/// Results are kept: a step adds at most one, and adds it at the end.
pub proof fn results_are_kept<E>(state: TrackedState<E>, event: TrackedEvent<E>, next: TrackedState<E>)
    requires
        steps_to(state, event, next),
    ensures
        state.results.is_prefix_of(next.results),
        next.results.len() <= state.results.len() + 1,
        next.results.len() == state.results.len() + 1 <==> state.phase is Commit && event is Committed,
{
}

/// A result is that of the execution whose changes were committed, with the native
/// changes that were read for it; the next call starts with none.
pub proof fn result_is_that_of_its_call<E>(
    state: TrackedState<E>,
    execution: TrackedExecution,
    event: TrackedEvent<E>,
    next: TrackedState<E>,
)
    requires
        steps_to(state, event, next),
        state.phase == (TrackedPhase::<E>::Commit { execution }),
        event is Committed,
    ensures
        is_result_of(next.results.last(), execution.execution, state.native),
        next.native == Map::<Seq<u8>, NativeChange>::empty(),
{
    assert(state.ends_call(event, execution.execution));
}

/// The changes of a call are committed before the next call is prepared.
pub proof fn commit_comes_before_next_call<E>(
    state: TrackedState<E>,
    event: TrackedEvent<E>,
    next: TrackedState<E>,
)
    requires
        steps_to(state, event, next),
    ensures
        next.phase is Prepare && !(state.phase is Prepare) ==> state.phase is Load || state.phase is Commit,
        next.phase is Commit && !(state.phase is Commit) ==> state.phase is Execute || state.phase is ReadTouched,
{
}

/// State overrides, and the precompile overrides among them, are for the first call
/// alone.
pub proof fn overrides_are_for_first_call<E>(state: TrackedState<E>)
    ensures
        state.due() matches TrackedAction::Prepare { apply_state_override, .. } ==> (apply_state_override
            <==> state.results.len() == 0),
        state.due() matches TrackedAction::Execute { apply_precompile_overrides } && apply_precompile_overrides
            ==> state.results.len() == 0,
{
}

/// The native changes of accounts, with what their balances were before.
pub open spec fn native_changes_of(touched: Seq<TouchedAccount>, before: Seq<nat>) -> Map<Seq<u8>, NativeChange>
    decreases touched.len(),
{
    if touched.len() == 0 {
        Map::empty()
    } else {
        with_native(
            native_changes_of(touched.drop_last(), before.drop_last()),
            touched.last().address@,
            before.last(),
            touched.last().after@,
        )
    }
}

/// The accounts are reported whose balances changed, and no others, each with what it
/// changed by and what it was before and after.
pub proof fn native_changes_are_exact(touched: Seq<TouchedAccount>, before: Seq<nat>)
    requires
        before.len() == touched.len(),
        forall|i: int, j: int|
            0 <= i < j < touched.len() ==> (#[trigger] touched[i]).address@ != (#[trigger] touched[j]).address@,
    ensures
        forall|i: int|
            0 <= i < touched.len() ==> (native_changes_of(touched, before).contains_key(
                (#[trigger] touched[i]).address@,
            ) <==> before[i] != touched[i].after@),
        forall|i: int|
            0 <= i < touched.len() && before[i] != touched[i].after@ ==> native_changes_of(
                touched,
                before,
            )[(#[trigger] touched[i]).address@] == native_change(before[i], touched[i].after@),
        forall|account: Seq<u8>| #[trigger]
            native_changes_of(touched, before).contains_key(account) ==> exists|i: int|
                0 <= i < touched.len() && (#[trigger] touched[i]).address@ == account,
    decreases touched.len(),
{
    if touched.len() > 0 {
        let earlier = touched.drop_last();
        native_changes_are_exact(earlier, before.drop_last());
        let changes = native_changes_of(earlier, before.drop_last());
        let last = touched.len() - 1;
        assert forall|i: int| 0 <= i < last implies (#[trigger] touched[i]).address@
            != touched[last].address@ && earlier[i] == touched[i] by {}
        assert(!changes.contains_key(touched[last].address@));
        assert forall|account: Seq<u8>| #[trigger]
            native_changes_of(touched, before).contains_key(account) implies exists|i: int|
            0 <= i < touched.len() && (#[trigger] touched[i]).address@ == account by {
            if changes.contains_key(account) {
                let i = choose|i: int| 0 <= i < earlier.len() && (#[trigger] earlier[i]).address@ == account;
                assert(touched[i].address@ == account);
            } else {
                assert(touched[last].address@ == account);
            }
        }
    }
}

/// The balances of accounts, zero where there is no account.
pub open spec fn balance_values(balances: Seq<Option<U256>>) -> Seq<nat> {
    Seq::new(balances.len(), |i: int| balance_or_zero(balances[i]))
}

/// What balances that are read one after the other make of a sequence.
pub open spec fn reads<E>(state: TrackedState<E>, balances: Seq<Option<U256>>) -> TrackedState<E>
    decreases balances.len(),
{
    if balances.len() == 0 {
        state
    } else {
        let earlier = reads(state, balances.drop_last());
        earlier.after(TrackedEvent::Balance(Ok(balances.last())), earlier.results.last())
    }
}

/// Once the balance of each account that a call touched is read, in the order of the
/// accounts, the changes of the call are committed with the native changes of these
/// accounts.
pub proof fn balances_are_read_in_order<E>(
    state: TrackedState<E>,
    execution: TrackedExecution,
    balances: Seq<Option<U256>>,
)
    requires
        state.phase is Execute,
        state.native == Map::<Seq<u8>, NativeChange>::empty(),
        balances.len() == execution.touched@.len(),
    ensures
        reads(
            state.after(TrackedEvent::Executed(Ok(execution)), state.results.last()),
            balances,
        ) == (TrackedState {
            native: native_changes_of(execution.touched@, balance_values(balances)),
            phase: TrackedPhase::<E>::Commit { execution },
            ..state
        }),
{
    assert(execution.touched@.take(balances.len() as int) =~= execution.touched@);
    first_balances_are_read(state, execution, balances);
}

/// The first balances that are read after a call.
proof fn first_balances_are_read<E>(
    state: TrackedState<E>,
    execution: TrackedExecution,
    balances: Seq<Option<U256>>,
)
    requires
        state.phase is Execute,
        state.native == Map::<Seq<u8>, NativeChange>::empty(),
        balances.len() <= execution.touched@.len(),
    ensures
        reads(
            state.after(TrackedEvent::Executed(Ok(execution)), state.results.last()),
            balances,
        ) == (TrackedState {
            native: native_changes_of(
                execution.touched@.take(balances.len() as int),
                balance_values(balances),
            ),
            ..state.after_reading(execution, balances.len() as int)
        }),
    decreases balances.len(),
{
    if balances.len() > 0 {
        let last = balances.len() - 1;
        first_balances_are_read(state, execution, balances.drop_last());
        let touched = execution.touched@.take(balances.len() as int);
        assert(touched.drop_last() =~= execution.touched@.take(last));
        assert(balance_values(balances).drop_last() =~= balance_values(balances.drop_last()));
        assert(execution.touched@.len() == execution.touched.len());
        assert(last as usize == last);
    }
}

/// A call that works is answered with one result: that of its execution, with the native
/// changes of the accounts that it touched, and nothing of the calls before it.
pub proof fn call_is_reported<E>(
    state: TrackedState<E>,
    execution: TrackedExecution,
    balances: Seq<Option<U256>>,
    next: TrackedState<E>,
)
    requires
        state.phase is Prepare,
        state.native == Map::<Seq<u8>, NativeChange>::empty(),
        balances.len() == execution.touched@.len(),
        ({
            let prepared = state.after(TrackedEvent::Prepared(Ok(())), state.results.last());
            let executed = prepared.after(TrackedEvent::Executed(Ok(execution)), state.results.last());
            steps_to(reads(executed, balances), TrackedEvent::Committed, next)
        }),
    ensures
        next == state.with_result(next.results.last()),
        is_result_of(
            next.results.last(),
            execution.execution,
            native_changes_of(execution.touched@, balance_values(balances)),
        ),
{
    let prepared = state.after(TrackedEvent::Prepared(Ok(())), state.results.last());
    balances_are_read_in_order(prepared, execution, balances);
    let executed = prepared.after(TrackedEvent::Executed(Ok(execution)), state.results.last());
    let read = reads(executed, balances);
    result_is_that_of_its_call(read, execution, TrackedEvent::Committed, next);
}

/// The executions whose changes a sequence committed, in order.
pub open spec fn committed<E>(states: Seq<TrackedState<E>>, events: Seq<TrackedEvent<E>>) -> Seq<Execution>
    decreases events.len(),
{
    if events.len() == 0 {
        Seq::empty()
    } else {
        let earlier = committed(states.drop_last(), events.drop_last());
        match (states[events.len() - 1].phase, events.last()) {
            (TrackedPhase::Commit { execution }, TrackedEvent::Committed) => earlier.push(execution.execution),
            _ => earlier,
        }
    }
}

/// A result says of an execution what the result of a plain call says of it: how it
/// ended, its output, its logs, its gas and the reason of its failure.
pub open spec fn agrees(result: TrackedResult, plain: CallResult) -> bool {
    result.summary == plain.summary && result.used_gas == plain.used_gas
}

/// The results of a sequence are those of its executions, in order, and say of each what
/// a plain call says of it, whatever the balances of the sender were.
pub proof fn results_are_those_of_executions<E>(states: Seq<TrackedState<E>>, events: Seq<TrackedEvent<E>>)
    requires
        leads_to(states, events),
        states[0].results.len() == 0,
    ensures
        states.last().results.len() == committed(states, events).len(),
        forall|i: int, before: nat, after: nat|
            0 <= i < committed(states, events).len() ==> agrees(
                states.last().results[i],
                #[trigger] call_result(committed(states, events)[i], before, after),
            ),
    decreases events.len(),
{
    if events.len() > 0 {
        let earlier_states = states.drop_last();
        let earlier_events = events.drop_last();
        assert forall|i: int| 0 <= i < earlier_events.len() implies #[trigger] steps_to(
            earlier_states[i],
            earlier_events[i],
            earlier_states[i + 1],
        ) by {
            assert(steps_to(states[i], events[i], states[i + 1]));
        }
        results_are_those_of_executions(earlier_states, earlier_events);
        let last = events.len() - 1;
        let (state, next) = (states[last], states[last + 1]);
        assert(steps_to(state, events[last], next));
        let earlier = committed(earlier_states, earlier_events);
        let all = committed(states, events);
        assert(earlier_states.last() == state);
        assert(next == states.last());
        match (state.phase, events[last]) {
            (TrackedPhase::Commit { execution }, TrackedEvent::Committed) => {
                assert(state.ends_call(events[last], execution.execution));
                assert(all == earlier.push(execution.execution));
                assert forall|i: int, before: nat, after: nat| 0 <= i < all.len() implies agrees(
                    next.results[i],
                    #[trigger] call_result(all[i], before, after),
                ) by {
                    if i < earlier.len() {
                        assert(all[i] == earlier[i]);
                        assert(next.results[i] == state.results[i]);
                        assert(agrees(state.results[i], call_result(earlier[i], before, after)));
                    } else {
                        assert(next.results[i] == next.results.last());
                    }
                }
            },
            _ => {
                assert(all == earlier);
                assert(next.results == state.results);
            },
        }
    }
}

/// A tracked sequence and a plain one that execute the same calls give the same status,
/// output, logs, gas and reason for each of them.
pub proof fn tracked_and_plain_agree<E>(
    states: Seq<TrackedState<E>>,
    events: Seq<TrackedEvent<E>>,
    plain: SequenceState<E>,
    reports: Seq<CallReport>,
)
    requires
        leads_to(states, events),
        states[0].results.len() == 0,
        plain.phase is Prepare,
        plain.results.len() == 0,
        reports.len() == plain.calls,
        reports.len() > 0,
        committed(states, events) == Seq::new(reports.len(), |i: int| reports[i].execution),
    ensures
        ({
            let results = run(plain, all_call_events(reports)).results;
            &&& states.last().results.len() == results.len()
            &&& forall|i: int|
                0 <= i < results.len() ==> agrees(states.last().results[i], #[trigger] results[i])
        }),
{
    results_are_those_of_executions(states, events);
    calls_are_answered_in_order(plain, reports);
    let results = run(plain, all_call_events(reports)).results;
    assert forall|i: int| 0 <= i < results.len() implies agrees(
        states.last().results[i],
        #[trigger] results[i],
    ) by {
        let (before, after) = (balance_or_zero(reports[i].before), balance_or_zero(reports[i].after));
        assert(agrees(states.last().results[i], call_result(committed(states, events)[i], before, after)));
    }
}

} // verus!
