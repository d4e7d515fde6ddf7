//! `eth_callMany`: bundles of calls executed one after the other over the same state.
//!
//! The node does the work, one step at a time: [`CallBundles::action`] says which step
//! is next, and [`CallBundles::advance`] takes what came of it.

use crate::block::{BlockId, TransactionIndex};
use crate::errors::{CallError, InvalidParams};
use crate::primitives::B256;
use crate::replay::{choose_starting_point, starting_point, StartingPoint};
use vstd::prelude::*;

verus! {

/// What came of one call: its output, or why it failed.
#[derive(Debug, Clone, PartialEq, Eq)]
pub struct EthCallResponse {
    /// The output, if the call went through.
    pub value: Option<Vec<u8>>,
    /// The error, if it did not.
    pub error: Option<String>,
}

/// What came of one call: its output, or why it failed.
pub struct Response {
    pub value: Option<Seq<u8>>,
    pub error: Option<Seq<char>>,
}

impl View for EthCallResponse {
    type V = Response;

    open spec fn view(&self) -> Response {
        Response {
            value: match self.value {
                Some(bytes) => Some(bytes@),
                None => None,
            },
            error: match self.error {
                Some(text) => Some(text@),
                None => None,
            },
        }
    }
}

/// The responses of a list.
pub open spec fn response_values(responses: Seq<EthCallResponse>) -> Seq<Response> {
    Seq::new(responses.len(), |i: int| responses[i]@)
}

/// The responses of a list of bundles.
pub open spec fn bundle_values(bundles: Seq<Vec<EthCallResponse>>) -> Seq<Seq<Response>> {
    Seq::new(bundles.len(), |i: int| response_values(bundles[i]@))
}

/// The response to a call: its output if it went through, else its error.
pub open spec fn response_to(outcome: Result<Vec<u8>, String>) -> Response {
    match outcome {
        Ok(output) => Response { value: Some(output@), error: None },
        Err(text) => Response { value: None, error: Some(text@) },
    }
}

/// The response to a call.
pub fn make_response(outcome: Result<Vec<u8>, String>) -> (response: EthCallResponse)
    ensures
        response@ == response_to(outcome),
{
    match outcome {
        Ok(output) => EthCallResponse { value: Some(output), error: None },
        Err(text) => EthCallResponse { value: None, error: Some(text) },
    }
}

/// A block: its hash, that of its parent, and how many transactions it has.
#[derive(Debug, Clone, Copy, PartialEq, Eq)]
pub struct BlockFacts {
    /// The hash of the block.
    pub hash: B256,
    /// The hash of its parent.
    pub parent_hash: B256,
    /// The number of its transactions.
    pub transactions: usize,
}

/// What the node has to do next.
#[derive(Debug, Clone, Copy, PartialEq, Eq)]
pub enum BundlesAction {
    /// Look up the hash of a block.
    ResolveBlock(BlockId),
    /// Load a block.
    LoadBlock(BlockId),
    /// Make the environment of the block that was loaded.
    LoadEnvironment,
    /// Load the state at a block.
    LoadState(B256),
    /// Start to replay the block: make what is to be made before its transactions.
    BeginReplay,
    /// Execute the transaction of the block with an index, and commit its changes.
    Replay(usize),
    /// Prepare a call of a bundle with the block overrides of the bundle, and apply the
    /// state overrides if it says so.
    Prepare { bundle: usize, tx: usize, apply_state_override: bool },
    /// Execute the call that was prepared, without committing its changes.
    Execute,
    /// Commit the changes of the call that was executed.
    Commit,
    /// Nothing: the request is answered.
    Finish,
}

/// What came of an action.
#[derive(Debug)]
pub enum BundlesEvent<E> {
    /// The hash of the block, if there is such a block.
    BlockHash(Result<Option<B256>, E>),
    /// The block, if there is such a block.
    Block(Result<Option<BlockFacts>, E>),
    /// The environment was made.
    Environment(Result<(), E>),
    /// The state was loaded.
    Loaded(Result<(), E>),
    /// The replay was started.
    ReplayBegun(Result<(), E>),
    /// A transaction was replayed.
    Replayed(Result<(), E>),
    /// The call was prepared.
    Prepared(Result<(), E>),
    /// The call was executed: its output, or why it failed.
    Executed(Result<Result<Vec<u8>, String>, E>),
    /// The changes were committed.
    Committed,
}

/// How far a request is.
#[derive(Debug)]
pub enum BundlesPhase<E> {
    /// The hash of the block is wanted.
    ResolveBlock { target: BlockId },
    /// The block is wanted.
    LoadBlock { target: BlockId },
    /// The environment of the block is wanted.
    LoadEnvironment { start: StartingPoint },
    /// The state is wanted.
    LoadState { start: StartingPoint },
    /// The block is to be replayed.
    BeginReplay { count: usize },
    /// A transaction of the block is to be replayed.
    Replay { next: usize, count: usize },
    /// A call is to be prepared.
    Prepare { bundle: usize, tx: usize },
    /// A call is to be executed.
    Execute { bundle: usize, tx: usize },
    /// The changes of a call are to be committed.
    Commit { bundle: usize, tx: usize },
    /// The request is answered.
    Finished(Result<(), CallError<E>>),
}

/// Bundles of calls on their way.
#[derive(Debug)]
pub struct CallBundles<E> {
    bundles: Vec<usize>,
    index: Option<TransactionIndex>,
    pending: bool,
    done: Vec<Vec<EthCallResponse>>,
    current: Vec<EthCallResponse>,
    phase: BundlesPhase<E>,
}

/// Bundles of calls on their way: how many calls each has, which transactions come
/// before them, whether they are for the pending block, the responses of the bundles
/// that are done and of the bundle at hand, and how far the request is.
pub struct BundlesState<E> {
    pub bundles: Seq<usize>,
    pub index: Option<TransactionIndex>,
    pub pending: bool,
    pub done: Seq<Seq<Response>>,
    pub current: Seq<Response>,
    pub phase: BundlesPhase<E>,
}

impl<E> View for CallBundles<E> {
    type V = BundlesState<E>;

    closed spec fn view(&self) -> BundlesState<E> {
        BundlesState {
            bundles: self.bundles@,
            index: self.index,
            pending: self.pending,
            done: bundle_values(self.done@),
            current: response_values(self.current@),
            phase: self.phase,
        }
    }
}

/// The first bundle with calls from a position on; the number of bundles where there is
/// none.
pub open spec fn next_bundle(bundles: Seq<usize>, from: int) -> int
    decreases bundles.len() - from,
{
    if from >= bundles.len() || bundles[from] > 0 {
        from
    } else {
        next_bundle(bundles, from + 1)
    }
}

impl<E> BundlesState<E> {
    /// A request for bundles with the numbers of calls, after the transactions of a
    /// block that come before an index. Without bundles it fails. The hash of the block
    /// is looked up first, unless it is the pending block, which has none.
    pub open spec fn start(
        bundles: Seq<usize>,
        index: Option<TransactionIndex>,
        block: Option<BlockId>,
    ) -> BundlesState<E> {
        let target = BlockId::requested(block);
        BundlesState {
            bundles,
            index,
            pending: target.pending(),
            done: Seq::empty(),
            current: Seq::empty(),
            phase: if bundles.len() == 0 {
                BundlesPhase::Finished(Err(CallError::InvalidParams(InvalidParams::BundlesEmpty)))
            } else if target.pending() {
                BundlesPhase::LoadBlock { target }
            } else {
                BundlesPhase::ResolveBlock { target }
            },
        }
    }

    /// The same request in another phase.
    pub open spec fn at(self, phase: BundlesPhase<E>) -> BundlesState<E> {
        BundlesState { phase, ..self }
    }

    /// The same request, failed.
    pub open spec fn failed(self, error: CallError<E>) -> BundlesState<E> {
        self.at(BundlesPhase::Finished(Err(error)))
    }

    /// The phase at the first bundle with calls from a position on.
    pub open spec fn bundles_from(self, from: int) -> BundlesPhase<E> {
        let bundle = next_bundle(self.bundles, from);
        if bundle < self.bundles.len() {
            BundlesPhase::Prepare { bundle: bundle as usize, tx: 0 }
        } else {
            BundlesPhase::Finished(Ok(()))
        }
    }

    /// The request once a number of transactions was replayed.
    pub open spec fn replayed(self, next: int, count: usize) -> BundlesState<E> {
        self.at(
            if next < count {
                BundlesPhase::Replay { next: next as usize, count }
            } else {
                self.bundles_from(0)
            },
        )
    }

    /// The request once a call is committed.
    pub open spec fn committed(self, bundle: usize, tx: usize) -> BundlesState<E> {
        if tx + 1 < self.bundles[bundle as int] {
            self.at(BundlesPhase::Prepare { bundle, tx: (tx + 1) as usize })
        } else {
            BundlesState {
                done: self.done.push(self.current),
                current: Seq::empty(),
                phase: self.bundles_from(bundle + 1),
                ..self
            }
        }
    }

    /// What an event makes of the request. One that does not answer the action that is
    /// due changes nothing.
    pub open spec fn after(self, event: BundlesEvent<E>) -> BundlesState<E> {
        match (self.phase, event) {
            (BundlesPhase::ResolveBlock { target }, BundlesEvent::BlockHash(found)) => match found {
                Ok(Some(hash)) => self.at(BundlesPhase::LoadBlock { target: BlockId::of_hash(hash) }),
                Ok(None) => self.failed(CallError::HeaderNotFound(target)),
                Err(error) => self.failed(CallError::Node(error)),
            },
            (BundlesPhase::LoadBlock { target }, BundlesEvent::Block(found)) => match found {
                Ok(Some(facts)) => self.at(
                    BundlesPhase::LoadEnvironment {
                        start: starting_point(
                            self.pending,
                            self.index,
                            facts.hash,
                            facts.parent_hash,
                            facts.transactions,
                        ),
                    },
                ),
                Ok(None) => self.failed(CallError::HeaderNotFound(target)),
                Err(error) => self.failed(CallError::Node(error)),
            },
            (BundlesPhase::LoadEnvironment { start }, BundlesEvent::Environment(made)) => match made {
                Ok(_) => self.at(BundlesPhase::LoadState { start }),
                Err(error) => self.failed(CallError::Node(error)),
            },
            (BundlesPhase::LoadState { start }, BundlesEvent::Loaded(loaded)) => match loaded {
                Ok(_) => match start.replay {
                    Some(count) => self.at(BundlesPhase::BeginReplay { count }),
                    None => self.at(self.bundles_from(0)),
                },
                Err(error) => self.failed(CallError::Node(error)),
            },
            (BundlesPhase::BeginReplay { count }, BundlesEvent::ReplayBegun(begun)) => match begun {
                Ok(_) => self.replayed(0, count),
                Err(error) => self.failed(CallError::Node(error)),
            },
            (BundlesPhase::Replay { next, count }, BundlesEvent::Replayed(done)) => match done {
                Ok(_) => self.replayed(next + 1, count),
                Err(error) => self.failed(CallError::Node(error)),
            },
            (BundlesPhase::Prepare { bundle, tx }, BundlesEvent::Prepared(prepared)) => match prepared {
                Ok(_) => self.at(BundlesPhase::Execute { bundle, tx }),
                Err(error) => self.failed(CallError::CallMany { bundle_index: bundle, tx_index: tx, error }),
            },
            (BundlesPhase::Execute { bundle, tx }, BundlesEvent::Executed(executed)) => match executed {
                Ok(outcome) => BundlesState {
                    current: self.current.push(response_to(outcome)),
                    phase: BundlesPhase::Commit { bundle, tx },
                    ..self
                },
                Err(error) => self.failed(CallError::CallMany { bundle_index: bundle, tx_index: tx, error }),
            },
            (BundlesPhase::Commit { bundle, tx }, BundlesEvent::Committed) => self.committed(bundle, tx),
            _ => self,
        }
    }

    /// The action that is due. State overrides are for the first call of the request
    /// alone.
    pub open spec fn due(self) -> BundlesAction {
        match self.phase {
            BundlesPhase::ResolveBlock { target } => BundlesAction::ResolveBlock(target),
            BundlesPhase::LoadBlock { target } => BundlesAction::LoadBlock(target),
            BundlesPhase::LoadEnvironment { .. } => BundlesAction::LoadEnvironment,
            BundlesPhase::LoadState { start } => BundlesAction::LoadState(start.at),
            BundlesPhase::BeginReplay { .. } => BundlesAction::BeginReplay,
            BundlesPhase::Replay { next, .. } => BundlesAction::Replay(next),
            BundlesPhase::Prepare { bundle, tx } => BundlesAction::Prepare {
                bundle,
                tx,
                apply_state_override: self.done.len() == 0 && self.current.len() == 0,
            },
            BundlesPhase::Execute { .. } => BundlesAction::Execute,
            BundlesPhase::Commit { .. } => BundlesAction::Commit,
            BundlesPhase::Finished(_) => BundlesAction::Finish,
        }
    }
}

impl<E> CallBundles<E> {
    #[verifier::type_invariant]
    spec fn in_bounds(&self) -> bool {
        match self.phase {
            BundlesPhase::Replay { next, count } => next < count,
            BundlesPhase::Prepare { bundle, tx } => bundle < self.bundles@.len() && tx
                < self.bundles@[bundle as int],
            BundlesPhase::Execute { bundle, tx } => bundle < self.bundles@.len() && tx
                < self.bundles@[bundle as int],
            BundlesPhase::Commit { bundle, tx } => bundle < self.bundles@.len() && tx
                < self.bundles@[bundle as int],
            _ => true,
        }
    }

    /// A request for bundles with the numbers of calls, after the transactions of a
    /// block, the latest unless it names another, that come before an index.
    pub fn call_many(bundles: Vec<usize>, index: Option<TransactionIndex>, block: Option<BlockId>) -> (request:
        CallBundles<E>)
        ensures
            request@ == BundlesState::<E>::start(bundles@, index, block),
    {
        let target = BlockId::or_latest(block);
        let pending = target.is_pending();
        let phase = if bundles.len() == 0 {
            BundlesPhase::Finished(Err(CallError::InvalidParams(InvalidParams::BundlesEmpty)))
        } else if pending {
            BundlesPhase::LoadBlock { target }
        } else {
            BundlesPhase::ResolveBlock { target }
        };
        let request = CallBundles { bundles, index, pending, done: Vec::new(), current: Vec::new(), phase };
        assert(request@.done =~= Seq::empty());
        assert(request@.current =~= Seq::empty());
        request
    }

    /// The action that is due.
    pub fn action(&self) -> (action: BundlesAction)
        ensures
            action == self@.due(),
    {
        match &self.phase {
            BundlesPhase::ResolveBlock { target } => BundlesAction::ResolveBlock(*target),
            BundlesPhase::LoadBlock { target } => BundlesAction::LoadBlock(*target),
            BundlesPhase::LoadEnvironment { .. } => BundlesAction::LoadEnvironment,
            BundlesPhase::LoadState { start } => BundlesAction::LoadState(start.at),
            BundlesPhase::BeginReplay { .. } => BundlesAction::BeginReplay,
            BundlesPhase::Replay { next, .. } => BundlesAction::Replay(*next),
            BundlesPhase::Prepare { bundle, tx } => BundlesAction::Prepare {
                bundle: *bundle,
                tx: *tx,
                apply_state_override: self.done.len() == 0 && self.current.len() == 0,
            },
            BundlesPhase::Execute { .. } => BundlesAction::Execute,
            BundlesPhase::Commit { .. } => BundlesAction::Commit,
            BundlesPhase::Finished(_) => BundlesAction::Finish,
        }
    }

    /// The phase at the first bundle with calls from a position on.
    fn bundles_from(bundles: &Vec<usize>, from: usize) -> (phase: BundlesPhase<E>)
        requires
            from <= bundles@.len(),
        ensures
            ({
                let bundle = next_bundle(bundles@, from as int);
                phase == if bundle < bundles@.len() {
                    BundlesPhase::<E>::Prepare { bundle: bundle as usize, tx: 0 }
                } else {
                    BundlesPhase::<E>::Finished(Ok(()))
                }
            }),
            phase matches BundlesPhase::Prepare { bundle, tx } ==> bundle < bundles@.len() && tx
                < bundles@[bundle as int],
    {
        let mut bundle: usize = from;
        while bundle < bundles.len() && bundles[bundle] == 0
            invariant
                from <= bundle <= bundles@.len(),
                next_bundle(bundles@, from as int) == next_bundle(bundles@, bundle as int),
            decreases bundles@.len() - bundle,
        {
            bundle = bundle + 1;
        }
        if bundle < bundles.len() {
            BundlesPhase::Prepare { bundle, tx: 0 }
        } else {
            BundlesPhase::Finished(Ok(()))
        }
    }

    /// Takes what came of a step before the first call.
    fn advance_block(
        bundles: &Vec<usize>,
        index: Option<TransactionIndex>,
        pending: bool,
        phase: BundlesPhase<E>,
        event: BundlesEvent<E>,
        Ghost(state): Ghost<BundlesState<E>>,
    ) -> (next: BundlesPhase<E>)
        requires
            state.bundles == bundles@,
            state.index == index,
            state.pending == pending,
            state.phase == phase,
            !(phase is Prepare || phase is Execute || phase is Commit),
            phase matches BundlesPhase::Replay { next, count } ==> next < count,
        ensures
            state.at(next) == state.after(event),
            next matches BundlesPhase::Replay { next, count } ==> next < count,
            next matches BundlesPhase::Prepare { bundle, tx } ==> bundle < bundles@.len() && tx
                < bundles@[bundle as int],
            !(next is Execute || next is Commit),
    {
        match (phase, event) {
            (BundlesPhase::ResolveBlock { target }, BundlesEvent::BlockHash(found)) => match found {
                Ok(Some(hash)) => BundlesPhase::LoadBlock { target: BlockId::from_hash(hash) },
                Ok(None) => BundlesPhase::Finished(Err(CallError::HeaderNotFound(target))),
                Err(error) => BundlesPhase::Finished(Err(CallError::Node(error))),
            },
            (BundlesPhase::LoadBlock { target }, BundlesEvent::Block(found)) => match found {
                Ok(Some(facts)) => BundlesPhase::LoadEnvironment {
                    start: choose_starting_point(
                        pending,
                        index,
                        facts.hash,
                        facts.parent_hash,
                        facts.transactions,
                    ),
                },
                Ok(None) => BundlesPhase::Finished(Err(CallError::HeaderNotFound(target))),
                Err(error) => BundlesPhase::Finished(Err(CallError::Node(error))),
            },
            (BundlesPhase::LoadEnvironment { start }, BundlesEvent::Environment(made)) => match made {
                Ok(_) => BundlesPhase::LoadState { start },
                Err(error) => BundlesPhase::Finished(Err(CallError::Node(error))),
            },
            (BundlesPhase::LoadState { start }, BundlesEvent::Loaded(loaded)) => match loaded {
                Ok(_) => match start.replay {
                    Some(count) => BundlesPhase::BeginReplay { count },
                    None => Self::bundles_from(bundles, 0),
                },
                Err(error) => BundlesPhase::Finished(Err(CallError::Node(error))),
            },
            (BundlesPhase::BeginReplay { count }, BundlesEvent::ReplayBegun(begun)) => match begun {
                Ok(_) => {
                    if 0 < count {
                        BundlesPhase::Replay { next: 0, count }
                    } else {
                        Self::bundles_from(bundles, 0)
                    }
                },
                Err(error) => BundlesPhase::Finished(Err(CallError::Node(error))),
            },
            (BundlesPhase::Replay { next, count }, BundlesEvent::Replayed(done)) => match done {
                Ok(_) => {
                    if next < count - 1 {
                        BundlesPhase::Replay { next: next + 1, count }
                    } else {
                        Self::bundles_from(bundles, 0)
                    }
                },
                Err(error) => BundlesPhase::Finished(Err(CallError::Node(error))),
            },
            (phase, _) => phase,
        }
    }

    /// Takes what came of the action that was due.
    pub fn advance(self, event: BundlesEvent<E>) -> (next: CallBundles<E>)
        ensures
            next@ == self@.after(event),
    {
        proof {
            use_type_invariant(&self);
        }
        let ghost state = self@;
        let CallBundles { bundles, index, pending, done, current, phase } = self;
        let mut done = done;
        let mut current = current;
        let phase = match (phase, event) {
            (BundlesPhase::Prepare { bundle, tx }, BundlesEvent::Prepared(prepared)) => match prepared {
                Ok(_) => BundlesPhase::Execute { bundle, tx },
                Err(error) => BundlesPhase::Finished(
                    Err(CallError::CallMany { bundle_index: bundle, tx_index: tx, error }),
                ),
            },
            (BundlesPhase::Execute { bundle, tx }, BundlesEvent::Executed(executed)) => match executed {
                Ok(outcome) => {
                    let ghost before = current@;
                    current.push(make_response(outcome));
                    assert(response_values(current@) =~= response_values(before).push(response_to(outcome)));
                    BundlesPhase::Commit { bundle, tx }
                },
                Err(error) => BundlesPhase::Finished(
                    Err(CallError::CallMany { bundle_index: bundle, tx_index: tx, error }),
                ),
            },
            (BundlesPhase::Commit { bundle, tx }, BundlesEvent::Committed) => {
                if tx < bundles[bundle] - 1 {
                    BundlesPhase::Prepare { bundle, tx: tx + 1 }
                } else {
                    let ghost before = done@;
                    let ghost responses = current@;
                    done.push(current);
                    current = Vec::new();
                    assert(bundle_values(done@) =~= bundle_values(before).push(response_values(responses)));
                    assert(response_values(current@) =~= Seq::empty());
                    assert(bundle < bundles.len());
                    Self::bundles_from(&bundles, bundle + 1)
                }
            },
            (BundlesPhase::Prepare { bundle, tx }, _) => BundlesPhase::Prepare { bundle, tx },
            (BundlesPhase::Execute { bundle, tx }, _) => BundlesPhase::Execute { bundle, tx },
            (BundlesPhase::Commit { bundle, tx }, _) => BundlesPhase::Commit { bundle, tx },
            (phase, event) => Self::advance_block(&bundles, index, pending, phase, event, Ghost(state)),
        };
        CallBundles { bundles, index, pending, done, current, phase }
    }

    /// The answer to the request, once there is one: the responses of each bundle that
    /// has calls.
    pub fn answer(self) -> (answer: Option<Result<Vec<Vec<EthCallResponse>>, CallError<E>>>)
        ensures
            match answer {
                Some(Ok(bundles)) => self@.phase is Finished && self@.phase->Finished_0 is Ok && bundle_values(
                    bundles@,
                ) == self@.done,
                Some(Err(error)) => self@.phase == BundlesPhase::<E>::Finished(Err(error)),
                None => !(self@.phase is Finished),
            },
    {
        match self.phase {
            BundlesPhase::Finished(Ok(_)) => Some(Ok(self.done)),
            BundlesPhase::Finished(Err(error)) => Some(Err(error)),
            _ => None,
        }
    }
}

/// What a number of events make of a request.
pub open spec fn run<E>(state: BundlesState<E>, events: Seq<BundlesEvent<E>>) -> BundlesState<E>
    decreases events.len(),
{
    if events.len() == 0 {
        state
    } else {
        run(state, events.drop_last()).after(events.last())
    }
}

/// The numbers of calls of those bundles that have any.
pub open spec fn nonzero(bundles: Seq<usize>) -> Seq<nat>
    decreases bundles.len(),
{
    if bundles.len() == 0 {
        Seq::empty()
    } else if bundles.last() == 0 {
        nonzero(bundles.drop_last())
    } else {
        nonzero(bundles.drop_last()).push(bundles.last() as nat)
    }
}

/// The numbers of responses.
pub open spec fn response_counts(done: Seq<Seq<Response>>) -> Seq<nat> {
    Seq::new(done.len(), |i: int| done[i].len())
}

/// The responses of a request are those of the calls before the one at hand.
pub open spec fn at_call<E>(state: BundlesState<E>, bundle: usize, tx: usize) -> bool {
    &&& bundle < state.bundles.len()
    &&& tx < state.bundles[bundle as int]
    &&& response_counts(state.done) == nonzero(state.bundles.take(bundle as int))
}

/// The responses of a request are in step with its calls: as many as there were calls,
/// and all of them once the request is answered without an error.
pub open spec fn in_step<E>(state: BundlesState<E>) -> bool {
    match state.phase {
        BundlesPhase::Prepare { bundle, tx } => at_call(state, bundle, tx) && state.current.len() == tx,
        BundlesPhase::Execute { bundle, tx } => at_call(state, bundle, tx) && state.current.len() == tx,
        BundlesPhase::Commit { bundle, tx } => at_call(state, bundle, tx) && state.current.len() == tx + 1,
        BundlesPhase::Finished(Ok(_)) => response_counts(state.done) == nonzero(state.bundles),
        BundlesPhase::Finished(Err(_)) => true,
        _ => state.done.len() == 0 && state.current.len() == 0,
    }
}

/// Bundles without calls have no part in the numbers of calls.
proof fn next_bundle_skips_zeros(bundles: Seq<usize>, from: int)
    requires
        0 <= from <= bundles.len(),
    ensures
        from <= next_bundle(bundles, from) <= bundles.len(),
        next_bundle(bundles, from) < bundles.len() ==> bundles[next_bundle(bundles, from)] > 0,
        nonzero(bundles.take(next_bundle(bundles, from))) == nonzero(bundles.take(from)),
    decreases bundles.len() - from,
{
    if from < bundles.len() && bundles[from] == 0 {
        next_bundle_skips_zeros(bundles, from + 1);
        assert(bundles.take(from + 1).drop_last() =~= bundles.take(from));
        assert(bundles.take(from + 1).last() == bundles[from]);
    }
}

/// Going on to the next bundle keeps the responses in step.
proof fn next_bundle_keeps_step<E>(state: BundlesState<E>, from: int)
    requires
        0 <= from <= state.bundles.len(),
        state.bundles.len() <= usize::MAX,
        response_counts(state.done) == nonzero(state.bundles.take(from)),
        state.current.len() == 0,
        state.phase == state.bundles_from(from),
    ensures
        in_step(state),
{
    next_bundle_skips_zeros(state.bundles, from);
    assert(state.bundles.take(state.bundles.len() as int) =~= state.bundles);
}

/// An event keeps the responses in step.
proof fn event_keeps_step<E>(state: BundlesState<E>, event: BundlesEvent<E>)
    requires
        in_step(state),
        state.bundles.len() <= usize::MAX,
    ensures
        in_step(state.after(event)),
        state.after(event).bundles == state.bundles,
{
    let next = state.after(event);
    assert(state.bundles.take(0) =~= Seq::empty());
    if response_counts(state.done).len() == 0 {
        assert(response_counts(state.done) =~= Seq::empty());
    }
    match (state.phase, event) {
        (BundlesPhase::LoadState { .. }, BundlesEvent::Loaded(Ok(_))) => {
            if !(next.phase is BeginReplay) {
                next_bundle_keeps_step(next, 0);
            }
        },
        (BundlesPhase::BeginReplay { .. }, BundlesEvent::ReplayBegun(Ok(_))) => {
            if !(next.phase is Replay) {
                next_bundle_keeps_step(next, 0);
            }
        },
        (BundlesPhase::Replay { .. }, BundlesEvent::Replayed(Ok(_))) => {
            if !(next.phase is Replay) {
                next_bundle_keeps_step(next, 0);
            }
        },
        (BundlesPhase::Commit { bundle, tx }, BundlesEvent::Committed) => {
            if tx + 1 >= state.bundles[bundle as int] {
                let bundles = state.bundles;
                assert(bundles.take(bundle + 1).drop_last() =~= bundles.take(bundle as int));
                assert(bundles.take(bundle + 1).last() == bundles[bundle as int]);
                assert(response_counts(next.done) =~= response_counts(state.done).push(bundles[bundle as int] as nat));
                next_bundle_keeps_step(next, bundle + 1);
            }
        },
        _ => {},
    }
}

/// Whatever the node reports, the responses are in step with the calls.
pub proof fn responses_stay_in_step<E>(
    bundles: Seq<usize>,
    index: Option<TransactionIndex>,
    block: Option<BlockId>,
    events: Seq<BundlesEvent<E>>,
)
    requires
        bundles.len() <= usize::MAX,
    ensures
        in_step(run(BundlesState::<E>::start(bundles, index, block), events)),
        run(BundlesState::<E>::start(bundles, index, block), events).bundles == bundles,
    decreases events.len(),
{
    if events.len() > 0 {
        responses_stay_in_step::<E>(bundles, index, block, events.drop_last());
        event_keeps_step(run(BundlesState::<E>::start(bundles, index, block), events.drop_last()), events.last());
    }
}

/// A request that is answered without an error has a response for each call of each
/// bundle; a bundle without calls has no part in the answer.
pub proof fn every_call_is_answered<E>(
    bundles: Seq<usize>,
    index: Option<TransactionIndex>,
    block: Option<BlockId>,
    events: Seq<BundlesEvent<E>>,
)
    requires
        bundles.len() <= usize::MAX,
        run(BundlesState::<E>::start(bundles, index, block), events).phase matches BundlesPhase::Finished(Ok(_)),
    ensures
        response_counts(run(BundlesState::<E>::start(bundles, index, block), events).done) == nonzero(bundles),
{
    responses_stay_in_step(bundles, index, block, events);
}

/// The numbers of calls of bundles that have any start with that of the first of them.
proof fn nonzero_is_empty_before_first(bundles: Seq<usize>, bundle: int)
    requires
        0 <= bundle < bundles.len(),
        bundles[bundle] > 0,
    ensures
        nonzero(bundles.take(bundle)).len() == 0 <==> bundle == next_bundle(bundles, 0),
{
    next_bundle_skips_zeros(bundles, 0);
    let first = next_bundle(bundles, 0);
    assert(bundles.take(0) =~= Seq::empty());
    if bundle > first {
        nonzero_grows(bundles, first + 1, bundle);
        assert(bundles.take(first + 1).drop_last() =~= bundles.take(first));
    } else if bundle < first {
        zeros_before_next(bundles, 0, bundle);
    }
}

/// More bundles have no fewer numbers of calls.
proof fn nonzero_grows(bundles: Seq<usize>, from: int, to: int)
    requires
        0 <= from <= to <= bundles.len(),
    ensures
        nonzero(bundles.take(from)).len() <= nonzero(bundles.take(to)).len(),
    decreases to - from,
{
    if from < to {
        nonzero_grows(bundles, from, to - 1);
        assert(bundles.take(to).drop_last() =~= bundles.take(to - 1));
    }
}

/// The bundles before the first with calls have none.
proof fn zeros_before_next(bundles: Seq<usize>, from: int, at: int)
    requires
        0 <= from <= at < next_bundle(bundles, from),
        at < bundles.len(),
    ensures
        bundles[at] == 0,
    decreases at - from,
{
    if from < at {
        zeros_before_next(bundles, from + 1, at);
    }
}

/// State overrides are applied for the first call of a request, and for no other.
pub proof fn override_is_for_first_call<E>(
    bundles: Seq<usize>,
    index: Option<TransactionIndex>,
    block: Option<BlockId>,
    events: Seq<BundlesEvent<E>>,
)
    requires
        bundles.len() <= usize::MAX,
    ensures
        run(BundlesState::<E>::start(bundles, index, block), events).due() matches BundlesAction::Prepare {
            bundle,
            tx,
            apply_state_override,
        } ==> (apply_state_override <==> bundle == next_bundle(bundles, 0) && tx == 0),
{
    responses_stay_in_step(bundles, index, block, events);
    let state = run(BundlesState::<E>::start(bundles, index, block), events);
    if let BundlesPhase::Prepare { bundle, tx } = state.phase {
        nonzero_is_empty_before_first(bundles, bundle as int);
        assert(response_counts(state.done).len() == state.done.len());
    }
}

/// An answer is final.
pub proof fn answer_is_final<E>(state: BundlesState<E>, events: Seq<BundlesEvent<E>>)
    requires
        state.phase is Finished,
    ensures
        run(state, events) == state,
    decreases events.len(),
{
    if events.len() > 0 {
        answer_is_final(state, events.drop_last());
    }
}

/// A call is prepared only once the changes of the call before it are committed.
pub proof fn commit_comes_before_next_call<E>(state: BundlesState<E>, event: BundlesEvent<E>)
    requires
        state.phase is Execute || state.phase is Commit,
        state.after(event).phase is Prepare,
    ensures
        state.phase is Commit,
        event is Committed,
{
}

/// A call that is made is answered with its output, or with why it failed, and its
/// changes are committed either way.
pub proof fn call_is_answered<E>(
    state: BundlesState<E>,
    bundle: usize,
    tx: usize,
    outcome: Result<Vec<u8>, String>,
)
    requires
        state.phase == (BundlesPhase::<E>::Prepare { bundle, tx }),
    ensures
        ({
            let executed = state.after(BundlesEvent::Prepared(Ok(()))).after(BundlesEvent::Executed(Ok(outcome)));
            let answered = BundlesState { current: state.current.push(response_to(outcome)), ..state };
            &&& executed.due() == BundlesAction::Commit
            &&& executed.after(BundlesEvent::Committed) == answered.committed(bundle, tx)
        }),
{
}

} // verus!
