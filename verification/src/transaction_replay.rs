//! A transaction executed again, on the state that it was executed on.
//!
//! The node does the work, one step at a time: [`TransactionReplay::action`] says which
//! step is next, and [`TransactionReplay::advance`] takes what came of it.

use crate::block::BlockId;
use crate::errors::CallError;
use crate::primitives::B256;
use crate::replay::{count_before, count_before_finds_target, hash_values, transactions_before};
use vstd::prelude::*;

verus! {

/// The block that a transaction is in.
#[derive(Debug)]
pub struct TransactionBlock {
    /// The hash of the parent of the block.
    pub parent_hash: B256,
    /// The hashes of the transactions of the block, in their order.
    pub transactions: Vec<B256>,
}

/// What the node has to do next.
#[derive(Debug, Clone, Copy, PartialEq, Eq)]
pub enum ReplayAction {
    /// Look up the transaction with a hash, and its block.
    LookUp(B256),
    /// Load the state at a block.
    LoadState(BlockId),
    /// Apply the changes that come before the transactions of the block.
    Begin,
    /// Execute the transaction of the block with an index, and commit its changes.
    Replay(usize),
    /// Execute the transaction that was looked up, without committing its changes.
    Transact,
    /// Nothing: the request is answered.
    Finish,
}

/// What came of an action.
#[derive(Debug)]
pub enum ReplayEvent<E> {
    /// The block that the transaction is in, if there is such a transaction.
    Found(Result<Option<TransactionBlock>, E>),
    /// The state was loaded.
    StateLoaded(Result<(), E>),
    /// The changes that come before the transactions were applied.
    Begun(Result<(), E>),
    /// A transaction was executed, and its changes committed.
    Replayed(Result<(), E>),
    /// The transaction that was looked up was executed.
    Transacted(Result<(), E>),
}

/// How far a replay is.
#[derive(Debug)]
pub enum ReplayPhase<E> {
    /// The transaction is wanted.
    LookUp,
    /// The state at the parent of the block is wanted.
    LoadState { block: TransactionBlock },
    /// The changes that come before the transactions are to be applied.
    Begin { block: TransactionBlock },
    /// A transaction is to be executed: as many as are done come before it, and there
    /// are `count` in all.
    Replay { done: usize, count: usize },
    /// The transaction that was looked up is to be executed.
    Transact,
    /// The request is answered, and whether there is such a transaction.
    Finished(Result<bool, CallError<E>>),
}

/// A replay on its way.
#[derive(Debug)]
pub struct TransactionReplay<E> {
    target: B256,
    phase: ReplayPhase<E>,
}

/// A replay on its way: the transaction, and how far it is.
pub struct ReplayState<E> {
    pub target: B256,
    pub phase: ReplayPhase<E>,
}

impl<E> View for TransactionReplay<E> {
    type V = ReplayState<E>;

    closed spec fn view(&self) -> ReplayState<E> {
        ReplayState { target: self.target, phase: self.phase }
    }
}

impl<E> ReplayState<E> {
    /// A request for the transaction with a hash.
    pub open spec fn start(target: B256) -> ReplayState<E> {
        ReplayState { target, phase: ReplayPhase::LookUp }
    }

    /// The same replay in another phase.
    pub open spec fn at(self, phase: ReplayPhase<E>) -> ReplayState<E> {
        ReplayState { phase, ..self }
    }

    /// The same replay in another phase, or failed.
    pub open spec fn goes_on(self, came: Result<(), E>, phase: ReplayPhase<E>) -> ReplayState<E> {
        match came {
            Ok(_) => self.at(phase),
            Err(error) => self.at(ReplayPhase::Finished(Err(CallError::Node(error)))),
        }
    }

    /// The phase with a number of transactions done.
    pub open spec fn with_done(self, done: int, count: int) -> ReplayPhase<E> {
        if done < count {
            ReplayPhase::Replay { done: done as usize, count: count as usize }
        } else {
            ReplayPhase::Transact
        }
    }

    /// What an event makes of the replay. One that does not answer the action that is
    /// due changes nothing.
    pub open spec fn after(self, event: ReplayEvent<E>) -> ReplayState<E> {
        match (self.phase, event) {
            (ReplayPhase::LookUp, ReplayEvent::Found(found)) => match found {
                Ok(Some(block)) => self.at(ReplayPhase::LoadState { block }),
                Ok(None) => self.at(ReplayPhase::Finished(Ok(false))),
                Err(error) => self.at(ReplayPhase::Finished(Err(CallError::Node(error)))),
            },
            (ReplayPhase::LoadState { block }, ReplayEvent::StateLoaded(loaded)) => self.goes_on(
                loaded,
                ReplayPhase::Begin { block },
            ),
            (ReplayPhase::Begin { block }, ReplayEvent::Begun(begun)) => self.goes_on(
                begun,
                self.with_done(0, count_before(hash_values(block.transactions@), self.target@) as int),
            ),
            (ReplayPhase::Replay { done, count }, ReplayEvent::Replayed(replayed)) => self.goes_on(
                replayed,
                self.with_done(done + 1, count as int),
            ),
            (ReplayPhase::Transact, ReplayEvent::Transacted(transacted)) => self.goes_on(
                transacted,
                ReplayPhase::Finished(Ok(true)),
            ),
            _ => self,
        }
    }

    /// The action that is due.
    pub open spec fn due(self) -> ReplayAction {
        match self.phase {
            ReplayPhase::LookUp => ReplayAction::LookUp(self.target),
            ReplayPhase::LoadState { block } => ReplayAction::LoadState(BlockId::of_hash(block.parent_hash)),
            ReplayPhase::Begin { .. } => ReplayAction::Begin,
            ReplayPhase::Replay { done, .. } => ReplayAction::Replay(done),
            ReplayPhase::Transact => ReplayAction::Transact,
            ReplayPhase::Finished(_) => ReplayAction::Finish,
        }
    }
}

/// A phase, or the failure of a replay.
fn go_on<E>(came: Result<(), E>, phase: ReplayPhase<E>) -> (next: ReplayPhase<E>)
    ensures
        next == (match came {
            Ok(_) => phase,
            Err(error) => ReplayPhase::Finished(Err(CallError::Node(error))),
        }),
{
    match came {
        Ok(_) => phase,
        Err(error) => ReplayPhase::Finished(Err(CallError::Node(error))),
    }
}

impl<E> TransactionReplay<E> {
    #[verifier::type_invariant]
    spec fn replays_a_transaction(&self) -> bool {
        self.phase matches ReplayPhase::Replay { done, count } ==> done < count
    }

    /// A request for the transaction with a hash.
    pub fn spawn_replay_transaction(target: B256) -> (replay: TransactionReplay<E>)
        ensures
            replay@ == ReplayState::<E>::start(target),
    {
        TransactionReplay { target, phase: ReplayPhase::LookUp }
    }

    /// The action that is due.
    pub fn action(&self) -> (action: ReplayAction)
        ensures
            action == self@.due(),
    {
        match &self.phase {
            ReplayPhase::LookUp => ReplayAction::LookUp(self.target),
            ReplayPhase::LoadState { block } => ReplayAction::LoadState(BlockId::from_hash(block.parent_hash)),
            ReplayPhase::Begin { .. } => ReplayAction::Begin,
            ReplayPhase::Replay { done, .. } => ReplayAction::Replay(*done),
            ReplayPhase::Transact => ReplayAction::Transact,
            ReplayPhase::Finished(_) => ReplayAction::Finish,
        }
    }

    /// Takes what came of the action that was due.
    pub fn advance(self, event: ReplayEvent<E>) -> (next: TransactionReplay<E>)
        ensures
            next@ == self@.after(event),
    {
        proof {
            use_type_invariant(&self);
        }
        let target = self.target;
        let phase = match (self.phase, event) {
            (ReplayPhase::LookUp, ReplayEvent::Found(found)) => match found {
                Ok(Some(block)) => ReplayPhase::LoadState { block },
                Ok(None) => ReplayPhase::Finished(Ok(false)),
                Err(error) => ReplayPhase::Finished(Err(CallError::Node(error))),
            },
            (ReplayPhase::LoadState { block }, ReplayEvent::StateLoaded(loaded)) => go_on(
                loaded,
                ReplayPhase::Begin { block },
            ),
            (ReplayPhase::Begin { block }, ReplayEvent::Begun(begun)) => {
                let count = transactions_before(block.transactions.as_slice(), &target);
                go_on(
                    begun,
                    if count > 0 {
                        ReplayPhase::Replay { done: 0, count }
                    } else {
                        ReplayPhase::Transact
                    },
                )
            },
            (ReplayPhase::Replay { done, count }, ReplayEvent::Replayed(replayed)) => go_on(
                replayed,
                if done < count - 1 {
                    ReplayPhase::Replay { done: done + 1, count }
                } else {
                    ReplayPhase::Transact
                },
            ),
            (ReplayPhase::Transact, ReplayEvent::Transacted(transacted)) => go_on(
                transacted,
                ReplayPhase::Finished(Ok(true)),
            ),
            (phase, _) => phase,
        };
        TransactionReplay { target, phase }
    }

    /// The answer to the request, once there is one: whether there is such a
    /// transaction, which then was executed.
    pub fn answer(self) -> (answer: Option<Result<bool, CallError<E>>>)
        ensures
            match answer {
                Some(result) => self@.phase == ReplayPhase::<E>::Finished(result),
                None => !(self@.phase is Finished),
            },
    {
        match self.phase {
            ReplayPhase::Finished(result) => Some(result),
            _ => None,
        }
    }
}

/// What a number of events make of a replay.
pub open spec fn run<E>(state: ReplayState<E>, events: Seq<ReplayEvent<E>>) -> ReplayState<E>
    decreases events.len(),
{
    if events.len() == 0 {
        state
    } else {
        run(state, events.drop_last()).after(events.last())
    }
}

/// A number of transactions that are executed without an error.
pub open spec fn replayed<E>(count: nat) -> Seq<ReplayEvent<E>> {
    Seq::new(count, |i: int| ReplayEvent::Replayed(Ok(())))
}

/// The transactions of the block that come before the target are executed, in their
/// order, and then the target: as many as there are before it, and no other.
pub proof fn transactions_before_are_replayed<E>(
    state: ReplayState<E>,
    block: TransactionBlock,
    done: nat,
)
    requires
        state.phase == (ReplayPhase::<E>::Begin { block }),
        done <= count_before(hash_values(block.transactions@), state.target@),
    ensures
        ({
            let count = count_before(hash_values(block.transactions@), state.target@);
            let next = run(state.after(ReplayEvent::Begun(Ok(()))), replayed::<E>(done));
            &&& next.target == state.target
            &&& if done < count {
                next.due() == ReplayAction::Replay(done as usize) && done as usize == done
            } else {
                next.due() == ReplayAction::Transact
            }
        }),
{
    first_transactions_are_replayed(state, block, done);
    count_before_finds_target(hash_values(block.transactions@), state.target@);
    assert(block.transactions@.len() == block.transactions.len());
}

/// The first transactions that are replayed.
proof fn first_transactions_are_replayed<E>(state: ReplayState<E>, block: TransactionBlock, done: nat)
    requires
        state.phase == (ReplayPhase::<E>::Begin { block }),
        done <= count_before(hash_values(block.transactions@), state.target@),
    ensures
        run(state.after(ReplayEvent::Begun(Ok(()))), replayed::<E>(done)) == state.at(
            state.with_done(
                done as int,
                count_before(hash_values(block.transactions@), state.target@) as int,
            ),
        ),
    decreases done,
{
    count_before_finds_target(hash_values(block.transactions@), state.target@);
    assert(block.transactions@.len() == block.transactions.len());
    if done > 0 {
        first_transactions_are_replayed(state, block, (done - 1) as nat);
        assert(replayed::<E>(done).drop_last() =~= replayed::<E>((done - 1) as nat));
    }
}

/// A transaction that is not known is answered as such, and nothing is executed.
pub proof fn unknown_transaction_is_not_replayed<E>(target: B256)
    ensures
        ReplayState::<E>::start(target).after(ReplayEvent::Found(Ok(None))).phase
            == ReplayPhase::<E>::Finished(Ok(false)),
{
}

/// An answer is final.
pub proof fn answer_is_final<E>(state: ReplayState<E>, events: Seq<ReplayEvent<E>>)
    requires
        state.phase is Finished,
    ensures
        run(state, events) == state,
    decreases events.len(),
{
    if events.len() > 0 {
        answer_is_final(state, events.drop_last());
    }
}

} // verus!
