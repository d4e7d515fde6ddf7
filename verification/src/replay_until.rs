//! The transactions of a block executed up to one of them.
//!
//! The node does the work, one step at a time: [`ReplayUntil::action`] says which step is
//! next, and [`ReplayUntil::advance`] takes what came of it.

use crate::errors::CallError;
use crate::primitives::B256;
use crate::replay::{count_before, count_before_finds_target, hash_values, transactions_before};
use vstd::prelude::*;

verus! {

/// What the node has to do next.
#[derive(Debug, Clone, Copy, PartialEq, Eq)]
pub enum UntilAction {
    /// Execute the transaction with an index, and commit its changes.
    Execute(usize),
    /// Nothing: the request is answered.
    Finish,
}

/// How far a replay is.
#[derive(Debug)]
pub enum UntilPhase<E> {
    /// A transaction is to be executed: as many as are done come before it, and there
    /// are `count` in all.
    Execute { done: usize, count: usize },
    /// The request is answered, with the index of the target.
    Finished(Result<usize, CallError<E>>),
}

/// A replay on its way.
#[derive(Debug)]
pub struct ReplayUntil<E> {
    phase: UntilPhase<E>,
}

impl<E> View for ReplayUntil<E> {
    type V = UntilPhase<E>;

    closed spec fn view(&self) -> UntilPhase<E> {
        self.phase
    }
}

impl<E> UntilPhase<E> {
    /// The phase with a number of transactions done.
    pub open spec fn with_done(done: int, count: nat) -> UntilPhase<E> {
        if done < count {
            UntilPhase::Execute { done: done as usize, count: count as usize }
        } else {
            UntilPhase::Finished(Ok(count as usize))
        }
    }

    /// A request for the transactions with the hashes, up to the one with another. It is
    /// answered with the index of that one, or with the number of transactions where
    /// none has the hash.
    pub open spec fn start(hashes: Seq<Seq<u8>>, target: Seq<u8>) -> UntilPhase<E> {
        Self::with_done(0, count_before(hashes, target))
    }

    /// What came of the execution of a transaction makes of the replay: the next
    /// transaction is due, or the replay ends with the error.
    pub open spec fn after(self, executed: Result<(), E>) -> UntilPhase<E> {
        match self {
            UntilPhase::Execute { done, count } => match executed {
                Ok(_) => Self::with_done(done + 1, count as nat),
                Err(error) => UntilPhase::Finished(Err(CallError::Node(error))),
            },
            UntilPhase::Finished(_) => self,
        }
    }

    /// The action that is due.
    pub open spec fn due(self) -> UntilAction {
        match self {
            UntilPhase::Execute { done, .. } => UntilAction::Execute(done),
            UntilPhase::Finished(_) => UntilAction::Finish,
        }
    }
}

impl<E> ReplayUntil<E> {
    #[verifier::type_invariant]
    spec fn executes_a_transaction(&self) -> bool {
        self.phase matches UntilPhase::Execute { done, count } ==> done < count
    }

    /// A request for the transactions with the hashes, up to the one with another.
    pub fn replay_transactions_until(hashes: &[B256], target: &B256) -> (replay: ReplayUntil<E>)
        ensures
            replay@ == UntilPhase::<E>::start(hash_values(hashes@), target@),
    {
        let count = transactions_before(hashes, target);
        ReplayUntil {
            phase: if count > 0 {
                UntilPhase::Execute { done: 0, count }
            } else {
                UntilPhase::Finished(Ok(count))
            },
        }
    }

    /// The action that is due.
    pub fn action(&self) -> (action: UntilAction)
        ensures
            action == self@.due(),
    {
        match &self.phase {
            UntilPhase::Execute { done, .. } => UntilAction::Execute(*done),
            UntilPhase::Finished(_) => UntilAction::Finish,
        }
    }

    /// Takes what came of the execution of the transaction that was due.
    pub fn advance(self, executed: Result<(), E>) -> (next: ReplayUntil<E>)
        ensures
            next@ == self@.after(executed),
    {
        proof {
            use_type_invariant(&self);
        }
        let phase = match self.phase {
            UntilPhase::Execute { done, count } => match executed {
                Ok(_) => {
                    if done < count - 1 {
                        UntilPhase::Execute { done: done + 1, count }
                    } else {
                        UntilPhase::Finished(Ok(count))
                    }
                },
                Err(error) => UntilPhase::Finished(Err(CallError::Node(error))),
            },
            phase => phase,
        };
        ReplayUntil { phase }
    }

    /// The answer to the request, once there is one: the index of the target.
    pub fn answer(self) -> (answer: Option<Result<usize, CallError<E>>>)
        ensures
            match answer {
                Some(result) => self@ == UntilPhase::<E>::Finished(result),
                None => !(self@ is Finished),
            },
    {
        match self.phase {
            UntilPhase::Finished(result) => Some(result),
            _ => None,
        }
    }
}

/// What a number of executions make of a replay.
pub open spec fn run<E>(state: UntilPhase<E>, executed: Seq<Result<(), E>>) -> UntilPhase<E>
    decreases executed.len(),
{
    if executed.len() == 0 {
        state
    } else {
        run(state, executed.drop_last()).after(executed.last())
    }
}

/// The indexes of the transactions whose changes were committed, in order.
pub open spec fn committed<E>(state: UntilPhase<E>, executed: Seq<Result<(), E>>) -> Seq<usize>
    decreases executed.len(),
{
    if executed.len() == 0 {
        Seq::empty()
    } else {
        let earlier = committed(state, executed.drop_last());
        match (run(state, executed.drop_last()).due(), executed.last()) {
            (UntilAction::Execute(index), Ok(_)) => earlier.push(index),
            _ => earlier,
        }
    }
}

/// Whatever the node reports, the transactions before the target are committed one by
/// one, from the first on, and neither the target nor any after it. A replay that ends
/// without an error has committed all of them, and its answer is the index of the
/// target; one that is under way or ends with an error has not.
pub proof fn replay_commits_in_order<E>(hashes: Seq<Seq<u8>>, target: Seq<u8>, executed: Seq<Result<(), E>>)
    requires
        hashes.len() <= usize::MAX,
    ensures
        ({
            let start = UntilPhase::<E>::start(hashes, target);
            let done = committed(start, executed);
            &&& forall|i: int| 0 <= i < done.len() ==> #[trigger] done[i] == i
            &&& match run(start, executed) {
                UntilPhase::Execute { done: index, count } => done.len() == index && index < count && count
                    == count_before(hashes, target),
                UntilPhase::Finished(Ok(index)) => done.len() == index && index == count_before(hashes, target),
                UntilPhase::Finished(Err(_)) => done.len() < count_before(hashes, target),
            }
        }),
    decreases executed.len(),
{
    count_before_finds_target(hashes, target);
    if executed.len() > 0 {
        replay_commits_in_order(hashes, target, executed.drop_last());
    }
}

/// If every transaction before the target works, the replay ends with the index of the
/// target.
pub proof fn replay_ends_at_target<E>(hashes: Seq<Seq<u8>>, target: Seq<u8>, executed: Seq<Result<(), E>>)
    requires
        hashes.len() <= usize::MAX,
        executed.len() == count_before(hashes, target),
        forall|i: int| 0 <= i < executed.len() ==> #[trigger] executed[i] is Ok,
    ensures
        run(UntilPhase::<E>::start(hashes, target), executed) == UntilPhase::<E>::Finished(
            Ok(count_before(hashes, target) as usize),
        ),
{
    first_transactions_run(hashes, target, executed);
}

/// The first transactions that work.
proof fn first_transactions_run<E>(hashes: Seq<Seq<u8>>, target: Seq<u8>, executed: Seq<Result<(), E>>)
    requires
        hashes.len() <= usize::MAX,
        executed.len() <= count_before(hashes, target),
        forall|i: int| 0 <= i < executed.len() ==> #[trigger] executed[i] is Ok,
    ensures
        run(UntilPhase::<E>::start(hashes, target), executed) == UntilPhase::<E>::with_done(
            executed.len() as int,
            count_before(hashes, target),
        ),
    decreases executed.len(),
{
    count_before_finds_target(hashes, target);
    if executed.len() > 0 {
        let earlier = executed.drop_last();
        assert forall|i: int| 0 <= i < earlier.len() implies #[trigger] earlier[i] is Ok by {
            assert(earlier[i] == executed[i]);
        }
        first_transactions_run(hashes, target, earlier);
        assert(executed[executed.len() - 1] is Ok);
    }
}

/// A transaction that fails ends the replay with its error: whatever would come after it
/// is not executed.
pub proof fn error_ends_replay<E>(state: UntilPhase<E>, error: E, later: Seq<Result<(), E>>)
    requires
        state is Execute,
    ensures
        run(state.after(Err(error)), later) == UntilPhase::<E>::Finished(Err(CallError::Node(error))),
        committed(state.after(Err(error)), later) == Seq::<usize>::empty(),
    decreases later.len(),
{
    if later.len() > 0 {
        error_ends_replay(state, error, later.drop_last());
    }
}

} // verus!
