use eth_call_ledger::block::{BlockId, BlockNumberOrTag};
use eth_call_ledger::errors::{CallError, InvalidParams};
use eth_call_ledger::logs::{CallSequenceLog, EventTopics};
use eth_call_ledger::outcome::{build_call_result, CallSequenceResult, Execution, Outcome};
use eth_call_ledger::primitives::{Address, B256};
use eth_call_ledger::sequence::{CallSequence, SequenceAction, SequenceEvent};
use eth_call_ledger::tracking::{
    CallSequenceNativeChange, TouchedAccount, TrackedAction, TrackedEvent, TrackedExecution, TrackedSequence,
};
use eth_call_ledger::word::U256;

type Sequence = CallSequence<&'static str>;
type Watched = TrackedSequence<&'static str>;

fn word(number: u64) -> U256 {
    U256::from_u64(number)
}

fn account(number: u8) -> Address {
    Address { bytes: [number; 20] }
}

fn hash(number: u8) -> B256 {
    B256 { bytes: [number; 32] }
}

fn topic_of(address: &Address) -> B256 {
    let mut bytes = [0u8; 32];
    bytes[12..].copy_from_slice(&address.bytes);
    B256 { bytes }
}

fn success(output: &[u8], logs: Vec<CallSequenceLog>) -> Execution {
    Execution { used_gas: 21_000, outcome: Outcome::Success { output: output.to_vec(), logs } }
}

fn transfer(amount: u8) -> CallSequenceLog {
    let mut data = vec![0u8; 32];
    data[31] = amount;
    CallSequenceLog {
        address: account(7),
        topics: vec![EventTopics::hashed().transfer, topic_of(&account(1)), topic_of(&account(2))],
        data,
    }
}

fn latest() -> BlockId {
    BlockId::Number(BlockNumberOrTag::Latest)
}

fn pending() -> BlockId {
    BlockId::Number(BlockNumberOrTag::Pending)
}

fn of_hash(block_hash: B256) -> BlockId {
    BlockId::Hash { block_hash, require_canonical: None }
}

fn loaded(calls: usize) -> Sequence {
    CallSequence::call_sequence(calls, None)
        .advance(SequenceEvent::BlockHash(Ok(Some(hash(3)))))
        .advance(SequenceEvent::Loaded(Ok(())))
}

#[test]
fn a_success_has_output_and_logs() {
    let result = build_call_result(success(&[1, 2], vec![transfer(5)]), word(10), word(4));
    assert_eq!(
        result,
        CallSequenceResult {
            ok: true,
            result: vec![1, 2],
            logs: vec![transfer(5)],
            used_gas: 21_000,
            from_balance_change: "-6".to_string(),
            revert_reason: String::new(),
        }
    );
}

#[test]
fn a_revert_has_its_output_and_a_reason() {
    let execution = Execution { used_gas: 9, outcome: Outcome::Revert { output: vec![8] } };
    let result = build_call_result(execution, word(4), word(10));
    assert!(!result.ok);
    assert_eq!(result.result, vec![8]);
    assert!(result.logs.is_empty());
    assert_eq!(result.from_balance_change, "6");
    assert_eq!(result.revert_reason, "execution reverted");
}

#[test]
fn a_halt_has_its_reason_alone() {
    let execution = Execution { used_gas: 9, outcome: Outcome::Halt { reason: "StackUnderflow".to_string() } };
    let result = build_call_result(execution, word(4), word(4));
    assert!(!result.ok);
    assert!(result.result.is_empty());
    assert_eq!(result.from_balance_change, "0");
    assert_eq!(result.revert_reason, "halt: StackUnderflow");
}

#[test]
fn a_sequence_needs_calls() {
    let sequence: Sequence = CallSequence::call_sequence(0, None);
    assert_eq!(sequence.action(), SequenceAction::Finish);
    assert_eq!(
        sequence.answer(),
        Some(Err(CallError::InvalidParams(InvalidParams::CallsEmpty)))
    );
}

#[test]
fn a_sequence_is_at_the_latest_block_by_its_hash() {
    let sequence: Sequence = CallSequence::call_sequence(1, None);
    assert_eq!(sequence.action(), SequenceAction::ResolveBlock(latest()));
    let sequence = sequence.advance(SequenceEvent::BlockHash(Ok(Some(hash(3)))));
    assert_eq!(sequence.action(), SequenceAction::Load(of_hash(hash(3))));
}

#[test]
fn the_pending_block_has_no_hash() {
    let sequence: Sequence = CallSequence::call_sequence(1, Some(pending()));
    assert_eq!(sequence.action(), SequenceAction::Load(pending()));
}

#[test]
fn a_sequence_without_its_block_fails() {
    for found in [Ok(None), Err("broken")] {
        let sequence: Sequence =
            CallSequence::call_sequence(1, None).advance(SequenceEvent::BlockHash(found));
        assert_eq!(sequence.answer(), Some(Err(CallError::HeaderNotFound(latest()))));
    }
}

#[test]
fn calls_are_answered_one_by_one() {
    let sequence = loaded(2);
    assert_eq!(sequence.action(), SequenceAction::Prepare { index: 0, apply_state_override: true });
    let sequence = sequence.advance(SequenceEvent::Prepared(Ok(account(1))));
    assert_eq!(sequence.action(), SequenceAction::ReadBalance(account(1)));
    let sequence = sequence.advance(SequenceEvent::Balance(Ok(Some(word(100)))));
    assert_eq!(sequence.action(), SequenceAction::Execute);
    let sequence = sequence.advance(SequenceEvent::Executed(Ok(success(&[1], vec![]))));
    assert_eq!(sequence.action(), SequenceAction::Commit);
    let sequence = sequence.advance(SequenceEvent::Committed);
    assert_eq!(sequence.action(), SequenceAction::ReadBalance(account(1)));
    let sequence = sequence.advance(SequenceEvent::Balance(Ok(Some(word(60)))));
    assert_eq!(sequence.action(), SequenceAction::Prepare { index: 1, apply_state_override: false });
    let sequence = sequence
        .advance(SequenceEvent::Prepared(Ok(account(2))))
        .advance(SequenceEvent::Balance(Ok(None)))
        .advance(SequenceEvent::Executed(Ok(success(&[2], vec![]))))
        .advance(SequenceEvent::Committed)
        .advance(SequenceEvent::Balance(Ok(Some(word(7)))));
    assert_eq!(sequence.action(), SequenceAction::Finish);
    let results = sequence.answer().unwrap().unwrap();
    assert_eq!(results.len(), 2);
    assert_eq!(results[0].result, vec![1]);
    assert_eq!(results[0].from_balance_change, "-40");
    assert_eq!(results[1].result, vec![2]);
    assert_eq!(results[1].from_balance_change, "7");
}

#[test]
fn a_call_that_cannot_be_made_fails_the_sequence() {
    let sequence = loaded(2).advance(SequenceEvent::Prepared(Err("broken")));
    assert_eq!(sequence.answer(), Some(Err(CallError::Node("broken"))));
    let sequence = loaded(2)
        .advance(SequenceEvent::Prepared(Ok(account(1))))
        .advance(SequenceEvent::Balance(Ok(None)))
        .advance(SequenceEvent::Executed(Err("broken")))
        .advance(SequenceEvent::Committed);
    assert_eq!(sequence.answer(), Some(Err(CallError::Node("broken"))));
}

#[test]
fn a_sequence_on_its_way_has_no_answer() {
    let sequence = loaded(1).advance(SequenceEvent::Committed);
    assert_eq!(sequence.action(), SequenceAction::Prepare { index: 0, apply_state_override: true });
    assert_eq!(sequence.answer(), None);
}

fn watched(calls: usize, has_state_override: bool) -> Watched {
    TrackedSequence::call_sequence_with_balance_tracking(calls, Some(pending()), has_state_override)
        .advance(TrackedEvent::Loaded(Ok(())))
}

fn touched(number: u8, after: u64) -> TouchedAccount {
    TouchedAccount { address: account(number), after: word(after) }
}

#[test]
fn tracked_calls_need_calls_and_a_block() {
    let sequence: Watched = TrackedSequence::call_sequence_with_balance_tracking(0, None, false);
    assert_eq!(
        sequence.answer().unwrap().unwrap_err(),
        CallError::InvalidParams(InvalidParams::CallsEmpty)
    );
    let sequence: Watched = TrackedSequence::call_sequence_with_balance_tracking(1, None, false)
        .advance(TrackedEvent::BlockHash(Ok(None)));
    assert_eq!(sequence.answer().unwrap().unwrap_err(), CallError::HeaderNotFound(latest()));
}

#[test]
fn balances_that_change_are_reported() {
    let sequence = watched(1, true);
    assert_eq!(sequence.action(), TrackedAction::Prepare { index: 0, apply_state_override: true });
    let sequence = sequence.advance(TrackedEvent::Prepared(Ok(())));
    assert_eq!(sequence.action(), TrackedAction::Execute { apply_precompile_overrides: true });
    let sequence = sequence.advance(TrackedEvent::Executed(Ok(TrackedExecution {
        touched: vec![touched(1, 90), touched(2, 310), touched(3, 5), touched(4, 16)],
        execution: success(&[1], vec![transfer(5)]),
    })));
    assert_eq!(sequence.action(), TrackedAction::ReadBalance(account(1)));
    let sequence = sequence.advance(TrackedEvent::Balance(Ok(Some(word(100)))));
    assert_eq!(sequence.action(), TrackedAction::ReadBalance(account(2)));
    let sequence = sequence
        .advance(TrackedEvent::Balance(Ok(Some(word(300)))))
        .advance(TrackedEvent::Balance(Ok(Some(word(5)))));
    assert_eq!(sequence.action(), TrackedAction::ReadBalance(account(4)));
    let sequence = sequence.advance(TrackedEvent::Balance(Ok(None)));
    assert_eq!(sequence.action(), TrackedAction::Commit);
    let results = sequence.advance(TrackedEvent::Committed).answer().unwrap().unwrap();
    assert_eq!(results.len(), 1);
    let result = &results[0];
    assert!(result.ok);
    assert_eq!(result.used_gas, 21_000);
    assert_eq!(result.logs, vec![transfer(5)]);
    let native = |change: &str, before: &str, after: &str| CallSequenceNativeChange {
        change: change.to_string(),
        before: before.to_string(),
        after: after.to_string(),
    };
    assert_eq!(result.native_changes.get(&account(1)), Some(&native("-10", "0x64", "0x5a")));
    assert_eq!(result.native_changes.get(&account(2)), Some(&native("10", "0x12c", "0x136")));
    assert_eq!(result.native_changes.get(&account(3)), None);
    assert_eq!(result.native_changes.get(&account(4)), Some(&native("16", "0x0", "0x10")));
    assert_eq!(
        result.erc20_changes.get(&account(2)).and_then(|tokens| tokens.get(&account(7))),
        Some(&"0x5".to_string())
    );
    assert_eq!(result.erc20_changes.len(), 2);
}

#[test]
fn a_call_that_fails_moves_no_tokens() {
    for outcome in
        [Outcome::Revert { output: vec![1] }, Outcome::Halt { reason: "OutOfGas".to_string() }]
    {
        let execution = Execution { used_gas: 3, outcome };
        let results = watched(1, false)
            .advance(TrackedEvent::Prepared(Ok(())))
            .advance(TrackedEvent::Executed(Ok(TrackedExecution { touched: vec![], execution })))
            .advance(TrackedEvent::Committed)
            .answer()
            .unwrap()
            .unwrap();
        assert!(!results[0].ok);
        assert!(results[0].erc20_changes.is_empty());
        assert!(results[0].erc721_changes.is_empty());
        assert!(results[0].erc1155_changes.is_empty());
        assert!(results[0].native_changes.is_empty());
        assert!(!results[0].revert_reason.is_empty());
    }
}

#[test]
fn each_tracked_call_has_its_own_changes() {
    let one = |sequence: Watched, before: u64, after: u64| {
        sequence
            .advance(TrackedEvent::Prepared(Ok(())))
            .advance(TrackedEvent::Executed(Ok(TrackedExecution {
                touched: vec![touched(1, after)],
                execution: success(&[], vec![]),
            })))
            .advance(TrackedEvent::Balance(Ok(Some(word(before)))))
            .advance(TrackedEvent::Committed)
    };
    let sequence = one(watched(2, true), 10, 8);
    assert_eq!(sequence.action(), TrackedAction::Prepare { index: 1, apply_state_override: false });
    let middle = sequence.advance(TrackedEvent::Prepared(Err("broken")));
    assert_eq!(middle.answer().unwrap().unwrap_err(), CallError::Node("broken"));
    let results = one(one(watched(2, true), 10, 8), 8, 8).answer().unwrap().unwrap();
    assert_eq!(results[0].native_changes.len(), 1);
    assert!(results[1].native_changes.is_empty());
}

#[test]
fn precompiles_are_replaced_for_the_first_call_alone() {
    let executed = || {
        TrackedEvent::Executed(Ok(TrackedExecution { touched: vec![], execution: success(&[], vec![]) }))
    };
    let second = watched(2, true)
        .advance(TrackedEvent::Prepared(Ok(())))
        .advance(executed())
        .advance(TrackedEvent::Committed)
        .advance(TrackedEvent::Prepared(Ok(())));
    assert_eq!(second.action(), TrackedAction::Execute { apply_precompile_overrides: false });
    let without = watched(1, false).advance(TrackedEvent::Prepared(Ok(())));
    assert_eq!(without.action(), TrackedAction::Execute { apply_precompile_overrides: false });
}

#[test]
fn a_watched_call_says_what_a_plain_one_says() {
    let plain = build_call_result(success(&[1, 2], vec![transfer(5)]), word(10), word(4));
    let results = watched(1, false)
        .advance(TrackedEvent::Prepared(Ok(())))
        .advance(TrackedEvent::Executed(Ok(TrackedExecution {
            touched: vec![],
            execution: success(&[1, 2], vec![transfer(5)]),
        })))
        .advance(TrackedEvent::Committed)
        .answer()
        .unwrap()
        .unwrap();
    assert_eq!(results[0].ok, plain.ok);
    assert_eq!(results[0].result, plain.result);
    assert_eq!(results[0].logs, plain.logs);
    assert_eq!(results[0].used_gas, plain.used_gas);
    assert_eq!(results[0].revert_reason, plain.revert_reason);
}
