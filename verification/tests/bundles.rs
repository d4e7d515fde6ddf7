use eth_call_ledger::block::{BlockId, BlockNumberOrTag, TransactionIndex};
use eth_call_ledger::bundles::{BlockFacts, BundlesAction, BundlesEvent, CallBundles, EthCallResponse};
use eth_call_ledger::errors::{CallError, InvalidParams};
use eth_call_ledger::primitives::B256;
use eth_call_ledger::replay::{
    choose_starting_point, transactions_before, transactions_requested, StartingPoint,
};
use eth_call_ledger::replay_until::{ReplayUntil, UntilAction};
use eth_call_ledger::transaction_replay::{ReplayAction, ReplayEvent, TransactionBlock, TransactionReplay};

type Bundles = CallBundles<&'static str>;
type Replay = TransactionReplay<&'static str>;
type Until = ReplayUntil<&'static str>;

fn hash(number: u8) -> B256 {
    B256 { bytes: [number; 32] }
}

fn latest() -> BlockId {
    BlockId::Number(BlockNumberOrTag::Latest)
}

fn pending() -> BlockId {
    BlockId::Number(BlockNumberOrTag::Pending)
}

fn of_hash(block_hash: B256) -> BlockId {
    BlockId::Hash { block_hash, require_canonical: None }
}

fn facts(transactions: usize) -> BlockFacts {
    BlockFacts { hash: hash(3), parent_hash: hash(2), transactions }
}

fn value(output: &[u8]) -> EthCallResponse {
    EthCallResponse { value: Some(output.to_vec()), error: None }
}

fn ready(bundles: Vec<usize>) -> Bundles {
    CallBundles::call_many(bundles, None, None)
        .advance(BundlesEvent::BlockHash(Ok(Some(hash(3)))))
        .advance(BundlesEvent::Block(Ok(Some(facts(2)))))
        .advance(BundlesEvent::Environment(Ok(())))
        .advance(BundlesEvent::Loaded(Ok(())))
}

fn call(request: Bundles, outcome: Result<Vec<u8>, String>) -> Bundles {
    request
        .advance(BundlesEvent::Prepared(Ok(())))
        .advance(BundlesEvent::Executed(Ok(outcome)))
        .advance(BundlesEvent::Committed)
}

#[test]
fn bundles_are_needed() {
    let request: Bundles = CallBundles::call_many(vec![], None, None);
    assert_eq!(request.answer(), Some(Err(CallError::InvalidParams(InvalidParams::BundlesEmpty))));
}

#[test]
fn bundles_need_their_block() {
    let request: Bundles = CallBundles::call_many(vec![1], None, None);
    assert_eq!(request.action(), BundlesAction::ResolveBlock(latest()));
    let request = request.advance(BundlesEvent::BlockHash(Ok(None)));
    assert_eq!(request.answer(), Some(Err(CallError::HeaderNotFound(latest()))));
    let request: Bundles =
        CallBundles::call_many(vec![1], None, None).advance(BundlesEvent::BlockHash(Err("broken")));
    assert_eq!(request.answer(), Some(Err(CallError::Node("broken"))));
    let request: Bundles = CallBundles::call_many(vec![1], None, None)
        .advance(BundlesEvent::BlockHash(Ok(Some(hash(3)))));
    assert_eq!(request.action(), BundlesAction::LoadBlock(of_hash(hash(3))));
    let request = request.advance(BundlesEvent::Block(Ok(None)));
    assert_eq!(request.answer(), Some(Err(CallError::HeaderNotFound(of_hash(hash(3))))));
}

#[test]
fn after_all_transactions_is_the_state_of_the_block() {
    let request: Bundles = CallBundles::call_many(vec![1], None, None)
        .advance(BundlesEvent::BlockHash(Ok(Some(hash(3)))))
        .advance(BundlesEvent::Block(Ok(Some(facts(2)))));
    assert_eq!(request.action(), BundlesAction::LoadEnvironment);
    let request = request.advance(BundlesEvent::Environment(Ok(())));
    assert_eq!(request.action(), BundlesAction::LoadState(hash(3)));
    let request = request.advance(BundlesEvent::Loaded(Ok(())));
    assert_eq!(
        request.action(),
        BundlesAction::Prepare { bundle: 0, tx: 0, apply_state_override: true }
    );
}

#[test]
fn transactions_before_the_index_are_replayed() {
    let request: Bundles = CallBundles::call_many(vec![1], Some(TransactionIndex::Index(2)), None)
        .advance(BundlesEvent::BlockHash(Ok(Some(hash(3)))))
        .advance(BundlesEvent::Block(Ok(Some(facts(5)))))
        .advance(BundlesEvent::Environment(Ok(())));
    assert_eq!(request.action(), BundlesAction::LoadState(hash(2)));
    let request = request.advance(BundlesEvent::Loaded(Ok(())));
    assert_eq!(request.action(), BundlesAction::BeginReplay);
    let request = request.advance(BundlesEvent::ReplayBegun(Ok(())));
    assert_eq!(request.action(), BundlesAction::Replay(0));
    let request = request.advance(BundlesEvent::Replayed(Ok(())));
    assert_eq!(request.action(), BundlesAction::Replay(1));
    let request = request.advance(BundlesEvent::Replayed(Ok(())));
    assert_eq!(
        request.action(),
        BundlesAction::Prepare { bundle: 0, tx: 0, apply_state_override: true }
    );
}

#[test]
fn the_pending_block_is_replayed_whole() {
    let request: Bundles = CallBundles::call_many(vec![1], None, Some(pending()));
    assert_eq!(request.action(), BundlesAction::LoadBlock(pending()));
    let request = request
        .advance(BundlesEvent::Block(Ok(Some(facts(1)))))
        .advance(BundlesEvent::Environment(Ok(())));
    assert_eq!(request.action(), BundlesAction::LoadState(hash(2)));
    let request =
        request.advance(BundlesEvent::Loaded(Ok(()))).advance(BundlesEvent::ReplayBegun(Ok(())));
    assert_eq!(request.action(), BundlesAction::Replay(0));
    let request = request.advance(BundlesEvent::Replayed(Err("broken")));
    assert_eq!(request.answer(), Some(Err(CallError::Node("broken"))));
}

#[test]
fn every_call_of_every_bundle_is_answered() {
    let request = ready(vec![2, 0, 1]);
    let request = call(request, Ok(vec![1]));
    assert_eq!(
        request.action(),
        BundlesAction::Prepare { bundle: 0, tx: 1, apply_state_override: false }
    );
    let request = call(request, Err("execution reverted".to_string()));
    assert_eq!(
        request.action(),
        BundlesAction::Prepare { bundle: 2, tx: 0, apply_state_override: false }
    );
    let request = request.advance(BundlesEvent::Prepared(Ok(())));
    assert_eq!(request.action(), BundlesAction::Execute);
    let request = request.advance(BundlesEvent::Executed(Ok(Ok(vec![3]))));
    assert_eq!(request.action(), BundlesAction::Commit);
    let request = request.advance(BundlesEvent::Committed);
    assert_eq!(request.action(), BundlesAction::Finish);
    let failed =
        EthCallResponse { value: None, error: Some("execution reverted".to_string()) };
    assert_eq!(
        request.answer(),
        Some(Ok(vec![vec![value(&[1]), failed], vec![value(&[3])]]))
    );
}

#[test]
fn bundles_without_calls_are_skipped() {
    let request = ready(vec![0, 0]);
    assert_eq!(request.answer(), Some(Ok(vec![])));
    let request = ready(vec![0, 1]);
    assert_eq!(
        request.action(),
        BundlesAction::Prepare { bundle: 1, tx: 0, apply_state_override: true }
    );
}

#[test]
fn a_failure_names_its_call() {
    let request = call(ready(vec![1, 2]), Ok(vec![]));
    let request = call(request, Ok(vec![])).advance(BundlesEvent::Prepared(Err("broken")));
    assert_eq!(
        request.answer(),
        Some(Err(CallError::CallMany { bundle_index: 1, tx_index: 1, error: "broken" }))
    );
    let request = ready(vec![1])
        .advance(BundlesEvent::Prepared(Ok(())))
        .advance(BundlesEvent::Executed(Err("broken")))
        .advance(BundlesEvent::Committed);
    assert_eq!(
        request.answer(),
        Some(Err(CallError::CallMany { bundle_index: 0, tx_index: 0, error: "broken" }))
    );
}

#[test]
fn calls_start_where_the_index_says() {
    let index = |number: usize| Some(TransactionIndex::Index(number));
    assert_eq!(transactions_requested(None, 4), 4);
    assert_eq!(transactions_requested(Some(TransactionIndex::All), 4), 4);
    assert_eq!(transactions_requested(index(9), 4), 9);
    let point = |pending: bool, index: Option<TransactionIndex>| {
        choose_starting_point(pending, index, hash(3), hash(2), 4)
    };
    assert_eq!(point(false, None), StartingPoint { at: hash(3), replay: None });
    assert_eq!(point(false, index(4)), StartingPoint { at: hash(3), replay: None });
    assert_eq!(point(false, index(0)), StartingPoint { at: hash(2), replay: Some(0) });
    assert_eq!(point(false, index(9)), StartingPoint { at: hash(2), replay: Some(4) });
    assert_eq!(point(true, None), StartingPoint { at: hash(2), replay: Some(4) });
}

#[test]
fn transactions_before_the_target_are_counted() {
    let hashes = [hash(1), hash(2), hash(3), hash(2)];
    assert_eq!(transactions_before(&hashes, &hash(1)), 0);
    assert_eq!(transactions_before(&hashes, &hash(2)), 1);
    assert_eq!(transactions_before(&hashes, &hash(3)), 2);
    assert_eq!(transactions_before(&hashes, &hash(9)), 4);
    assert_eq!(transactions_before(&[], &hash(9)), 0);
}

#[test]
fn replay_stops_at_the_target() {
    let hashes = [hash(1), hash(2), hash(3)];
    let replay: Until = ReplayUntil::replay_transactions_until(&hashes, &hash(3));
    assert_eq!(replay.action(), UntilAction::Execute(0));
    let replay = replay.advance(Ok(()));
    assert_eq!(replay.action(), UntilAction::Execute(1));
    let replay = replay.advance(Ok(()));
    assert_eq!(replay.action(), UntilAction::Finish);
    assert_eq!(replay.answer(), Some(Ok(2)));
    let replay: Until = ReplayUntil::replay_transactions_until(&hashes, &hash(1));
    assert_eq!(replay.answer(), Some(Ok(0)));
}

#[test]
fn replay_without_its_target_executes_all() {
    let replay: Until = ReplayUntil::replay_transactions_until(&[hash(1), hash(2)], &hash(9));
    let replay = replay.advance(Ok(())).advance(Ok(()));
    assert_eq!(replay.answer(), Some(Ok(2)));
}

#[test]
fn replay_stops_at_an_error() {
    let hashes = [hash(1), hash(2), hash(3)];
    let replay: Until = ReplayUntil::replay_transactions_until(&hashes, &hash(3));
    let replay = replay.advance(Err("broken")).advance(Ok(()));
    assert_eq!(replay.action(), UntilAction::Finish);
    assert_eq!(replay.answer(), Some(Err(CallError::Node("broken"))));
}

#[test]
fn a_transaction_is_replayed_after_those_before_it() {
    let replay: Replay = TransactionReplay::spawn_replay_transaction(hash(8));
    assert_eq!(replay.action(), ReplayAction::LookUp(hash(8)));
    let block = TransactionBlock {
        parent_hash: hash(2),
        transactions: vec![hash(6), hash(7), hash(8), hash(9)],
    };
    let replay = replay.advance(ReplayEvent::Found(Ok(Some(block))));
    assert_eq!(replay.action(), ReplayAction::LoadState(of_hash(hash(2))));
    let replay = replay.advance(ReplayEvent::StateLoaded(Ok(())));
    assert_eq!(replay.action(), ReplayAction::Begin);
    let replay = replay.advance(ReplayEvent::Begun(Ok(())));
    assert_eq!(replay.action(), ReplayAction::Replay(0));
    let replay = replay.advance(ReplayEvent::Replayed(Ok(())));
    assert_eq!(replay.action(), ReplayAction::Replay(1));
    let replay = replay.advance(ReplayEvent::Replayed(Ok(())));
    assert_eq!(replay.action(), ReplayAction::Transact);
    let replay = replay.advance(ReplayEvent::Transacted(Ok(())));
    assert_eq!(replay.answer(), Some(Ok(true)));
}

#[test]
fn a_transaction_that_is_not_known_is_not_replayed() {
    let replay: Replay = TransactionReplay::spawn_replay_transaction(hash(8))
        .advance(ReplayEvent::Found(Ok(None)));
    assert_eq!(replay.action(), ReplayAction::Finish);
    assert_eq!(replay.answer(), Some(Ok(false)));
}

#[test]
fn a_replay_that_breaks_is_over() {
    let block = TransactionBlock { parent_hash: hash(2), transactions: vec![hash(6), hash(8)] };
    let replay: Replay = TransactionReplay::spawn_replay_transaction(hash(8))
        .advance(ReplayEvent::Found(Ok(Some(block))))
        .advance(ReplayEvent::StateLoaded(Ok(())))
        .advance(ReplayEvent::Begun(Ok(())))
        .advance(ReplayEvent::Replayed(Err("broken")))
        .advance(ReplayEvent::Transacted(Ok(())));
    assert_eq!(replay.answer(), Some(Err(CallError::Node("broken"))));
}
