//! What holds of what the operations take and return.

use crate::access_list::{
    make_answer, AccessListAction, AccessListEvent, AccessListItem, AccessListRequest, AccessListResult, GasReport,
};
use crate::block::{BlockId, BlockNumberOrTag, TransactionIndex};
use crate::bundles::{bundle_values, BundlesAction, BundlesEvent, CallBundles, EthCallResponse};
use crate::errors::{CallError, InvalidParams};
use crate::laws::preparing::{is_past_overrides, overrides_are_applied_before_use, state_was_overridden};
use crate::laws::simulating::unvalidated_blocks_run_unchecked;
use crate::logs::{decode_log, movement_values, CallSequenceLog, EventTopics, TokenMovement};
use crate::outcome::{result_values, CallSequenceResult};
use crate::prepare::{CallLimits, CallPreparation, PrepareAction, PrepareEvent};
use crate::primitives::B256;
use crate::replay::hash_values;
use crate::replay_until::{ReplayUntil, UntilAction, UntilPhase};
use crate::sequence::{CallSequence, SequenceAction, SequenceEvent, SequenceState};
use crate::settings::{BlockOverrides, BlockSettings, CfgSettings, RequestSettings};
use crate::simulate::{run, SimulateAction, SimulateEvent, SimulateOptions, Simulation, SimulationState};
use crate::tracking::{
    steps_to, tracked_values, CallSequenceWithBalanceTrackingResult, TrackedAction, TrackedEvent, TrackedSequence,
    TrackedState,
};
use crate::transaction_replay::{ReplayAction, ReplayEvent, ReplayState, TransactionReplay};
use crate::word::be_value;
use vstd::prelude::*;

verus! {

/// The pending block.
pub open spec fn is_pending_tag(block: Option<BlockId>) -> bool {
    block is Some && block->0 is Number && block->0->Number_0 is Pending
}

/// A request for bundles that names a block other than the pending one, by hash, number or
/// tag, first has the hash of exactly that block looked up; only one that names none has that
/// of the latest looked up. The pending block is loaded as it is.
pub proof fn call_many_looks_up_its_block<E>(
    bundles: Vec<usize>,
    index: Option<TransactionIndex>,
    block: Option<BlockId>,
    request: CallBundles<E>,
    action: BundlesAction,
)
    requires
        bundles@.len() > 0,
        call_ensures(CallBundles::<E>::call_many, (bundles, index, block), request),
        call_ensures(CallBundles::<E>::action, (&request,), action),
    ensures
        block is Some && !is_pending_tag(block) ==> action == BundlesAction::ResolveBlock(block->0),
        is_pending_tag(block) ==> action == BundlesAction::LoadBlock(block->0),
        block is None ==> action == BundlesAction::ResolveBlock(BlockId::Number(BlockNumberOrTag::Latest)),
{
}

/// A request for no bundles is answered with that error, and nothing is asked of the node.
pub proof fn call_many_refuses_no_bundles<E>(
    bundles: Vec<usize>,
    index: Option<TransactionIndex>,
    block: Option<BlockId>,
    request: CallBundles<E>,
    answer: Option<Result<Vec<Vec<EthCallResponse>>, CallError<E>>>,
)
    requires
        bundles@.len() == 0,
        call_ensures(CallBundles::<E>::call_many, (bundles, index, block), request),
        call_ensures(CallBundles::<E>::answer, (request,), answer),
    ensures
        answer is Some,
        answer->0 is Err,
        answer->0->Err_0 == CallError::<E>::InvalidParams(InvalidParams::BundlesEmpty),
{
}

/// A block whose hash was found is loaded by that hash. One that was not found is answered as
/// such, with the name that the request gave it.
pub proof fn call_many_loads_what_it_found<E>(
    request: CallBundles<E>,
    target: BlockId,
    hash: B256,
    found: CallBundles<E>,
    action: BundlesAction,
    missing: CallBundles<E>,
    answer: Option<Result<Vec<Vec<EthCallResponse>>, CallError<E>>>,
)
    requires
        call_ensures(CallBundles::<E>::action, (&request,), BundlesAction::ResolveBlock(target)),
        call_ensures(CallBundles::<E>::advance, (request, BundlesEvent::BlockHash(Ok(Some(hash)))), found),
        call_ensures(CallBundles::<E>::action, (&found,), action),
        call_ensures(CallBundles::<E>::advance, (request, BundlesEvent::BlockHash(Ok(None))), missing),
        call_ensures(CallBundles::<E>::answer, (missing,), answer),
    ensures
        action == BundlesAction::LoadBlock(BlockId::Hash { block_hash: hash, require_canonical: None }),
        answer is Some,
        answer->0 is Err,
        answer->0->Err_0 == CallError::<E>::HeaderNotFound(target),
{
}

/// A sequence of calls, tracked or not, starts from the block that it names, and from the
/// latest only where it names none.
pub proof fn sequences_look_up_their_block<E>(
    calls: usize,
    block: Option<BlockId>,
    has_state_override: bool,
    sequence: CallSequence<E>,
    action: SequenceAction,
    tracking: TrackedSequence<E>,
    tracking_action: TrackedAction,
)
    requires
        calls > 0,
        call_ensures(CallSequence::<E>::call_sequence, (calls, block), sequence),
        call_ensures(CallSequence::<E>::action, (&sequence,), action),
        call_ensures(
            TrackedSequence::<E>::call_sequence_with_balance_tracking,
            (calls, block, has_state_override),
            tracking,
        ),
        call_ensures(TrackedSequence::<E>::action, (&tracking,), tracking_action),
    ensures
        block is Some && !is_pending_tag(block) ==> action == SequenceAction::ResolveBlock(block->0)
            && tracking_action == TrackedAction::ResolveBlock(block->0),
        is_pending_tag(block) ==> action == SequenceAction::Load(block->0) && tracking_action == TrackedAction::Load(
            block->0,
        ),
        block is None ==> action == SequenceAction::ResolveBlock(BlockId::Number(BlockNumberOrTag::Latest))
            && tracking_action == TrackedAction::ResolveBlock(BlockId::Number(BlockNumberOrTag::Latest)),
{
}

/// One side of an ERC-721 transfer.
pub open spec fn is_erc721_side(
    movement: TokenMovement,
    topic: B256,
    log: CallSequenceLog,
    received: bool,
) -> bool {
    &&& movement is Erc721
    &&& movement->Erc721_owner.bytes@ == topic.bytes@.subrange(12, 32)
    &&& movement->Erc721_token.bytes@ == log.address.bytes@
    &&& movement->Erc721_token_id@ == be_value(log.topics@[3].bytes@)
    &&& movement->received == received
}

/// Whether the address in a topic has a byte that is not zero.
pub open spec fn holds_account(topic: B256) -> bool {
    exists|i: int| 12 <= i < 32 && #[trigger] topic.bytes@[i] != 0
}

/// A transfer log with four topics is decoded to the loss of the account in the second, if
/// there is one, and then to the gain of the account in the third, if there is one, whatever
/// the other side is, and to nothing else.
pub proof fn erc721_log_is_decoded(
    events: EventTopics,
    log: CallSequenceLog,
    list: Vec<TokenMovement>,
)
    requires
        call_ensures(decode_log, (&events, &log), list),
        log.topics@.len() == 4,
        log.topics@[0].bytes@ == events.transfer.bytes@,
    ensures
        ({
            let (from, to) = (log.topics@[1], log.topics@[2]);
            &&& holds_account(to) ==> list@.len() > 0 && is_erc721_side(list@.last(), to, log, true)
            &&& holds_account(from) ==> list@.len() > 0 && is_erc721_side(list@[0], from, log, false)
            &&& holds_account(from) && holds_account(to) ==> list@.len() == 2
            &&& holds_account(from) != holds_account(to) ==> list@.len() == 1
            &&& !holds_account(from) && !holds_account(to) ==> list@.len() == 0
        }),
{
    let value = log@;
    crate::laws::decoding::erc721_log_moves_both_sides(events@, value);
    account_is_not_zero(log.topics@[1]);
    account_is_not_zero(log.topics@[2]);
    let moved = movement_values(list@);
    assert(moved.len() == list@.len());
    if list@.len() > 0 {
        crate::laws::decoding::movements_hold_what_they_list(list@, 0);
        crate::laws::decoding::movements_hold_what_they_list(list@, list@.len() - 1);
    }
}

/// A topic holds an account if and only if its address is not the zero address.
proof fn account_is_not_zero(topic: B256)
    ensures
        holds_account(topic) <==> topic.bytes@.subrange(12, 32) != Seq::new(20, |i: int| 0u8),
{
    let zero = Seq::new(20, |i: int| 0u8);
    let address = topic.bytes@.subrange(12, 32);
    if holds_account(topic) {
        let i = choose|i: int| 12 <= i < 32 && #[trigger] topic.bytes@[i] != 0;
        assert(address[i - 12] != zero[i - 12]);
    } else {
        assert forall|i: int| 0 <= i < 20 implies address[i] == zero[i] by {
            assert(topic.bytes@[i + 12] == 0);
        }
        assert(address =~= zero);
    }
}

/// One side of an ERC-20 movement.
pub open spec fn is_erc20_side(
    movement: TokenMovement,
    topic: B256,
    log: CallSequenceLog,
    negative: bool,
) -> bool {
    &&& movement is Erc20
    &&& movement->Erc20_owner.bytes@ == topic.bytes@.subrange(12, 32)
    &&& movement->Erc20_token.bytes@ == log.address.bytes@
    &&& movement->Erc20_delta@.value() == if negative {
        -(be_value(log.data@.subrange(0, 32)) as int)
    } else {
        be_value(log.data@.subrange(0, 32)) as int
    }
}

/// A transfer log with three topics and a word of data is decoded to the loss of the account in
/// the second topic, if there is one, and then to the gain of the account in the third, if
/// there is one, by the amount in the data; with less data to nothing.
pub proof fn erc20_log_is_decoded(events: EventTopics, log: CallSequenceLog, list: Vec<TokenMovement>)
    requires
        call_ensures(decode_log, (&events, &log), list),
        log.topics@.len() == 3,
        log.topics@[0].bytes@ == events.transfer.bytes@,
    ensures
        ({
            let (from, to) = (log.topics@[1], log.topics@[2]);
            let enough = log.data@.len() >= 32;
            &&& enough && holds_account(to) ==> list@.len() > 0 && is_erc20_side(list@.last(), to, log, false)
            &&& enough && holds_account(from) ==> list@.len() > 0 && is_erc20_side(list@[0], from, log, true)
            &&& enough && holds_account(from) && holds_account(to) ==> list@.len() == 2
            &&& enough && holds_account(from) != holds_account(to) ==> list@.len() == 1
            &&& !enough || (!holds_account(from) && !holds_account(to)) ==> list@.len() == 0
        }),
{
    let value = log@;
    crate::laws::decoding::erc20_log_moves_both_sides(events@, value);
    account_is_not_zero(log.topics@[1]);
    account_is_not_zero(log.topics@[2]);
    let moved = movement_values(list@);
    assert(moved.len() == list@.len());
    if list@.len() > 0 {
        crate::laws::decoding::movements_hold_what_they_list(list@, 0);
        crate::laws::decoding::movements_hold_what_they_list(list@, list@.len() - 1);
    }
}

/// The answer for an access list has, as a number, the gas of the execution that it reports,
/// whether that failed or not, its error, and the access list that was noted.
pub proof fn answer_reports_its_execution(
    access_list: Vec<AccessListItem>,
    report: GasReport,
    result: AccessListResult,
)
    requires
        call_ensures(make_answer, (access_list, report), result),
    ensures
        result.gas_used@ == report.gas_used,
        result.error == report.error,
        result.access_list == access_list,
{
}

/// Simulations that follow from each other, each from the one before it and an event.
pub open spec fn simulations_follow<B, E>(
    simulations: Seq<Simulation<B, E>>,
    events: Seq<SimulateEvent<B, E>>,
) -> bool {
    &&& simulations.len() == events.len() + 1
    &&& forall|i: int| 0 <= i < events.len() ==> #[trigger] advances(simulations[i], events[i], simulations[i + 1])
}

/// One step of a simulation.
pub open spec fn advances<B, E>(
    before: Simulation<B, E>,
    event: SimulateEvent<B, E>,
    after: Simulation<B, E>,
) -> bool {
    call_ensures(Simulation::<B, E>::advance, (before, event), after)
}

/// The simulations that follow are those that the events make.
proof fn simulations_run<B, E>(simulations: Seq<Simulation<B, E>>, events: Seq<SimulateEvent<B, E>>)
    requires
        simulations_follow(simulations, events),
    ensures
        simulations.last()@ == run(simulations[0]@, events),
    decreases events.len(),
{
    if events.len() > 0 {
        let earlier = simulations.drop_last();
        let earlier_events = events.drop_last();
        assert forall|i: int| 0 <= i < earlier_events.len() implies #[trigger] advances(
            earlier[i],
            earlier_events[i],
            earlier[i + 1],
        ) by {
            assert(advances(simulations[i], events[i], simulations[i + 1]));
        }
        simulations_run(earlier, earlier_events);
        let last = events.len() - 1;
        assert(advances(simulations[last], events[last], simulations[last + 1]));
    }
}

/// Whatever a request overrides and whatever the node reports, the calls of a block are
/// executed without validation only with the checks on nonces and base fee switched off and
/// with any gas limit.
pub proof fn calls_without_validation_run_unchecked<B, E>(
    blocks: usize,
    max_simulate_blocks: u64,
    block: Option<BlockId>,
    options: SimulateOptions,
    call_gas_limit: u64,
    simulations: Seq<Simulation<B, E>>,
    events: Seq<SimulateEvent<B, E>>,
    action: SimulateAction,
)
    requires
        simulations_follow(simulations, events),
        call_ensures(
            Simulation::<B, E>::simulate_v1,
            (blocks, max_simulate_blocks, block, options, call_gas_limit),
            simulations[0],
        ),
        call_ensures(Simulation::<B, E>::action, (&simulations.last(),), action),
        !options.validation,
    ensures
        action is Execute ==> {
            &&& action->Execute_cfg.disable_nonce_check
            &&& action->Execute_cfg.disable_base_fee
            &&& action->Execute_cfg.tx_gas_limit_cap == Some(0xffff_ffff_ffff_ffffu64)
        },
{
    simulations_run(simulations, events);
    unvalidated_blocks_run_unchecked::<B, E>(blocks, max_simulate_blocks, block, options, call_gas_limit, events);
}

/// Preparations that follow from each other, each from the one before it and an event.
pub open spec fn preparations_follow<E>(steps: Seq<CallPreparation<E>>, events: Seq<PrepareEvent<E>>) -> bool {
    &&& steps.len() == events.len() + 1
    &&& forall|i: int| 0 <= i < events.len() ==> #[trigger] prepares(steps[i], events[i], steps[i + 1])
}

/// One step of a preparation.
pub open spec fn prepares<E>(before: CallPreparation<E>, event: PrepareEvent<E>, after: CallPreparation<E>) -> bool {
    call_ensures(CallPreparation::<E>::advance, (before, event), after)
}

/// The state that the request gives is due to be put into the database.
pub open spec fn overrides_state<E>(step: CallPreparation<E>) -> bool {
    forall|action: PrepareAction| #[trigger]
        call_ensures(CallPreparation::<E>::action, (&step,), action) ==> action is OverrideState
}

/// Whatever the node reports, a request that gives state has no nonce read, no transaction
/// built, no balance read and no call prepared before its state was due to be put into the
/// database and that was answered with success. It makes no difference whether the request
/// gives parts of the block too.
pub proof fn given_state_comes_before_the_call<E>(
    cfg: CfgSettings,
    block: BlockSettings,
    request: RequestSettings,
    limits: CallLimits,
    block_overrides: Option<BlockOverrides>,
    steps: Seq<CallPreparation<E>>,
    events: Seq<PrepareEvent<E>>,
    action: PrepareAction,
)
    requires
        preparations_follow(steps, events),
        call_ensures(
            CallPreparation::<E>::prepare_call_env,
            (cfg, block, request, limits, block_overrides, true),
            steps[0],
        ),
        call_ensures(CallPreparation::<E>::action, (&steps.last(),), action),
    ensures
        action is ReadNonce || action is BuildTx || action is ReadBalance || (steps.last().phase is Finished
            && steps.last().phase->Finished_0 is Ok) ==> exists|i: int|
            0 <= i < events.len() && overrides_state(#[trigger] steps[i]) && events[i] is StateOverridden
                && events[i]->StateOverridden_0 is Ok,
{
    assert forall|i: int| 0 <= i < events.len() implies #[trigger] steps[i].leads_to(events[i], steps[i + 1]) by {
        assert(prepares(steps[i], events[i], steps[i + 1]));
    }
    overrides_are_applied_before_use(cfg, block, request, limits, block_overrides, true, steps, events);
    if is_past_overrides(steps.last()) {
        assert(state_was_overridden(steps, events));
        let i = choose|i: int|
            0 <= i < events.len() && (#[trigger] steps[i]).due() is OverrideState && events[i] is StateOverridden
                && events[i]->StateOverridden_0 is Ok;
        assert(overrides_state(steps[i]));
    }
}

/// The operations of a sequence of calls are those of its states. It is answered once it is
/// finished, with all its results in order, or with its error.
pub proof fn sequence_goes_by_its_states<E>(
    calls: usize,
    block: Option<BlockId>,
    started: CallSequence<E>,
    before: CallSequence<E>,
    action: SequenceAction,
    event: SequenceEvent<E>,
    after: CallSequence<E>,
    answer: Option<Result<Vec<CallSequenceResult>, CallError<E>>>,
)
    requires
        call_ensures(CallSequence::<E>::call_sequence, (calls, block), started),
        call_ensures(CallSequence::<E>::action, (&before,), action),
        call_ensures(CallSequence::<E>::advance, (before, event), after),
        call_ensures(CallSequence::<E>::answer, (before,), answer),
    ensures
        started@ == SequenceState::<E>::start(calls, block),
        action == before@.due(),
        after@ == before@.after(event),
        answer is Some <==> before@.phase is Finished,
        answer is Some ==> (answer->0 is Ok <==> before@.phase->Finished_0 is Ok),
        answer is Some && answer->0 is Ok ==> result_values(answer->0->Ok_0@) == before@.results,
        answer is Some && answer->0 is Err ==> before@.phase->Finished_0->Err_0 == answer->0->Err_0,
{
}

/// The operations of a tracked sequence are those of its states. It is answered once it is
/// finished, with all its results in order, or with its error.
pub proof fn tracked_sequence_goes_by_its_states<E>(
    calls: usize,
    block: Option<BlockId>,
    has_state_override: bool,
    started: TrackedSequence<E>,
    before: TrackedSequence<E>,
    action: TrackedAction,
    event: TrackedEvent<E>,
    after: TrackedSequence<E>,
    answer: Option<Result<Vec<CallSequenceWithBalanceTrackingResult>, CallError<E>>>,
)
    requires
        call_ensures(
            TrackedSequence::<E>::call_sequence_with_balance_tracking,
            (calls, block, has_state_override),
            started,
        ),
        call_ensures(TrackedSequence::<E>::action, (&before,), action),
        call_ensures(TrackedSequence::<E>::advance, (before, event), after),
        call_ensures(TrackedSequence::<E>::answer, (before,), answer),
    ensures
        started@ == TrackedState::<E>::start(calls, block, has_state_override),
        action == before@.due(),
        steps_to(before@, event, after@),
        answer is Some <==> before@.phase is Finished,
        answer is Some ==> (answer->0 is Ok <==> before@.phase->Finished_0 is Ok),
        answer is Some && answer->0 is Ok ==> tracked_values(answer->0->Ok_0@) == before@.results,
        answer is Some && answer->0 is Err ==> before@.phase->Finished_0->Err_0 == answer->0->Err_0,
{
}

/// The operations of a request for bundles are those of its states. It is answered once it is
/// finished, with all responses in order, or with its error.
pub proof fn bundles_go_by_their_states<E>(
    before: CallBundles<E>,
    action: BundlesAction,
    event: BundlesEvent<E>,
    after: CallBundles<E>,
    answer: Option<Result<Vec<Vec<EthCallResponse>>, CallError<E>>>,
)
    requires
        call_ensures(CallBundles::<E>::action, (&before,), action),
        call_ensures(CallBundles::<E>::advance, (before, event), after),
        call_ensures(CallBundles::<E>::answer, (before,), answer),
    ensures
        action == before@.due(),
        after@ == before@.after(event),
        answer is Some <==> before@.phase is Finished,
        answer is Some ==> (answer->0 is Ok <==> before@.phase->Finished_0 is Ok),
        answer is Some && answer->0 is Ok ==> bundle_values(answer->0->Ok_0@) == before@.done,
        answer is Some && answer->0 is Err ==> before@.phase->Finished_0->Err_0 == answer->0->Err_0,
{
}

/// The operations of a simulation are those of its states. It is answered once it is finished,
/// with the answers for all its blocks in order, or with its error.
pub proof fn simulation_goes_by_its_states<B, E>(
    blocks: usize,
    max_simulate_blocks: u64,
    block: Option<BlockId>,
    options: SimulateOptions,
    call_gas_limit: u64,
    started: Simulation<B, E>,
    before: Simulation<B, E>,
    action: SimulateAction,
    event: SimulateEvent<B, E>,
    after: Simulation<B, E>,
    answer: Option<Result<Vec<B>, CallError<E>>>,
)
    requires
        call_ensures(
            Simulation::<B, E>::simulate_v1,
            (blocks, max_simulate_blocks, block, options, call_gas_limit),
            started,
        ),
        call_ensures(Simulation::<B, E>::action, (&before,), action),
        call_ensures(Simulation::<B, E>::advance, (before, event), after),
        call_ensures(Simulation::<B, E>::answer, (before,), answer),
    ensures
        started@ == SimulationState::<B, E>::start(blocks, max_simulate_blocks, block, options, call_gas_limit),
        action == before@.due(),
        after@ == before@.after(event),
        answer is Some <==> before@.phase is Finished,
        answer is Some ==> (answer->0 is Ok <==> before@.phase->Finished_0 is Ok),
        answer is Some && answer->0 is Ok ==> answer->0->Ok_0@ == before@.done,
        answer is Some && answer->0 is Err ==> before@.phase->Finished_0->Err_0 == answer->0->Err_0,
{
}

/// The operations of a request for an access list are those of its states.
pub proof fn access_list_goes_by_its_states<E>(
    cfg: CfgSettings,
    block_gas_limit: u64,
    request: RequestSettings,
    has_state_override: bool,
    started: AccessListRequest<E>,
    before: AccessListRequest<E>,
    action: AccessListAction<'_>,
    event: AccessListEvent<E>,
    after: AccessListRequest<E>,
    answer: Option<Result<AccessListResult, CallError<E>>>,
)
    requires
        call_ensures(
            AccessListRequest::<E>::create_access_list_with,
            (cfg, block_gas_limit, request, has_state_override),
            started,
        ),
        call_ensures(AccessListRequest::<E>::action, (&before,), action),
        call_ensures(AccessListRequest::<E>::advance, (before, event), after),
        call_ensures(AccessListRequest::<E>::answer, (before,), answer),
    ensures
        started == AccessListRequest::<E>::started(cfg, block_gas_limit, request, has_state_override),
        action == before.due(),
        before.leads_to(event, after),
        answer is Some <==> before.phase is Finished,
        answer is Some ==> before.phase->Finished_0 == answer->0,
{
}

/// The operations of replays are those of their states.
pub proof fn replays_go_by_their_states<E>(
    hashes: &[B256],
    target: B256,
    until: ReplayUntil<E>,
    before: ReplayUntil<E>,
    action: UntilAction,
    executed: Result<(), E>,
    after: ReplayUntil<E>,
    answer: Option<Result<usize, CallError<E>>>,
)
    requires
        call_ensures(ReplayUntil::<E>::replay_transactions_until, (hashes, &target), until),
        call_ensures(ReplayUntil::<E>::action, (&before,), action),
        call_ensures(ReplayUntil::<E>::advance, (before, executed), after),
        call_ensures(ReplayUntil::<E>::answer, (before,), answer),
    ensures
        until@ == UntilPhase::<E>::start(hash_values(hashes@), target.bytes@),
        action == before@.due(),
        after@ == before@.after(executed),
        answer is Some <==> before@ is Finished,
        answer is Some ==> before@->Finished_0 == answer->0,
{
}

/// The operations of the replay of a transaction are those of its states.
pub proof fn transaction_replay_goes_by_its_states<E>(
    target: B256,
    started: TransactionReplay<E>,
    before: TransactionReplay<E>,
    action: ReplayAction,
    event: ReplayEvent<E>,
    after: TransactionReplay<E>,
    answer: Option<Result<bool, CallError<E>>>,
)
    requires
        call_ensures(TransactionReplay::<E>::spawn_replay_transaction, (target,), started),
        call_ensures(TransactionReplay::<E>::action, (&before,), action),
        call_ensures(TransactionReplay::<E>::advance, (before, event), after),
        call_ensures(TransactionReplay::<E>::answer, (before,), answer),
    ensures
        started@ == ReplayState::<E>::start(target),
        action == before@.due(),
        after@ == before@.after(event),
        answer is Some <==> before@.phase is Finished,
        answer is Some ==> before@.phase->Finished_0 == answer->0,
{
}

} // verus!
