//! What holds of any simulation.

use crate::block::{BlockId, BlockNumberOrTag};
use crate::errors::{CallError, InvalidParams};
use crate::settings::{BlockSettings, CfgSettings};
use crate::simulate::{
    run, BlockPlan, ParentHeader, SimulateAction, SimulateEvent, SimulateOptions, SimulatePhase, SimulatedHeader,
    SimulationState,
};
use vstd::prelude::*;

verus! {

/// More blocks than the node allows are refused, and so are none. Else the block that the
/// request names is loaded, by hash, number or tag; only a request that names none has the
/// latest loaded. All calls together may use the gas for calls, without a limit where that
/// is zero.
pub proof fn simulation_starts_at_its_block<B, E>(
    blocks: usize,
    max_simulate_blocks: u64,
    block: Option<BlockId>,
    options: SimulateOptions,
    call_gas_limit: u64,
)
    ensures
        ({
            let start = SimulationState::<B, E>::start(blocks, max_simulate_blocks, block, options, call_gas_limit);
            &&& start.options == options
            &&& start.call_gas_limit == call_gas_limit
            &&& start.done.len() == 0
            &&& call_gas_limit > 0 ==> start.gas_left == Some(call_gas_limit)
            &&& call_gas_limit == 0 ==> start.gas_left is None
            &&& blocks > max_simulate_blocks ==> start.phase == SimulatePhase::<E>::Finished(
                Err(CallError::TooManyBlocks),
            )
            &&& blocks <= max_simulate_blocks && blocks == 0 ==> start.phase == SimulatePhase::<E>::Finished(
                Err(CallError::InvalidParams(InvalidParams::CallsEmpty)),
            )
            &&& 0 < blocks <= max_simulate_blocks && block is Some ==> start.due() == SimulateAction::LoadBlock(
                block->0,
            )
            &&& 0 < blocks <= max_simulate_blocks && block is None ==> start.due() == SimulateAction::LoadBlock(
                BlockId::Number(BlockNumberOrTag::Latest),
            )
        }),
{
}

/// A block that is not there is named in the error. One that is there is the parent of the
/// first, and its state is loaded; then the blocks are put in order on it.
pub proof fn blocks_start_from_loaded_block<B, E>(
    state: SimulationState<B, E>,
    target: BlockId,
    header: ParentHeader,
)
    requires
        state.due() == SimulateAction::LoadBlock(target),
    ensures
        state.after(SimulateEvent::Block(Ok(None))).phase == SimulatePhase::<E>::Finished(
            Err(CallError::HeaderNotFound(target)),
        ),
        ({
            let loaded = state.after(SimulateEvent::Block(Ok(Some(header))));
            &&& loaded.due() == SimulateAction::LoadState(target)
            &&& loaded.after(SimulateEvent::Loaded(Ok(()))).due() == SimulateAction::PlanBlocks(header)
            &&& loaded.parent == header
            &&& loaded.options == state.options
            &&& loaded.gas_left == state.gas_left
            &&& loaded.call_gas_limit == state.call_gas_limit
            &&& loaded.done == state.done
        }),
{
}

/// Once the blocks are in order, the first of them is set up on the loaded block; without
/// any the request is answered.
pub proof fn first_planned_block_is_next<B, E>(state: SimulationState<B, E>, plan: Vec<BlockPlan>)
    requires
        state.due() is PlanBlocks,
        state.done.len() == 0,
    ensures
        ({
            let planned = state.after(SimulateEvent::Planned(Ok(plan)));
            &&& planned.plan == plan@
            &&& planned.parent == state.parent
            &&& planned.gas_left == state.gas_left
            &&& planned.options == state.options
            &&& plan@.len() > 0 ==> planned.due() == (SimulateAction::NextEnvironment {
                index: 0,
                parent: state.parent,
            })
            &&& plan@.len() == 0 ==> planned.phase == SimulatePhase::<E>::Finished(Ok(()))
        }),
{
}

/// Whether the merge comes before a block is asked for with the number of the block, or with
/// the largest `u64` where the number is larger.
pub proof fn merge_is_asked_for_block<B, E>(state: SimulationState<B, E>, cfg: CfgSettings, block: BlockSettings)
    requires
        state.due() is NextEnvironment,
    ensures
        ({
            let made = state.after(SimulateEvent::Environment(Ok((cfg, block))));
            &&& made.phase == (SimulatePhase::<E>::CheckMerge { cfg, block })
            &&& block.number@ <= u64::MAX ==> made.due() == SimulateAction::CheckMerge(block.number@ as u64)
            &&& block.number@ > u64::MAX ==> made.due() == SimulateAction::CheckMerge(u64::MAX)
            &&& made.parent == state.parent
            &&& made.gas_left == state.gas_left
            &&& made.done == state.done
            &&& made.plan == state.plan
            &&& made.options == state.options
            &&& made.call_gas_limit == state.call_gas_limit
        }),
{
}

/// The settings and the block that a block is set up with.
pub open spec fn set_up_with<E>(phase: SimulatePhase<E>) -> Option<(CfgSettings, BlockSettings)> {
    match phase {
        SimulatePhase::OverrideHashes { cfg, block } => Some((cfg, block)),
        SimulatePhase::OverrideState { cfg, block } => Some((cfg, block)),
        SimulatePhase::MakeContext { cfg, block } => Some((cfg, block)),
        SimulatePhase::OverridePrecompiles { cfg, block } => Some((cfg, block)),
        SimulatePhase::Execute { cfg, block } => Some((cfg, block)),
        _ => None,
    }
}

/// A block is refused if and only if its overrides give a gas limit above both that of the
/// block and that for calls. Else its hashes are overridden next if it overrides the block,
/// then its state if it overrides state, and then its context is made.
pub proof fn only_large_gas_limits_are_refused<B, E>(
    state: SimulationState<B, E>,
    cfg: CfgSettings,
    block: BlockSettings,
    merged: bool,
)
    requires
        state.phase == (SimulatePhase::<E>::CheckMerge { cfg, block }),
    ensures
        ({
            let plan = state.plan[state.done.len() as int];
            let next = state.after(SimulateEvent::Merged(merged));
            let refused = plan.block_overrides is Some && plan.block_overrides->0.gas_limit is Some
                && plan.block_overrides->0.gas_limit->0 > block.gas_limit && plan.block_overrides->0.gas_limit->0
                > state.call_gas_limit;
            &&& refused ==> next.phase == SimulatePhase::<E>::Finished(Err(CallError::GasLimitReached))
            &&& !refused && plan.block_overrides is Some ==> next.due() is OverrideBlockHashes
            &&& !refused && plan.block_overrides is None && plan.has_state_override ==> next.due() is OverrideState
            &&& !refused && plan.block_overrides is None && !plan.has_state_override ==> next.due()
                == SimulateAction::MakeContext(state.parent)
            &&& next.parent == state.parent
            &&& next.gas_left == state.gas_left
            &&& next.done == state.done
            &&& next.plan == state.plan
            &&& next.options == state.options
        }),
{
}

/// A block is set up without the check on the code of senders, and without validation also
/// without those on nonces and base fee and with any gas limit, whatever it overrides;
/// nothing else of the settings changes.
pub proof fn checks_follow_validation<B, E>(
    state: SimulationState<B, E>,
    cfg: CfgSettings,
    block: BlockSettings,
    merged: bool,
)
    requires
        state.phase == (SimulatePhase::<E>::CheckMerge { cfg, block }),
        !(state.after(SimulateEvent::Merged(merged)).phase is Finished),
    ensures
        ({
            let next = set_up_with(state.after(SimulateEvent::Merged(merged)).phase);
            let made = (next->0).0;
            &&& next is Some
            &&& made.disable_eip3607
            &&& made.disable_block_gas_limit == cfg.disable_block_gas_limit
            &&& made.disable_fee_charge == cfg.disable_fee_charge
            &&& made.memory_limit == cfg.memory_limit
            &&& state.options.validation ==> {
                &&& made.disable_nonce_check == cfg.disable_nonce_check
                &&& made.disable_base_fee == cfg.disable_base_fee
                &&& made.tx_gas_limit_cap == cfg.tx_gas_limit_cap
            }
            &&& !state.options.validation ==> {
                &&& made.disable_nonce_check
                &&& made.disable_base_fee
                &&& made.tx_gas_limit_cap == Some(0xffff_ffff_ffff_ffffu64)
            }
        }),
{
}

/// A block is set up with the parts that its overrides give. Of those that they do not give,
/// the base fee is zero without validation, the random value is zero, the difficulty before
/// the merge is that of the parent, and all others are those of the environment.
pub proof fn block_has_given_parts<B, E>(
    state: SimulationState<B, E>,
    cfg: CfgSettings,
    block: BlockSettings,
    merged: bool,
)
    requires
        state.phase == (SimulatePhase::<E>::CheckMerge { cfg, block }),
        !(state.after(SimulateEvent::Merged(merged)).phase is Finished),
    ensures
        ({
            let overrides = state.plan[state.done.len() as int].block_overrides;
            let given = overrides->0;
            let some = overrides is Some;
            let next = set_up_with(state.after(SimulateEvent::Merged(merged)).phase);
            let made = (next->0).1;
            &&& next is Some
            &&& some && given.number is Some ==> made.number == given.number->0
            &&& !(some && given.number is Some) ==> made.number == block.number
            &&& some && given.gas_limit is Some ==> made.gas_limit == given.gas_limit->0
            &&& !(some && given.gas_limit is Some) ==> made.gas_limit == block.gas_limit
            &&& some && given.time is Some ==> made.timestamp@ == given.time->0
            &&& !(some && given.time is Some) ==> made.timestamp == block.timestamp
            &&& some && given.coinbase is Some ==> made.beneficiary == given.coinbase->0
            &&& !(some && given.coinbase is Some) ==> made.beneficiary == block.beneficiary
            &&& some && given.random is Some ==> made.prevrandao == given.random
            &&& !(some && given.random is Some) ==> made.prevrandao is Some && forall|i: int|
                0 <= i < 32 ==> made.prevrandao->0.bytes@[i] == 0
            &&& some && given.difficulty is Some ==> made.difficulty == given.difficulty->0
            &&& !(some && given.difficulty is Some) && merged ==> made.difficulty == block.difficulty
            &&& !(some && given.difficulty is Some) && !merged ==> made.difficulty == state.parent.difficulty
            &&& some && given.base_fee is Some && given.base_fee->0@ <= u64::MAX ==> made.basefee
                == given.base_fee->0@
            &&& some && given.base_fee is Some && given.base_fee->0@ > u64::MAX ==> made.basefee == u64::MAX
            &&& !(some && given.base_fee is Some) && state.options.validation ==> made.basefee == block.basefee
            &&& !(some && given.base_fee is Some) && !state.options.validation ==> made.basefee == 0
            &&& !(some && given.blob_base_fee is Some) ==> made.blob == block.blob
            &&& some && given.blob_base_fee is Some ==> {
                &&& made.blob is Some
                &&& block.blob is Some ==> made.blob->0.excess == block.blob->0.excess
                &&& block.blob is None ==> made.blob->0.excess == 0
                &&& given.blob_base_fee->0@ <= u128::MAX ==> made.blob->0.price == given.blob_base_fee->0@
                &&& given.blob_base_fee->0@ > u128::MAX ==> made.blob->0.price == u128::MAX
            }
        }),
{
}

/// Between its set-up and its execution a block keeps settings, parent, gas and options, and
/// each override that it asks for is applied: hashes, state, context, precompiles, in order.
pub proof fn overrides_are_applied_in_order<B, E>(
    state: SimulationState<B, E>,
    cfg: CfgSettings,
    block: BlockSettings,
)
    requires
        set_up_with(state.phase) == Some((cfg, block)),
    ensures
        ({
            let overrides_state = state.plan[state.done.len() as int].has_state_override;
            let hashes = state.after(SimulateEvent::HashesOverridden);
            let stated = state.after(SimulateEvent::StateOverridden(Ok(())));
            let context = state.after(SimulateEvent::Context(Ok(())));
            let moved = state.after(SimulateEvent::PrecompilesOverridden(Ok(())));
            &&& state.due() is OverrideBlockHashes ==> set_up_with(hashes.phase) == Some((cfg, block)) && if overrides_state {
                hashes.due() is OverrideState
            } else {
                hashes.due() == SimulateAction::MakeContext(state.parent)
            }
            &&& state.due() is OverrideState ==> set_up_with(stated.phase) == Some((cfg, block)) && stated.due()
                == SimulateAction::MakeContext(state.parent)
            &&& state.due() is MakeContext ==> set_up_with(context.phase) == Some((cfg, block)) && if overrides_state {
                context.due() is OverridePrecompiles
            } else {
                executes(state, context, cfg, block)
            }
            &&& state.due() is OverridePrecompiles ==> executes(state, moved, cfg, block)
        }),
{
}

/// The calls of the block are executed next, on its parent, with the settings, within the
/// gas that is left, and with transfers in the logs as the request asks.
pub open spec fn executes<B, E>(
    state: SimulationState<B, E>,
    next: SimulationState<B, E>,
    cfg: CfgSettings,
    block: BlockSettings,
) -> bool {
    next.due() == (SimulateAction::Execute {
        parent: state.parent,
        cfg,
        block,
        trace_transfers: state.options.trace_transfers,
        gas_left: state.gas_left,
    })
}

/// Once its calls are executed, the hash of a block is recorded under its number, then its
/// answer is made, with transactions in full as the request asks, and put behind the others;
/// the next block is built on it, with the gas that it left, until all are answered.
pub proof fn executed_block_is_answered<B, E>(
    state: SimulationState<B, E>,
    simulated: SimulatedHeader,
    answer: B,
)
    requires
        state.due() is Execute,
    ensures
        ({
            let executed = state.after(SimulateEvent::Executed(Ok(simulated)));
            let recorded = executed.after(SimulateEvent::Recorded);
            let next = recorded.after(SimulateEvent::Built(Ok(answer)));
            &&& executed.due() == (SimulateAction::RecordHash {
                number: simulated.header.number,
                hash: simulated.header.hash,
            })
            &&& recorded.due() == (SimulateAction::BuildBlock { full: state.options.return_full_transactions })
            &&& next.done == state.done.push(answer)
            &&& next.plan == state.plan
            &&& next.options == state.options
            &&& next.gas_left == simulated.gas_left
            &&& state.done.len() + 1 < state.plan.len() && state.plan.len() <= usize::MAX ==> next.due() == (
            SimulateAction::NextEnvironment {
                index: (state.done.len() + 1) as usize,
                parent: simulated.header,
            })
            &&& state.done.len() + 1 >= state.plan.len() ==> next.phase == SimulatePhase::<E>::Finished(Ok(()))
        }),
{
}

/// Without validation no block is executed with a check on nonces or base fee, or with a cap
/// on gas limits, whatever it overrides and whatever the node reports. With or without, none
/// is executed with a check on the code of senders.
pub proof fn unvalidated_blocks_run_unchecked<B, E>(
    blocks: usize,
    max_simulate_blocks: u64,
    block: Option<BlockId>,
    options: SimulateOptions,
    call_gas_limit: u64,
    events: Seq<SimulateEvent<B, E>>,
)
    ensures
        ({
            let start = SimulationState::<B, E>::start(blocks, max_simulate_blocks, block, options, call_gas_limit);
            let state = run(start, events);
            &&& state.options == options
            &&& state.call_gas_limit == call_gas_limit
            &&& set_up_with(state.phase) is Some ==> runs_unchecked((set_up_with(state.phase)->0).0, options.validation)
            &&& state.due() is Execute ==> runs_unchecked(state.due()->Execute_cfg, options.validation)
                && state.due()->Execute_trace_transfers == options.trace_transfers
            &&& state.due() is BuildBlock ==> state.due()->full == options.return_full_transactions
        }),
    decreases events.len(),
{
    if events.len() > 0 {
        unvalidated_blocks_run_unchecked::<B, E>(
            blocks,
            max_simulate_blocks,
            block,
            options,
            call_gas_limit,
            events.drop_last(),
        );
    }
}

/// Settings that check no code of senders, and without validation neither nonces nor base
/// fee nor gas limits.
pub open spec fn runs_unchecked(cfg: CfgSettings, validation: bool) -> bool {
    &&& cfg.disable_eip3607
    &&& validation || (cfg.disable_nonce_check && cfg.disable_base_fee && cfg.tx_gas_limit_cap == Some(
        0xffff_ffff_ffff_ffffu64,
    ))
}

/// A failure of the node at any step is the answer.
pub proof fn failures_end_simulation<B, E>(state: SimulationState<B, E>, error: E)
    ensures
        ({
            let failed = SimulatePhase::<E>::Finished(Err(CallError::Node(error)));
            &&& state.due() is LoadBlock ==> state.after(SimulateEvent::Block(Err(error))).phase == failed
            &&& state.due() is LoadState ==> state.after(SimulateEvent::Loaded(Err(error))).phase == failed
            &&& state.due() is PlanBlocks ==> state.after(SimulateEvent::Planned(Err(error))).phase == failed
            &&& state.due() is NextEnvironment ==> state.after(SimulateEvent::Environment(Err(error))).phase == failed
            &&& state.due() is OverrideState ==> state.after(SimulateEvent::StateOverridden(Err(error))).phase
                == failed
            &&& state.due() is MakeContext ==> state.after(SimulateEvent::Context(Err(error))).phase == failed
            &&& state.due() is OverridePrecompiles ==> state.after(
                SimulateEvent::PrecompilesOverridden(Err(error)),
            ).phase == failed
            &&& state.due() is Execute ==> state.after(SimulateEvent::Executed(Err(error))).phase == failed
            &&& state.due() is BuildBlock ==> state.after(SimulateEvent::Built(Err(error))).phase == failed
        }),
{
}

/// An answer stays, and an event that is not asked for changes nothing.
pub proof fn only_answers_move_simulation<B, E>(state: SimulationState<B, E>, event: SimulateEvent<B, E>)
    requires
        !(state.due() is LoadBlock && event is Block),
        !(state.due() is LoadState && event is Loaded),
        !(state.due() is PlanBlocks && event is Planned),
        !(state.due() is NextEnvironment && event is Environment),
        !(state.due() is CheckMerge && event is Merged),
        !(state.due() is OverrideBlockHashes && event is HashesOverridden),
        !(state.due() is OverrideState && event is StateOverridden),
        !(state.due() is MakeContext && event is Context),
        !(state.due() is OverridePrecompiles && event is PrecompilesOverridden),
        !(state.due() is Execute && event is Executed),
        !(state.due() is RecordHash && event is Recorded),
        !(state.due() is BuildBlock && event is Built),
    ensures
        state.after(event) == state,
{
}

/// No step changes what the request asks for. The parent changes when a block is loaded or
/// executed, the gas that is left when one is executed, the blocks in order when they are
/// planned, and the answers when one is made; no other step changes these.
pub proof fn steps_keep_the_rest<B, E>(state: SimulationState<B, E>, event: SimulateEvent<B, E>)
    ensures
        ({
            let next = state.after(event);
            let loads = state.due() is LoadBlock && event is Block;
            let executes = state.due() is Execute && event is Executed;
            let plans = state.due() is PlanBlocks && event is Planned;
            let builds = state.due() is BuildBlock && event is Built;
            &&& next.options == state.options
            &&& next.call_gas_limit == state.call_gas_limit
            &&& !loads && !executes ==> next.parent == state.parent
            &&& !executes ==> next.gas_left == state.gas_left
            &&& !plans ==> next.plan == state.plan
            &&& !builds ==> next.done == state.done
        }),
{
}

/// Nothing is due once a request is answered, and only then.
pub proof fn nothing_is_due_once_answered<B, E>(state: SimulationState<B, E>)
    ensures
        state.due() is Finish <==> state.phase is Finished,
{
}

} // verus!
