//! `eth_simulateV1`: blocks of calls executed one after the other on top of a block.
//!
//! The node does the work, one step at a time: [`Simulation::action`] says which step is
//! next, and [`Simulation::advance`] takes what came of it.

use crate::block::BlockId;
use crate::errors::{CallError, InvalidParams};
use crate::primitives::B256;
use crate::settings::{
    apply_block_overrides, overridden, saturated, BlockOverrides, BlockSettings, CfgSettings,
};
use crate::word::U256;
use vstd::prelude::*;

verus! {

/// What a request says of how its blocks are simulated.
#[derive(Debug, Clone, Copy, PartialEq, Eq)]
pub struct SimulateOptions {
    /// Transfers of ether are put into the logs.
    pub trace_transfers: bool,
    /// Transactions are checked as on the chain.
    pub validation: bool,
    /// The answer has transactions in full, not their hashes alone.
    pub return_full_transactions: bool,
}

/// What a simulated block replaces.
#[derive(Debug, Clone, Copy, PartialEq, Eq)]
pub struct BlockPlan {
    /// The parts of the block that are replaced.
    pub block_overrides: Option<BlockOverrides>,
    /// Whether state is replaced.
    pub has_state_override: bool,
}

/// A block that another is built on.
#[derive(Debug, Clone, Copy, PartialEq, Eq)]
pub struct ParentHeader {
    /// The number of the block.
    pub number: u64,
    /// The hash of the block.
    pub hash: B256,
    /// The difficulty of the block.
    pub difficulty: U256,
}

/// A block that was simulated.
#[derive(Debug, Clone, Copy, PartialEq, Eq)]
pub struct SimulatedHeader {
    /// The header of the block.
    pub header: ParentHeader,
    /// The gas that is left for the calls that follow, if it is limited.
    pub gas_left: Option<u64>,
}

/// The hash whose bytes are all zero.
pub open spec fn zero_hash() -> B256 {
    B256 {
        bytes: [
            0, 0, 0, 0, 0, 0, 0, 0, 0, 0, 0, 0, 0, 0, 0, 0, 0, 0, 0, 0, 0, 0, 0, 0, 0, 0, 0, 0, 0, 0, 0, 0,
        ],
    }
}

/// The hash whose bytes are all zero.
fn make_zero_hash() -> (hash: B256)
    ensures
        hash == zero_hash(),
{
    B256 {
        bytes: [
            0, 0, 0, 0, 0, 0, 0, 0, 0, 0, 0, 0, 0, 0, 0, 0, 0, 0, 0, 0, 0, 0, 0, 0, 0, 0, 0, 0, 0, 0, 0, 0,
        ],
    }
}

/// No block yet.
pub open spec fn no_parent() -> ParentHeader {
    ParentHeader { number: 0, hash: zero_hash(), difficulty: U256::of_u64(0) }
}

/// The settings of a simulated block: the code of the sender is not checked, and unless
/// validation is asked for neither nonce nor base fee are, and any gas limit will do.
pub open spec fn simulated_cfg(cfg: CfgSettings, validation: bool) -> CfgSettings {
    if validation {
        CfgSettings { disable_eip3607: true, ..cfg }
    } else {
        CfgSettings {
            disable_eip3607: true,
            disable_nonce_check: true,
            disable_base_fee: true,
            tx_gas_limit_cap: Some(u64::MAX),
            ..cfg
        }
    }
}

/// The settings of a simulated block.
pub fn make_simulated_cfg(cfg: CfgSettings, validation: bool) -> (next: CfgSettings)
    ensures
        next == simulated_cfg(cfg, validation),
{
    let mut next = cfg;
    next.disable_eip3607 = true;
    if !validation {
        next.disable_nonce_check = true;
        next.disable_base_fee = true;
        next.tx_gas_limit_cap = Some(u64::MAX);
    }
    next
}

/// A simulated block before its overrides: a base fee of zero unless validation is asked
/// for, a random value of zero, and before the merge the difficulty of its parent.
pub open spec fn simulated_block(
    block: BlockSettings,
    validation: bool,
    merged: bool,
    parent_difficulty: U256,
) -> BlockSettings {
    BlockSettings {
        basefee: if validation {
            block.basefee
        } else {
            0
        },
        prevrandao: Some(zero_hash()),
        difficulty: if merged {
            block.difficulty
        } else {
            parent_difficulty
        },
        ..block
    }
}

/// A simulated block before its overrides.
pub fn make_simulated_block(block: BlockSettings, validation: bool, merged: bool, parent_difficulty: U256) -> (next:
    BlockSettings)
    ensures
        next == simulated_block(block, validation, merged, parent_difficulty),
{
    let mut next = block;
    if !validation {
        next.basefee = 0;
    }
    next.prevrandao = Some(make_zero_hash());
    if !merged {
        next.difficulty = parent_difficulty;
    }
    next
}

/// Whether a block is asked for with too large a gas limit: larger than that of the
/// block, and larger than that for calls.
pub open spec fn gas_limit_too_large(
    overrides: Option<BlockOverrides>,
    block_gas_limit: u64,
    call_gas_limit: u64,
) -> bool {
    overrides matches Some(o) && o.gas_limit matches Some(gas) && gas > block_gas_limit && gas > call_gas_limit
}

/// Whether a block is asked for with too large a gas limit.
pub fn exceeds_gas_limit(overrides: &Option<BlockOverrides>, block_gas_limit: u64, call_gas_limit: u64) -> (exceeds:
    bool)
    ensures
        exceeds == gas_limit_too_large(*overrides, block_gas_limit, call_gas_limit),
{
    match overrides {
        Some(o) => match o.gas_limit {
            Some(gas) => gas > block_gas_limit && gas > call_gas_limit,
            None => false,
        },
        None => false,
    }
}

/// The gas that all calls together may use: that for calls, without a limit where that
/// is zero.
pub open spec fn total_gas(call_gas_limit: u64) -> Option<u64> {
    if call_gas_limit > 0 {
        Some(call_gas_limit)
    } else {
        None
    }
}

/// What the node has to do next.
#[derive(Debug, Clone, Copy, PartialEq, Eq)]
pub enum SimulateAction {
    /// Load a block, on which the others are built.
    LoadBlock(BlockId),
    /// Load the state at a block.
    LoadState(BlockId),
    /// Put the blocks in order, with empty blocks in the gaps, to be built on a block.
    PlanBlocks(ParentHeader),
    /// Make the settings of the block with an index, which is built on another.
    NextEnvironment { index: usize, parent: ParentHeader },
    /// Tell whether the merge comes no later than the block with a number.
    CheckMerge(u64),
    /// Put the block hashes that the block gives into the database.
    OverrideBlockHashes,
    /// Put the state that the block gives into the database.
    OverrideState,
    /// Make the context of the block, which is built on another.
    MakeContext(ParentHeader),
    /// Replace precompiles as the state that the block gives asks.
    OverridePrecompiles,
    /// Execute the calls of the block, which is built on another, with the settings and
    /// within the gas, and put transfers of ether into the logs if it says so.
    Execute {
        parent: ParentHeader,
        cfg: CfgSettings,
        block: BlockSettings,
        trace_transfers: bool,
        gas_left: Option<u64>,
    },
    /// Put the hash of the block into the database.
    RecordHash { number: u64, hash: B256 },
    /// Make the answer for the block, with transactions in full if it says so.
    BuildBlock { full: bool },
    /// Nothing: the request is answered.
    Finish,
}

/// What came of an action. `B` is the answer for a block.
#[derive(Debug)]
pub enum SimulateEvent<B, E> {
    /// The header of the block, if there is such a block.
    Block(Result<Option<ParentHeader>, E>),
    /// The state was loaded.
    Loaded(Result<(), E>),
    /// The blocks in order.
    Planned(Result<Vec<BlockPlan>, E>),
    /// The settings were made.
    Environment(Result<(CfgSettings, BlockSettings), E>),
    /// Whether the merge comes no later than the block.
    Merged(bool),
    /// The block hashes were put into the database.
    HashesOverridden,
    /// The state was put into the database.
    StateOverridden(Result<(), E>),
    /// The context was made.
    Context(Result<(), E>),
    /// The precompiles were replaced.
    PrecompilesOverridden(Result<(), E>),
    /// The calls were executed.
    Executed(Result<SimulatedHeader, E>),
    /// The hash was put into the database.
    Recorded,
    /// The answer for the block was made.
    Built(Result<B, E>),
}

/// How far a simulation is.
#[derive(Debug)]
pub enum SimulatePhase<E> {
    /// The block is wanted.
    LoadBlock { target: BlockId },
    /// The state is wanted.
    LoadState { target: BlockId },
    /// The blocks are to be put in order.
    Plan,
    /// The settings of the next block are wanted.
    NextEnvironment,
    /// It is wanted whether the merge comes no later than the block.
    CheckMerge { cfg: CfgSettings, block: BlockSettings },
    /// The block hashes are to be overridden.
    OverrideHashes { cfg: CfgSettings, block: BlockSettings },
    /// The state is to be overridden.
    OverrideState { cfg: CfgSettings, block: BlockSettings },
    /// The context of the block is wanted.
    MakeContext { cfg: CfgSettings, block: BlockSettings },
    /// The precompiles are to be replaced.
    OverridePrecompiles { cfg: CfgSettings, block: BlockSettings },
    /// The calls are to be executed.
    Execute { cfg: CfgSettings, block: BlockSettings },
    /// The hash of the block is to be recorded.
    RecordHash { number: u64, hash: B256 },
    /// The answer for the block is to be made.
    BuildBlock,
    /// The request is answered.
    Finished(Result<(), CallError<E>>),
}

/// A simulation on its way.
#[derive(Debug)]
pub struct Simulation<B, E> {
    options: SimulateOptions,
    call_gas_limit: u64,
    plan: Vec<BlockPlan>,
    parent: ParentHeader,
    gas_left: Option<u64>,
    done: Vec<B>,
    phase: SimulatePhase<E>,
}

/// A simulation on its way: the blocks in order, the block before the one at hand, the
/// gas that is left, the answers so far, and how far it is.
pub struct SimulationState<B, E> {
    pub options: SimulateOptions,
    pub call_gas_limit: u64,
    pub plan: Seq<BlockPlan>,
    pub parent: ParentHeader,
    pub gas_left: Option<u64>,
    pub done: Seq<B>,
    pub phase: SimulatePhase<E>,
}

impl<B, E> View for Simulation<B, E> {
    type V = SimulationState<B, E>;

    closed spec fn view(&self) -> SimulationState<B, E> {
        SimulationState {
            options: self.options,
            call_gas_limit: self.call_gas_limit,
            plan: self.plan@,
            parent: self.parent,
            gas_left: self.gas_left,
            done: self.done@,
            phase: self.phase,
        }
    }
}

impl<B, E> SimulationState<B, E> {
    /// A request for a number of blocks on top of a block. It fails with too many blocks
    /// and with none.
    pub open spec fn start(
        blocks: usize,
        max_simulate_blocks: u64,
        block: Option<BlockId>,
        options: SimulateOptions,
        call_gas_limit: u64,
    ) -> SimulationState<B, E> {
        SimulationState {
            options,
            call_gas_limit,
            plan: Seq::empty(),
            parent: no_parent(),
            gas_left: total_gas(call_gas_limit),
            done: Seq::empty(),
            phase: if blocks > max_simulate_blocks {
                SimulatePhase::Finished(Err(CallError::TooManyBlocks))
            } else if blocks == 0 {
                SimulatePhase::Finished(Err(CallError::InvalidParams(InvalidParams::CallsEmpty)))
            } else {
                SimulatePhase::LoadBlock { target: BlockId::requested(block) }
            },
        }
    }

    /// The same simulation in another phase.
    pub open spec fn at(self, phase: SimulatePhase<E>) -> SimulationState<B, E> {
        SimulationState { phase, ..self }
    }

    /// The same simulation, failed.
    pub open spec fn failed(self, error: CallError<E>) -> SimulationState<B, E> {
        self.at(SimulatePhase::Finished(Err(error)))
    }

    /// The same simulation in another phase, or failed.
    pub open spec fn goes_on<T>(self, came: Result<T, E>, phase: SimulatePhase<E>) -> SimulationState<B, E> {
        match came {
            Ok(_) => self.at(phase),
            Err(error) => self.failed(CallError::Node(error)),
        }
    }

    /// The block at hand.
    pub open spec fn planned(self) -> BlockPlan {
        self.plan[self.done.len() as int]
    }

    /// The phase with a number of blocks done.
    pub open spec fn with_done(self, done: nat) -> SimulatePhase<E> {
        if done < self.plan.len() {
            SimulatePhase::NextEnvironment
        } else {
            SimulatePhase::Finished(Ok(()))
        }
    }

    /// The simulation once it is known whether the merge comes no later than the block.
    pub open spec fn set_up(self, cfg: CfgSettings, block: BlockSettings, merged: bool) -> SimulationState<B, E> {
        let ready = simulated_cfg(cfg, self.options.validation);
        let plain = simulated_block(block, self.options.validation, merged, self.parent.difficulty);
        let overrides = self.planned().block_overrides;
        if gas_limit_too_large(overrides, block.gas_limit, self.call_gas_limit) {
            self.failed(CallError::GasLimitReached)
        } else {
            match overrides {
                Some(o) => self.at(SimulatePhase::OverrideHashes { cfg: ready, block: overridden(plain, o) }),
                None => self.at(self.hashes_done(ready, plain)),
            }
        }
    }

    /// The phase once the block hashes are overridden.
    pub open spec fn hashes_done(self, cfg: CfgSettings, block: BlockSettings) -> SimulatePhase<E> {
        if self.planned().has_state_override {
            SimulatePhase::OverrideState { cfg, block }
        } else {
            SimulatePhase::MakeContext { cfg, block }
        }
    }

    /// The phase once the context of the block is made.
    pub open spec fn context_done(self, cfg: CfgSettings, block: BlockSettings) -> SimulatePhase<E> {
        if self.planned().has_state_override {
            SimulatePhase::OverridePrecompiles { cfg, block }
        } else {
            SimulatePhase::Execute { cfg, block }
        }
    }

    /// What an event makes of the simulation. One that does not answer the action that
    /// is due changes nothing.
    pub open spec fn after(self, event: SimulateEvent<B, E>) -> SimulationState<B, E> {
        match (self.phase, event) {
            (SimulatePhase::LoadBlock { target }, SimulateEvent::Block(found)) => match found {
                Ok(Some(header)) => SimulationState {
                    parent: header,
                    phase: SimulatePhase::LoadState { target },
                    ..self
                },
                Ok(None) => self.failed(CallError::HeaderNotFound(target)),
                Err(error) => self.failed(CallError::Node(error)),
            },
            (SimulatePhase::LoadState { .. }, SimulateEvent::Loaded(loaded)) => self.goes_on(
                loaded,
                SimulatePhase::Plan,
            ),
            (SimulatePhase::Plan, SimulateEvent::Planned(planned)) => match planned {
                Ok(plan) => {
                    let next = SimulationState { plan: plan@, ..self };
                    next.at(next.with_done(self.done.len()))
                },
                Err(error) => self.failed(CallError::Node(error)),
            },
            (SimulatePhase::NextEnvironment, SimulateEvent::Environment(made)) => match made {
                Ok((cfg, block)) => self.at(SimulatePhase::CheckMerge { cfg, block }),
                Err(error) => self.failed(CallError::Node(error)),
            },
            (SimulatePhase::CheckMerge { cfg, block }, SimulateEvent::Merged(merged)) => self.set_up(
                cfg,
                block,
                merged,
            ),
            (SimulatePhase::OverrideHashes { cfg, block }, SimulateEvent::HashesOverridden) => self.at(
                self.hashes_done(cfg, block),
            ),
            (SimulatePhase::OverrideState { cfg, block }, SimulateEvent::StateOverridden(done)) => self.goes_on(
                done,
                SimulatePhase::MakeContext { cfg, block },
            ),
            (SimulatePhase::MakeContext { cfg, block }, SimulateEvent::Context(made)) => self.goes_on(
                made,
                self.context_done(cfg, block),
            ),
            (
                SimulatePhase::OverridePrecompiles { cfg, block },
                SimulateEvent::PrecompilesOverridden(done),
            ) => self.goes_on(done, SimulatePhase::Execute { cfg, block }),
            (SimulatePhase::Execute { .. }, SimulateEvent::Executed(executed)) => match executed {
                Ok(done) => SimulationState {
                    parent: done.header,
                    gas_left: done.gas_left,
                    phase: SimulatePhase::RecordHash { number: done.header.number, hash: done.header.hash },
                    ..self
                },
                Err(error) => self.failed(CallError::Node(error)),
            },
            (SimulatePhase::RecordHash { .. }, SimulateEvent::Recorded) => self.at(SimulatePhase::BuildBlock),
            (SimulatePhase::BuildBlock, SimulateEvent::Built(built)) => match built {
                Ok(answer) => SimulationState {
                    done: self.done.push(answer),
                    phase: self.with_done(self.done.len() + 1),
                    ..self
                },
                Err(error) => self.failed(CallError::Node(error)),
            },
            _ => self,
        }
    }

    /// The action that is due.
    pub open spec fn due(self) -> SimulateAction {
        match self.phase {
            SimulatePhase::LoadBlock { target } => SimulateAction::LoadBlock(target),
            SimulatePhase::LoadState { target } => SimulateAction::LoadState(target),
            SimulatePhase::Plan => SimulateAction::PlanBlocks(self.parent),
            SimulatePhase::NextEnvironment => SimulateAction::NextEnvironment {
                index: self.done.len() as usize,
                parent: self.parent,
            },
            SimulatePhase::CheckMerge { block, .. } => SimulateAction::CheckMerge(saturated(block.number@)),
            SimulatePhase::OverrideHashes { .. } => SimulateAction::OverrideBlockHashes,
            SimulatePhase::OverrideState { .. } => SimulateAction::OverrideState,
            SimulatePhase::MakeContext { .. } => SimulateAction::MakeContext(self.parent),
            SimulatePhase::OverridePrecompiles { .. } => SimulateAction::OverridePrecompiles,
            SimulatePhase::Execute { cfg, block } => SimulateAction::Execute {
                parent: self.parent,
                cfg,
                block,
                trace_transfers: self.options.trace_transfers,
                gas_left: self.gas_left,
            },
            SimulatePhase::RecordHash { number, hash } => SimulateAction::RecordHash { number, hash },
            SimulatePhase::BuildBlock => SimulateAction::BuildBlock {
                full: self.options.return_full_transactions,
            },
            SimulatePhase::Finished(_) => SimulateAction::Finish,
        }
    }
}

/// A phase, or the failure of a simulation.
fn go_on<T, E>(came: Result<T, E>, phase: SimulatePhase<E>) -> (next: SimulatePhase<E>)
    ensures
        next == (match came {
            Ok(_) => phase,
            Err(error) => SimulatePhase::Finished(Err(CallError::Node(error))),
        }),
{
    match came {
        Ok(_) => phase,
        Err(error) => SimulatePhase::Finished(Err(CallError::Node(error))),
    }
}

impl<B, E> Simulation<B, E> {
    #[verifier::type_invariant]
    spec fn block_at_hand(&self) -> bool {
        match self.phase {
            SimulatePhase::LoadBlock { .. } => self.done@.len() == 0,
            SimulatePhase::LoadState { .. } => self.done@.len() == 0,
            SimulatePhase::Plan => self.done@.len() == 0,
            SimulatePhase::Finished(_) => true,
            _ => self.done@.len() < self.plan@.len(),
        }
    }

    /// A request for a number of blocks on top of a block, the latest unless it names
    /// another.
    pub fn simulate_v1(
        blocks: usize,
        max_simulate_blocks: u64,
        block: Option<BlockId>,
        options: SimulateOptions,
        call_gas_limit: u64,
    ) -> (simulation: Simulation<B, E>)
        ensures
            simulation@ == SimulationState::<B, E>::start(
                blocks,
                max_simulate_blocks,
                block,
                options,
                call_gas_limit,
            ),
    {
        let phase = if blocks as u64 > max_simulate_blocks {
            SimulatePhase::Finished(Err(CallError::TooManyBlocks))
        } else if blocks == 0 {
            SimulatePhase::Finished(Err(CallError::InvalidParams(InvalidParams::CallsEmpty)))
        } else {
            SimulatePhase::LoadBlock { target: BlockId::or_latest(block) }
        };
        Simulation {
            options,
            call_gas_limit,
            plan: Vec::new(),
            parent: ParentHeader { number: 0, hash: make_zero_hash(), difficulty: U256::from_u64(0) },
            gas_left: if call_gas_limit > 0 {
                Some(call_gas_limit)
            } else {
                None
            },
            done: Vec::new(),
            phase,
        }
    }

    /// The action that is due.
    pub fn action(&self) -> (action: SimulateAction)
        ensures
            action == self@.due(),
    {
        match &self.phase {
            SimulatePhase::LoadBlock { target } => SimulateAction::LoadBlock(*target),
            SimulatePhase::LoadState { target } => SimulateAction::LoadState(*target),
            SimulatePhase::Plan => SimulateAction::PlanBlocks(self.parent),
            SimulatePhase::NextEnvironment => SimulateAction::NextEnvironment {
                index: self.done.len(),
                parent: self.parent,
            },
            SimulatePhase::CheckMerge { block, .. } => SimulateAction::CheckMerge(
                block.number.saturating_to_u64(),
            ),
            SimulatePhase::OverrideHashes { .. } => SimulateAction::OverrideBlockHashes,
            SimulatePhase::OverrideState { .. } => SimulateAction::OverrideState,
            SimulatePhase::MakeContext { .. } => SimulateAction::MakeContext(self.parent),
            SimulatePhase::OverridePrecompiles { .. } => SimulateAction::OverridePrecompiles,
            SimulatePhase::Execute { cfg, block } => SimulateAction::Execute {
                parent: self.parent,
                cfg: *cfg,
                block: *block,
                trace_transfers: self.options.trace_transfers,
                gas_left: self.gas_left,
            },
            SimulatePhase::RecordHash { number, hash } => SimulateAction::RecordHash {
                number: *number,
                hash: *hash,
            },
            SimulatePhase::BuildBlock => SimulateAction::BuildBlock {
                full: self.options.return_full_transactions,
            },
            SimulatePhase::Finished(_) => SimulateAction::Finish,
        }
    }

    /// Takes what came of a step that makes the block at hand ready.
    fn advance_setup(
        plan: &BlockPlan,
        validation: bool,
        call_gas_limit: u64,
        parent_difficulty: U256,
        phase: SimulatePhase<E>,
        event: SimulateEvent<B, E>,
        Ghost(state): Ghost<SimulationState<B, E>>,
    ) -> (next: SimulatePhase<E>)
        requires
            *plan == state.planned(),
            validation == state.options.validation,
            call_gas_limit == state.call_gas_limit,
            parent_difficulty == state.parent.difficulty,
            phase == state.phase,
            phase is CheckMerge || phase is OverrideHashes || phase is OverrideState || phase is MakeContext
                || phase is OverridePrecompiles,
        ensures
            state.at(next) == state.after(event),
    {
        match (phase, event) {
            (SimulatePhase::CheckMerge { cfg, block }, SimulateEvent::Merged(merged)) => {
                if exceeds_gas_limit(&plan.block_overrides, block.gas_limit, call_gas_limit) {
                    return SimulatePhase::Finished(Err(CallError::GasLimitReached));
                }
                let cfg = make_simulated_cfg(cfg, validation);
                let block = make_simulated_block(block, validation, merged, parent_difficulty);
                match plan.block_overrides {
                    Some(overrides) => SimulatePhase::OverrideHashes {
                        cfg,
                        block: apply_block_overrides(block, overrides),
                    },
                    None => {
                        if plan.has_state_override {
                            SimulatePhase::OverrideState { cfg, block }
                        } else {
                            SimulatePhase::MakeContext { cfg, block }
                        }
                    },
                }
            },
            (SimulatePhase::OverrideHashes { cfg, block }, SimulateEvent::HashesOverridden) => {
                if plan.has_state_override {
                    SimulatePhase::OverrideState { cfg, block }
                } else {
                    SimulatePhase::MakeContext { cfg, block }
                }
            },
            (SimulatePhase::OverrideState { cfg, block }, SimulateEvent::StateOverridden(done)) => go_on(
                done,
                SimulatePhase::MakeContext { cfg, block },
            ),
            (SimulatePhase::MakeContext { cfg, block }, SimulateEvent::Context(made)) => go_on(
                made,
                if plan.has_state_override {
                    SimulatePhase::OverridePrecompiles { cfg, block }
                } else {
                    SimulatePhase::Execute { cfg, block }
                },
            ),
            (
                SimulatePhase::OverridePrecompiles { cfg, block },
                SimulateEvent::PrecompilesOverridden(done),
            ) => go_on(done, SimulatePhase::Execute { cfg, block }),
            (phase, _) => phase,
        }
    }

    /// Takes what came of the action that was due.
    pub fn advance(self, event: SimulateEvent<B, E>) -> (next: Simulation<B, E>)
        ensures
            next@ == self@.after(event),
    {
        proof {
            use_type_invariant(&self);
        }
        let setting_up = match &self.phase {
            SimulatePhase::CheckMerge { .. } | SimulatePhase::OverrideHashes { .. }
            | SimulatePhase::OverrideState { .. } | SimulatePhase::MakeContext { .. }
            | SimulatePhase::OverridePrecompiles { .. } => true,
            _ => false,
        };
        let Simulation { options, call_gas_limit, plan, parent, gas_left, done, phase } = self;
        if setting_up {
            let phase = Self::advance_setup(
                &plan[done.len()],
                options.validation,
                call_gas_limit,
                parent.difficulty,
                phase,
                event,
                Ghost(self@),
            );
            return Simulation { options, call_gas_limit, plan, parent, gas_left, done, phase };
        }
        let mut plan = plan;
        let mut parent = parent;
        let mut gas_left = gas_left;
        let mut done = done;
        let phase = match (phase, event) {
            (SimulatePhase::LoadBlock { target }, SimulateEvent::Block(found)) => match found {
                Ok(Some(header)) => {
                    parent = header;
                    SimulatePhase::LoadState { target }
                },
                Ok(None) => SimulatePhase::Finished(Err(CallError::HeaderNotFound(target))),
                Err(error) => SimulatePhase::Finished(Err(CallError::Node(error))),
            },
            (SimulatePhase::LoadState { .. }, SimulateEvent::Loaded(loaded)) => go_on(loaded, SimulatePhase::Plan),
            (SimulatePhase::Plan, SimulateEvent::Planned(planned)) => match planned {
                Ok(blocks) => {
                    plan = blocks;
                    if done.len() < plan.len() {
                        SimulatePhase::NextEnvironment
                    } else {
                        SimulatePhase::Finished(Ok(()))
                    }
                },
                Err(error) => SimulatePhase::Finished(Err(CallError::Node(error))),
            },
            (SimulatePhase::NextEnvironment, SimulateEvent::Environment(made)) => match made {
                Ok((cfg, block)) => SimulatePhase::CheckMerge { cfg, block },
                Err(error) => SimulatePhase::Finished(Err(CallError::Node(error))),
            },
            (SimulatePhase::Execute { .. }, SimulateEvent::Executed(executed)) => match executed {
                Ok(simulated) => {
                    parent = simulated.header;
                    gas_left = simulated.gas_left;
                    SimulatePhase::RecordHash { number: simulated.header.number, hash: simulated.header.hash }
                },
                Err(error) => SimulatePhase::Finished(Err(CallError::Node(error))),
            },
            (SimulatePhase::RecordHash { .. }, SimulateEvent::Recorded) => SimulatePhase::BuildBlock,
            (SimulatePhase::BuildBlock, SimulateEvent::Built(built)) => match built {
                Ok(answer) => {
                    done.push(answer);
                    if done.len() < plan.len() {
                        SimulatePhase::NextEnvironment
                    } else {
                        SimulatePhase::Finished(Ok(()))
                    }
                },
                Err(error) => SimulatePhase::Finished(Err(CallError::Node(error))),
            },
            (phase, _) => phase,
        };
        Simulation { options, call_gas_limit, plan, parent, gas_left, done, phase }
    }

    /// The answer to the request, once there is one.
    pub fn answer(self) -> (answer: Option<Result<Vec<B>, CallError<E>>>)
        ensures
            match answer {
                Some(Ok(blocks)) => self@.phase is Finished && self@.phase->Finished_0 is Ok && blocks@
                    == self@.done,
                Some(Err(error)) => self@.phase == SimulatePhase::<E>::Finished(Err(error)),
                None => !(self@.phase is Finished),
            },
    {
        match self.phase {
            SimulatePhase::Finished(Ok(_)) => Some(Ok(self.done)),
            SimulatePhase::Finished(Err(error)) => Some(Err(error)),
            _ => None,
        }
    }
}

/// What a number of events make of a simulation.
pub open spec fn run<B, E>(state: SimulationState<B, E>, events: Seq<SimulateEvent<B, E>>) -> SimulationState<B, E>
    decreases events.len(),
{
    if events.len() == 0 {
        state
    } else {
        run(state, events.drop_last()).after(events.last())
    }
}

/// There are no more answers than blocks, and a request that is answered without an error
/// has one for each.
pub open spec fn answers_in_bounds<B, E>(state: SimulationState<B, E>) -> bool {
    match state.phase {
        SimulatePhase::LoadBlock { .. } => state.done.len() == 0,
        SimulatePhase::LoadState { .. } => state.done.len() == 0,
        SimulatePhase::Plan => state.done.len() == 0,
        SimulatePhase::Finished(Ok(_)) => state.done.len() == state.plan.len(),
        SimulatePhase::Finished(Err(_)) => state.done.len() <= state.plan.len(),
        _ => state.done.len() < state.plan.len(),
    }
}

/// Whatever the node reports, there are no more answers than blocks, and a request that
/// is answered without an error has one for each.
pub proof fn answers_stay_in_bounds<B, E>(
    blocks: usize,
    max_simulate_blocks: u64,
    block: Option<BlockId>,
    options: SimulateOptions,
    call_gas_limit: u64,
    events: Seq<SimulateEvent<B, E>>,
)
    ensures
        answers_in_bounds(
            run(
                SimulationState::<B, E>::start(blocks, max_simulate_blocks, block, options, call_gas_limit),
                events,
            ),
        ),
    decreases events.len(),
{
    if events.len() > 0 {
        answers_stay_in_bounds::<B, E>(
            blocks,
            max_simulate_blocks,
            block,
            options,
            call_gas_limit,
            events.drop_last(),
        );
    }
}

/// An answer is final.
pub proof fn answer_is_final<B, E>(state: SimulationState<B, E>, events: Seq<SimulateEvent<B, E>>)
    requires
        state.phase is Finished,
    ensures
        run(state, events) == state,
    decreases events.len(),
{
    if events.len() > 0 {
        answer_is_final(state, events.drop_last());
    }
}

/// A random value that the request gives for a block is the one that it has; without one
/// it is zero.
pub proof fn random_value_can_be_given(
    block: BlockSettings,
    validation: bool,
    merged: bool,
    parent_difficulty: U256,
    overrides: BlockOverrides,
)
    ensures
        overridden(simulated_block(block, validation, merged, parent_difficulty), overrides).prevrandao
            == match overrides.random {
            Some(random) => Some(random),
            None => Some(zero_hash()),
        },
{
}

/// No block is executed with a larger gas limit than both its own and that for calls.
pub proof fn gas_limit_is_capped<B, E>(
    state: SimulationState<B, E>,
    cfg: CfgSettings,
    block: BlockSettings,
    merged: bool,
)
    requires
        state.phase == (SimulatePhase::<E>::CheckMerge { cfg, block }),
    ensures
        match state.after(SimulateEvent::Merged(merged)).phase {
            SimulatePhase::OverrideHashes { block: next, .. } => next.gas_limit <= block.gas_limit
                || next.gas_limit <= state.call_gas_limit,
            SimulatePhase::OverrideState { block: next, .. } => next.gas_limit == block.gas_limit,
            SimulatePhase::MakeContext { block: next, .. } => next.gas_limit == block.gas_limit,
            SimulatePhase::Finished(Err(error)) => error == CallError::<E>::GasLimitReached,
            _ => false,
        },
{
}

/// A block is set up only once the hash of the block before it is recorded and its
/// answer is made.
pub proof fn blocks_follow_each_other<B, E>(state: SimulationState<B, E>, event: SimulateEvent<B, E>)
    requires
        state.after(event).phase is NextEnvironment,
        !(state.phase is NextEnvironment),
    ensures
        state.phase is Plan || state.phase is BuildBlock,
{
}

/// The settings of the block at hand, once it is set up and until it is executed.
pub open spec fn block_settings<E>(phase: SimulatePhase<E>) -> Option<(CfgSettings, BlockSettings)> {
    match phase {
        SimulatePhase::OverrideHashes { cfg, block } => Some((cfg, block)),
        SimulatePhase::OverrideState { cfg, block } => Some((cfg, block)),
        SimulatePhase::MakeContext { cfg, block } => Some((cfg, block)),
        SimulatePhase::OverridePrecompiles { cfg, block } => Some((cfg, block)),
        SimulatePhase::Execute { cfg, block } => Some((cfg, block)),
        _ => None,
    }
}

/// The settings that a block is set up with are those that it is executed with, whatever
/// is overridden on the way: no event changes them.
pub proof fn settings_reach_execution<B, E>(state: SimulationState<B, E>, event: SimulateEvent<B, E>)
    requires
        block_settings(state.phase) is Some,
        block_settings(state.after(event).phase) is Some,
    ensures
        block_settings(state.after(event).phase) == block_settings(state.phase),
{
}

/// A block that works is answered, and the next is built on it, with the gas that it
/// left.
pub proof fn block_is_answered<B, E>(
    state: SimulationState<B, E>,
    cfg: CfgSettings,
    block: BlockSettings,
    simulated: SimulatedHeader,
    answer: B,
)
    requires
        state.phase == (SimulatePhase::<E>::Execute { cfg, block }),
    ensures
        ({
            let executed = state.after(SimulateEvent::Executed(Ok(simulated)));
            let recorded = executed.after(SimulateEvent::Recorded);
            let next = recorded.after(SimulateEvent::Built(Ok(answer)));
            &&& executed.due() == (SimulateAction::RecordHash {
                number: simulated.header.number,
                hash: simulated.header.hash,
            })
            &&& next.done == state.done.push(answer)
            &&& next.parent == simulated.header
            &&& next.gas_left == simulated.gas_left
            &&& next.phase == state.with_done(state.done.len() + 1)
        }),
{
}

/// A block without overrides is executed as it is set up, with the random value zero,
/// within the gas that is left.
pub proof fn plain_block_is_executed<B, E>(
    state: SimulationState<B, E>,
    cfg: CfgSettings,
    block: BlockSettings,
    merged: bool,
)
    requires
        state.phase is NextEnvironment,
        state.planned() == (BlockPlan { block_overrides: None, has_state_override: false }),
    ensures
        state.after(SimulateEvent::Environment(Ok((cfg, block)))).after(SimulateEvent::Merged(merged)).after(
            SimulateEvent::Context(Ok(())),
        ).due() == (SimulateAction::Execute {
            parent: state.parent,
            cfg: simulated_cfg(cfg, state.options.validation),
            block: simulated_block(block, state.options.validation, merged, state.parent.difficulty),
            trace_transfers: state.options.trace_transfers,
            gas_left: state.gas_left,
        }),
{
}

/// The headers that came up in a simulation: that of the block that it starts from, then
/// those of the blocks that were executed, in order.
pub open spec fn headers<B, E>(state: SimulationState<B, E>, events: Seq<SimulateEvent<B, E>>) -> Seq<ParentHeader>
    decreases events.len(),
{
    if events.len() == 0 {
        Seq::empty()
    } else {
        let earlier = headers(state, events.drop_last());
        match (run(state, events.drop_last()).phase, events.last()) {
            (SimulatePhase::LoadBlock { .. }, SimulateEvent::Block(Ok(Some(header)))) => earlier.push(header),
            (SimulatePhase::Execute { .. }, SimulateEvent::Executed(Ok(done))) => earlier.push(done.header),
            _ => earlier,
        }
    }
}

/// How many headers came up by a phase.
pub open spec fn headers_known<B, E>(state: SimulationState<B, E>, known: Seq<ParentHeader>) -> bool {
    match state.phase {
        SimulatePhase::LoadBlock { .. } => known.len() == 0,
        SimulatePhase::Finished(_) => true,
        SimulatePhase::RecordHash { .. } => known.len() == state.done.len() + 2 && state.parent == known.last(),
        SimulatePhase::BuildBlock => known.len() == state.done.len() + 2 && state.parent == known.last(),
        _ => known.len() == state.done.len() + 1 && state.parent == known.last(),
    }
}

/// Each block is built on the one before: the first on the block that the simulation
/// starts from, any other on the block that was executed before it. This is the header
/// that settings, context and execution of the block are asked for with.
pub proof fn blocks_are_built_on_the_one_before<B, E>(
    blocks: usize,
    max_simulate_blocks: u64,
    block: Option<BlockId>,
    options: SimulateOptions,
    call_gas_limit: u64,
    events: Seq<SimulateEvent<B, E>>,
)
    ensures
        ({
            let start = SimulationState::<B, E>::start(blocks, max_simulate_blocks, block, options, call_gas_limit);
            let state = run(start, events);
            let known = headers(start, events);
            &&& headers_known(state, known)
            &&& match state.due() {
                SimulateAction::PlanBlocks(parent) => parent == known[0],
                SimulateAction::NextEnvironment { parent, .. } => parent == known[state.done.len() as int],
                SimulateAction::MakeContext(parent) => parent == known[state.done.len() as int],
                SimulateAction::Execute { parent, .. } => parent == known[state.done.len() as int],
                _ => true,
            }
        }),
    decreases events.len(),
{
    answers_stay_in_bounds::<B, E>(blocks, max_simulate_blocks, block, options, call_gas_limit, events);
    if events.len() > 0 {
        let earlier = events.drop_last();
        answers_stay_in_bounds::<B, E>(blocks, max_simulate_blocks, block, options, call_gas_limit, earlier);
        blocks_are_built_on_the_one_before::<B, E>(
            blocks,
            max_simulate_blocks,
            block,
            options,
            call_gas_limit,
            earlier,
        );
    }
}

} // verus!
