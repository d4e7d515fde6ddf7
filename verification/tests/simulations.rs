use eth_call_ledger::block::{BlockId, BlockNumberOrTag};
use eth_call_ledger::errors::{CallError, InvalidParams};
use eth_call_ledger::primitives::{Address, B256};
use eth_call_ledger::settings::{BlockOverrides, BlockSettings, CfgSettings};
use eth_call_ledger::simulate::{
    exceeds_gas_limit, make_simulated_block, make_simulated_cfg, BlockPlan, ParentHeader, SimulateAction, SimulateEvent,
    SimulateOptions, SimulatedHeader, Simulation,
};
use eth_call_ledger::word::U256;

type Simulated = Simulation<&'static str, &'static str>;

fn word(number: u64) -> U256 {
    U256::from_u64(number)
}

fn hash(number: u8) -> B256 {
    B256 { bytes: [number; 32] }
}

fn latest() -> BlockId {
    BlockId::Number(BlockNumberOrTag::Latest)
}

fn cfg() -> CfgSettings {
    CfgSettings {
        disable_eip3607: false,
        disable_nonce_check: false,
        disable_base_fee: false,
        disable_block_gas_limit: false,
        disable_fee_charge: false,
        tx_gas_limit_cap: None,
        memory_limit: 1,
    }
}

fn block() -> BlockSettings {
    BlockSettings {
        number: word(100),
        gas_limit: 1_000,
        basefee: 7,
        difficulty: word(3),
        prevrandao: Some(hash(1)),
        timestamp: word(12),
        beneficiary: Address { bytes: [4; 20] },
        blob: None,
    }
}

fn overrides(gas_limit: Option<u64>, random: Option<B256>) -> BlockOverrides {
    BlockOverrides {
        number: None,
        difficulty: None,
        gas_limit,
        random,
        base_fee: None,
        time: None,
        coinbase: None,
        blob_base_fee: None,
    }
}

fn plain() -> BlockPlan {
    BlockPlan { block_overrides: None, has_state_override: false }
}

fn options(validation: bool) -> SimulateOptions {
    SimulateOptions { trace_transfers: true, validation, return_full_transactions: true }
}

fn planned(plan: Vec<BlockPlan>, validation: bool, call_gas_limit: u64) -> Simulated {
    Simulation::simulate_v1(plan.len(), 256, None, options(validation), call_gas_limit)
        .advance(SimulateEvent::Block(Ok(Some(base()))))
        .advance(SimulateEvent::Loaded(Ok(())))
        .advance(SimulateEvent::Planned(Ok(plan)))
}

fn checked(plan: Vec<BlockPlan>, validation: bool, call_gas_limit: u64, merged: bool) -> Simulated {
    planned(plan, validation, call_gas_limit)
        .advance(SimulateEvent::Environment(Ok((cfg(), block()))))
        .advance(SimulateEvent::Merged(merged))
}

fn base() -> ParentHeader {
    ParentHeader { number: 99, hash: hash(7), difficulty: word(55) }
}

fn built(number: u64) -> ParentHeader {
    ParentHeader { number, hash: hash(9), difficulty: word(66) }
}

fn header(number: u64, gas_left: Option<u64>) -> SimulatedHeader {
    SimulatedHeader { header: built(number), gas_left }
}

#[test]
fn there_may_not_be_too_many_blocks() {
    let simulation: Simulated = Simulation::simulate_v1(3, 2, None, options(false), 0);
    assert_eq!(simulation.answer(), Some(Err(CallError::TooManyBlocks)));
    let simulation: Simulated = Simulation::simulate_v1(2, 2, None, options(false), 0);
    assert_eq!(simulation.action(), SimulateAction::LoadBlock(latest()));
}

#[test]
fn there_have_to_be_blocks() {
    let simulation: Simulated = Simulation::simulate_v1(0, 2, None, options(false), 0);
    assert_eq!(
        simulation.answer(),
        Some(Err(CallError::InvalidParams(InvalidParams::CallsEmpty)))
    );
}

#[test]
fn a_simulation_needs_its_block() {
    let simulation: Simulated = Simulation::simulate_v1(1, 2, None, options(false), 0)
        .advance(SimulateEvent::Block(Ok(None)));
    assert_eq!(simulation.answer(), Some(Err(CallError::HeaderNotFound(latest()))));
    let simulation: Simulated = Simulation::simulate_v1(1, 2, None, options(false), 0)
        .advance(SimulateEvent::Block(Ok(Some(base()))));
    assert_eq!(simulation.action(), SimulateAction::LoadState(latest()));
    let simulation = simulation.advance(SimulateEvent::Loaded(Ok(())));
    assert_eq!(simulation.action(), SimulateAction::PlanBlocks(base()));
    let simulation = simulation.advance(SimulateEvent::Planned(Err("out of order")));
    assert_eq!(simulation.answer(), Some(Err(CallError::Node("out of order"))));
}

#[test]
fn checks_depend_on_validation() {
    assert_eq!(make_simulated_cfg(cfg(), true), CfgSettings { disable_eip3607: true, ..cfg() });
    assert_eq!(
        make_simulated_cfg(cfg(), false),
        CfgSettings {
            disable_eip3607: true,
            disable_nonce_check: true,
            disable_base_fee: true,
            tx_gas_limit_cap: Some(u64::MAX),
            ..cfg()
        }
    );
}

#[test]
fn a_simulated_block_has_no_random_value() {
    assert_eq!(
        make_simulated_block(block(), true, true, word(55)),
        BlockSettings { prevrandao: Some(hash(0)), ..block() }
    );
    assert_eq!(
        make_simulated_block(block(), false, false, word(55)),
        BlockSettings { prevrandao: Some(hash(0)), basefee: 0, difficulty: word(55), ..block() }
    );
}

#[test]
fn a_gas_limit_is_too_large_above_both_limits() {
    let asked = |gas: u64| Some(overrides(Some(gas), None));
    assert!(exceeds_gas_limit(&asked(1_001), 1_000, 500));
    assert!(!exceeds_gas_limit(&asked(1_000), 1_000, 500));
    assert!(!exceeds_gas_limit(&asked(1_001), 1_000, 2_000));
    assert!(!exceeds_gas_limit(&Some(overrides(None, None)), 0, 0));
    assert!(!exceeds_gas_limit(&None, 0, 0));
}

#[test]
fn too_large_a_gas_limit_is_refused() {
    let plan = |gas: u64| BlockPlan {
        block_overrides: Some(overrides(Some(gas), None)),
        has_state_override: false,
    };
    let simulation = checked(vec![plan(1_001)], false, 500, true);
    assert_eq!(simulation.answer(), Some(Err(CallError::GasLimitReached)));
    let simulation = checked(vec![plan(1_001)], false, 2_000, true);
    assert_eq!(simulation.action(), SimulateAction::OverrideBlockHashes);
}

#[test]
fn the_merge_is_checked_at_the_number_of_the_block() {
    let simulation =
        planned(vec![plain()], false, 0).advance(SimulateEvent::Environment(Ok((cfg(), block()))));
    assert_eq!(simulation.action(), SimulateAction::CheckMerge(100));
    let large = BlockSettings { number: U256 { limbs: [5, 1, 0, 0] }, ..block() };
    let simulation =
        planned(vec![plain()], false, 0).advance(SimulateEvent::Environment(Ok((cfg(), large))));
    assert_eq!(simulation.action(), SimulateAction::CheckMerge(u64::MAX));
}

#[test]
fn a_plain_block_is_executed_within_the_gas_for_calls() {
    let simulation = planned(vec![plain()], false, 500);
    assert_eq!(simulation.action(), SimulateAction::NextEnvironment { index: 0, parent: base() });
    let simulation = checked(vec![plain()], false, 500, true);
    assert_eq!(simulation.action(), SimulateAction::MakeContext(base()));
    let simulation = simulation.advance(SimulateEvent::Context(Ok(())));
    assert_eq!(
        simulation.action(),
        SimulateAction::Execute {
            parent: base(),
            cfg: make_simulated_cfg(cfg(), false),
            block: make_simulated_block(block(), false, true, word(55)),
            trace_transfers: true,
            gas_left: Some(500),
        }
    );
    let simulation = simulation.advance(SimulateEvent::Executed(Ok(header(100, Some(20)))));
    assert_eq!(simulation.action(), SimulateAction::RecordHash { number: 100, hash: hash(9) });
    let simulation = simulation.advance(SimulateEvent::Recorded);
    assert_eq!(simulation.action(), SimulateAction::BuildBlock { full: true });
    let simulation = simulation.advance(SimulateEvent::Built(Ok("block")));
    assert_eq!(simulation.action(), SimulateAction::Finish);
    assert_eq!(simulation.answer(), Some(Ok(vec!["block"])));
}

#[test]
fn overrides_come_before_the_calls_of_a_block() {
    let plan = BlockPlan {
        block_overrides: Some(overrides(None, Some(hash(8)))),
        has_state_override: true,
    };
    let simulation = checked(vec![plan], true, 0, true);
    assert_eq!(simulation.action(), SimulateAction::OverrideBlockHashes);
    let simulation = simulation.advance(SimulateEvent::HashesOverridden);
    assert_eq!(simulation.action(), SimulateAction::OverrideState);
    let simulation = simulation.advance(SimulateEvent::StateOverridden(Ok(())));
    assert_eq!(simulation.action(), SimulateAction::MakeContext(base()));
    let simulation = simulation.advance(SimulateEvent::Context(Ok(())));
    assert_eq!(simulation.action(), SimulateAction::OverridePrecompiles);
    let simulation = simulation.advance(SimulateEvent::PrecompilesOverridden(Ok(())));
    assert_eq!(
        simulation.action(),
        SimulateAction::Execute {
            parent: base(),
            cfg: make_simulated_cfg(cfg(), true),
            block: BlockSettings { prevrandao: Some(hash(8)), ..block() },
            trace_transfers: true,
            gas_left: None,
        }
    );
}

#[test]
fn a_block_is_built_on_the_one_before() {
    let simulation = checked(vec![plain(), plain()], true, 500, false)
        .advance(SimulateEvent::Context(Ok(())))
        .advance(SimulateEvent::Executed(Ok(header(100, Some(20)))))
        .advance(SimulateEvent::Recorded)
        .advance(SimulateEvent::Built(Ok("first")));
    assert_eq!(simulation.action(), SimulateAction::NextEnvironment { index: 1, parent: built(100) });
    let simulation = simulation
        .advance(SimulateEvent::Environment(Ok((cfg(), block()))))
        .advance(SimulateEvent::Merged(false))
        .advance(SimulateEvent::Context(Ok(())));
    assert_eq!(
        simulation.action(),
        SimulateAction::Execute {
            parent: built(100),
            cfg: make_simulated_cfg(cfg(), true),
            block: BlockSettings { prevrandao: Some(hash(0)), difficulty: word(66), ..block() },
            trace_transfers: true,
            gas_left: Some(20),
        }
    );
    let simulation = simulation
        .advance(SimulateEvent::Executed(Ok(header(101, Some(0)))))
        .advance(SimulateEvent::Recorded)
        .advance(SimulateEvent::Built(Ok("second")));
    assert_eq!(simulation.answer(), Some(Ok(vec!["first", "second"])));
}

#[test]
fn a_block_that_fails_ends_the_simulation() {
    let simulation = checked(vec![plain(), plain()], false, 500, true)
        .advance(SimulateEvent::Context(Err("broken")))
        .advance(SimulateEvent::Context(Ok(())));
    assert_eq!(simulation.answer(), Some(Err(CallError::Node("broken"))));
    assert_eq!(planned(vec![plain()], false, 0).answer(), None);
}
