use eth_call_ledger::errors::{unless_cancelled, CallError, InvalidParams};
use eth_call_ledger::prepare::{
    apply_allowance, make_call_block, make_call_cfg, make_call_request, nonce_account, set_nonce, CallLimits,
    CallPreparation, PrepareAction, PrepareEvent, PreparePhase, PreparedCall,
};
use eth_call_ledger::primitives::{Address, B256};
use eth_call_ledger::settings::{
    apply_block_overrides, caller_gas_allowance, cap_gas, BlobGas, BlockOverrides, BlockSettings, CfgSettings,
    InsufficientFunds, RequestSettings, TxSettings,
};
use eth_call_ledger::word::U256;

type Preparation = CallPreparation<&'static str>;

fn word(number: u64) -> U256 {
    U256::from_u64(number)
}

fn account(number: u8) -> Address {
    Address { bytes: [number; 20] }
}

fn cfg() -> CfgSettings {
    CfgSettings {
        disable_eip3607: false,
        disable_nonce_check: false,
        disable_base_fee: false,
        disable_block_gas_limit: false,
        disable_fee_charge: false,
        tx_gas_limit_cap: None,
        memory_limit: 1,
    }
}

fn block() -> BlockSettings {
    BlockSettings {
        number: word(100),
        gas_limit: 30_000_000,
        basefee: 7,
        difficulty: word(3),
        prevrandao: None,
        timestamp: word(1_700_000_000),
        beneficiary: account(0xbe),
        blob: Some(BlobGas { excess: 131_072, price: 3 }),
    }
}

fn no_overrides() -> BlockOverrides {
    BlockOverrides {
        number: None,
        difficulty: None,
        gas_limit: None,
        random: None,
        base_fee: None,
        time: None,
        coinbase: None,
        blob_base_fee: None,
    }
}

fn request(gas_limit: Option<u64>) -> RequestSettings {
    RequestSettings { gas_limit, nonce: Some(5), from: Some(account(1)) }
}

fn limits() -> CallLimits {
    CallLimits { call_gas_limit: 50_000, evm_memory_limit: 4096 }
}

fn tx(gas_price: u128) -> TxSettings {
    TxSettings { caller: account(1), value: word(10), gas_price, gas_limit: 50_000 }
}

#[test]
fn overrides_replace_parts_of_a_block() {
    let overrides = BlockOverrides {
        number: Some(U256 { limbs: [1, 2, 3, 4] }),
        difficulty: Some(word(44)),
        gas_limit: Some(45),
        random: Some(B256 { bytes: [9; 32] }),
        base_fee: Some(word(46)),
        time: Some(47),
        coinbase: Some(account(8)),
        blob_base_fee: Some(word(48)),
    };
    assert_eq!(
        apply_block_overrides(block(), overrides),
        BlockSettings {
            number: U256 { limbs: [1, 2, 3, 4] },
            gas_limit: 45,
            basefee: 46,
            difficulty: word(44),
            prevrandao: Some(B256 { bytes: [9; 32] }),
            timestamp: word(47),
            beneficiary: account(8),
            blob: Some(BlobGas { excess: 131_072, price: 48 }),
        }
    );
}

#[test]
fn what_is_not_overridden_is_kept() {
    assert_eq!(apply_block_overrides(block(), no_overrides()), block());
    let random = BlockSettings { prevrandao: Some(B256 { bytes: [4; 32] }), ..block() };
    assert_eq!(apply_block_overrides(random, no_overrides()), random);
}

#[test]
fn a_base_fee_that_is_too_large_is_cut_off() {
    let overrides = BlockOverrides { base_fee: Some(U256 { limbs: [0, 1, 0, 0] }), ..no_overrides() };
    assert_eq!(apply_block_overrides(block(), overrides).basefee, u64::MAX);
}

#[test]
fn a_price_of_blob_gas_can_be_given_where_there_was_none() {
    let overrides =
        BlockOverrides { blob_base_fee: Some(U256 { limbs: [5, 6, 0, 0] }), ..no_overrides() };
    let without = BlockSettings { blob: None, ..block() };
    let price = 6 * (1u128 << 64) + 5;
    assert_eq!(apply_block_overrides(without, overrides).blob, Some(BlobGas { excess: 0, price }));
    let large =
        BlockOverrides { blob_base_fee: Some(U256 { limbs: [0, 0, 1, 0] }), ..no_overrides() };
    assert_eq!(
        apply_block_overrides(block(), large).blob,
        Some(BlobGas { excess: 131_072, price: u128::MAX })
    );
    assert_eq!(apply_block_overrides(without, no_overrides()).blob, None);
}

#[test]
fn gas_is_capped_at_the_limit_for_calls() {
    assert_eq!(cap_gas(Some(60_000), 50_000), 50_000);
    assert_eq!(cap_gas(Some(40_000), 50_000), 40_000);
    assert_eq!(cap_gas(Some(60_000), 0), 60_000);
    assert_eq!(cap_gas(None, 50_000), 50_000);
    assert_eq!(cap_gas(None, 0), 0);
}

#[test]
fn allowance_is_what_the_rest_of_the_balance_pays_for() {
    assert_eq!(caller_gas_allowance(Some(word(110)), word(10), 7), Ok(14));
    assert_eq!(caller_gas_allowance(Some(word(10)), word(10), 7), Ok(0));
    assert_eq!(caller_gas_allowance(Some(word(110)), word(10), 0), Ok(0));
    assert_eq!(caller_gas_allowance(None, word(0), 7), Ok(0));
    assert_eq!(caller_gas_allowance(Some(U256 { limbs: [0, 2, 0, 0] }), word(0), 1), Ok(u64::MAX));
}

#[test]
fn a_value_above_the_balance_cannot_be_paid() {
    assert_eq!(
        caller_gas_allowance(Some(word(9)), word(10), 1),
        Err(InsufficientFunds { cost: word(10), balance: word(9) })
    );
    assert_eq!(
        caller_gas_allowance(None, word(1), 1),
        Err(InsufficientFunds { cost: word(1), balance: word(0) })
    );
}

#[test]
fn a_transaction_is_paid_for_and_fits_the_block() {
    let allowed = apply_allowance(tx(7), Some(word(110)), 30).unwrap();
    assert_eq!(allowed, TxSettings { gas_limit: 14, ..tx(7) });
    let allowed = apply_allowance(tx(7), Some(word(1000)), 30).unwrap();
    assert_eq!(allowed, TxSettings { gas_limit: 30, ..tx(7) });
}

#[test]
fn checks_are_switched_off_for_calls() {
    let expected = CfgSettings {
        disable_eip3607: true,
        disable_nonce_check: false,
        disable_base_fee: true,
        disable_block_gas_limit: true,
        disable_fee_charge: true,
        tx_gas_limit_cap: Some(u64::MAX),
        memory_limit: 4096,
    };
    assert_eq!(make_call_cfg(cfg(), limits()), expected);
    assert_eq!(make_call_cfg(make_call_cfg(cfg(), limits()), limits()), expected);
}

#[test]
fn the_block_of_a_call_has_the_gas_limit_for_calls() {
    assert_eq!(make_call_block(block(), limits(), None), BlockSettings { gas_limit: 50_000, ..block() });
    let overrides = BlockOverrides { gas_limit: Some(77), ..no_overrides() };
    assert_eq!(make_call_block(block(), limits(), Some(overrides)).gas_limit, 77);
}

#[test]
fn the_nonce_of_a_call_is_that_of_the_account() {
    let made = make_call_request(request(Some(60_000)), limits());
    assert_eq!(
        made,
        RequestSettings { gas_limit: Some(50_000), nonce: None, from: Some(account(1)) }
    );
    assert_eq!(make_call_request(made, limits()), made);
    assert_eq!(nonce_account(&made), Some(account(1)));
    assert_eq!(nonce_account(&request(None)), None);
    assert_eq!(
        nonce_account(&RequestSettings { gas_limit: None, nonce: None, from: None }),
        Some(Address::zero())
    );
    assert_eq!(set_nonce(made, Some(12)).nonce, Some(12));
    assert_eq!(set_nonce(made, None).nonce, Some(0));
}

#[test]
fn a_call_with_a_gas_limit_is_prepared() {
    let call: Preparation =
        CallPreparation::prepare_call_env(cfg(), block(), request(Some(40_000)), limits(), None, false);
    assert_eq!(call.action(), PrepareAction::ReadNonce(account(1)));
    let call = call.advance(PrepareEvent::Nonce(Ok(Some(12))));
    assert_eq!(
        call.action(),
        PrepareAction::BuildTx {
            cfg: make_call_cfg(cfg(), limits()),
            block: BlockSettings { gas_limit: 50_000, ..block() },
            request: RequestSettings { gas_limit: Some(40_000), nonce: Some(12), from: Some(account(1)) },
        }
    );
    let call = call.advance(PrepareEvent::Built(Ok(tx(9))));
    assert_eq!(call.action(), PrepareAction::Finish);
    match call.phase {
        PreparePhase::Finished(Ok(prepared)) => assert_eq!(
            prepared,
            PreparedCall {
                cfg: make_call_cfg(cfg(), limits()),
                block: BlockSettings { gas_limit: 50_000, ..block() },
                tx: tx(9),
            }
        ),
        _ => panic!("not prepared"),
    }
}

#[test]
fn overrides_come_before_the_transaction() {
    let overrides = BlockOverrides { base_fee: Some(word(3)), ..no_overrides() };
    let call: Preparation =
        CallPreparation::prepare_call_env(cfg(), block(), request(None), limits(), Some(overrides), true);
    assert_eq!(call.action(), PrepareAction::OverrideBlockHashes);
    let call = call.advance(PrepareEvent::HashesOverridden);
    assert_eq!(call.action(), PrepareAction::OverrideState);
    let call = call.advance(PrepareEvent::StateOverridden(Ok(())));
    assert_eq!(call.action(), PrepareAction::ReadNonce(account(1)));
    let call = call.advance(PrepareEvent::Nonce(Ok(None)));
    let call = call.advance(PrepareEvent::Built(Ok(tx(0))));
    match call.phase {
        PreparePhase::Finished(Ok(prepared)) => {
            assert_eq!(prepared.block.basefee, 0);
            assert_eq!(prepared.tx, tx(0));
        }
        _ => panic!("not prepared"),
    }
}

#[test]
fn a_call_without_a_gas_limit_is_capped_by_the_balance() {
    let start = || -> Preparation {
        CallPreparation::prepare_call_env(cfg(), block(), request(None), limits(), None, false)
            .advance(PrepareEvent::Nonce(Ok(None)))
            .advance(PrepareEvent::Built(Ok(tx(7))))
    };
    assert_eq!(start().action(), PrepareAction::ReadBalance(account(1)));
    match start().advance(PrepareEvent::Balance(Ok(Some(word(110))))).phase {
        PreparePhase::Finished(Ok(prepared)) => assert_eq!(prepared.tx.gas_limit, 14),
        _ => panic!("not prepared"),
    }
    match start().advance(PrepareEvent::Balance(Ok(Some(word(9))))).phase {
        PreparePhase::Finished(Err(error)) => assert_eq!(
            error,
            CallError::InsufficientFunds(InsufficientFunds { cost: word(10), balance: word(9) })
        ),
        _ => panic!("no error"),
    }
    match start().advance(PrepareEvent::Balance(Err("broken"))).phase {
        PreparePhase::Finished(Err(error)) => assert_eq!(error, CallError::Node("broken")),
        _ => panic!("no error"),
    }
}

#[test]
fn an_event_out_of_turn_does_nothing() {
    let call: Preparation =
        CallPreparation::prepare_call_env(cfg(), block(), request(None), limits(), None, false);
    let call = call.advance(PrepareEvent::Built(Ok(tx(7))));
    assert_eq!(call.action(), PrepareAction::ReadNonce(account(1)));
}

#[test]
fn errors_say_what_is_missing() {
    assert_eq!(InvalidParams::CallsEmpty.message(), "calls are empty.");
    assert_eq!(InvalidParams::BundlesEmpty.message(), "bundles are empty.");
}

#[test]
fn no_call_is_made_once_it_is_cancelled() {
    assert_eq!(unless_cancelled::<&str>(true), Err(CallError::Cancelled));
    assert_eq!(unless_cancelled::<&str>(false), Ok(()));
}
