use eth_call_ledger::access_list::{
    make_access_list_cfg, AccessListAction, AccessListEvent, AccessListItem, AccessListRequest,
    AccessListResult, GasReport,
};
use eth_call_ledger::errors::CallError;
use eth_call_ledger::primitives::{Address, B256};
use eth_call_ledger::settings::{CfgSettings, InsufficientFunds, RequestSettings, TxSettings};
use eth_call_ledger::word::U256;

type Request = AccessListRequest<&'static str>;

fn word(number: u64) -> U256 {
    U256::from_u64(number)
}

fn account(number: u8) -> Address {
    Address { bytes: [number; 20] }
}

fn cfg() -> CfgSettings {
    CfgSettings {
        disable_eip3607: false,
        disable_nonce_check: false,
        disable_base_fee: false,
        disable_block_gas_limit: false,
        disable_fee_charge: false,
        tx_gas_limit_cap: Some(7),
        memory_limit: 1,
    }
}

fn unchecked() -> CfgSettings {
    CfgSettings {
        disable_eip3607: true,
        disable_base_fee: true,
        disable_block_gas_limit: true,
        disable_fee_charge: true,
        tx_gas_limit_cap: Some(u64::MAX),
        ..cfg()
    }
}

fn request(gas_limit: Option<u64>, nonce: Option<u64>) -> RequestSettings {
    RequestSettings { gas_limit, nonce, from: Some(account(1)) }
}

fn tx(gas_price: u128) -> TxSettings {
    TxSettings { caller: account(1), value: word(10), gas_price, gas_limit: 1_000 }
}

fn items() -> Vec<AccessListItem> {
    vec![AccessListItem { address: account(5), storage_keys: vec![B256 { bytes: [1; 32] }] }]
}

fn report(gas_used: u64, error: Option<&str>) -> GasReport {
    GasReport { gas_used, error: error.map(|text| text.to_string()) }
}

fn built(gas_limit: Option<u64>, gas_price: u128) -> Request {
    AccessListRequest::create_access_list_with(cfg(), 500, request(gas_limit, Some(2)), false)
        .advance(AccessListEvent::Built(Ok(tx(gas_price))))
}

#[test]
fn checks_are_switched_off_for_access_lists() {
    assert_eq!(make_access_list_cfg(cfg()), unchecked());
}

#[test]
fn a_request_keeps_its_nonce() {
    let made: Request =
        AccessListRequest::create_access_list_with(cfg(), 500, request(None, Some(2)), false);
    assert_eq!(
        made.action(),
        AccessListAction::BuildTx { cfg: cfg(), request: request(None, Some(2)) }
    );
}

#[test]
fn a_request_without_a_nonce_takes_that_of_its_sender() {
    let made: Request = AccessListRequest::create_access_list_with(cfg(), 500, request(None, None), true);
    assert_eq!(made.action(), AccessListAction::OverrideState);
    let made = made.advance(AccessListEvent::StateOverridden(Ok(())));
    assert_eq!(made.action(), AccessListAction::ReadNonce(account(1)));
    let made = made.advance(AccessListEvent::Nonce(Ok(Some(4))));
    assert_eq!(
        made.action(),
        AccessListAction::BuildTx { cfg: cfg(), request: request(None, Some(4)) }
    );
}

#[test]
fn gas_is_capped_by_balance_and_block() {
    let made = built(None, 7);
    assert_eq!(made.action(), AccessListAction::ReadBalance(account(1)));
    let made = made.advance(AccessListEvent::Balance(Ok(Some(word(110)))));
    let capped = TxSettings { gas_limit: 14, ..tx(7) };
    assert_eq!(made.action(), AccessListAction::Inspect { cfg: unchecked(), tx: capped });
    let made = built(None, 7).advance(AccessListEvent::Balance(Ok(Some(word(100_000)))));
    let capped = TxSettings { gas_limit: 500, ..tx(7) };
    assert_eq!(made.action(), AccessListAction::Inspect { cfg: unchecked(), tx: capped });
    let made = built(None, 7).advance(AccessListEvent::Balance(Ok(None)));
    assert_eq!(
        made.answer(),
        Some(Err(CallError::InsufficientFunds(InsufficientFunds { cost: word(10), balance: word(0) })))
    );
}

#[test]
fn gas_without_a_price_or_with_a_limit_is_not_capped() {
    assert_eq!(
        built(None, 0).action(),
        AccessListAction::Inspect { cfg: unchecked(), tx: tx(0) }
    );
    assert_eq!(
        built(Some(1_000), 7).action(),
        AccessListAction::Inspect { cfg: unchecked(), tx: tx(7) }
    );
}

#[test]
fn gas_is_that_of_the_second_execution() {
    let made = built(Some(1_000), 7)
        .advance(AccessListEvent::Inspected(Ok((items(), report(900, None)))));
    assert_eq!(
        made.action(),
        AccessListAction::Execute { cfg: unchecked(), tx: tx(7), access_list: &items() }
    );
    let made = made.advance(AccessListEvent::Executed(Ok(report(800, Some("execution reverted")))));
    assert_eq!(
        made.answer(),
        Some(Ok(AccessListResult {
            access_list: items(),
            gas_used: word(800),
            error: Some("execution reverted".to_string()),
        }))
    );
}

#[test]
fn a_call_that_fails_is_not_repeated() {
    let made = built(Some(1_000), 7)
        .advance(AccessListEvent::Inspected(Ok((items(), report(900, Some("execution reverted"))))));
    assert_eq!(made.action(), AccessListAction::Finish);
    assert_eq!(
        made.answer(),
        Some(Ok(AccessListResult {
            access_list: items(),
            gas_used: word(900),
            error: Some("execution reverted".to_string()),
        }))
    );
}

#[test]
fn a_node_that_fails_ends_the_request() {
    let made = built(Some(1_000), 7).advance(AccessListEvent::Inspected(Err("broken")));
    assert_eq!(made.answer(), Some(Err(CallError::Node("broken"))));
    assert_eq!(built(None, 7).answer(), None);
}
