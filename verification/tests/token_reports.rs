use eth_call_ledger::ledger::{
    add_erc1155_change, add_erc20_change, add_erc721_change, CallSequenceErc1155TokenChange,
    CallSequenceErc721TokenChange, Erc1155Changes, Erc20Changes, Erc721Changes,
};
use eth_call_ledger::logs::{base_weth_address, CallSequenceLog, EventTopics};
use eth_call_ledger::amount::SignedAmount;
use eth_call_ledger::primitives::{Address, B256};
use eth_call_ledger::table::Table;
use eth_call_ledger::token_changes::{extract_token_changes, token_changes};
use eth_call_ledger::word::U256;

fn account(number: u8) -> Address {
    Address { bytes: [number; 20] }
}

fn token() -> Address {
    account(0x77)
}

fn topic_of(address: &Address) -> B256 {
    let mut bytes = [0u8; 32];
    bytes[12..].copy_from_slice(&address.bytes);
    B256 { bytes }
}

fn word_bytes(number: u64) -> [u8; 32] {
    let mut bytes = [0u8; 32];
    bytes[24..].copy_from_slice(&number.to_be_bytes());
    bytes
}

fn payload(words: &[u64]) -> Vec<u8> {
    let mut data = Vec::new();
    for number in words {
        data.extend_from_slice(&word_bytes(*number));
    }
    data
}

fn transfer(from: &Address, to: &Address, amount: u64) -> CallSequenceLog {
    CallSequenceLog {
        address: token(),
        topics: vec![EventTopics::hashed().transfer, topic_of(from), topic_of(to)],
        data: payload(&[amount]),
    }
}

fn nft_transfer(from: &Address, to: &Address, id: u64) -> CallSequenceLog {
    CallSequenceLog {
        address: token(),
        topics: vec![
            EventTopics::hashed().transfer,
            topic_of(from),
            topic_of(to),
            B256 { bytes: word_bytes(id) },
        ],
        data: vec![],
    }
}

fn single(from: &Address, to: &Address, id: u64, amount: u64) -> CallSequenceLog {
    CallSequenceLog {
        address: token(),
        topics: vec![
            EventTopics::hashed().transfer_single,
            topic_of(&account(9)),
            topic_of(from),
            topic_of(to),
        ],
        data: payload(&[id, amount]),
    }
}

fn batch(from: &Address, to: &Address, words: &[u64]) -> CallSequenceLog {
    CallSequenceLog {
        address: token(),
        topics: vec![
            EventTopics::hashed().transfer_batch,
            topic_of(&account(9)),
            topic_of(from),
            topic_of(to),
        ],
        data: payload(words),
    }
}

fn erc20_of<'a>(changes: &'a Erc20Changes, owner: &Address, contract: &Address) -> Option<&'a str> {
    changes.get(owner).and_then(|tokens| tokens.get(contract)).map(|text| text.as_str())
}

fn erc721_of(changes: &Erc721Changes, owner: &Address) -> Vec<CallSequenceErc721TokenChange> {
    changes.get(owner).and_then(|tokens| tokens.get(&token())).cloned().unwrap_or_default()
}

fn erc1155_of(changes: &Erc1155Changes, owner: &Address) -> Vec<CallSequenceErc1155TokenChange> {
    let mut list =
        changes.get(owner).and_then(|tokens| tokens.get(&token())).cloned().unwrap_or_default();
    list.sort_by(|left, right| left.token_id.cmp(&right.token_id));
    list
}

fn erc1155(token_id: &str, change: &str) -> CallSequenceErc1155TokenChange {
    CallSequenceErc1155TokenChange { token_id: token_id.to_string(), change: change.to_string() }
}

#[test]
fn a_transfer_moves_from_one_account_to_another() {
    let (erc20, erc721, erc1155) = extract_token_changes(&[transfer(&account(1), &account(2), 300)]);
    assert_eq!(erc20_of(&erc20, &account(1), &token()), Some("-0x12c"));
    assert_eq!(erc20_of(&erc20, &account(2), &token()), Some("0x12c"));
    assert_eq!(erc20.len(), 2);
    assert!(erc721.is_empty());
    assert!(erc1155.is_empty());
}

#[test]
fn transfers_add_up() {
    let logs = [
        transfer(&account(1), &account(2), 300),
        transfer(&account(2), &account(3), 100),
        transfer(&account(1), &account(2), 1),
    ];
    let (erc20, _, _) = extract_token_changes(&logs);
    assert_eq!(erc20_of(&erc20, &account(1), &token()), Some("-0x12d"));
    assert_eq!(erc20_of(&erc20, &account(2), &token()), Some("0xc9"));
    assert_eq!(erc20_of(&erc20, &account(3), &token()), Some("0x64"));
}

#[test]
fn what_cancels_out_is_not_reported() {
    let logs =
        [transfer(&account(1), &account(2), 300), transfer(&account(2), &account(1), 300)];
    let (erc20, _, _) = extract_token_changes(&logs);
    assert!(erc20.is_empty());
    let (erc20, _, _) = extract_token_changes(&[transfer(&account(1), &account(1), 5)]);
    assert!(erc20.is_empty());
    let (erc20, _, _) = extract_token_changes(&[transfer(&account(1), &account(2), 0)]);
    assert!(erc20.is_empty());
}

#[test]
fn the_zero_address_is_not_reported() {
    let zero = Address::zero();
    let (erc20, _, _) = extract_token_changes(&[transfer(&zero, &account(2), 8)]);
    assert_eq!(erc20_of(&erc20, &account(2), &token()), Some("0x8"));
    assert_eq!(erc20.len(), 1);
    let (_, erc721, _) = extract_token_changes(&[nft_transfer(&account(2), &zero, 8)]);
    assert_eq!(erc721.len(), 1);
    let (_, _, erc1155_changes) = extract_token_changes(&[single(&zero, &account(2), 8, 9)]);
    assert_eq!(erc1155_changes.len(), 1);
    assert_eq!(erc1155_of(&erc1155_changes, &account(2)), vec![erc1155("8", "9")]);
}

#[test]
fn a_token_that_is_handed_on_is_listed_in_order() {
    let logs = [
        nft_transfer(&account(1), &account(2), 255),
        nft_transfer(&account(2), &account(3), 255),
        nft_transfer(&account(1), &account(2), 16),
    ];
    let (erc20, erc721, _) = extract_token_changes(&logs);
    assert!(erc20.is_empty());
    let change = |token_id: &str, received: bool| CallSequenceErc721TokenChange {
        token_id: token_id.to_string(),
        received,
    };
    assert_eq!(erc721_of(&erc721, &account(1)), vec![change("255", false), change("16", false)]);
    assert_eq!(
        erc721_of(&erc721, &account(2)),
        vec![change("255", true), change("255", false), change("16", true)]
    );
    assert_eq!(erc721_of(&erc721, &account(3)), vec![change("255", true)]);
}

#[test]
fn a_single_transfer_names_its_token() {
    let (_, _, changes) = extract_token_changes(&[single(&account(1), &account(2), 31, 17)]);
    assert_eq!(erc1155_of(&changes, &account(1)), vec![erc1155("31", "-17")]);
    assert_eq!(erc1155_of(&changes, &account(2)), vec![erc1155("31", "17")]);
    assert_eq!(changes.len(), 2);
}

#[test]
fn a_batch_is_its_singles() {
    let (_, _, of_batch) = extract_token_changes(&[batch(
        &account(1),
        &account(2),
        &[64, 160, 2, 11, 12, 2, 100, 200],
    )]);
    let (_, _, of_singles) = extract_token_changes(&[
        single(&account(1), &account(2), 11, 100),
        single(&account(1), &account(2), 12, 200),
    ]);
    for owner in [account(1), account(2)] {
        assert_eq!(erc1155_of(&of_batch, &owner), erc1155_of(&of_singles, &owner));
    }
    assert_eq!(
        erc1155_of(&of_batch, &account(2)),
        vec![erc1155("11", "100"), erc1155("12", "200")]
    );
}

#[test]
fn a_token_of_a_batch_that_cancels_out_is_left_out() {
    let logs = [
        batch(&account(1), &account(2), &[64, 160, 2, 11, 12, 2, 100, 200]),
        single(&account(2), &account(1), 11, 100),
    ];
    let (_, _, changes) = extract_token_changes(&logs);
    assert_eq!(erc1155_of(&changes, &account(1)), vec![erc1155("12", "-200")]);
    assert_eq!(erc1155_of(&changes, &account(2)), vec![erc1155("12", "200")]);
}

#[test]
fn deposits_and_withdrawals_count_for_wrapped_ether_alone() {
    let topics = EventTopics::hashed();
    let log = |address: Address, topic: B256, amount: u64| CallSequenceLog {
        address,
        topics: vec![topic, topic_of(&account(1))],
        data: payload(&[amount]),
    };
    let weth = base_weth_address();
    let (erc20, _, _) = extract_token_changes(&[
        log(weth, topics.deposit, 50),
        log(weth, topics.withdrawal, 20),
        log(token(), topics.deposit, 999),
        log(token(), topics.withdrawal, 999),
    ]);
    assert_eq!(erc20_of(&erc20, &account(1), &weth), Some("0x1e"));
    assert_eq!(erc20_of(&erc20, &account(1), &token()), None);
    let (erc20, _, _) =
        extract_token_changes(&[log(weth, topics.deposit, 50), log(weth, topics.withdrawal, 50)]);
    assert!(erc20.is_empty());
}

#[test]
fn logs_that_do_not_fit_move_nothing() {
    let topics = EventTopics::hashed();
    let from = topic_of(&account(1));
    let to = topic_of(&account(2));
    let log = |list: Vec<B256>, data: Vec<u8>| CallSequenceLog { address: token(), topics: list, data };
    let logs = [
        log(vec![], payload(&[1])),
        log(vec![from, from, to], payload(&[1])),
        log(vec![topics.transfer, from], payload(&[1])),
        log(vec![topics.transfer, from, to], vec![0; 31]),
        log(vec![topics.transfer_single, from, to], payload(&[1, 2])),
        log(vec![topics.transfer_single, from, from, to], payload(&[1])),
        log(vec![topics.transfer_batch, from, to], payload(&[64, 128, 1, 1, 1, 1])),
        log(vec![topics.transfer_batch, from, from, to], payload(&[64, 999])),
    ];
    let (erc20, erc721, erc1155_changes) = extract_token_changes(&logs);
    assert!(erc20.is_empty());
    assert!(erc721.is_empty());
    assert!(erc1155_changes.is_empty());
}

#[test]
fn other_topics_can_stand_for_the_events() {
    let topics = EventTopics {
        transfer: B256 { bytes: [1; 32] },
        transfer_single: B256 { bytes: [2; 32] },
        transfer_batch: B256 { bytes: [3; 32] },
        deposit: B256 { bytes: [4; 32] },
        withdrawal: B256 { bytes: [5; 32] },
    };
    let log = CallSequenceLog {
        address: token(),
        topics: vec![B256 { bytes: [1; 32] }, topic_of(&account(1)), topic_of(&account(2))],
        data: payload(&[16]),
    };
    let (erc20, _, _) = token_changes(&topics, &[log.clone()]);
    assert_eq!(erc20_of(&erc20, &account(2), &token()), Some("0x10"));
    let (erc20, _, _) = extract_token_changes(&[log]);
    assert!(erc20.is_empty());
}

#[test]
fn changes_are_kept_by_owner_and_token() {
    let gain = SignedAmount { negative: false, magnitude: U256::from_u64(5) };
    let loss = SignedAmount { negative: true, magnitude: U256::from_u64(2) };
    let mut erc20 = Table::new();
    add_erc20_change(&mut erc20, account(1), token(), SignedAmount::default());
    assert!(erc20.is_empty());
    add_erc20_change(&mut erc20, account(1), token(), gain);
    add_erc20_change(&mut erc20, account(1), token(), loss);
    let net = erc20.get(&account(1)).and_then(|tokens| tokens.get(&token())).copied();
    assert_eq!(net, Some(SignedAmount { negative: false, magnitude: U256::from_u64(3) }));

    let mut erc1155_amounts = Table::new();
    let id = U256::from_u64(7);
    add_erc1155_change(&mut erc1155_amounts, account(1), token(), id, SignedAmount::default());
    assert!(erc1155_amounts.is_empty());
    add_erc1155_change(&mut erc1155_amounts, account(1), token(), id, loss);
    let net = erc1155_amounts
        .get(&account(1))
        .and_then(|tokens| tokens.get(&token()))
        .and_then(|ids| ids.get(&id))
        .copied();
    assert_eq!(net, Some(loss));

    let mut erc721 = Table::new();
    let change = CallSequenceErc721TokenChange { token_id: "7".to_string(), received: true };
    add_erc721_change(&mut erc721, account(1), token(), change.clone());
    assert_eq!(erc721_of(&erc721, &account(1)), vec![change]);
}

#[test]
fn a_table_has_each_key_once() {
    let table: Table<Address, String> = Table::new();
    let table = table.insert(account(1), "one".to_string());
    let table = table.insert(account(2), "two".to_string());
    let table = table.insert(account(1), "uno".to_string());
    assert_eq!(table.len(), 2);
    assert_eq!(table.get(&account(1)), Some(&"uno".to_string()));
    let (table, taken) = table.take(&account(1));
    assert_eq!(taken, Some("uno".to_string()));
    assert_eq!(table.get(&account(1)), None);
    assert_eq!(table.into_entries(), vec![(account(2), "two".to_string())]);
}

#[test]
fn a_log_that_does_not_fit_is_skipped_among_others() {
    let mut short = transfer(&account(1), &account(2), 300);
    short.data = vec![0; 31];
    let logs = [transfer(&account(1), &account(2), 5), short, transfer(&account(2), &account(1), 2)];
    let (erc20, _, _) = extract_token_changes(&logs);
    assert_eq!(erc20_of(&erc20, &account(1), &token()), Some("-0x3"));
    assert_eq!(erc20_of(&erc20, &account(2), &token()), Some("0x3"));
}

#[test]
fn the_order_of_logs_does_not_matter() {
    let logs = [
        transfer(&account(1), &account(2), 300),
        nft_transfer(&account(2), &account(3), 16),
        single(&account(3), &account(1), 31, 17),
        transfer(&account(2), &account(1), 100),
        single(&account(1), &account(3), 31, 20),
    ];
    let mut reversed = logs.clone();
    reversed.reverse();
    let (erc20, erc721, erc1155_changes) = extract_token_changes(&logs);
    let (other20, other721, other1155) = extract_token_changes(&reversed);
    for owner in [account(1), account(2), account(3)] {
        assert_eq!(erc20_of(&erc20, &owner, &token()), erc20_of(&other20, &owner, &token()));
        assert_eq!(erc721_of(&erc721, &owner), erc721_of(&other721, &owner));
        assert_eq!(erc1155_of(&erc1155_changes, &owner), erc1155_of(&other1155, &owner));
    }
    assert_eq!(erc20_of(&erc20, &account(1), &token()), Some("-0xc8"));
    assert_eq!(erc1155_of(&erc1155_changes, &account(3)), vec![erc1155("31", "3")]);
}

#[test]
fn what_some_lose_others_gain() {
    let logs = [
        transfer(&account(1), &account(2), 9),
        transfer(&account(1), &account(3), 4),
        transfer(&account(3), &account(2), 1),
    ];
    let (erc20, _, _) = extract_token_changes(&logs);
    assert_eq!(erc20_of(&erc20, &account(1), &token()), Some("-0xd"));
    assert_eq!(erc20_of(&erc20, &account(2), &token()), Some("0xa"));
    assert_eq!(erc20_of(&erc20, &account(3), &token()), Some("0x3"));
}
