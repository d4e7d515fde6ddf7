use eth_call_ledger::abi::{
    parse_abi_u256_array, parse_transfer_batch, topic_to_address, u256_from_second_word, u256_from_topic,
    u256_from_word,
};
use eth_call_ledger::logs::{base_weth_address, EventTopics};
use eth_call_ledger::primitives::{Address, B256};
use eth_call_ledger::word::U256;

fn word(number: u64) -> U256 {
    U256::from_u64(number)
}

fn word_bytes(number: u64) -> [u8; 32] {
    let mut bytes = [0u8; 32];
    bytes[24..].copy_from_slice(&number.to_be_bytes());
    bytes
}

fn payload(words: &[u64]) -> Vec<u8> {
    let mut data = Vec::new();
    for number in words {
        data.extend_from_slice(&word_bytes(*number));
    }
    data
}

fn hex_of(topic: &B256) -> String {
    let mut text = String::new();
    for byte in topic.bytes {
        text.push_str(&format!("{byte:02x}"));
    }
    text
}

#[test]
fn an_address_is_the_end_of_a_topic() {
    let mut bytes = [0u8; 32];
    bytes[0] = 0xee;
    bytes[11] = 0xee;
    bytes[12] = 1;
    bytes[31] = 2;
    let mut expected = [0u8; 20];
    expected[0] = 1;
    expected[19] = 2;
    assert_eq!(topic_to_address(&B256 { bytes }), Address { bytes: expected });
}

#[test]
fn a_word_needs_32_bytes() {
    let data = payload(&[7, 8]);
    assert_eq!(u256_from_word(&data), Some(word(7)));
    assert_eq!(u256_from_word(&data[32..]), Some(word(8)));
    assert_eq!(u256_from_word(&data[..31]), None);
    assert_eq!(u256_from_word(&[]), None);
    assert_eq!(u256_from_second_word(&data), Some(word(8)));
    assert_eq!(u256_from_second_word(&data[..63]), None);
}

#[test]
fn a_topic_is_a_word() {
    assert_eq!(u256_from_topic(&B256 { bytes: word_bytes(0x1234) }), word(0x1234));
    assert_eq!(u256_from_topic(&B256 { bytes: [0xff; 32] }), U256 { limbs: [u64::MAX; 4] });
}

#[test]
fn an_array_has_its_length_before_it() {
    let data = payload(&[99, 2, 5, 6]);
    assert_eq!(parse_abi_u256_array(&data, 32), Some(vec![word(5), word(6)]));
    assert_eq!(parse_abi_u256_array(&payload(&[0]), 0), Some(vec![]));
}

#[test]
fn an_array_that_is_cut_off_is_none() {
    let data = payload(&[2, 5, 6]);
    assert_eq!(parse_abi_u256_array(&data[..95], 0), None);
    assert_eq!(parse_abi_u256_array(&data, 96), None);
    assert_eq!(parse_abi_u256_array(&data, 65), None);
    assert_eq!(parse_abi_u256_array(&data, usize::MAX), None);
}

#[test]
fn an_array_that_is_too_long_is_none() {
    assert_eq!(parse_abi_u256_array(&payload(&[u64::MAX, 1]), 0), None);
    assert_eq!(parse_abi_u256_array(&[0xff; 64], 0), None);
}

#[test]
fn an_array_need_not_start_at_a_word() {
    let mut data = vec![0u8; 5];
    data.extend_from_slice(&payload(&[1, 42]));
    assert_eq!(parse_abi_u256_array(&data, 5), Some(vec![word(42)]));
}

#[test]
fn a_batch_pairs_identifiers_with_amounts() {
    let data = payload(&[64, 160, 2, 11, 12, 2, 100, 200]);
    assert_eq!(
        parse_transfer_batch(&data),
        Some(vec![(word(11), word(100)), (word(12), word(200))])
    );
}

#[test]
fn a_batch_ends_with_the_shorter_list() {
    let data = payload(&[64, 160, 2, 11, 12, 1, 100]);
    assert_eq!(parse_transfer_batch(&data), Some(vec![(word(11), word(100))]));
}

#[test]
fn a_batch_that_points_outside_is_none() {
    assert_eq!(parse_transfer_batch(&payload(&[64])), None);
    assert_eq!(parse_transfer_batch(&payload(&[64, 512, 0])), None);
    assert_eq!(parse_transfer_batch(&[0xff; 128]), None);
}

#[test]
fn topics_are_the_hashes_of_the_events() {
    let topics = EventTopics::hashed();
    assert_eq!(
        hex_of(&topics.transfer),
        "ddf252ad1be2c89b69c2b068fc378daa952ba7f163c4a11628f55a4df523b3ef"
    );
    assert_eq!(
        hex_of(&topics.transfer_single),
        "c3d58168c5ae7397731d063d5bbf3d657854427343f4c083240f7aacaa2d0f62"
    );
    assert_eq!(
        hex_of(&topics.transfer_batch),
        "4a39dc06d4c0dbc64b70af90fd698a233a518aa5d07e595d983b8c0526c8f7fb"
    );
    assert_eq!(
        hex_of(&topics.deposit),
        "e1fffcc4923d04b559f4d29a8bfc6cda04eb5b0d3c460751c2402c5c5cc9109c"
    );
    assert_eq!(
        hex_of(&topics.withdrawal),
        "7fcf532c15f0a6db0bd6d0e038bea71d30d808c7d98cb3bf7268a95bf5081b65"
    );
}

#[test]
fn wrapped_ether_has_its_address() {
    let mut bytes = [0u8; 20];
    bytes[0] = 0x42;
    bytes[19] = 6;
    assert_eq!(base_weth_address(), Address { bytes });
}
