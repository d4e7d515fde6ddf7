//! Words, addresses and arrays in ABI-encoded event data.

use crate::primitives::{Address, B256};
use crate::word::{be_value, word_limit, U256};
use vstd::prelude::*;

verus! {

/// The word that starts at a position of the data.
pub open spec fn word_at(data: Seq<u8>, at: int) -> nat {
    be_value(data.subrange(at, at + 32))
}

/// The address in the last 20 bytes of a topic.
pub open spec fn address_of(topic: Seq<u8>) -> Seq<u8> {
    topic.subrange(12, 32)
}

/// The array of words at an offset: a word with the number of elements, then the
/// elements. There is none if the data ends before the array does.
pub open spec fn abi_array(data: Seq<u8>, offset: nat) -> Option<Seq<nat>> {
    let count = word_at(data, offset as int);
    if offset + 32 > data.len() || offset + 32 + 32 * count > data.len() {
        None
    } else {
        Some(Seq::new(count, |i: int| word_at(data, offset + 32 + 32 * i)))
    }
}

/// The identifiers and amounts of a batch transfer: two arrays, found through the
/// offsets in the first two words, paired up to the end of the shorter one.
pub open spec fn transfer_batch(data: Seq<u8>) -> Option<Seq<(nat, nat)>> {
    if data.len() < 64 {
        None
    } else {
        match (abi_array(data, word_at(data, 0)), abi_array(data, word_at(data, 32))) {
            (Some(ids), Some(values)) => Some(paired(ids, values)),
            _ => None,
        }
    }
}

/// Two sequences side by side, up to the end of the shorter one.
pub open spec fn paired(ids: Seq<nat>, values: Seq<nat>) -> Seq<(nat, nat)> {
    Seq::new(
        if ids.len() <= values.len() {
            ids.len()
        } else {
            values.len()
        },
        |i: int| (ids[i], values[i]),
    )
}

/// The values of a list of words.
pub open spec fn word_values(words: Seq<U256>) -> Seq<nat> {
    Seq::new(words.len(), |i: int| words[i]@)
}

/// The values of a list of pairs of words.
pub open spec fn pair_values(pairs: Seq<(U256, U256)>) -> Seq<(nat, nat)> {
    Seq::new(pairs.len(), |i: int| (pairs[i].0@, pairs[i].1@))
}

/// The address in the last 20 bytes of a topic.
pub fn topic_to_address(topic: &B256) -> (address: Address)
    ensures
        address@ == address_of(topic@),
{
    let mut bytes = [0u8; 20];
    let mut i: usize = 0;
    while i < 20
        invariant
            i <= 20,
            forall|j: int| 0 <= j < i ==> bytes@[j] == topic.bytes@[j + 12],
        decreases 20 - i,
    {
        bytes[i] = topic.bytes[i + 12];
        i = i + 1;
    }
    let address = Address { bytes };
    assert(address@ =~= address_of(topic@));
    address
}

/// The word that starts at a position of the data.
fn read_word(data: &[u8], at: usize) -> (word: U256)
    requires
        at + 32 <= data@.len(),
    ensures
        word@ == word_at(data@, at as int),
{
    let length: usize = data.len();
    let mut bytes = [0u8; 32];
    let mut i: usize = 0;
    while i < 32
        invariant
            i <= 32,
            at + 32 <= length,
            length == data@.len(),
            forall|j: int| 0 <= j < i ==> bytes@[j] == data@[at + j],
        decreases 32 - i,
    {
        bytes[i] = data[at + i];
        i = i + 1;
    }
    assert(bytes@ =~= data@.subrange(at as int, at + 32));
    U256::from_be_bytes(bytes)
}

/// The word that the data starts with.
pub fn u256_from_word(data: &[u8]) -> (word: Option<U256>)
    ensures
        word is Some <==> data@.len() >= 32,
        word matches Some(w) ==> w@ == word_at(data@, 0),
{
    if data.len() < 32 {
        return None;
    }
    Some(read_word(data, 0))
}

/// The second word of the data.
pub fn u256_from_second_word(data: &[u8]) -> (word: Option<U256>)
    ensures
        word is Some <==> data@.len() >= 64,
        word matches Some(w) ==> w@ == word_at(data@, 32),
{
    if data.len() < 64 {
        return None;
    }
    Some(read_word(data, 32))
}

/// The number that a topic holds.
pub fn u256_from_topic(topic: &B256) -> (word: U256)
    ensures
        word@ == be_value(topic@),
{
    U256::from_be_bytes(topic.bytes)
}

/// The array of words at an offset, if the data holds all of it.
pub fn parse_abi_u256_array(data: &[u8], offset: usize) -> (array: Option<Vec<U256>>)
    ensures
        match array {
            Some(words) => abi_array(data@, offset as nat) == Some(word_values(words@)),
            None => abi_array(data@, offset as nat) is None,
        },
{
    if data.len() < 32 || offset > data.len() - 32 {
        return None;
    }
    let length = read_word(data, offset);
    let count: usize = match length.to_usize() {
        Some(n) => n,
        None => {
            return None;
        },
    };
    let mut items: Vec<U256> = Vec::new();
    let mut cursor: usize = offset + 32;
    let mut done: usize = 0;
    while done < count
        invariant
            done <= count,
            count == word_at(data@, offset as int),
            cursor == offset + 32 + 32 * done,
            cursor <= data@.len(),
            items@.len() == done,
            forall|i: int| 0 <= i < done ==> (#[trigger] items@[i])@ == word_at(data@, offset + 32 + 32 * i),
        decreases count - done,
    {
        if data.len() - cursor < 32 {
            return None;
        }
        items.push(read_word(data, cursor));
        cursor = cursor + 32;
        done = done + 1;
    }
    assert(abi_array(data@, offset as nat)->0 =~= word_values(items@));
    Some(items)
}

/// The identifiers and amounts of a batch transfer, if the data holds both arrays.
pub fn parse_transfer_batch(data: &[u8]) -> (batch: Option<Vec<(U256, U256)>>)
    ensures
        match batch {
            Some(pairs) => transfer_batch(data@) == Some(pair_values(pairs@)),
            None => transfer_batch(data@) is None,
        },
{
    if data.len() < 64 {
        return None;
    }
    let ids_offset: usize = match read_word(data, 0).to_usize() {
        Some(n) => n,
        None => {
            return None;
        },
    };
    let values_offset: usize = match read_word(data, 32).to_usize() {
        Some(n) => n,
        None => {
            return None;
        },
    };
    let ids = match parse_abi_u256_array(data, ids_offset) {
        Some(items) => items,
        None => {
            return None;
        },
    };
    let values = match parse_abi_u256_array(data, values_offset) {
        Some(items) => items,
        None => {
            return None;
        },
    };
    let mut pairs: Vec<(U256, U256)> = Vec::new();
    let mut i: usize = 0;
    while i < ids.len() && i < values.len()
        invariant
            i <= ids@.len(),
            i <= values@.len(),
            pairs@.len() == i,
            forall|j: int| 0 <= j < i ==> #[trigger] pairs@[j] == (ids@[j], values@[j]),
        decreases ids.len() - i,
    {
        pairs.push((ids[i], values[i]));
        i = i + 1;
    }
    assert(pair_values(pairs@) =~= paired(word_values(ids@), word_values(values@)));
    Some(pairs)
}

/// A number in a given number of bytes, the most significant first.
pub open spec fn be_bytes(number: nat, length: nat) -> Seq<u8>
    decreases length,
{
    if length == 0 {
        Seq::empty()
    } else {
        be_bytes(number / 256, (length - 1) as nat).push((number % 256) as u8)
    }
}

/// The ABI encoding of an array of words.
pub open spec fn encoded_array(values: Seq<nat>) -> Seq<u8> {
    be_bytes(values.len(), 32) + encoded_words(values)
}

/// Words one after the other.
pub open spec fn encoded_words(values: Seq<nat>) -> Seq<u8>
    decreases values.len(),
{
    if values.len() == 0 {
        Seq::empty()
    } else {
        encoded_words(values.drop_last()) + be_bytes(values.last(), 32)
    }
}

/// The ABI encoding of the identifiers and amounts of a batch transfer.
pub open spec fn encoded_batch(ids: Seq<nat>, values: Seq<nat>) -> Seq<u8> {
    be_bytes(64, 32) + be_bytes(96 + 32 * ids.len(), 32) + encoded_array(ids) + encoded_array(values)
}

/// Reading the bytes of a number gives the number back.
pub proof fn bytes_read_back(number: nat, length: nat)
    requires
        number < vstd::arithmetic::power::pow(256, length),
    ensures
        be_bytes(number, length).len() == length,
        be_value(be_bytes(number, length)) == number,
    decreases length,
{
    if length == 0 {
        vstd::arithmetic::power::lemma_pow0(256);
    } else {
        let shorter = (length - 1) as nat;
        vstd::arithmetic::power::lemma_pow1(256);
        vstd::arithmetic::power::lemma_pow_adds(256, 1, shorter);
        assert(number / 256 < vstd::arithmetic::power::pow(256, shorter));
        bytes_read_back(number / 256, shorter);
        let bytes = be_bytes(number, length);
        assert(bytes.drop_last() =~= be_bytes(number / 256, shorter));
    }
}

/// A word holds 32 bytes.
proof fn word_limit_in_bytes()
    ensures
        vstd::arithmetic::power::pow(256, 32) == word_limit(),
{
    vstd::arithmetic::power::lemma_pow1(256);
    let b1 = vstd::arithmetic::power::pow(256, 1);
    vstd::arithmetic::power::lemma_pow_adds(256, 1, 1);
    let b2 = vstd::arithmetic::power::pow(256, 2);
    assert(b2 == 0x10000) by (nonlinear_arith)
        requires
            b2 == b1 * b1,
            b1 == 0x100,
    ;
    vstd::arithmetic::power::lemma_pow_adds(256, 2, 2);
    let b4 = vstd::arithmetic::power::pow(256, 4);
    assert(b4 == 0x100000000) by (nonlinear_arith)
        requires
            b4 == b2 * b2,
            b2 == 0x10000,
    ;
    vstd::arithmetic::power::lemma_pow_adds(256, 4, 4);
    let b8 = vstd::arithmetic::power::pow(256, 8);
    assert(b8 == 0x10000000000000000) by (nonlinear_arith)
        requires
            b8 == b4 * b4,
            b4 == 0x100000000,
    ;
    vstd::arithmetic::power::lemma_pow_adds(256, 8, 8);
    let b16 = vstd::arithmetic::power::pow(256, 16);
    assert(b16 == 0x100000000000000000000000000000000) by (nonlinear_arith)
        requires
            b16 == b8 * b8,
            b8 == 0x10000000000000000,
    ;
    vstd::arithmetic::power::lemma_pow_adds(256, 16, 16);
    let b32 = vstd::arithmetic::power::pow(256, 32);
    assert(b32 == 0x10000000000000000000000000000000000000000000000000000000000000000) by (nonlinear_arith)
        requires
            b32 == b16 * b16,
            b16 == 0x100000000000000000000000000000000,
    ;
}

/// Reading a word that was written gives the number back.
pub proof fn word_reads_back(number: nat)
    requires
        number < word_limit(),
    ensures
        be_bytes(number, 32).len() == 32,
        be_value(be_bytes(number, 32)) == number,
{
    word_limit_in_bytes();
    bytes_read_back(number, 32);
}

/// Bytes hold a number that their count bounds.
proof fn bytes_are_bounded(bytes: Seq<u8>)
    ensures
        be_value(bytes) < vstd::arithmetic::power::pow(256, bytes.len()),
    decreases bytes.len(),
{
    if bytes.len() == 0 {
        vstd::arithmetic::power::lemma_pow0(256);
    } else {
        let shorter = (bytes.len() - 1) as nat;
        bytes_are_bounded(bytes.drop_last());
        vstd::arithmetic::power::lemma_pow1(256);
        vstd::arithmetic::power::lemma_pow_adds(256, 1, shorter);
    }
}

/// The identifiers and amounts of a batch are words.
pub proof fn batch_items_are_words(data: Seq<u8>, items: Seq<(nat, nat)>, i: int)
    requires
        transfer_batch(data) == Some(items),
        0 <= i < items.len(),
    ensures
        items[i].0 < word_limit(),
        items[i].1 < word_limit(),
{
    word_limit_in_bytes();
    let (ids, values) = (word_at(data, 0) as int, word_at(data, 32) as int);
    assert(items[i] == (word_at(data, ids + 32 + 32 * i), word_at(data, values + 32 + 32 * i)));
    bytes_are_bounded(data.subrange(ids + 32 + 32 * i, ids + 32 + 32 * i + 32));
    bytes_are_bounded(data.subrange(values + 32 + 32 * i, values + 32 + 32 * i + 32));
}

/// Each of the words that were written one after the other is where it belongs.
proof fn words_read_back(values: Seq<nat>)
    requires
        forall|i: int| 0 <= i < values.len() ==> #[trigger] values[i] < word_limit(),
    ensures
        encoded_words(values).len() == 32 * values.len(),
        forall|i: int| 0 <= i < values.len() ==> #[trigger] word_at(encoded_words(values), 32 * i) == values[i],
    decreases values.len(),
{
    if values.len() > 0 {
        let earlier = values.drop_last();
        words_read_back(earlier);
        word_reads_back(values.last());
        let bytes = encoded_words(values);
        assert forall|i: int| 0 <= i < values.len() implies #[trigger] word_at(bytes, 32 * i) == values[i] by {
            if i < earlier.len() {
                assert(bytes.subrange(32 * i, 32 * i + 32) =~= encoded_words(earlier).subrange(32 * i, 32 * i + 32));
                assert(word_at(encoded_words(earlier), 32 * i) == earlier[i]);
            } else {
                assert(bytes.subrange(32 * i, 32 * i + 32) =~= be_bytes(values.last(), 32));
            }
        }
    }
}

/// Parsing an array that was encoded gives its elements back, wherever in the data it
/// stands.
pub proof fn array_reads_back(before: Seq<u8>, values: Seq<nat>, after: Seq<u8>)
    requires
        values.len() < word_limit(),
        forall|i: int| 0 <= i < values.len() ==> #[trigger] values[i] < word_limit(),
    ensures
        abi_array(before + encoded_array(values) + after, before.len()) == Some(values),
{
    let data = before + encoded_array(values) + after;
    let offset = before.len() as int;
    let words = encoded_words(values);
    words_read_back(values);
    word_reads_back(values.len());
    assert(data.subrange(offset, offset + 32) =~= be_bytes(values.len(), 32));
    assert forall|i: int| 0 <= i < values.len() implies #[trigger] word_at(data, offset + 32 + 32 * i)
        == values[i] by {
        assert(data.subrange(offset + 32 + 32 * i, offset + 32 + 32 * i + 32) =~= words.subrange(
            32 * i,
            32 * i + 32,
        ));
        assert(word_at(words, 32 * i) == values[i]);
    }
    assert(abi_array(data, before.len())->0 =~= values);
}

/// Parsing a batch that was encoded gives its identifiers and amounts back, in pairs.
pub proof fn batch_reads_back(ids: Seq<nat>, values: Seq<nat>, after: Seq<u8>)
    requires
        96 + 32 * ids.len() < word_limit(),
        values.len() < word_limit(),
        forall|i: int| 0 <= i < ids.len() ==> #[trigger] ids[i] < word_limit(),
        forall|i: int| 0 <= i < values.len() ==> #[trigger] values[i] < word_limit(),
    ensures
        transfer_batch(encoded_batch(ids, values) + after) == Some(paired(ids, values)),
{
    let first = be_bytes(64, 32);
    let second = be_bytes(96 + 32 * ids.len(), 32);
    let data = encoded_batch(ids, values) + after;
    word_reads_back(64);
    word_reads_back(96 + 32 * ids.len());
    word_reads_back(ids.len());
    words_read_back(ids);
    assert(data.subrange(0, 32) =~= first);
    assert(data.subrange(32, 64) =~= second);
    array_reads_back(first + second, ids, encoded_array(values) + after);
    assert(data =~= (first + second) + encoded_array(ids) + (encoded_array(values) + after));
    array_reads_back(first + second + encoded_array(ids), values, after);
    assert(data =~= (first + second + encoded_array(ids)) + encoded_array(values) + after);
}

/// A value in the last 20 bytes of a topic is the address of the topic, whatever the
/// first 12 bytes are.
pub proof fn topic_address_reads_back(padding: Seq<u8>, address: Seq<u8>)
    requires
        padding.len() == 12,
        address.len() == 20,
    ensures
        address_of(padding + address) == address,
{
    assert(address_of(padding + address) =~= address);
}

} // verus!
