//! What holds of the movements that any log reports.

use crate::abi::{abi_array, address_of, pair_values, transfer_batch, word_at, word_values};
use crate::logs::{
    base_weth, erc1155_batch, erc1155_transfer, event_signatures, keccak256_digest, log_movements,
    movement_values, movements, EventLog, EventTopics, Movement, Signatures, TokenMovement,
};
use crate::word::{be_value, U256};
use vstd::prelude::*;
use vstd::string::*;

verus! {

/// A topic holds an address in its last twenty bytes, and data holds a word in the
/// thirty-two bytes from a position on.
pub proof fn words_and_addresses_are_where_they_belong(topic: Seq<u8>, data: Seq<u8>, at: int)
    requires
        topic.len() == 32,
        0 <= at,
        at + 32 <= data.len(),
    ensures
        address_of(topic).len() == 20,
        forall|i: int| 0 <= i < 20 ==> #[trigger] address_of(topic)[i] == topic[i + 12],
        word_at(data, at) == be_value(data.subrange(at, at + 32)),
{
}

/// Lists of words and of pairs are those at each position.
pub proof fn words_hold_what_they_list(words: Seq<U256>, pairs: Seq<(U256, U256)>)
    ensures
        word_values(words).len() == words.len(),
        forall|i: int| 0 <= i < words.len() ==> #[trigger] word_values(words)[i] == words[i]@,
        pair_values(pairs).len() == pairs.len(),
        forall|i: int| 0 <= i < pairs.len() ==> #[trigger] pair_values(pairs)[i] == (pairs[i].0@, pairs[i].1@),
{
}

/// An array is there if and only if its number of elements and all of them are within the
/// data. Its elements are the words behind the one with their number, one after the other.
pub proof fn array_is_behind_its_length(data: Seq<u8>, offset: nat)
    ensures
        ({
            let count = be_value(data.subrange(offset as int, offset as int + 32));
            &&& abi_array(data, offset) is Some <==> offset + 32 <= data.len() && offset + 32 + 32 * count
                <= data.len()
            &&& abi_array(data, offset) is Some ==> abi_array(data, offset)->0.len() == count
            &&& abi_array(data, offset) is Some ==> forall|i: int|
                0 <= i < count ==> #[trigger] abi_array(data, offset)->0[i] == be_value(
                    data.subrange(offset + 32 + 32 * i, offset + 64 + 32 * i),
                )
        }),
{
    let count = be_value(data.subrange(offset as int, offset as int + 32));
    if abi_array(data, offset) is Some {
        assert forall|i: int| 0 <= i < count implies #[trigger] abi_array(data, offset)->0[i] == be_value(
            data.subrange(offset + 32 + 32 * i, offset + 64 + 32 * i),
        ) by {
            assert(offset + 32 + 32 * i + 32 == offset + 64 + 32 * i);
        }
    }
}

/// The items of a batch are there if and only if both arrays are, at the offsets in the first
/// two words. There are as many as the shorter array has elements, and each has the
/// identifier and the amount at its position.
pub proof fn batch_pairs_its_arrays(data: Seq<u8>)
    ensures
        ({
            let ids = abi_array(data, be_value(data.subrange(0, 32)));
            let values = abi_array(data, be_value(data.subrange(32, 64)));
            let batch = transfer_batch(data);
            &&& batch is Some <==> data.len() >= 64 && ids is Some && values is Some
            &&& batch is Some ==> batch->0.len() <= ids->0.len()
            &&& batch is Some ==> batch->0.len() <= values->0.len()
            &&& batch is Some ==> batch->0.len() == ids->0.len() || batch->0.len() == values->0.len()
            &&& batch is Some ==> forall|i: int|
                0 <= i < batch->0.len() ==> (#[trigger] batch->0[i]).0 == ids->0[i] && batch->0[i].1
                    == values->0[i]
        }),
{
}

/// The five events are told by the hashes of their signatures.
pub proof fn events_are_told_by_their_signatures(topics: EventTopics)
    ensures
        event_signatures().transfer == keccak256_digest("Transfer(address,address,uint256)".spec_bytes()),
        event_signatures().transfer_single == keccak256_digest(
            "TransferSingle(address,address,address,uint256,uint256)".spec_bytes(),
        ),
        event_signatures().transfer_batch == keccak256_digest(
            "TransferBatch(address,address,address,uint256[],uint256[])".spec_bytes(),
        ),
        event_signatures().deposit == keccak256_digest("Deposit(address,uint256)".spec_bytes()),
        event_signatures().withdrawal == keccak256_digest("Withdrawal(address,uint256)".spec_bytes()),
        topics@.transfer == topics.transfer.bytes@,
        topics@.transfer_single == topics.transfer_single.bytes@,
        topics@.transfer_batch == topics.transfer_batch.bytes@,
        topics@.deposit == topics.deposit.bytes@,
        topics@.withdrawal == topics.withdrawal.bytes@,
{
}

/// Wrapped ether is at the address that starts with `42`, ends with `06` and has zeros
/// between.
pub proof fn wrapped_ether_has_its_address()
    ensures
        base_weth().len() == 20,
        base_weth()[0] == 0x42,
        base_weth()[19] == 0x06,
        forall|i: int| 0 < i < 19 ==> #[trigger] base_weth()[i] == 0,
{
}

/// What both sides of a transfer report: the loss of the account that it is from, unless that
/// is the zero address, then the gain of the account that it is to, unless that is the zero
/// address. Neither depends on the other.
pub open spec fn has_both_sides(
    moved: Seq<Movement>,
    from: Seq<u8>,
    loss: Movement,
    to: Seq<u8>,
    gain: Movement,
) -> bool {
    let zero = Seq::new(20, |i: int| 0u8);
    &&& from != zero && to != zero ==> moved.len() == 2 && moved[0] == loss && moved[1] == gain
    &&& from == zero && to != zero ==> moved.len() == 1 && moved[0] == gain
    &&& from != zero && to == zero ==> moved.len() == 1 && moved[0] == loss
    &&& from == zero && to == zero ==> moved.len() == 0
}

/// A transfer log with three topics and a word of data is one of an ERC-20 token: the account
/// in the second topic loses the amount in the data, that in the third gains it. With less
/// data it moves nothing.
pub proof fn erc20_log_moves_both_sides(events: Signatures, log: EventLog)
    requires
        log.topics.len() == 3,
        log.topics[0] == events.transfer,
    ensures
        ({
            let from = log.topics[1].subrange(12, 32);
            let to = log.topics[2].subrange(12, 32);
            let amount = be_value(log.data.subrange(0, 32)) as int;
            let loss = Movement::Erc20 { owner: from, token: log.address, change: -amount };
            let gain = Movement::Erc20 { owner: to, token: log.address, change: amount };
            &&& log.data.len() >= 32 ==> has_both_sides(log_movements(events, log), from, loss, to, gain)
            &&& log.data.len() < 32 ==> log_movements(events, log).len() == 0
        }),
{
    zero_has_twenty_zeros();
}

/// A transfer log with four topics is one of an ERC-721 token: the account in the second topic
/// loses the token whose identifier is in the fourth, that in the third gains it, whatever
/// the data is.
pub proof fn erc721_log_moves_both_sides(events: Signatures, log: EventLog)
    requires
        log.topics.len() == 4,
        log.topics[0] == events.transfer,
    ensures
        ({
            let from = log.topics[1].subrange(12, 32);
            let to = log.topics[2].subrange(12, 32);
            let id = be_value(log.topics[3]);
            let loss = Movement::Erc721 { owner: from, token: log.address, id, received: false };
            let gain = Movement::Erc721 { owner: to, token: log.address, id, received: true };
            has_both_sides(log_movements(events, log), from, loss, to, gain)
        }),
{
    zero_has_twenty_zeros();
}

/// An ERC-721 transfer to an account is reported as its gain of the token in the fourth topic,
/// whoever sent it, the zero address of a mint too; one from an account is reported as its
/// loss, whoever gets it.
pub proof fn erc721_sides_stand_alone(events: Signatures, log: EventLog)
    requires
        log.topics.len() == 4,
        log.topics[0] == events.transfer,
    ensures
        ({
            let from = log.topics[1].subrange(12, 32);
            let to = log.topics[2].subrange(12, 32);
            let id = be_value(log.topics[3]);
            &&& (exists|i: int| 0 <= i < 20 && #[trigger] to[i] != 0) ==> log_movements(events, log).contains(
                Movement::Erc721 { owner: to, token: log.address, id, received: true },
            )
            &&& (exists|i: int| 0 <= i < 20 && #[trigger] from[i] != 0) ==> log_movements(events, log).contains(
                Movement::Erc721 { owner: from, token: log.address, id, received: false },
            )
        }),
{
    zero_has_twenty_zeros();
    erc721_log_moves_both_sides(events, log);
    let moved = log_movements(events, log);
    let zero = Seq::new(20, |i: int| 0u8);
    let from = log.topics[1].subrange(12, 32);
    let to = log.topics[2].subrange(12, 32);
    if exists|i: int| 0 <= i < 20 && #[trigger] to[i] != 0 {
        let i = choose|i: int| 0 <= i < 20 && #[trigger] to[i] != 0;
        assert(zero[i] == 0);
        assert(moved[moved.len() - 1] is Erc721);
    }
    if exists|i: int| 0 <= i < 20 && #[trigger] from[i] != 0 {
        let i = choose|i: int| 0 <= i < 20 && #[trigger] from[i] != 0;
        assert(zero[i] == 0);
        assert(moved[0] is Erc721);
    }
}

/// A log of one ERC-1155 transfer has both sides in its third and fourth topics, and in its
/// data the identifier and then the amount. With fewer topics or less data it moves nothing.
pub proof fn single_log_moves_both_sides(events: Signatures, log: EventLog)
    requires
        events.distinct(),
        log.topics.len() > 0,
        log.topics[0] == events.transfer_single,
    ensures
        log.topics.len() >= 4 && log.data.len() >= 64 ==> {
            let from = log.topics[2].subrange(12, 32);
            let to = log.topics[3].subrange(12, 32);
            let id = be_value(log.data.subrange(0, 32));
            let amount = be_value(log.data.subrange(32, 64)) as int;
            let loss = Movement::Erc1155 { owner: from, token: log.address, id, change: -amount };
            let gain = Movement::Erc1155 { owner: to, token: log.address, id, change: amount };
            has_both_sides(log_movements(events, log), from, loss, to, gain)
        },
        log.topics.len() < 4 || log.data.len() < 64 ==> log_movements(events, log).len() == 0,
{
    zero_has_twenty_zeros();
}

/// What a number of ERC-1155 items report: both sides of each, one item after the other.
pub open spec fn has_sides_of_each(
    moved: Seq<Movement>,
    token: Seq<u8>,
    from: Seq<u8>,
    to: Seq<u8>,
    items: Seq<(nat, nat)>,
) -> bool {
    let zero = Seq::new(20, |i: int| 0u8);
    let loss = |i: int| Movement::Erc1155 { owner: from, token, id: items[i].0, change: -items[i].1 };
    let gain = |i: int| Movement::Erc1155 { owner: to, token, id: items[i].0, change: items[i].1 as int };
    &&& from != zero && to != zero ==> moved.len() == 2 * items.len() && forall|i: int|
        0 <= i < items.len() ==> {
            let item = #[trigger] items[i];
            &&& moved[2 * i] == loss(i)
            &&& moved[2 * i + 1] == gain(i)
        }
    &&& from == zero && to != zero ==> moved.len() == items.len() && forall|i: int|
        0 <= i < items.len() ==> #[trigger] moved[i] == gain(i)
    &&& from != zero && to == zero ==> moved.len() == items.len() && forall|i: int|
        0 <= i < items.len() ==> #[trigger] moved[i] == loss(i)
    &&& from == zero && to == zero ==> moved.len() == 0
}

/// The items of a batch, one after the other.
proof fn batch_has_sides_of_each(token: Seq<u8>, from: Seq<u8>, to: Seq<u8>, items: Seq<(nat, nat)>)
    ensures
        has_sides_of_each(erc1155_batch(token, from, to, items), token, from, to, items),
    decreases items.len(),
{
    zero_has_twenty_zeros();
    if items.len() > 0 {
        let earlier = items.drop_last();
        let before = erc1155_batch(token, from, to, earlier);
        let moved = erc1155_batch(token, from, to, items);
        let last = items.len() - 1;
        batch_has_sides_of_each(token, from, to, earlier);
        assert(moved =~= before + erc1155_transfer(token, from, to, items.last()));
        let zero = Seq::new(20, |i: int| 0u8);
        if from != zero && to != zero {
            assert forall|i: int| 0 <= i < items.len() implies {
                let item = #[trigger] items[i];
                &&& moved[2 * i] == (Movement::Erc1155 { owner: from, token, id: item.0, change: -item.1 })
                &&& moved[2 * i + 1] == (Movement::Erc1155 { owner: to, token, id: item.0, change: item.1 as int })
            } by {
                if i < last {
                    assert(earlier[i] == items[i]);
                    assert(moved[2 * i] == before[2 * i]);
                    assert(moved[2 * i + 1] == before[2 * i + 1]);
                }
            }
        } else if from != zero || to != zero {
            assert forall|i: int| 0 <= i < last implies #[trigger] moved[i] == before[i] && items[i]
                == earlier[i] by {}
        }
    }
}

/// A log of several ERC-1155 transfers has both sides in its third and fourth topics, and
/// moves both sides of each item of its data, one after the other. With fewer topics, or data
/// without the items, it moves nothing.
pub proof fn batch_log_moves_both_sides_of_each(events: Signatures, log: EventLog)
    requires
        events.distinct(),
        log.topics.len() > 0,
        log.topics[0] == events.transfer_batch,
    ensures
        log.topics.len() >= 4 && transfer_batch(log.data) is Some ==> has_sides_of_each(
            log_movements(events, log),
            log.address,
            log.topics[2].subrange(12, 32),
            log.topics[3].subrange(12, 32),
            transfer_batch(log.data)->0,
        ),
        log.topics.len() < 4 || transfer_batch(log.data) is None ==> log_movements(events, log).len() == 0,
{
    if log.topics.len() >= 4 && transfer_batch(log.data) is Some {
        batch_has_sides_of_each(
            log.address,
            log.topics[2].subrange(12, 32),
            log.topics[3].subrange(12, 32),
            transfer_batch(log.data)->0,
        );
    }
}

/// A deposit into wrapped ether is a gain of the account in the second topic by the amount in
/// the data, and a withdrawal is a loss. A log of another contract, with fewer topics or less
/// data, or of the zero address, moves nothing.
pub proof fn wrapped_ether_moves_one_side(events: Signatures, log: EventLog)
    requires
        events.distinct(),
        log.topics.len() > 0,
    ensures
        ({
            let moved = log_movements(events, log);
            let zero = Seq::new(20, |i: int| 0u8);
            let weth = seq![0x42u8, 0, 0, 0, 0, 0, 0, 0, 0, 0, 0, 0, 0, 0, 0, 0, 0, 0, 0, 0x06];
            let account = log.topics[1].subrange(12, 32);
            let amount = be_value(log.data.subrange(0, 32)) as int;
            let counts = log.address == weth && log.topics.len() >= 2 && log.data.len() >= 32 && account != zero;
            let deposit = log.topics[0] == events.deposit;
            let withdrawal = log.topics[0] == events.withdrawal;
            &&& deposit && counts ==> moved.len() == 1 && moved[0] == (Movement::Erc20 {
                owner: account,
                token: weth,
                change: amount,
            })
            &&& withdrawal && counts ==> moved.len() == 1 && moved[0] == (Movement::Erc20 {
                owner: account,
                token: weth,
                change: -amount,
            })
            &&& (deposit || withdrawal) && !counts ==> moved.len() == 0
        }),
{
    zero_has_twenty_zeros();
}

/// A log without topics moves nothing, nor does one with another first topic than those of the
/// five events, nor a transfer log with another number of topics than three or four.
pub proof fn logs_of_no_event_move_nothing(events: Signatures, log: EventLog)
    requires
        events.distinct(),
    ensures
        log.topics.len() == 0 ==> log_movements(events, log).len() == 0,
        log.topics.len() > 0 && log.topics[0] != events.transfer && log.topics[0] != events.transfer_single
            && log.topics[0] != events.transfer_batch && log.topics[0] != events.deposit && log.topics[0]
            != events.withdrawal ==> log_movements(events, log).len() == 0,
        log.topics.len() > 0 && log.topics[0] == events.transfer && log.topics.len() != 3 && log.topics.len() != 4
            ==> log_movements(events, log).len() == 0,
{
}

/// Logs report what each of them reports, from the first to the last.
pub proof fn logs_report_in_order(events: Signatures, logs: Seq<EventLog>, last: EventLog)
    ensures
        movements(events, Seq::empty()).len() == 0,
        movements(events, logs.push(last)) == movements(events, logs) + log_movements(events, last),
{
    assert(logs.push(last).drop_last() =~= logs);
}

/// Movements are those at each position, with all that they hold. An amount that is negative
/// is a loss of its magnitude, any other a gain.
pub proof fn movements_hold_what_they_list(list: Seq<TokenMovement>, i: int)
    requires
        0 <= i < list.len(),
    ensures
        movement_values(list).len() == list.len(),
        match (list[i], movement_values(list)[i]) {
            (TokenMovement::Erc20 { owner, token, delta }, Movement::Erc20 { owner: o, token: t, change }) => {
                &&& o == owner.bytes@
                &&& t == token.bytes@
                &&& delta.negative ==> change == -delta.magnitude@
                &&& !delta.negative ==> change == delta.magnitude@
            },
            (
                TokenMovement::Erc721 { owner, token, token_id, received },
                Movement::Erc721 { owner: o, token: t, id, received: r },
            ) => {
                &&& o == owner.bytes@
                &&& t == token.bytes@
                &&& id == token_id@
                &&& r == received
            },
            (
                TokenMovement::Erc1155 { owner, token, token_id, delta },
                Movement::Erc1155 { owner: o, token: t, id, change },
            ) => {
                &&& o == owner.bytes@
                &&& t == token.bytes@
                &&& id == token_id@
                &&& delta.negative ==> change == -delta.magnitude@
                &&& !delta.negative ==> change == delta.magnitude@
            },
            _ => false,
        },
{
}

/// The zero address is twenty zeros.
proof fn zero_has_twenty_zeros()
    ensures
        crate::primitives::zero_address() == Seq::new(20, |i: int| 0u8),
{
    assert(crate::primitives::zero_address() =~= Seq::new(20, |i: int| 0u8));
}

} // verus!
