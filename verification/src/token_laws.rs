//! What holds of the token changes of any logs.

use crate::abi::{address_of, batch_items_are_words, be_bytes, transfer_batch, word_at, word_reads_back};
use crate::amount::{change_adds, settled_is_sum, sum_of};
use crate::ledger::{Erc1155Change, Erc721Change};
use crate::logs::{
    base_weth, erc1155_batch, erc1155_transfer, erc20_transfer, log_movements, movements, EventLog, Movement,
    Signatures,
};
use crate::primitives::zero_address;
use crate::text::{
    decimal_text, digits_read_back, signed_hex_reads_back, signed_hex_text, signed_hex_value, signed_texts_differ,
};
use crate::token_changes::{
    erc1155_moves, erc1155_net, erc1155_touched, erc20_moves, erc20_net, erc20_net_after, erc20_report,
    erc721_moves, erc721_report, lists_erc1155, lists_ids, reports_erc1155,
};
use crate::word::word_limit;
use vstd::prelude::*;

verus! {

/// Logs report what each of them reports, one after the other.
pub proof fn movements_append(events: Signatures, first: Seq<EventLog>, second: Seq<EventLog>)
    ensures
        movements(events, first + second) == movements(events, first) + movements(events, second),
    decreases second.len(),
{
    if second.len() == 0 {
        assert(first + second =~= first);
        assert(movements(events, first) + movements(events, second) =~= movements(events, first));
    } else {
        let earlier = second.drop_last();
        movements_append(events, first, earlier);
        assert((first + second).drop_last() =~= first + earlier);
        assert(movements(events, first + second) =~= movements(events, first) + movements(events, second));
    }
}

/// A log with another first topic than those of the five events moves nothing.
pub proof fn other_logs_move_nothing(events: Signatures, log: EventLog)
    requires
        log.topics.len() > 0 ==> {
            &&& log.topics[0] != events.transfer
            &&& log.topics[0] != events.transfer_single
            &&& log.topics[0] != events.transfer_batch
            &&& log.topics[0] != events.deposit
            &&& log.topics[0] != events.withdrawal
        },
    ensures
        log_movements(events, log) == Seq::<Movement>::empty(),
{
}

/// A batch moves nothing of the zero address.
proof fn batch_spares_zero(token: Seq<u8>, from: Seq<u8>, to: Seq<u8>, items: Seq<(nat, nat)>, i: int)
    requires
        0 <= i < erc1155_batch(token, from, to, items).len(),
    ensures
        erc1155_batch(token, from, to, items)[i].owner() != zero_address(),
    decreases items.len(),
{
    let earlier = erc1155_batch(token, from, to, items.drop_last());
    if i < earlier.len() {
        batch_spares_zero(token, from, to, items.drop_last(), i);
    }
}

/// No log moves anything of the zero address.
pub proof fn zero_address_never_moves(events: Signatures, logs: Seq<EventLog>, i: int)
    requires
        0 <= i < movements(events, logs).len(),
    ensures
        movements(events, logs)[i].owner() != zero_address(),
    decreases logs.len(),
{
    let earlier = movements(events, logs.drop_last());
    if i < earlier.len() {
        zero_address_never_moves(events, logs.drop_last(), i);
    } else {
        let log = logs.last();
        let at = i - earlier.len();
        assert(movements(events, logs)[i] == log_movements(events, log)[at]);
        if transfer_batch(log.data) is Some && log.topics.len() >= 4 {
            let (from, to) = (address_of(log.topics[2]), address_of(log.topics[3]));
            let items = transfer_batch(log.data)->0;
            if at < erc1155_batch(log.address, from, to, items).len() {
                batch_spares_zero(log.address, from, to, items, at);
            }
        }
    }
}

/// An account that no movement is about has no net changes.
pub proof fn untouched_has_no_changes(moves: Seq<Movement>, owner: Seq<u8>, token: Seq<u8>, id: nat)
    requires
        forall|i: int| 0 <= i < moves.len() ==> (#[trigger] moves[i]).owner() != owner,
    ensures
        erc20_moves(moves, owner, token) == Seq::<int>::empty(),
        erc721_moves(moves, owner, token) == Seq::<Erc721Change>::empty(),
        erc1155_moves(moves, owner, token, id) == Seq::<int>::empty(),
    decreases moves.len(),
{
    if moves.len() > 0 {
        assert(moves.last().owner() != owner);
        assert forall|i: int| 0 <= i < moves.drop_last().len() implies (
        #[trigger] moves.drop_last()[i]).owner() != owner by {
            assert(moves.drop_last()[i] == moves[i]);
        }
        untouched_has_no_changes(moves.drop_last(), owner, token, id);
    }
}

/// The zero address has no entry in any report.
pub proof fn zero_address_never_reported(
    events: Signatures,
    logs: Seq<EventLog>,
    erc1155: Map<Seq<u8>, Map<Seq<u8>, Seq<Erc1155Change>>>,
)
    requires
        reports_erc1155(erc1155, movements(events, logs)),
    ensures
        !erc20_report(movements(events, logs)).contains_key(zero_address()),
        !erc721_report(movements(events, logs)).contains_key(zero_address()),
        !erc1155.contains_key(zero_address()),
{
    let moves = movements(events, logs);
    let zero = zero_address();
    assert forall|i: int| 0 <= i < moves.len() implies (#[trigger] moves[i]).owner() != zero by {
        zero_address_never_moves(events, logs, i);
    }
    assert forall|token: Seq<u8>| (#[trigger] erc20_net(moves, zero, token)).magnitude == 0 by {
        untouched_has_no_changes(moves, zero, token, 0);
    }
    assert forall|token: Seq<u8>| (#[trigger] erc721_moves(moves, zero, token)).len() == 0 by {
        untouched_has_no_changes(moves, zero, token, 0);
    }
    assert forall|token: Seq<u8>| !#[trigger] erc1155_touched(moves, zero, token) by {
        assert forall|id: nat| (#[trigger] erc1155_net(moves, zero, token, id)).magnitude == 0 by {
            untouched_has_no_changes(moves, zero, token, id);
        }
    }
}

/// Every owner and token in the ERC-20 report has a change, and none reads as zero.
pub proof fn erc20_report_has_no_zero(moves: Seq<Movement>, owner: Seq<u8>)
    requires
        erc20_report(moves).contains_key(owner),
    ensures
        erc20_report(moves)[owner] != Map::<Seq<u8>, Seq<char>>::empty(),
        forall|token: Seq<u8>|
            #[trigger] erc20_report(moves)[owner].contains_key(token) ==> erc20_report(moves)[owner][token]
                != signed_hex_text(0),
{
    let token = choose|token: Seq<u8>| (#[trigger] erc20_net(moves, owner, token)).magnitude != 0;
    assert(erc20_report(moves)[owner].contains_key(token));
    assert forall|token: Seq<u8>| #[trigger] erc20_report(moves)[owner].contains_key(token) implies erc20_report(
        moves,
    )[owner][token] != signed_hex_text(0) by {
        signed_texts_differ(erc20_net(moves, owner, token).value(), 0);
    }
}

/// An ERC-20 delta reads as the sum of the changes, as long as a word can hold every
/// sum on the way. There is an entry if and only if the sum is not zero.
pub proof fn erc20_report_is_sum(moves: Seq<Movement>, owner: Seq<u8>, token: Seq<u8>)
    requires
        forall|n: int|
            0 <= n <= erc20_moves(moves, owner, token).len() ==> -word_limit() < #[trigger] sum_of(
                erc20_moves(moves, owner, token).take(n),
            ) < word_limit(),
    ensures
        sum_of(erc20_moves(moves, owner, token)) != 0 <==> erc20_report(moves).contains_key(owner)
            && erc20_report(moves)[owner].contains_key(token),
        sum_of(erc20_moves(moves, owner, token)) != 0 ==> signed_hex_value(erc20_report(moves)[owner][token])
            == sum_of(erc20_moves(moves, owner, token)),
{
    settled_is_sum(erc20_moves(moves, owner, token));
    let net = erc20_net(moves, owner, token);
    signed_hex_reads_back(net.value());
    assert(net.value() != 0 <==> net.magnitude != 0);
}

/// The entries of an ERC-1155 list have different token identifiers, and none of them
/// reads as zero.
pub proof fn erc1155_list_is_distinct(
    list: Seq<Erc1155Change>,
    moves: Seq<Movement>,
    owner: Seq<u8>,
    token: Seq<u8>,
)
    requires
        lists_erc1155(list, moves, owner, token),
    ensures
        forall|i: int, j: int|
            0 <= i < j < list.len() ==> (#[trigger] list[i]).token_id != (#[trigger] list[j]).token_id,
        forall|i: int| 0 <= i < list.len() ==> (#[trigger] list[i]).change != decimal_text(0),
{
    let ids = choose|ids: Seq<nat>| #[trigger]
        lists_ids(ids, moves, owner, token) && list == Seq::new(
            ids.len(),
            |i: int|
                crate::token_changes::erc1155_entry(ids[i], erc1155_net(moves, owner, token, ids[i])),
        );
    assert forall|i: int, j: int| 0 <= i < j < list.len() implies (#[trigger] list[i]).token_id != (
    #[trigger] list[j]).token_id by {
        assert(ids[i] != ids[j]);
        digits_read_back(ids[i], 10);
        digits_read_back(ids[j], 10);
    }
    assert forall|i: int| 0 <= i < list.len() implies (#[trigger] list[i]).change != decimal_text(0) by {
        assert(ids.contains(ids[i]));
        assert(erc1155_net(moves, owner, token, ids[i]).magnitude != 0);
        signed_texts_differ(erc1155_net(moves, owner, token, ids[i]).value(), 0);
    }
}

/// What all owners together gained in an ERC-20 token.
pub open spec fn erc20_total(moves: Seq<Movement>, token: Seq<u8>) -> int
    decreases moves.len(),
{
    if moves.len() == 0 {
        0
    } else {
        erc20_total(moves.drop_last(), token) + match moves.last() {
            Movement::Erc20 { token: t, change, .. } if t == token => change,
            _ => 0,
        }
    }
}

/// A log of an ERC-20 transfer between two accounts.
pub open spec fn is_transfer_between_accounts(events: Signatures, log: EventLog) -> bool {
    &&& log.topics.len() == 3
    &&& log.topics[0] == events.transfer
    &&& address_of(log.topics[1]) != zero_address()
    &&& address_of(log.topics[2]) != zero_address()
}

/// Transfers between accounts neither make tokens nor destroy them: what some lose,
/// others gain.
pub proof fn transfers_conserve(events: Signatures, logs: Seq<EventLog>, token: Seq<u8>)
    requires
        forall|i: int| 0 <= i < logs.len() ==> is_transfer_between_accounts(events, #[trigger] logs[i]),
    ensures
        erc20_total(movements(events, logs), token) == 0,
    decreases logs.len(),
{
    if logs.len() > 0 {
        let earlier = movements(events, logs.drop_last());
        assert forall|i: int| 0 <= i < logs.drop_last().len() implies is_transfer_between_accounts(
            events,
            #[trigger] logs.drop_last()[i],
        ) by {
            assert(logs.drop_last()[i] == logs[i]);
        }
        transfers_conserve(events, logs.drop_last(), token);
        let log = logs.last();
        assert(is_transfer_between_accounts(events, log));
        let all = movements(events, logs);
        if log.data.len() < 32 {
            assert(all =~= earlier);
        } else {
            let amount = word_at(log.data, 0);
            let lost = Movement::Erc20 {
                owner: address_of(log.topics[1]),
                token: log.address,
                change: -amount,
            };
            let gained = Movement::Erc20 {
                owner: address_of(log.topics[2]),
                token: log.address,
                change: amount as int,
            };
            assert(all =~= earlier.push(lost).push(gained));
            assert(all.drop_last() =~= earlier.push(lost));
            assert(earlier.push(lost).drop_last() =~= earlier);
            assert(earlier.push(lost).last() == lost);
            assert(erc20_total(earlier.push(lost), token) == if log.address == token { -amount } else { 0 });
        }
    }
}

/// A transfer of an account to itself leaves its net change as it was, as long as a
/// word can hold what is between.
pub proof fn self_transfer_cancels(moves: Seq<Movement>, owner: Seq<u8>, token: Seq<u8>, amount: nat)
    requires
        -word_limit() < erc20_net(moves, owner, token).value() - amount,
        erc20_net(moves, owner, token).value() < word_limit(),
    ensures
        erc20_net(moves + erc20_transfer(token, owner, owner, amount), owner, token).value() == erc20_net(
            moves,
            owner,
            token,
        ).value(),
{
    let lost = Movement::Erc20 { owner, token, change: -amount };
    let gained = Movement::Erc20 { owner, token, change: amount as int };
    let all = moves + erc20_transfer(token, owner, owner, amount);
    if owner == zero_address() {
        assert(all =~= moves);
    } else {
        assert(all =~= moves.push(lost).push(gained));
        erc20_net_after(moves, lost, owner, token);
        erc20_net_after(moves.push(lost), gained, owner, token);
        change_adds(erc20_net(moves, owner, token), -amount);
        change_adds(erc20_net(moves.push(lost), owner, token), amount as int);
    }
}

/// A log of wrapped ether: a first topic, an account and an amount.
pub open spec fn weth_log(topic: Seq<u8>, account: Seq<u8>, amount: nat) -> EventLog {
    EventLog { address: base_weth(), topics: seq![topic, account], data: be_bytes(amount, 32) }
}

/// Wrapping ether and unwrapping it again leaves the net change of the account as it
/// was, as long as a word can hold what is between.
pub proof fn deposit_and_withdrawal_cancel(
    events: Signatures,
    moves: Seq<Movement>,
    account: Seq<u8>,
    amount: nat,
)
    requires
        events.distinct(),
        amount < word_limit(),
        address_of(account) != zero_address(),
        -word_limit() < erc20_net(moves, address_of(account), base_weth()).value(),
        erc20_net(moves, address_of(account), base_weth()).value() + amount < word_limit(),
    ensures
        ({
            let logs = seq![weth_log(events.deposit, account, amount), weth_log(events.withdrawal, account, amount)];
            erc20_net(moves + movements(events, logs), address_of(account), base_weth()).value() == erc20_net(
                moves,
                address_of(account),
                base_weth(),
            ).value()
        }),
{
    let owner = address_of(account);
    let token = base_weth();
    let deposit = weth_log(events.deposit, account, amount);
    let withdrawal = weth_log(events.withdrawal, account, amount);
    let logs = seq![deposit, withdrawal];
    word_reads_back(amount);
    assert(deposit.data.subrange(0, 32) =~= deposit.data);
    let gained = Movement::Erc20 { owner, token, change: amount as int };
    let lost = Movement::Erc20 { owner, token, change: -amount };
    assert(log_movements(events, deposit) =~= seq![gained]);
    assert(log_movements(events, withdrawal) =~= seq![lost]);
    assert(logs.drop_last() =~= seq![deposit]);
    assert(seq![deposit].drop_last() =~= Seq::empty());
    assert(movements(events, Seq::empty()) =~= Seq::empty());
    assert(movements(events, seq![deposit]) =~= seq![gained]);
    assert(movements(events, logs) =~= seq![gained, lost]);
    assert(moves + movements(events, logs) =~= moves.push(gained).push(lost));
    erc20_net_after(moves, gained, owner, token);
    erc20_net_after(moves.push(gained), lost, owner, token);
    change_adds(erc20_net(moves, owner, token), amount as int);
    change_adds(erc20_net(moves.push(gained), owner, token), -amount);
}

/// A log of an ERC-1155 transfer of one token, by the operator and between the
/// accounts of another log.
pub open spec fn single_log(events: Signatures, log: EventLog, item: (nat, nat)) -> EventLog {
    EventLog {
        address: log.address,
        topics: seq![events.transfer_single, log.topics[1], log.topics[2], log.topics[3]],
        data: be_bytes(item.0, 32) + be_bytes(item.1, 32),
    }
}

/// A transfer of several ERC-1155 tokens moves what transfers of each of them move.
pub proof fn batch_is_its_singles(events: Signatures, log: EventLog, items: Seq<(nat, nat)>)
    requires
        events.distinct(),
        log.topics.len() >= 4,
        log.topics[0] == events.transfer_batch,
        transfer_batch(log.data) == Some(items),
    ensures
        log_movements(events, log) == movements(
            events,
            Seq::new(items.len(), |i: int| single_log(events, log, items[i])),
        ),
{
    let (from, to) = (address_of(log.topics[2]), address_of(log.topics[3]));
    assert forall|i: int| 0 <= i < items.len() implies (#[trigger] items[i]).0 < word_limit() && items[i].1
        < word_limit() by {
        batch_items_are_words(log.data, items, i);
    }
    singles_are_batch(events, log, items);
    assert(log_movements(events, log) == erc1155_batch(log.address, from, to, items));
}

/// Transfers of single tokens move what a batch of them moves.
proof fn singles_are_batch(events: Signatures, log: EventLog, items: Seq<(nat, nat)>)
    requires
        events.distinct(),
        forall|i: int| 0 <= i < items.len() ==> (#[trigger] items[i]).0 < word_limit() && items[i].1 < word_limit(),
    ensures
        erc1155_batch(log.address, address_of(log.topics[2]), address_of(log.topics[3]), items) == movements(
            events,
            Seq::new(items.len(), |i: int| single_log(events, log, items[i])),
        ),
    decreases items.len(),
{
    let singles = Seq::new(items.len(), |i: int| single_log(events, log, items[i]));
    if items.len() > 0 {
        let earlier = items.drop_last();
        singles_are_batch(events, log, earlier);
        assert(singles.drop_last() =~= Seq::new(earlier.len(), |i: int| single_log(events, log, earlier[i])));
        let item = items.last();
        let single = single_log(events, log, item);
        assert(singles.last() == single);
        word_reads_back(item.0);
        word_reads_back(item.1);
        assert(single.data.subrange(0, 32) =~= be_bytes(item.0, 32));
        assert(single.data.subrange(32, 64) =~= be_bytes(item.1, 32));
        assert(log_movements(events, single) == erc1155_transfer(
            log.address,
            address_of(log.topics[2]),
            address_of(log.topics[3]),
            item,
        ));
    }
}

} // verus!
