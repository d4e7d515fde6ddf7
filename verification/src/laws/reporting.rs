//! What holds of the token changes that any movements add up to.

use crate::amount::{settled, Signed};
use crate::ledger::{with_erc1155_change, with_erc20_change, with_erc721_change, Erc1155Change, Erc721Change};
use crate::logs::{log_movements, movements, EventLog, Movement, Signatures};
use crate::text::digits;
use crate::token_changes::{
    erc1155_entry, erc1155_moves, erc1155_net, erc1155_touched, erc20_moves, erc20_net, erc20_report, erc721_moves,
    erc721_report, lists_erc1155, lists_ids, reports_erc1155,
};
use crate::word::be_value;
use vstd::prelude::*;

verus! {

/// An ERC-20 movement is one of its own owner and token, behind those before it, and of no
/// other; one of another kind is none.
pub proof fn erc20_movement_counts_once(moves: Seq<Movement>, movement: Movement, owner: Seq<u8>, token: Seq<u8>)
    ensures
        erc20_moves(Seq::empty(), owner, token).len() == 0,
        movement is Erc20 && movement->Erc20_owner == owner && movement->Erc20_token == token ==> erc20_moves(
            moves.push(movement),
            owner,
            token,
        ) == erc20_moves(moves, owner, token).push(movement->Erc20_change),
        !(movement is Erc20) || movement->Erc20_owner != owner || movement->Erc20_token != token ==> erc20_moves(
            moves.push(movement),
            owner,
            token,
        ) == erc20_moves(moves, owner, token),
{
    assert(moves.push(movement).drop_last() =~= moves);
}

/// An ERC-721 movement is one of its own owner and token, behind those before it, with its
/// identifier in decimal and whether it came or went, and of no other; one of another kind is
/// none.
pub proof fn erc721_movement_counts_once(moves: Seq<Movement>, movement: Movement, owner: Seq<u8>, token: Seq<u8>)
    ensures
        erc721_moves(Seq::empty(), owner, token).len() == 0,
        movement is Erc721 && movement->Erc721_owner == owner && movement->Erc721_token == token ==> erc721_moves(
            moves.push(movement),
            owner,
            token,
        ) == erc721_moves(moves, owner, token).push(
            Erc721Change { token_id: digits(movement->Erc721_id, 10), received: movement->received },
        ),
        !(movement is Erc721) || movement->Erc721_owner != owner || movement->Erc721_token != token ==> erc721_moves(
            moves.push(movement),
            owner,
            token,
        ) == erc721_moves(moves, owner, token),
{
    assert(moves.push(movement).drop_last() =~= moves);
}

/// An ERC-1155 movement is one of its own owner, token and identifier, behind those before it,
/// and of no other; one of another kind is none.
pub proof fn erc1155_movement_counts_once(
    moves: Seq<Movement>,
    movement: Movement,
    owner: Seq<u8>,
    token: Seq<u8>,
    id: nat,
)
    ensures
        erc1155_moves(Seq::empty(), owner, token, id).len() == 0,
        movement is Erc1155 && movement->Erc1155_owner == owner && movement->Erc1155_token == token
            && movement->Erc1155_id == id ==> erc1155_moves(moves.push(movement), owner, token, id) == erc1155_moves(
            moves,
            owner,
            token,
            id,
        ).push(movement->Erc1155_change),
        !(movement is Erc1155) || movement->Erc1155_owner != owner || movement->Erc1155_token != token
            || movement->Erc1155_id != id ==> erc1155_moves(moves.push(movement), owner, token, id) == erc1155_moves(
            moves,
            owner,
            token,
            id,
        ),
{
    assert(moves.push(movement).drop_last() =~= moves);
}

/// The ERC-20 report has an entry for an owner and a token if and only if what their changes
/// settle to is not nothing. The entry is that in hexadecimal: `0x` and the digits, with a
/// `-` before it where it is a loss.
pub proof fn erc20_entry_is_settled_amount(moves: Seq<Movement>, owner: Seq<u8>, token: Seq<u8>)
    ensures
        ({
            let report = erc20_report(moves);
            let amount = settled(erc20_moves(moves, owner, token));
            let listed = report.contains_key(owner) && report[owner].contains_key(token);
            &&& listed <==> amount.magnitude != 0
            &&& listed && amount.negative ==> report[owner][token] == seq!['-', '0', 'x'] + digits(
                amount.magnitude,
                16,
            )
            &&& listed && !amount.negative ==> report[owner][token] == seq!['0', 'x'] + digits(amount.magnitude, 16)
        }),
        erc20_report(moves).contains_key(owner) ==> exists|t: Seq<u8>| #[trigger]
            erc20_report(moves)[owner].contains_key(t),
{
    let report = erc20_report(moves);
    let amount = erc20_net(moves, owner, token);
    if amount.magnitude != 0 {
        assert(report.contains_key(owner));
        if amount.negative {
            assert(report[owner][token] =~= seq!['-', '0', 'x'] + digits(amount.magnitude, 16));
        }
    }
    if report.contains_key(owner) {
        let t = choose|t: Seq<u8>| (#[trigger] erc20_net(moves, owner, t)).magnitude != 0;
        assert(report[owner].contains_key(t));
    }
}

/// The ERC-721 report has an entry for an owner and a token if and only if any came or went.
/// The entry is all of them, in order.
pub proof fn erc721_entry_is_all_movements(moves: Seq<Movement>, owner: Seq<u8>, token: Seq<u8>)
    ensures
        ({
            let report = erc721_report(moves);
            let listed = report.contains_key(owner) && report[owner].contains_key(token);
            &&& listed <==> erc721_moves(moves, owner, token).len() > 0
            &&& listed ==> report[owner][token] == erc721_moves(moves, owner, token)
        }),
        erc721_report(moves).contains_key(owner) ==> exists|t: Seq<u8>| #[trigger]
            erc721_report(moves)[owner].contains_key(t),
{
    let report = erc721_report(moves);
    if erc721_moves(moves, owner, token).len() > 0 {
        assert(report.contains_key(owner));
    }
    if report.contains_key(owner) {
        let t = choose|t: Seq<u8>| (#[trigger] erc721_moves(moves, owner, t)).len() != 0;
        assert(report[owner].contains_key(t));
    }
}

/// The entry of an ERC-1155 report for an identifier: the identifier in decimal, and what its
/// changes settle to in decimal, with a `-` before it where it is a loss.
pub open spec fn is_entry_for(
    entry: Erc1155Change,
    moves: Seq<Movement>,
    owner: Seq<u8>,
    token: Seq<u8>,
    id: nat,
) -> bool {
    let amount = settled(erc1155_moves(moves, owner, token, id));
    &&& entry.token_id == digits(id, 10)
    &&& amount.negative && amount.magnitude != 0 ==> entry.change == seq!['-'] + digits(amount.magnitude, 10)
    &&& !amount.negative ==> entry.change == digits(amount.magnitude, 10)
}

/// An ERC-1155 report has an entry for an owner, a token and an identifier if and only if what
/// its changes settle to is not nothing, and every entry is that of such an identifier.
pub proof fn erc1155_entry_is_settled_amount(
    report: Map<Seq<u8>, Map<Seq<u8>, Seq<Erc1155Change>>>,
    moves: Seq<Movement>,
    owner: Seq<u8>,
    token: Seq<u8>,
    id: nat,
)
    requires
        reports_erc1155(report, moves),
    ensures
        settled(erc1155_moves(moves, owner, token, id)).magnitude != 0 ==> {
            &&& report.contains_key(owner)
            &&& report[owner].contains_key(token)
            &&& exists|i: int|
                0 <= i < report[owner][token].len() && is_entry_for(
                    #[trigger] report[owner][token][i],
                    moves,
                    owner,
                    token,
                    id,
                )
        },
        report.contains_key(owner) && report[owner].contains_key(token) ==> {
            &&& report[owner][token].len() > 0
            &&& forall|i: int|
                0 <= i < report[owner][token].len() ==> exists|n: nat|
                    is_entry_for(#[trigger] report[owner][token][i], moves, owner, token, n) && (
                    #[trigger] settled(erc1155_moves(moves, owner, token, n))).magnitude != 0
        },
{
    if erc1155_net(moves, owner, token, id).magnitude != 0 {
        assert(erc1155_touched(moves, owner, token));
    }
    if report.contains_key(owner) && report[owner].contains_key(token) {
        let list = report[owner][token];
        assert(lists_erc1155(list, moves, owner, token));
        let ids = choose|ids: Seq<nat>| #[trigger]
            lists_ids(ids, moves, owner, token) && list == Seq::new(
                ids.len(),
                |i: int| erc1155_entry(ids[i], erc1155_net(moves, owner, token, ids[i])),
            );
        let some = choose|n: nat| (#[trigger] erc1155_net(moves, owner, token, n)).magnitude != 0;
        assert(ids.contains(some));
        if erc1155_net(moves, owner, token, id).magnitude != 0 {
            assert(ids.contains(id));
            let at = ids.index_of(id);
            assert(is_entry_for(list[at], moves, owner, token, id));
        }
        assert forall|i: int| 0 <= i < list.len() implies exists|n: nat|
            is_entry_for(#[trigger] list[i], moves, owner, token, n) && (#[trigger] settled(
                erc1155_moves(moves, owner, token, n),
            )).magnitude != 0 by {
            assert(ids.contains(ids[i]));
            assert(erc1155_net(moves, owner, token, ids[i]).magnitude != 0);
            assert(is_entry_for(list[i], moves, owner, token, ids[i]));
            assert(settled(erc1155_moves(moves, owner, token, ids[i])).magnitude != 0);
        }
    }
}

/// A change of an ERC-20 amount adds to that of its owner and token, from nothing where there
/// is none, and leaves any other; a change of nothing leaves all.
pub proof fn erc20_change_adds_to_its_amount(
    amounts: Map<Seq<u8>, Map<Seq<u8>, Signed>>,
    owner: Seq<u8>,
    token: Seq<u8>,
    change: Signed,
    other_owner: Seq<u8>,
    other_token: Seq<u8>,
)
    ensures
        ({
            let after = with_erc20_change(amounts, owner, token, change);
            let had = amounts.contains_key(owner) && amounts[owner].contains_key(token);
            &&& change.magnitude == 0 ==> after == amounts
            &&& change.magnitude != 0 ==> {
                &&& after.contains_key(owner)
                &&& after[owner].contains_key(token)
                &&& had ==> after[owner][token] == amounts[owner][token].moved_by(change.value())
                &&& !had ==> after[owner][token] == (Signed { negative: false, magnitude: 0 }).moved_by(change.value())
            }
            &&& other_owner != owner ==> (after.contains_key(other_owner) <==> amounts.contains_key(other_owner))
                && after[other_owner] == amounts[other_owner]
            &&& other_token != token && amounts.contains_key(owner) ==> (after[owner].contains_key(other_token)
                <==> amounts[owner].contains_key(other_token)) && after[owner][other_token]
                == amounts[owner][other_token]
            &&& other_token != token && !amounts.contains_key(owner) && change.magnitude != 0
                ==> !after[owner].contains_key(other_token)
        }),
{
}

/// A change of an ERC-1155 amount adds to that of its owner, token and identifier, from nothing
/// where there is none, and leaves any other; a change of nothing leaves all.
pub proof fn erc1155_change_adds_to_its_amount(
    amounts: Map<Seq<u8>, Map<Seq<u8>, Map<nat, Signed>>>,
    owner: Seq<u8>,
    token: Seq<u8>,
    id: nat,
    change: Signed,
    other_owner: Seq<u8>,
    other_token: Seq<u8>,
    other_id: nat,
)
    ensures
        ({
            let after = with_erc1155_change(amounts, owner, token, id, change);
            let has_token = amounts.contains_key(owner) && amounts[owner].contains_key(token);
            let had = has_token && amounts[owner][token].contains_key(id);
            &&& change.magnitude == 0 ==> after == amounts
            &&& change.magnitude != 0 ==> {
                &&& after.contains_key(owner)
                &&& after[owner].contains_key(token)
                &&& after[owner][token].contains_key(id)
                &&& had ==> after[owner][token][id] == amounts[owner][token][id].moved_by(change.value())
                &&& !had ==> after[owner][token][id] == (Signed { negative: false, magnitude: 0 }).moved_by(
                    change.value(),
                )
            }
            &&& other_owner != owner ==> (after.contains_key(other_owner) <==> amounts.contains_key(other_owner))
                && after[other_owner] == amounts[other_owner]
            &&& other_token != token && amounts.contains_key(owner) ==> (after[owner].contains_key(other_token)
                <==> amounts[owner].contains_key(other_token)) && after[owner][other_token]
                == amounts[owner][other_token]
            &&& other_id != id && has_token ==> (after[owner][token].contains_key(other_id)
                <==> amounts[owner][token].contains_key(other_id)) && after[owner][token][other_id]
                == amounts[owner][token][other_id]
            &&& other_id != id && !has_token && change.magnitude != 0 ==> !after[owner][token].contains_key(other_id)
        }),
{
}

/// An ERC-721 change is behind those of its owner and token, and leaves those of any other.
pub proof fn erc721_change_is_behind_its_own(
    changes: Map<Seq<u8>, Map<Seq<u8>, Seq<Erc721Change>>>,
    owner: Seq<u8>,
    token: Seq<u8>,
    change: Erc721Change,
    other_owner: Seq<u8>,
    other_token: Seq<u8>,
)
    ensures
        ({
            let after = with_erc721_change(changes, owner, token, change);
            let had = changes.contains_key(owner) && changes[owner].contains_key(token);
            &&& after.contains_key(owner)
            &&& after[owner].contains_key(token)
            &&& had ==> after[owner][token] == changes[owner][token].push(change)
            &&& !had ==> after[owner][token] == seq![change]
            &&& other_owner != owner ==> (after.contains_key(other_owner) <==> changes.contains_key(other_owner))
                && after[other_owner] == changes[other_owner]
            &&& other_token != token && changes.contains_key(owner) ==> (after[owner].contains_key(other_token)
                <==> changes[owner].contains_key(other_token)) && after[owner][other_token]
                == changes[owner][other_token]
        }),
{
}

/// An ERC-721 transfer to an account behind any logs is the last entry of its list, as one that
/// came, whoever sent it; one from an account is in its list as one that went.
pub proof fn erc721_transfer_is_reported(events: Signatures, logs: Seq<EventLog>, log: EventLog)
    requires
        log.topics.len() == 4,
        log.topics[0] == events.transfer,
    ensures
        ({
            let zero = Seq::new(20, |i: int| 0u8);
            let from = log.topics[1].subrange(12, 32);
            let to = log.topics[2].subrange(12, 32);
            let token = log.address;
            let id = digits(be_value(log.topics[3]), 10);
            let report = erc721_report(movements(events, logs.push(log)));
            let came = Erc721Change { token_id: id, received: true };
            let went = Erc721Change { token_id: id, received: false };
            &&& to != zero ==> {
                &&& report.contains_key(to)
                &&& report[to].contains_key(token)
                &&& report[to][token].len() > 0
                &&& report[to][token].last() == came
            }
            &&& from != zero && from != to ==> {
                &&& report.contains_key(from)
                &&& report[from].contains_key(token)
                &&& report[from][token].len() > 0
                &&& report[from][token].last() == went
            }
        }),
{
    let zero = Seq::new(20, |i: int| 0u8);
    let from = log.topics[1].subrange(12, 32);
    let to = log.topics[2].subrange(12, 32);
    let token = log.address;
    let id = be_value(log.topics[3]);
    let before = movements(events, logs);
    let loss = Movement::Erc721 { owner: from, token, id, received: false };
    let gain = Movement::Erc721 { owner: to, token, id, received: true };
    let all = movements(events, logs.push(log));
    crate::laws::decoding::erc721_log_moves_both_sides(events, log);
    crate::laws::decoding::logs_report_in_order(events, logs, log);
    let moved = log_movements(events, log);
    let lost = if from != zero {
        before.push(loss)
    } else {
        before
    };
    let gained = if to != zero {
        lost.push(gain)
    } else {
        lost
    };
    assert(all =~= gained);
    erc721_movement_counts_once(before, loss, from, token);
    erc721_movement_counts_once(lost, gain, from, token);
    erc721_movement_counts_once(lost, gain, to, token);
    erc721_entry_is_all_movements(all, from, token);
    erc721_entry_is_all_movements(all, to, token);
}

/// An ERC-20 transfer between different accounts behind any logs takes its amount from what the
/// one gained and adds it to what the other gained. A mint adds to the one that gets it, and
/// a burn takes from the one that had it.
pub proof fn erc20_transfer_is_reported(events: Signatures, logs: Seq<EventLog>, log: EventLog)
    requires
        log.topics.len() == 3,
        log.topics[0] == events.transfer,
        log.data.len() >= 32,
        log.topics[1].subrange(12, 32) != log.topics[2].subrange(12, 32),
    ensures
        ({
            let zero = Seq::new(20, |i: int| 0u8);
            let from = log.topics[1].subrange(12, 32);
            let to = log.topics[2].subrange(12, 32);
            let token = log.address;
            let amount = be_value(log.data.subrange(0, 32)) as int;
            let before = movements(events, logs);
            let after = movements(events, logs.push(log));
            &&& to != zero ==> erc20_moves(after, to, token) == erc20_moves(before, to, token).push(amount)
            &&& from != zero ==> erc20_moves(after, from, token) == erc20_moves(before, from, token).push(-amount)
        }),
{
    let zero = Seq::new(20, |i: int| 0u8);
    let from = log.topics[1].subrange(12, 32);
    let to = log.topics[2].subrange(12, 32);
    let token = log.address;
    let amount = be_value(log.data.subrange(0, 32)) as int;
    let before = movements(events, logs);
    let loss = Movement::Erc20 { owner: from, token, change: -amount };
    let gain = Movement::Erc20 { owner: to, token, change: amount };
    crate::laws::decoding::erc20_log_moves_both_sides(events, log);
    crate::laws::decoding::logs_report_in_order(events, logs, log);
    let lost = if from != zero {
        before.push(loss)
    } else {
        before
    };
    let gained = if to != zero {
        lost.push(gain)
    } else {
        lost
    };
    assert(movements(events, logs.push(log)) =~= gained);
    erc20_movement_counts_once(before, loss, from, token);
    erc20_movement_counts_once(before, loss, to, token);
    erc20_movement_counts_once(lost, gain, from, token);
    erc20_movement_counts_once(lost, gain, to, token);
}

} // verus!
