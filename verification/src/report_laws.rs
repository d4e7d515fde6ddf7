//! What holds of the reports of token changes of any logs.

use crate::abi::{address_of, transfer_batch, word_at};
use crate::amount::{settled, settled_is_sum, sum_of};
use crate::ledger::{Erc1155Change, Erc721Change};
use crate::logs::{
    base_weth, erc1155_batch, erc1155_transfer, log_movements, movements, unless_zero, EventLog, Movement,
    Signatures,
};
use crate::text::{digits_read_back, signed_hex_value};
use crate::token_changes::{
    erc1155_entry, erc1155_moves, erc1155_net, erc1155_touched, erc20_moves, erc20_net, erc20_report, erc721_moves,
    erc721_report, lists_erc1155, lists_ids, reports_erc1155,
};
use crate::token_laws::{
    batch_is_its_singles, erc20_report_is_sum, erc20_total, is_transfer_between_accounts, movements_append,
    single_log, transfers_conserve,
};
use crate::word::word_limit;
use vstd::prelude::*;

verus! {

/// Two reports have the same owners and tokens, and the same lists up to their order.
pub open spec fn same_up_to_order<A>(
    one: Map<Seq<u8>, Map<Seq<u8>, Seq<A>>>,
    other: Map<Seq<u8>, Map<Seq<u8>, Seq<A>>>,
) -> bool {
    &&& one.dom() == other.dom()
    &&& forall|owner: Seq<u8>| #[trigger] one.contains_key(owner) ==> one[owner].dom() == other[owner].dom()
    &&& forall|owner: Seq<u8>, token: Seq<u8>|
        one.contains_key(owner) && #[trigger] one[owner].contains_key(token) ==> one[owner][token].to_multiset()
            == other[owner][token].to_multiset()
}

/// The entries of an ERC-1155 list.
proof fn list_elements(list: Seq<Erc1155Change>, moves: Seq<Movement>, owner: Seq<u8>, token: Seq<u8>)
    requires
        lists_erc1155(list, moves, owner, token),
    ensures
        list.no_duplicates(),
        forall|entry: Erc1155Change| #[trigger]
            list.contains(entry) <==> exists|id: nat|
                (#[trigger] erc1155_net(moves, owner, token, id)).magnitude != 0 && entry == erc1155_entry(
                    id,
                    erc1155_net(moves, owner, token, id),
                ),
{
    let ids = choose|ids: Seq<nat>| #[trigger]
        lists_ids(ids, moves, owner, token) && list == Seq::new(
            ids.len(),
            |i: int| erc1155_entry(ids[i], erc1155_net(moves, owner, token, ids[i])),
        );
    assert forall|i: int, j: int| 0 <= i < list.len() && 0 <= j < list.len() && i != j implies list[i]
        != list[j] by {
        digits_read_back(ids[i], 10);
        digits_read_back(ids[j], 10);
        assert(ids[i] != ids[j]);
    }
    assert forall|entry: Erc1155Change| #[trigger] list.contains(entry) <==> exists|id: nat|
        (#[trigger] erc1155_net(moves, owner, token, id)).magnitude != 0 && entry == erc1155_entry(
            id,
            erc1155_net(moves, owner, token, id),
        ) by {
        if list.contains(entry) {
            let i = list.index_of(entry);
            assert(list[i] == entry);
            assert(ids.contains(ids[i]));
            assert(erc1155_net(moves, owner, token, ids[i]).magnitude != 0);
        }
        if exists|id: nat|
            (#[trigger] erc1155_net(moves, owner, token, id)).magnitude != 0 && entry == erc1155_entry(
                id,
                erc1155_net(moves, owner, token, id),
            ) {
            let id = choose|id: nat|
                (#[trigger] erc1155_net(moves, owner, token, id)).magnitude != 0 && entry == erc1155_entry(
                    id,
                    erc1155_net(moves, owner, token, id),
                );
            assert(ids.contains(id));
            let i = ids.index_of(id);
            assert(list[i] == entry);
        }
    }
}

/// Sequences without duplicates and with the same elements are the same up to order.
proof fn same_elements_same_multiset<A>(one: Seq<A>, other: Seq<A>)
    requires
        one.no_duplicates(),
        other.no_duplicates(),
        forall|x: A| #[trigger] one.contains(x) <==> other.contains(x),
    ensures
        one.to_multiset() == other.to_multiset(),
{
    one.to_multiset_ensures();
    other.to_multiset_ensures();
    one.lemma_multiset_has_no_duplicates();
    other.lemma_multiset_has_no_duplicates();
    assert forall|x: A| one.to_multiset().count(x) == #[trigger] other.to_multiset().count(x) by {
        assert(one.contains(x) <==> other.contains(x));
    }
    assert(one.to_multiset() =~= other.to_multiset());
}

/// ERC-1155 reports are the same up to order where the net changes are.
pub proof fn erc1155_reports_agree(
    one: Seq<Movement>,
    other: Seq<Movement>,
    report: Map<Seq<u8>, Map<Seq<u8>, Seq<Erc1155Change>>>,
    other_report: Map<Seq<u8>, Map<Seq<u8>, Seq<Erc1155Change>>>,
)
    requires
        reports_erc1155(report, one),
        reports_erc1155(other_report, other),
        forall|owner: Seq<u8>, token: Seq<u8>, id: nat|
            (#[trigger] erc1155_net(one, owner, token, id)).value() == erc1155_net(other, owner, token, id).value(),
    ensures
        same_up_to_order(report, other_report),
{
    assert forall|owner: Seq<u8>, token: Seq<u8>| #[trigger] erc1155_touched(one, owner, token)
        <==> erc1155_touched(other, owner, token) by {
        if erc1155_touched(one, owner, token) {
            let id = choose|id: nat| (#[trigger] erc1155_net(one, owner, token, id)).magnitude != 0;
            assert(erc1155_net(one, owner, token, id).value() == erc1155_net(other, owner, token, id).value());
            assert(erc1155_net(other, owner, token, id).magnitude != 0);
        }
        if erc1155_touched(other, owner, token) {
            let id = choose|id: nat| (#[trigger] erc1155_net(other, owner, token, id)).magnitude != 0;
            assert(erc1155_net(one, owner, token, id).value() == erc1155_net(other, owner, token, id).value());
            assert(erc1155_net(one, owner, token, id).magnitude != 0);
        }
    }
    assert forall|owner: Seq<u8>| #[trigger] report.contains_key(owner) <==> other_report.contains_key(owner) by {
        if report.contains_key(owner) {
            let token = choose|token: Seq<u8>| #[trigger] erc1155_touched(one, owner, token);
            assert(erc1155_touched(other, owner, token));
        }
        if other_report.contains_key(owner) {
            let token = choose|token: Seq<u8>| #[trigger] erc1155_touched(other, owner, token);
            assert(erc1155_touched(one, owner, token));
        }
    }
    assert(report.dom() =~= other_report.dom());
    assert forall|owner: Seq<u8>| #[trigger] report.contains_key(owner) implies report[owner].dom()
        == other_report[owner].dom() by {
        assert(other_report.contains_key(owner));
        assert forall|token: Seq<u8>| report[owner].dom().contains(token) <==> #[trigger] other_report[owner].dom().contains(
            token,
        ) by {
            assert(report[owner].contains_key(token) <==> erc1155_touched(one, owner, token));
            assert(other_report[owner].contains_key(token) <==> erc1155_touched(other, owner, token));
        }
        assert(report[owner].dom() =~= other_report[owner].dom());
    }
    assert forall|owner: Seq<u8>, token: Seq<u8>|
        report.contains_key(owner) && #[trigger] report[owner].contains_key(token) implies report[owner][token].to_multiset()
        == other_report[owner][token].to_multiset() by {
        assert(other_report.contains_key(owner));
        assert(erc1155_touched(one, owner, token));
        assert(other_report[owner].contains_key(token));
        let (list, other_list) = (report[owner][token], other_report[owner][token]);
        list_elements(list, one, owner, token);
        list_elements(other_list, other, owner, token);
        assert forall|entry: Erc1155Change| #[trigger] list.contains(entry) <==> other_list.contains(entry) by {
            if list.contains(entry) {
                let id = choose|id: nat|
                    (#[trigger] erc1155_net(one, owner, token, id)).magnitude != 0 && entry == erc1155_entry(
                        id,
                        erc1155_net(one, owner, token, id),
                    );
                assert(erc1155_net(one, owner, token, id).value() == erc1155_net(other, owner, token, id).value());
                assert(erc1155_net(other, owner, token, id).magnitude != 0);
            }
            if other_list.contains(entry) {
                let id = choose|id: nat|
                    (#[trigger] erc1155_net(other, owner, token, id)).magnitude != 0 && entry == erc1155_entry(
                        id,
                        erc1155_net(other, owner, token, id),
                    );
                assert(erc1155_net(one, owner, token, id).value() == erc1155_net(other, owner, token, id).value());
                assert(erc1155_net(one, owner, token, id).magnitude != 0);
            }
        }
        same_elements_same_multiset(list, other_list);
    }
}

/// A log that is not one of the five events, or that does not have the topics, the data
/// or the contract of its event.
pub open spec fn is_malformed(events: Signatures, log: EventLog) -> bool {
    let count = log.topics.len();
    let size = log.data.len();
    count == 0 || {
        &&& log.topics[0] == events.transfer ==> (count != 3 && count != 4) || (count == 3 && size < 32)
        &&& log.topics[0] == events.transfer_single ==> count < 4 || size < 64
        &&& log.topics[0] == events.transfer_batch ==> count < 4 || transfer_batch(log.data) is None
        &&& log.topics[0] == events.deposit ==> log.address != base_weth() || count < 2 || size < 32
        &&& log.topics[0] == events.withdrawal ==> log.address != base_weth() || count < 2 || size < 32
    }
}

/// A malformed log is skipped as a whole, and those after it are not: the reports are
/// those of the other logs.
pub proof fn malformed_log_is_skipped(
    events: Signatures,
    first: Seq<EventLog>,
    log: EventLog,
    second: Seq<EventLog>,
    report: Map<Seq<u8>, Map<Seq<u8>, Seq<Erc1155Change>>>,
    other_report: Map<Seq<u8>, Map<Seq<u8>, Seq<Erc1155Change>>>,
)
    requires
        is_malformed(events, log),
        reports_erc1155(report, movements(events, first + seq![log] + second)),
        reports_erc1155(other_report, movements(events, first + second)),
    ensures
        movements(events, first + seq![log] + second) == movements(events, first + second),
        erc20_report(movements(events, first + seq![log] + second)) == erc20_report(movements(events, first + second)),
        erc721_report(movements(events, first + seq![log] + second)) == erc721_report(
            movements(events, first + second),
        ),
        same_up_to_order(report, other_report),
{
    replaced_logs_move_the_same(events, first, seq![log], Seq::empty(), second);
    assert(seq![log].drop_last() =~= Seq::empty());
    assert(movements(events, seq![log]) =~= movements(events, Seq::empty()) + log_movements(events, log));
    assert(movements(events, seq![log]) =~= Seq::empty());
    assert(first + Seq::<EventLog>::empty() + second =~= first + second);
    let moves = movements(events, first + second);
    erc1155_reports_agree(moves, moves, report, other_report);
}

/// Logs that move the same can stand for each other.
proof fn replaced_logs_move_the_same(
    events: Signatures,
    first: Seq<EventLog>,
    middle: Seq<EventLog>,
    other: Seq<EventLog>,
    second: Seq<EventLog>,
)
    ensures
        movements(events, middle) == movements(events, other) ==> movements(events, first + middle + second)
            == movements(events, first + other + second),
{
    movements_append(events, first, middle);
    movements_append(events, first + middle, second);
    movements_append(events, first, other);
    movements_append(events, first + other, second);
}

/// A transfer of several ERC-1155 tokens among other logs is reported as transfers of
/// each of them in its place.
pub proof fn batch_is_reported_as_its_singles(
    events: Signatures,
    first: Seq<EventLog>,
    log: EventLog,
    items: Seq<(nat, nat)>,
    second: Seq<EventLog>,
    report: Map<Seq<u8>, Map<Seq<u8>, Seq<Erc1155Change>>>,
    other_report: Map<Seq<u8>, Map<Seq<u8>, Seq<Erc1155Change>>>,
)
    requires
        events.distinct(),
        log.topics.len() >= 4,
        log.topics[0] == events.transfer_batch,
        transfer_batch(log.data) == Some(items),
        reports_erc1155(report, movements(events, first + seq![log] + second)),
        reports_erc1155(
            other_report,
            movements(
                events,
                first + Seq::new(items.len(), |i: int| single_log(events, log, items[i])) + second,
            ),
        ),
    ensures
        ({
            let singles = Seq::new(items.len(), |i: int| single_log(events, log, items[i]));
            let moves = movements(events, first + seq![log] + second);
            let other = movements(events, first + singles + second);
            &&& erc20_report(moves) == erc20_report(other)
            &&& erc721_report(moves) == erc721_report(other)
            &&& same_up_to_order(report, other_report)
        }),
{
    let singles = Seq::new(items.len(), |i: int| single_log(events, log, items[i]));
    batch_is_its_singles(events, log, items);
    assert(seq![log].drop_last() =~= Seq::empty());
    assert(movements(events, seq![log]) =~= movements(events, Seq::empty()) + log_movements(events, log));
    assert(movements(events, seq![log]) =~= log_movements(events, log));
    replaced_logs_move_the_same(events, first, seq![log], singles, second);
    let moves = movements(events, first + seq![log] + second);
    erc1155_reports_agree(moves, moves, report, other_report);
}

/// A balance that fungible tokens move.
pub enum Balance {
    /// The ERC-20 balance of an owner in a token.
    Erc20 { owner: Seq<u8>, token: Seq<u8> },
    /// The ERC-1155 balance of an owner in one token of a contract.
    Erc1155 { owner: Seq<u8>, token: Seq<u8>, id: nat },
}

/// The changes of a balance.
pub open spec fn changes_of(moves: Seq<Movement>, balance: Balance) -> Seq<int> {
    match balance {
        Balance::Erc20 { owner, token } => erc20_moves(moves, owner, token),
        Balance::Erc1155 { owner, token, id } => erc1155_moves(moves, owner, token, id),
    }
}

/// Movements change a balance one after the other.
proof fn changes_append(first: Seq<Movement>, second: Seq<Movement>, balance: Balance)
    ensures
        changes_of(first + second, balance) == changes_of(first, balance) + changes_of(second, balance),
    decreases second.len(),
{
    if second.len() == 0 {
        assert(first + second =~= first);
        assert(changes_of(first, balance) + changes_of(second, balance) =~= changes_of(first, balance));
    } else {
        changes_append(first, second.drop_last(), balance);
        assert((first + second).drop_last() =~= first + second.drop_last());
        assert((first + second).last() == second.last());
        assert(changes_of(first + second, balance) =~= changes_of(first, balance) + changes_of(second, balance));
    }
}

/// Movements list ERC-721 tokens one after the other.
proof fn erc721_moves_append(first: Seq<Movement>, second: Seq<Movement>, owner: Seq<u8>, token: Seq<u8>)
    ensures
        erc721_moves(first + second, owner, token) == erc721_moves(first, owner, token) + erc721_moves(
            second,
            owner,
            token,
        ),
    decreases second.len(),
{
    let both = erc721_moves(first, owner, token) + erc721_moves(second, owner, token);
    if second.len() == 0 {
        assert(first + second =~= first);
        assert(both =~= erc721_moves(first, owner, token));
    } else {
        erc721_moves_append(first, second.drop_last(), owner, token);
        assert((first + second).drop_last() =~= first + second.drop_last());
        assert((first + second).last() == second.last());
        assert(erc721_moves(first + second, owner, token) =~= both);
    }
}

/// What the gains among changes add up to.
pub open spec fn gain_of(changes: Seq<int>) -> nat
    decreases changes.len(),
{
    if changes.len() == 0 {
        0
    } else {
        gain_of(changes.drop_last()) + (if changes.last() > 0 {
            changes.last() as nat
        } else {
            0
        })
    }
}

/// What the losses among changes add up to.
pub open spec fn loss_of(changes: Seq<int>) -> nat
    decreases changes.len(),
{
    if changes.len() == 0 {
        0
    } else {
        loss_of(changes.drop_last()) + (if changes.last() < 0 {
            (-changes.last()) as nat
        } else {
            0
        })
    }
}

/// Sums, gains and losses of changes one after the other.
proof fn sums_append(first: Seq<int>, second: Seq<int>)
    ensures
        sum_of(first + second) == sum_of(first) + sum_of(second),
        gain_of(first + second) == gain_of(first) + gain_of(second),
        loss_of(first + second) == loss_of(first) + loss_of(second),
    decreases second.len(),
{
    if second.len() == 0 {
        assert(first + second =~= first);
    } else {
        sums_append(first, second.drop_last());
        assert((first + second).drop_last() =~= first + second.drop_last());
    }
}

/// A sum on the way is between all losses and all gains.
proof fn sums_are_bounded(changes: Seq<int>, n: int)
    requires
        0 <= n <= changes.len(),
    ensures
        -(loss_of(changes) as int) <= sum_of(changes.take(n)) <= gain_of(changes),
{
    sums_append(changes.take(n), changes.skip(n));
    assert(changes.take(n) + changes.skip(n) =~= changes);
    sum_is_gain_less_loss(changes.take(n));
}

/// A sum is what was gained less what was lost.
proof fn sum_is_gain_less_loss(changes: Seq<int>)
    ensures
        sum_of(changes) == gain_of(changes) - loss_of(changes),
    decreases changes.len(),
{
    if changes.len() > 0 {
        sum_is_gain_less_loss(changes.drop_last());
    }
}

/// What the amounts of a batch add up to.
pub open spec fn batch_amount(items: Seq<(nat, nat)>) -> nat
    decreases items.len(),
{
    if items.len() == 0 {
        0
    } else {
        batch_amount(items.drop_last()) + items.last().1
    }
}

/// The amount of fungible tokens that a log transfers, all its tokens together.
pub open spec fn log_amount(events: Signatures, log: EventLog) -> nat {
    let EventLog { address, topics, data } = log;
    if is_malformed(events, log) {
        0
    } else if topics[0] == events.transfer && topics.len() == 3 {
        word_at(data, 0)
    } else if topics[0] == events.transfer && topics.len() == 4 {
        0
    } else if topics[0] == events.transfer_single {
        word_at(data, 32)
    } else if topics[0] == events.transfer_batch {
        batch_amount(transfer_batch(data)->0)
    } else {
        word_at(data, 0)
    }
}

/// A sum over the elements of a sequence.
pub open spec fn sum_over<A>(items: Seq<A>, weight: spec_fn(A) -> int) -> int
    decreases items.len(),
{
    if items.len() == 0 {
        0
    } else {
        sum_over(items.drop_last(), weight) + weight(items.last())
    }
}

/// The amount of a log, as a weight.
pub open spec fn amounts(events: Signatures) -> spec_fn(EventLog) -> int {
    |log: EventLog| log_amount(events, log) as int
}

/// The amount of fungible tokens that logs transfer, all tokens together.
pub open spec fn total_amount(events: Signatures, logs: Seq<EventLog>) -> int {
    sum_over(logs, amounts(events))
}

/// A sum over elements one after the other.
proof fn sum_over_append<A>(first: Seq<A>, second: Seq<A>, weight: spec_fn(A) -> int)
    ensures
        sum_over(first + second, weight) == sum_over(first, weight) + sum_over(second, weight),
    decreases second.len(),
{
    if second.len() == 0 {
        assert(first + second =~= first);
    } else {
        sum_over_append(first, second.drop_last(), weight);
        assert((first + second).drop_last() =~= first + second.drop_last());
    }
}

/// A sum over elements without one of them.
proof fn sum_over_without<A>(items: Seq<A>, at: int, weight: spec_fn(A) -> int)
    requires
        0 <= at < items.len(),
    ensures
        sum_over(items, weight) == sum_over(items.remove(at), weight) + weight(items[at]),
{
    let (before, after) = (items.take(at), items.skip(at + 1));
    sum_over_append(before, seq![items[at]], weight);
    sum_over_append(before + seq![items[at]], after, weight);
    sum_over_append(before, after, weight);
    assert(before + seq![items[at]] + after =~= items);
    assert(before + after =~= items.remove(at));
    assert(seq![items[at]].drop_last() =~= Seq::empty());
    assert(sum_over(seq![items[at]], weight) == sum_over(Seq::<A>::empty(), weight) + weight(items[at]));
}

/// A sum does not depend on the order of the elements.
proof fn sum_over_reordered<A>(one: Seq<A>, other: Seq<A>, weight: spec_fn(A) -> int)
    requires
        one.to_multiset() == other.to_multiset(),
    ensures
        sum_over(one, weight) == sum_over(other, weight),
    decreases one.len(),
{
    one.to_multiset_ensures();
    other.to_multiset_ensures();
    if one.len() == 0 {
        assert(other.len() == 0);
    } else {
        let last = one.len() - 1;
        assert(one.contains(one[last]));
        assert(other.to_multiset().count(one[last]) > 0);
        let at = other.index_of(one[last]);
        assert(other[at] == one[last]);
        sum_over_without(one, last, weight);
        sum_over_without(other, at, weight);
        assert(one.remove(last).to_multiset() =~= other.remove(at).to_multiset());
        sum_over_reordered(one.remove(last), other.remove(at), weight);
    }
}

/// What a movement that is there unless it is one of the zero address changes.
proof fn unless_zero_changes(movement: Movement, balance: Balance)
    ensures
        changes_of(unless_zero(movement), balance) == Seq::<int>::empty() || match movement {
            Movement::Erc20 { change, .. } => changes_of(unless_zero(movement), balance) == seq![change],
            Movement::Erc1155 { change, .. } => changes_of(unless_zero(movement), balance) == seq![change],
            _ => false,
        },
{
    let list = unless_zero(movement);
    if list.len() > 0 {
        assert(changes_of(list.drop_last(), balance) =~= Seq::empty());
        assert(list.last() == movement);
        let changes = changes_of(list, balance);
        if changes.len() > 0 {
            match movement {
                Movement::Erc20 { change, .. } => {
                    assert(changes =~= seq![change]);
                },
                Movement::Erc1155 { change, .. } => {
                    assert(changes =~= seq![change]);
                },
                _ => {},
            }
        } else {
            assert(changes =~= Seq::empty());
        }
    } else {
        assert(changes_of(list, balance) =~= Seq::empty());
    }
}

/// A change alone.
proof fn one_change(change: int)
    ensures
        sum_of(seq![change]) == change,
        gain_of(seq![change]) == if change > 0 { change } else { 0 },
        loss_of(seq![change]) == if change < 0 { -change } else { 0 },
{
    assert(seq![change].drop_last() =~= Seq::empty());
    assert(sum_of(Seq::empty()) == 0 && gain_of(Seq::empty()) == 0 && loss_of(Seq::empty()) == 0);
}

/// What two sides of a transfer change is within its amount.
proof fn two_sides_are_bounded(lost: Movement, gained: Movement, amount: nat, balance: Balance)
    requires
        match (lost, gained) {
            (
                Movement::Erc20 { change: loss, .. },
                Movement::Erc20 { change: gain, .. },
            ) => loss == -amount && gain == amount,
            (
                Movement::Erc1155 { change: loss, .. },
                Movement::Erc1155 { change: gain, .. },
            ) => loss == -amount && gain == amount,
            _ => false,
        },
    ensures
        gain_of(changes_of(unless_zero(lost) + unless_zero(gained), balance)) <= amount,
        loss_of(changes_of(unless_zero(lost) + unless_zero(gained), balance)) <= amount,
{
    changes_append(unless_zero(lost), unless_zero(gained), balance);
    unless_zero_changes(lost, balance);
    unless_zero_changes(gained, balance);
    sums_append(changes_of(unless_zero(lost), balance), changes_of(unless_zero(gained), balance));
    one_change(amount as int);
    one_change(-amount);
}

/// What a batch changes is within its amounts.
proof fn batch_is_bounded(token: Seq<u8>, from: Seq<u8>, to: Seq<u8>, items: Seq<(nat, nat)>, balance: Balance)
    ensures
        gain_of(changes_of(erc1155_batch(token, from, to, items), balance)) <= batch_amount(items),
        loss_of(changes_of(erc1155_batch(token, from, to, items), balance)) <= batch_amount(items),
    decreases items.len(),
{
    if items.len() == 0 {
        assert(changes_of(erc1155_batch(token, from, to, items), balance) =~= Seq::empty());
    } else {
        let item = items.last();
        let earlier = erc1155_batch(token, from, to, items.drop_last());
        batch_is_bounded(token, from, to, items.drop_last(), balance);
        changes_append(earlier, erc1155_transfer(token, from, to, item), balance);
        sums_append(
            changes_of(earlier, balance),
            changes_of(erc1155_transfer(token, from, to, item), balance),
        );
        two_sides_are_bounded(
            Movement::Erc1155 { owner: from, token, id: item.0, change: -item.1 },
            Movement::Erc1155 { owner: to, token, id: item.0, change: item.1 as int },
            item.1,
            balance,
        );
    }
}

/// What a log changes of a balance is within its amount.
proof fn log_is_bounded(events: Signatures, log: EventLog, balance: Balance)
    ensures
        gain_of(changes_of(log_movements(events, log), balance)) <= log_amount(events, log),
        loss_of(changes_of(log_movements(events, log), balance)) <= log_amount(events, log),
{
    let EventLog { address: token, topics, data } = log;
    let moves = log_movements(events, log);
    if is_malformed(events, log) {
        assert(moves =~= Seq::empty());
        assert(changes_of(moves, balance) =~= Seq::empty());
    } else if topics[0] == events.transfer && topics.len() == 3 {
        let (from, to, amount) = (address_of(topics[1]), address_of(topics[2]), word_at(data, 0));
        two_sides_are_bounded(
            Movement::Erc20 { owner: from, token, change: -amount },
            Movement::Erc20 { owner: to, token, change: amount as int },
            amount,
            balance,
        );
    } else if topics[0] == events.transfer && topics.len() == 4 {
        let (from, to) = (address_of(topics[1]), address_of(topics[2]));
        let id = crate::word::be_value(topics[3]);
        let lost = Movement::Erc721 { owner: from, token, id, received: false };
        let gained = Movement::Erc721 { owner: to, token, id, received: true };
        changes_append(unless_zero(lost), unless_zero(gained), balance);
        unless_zero_changes(lost, balance);
        unless_zero_changes(gained, balance);
        assert(changes_of(moves, balance) =~= Seq::empty());
    } else if topics[0] == events.transfer_single {
        let (from, to) = (address_of(topics[2]), address_of(topics[3]));
        let (id, amount) = (word_at(data, 0), word_at(data, 32));
        two_sides_are_bounded(
            Movement::Erc1155 { owner: from, token, id, change: -amount },
            Movement::Erc1155 { owner: to, token, id, change: amount as int },
            amount,
            balance,
        );
    } else if topics[0] == events.transfer_batch {
        let (from, to) = (address_of(topics[2]), address_of(topics[3]));
        batch_is_bounded(token, from, to, transfer_batch(data)->0, balance);
    } else {
        let (owner, amount) = (address_of(topics[1]), word_at(data, 0));
        unless_zero_changes(Movement::Erc20 { owner, token, change: amount as int }, balance);
        unless_zero_changes(Movement::Erc20 { owner, token, change: -amount }, balance);
        one_change(amount as int);
        one_change(-amount);
        if changes_of(moves, balance).len() == 0 {
            assert(changes_of(moves, balance) =~= Seq::empty());
        }
    }
}

/// What a log adds to a balance, as a weight.
pub open spec fn effect(events: Signatures, balance: Balance) -> spec_fn(EventLog) -> int {
    |log: EventLog| sum_of(changes_of(log_movements(events, log), balance))
}

/// What logs change of a balance is within their amounts, and is what each of them adds.
proof fn logs_are_bounded(events: Signatures, logs: Seq<EventLog>, balance: Balance)
    ensures
        gain_of(changes_of(movements(events, logs), balance)) <= total_amount(events, logs),
        loss_of(changes_of(movements(events, logs), balance)) <= total_amount(events, logs),
        sum_of(changes_of(movements(events, logs), balance)) == sum_over(logs, effect(events, balance)),
    decreases logs.len(),
{
    if logs.len() == 0 {
        assert(changes_of(movements(events, logs), balance) =~= Seq::empty());
    } else {
        let earlier = movements(events, logs.drop_last());
        logs_are_bounded(events, logs.drop_last(), balance);
        log_is_bounded(events, logs.last(), balance);
        changes_append(earlier, log_movements(events, logs.last()), balance);
        sums_append(changes_of(earlier, balance), changes_of(log_movements(events, logs.last()), balance));
    }
}

/// While all amounts together fit a word, a net change is the sum of the changes.
proof fn net_is_sum(events: Signatures, logs: Seq<EventLog>, balance: Balance)
    requires
        total_amount(events, logs) < word_limit(),
    ensures
        forall|n: int|
            0 <= n <= changes_of(movements(events, logs), balance).len() ==> -word_limit() < #[trigger] sum_of(
                changes_of(movements(events, logs), balance).take(n),
            ) < word_limit(),
        settled(changes_of(movements(events, logs), balance)).value() == sum_over(logs, effect(events, balance)),
{
    let changes = changes_of(movements(events, logs), balance);
    logs_are_bounded(events, logs, balance);
    assert forall|n: int| 0 <= n <= changes.len() implies -word_limit() < #[trigger] sum_of(changes.take(n))
        < word_limit() by {
        sums_are_bounded(changes, n);
    }
    settled_is_sum(changes);
}

/// How often a log lists an ERC-721 change, as a weight.
pub open spec fn listings(events: Signatures, owner: Seq<u8>, token: Seq<u8>, change: Erc721Change) -> spec_fn(
    EventLog,
) -> int {
    |log: EventLog| erc721_moves(log_movements(events, log), owner, token).to_multiset().count(change) as int
}

/// How often logs list an ERC-721 change is how often each of them lists it.
proof fn listings_add_up(
    events: Signatures,
    logs: Seq<EventLog>,
    owner: Seq<u8>,
    token: Seq<u8>,
    change: Erc721Change,
)
    ensures
        erc721_moves(movements(events, logs), owner, token).to_multiset().count(change) == sum_over(
            logs,
            listings(events, owner, token, change),
        ),
    decreases logs.len(),
{
    let moves = movements(events, logs);
    if logs.len() == 0 {
        let list = erc721_moves(moves, owner, token);
        assert(list =~= Seq::empty());
        list.to_multiset_ensures();
        assert(!list.contains(change));
    } else {
        let earlier = movements(events, logs.drop_last());
        let last = log_movements(events, logs.last());
        listings_add_up(events, logs.drop_last(), owner, token, change);
        erc721_moves_append(earlier, last, owner, token);
        vstd::seq_lib::lemma_multiset_commutative(
            erc721_moves(earlier, owner, token),
            erc721_moves(last, owner, token),
        );
    }
}

/// The order of logs does not matter, while the amounts of all their fungible transfers
/// together fit a word: the ERC-20 reports are the same, and the ERC-721 and ERC-1155
/// reports are the same up to the order inside their lists.
pub proof fn order_of_logs_does_not_matter(
    events: Signatures,
    logs: Seq<EventLog>,
    reordered: Seq<EventLog>,
    report: Map<Seq<u8>, Map<Seq<u8>, Seq<Erc1155Change>>>,
    other_report: Map<Seq<u8>, Map<Seq<u8>, Seq<Erc1155Change>>>,
)
    requires
        logs.to_multiset() == reordered.to_multiset(),
        total_amount(events, logs) < word_limit(),
        reports_erc1155(report, movements(events, logs)),
        reports_erc1155(other_report, movements(events, reordered)),
    ensures
        erc20_report(movements(events, logs)) == erc20_report(movements(events, reordered)),
        same_up_to_order(
            erc721_report(movements(events, logs)),
            erc721_report(movements(events, reordered)),
        ),
        same_up_to_order(report, other_report),
{
    let (one, other) = (movements(events, logs), movements(events, reordered));
    sum_over_reordered(logs, reordered, amounts(events));
    assert forall|owner: Seq<u8>, token: Seq<u8>| (#[trigger] erc20_net(one, owner, token)).value()
        == erc20_net(other, owner, token).value() by {
        let balance = Balance::Erc20 { owner, token };
        net_is_sum(events, logs, balance);
        net_is_sum(events, reordered, balance);
        sum_over_reordered(logs, reordered, effect(events, balance));
    }
    equal_nets_equal_erc20(one, other);
    assert forall|owner: Seq<u8>, token: Seq<u8>, id: nat| (#[trigger] erc1155_net(one, owner, token, id)).value()
        == erc1155_net(other, owner, token, id).value() by {
        let balance = Balance::Erc1155 { owner, token, id };
        net_is_sum(events, logs, balance);
        net_is_sum(events, reordered, balance);
        sum_over_reordered(logs, reordered, effect(events, balance));
    }
    erc1155_reports_agree(one, other, report, other_report);
    assert forall|owner: Seq<u8>, token: Seq<u8>| (#[trigger] erc721_moves(one, owner, token)).to_multiset()
        == erc721_moves(other, owner, token).to_multiset() by {
        let (list, other_list) = (erc721_moves(one, owner, token), erc721_moves(other, owner, token));
        assert forall|change: Erc721Change| list.to_multiset().count(change)
            == #[trigger] other_list.to_multiset().count(change) by {
            listings_add_up(events, logs, owner, token, change);
            listings_add_up(events, reordered, owner, token, change);
            sum_over_reordered(logs, reordered, listings(events, owner, token, change));
        }
        assert(list.to_multiset() =~= other_list.to_multiset());
    }
    equal_lists_equal_erc721(one, other);
}

/// Where the net ERC-20 changes are the same, the reports are.
proof fn equal_nets_equal_erc20(one: Seq<Movement>, other: Seq<Movement>)
    requires
        forall|owner: Seq<u8>, token: Seq<u8>|
            (#[trigger] erc20_net(one, owner, token)).value() == erc20_net(other, owner, token).value(),
    ensures
        erc20_report(one) == erc20_report(other),
{
    let (report, other_report) = (erc20_report(one), erc20_report(other));
    assert forall|owner: Seq<u8>, token: Seq<u8>| (#[trigger] erc20_net(one, owner, token)).magnitude != 0
        <==> erc20_net(other, owner, token).magnitude != 0 by {
        assert(erc20_net(one, owner, token).value() == erc20_net(other, owner, token).value());
    }
    assert forall|owner: Seq<u8>| #[trigger] report.contains_key(owner) <==> other_report.contains_key(owner) by {
        if report.contains_key(owner) {
            let token = choose|token: Seq<u8>| (#[trigger] erc20_net(one, owner, token)).magnitude != 0;
            assert(erc20_net(other, owner, token).magnitude != 0);
        }
        if other_report.contains_key(owner) {
            let token = choose|token: Seq<u8>| (#[trigger] erc20_net(other, owner, token)).magnitude != 0;
            assert(erc20_net(one, owner, token).magnitude != 0);
        }
    }
    assert forall|owner: Seq<u8>| #[trigger] report.contains_key(owner) implies report[owner]
        == other_report[owner] by {
        assert(other_report.contains_key(owner));
        assert forall|token: Seq<u8>| report[owner].contains_key(token) <==> #[trigger] other_report[owner].contains_key(
            token,
        ) by {
            assert(erc20_net(one, owner, token).value() == erc20_net(other, owner, token).value());
        }
        assert forall|token: Seq<u8>| #[trigger] report[owner].contains_key(token) implies report[owner][token]
            == other_report[owner][token] by {
            assert(erc20_net(one, owner, token).value() == erc20_net(other, owner, token).value());
        }
        assert(report[owner] =~= other_report[owner]);
    }
    assert(report =~= other_report);
}

/// Where the ERC-721 changes are the same up to order, the reports are.
proof fn equal_lists_equal_erc721(one: Seq<Movement>, other: Seq<Movement>)
    requires
        forall|owner: Seq<u8>, token: Seq<u8>|
            (#[trigger] erc721_moves(one, owner, token)).to_multiset() == erc721_moves(
                other,
                owner,
                token,
            ).to_multiset(),
    ensures
        same_up_to_order(erc721_report(one), erc721_report(other)),
{
    let (report, other_report) = (erc721_report(one), erc721_report(other));
    assert forall|owner: Seq<u8>, token: Seq<u8>| (#[trigger] erc721_moves(one, owner, token)).len()
        == erc721_moves(other, owner, token).len() by {
        erc721_moves(one, owner, token).to_multiset_ensures();
        erc721_moves(other, owner, token).to_multiset_ensures();
    }
    assert forall|owner: Seq<u8>| #[trigger] report.contains_key(owner) <==> other_report.contains_key(owner) by {
        if report.contains_key(owner) {
            let token = choose|token: Seq<u8>| (#[trigger] erc721_moves(one, owner, token)).len() != 0;
            assert(erc721_moves(other, owner, token).len() != 0);
        }
        if other_report.contains_key(owner) {
            let token = choose|token: Seq<u8>| (#[trigger] erc721_moves(other, owner, token)).len() != 0;
            assert(erc721_moves(one, owner, token).len() != 0);
        }
    }
    assert(report.dom() =~= other_report.dom());
    assert forall|owner: Seq<u8>| #[trigger] report.contains_key(owner) implies report[owner].dom()
        == other_report[owner].dom() by {
        assert(other_report.contains_key(owner));
        assert forall|token: Seq<u8>| report[owner].dom().contains(token) <==> #[trigger] other_report[owner].dom().contains(
            token,
        ) by {
            assert(erc721_moves(one, owner, token).len() == erc721_moves(other, owner, token).len());
        }
        assert(report[owner].dom() =~= other_report[owner].dom());
    }
    assert forall|owner: Seq<u8>, token: Seq<u8>|
        report.contains_key(owner) && #[trigger] report[owner].contains_key(token) implies report[owner][token].to_multiset()
        == other_report[owner][token].to_multiset() by {
        assert(other_report.contains_key(owner));
        assert(erc721_moves(one, owner, token).to_multiset() == erc721_moves(other, owner, token).to_multiset());
    }
}

/// The ERC-20 delta that movements are reported with, as a number: zero where there is
/// none.
pub open spec fn reported_delta(moves: Seq<Movement>, token: Seq<u8>) -> spec_fn(Seq<u8>) -> int {
    |owner: Seq<u8>|
        if erc20_report(moves).contains_key(owner) && erc20_report(moves)[owner].contains_key(token) {
            signed_hex_value(erc20_report(moves)[owner][token])
        } else {
            0
        }
}

/// Transfers between accounts neither make tokens nor destroy them, while all their
/// amounts together fit a word: the deltas that are reported for a token add up to zero,
/// over any accounts that all those are among that have a delta.
pub proof fn reported_transfers_conserve(
    events: Signatures,
    logs: Seq<EventLog>,
    token: Seq<u8>,
    owners: Seq<Seq<u8>>,
)
    requires
        forall|i: int| 0 <= i < logs.len() ==> is_transfer_between_accounts(events, #[trigger] logs[i]),
        total_amount(events, logs) < word_limit(),
        owners.no_duplicates(),
        forall|owner: Seq<u8>| #[trigger]
            erc20_report(movements(events, logs)).contains_key(owner) && erc20_report(
                movements(events, logs),
            )[owner].contains_key(token) ==> owners.contains(owner),
    ensures
        sum_over(owners, reported_delta(movements(events, logs), token)) == 0,
{
    let moves = movements(events, logs);
    let deltas = reported_delta(moves, token);
    assert forall|owner: Seq<u8>| #[trigger] deltas(owner) == erc20_sums(moves, token)(owner) by {
        net_is_sum(events, logs, Balance::Erc20 { owner, token });
        erc20_report_is_sum(moves, owner, token);
    }
    assert forall|owner: Seq<u8>| !owners.contains(owner) implies #[trigger] deltas(owner) == 0 by {}
    all_owners_are_covered(moves, owners, deltas);
    let all = all_owners(moves, owners);
    equal_weights_equal_sums(all, deltas, erc20_sums(moves, token));
    owners_add_up(moves, token, all);
    transfers_conserve(events, logs, token);
}

/// What an owner gained in an ERC-20 token, as a weight.
spec fn erc20_sums(moves: Seq<Movement>, token: Seq<u8>) -> spec_fn(Seq<u8>) -> int {
    |owner: Seq<u8>| sum_of(erc20_moves(moves, owner, token))
}

/// Accounts, and those that movements are about.
spec fn all_owners(moves: Seq<Movement>, base: Seq<Seq<u8>>) -> Seq<Seq<u8>>
    decreases moves.len(),
{
    if moves.len() == 0 {
        base
    } else {
        let earlier = all_owners(moves.drop_last(), base);
        if earlier.contains(moves.last().owner()) {
            earlier
        } else {
            earlier.push(moves.last().owner())
        }
    }
}

/// Accounts that weigh nothing can be added.
proof fn all_owners_are_covered(moves: Seq<Movement>, base: Seq<Seq<u8>>, weight: spec_fn(Seq<u8>) -> int)
    requires
        base.no_duplicates(),
        forall|owner: Seq<u8>| !base.contains(owner) ==> #[trigger] weight(owner) == 0,
    ensures
        all_owners(moves, base).no_duplicates(),
        forall|owner: Seq<u8>| base.contains(owner) ==> #[trigger] all_owners(moves, base).contains(owner),
        forall|i: int| 0 <= i < moves.len() ==> all_owners(moves, base).contains((#[trigger] moves[i]).owner()),
        sum_over(all_owners(moves, base), weight) == sum_over(base, weight),
    decreases moves.len(),
{
    if moves.len() > 0 {
        let earlier = all_owners(moves.drop_last(), base);
        let all = all_owners(moves, base);
        let owner = moves.last().owner();
        all_owners_are_covered(moves.drop_last(), base, weight);
        if !earlier.contains(owner) {
            assert(!base.contains(owner));
            assert(all.drop_last() =~= earlier);
            assert(all[earlier.len() as int] == owner);
        }
        assert forall|other: Seq<u8>| #[trigger] earlier.contains(other) implies all.contains(other) by {
            let i = earlier.index_of(other);
            assert(all[i] == other);
        }
        assert forall|other: Seq<u8>| base.contains(other) implies #[trigger] all.contains(other) by {
            assert(earlier.contains(other));
        }
        assert forall|i: int| 0 <= i < moves.len() implies all.contains((#[trigger] moves[i]).owner()) by {
            if i < moves.len() - 1 {
                assert(moves.drop_last()[i] == moves[i]);
                assert(earlier.contains(moves[i].owner()));
            } else {
                assert(moves[i] == moves.last());
                if !earlier.contains(owner) {
                    assert(all[earlier.len() as int] == owner);
                }
            }
        }
    }
}

/// Equal weights have equal sums.
proof fn equal_weights_equal_sums<A>(items: Seq<A>, one: spec_fn(A) -> int, other: spec_fn(A) -> int)
    requires
        forall|item: A| #[trigger] one(item) == other(item),
    ensures
        sum_over(items, one) == sum_over(items, other),
    decreases items.len(),
{
    if items.len() > 0 {
        equal_weights_equal_sums(items.drop_last(), one, other);
        assert(one(items.last()) == other(items.last()));
    }
}

/// A weight that is larger for one element.
proof fn one_weight_differs<A>(items: Seq<A>, one: spec_fn(A) -> int, other: spec_fn(A) -> int, item: A, more: int)
    requires
        items.no_duplicates(),
        forall|x: A| #[trigger]
            other(x) == one(x) + (if x == item {
                more
            } else {
                0
            }),
    ensures
        sum_over(items, other) == sum_over(items, one) + (if items.contains(item) {
            more
        } else {
            0
        }),
    decreases items.len(),
{
    if items.len() > 0 {
        let earlier = items.drop_last();
        let last = items.last();
        one_weight_differs(earlier, one, other, item, more);
        assert(other(last) == one(last) + (if last == item { more } else { 0 }));
        if earlier.contains(item) {
            let i = earlier.index_of(item);
            assert(items[i] == item);
            assert(items[i] != items[items.len() - 1]);
        } else if items.contains(item) {
            let i = items.index_of(item);
            if i < earlier.len() {
                assert(earlier[i] == item);
            }
        } else {
            assert(last != item) by {
                assert(items.contains(items[items.len() - 1]));
            }
        }
        if last == item {
            assert(items[items.len() - 1] == item);
            assert(items.contains(item));
        }
    }
}

/// What each of all owners gained adds up to what all of them gained.
proof fn owners_add_up(moves: Seq<Movement>, token: Seq<u8>, owners: Seq<Seq<u8>>)
    requires
        owners.no_duplicates(),
        forall|i: int| 0 <= i < moves.len() ==> owners.contains((#[trigger] moves[i]).owner()),
    ensures
        sum_over(owners, erc20_sums(moves, token)) == erc20_total(moves, token),
    decreases moves.len(),
{
    if moves.len() == 0 {
        nothing_adds_up_to_nothing(owners, erc20_sums(moves, token));
    } else {
        let earlier = moves.drop_last();
        assert forall|i: int| 0 <= i < earlier.len() implies owners.contains((#[trigger] earlier[i]).owner()) by {
            assert(earlier[i] == moves[i]);
        }
        owners_add_up(earlier, token, owners);
        let last = moves.last();
        assert(moves[moves.len() - 1] == last);
        let change: int = match last {
            Movement::Erc20 { token: t, change, .. } if t == token => change,
            _ => 0,
        };
        let (one, other) = (erc20_sums(earlier, token), erc20_sums(moves, token));
        assert forall|owner: Seq<u8>| #[trigger] other(owner) == one(owner) + (if owner == last.owner() {
            change
        } else {
            0
        }) by {
            let before = erc20_moves(earlier, owner, token);
            let after = erc20_moves(moves, owner, token);
            if after != before {
                assert(after == before.push(change));
                assert(before.push(change).drop_last() =~= before);
            }
        }
        one_weight_differs(owners, one, other, last.owner(), change);
    }
}

/// Weights of zero add up to zero.
proof fn nothing_adds_up_to_nothing<A>(items: Seq<A>, weight: spec_fn(A) -> int)
    requires
        forall|item: A| #[trigger] weight(item) == 0,
    ensures
        sum_over(items, weight) == 0,
    decreases items.len(),
{
    if items.len() > 0 {
        nothing_adds_up_to_nothing(items.drop_last(), weight);
        assert(weight(items.last()) == 0);
    }
}

} // verus!
