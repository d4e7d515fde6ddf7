//! The net token changes that a sequence of logs reports.

use crate::amount::{settled, Signed, SignedAmount};
use crate::ledger::{
    add_erc1155_change, add_erc20_change, add_erc721_change, value_or, with_erc721_change,
    CallSequenceErc1155TokenChange, CallSequenceErc721TokenChange, Erc1155Amounts, Erc1155Change,
    Erc1155Changes, Erc20Amounts, Erc20Changes, Erc721Change, Erc721Changes,
};
use crate::logs::{
    decode_log, event_signatures, log_values, movement_values, movements, CallSequenceLog, EventTopics,
    Movement, TokenMovement,
};
use crate::primitives::Address;
use crate::table::{keys_distinct, map_of, push_inserts, Key, Table};
use crate::text::{decimal_text, signed_decimal_text, signed_hex_text, u256_to_decimal};
use crate::word::U256;
use vstd::prelude::*;

verus! {

/// The changes of the ERC-20 balance of an owner in a token.
pub open spec fn erc20_moves(moves: Seq<Movement>, owner: Seq<u8>, token: Seq<u8>) -> Seq<int>
    decreases moves.len(),
{
    if moves.len() == 0 {
        Seq::empty()
    } else {
        let earlier = erc20_moves(moves.drop_last(), owner, token);
        match moves.last() {
            Movement::Erc20 { owner: o, token: t, change } if o == owner && t == token => earlier.push(change),
            _ => earlier,
        }
    }
}

/// The ERC-721 tokens of one contract that came to an owner or went, in order.
pub open spec fn erc721_moves(moves: Seq<Movement>, owner: Seq<u8>, token: Seq<u8>) -> Seq<Erc721Change>
    decreases moves.len(),
{
    if moves.len() == 0 {
        Seq::empty()
    } else {
        let earlier = erc721_moves(moves.drop_last(), owner, token);
        match moves.last() {
            Movement::Erc721 { owner: o, token: t, id, received } if o == owner && t == token => earlier.push(
                Erc721Change { token_id: decimal_text(id), received },
            ),
            _ => earlier,
        }
    }
}

/// The changes of the ERC-1155 balance of an owner in one token of a contract.
pub open spec fn erc1155_moves(moves: Seq<Movement>, owner: Seq<u8>, token: Seq<u8>, id: nat) -> Seq<int>
    decreases moves.len(),
{
    if moves.len() == 0 {
        Seq::empty()
    } else {
        let earlier = erc1155_moves(moves.drop_last(), owner, token, id);
        match moves.last() {
            Movement::Erc1155 { owner: o, token: t, id: i, change } if o == owner && t == token && i
                == id => earlier.push(change),
            _ => earlier,
        }
    }
}

/// The net ERC-20 change of an owner in a token.
pub open spec fn erc20_net(moves: Seq<Movement>, owner: Seq<u8>, token: Seq<u8>) -> Signed {
    settled(erc20_moves(moves, owner, token))
}

/// The net ERC-1155 change of an owner in one token of a contract.
pub open spec fn erc1155_net(moves: Seq<Movement>, owner: Seq<u8>, token: Seq<u8>, id: nat) -> Signed {
    settled(erc1155_moves(moves, owner, token, id))
}

/// Whether an owner has a net ERC-1155 change in some token of a contract.
pub open spec fn erc1155_touched(moves: Seq<Movement>, owner: Seq<u8>, token: Seq<u8>) -> bool {
    exists|id: nat| (#[trigger] erc1155_net(moves, owner, token, id)).magnitude != 0
}

/// The ERC-20 deltas of those owners and tokens whose net change is not zero.
pub open spec fn erc20_report(moves: Seq<Movement>) -> Map<Seq<u8>, Map<Seq<u8>, Seq<char>>> {
    Map::new(
        |owner: Seq<u8>| exists|token: Seq<u8>| (#[trigger] erc20_net(moves, owner, token)).magnitude != 0,
        |owner: Seq<u8>|
            Map::new(
                |token: Seq<u8>| erc20_net(moves, owner, token).magnitude != 0,
                |token: Seq<u8>| signed_hex_text(erc20_net(moves, owner, token).value()),
            ),
    )
}

/// The ERC-721 changes of those owners and tokens that have any, in order.
pub open spec fn erc721_report(moves: Seq<Movement>) -> Map<Seq<u8>, Map<Seq<u8>, Seq<Erc721Change>>> {
    Map::new(
        |owner: Seq<u8>| exists|token: Seq<u8>| (#[trigger] erc721_moves(moves, owner, token)).len() != 0,
        |owner: Seq<u8>|
            Map::new(
                |token: Seq<u8>| erc721_moves(moves, owner, token).len() != 0,
                |token: Seq<u8>| erc721_moves(moves, owner, token),
            ),
    )
}

/// The entry for one token identifier.
pub open spec fn erc1155_entry(id: nat, net: Signed) -> Erc1155Change {
    Erc1155Change { token_id: decimal_text(id), change: signed_decimal_text(net.value()) }
}

/// A list has one entry for each token identifier whose net change is not zero, in
/// any order, and no other.
pub open spec fn lists_erc1155(
    list: Seq<Erc1155Change>,
    moves: Seq<Movement>,
    owner: Seq<u8>,
    token: Seq<u8>,
) -> bool {
    exists|ids: Seq<nat>| #[trigger]
        lists_ids(ids, moves, owner, token) && list == Seq::new(
            ids.len(),
            |i: int| erc1155_entry(ids[i], erc1155_net(moves, owner, token, ids[i])),
        )
}

/// The token identifiers whose net change is not zero, each of them once.
pub open spec fn lists_ids(ids: Seq<nat>, moves: Seq<Movement>, owner: Seq<u8>, token: Seq<u8>) -> bool {
    &&& ids.no_duplicates()
    &&& forall|id: nat| ids.contains(id) <==> (#[trigger] erc1155_net(moves, owner, token, id)).magnitude != 0
}

/// A map lists the ERC-1155 deltas of those owners and tokens that have any.
pub open spec fn reports_erc1155(
    report: Map<Seq<u8>, Map<Seq<u8>, Seq<Erc1155Change>>>,
    moves: Seq<Movement>,
) -> bool {
    &&& forall|owner: Seq<u8>| #[trigger]
        report.contains_key(owner) <==> exists|token: Seq<u8>| #[trigger] erc1155_touched(moves, owner, token)
    &&& forall|owner: Seq<u8>, token: Seq<u8>|
        report.contains_key(owner) ==> (#[trigger] report[owner].contains_key(token) <==> erc1155_touched(
            moves,
            owner,
            token,
        ))
    &&& forall|owner: Seq<u8>, token: Seq<u8>|
        report.contains_key(owner) && #[trigger] report[owner].contains_key(token) ==> lists_erc1155(
            report[owner][token],
            moves,
            owner,
            token,
        )
}

/// An ERC-20 amount in a table, zero where there is none.
pub open spec fn erc20_amount(
    amounts: Map<Seq<u8>, Map<Seq<u8>, Signed>>,
    owner: Seq<u8>,
    token: Seq<u8>,
) -> Signed {
    value_or(value_or(amounts, owner, Map::empty()), token, Signed::zero())
}

/// An ERC-1155 amount in a table, zero where there is none.
pub open spec fn erc1155_amount(
    amounts: Map<Seq<u8>, Map<Seq<u8>, Map<nat, Signed>>>,
    owner: Seq<u8>,
    token: Seq<u8>,
    id: nat,
) -> Signed {
    value_or(value_or(value_or(amounts, owner, Map::empty()), token, Map::empty()), id, Signed::zero())
}

/// One more movement moves the net ERC-20 change that it is about, and no other.
pub proof fn erc20_net_after(moves: Seq<Movement>, movement: Movement, owner: Seq<u8>, token: Seq<u8>)
    ensures
        erc20_net(moves.push(movement), owner, token) == (match movement {
            Movement::Erc20 { owner: o, token: t, change } if o == owner && t == token => erc20_net(
                moves,
                owner,
                token,
            ).moved_by(change),
            _ => erc20_net(moves, owner, token),
        }),
{
    let earlier = erc20_moves(moves, owner, token);
    assert(moves.push(movement).drop_last() =~= moves);
    match movement {
        Movement::Erc20 { owner: o, token: t, change } if o == owner && t == token => {
            assert(earlier.push(change).drop_last() =~= earlier);
        },
        _ => {},
    }
}

/// One more movement moves the net ERC-1155 change that it is about, and no other.
pub proof fn erc1155_net_after(moves: Seq<Movement>, movement: Movement, owner: Seq<u8>, token: Seq<u8>, id: nat)
    ensures
        erc1155_net(moves.push(movement), owner, token, id) == (match movement {
            Movement::Erc1155 { owner: o, token: t, id: i, change } if o == owner && t == token && i == id =>
                erc1155_net(moves, owner, token, id).moved_by(change),
            _ => erc1155_net(moves, owner, token, id),
        }),
{
    let earlier = erc1155_moves(moves, owner, token, id);
    assert(moves.push(movement).drop_last() =~= moves);
    match movement {
        Movement::Erc1155 { owner: o, token: t, id: i, change } if o == owner && t == token && i == id => {
            assert(earlier.push(change).drop_last() =~= earlier);
        },
        _ => {},
    }
}

/// The running amounts and changes after a number of movements.
struct TokenLedger {
    erc20: Erc20Amounts,
    erc721: Erc721Changes,
    erc1155: Erc1155Amounts,
}

impl TokenLedger {
    /// The ERC-20 amounts are what the movements add up to.
    spec fn holds_erc20(&self, moves: Seq<Movement>) -> bool {
        forall|owner: Seq<u8>, token: Seq<u8>| #[trigger]
            erc20_amount(self.erc20.deep_view(), owner, token) == erc20_net(moves, owner, token)
    }

    /// The ERC-721 changes are those of the movements.
    spec fn holds_erc721(&self, moves: Seq<Movement>) -> bool {
        self.erc721.deep_view() == erc721_report(moves)
    }

    /// The ERC-1155 amounts are what the movements add up to.
    spec fn holds_erc1155(&self, moves: Seq<Movement>) -> bool {
        forall|owner: Seq<u8>, token: Seq<u8>, id: nat| #[trigger]
            erc1155_amount(self.erc1155.deep_view(), owner, token, id) == erc1155_net(moves, owner, token, id)
    }

    /// The ledger holds what the movements add up to.
    spec fn holds(&self, moves: Seq<Movement>) -> bool {
        self.holds_erc20(moves) && self.holds_erc721(moves) && self.holds_erc1155(moves)
    }

    /// A ledger without movements.
    fn new() -> (ledger: TokenLedger)
        ensures
            ledger.holds(Seq::empty()),
    {
        let ledger = TokenLedger { erc20: Table::new(), erc721: Table::new(), erc1155: Table::new() };
        assert(ledger.erc721.deep_view() =~= erc721_report(Seq::empty()));
        ledger
    }

    /// Adds one movement.
    fn apply(&mut self, movement: TokenMovement, Ghost(moves): Ghost<Seq<Movement>>)
        requires
            old(self).holds(moves),
        ensures
            final(self).holds(moves.push(movement@)),
    {
        let ghost more = moves.push(movement@);
        assert(more.drop_last() =~= moves);
        match movement {
            TokenMovement::Erc20 { owner, token, delta } => {
                add_erc20_change(&mut self.erc20, owner, token, delta);
            },
            TokenMovement::Erc721 { owner, token, token_id, received } => {
                let change = CallSequenceErc721TokenChange { token_id: u256_to_decimal(token_id), received };
                add_erc721_change(&mut self.erc721, owner, token, change);
            },
            TokenMovement::Erc1155 { owner, token, token_id, delta } => {
                add_erc1155_change(&mut self.erc1155, owner, token, token_id, delta);
            },
        }
        proof {
            assert forall|owner: Seq<u8>, token: Seq<u8>| #[trigger]
                erc20_amount(self.erc20.deep_view(), owner, token) == erc20_net(more, owner, token) by {
                erc20_net_after(moves, movement@, owner, token);
                assert(erc20_amount(old(self).erc20.deep_view(), owner, token) == erc20_net(moves, owner, token));
            }
            assert forall|owner: Seq<u8>, token: Seq<u8>, id: nat| #[trigger]
                erc1155_amount(self.erc1155.deep_view(), owner, token, id) == erc1155_net(
                    more,
                    owner,
                    token,
                    id,
                ) by {
                erc1155_net_after(moves, movement@, owner, token, id);
                assert(erc1155_amount(old(self).erc1155.deep_view(), owner, token, id) == erc1155_net(
                    moves,
                    owner,
                    token,
                    id,
                ));
            }
            erc721_report_after(moves, movement@);
        }
    }
}

/// One more movement adds the ERC-721 change that it is about, and no other.
proof fn erc721_report_after(moves: Seq<Movement>, movement: Movement)
    ensures
        erc721_report(moves.push(movement)) == (match movement {
            Movement::Erc721 { owner, token, id, received } => with_erc721_change(
                erc721_report(moves),
                owner,
                token,
                Erc721Change { token_id: decimal_text(id), received },
            ),
            _ => erc721_report(moves),
        }),
{
    let more = moves.push(movement);
    assert(more.drop_last() =~= moves);
    match movement {
        Movement::Erc721 { owner, token, id, received } => {
            let entry = Erc721Change { token_id: decimal_text(id), received };
            let before = erc721_report(moves);
            let after = erc721_report(more);
            let of_owner = value_or(before, owner, Map::empty());
            assert(erc721_moves(more, owner, token).len() != 0);
            assert forall|o: Seq<u8>| #[trigger] after.contains_key(o) <==> (before.contains_key(o) || o
                == owner) by {
                if before.contains_key(o) {
                    let t = choose|t: Seq<u8>| (#[trigger] erc721_moves(moves, o, t)).len() != 0;
                    assert(erc721_moves(more, o, t).len() != 0);
                }
                if after.contains_key(o) && o != owner {
                    let t = choose|t: Seq<u8>| (#[trigger] erc721_moves(more, o, t)).len() != 0;
                    assert(erc721_moves(moves, o, t).len() != 0);
                }
            }
            assert forall|o: Seq<u8>| o != owner && #[trigger] after.contains_key(o) implies after[o]
                == before[o] by {
                assert(after[o] =~= before[o]) by {
                    assert forall|t: Seq<u8>| after[o].contains_key(t) <==> #[trigger] before[o].contains_key(t) by {
                        assert(erc721_moves(more, o, t) == erc721_moves(moves, o, t));
                    }
                }
            }
            if !before.contains_key(owner) {
                assert forall|t: Seq<u8>| (#[trigger] erc721_moves(moves, owner, t)).len() == 0 by {}
            }
            assert forall|t: Seq<u8>| #[trigger] of_owner.contains_key(t) <==> erc721_moves(moves, owner, t).len()
                != 0 by {}
            let listed = value_or(of_owner, token, Seq::empty());
            assert(listed =~= erc721_moves(moves, owner, token));
            let target = of_owner.insert(token, listed.push(entry));
            assert(erc721_moves(more, owner, token) == listed.push(entry));
            assert forall|t: Seq<u8>| #[trigger] after[owner].contains_key(t) <==> target.contains_key(t) by {
                assert(t != token ==> erc721_moves(more, owner, t) == erc721_moves(moves, owner, t));
                assert(of_owner.contains_key(t) <==> erc721_moves(moves, owner, t).len() != 0);
            }
            assert forall|t: Seq<u8>| #[trigger] after[owner].contains_key(t) implies after[owner][t]
                == target[t] by {
                if t != token {
                    assert(erc721_moves(more, owner, t) == erc721_moves(moves, owner, t));
                    assert(of_owner.contains_key(t));
                }
            }
            assert(after[owner] =~= target);
            assert(after =~= with_erc721_change(before, owner, token, entry));
        },
        _ => {
            assert forall|o: Seq<u8>, t: Seq<u8>| #[trigger] erc721_moves(more, o, t) == erc721_moves(
                moves,
                o,
                t,
            ) by {}
            let before = erc721_report(moves);
            let after = erc721_report(more);
            assert forall|o: Seq<u8>| #[trigger] after.contains_key(o) <==> before.contains_key(o) by {
                if before.contains_key(o) {
                    let t = choose|t: Seq<u8>| (#[trigger] erc721_moves(moves, o, t)).len() != 0;
                    assert(erc721_moves(more, o, t).len() != 0);
                }
            }
            assert forall|o: Seq<u8>| #[trigger] after.contains_key(o) implies after[o] == before[o] by {
                assert(after[o] =~= before[o]);
            }
            assert(after =~= before);
        },
    }
}

/// The amounts that are not zero, in hexadecimal.
spec fn shown_amounts(amounts: Map<Seq<u8>, Signed>) -> Map<Seq<u8>, Seq<char>> {
    Map::new(
        |token: Seq<u8>| amounts.contains_key(token) && amounts[token].magnitude != 0,
        |token: Seq<u8>| signed_hex_text(amounts[token].value()),
    )
}

/// The amounts of the owners that have any that are not zero.
spec fn shown_owners(
    amounts: Map<Seq<u8>, Map<Seq<u8>, Signed>>,
) -> Map<Seq<u8>, Map<Seq<u8>, Seq<char>>> {
    Map::new(
        |owner: Seq<u8>| amounts.contains_key(owner) && shown_amounts(amounts[owner]) != Map::<
            Seq<u8>,
            Seq<char>,
        >::empty(),
        |owner: Seq<u8>| shown_amounts(amounts[owner]),
    )
}

/// Writes down the amounts that are not zero.
fn show_amounts(by_token: &Table<Address, SignedAmount>) -> (shown: Table<Address, String>)
    ensures
        shown.deep_view() == shown_amounts(by_token.deep_view()),
{
    let entries = by_token.as_entries();
    let mut shown: Table<Address, String> = Table::new();
    let mut i: usize = 0;
    proof {
        assert(map_of(entries@.take(0)) =~= Map::<Seq<u8>, Signed>::empty());
        assert(shown.deep_view() =~= shown_amounts(map_of(entries@.take(0))));
    }
    while i < entries.len()
        invariant
            i <= entries@.len(),
            keys_distinct(entries@),
            shown.deep_view() == shown_amounts(map_of(entries@.take(i as int))),
        decreases entries@.len() - i,
    {
        let token = entries[i].0;
        let amount = entries[i].1;
        let ghost before = entries@.take(i as int);
        proof {
            take_one_more(entries@, i as int);
        }
        if !amount.is_zero() {
            shown = shown.insert(token, amount.as_string());
        }
        assert(shown.deep_view() =~= shown_amounts(map_of(entries@.take(i + 1))));
        i = i + 1;
    }
    assert(entries@.take(entries@.len() as int) =~= entries@);
    shown
}

/// Writes down the owners that have amounts that are not zero.
fn show_owners(amounts: &Erc20Amounts) -> (shown: Erc20Changes)
    ensures
        shown.deep_view() == shown_owners(amounts.deep_view()),
{
    let entries = amounts.as_entries();
    let mut shown: Erc20Changes = Table::new();
    let mut i: usize = 0;
    proof {
        assert(map_of(entries@.take(0)) =~= Map::<Seq<u8>, Map<Seq<u8>, Signed>>::empty());
        assert(shown.deep_view() =~= shown_owners(map_of(entries@.take(0))));
    }
    while i < entries.len()
        invariant
            i <= entries@.len(),
            keys_distinct(entries@),
            shown.deep_view() == shown_owners(map_of(entries@.take(i as int))),
        decreases entries@.len() - i,
    {
        let owner = entries[i].0;
        proof {
            take_one_more(entries@, i as int);
        }
        let by_token = show_amounts(&entries[i].1);
        if !by_token.is_empty() {
            shown = shown.insert(owner, by_token);
        }
        assert(shown.deep_view() =~= shown_owners(map_of(entries@.take(i + 1))));
        i = i + 1;
    }
    assert(entries@.take(entries@.len() as int) =~= entries@);
    shown
}

/// One more entry of a list, as a map.
proof fn take_one_more<K: Key, T: DeepView>(entries: Seq<(K, T)>, i: int)
    requires
        keys_distinct(entries),
        0 <= i < entries.len(),
    ensures
        !map_of(entries.take(i)).contains_key(entries[i].0@),
        map_of(entries.take(i + 1)) == map_of(entries.take(i)).insert(entries[i].0@, entries[i].1.deep_view()),
{
    assert(entries.take(i + 1) =~= entries.take(i).push(entries[i]));
    assert(keys_distinct(entries.take(i)));
    push_inserts(entries.take(i), entries[i].0, entries[i].1);
}

/// A list has one entry for each amount that is not zero, in any order.
spec fn lists_amounts(list: Seq<Erc1155Change>, amounts: Map<nat, Signed>) -> bool {
    exists|ids: Seq<nat>| #[trigger]
        ids_with_amounts(ids, amounts) && list == Seq::new(ids.len(), |i: int| erc1155_entry(ids[i], amounts[ids[i]]))
}

/// The identifiers of the amounts that are not zero, each of them once.
spec fn ids_with_amounts(ids: Seq<nat>, amounts: Map<nat, Signed>) -> bool {
    &&& ids.no_duplicates()
    &&& forall|id: nat| #[trigger] ids.contains(id) <==> has_amount(amounts, id)
}

/// Whether there is an amount under the identifier that is not zero.
spec fn has_amount(amounts: Map<nat, Signed>, id: nat) -> bool {
    amounts.contains_key(id) && amounts[id].magnitude != 0
}

/// Whether there is any amount that is not zero.
spec fn has_any_amount(amounts: Map<nat, Signed>) -> bool {
    exists|id: nat| has_amount(amounts, id)
}

/// Each token with amounts that are not zero has its list.
spec fn tokens_listed(
    lists: Map<Seq<u8>, Seq<Erc1155Change>>,
    amounts: Map<Seq<u8>, Map<nat, Signed>>,
) -> bool {
    &&& forall|token: Seq<u8>| #[trigger]
        lists.contains_key(token) <==> amounts.contains_key(token) && has_any_amount(amounts[token])
    &&& forall|token: Seq<u8>| #[trigger]
        lists.contains_key(token) ==> lists_amounts(lists[token], amounts[token])
}

/// Whether any token has an amount that is not zero.
spec fn has_any_token(amounts: Map<Seq<u8>, Map<nat, Signed>>) -> bool {
    exists|token: Seq<u8>| #[trigger] amounts.contains_key(token) && has_any_amount(amounts[token])
}

/// Each owner with amounts that are not zero has its lists.
spec fn owners_listed(
    lists: Map<Seq<u8>, Map<Seq<u8>, Seq<Erc1155Change>>>,
    amounts: Map<Seq<u8>, Map<Seq<u8>, Map<nat, Signed>>>,
) -> bool {
    &&& forall|owner: Seq<u8>| #[trigger]
        lists.contains_key(owner) <==> amounts.contains_key(owner) && has_any_token(amounts[owner])
    &&& forall|owner: Seq<u8>| #[trigger]
        lists.contains_key(owner) ==> tokens_listed(lists[owner], amounts[owner])
}

/// Writes down the amounts that are not zero.
fn list_amounts(by_id: &Table<U256, SignedAmount>) -> (list: Vec<CallSequenceErc1155TokenChange>)
    ensures
        lists_amounts(list.deep_view(), by_id.deep_view()),
        list@.len() == 0 <==> !has_any_amount(by_id.deep_view()),
{
    let entries = by_id.as_entries();
    let mut list: Vec<CallSequenceErc1155TokenChange> = Vec::new();
    let ghost mut ids: Seq<nat> = Seq::empty();
    let mut i: usize = 0;
    while i < entries.len()
        invariant
            i <= entries@.len(),
            keys_distinct(entries@),
            ids.len() == list@.len(),
            ids_with_amounts(ids, map_of(entries@.take(i as int))),
            forall|j: int|
                0 <= j < ids.len() ==> (#[trigger] list@[j]).deep_view() == erc1155_entry(
                    ids[j],
                    map_of(entries@.take(i as int))[ids[j]],
                ),
        decreases entries@.len() - i,
    {
        let token_id = entries[i].0;
        let amount = entries[i].1;
        let ghost before = map_of(entries@.take(i as int));
        let ghost after = map_of(entries@.take(i + 1));
        let ghost ids_before = ids;
        proof {
            take_one_more(entries@, i as int);
            assert(!has_amount(before, token_id@));
            assert(!ids.contains(token_id@));
            assert forall|j: int| 0 <= j < ids.len() implies (#[trigger] ids[j]) != token_id@ by {
                assert(ids.contains(ids[j]));
            }
        }
        if !amount.is_zero() {
            list.push(
                CallSequenceErc1155TokenChange {
                    token_id: u256_to_decimal(token_id),
                    change: amount.as_decimal_string(),
                },
            );
            proof {
                ids = ids.push(token_id@);
                assert(ids.no_duplicates());
                assert forall|id: nat| #[trigger] ids.contains(id) <==> has_amount(after, id) by {
                    if ids_before.contains(id) {
                        let j = ids_before.index_of(id);
                        assert(ids[j] == id);
                    }
                    if id == token_id@ {
                        assert(ids[ids_before.len() as int] == id);
                    }
                    assert(ids_before.contains(id) <==> has_amount(before, id));
                }
            }
        } else {
            proof {
                assert forall|id: nat| #[trigger] ids.contains(id) <==> has_amount(after, id) by {
                    assert(ids_before.contains(id) <==> has_amount(before, id));
                }
            }
        }
        i = i + 1;
    }
    proof {
        assert(entries@.take(entries@.len() as int) =~= entries@);
        let amounts = by_id.deep_view();
        assert(list.deep_view() =~= Seq::new(ids.len(), |i: int| erc1155_entry(ids[i], amounts[ids[i]])));
        if list@.len() == 0 {
            assert forall|id: nat| !has_amount(amounts, id) by {
                assert(!ids.contains(id));
            }
        } else {
            assert(ids.contains(ids[0]));
            assert(has_amount(amounts, ids[0]));
        }
    }
    list
}

/// Writes down the tokens that have amounts that are not zero.
fn list_tokens(by_token: &Table<Address, Table<U256, SignedAmount>>) -> (lists: Table<
    Address,
    Vec<CallSequenceErc1155TokenChange>,
>)
    ensures
        tokens_listed(lists.deep_view(), by_token.deep_view()),
{
    let entries = by_token.as_entries();
    let mut lists: Table<Address, Vec<CallSequenceErc1155TokenChange>> = Table::new();
    let mut i: usize = 0;
    while i < entries.len()
        invariant
            i <= entries@.len(),
            keys_distinct(entries@),
            tokens_listed(lists.deep_view(), map_of(entries@.take(i as int))),
        decreases entries@.len() - i,
    {
        let token = entries[i].0;
        proof {
            take_one_more(entries@, i as int);
        }
        let list = list_amounts(&entries[i].1);
        if list.len() != 0 {
            lists = lists.insert(token, list);
        }
        i = i + 1;
    }
    assert(entries@.take(entries@.len() as int) =~= entries@);
    lists
}

/// Writes down the owners that have amounts that are not zero.
fn list_owners(amounts: &Erc1155Amounts) -> (lists: Erc1155Changes)
    ensures
        owners_listed(lists.deep_view(), amounts.deep_view()),
{
    let entries = amounts.as_entries();
    let mut lists: Erc1155Changes = Table::new();
    let mut i: usize = 0;
    while i < entries.len()
        invariant
            i <= entries@.len(),
            keys_distinct(entries@),
            owners_listed(lists.deep_view(), map_of(entries@.take(i as int))),
        decreases entries@.len() - i,
    {
        let owner = entries[i].0;
        proof {
            take_one_more(entries@, i as int);
        }
        let by_token = list_tokens(&entries[i].1);
        let ghost tokens = entries@[i as int].1.deep_view();
        if !by_token.is_empty() {
            proof {
                let some = choose|t: Seq<u8>| by_token.deep_view().contains_key(t);
                if forall|t: Seq<u8>| !by_token.deep_view().contains_key(t) {
                    assert(by_token.deep_view() =~= Map::<Seq<u8>, Seq<Erc1155Change>>::empty());
                }
                assert(by_token.deep_view().contains_key(some));
                assert(tokens.contains_key(some) && has_any_amount(tokens[some]));
                assert(has_any_token(tokens));
            }
            lists = lists.insert(owner, by_token);
        } else {
            assert(!has_any_token(tokens)) by {
                if has_any_token(tokens) {
                    let some = choose|t: Seq<u8>| #[trigger] tokens.contains_key(t) && has_any_amount(tokens[t]);
                    assert(by_token.deep_view().contains_key(some));
                }
            }
        }
        i = i + 1;
    }
    assert(entries@.take(entries@.len() as int) =~= entries@);
    lists
}

/// A ledger that holds the movements shows their net ERC-20 changes.
proof fn shown_is_reported(amounts: Map<Seq<u8>, Map<Seq<u8>, Signed>>, moves: Seq<Movement>)
    requires
        forall|owner: Seq<u8>, token: Seq<u8>| #[trigger]
            erc20_amount(amounts, owner, token) == erc20_net(moves, owner, token),
    ensures
        shown_owners(amounts) == erc20_report(moves),
{
    let shown = shown_owners(amounts);
    let report = erc20_report(moves);
    assert forall|owner: Seq<u8>, token: Seq<u8>|
        #![trigger erc20_net(moves, owner, token)]
        erc20_net(moves, owner, token).magnitude != 0 <==> amounts.contains_key(owner) && shown_amounts(
            amounts[owner],
        ).contains_key(token) by {
        assert(erc20_amount(amounts, owner, token) == erc20_net(moves, owner, token));
    }
    assert forall|owner: Seq<u8>| #[trigger] shown.contains_key(owner) <==> report.contains_key(owner) by {
        if shown.contains_key(owner) {
            let of_owner = shown_amounts(amounts[owner]);
            if forall|token: Seq<u8>| !of_owner.contains_key(token) {
                assert(of_owner =~= Map::<Seq<u8>, Seq<char>>::empty());
            }
            let token = choose|token: Seq<u8>| of_owner.contains_key(token);
            assert(erc20_net(moves, owner, token).magnitude != 0);
        }
        if report.contains_key(owner) {
            let token = choose|token: Seq<u8>| (#[trigger] erc20_net(moves, owner, token)).magnitude != 0;
            assert(shown_amounts(amounts[owner]).contains_key(token));
        }
    }
    assert forall|owner: Seq<u8>| #[trigger] shown.contains_key(owner) implies shown[owner]
        == report[owner] by {
        assert forall|token: Seq<u8>| #[trigger] shown[owner].contains_key(token) <==> report[owner].contains_key(
            token,
        ) by {
            assert(erc20_net(moves, owner, token).magnitude != 0 <==> shown_amounts(amounts[owner]).contains_key(
                token,
            ));
        }
        assert forall|token: Seq<u8>| #[trigger] shown[owner].contains_key(token) implies shown[owner][token]
            == report[owner][token] by {
            assert(erc20_amount(amounts, owner, token) == erc20_net(moves, owner, token));
        }
        assert(shown[owner] =~= report[owner]);
    }
    assert(shown =~= report);
}

/// A ledger that holds the movements lists their net ERC-1155 changes.
proof fn listed_is_reported(
    lists: Map<Seq<u8>, Map<Seq<u8>, Seq<Erc1155Change>>>,
    amounts: Map<Seq<u8>, Map<Seq<u8>, Map<nat, Signed>>>,
    moves: Seq<Movement>,
)
    requires
        owners_listed(lists, amounts),
        forall|owner: Seq<u8>, token: Seq<u8>, id: nat| #[trigger]
            erc1155_amount(amounts, owner, token, id) == erc1155_net(moves, owner, token, id),
    ensures
        reports_erc1155(lists, moves),
{
    assert forall|owner: Seq<u8>, token: Seq<u8>, id: nat|
        #![trigger erc1155_net(moves, owner, token, id)]
        erc1155_net(moves, owner, token, id).magnitude != 0 <==> amounts.contains_key(owner)
            && amounts[owner].contains_key(token) && has_amount(amounts[owner][token], id) by {
        assert(erc1155_amount(amounts, owner, token, id) == erc1155_net(moves, owner, token, id));
    }
    assert forall|owner: Seq<u8>, token: Seq<u8>| #[trigger]
        erc1155_touched(moves, owner, token) <==> amounts.contains_key(owner) && amounts[owner].contains_key(token)
            && has_any_amount(amounts[owner][token]) by {
        if erc1155_touched(moves, owner, token) {
            let id = choose|id: nat| (#[trigger] erc1155_net(moves, owner, token, id)).magnitude != 0;
            assert(has_amount(amounts[owner][token], id));
        }
        if amounts.contains_key(owner) && amounts[owner].contains_key(token) && has_any_amount(
            amounts[owner][token],
        ) {
            let id = choose|id: nat| has_amount(amounts[owner][token], id);
            assert(erc1155_net(moves, owner, token, id).magnitude != 0);
        }
    }
    assert forall|owner: Seq<u8>| #[trigger] lists.contains_key(owner) <==> exists|token: Seq<u8>| #[trigger]
        erc1155_touched(moves, owner, token) by {
        if lists.contains_key(owner) {
            let token = choose|token: Seq<u8>| #[trigger]
                amounts[owner].contains_key(token) && has_any_amount(amounts[owner][token]);
            assert(erc1155_touched(moves, owner, token));
        }
        if exists|token: Seq<u8>| #[trigger] erc1155_touched(moves, owner, token) {
            let token = choose|token: Seq<u8>| #[trigger] erc1155_touched(moves, owner, token);
            assert(amounts[owner].contains_key(token) && has_any_amount(amounts[owner][token]));
            assert(has_any_token(amounts[owner]));
        }
    }
    assert forall|owner: Seq<u8>, token: Seq<u8>|
        lists.contains_key(owner) && #[trigger] lists[owner].contains_key(token) implies lists_erc1155(
        lists[owner][token],
        moves,
        owner,
        token,
    ) by {
        let of_token = amounts[owner][token];
        let list = lists[owner][token];
        assert(lists_amounts(list, of_token));
        let ids = choose|ids: Seq<nat>| #[trigger]
            ids_with_amounts(ids, of_token) && list == Seq::new(
                ids.len(),
                |i: int| erc1155_entry(ids[i], of_token[ids[i]]),
            );
        assert forall|id: nat| ids.contains(id) <==> (#[trigger] erc1155_net(moves, owner, token, id)).magnitude
            != 0 by {
            assert(ids.contains(id) <==> has_amount(of_token, id));
        }
        assert(lists_ids(ids, moves, owner, token));
        assert forall|i: int| 0 <= i < ids.len() implies of_token[#[trigger] ids[i]] == erc1155_net(
            moves,
            owner,
            token,
            ids[i],
        ) by {
            assert(ids.contains(ids[i]));
            assert(erc1155_amount(amounts, owner, token, ids[i]) == erc1155_net(moves, owner, token, ids[i]));
        }
        assert(list =~= Seq::new(
            ids.len(),
            |i: int| erc1155_entry(ids[i], erc1155_net(moves, owner, token, ids[i])),
        ));
    }
}

/// The net token changes that logs report, given the first topics of the events.
///
/// An owner or a token appears only if it has a change that is not zero, or an ERC-721
/// token that came or went; the zero address never does.
pub fn token_changes(events: &EventTopics, logs: &[CallSequenceLog]) -> (changes: (
    Erc20Changes,
    Erc721Changes,
    Erc1155Changes,
))
    ensures
        changes.0.deep_view() == erc20_report(movements(events@, log_values(logs@))),
        changes.1.deep_view() == erc721_report(movements(events@, log_values(logs@))),
        reports_erc1155(changes.2.deep_view(), movements(events@, log_values(logs@))),
{
    let mut ledger = TokenLedger::new();
    let ghost all = log_values(logs@);
    let ghost mut moves: Seq<Movement> = Seq::empty();
    let mut i: usize = 0;
    assert(all.take(0) =~= Seq::empty());
    while i < logs.len()
        invariant
            i <= logs@.len(),
            all == log_values(logs@),
            moves == movements(events@, all.take(i as int)),
            ledger.holds(moves),
        decreases logs@.len() - i,
    {
        let list = decode_log(events, &logs[i]);
        let ghost before = moves;
        let ghost reported = movement_values(list@);
        let mut j: usize = 0;
        assert(before + reported.take(0) =~= before);
        while j < list.len()
            invariant
                j <= list@.len(),
                reported == movement_values(list@),
                moves == before + reported.take(j as int),
                ledger.holds(moves),
            decreases list@.len() - j,
        {
            ledger.apply(list[j], Ghost(moves));
            proof {
                assert(before + reported.take(j + 1) =~= moves.push(list@[j as int]@));
                moves = moves.push(list@[j as int]@);
            }
            j = j + 1;
        }
        proof {
            assert(reported.take(list@.len() as int) =~= reported);
            assert(all.take(i + 1).drop_last() =~= all.take(i as int));
            assert(all.take(i + 1).last() == logs@[i as int]@);
        }
        i = i + 1;
    }
    assert(all.take(logs@.len() as int) =~= all);
    let TokenLedger { erc20, erc721, erc1155 } = ledger;
    let erc20_out = show_owners(&erc20);
    let erc1155_out = list_owners(&erc1155);
    proof {
        shown_is_reported(erc20.deep_view(), moves);
        listed_is_reported(erc1155_out.deep_view(), erc1155.deep_view(), moves);
    }
    (erc20_out, erc721, erc1155_out)
}

/// The net token changes that logs report.
pub fn extract_token_changes(logs: &[CallSequenceLog]) -> (changes: (
    Erc20Changes,
    Erc721Changes,
    Erc1155Changes,
))
    ensures
        changes.0.deep_view() == erc20_report(movements(event_signatures(), log_values(logs@))),
        changes.1.deep_view() == erc721_report(movements(event_signatures(), log_values(logs@))),
        reports_erc1155(changes.2.deep_view(), movements(event_signatures(), log_values(logs@))),
{
    let events = EventTopics::hashed();
    token_changes(&events, logs)
}

} // verus!
