//! Net token changes per account.

use crate::amount::{Signed, SignedAmount};
use crate::primitives::Address;
use crate::table::Table;
use crate::word::U256;
use vstd::prelude::*;

verus! {

/// ERC-721 ownership change for one token id.
#[derive(Debug, Clone, PartialEq, Eq)]
pub struct CallSequenceErc721TokenChange {
    /// Token identifier encoded as decimal string.
    pub token_id: String,
    /// `true` if account received ownership, `false` if account lost ownership.
    pub received: bool,
}

/// ERC-1155 balance change for one token id.
#[derive(Debug, Clone, PartialEq, Eq)]
pub struct CallSequenceErc1155TokenChange {
    /// Token identifier encoded as decimal string.
    pub token_id: String,
    /// Signed token delta encoded as decimal string.
    pub change: String,
}

/// An ERC-721 token that came or went.
pub struct Erc721Change {
    pub token_id: Seq<char>,
    pub received: bool,
}

/// What an ERC-1155 balance changed by.
pub struct Erc1155Change {
    pub token_id: Seq<char>,
    pub change: Seq<char>,
}

impl DeepView for CallSequenceErc721TokenChange {
    type V = Erc721Change;

    open spec fn deep_view(&self) -> Erc721Change {
        Erc721Change { token_id: self.token_id@, received: self.received }
    }
}

impl DeepView for CallSequenceErc1155TokenChange {
    type V = Erc1155Change;

    open spec fn deep_view(&self) -> Erc1155Change {
        Erc1155Change { token_id: self.token_id@, change: self.change@ }
    }
}

/// Running ERC-20 amounts, by owner and then by token contract.
pub type Erc20Amounts = Table<Address, Table<Address, SignedAmount>>;

/// ERC-721 changes, by owner and then by token contract.
pub type Erc721Changes = Table<Address, Table<Address, Vec<CallSequenceErc721TokenChange>>>;

/// Running ERC-1155 amounts, by owner, token contract and token identifier.
pub type Erc1155Amounts = Table<Address, Table<Address, Table<U256, SignedAmount>>>;

/// ERC-20 deltas in hexadecimal, by owner and then by token contract.
pub type Erc20Changes = Table<Address, Table<Address, String>>;

/// ERC-1155 deltas, by owner and then by token contract.
pub type Erc1155Changes = Table<Address, Table<Address, Vec<CallSequenceErc1155TokenChange>>>;

/// The value under a key, or another where there is none.
pub open spec fn value_or<K, T>(map: Map<K, T>, key: K, other: T) -> T {
    if map.contains_key(key) {
        map[key]
    } else {
        other
    }
}

/// The amounts after a change of one of them. A change of nothing adds no entry.
pub open spec fn with_change<K>(amounts: Map<K, Signed>, key: K, change: Signed) -> Map<K, Signed> {
    amounts.insert(key, value_or(amounts, key, Signed::zero()).moved_by(change.value()))
}

/// ERC-20 amounts after a change of one of them.
pub open spec fn with_erc20_change(
    amounts: Map<Seq<u8>, Map<Seq<u8>, Signed>>,
    owner: Seq<u8>,
    token: Seq<u8>,
    change: Signed,
) -> Map<Seq<u8>, Map<Seq<u8>, Signed>> {
    if change.magnitude == 0 {
        amounts
    } else {
        amounts.insert(owner, with_change(value_or(amounts, owner, Map::empty()), token, change))
    }
}

/// ERC-1155 amounts after a change of one of them.
pub open spec fn with_erc1155_change(
    amounts: Map<Seq<u8>, Map<Seq<u8>, Map<nat, Signed>>>,
    owner: Seq<u8>,
    token: Seq<u8>,
    id: nat,
    change: Signed,
) -> Map<Seq<u8>, Map<Seq<u8>, Map<nat, Signed>>> {
    if change.magnitude == 0 {
        amounts
    } else {
        let of_owner = value_or(amounts, owner, Map::empty());
        let of_token = value_or(of_owner, token, Map::empty());
        amounts.insert(owner, of_owner.insert(token, with_change(of_token, id, change)))
    }
}

/// An amount after a change.
fn changed(amount: Option<SignedAmount>, delta: SignedAmount) -> (sum: SignedAmount)
    ensures
        sum@ == (match amount {
            Some(a) => a@,
            None => Signed::zero(),
        }).moved_by(delta@.value()),
{
    let mut sum = match amount {
        Some(a) => a,
        None => SignedAmount::default(),
    };
    if delta.negative {
        sum.add_negative(delta.magnitude);
    } else {
        sum.add_positive(delta.magnitude);
    }
    sum
}

/// Adds a change to the ERC-20 amount of an owner and a token.
pub fn add_erc20_change(changes: &mut Erc20Amounts, owner: Address, token: Address, delta: SignedAmount)
    ensures
        final(changes).deep_view() == with_erc20_change(
            old(changes).deep_view(),
            owner@,
            token@,
            delta@,
        ),
{
    if delta.is_zero() {
        return;
    }
    let mut all: Erc20Amounts = Table::new();
    std::mem::swap(&mut all, changes);
    let ghost before = all.deep_view();
    let (others, of_owner) = all.take(&owner);
    let by_token = match of_owner {
        Some(table) => table,
        None => Table::new(),
    };
    let ghost inner = by_token.deep_view();
    assert(inner == value_or(before, owner@, Map::empty()));
    let (other_tokens, amount) = by_token.take(&token);
    let sum = changed(amount, delta);
    let by_token = other_tokens.insert(token, sum);
    assert(by_token.deep_view() =~= with_change(inner, token@, delta@));
    *changes = others.insert(owner, by_token);
    assert(changes.deep_view() =~= with_erc20_change(before, owner@, token@, delta@));
}

/// Adds a change to the ERC-1155 amount of an owner, a token and a token identifier.
pub fn add_erc1155_change(
    changes: &mut Erc1155Amounts,
    owner: Address,
    token: Address,
    token_id: U256,
    delta: SignedAmount,
)
    ensures
        final(changes).deep_view() == with_erc1155_change(
            old(changes).deep_view(),
            owner@,
            token@,
            token_id@,
            delta@,
        ),
{
    if delta.is_zero() {
        return;
    }
    let mut all: Erc1155Amounts = Table::new();
    std::mem::swap(&mut all, changes);
    let ghost before = all.deep_view();
    let (others, of_owner) = all.take(&owner);
    let by_token = match of_owner {
        Some(table) => table,
        None => Table::new(),
    };
    let ghost tokens = by_token.deep_view();
    assert(tokens == value_or(before, owner@, Map::empty()));
    let (other_tokens, of_token) = by_token.take(&token);
    let by_id = match of_token {
        Some(table) => table,
        None => Table::new(),
    };
    let ghost ids = by_id.deep_view();
    assert(ids == value_or(tokens, token@, Map::empty()));
    let (other_ids, amount) = by_id.take(&token_id);
    let sum = changed(amount, delta);
    let by_id = other_ids.insert(token_id, sum);
    assert(by_id.deep_view() =~= with_change(ids, token_id@, delta@));
    let by_token = other_tokens.insert(token, by_id);
    assert(by_token.deep_view() =~= tokens.insert(token@, with_change(ids, token_id@, delta@)));
    *changes = others.insert(owner, by_token);
    assert(changes.deep_view() =~= with_erc1155_change(before, owner@, token@, token_id@, delta@));
}

/// ERC-721 changes after one more of them.
pub open spec fn with_erc721_change(
    changes: Map<Seq<u8>, Map<Seq<u8>, Seq<Erc721Change>>>,
    owner: Seq<u8>,
    token: Seq<u8>,
    change: Erc721Change,
) -> Map<Seq<u8>, Map<Seq<u8>, Seq<Erc721Change>>> {
    let of_owner = value_or(changes, owner, Map::empty());
    changes.insert(owner, of_owner.insert(token, value_or(of_owner, token, Seq::empty()).push(change)))
}

/// Adds an ERC-721 change to those of an owner and a token.
pub fn add_erc721_change(
    changes: &mut Erc721Changes,
    owner: Address,
    token: Address,
    change: CallSequenceErc721TokenChange,
)
    ensures
        final(changes).deep_view() == with_erc721_change(
            old(changes).deep_view(),
            owner@,
            token@,
            change.deep_view(),
        ),
{
    let mut all: Erc721Changes = Table::new();
    std::mem::swap(&mut all, changes);
    let ghost before = all.deep_view();
    let (others, of_owner) = all.take(&owner);
    let by_token = match of_owner {
        Some(table) => table,
        None => Table::new(),
    };
    let ghost inner = by_token.deep_view();
    assert(inner == value_or(before, owner@, Map::empty()));
    let (other_tokens, of_token) = by_token.take(&token);
    let mut list = match of_token {
        Some(list) => list,
        None => Vec::new(),
    };
    let ghost listed = list.deep_view();
    assert(listed =~= value_or(inner, token@, Seq::empty()));
    list.push(change);
    assert(list.deep_view() =~= listed.push(change.deep_view()));
    let by_token = other_tokens.insert(token, list);
    assert(by_token.deep_view() =~= inner.insert(token@, listed.push(change.deep_view())));
    *changes = others.insert(owner, by_token);
    assert(changes.deep_view() =~= with_erc721_change(before, owner@, token@, change.deep_view()));
}

} // verus!
