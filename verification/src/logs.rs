//! Event logs, and the token movements that they report.

use crate::abi::{
    address_of, pair_values, parse_transfer_batch, topic_to_address, transfer_batch, u256_from_second_word,
    u256_from_topic, u256_from_word, word_at,
};
use crate::amount::SignedAmount;
use crate::primitives::{zero_address, Address, B256};
use crate::word::{be_value, U256};
use vstd::prelude::*;
use vstd::string::*;

verus! {

/// Simplified event log shape returned by `eth_callSequence`.
#[derive(Debug, Clone, PartialEq, Eq)]
pub struct CallSequenceLog {
    /// Contract that emitted this log.
    pub address: Address,
    /// Indexed topics emitted by the log.
    pub topics: Vec<B256>,
    /// Raw data payload.
    pub data: Vec<u8>,
}

/// A log: the contract that emitted it, its topics and its data.
pub struct EventLog {
    pub address: Seq<u8>,
    pub topics: Seq<Seq<u8>>,
    pub data: Seq<u8>,
}

impl View for CallSequenceLog {
    type V = EventLog;

    open spec fn view(&self) -> EventLog {
        EventLog {
            address: self.address@,
            topics: Seq::new(self.topics@.len(), |i: int| self.topics@[i]@),
            data: self.data@,
        }
    }
}

impl DeepView for CallSequenceLog {
    type V = EventLog;

    open spec fn deep_view(&self) -> EventLog {
        self@
    }
}

/// The logs of a list.
pub open spec fn log_values(logs: Seq<CallSequenceLog>) -> Seq<EventLog> {
    Seq::new(logs.len(), |i: int| logs[i]@)
}

/// The first topics of the five events that move tokens.
#[derive(Debug, Clone, Copy, PartialEq, Eq)]
pub struct EventTopics {
    /// ERC-20 and ERC-721 transfers.
    pub transfer: B256,
    /// ERC-1155 transfers of one token.
    pub transfer_single: B256,
    /// ERC-1155 transfers of several tokens.
    pub transfer_batch: B256,
    /// Deposits into wrapped ether.
    pub deposit: B256,
    /// Withdrawals from wrapped ether.
    pub withdrawal: B256,
}

/// The first topics of the five events that move tokens.
pub struct Signatures {
    pub transfer: Seq<u8>,
    pub transfer_single: Seq<u8>,
    pub transfer_batch: Seq<u8>,
    pub deposit: Seq<u8>,
    pub withdrawal: Seq<u8>,
}

impl View for EventTopics {
    type V = Signatures;

    open spec fn view(&self) -> Signatures {
        Signatures {
            transfer: self.transfer@,
            transfer_single: self.transfer_single@,
            transfer_batch: self.transfer_batch@,
            deposit: self.deposit@,
            withdrawal: self.withdrawal@,
        }
    }
}

impl Signatures {
    /// No two of the events share a first topic.
    pub open spec fn distinct(self) -> bool {
        &&& self.transfer != self.transfer_single
        &&& self.transfer != self.transfer_batch
        &&& self.transfer != self.deposit
        &&& self.transfer != self.withdrawal
        &&& self.transfer_single != self.transfer_batch
        &&& self.transfer_single != self.deposit
        &&& self.transfer_single != self.withdrawal
        &&& self.transfer_batch != self.deposit
        &&& self.transfer_batch != self.withdrawal
        &&& self.deposit != self.withdrawal
    }
}

/// The Keccak-256 hash of a sequence of bytes.
pub uninterp spec fn keccak256_digest(input: Seq<u8>) -> Seq<u8>;

/// `keccak256` of `alloy_primitives`: the Keccak-256 hash of the input. What the hash
/// of an input is, is left to its name.
#[verifier::external_body]
fn keccak256(input: &[u8]) -> (digest: B256)
    ensures
        digest@ == keccak256_digest(input@),
{
    B256 { bytes: alloy_primitives::keccak256(input).0 }
}

/// The first topics: the hashes of the signatures of the events.
pub open spec fn event_signatures() -> Signatures {
    Signatures {
        transfer: keccak256_digest("Transfer(address,address,uint256)".spec_bytes()),
        transfer_single: keccak256_digest(
            "TransferSingle(address,address,address,uint256,uint256)".spec_bytes(),
        ),
        transfer_batch: keccak256_digest(
            "TransferBatch(address,address,address,uint256[],uint256[])".spec_bytes(),
        ),
        deposit: keccak256_digest("Deposit(address,uint256)".spec_bytes()),
        withdrawal: keccak256_digest("Withdrawal(address,uint256)".spec_bytes()),
    }
}

impl EventTopics {
    /// Hashes the signatures of the events.
    pub fn hashed() -> (topics: EventTopics)
        ensures
            topics@ == event_signatures(),
    {
        EventTopics {
            transfer: keccak256("Transfer(address,address,uint256)".as_bytes()),
            transfer_single: keccak256(
                "TransferSingle(address,address,address,uint256,uint256)".as_bytes(),
            ),
            transfer_batch: keccak256(
                "TransferBatch(address,address,address,uint256[],uint256[])".as_bytes(),
            ),
            deposit: keccak256("Deposit(address,uint256)".as_bytes()),
            withdrawal: keccak256("Withdrawal(address,uint256)".as_bytes()),
        }
    }
}

/// The wrapped-ether contract, `0x4200000000000000000000000000000000000006`.
pub open spec fn base_weth() -> Seq<u8> {
    seq![0x42u8, 0, 0, 0, 0, 0, 0, 0, 0, 0, 0, 0, 0, 0, 0, 0, 0, 0, 0, 0x06]
}

/// The wrapped-ether contract.
pub fn base_weth_address() -> (address: Address)
    ensures
        address@ == base_weth(),
{
    let address = Address {
        bytes: [0x42, 0, 0, 0, 0, 0, 0, 0, 0, 0, 0, 0, 0, 0, 0, 0, 0, 0, 0, 0x06],
    };
    assert(address@ =~= base_weth());
    address
}

/// One gain or loss of one account.
#[derive(Debug, Clone, Copy)]
pub enum TokenMovement {
    /// An ERC-20 balance changed.
    Erc20 { owner: Address, token: Address, delta: SignedAmount },
    /// An ERC-721 token came or went.
    Erc721 { owner: Address, token: Address, token_id: U256, received: bool },
    /// An ERC-1155 balance changed.
    Erc1155 { owner: Address, token: Address, token_id: U256, delta: SignedAmount },
}

/// One gain or loss of one account.
pub enum Movement {
    Erc20 { owner: Seq<u8>, token: Seq<u8>, change: int },
    Erc721 { owner: Seq<u8>, token: Seq<u8>, id: nat, received: bool },
    Erc1155 { owner: Seq<u8>, token: Seq<u8>, id: nat, change: int },
}

impl View for TokenMovement {
    type V = Movement;

    open spec fn view(&self) -> Movement {
        match *self {
            TokenMovement::Erc20 { owner, token, delta } => Movement::Erc20 {
                owner: owner@,
                token: token@,
                change: delta@.value(),
            },
            TokenMovement::Erc721 { owner, token, token_id, received } => Movement::Erc721 {
                owner: owner@,
                token: token@,
                id: token_id@,
                received,
            },
            TokenMovement::Erc1155 { owner, token, token_id, delta } => Movement::Erc1155 {
                owner: owner@,
                token: token@,
                id: token_id@,
                change: delta@.value(),
            },
        }
    }
}

/// The movements of a list.
pub open spec fn movement_values(movements: Seq<TokenMovement>) -> Seq<Movement> {
    Seq::new(movements.len(), |i: int| movements[i]@)
}

impl Movement {
    /// The account that gained or lost.
    pub open spec fn owner(self) -> Seq<u8> {
        match self {
            Movement::Erc20 { owner, .. } => owner,
            Movement::Erc721 { owner, .. } => owner,
            Movement::Erc1155 { owner, .. } => owner,
        }
    }
}

/// A movement, unless it is one of the zero address, which stands for no account.
pub open spec fn unless_zero(movement: Movement) -> Seq<Movement> {
    if movement.owner() == zero_address() {
        Seq::empty()
    } else {
        seq![movement]
    }
}

/// What an ERC-20 transfer moves.
pub open spec fn erc20_transfer(token: Seq<u8>, from: Seq<u8>, to: Seq<u8>, amount: nat) -> Seq<Movement> {
    unless_zero(Movement::Erc20 { owner: from, token, change: -amount }) + unless_zero(
        Movement::Erc20 { owner: to, token, change: amount as int },
    )
}

/// What an ERC-721 transfer moves.
pub open spec fn erc721_transfer(token: Seq<u8>, from: Seq<u8>, to: Seq<u8>, id: nat) -> Seq<Movement> {
    unless_zero(Movement::Erc721 { owner: from, token, id, received: false }) + unless_zero(
        Movement::Erc721 { owner: to, token, id, received: true },
    )
}

/// What an ERC-1155 transfer of one token moves.
pub open spec fn erc1155_transfer(
    token: Seq<u8>,
    from: Seq<u8>,
    to: Seq<u8>,
    item: (nat, nat),
) -> Seq<Movement> {
    unless_zero(Movement::Erc1155 { owner: from, token, id: item.0, change: -item.1 }) + unless_zero(
        Movement::Erc1155 { owner: to, token, id: item.0, change: item.1 as int },
    )
}

/// What an ERC-1155 transfer of several tokens moves, one token after the other.
pub open spec fn erc1155_batch(
    token: Seq<u8>,
    from: Seq<u8>,
    to: Seq<u8>,
    items: Seq<(nat, nat)>,
) -> Seq<Movement>
    decreases items.len(),
{
    if items.len() == 0 {
        Seq::empty()
    } else {
        erc1155_batch(token, from, to, items.drop_last()) + erc1155_transfer(token, from, to, items.last())
    }
}

/// What a log moves.
///
/// A log is told by its first topic. One that has too few topics, or data that its
/// event does not decode from, moves nothing.
pub open spec fn log_movements(events: Signatures, log: EventLog) -> Seq<Movement> {
    let EventLog { address: token, topics, data } = log;
    if topics.len() == 0 {
        Seq::empty()
    } else if topics[0] == events.transfer && topics.len() == 3 {
        if data.len() < 32 {
            Seq::empty()
        } else {
            erc20_transfer(token, address_of(topics[1]), address_of(topics[2]), word_at(data, 0))
        }
    } else if topics[0] == events.transfer && topics.len() == 4 {
        erc721_transfer(token, address_of(topics[1]), address_of(topics[2]), be_value(topics[3]))
    } else if topics[0] == events.transfer_single {
        if topics.len() < 4 || data.len() < 64 {
            Seq::empty()
        } else {
            erc1155_transfer(
                token,
                address_of(topics[2]),
                address_of(topics[3]),
                (word_at(data, 0), word_at(data, 32)),
            )
        }
    } else if topics[0] == events.transfer_batch {
        match transfer_batch(data) {
            Some(items) if topics.len() >= 4 => erc1155_batch(
                token,
                address_of(topics[2]),
                address_of(topics[3]),
                items,
            ),
            _ => Seq::empty(),
        }
    } else if topics[0] == events.deposit {
        if token != base_weth() || topics.len() < 2 || data.len() < 32 {
            Seq::empty()
        } else {
            unless_zero(
                Movement::Erc20 {
                    owner: address_of(topics[1]),
                    token,
                    change: word_at(data, 0) as int,
                },
            )
        }
    } else if topics[0] == events.withdrawal {
        if token != base_weth() || topics.len() < 2 || data.len() < 32 {
            Seq::empty()
        } else {
            unless_zero(
                Movement::Erc20 { owner: address_of(topics[1]), token, change: -word_at(data, 0) },
            )
        }
    } else {
        Seq::empty()
    }
}

/// What a sequence of logs moves.
pub open spec fn movements(events: Signatures, logs: Seq<EventLog>) -> Seq<Movement>
    decreases logs.len(),
{
    if logs.len() == 0 {
        Seq::empty()
    } else {
        movements(events, logs.drop_last()) + log_movements(events, logs.last())
    }
}

/// Adds a movement to a list, unless it is one of the zero address.
fn push_unless_zero(list: &mut Vec<TokenMovement>, owner: Address, movement: TokenMovement)
    requires
        movement@.owner() == owner@,
    ensures
        movement_values(final(list)@) == movement_values(old(list)@) + unless_zero(movement@),
{
    if !owner.same(&Address::zero()) {
        list.push(movement);
    }
    assert(movement_values(list@) =~= movement_values(old(list)@) + unless_zero(movement@));
}

/// Adds both sides of an ERC-1155 transfer to a list.
fn push_erc1155(
    list: &mut Vec<TokenMovement>,
    token: Address,
    from: Address,
    to: Address,
    token_id: U256,
    amount: U256,
)
    ensures
        movement_values(final(list)@) == movement_values(old(list)@) + erc1155_transfer(
            token@,
            from@,
            to@,
            (token_id@, amount@),
        ),
{
    let lost = SignedAmount { negative: true, magnitude: amount };
    push_unless_zero(list, from, TokenMovement::Erc1155 { owner: from, token, token_id, delta: lost });
    let gained = SignedAmount { negative: false, magnitude: amount };
    push_unless_zero(list, to, TokenMovement::Erc1155 { owner: to, token, token_id, delta: gained });
    assert(movement_values(list@) =~= movement_values(old(list)@) + erc1155_transfer(
        token@,
        from@,
        to@,
        (token_id@, amount@),
    ));
}

/// The movements that a log reports.
pub fn decode_log(events: &EventTopics, log: &CallSequenceLog) -> (list: Vec<TokenMovement>)
    ensures
        movement_values(list@) == log_movements(events@, log@),
{
    let mut list: Vec<TokenMovement> = Vec::new();
    assert(movement_values(list@) =~= Seq::empty());
    let count: usize = log.topics.len();
    if count == 0 {
        return list;
    }
    let topic0 = log.topics[0];
    let data = log.data.as_slice();
    let token = log.address;
    assert(log@.topics[0] == topic0@);

    if topic0.same(&events.transfer) {
        if count == 3 {
            let amount = match u256_from_word(data) {
                Some(word) => word,
                None => {
                    return list;
                },
            };
            let from = topic_to_address(&log.topics[1]);
            let to = topic_to_address(&log.topics[2]);
            let lost = SignedAmount { negative: true, magnitude: amount };
            push_unless_zero(&mut list, from, TokenMovement::Erc20 { owner: from, token, delta: lost });
            let gained = SignedAmount { negative: false, magnitude: amount };
            push_unless_zero(&mut list, to, TokenMovement::Erc20 { owner: to, token, delta: gained });
            assert(movement_values(list@) =~= log_movements(events@, log@));
            return list;
        }
        if count == 4 {
            let from = topic_to_address(&log.topics[1]);
            let to = topic_to_address(&log.topics[2]);
            let token_id = u256_from_topic(&log.topics[3]);
            push_unless_zero(
                &mut list,
                from,
                TokenMovement::Erc721 { owner: from, token, token_id, received: false },
            );
            push_unless_zero(
                &mut list,
                to,
                TokenMovement::Erc721 { owner: to, token, token_id, received: true },
            );
            assert(movement_values(list@) =~= log_movements(events@, log@));
            return list;
        }
    }

    if topic0.same(&events.transfer_single) {
        if count < 4 {
            return list;
        }
        let from = topic_to_address(&log.topics[2]);
        let to = topic_to_address(&log.topics[3]);
        let token_id = match u256_from_word(data) {
            Some(word) => word,
            None => {
                return list;
            },
        };
        let amount = match u256_from_second_word(data) {
            Some(word) => word,
            None => {
                return list;
            },
        };
        push_erc1155(&mut list, token, from, to, token_id, amount);
        assert(movement_values(list@) =~= log_movements(events@, log@));
        return list;
    }

    if topic0.same(&events.transfer_batch) {
        if count < 4 {
            return list;
        }
        let from = topic_to_address(&log.topics[2]);
        let to = topic_to_address(&log.topics[3]);
        let items = match parse_transfer_batch(data) {
            Some(items) => items,
            None => {
                return list;
            },
        };
        let ghost pairs = pair_values(items@);
        let mut i: usize = 0;
        assert(pairs.take(0) =~= Seq::empty());
        while i < items.len()
            invariant
                i <= items@.len(),
                pairs == pair_values(items@),
                movement_values(list@) == erc1155_batch(token@, from@, to@, pairs.take(i as int)),
            decreases items@.len() - i,
        {
            let (token_id, amount) = items[i];
            push_erc1155(&mut list, token, from, to, token_id, amount);
            assert(pairs.take(i + 1).drop_last() =~= pairs.take(i as int));
            assert(pairs.take(i + 1).last() == (token_id@, amount@));
            i = i + 1;
        }
        assert(pairs.take(items@.len() as int) =~= pairs);
        return list;
    }

    if topic0.same(&events.deposit) {
        if !token.same(&base_weth_address()) || count < 2 {
            return list;
        }
        let to = topic_to_address(&log.topics[1]);
        let amount = match u256_from_word(data) {
            Some(word) => word,
            None => {
                return list;
            },
        };
        let gained = SignedAmount { negative: false, magnitude: amount };
        push_unless_zero(&mut list, to, TokenMovement::Erc20 { owner: to, token, delta: gained });
        assert(movement_values(list@) =~= log_movements(events@, log@));
        return list;
    }

    if topic0.same(&events.withdrawal) {
        if !token.same(&base_weth_address()) || count < 2 {
            return list;
        }
        let from = topic_to_address(&log.topics[1]);
        let amount = match u256_from_word(data) {
            Some(word) => word,
            None => {
                return list;
            },
        };
        let lost = SignedAmount { negative: true, magnitude: amount };
        push_unless_zero(&mut list, from, TokenMovement::Erc20 { owner: from, token, delta: lost });
        assert(movement_values(list@) =~= log_movements(events@, log@));
    }
    list
}

} // verus!
