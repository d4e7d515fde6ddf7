//! The settings of the EVM that a call changes.

use crate::block_parts::{apply_blob_base_fee, apply_to_parts};
use crate::primitives::{Address, B256};
use crate::word::{limbs_value, U256};
use vstd::prelude::*;

verus! {

/// The checks of the EVM that a call can switch off, and its limits.
#[derive(Clone, Copy, Debug, PartialEq, Eq)]
pub struct CfgSettings {
    /// Senders may have code.
    pub disable_eip3607: bool,
    /// The nonce of a transaction is not checked.
    pub disable_nonce_check: bool,
    /// The base fee is not checked.
    pub disable_base_fee: bool,
    /// The gas limit of the block is not checked.
    pub disable_block_gas_limit: bool,
    /// No further fees are charged.
    pub disable_fee_charge: bool,
    /// The largest gas limit that a transaction may have.
    pub tx_gas_limit_cap: Option<u64>,
    /// The memory that the EVM may allocate.
    pub memory_limit: u64,
}

/// The blob gas of a block.
#[derive(Clone, Copy, Debug, PartialEq, Eq)]
pub struct BlobGas {
    /// The blob gas that is used in excess.
    pub excess: u64,
    /// The price of blob gas.
    pub price: u128,
}

/// The block that a call runs in.
#[derive(Clone, Copy, Debug, PartialEq, Eq)]
pub struct BlockSettings {
    /// The number of the block.
    pub number: U256,
    /// The gas limit of the block.
    pub gas_limit: u64,
    /// The base fee of the block.
    pub basefee: u64,
    /// The difficulty of the block.
    pub difficulty: U256,
    /// The random value of the block.
    pub prevrandao: Option<B256>,
    /// The time of the block in seconds.
    pub timestamp: U256,
    /// The account that the fees of the block go to.
    pub beneficiary: Address,
    /// The blob gas of the block, if there is blob gas at all.
    pub blob: Option<BlobGas>,
}

/// The parts of the block that a request replaces.
#[derive(Clone, Copy, Debug, PartialEq, Eq)]
pub struct BlockOverrides {
    /// The number of the block.
    pub number: Option<U256>,
    /// The difficulty of the block.
    pub difficulty: Option<U256>,
    /// The gas limit of the block.
    pub gas_limit: Option<u64>,
    /// The random value of the block.
    pub random: Option<B256>,
    /// The base fee of the block.
    pub base_fee: Option<U256>,
    /// The time of the block in seconds.
    pub time: Option<u64>,
    /// The account that the fees of the block go to.
    pub coinbase: Option<Address>,
    /// The price of blob gas.
    pub blob_base_fee: Option<U256>,
}

/// What a request says of its transaction.
#[derive(Clone, Copy, Debug, PartialEq, Eq)]
pub struct RequestSettings {
    /// The gas limit, if the request has one.
    pub gas_limit: Option<u64>,
    /// The nonce, if the request has one.
    pub nonce: Option<u64>,
    /// The sender, if the request has one.
    pub from: Option<Address>,
}

/// A transaction that was built from a request.
#[derive(Clone, Copy, Debug, PartialEq, Eq)]
pub struct TxSettings {
    /// The sender.
    pub caller: Address,
    /// The value that is sent.
    pub value: U256,
    /// The gas price.
    pub gas_price: u128,
    /// The gas limit.
    pub gas_limit: u64,
}

/// A value, unless there is another in its place.
pub open spec fn replaced<T>(value: T, other: Option<T>) -> T {
    match other {
        Some(o) => o,
        None => value,
    }
}

/// A number, or the largest `u64` where it is larger.
pub open spec fn saturated(number: nat) -> u64 {
    if number <= u64::MAX {
        number as u64
    } else {
        u64::MAX
    }
}

/// A number, or the largest `u128` where it is larger.
pub open spec fn saturated_price(number: nat) -> u128 {
    if number <= u128::MAX {
        number as u128
    } else {
        u128::MAX
    }
}

/// The blob gas of a block with another price. The excess is kept, and is zero where
/// there was no blob gas.
pub open spec fn repriced(blob: Option<BlobGas>, blob_base_fee: Option<U256>) -> Option<BlobGas> {
    match blob_base_fee {
        Some(fee) => Some(
            BlobGas {
                excess: match blob {
                    Some(gas) => gas.excess,
                    None => 0,
                },
                price: saturated_price(fee@),
            },
        ),
        None => blob,
    }
}

/// The block with the parts that the overrides give in the place of its own. A base fee
/// or a price of blob gas that is too large becomes the largest there is.
pub open spec fn overridden(block: BlockSettings, overrides: BlockOverrides) -> BlockSettings {
    BlockSettings {
        number: replaced(block.number, overrides.number),
        difficulty: replaced(block.difficulty, overrides.difficulty),
        gas_limit: replaced(block.gas_limit, overrides.gas_limit),
        prevrandao: match overrides.random {
            Some(random) => Some(random),
            None => block.prevrandao,
        },
        basefee: match overrides.base_fee {
            Some(fee) => saturated(fee@),
            None => block.basefee,
        },
        timestamp: match overrides.time {
            Some(seconds) => U256::of_u64(seconds),
            None => block.timestamp,
        },
        beneficiary: replaced(block.beneficiary, overrides.coinbase),
        blob: repriced(block.blob, overrides.blob_base_fee),
    }
}

/// The limbs of a word, if there is one.
fn limbs_of(word: Option<U256>) -> (limbs: Option<[u64; 4]>)
    ensures
        limbs == (match word {
            Some(w) => Some(w.limbs),
            None => None,
        }),
{
    match word {
        Some(w) => Some(w.limbs),
        None => None,
    }
}

/// The bytes of a word, if there is one.
fn bytes_of(word: Option<B256>) -> (bytes: Option<[u8; 32]>)
    ensures
        bytes == (match word {
            Some(w) => Some(w.bytes),
            None => None,
        }),
{
    match word {
        Some(w) => Some(w.bytes),
        None => None,
    }
}

/// The block with the parts that the overrides give in the place of its own.
pub fn apply_block_overrides(block: BlockSettings, overrides: BlockOverrides) -> (next: BlockSettings)
    ensures
        next == overridden(block, overrides),
{
    let blob = match block.blob {
        Some(gas) => Some((gas.excess, gas.price)),
        None => None,
    };
    let blob = apply_blob_base_fee(blob, limbs_of(overrides.blob_base_fee));
    let coinbase = match overrides.coinbase {
        Some(account) => Some(account.bytes),
        None => None,
    };
    let (number, difficulty, timestamp, gas_limit, basefee, random, beneficiary) = apply_to_parts(
        block.number.limbs,
        block.difficulty.limbs,
        block.timestamp.limbs,
        block.gas_limit,
        block.basefee,
        bytes_of(block.prevrandao),
        block.beneficiary.bytes,
        limbs_of(overrides.number),
        limbs_of(overrides.difficulty),
        overrides.time,
        overrides.gas_limit,
        limbs_of(overrides.base_fee),
        bytes_of(overrides.random),
        coinbase,
    );
    BlockSettings {
        number: U256 { limbs: number },
        difficulty: U256 { limbs: difficulty },
        timestamp: U256 { limbs: timestamp },
        gas_limit,
        basefee,
        prevrandao: match random {
            Some(bytes) => Some(B256 { bytes }),
            None => None,
        },
        beneficiary: Address { bytes: beneficiary },
        blob: match blob {
            Some((excess, price)) => Some(BlobGas { excess, price }),
            None => None,
        },
    }
}

/// The gas limit of a request: no more than the limit for calls, unless that is zero,
/// and the limit for calls where the request has none.
pub open spec fn capped_gas(requested: Option<u64>, call_gas_limit: u64) -> u64 {
    match requested {
        Some(gas) => if call_gas_limit != 0 && call_gas_limit < gas {
            call_gas_limit
        } else {
            gas
        },
        None => call_gas_limit,
    }
}

/// The gas limit of a request.
pub fn cap_gas(requested: Option<u64>, call_gas_limit: u64) -> (gas: u64)
    ensures
        gas == capped_gas(requested, call_gas_limit),
{
    match requested {
        Some(gas) => {
            if call_gas_limit != 0 && call_gas_limit < gas {
                call_gas_limit
            } else {
                gas
            }
        },
        None => call_gas_limit,
    }
}

/// The smaller of two numbers.
pub open spec fn least(left: u64, right: u64) -> u64 {
    if right < left {
        right
    } else {
        left
    }
}

/// The smaller of two numbers.
pub fn smaller(left: u64, right: u64) -> (number: u64)
    ensures
        number == least(left, right),
{
    if right < left {
        right
    } else {
        left
    }
}

/// The value of a transaction is larger than the balance that it is paid from.
#[derive(Clone, Copy, Debug, PartialEq, Eq)]
pub struct InsufficientFunds {
    /// The value of the transaction.
    pub cost: U256,
    /// The balance of the sender.
    pub balance: U256,
}

/// The gas that a balance pays for once the value of the transaction is taken from it:
/// none at all where gas has no price, and never more than a `u64` holds.
pub open spec fn affordable_gas(balance: nat, value: nat, gas_price: u128) -> int {
    let gas = (balance - value) / (gas_price as int);
    if gas_price == 0 {
        0
    } else if gas > u64::MAX {
        u64::MAX as int
    } else {
        gas
    }
}

/// `caller_gas_allowance` of `alloy_evm`, for a sender with the balance and a
/// transaction with the value and the gas price: `(balance - value) / gas_price`, cut
/// off at the largest `u64` and zero for a gas price of zero; none if the value is
/// larger than the balance.
#[verifier::external_body]
fn allowance_of_limbs(balance: [u64; 4], value: [u64; 4], gas_price: u128) -> (allowance: Option<u64>)
    ensures
        match allowance {
            Some(gas) => limbs_value(value@) <= limbs_value(balance@) && gas == affordable_gas(
                limbs_value(balance@),
                limbs_value(value@),
                gas_price,
            ),
            None => limbs_value(value@) > limbs_value(balance@),
        },
{
    let mut db = revm::database::InMemoryDB::default();
    let balance = alloy_primitives::U256::from_limbs(balance);
    let account = revm::state::AccountInfo { balance, ..Default::default() };
    db.insert_account_info(alloy_primitives::Address::ZERO, account);
    let value = alloy_primitives::U256::from_limbs(value);
    let tx = revm::context::TxEnv { value, gas_price, ..Default::default() };
    alloy_evm::call::caller_gas_allowance(&mut db, &tx).ok()
}

/// The max gas limit that the caller can afford for a transaction. An account that does
/// not exist has no balance.
pub fn caller_gas_allowance(balance: Option<U256>, value: U256, gas_price: u128) -> (allowance: Result<
    u64,
    InsufficientFunds,
>)
    ensures
        ({
            let funds = match balance {
                Some(word) => word@,
                None => 0,
            };
            match allowance {
                Ok(gas) => value@ <= funds && gas == affordable_gas(funds, value@, gas_price),
                Err(error) => value@ > funds && error.cost@ == value@ && error.balance@ == funds,
            }
        }),
{
    let funds = match balance {
        Some(word) => word,
        None => U256::zero(),
    };
    match allowance_of_limbs(funds.limbs, value.limbs, gas_price) {
        Some(gas) => Ok(gas),
        None => Err(InsufficientFunds { cost: value, balance: funds }),
    }
}

} // verus!
