//! The overrides of a block, part by part.

use crate::settings::{replaced, saturated, saturated_price};
use crate::word::limbs_value;
use alloy_evm::overrides::apply_block_overrides;
use alloy_primitives::{FixedBytes, U256};
use alloy_rpc_types_eth::BlockOverrides;
use revm::context::BlockEnv;
use revm::context_interface::block::BlobExcessGasAndPrice;
use revm::database::InMemoryDB;
use vstd::prelude::*;

verus! {

/// `apply_block_overrides` of `alloy_evm`, on the number, the difficulty, the timestamp,
/// the gas limit, the base fee, the random value and the beneficiary of a block: each
/// that is overridden is replaced, and the base fee is cut off at the largest `u64`. What
/// becomes of blob gas is stated below; what becomes of block hashes, which go into a
/// database, is not stated.
#[verifier::external_body]
pub(crate) fn apply_to_parts(
    number: [u64; 4],
    difficulty: [u64; 4],
    timestamp: [u64; 4],
    gas_limit: u64,
    basefee: u64,
    prevrandao: Option<[u8; 32]>,
    beneficiary: [u8; 20],
    new_number: Option<[u64; 4]>,
    new_difficulty: Option<[u64; 4]>,
    time: Option<u64>,
    new_gas_limit: Option<u64>,
    base_fee: Option<[u64; 4]>,
    random: Option<[u8; 32]>,
    coinbase: Option<[u8; 20]>,
) -> (parts: ([u64; 4], [u64; 4], [u64; 4], u64, u64, Option<[u8; 32]>, [u8; 20]))
    ensures
        parts.0 == replaced(number, new_number),
        parts.1 == replaced(difficulty, new_difficulty),
        parts.2 == (match time {
            Some(seconds) => [seconds, 0, 0, 0],
            None => timestamp,
        }),
        parts.3 == replaced(gas_limit, new_gas_limit),
        parts.4 == (match base_fee {
            Some(fee) => saturated(limbs_value(fee@)),
            None => basefee,
        }),
        parts.5 == (match random {
            Some(value) => Some(value),
            None => prevrandao,
        }),
        parts.6 == replaced(beneficiary, coinbase),
{
    let word = U256::from_limbs;
    let mut env = BlockEnv {
        number: word(number), difficulty: word(difficulty), timestamp: word(timestamp), gas_limit, basefee,
        prevrandao: prevrandao.map(FixedBytes), beneficiary: beneficiary.into(), ..Default::default()
    };
    let given = BlockOverrides {
        number: new_number.map(word), difficulty: new_difficulty.map(word), time, gas_limit: new_gas_limit,
        base_fee: base_fee.map(word), random: random.map(FixedBytes), coinbase: coinbase.map(Into::into),
        ..Default::default()
    };
    apply_block_overrides(given, &mut InMemoryDB::default(), &mut env);
    (env.number.into_limbs(), env.difficulty.into_limbs(), env.timestamp.into_limbs(), env.gas_limit, env.basefee,
        env.prevrandao.map(Into::into), env.beneficiary.into_array())
}

/// `apply_block_overrides` of `alloy_evm`, on the blob gas of a block, its excess before
/// its price: a price that is given replaces the price, cut off at the largest `u128`;
/// the excess is kept, and is zero where the block had no blob gas.
#[verifier::external_body]
pub(crate) fn apply_blob_base_fee(blob: Option<(u64, u128)>, blob_base_fee: Option<[u64; 4]>) -> (next: Option<
    (u64, u128),
>)
    ensures
        next == (match blob_base_fee {
            Some(fee) => Some(
                (
                    match blob {
                        Some(gas) => gas.0,
                        None => 0,
                    },
                    saturated_price(limbs_value(fee@)),
                ),
            ),
            None => blob,
        }),
{
    let gas = blob.map(|(excess_blob_gas, blob_gasprice)| BlobExcessGasAndPrice { excess_blob_gas, blob_gasprice });
    let mut env = BlockEnv { blob_excess_gas_and_price: gas, ..Default::default() };
    let given = BlockOverrides { blob_base_fee: blob_base_fee.map(U256::from_limbs), ..Default::default() };
    apply_block_overrides(given, &mut InMemoryDB::default(), &mut env);
    env.blob_excess_gas_and_price.map(|gas| (gas.excess_blob_gas, gas.blob_gasprice))
}

} // verus!
