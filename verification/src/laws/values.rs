//! What holds of the numbers, texts, settings and results that requests are made of.

use crate::amount::{settled, Signed};
use crate::block::{BlockId, BlockNumberOrTag};
use crate::logs::{log_values, CallSequenceLog};
use crate::outcome::{call_result, result_values, summary_of, CallSequenceResult, Execution, Outcome};
use crate::primitives::{zero_address, B256};
use crate::settings::{affordable_gas, capped_gas, least, overridden, BlockOverrides, BlockSettings};
use crate::text::{decimal_text, digit_char, digits, hex_text, signed_decimal_text, signed_hex_text};
use crate::word::{be_value, U256};
use vstd::prelude::*;

verus! {

/// A word made of a small number has that number as its value.
pub proof fn small_word_holds_its_number(number: u64)
    ensures
        U256::of_u64(number)@ == number,
{
}

/// A word is the number that its limbs are the digits of, in the base of two to the power of
/// 64, the least significant first.
pub proof fn limbs_are_digits_of_word(word: U256)
    ensures
        ({
            let limbs = word.limbs@;
            let base = 0x1_0000000000000000int;
            word@ == limbs[0] + base * (limbs[1] + base * (limbs[2] + base * limbs[3]))
        }),
{
}

/// Bytes are read from the most significant to the least.
pub proof fn bytes_are_read_in_order(bytes: Seq<u8>, last: u8)
    ensures
        be_value(Seq::empty()) == 0,
        be_value(bytes.push(last)) == 256 * be_value(bytes) + last,
{
    assert(bytes.push(last).drop_last() =~= bytes);
}

/// The digits are `0` to `9` and then `a` to `f`.
pub proof fn digits_are_ascii(digit: nat)
    requires
        digit < 16,
    ensures
        digit < 10 ==> digit_char(digit) as int == 0x30 + digit,
        digit >= 10 ==> digit_char(digit) as int == 0x61 + digit - 10,
{
    let all = seq!['0', '1', '2', '3', '4', '5', '6', '7', '8', '9', 'a', 'b', 'c', 'd', 'e', 'f'];
    assert(all[digit as int] == digit_char(digit));
    if digit == 0 {
    } else if digit == 1 {
    } else if digit == 2 {
    } else if digit == 3 {
    } else if digit == 4 {
    } else if digit == 5 {
    } else if digit == 6 {
    } else if digit == 7 {
    } else if digit == 8 {
    } else if digit == 9 {
    } else if digit == 10 {
    } else if digit == 11 {
    } else if digit == 12 {
    } else if digit == 13 {
    } else if digit == 14 {
    } else {
        assert(digit == 15);
    }
}

/// A digit behind a number multiplies it by the base and adds the digit; a number below the
/// base is one digit.
pub proof fn digits_grow_at_the_end(number: nat, digit: nat, base: nat)
    requires
        2 <= base,
        digit < base,
    ensures
        digits(digit, base) == seq![digit_char(digit)],
        number > 0 ==> digits(number * base + digit, base) == digits(number, base).push(digit_char(digit)),
{
    if number > 0 {
        let grown = number * base + digit;
        assert(grown >= base) by (nonlinear_arith)
            requires
                grown == number * base + digit,
                number > 0,
        ;
        vstd::arithmetic::div_mod::lemma_fundamental_div_mod_converse(
            grown as int,
            base as int,
            number as int,
            digit as int,
        );
    }
}

/// Hexadecimal text is `0x` and the digits; decimal text is the digits. A negative number
/// has a `-` before the text of its magnitude, any other number has none.
pub proof fn texts_have_their_form(number: nat, signed: int)
    ensures
        hex_text(number) == seq!['0', 'x'] + digits(number, 16),
        decimal_text(number) == digits(number, 10),
        signed >= 0 ==> signed_hex_text(signed) == seq!['0', 'x'] + digits(signed as nat, 16),
        signed >= 0 ==> signed_decimal_text(signed) == digits(signed as nat, 10),
        signed < 0 ==> signed_hex_text(signed) == seq!['-', '0', 'x'] + digits((-signed) as nat, 16),
        signed < 0 ==> signed_decimal_text(signed) == seq!['-'] + digits((-signed) as nat, 10),
{
    if signed < 0 {
        assert(signed_hex_text(signed) =~= seq!['-', '0', 'x'] + digits((-signed) as nat, 16));
    }
}

/// An amount after a change has the sign of the true sum, and as its magnitude the size of
/// that sum, less as many times two to the power of 256 as are in it. A change of nothing
/// changes nothing.
pub proof fn changed_amount_is_the_sum(negative: bool, magnitude: nat, change: int)
    ensures
        ({
            let before: int = if negative {
                -magnitude
            } else {
                magnitude as int
            };
            let sum = before + change;
            let after = Signed { negative, magnitude }.moved_by(change);
            let limit = 0x1_0000000000000000_0000000000000000_0000000000000000_0000000000000000int;
            &&& Signed { negative, magnitude }.value() == before
            &&& change == 0 ==> after == (Signed { negative, magnitude })
            &&& change != 0 ==> after.negative == (sum < 0)
            &&& change != 0 && sum >= 0 ==> after.magnitude == sum % limit
            &&& change != 0 && sum < 0 ==> after.magnitude == (-sum) % limit
        }),
{
}

/// Changes are applied one after the other, to nothing at first.
pub proof fn changes_are_applied_in_order(changes: Seq<int>, last: int)
    ensures
        settled(Seq::empty()) == (Signed { negative: false, magnitude: 0 }),
        settled(changes.push(last)) == settled(changes).moved_by(last),
{
    assert(changes.push(last).drop_last() =~= changes);
}

/// What a balance pays for is all the gas whose price, with the value, is within it, up to
/// the largest `u64`. Gas without a price is none.
pub proof fn allowance_is_all_that_is_paid_for(balance: nat, value: nat, gas_price: u128)
    requires
        value <= balance,
    ensures
        0 <= affordable_gas(balance, value, gas_price) <= u64::MAX,
        gas_price == 0 ==> affordable_gas(balance, value, gas_price) == 0,
        gas_price > 0 ==> value + affordable_gas(balance, value, gas_price) * gas_price <= balance,
        gas_price > 0 && affordable_gas(balance, value, gas_price) < u64::MAX ==> value + (affordable_gas(
            balance,
            value,
            gas_price,
        ) + 1) * gas_price > balance,
{
    if gas_price > 0 {
        let rest = balance - value;
        let price = gas_price as int;
        let all = rest / price;
        vstd::arithmetic::div_mod::lemma_fundamental_div_mod(rest, price);
        vstd::arithmetic::div_mod::lemma_mod_bound(rest, price);
        vstd::arithmetic::div_mod::lemma_div_pos_is_pos(rest, price);
        let gas = affordable_gas(balance, value, gas_price);
        assert(gas * price <= all * price) by (nonlinear_arith)
            requires
                gas <= all,
                price > 0,
        ;
        assert(all * price == price * all) by (nonlinear_arith);
        assert((all + 1) * price == price * all + price) by (nonlinear_arith);
    }
}

/// The gas limit of a request is within that for calls unless that is zero, is no more than
/// what was asked for, and is as much as both allow.
pub proof fn capped_gas_is_the_smaller(requested: u64, call_gas_limit: u64)
    ensures
        capped_gas(None, call_gas_limit) == call_gas_limit,
        capped_gas(Some(requested), 0) == requested,
        call_gas_limit > 0 ==> capped_gas(Some(requested), call_gas_limit) <= call_gas_limit,
        call_gas_limit > 0 ==> capped_gas(Some(requested), call_gas_limit) <= requested,
        requested <= call_gas_limit ==> capped_gas(Some(requested), call_gas_limit) == requested,
        0 < call_gas_limit <= requested ==> capped_gas(Some(requested), call_gas_limit) == call_gas_limit,
{
}

/// The smaller of two numbers is above neither and is one of them.
pub proof fn least_is_below_both(left: u64, right: u64)
    ensures
        least(left, right) <= left,
        least(left, right) <= right,
        least(left, right) == left || least(left, right) == right,
{
}

/// What overrides give replaces its part of a block, and what they do not give is kept. A
/// fee or a price that is too large is the largest there is. The excess of blob gas is kept.
pub proof fn overrides_replace_what_they_give(block: BlockSettings, given: BlockOverrides)
    ensures
        ({
            let made = overridden(block, given);
            &&& given.number is Some ==> made.number == given.number->0
            &&& given.number is None ==> made.number == block.number
            &&& given.difficulty is Some ==> made.difficulty == given.difficulty->0
            &&& given.difficulty is None ==> made.difficulty == block.difficulty
            &&& given.gas_limit is Some ==> made.gas_limit == given.gas_limit->0
            &&& given.gas_limit is None ==> made.gas_limit == block.gas_limit
            &&& given.random is Some ==> made.prevrandao == given.random
            &&& given.random is None ==> made.prevrandao == block.prevrandao
            &&& given.base_fee is Some && given.base_fee->0@ <= u64::MAX ==> made.basefee == given.base_fee->0@
            &&& given.base_fee is Some && given.base_fee->0@ > u64::MAX ==> made.basefee == u64::MAX
            &&& given.base_fee is None ==> made.basefee == block.basefee
            &&& given.time is Some ==> made.timestamp@ == given.time->0
            &&& given.time is None ==> made.timestamp == block.timestamp
            &&& given.coinbase is Some ==> made.beneficiary == given.coinbase->0
            &&& given.coinbase is None ==> made.beneficiary == block.beneficiary
            &&& given.blob_base_fee is None ==> made.blob == block.blob
            &&& given.blob_base_fee is Some ==> {
                &&& made.blob is Some
                &&& block.blob is Some ==> made.blob->0.excess == block.blob->0.excess
                &&& block.blob is None ==> made.blob->0.excess == 0
                &&& given.blob_base_fee->0@ <= u128::MAX ==> made.blob->0.price == given.blob_base_fee->0@
                &&& given.blob_base_fee->0@ > u128::MAX ==> made.blob->0.price == u128::MAX
            }
        }),
{
}

/// The zero address has twenty bytes, and all of them are zero.
pub proof fn zero_address_is_all_zero()
    ensures
        zero_address().len() == 20,
        forall|i: int| 0 <= i < 20 ==> zero_address()[i] == 0u8,
{
}

/// A request is about the block that it names, by hash, number or tag, and about the latest
/// where it names none. Only the tag says that a block is pending. A hash asks for the block
/// whether it is canonical or not.
pub proof fn request_is_about_its_block(id: BlockId, hash: B256)
    ensures
        BlockId::requested(Some(id)) == id,
        BlockId::requested(None) == BlockId::Number(BlockNumberOrTag::Latest),
        id.pending() <==> id is Number && id->Number_0 is Pending,
        BlockId::of_hash(hash) == (BlockId::Hash { block_hash: hash, require_canonical: None }),
{
}

/// A result says that a success is one, has its output and its logs, and gives no reason; of
/// a revert it has the output and says that it was one; of a halt it has the reason alone.
pub proof fn results_say_how_calls_end(output: Vec<u8>, logs: Vec<CallSequenceLog>, reason: String)
    ensures
        ({
            let success = summary_of(Outcome::Success { output, logs });
            &&& success.ok
            &&& success.result == output@
            &&& success.logs == log_values(logs@)
            &&& success.revert_reason.len() == 0
        }),
        ({
            let revert = summary_of(Outcome::Revert { output });
            &&& !revert.ok
            &&& revert.result == output@
            &&& revert.logs.len() == 0
            &&& revert.revert_reason == "execution reverted"@
        }),
        ({
            let halt = summary_of(Outcome::Halt { reason });
            &&& !halt.ok
            &&& halt.result.len() == 0
            &&& halt.logs.len() == 0
            &&& halt.revert_reason == "halt: "@ + reason@
        }),
{
}

/// The result of a call has the gas and the end of its execution, and the difference of the
/// balances of the sender in decimal: after less before.
pub proof fn result_has_the_difference(execution: Execution, before: nat, after: nat)
    ensures
        call_result(execution, before, after).summary == summary_of(execution.outcome),
        call_result(execution, before, after).used_gas == execution.used_gas,
        after >= before ==> call_result(execution, before, after).from_balance_change == digits(
            (after - before) as nat,
            10,
        ),
        after < before ==> call_result(execution, before, after).from_balance_change == seq!['-'] + digits(
            (before - after) as nat,
            10,
        ),
{
}

/// The logs and the results of a list are those at each position, with all that they hold.
pub proof fn lists_hold_what_they_list(logs: Seq<CallSequenceLog>, results: Seq<CallSequenceResult>)
    ensures
        log_values(logs).len() == logs.len(),
        forall|i: int| 0 <= i < logs.len() ==> (#[trigger] log_values(logs)[i]).address == logs[i].address.bytes@,
        forall|i: int| 0 <= i < logs.len() ==> (#[trigger] log_values(logs)[i]).data == logs[i].data@,
        forall|i: int|
            0 <= i < logs.len() ==> (#[trigger] log_values(logs)[i]).topics.len() == logs[i].topics@.len(),
        forall|i: int, j: int|
            0 <= i < logs.len() && 0 <= j < logs[i].topics@.len() ==> #[trigger] log_values(logs)[i].topics[j]
                == logs[i].topics@[j].bytes@,
        result_values(results).len() == results.len(),
        forall|i: int|
            0 <= i < results.len() ==> {
                let value = #[trigger] result_values(results)[i];
                &&& value.summary.ok == results[i].ok
                &&& value.summary.result == results[i].result@
                &&& value.summary.logs == log_values(results[i].logs@)
                &&& value.summary.revert_reason == results[i].revert_reason@
                &&& value.used_gas == results[i].used_gas
                &&& value.from_balance_change == results[i].from_balance_change@
            },
{
}

} // verus!
