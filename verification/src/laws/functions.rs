//! What holds of what the smaller functions take and return.

use crate::access_list::make_access_list_cfg;
use crate::amount::SignedAmount;
use crate::block::{BlockId, TransactionIndex};
use crate::bundles::{make_response, EthCallResponse};
use crate::errors::{unless_cancelled, CallError, InvalidParams};
use crate::ledger::{Erc1155Changes, Erc20Changes, Erc721Changes};
use crate::logs::{base_weth_address, event_signatures, log_values, movements, CallSequenceLog, EventTopics};
use crate::outcome::{balance_of, build_call_result, summarize, CallSequenceResult, Execution, Outcome};
use crate::prepare::{
    apply_allowance, make_call_cfg, make_call_request, nonce_account, request_sender, set_nonce, CallLimits,
};
use crate::primitives::{Address, B256};
use crate::replay::{choose_starting_point, transactions_before, transactions_requested, StartingPoint};
use crate::settings::{
    cap_gas, caller_gas_allowance, smaller, BlockOverrides, BlockSettings, CfgSettings, InsufficientFunds,
    RequestSettings, TxSettings,
};
use crate::simulate::{exceeds_gas_limit, make_simulated_block, make_simulated_cfg};
use crate::table::Table;
use crate::text::{
    digits, signed_balance_delta, signed_u256_to_decimal, signed_u256_to_hex, u256_to_decimal, u256_to_hex,
};
use crate::token_changes::{erc20_report, erc721_report, extract_token_changes, reports_erc1155, token_changes};
use crate::tracking::{build_tracked_result, CallSequenceNativeChange, CallSequenceWithBalanceTrackingResult};
use crate::word::U256;
use vstd::prelude::*;

verus! {

/// What is wrong with a request that asks for nothing is said in these words.
pub proof fn messages_say_what_is_wrong(params: InvalidParams, text: String)
    requires
        call_ensures(InvalidParams::message, (&params,), text),
    ensures
        params is CallsEmpty ==> text@ == "calls are empty."@,
        params is BundlesEmpty ==> text@ == "bundles are empty."@,
{
}

/// A call is made if and only if the caller has not gone away.
pub proof fn cancelled_call_is_not_made<E>(cancelled: bool, go: Result<(), CallError<E>>)
    requires
        call_ensures(unless_cancelled::<E>, (cancelled,), go),
    ensures
        go is Ok <==> !cancelled,
        go is Err ==> go->Err_0 is Cancelled,
{
}

/// The block that a request is about is the one that it names, and the latest where it names
/// none; only the tag makes it the pending one; a hash asks for no canonical block.
pub proof fn block_is_that_of_request(
    block: Option<BlockId>,
    id: BlockId,
    pending: bool,
    hash: B256,
    by_hash: BlockId,
)
    requires
        call_ensures(BlockId::or_latest, (block,), id),
        call_ensures(BlockId::is_pending, (&id,), pending),
        call_ensures(BlockId::from_hash, (hash,), by_hash),
    ensures
        block is Some ==> id == block->0,
        block is None ==> id is Number && id->Number_0 is Latest,
        pending <==> id is Number && id->Number_0 is Pending,
        by_hash is Hash,
        by_hash->block_hash == hash,
        by_hash->require_canonical is None,
{
}

/// The gas of a request is its own up to the limit for calls, and that limit where it has none;
/// a limit of zero limits nothing. The smaller of two numbers is above neither and one of
/// them.
pub proof fn gas_is_capped(requested: Option<u64>, limit: u64, gas: u64, other: u64, least: u64)
    requires
        call_ensures(cap_gas, (requested, limit), gas),
        call_ensures(smaller, (limit, other), least),
    ensures
        requested is None ==> gas == limit,
        requested is Some && limit == 0 ==> gas == requested->0,
        requested is Some && limit != 0 ==> gas <= limit && gas <= requested->0 && (gas == limit || gas
            == requested->0),
        least <= limit && least <= other && (least == limit || least == other),
{
}

/// A sender who can pay for the value has all the gas that the rest pays for, up to the largest
/// `u64`; one who cannot is told the value and the balance.
pub proof fn allowance_is_what_is_paid_for(
    balance: Option<U256>,
    value: U256,
    gas_price: u128,
    allowance: Result<u64, InsufficientFunds>,
)
    requires
        call_ensures(caller_gas_allowance, (balance, value, gas_price), allowance),
    ensures
        ({
            let funds: nat = if balance is Some {
                balance->0@
            } else {
                0
            };
            &&& allowance is Ok <==> value@ <= funds
            &&& allowance is Ok && gas_price == 0 ==> allowance->Ok_0 == 0
            &&& allowance is Ok && gas_price > 0 ==> value@ + allowance->Ok_0 * gas_price <= funds
            &&& allowance is Ok && gas_price > 0 && allowance->Ok_0 < u64::MAX ==> value@ + (allowance->Ok_0 + 1)
                * gas_price > funds
            &&& allowance is Err ==> allowance->Err_0.cost@ == value@ && allowance->Err_0.balance@ == funds
        }),
{
    let funds: nat = if balance is Some {
        balance->0@
    } else {
        0
    };
    if value@ <= funds {
        crate::laws::values::allowance_is_all_that_is_paid_for(funds, value@, gas_price);
    }
}

/// What a sender can pay for is the gas limit of the transaction, as far as that of the block
/// allows; nothing else of it changes.
pub proof fn allowance_is_within_block(
    tx: TxSettings,
    balance: Option<U256>,
    block_gas_limit: u64,
    allowed: Result<TxSettings, InsufficientFunds>,
)
    requires
        call_ensures(apply_allowance, (tx, balance, block_gas_limit), allowed),
    ensures
        ({
            let funds: nat = if balance is Some {
                balance->0@
            } else {
                0
            };
            let price = tx.gas_price as int;
            let made = allowed->Ok_0;
            &&& allowed is Ok <==> tx.value@ <= funds
            &&& allowed is Ok ==> made.caller == tx.caller && made.value == tx.value && made.gas_price == tx.gas_price
            &&& allowed is Ok ==> made.gas_limit <= block_gas_limit
            &&& allowed is Ok && price == 0 ==> made.gas_limit == 0
            &&& allowed is Ok && price > 0 ==> tx.value@ + made.gas_limit * price <= funds
            &&& allowed is Ok && price > 0 && made.gas_limit < block_gas_limit ==> tx.value@ + (made.gas_limit + 1)
                * price > funds
            &&& allowed is Err ==> allowed->Err_0.cost@ == tx.value@ && allowed->Err_0.balance@ == funds
        }),
{
    let funds = crate::outcome::balance_or_zero(balance);
    if tx.value@ <= funds {
        crate::laws::values::allowance_is_all_that_is_paid_for(funds, tx.value@, tx.gas_price);
        let gas = crate::settings::affordable_gas(funds, tx.value@, tx.gas_price);
        assert(0 <= gas <= u64::MAX);
        if tx.gas_price > 0 {
            crate::prepare::allowed_tx_is_paid_for(tx, balance, block_gas_limit);
        }
    }
}

/// Calls and access lists are made without the checks on the code of the sender, on the base
/// fee and on gas limits, and without further fees. Calls have the memory that the node
/// allows; nothing else of the settings changes.
pub proof fn calls_have_checks_off(
    cfg: CfgSettings,
    limits: CallLimits,
    call: CfgSettings,
    listing: CfgSettings,
)
    requires
        call_ensures(make_call_cfg, (cfg, limits), call),
        call_ensures(make_access_list_cfg, (cfg,), listing),
    ensures
        crate::laws::listing::has_checks_off(cfg, listing),
        crate::laws::listing::has_checks_off(CfgSettings { memory_limit: limits.evm_memory_limit, ..cfg }, call),
{
}

/// A request is called with its gas capped, without its nonce and from its sender. The sender
/// is the zero address where it has none, and gives the nonce only where the request has none;
/// the nonce is zero where there is no account.
pub proof fn request_is_made_for_call(
    request: RequestSettings,
    limits: CallLimits,
    made: RequestSettings,
    sender: Address,
    account: Option<Address>,
    nonce: Option<u64>,
    with_nonce: RequestSettings,
)
    requires
        call_ensures(make_call_request, (request, limits), made),
        call_ensures(request_sender, (&request,), sender),
        call_ensures(nonce_account, (&request,), account),
        call_ensures(set_nonce, (request, nonce), with_nonce),
    ensures
        made.gas_limit is Some,
        request.gas_limit is None ==> made.gas_limit->0 == limits.call_gas_limit,
        request.gas_limit is Some ==> made.gas_limit->0 <= request.gas_limit->0,
        request.gas_limit is Some && (limits.call_gas_limit == 0 || request.gas_limit->0 <= limits.call_gas_limit)
            ==> made.gas_limit == request.gas_limit,
        limits.call_gas_limit > 0 ==> made.gas_limit->0 <= limits.call_gas_limit,
        request.gas_limit is Some && request.gas_limit->0 > limits.call_gas_limit > 0 ==> made.gas_limit->0
            == limits.call_gas_limit,
        made.nonce is None,
        made.from == request.from,
        request.from is Some ==> sender == request.from->0,
        request.from is None ==> forall|i: int| 0 <= i < 20 ==> sender.bytes@[i] == 0,
        request.nonce is Some ==> account is None,
        request.nonce is None ==> account == Some(sender),
        nonce is Some ==> with_nonce.nonce == nonce,
        nonce is None ==> with_nonce.nonce == Some(0u64),
        with_nonce.gas_limit == request.gas_limit,
        with_nonce.from == request.from,
{
}

/// A simulated block is executed without the check on the code of senders, and without
/// validation without those on nonces and base fee and with any gas limit.
pub proof fn simulation_follows_validation(cfg: CfgSettings, validation: bool, made: CfgSettings)
    requires
        call_ensures(make_simulated_cfg, (cfg, validation), made),
    ensures
        made.disable_eip3607,
        made.disable_nonce_check == (!validation || cfg.disable_nonce_check),
        made.disable_base_fee == (!validation || cfg.disable_base_fee),
        !validation ==> made.tx_gas_limit_cap == Some(0xffff_ffff_ffff_ffffu64),
        validation ==> made.tx_gas_limit_cap == cfg.tx_gas_limit_cap,
        made.disable_block_gas_limit == cfg.disable_block_gas_limit,
        made.disable_fee_charge == cfg.disable_fee_charge,
        made.memory_limit == cfg.memory_limit,
{
}

/// A simulated block has a base fee of zero without validation, a random value of zero, and
/// before the merge the difficulty of its parent; all else is that of the environment. Its gas
/// limit is refused if and only if one is given that is above that of the block and that for
/// calls.
pub proof fn simulated_block_has_its_parts(
    block: BlockSettings,
    validation: bool,
    merged: bool,
    parent_difficulty: U256,
    made: BlockSettings,
    overrides: Option<BlockOverrides>,
    limit: u64,
    exceeds: bool,
)
    requires
        call_ensures(make_simulated_block, (block, validation, merged, parent_difficulty), made),
        call_ensures(exceeds_gas_limit, (&overrides, block.gas_limit, limit), exceeds),
    ensures
        validation ==> made.basefee == block.basefee,
        !validation ==> made.basefee == 0,
        made.prevrandao is Some,
        forall|i: int| 0 <= i < 32 ==> made.prevrandao->0.bytes@[i] == 0,
        merged ==> made.difficulty == block.difficulty,
        !merged ==> made.difficulty == parent_difficulty,
        made.number == block.number,
        made.gas_limit == block.gas_limit,
        made.timestamp == block.timestamp,
        made.beneficiary == block.beneficiary,
        made.blob == block.blob,
        exceeds <==> overrides is Some && overrides->0.gas_limit is Some && overrides->0.gas_limit->0
            > block.gas_limit && overrides->0.gas_limit->0 > limit,
{
}

/// An index is how many transactions come before a call, and without one all do. Calls start
/// from the block itself if and only if all do and it is not pending; else from its parent,
/// with the transactions replayed that come before them.
pub proof fn calls_start_where_asked(
    pending: bool,
    index: Option<TransactionIndex>,
    hash: B256,
    parent_hash: B256,
    count: usize,
    requested: usize,
    point: StartingPoint,
)
    requires
        call_ensures(transactions_requested, (index, count), requested),
        call_ensures(choose_starting_point, (pending, index, hash, parent_hash, count), point),
    ensures
        index is Some && index->0 is Index ==> requested == index->0->Index_0,
        index is None || index->0 is All ==> requested == count,
        !pending && requested == count ==> point.at == hash && point.replay is None,
        pending || requested != count ==> point.at == parent_hash && point.replay is Some,
        (pending || requested != count) && requested <= count ==> point.replay == Some(requested),
        (pending || requested != count) && requested > count ==> point.replay == Some(count),
{
}

/// The transactions before one are those up to the first with its hash, or all where none has
/// it.
pub proof fn transactions_before_do_not_have_hash(hashes: &[B256], target: B256, count: usize)
    requires
        call_ensures(transactions_before, (hashes, &target), count),
    ensures
        count <= hashes@.len(),
        forall|i: int| 0 <= i < count ==> (#[trigger] hashes@[i]).bytes@ != target.bytes@,
        count < hashes@.len() ==> hashes@[count as int].bytes@ == target.bytes@,
{
    let values = crate::replay::hash_values(hashes@);
    crate::replay::count_before_finds_target(values, target@);
    assert forall|i: int| 0 <= i < count implies (#[trigger] hashes@[i]).bytes@ != target.bytes@ by {
        assert(values[i] != target@);
    }
}

/// The response to a call has its output, or the text of why it failed, and not both.
pub proof fn response_is_that_of_call(outcome: Result<Vec<u8>, String>, response: EthCallResponse)
    requires
        call_ensures(make_response, (outcome,), response),
    ensures
        outcome is Ok ==> response.value is Some && response.value->0@ == outcome->Ok_0@ && response.error is None,
        outcome is Err ==> response.error is Some && response.error->0@ == outcome->Err_0@ && response.value is None,
{
}

/// What is said of an outcome is whether it is a success, its output, its logs, and why it
/// failed.
pub proof fn summary_is_that_of_outcome(outcome: Outcome, summary: (bool, Vec<u8>, Vec<CallSequenceLog>, String))
    requires
        call_ensures(summarize, (outcome,), summary),
    ensures
        summary.0 <==> outcome is Success,
        outcome is Success ==> summary.1@ == outcome->Success_output@ && log_values(summary.2@) == log_values(
            outcome->logs@,
        ) && summary.3@.len() == 0,
        outcome is Revert ==> summary.1@ == outcome->Revert_output@ && summary.2@.len() == 0 && summary.3@
            == "execution reverted"@,
        outcome is Halt ==> summary.1@.len() == 0 && summary.2@.len() == 0 && summary.3@ == "halt: "@
            + outcome->reason@,
{
    assert(log_values(summary.2@).len() == summary.2@.len());
}

/// The result of a call has its gas, its output, its logs and its end, and what the balance of
/// its sender is after it above what it was before, in decimal.
pub proof fn result_is_that_of_call(execution: Execution, before: U256, after: U256, result: CallSequenceResult)
    requires
        call_ensures(build_call_result, (execution, before, after), result),
    ensures
        result.used_gas == execution.used_gas,
        result.ok <==> execution.outcome is Success,
        execution.outcome is Success ==> result.result@ == execution.outcome->Success_output@ && log_values(
            result.logs@,
        ) == log_values(execution.outcome->logs@) && result.revert_reason@.len() == 0,
        execution.outcome is Revert ==> result.result@ == execution.outcome->Revert_output@ && result.logs@.len() == 0
            && result.revert_reason@ == "execution reverted"@,
        execution.outcome is Halt ==> result.result@.len() == 0 && result.logs@.len() == 0 && result.revert_reason@
            == "halt: "@ + execution.outcome->reason@,
        after@ >= before@ ==> result.from_balance_change@ == digits((after@ - before@) as nat, 10),
        after@ < before@ ==> result.from_balance_change@ == seq!['-'] + digits((before@ - after@) as nat, 10),
{
    assert(result@.summary == crate::outcome::summary_of(execution.outcome));
    assert(log_values(result.logs@).len() == result.logs@.len());
}

/// The result of a tracked call has its gas, its output, its logs and its end, what was noted
/// of native balances, and the token changes that the logs of a success report.
pub proof fn tracked_result_is_that_of_call(
    execution: Execution,
    native: Table<Address, CallSequenceNativeChange>,
    result: CallSequenceWithBalanceTrackingResult,
)
    requires
        call_ensures(build_tracked_result, (execution, native), result),
    ensures
        result.used_gas == execution.used_gas,
        result.ok <==> execution.outcome is Success,
        result.native_changes.deep_view() == native.deep_view(),
        execution.outcome is Success ==> {
            let moves = movements(event_signatures(), log_values(execution.outcome->logs@));
            &&& result.result@ == execution.outcome->Success_output@
            &&& log_values(result.logs@) == log_values(execution.outcome->logs@)
            &&& result.revert_reason@.len() == 0
            &&& result.erc20_changes.deep_view() == erc20_report(moves)
            &&& result.erc721_changes.deep_view() == erc721_report(moves)
            &&& reports_erc1155(result.erc1155_changes.deep_view(), moves)
        },
        execution.outcome is Revert ==> result.result@ == execution.outcome->Revert_output@ && result.logs@.len() == 0
            && result.revert_reason@ == "execution reverted"@ && crate::laws::sequencing::reports_nothing(result@),
        execution.outcome is Halt ==> result.result@.len() == 0 && result.logs@.len() == 0 && result.revert_reason@
            == "halt: "@ + execution.outcome->reason@ && crate::laws::sequencing::reports_nothing(result@),
{
    assert(result@.summary == crate::outcome::summary_of(execution.outcome));
    assert(log_values(result.logs@).len() == result.logs@.len());
    match execution.outcome {
        Outcome::Success { output, logs } => {},
        Outcome::Revert { output } => {
            crate::laws::sequencing::tracked_result_is_complete(
                result@,
                execution.used_gas,
                output,
                arbitrary(),
                arbitrary(),
                native.deep_view(),
            );
        },
        Outcome::Halt { reason } => {
            crate::laws::sequencing::tracked_result_is_complete(
                result@,
                execution.used_gas,
                arbitrary(),
                arbitrary(),
                reason,
                native.deep_view(),
            );
        },
    }
}

/// The token changes of logs are those that they report, told by the topics at hand, or by the
/// hashes of the signatures of the five events.
pub proof fn token_changes_are_those_of_logs(
    events: EventTopics,
    logs: &[CallSequenceLog],
    given: (Erc20Changes, Erc721Changes, Erc1155Changes),
    extracted: (Erc20Changes, Erc721Changes, Erc1155Changes),
)
    requires
        call_ensures(token_changes, (&events, logs), given),
        call_ensures(extract_token_changes, (logs,), extracted),
    ensures
        ({
            let moves = movements(events@, log_values(logs@));
            &&& given.0.deep_view() == erc20_report(moves)
            &&& given.1.deep_view() == erc721_report(moves)
            &&& reports_erc1155(given.2.deep_view(), moves)
        }),
        ({
            let moves = movements(event_signatures(), log_values(logs@));
            &&& extracted.0.deep_view() == erc20_report(moves)
            &&& extracted.1.deep_view() == erc721_report(moves)
            &&& reports_erc1155(extracted.2.deep_view(), moves)
        }),
{
}

/// Texts of words and amounts are their digits, with `0x` before hexadecimal ones and a `-`
/// before those that are below zero. The text of a change is that of after less before.
pub proof fn texts_are_those_of_numbers(
    word: U256,
    negative: bool,
    hex: String,
    decimal: String,
    signed_hex: String,
    signed_decimal: String,
    after: U256,
    delta: String,
)
    requires
        call_ensures(u256_to_hex, (word,), hex),
        call_ensures(u256_to_decimal, (word,), decimal),
        call_ensures(signed_u256_to_hex, (negative, word), signed_hex),
        call_ensures(signed_u256_to_decimal, (negative, word), signed_decimal),
        call_ensures(signed_balance_delta, (word, after), delta),
    ensures
        hex@ == seq!['0', 'x'] + digits(word@, 16),
        decimal@ == digits(word@, 10),
        !negative || word@ == 0 ==> signed_hex@ == hex@ && signed_decimal@ == decimal@,
        negative && word@ > 0 ==> signed_hex@ == seq!['-'] + hex@ && signed_decimal@ == seq!['-'] + decimal@,
        after@ >= word@ ==> delta@ == digits((after@ - word@) as nat, 10),
        after@ < word@ ==> delta@ == seq!['-'] + digits((word@ - after@) as nat, 10),
{
}

/// An amount is written with its sign, and is nothing if and only if its magnitude is zero. A
/// balance that is not there is zero.
pub proof fn amounts_are_written_with_their_sign(
    amount: SignedAmount,
    hex: String,
    decimal: String,
    zero: bool,
    balance: Option<U256>,
    word: U256,
)
    requires
        call_ensures(SignedAmount::as_string, (amount,), hex),
        call_ensures(SignedAmount::as_decimal_string, (amount,), decimal),
        call_ensures(SignedAmount::is_zero, (amount,), zero),
        call_ensures(balance_of, (balance,), word),
    ensures
        !amount.negative ==> hex@ == seq!['0', 'x'] + digits(amount.magnitude@, 16) && decimal@ == digits(
            amount.magnitude@,
            10,
        ),
        amount.negative && !zero ==> hex@ == seq!['-'] + (seq!['0', 'x'] + digits(amount.magnitude@, 16)) && decimal@
            == seq!['-'] + digits(amount.magnitude@, 10),
        zero <==> amount.magnitude@ == 0,
        balance is Some ==> word@ == balance->0@,
        balance is None ==> word@ == 0,
{
}

/// The first topics are the hashes of the signatures, and wrapped ether is at its address.
pub proof fn events_and_contract_are_known(topics: EventTopics, weth: Address)
    requires
        call_ensures(EventTopics::hashed, (), topics),
        call_ensures(base_weth_address, (), weth),
    ensures
        topics@ == event_signatures(),
        weth.bytes@[0] == 0x42,
        weth.bytes@[19] == 0x06,
        forall|i: int| 0 < i < 19 ==> #[trigger] weth.bytes@[i] == 0,
{
    crate::laws::decoding::wrapped_ether_has_its_address();
    assert forall|i: int| 0 < i < 19 implies #[trigger] weth.bytes@[i] == 0 by {
        assert(weth.bytes@[i] == crate::logs::base_weth()[i]);
    }
}

} // verus!
