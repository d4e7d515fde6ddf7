//! What became of a call.

use crate::logs::{log_values, CallSequenceLog, EventLog};
use crate::text::{signed_balance_delta, signed_decimal_text};
use crate::word::U256;
use vstd::prelude::*;
use vstd::string::*;

verus! {

/// How the execution of a transaction ended.
#[derive(Debug, Clone, PartialEq, Eq)]
pub enum Outcome {
    /// It went through.
    Success { output: Vec<u8>, logs: Vec<CallSequenceLog> },
    /// It was undone by the contract.
    Revert { output: Vec<u8> },
    /// The EVM stopped it. The reason is as the EVM words it.
    Halt { reason: String },
}

/// The execution of a transaction.
#[derive(Debug, Clone, PartialEq, Eq)]
pub struct Execution {
    /// Gas used by the transaction.
    pub used_gas: u64,
    /// How the execution ended.
    pub outcome: Outcome,
}

/// What a result says of an outcome.
pub struct Summary {
    pub ok: bool,
    pub result: Seq<u8>,
    pub logs: Seq<EventLog>,
    pub revert_reason: Seq<char>,
}

/// What a result says of an outcome: output and logs on success, the output of a
/// revert, nothing of a halt; a reason unless it was a success.
pub open spec fn summary_of(outcome: Outcome) -> Summary {
    match outcome {
        Outcome::Success { output, logs } => Summary {
            ok: true,
            result: output@,
            logs: log_values(logs@),
            revert_reason: Seq::empty(),
        },
        Outcome::Revert { output } => Summary {
            ok: false,
            result: output@,
            logs: Seq::empty(),
            revert_reason: "execution reverted"@,
        },
        Outcome::Halt { reason } => Summary {
            ok: false,
            result: Seq::empty(),
            logs: Seq::empty(),
            revert_reason: "halt: "@ + reason@,
        },
    }
}

/// What a result says of an outcome.
pub fn summarize(outcome: Outcome) -> (summary: (bool, Vec<u8>, Vec<CallSequenceLog>, String))
    ensures
        summary.0 == summary_of(outcome).ok,
        summary.1@ == summary_of(outcome).result,
        log_values(summary.2@) == summary_of(outcome).logs,
        summary.3@ == summary_of(outcome).revert_reason,
{
    match outcome {
        Outcome::Success { output, logs } => {
            let reason = String::new();
            assert(reason@ =~= Seq::empty());
            (true, output, logs, reason)
        },
        Outcome::Revert { output } => {
            let logs: Vec<CallSequenceLog> = Vec::new();
            assert(log_values(logs@) =~= Seq::empty());
            (false, output, logs, "execution reverted".to_owned())
        },
        Outcome::Halt { reason } => {
            let logs: Vec<CallSequenceLog> = Vec::new();
            assert(log_values(logs@) =~= Seq::empty());
            let mut text = "halt: ".to_owned();
            text.append(reason.as_str());
            (false, Vec::new(), logs, text)
        },
    }
}

/// Per-transaction result returned by `eth_callSequence`.
#[derive(Debug, Clone, PartialEq, Eq)]
pub struct CallSequenceResult {
    /// Whether the transaction call executed without halt/revert.
    pub ok: bool,
    /// Return bytes (success output or revert bytes when available).
    pub result: Vec<u8>,
    /// Simplified logs from this transaction.
    pub logs: Vec<CallSequenceLog>,
    /// Gas used by this transaction.
    pub used_gas: u64,
    /// Signed sender balance delta encoded as decimal string.
    pub from_balance_change: String,
    /// Decoded or synthesized revert/halt reason; empty on success.
    pub revert_reason: String,
}

/// The result of one call of a sequence.
pub struct CallResult {
    pub summary: Summary,
    pub used_gas: u64,
    pub from_balance_change: Seq<char>,
}

impl View for CallSequenceResult {
    type V = CallResult;

    open spec fn view(&self) -> CallResult {
        CallResult {
            summary: Summary {
                ok: self.ok,
                result: self.result@,
                logs: log_values(self.logs@),
                revert_reason: self.revert_reason@,
            },
            used_gas: self.used_gas,
            from_balance_change: self.from_balance_change@,
        }
    }
}

/// The results of a list.
pub open spec fn result_values(results: Seq<CallSequenceResult>) -> Seq<CallResult> {
    Seq::new(results.len(), |i: int| results[i]@)
}

/// The balance of an account, zero where there is none.
pub open spec fn balance_or_zero(balance: Option<U256>) -> nat {
    match balance {
        Some(word) => word@,
        None => 0,
    }
}

/// The balance of an account, zero where there is none.
pub fn balance_of(balance: Option<U256>) -> (word: U256)
    ensures
        word@ == balance_or_zero(balance),
{
    match balance {
        Some(word) => word,
        None => U256::zero(),
    }
}

/// The result of a call whose sender had one balance before it and another after.
pub open spec fn call_result(execution: Execution, before: nat, after: nat) -> CallResult {
    CallResult {
        summary: summary_of(execution.outcome),
        used_gas: execution.used_gas,
        from_balance_change: signed_decimal_text(after - before),
    }
}

/// The result of a call whose sender had one balance before it and another after.
pub fn build_call_result(execution: Execution, before: U256, after: U256) -> (result: CallSequenceResult)
    ensures
        result@ == call_result(execution, before@, after@),
{
    let used_gas = execution.used_gas;
    let (ok, result, logs, revert_reason) = summarize(execution.outcome);
    CallSequenceResult {
        ok,
        result,
        logs,
        used_gas,
        from_balance_change: signed_balance_delta(before, after),
        revert_reason,
    }
}

} // verus!
