//! What holds of any request for an access list.

use crate::access_list::{
    answer_of, AccessListAction, AccessListEvent, AccessListItem, AccessListPhase, AccessListRequest, GasReport,
};
use crate::errors::CallError;
use crate::outcome::balance_or_zero;
use crate::settings::{affordable_gas, CfgSettings, RequestSettings, TxSettings};
use crate::word::U256;
use vstd::prelude::*;

verus! {

/// A request that overrides state has its state put into the database first. Else one
/// without a nonce has that of its sender read, and one with a nonce is built as it is, with
/// the settings of the block. A request without a sender is one of the zero address.
pub proof fn request_starts_with_its_overrides<E>(
    cfg: CfgSettings,
    block_gas_limit: u64,
    request: RequestSettings,
    has_state_override: bool,
)
    ensures
        ({
            let made = AccessListRequest::<E>::started(cfg, block_gas_limit, request, has_state_override);
            &&& made.cfg == cfg
            &&& made.block_gas_limit == block_gas_limit
            &&& made.request == request
            &&& made.request_has_gas_limit == (request.gas_limit is Some)
            &&& has_state_override ==> made.due() is OverrideState
            &&& !has_state_override && request.nonce is Some ==> made.due() == (AccessListAction::BuildTx {
                cfg,
                request,
            })
            &&& !has_state_override && request.nonce is None ==> reads_nonce_of_sender(made)
        }),
{
}

/// The nonce of the sender is read: of the zero address where the request has no sender.
pub open spec fn reads_nonce_of_sender<E>(made: AccessListRequest<E>) -> bool {
    &&& made.due() is ReadNonce
    &&& made.request.from is Some ==> made.due()->ReadNonce_0 == made.request.from->0
    &&& made.request.from is None ==> forall|i: int| 0 <= i < 20 ==> made.due()->ReadNonce_0.bytes@[i] == 0
}

/// Once state is overridden, a request without a nonce has that of its sender read, and one
/// with a nonce is built as it is.
pub proof fn overridden_state_leads_to_transaction<E>(before: AccessListRequest<E>, after: AccessListRequest<E>)
    requires
        before.due() is OverrideState,
        before.leads_to(AccessListEvent::StateOverridden(Ok(())), after),
    ensures
        after.cfg == before.cfg,
        after.request == before.request,
        after.block_gas_limit == before.block_gas_limit,
        after.request_has_gas_limit == before.request_has_gas_limit,
        before.request.nonce is Some ==> after.due() == (AccessListAction::BuildTx {
            cfg: before.cfg,
            request: before.request,
        }),
        before.request.nonce is None ==> reads_nonce_of_sender(after),
{
}

/// The nonce of the account is that of the transaction, and zero where there is no account.
pub proof fn nonce_is_that_of_account<E>(
    before: AccessListRequest<E>,
    nonce: Option<u64>,
    after: AccessListRequest<E>,
)
    requires
        before.due() is ReadNonce,
        before.leads_to(AccessListEvent::Nonce(Ok(nonce)), after),
    ensures
        nonce is Some ==> after.request.nonce == nonce,
        nonce is None ==> after.request.nonce == Some(0u64),
        after.request.gas_limit == before.request.gas_limit,
        after.request.from == before.request.from,
        after.due() == (AccessListAction::BuildTx { cfg: before.cfg, request: after.request }),
        after.block_gas_limit == before.block_gas_limit,
        after.request_has_gas_limit == before.request_has_gas_limit,
{
}

/// The settings of the EVM without the checks on the code of the sender, on the base fee and
/// on the gas limits, and without further fees; nothing else of them changes.
pub open spec fn has_checks_off(cfg: CfgSettings, made: CfgSettings) -> bool {
    &&& made.disable_eip3607
    &&& made.disable_base_fee
    &&& made.disable_block_gas_limit
    &&& made.disable_fee_charge
    &&& made.tx_gas_limit_cap == Some(0xffff_ffff_ffff_ffffu64)
    &&& made.disable_nonce_check == cfg.disable_nonce_check
    &&& made.memory_limit == cfg.memory_limit
}

/// A transaction is inspected as it was built, without those checks, if its gas has no price
/// or the request had a gas limit; else the balance of its sender is read first.
pub proof fn built_transaction_is_inspected<E>(
    before: AccessListRequest<E>,
    tx: TxSettings,
    after: AccessListRequest<E>,
)
    requires
        before.due() is BuildTx,
        before.leads_to(AccessListEvent::Built(Ok(tx)), after),
    ensures
        has_checks_off(before.cfg, after.cfg),
        after.block_gas_limit == before.block_gas_limit,
        tx.gas_price == 0 || before.request_has_gas_limit ==> after.due() == (AccessListAction::Inspect {
            cfg: after.cfg,
            tx,
        }),
        tx.gas_price > 0 && !before.request_has_gas_limit ==> after.due() == AccessListAction::ReadBalance(tx.caller)
            && after.phase == AccessListPhase::<E>::ReadBalance(tx),
{
}

/// A sender who cannot pay for the value is told what it is and what the balance is. One who
/// can gets all the gas that the rest of the balance pays for, as far as the block allows;
/// nothing else of the transaction changes.
pub proof fn gas_is_what_sender_can_pay<E>(
    before: AccessListRequest<E>,
    tx: TxSettings,
    balance: Option<U256>,
    after: AccessListRequest<E>,
)
    requires
        before.phase == AccessListPhase::<E>::ReadBalance(tx),
        tx.gas_price > 0,
        before.leads_to(AccessListEvent::Balance(Ok(balance)), after),
    ensures
        ({
            let funds: nat = if balance is Some {
                balance->0@
            } else {
                0
            };
            if tx.value@ > funds {
                &&& after.phase is Finished && after.phase->Finished_0 is Err
                &&& after.phase->Finished_0->Err_0 is InsufficientFunds
                &&& after.phase->Finished_0->Err_0->InsufficientFunds_0.cost@ == tx.value@
                &&& after.phase->Finished_0->Err_0->InsufficientFunds_0.balance@ == funds
            } else {
                let call = after.phase->Inspect_0;
                let price = tx.gas_price as int;
                &&& after.phase is Inspect
                &&& after.due() == (AccessListAction::Inspect { cfg: before.cfg, tx: call })
                &&& call.caller == tx.caller
                &&& call.value == tx.value
                &&& call.gas_price == tx.gas_price
                &&& call.gas_limit <= before.block_gas_limit
                &&& tx.value@ + call.gas_limit * price <= funds
                &&& call.gas_limit < before.block_gas_limit ==> tx.value@ + (call.gas_limit + 1) * price > funds
            }
        }),
{
    if tx.value@ <= balance_or_zero(balance) {
        crate::laws::values::allowance_is_all_that_is_paid_for(balance_or_zero(balance), tx.value@, tx.gas_price);
        crate::prepare::allowed_tx_is_paid_for(tx, balance, before.block_gas_limit);
        let gas = affordable_gas(balance_or_zero(balance), tx.value@, tx.gas_price);
        assert(0 <= gas <= u64::MAX);
    }
}

/// An answer has as its gas, as a number, what the execution that it reports used, whether
/// that failed or not, and its error and the access list.
pub proof fn answer_has_gas_of_execution(access_list: Vec<AccessListItem>, report: GasReport)
    ensures
        answer_of(access_list, report).gas_used@ == report.gas_used,
        answer_of(access_list, report).error == report.error,
        answer_of(access_list, report).access_list == access_list,
{
}

/// A transaction that fails while it is inspected is answered with the gas that it used then,
/// its error and the access list that was noted. One that works is executed again, as it is
/// and with the same settings, with that access list.
pub proof fn inspection_is_answered_or_repeated<E>(
    before: AccessListRequest<E>,
    tx: TxSettings,
    access_list: Vec<AccessListItem>,
    report: GasReport,
    after: AccessListRequest<E>,
)
    requires
        before.phase == AccessListPhase::<E>::Inspect(tx),
        before.leads_to(AccessListEvent::Inspected(Ok((access_list, report))), after),
    ensures
        report.error is Some ==> {
            &&& after.phase is Finished && after.phase->Finished_0 is Ok
            &&& after.phase->Finished_0->Ok_0.gas_used@ == report.gas_used
            &&& after.phase->Finished_0->Ok_0.error == report.error
            &&& after.phase->Finished_0->Ok_0.access_list == access_list
        },
        report.error is None ==> {
            &&& after.due() is Execute
            &&& after.due()->Execute_cfg == before.cfg
            &&& after.due()->Execute_tx == tx
            &&& *after.due()->Execute_access_list == access_list
        },
{
}

/// The second execution is answered with the gas that it used, with its error if it failed,
/// and with the access list that it was executed with.
pub proof fn second_execution_is_answered<E>(
    before: AccessListRequest<E>,
    report: GasReport,
    after: AccessListRequest<E>,
)
    requires
        before.due() is Execute,
        before.leads_to(AccessListEvent::Executed(Ok(report)), after),
    ensures
        after.phase is Finished && after.phase->Finished_0 is Ok,
        after.phase->Finished_0->Ok_0.gas_used@ == report.gas_used,
        after.phase->Finished_0->Ok_0.error == report.error,
        after.phase->Finished_0->Ok_0.access_list == *before.due()->Execute_access_list,
{
}

/// A failure of the node at any step is the answer.
pub proof fn failures_end_request<E>(before: AccessListRequest<E>, error: E, after: AccessListRequest<E>)
    ensures
        before.due() is OverrideState && before.leads_to(AccessListEvent::StateOverridden(Err(error)), after)
            ==> after.phase == AccessListPhase::<E>::Finished(Err(CallError::Node(error))),
        before.due() is ReadNonce && before.leads_to(AccessListEvent::Nonce(Err(error)), after) ==> after.phase
            == AccessListPhase::<E>::Finished(Err(CallError::Node(error))),
        before.due() is BuildTx && before.leads_to(AccessListEvent::Built(Err(error)), after) ==> after.phase
            == AccessListPhase::<E>::Finished(Err(CallError::Node(error))),
        before.due() is ReadBalance && before.leads_to(AccessListEvent::Balance(Err(error)), after) ==> after.phase
            == AccessListPhase::<E>::Finished(Err(CallError::Node(error))),
        before.due() is Inspect && before.leads_to(AccessListEvent::Inspected(Err(error)), after) ==> after.phase
            == AccessListPhase::<E>::Finished(Err(CallError::Node(error))),
        before.due() is Execute && before.leads_to(AccessListEvent::Executed(Err(error)), after) ==> after.phase
            == AccessListPhase::<E>::Finished(Err(CallError::Node(error))),
{
}

/// An answer stays, and an event that is not asked for changes nothing.
pub proof fn only_answers_move_request<E>(
    before: AccessListRequest<E>,
    event: AccessListEvent<E>,
    after: AccessListRequest<E>,
)
    requires
        before.leads_to(event, after),
        !(before.due() is OverrideState && event is StateOverridden),
        !(before.due() is ReadNonce && event is Nonce),
        !(before.due() is BuildTx && event is Built),
        !(before.due() is ReadBalance && event is Balance),
        !(before.due() is Inspect && event is Inspected),
        !(before.due() is Execute && event is Executed),
    ensures
        after == before,
{
}

/// No step changes the gas limit of the block or whether the request has one. The request
/// changes when its nonce is read, and the settings when the transaction is built; no other
/// step changes these.
pub proof fn steps_keep_the_rest<E>(
    before: AccessListRequest<E>,
    event: AccessListEvent<E>,
    after: AccessListRequest<E>,
)
    requires
        before.leads_to(event, after),
    ensures
        after.block_gas_limit == before.block_gas_limit,
        after.request_has_gas_limit == before.request_has_gas_limit,
        !(before.due() is ReadNonce && event is Nonce) ==> after.request == before.request,
        !(before.due() is BuildTx && event is Built) ==> after.cfg == before.cfg,
{
}

/// Nothing is due once a request is answered, and only then.
pub proof fn nothing_is_due_once_answered<E>(request: AccessListRequest<E>)
    ensures
        request.due() is Finish <==> request.phase is Finished,
{
}

} // verus!
