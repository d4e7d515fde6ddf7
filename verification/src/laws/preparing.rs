//! What holds of the preparation of any call.

use crate::errors::CallError;
use crate::outcome::balance_or_zero;
use crate::prepare::{follow, CallLimits, CallPreparation, PrepareAction, PrepareEvent, PreparePhase, PreparedCall};
use crate::settings::{affordable_gas, BlockOverrides, BlockSettings, CfgSettings, RequestSettings, TxSettings};
use crate::word::U256;
use vstd::prelude::*;

verus! {

/// A request that overrides the block has its hashes put into the database first; one that
/// overrides state alone has its state put there first; one that overrides nothing has the
/// nonce of its sender read first. A request without a sender is one of the zero address.
pub proof fn overrides_come_first<E>(
    cfg: CfgSettings,
    block: BlockSettings,
    request: RequestSettings,
    limits: CallLimits,
    block_overrides: Option<BlockOverrides>,
    has_state_override: bool,
)
    ensures
        ({
            let first = CallPreparation::<E>::started(
                cfg,
                block,
                request,
                limits,
                block_overrides,
                has_state_override,
            ).due();
            if block_overrides is Some {
                first is OverrideBlockHashes
            } else if has_state_override {
                first is OverrideState
            } else {
                &&& first is ReadNonce
                &&& request.from is Some ==> first->ReadNonce_0 == request.from->0
                &&& request.from is None ==> forall|i: int| 0 <= i < 20 ==> first->ReadNonce_0@[i] == 0
            }
        }),
{
}

/// The action that overrides state was due, and was answered with success.
pub open spec fn state_was_overridden<E>(steps: Seq<CallPreparation<E>>, events: Seq<PrepareEvent<E>>) -> bool {
    exists|i: int|
        0 <= i < events.len() && (#[trigger] steps[i]).due() is OverrideState && events[i] is StateOverridden
            && events[i]->StateOverridden_0 is Ok
}

/// The action that overrides block hashes was due, and was answered.
pub open spec fn hashes_were_overridden<E>(steps: Seq<CallPreparation<E>>, events: Seq<PrepareEvent<E>>) -> bool {
    exists|i: int|
        0 <= i < events.len() && (#[trigger] steps[i]).due() is OverrideBlockHashes && events[i] is HashesOverridden
}

/// A preparation is past its overrides: a nonce is read, a transaction is built, a balance
/// is read, or the call is prepared.
pub open spec fn is_past_overrides<E>(step: CallPreparation<E>) -> bool {
    step.due() is ReadNonce || step.due() is BuildTx || step.due() is ReadBalance || (step.phase is Finished
        && step.phase->Finished_0 is Ok)
}

/// Whatever the node reports, no nonce is read, no transaction is built and no call is
/// prepared before the state that the request gives, and the block hashes that it gives,
/// were put into the database. State is overridden for no request that gives none.
pub proof fn overrides_are_applied_before_use<E>(
    cfg: CfgSettings,
    block: BlockSettings,
    request: RequestSettings,
    limits: CallLimits,
    block_overrides: Option<BlockOverrides>,
    has_state_override: bool,
    steps: Seq<CallPreparation<E>>,
    events: Seq<PrepareEvent<E>>,
)
    requires
        follow(steps, events),
        steps[0] == CallPreparation::<E>::started(
            cfg,
            block,
            request,
            limits,
            block_overrides,
            has_state_override,
        ),
    ensures
        steps.last().has_state_override == has_state_override,
        is_past_overrides(steps.last()) && has_state_override ==> state_was_overridden(steps, events),
        (is_past_overrides(steps.last()) || steps.last().due() is OverrideState) && block_overrides is Some
            ==> hashes_were_overridden(steps, events),
        steps.last().due() is OverrideState ==> has_state_override,
        steps.last().due() is OverrideBlockHashes ==> block_overrides is Some,
    decreases events.len(),
{
    if events.len() > 0 {
        let earlier_steps = steps.drop_last();
        let earlier_events = events.drop_last();
        assert forall|i: int| 0 <= i < earlier_events.len() implies #[trigger] earlier_steps[i].leads_to(
            earlier_events[i],
            earlier_steps[i + 1],
        ) by {
            assert(steps[i].leads_to(events[i], steps[i + 1]));
        }
        overrides_are_applied_before_use(
            cfg,
            block,
            request,
            limits,
            block_overrides,
            has_state_override,
            earlier_steps,
            earlier_events,
        );
        let last = events.len() - 1;
        assert(steps[last].leads_to(events[last], steps[last + 1]));
        assert(earlier_steps.last() == steps[last]);
        if state_was_overridden(earlier_steps, earlier_events) {
            let i = choose|i: int|
                0 <= i < earlier_events.len() && (#[trigger] earlier_steps[i]).due() is OverrideState
                    && earlier_events[i] is StateOverridden && earlier_events[i]->StateOverridden_0 is Ok;
            assert(steps[i].due() is OverrideState);
            assert(state_was_overridden(steps, events));
        }
        if hashes_were_overridden(earlier_steps, earlier_events) {
            let i = choose|i: int|
                0 <= i < earlier_events.len() && (#[trigger] earlier_steps[i]).due() is OverrideBlockHashes
                    && earlier_events[i] is HashesOverridden;
            assert(steps[i].due() is OverrideBlockHashes);
            assert(hashes_were_overridden(steps, events));
        }
        if steps[last].due() is OverrideState && events[last] is StateOverridden
            && events[last]->StateOverridden_0 is Ok {
            assert(state_was_overridden(steps, events));
        }
        if steps[last].due() is OverrideBlockHashes && events[last] is HashesOverridden {
            assert(hashes_were_overridden(steps, events));
        }
    }
}

/// A call is made without the checks on the code of the sender, on the base fee and on the
/// gas limit of the block, without further fees, with any gas limit, and with the memory
/// that the node allows. Whether the nonce is checked stays as it was.
pub proof fn call_switches_checks_off<E>(
    cfg: CfgSettings,
    block: BlockSettings,
    request: RequestSettings,
    limits: CallLimits,
    block_overrides: Option<BlockOverrides>,
    has_state_override: bool,
)
    ensures
        ({
            let made = CallPreparation::<E>::started(
                cfg,
                block,
                request,
                limits,
                block_overrides,
                has_state_override,
            ).cfg;
            &&& made.disable_eip3607
            &&& made.disable_base_fee
            &&& made.disable_block_gas_limit
            &&& made.disable_fee_charge
            &&& made.tx_gas_limit_cap == Some(0xffff_ffff_ffff_ffffu64)
            &&& made.memory_limit == limits.evm_memory_limit
            &&& made.disable_nonce_check == cfg.disable_nonce_check
        }),
{
}

/// The gas limit of a request is the smaller of its own and that for calls; a limit of zero
/// for calls limits nothing, and a request without a gas limit has that for calls. Its own
/// nonce is dropped and its sender kept.
pub proof fn request_is_capped<E>(
    cfg: CfgSettings,
    block: BlockSettings,
    request: RequestSettings,
    limits: CallLimits,
    block_overrides: Option<BlockOverrides>,
    has_state_override: bool,
)
    ensures
        ({
            let made = CallPreparation::<E>::started(
                cfg,
                block,
                request,
                limits,
                block_overrides,
                has_state_override,
            );
            let limit = limits.call_gas_limit;
            &&& made.request.gas_limit is Some
            &&& request.gas_limit is None ==> made.request.gas_limit->0 == limit
            &&& request.gas_limit is Some && limit == 0 ==> made.request.gas_limit->0 == request.gas_limit->0
            &&& request.gas_limit is Some && limit != 0 ==> {
                &&& made.request.gas_limit->0 <= limit
                &&& made.request.gas_limit->0 <= request.gas_limit->0
                &&& made.request.gas_limit->0 == limit || made.request.gas_limit->0 == request.gas_limit->0
            }
            &&& made.request.nonce is None
            &&& made.request.from == request.from
            &&& made.request_has_gas_limit == (request.gas_limit is Some)
        }),
{
}

/// The block of a call has the gas limit for calls, unless the request gives one; every
/// other part that the request does not give is that of the block, and every part that it
/// gives is the one that it gives.
pub proof fn block_of_call_has_given_parts<E>(
    cfg: CfgSettings,
    block: BlockSettings,
    request: RequestSettings,
    limits: CallLimits,
    given: BlockOverrides,
    has_state_override: bool,
)
    ensures
        CallPreparation::<E>::started(cfg, block, request, limits, None, has_state_override).block == (BlockSettings {
            gas_limit: limits.call_gas_limit,
            ..block
        }),
        ({
            let made = CallPreparation::<E>::started(
                cfg,
                block,
                request,
                limits,
                Some(given),
                has_state_override,
            ).block;
            &&& given.gas_limit is None ==> made.gas_limit == limits.call_gas_limit
            &&& given.gas_limit is Some ==> made.gas_limit == given.gas_limit->0
            &&& given.number is None ==> made.number == block.number
            &&& given.number is Some ==> made.number == given.number->0
            &&& given.difficulty is None ==> made.difficulty == block.difficulty
            &&& given.difficulty is Some ==> made.difficulty == given.difficulty->0
            &&& given.random is None ==> made.prevrandao == block.prevrandao
            &&& given.random is Some ==> made.prevrandao == given.random
            &&& given.base_fee is None ==> made.basefee == block.basefee
            &&& given.base_fee is Some && given.base_fee->0@ <= u64::MAX ==> made.basefee == given.base_fee->0@
            &&& given.base_fee is Some && given.base_fee->0@ > u64::MAX ==> made.basefee == u64::MAX
            &&& given.time is None ==> made.timestamp == block.timestamp
            &&& given.time is Some ==> made.timestamp@ == given.time->0
            &&& given.coinbase is None ==> made.beneficiary == block.beneficiary
            &&& given.coinbase is Some ==> made.beneficiary == given.coinbase->0
            &&& given.blob_base_fee is None ==> made.blob == block.blob
            &&& given.blob_base_fee is Some ==> {
                &&& made.blob is Some
                &&& block.blob is Some ==> made.blob->0.excess == block.blob->0.excess
                &&& block.blob is None ==> made.blob->0.excess == 0
                &&& given.blob_base_fee->0@ <= u128::MAX ==> made.blob->0.price == given.blob_base_fee->0@
                &&& given.blob_base_fee->0@ > u128::MAX ==> made.blob->0.price == u128::MAX
            }
        }),
{
}

/// The nonce of the account is that of the transaction, and zero where there is no account;
/// the transaction is then built with the settings, the block and the request at hand.
pub proof fn nonce_is_that_of_account<E>(
    before: CallPreparation<E>,
    nonce: Option<u64>,
    after: CallPreparation<E>,
)
    requires
        before.due() is ReadNonce,
        before.leads_to(PrepareEvent::Nonce(Ok(nonce)), after),
    ensures
        after.due() == (PrepareAction::BuildTx { cfg: before.cfg, block: before.block, request: after.request }),
        after.request.nonce is Some,
        nonce is Some ==> after.request.nonce == nonce,
        nonce is None ==> after.request.nonce == Some(0u64),
        after.request.gas_limit == before.request.gas_limit,
        after.request.from == before.request.from,
        after.cfg == before.cfg,
        after.block == before.block,
        after.request_has_gas_limit == before.request_has_gas_limit,
{
}

/// A transaction whose gas has no price is prepared as it was built, in a block with a base
/// fee of zero. One whose gas has a price is prepared in the block at hand as it was built
/// if the request had a gas limit; else the balance of its sender is read first.
pub proof fn built_transaction_is_prepared<E>(
    before: CallPreparation<E>,
    tx: TxSettings,
    after: CallPreparation<E>,
)
    requires
        before.due() is BuildTx,
        before.leads_to(PrepareEvent::Built(Ok(tx)), after),
    ensures
        tx.gas_price == 0 ==> after.phase == PreparePhase::<E>::Finished(
            Ok(PreparedCall { cfg: before.cfg, block: BlockSettings { basefee: 0, ..before.block }, tx }),
        ),
        tx.gas_price > 0 && before.request_has_gas_limit ==> after.phase == PreparePhase::<E>::Finished(
            Ok(PreparedCall { cfg: before.cfg, block: before.block, tx }),
        ),
        tx.gas_price > 0 && !before.request_has_gas_limit ==> after.due() == PrepareAction::ReadBalance(tx.caller)
            && after.phase == PreparePhase::<E>::ReadBalance(tx) && after.block == before.block && after.cfg
            == before.cfg,
{
}

/// A sender who cannot pay for the value is told what it is and what the balance is. One
/// who can gets all the gas that the rest of the balance pays for, as far as the block
/// allows; nothing else of the transaction changes.
pub proof fn gas_is_what_sender_can_pay<E>(
    before: CallPreparation<E>,
    tx: TxSettings,
    balance: Option<U256>,
    after: CallPreparation<E>,
)
    requires
        before.phase == PreparePhase::<E>::ReadBalance(tx),
        tx.gas_price > 0,
        before.leads_to(PrepareEvent::Balance(Ok(balance)), after),
    ensures
        ({
            let funds: nat = if balance is Some {
                balance->0@
            } else {
                0
            };
            if tx.value@ > funds {
                &&& after.phase is Finished && after.phase->Finished_0 is Err
                &&& after.phase->Finished_0->Err_0 is InsufficientFunds
                &&& after.phase->Finished_0->Err_0->InsufficientFunds_0.cost@ == tx.value@
                &&& after.phase->Finished_0->Err_0->InsufficientFunds_0.balance@ == funds
            } else {
                let call = after.phase->Finished_0->Ok_0;
                let price = tx.gas_price as int;
                &&& after.phase is Finished && after.phase->Finished_0 is Ok
                &&& call.cfg == before.cfg
                &&& call.block == before.block
                &&& call.tx.caller == tx.caller
                &&& call.tx.value == tx.value
                &&& call.tx.gas_price == tx.gas_price
                &&& call.tx.gas_limit <= before.block.gas_limit
                &&& tx.value@ + call.tx.gas_limit * price <= funds
                &&& call.tx.gas_limit < before.block.gas_limit ==> tx.value@ + (call.tx.gas_limit + 1) * price > funds
            }
        }),
{
    if tx.value@ <= balance_or_zero(balance) {
        crate::laws::values::allowance_is_all_that_is_paid_for(balance_or_zero(balance), tx.value@, tx.gas_price);
        crate::prepare::allowed_tx_is_paid_for(tx, balance, before.block.gas_limit);
        let gas = affordable_gas(balance_or_zero(balance), tx.value@, tx.gas_price);
        assert(0 <= gas <= u64::MAX);
    }
}

/// A failure of the node at any step is the answer, and nothing comes after an answer.
pub proof fn failures_end_preparation<E>(before: CallPreparation<E>, error: E, after: CallPreparation<E>)
    ensures
        before.due() is OverrideState && before.leads_to(PrepareEvent::StateOverridden(Err(error)), after)
            ==> after.phase == PreparePhase::<E>::Finished(Err(CallError::Node(error))),
        before.due() is ReadNonce && before.leads_to(PrepareEvent::Nonce(Err(error)), after) ==> after.phase
            == PreparePhase::<E>::Finished(Err(CallError::Node(error))),
        before.due() is BuildTx && before.leads_to(PrepareEvent::Built(Err(error)), after) ==> after.phase
            == PreparePhase::<E>::Finished(Err(CallError::Node(error))),
        before.due() is ReadBalance && before.leads_to(PrepareEvent::Balance(Err(error)), after) ==> after.phase
            == PreparePhase::<E>::Finished(Err(CallError::Node(error))),
{
}

/// An answer stays, and an event that is not asked for changes nothing.
pub proof fn only_answers_move_preparation<E>(
    before: CallPreparation<E>,
    event: PrepareEvent<E>,
    after: CallPreparation<E>,
)
    requires
        before.leads_to(event, after),
        !(before.due() is OverrideBlockHashes && event is HashesOverridden),
        !(before.due() is OverrideState && event is StateOverridden),
        !(before.due() is ReadNonce && event is Nonce),
        !(before.due() is BuildTx && event is Built),
        !(before.due() is ReadBalance && event is Balance),
    ensures
        after == before,
{
}

/// The steps before the transaction change neither settings nor block nor request, and go
/// on: from the block hashes to the state, and from the state to the nonce of the sender.
pub proof fn overrides_lead_to_nonce<E>(before: CallPreparation<E>, event: PrepareEvent<E>, after: CallPreparation<E>)
    requires
        before.leads_to(event, after),
        (before.due() is OverrideBlockHashes && event is HashesOverridden) || (before.due() is OverrideState
            && event is StateOverridden && event->StateOverridden_0 is Ok),
    ensures
        after.cfg == before.cfg,
        after.block == before.block,
        after.request == before.request,
        after.request_has_gas_limit == before.request_has_gas_limit,
        before.due() is OverrideBlockHashes && before.has_state_override ==> after.due() is OverrideState,
        before.due() is OverrideBlockHashes && !before.has_state_override ==> after.due() is ReadNonce,
        before.due() is OverrideState ==> after.due() is ReadNonce,
        after.due() is ReadNonce && before.request.from is Some ==> after.due()->ReadNonce_0
            == before.request.from->0,
        after.due() is ReadNonce && before.request.from is None ==> forall|i: int|
            0 <= i < 20 ==> after.due()->ReadNonce_0@[i] == 0,
{
}

/// No step changes the settings, whether the request overrides state or whether it has a gas
/// limit. The request changes when its nonce is read, and the block when the transaction is
/// built; no other step changes these.
pub proof fn steps_keep_the_rest<E>(before: CallPreparation<E>, event: PrepareEvent<E>, after: CallPreparation<E>)
    requires
        before.leads_to(event, after),
    ensures
        after.cfg == before.cfg,
        after.has_state_override == before.has_state_override,
        after.request_has_gas_limit == before.request_has_gas_limit,
        !(before.due() is ReadNonce && event is Nonce) ==> after.request == before.request,
        !(before.due() is BuildTx && event is Built) ==> after.block == before.block,
{
}

/// Nothing is due once a call is prepared or cannot be, and only then.
pub proof fn nothing_is_due_once_prepared<E>(step: CallPreparation<E>)
    ensures
        step.due() is Finish <==> step.phase is Finished,
{
}

} // verus!
