//! The settings and the transaction of a call, made from a request.
//!
//! The node does the work, one step at a time: [`CallPreparation::action`] says which
//! step is next, and [`CallPreparation::advance`] takes what came of it.

use crate::errors::CallError;
use crate::outcome::balance_or_zero;
use crate::primitives::{zero_address, Address};
use crate::settings::{
    affordable_gas, apply_block_overrides, caller_gas_allowance, cap_gas, capped_gas, least, overridden, smaller,
    BlockOverrides, BlockSettings, CfgSettings, InsufficientFunds, RequestSettings, TxSettings,
};
use crate::word::U256;
use vstd::prelude::*;

verus! {

/// The limits that the node sets for calls.
#[derive(Clone, Copy, Debug, PartialEq, Eq)]
pub struct CallLimits {
    /// The gas limit for calls. A limit of zero caps no request.
    pub call_gas_limit: u64,
    /// The memory that the EVM may allocate.
    pub evm_memory_limit: u64,
}

/// The settings of a call.
///
/// Neither the code of the sender, nor the base fee, nor the gas limit of the block is
/// checked; no further fees are charged; a transaction may have any gas limit.
pub open spec fn call_cfg(cfg: CfgSettings, limits: CallLimits) -> CfgSettings {
    CfgSettings {
        disable_block_gas_limit: true,
        disable_eip3607: true,
        disable_base_fee: true,
        tx_gas_limit_cap: Some(u64::MAX),
        disable_fee_charge: true,
        memory_limit: limits.evm_memory_limit,
        ..cfg
    }
}

/// The settings of a call.
pub fn make_call_cfg(cfg: CfgSettings, limits: CallLimits) -> (next: CfgSettings)
    ensures
        next == call_cfg(cfg, limits),
{
    CfgSettings {
        disable_block_gas_limit: true,
        disable_eip3607: true,
        disable_base_fee: true,
        tx_gas_limit_cap: Some(u64::MAX),
        disable_fee_charge: true,
        memory_limit: limits.evm_memory_limit,
        ..cfg
    }
}

/// The block of a call: its gas limit is that for calls, unless it is overridden.
pub open spec fn call_block(
    block: BlockSettings,
    limits: CallLimits,
    overrides: Option<BlockOverrides>,
) -> BlockSettings {
    let limited = BlockSettings { gas_limit: limits.call_gas_limit, ..block };
    match overrides {
        Some(o) => overridden(limited, o),
        None => limited,
    }
}

/// The block of a call.
pub fn make_call_block(block: BlockSettings, limits: CallLimits, overrides: Option<BlockOverrides>) -> (next:
    BlockSettings)
    ensures
        next == call_block(block, limits, overrides),
{
    let limited = BlockSettings { gas_limit: limits.call_gas_limit, ..block };
    match overrides {
        Some(o) => apply_block_overrides(limited, o),
        None => limited,
    }
}

/// The request of a call: a gas limit within that for calls, and no nonce, so that the
/// account of the sender gives the nonce.
pub open spec fn call_request(request: RequestSettings, limits: CallLimits) -> RequestSettings {
    RequestSettings {
        gas_limit: Some(capped_gas(request.gas_limit, limits.call_gas_limit)),
        nonce: None,
        from: request.from,
    }
}

/// The request of a call.
pub fn make_call_request(request: RequestSettings, limits: CallLimits) -> (next: RequestSettings)
    ensures
        next == call_request(request, limits),
{
    RequestSettings {
        gas_limit: Some(cap_gas(request.gas_limit, limits.call_gas_limit)),
        nonce: None,
        from: request.from,
    }
}

/// The account that sends a request: the zero address where the request has none.
pub open spec fn sender_of(request: RequestSettings) -> Address {
    match request.from {
        Some(address) => address,
        None => Address { bytes: [0, 0, 0, 0, 0, 0, 0, 0, 0, 0, 0, 0, 0, 0, 0, 0, 0, 0, 0, 0] },
    }
}

/// The account that sends a request.
pub fn request_sender(request: &RequestSettings) -> (address: Address)
    ensures
        address == sender_of(*request),
        request.from is None ==> address@ == zero_address(),
{
    match request.from {
        Some(address) => address,
        None => {
            let zero = Address { bytes: [0, 0, 0, 0, 0, 0, 0, 0, 0, 0, 0, 0, 0, 0, 0, 0, 0, 0, 0, 0] };
            assert(zero@ =~= zero_address());
            zero
        },
    }
}

/// The account whose nonce a request takes: none if it has a nonce of its own.
pub open spec fn nonce_source(request: RequestSettings) -> Option<Address> {
    if request.nonce is Some {
        None
    } else {
        Some(sender_of(request))
    }
}

/// The account whose nonce a request takes.
pub fn nonce_account(request: &RequestSettings) -> (account: Option<Address>)
    ensures
        account == nonce_source(*request),
{
    match request.nonce {
        Some(_) => None,
        None => Some(request_sender(request)),
    }
}

/// A nonce of an account, zero where there is no such account.
pub open spec fn nonce_or_zero(nonce: Option<u64>) -> u64 {
    match nonce {
        Some(n) => n,
        None => 0,
    }
}

/// The request with a nonce.
pub open spec fn with_nonce(request: RequestSettings, nonce: Option<u64>) -> RequestSettings {
    RequestSettings { nonce: Some(nonce_or_zero(nonce)), ..request }
}

/// The request with the nonce of an account, zero where there is no such account.
pub fn set_nonce(request: RequestSettings, nonce: Option<u64>) -> (next: RequestSettings)
    ensures
        next == with_nonce(request, nonce),
{
    let nonce = match nonce {
        Some(n) => n,
        None => 0,
    };
    RequestSettings { nonce: Some(nonce), ..request }
}

/// A block with a base fee of zero where gas has no price, since the base fee must not
/// be above the gas price.
pub open spec fn priced_block(block: BlockSettings, gas_price: u128) -> BlockSettings {
    if gas_price == 0 {
        BlockSettings { basefee: 0, ..block }
    } else {
        block
    }
}

/// Whether the gas limit of a transaction is to be capped by what the sender can pay
/// for: if gas has a price, and the request has no gas limit of its own.
pub open spec fn needs_allowance(request_has_gas_limit: bool, gas_price: u128) -> bool {
    !request_has_gas_limit && gas_price > 0
}

/// What the balance of the sender makes of a transaction: its gas limit is what the
/// sender can pay for, and no more than that of the block.
pub open spec fn allowed_tx(tx: TxSettings, balance: Option<U256>, block_gas_limit: u64) -> TxSettings {
    TxSettings {
        gas_limit: least(affordable_gas(balance_or_zero(balance), tx.value@, tx.gas_price) as u64, block_gas_limit),
        ..tx
    }
}

/// What the balance of the sender makes of a transaction.
pub fn apply_allowance(tx: TxSettings, balance: Option<U256>, block_gas_limit: u64) -> (allowed: Result<
    TxSettings,
    InsufficientFunds,
>)
    ensures
        match allowed {
            Ok(next) => tx.value@ <= balance_or_zero(balance) && next == allowed_tx(tx, balance, block_gas_limit),
            Err(error) => tx.value@ > balance_or_zero(balance) && error.cost@ == tx.value@ && error.balance@
                == balance_or_zero(balance),
        },
{
    match caller_gas_allowance(balance, tx.value, tx.gas_price) {
        Ok(gas) => Ok(TxSettings { gas_limit: smaller(gas, block_gas_limit), ..tx }),
        Err(error) => Err(error),
    }
}

/// What the node has to do next.
#[derive(Clone, Copy, Debug, PartialEq, Eq)]
pub enum PrepareAction {
    /// Put the block hashes that the request gives into the database.
    OverrideBlockHashes,
    /// Put the state that the request gives into the database.
    OverrideState,
    /// Read the nonce of an account.
    ReadNonce(Address),
    /// Build the transaction of the request, with the settings.
    BuildTx { cfg: CfgSettings, block: BlockSettings, request: RequestSettings },
    /// Read the balance of an account.
    ReadBalance(Address),
    /// Nothing: the call is prepared, or cannot be.
    Finish,
}

/// What came of an action.
#[derive(Debug)]
pub enum PrepareEvent<E> {
    /// The block hashes were put into the database.
    HashesOverridden,
    /// The state was put into the database.
    StateOverridden(Result<(), E>),
    /// The nonce of the account, if there is such an account.
    Nonce(Result<Option<u64>, E>),
    /// The transaction was built.
    Built(Result<TxSettings, E>),
    /// The balance of the account, if there is such an account.
    Balance(Result<Option<U256>, E>),
}

/// A call that is prepared.
#[derive(Clone, Copy, Debug, PartialEq, Eq)]
pub struct PreparedCall {
    /// The settings of the EVM.
    pub cfg: CfgSettings,
    /// The block.
    pub block: BlockSettings,
    /// The transaction.
    pub tx: TxSettings,
}

/// How far a preparation is.
#[derive(Debug)]
pub enum PreparePhase<E> {
    /// The block hashes are to be overridden.
    OverrideHashes,
    /// The state is to be overridden.
    OverrideState,
    /// The nonce of the sender is wanted.
    ReadNonce,
    /// The transaction is to be built.
    Build,
    /// The balance of the sender is wanted.
    ReadBalance(TxSettings),
    /// The call is prepared, or cannot be.
    Finished(Result<PreparedCall, CallError<E>>),
}

/// A call on its way to be executed.
#[derive(Debug)]
pub struct CallPreparation<E> {
    /// Whether the request has a gas limit of its own.
    pub request_has_gas_limit: bool,
    /// Whether the request overrides state.
    pub has_state_override: bool,
    /// The settings of the EVM.
    pub cfg: CfgSettings,
    /// The block.
    pub block: BlockSettings,
    /// The request.
    pub request: RequestSettings,
    /// How far the preparation is.
    pub phase: PreparePhase<E>,
}

impl<E> CallPreparation<E> {
    /// A request that is to be called with the settings and in the block.
    pub open spec fn started(
        cfg: CfgSettings,
        block: BlockSettings,
        request: RequestSettings,
        limits: CallLimits,
        block_overrides: Option<BlockOverrides>,
        has_state_override: bool,
    ) -> CallPreparation<E> {
        CallPreparation {
            request_has_gas_limit: request.gas_limit is Some,
            has_state_override,
            cfg: call_cfg(cfg, limits),
            block: call_block(block, limits, block_overrides),
            request: call_request(request, limits),
            phase: if block_overrides is Some {
                PreparePhase::OverrideHashes
            } else if has_state_override {
                PreparePhase::OverrideState
            } else {
                PreparePhase::ReadNonce
            },
        }
    }

    /// The same preparation in another phase.
    pub open spec fn at(self, phase: PreparePhase<E>) -> CallPreparation<E> {
        CallPreparation { phase, ..self }
    }

    /// The same preparation, failed.
    pub open spec fn failed(self, error: CallError<E>) -> CallPreparation<E> {
        self.at(PreparePhase::Finished(Err(error)))
    }

    /// The same preparation, finished with a transaction.
    pub open spec fn prepared(self, tx: TxSettings) -> CallPreparation<E> {
        self.at(PreparePhase::Finished(Ok(PreparedCall { cfg: self.cfg, block: self.block, tx })))
    }

    /// The preparation once the transaction is built.
    pub open spec fn built(self, tx: TxSettings) -> CallPreparation<E> {
        let priced = CallPreparation { block: priced_block(self.block, tx.gas_price), ..self };
        if needs_allowance(self.request_has_gas_limit, tx.gas_price) {
            priced.at(PreparePhase::ReadBalance(tx))
        } else {
            priced.prepared(tx)
        }
    }

    /// Whether a preparation follows from this one and an event. An event that does not
    /// answer the action that is due changes nothing.
    pub open spec fn leads_to(self, event: PrepareEvent<E>, next: CallPreparation<E>) -> bool {
        match (self.phase, event) {
            (PreparePhase::OverrideHashes, PrepareEvent::HashesOverridden) => next == self.at(
                if self.has_state_override {
                    PreparePhase::OverrideState
                } else {
                    PreparePhase::ReadNonce
                },
            ),
            (PreparePhase::OverrideState, PrepareEvent::StateOverridden(done)) => match done {
                Ok(_) => next == self.at(PreparePhase::ReadNonce),
                Err(error) => next == self.failed(CallError::Node(error)),
            },
            (PreparePhase::ReadNonce, PrepareEvent::Nonce(found)) => match found {
                Ok(nonce) => next == (CallPreparation {
                    request: with_nonce(self.request, nonce),
                    phase: PreparePhase::Build,
                    ..self
                }),
                Err(error) => next == self.failed(CallError::Node(error)),
            },
            (PreparePhase::Build, PrepareEvent::Built(made)) => match made {
                Ok(tx) => next == self.built(tx),
                Err(error) => next == self.failed(CallError::Node(error)),
            },
            (PreparePhase::ReadBalance(tx), PrepareEvent::Balance(found)) => match found {
                Ok(balance) => if tx.value@ <= balance_or_zero(balance) {
                    next == self.prepared(allowed_tx(tx, balance, self.block.gas_limit))
                } else {
                    &&& next == self.at(next.phase)
                    &&& next.phase matches PreparePhase::Finished(Err(CallError::InsufficientFunds(error)))
                    &&& error.cost@ == tx.value@
                    &&& error.balance@ == balance_or_zero(balance)
                },
                Err(error) => next == self.failed(CallError::Node(error)),
            },
            _ => next == self,
        }
    }

    /// The action that is due.
    pub open spec fn due(self) -> PrepareAction {
        match self.phase {
            PreparePhase::OverrideHashes => PrepareAction::OverrideBlockHashes,
            PreparePhase::OverrideState => PrepareAction::OverrideState,
            PreparePhase::ReadNonce => PrepareAction::ReadNonce(sender_of(self.request)),
            PreparePhase::Build => PrepareAction::BuildTx {
                cfg: self.cfg,
                block: self.block,
                request: self.request,
            },
            PreparePhase::ReadBalance(tx) => PrepareAction::ReadBalance(tx.caller),
            PreparePhase::Finished(_) => PrepareAction::Finish,
        }
    }

    /// A request that is to be called with the settings and in the block.
    pub fn prepare_call_env(
        cfg: CfgSettings,
        block: BlockSettings,
        request: RequestSettings,
        limits: CallLimits,
        block_overrides: Option<BlockOverrides>,
        has_state_override: bool,
    ) -> (preparation: CallPreparation<E>)
        ensures
            preparation == CallPreparation::<E>::started(
                cfg,
                block,
                request,
                limits,
                block_overrides,
                has_state_override,
            ),
    {
        CallPreparation {
            request_has_gas_limit: request.gas_limit.is_some(),
            has_state_override,
            cfg: make_call_cfg(cfg, limits),
            block: make_call_block(block, limits, block_overrides),
            request: make_call_request(request, limits),
            phase: if block_overrides.is_some() {
                PreparePhase::OverrideHashes
            } else if has_state_override {
                PreparePhase::OverrideState
            } else {
                PreparePhase::ReadNonce
            },
        }
    }

    /// The action that is due.
    pub fn action(&self) -> (action: PrepareAction)
        ensures
            action == self.due(),
    {
        match &self.phase {
            PreparePhase::OverrideHashes => PrepareAction::OverrideBlockHashes,
            PreparePhase::OverrideState => PrepareAction::OverrideState,
            PreparePhase::ReadNonce => PrepareAction::ReadNonce(request_sender(&self.request)),
            PreparePhase::Build => PrepareAction::BuildTx {
                cfg: self.cfg,
                block: self.block,
                request: self.request,
            },
            PreparePhase::ReadBalance(tx) => PrepareAction::ReadBalance(tx.caller),
            PreparePhase::Finished(_) => PrepareAction::Finish,
        }
    }

    /// Takes what came of the action that was due.
    pub fn advance(self, event: PrepareEvent<E>) -> (next: CallPreparation<E>)
        ensures
            self.leads_to(event, next),
    {
        let mut request = self.request;
        let mut block = self.block;
        let phase = match (self.phase, event) {
            (PreparePhase::OverrideHashes, PrepareEvent::HashesOverridden) => {
                if self.has_state_override {
                    PreparePhase::OverrideState
                } else {
                    PreparePhase::ReadNonce
                }
            },
            (PreparePhase::OverrideState, PrepareEvent::StateOverridden(done)) => match done {
                Ok(_) => PreparePhase::ReadNonce,
                Err(error) => PreparePhase::Finished(Err(CallError::Node(error))),
            },
            (PreparePhase::ReadNonce, PrepareEvent::Nonce(found)) => match found {
                Ok(nonce) => {
                    request = set_nonce(request, nonce);
                    PreparePhase::Build
                },
                Err(error) => PreparePhase::Finished(Err(CallError::Node(error))),
            },
            (PreparePhase::Build, PrepareEvent::Built(made)) => match made {
                Ok(tx) => {
                    if tx.gas_price == 0 {
                        block.basefee = 0;
                    }
                    if !self.request_has_gas_limit && tx.gas_price > 0 {
                        PreparePhase::ReadBalance(tx)
                    } else {
                        PreparePhase::Finished(Ok(PreparedCall { cfg: self.cfg, block, tx }))
                    }
                },
                Err(error) => PreparePhase::Finished(Err(CallError::Node(error))),
            },
            (PreparePhase::ReadBalance(tx), PrepareEvent::Balance(found)) => match found {
                Ok(balance) => match apply_allowance(tx, balance, self.block.gas_limit) {
                    Ok(tx) => PreparePhase::Finished(Ok(PreparedCall { cfg: self.cfg, block, tx })),
                    Err(error) => PreparePhase::Finished(Err(CallError::InsufficientFunds(error))),
                },
                Err(error) => PreparePhase::Finished(Err(CallError::Node(error))),
            },
            (phase, _) => phase,
        };
        CallPreparation {
            request_has_gas_limit: self.request_has_gas_limit,
            has_state_override: self.has_state_override,
            cfg: self.cfg,
            block,
            request,
            phase,
        }
    }
}

/// The gas limit of a request is never above that for calls, unless that is zero.
pub proof fn gas_is_capped(request: RequestSettings, limits: CallLimits)
    requires
        limits.call_gas_limit != 0,
    ensures
        call_request(request, limits).gas_limit matches Some(gas) && gas <= limits.call_gas_limit,
{
}

/// A request that stays within the limit for calls keeps its gas limit.
pub proof fn gas_within_limit_is_kept(request: RequestSettings, limits: CallLimits)
    requires
        request.gas_limit matches Some(gas) && (gas <= limits.call_gas_limit || limits.call_gas_limit == 0),
    ensures
        call_request(request, limits).gas_limit == request.gas_limit,
{
}

/// The nonce of a request does not matter to a call.
pub proof fn nonce_does_not_matter(request: RequestSettings, nonce: Option<u64>, limits: CallLimits)
    ensures
        call_request(request, limits) == call_request(RequestSettings { nonce, ..request }, limits),
{
}

/// Capping twice is capping once, and so is changing the settings of the EVM.
pub proof fn preparing_twice_is_once(cfg: CfgSettings, request: RequestSettings, limits: CallLimits)
    ensures
        call_request(call_request(request, limits), limits) == call_request(request, limits),
        call_cfg(call_cfg(cfg, limits), limits) == call_cfg(cfg, limits),
{
}

/// A transaction whose gas limit was set by what the sender can pay for is paid for: its
/// value and the price of all its gas are no more than the balance. Nor does it have a
/// larger gas limit than the block.
pub proof fn allowed_tx_is_paid_for(tx: TxSettings, balance: Option<U256>, block_gas_limit: u64)
    requires
        tx.gas_price > 0,
        tx.value@ <= balance_or_zero(balance),
    ensures
        tx.value@ + allowed_tx(tx, balance, block_gas_limit).gas_limit * tx.gas_price <= balance_or_zero(balance),
        allowed_tx(tx, balance, block_gas_limit).gas_limit <= block_gas_limit,
{
    let rest = balance_or_zero(balance) - tx.value@;
    let price = tx.gas_price as int;
    let gas = allowed_tx(tx, balance, block_gas_limit).gas_limit as int;
    vstd::arithmetic::div_mod::lemma_fundamental_div_mod(rest, price);
    vstd::arithmetic::div_mod::lemma_div_pos_is_pos(rest, price);
    vstd::arithmetic::div_mod::lemma_mod_bound(rest, price);
    assert(gas <= rest / price);
    vstd::arithmetic::mul::lemma_mul_inequality(gas, rest / price, price);
    vstd::arithmetic::mul::lemma_mul_is_commutative(rest / price, price);
}

/// Whatever the node reports, the settings of the EVM stay those of the call.
pub proof fn settings_are_kept<E>(before: CallPreparation<E>, event: PrepareEvent<E>, after: CallPreparation<E>)
    requires
        before.leads_to(event, after),
        !(before.phase is Finished),
    ensures
        after.cfg == before.cfg,
        after.block.gas_limit == before.block.gas_limit,
        after.phase matches PreparePhase::Finished(Ok(call)) ==> call.cfg == before.cfg && call.block == after.block,
{
}

/// A gas price of zero goes with a base fee of zero.
pub proof fn free_gas_has_no_base_fee<E>(before: CallPreparation<E>, tx: TxSettings, after: CallPreparation<E>)
    requires
        before.phase is Build,
        tx.gas_price == 0,
        before.leads_to(PrepareEvent::Built(Ok(tx)), after),
    ensures
        after.phase matches PreparePhase::Finished(Ok(call)) && call.block.basefee == 0 && call.tx == tx,
{
}

/// Events lead from one preparation to another, one step after the other.
pub open spec fn follow<E>(steps: Seq<CallPreparation<E>>, events: Seq<PrepareEvent<E>>) -> bool {
    &&& steps.len() == events.len() + 1
    &&& forall|i: int| 0 <= i < events.len() ==> #[trigger] steps[i].leads_to(events[i], steps[i + 1])
}

/// A preparation has the settings and the block of the call.
pub open spec fn is_on_course<E>(step: CallPreparation<E>, cfg: CfgSettings, block: BlockSettings) -> bool {
    match step.phase {
        PreparePhase::ReadBalance(tx) => step.cfg == cfg && step.block == priced_block(block, tx.gas_price),
        PreparePhase::Finished(Ok(call)) => call.cfg == cfg && call.block == priced_block(
            block,
            call.tx.gas_price,
        ),
        PreparePhase::Finished(Err(_)) => true,
        _ => step.cfg == cfg && step.block == block,
    }
}

/// Whatever the node reports, a call that is prepared has the settings of a call, and
/// the block of a call, with a base fee of zero where gas has no price.
pub proof fn prepared_call_has_call_settings<E>(
    cfg: CfgSettings,
    block: BlockSettings,
    request: RequestSettings,
    limits: CallLimits,
    block_overrides: Option<BlockOverrides>,
    has_state_override: bool,
    steps: Seq<CallPreparation<E>>,
    events: Seq<PrepareEvent<E>>,
)
    requires
        follow(steps, events),
        steps[0] == CallPreparation::<E>::started(
            cfg,
            block,
            request,
            limits,
            block_overrides,
            has_state_override,
        ),
    ensures
        is_on_course(steps.last(), call_cfg(cfg, limits), call_block(block, limits, block_overrides)),
    decreases events.len(),
{
    if events.len() > 0 {
        let earlier_steps = steps.drop_last();
        let earlier_events = events.drop_last();
        assert forall|i: int| 0 <= i < earlier_events.len() implies #[trigger] earlier_steps[i].leads_to(
            earlier_events[i],
            earlier_steps[i + 1],
        ) by {
            assert(steps[i].leads_to(events[i], steps[i + 1]));
        }
        prepared_call_has_call_settings(
            cfg,
            block,
            request,
            limits,
            block_overrides,
            has_state_override,
            earlier_steps,
            earlier_events,
        );
        let last = events.len() - 1;
        assert(steps[last].leads_to(events[last], steps[last + 1]));
    }
}

} // verus!
