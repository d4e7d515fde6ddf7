//! `eth_createAccessList`: which accounts and storage slots a call reads and writes.
//!
//! The node does the work, one step at a time: [`AccessListRequest::action`] says which
//! step is next, and [`AccessListRequest::advance`] takes what came of it.

use crate::errors::CallError;
use crate::outcome::balance_or_zero;
use crate::prepare::{
    allowed_tx, apply_allowance, needs_allowance, nonce_account, nonce_source, sender_of, set_nonce, with_nonce,
};
use crate::primitives::{Address, B256};
use crate::settings::{CfgSettings, RequestSettings, TxSettings};
use crate::word::U256;
use vstd::prelude::*;

verus! {

/// An account and the storage slots of it that a call reads or writes.
#[derive(Debug, PartialEq, Eq)]
pub struct AccessListItem {
    /// The account.
    pub address: Address,
    /// The storage slots.
    pub storage_keys: Vec<B256>,
}

/// The answer to `eth_createAccessList`.
#[derive(Debug, PartialEq, Eq)]
pub struct AccessListResult {
    /// The accounts and storage slots.
    pub access_list: Vec<AccessListItem>,
    /// The gas that the call uses.
    pub gas_used: U256,
    /// Why the call failed, if it did.
    pub error: Option<String>,
}

/// The settings for creating an access list: none of the checks on the sender, the base
/// fee, the fees and the gas limits.
pub open spec fn access_list_cfg(cfg: CfgSettings) -> CfgSettings {
    CfgSettings {
        disable_block_gas_limit: true,
        disable_base_fee: true,
        disable_eip3607: true,
        disable_fee_charge: true,
        tx_gas_limit_cap: Some(u64::MAX),
        ..cfg
    }
}

/// The settings for creating an access list.
pub fn make_access_list_cfg(cfg: CfgSettings) -> (next: CfgSettings)
    ensures
        next == access_list_cfg(cfg),
{
    CfgSettings {
        disable_block_gas_limit: true,
        disable_base_fee: true,
        disable_eip3607: true,
        disable_fee_charge: true,
        tx_gas_limit_cap: Some(u64::MAX),
        ..cfg
    }
}

/// What the node has to do next.
#[derive(Debug, Clone, Copy, PartialEq, Eq)]
pub enum AccessListAction<'a> {
    /// Put the state that the request gives into the database.
    OverrideState,
    /// Read the nonce of an account.
    ReadNonce(Address),
    /// Build the transaction of the request, with the settings.
    BuildTx { cfg: CfgSettings, request: RequestSettings },
    /// Read the balance of an account.
    ReadBalance(Address),
    /// Execute the transaction with the settings, and note what it reads and writes, on
    /// top of the access list of the request.
    Inspect { cfg: CfgSettings, tx: TxSettings },
    /// Execute the transaction again with the access list that was noted.
    Execute { cfg: CfgSettings, tx: TxSettings, access_list: &'a Vec<AccessListItem> },
    /// Nothing: the request is answered.
    Finish,
}

/// What an execution came to.
#[derive(Debug)]
pub struct GasReport {
    /// The gas that the transaction used.
    pub gas_used: u64,
    /// Why the transaction failed, if it did.
    pub error: Option<String>,
}

/// What came of an action.
#[derive(Debug)]
pub enum AccessListEvent<E> {
    /// The state was put into the database.
    StateOverridden(Result<(), E>),
    /// The nonce of the account, if there is such an account.
    Nonce(Result<Option<u64>, E>),
    /// The transaction was built.
    Built(Result<TxSettings, E>),
    /// The balance of the account, if there is such an account.
    Balance(Result<Option<U256>, E>),
    /// The transaction was executed, and its accesses noted.
    Inspected(Result<(Vec<AccessListItem>, GasReport), E>),
    /// The transaction was executed again.
    Executed(Result<GasReport, E>),
}

/// How far a request is.
#[derive(Debug)]
pub enum AccessListPhase<E> {
    /// The state is to be overridden.
    OverrideState,
    /// The nonce of the sender is wanted.
    ReadNonce,
    /// The transaction is to be built.
    Build,
    /// The balance of the sender is wanted.
    ReadBalance(TxSettings),
    /// The accesses of the transaction are to be noted.
    Inspect(TxSettings),
    /// The transaction is to be executed again.
    Execute { tx: TxSettings, access_list: Vec<AccessListItem> },
    /// The request is answered.
    Finished(Result<AccessListResult, CallError<E>>),
}

/// A request for an access list on its way.
#[derive(Debug)]
pub struct AccessListRequest<E> {
    /// Whether the request has a gas limit of its own.
    pub request_has_gas_limit: bool,
    /// The settings of the EVM.
    pub cfg: CfgSettings,
    /// The gas limit of the block.
    pub block_gas_limit: u64,
    /// The request.
    pub request: RequestSettings,
    /// How far the request is.
    pub phase: AccessListPhase<E>,
}

/// The answer with an access list and what an execution came to.
pub open spec fn answer_of(access_list: Vec<AccessListItem>, report: GasReport) -> AccessListResult {
    AccessListResult { access_list, gas_used: U256::of_u64(report.gas_used), error: report.error }
}

/// The answer with an access list and what an execution came to.
pub fn make_answer(access_list: Vec<AccessListItem>, report: GasReport) -> (result: AccessListResult)
    ensures
        result == answer_of(access_list, report),
{
    AccessListResult { access_list, gas_used: U256::from_u64(report.gas_used), error: report.error }
}

impl<E> AccessListRequest<E> {
    /// The phase that a request starts in once the state is as it asks.
    pub open spec fn first_phase(request: RequestSettings) -> AccessListPhase<E> {
        if nonce_source(request) is Some {
            AccessListPhase::ReadNonce
        } else {
            AccessListPhase::Build
        }
    }

    /// A request for an access list, in a block with the gas limit.
    pub open spec fn started(
        cfg: CfgSettings,
        block_gas_limit: u64,
        request: RequestSettings,
        has_state_override: bool,
    ) -> AccessListRequest<E> {
        AccessListRequest {
            request_has_gas_limit: request.gas_limit is Some,
            cfg,
            block_gas_limit,
            request,
            phase: if has_state_override {
                AccessListPhase::OverrideState
            } else {
                Self::first_phase(request)
            },
        }
    }

    /// The same request in another phase.
    pub open spec fn at(self, phase: AccessListPhase<E>) -> AccessListRequest<E> {
        AccessListRequest { phase, ..self }
    }

    /// The same request, failed.
    pub open spec fn failed(self, error: CallError<E>) -> AccessListRequest<E> {
        self.at(AccessListPhase::Finished(Err(error)))
    }

    /// The request once the transaction is built.
    pub open spec fn built(self, tx: TxSettings) -> AccessListRequest<E> {
        AccessListRequest {
            cfg: access_list_cfg(self.cfg),
            phase: if needs_allowance(self.request_has_gas_limit, tx.gas_price) {
                AccessListPhase::ReadBalance(tx)
            } else {
                AccessListPhase::Inspect(tx)
            },
            ..self
        }
    }

    /// Whether a request follows from this one and an event. An event that does not
    /// answer the action that is due changes nothing.
    pub open spec fn leads_to(self, event: AccessListEvent<E>, next: AccessListRequest<E>) -> bool {
        match (self.phase, event) {
            (AccessListPhase::OverrideState, AccessListEvent::StateOverridden(done)) => match done {
                Ok(_) => next == self.at(Self::first_phase(self.request)),
                Err(error) => next == self.failed(CallError::Node(error)),
            },
            (AccessListPhase::ReadNonce, AccessListEvent::Nonce(found)) => match found {
                Ok(nonce) => next == (AccessListRequest {
                    request: with_nonce(self.request, nonce),
                    phase: AccessListPhase::Build,
                    ..self
                }),
                Err(error) => next == self.failed(CallError::Node(error)),
            },
            (AccessListPhase::Build, AccessListEvent::Built(made)) => match made {
                Ok(tx) => next == self.built(tx),
                Err(error) => next == self.failed(CallError::Node(error)),
            },
            (AccessListPhase::ReadBalance(tx), AccessListEvent::Balance(found)) => match found {
                Ok(balance) => if tx.value@ <= balance_or_zero(balance) {
                    next == self.at(AccessListPhase::Inspect(allowed_tx(tx, balance, self.block_gas_limit)))
                } else {
                    &&& next == self.at(next.phase)
                    &&& next.phase matches AccessListPhase::Finished(Err(CallError::InsufficientFunds(error)))
                    &&& error.cost@ == tx.value@
                    &&& error.balance@ == balance_or_zero(balance)
                },
                Err(error) => next == self.failed(CallError::Node(error)),
            },
            (AccessListPhase::Inspect(tx), AccessListEvent::Inspected(done)) => match done {
                Ok((access_list, report)) => next == self.at(
                    if report.error is Some {
                        AccessListPhase::Finished(Ok(answer_of(access_list, report)))
                    } else {
                        AccessListPhase::Execute { tx, access_list }
                    },
                ),
                Err(error) => next == self.failed(CallError::Node(error)),
            },
            (AccessListPhase::Execute { access_list, .. }, AccessListEvent::Executed(done)) => match done {
                Ok(report) => next == self.at(AccessListPhase::Finished(Ok(answer_of(access_list, report)))),
                Err(error) => next == self.failed(CallError::Node(error)),
            },
            _ => next == self,
        }
    }

    /// The action that is due.
    pub open spec fn due(&self) -> AccessListAction<'_> {
        match &self.phase {
            AccessListPhase::OverrideState => AccessListAction::OverrideState,
            AccessListPhase::ReadNonce => AccessListAction::ReadNonce(sender_of(self.request)),
            AccessListPhase::Build => AccessListAction::BuildTx { cfg: self.cfg, request: self.request },
            AccessListPhase::ReadBalance(tx) => AccessListAction::ReadBalance(tx.caller),
            AccessListPhase::Inspect(tx) => AccessListAction::Inspect { cfg: self.cfg, tx: *tx },
            AccessListPhase::Execute { tx, access_list } => AccessListAction::Execute {
                cfg: self.cfg,
                tx: *tx,
                access_list,
            },
            AccessListPhase::Finished(_) => AccessListAction::Finish,
        }
    }

    /// The phase that a request starts in once the state is as it asks.
    fn begin(request: &RequestSettings) -> (phase: AccessListPhase<E>)
        ensures
            phase == Self::first_phase(*request),
    {
        match nonce_account(request) {
            Some(_) => AccessListPhase::ReadNonce,
            None => AccessListPhase::Build,
        }
    }

    /// A request for an access list, in a block with the gas limit.
    pub fn create_access_list_with(
        cfg: CfgSettings,
        block_gas_limit: u64,
        request: RequestSettings,
        has_state_override: bool,
    ) -> (made: AccessListRequest<E>)
        ensures
            made == AccessListRequest::<E>::started(cfg, block_gas_limit, request, has_state_override),
    {
        AccessListRequest {
            request_has_gas_limit: request.gas_limit.is_some(),
            cfg,
            block_gas_limit,
            request,
            phase: if has_state_override {
                AccessListPhase::OverrideState
            } else {
                Self::begin(&request)
            },
        }
    }

    /// The action that is due.
    pub fn action(&self) -> (action: AccessListAction<'_>)
        ensures
            action == self.due(),
    {
        match &self.phase {
            AccessListPhase::OverrideState => AccessListAction::OverrideState,
            AccessListPhase::ReadNonce => AccessListAction::ReadNonce(
                crate::prepare::request_sender(&self.request),
            ),
            AccessListPhase::Build => AccessListAction::BuildTx { cfg: self.cfg, request: self.request },
            AccessListPhase::ReadBalance(tx) => AccessListAction::ReadBalance(tx.caller),
            AccessListPhase::Inspect(tx) => AccessListAction::Inspect { cfg: self.cfg, tx: *tx },
            AccessListPhase::Execute { tx, access_list } => AccessListAction::Execute {
                cfg: self.cfg,
                tx: *tx,
                access_list,
            },
            AccessListPhase::Finished(_) => AccessListAction::Finish,
        }
    }

    /// Takes what came of the action that was due.
    pub fn advance(self, event: AccessListEvent<E>) -> (next: AccessListRequest<E>)
        ensures
            self.leads_to(event, next),
    {
        let AccessListRequest { request_has_gas_limit, cfg, block_gas_limit, request, phase } = self;
        let mut request = request;
        let mut cfg = cfg;
        let phase = match (phase, event) {
            (AccessListPhase::OverrideState, AccessListEvent::StateOverridden(done)) => match done {
                Ok(_) => Self::begin(&request),
                Err(error) => AccessListPhase::Finished(Err(CallError::Node(error))),
            },
            (AccessListPhase::ReadNonce, AccessListEvent::Nonce(found)) => match found {
                Ok(nonce) => {
                    request = set_nonce(request, nonce);
                    AccessListPhase::Build
                },
                Err(error) => AccessListPhase::Finished(Err(CallError::Node(error))),
            },
            (AccessListPhase::Build, AccessListEvent::Built(made)) => match made {
                Ok(tx) => {
                    cfg = make_access_list_cfg(cfg);
                    if !request_has_gas_limit && tx.gas_price > 0 {
                        AccessListPhase::ReadBalance(tx)
                    } else {
                        AccessListPhase::Inspect(tx)
                    }
                },
                Err(error) => AccessListPhase::Finished(Err(CallError::Node(error))),
            },
            (AccessListPhase::ReadBalance(tx), AccessListEvent::Balance(found)) => match found {
                Ok(balance) => match apply_allowance(tx, balance, block_gas_limit) {
                    Ok(tx) => AccessListPhase::Inspect(tx),
                    Err(error) => AccessListPhase::Finished(Err(CallError::InsufficientFunds(error))),
                },
                Err(error) => AccessListPhase::Finished(Err(CallError::Node(error))),
            },
            (AccessListPhase::Inspect(tx), AccessListEvent::Inspected(done)) => match done {
                Ok((access_list, report)) => {
                    if report.error.is_some() {
                        AccessListPhase::Finished(Ok(make_answer(access_list, report)))
                    } else {
                        AccessListPhase::Execute { tx, access_list }
                    }
                },
                Err(error) => AccessListPhase::Finished(Err(CallError::Node(error))),
            },
            (AccessListPhase::Execute { tx: _, access_list }, AccessListEvent::Executed(done)) => match done {
                Ok(report) => AccessListPhase::Finished(Ok(make_answer(access_list, report))),
                Err(error) => AccessListPhase::Finished(Err(CallError::Node(error))),
            },
            (phase, _) => phase,
        };
        AccessListRequest { request_has_gas_limit, cfg, block_gas_limit, request, phase }
    }

    /// The answer to the request, once there is one.
    pub fn answer(self) -> (answer: Option<Result<AccessListResult, CallError<E>>>)
        ensures
            match answer {
                Some(result) => self.phase == AccessListPhase::<E>::Finished(result),
                None => !(self.phase is Finished),
            },
    {
        match self.phase {
            AccessListPhase::Finished(result) => Some(result),
            _ => None,
        }
    }
}

/// A transaction that fails while its accesses are noted is not executed again: the
/// answer has its access list, its gas and its error.
pub proof fn failed_call_is_not_repeated<E>(
    before: AccessListRequest<E>,
    access_list: Vec<AccessListItem>,
    report: GasReport,
    after: AccessListRequest<E>,
)
    requires
        before.phase is Inspect,
        report.error is Some,
        before.leads_to(AccessListEvent::Inspected(Ok((access_list, report))), after),
    ensures
        after.phase == AccessListPhase::<E>::Finished(Ok(answer_of(access_list, report))),
{
}

/// A transaction that goes through while its accesses are noted is executed again with
/// them; the gas of the answer is that of the second execution.
pub proof fn gas_is_that_of_second_execution<E>(
    before: AccessListRequest<E>,
    access_list: Vec<AccessListItem>,
    first: GasReport,
    between: AccessListRequest<E>,
    second: GasReport,
    after: AccessListRequest<E>,
)
    requires
        before.phase is Inspect,
        first.error is None,
        before.leads_to(AccessListEvent::Inspected(Ok((access_list, first))), between),
        between.leads_to(AccessListEvent::Executed(Ok(second)), after),
    ensures
        between.due() == (AccessListAction::Execute {
            cfg: before.cfg,
            tx: before.phase->Inspect_0,
            access_list: &access_list,
        }),
        after.phase == AccessListPhase::<E>::Finished(Ok(answer_of(access_list, second))),
{
}

/// A request with a nonce of its own keeps it.
pub proof fn own_nonce_is_kept<E>(cfg: CfgSettings, block_gas_limit: u64, request: RequestSettings)
    requires
        request.nonce is Some,
    ensures
        AccessListRequest::<E>::started(cfg, block_gas_limit, request, false).due() == (AccessListAction::BuildTx {
            cfg,
            request,
        }),
{
}

} // verus!
