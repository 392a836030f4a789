//! The session: the state kept across deployments and calls, and the steps that turn an
//! operation into a sandbox request and the sandbox's report into a recorded, classified
//! result.
//!
//! Each operation runs in three steps. The session prepares a request (with the current
//! actor and budgets); the caller hands it to the sandbox, noting the length of the
//! sandbox's event log before; then the session takes the outcome and the log and records
//! the outcome together with exactly the events the operation emitted.

use vstd::prelude::*;
use crate::errors::SessionError;
use crate::primitives::{AccountId, Address, Balance, DepositLimit, DispatchFailure, Hash32, Salt, Weight};
use crate::record::{
    failed_instantiations, is_nth_success, lemma_deploy_returns_are_successes, Event, ExecOutcome,
    InstantiateOutcome, Record, RecordView,
};
use crate::transcoding::TranscoderRegistry;

verus! {

/// The storage-deposit limit of a new session.
pub const DEFAULT_STORAGE_DEPOSIT_LIMIT: Balance = 1_000_000;

/// A request to instantiate a contract.
#[derive(Debug)]
pub struct DeployRequest {
    pub contract_bytes: Vec<u8>,
    pub endowment: Balance,
    /// The encoded constructor call.
    pub data: Vec<u8>,
    pub salt: Option<Salt>,
    /// The account the request is signed by.
    pub origin: AccountId,
    pub gas_limit: Weight,
    pub storage_deposit_limit: DepositLimit,
}

/// A request to call a contract message.
#[derive(Debug)]
pub struct CallRequest {
    pub address: Address,
    pub endowment: Balance,
    /// The encoded message call.
    pub data: Vec<u8>,
    /// The account the request is signed by.
    pub origin: AccountId,
    pub gas_limit: Weight,
    pub storage_deposit_limit: DepositLimit,
}

/// A request to store contract code without instantiating it.
#[derive(Debug)]
pub struct UploadRequest {
    pub contract_bytes: Vec<u8>,
    /// The account the request is signed by.
    pub origin: AccountId,
    pub storage_deposit_limit: Balance,
}

/// The events of `log` from position `start` on: those emitted since the log had `start`
/// entries.
pub open spec fn events_since(log: Seq<Event>, start: int) -> Seq<Event> {
    log.subrange(start, log.len() as int)
}

/// The state of a contract-testing session.
///
/// `T` is the handle kept for a message transcoder.
pub struct Session<T> {
    actor: AccountId,
    default_actor: AccountId,
    gas_limit: Weight,
    default_gas_limit: Weight,
    storage_deposit_limit: Balance,
    transcoders: TranscoderRegistry<T>,
    record: Record,
}

impl<T> Session<T> {
    /// The registries are well formed and the record's returns match its results.
    pub closed spec fn wf(&self) -> bool {
        &&& self.transcoders.wf()
        &&& self.record@.wf()
    }

    pub closed spec fn actor_spec(&self) -> AccountId {
        self.actor
    }

    pub closed spec fn default_actor_spec(&self) -> AccountId {
        self.default_actor
    }

    pub closed spec fn gas_limit_spec(&self) -> Weight {
        self.gas_limit
    }

    pub closed spec fn default_gas_limit_spec(&self) -> Weight {
        self.default_gas_limit
    }

    pub closed spec fn storage_deposit_limit_spec(&self) -> Balance {
        self.storage_deposit_limit
    }

    pub closed spec fn transcoders_spec(&self) -> Map<Address, T> {
        self.transcoders@
    }

    pub closed spec fn record_spec(&self) -> RecordView {
        self.record@
    }

    /// `self` and `other` agree on everything but the record and the transcoders.
    pub open spec fn same_settings(&self, other: &Session<T>) -> bool {
        &&& self.actor_spec() == other.actor_spec()
        &&& self.default_actor_spec() == other.default_actor_spec()
        &&& self.gas_limit_spec() == other.gas_limit_spec()
        &&& self.default_gas_limit_spec() == other.default_gas_limit_spec()
        &&& self.storage_deposit_limit_spec() == other.storage_deposit_limit_spec()
    }

    /// The record of a well-formed session is well formed: its returns are exactly the
    /// payloads of its successful results, whatever operations led to it.
    pub proof fn lemma_record_wf(&self)
        requires
            self.wf(),
        ensures
            self.record_spec().wf(),
    {
    }

    /// However the session was driven, its `n`-th deploy return is the address of its
    /// `n`-th successful deployment, and its deploy returns are its deploy results less the
    /// deployments that failed.
    pub proof fn lemma_session_deploy_returns(&self, n: int)
        requires
            self.wf(),
            0 <= n < self.record_spec().deploy_returns.len(),
        ensures
            self.record_spec().deploy_returns.len() + failed_instantiations(
                self.record_spec().deploy_results,
            ) == self.record_spec().deploy_results.len(),
            exists|i: int|
                #[trigger] is_nth_success(
                    self.record_spec().deploy_results,
                    i,
                    n,
                    self.record_spec().deploy_returns[n],
                ),
    {
        lemma_deploy_returns_are_successes(self.record_spec(), n);
    }

    /// A new session acting as the sandbox's default account with its default gas limit,
    /// with no transcoder and an empty record.
    pub fn new(default_actor: AccountId, default_gas_limit: Weight) -> (r: Session<T>)
        ensures
            r.wf(),
            r.actor_spec() == default_actor,
            r.default_actor_spec() == default_actor,
            r.gas_limit_spec() == default_gas_limit,
            r.default_gas_limit_spec() == default_gas_limit,
            r.storage_deposit_limit_spec() == DEFAULT_STORAGE_DEPOSIT_LIMIT,
            r.transcoders_spec() == Map::<Address, T>::empty(),
            r.record_spec().deploy_results.len() == 0,
            r.record_spec().deploy_returns.len() == 0,
            r.record_spec().call_results.len() == 0,
            r.record_spec().call_returns.len() == 0,
            r.record_spec().event_batches.len() == 0,
    {
        Session {
            actor: default_actor,
            default_actor,
            gas_limit: default_gas_limit,
            default_gas_limit,
            storage_deposit_limit: DEFAULT_STORAGE_DEPOSIT_LIMIT,
            transcoders: TranscoderRegistry::new(),
            record: Record::new(),
        }
    }

    /// This session acting as `actor`.
    pub fn with_actor(self, actor: AccountId) -> (r: Session<T>)
        requires
            self.wf(),
        ensures
            r.wf(),
            r.actor_spec() == actor,
            r.default_actor_spec() == self.default_actor_spec(),
            r.gas_limit_spec() == self.gas_limit_spec(),
            r.default_gas_limit_spec() == self.default_gas_limit_spec(),
            r.storage_deposit_limit_spec() == self.storage_deposit_limit_spec(),
            r.transcoders_spec() == self.transcoders_spec(),
            r.record_spec() == self.record_spec(),
    {
        let mut this = self;
        this.set_actor(actor);
        this
    }

    /// The account the session acts as.
    pub fn get_actor(&self) -> (r: AccountId)
        ensures
            r == self.actor_spec(),
    {
        self.actor
    }

    /// The origin of the session's requests: always the current actor's.
    pub fn origin(&self) -> (r: AccountId)
        ensures
            r == self.actor_spec(),
    {
        self.actor
    }

    /// Acts as `actor` from now on; returns the account acted as before. The sandbox must
    /// map the new actor's account before the next request.
    pub fn set_actor(&mut self, actor: AccountId) -> (r: AccountId)
        requires
            old(self).wf(),
        ensures
            final(self).wf(),
            r == old(self).actor_spec(),
            final(self).actor_spec() == actor,
            final(self).default_actor_spec() == old(self).default_actor_spec(),
            final(self).gas_limit_spec() == old(self).gas_limit_spec(),
            final(self).default_gas_limit_spec() == old(self).default_gas_limit_spec(),
            final(self).storage_deposit_limit_spec() == old(self).storage_deposit_limit_spec(),
            final(self).transcoders_spec() == old(self).transcoders_spec(),
            final(self).record_spec() == old(self).record_spec(),
    {
        let previous = self.actor;
        self.actor = actor;
        previous
    }

    /// This session with gas limit `gas_limit`.
    pub fn with_gas_limit(self, gas_limit: Weight) -> (r: Session<T>)
        requires
            self.wf(),
        ensures
            r.wf(),
            r.gas_limit_spec() == gas_limit,
            r.actor_spec() == self.actor_spec(),
            r.default_actor_spec() == self.default_actor_spec(),
            r.default_gas_limit_spec() == self.default_gas_limit_spec(),
            r.storage_deposit_limit_spec() == self.storage_deposit_limit_spec(),
            r.transcoders_spec() == self.transcoders_spec(),
            r.record_spec() == self.record_spec(),
    {
        let mut this = self;
        this.set_gas_limit(gas_limit);
        this
    }

    /// Sets the gas limit; returns the one set before.
    pub fn set_gas_limit(&mut self, gas_limit: Weight) -> (r: Weight)
        requires
            old(self).wf(),
        ensures
            final(self).wf(),
            r == old(self).gas_limit_spec(),
            final(self).gas_limit_spec() == gas_limit,
            final(self).actor_spec() == old(self).actor_spec(),
            final(self).default_actor_spec() == old(self).default_actor_spec(),
            final(self).default_gas_limit_spec() == old(self).default_gas_limit_spec(),
            final(self).storage_deposit_limit_spec() == old(self).storage_deposit_limit_spec(),
            final(self).transcoders_spec() == old(self).transcoders_spec(),
            final(self).record_spec() == old(self).record_spec(),
    {
        let previous = self.gas_limit;
        self.gas_limit = gas_limit;
        previous
    }

    /// The current gas limit.
    pub fn get_gas_limit(&self) -> (r: Weight)
        ensures
            r == self.gas_limit_spec(),
    {
        self.gas_limit
    }

    /// This session with storage-deposit limit `limit`.
    pub fn with_storage_deposit_limit(self, limit: Balance) -> (r: Session<T>)
        requires
            self.wf(),
        ensures
            r.wf(),
            r.storage_deposit_limit_spec() == limit,
            r.actor_spec() == self.actor_spec(),
            r.default_actor_spec() == self.default_actor_spec(),
            r.gas_limit_spec() == self.gas_limit_spec(),
            r.default_gas_limit_spec() == self.default_gas_limit_spec(),
            r.transcoders_spec() == self.transcoders_spec(),
            r.record_spec() == self.record_spec(),
    {
        let mut this = self;
        this.set_storage_deposit_limit(limit);
        this
    }

    /// Sets the storage-deposit limit; returns the one set before.
    pub fn set_storage_deposit_limit(&mut self, limit: Balance) -> (r: Balance)
        requires
            old(self).wf(),
        ensures
            final(self).wf(),
            r == old(self).storage_deposit_limit_spec(),
            final(self).storage_deposit_limit_spec() == limit,
            final(self).actor_spec() == old(self).actor_spec(),
            final(self).default_actor_spec() == old(self).default_actor_spec(),
            final(self).gas_limit_spec() == old(self).gas_limit_spec(),
            final(self).default_gas_limit_spec() == old(self).default_gas_limit_spec(),
            final(self).transcoders_spec() == old(self).transcoders_spec(),
            final(self).record_spec() == old(self).record_spec(),
    {
        let previous = self.storage_deposit_limit;
        self.storage_deposit_limit = limit;
        previous
    }

    /// The current storage-deposit limit.
    pub fn get_storage_deposit_limit(&self) -> (r: Balance)
        ensures
            r == self.storage_deposit_limit_spec(),
    {
        self.storage_deposit_limit
    }

    /// This session with `transcoder` registered for `contract`.
    pub fn with_transcoder(self, contract: Address, transcoder: T) -> (r: Session<T>)
        requires
            self.wf(),
        ensures
            r.wf(),
            r.same_settings(&self),
            r.transcoders_spec() == self.transcoders_spec().insert(contract, transcoder),
            r.record_spec() == self.record_spec(),
    {
        let mut this = self;
        this.set_transcoder(contract, transcoder);
        this
    }

    /// Registers `transcoder` for `contract`.
    pub fn set_transcoder(&mut self, contract: Address, transcoder: T)
        requires
            old(self).wf(),
        ensures
            final(self).wf(),
            final(self).same_settings(old(self)),
            final(self).transcoders_spec() == old(self).transcoders_spec().insert(contract, transcoder),
            final(self).record_spec() == old(self).record_spec(),
    {
        self.transcoders.register(contract, transcoder);
    }

    /// The transcoder registered for `contract`, if any.
    pub fn transcoder(&self, contract: &Address) -> (r: Option<&T>)
        requires
            self.wf(),
        ensures
            match r {
                Some(t) => self.transcoders_spec().contains_key(*contract) && *t
                    == self.transcoders_spec()[*contract],
                None => !self.transcoders_spec().contains_key(*contract),
            },
    {
        self.transcoders.get(contract)
    }

    /// The record of the session.
    pub fn record(&self) -> (r: &Record)
        ensures
            r@ == self.record_spec(),
    {
        &self.record
    }

    /// The request that deploys `contract_bytes` with the encoded constructor call `data`,
    /// signed by the current actor under the current budgets. A dry run sends the same
    /// request in the sandbox's preview mode and records nothing.
    pub fn deploy_request(
        &self,
        contract_bytes: Vec<u8>,
        data: Vec<u8>,
        salt: Option<Salt>,
        endowment: Option<Balance>,
    ) -> (r: DeployRequest)
        ensures
            r.contract_bytes == contract_bytes,
            r.data == data,
            r.salt == salt,
            r.endowment == match endowment {
                Some(e) => e,
                None => 0,
            },
            r.origin == self.actor_spec(),
            r.gas_limit == self.gas_limit_spec(),
            r.storage_deposit_limit == DepositLimit::Balance(self.storage_deposit_limit_spec()),
    {
        DeployRequest {
            contract_bytes,
            endowment: match endowment {
                Some(e) => e,
                None => 0,
            },
            data,
            salt,
            origin: self.actor,
            gas_limit: self.gas_limit,
            storage_deposit_limit: DepositLimit::Balance(self.storage_deposit_limit),
        }
    }

    /// The request that deploys the body standing in for a mock: no endowment, no
    /// constructor arguments, the given salt, signed by the default actor with the default
    /// gas limit and no storage-deposit limit.
    pub fn mock_deploy_request(&self, contract_bytes: Vec<u8>, salt: Salt) -> (r: DeployRequest)
        ensures
            r.contract_bytes == contract_bytes,
            r.data@.len() == 0,
            r.salt == Some(salt),
            r.endowment == 0,
            r.origin == self.default_actor_spec(),
            r.gas_limit == self.default_gas_limit_spec(),
            r.storage_deposit_limit == DepositLimit::Unchecked,
    {
        DeployRequest {
            contract_bytes,
            endowment: 0,
            data: Vec::new(),
            salt: Some(salt),
            origin: self.default_actor,
            gas_limit: self.default_gas_limit,
            storage_deposit_limit: DepositLimit::Unchecked,
        }
    }

    /// Records a deployment. `log` is the sandbox's event log after the deployment, which
    /// held `events_before` entries before it. On success the new address gets
    /// `transcoder` and is returned.
    pub fn complete_deploy(
        &mut self,
        log: Vec<Event>,
        events_before: usize,
        outcome: InstantiateOutcome,
        transcoder: T,
    ) -> (r: Result<Address, SessionError>)
        requires
            old(self).wf(),
            events_before <= log@.len(),
        ensures
            final(self).wf(),
            final(self).same_settings(old(self)),
            final(self).record_spec() == old(self).record_spec().after_deploy(
                outcome,
                events_since(log@, events_before as int),
            ),
            match outcome {
                InstantiateOutcome::Instantiated(a) => r == Ok::<Address, SessionError>(a)
                    && final(self).transcoders_spec() == old(self).transcoders_spec().insert(
                    a,
                    transcoder,
                ),
                InstantiateOutcome::Reverted(_) => r matches Err(SessionError::DeploymentReverted)
                    && final(self).transcoders_spec() == old(self).transcoders_spec(),
                InstantiateOutcome::Failed(e) => r matches Err(SessionError::DeploymentFailed(f))
                    && f == e && final(self).transcoders_spec() == old(self).transcoders_spec(),
            },
    {
        let mut log = log;
        let events = log.split_off(events_before);
        let ret = match &outcome {
            InstantiateOutcome::Instantiated(address) => {
                self.transcoders.register(*address, transcoder);
                Ok(*address)
            },
            InstantiateOutcome::Reverted(_) => Err(SessionError::DeploymentReverted),
            InstantiateOutcome::Failed(e) => Err(SessionError::DeploymentFailed(*e)),
        };
        self.record.push_deploy(outcome, events);
        ret
    }

    /// The contract a call goes to, with its transcoder: `address` when given, else the
    /// contract deployed last.
    pub fn call_target(&self, address: Option<Address>) -> (r: Result<(Address, &T), SessionError>)
        requires
            self.wf(),
        ensures
            ({
                let target = match address {
                    Some(a) => Some(a),
                    None => if self.record_spec().deploy_returns.len() > 0 {
                        Some(self.record_spec().deploy_returns.last())
                    } else {
                        None
                    },
                };
                match target {
                    None => r matches Err(SessionError::NoContract),
                    Some(a) => if self.transcoders_spec().contains_key(a) {
                        r matches Ok((b, t)) && b == a && *t == self.transcoders_spec()[a]
                    } else {
                        r matches Err(SessionError::NoTranscoder)
                    },
                }
            }),
    {
        let target = match address {
            Some(a) => a,
            None => match self.record.latest_deploy_return() {
                Some(a) => a,
                None => {
                    return Err(SessionError::NoContract);
                },
            },
        };
        match self.transcoders.get(&target) {
            Some(t) => Ok((target, t)),
            None => Err(SessionError::NoTranscoder),
        }
    }

    /// The request that calls `address` with the encoded message call `data`, signed by
    /// the current actor under the current budgets. A dry run sends the same request in the
    /// sandbox's preview mode and records nothing.
    pub fn call_request(&self, address: Address, data: Vec<u8>, endowment: Option<Balance>) -> (r: CallRequest)
        ensures
            r.address == address,
            r.data == data,
            r.endowment == match endowment {
                Some(e) => e,
                None => 0,
            },
            r.origin == self.actor_spec(),
            r.gas_limit == self.gas_limit_spec(),
            r.storage_deposit_limit == DepositLimit::Balance(self.storage_deposit_limit_spec()),
    {
        CallRequest {
            address,
            endowment: match endowment {
                Some(e) => e,
                None => 0,
            },
            data,
            origin: self.actor,
            gas_limit: self.gas_limit,
            storage_deposit_limit: DepositLimit::Balance(self.storage_deposit_limit),
        }
    }

    /// Records a call. `log` is the sandbox's event log after the call, which held
    /// `events_before` entries before it. Returns the encoded value the message returned,
    /// or the revert payload as an error.
    pub fn complete_call(&mut self, log: Vec<Event>, events_before: usize, outcome: ExecOutcome) -> (r: Result<Vec<u8>, SessionError>)
        requires
            old(self).wf(),
            events_before <= log@.len(),
        ensures
            final(self).wf(),
            final(self).same_settings(old(self)),
            final(self).transcoders_spec() == old(self).transcoders_spec(),
            final(self).record_spec() == old(self).record_spec().after_call(
                outcome,
                events_since(log@, events_before as int),
            ),
            match outcome {
                ExecOutcome::Returned(d) => r matches Ok(v) && v@ == d@,
                ExecOutcome::Reverted(d) => r matches Err(SessionError::CallReverted(v)) && v@ == d@,
                ExecOutcome::Failed(e) => r matches Err(SessionError::CallFailed(f)) && f == e,
            },
    {
        let mut log = log;
        let events = log.split_off(events_before);
        let ret = match &outcome {
            ExecOutcome::Returned(d) => {
                let v = d.clone();
                proof {
                    assert(v@ =~= d@);
                }
                Ok(v)
            },
            ExecOutcome::Reverted(d) => {
                let v = d.clone();
                proof {
                    assert(v@ =~= d@);
                }
                Err(SessionError::CallReverted(v))
            },
            ExecOutcome::Failed(e) => Err(SessionError::CallFailed(*e)),
        };
        self.record.push_call(outcome, events);
        ret
    }

    /// The request that stores `contract_bytes`, signed by the current actor under the
    /// current storage-deposit limit.
    pub fn upload_request(&self, contract_bytes: Vec<u8>) -> (r: UploadRequest)
        ensures
            r.contract_bytes == contract_bytes,
            r.origin == self.actor_spec(),
            r.storage_deposit_limit == self.storage_deposit_limit_spec(),
    {
        UploadRequest { contract_bytes, origin: self.actor, storage_deposit_limit: self.storage_deposit_limit }
    }
}

/// The result of an upload: the code hash, or the sandbox's failure.
pub fn upload_outcome(result: Result<Hash32, DispatchFailure>) -> (r: Result<Hash32, SessionError>)
    ensures
        match result {
            Ok(h) => r == Ok::<Hash32, SessionError>(h),
            Err(e) => r matches Err(SessionError::UploadFailed(f)) && f == e,
        },
{
    match result {
        Ok(h) => Ok(h),
        Err(e) => Err(SessionError::UploadFailed(e)),
    }
}

} // verus!
