//! The decisions of the command-line front end: which contract a typed-in call goes to,
//! and what to report once the sandbox has answered.

use vstd::prelude::*;
use vstd::string::StringSliceAdditionalSpecFns;
use crate::primitives::{Address, DispatchFailure, Selector};
use crate::record::{ExecOutcome, InstantiateOutcome};
use crate::selector::{blake2_256_of, compute_selector, selector_of_digest};
use crate::transcoding::{decoded_return_of, transcoder_decode_return};

verus! {

/// A contract deployed from the command line.
pub struct Contract {
    pub name: String,
    pub address: Address,
    /// The directory of the contract's project.
    pub base_path: String,
    pub transcode: contract_transcode::ContractMessageTranscoder,
}

/// The contracts the front end knows, and which of them calls go to.
pub struct ContractsState {
    pub contracts: Vec<Contract>,
    /// The name of the contract project last deployed from.
    pub contract_project_name: String,
    pub current_contract: usize,
    pub deployed_contracts: u64,
}

impl ContractsState {
    /// No contract deployed yet.
    pub fn new() -> (r: ContractsState)
        ensures
            r.contracts@.len() == 0,
            r.contract_project_name@.len() == 0,
            r.current_contract == 0,
            r.deployed_contracts == 0,
    {
        ContractsState {
            contracts: Vec::new(),
            contract_project_name: String::new(),
            current_contract: 0,
            deployed_contracts: 0,
        }
    }
}

/// What the front end tells its user.
#[derive(Clone, Debug, PartialEq, Eq)]
pub enum Report {
    /// A call was typed in before any contract was deployed.
    NoDeployedContract,
    /// The contract was deployed and became the current one.
    Deployed,
    /// The constructor reverted, with this payload.
    DeployReverted(Vec<u8>),
    /// The sandbox could not deploy the contract.
    DeployFailed(DispatchFailure),
    /// The message returned this value (as text).
    Returned(String),
    /// The message returned bytes that could not be decoded.
    Undecodable { error: String, raw: Vec<u8> },
    /// The message reverted, with this payload.
    CallReverted(Vec<u8>),
    /// The sandbox could not perform the call.
    CallFailed(DispatchFailure),
}

impl Report {
    /// Whether the report is an error (rather than the outcome of a successful operation).
    pub fn is_error(&self) -> (r: bool)
        ensures
            r == !(self is Deployed || self is Returned || self is Undecodable),
    {
        match self {
            Report::Deployed | Report::Returned(_) | Report::Undecodable { .. } => false,
            _ => true,
        }
    }
}

/// A call the front end hands to the sandbox.
#[derive(Debug)]
pub struct CliCall {
    pub address: Address,
    pub selector: Selector,
}

/// Starts a call of `message` on the current contract, dispatched by the selector derived
/// from its name, or reports that no contract has been deployed.
pub fn call(app_state: &ContractsState, message: &str) -> (r: Result<CliCall, Report>)
    ensures
        app_state.current_contract < app_state.contracts@.len() ==> (r matches Ok(c) && c.address
            == app_state.contracts@[app_state.current_contract as int].address && c.selector@
            == selector_of_digest(blake2_256_of(message.spec_bytes()))),
        app_state.current_contract >= app_state.contracts@.len() ==> r matches Err(
            Report::NoDeployedContract,
        ),
{
    if app_state.current_contract < app_state.contracts.len() {
        let selector = compute_selector(message);
        Ok(CliCall { address: app_state.contracts[app_state.current_contract].address, selector })
    } else {
        Err(Report::NoDeployedContract)
    }
}

/// What to report once the sandbox has answered a call of `message` on the current
/// contract: the decoded return value, the revert payload, or the failure.
pub fn call_report(app_state: &ContractsState, message: &str, outcome: ExecOutcome) -> (r: Report)
    requires
        app_state.current_contract < app_state.contracts@.len(),
    ensures
        match outcome {
            ExecOutcome::Returned(d) => match decoded_return_of(
                app_state.contracts@[app_state.current_contract as int].transcode,
                message@,
                d@,
            ) {
                Ok(text) => r matches Report::Returned(t) && t@ == text,
                Err(text) => r matches Report::Undecodable { error, raw } && error@ == text && raw
                    == d,
            },
            ExecOutcome::Reverted(d) => r == Report::CallReverted(d),
            ExecOutcome::Failed(e) => r == Report::CallFailed(e),
        },
{
    match outcome {
        ExecOutcome::Returned(data) => {
            let contract = &app_state.contracts[app_state.current_contract];
            match transcoder_decode_return(&contract.transcode, message, data.as_slice()) {
                Ok(text) => Report::Returned(text),
                Err(error) => Report::Undecodable { error, raw: data },
            }
        },
        ExecOutcome::Reverted(data) => Report::CallReverted(data),
        ExecOutcome::Failed(e) => Report::CallFailed(e),
    }
}

/// Takes in the sandbox's answer to the deployment of contract `name`: `name` becomes the
/// current project whatever the answer, and on success the contract is added and becomes
/// the current one.
pub fn deploy(
    app_state: &mut ContractsState,
    name: String,
    base_path: String,
    transcode: contract_transcode::ContractMessageTranscoder,
    outcome: InstantiateOutcome,
) -> (r: Report)
    requires
        old(app_state).deployed_contracts < u64::MAX,
    ensures
        match outcome {
            InstantiateOutcome::Instantiated(a) => {
                &&& r is Deployed
                &&& final(app_state).contract_project_name == name
                &&& final(app_state).deployed_contracts == old(app_state).deployed_contracts + 1
                &&& final(app_state).contracts@.len() == old(app_state).contracts@.len() + 1
                &&& final(app_state).contracts@.drop_last() == old(app_state).contracts@
                &&& final(app_state).contracts@.last().address == a
                &&& final(app_state).contracts@.last().name == name
                &&& final(app_state).contracts@.last().base_path == base_path
                &&& final(app_state).current_contract == old(app_state).contracts@.len()
            },
            InstantiateOutcome::Reverted(d) => r == Report::DeployReverted(d) && *final(app_state)
                == (ContractsState { contract_project_name: name, ..*old(app_state) }),
            InstantiateOutcome::Failed(e) => r == Report::DeployFailed(e) && *final(app_state)
                == (ContractsState { contract_project_name: name, ..*old(app_state) }),
        },
{
    app_state.contract_project_name = name.clone();
    match outcome {
        InstantiateOutcome::Instantiated(address) => {
            app_state.deployed_contracts = app_state.deployed_contracts + 1;
            app_state.contracts.push(Contract { name, address, base_path, transcode });
            app_state.current_contract = app_state.contracts.len() - 1;
            proof {
                assert(app_state.contracts@.drop_last() =~= old(app_state).contracts@);
            }
            Report::Deployed
        },
        InstantiateOutcome::Reverted(data) => Report::DeployReverted(data),
        InstantiateOutcome::Failed(e) => Report::DeployFailed(e),
    }
}

} // verus!
