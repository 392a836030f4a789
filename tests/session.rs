use drink::errors::SessionError;
use drink::primitives::{DepositLimit, DispatchFailure, Weight};
use drink::record::{Event, ExecOutcome, InstantiateOutcome};
use drink::session::{upload_outcome, Session, DEFAULT_STORAGE_DEPOSIT_LIMIT};
use drink::transcoding::encoding_outcome;
use ink_primitives::{LangError, MessageResult};
use parity_scale_codec::{Decode, Encode};

const ALICE: [u8; 32] = [1u8; 32];
const BOB: [u8; 32] = [2u8; 32];
const CONTRACT: [u8; 20] = [7u8; 20];
const OTHER: [u8; 20] = [9u8; 20];

fn new_session() -> Session<&'static str> {
    Session::new(ALICE, Weight::from_parts(100_000_000_000, 3 * 1024 * 1024))
}

fn emitted(data: &[u8]) -> Event {
    Event::ContractEmitted { contract: CONTRACT, topics: vec![[3u8; 32]], data: data.to_vec() }
}

/// Deploys `CONTRACT` into `session`, the sandbox log being `log`.
fn deploy_contract(session: &mut Session<&'static str>, log: &mut Vec<Event>) -> Result<[u8; 20], SessionError> {
    let before = log.len();
    log.push(Event::Runtime(vec![0]));
    session.complete_deploy(log.clone(), before, InstantiateOutcome::Instantiated(CONTRACT), "counter")
}

fn call_returning(session: &mut Session<&'static str>, log: &mut Vec<Event>, value: u32) -> Result<Vec<u8>, SessionError> {
    let (address, transcoder) = session.call_target(None).unwrap();
    assert_eq!(address, CONTRACT);
    assert_eq!(*transcoder, "counter");
    let before = log.len();
    let payload = MessageResult::<u32>::Ok(value).encode();
    session.complete_call(log.clone(), before, ExecOutcome::Returned(payload))
}

#[test]
fn new_session_has_defaults() {
    let session = new_session();
    assert_eq!(session.get_actor(), ALICE);
    assert_eq!(session.origin(), ALICE);
    assert_eq!(session.get_gas_limit(), Weight::from_parts(100_000_000_000, 3 * 1024 * 1024));
    assert_eq!(session.get_storage_deposit_limit(), DEFAULT_STORAGE_DEPOSIT_LIMIT);
    assert_eq!(session.get_storage_deposit_limit(), 1_000_000);
    assert!(session.record().deploy_results().is_empty());
    assert!(session.record().call_results().is_empty());
    assert!(session.record().event_batches().is_empty());
}

#[test]
fn setters_return_previous_values() {
    let mut session = new_session();
    assert_eq!(session.set_actor(BOB), ALICE);
    assert_eq!(session.get_actor(), BOB);
    assert_eq!(session.origin(), BOB);
    assert_eq!(session.set_gas_limit(Weight::from_parts(5, 6)), Weight::from_parts(100_000_000_000, 3 * 1024 * 1024));
    assert_eq!(session.get_gas_limit(), Weight::from_parts(5, 6));
    assert_eq!(session.set_storage_deposit_limit(42), 1_000_000);
    assert_eq!(session.get_storage_deposit_limit(), 42);
}

#[test]
fn builders_chain() {
    let session = new_session()
        .with_actor(BOB)
        .with_gas_limit(Weight::from_parts(1, 2))
        .with_storage_deposit_limit(77)
        .with_transcoder(OTHER, "other");
    assert_eq!(session.get_actor(), BOB);
    assert_eq!(session.get_gas_limit(), Weight::from_parts(1, 2));
    assert_eq!(session.get_storage_deposit_limit(), 77);
    assert_eq!(session.transcoder(&OTHER), Some(&"other"));
    assert_eq!(session.transcoder(&CONTRACT), None);
}

#[test]
fn requests_carry_actor_and_budgets() {
    let session = new_session().with_actor(BOB).with_gas_limit(Weight::from_parts(10, 20)).with_storage_deposit_limit(500);
    let deploy = session.deploy_request(vec![1, 2, 3], vec![9, 9, 9, 9], Some([5u8; 32]), None);
    assert_eq!(deploy.contract_bytes, vec![1, 2, 3]);
    assert_eq!(deploy.data, vec![9, 9, 9, 9]);
    assert_eq!(deploy.salt, Some([5u8; 32]));
    assert_eq!(deploy.endowment, 0);
    assert_eq!(deploy.origin, BOB);
    assert_eq!(deploy.gas_limit, Weight::from_parts(10, 20));
    assert_eq!(deploy.storage_deposit_limit, DepositLimit::Balance(500));
    let call = session.call_request(CONTRACT, vec![4, 4, 4, 4], Some(12));
    assert_eq!(call.address, CONTRACT);
    assert_eq!(call.endowment, 12);
    assert_eq!(call.origin, BOB);
    assert_eq!(call.storage_deposit_limit, DepositLimit::Balance(500));
    let upload = session.upload_request(vec![0, 1]);
    assert_eq!(upload.origin, BOB);
    assert_eq!(upload.storage_deposit_limit, 500);
}

#[test]
fn mock_deploy_request_uses_defaults() {
    let session = new_session().with_actor(BOB).with_gas_limit(Weight::from_parts(1, 1));
    let request = session.mock_deploy_request(vec![0xaa], [1u8; 32]);
    assert_eq!(request.origin, ALICE);
    assert_eq!(request.gas_limit, Weight::from_parts(100_000_000_000, 3 * 1024 * 1024));
    assert_eq!(request.storage_deposit_limit, DepositLimit::Unchecked);
    assert_eq!(request.salt, Some([1u8; 32]));
    assert!(request.data.is_empty());
    assert_eq!(request.endowment, 0);
}

#[test]
fn counter_scenario() {
    let mut session = new_session();
    let mut log = Vec::new();
    assert_eq!(deploy_contract(&mut session, &mut log), Ok(CONTRACT));
    assert_eq!(call_returning(&mut session, &mut log, 0).map(|v| v.len()), Ok(5));
    let unit = MessageResult::<()>::Ok(()).encode();
    let before = log.len();
    assert!(session.complete_call(log.clone(), before, ExecOutcome::Returned(unit)).is_ok());
    assert!(call_returning(&mut session, &mut log, 1).is_ok());

    let record = session.record();
    assert_eq!(record.deploy_results().len(), 1);
    assert_eq!(record.deploy_returns(), &[CONTRACT]);
    assert_eq!(record.call_results().len(), 3);
    assert_eq!(record.call_returns().len(), 3);
    let mut third = record.call_returns()[2].as_slice();
    assert_eq!(MessageResult::<u32>::decode(&mut third), Ok(Ok(1)));
    let mut last = record.last_call_return();
    assert_eq!(MessageResult::<u32>::decode(&mut last), Ok(Ok(1)));
    assert_eq!(record.event_batches().len(), 4);
}

#[test]
fn deploy_returns_follow_successful_deploys() {
    let mut session = new_session();
    let log = vec![Event::Runtime(vec![])];
    let first = [1u8; 20];
    let second = [2u8; 20];
    assert_eq!(session.complete_deploy(log.clone(), 1, InstantiateOutcome::Instantiated(first), "a"), Ok(first));
    assert_eq!(session.complete_deploy(log.clone(), 1, InstantiateOutcome::Reverted(vec![1]), "b"), Err(SessionError::DeploymentReverted));
    assert_eq!(
        session.complete_deploy(log.clone(), 1, InstantiateOutcome::Failed(DispatchFailure::Exhausted), "c"),
        Err(SessionError::DeploymentFailed(DispatchFailure::Exhausted))
    );
    assert_eq!(session.complete_deploy(log.clone(), 1, InstantiateOutcome::Instantiated(second), "d"), Ok(second));
    let record = session.record();
    assert_eq!(record.deploy_results().len(), 4);
    assert_eq!(record.deploy_returns(), &[first, second]);
    assert_eq!(record.last_deploy_return(), &second);
    assert_eq!(record.last_deploy_result(), &InstantiateOutcome::Instantiated(second));
    assert_eq!(session.transcoder(&first), Some(&"a"));
    assert_eq!(session.transcoder(&second), Some(&"d"));
    assert_eq!(session.transcoder(&[0u8; 20]), None);
}

#[test]
fn event_batches_hold_only_their_operation_events() {
    let mut session = new_session();
    let mut log = vec![emitted(&[1]), Event::Runtime(vec![5])];
    let before = log.len();
    log.push(emitted(&[2]));
    log.push(Event::Runtime(vec![6]));
    session.complete_deploy(log.clone(), before, InstantiateOutcome::Instantiated(CONTRACT), "counter").unwrap();
    let before = log.len();
    log.push(emitted(&[3]));
    log.push(emitted(&[4]));
    session.complete_call(log.clone(), before, ExecOutcome::Returned(vec![0])).unwrap();

    let batches = session.record().event_batches();
    assert_eq!(batches.len(), 2);
    assert_eq!(batches[0].all_events(), &[emitted(&[2]), Event::Runtime(vec![6])]);
    assert_eq!(batches[0].contract_events(), vec![&[2u8][..]]);
    assert_eq!(batches[1].contract_events(), vec![&[3u8][..], &[4u8][..]]);
    assert_eq!(session.record().last_event_batch().all_events().len(), 2);
}

#[test]
fn call_without_deployment_is_no_contract() {
    let session = new_session();
    assert!(matches!(session.call_target(None), Err(SessionError::NoContract)));
}

#[test]
fn call_without_transcoder_is_no_transcoder() {
    let session = new_session();
    assert!(matches!(session.call_target(Some(OTHER)), Err(SessionError::NoTranscoder)));
    let with = new_session().with_transcoder(OTHER, "other");
    assert!(matches!(with.call_target(Some(OTHER)), Ok((OTHER, &"other"))));
}

#[test]
fn explicit_target_overrides_last_deployed() {
    let mut session = new_session().with_transcoder(OTHER, "other");
    let mut log = Vec::new();
    deploy_contract(&mut session, &mut log).unwrap();
    assert!(matches!(session.call_target(None), Ok((CONTRACT, &"counter"))));
    assert!(matches!(session.call_target(Some(OTHER)), Ok((OTHER, &"other"))));
}

#[test]
fn revert_payload_decodes_to_the_error() {
    let mut session = new_session();
    let mut log = Vec::new();
    deploy_contract(&mut session, &mut log).unwrap();
    let payload = MessageResult::<Result<(), u8>>::Ok(Err(7)).encode();
    let result = session.complete_call(log.clone(), log.len(), ExecOutcome::Reverted(payload.clone()));
    match result {
        Err(SessionError::CallReverted(data)) => {
            assert_eq!(data, payload);
            let decoded = MessageResult::<Result<(), u8>>::decode(&mut data.as_slice());
            assert_eq!(decoded, Ok(Ok(Err(7))));
        }
        other => panic!("unexpected {other:?}"),
    }
    assert_eq!(session.record().call_results().len(), 1);
    assert!(session.record().call_returns().is_empty());
    assert_eq!(session.record().last_call_result(), &ExecOutcome::Reverted(payload));
}

#[test]
fn lang_error_return_is_recorded() {
    let mut session = new_session();
    let mut log = Vec::new();
    deploy_contract(&mut session, &mut log).unwrap();
    let payload = MessageResult::<u32>::Err(LangError::CouldNotReadInput).encode();
    assert_eq!(payload, vec![1, 1]);
    assert_eq!(session.complete_call(log.clone(), log.len(), ExecOutcome::Returned(payload.clone())), Ok(payload));
}

#[test]
fn failed_call_is_call_failed() {
    let mut session = new_session();
    let mut log = Vec::new();
    deploy_contract(&mut session, &mut log).unwrap();
    let failure = DispatchFailure::Module { index: 8, error: [1, 0, 0, 0] };
    assert_eq!(
        session.complete_call(log.clone(), log.len(), ExecOutcome::Failed(failure)),
        Err(SessionError::CallFailed(failure))
    );
}

#[test]
fn upload_outcomes() {
    assert_eq!(upload_outcome(Ok([4u8; 32])), Ok([4u8; 32]));
    assert_eq!(upload_outcome(Err(DispatchFailure::BadOrigin)), Err(SessionError::UploadFailed(DispatchFailure::BadOrigin)));
}

#[test]
fn encoding_failures_are_encoding_errors() {
    assert_eq!(encoding_outcome(Ok(vec![1, 2, 3, 4])), Ok(vec![1, 2, 3, 4]));
    assert_eq!(encoding_outcome(Err("no message".to_string())), Err(SessionError::Encoding("no message".to_string())));
}
