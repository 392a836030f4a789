use drink::errors::MockingError;
use drink::intercepting::{intercept_call, mocked_return, Interception};
use drink::mock::{ContractMock, MockRegistry};
use drink::primitives::EntryPoint;
use drink::record::InstantiateOutcome;
use drink::tracing::new_call_span;

const MOCKED: [u8; 20] = [1u8; 20];
const REAL: [u8; 20] = [2u8; 20];

fn registry() -> MockRegistry<&'static str> {
    let mut registry = MockRegistry::new();
    let mock = ContractMock::new().with_message([0, 0, 0, 1], "first").with_message([0, 0, 0, 2], "second");
    registry.register(MOCKED, mock);
    registry
}

#[test]
fn salts_are_distinct_and_little_endian() {
    let mut registry: MockRegistry<()> = MockRegistry::new();
    let first = registry.salt();
    let second = registry.salt();
    let mut expected = [0u8; 32];
    expected[0] = 1;
    assert_eq!(first, expected);
    expected[0] = 2;
    assert_eq!(second, expected);
    let mut wide: MockRegistry<()> = MockRegistry::new();
    for _ in 0..256 {
        wide.salt();
    }
    let mut after_256 = [0u8; 32];
    after_256[0] = 1;
    after_256[1] = 1;
    assert_eq!(wide.salt(), after_256);
    assert_eq!(wide.current_nonce(), 257);
    let mut all = vec![first, second];
    for _ in 0..300 {
        all.push(registry.salt());
    }
    for i in 0..all.len() {
        for j in (i + 1)..all.len() {
            assert_ne!(all[i], all[j]);
        }
    }
}

#[test]
fn registered_selector_is_dispatched() {
    let registry = registry();
    match intercept_call(&registry, &MOCKED, EntryPoint::Call, &[0, 0, 0, 2, 9, 8]) {
        Interception::Dispatch { handler, input } => {
            assert_eq!(*handler, "second");
            assert_eq!(input, vec![9, 8]);
        }
        _ => panic!("expected a dispatch"),
    }
}

#[test]
fn unknown_selector_is_rejected() {
    let registry = registry();
    assert!(matches!(
        intercept_call(&registry, &MOCKED, EntryPoint::Call, &[0, 0, 0, 3]),
        Interception::Rejected(MockingError::MessageNotFound([0, 0, 0, 3]))
    ));
    assert!(matches!(
        intercept_call(&registry, &MOCKED, EntryPoint::Call, &[0, 0]),
        Interception::Rejected(MockingError::MissingSelector)
    ));
}

#[test]
fn unmocked_address_proceeds() {
    let registry = registry();
    assert!(matches!(intercept_call(&registry, &REAL, EntryPoint::Call, &[0, 0, 0, 1]), Interception::Proceed));
    let empty: MockRegistry<&'static str> = MockRegistry::new();
    assert!(matches!(intercept_call(&empty, &MOCKED, EntryPoint::Call, &[0, 0, 0, 1]), Interception::Proceed));
}

#[test]
fn registering_replaces_and_isolates() {
    let mut registry = registry();
    assert!(registry.register(REAL, ContractMock::new().with_message([0, 0, 0, 1], "real")).is_none());
    assert!(registry.get(&REAL).is_some());
    match intercept_call(&registry, &MOCKED, EntryPoint::Call, &[0, 0, 0, 1]) {
        Interception::Dispatch { handler, .. } => assert_eq!(*handler, "first"),
        _ => panic!("expected a dispatch"),
    }
    let previous = registry.register(MOCKED, ContractMock::new()).unwrap();
    assert_eq!(previous.message(&[0, 0, 0, 1]), Some(&"first"));
    assert!(matches!(
        intercept_call(&registry, &MOCKED, EntryPoint::Call, &[0, 0, 0, 1]),
        Interception::Rejected(MockingError::MessageNotFound(_))
    ));
}

#[test]
fn mock_message_lookup() {
    let mock = ContractMock::new().with_message([1, 2, 3, 4], 10u32).with_message([1, 2, 3, 4], 11u32);
    assert_eq!(mock.message(&[1, 2, 3, 4]), Some(&11));
    assert_eq!(mock.message(&[4, 3, 2, 1]), None);
}

#[test]
fn mocked_output_is_returned_unchanged() {
    let ok = mocked_return(Ok(vec![0, 5, 0, 0, 0])).unwrap();
    assert_eq!(ok.data, vec![0, 5, 0, 0, 0]);
    assert!(!ok.reverted);
    let err = mocked_return(Ok(vec![1, 1])).unwrap();
    assert_eq!(err.data, vec![1, 1]);
    assert!(err.reverted);
    assert_eq!(mocked_return(Err(MockingError::HandlerFailed)), Err(MockingError::HandlerFailed));
}

#[test]
fn call_span_records_the_call() {
    let span = new_call_span(&MOCKED, EntryPoint::Call, &[1, 2]);
    let trace = span.after_call(&[3]);
    assert_eq!(trace.contract_address, MOCKED);
    assert!(trace.is_call);
    assert_eq!(trace.input_data, vec![1, 2]);
    assert_eq!(trace.output_data, vec![3]);
    let constructor = new_call_span(&REAL, EntryPoint::Constructor, &[]).after_call(&[]);
    assert!(!constructor.is_call);
}

#[test]
fn deployed_mock_is_registered() {
    let mut registry: MockRegistry<&'static str> = MockRegistry::new();
    assert_eq!(registry.current_nonce(), 0);
    registry.salt();
    assert_eq!(registry.current_nonce(), 1);
    let mock = ContractMock::new().with_message([0, 0, 0, 1], "only");
    assert_eq!(registry.register_deployed(&InstantiateOutcome::Instantiated(MOCKED), mock), Some(MOCKED));
    assert!(registry.get(&MOCKED).is_some());
    let failed = registry.register_deployed(&InstantiateOutcome::Reverted(vec![]), ContractMock::new());
    assert_eq!(failed, None);
    assert!(registry.get(&REAL).is_none());
    assert_eq!(registry.current_nonce(), 1);
}
