use contract_transcode::ink_metadata::layout::{FieldLayout, Layout, StructLayout};
use contract_transcode::ink_metadata::{
    ConstructorSpec, ContractSpec, EnvironmentSpec, EventParamSpec, EventSpec, InkProject, MessageParamSpec,
    MessageSpec, ReturnTypeSpec, TypeSpec,
};
use contract_transcode::ContractMessageTranscoder;
use drink::errors::SessionError;
use drink::executor::{call, call_report, deploy, ContractsState, Report};
use drink::record::{Event, EventBatch, ExecOutcome, InstantiateOutcome};
use drink::selector::compute_selector;
use drink::transcoding::{encode_message, scale_encode_bytes};
use ink_primitives::{LangError, MessageResult};
use parity_scale_codec::Encode;

const INCREMENTED: [u8; 32] = [0xab; 32];

/// A counter contract's ABI: `new()`, `get() -> u32`, `echo(x: u32) -> u32`, and the event
/// `Incremented { by: u32 }`.
fn counter_transcoder() -> ContractMessageTranscoder {
    let environment = EnvironmentSpec::new()
        .account_id(TypeSpec::of_type::<[u8; 32]>())
        .balance(TypeSpec::of_type::<u128>())
        .hash(TypeSpec::of_type::<[u8; 32]>())
        .timestamp(TypeSpec::of_type::<u64>())
        .block_number(TypeSpec::of_type::<u32>())
        .chain_extension(TypeSpec::of_type::<()>())
        .max_event_topics(4)
        .static_buffer_size(16384)
        .done();
    let spec = ContractSpec::new()
        .constructors(vec![ConstructorSpec::from_label("new")
            .selector([1, 2, 3, 4])
            .payable(false)
            .args(Vec::new())
            .returns(ReturnTypeSpec::new(TypeSpec::of_type::<MessageResult<()>>()))
            .done()])
        .messages(vec![
            MessageSpec::from_label("get")
                .selector([5, 6, 7, 8])
                .mutates(false)
                .payable(false)
                .args(Vec::new())
                .returns(ReturnTypeSpec::new(TypeSpec::of_type::<MessageResult<u32>>()))
                .done(),
            MessageSpec::from_label("echo")
                .selector([9, 9, 9, 9])
                .mutates(false)
                .payable(false)
                .args(vec![MessageParamSpec::new("x").of_type(TypeSpec::of_type::<u32>()).done()])
                .returns(ReturnTypeSpec::new(TypeSpec::of_type::<MessageResult<u32>>()))
                .done(),
        ])
        .events(vec![EventSpec::new("Incremented")
            .signature_topic(Some(INCREMENTED))
            .args(vec![EventParamSpec::new("by").of_type(TypeSpec::of_type::<u32>()).indexed(false).done()])
            .done()])
        .lang_error(TypeSpec::of_type::<LangError>())
        .environment(environment)
        .done();
    let layout = Layout::Struct(StructLayout::new("Counter", Vec::<FieldLayout>::new()));
    ContractMessageTranscoder::new(InkProject::new(layout, spec))
}

#[test]
fn encodes_selector_and_arguments() {
    let transcoder = counter_transcoder();
    assert_eq!(encode_message(&transcoder, "new", &[]), Ok(vec![1, 2, 3, 4]));
    assert_eq!(encode_message(&transcoder, "echo", &["5".to_string()]), Ok(vec![9, 9, 9, 9, 5, 0, 0, 0]));
}

#[test]
fn unknown_message_or_wrong_arity_is_encoding_error() {
    let transcoder = counter_transcoder();
    assert!(matches!(encode_message(&transcoder, "missing", &[]), Err(SessionError::Encoding(_))));
    assert!(matches!(encode_message(&transcoder, "echo", &[]), Err(SessionError::Encoding(_))));
}

fn state_with_counter() -> ContractsState {
    let mut state = ContractsState::new();
    let report = deploy(
        &mut state,
        "counter".to_string(),
        "/work/counter".to_string(),
        counter_transcoder(),
        InstantiateOutcome::Instantiated([4u8; 20]),
    );
    assert_eq!(report, Report::Deployed);
    state
}

#[test]
fn cli_deploy_adds_current_contract() {
    let mut state = state_with_counter();
    assert_eq!(state.contracts.len(), 1);
    assert_eq!(state.current_contract, 0);
    assert_eq!(state.deployed_contracts, 1);
    assert_eq!(state.contracts[0].address, [4u8; 20]);
    assert_eq!(state.contracts[0].name, "counter");
    assert_eq!(state.contract_project_name, "counter");
    let report = deploy(&mut state, "other".to_string(), "/work/other".to_string(), counter_transcoder(), InstantiateOutcome::Reverted(vec![1]));
    assert_eq!(report, Report::DeployReverted(vec![1]));
    assert_eq!(state.contract_project_name, "other");
    assert_eq!(state.contracts.len(), 1);
    assert_eq!(state.deployed_contracts, 1);
}

#[test]
fn cli_call_targets_current_contract() {
    let state = state_with_counter();
    let request = call(&state, "get").ok().unwrap();
    assert_eq!(request.address, [4u8; 20]);
    assert_eq!(request.selector, compute_selector("get"));
}

#[test]
fn echo_round_trip() {
    let transcoder = counter_transcoder();
    let encoded = encode_message(&transcoder, "echo", &["42".to_string()]).unwrap();
    // An echo contract returns its argument as a successful message result.
    let mut returned = vec![0u8];
    returned.extend_from_slice(&encoded[4..]);
    assert_eq!(returned, MessageResult::<u32>::Ok(42).encode());
    let state = state_with_counter();
    match call_report(&state, "echo", ExecOutcome::Returned(returned)) {
        Report::Returned(text) => assert!(text.contains("42"), "{text}"),
        other => panic!("unexpected {other:?}"),
    }
}

#[test]
fn undecodable_return_keeps_raw_bytes() {
    let state = state_with_counter();
    match call_report(&state, "missing", ExecOutcome::Returned(vec![0, 1])) {
        Report::Undecodable { raw, .. } => assert_eq!(raw, vec![0, 1]),
        other => panic!("unexpected {other:?}"),
    }
    assert_eq!(call_report(&state, "get", ExecOutcome::Reverted(vec![3])), Report::CallReverted(vec![3]));
}

#[test]
fn decodes_events_with_known_signature() {
    let transcoder = counter_transcoder();
    let batch = EventBatch::new(vec![
        Event::ContractEmitted { contract: [4u8; 20], topics: vec![INCREMENTED], data: 7u32.encode() },
        Event::ContractEmitted { contract: [4u8; 20], topics: vec![], data: 8u32.encode() },
        Event::Runtime(vec![1, 2]),
        Event::ContractEmitted { contract: [4u8; 20], topics: vec![[0xcd; 32]], data: 9u32.encode() },
        Event::ContractEmitted { contract: [4u8; 20], topics: vec![INCREMENTED], data: vec![1] },
    ]);
    let decoded = batch.contract_events_decoded(&transcoder);
    assert_eq!(decoded.len(), 1);
    assert!(decoded[0].to_string().contains('7'), "{}", decoded[0]);
}

#[test]
fn compact_length_prefix_matches_scale() {
    for len in [0usize, 1, 63, 64, 65, 16383, 16384, 100_000] {
        let data: Vec<u8> = (0..len).map(|i| (i % 251) as u8).collect();
        assert_eq!(scale_encode_bytes(&data), data.encode(), "length {len}");
    }
    assert_eq!(scale_encode_bytes(&[7]), vec![4, 7]);
    assert_eq!(scale_encode_bytes(&[0u8; 64])[..2], [0x01, 0x01]);
}

#[test]
fn no_signature_decodes_nothing() {
    let batch = EventBatch::new(vec![Event::ContractEmitted { contract: [4u8; 20], topics: vec![[0u8; 32]], data: 7u32.encode() }]);
    assert!(batch.contract_events_decoded(&counter_transcoder()).is_empty());
}
