use drink::executor::{call, ContractsState, Report};
use drink::selector::{compute_selector, selector_from_digest};

#[test]
fn selector_of_empty_name() {
    // BLAKE2b-256 of the empty input starts with 0e 57 51 c0.
    assert_eq!(compute_selector(""), [0x0e, 0x57, 0x51, 0xc0]);
}

#[test]
fn selector_is_digest_prefix() {
    let digest = <sp_core::Blake2Hasher as sp_core::Hasher>::hash(b"flip").0;
    assert_eq!(compute_selector("flip"), [digest[0], digest[1], digest[2], digest[3]]);
    assert_ne!(compute_selector("flip"), compute_selector("get"));
    let mut bytes = [0u8; 32];
    bytes[0] = 1;
    bytes[3] = 4;
    bytes[4] = 5;
    assert_eq!(selector_from_digest(&bytes), [1, 0, 0, 4]);
}

#[test]
fn cli_call_without_contract() {
    let state = ContractsState::new();
    assert!(matches!(call(&state, "get"), Err(Report::NoDeployedContract)));
    assert!(Report::NoDeployedContract.is_error());
    assert!(!Report::Deployed.is_error());
}
