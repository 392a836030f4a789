//! A stateful contract-testing session with call interception and mocking.
//!
//! The library keeps the state of a session against an embedded contract sandbox:
//! the acting account, the gas and storage-deposit budgets, the message transcoders
//! registered per contract, and an append-only record of every deployment and call
//! together with the events each of them emitted. It also holds the table of mocked
//! contracts that the sandbox consults before it dispatches a call.
//!
//! The sandbox itself is driven by the caller: each session operation is split into
//! a request that the library prepares and a completion step that classifies and
//! records what the sandbox reported.

pub mod primitives;
pub mod record;
pub mod byte_map;
pub mod errors;
pub mod transcoding;
pub mod mock;
pub mod intercepting;
pub mod tracing;
pub mod session;
pub mod executor;
pub mod selector;
pub mod contract_building;
