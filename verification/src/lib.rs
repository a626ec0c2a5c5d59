//! Conformance checking of block state transitions.
//!
//! A test unit describes a pre-state, a block, one transaction with several
//! index-selected variants, and the outcome expected under each named
//! protocol version. The library replays every variant on an isolated copy
//! of the pre-state and reports whether success or failure matches what the
//! unit declares.

pub mod blob;
pub mod classify;
pub mod crypto;
pub mod engine;
pub mod env;
pub mod envelope;
pub mod error;
pub mod executor;
pub mod fork;
pub mod model;
pub mod pipeline;
pub mod primitives;
pub mod relay;
pub mod sender;
pub mod state;
pub mod suite;
pub mod variant;

pub use crate::executor::execute_test_unit;
pub use crate::sender::recover_address;
pub use crate::suite::execute_test_suite;
