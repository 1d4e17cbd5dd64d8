//! Failure propagation as values, call-chain reconstruction, a dispatch
//! registry of host callbacks, and the rewriting of annotated functions into
//! test cases, relays and receivers.

pub mod attr;
pub mod backtrace;
pub mod bench;
pub mod error;
pub mod macros;
pub mod panic;
pub mod registry;
pub mod relay;
pub mod report;
pub mod result;
pub mod syntax;
pub mod test;
pub mod test_case;
