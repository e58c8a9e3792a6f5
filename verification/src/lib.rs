//! A sandbox for testing contracts against native stand-ins.
//!
//! The crate keeps the registry of mocked contracts, allots the salts under which
//! their carrier modules are deployed, and decides for every call whether a native
//! mock or the deployed bytecode answers it. The execution engine itself is reached
//! through the [`contract_api::ContractApi`] interface.

pub mod account;
pub mod contract_api;
pub mod mock;
pub mod registry;
pub mod carrier;
pub mod code_hash;
pub mod session;
