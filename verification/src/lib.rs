//! Core choreography of an isolated-process launch: the protocol state
//! machines, the root-filesystem switch plan, the identity-map file contents,
//! and the path/environment construction that the launch needs. The actual
//! syscalls are performed by an unverified driver that follows the plans and
//! machines defined here.

pub mod config;
pub mod fsplan;
pub mod ident;
pub mod numeral;
pub mod protocol;
