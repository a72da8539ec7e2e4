//! Power control for VR tracking base stations over Bluetooth Low Energy.
//!
//! The library holds the decisions: how a platform identifier is normalised,
//! which protocol generation an advertised peripheral speaks and whether it is
//! one of the requested targets, what bytes switch it into a power state, and
//! the connect / discover / write / settle / disconnect sequence that delivers
//! them. The Bluetooth stack itself stays with the caller.
pub mod command;
pub mod device;
pub mod error;
pub mod ident;
pub mod session;
pub mod transport;
pub mod text;
