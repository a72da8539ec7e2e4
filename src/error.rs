//! The failures of a run, of one device's transaction, and of encoding.
use vstd::prelude::*;

use crate::device::Generation;

verus! {

/// Why a run or a device's transaction did not complete.
#[derive(Clone, Copy, Debug, PartialEq, Eq, Structural)]
pub enum Error {
    /// No Bluetooth adapter is present.
    AdapterUnavailable,
    /// A scan found no peripheral at all.
    NoPeripheralsFound,
    /// No connection to the peripheral could be made.
    ConnectFailed,
    /// Connected, but the peripheral's services could not be discovered.
    DiscoveryFailed,
    /// The peripheral has no characteristic with the command's UUID.
    CharacteristicNotFound,
    /// The command could not be written.
    WriteFailed,
    /// The link could not be closed.
    DisconnectFailed,
    /// The requested power state is unknown, or not one the generation has.
    UnsupportedState { generation: Generation },
    /// A first-generation identifier is not eight hexadecimal digits.
    MalformedIdentifier,
}

} // verus!
