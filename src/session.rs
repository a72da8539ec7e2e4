//! The decisions of a run around the per-device transactions: what to send
//! to each discovered device, and whether a failure ends the run.
use vstd::prelude::*;

use crate::command::{encode, encoding, parse_state, state_named, Command};
use crate::device::{
    classify_and_match, opt_view, selection, views, DiscoveredDevice, Generation,
};
use crate::error::Error;

verus! {

/// Settings of a run, fixed when it starts.
#[derive(Clone, Copy, Debug)]
pub struct Settings {
    /// Milliseconds to wait after a write before disconnecting.
    pub settle_ms: u64,
    /// Whether a failure of one device's transaction lets the run go on to
    /// the next device.
    pub continue_on_error: bool,
}

/// What is to be sent to a device whose selection is `sel`, with the state
/// named `state`: nothing when it is not selected; otherwise the encoding of
/// the named state, or `UnsupportedState` when the name is unknown.
pub open spec fn planned(sel: Option<(Generation, Option<Seq<char>>)>, state: Seq<char>) -> Option<
    Result<(Seq<u8>, u128), Error>,
> {
    match sel {
        None => None,
        Some((g, bsid)) => match state_named(state) {
            None => Some(Err(Error::UnsupportedState { generation: g })),
            Some(st) => Some(encoding(g, st, bsid)),
        },
    }
}

/// The view of a plan.
pub open spec fn plan_view(r: Result<Option<Command>, Error>) -> Option<Result<(Seq<u8>, u128), Error>> {
    match r {
        Ok(None) => None,
        Ok(Some(c)) => Some(Ok((c.payload@, c.characteristic))),
        Err(e) => Some(Err(e)),
    }
}

/// The command for one discovered device: `Ok(None)` when it is skipped,
/// the command when it is selected, the error when the state or identifier
/// cannot be encoded for its generation.
pub fn plan(device: &DiscoveredDevice, targets: &Vec<String>, state: &str) -> (r: Result<
    Option<Command>,
    Error,
>)
    ensures
        plan_view(r) == planned(
            selection(opt_view(device.name), device.id@, views(targets@)),
            state@,
        ),
        r matches Ok(Some(c)) ==> c.well_formed(),
{
    let m = classify_and_match(device, targets);
    match m {
        None => Ok(None),
        Some((g, ctx)) => match parse_state(state) {
            None => Err(Error::UnsupportedState { generation: g }),
            Some(st) => {
                let c = encode(g, st, &ctx);
                match c {
                    Ok(cmd) => Ok(Some(cmd)),
                    Err(e) => Err(e),
                }
            },
        },
    }
}

/// Errors that concern one device only; the others end the run.
pub open spec fn is_device_error(e: Error) -> bool {
    match e {
        Error::ConnectFailed | Error::DiscoveryFailed | Error::CharacteristicNotFound
        | Error::WriteFailed | Error::DisconnectFailed | Error::MalformedIdentifier => true,
        _ => false,
    }
}

impl Error {
    /// Whether the error concerns one device only, so that other devices can
    /// still be served.
    pub fn is_per_device(&self) -> (r: bool)
        ensures
            r == is_device_error(*self),
    {
        match self {
            Error::ConnectFailed | Error::DiscoveryFailed | Error::CharacteristicNotFound
            | Error::WriteFailed | Error::DisconnectFailed | Error::MalformedIdentifier => true,
            _ => false,
        }
    }
}

/// Whether the run goes on after a device whose handling came to `outcome`:
/// always after a success, after a per-device error when the settings say
/// so, never after any other error.
pub fn keep_going(settings: &Settings, outcome: Result<(), Error>) -> (r: bool)
    ensures
        r == match outcome {
            Ok(()) => true,
            Err(e) => settings.continue_on_error && is_device_error(e),
        },
{
    match outcome {
        Ok(()) => true,
        Err(e) => settings.continue_on_error && e.is_per_device(),
    }
}

/// A run needs at least one adapter.
pub fn check_adapters(count: usize) -> (r: Result<(), Error>)
    ensures
        r == (if count == 0 {
            Err(Error::AdapterUnavailable)
        } else {
            Ok(())
        }),
{
    if count == 0 {
        Err(Error::AdapterUnavailable)
    } else {
        Ok(())
    }
}

/// A scan must have found at least one peripheral.
pub fn check_peripherals(count: usize) -> (r: Result<(), Error>)
    ensures
        r == (if count == 0 {
            Err(Error::NoPeripheralsFound)
        } else {
            Ok(())
        }),
{
    if count == 0 {
        Err(Error::NoPeripheralsFound)
    } else {
        Ok(())
    }
}

} // verus!
