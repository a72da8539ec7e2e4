//! The transaction that delivers one command to one peripheral:
//! connect, discover, look up the characteristic, write, settle, disconnect.
//!
//! The sequencer makes every decision and the caller does the Bluetooth work:
//! each `step` takes what the last action came to and names the next action.
//! Once a connection stands, no path ends without a disconnect first.
use vstd::prelude::*;

use crate::error::Error;

verus! {

/// Where a transaction stands.
#[derive(Clone, Copy, Debug, PartialEq, Eq, Structural)]
pub enum Phase {
    /// Not started.
    Idle,
    /// Waiting for the connection attempt.
    Connecting,
    /// Connected; waiting for service discovery.
    ServiceDiscovery,
    /// Waiting for the write.
    Writing,
    /// Waiting out the settle delay after the write.
    Settling,
    /// Waiting for the disconnect.
    Disconnecting,
    /// Finished with success.
    Done,
    /// Finished with an error.
    Failed(Error),
}

/// What the last action came to.
#[derive(Debug)]
pub enum Event {
    /// Begin the transaction.
    Start,
    /// The connection attempt succeeded or not.
    Connected(bool),
    /// The UUIDs of the discovered characteristics, in the order found, or
    /// `None` when discovery failed.
    Discovered(Option<Vec<u128>>),
    /// The write went out or not.
    Written(bool),
    /// The settle delay is over.
    Settled,
    /// The disconnect succeeded or not.
    Disconnected(bool),
}

/// What the caller does next.
#[derive(Clone, Copy, Debug, PartialEq, Eq, Structural)]
pub enum Action {
    /// Connect to the peripheral.
    Connect,
    /// Discover its services and characteristics.
    Discover,
    /// Write the payload, without response, to the characteristic found at
    /// this position of the discovered list.
    Write(usize),
    /// Wait this many milliseconds.
    Settle(u64),
    /// Disconnect from the peripheral.
    Disconnect,
    /// The transaction is over and succeeded.
    Succeeded,
    /// The transaction is over and failed with this error.
    Failed(Error),
    /// The event does not belong to this phase; nothing to do.
    Wait,
}

/// The state of one transaction.
#[derive(Clone, Copy, Debug)]
pub struct Sequencer {
    /// Where the transaction stands.
    pub phase: Phase,
    /// The first error met since connecting, reported once disconnected.
    pub pending: Option<Error>,
    /// The characteristic the command goes to.
    pub characteristic: u128,
    /// How long to wait after the write before disconnecting, in milliseconds.
    pub settle_ms: u64,
}

/// The first position of `u` in `v`.
pub open spec fn first_index(v: Seq<u128>, u: u128) -> Option<int> {
    if exists|i: int| 0 <= i < v.len() && v[i] == u {
        Some(choose|i: int| 0 <= i < v.len() && v[i] == u && forall|j: int| 0 <= j < i ==> v[j] != u)
    } else {
        None
    }
}

/// A phase in which a connection stands.
pub open spec fn is_connected(p: Phase) -> bool {
    match p {
        Phase::ServiceDiscovery | Phase::Writing | Phase::Settling | Phase::Disconnecting => true,
        _ => false,
    }
}

/// A phase in which the transaction is over.
pub open spec fn is_finished(p: Phase) -> bool {
    p == Phase::Done || p is Failed
}

/// The action that reports a finished phase.
pub open spec fn report(p: Phase) -> Action {
    match p {
        Phase::Failed(e) => Action::Failed(e),
        _ => Action::Succeeded,
    }
}

/// The phase after disconnecting: the error met earlier if any, else the
/// disconnect's own failure if any, else success.
pub open spec fn closing_phase(pending: Option<Error>, disconnected: bool) -> Phase {
    match pending {
        Some(e) => Phase::Failed(e),
        None => if disconnected {
            Phase::Done
        } else {
            Phase::Failed(Error::DisconnectFailed)
        },
    }
}

/// `s` with a new phase and pending error.
pub open spec fn moved(s: Sequencer, p: Phase, pending: Option<Error>) -> Sequencer {
    Sequencer { phase: p, pending, ..s }
}

/// One transition: the next state and the action to take.
pub open spec fn transition(s: Sequencer, e: Event) -> (Sequencer, Action) {
    match (s.phase, e) {
        (Phase::Idle, Event::Start) => (moved(s, Phase::Connecting, None), Action::Connect),
        (Phase::Connecting, Event::Connected(ok)) => if ok {
            (moved(s, Phase::ServiceDiscovery, None), Action::Discover)
        } else {
            (
                moved(s, Phase::Failed(Error::ConnectFailed), None),
                Action::Failed(Error::ConnectFailed),
            )
        },
        (Phase::ServiceDiscovery, Event::Discovered(found)) => match found {
            None => (
                moved(s, Phase::Disconnecting, Some(Error::DiscoveryFailed)),
                Action::Disconnect,
            ),
            Some(v) => match first_index(v@, s.characteristic) {
                Some(i) => (moved(s, Phase::Writing, None), Action::Write(i as usize)),
                None => (
                    moved(s, Phase::Disconnecting, Some(Error::CharacteristicNotFound)),
                    Action::Disconnect,
                ),
            },
        },
        (Phase::Writing, Event::Written(ok)) => (
            moved(
                s,
                Phase::Settling,
                if ok {
                    None
                } else {
                    Some(Error::WriteFailed)
                },
            ),
            Action::Settle(s.settle_ms),
        ),
        (Phase::Settling, Event::Settled) => (
            moved(s, Phase::Disconnecting, s.pending),
            Action::Disconnect,
        ),
        (Phase::Disconnecting, Event::Disconnected(ok)) => {
            let p = closing_phase(s.pending, ok);
            (moved(s, p, None), report(p))
        },
        (Phase::Done, _) => (s, Action::Succeeded),
        (Phase::Failed(err), _) => (s, Action::Failed(err)),
        _ => (s, Action::Wait),
    }
}

/// The position of the first characteristic with UUID `u`.
pub fn find_characteristic(v: &Vec<u128>, u: u128) -> (r: Option<usize>)
    ensures
        match r {
            Some(i) => first_index(v@, u) == Some(i as int),
            None => first_index(v@, u) is None,
        },
{
    let mut i: usize = 0;
    while i < v.len()
        invariant
            i <= v@.len(),
            forall|j: int| 0 <= j < i ==> v@[j] != u,
        decreases v.len() - i,
    {
        if v[i] == u {
            let ghost w = choose|k: int|
                0 <= k < v@.len() && v@[k] == u && forall|j: int| 0 <= j < k ==> v@[j] != u;
            assert(0 <= i < v@.len() && v@[i as int] == u);
            assert(w == i) by {
                if w < i {
                } else if w > i {
                    assert(v@[i as int] != u);
                }
            }
            return Some(i);
        }
        i = i + 1;
    }
    None
}

impl Sequencer {
    /// A transaction, not yet started, that writes to `characteristic` and
    /// waits `settle_ms` milliseconds before disconnecting.
    pub fn new(characteristic: u128, settle_ms: u64) -> (r: Sequencer)
        ensures
            r == fresh(characteristic, settle_ms),
    {
        Sequencer { phase: Phase::Idle, pending: None, characteristic, settle_ms }
    }

    /// Whether the transaction is over.
    pub fn is_finished(&self) -> (r: bool)
        ensures
            r == is_finished(self.phase),
    {
        match self.phase {
            Phase::Done | Phase::Failed(_) => true,
            _ => false,
        }
    }

    /// Takes what the last action came to and returns the next action.
    ///
    /// A failed connection ends the transaction at once with `ConnectFailed`.
    /// From a standing connection every path goes through `Disconnect`: a
    /// failed discovery, a missing characteristic and a failed write are
    /// reported after it, ahead of any failure of the disconnect itself.
    pub fn step(&mut self, event: Event) -> (a: Action)
        ensures
            (*final(self), a) == transition(*old(self), event),
    {
        match (self.phase, event) {
            (Phase::Idle, Event::Start) => {
                self.phase = Phase::Connecting;
                self.pending = None;
                Action::Connect
            },
            (Phase::Connecting, Event::Connected(ok)) => {
                self.pending = None;
                if ok {
                    self.phase = Phase::ServiceDiscovery;
                    Action::Discover
                } else {
                    self.phase = Phase::Failed(Error::ConnectFailed);
                    Action::Failed(Error::ConnectFailed)
                }
            },
            (Phase::ServiceDiscovery, Event::Discovered(found)) => match found {
                None => {
                    self.phase = Phase::Disconnecting;
                    self.pending = Some(Error::DiscoveryFailed);
                    Action::Disconnect
                },
                Some(v) => match find_characteristic(&v, self.characteristic) {
                    Some(i) => {
                        self.phase = Phase::Writing;
                        self.pending = None;
                        Action::Write(i)
                    },
                    None => {
                        self.phase = Phase::Disconnecting;
                        self.pending = Some(Error::CharacteristicNotFound);
                        Action::Disconnect
                    },
                },
            },
            (Phase::Writing, Event::Written(ok)) => {
                self.phase = Phase::Settling;
                self.pending = if ok {
                    None
                } else {
                    Some(Error::WriteFailed)
                };
                Action::Settle(self.settle_ms)
            },
            (Phase::Settling, Event::Settled) => {
                self.phase = Phase::Disconnecting;
                Action::Disconnect
            },
            (Phase::Disconnecting, Event::Disconnected(ok)) => {
                let p = match self.pending {
                    Some(e) => Phase::Failed(e),
                    None => if ok {
                        Phase::Done
                    } else {
                        Phase::Failed(Error::DisconnectFailed)
                    },
                };
                self.phase = p;
                self.pending = None;
                match p {
                    Phase::Failed(e) => Action::Failed(e),
                    _ => Action::Succeeded,
                }
            },
            (Phase::Done, _) => Action::Succeeded,
            (Phase::Failed(err), _) => Action::Failed(err),
            _ => Action::Wait,
        }
    }
}

/// The state and the actions after feeding `events` in order.
pub open spec fn run(s: Sequencer, events: Seq<Event>) -> (Sequencer, Seq<Action>)
    decreases events.len(),
{
    if events.len() == 0 {
        (s, Seq::empty())
    } else {
        let (t, a) = transition(s, events[0]);
        let (u, rest) = run(t, events.drop_first());
        (u, seq![a] + rest)
    }
}

/// A transaction not yet started.
pub open spec fn fresh(characteristic: u128, settle_ms: u64) -> Sequencer {
    Sequencer { phase: Phase::Idle, pending: None, characteristic, settle_ms }
}

/// Once connected, a transaction stays connected until a disconnect has
/// been reported back, and only that can end it: no step from a connected
/// phase reports an outcome or finishes except the answer to `Disconnect`.
pub proof fn lemma_disconnect_before_finish(s: Sequencer, e: Event)
    requires
        is_connected(s.phase),
    ensures
        ({
            let (t, a) = transition(s, e);
            &&& (is_finished(t.phase) || a is Succeeded || a is Failed) ==> (s.phase
                == Phase::Disconnecting && e is Disconnected)
            &&& !is_finished(t.phase) ==> is_connected(t.phase)
        }),
{
}

/// A connection whose discovery fails is disconnected exactly once and
/// reported as `DiscoveryFailed`, whatever the disconnect itself came to.
pub proof fn lemma_discovery_failure(characteristic: u128, settle_ms: u64, disconnected: bool)
    ensures
        run(
            fresh(characteristic, settle_ms),
            seq![
                Event::Start,
                Event::Connected(true),
                Event::Discovered(None),
                Event::Disconnected(disconnected),
            ],
        ).1 == seq![
            Action::Connect,
            Action::Discover,
            Action::Disconnect,
            Action::Failed(Error::DiscoveryFailed),
        ],
{
    reveal_with_fuel(run, 5);
    let evs = seq![
        Event::Start,
        Event::Connected(true),
        Event::Discovered(None),
        Event::Disconnected(disconnected),
    ];
    assert(evs.drop_first().drop_first().drop_first().drop_first() =~= Seq::<Event>::empty());
    assert(run(
        fresh(characteristic, settle_ms),
        evs,
    ).1 =~= seq![
        Action::Connect,
        Action::Discover,
        Action::Disconnect,
        Action::Failed(Error::DiscoveryFailed),
    ]);
}

/// When the characteristic is found, the payload is written to it, and the
/// settle delay and a disconnect follow whether or not the write went out.
/// The transaction succeeds exactly when both the write and the disconnect did.
pub proof fn lemma_write_then_disconnect(
    characteristic: u128,
    settle_ms: u64,
    found: Vec<u128>,
    written: bool,
    disconnected: bool,
)
    requires
        first_index(found@, characteristic) is Some,
    ensures
        ({
            let i = first_index(found@, characteristic)->0;
            run(
                fresh(characteristic, settle_ms),
                seq![
                    Event::Start,
                    Event::Connected(true),
                    Event::Discovered(Some(found)),
                    Event::Written(written),
                    Event::Settled,
                    Event::Disconnected(disconnected),
                ],
            ).1 == seq![
                Action::Connect,
                Action::Discover,
                Action::Write(i as usize),
                Action::Settle(settle_ms),
                Action::Disconnect,
                if !written {
                    Action::Failed(Error::WriteFailed)
                } else if !disconnected {
                    Action::Failed(Error::DisconnectFailed)
                } else {
                    Action::Succeeded
                },
            ]
        }),
{
    reveal_with_fuel(run, 7);
    let evs = seq![
        Event::Start,
        Event::Connected(true),
        Event::Discovered(Some(found)),
        Event::Written(written),
        Event::Settled,
        Event::Disconnected(disconnected),
    ];
    assert(evs.drop_first().drop_first().drop_first().drop_first().drop_first().drop_first()
        =~= Seq::<Event>::empty());
    let i = first_index(found@, characteristic)->0;
    assert(run(
        fresh(characteristic, settle_ms),
        evs,
    ).1 =~= seq![
        Action::Connect,
        Action::Discover,
        Action::Write(i as usize),
        Action::Settle(settle_ms),
        Action::Disconnect,
        if !written {
            Action::Failed(Error::WriteFailed)
        } else if !disconnected {
            Action::Failed(Error::DisconnectFailed)
        } else {
            Action::Succeeded
        },
    ]);
}

} // verus!
