//! The Wi-Fi connectivity state machine: one association attempt at a time,
//! a fixed backoff after a failure or a drop, retried for the device's life.

use crate::readiness::Address;
use vstd::prelude::*;

verus! {

/// Wait before re-attempting after a failed association or a disconnect.
pub const RECONNECT_BACKOFF_MS: u64 = 5000;

#[derive(Clone, Copy, Debug, PartialEq, Eq, Structural)]
pub enum ConnectivityState {
    /// Not associated, no attempt in flight.
    Disconnected,
    /// An association attempt is in flight.
    Associating,
    /// Just associated; the network stack has not reported on an address yet.
    Associated,
    /// Associated, waiting for an address.
    AddressPending,
    /// Associated with an assigned address.
    Ready,
}

/// What the driver or the network stack reports.
#[derive(Clone, Copy, Debug, PartialEq, Eq)]
pub enum DriverEvent {
    /// The device has come up.
    Boot,
    /// The driver took the credentials and started.
    DriverStarted,
    AssociationSucceeded,
    AssociationFailed,
    /// The driver reported a disconnect.
    LinkDropped,
    /// A backoff wait is over.
    BackoffElapsed,
    AddressAssigned(Address),
    AddressLost,
}

/// What the driver task does next.
#[derive(Clone, Copy, Debug, PartialEq, Eq, Structural)]
pub enum ConnAction {
    /// Set the credentials and start the driver, then report `DriverStarted`.
    StartDriver,
    /// Begin one association attempt and report its outcome.
    Associate,
    /// Keep waiting for the attempt in flight.
    AwaitAssociation,
    /// Wait for a disconnect notification.
    WaitForDisconnect,
    /// Wait `ms` milliseconds, then report `BackoffElapsed`.
    Backoff { ms: u64 },
}

/// The link layer is up in this state.
pub open spec fn is_linked(s: ConnectivityState) -> bool {
    s == ConnectivityState::Associated || s == ConnectivityState::AddressPending || s
        == ConnectivityState::Ready
}

#[derive(Clone, Copy, Debug, PartialEq, Eq)]
pub struct Connectivity {
    pub state: ConnectivityState,
    pub driver_started: bool,
    pub address: Option<Address>,
}

impl Connectivity {
    /// An address is held exactly in `Ready`, so `Ready` means link up with an address.
    pub open spec fn wf(&self) -> bool {
        (self.state == ConnectivityState::Ready) == (self.address is Some)
    }

    /// The next action when no event calls for a specific one.
    pub open spec fn spec_decide(self) -> (Connectivity, ConnAction) {
        if is_linked(self.state) {
            (self, ConnAction::WaitForDisconnect)
        } else if self.state == ConnectivityState::Associating {
            (self, ConnAction::AwaitAssociation)
        } else if !self.driver_started {
            (self, ConnAction::StartDriver)
        } else {
            (Connectivity { state: ConnectivityState::Associating, ..self }, ConnAction::Associate)
        }
    }

    /// The transition on one event: the new machine and the action to perform.
    pub open spec fn spec_step(self, ev: DriverEvent) -> (Connectivity, ConnAction) {
        let backoff = ConnAction::Backoff { ms: RECONNECT_BACKOFF_MS };
        match ev {
            DriverEvent::DriverStarted => Connectivity { driver_started: true, ..self }.spec_decide(),
            DriverEvent::AssociationSucceeded if self.state == ConnectivityState::Associating => (
                Connectivity { state: ConnectivityState::Associated, ..self },
                ConnAction::WaitForDisconnect,
            ),
            DriverEvent::AssociationFailed if self.state == ConnectivityState::Associating => (
                Connectivity { state: ConnectivityState::Disconnected, ..self },
                backoff,
            ),
            DriverEvent::LinkDropped if is_linked(self.state) => (
                Connectivity { state: ConnectivityState::Disconnected, address: None, ..self },
                backoff,
            ),
            DriverEvent::AddressAssigned(a) if is_linked(self.state) => (
                Connectivity { state: ConnectivityState::Ready, address: Some(a), ..self },
                ConnAction::WaitForDisconnect,
            ),
            DriverEvent::AddressLost if is_linked(self.state) => (
                Connectivity { state: ConnectivityState::AddressPending, address: None, ..self },
                ConnAction::WaitForDisconnect,
            ),
            _ => self.spec_decide(),
        }
    }

    /// Powered up: not started, not associated.
    pub fn new() -> (r: Connectivity)
        ensures
            r.wf(),
            r.state == ConnectivityState::Disconnected,
            !r.driver_started,
            r.address is None,
    {
        Connectivity { state: ConnectivityState::Disconnected, driver_started: false, address: None }
    }

    fn decide(&mut self) -> (r: ConnAction)
        ensures
            (*final(self), r) == old(self).spec_decide(),
    {
        match self.state {
            ConnectivityState::Associated | ConnectivityState::AddressPending
            | ConnectivityState::Ready => ConnAction::WaitForDisconnect,
            ConnectivityState::Associating => ConnAction::AwaitAssociation,
            ConnectivityState::Disconnected => {
                if !self.driver_started {
                    ConnAction::StartDriver
                } else {
                    self.state = ConnectivityState::Associating;
                    ConnAction::Associate
                }
            },
        }
    }

    /// Takes one event and returns what to do next. An association attempt is
    /// begun only when none is in flight; failures and drops always back off
    /// before the next attempt.
    pub fn step(&mut self, ev: DriverEvent) -> (r: ConnAction)
        requires
            old(self).wf(),
        ensures
            (*final(self), r) == old(self).spec_step(ev),
            final(self).wf(),
            r == ConnAction::Associate ==> old(self).state != ConnectivityState::Associating
                && final(self).state == ConnectivityState::Associating,
            (ev == DriverEvent::AssociationFailed && old(self).state == ConnectivityState::Associating)
                ==> r == (ConnAction::Backoff { ms: RECONNECT_BACKOFF_MS }),
            (ev == DriverEvent::LinkDropped && is_linked(old(self).state)) ==> r == (ConnAction::Backoff {
                ms: RECONNECT_BACKOFF_MS,
            }),
    {
        match ev {
            DriverEvent::DriverStarted => {
                self.driver_started = true;
                self.decide()
            },
            DriverEvent::AssociationSucceeded => {
                if self.state == ConnectivityState::Associating {
                    self.state = ConnectivityState::Associated;
                    ConnAction::WaitForDisconnect
                } else {
                    self.decide()
                }
            },
            DriverEvent::AssociationFailed => {
                if self.state == ConnectivityState::Associating {
                    self.state = ConnectivityState::Disconnected;
                    ConnAction::Backoff { ms: RECONNECT_BACKOFF_MS }
                } else {
                    self.decide()
                }
            },
            DriverEvent::LinkDropped => {
                if self.link_up() {
                    self.state = ConnectivityState::Disconnected;
                    self.address = None;
                    ConnAction::Backoff { ms: RECONNECT_BACKOFF_MS }
                } else {
                    self.decide()
                }
            },
            DriverEvent::AddressAssigned(a) => {
                if self.link_up() {
                    self.state = ConnectivityState::Ready;
                    self.address = Some(a);
                    ConnAction::WaitForDisconnect
                } else {
                    self.decide()
                }
            },
            DriverEvent::AddressLost => {
                if self.link_up() {
                    self.state = ConnectivityState::AddressPending;
                    self.address = None;
                    ConnAction::WaitForDisconnect
                } else {
                    self.decide()
                }
            },
            _ => self.decide(),
        }
    }

    /// Whether the link layer is up.
    pub fn link_up(&self) -> (r: bool)
        ensures
            r == is_linked(self.state),
    {
        match self.state {
            ConnectivityState::Associated | ConnectivityState::AddressPending
            | ConnectivityState::Ready => true,
            _ => false,
        }
    }

    /// The assigned address, present only when ready.
    pub fn assigned_address(&self) -> (r: Option<Address>)
        requires
            self.wf(),
        ensures
            r == self.address,
            r is Some <==> self.state == ConnectivityState::Ready,
    {
        self.address
    }
}

} // verus!
