//! The sleep/wake daemon's decisions: each power-management notification is
//! handled on its own, in order, with at most one register mutation in flight.
use vstd::prelude::*;
use crate::error::LedError;
use crate::register::{VAL_SLEEP_MODE, VAL_WAKE_MODE};

verus! {

/// Well-known name of the login manager that emits the notification.
pub const LOGIN_SERVICE: &'static str = "org.freedesktop.login1";

/// Object path the notification is emitted from.
pub const LOGIN_PATH: &'static str = "/org/freedesktop/login1";

/// Interface the notification belongs to.
pub const LOGIN_INTERFACE: &'static str = "org.freedesktop.login1.Manager";

/// Name of the notification: its one boolean is true before suspend and false
/// after resume.
pub const SLEEP_SIGNAL: &'static str = "PrepareForSleep";

#[verifier::external_type_specification]
#[verifier::external_body]
pub struct ExMessage(zbus::Message);

#[verifier::external_type_specification]
#[verifier::external_body]
pub struct ExZbusError(zbus::Error);

/// The boolean that a message's body carries, or `None` where the body is not
/// a single boolean. It depends on the message's bytes and body signature alone.
pub uninterp spec fn sleep_flag_of(msg: zbus::Message) -> Option<bool>;

/// Relies on zbus's `Message::body` and `Body::deserialize`: decodes the message
/// body as a single boolean, failing where the body's signature is not that of
/// one boolean.
#[verifier::external_body]
fn decode_sleep_flag(msg: &zbus::Message) -> (r: Result<bool, zbus::Error>)
    ensures
        (match r {
            Ok(b) => sleep_flag_of(*msg) == Some(b),
            Err(_) => sleep_flag_of(*msg) is None,
        }),
{
    msg.body().deserialize::<(bool,)>().map(|b| b.0)
}

/// The system's power state as last announced.
#[derive(Clone, Copy, Debug, PartialEq, Eq, Structural)]
pub enum PowerState {
    /// Running; breathing under normal system control.
    Awake,
    /// Suspending or asleep; breathing forcibly disabled.
    Asleep,
}

/// What the daemon asks of its caller after a notification.
#[derive(Clone, Copy, Debug, PartialEq, Eq, Structural)]
pub enum DaemonAction {
    /// Apply this mode to the register (true disables breathing), then report
    /// the outcome back.
    SetLedMode(bool),
    /// Report this error and wait for the next notification.
    Report(LedError),
}

/// The daemon's state: the power state, and whether a register mutation asked
/// for has not yet been reported back.
pub struct Daemon {
    state: PowerState,
    busy: bool,
}

/// The LED mode that belongs to a power state.
pub open spec fn mode_for(s: PowerState) -> bool {
    match s {
        PowerState::Awake => VAL_WAKE_MODE,
        PowerState::Asleep => VAL_SLEEP_MODE,
    }
}

/// The power state that a notification announces; `None` stands for a
/// notification whose payload could not be decoded.
pub open spec fn next_state(s: PowerState, payload: Option<bool>) -> PowerState {
    match payload {
        Some(true) => PowerState::Asleep,
        Some(false) => PowerState::Awake,
        None => s,
    }
}

/// The action a notification calls for.
pub open spec fn signal_action(payload: Option<bool>) -> DaemonAction {
    match payload {
        Some(true) => DaemonAction::SetLedMode(VAL_SLEEP_MODE),
        Some(false) => DaemonAction::SetLedMode(VAL_WAKE_MODE),
        None => DaemonAction::Report(LedError::SignalDecodeError),
    }
}

impl Daemon {
    pub closed spec fn state(&self) -> PowerState {
        self.state
    }

    pub closed spec fn busy(&self) -> bool {
        self.busy
    }

    /// A daemon that starts awake, with nothing in flight.
    pub fn new() -> (r: Daemon)
        ensures
            r.state() == PowerState::Awake,
            !r.busy(),
    {
        Daemon { state: PowerState::Awake, busy: false }
    }

    /// The power state as last announced.
    pub fn power_state(&self) -> (r: PowerState)
        ensures
            r == self.state(),
    {
        self.state
    }

    /// Whether a register mutation is in flight.
    pub fn is_busy(&self) -> (r: bool)
        ensures
            r == self.busy(),
    {
        self.busy
    }

    /// Handles one notification whose payload has been decoded (`Some`) or
    /// could not be (`None`): a boolean moves the state and asks for the
    /// matching mode; an undecodable payload leaves the state and asks for a
    /// report only.
    pub fn on_signal(&mut self, payload: Option<bool>) -> (r: DaemonAction)
        requires
            !old(self).busy(),
        ensures
            r == signal_action(payload),
            final(self).state() == next_state(old(self).state(), payload),
            final(self).busy() == (r is SetLedMode),
            r is SetLedMode ==> r->SetLedMode_0 == mode_for(final(self).state()),
    {
        match payload {
            Some(going_to_sleep) => {
                if going_to_sleep {
                    self.state = PowerState::Asleep;
                    self.busy = true;
                    DaemonAction::SetLedMode(VAL_SLEEP_MODE)
                } else {
                    self.state = PowerState::Awake;
                    self.busy = true;
                    DaemonAction::SetLedMode(VAL_WAKE_MODE)
                }
            },
            None => DaemonAction::Report(LedError::SignalDecodeError),
        }
    }

    /// Handles one notification as delivered by the bus: its body is decoded
    /// as one boolean, and a body that does not decode is a per-notification
    /// error that leaves the state as it was.
    pub fn on_message(&mut self, msg: &zbus::Message) -> (r: DaemonAction)
        requires
            !old(self).busy(),
        ensures
            r == signal_action(sleep_flag_of(*msg)),
            final(self).state() == next_state(old(self).state(), sleep_flag_of(*msg)),
            final(self).busy() == (r is SetLedMode),
    {
        let payload = match decode_sleep_flag(msg) {
            Ok(flag) => Some(flag),
            Err(_) => None,
        };
        self.on_signal(payload)
    }

    /// Takes back the outcome of the mutation asked for. The daemon goes on
    /// listening whatever it was; a failure is handed back to be reported.
    pub fn on_mutation_done(&mut self, outcome: Result<(), LedError>) -> (r: Option<LedError>)
        requires
            old(self).busy(),
        ensures
            !final(self).busy(),
            final(self).state() == old(self).state(),
            r == (match outcome {
                Ok(()) => None::<LedError>,
                Err(e) => Some(e),
            }),
    {
        self.busy = false;
        match outcome {
            Ok(()) => None,
            Err(e) => Some(e),
        }
    }
}

/// A notification whose payload does not decode does not stop the next one:
/// it asks only for a report, leaves the daemon idle and in its state, and a
/// well-formed notification right after it is handled exactly as it would
/// have been without it.
pub proof fn lemma_malformed_then_wellformed(s: PowerState, flag: bool)
    ensures
        signal_action(None) == DaemonAction::Report(LedError::SignalDecodeError),
        !(signal_action(None) is SetLedMode),
        next_state(s, None) == s,
        next_state(next_state(s, None), Some(flag)) == next_state(s, Some(flag)),
        signal_action(Some(flag)) == DaemonAction::SetLedMode(flag),
{
}

} // verus!
