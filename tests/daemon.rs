use legion_led::daemon::{Daemon, DaemonAction, PowerState, LOGIN_INTERFACE, LOGIN_PATH, SLEEP_SIGNAL};
use legion_led::error::{AccessFailure, LedError};
use legion_led::register::{led_write, LED_MASK};

fn flag_message(flag: bool) -> zbus::Message {
    zbus::Message::signal(LOGIN_PATH, LOGIN_INTERFACE, SLEEP_SIGNAL)
        .unwrap()
        .build(&(flag,))
        .unwrap()
}

fn text_message(text: &str) -> zbus::Message {
    zbus::Message::signal(LOGIN_PATH, LOGIN_INTERFACE, SLEEP_SIGNAL)
        .unwrap()
        .build(&(text,))
        .unwrap()
}

#[test]
fn starts_awake_and_idle() {
    let d = Daemon::new();
    assert_eq!(d.power_state(), PowerState::Awake);
    assert!(!d.is_busy());
}

#[test]
fn events_true_false_true_drive_register_in_order() {
    let mut d = Daemon::new();
    let mut byte: u8 = 0x05;
    let mut modes = Vec::new();
    for event in [true, false, true] {
        let action = d.on_signal(Some(event));
        let m = match action {
            DaemonAction::SetLedMode(m) => m,
            DaemonAction::Report(_) => panic!("well-formed event not processed"),
        };
        assert!(d.is_busy());
        // the mutation starts from the byte the previous one left
        assert_eq!(byte & LED_MASK != 0, !m);
        if let Some(n) = led_write(byte, m) {
            byte = n;
        }
        assert_eq!(byte & LED_MASK != 0, m);
        assert_eq!(d.on_mutation_done(Ok(())), None);
        modes.push(m);
    }
    assert_eq!(modes, vec![true, false, true]);
    assert_eq!(byte, 0x45);
    assert_eq!(d.power_state(), PowerState::Asleep);
}

#[test]
fn malformed_event_does_not_block_next() {
    let mut d = Daemon::new();
    assert_eq!(d.on_signal(Some(true)), DaemonAction::SetLedMode(true));
    d.on_mutation_done(Ok(()));
    assert_eq!(d.on_signal(None), DaemonAction::Report(LedError::SignalDecodeError));
    assert!(!d.is_busy());
    assert_eq!(d.power_state(), PowerState::Asleep);
    assert_eq!(d.on_signal(Some(false)), DaemonAction::SetLedMode(false));
    assert_eq!(d.power_state(), PowerState::Awake);
}

#[test]
fn failed_mutation_keeps_daemon_listening() {
    let mut d = Daemon::new();
    assert_eq!(d.on_signal(Some(true)), DaemonAction::SetLedMode(true));
    let err = LedError::HardwareAccessError(AccessFailure::Io);
    assert_eq!(d.on_mutation_done(Err(err)), Some(err));
    assert!(!d.is_busy());
    assert_eq!(d.on_signal(Some(false)), DaemonAction::SetLedMode(false));
}

#[test]
fn bus_message_with_boolean_is_decoded() {
    let mut d = Daemon::new();
    assert_eq!(d.on_message(&flag_message(true)), DaemonAction::SetLedMode(true));
    assert_eq!(d.power_state(), PowerState::Asleep);
    d.on_mutation_done(Ok(()));
    assert_eq!(d.on_message(&flag_message(false)), DaemonAction::SetLedMode(false));
    assert_eq!(d.power_state(), PowerState::Awake);
}

#[test]
fn bus_message_without_boolean_is_reported_then_next_processed() {
    let mut d = Daemon::new();
    assert_eq!(
        d.on_message(&text_message("suspend")),
        DaemonAction::Report(LedError::SignalDecodeError)
    );
    assert_eq!(d.power_state(), PowerState::Awake);
    assert!(!d.is_busy());
    assert_eq!(d.on_message(&flag_message(true)), DaemonAction::SetLedMode(true));
    assert_eq!(d.power_state(), PowerState::Asleep);
}
