use session_driver::bridge::{bridge_decide, BridgeStep, SignalChannel};
use session_driver::events::{
    classify_event, classify_read, InputError, InputEvent, KeyCode, KeyEvent, KeyModifiers,
    MouseEvent, MouseKind, Msg, OsSignal, SignalId,
};
use session_driver::terminal::{fault_teardown_ops, DeviceOp, DeviceState, TerminalModeGuard};

fn key(c: char, control: bool, shift: bool, alt: bool) -> InputEvent {
    InputEvent::Key(KeyEvent {
        code: KeyCode::Char(c),
        modifiers: KeyModifiers { control, shift, alt },
    })
}

#[test]
fn classification_of_quit_suspend_and_passthrough_keys() {
    assert_eq!(classify_event(key('c', true, false, false)), Msg::Quit);
    assert_eq!(classify_event(key('q', false, false, false)), Msg::Quit);
    assert_eq!(
        classify_event(key('z', true, false, false)),
        Msg::Signal(SignalId::Stop)
    );
    // q with control held is not a quit request
    let q_ctrl = key('q', true, false, false);
    assert_eq!(classify_event(q_ctrl), Msg::Input(q_ctrl));
    // control-shift-c is not exactly the control modifier, so it passes through
    let csc = key('c', true, true, false);
    assert_eq!(classify_event(csc), Msg::Input(csc));
    let resize = InputEvent::Resize(80, 24);
    assert_eq!(classify_event(resize), Msg::Input(resize));
    let mouse = InputEvent::Mouse(MouseEvent { kind: MouseKind::Press, column: 3, row: 7 });
    assert_eq!(classify_event(mouse), Msg::Input(mouse));
}

#[test]
fn input_read_error_is_a_quit_request() {
    assert_eq!(classify_read(Err(InputError)), Msg::Quit);
    let resize = InputEvent::Resize(1, 1);
    assert_eq!(classify_read(Ok(resize)), Msg::Input(resize));
}

#[test]
fn bridge_forwarding_rules() {
    assert_eq!(
        bridge_decide(OsSignal::Known(SignalId::Hangup)),
        BridgeStep { send: Some(Msg::Signal(SignalId::Hangup)), keep_running: true }
    );
    assert_eq!(
        bridge_decide(OsSignal::Known(SignalId::Stop)),
        BridgeStep { send: Some(Msg::Signal(SignalId::Stop)), keep_running: true }
    );
    assert_eq!(
        bridge_decide(OsSignal::Known(SignalId::Continue)),
        BridgeStep { send: Some(Msg::Signal(SignalId::Continue)), keep_running: true }
    );
    assert_eq!(
        bridge_decide(OsSignal::Known(SignalId::Interrupt)),
        BridgeStep { send: Some(Msg::Quit), keep_running: false }
    );
    assert_eq!(
        bridge_decide(OsSignal::Other),
        BridgeStep { send: None, keep_running: false }
    );
}

#[test]
fn channel_delivers_everything_in_send_order() {
    let mut ch = SignalChannel::new();
    let sent = vec![
        Msg::Signal(SignalId::Hangup),
        Msg::Signal(SignalId::Stop),
        Msg::Signal(SignalId::Continue),
        Msg::Quit,
    ];
    for m in &sent {
        ch.send(*m);
    }
    assert_eq!(ch.len(), sent.len());
    let got = ch.drain();
    assert_eq!(got, sent);
    assert_eq!(ch.len(), 0);
}

#[test]
fn channel_try_recv_is_first_in_first_out() {
    let mut ch = SignalChannel::new();
    assert_eq!(ch.try_recv(), None);
    ch.send(Msg::Signal(SignalId::Stop));
    ch.send(Msg::Quit);
    assert_eq!(ch.try_recv(), Some(Msg::Signal(SignalId::Stop)));
    assert_eq!(ch.try_recv(), Some(Msg::Quit));
    assert_eq!(ch.try_recv(), None);
}

#[test]
fn claim_emits_mouse_capture_only_when_enabled() {
    let mut with_mouse = TerminalModeGuard::new(true);
    assert_eq!(
        with_mouse.claim(),
        vec![
            DeviceOp::EnableRawMode,
            DeviceOp::EnterAlternateScreen,
            DeviceOp::EnableMouseCapture,
        ]
    );
    let mut without_mouse = TerminalModeGuard::new(false);
    assert_eq!(
        without_mouse.claim(),
        vec![DeviceOp::EnableRawMode, DeviceOp::EnterAlternateScreen]
    );
}

#[test]
fn release_is_idempotent_and_normalizes_any_device() {
    let mut guard = TerminalModeGuard::new(true);
    guard.claim();
    let ops_once = guard.release();
    let state_once = guard;
    let ops_twice = guard.release();
    assert_eq!(guard, state_once);
    assert_eq!(ops_once, ops_twice);
    assert_eq!(
        ops_once,
        vec![
            DeviceOp::ResetCursorShape,
            DeviceOp::DisableMouseCapture,
            DeviceOp::LeaveAlternateScreen,
            DeviceOp::DisableRawMode,
        ]
    );
    // releasing normalizes the device from any state, even half-claimed
    let mut dev = DeviceState { raw_mode: true, alternate_screen: true, mouse_capture: false };
    for op in &ops_once {
        dev.apply(*op);
    }
    assert_eq!(dev, DeviceState::all_off());
    for op in &ops_twice {
        dev.apply(*op);
    }
    assert_eq!(dev, DeviceState::all_off());
}

#[test]
fn fault_teardown_leaves_device_all_off() {
    let ops = fault_teardown_ops();
    assert_eq!(
        ops,
        vec![
            DeviceOp::DisableMouseCapture,
            DeviceOp::LeaveAlternateScreen,
            DeviceOp::DisableRawMode,
        ]
    );
    let mut dev = DeviceState { raw_mode: true, alternate_screen: true, mouse_capture: true };
    for op in &ops {
        dev.apply(*op);
    }
    assert_eq!(dev, DeviceState::all_off());
}
