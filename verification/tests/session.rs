use session_driver::dispatcher::{
    run_session, Dispatcher, Effect, FrameOutcome, LogEvent, LoopEvent, LoopState, TransportEvent,
};
use session_driver::events::{
    classify_event, classify_read, InputError, InputEvent, KeyCode, KeyEvent, KeyModifiers, Msg,
    SignalId,
};
use session_driver::terminal::{DeviceState, TerminalMode, TerminalModeGuard};

fn key(c: char, modifiers: KeyModifiers) -> InputEvent {
    InputEvent::Key(KeyEvent { code: KeyCode::Char(c), modifiers })
}

fn plain() -> KeyModifiers {
    KeyModifiers { control: false, shift: false, alt: false }
}

fn control() -> KeyModifiers {
    KeyModifiers { control: true, shift: false, alt: false }
}

fn logs_of(effects: &[Effect]) -> Vec<LogEvent> {
    effects
        .iter()
        .filter_map(|e| match e {
            Effect::Log(l) => Some(*l),
            _ => None,
        })
        .collect()
}

fn replay_device(effects: &[Effect]) -> DeviceState {
    let mut d = DeviceState::all_off();
    for e in effects {
        if let Effect::Device(op) = e {
            d.apply(*op);
        }
    }
    d
}

#[test]
fn input_then_quit_logs_one_input_and_terminates() {
    let events = vec![
        LoopEvent::Stream(Some(classify_event(key('a', plain())))),
        LoopEvent::Stream(Some(classify_event(key('q', plain())))),
    ];
    let out = run_session(true, &events);
    assert_eq!(out.dispatcher.state, LoopState::Terminating);
    assert_eq!(out.dispatcher.guard.mode, TerminalMode::Normal);
    let logs = logs_of(&out.effects);
    assert_eq!(logs, vec![LogEvent::Input(key('a', plain())), LogEvent::Quit]);
    assert_eq!(replay_device(&out.effects), DeviceState::all_off());
}

#[test]
fn stop_then_continue_restores_captured_mode() {
    // a running session: the terminal was claimed at startup
    let mut guard = TerminalModeGuard::new(true);
    guard.claim();
    let mut d = Dispatcher { state: LoopState::Running, guard };
    assert_eq!(d.guard.mode, TerminalMode::Captured);

    let stop_effects = d.step(LoopEvent::Stream(Some(Msg::Signal(SignalId::Stop))));
    assert_eq!(d.state, LoopState::Running);
    assert_eq!(d.guard.mode, TerminalMode::Normal);
    assert!(stop_effects.contains(&Effect::SuspendProcess));

    let cont_effects = d.step(LoopEvent::Stream(Some(Msg::Signal(SignalId::Continue))));
    assert_eq!(d.state, LoopState::Running);
    assert_eq!(d.guard.mode, TerminalMode::Captured);
    assert_eq!(d.guard.mouse_enabled, true);
    assert!(!cont_effects.contains(&Effect::SuspendProcess));
}

#[test]
fn bad_frame_good_frame_then_close() {
    let events = vec![
        LoopEvent::Transport(TransportEvent::Frame(FrameOutcome::DecodeError)),
        LoopEvent::Transport(TransportEvent::Frame(FrameOutcome::Decoded)),
        LoopEvent::Transport(TransportEvent::WaitError),
    ];
    let out = run_session(true, &events);
    let logs = logs_of(&out.effects);
    assert_eq!(logs, vec![LogEvent::FrameDecodeError, LogEvent::FrameDecoded]);
    assert_eq!(out.dispatcher.state, LoopState::Terminating);
    assert_eq!(out.dispatcher.guard.mode, TerminalMode::Normal);
}

#[test]
fn frame_decode_error_keeps_running_and_mode() {
    let mut guard = TerminalModeGuard::new(true);
    guard.claim();
    let mut d = Dispatcher { state: LoopState::Running, guard };
    let before = d;
    let effects = d.step(LoopEvent::Transport(TransportEvent::Frame(FrameOutcome::DecodeError)));
    assert_eq!(d, before);
    assert_eq!(d.state, LoopState::Running);
    assert_eq!(effects, vec![Effect::Log(LogEvent::FrameDecodeError)]);
}

#[test]
fn stream_exhaustion_terminates() {
    let mut d = Dispatcher::new(false);
    let effects = d.step(LoopEvent::Stream(None));
    assert_eq!(d.state, LoopState::Terminating);
    assert_eq!(effects, vec![Effect::Log(LogEvent::StreamClosed)]);
}

#[test]
fn every_terminate_cause_ends_with_terminal_restored() {
    let causes: Vec<Vec<LoopEvent>> = vec![
        // explicit quit key: control-c
        vec![LoopEvent::Stream(Some(classify_event(key('c', control()))))],
        // plain q
        vec![LoopEvent::Stream(Some(classify_event(key('q', plain()))))],
        // an interrupt arrives as a quit message forwarded by the bridge
        vec![LoopEvent::Stream(Some(Msg::Quit))],
        // transport closed
        vec![LoopEvent::Transport(TransportEvent::WaitError)],
        // input stream error, classified as quit
        vec![LoopEvent::Stream(Some(classify_read(Err(InputError))))],
        // both stream sources exhausted
        vec![LoopEvent::Stream(None)],
        // no event at all: the schedule runs out
        vec![],
    ];
    for events in causes {
        for mouse in [false, true] {
            let out = run_session(mouse, &events);
            assert_eq!(out.dispatcher.guard.mode, TerminalMode::Normal);
            assert_eq!(out.dispatcher.guard.mouse_enabled, mouse);
            // from any starting device state the emitted operations end all-off
            let weird = DeviceState { raw_mode: true, alternate_screen: false, mouse_capture: true };
            let mut dev = weird;
            for e in &out.effects {
                if let Effect::Device(op) = e {
                    dev.apply(*op);
                }
            }
            assert_eq!(dev, DeviceState::all_off());
        }
    }
}
