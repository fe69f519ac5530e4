//! Terminal input events, OS signals, and the messages the dispatcher
//! consumes, together with the classification of raw input reads.

use vstd::prelude::*;

verus! {

/// Modifier keys reported together with a key press.
#[derive(Clone, Copy, PartialEq, Eq, Debug)]
pub struct KeyModifiers {
    pub control: bool,
    pub shift: bool,
    pub alt: bool,
}

impl KeyModifiers {
    /// No modifier key held.
    pub open spec fn is_plain(self) -> bool {
        !self.control && !self.shift && !self.alt
    }

    /// Exactly the control key held.
    pub open spec fn is_control_only(self) -> bool {
        self.control && !self.shift && !self.alt
    }

    pub fn plain() -> (m: Self)
        ensures
            m == (KeyModifiers { control: false, shift: false, alt: false }),
    {
        KeyModifiers { control: false, shift: false, alt: false }
    }

    pub fn control_only() -> (m: Self)
        ensures
            m == (KeyModifiers { control: true, shift: false, alt: false }),
    {
        KeyModifiers { control: true, shift: false, alt: false }
    }
}

/// A key identity. Only printable characters take part in classification;
/// every other key is opaque to the session core.
#[derive(Clone, Copy, PartialEq, Eq, Debug)]
pub enum KeyCode {
    Char(char),
    Other,
}

/// One key press as read from the terminal device.
#[derive(Clone, Copy, PartialEq, Eq, Debug)]
pub struct KeyEvent {
    pub code: KeyCode,
    pub modifiers: KeyModifiers,
}

/// The kind of a mouse action. The session core only logs it.
#[derive(Clone, Copy, PartialEq, Eq, Debug)]
pub enum MouseKind {
    Press,
    Release,
    Drag,
    Moved,
    ScrollUp,
    ScrollDown,
    Other,
}

/// One mouse action as read from the terminal device.
#[derive(Clone, Copy, PartialEq, Eq, Debug)]
pub struct MouseEvent {
    pub kind: MouseKind,
    pub column: u16,
    pub row: u16,
}

/// One decoded terminal input event.
#[derive(Clone, Copy, PartialEq, Eq, Debug)]
pub enum InputEvent {
    Key(KeyEvent),
    Mouse(MouseEvent),
    Resize(u16, u16),
    Other,
}

/// The terminal device could not be read or its bytes not decoded.
#[derive(Clone, Copy, PartialEq, Eq, Debug)]
pub struct InputError;

/// Identity of a process-control signal the session reacts to.
#[derive(Clone, Copy, PartialEq, Eq, Debug)]
pub enum SignalId {
    Hangup,
    Stop,
    Continue,
    Interrupt,
}

/// A raw OS signal as delivered to the signal bridge: one of the identities
/// the session knows, or any other signal number.
#[derive(Clone, Copy, PartialEq, Eq, Debug)]
pub enum OsSignal {
    Known(SignalId),
    Other,
}

/// One message of the merged stream the dispatcher consumes.
#[derive(Clone, Copy, PartialEq, Eq, Debug)]
pub enum Msg {
    Signal(SignalId),
    Input(InputEvent),
    Quit,
}

/// How one decoded input event is classified into a message:
/// control-c and plain q request quit, control-z requests a
/// software-triggered suspend, and everything else passes through.
pub open spec fn classify_event_spec(e: InputEvent) -> Msg {
    match e {
        InputEvent::Key(k) => {
            if k.code == KeyCode::Char('c') && k.modifiers.is_control_only() {
                Msg::Quit
            } else if k.code == KeyCode::Char('q') && k.modifiers.is_plain() {
                Msg::Quit
            } else if k.code == KeyCode::Char('z') && k.modifiers.is_control_only() {
                Msg::Signal(SignalId::Stop)
            } else {
                Msg::Input(e)
            }
        },
        _ => Msg::Input(e),
    }
}

/// How one read from the input stream is classified: a decode error is a
/// fail-safe quit request, a decoded event is classified on its own.
pub open spec fn classify_read_spec(r: Result<InputEvent, InputError>) -> Msg {
    match r {
        Ok(e) => classify_event_spec(e),
        Err(_) => Msg::Quit,
    }
}

/// Classify one decoded terminal input event into a dispatcher message.
pub fn classify_event(e: InputEvent) -> (m: Msg)
    ensures
        m == classify_event_spec(e),
{
    match e {
        InputEvent::Key(k) => {
            match k.code {
                KeyCode::Char(c) => {
                    let control_only = k.modifiers.control && !k.modifiers.shift
                        && !k.modifiers.alt;
                    let plain = !k.modifiers.control && !k.modifiers.shift && !k.modifiers.alt;
                    if c == 'c' && control_only {
                        Msg::Quit
                    } else if c == 'q' && plain {
                        Msg::Quit
                    } else if c == 'z' && control_only {
                        Msg::Signal(SignalId::Stop)
                    } else {
                        Msg::Input(e)
                    }
                },
                KeyCode::Other => Msg::Input(e),
            }
        },
        _ => Msg::Input(e),
    }
}

/// Classify one read from the input stream, treating a failed read as a
/// quit request so that an unreadable terminal stops the session.
pub fn classify_read(r: Result<InputEvent, InputError>) -> (m: Msg)
    ensures
        m == classify_read_spec(r),
{
    match r {
        Ok(e) => classify_event(e),
        Err(_) => Msg::Quit,
    }
}

} // verus!
