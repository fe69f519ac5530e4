//! Terminal-mode lifecycle: the device operations that claim and release
//! raw mode, the alternate screen and mouse capture, a model of the device
//! flags those operations toggle, and the guard that owns the transitions.

use vstd::prelude::*;

verus! {

/// The two states of the session's terminal-mode lifecycle.
#[derive(Clone, Copy, PartialEq, Eq, Debug)]
pub enum TerminalMode {
    Normal,
    Captured,
}

/// One operation on the terminal device. The session core never touches the
/// device itself: it emits these operations and an unverified driver
/// executes them in order, ignoring failures where the operation is
/// best-effort.
#[derive(Clone, Copy, PartialEq, Eq, Debug)]
pub enum DeviceOp {
    EnableRawMode,
    EnterAlternateScreen,
    EnableMouseCapture,
    ResetCursorShape,
    DisableMouseCapture,
    LeaveAlternateScreen,
    DisableRawMode,
}

/// The observable mode flags of the terminal device.
#[derive(Clone, Copy, PartialEq, Eq, Debug)]
pub struct DeviceState {
    pub raw_mode: bool,
    pub alternate_screen: bool,
    pub mouse_capture: bool,
}

impl DeviceState {
    /// The state a terminal is in before the session claims it and must be
    /// in again when the session ends: every mode flag off.
    pub open spec fn all_off_spec() -> DeviceState {
        DeviceState { raw_mode: false, alternate_screen: false, mouse_capture: false }
    }

    pub fn all_off() -> (d: DeviceState)
        ensures
            d == DeviceState::all_off_spec(),
    {
        DeviceState { raw_mode: false, alternate_screen: false, mouse_capture: false }
    }

    /// Apply one device operation to this model of the device.
    pub fn apply(&mut self, op: DeviceOp)
        ensures
            *final(self) == apply_op_spec(*old(self), op),
    {
        match op {
            DeviceOp::EnableRawMode => self.raw_mode = true,
            DeviceOp::EnterAlternateScreen => self.alternate_screen = true,
            DeviceOp::EnableMouseCapture => self.mouse_capture = true,
            DeviceOp::ResetCursorShape => (),
            DeviceOp::DisableMouseCapture => self.mouse_capture = false,
            DeviceOp::LeaveAlternateScreen => self.alternate_screen = false,
            DeviceOp::DisableRawMode => self.raw_mode = false,
        }
    }

    /// Apply a sequence of device operations in order.
    pub fn apply_all(&mut self, ops: &Vec<DeviceOp>)
        ensures
            *final(self) == apply_ops_spec(*old(self), ops@),
    {
        let ghost d0 = *self;
        proof {
            assert(ops@.skip(0) =~= ops@);
        }
        let mut i: usize = 0;
        while i < ops.len()
            invariant
                i <= ops.len(),
                apply_ops_spec(d0, ops@) == apply_ops_spec(*self, ops@.skip(i as int)),
            decreases ops.len() - i,
        {
            self.apply(ops[i]);
            proof {
                assert(ops@.skip(i as int)[0] == ops@[i as int]);
                assert(ops@.skip(i as int).drop_first() =~= ops@.skip(i as int + 1));
            }
            i = i + 1;
        }
        proof {
            assert(ops@.skip(ops@.len() as int) =~= Seq::<DeviceOp>::empty());
        }
    }
}

/// The effect of one device operation on the device's mode flags. Resetting
/// the cursor shape changes no mode flag.
pub open spec fn apply_op_spec(d: DeviceState, op: DeviceOp) -> DeviceState {
    match op {
        DeviceOp::EnableRawMode => DeviceState {
            raw_mode: true,
            alternate_screen: d.alternate_screen,
            mouse_capture: d.mouse_capture,
        },
        DeviceOp::EnterAlternateScreen => DeviceState {
            raw_mode: d.raw_mode,
            alternate_screen: true,
            mouse_capture: d.mouse_capture,
        },
        DeviceOp::EnableMouseCapture => DeviceState {
            raw_mode: d.raw_mode,
            alternate_screen: d.alternate_screen,
            mouse_capture: true,
        },
        DeviceOp::ResetCursorShape => d,
        DeviceOp::DisableMouseCapture => DeviceState {
            raw_mode: d.raw_mode,
            alternate_screen: d.alternate_screen,
            mouse_capture: false,
        },
        DeviceOp::LeaveAlternateScreen => DeviceState {
            raw_mode: d.raw_mode,
            alternate_screen: false,
            mouse_capture: d.mouse_capture,
        },
        DeviceOp::DisableRawMode => DeviceState {
            raw_mode: false,
            alternate_screen: d.alternate_screen,
            mouse_capture: d.mouse_capture,
        },
    }
}

/// The effect of a sequence of device operations, applied front to back.
pub open spec fn apply_ops_spec(d: DeviceState, ops: Seq<DeviceOp>) -> DeviceState
    decreases ops.len(),
{
    if ops.len() == 0 {
        d
    } else {
        apply_ops_spec(apply_op_spec(d, ops[0]), ops.drop_first())
    }
}

/// Applying a concatenation of operation sequences is applying one after
/// the other.
pub proof fn lemma_apply_ops_concat(d: DeviceState, a: Seq<DeviceOp>, b: Seq<DeviceOp>)
    ensures
        apply_ops_spec(d, a + b) == apply_ops_spec(apply_ops_spec(d, a), b),
    decreases a.len(),
{
    if a.len() == 0 {
        assert(a + b =~= b);
    } else {
        assert((a + b)[0] == a[0]);
        assert((a + b).drop_first() =~= a.drop_first() + b);
        lemma_apply_ops_concat(apply_op_spec(d, a[0]), a.drop_first(), b);
    }
}

/// The operations that claim the terminal: raw mode, alternate screen,
/// and — only when the mouse is enabled — mouse capture, in that order.
pub open spec fn claim_ops_spec(mouse_enabled: bool) -> Seq<DeviceOp> {
    if mouse_enabled {
        seq![DeviceOp::EnableRawMode, DeviceOp::EnterAlternateScreen, DeviceOp::EnableMouseCapture]
    } else {
        seq![DeviceOp::EnableRawMode, DeviceOp::EnterAlternateScreen]
    }
}

/// The operations that release the terminal, in a fixed order that is
/// robust to flags that were never enabled: reset the cursor shape, disable
/// mouse capture, leave the alternate screen, disable raw mode.
pub open spec fn release_ops_spec() -> Seq<DeviceOp> {
    seq![
        DeviceOp::ResetCursorShape,
        DeviceOp::DisableMouseCapture,
        DeviceOp::LeaveAlternateScreen,
        DeviceOp::DisableRawMode,
    ]
}

/// The operations the process-wide fault hook performs before the previous
/// fault reporter runs: disable mouse capture, leave the alternate screen,
/// disable raw mode, each best-effort.
pub open spec fn fault_teardown_ops_spec() -> Seq<DeviceOp> {
    seq![DeviceOp::DisableMouseCapture, DeviceOp::LeaveAlternateScreen, DeviceOp::DisableRawMode]
}

/// From any device state at all, the release sequence ends with every mode
/// flag off: releasing is safe however far a claim got.
pub proof fn lemma_release_normalizes(d: DeviceState)
    ensures
        apply_ops_spec(d, release_ops_spec()) == DeviceState::all_off_spec(),
{
    reveal_with_fuel(apply_ops_spec, 6);
    let s = release_ops_spec();
    assert(s.drop_first() =~= seq![
        DeviceOp::DisableMouseCapture,
        DeviceOp::LeaveAlternateScreen,
        DeviceOp::DisableRawMode,
    ]);
    assert(s.drop_first().drop_first() =~= seq![
        DeviceOp::LeaveAlternateScreen,
        DeviceOp::DisableRawMode,
    ]);
    assert(s.drop_first().drop_first().drop_first() =~= seq![DeviceOp::DisableRawMode]);
    assert(s.drop_first().drop_first().drop_first().drop_first()
        =~= Seq::<DeviceOp>::empty());
}

/// Releasing is idempotent at the device: a second release leaves the
/// device exactly where the first left it.
pub proof fn lemma_release_idempotent_device(d: DeviceState)
    ensures
        apply_ops_spec(apply_ops_spec(d, release_ops_spec()), release_ops_spec())
            == apply_ops_spec(d, release_ops_spec()),
{
    lemma_release_normalizes(d);
    lemma_release_normalizes(DeviceState::all_off_spec());
}

/// From any device state, the fault-hook teardown also ends with every mode
/// flag off, so a fault never leaves the terminal captured.
pub proof fn lemma_fault_teardown_normalizes(d: DeviceState)
    ensures
        apply_ops_spec(d, fault_teardown_ops_spec()) == DeviceState::all_off_spec(),
{
    reveal_with_fuel(apply_ops_spec, 5);
    let s = fault_teardown_ops_spec();
    assert(s.drop_first() =~= seq![DeviceOp::LeaveAlternateScreen, DeviceOp::DisableRawMode]);
    assert(s.drop_first().drop_first() =~= seq![DeviceOp::DisableRawMode]);
    assert(s.drop_first().drop_first().drop_first() =~= Seq::<DeviceOp>::empty());
}

/// After a full claim from the all-off state, raw mode and the alternate
/// screen are on, and mouse capture is on exactly when the mouse was
/// enabled at construction.
pub proof fn lemma_claim_captures(mouse_enabled: bool)
    ensures
        apply_ops_spec(DeviceState::all_off_spec(), claim_ops_spec(mouse_enabled))
            == (DeviceState {
                raw_mode: true,
                alternate_screen: true,
                mouse_capture: mouse_enabled,
            }),
{
    reveal_with_fuel(apply_ops_spec, 5);
    let s = claim_ops_spec(mouse_enabled);
    if mouse_enabled {
        assert(s.drop_first() =~= seq![
            DeviceOp::EnterAlternateScreen,
            DeviceOp::EnableMouseCapture,
        ]);
        assert(s.drop_first().drop_first() =~= seq![DeviceOp::EnableMouseCapture]);
        assert(s.drop_first().drop_first().drop_first() =~= Seq::<DeviceOp>::empty());
    } else {
        assert(s.drop_first() =~= seq![DeviceOp::EnterAlternateScreen]);
        assert(s.drop_first().drop_first() =~= Seq::<DeviceOp>::empty());
    }
}

/// Claims and releases the terminal's raw-input mode, alternate screen and
/// mouse-capture flag. The guard records which mode the session believes
/// the terminal is in; the operations it hands back are what the driver
/// must run against the device.
#[derive(Clone, Copy, PartialEq, Eq, Debug)]
pub struct TerminalModeGuard {
    pub mouse_enabled: bool,
    pub mode: TerminalMode,
}

impl TerminalModeGuard {
    /// A guard after a release: same mouse flag, mode back to normal.
    pub open spec fn released_spec(g: TerminalModeGuard) -> TerminalModeGuard {
        TerminalModeGuard { mouse_enabled: g.mouse_enabled, mode: TerminalMode::Normal }
    }

    /// A guard after a claim: same mouse flag, mode captured.
    pub open spec fn claimed_spec(g: TerminalModeGuard) -> TerminalModeGuard {
        TerminalModeGuard { mouse_enabled: g.mouse_enabled, mode: TerminalMode::Captured }
    }

    /// A fresh guard: the terminal starts unclaimed.
    pub fn new(mouse_enabled: bool) -> (g: TerminalModeGuard)
        ensures
            g == (TerminalModeGuard { mouse_enabled, mode: TerminalMode::Normal }),
    {
        TerminalModeGuard { mouse_enabled, mode: TerminalMode::Normal }
    }

    /// Claim the terminal: the guard enters `Captured` and hands back the
    /// claim operations for this guard's mouse flag.
    pub fn claim(&mut self) -> (ops: Vec<DeviceOp>)
        ensures
            *final(self) == TerminalModeGuard::claimed_spec(*old(self)),
            ops@ == claim_ops_spec(old(self).mouse_enabled),
    {
        self.mode = TerminalMode::Captured;
        let mut ops: Vec<DeviceOp> = Vec::new();
        ops.push(DeviceOp::EnableRawMode);
        ops.push(DeviceOp::EnterAlternateScreen);
        if self.mouse_enabled {
            ops.push(DeviceOp::EnableMouseCapture);
        }
        proof {
            assert(ops@ =~= claim_ops_spec(old(self).mouse_enabled));
        }
        ops
    }

    /// Release the terminal: the guard returns to `Normal` and hands back
    /// the fixed release sequence. Safe to call in any state, and
    /// idempotent: a second call yields the same guard state and the same
    /// operations, and the operations themselves leave the device all-off
    /// from wherever it was.
    pub fn release(&mut self) -> (ops: Vec<DeviceOp>)
        ensures
            *final(self) == TerminalModeGuard::released_spec(*old(self)),
            ops@ == release_ops_spec(),
    {
        self.mode = TerminalMode::Normal;
        let mut ops: Vec<DeviceOp> = Vec::new();
        ops.push(DeviceOp::ResetCursorShape);
        ops.push(DeviceOp::DisableMouseCapture);
        ops.push(DeviceOp::LeaveAlternateScreen);
        ops.push(DeviceOp::DisableRawMode);
        proof {
            assert(ops@ =~= release_ops_spec());
        }
        ops
    }
}

/// Releasing is idempotent at the guard: releasing a guard twice leaves
/// exactly the state one release leaves.
pub proof fn lemma_release_idempotent_guard(g: TerminalModeGuard)
    ensures
        TerminalModeGuard::released_spec(TerminalModeGuard::released_spec(g))
            == TerminalModeGuard::released_spec(g),
{
}

/// The fault-hook teardown operations, as a value the unverified fault hook
/// can execute.
pub fn fault_teardown_ops() -> (ops: Vec<DeviceOp>)
    ensures
        ops@ == fault_teardown_ops_spec(),
{
    let mut ops: Vec<DeviceOp> = Vec::new();
    ops.push(DeviceOp::DisableMouseCapture);
    ops.push(DeviceOp::LeaveAlternateScreen);
    ops.push(DeviceOp::DisableRawMode);
    proof {
        assert(ops@ =~= fault_teardown_ops_spec());
    }
    ops
}

} // verus!
