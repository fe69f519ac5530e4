//! The dispatcher: the event-loop state machine that merges terminal
//! input, forwarded signals and transport readability into one ordered
//! stream of decisions, and the whole-session run that claims the terminal
//! first and always releases it afterwards.
//!
//! The dispatcher never performs I/O. Every iteration consumes one
//! `LoopEvent` and yields `Effect`s — log entries, device operations, a
//! process suspension — that an unverified driver executes.

use vstd::prelude::*;

use crate::events::{InputEvent, Msg, SignalId};
use crate::terminal::{
    apply_ops_spec, claim_ops_spec, release_ops_spec, DeviceOp, DeviceState, TerminalMode,
    TerminalModeGuard,
};

verus! {

/// The two states of the event loop. `Terminating` is terminal: the loop
/// exits and makes no further transition.
#[derive(Clone, Copy, PartialEq, Eq, Structural, Debug)]
pub enum LoopState {
    Running,
    Terminating,
}

/// The outcome of asking the external codec for one frame: a decoded
/// message — opaque to the core, which only logs it — or a decode error.
#[derive(Clone, Copy, PartialEq, Eq, Structural, Debug)]
pub enum FrameOutcome {
    Decoded,
    DecodeError,
}

/// What the transport side of one loop iteration observed: the socket
/// became readable and one frame decode was attempted, or the readability
/// wait itself failed.
#[derive(Clone, Copy, PartialEq, Eq, Structural, Debug)]
pub enum TransportEvent {
    Frame(FrameOutcome),
    WaitError,
}

/// One event of the merged loop: either the transport arm or the next item
/// of the merged input-and-signal stream, where `Stream(None)` means both
/// sources are exhausted.
#[derive(Clone, Copy, PartialEq, Eq, Debug)]
pub enum LoopEvent {
    Transport(TransportEvent),
    Stream(Option<Msg>),
}

/// One structured log entry the session emits.
#[derive(Clone, Copy, PartialEq, Eq, Debug)]
pub enum LogEvent {
    FrameDecoded,
    FrameDecodeError,
    Input(InputEvent),
    Signal(SignalId),
    Quit,
    StreamClosed,
}

/// One instruction to the unverified driver: write a log entry, run one
/// terminal device operation, or perform the platform's default suspend so
/// the process actually stops.
#[derive(Clone, Copy, PartialEq, Eq, Debug)]
pub enum Effect {
    Log(LogEvent),
    Device(DeviceOp),
    SuspendProcess,
}

/// Device operations as effects, in order.
pub open spec fn device_effects(ops: Seq<DeviceOp>) -> Seq<Effect> {
    ops.map_values(|op: DeviceOp| Effect::Device(op))
}

/// The device operations an effect sequence asks the driver to run, in
/// order, with logs and suspensions left out.
pub open spec fn device_ops_of(effects: Seq<Effect>) -> Seq<DeviceOp>
    decreases effects.len(),
{
    if effects.len() == 0 {
        Seq::empty()
    } else {
        let rest = device_ops_of(effects.drop_first());
        match effects[0] {
            Effect::Device(op) => seq![op] + rest,
            _ => rest,
        }
    }
}

/// Extracting device operations distributes over concatenation.
pub proof fn lemma_device_ops_concat(a: Seq<Effect>, b: Seq<Effect>)
    ensures
        device_ops_of(a + b) == device_ops_of(a) + device_ops_of(b),
    decreases a.len(),
{
    if a.len() == 0 {
        assert(a + b =~= b);
        assert(device_ops_of(a) + device_ops_of(b) =~= device_ops_of(b));
    } else {
        assert((a + b)[0] == a[0]);
        assert((a + b).drop_first() =~= a.drop_first() + b);
        lemma_device_ops_concat(a.drop_first(), b);
        match a[0] {
            Effect::Device(op) => {
                assert(seq![op] + (device_ops_of(a.drop_first()) + device_ops_of(b)) =~= (seq![op]
                    + device_ops_of(a.drop_first())) + device_ops_of(b));
            },
            _ => {},
        }
    }
}

/// A sequence of pure device effects asks for exactly those operations.
pub proof fn lemma_device_ops_of_device_effects(ops: Seq<DeviceOp>)
    ensures
        device_ops_of(device_effects(ops)) == ops,
    decreases ops.len(),
{
    if ops.len() == 0 {
        assert(device_effects(ops) =~= Seq::<Effect>::empty());
    } else {
        lemma_device_ops_of_device_effects(ops.drop_first());
        assert(device_effects(ops).drop_first() =~= device_effects(ops.drop_first()));
        assert(device_effects(ops)[0] == Effect::Device(ops[0]));
        assert(seq![ops[0]] + ops.drop_first() =~= ops);
    }
}

/// Append one device effect per operation, in order.
fn push_device_effects(effects: &mut Vec<Effect>, ops: &Vec<DeviceOp>)
    ensures
        final(effects)@ == old(effects)@ + device_effects(ops@),
{
    let ghost e0 = old(effects)@;
    let mut i: usize = 0;
    while i < ops.len()
        invariant
            i <= ops@.len(),
            effects@ == e0 + device_effects(ops@.take(i as int)),
        decreases ops@.len() - i,
    {
        effects.push(Effect::Device(ops[i]));
        proof {
            assert(ops@.take(i as int + 1) =~= ops@.take(i as int).push(ops@[i as int]));
            assert(device_effects(ops@.take(i as int + 1)) =~= device_effects(
                ops@.take(i as int),
            ).push(Effect::Device(ops@[i as int])));
            assert(e0 + device_effects(ops@.take(i as int + 1)) =~= (e0 + device_effects(
                ops@.take(i as int),
            )).push(Effect::Device(ops@[i as int])));
        }
        i = i + 1;
    }
    proof {
        assert(ops@.take(ops@.len() as int) =~= ops@);
        assert(e0 + device_effects(ops@.take(0)) =~= e0);
    }
}

/// A message the merged stream can actually carry. The bridge turns an
/// interrupt into a quit request and input classification only ever emits
/// the stop signal, so a bare interrupt signal message is unreachable.
pub open spec fn msg_reachable_spec(m: Msg) -> bool {
    m != Msg::Signal(SignalId::Interrupt)
}

/// A loop event whose stream item, if any, is reachable.
pub open spec fn event_reachable_spec(ev: LoopEvent) -> bool {
    match ev {
        LoopEvent::Stream(Some(m)) => msg_reachable_spec(m),
        _ => true,
    }
}

/// The orchestrator of one session: the loop state and the terminal-mode
/// guard whose transitions only ever happen here.
#[derive(Clone, Copy, PartialEq, Eq, Debug)]
pub struct Dispatcher {
    pub state: LoopState,
    pub guard: TerminalModeGuard,
}

/// What handling one forwarded signal does to the guard and what effects
/// it emits. A stop is logged, releases the terminal and asks for the
/// platform's default suspend; a continue is logged and claims the
/// terminal back; a hangup is informational and only logged. An interrupt
/// never reaches this handler.
pub open spec fn handle_signals_spec(g: TerminalModeGuard, id: SignalId) -> (
    TerminalModeGuard,
    Seq<Effect>,
)
    recommends
        id != SignalId::Interrupt,
{
    match id {
        SignalId::Stop => (
            TerminalModeGuard::released_spec(g),
            seq![Effect::Log(LogEvent::Signal(SignalId::Stop))] + device_effects(
                release_ops_spec(),
            ) + seq![Effect::SuspendProcess],
        ),
        SignalId::Continue => (
            TerminalModeGuard::claimed_spec(g),
            seq![Effect::Log(LogEvent::Signal(SignalId::Continue))] + device_effects(
                claim_ops_spec(g.mouse_enabled),
            ),
        ),
        SignalId::Hangup => (g, seq![Effect::Log(LogEvent::Signal(SignalId::Hangup))]),
        SignalId::Interrupt => (g, Seq::empty()),
    }
}

/// One iteration of the loop: the transport arm only logs frame outcomes
/// and terminates on a failed readability wait; the stream arm logs input,
/// hands signals to the signal handler, and terminates on a quit request or
/// when both sources are exhausted.
pub open spec fn step_spec(d: Dispatcher, ev: LoopEvent) -> (Dispatcher, Seq<Effect>)
    recommends
        d.state == LoopState::Running,
        event_reachable_spec(ev),
{
    match ev {
        LoopEvent::Transport(TransportEvent::Frame(FrameOutcome::Decoded)) => (
            d,
            seq![Effect::Log(LogEvent::FrameDecoded)],
        ),
        LoopEvent::Transport(TransportEvent::Frame(FrameOutcome::DecodeError)) => (
            d,
            seq![Effect::Log(LogEvent::FrameDecodeError)],
        ),
        LoopEvent::Transport(TransportEvent::WaitError) => (
            Dispatcher { state: LoopState::Terminating, guard: d.guard },
            Seq::empty(),
        ),
        LoopEvent::Stream(Some(Msg::Input(e))) => (d, seq![Effect::Log(LogEvent::Input(e))]),
        LoopEvent::Stream(Some(Msg::Signal(id))) => (
            Dispatcher { state: d.state, guard: handle_signals_spec(d.guard, id).0 },
            handle_signals_spec(d.guard, id).1,
        ),
        LoopEvent::Stream(Some(Msg::Quit)) => (
            Dispatcher { state: LoopState::Terminating, guard: d.guard },
            seq![Effect::Log(LogEvent::Quit)],
        ),
        LoopEvent::Stream(None) => (
            Dispatcher { state: LoopState::Terminating, guard: d.guard },
            seq![Effect::Log(LogEvent::StreamClosed)],
        ),
    }
}

/// The whole loop over a schedule of events: events are consumed in order
/// until one of them terminates the loop or the schedule runs out; the
/// effects are the per-step effects in order.
pub open spec fn event_loop_spec(d: Dispatcher, events: Seq<LoopEvent>) -> (
    Dispatcher,
    Seq<Effect>,
)
    decreases events.len(),
{
    if d.state == LoopState::Terminating || events.len() == 0 {
        (d, Seq::<Effect>::empty())
    } else {
        let stepped = step_spec(d, events[0]);
        let rest = event_loop_spec(stepped.0, events.drop_first());
        (rest.0, stepped.1 + rest.1)
    }
}

impl Dispatcher {
    /// A dispatcher ready to run, before the terminal is claimed.
    pub fn new(mouse_enabled: bool) -> (d: Dispatcher)
        ensures
            d == (Dispatcher {
                state: LoopState::Running,
                guard: TerminalModeGuard { mouse_enabled, mode: TerminalMode::Normal },
            }),
    {
        Dispatcher { state: LoopState::Running, guard: TerminalModeGuard::new(mouse_enabled) }
    }

    /// Handle one forwarded signal. The loop state is untouched: a signal
    /// never terminates the session. A stop drops the terminal mode to
    /// normal and asks the driver to suspend; a continue claims it back
    /// with the mouse flag preserved; a hangup only logs.
    pub fn handle_signals(&mut self, id: SignalId) -> (effects: Vec<Effect>)
        requires
            id != SignalId::Interrupt,
        ensures
            final(self).state == old(self).state,
            final(self).guard == handle_signals_spec(old(self).guard, id).0,
            effects@ == handle_signals_spec(old(self).guard, id).1,
            final(self).guard.mouse_enabled == old(self).guard.mouse_enabled,
            id == SignalId::Stop ==> final(self).guard.mode == TerminalMode::Normal,
            id == SignalId::Continue ==> final(self).guard.mode == TerminalMode::Captured,
            id == SignalId::Hangup ==> final(self).guard == old(self).guard,
    {
        let mut effects: Vec<Effect> = Vec::new();
        match id {
            SignalId::Stop => {
                effects.push(Effect::Log(LogEvent::Signal(SignalId::Stop)));
                let ops = self.guard.release();
                push_device_effects(&mut effects, &ops);
                effects.push(Effect::SuspendProcess);
                proof {
                    assert(effects@ =~= seq![Effect::Log(LogEvent::Signal(SignalId::Stop))]
                        + device_effects(release_ops_spec()) + seq![Effect::SuspendProcess]);
                }
            },
            SignalId::Continue => {
                effects.push(Effect::Log(LogEvent::Signal(SignalId::Continue)));
                let ops = self.guard.claim();
                push_device_effects(&mut effects, &ops);
                proof {
                    assert(effects@ =~= seq![Effect::Log(LogEvent::Signal(SignalId::Continue))]
                        + device_effects(claim_ops_spec(old(self).guard.mouse_enabled)));
                }
            },
            SignalId::Hangup => {
                effects.push(Effect::Log(LogEvent::Signal(SignalId::Hangup)));
                proof {
                    assert(effects@ =~= seq![Effect::Log(LogEvent::Signal(SignalId::Hangup))]);
                }
            },
            SignalId::Interrupt => {
                proof {
                    assert(false);
                }
            },
        }
        effects
    }

    /// Handle one pass-through terminal input event: the core only logs
    /// it; nothing else changes.
    pub fn handle_terminal_events(&mut self, e: InputEvent) -> (effects: Vec<Effect>)
        ensures
            *final(self) == *old(self),
            effects@ == seq![Effect::Log(LogEvent::Input(e))],
    {
        let mut effects: Vec<Effect> = Vec::new();
        effects.push(Effect::Log(LogEvent::Input(e)));
        proof {
            assert(effects@ =~= seq![Effect::Log(LogEvent::Input(e))]);
        }
        effects
    }

    /// Consume one merged loop event and hand back the effects to execute.
    pub fn step(&mut self, ev: LoopEvent) -> (effects: Vec<Effect>)
        requires
            old(self).state == LoopState::Running,
            event_reachable_spec(ev),
        ensures
            *final(self) == step_spec(*old(self), ev).0,
            effects@ == step_spec(*old(self), ev).1,
            final(self).guard.mouse_enabled == old(self).guard.mouse_enabled,
            ev matches LoopEvent::Transport(TransportEvent::Frame(_)) ==> *final(self) == *old(
                self,
            ) && final(self).state == LoopState::Running,
    {
        match ev {
            LoopEvent::Transport(TransportEvent::Frame(FrameOutcome::Decoded)) => {
                let mut effects: Vec<Effect> = Vec::new();
                effects.push(Effect::Log(LogEvent::FrameDecoded));
                proof {
                    assert(effects@ =~= seq![Effect::Log(LogEvent::FrameDecoded)]);
                }
                effects
            },
            LoopEvent::Transport(TransportEvent::Frame(FrameOutcome::DecodeError)) => {
                let mut effects: Vec<Effect> = Vec::new();
                effects.push(Effect::Log(LogEvent::FrameDecodeError));
                proof {
                    assert(effects@ =~= seq![Effect::Log(LogEvent::FrameDecodeError)]);
                }
                effects
            },
            LoopEvent::Transport(TransportEvent::WaitError) => {
                self.state = LoopState::Terminating;
                Vec::new()
            },
            LoopEvent::Stream(Some(Msg::Input(e))) => self.handle_terminal_events(e),
            LoopEvent::Stream(Some(Msg::Signal(id))) => self.handle_signals(id),
            LoopEvent::Stream(Some(Msg::Quit)) => {
                self.state = LoopState::Terminating;
                let mut effects: Vec<Effect> = Vec::new();
                effects.push(Effect::Log(LogEvent::Quit));
                proof {
                    assert(effects@ =~= seq![Effect::Log(LogEvent::Quit)]);
                }
                effects
            },
            LoopEvent::Stream(None) => {
                self.state = LoopState::Terminating;
                let mut effects: Vec<Effect> = Vec::new();
                effects.push(Effect::Log(LogEvent::StreamClosed));
                proof {
                    assert(effects@ =~= seq![Effect::Log(LogEvent::StreamClosed)]);
                }
                effects
            },
        }
    }

    /// Run the loop over a schedule of merged events, consuming them in
    /// order until a step terminates the loop or the schedule runs out.
    pub fn event_loop(&mut self, events: &Vec<LoopEvent>) -> (effects: Vec<Effect>)
        requires
            old(self).state == LoopState::Running,
            forall|i: int|
                0 <= i < events@.len() ==> event_reachable_spec(#[trigger] events@[i]),
        ensures
            *final(self) == event_loop_spec(*old(self), events@).0,
            effects@ == event_loop_spec(*old(self), events@).1,
            final(self).guard.mouse_enabled == old(self).guard.mouse_enabled,
    {
        let ghost d0 = *self;
        let mut effects: Vec<Effect> = Vec::new();
        let mut i: usize = 0;
        let mut running = true;
        proof {
            assert(events@.skip(0) =~= events@);
            assert(effects@ + event_loop_spec(*self, events@).1 =~= event_loop_spec(
                *self,
                events@,
            ).1);
        }
        while running && i < events.len()
            invariant
                i <= events@.len(),
                running == (self.state == LoopState::Running),
                forall|j: int|
                    0 <= j < events@.len() ==> event_reachable_spec(#[trigger] events@[j]),
                self.guard.mouse_enabled == d0.guard.mouse_enabled,
                event_loop_spec(d0, events@).0 == event_loop_spec(
                    *self,
                    events@.skip(i as int),
                ).0,
                event_loop_spec(d0, events@).1 == effects@ + event_loop_spec(
                    *self,
                    events@.skip(i as int),
                ).1,
            decreases events@.len() - i,
        {
            let ghost pre = *self;
            let ghost pre_effects = effects@;
            let mut stepped = self.step(events[i]);
            effects.append(&mut stepped);
            proof {
                let tail = events@.skip(i as int);
                assert(tail[0] == events@[i as int]);
                assert(tail.drop_first() =~= events@.skip(i as int + 1));
                assert(event_loop_spec(pre, tail).0 == event_loop_spec(
                    *self,
                    events@.skip(i as int + 1),
                ).0);
                assert(event_loop_spec(pre, tail).1 == step_spec(pre, events@[i as int]).1
                    + event_loop_spec(*self, events@.skip(i as int + 1)).1);
                assert(pre_effects + (step_spec(pre, events@[i as int]).1 + event_loop_spec(
                    *self,
                    events@.skip(i as int + 1),
                ).1) =~= effects@ + event_loop_spec(*self, events@.skip(i as int + 1)).1);
            }
            i = i + 1;
            running = match self.state {
                LoopState::Running => true,
                LoopState::Terminating => false,
            };
        }
        proof {
            if self.state == LoopState::Terminating {
                assert(event_loop_spec(*self, events@.skip(i as int)).1
                    =~= Seq::<Effect>::empty());
            } else {
                assert(events@.skip(i as int) =~= Seq::<LoopEvent>::empty());
            }
            assert(effects@ + Seq::<Effect>::empty() =~= effects@);
        }
        effects
    }
}

/// The dispatcher the loop starts from once the terminal is claimed.
pub open spec fn initial_dispatcher_spec(mouse_enabled: bool) -> Dispatcher {
    Dispatcher {
        state: LoopState::Running,
        guard: TerminalModeGuard { mouse_enabled, mode: TerminalMode::Captured },
    }
}

/// Everything one whole session asks the driver to do: the claim
/// operations, then whatever the loop emits, then — on every exit path —
/// the release operations.
pub open spec fn session_effects_spec(mouse_enabled: bool, events: Seq<LoopEvent>) -> Seq<Effect> {
    device_effects(claim_ops_spec(mouse_enabled)) + event_loop_spec(
        initial_dispatcher_spec(mouse_enabled),
        events,
    ).1 + device_effects(release_ops_spec())
}

/// What a whole session leaves behind: the dispatcher as the loop and the
/// final release left it, and every effect in order.
pub struct SessionOutcome {
    pub dispatcher: Dispatcher,
    pub effects: Vec<Effect>,
}

/// One whole session over a schedule of merged events: claim the terminal,
/// run the event loop, and always release the terminal afterwards —
/// whichever cause ended the loop, the terminal mode ends `Normal`, and the
/// emitted device operations leave any device with every mode flag off.
pub fn run_session(mouse_enabled: bool, events: &Vec<LoopEvent>) -> (out: SessionOutcome)
    requires
        forall|i: int| 0 <= i < events@.len() ==> event_reachable_spec(#[trigger] events@[i]),
    ensures
        out.dispatcher.state == event_loop_spec(initial_dispatcher_spec(mouse_enabled), events@).0.state,
        out.dispatcher.guard == (TerminalModeGuard {
            mouse_enabled,
            mode: TerminalMode::Normal,
        }),
        out.effects@ == session_effects_spec(mouse_enabled, events@),
        forall|d: DeviceState|
            apply_ops_spec(d, device_ops_of(out.effects@)) == DeviceState::all_off_spec(),
{
    let mut guard = TerminalModeGuard::new(mouse_enabled);
    let claim_ops = guard.claim();
    let mut effects: Vec<Effect> = Vec::new();
    push_device_effects(&mut effects, &claim_ops);
    let mut dispatcher = Dispatcher { state: LoopState::Running, guard };
    proof {
        assert(dispatcher == initial_dispatcher_spec(mouse_enabled));
        assert(effects@ =~= device_effects(claim_ops_spec(mouse_enabled)));
    }
    let mut loop_effects = dispatcher.event_loop(events);
    effects.append(&mut loop_effects);
    let ghost prefix = effects@;
    let release_ops = dispatcher.guard.release();
    push_device_effects(&mut effects, &release_ops);
    proof {
        assert(prefix =~= device_effects(claim_ops_spec(mouse_enabled)) + event_loop_spec(
            initial_dispatcher_spec(mouse_enabled),
            events@,
        ).1);
        assert(effects@ =~= session_effects_spec(mouse_enabled, events@));
        lemma_device_ops_concat(prefix, device_effects(release_ops_spec()));
        lemma_device_ops_of_device_effects(release_ops_spec());
        assert forall|d: DeviceState|
            apply_ops_spec(d, device_ops_of(effects@)) == DeviceState::all_off_spec() by {
            crate::terminal::lemma_apply_ops_concat(
                d,
                device_ops_of(prefix),
                release_ops_spec(),
            );
            crate::terminal::lemma_release_normalizes(apply_ops_spec(d, device_ops_of(prefix)));
        }
    }
    SessionOutcome { dispatcher, effects }
}

/// For every reachable terminate cause — a quit request from the keyboard,
/// an interrupt forwarded as quit, a failed transport wait, a failed input
/// read classified as quit, or both stream sources closing — and indeed for
/// every schedule at all, the device operations of a whole session leave
/// any terminal device with raw mode, alternate screen and mouse capture
/// all off.
pub proof fn lemma_session_trace_restores_device(
    mouse_enabled: bool,
    events: Seq<LoopEvent>,
    d: DeviceState,
)
    ensures
        apply_ops_spec(d, device_ops_of(session_effects_spec(mouse_enabled, events)))
            == DeviceState::all_off_spec(),
{
    let prefix = device_effects(claim_ops_spec(mouse_enabled)) + event_loop_spec(
        initial_dispatcher_spec(mouse_enabled),
        events,
    ).1;
    assert(session_effects_spec(mouse_enabled, events) =~= prefix + device_effects(
        release_ops_spec(),
    ));
    lemma_device_ops_concat(prefix, device_effects(release_ops_spec()));
    lemma_device_ops_of_device_effects(release_ops_spec());
    crate::terminal::lemma_apply_ops_concat(d, device_ops_of(prefix), release_ops_spec());
    crate::terminal::lemma_release_normalizes(apply_ops_spec(d, device_ops_of(prefix)));
}

/// A stop signal drops the terminal mode to normal at once; a following
/// continue returns it to captured with the mouse flag preserved from
/// construction; the loop stays running through both.
pub proof fn lemma_stop_then_continue(d: Dispatcher)
    requires
        d.state == LoopState::Running,
    ensures
        step_spec(d, LoopEvent::Stream(Some(Msg::Signal(SignalId::Stop)))).0.state
            == LoopState::Running,
        step_spec(d, LoopEvent::Stream(Some(Msg::Signal(SignalId::Stop)))).0.guard.mode
            == TerminalMode::Normal,
        step_spec(
            step_spec(d, LoopEvent::Stream(Some(Msg::Signal(SignalId::Stop)))).0,
            LoopEvent::Stream(Some(Msg::Signal(SignalId::Continue))),
        ).0.state == LoopState::Running,
        step_spec(
            step_spec(d, LoopEvent::Stream(Some(Msg::Signal(SignalId::Stop)))).0,
            LoopEvent::Stream(Some(Msg::Signal(SignalId::Continue))),
        ).0.guard.mode == TerminalMode::Captured,
        step_spec(
            step_spec(d, LoopEvent::Stream(Some(Msg::Signal(SignalId::Stop)))).0,
            LoopEvent::Stream(Some(Msg::Signal(SignalId::Continue))),
        ).0.guard.mouse_enabled == d.guard.mouse_enabled,
{
}

/// Any single frame outcome — a decoded frame as much as a decode error —
/// leaves the dispatcher exactly as it was: still running, terminal mode
/// untouched, with nothing but one log entry emitted.
pub proof fn lemma_frame_outcome_harmless(d: Dispatcher, o: FrameOutcome)
    requires
        d.state == LoopState::Running,
    ensures
        step_spec(d, LoopEvent::Transport(TransportEvent::Frame(o))).0 == d,
        o == FrameOutcome::Decoded ==> step_spec(d, LoopEvent::Transport(TransportEvent::Frame(o))).1
            == seq![Effect::Log(LogEvent::FrameDecoded)],
        o == FrameOutcome::DecodeError ==> step_spec(
            d,
            LoopEvent::Transport(TransportEvent::Frame(o)),
        ).1 == seq![Effect::Log(LogEvent::FrameDecodeError)],
{
}

} // verus!
