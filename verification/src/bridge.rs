//! The signal bridge: the forwarding decision made for each OS signal the
//! bridge thread receives, and a model of the unbounded single-producer,
//! single-consumer channel it sends messages through.

use vstd::prelude::*;

use crate::events::{Msg, OsSignal, SignalId};

verus! {

/// What the bridge thread does with one received signal: the message to
/// forward, if any, and whether the bridge keeps waiting for more signals.
#[derive(Clone, Copy, PartialEq, Eq, Debug)]
pub struct BridgeStep {
    pub send: Option<Msg>,
    pub keep_running: bool,
}

/// The bridge's forwarding rule: hangup, stop and continue are forwarded as
/// signal messages and the bridge keeps running; an interrupt is forwarded
/// as a quit request and ends the bridge; any other signal ends the bridge
/// without forwarding anything.
pub open spec fn bridge_decide_spec(s: OsSignal) -> BridgeStep {
    match s {
        OsSignal::Known(SignalId::Interrupt) => BridgeStep {
            send: Some(Msg::Quit),
            keep_running: false,
        },
        OsSignal::Known(id) => BridgeStep { send: Some(Msg::Signal(id)), keep_running: true },
        OsSignal::Other => BridgeStep { send: None, keep_running: false },
    }
}

/// Decide what the bridge thread does with one received OS signal.
pub fn bridge_decide(s: OsSignal) -> (r: BridgeStep)
    ensures
        r == bridge_decide_spec(s),
{
    match s {
        OsSignal::Known(SignalId::Interrupt) => BridgeStep {
            send: Some(Msg::Quit),
            keep_running: false,
        },
        OsSignal::Known(id) => BridgeStep { send: Some(Msg::Signal(id)), keep_running: true },
        OsSignal::Other => BridgeStep { send: None, keep_running: false },
    }
}

/// The bridge never forwards a bare interrupt signal message: an interrupt
/// becomes a quit request, so the dispatcher's signal handler can never see
/// `SignalId::Interrupt`.
pub proof fn lemma_bridge_never_forwards_interrupt(s: OsSignal)
    ensures
        bridge_decide_spec(s).send != Some(Msg::Signal(SignalId::Interrupt)),
{
}

/// Model of the unbounded channel from the bridge thread to the
/// dispatcher: a first-in, first-out queue that a send appends to and never
/// blocks on, and that hands messages out in exactly the order they were
/// sent.
pub struct SignalChannel {
    queue: Vec<Msg>,
}

impl View for SignalChannel {
    type V = Seq<Msg>;

    closed spec fn view(&self) -> Seq<Msg> {
        self.queue@
    }
}

impl SignalChannel {
    /// A fresh, empty channel.
    pub fn new() -> (c: SignalChannel)
        ensures
            c@ == Seq::<Msg>::empty(),
    {
        SignalChannel { queue: Vec::new() }
    }

    pub fn len(&self) -> (n: usize)
        ensures
            n == self@.len(),
    {
        self.queue.len()
    }

    /// Send one message. The channel is unbounded: a send always succeeds,
    /// appends the message after everything already pending, and loses
    /// nothing.
    pub fn send(&mut self, m: Msg)
        ensures
            final(self)@ == old(self)@.push(m),
    {
        self.queue.push(m);
    }

    /// Receive the oldest pending message, if any: messages come out in
    /// exactly the order they were sent.
    pub fn try_recv(&mut self) -> (r: Option<Msg>)
        ensures
            old(self)@.len() == 0 ==> r is None && final(self)@ == old(self)@,
            old(self)@.len() > 0 ==> r == Some(old(self)@[0]) && final(self)@ == old(
                self,
            )@.drop_first(),
    {
        if self.queue.len() == 0 {
            None
        } else {
            let m = self.queue.remove(0);
            proof {
                assert(self.queue@ =~= old(self)@.drop_first());
            }
            Some(m)
        }
    }

    /// Take every pending message at once, in order, leaving the channel
    /// empty.
    pub fn drain(&mut self) -> (v: Vec<Msg>)
        ensures
            v@ == old(self)@,
            final(self)@ == Seq::<Msg>::empty(),
    {
        let mut v: Vec<Msg> = Vec::new();
        core::mem::swap(&mut v, &mut self.queue);
        v
    }
}

/// The channel contents after the bridge sends a whole sequence of
/// messages, one send at a time.
pub open spec fn after_sends_spec(pending: Seq<Msg>, sent: Seq<Msg>) -> Seq<Msg>
    decreases sent.len(),
{
    if sent.len() == 0 {
        pending
    } else {
        after_sends_spec(pending.push(sent[0]), sent.drop_first())
    }
}

/// No message the bridge sends is ever lost or reordered: after any
/// sequence of sends, the channel holds exactly what was pending followed
/// by the sent messages in send order — which `drain` and repeated
/// `try_recv` then hand out front to back.
pub proof fn lemma_channel_loses_nothing(pending: Seq<Msg>, sent: Seq<Msg>)
    ensures
        after_sends_spec(pending, sent) == pending + sent,
    decreases sent.len(),
{
    if sent.len() == 0 {
        assert(pending + sent =~= pending);
    } else {
        lemma_channel_loses_nothing(pending.push(sent[0]), sent.drop_first());
        assert(pending.push(sent[0]) + sent.drop_first() =~= pending + sent);
    }
}

} // verus!
