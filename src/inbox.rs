//! The worker's side: it waits for the surface, then dispatches each message
//! by its kind.
use vstd::prelude::*;
use crate::envelope::{Envelope, MessageKind, Payload};
use crate::ids::{all_listed, contains_id};

verus! {

/// The worker's state.
#[derive(Clone, Copy, Debug, PartialEq, Eq, Structural)]
pub enum Phase {
    AwaitingCanvas,
    Ready,
}

/// Why a message was dropped.
#[derive(Clone, Copy, Debug, PartialEq, Eq, Structural)]
pub enum InboxError {
    /// A resource the message must carry is not on its transfer list.
    MissingTransferable,
    /// A second surface hand-off; only one is served.
    DuplicateCanvas,
}

/// What the worker must do with a message.
#[derive(Debug, PartialEq, Eq)]
pub enum Dispatch {
    /// The surface has arrived: bootstrap rendering on it.
    Bootstrap(usize),
    /// A plugin channel was created: hand its ports to the plugin subsystem.
    ChannelCreated { channel: String, ports: Vec<usize> },
    /// A request made by the worker: send it out through the relay.
    Outward(Envelope),
    /// Any other message, for the application.
    Deliver(Envelope),
    /// Kept until the surface has arrived; see [`WorkerInbox::take_deferred`].
    Deferred,
    /// Dropped; the inbox goes on with later messages.
    Dropped(InboxError),
}

/// The surface a message hands off, when it is a hand-off that carries it.
pub open spec fn handed_surface(m: Envelope) -> Option<usize> {
    match m.payload {
        Payload::Surface(s) => if m.kind == MessageKind::Canvas && m.transferables@.contains(s) {
            Some(s)
        } else {
            None
        },
        _ => None,
    }
}

/// A channel-created message whose ports are all on its transfer list.
pub open spec fn ports_present(m: Envelope) -> bool {
    match m.payload {
        Payload::Channel { ports, .. } => ports@.len() > 0 && forall|i: int|
            0 <= i < ports@.len() ==> m.transferables@.contains(#[trigger] ports@[i]),
        _ => false,
    }
}

/// The phase after receiving `m` in phase `p`.
pub open spec fn next_phase(p: Phase, m: Envelope) -> Phase {
    if p == Phase::AwaitingCanvas && handed_surface(m) is Some {
        Phase::Ready
    } else {
        p
    }
}

/// The phase after receiving each message of `ms` in order, from `p`.
pub open spec fn phase_after(p: Phase, ms: Seq<Envelope>) -> Phase
    decreases ms.len(),
{
    if ms.len() == 0 {
        p
    } else {
        phase_after(next_phase(p, ms[0]), ms.drop_first())
    }
}

/// The worker's inbox.
pub struct WorkerInbox {
    phase: Phase,
    deferred: Vec<Envelope>,
}

impl WorkerInbox {
    pub closed spec fn phase_spec(self) -> Phase {
        self.phase
    }

    /// The messages kept until the surface arrives.
    pub closed spec fn deferred_spec(self) -> Seq<Envelope> {
        self.deferred@
    }

    /// An inbox waiting for the surface.
    pub fn new() -> (r: WorkerInbox)
        ensures
            r.phase_spec() == Phase::AwaitingCanvas,
            r.deferred_spec().len() == 0,
    {
        WorkerInbox { phase: Phase::AwaitingCanvas, deferred: Vec::new() }
    }

    pub fn phase(&self) -> (r: Phase)
        ensures
            r == self.phase_spec(),
    {
        self.phase
    }

    /// Takes the messages kept while waiting for the surface, oldest first.
    pub fn take_deferred(&mut self) -> (r: Vec<Envelope>)
        ensures
            r@ == old(self).deferred_spec(),
            final(self).deferred_spec().len() == 0,
            final(self).phase_spec() == old(self).phase_spec(),
    {
        let mut taken: Vec<Envelope> = Vec::new();
        core::mem::swap(&mut self.deferred, &mut taken);
        taken
    }

    /// Receives `message` and says what to do with it. Before the surface
    /// has arrived only a hand-off carrying it counts: it moves the inbox to
    /// [`Phase::Ready`]; other kinds are kept for later. Once ready, a
    /// message is dispatched by its kind.
    pub fn receive(&mut self, message: Envelope) -> (r: Dispatch)
        ensures
            final(self).phase_spec() == next_phase(old(self).phase_spec(), message),
            (r is Bootstrap) <==> (old(self).phase_spec() == Phase::AwaitingCanvas
                && final(self).phase_spec() == Phase::Ready),
            old(self).phase_spec() == Phase::AwaitingCanvas ==> {
                &&& message.kind == MessageKind::Canvas ==> final(self).deferred_spec() == old(self).deferred_spec()
                    && match handed_surface(message) {
                        Some(s) => r == Dispatch::Bootstrap(s),
                        None => r == Dispatch::Dropped(InboxError::MissingTransferable),
                    }
                &&& message.kind != MessageKind::Canvas ==> r is Deferred
                    && final(self).deferred_spec() == old(self).deferred_spec().push(message)
            },
            old(self).phase_spec() == Phase::Ready ==> {
                &&& final(self).deferred_spec() == old(self).deferred_spec()
                &&& message.kind == MessageKind::Canvas ==> r == Dispatch::Dropped(InboxError::DuplicateCanvas)
                &&& message.kind == MessageKind::PluginChannelCreated ==> if ports_present(message) {
                    message.payload matches Payload::Channel { channel, ports }
                        && r == (Dispatch::ChannelCreated { channel, ports })
                } else {
                    r == Dispatch::Dropped(InboxError::MissingTransferable)
                }
                &&& message.kind == MessageKind::PluginChannelRequest ==> r == Dispatch::Outward(message)
                &&& message.kind == MessageKind::Other ==> r == Dispatch::Deliver(message)
            },
    {
        match self.phase {
            Phase::AwaitingCanvas => {
                if message.kind != MessageKind::Canvas {
                    self.deferred.push(message);
                    return Dispatch::Deferred;
                }
                match message.payload {
                    Payload::Surface(s) => {
                        if contains_id(&message.transferables, s) {
                            self.phase = Phase::Ready;
                            Dispatch::Bootstrap(s)
                        } else {
                            Dispatch::Dropped(InboxError::MissingTransferable)
                        }
                    },
                    _ => Dispatch::Dropped(InboxError::MissingTransferable),
                }
            },
            Phase::Ready => match message.kind {
                MessageKind::Canvas => Dispatch::Dropped(InboxError::DuplicateCanvas),
                MessageKind::PluginChannelCreated => {
                    let Envelope { kind, payload, transferables } = message;
                    match payload {
                        Payload::Channel { channel, ports } => {
                            if ports.len() > 0 && all_listed(&ports, &transferables) {
                                Dispatch::ChannelCreated { channel, ports }
                            } else {
                                Dispatch::Dropped(InboxError::MissingTransferable)
                            }
                        },
                        _ => Dispatch::Dropped(InboxError::MissingTransferable),
                    }
                },
                MessageKind::PluginChannelRequest => Dispatch::Outward(message),
                MessageKind::Other => Dispatch::Deliver(message),
            },
        }
    }
}

/// The inbox becomes ready once and only through a surface hand-off: any
/// number of messages of other kinds leave its phase as it was, and a ready
/// inbox stays ready whatever it receives.
pub proof fn only_a_canvas_makes_the_inbox_ready(p: Phase, ms: Seq<Envelope>)
    ensures
        (forall|i: int| 0 <= i < ms.len() ==> (#[trigger] ms[i]).kind != MessageKind::Canvas) ==> phase_after(
            p,
            ms,
        ) == p,
        phase_after(Phase::Ready, ms) == Phase::Ready,
    decreases ms.len(),
{
    if ms.len() > 0 {
        only_a_canvas_makes_the_inbox_ready(p, ms.drop_first());
        only_a_canvas_makes_the_inbox_ready(Phase::Ready, ms.drop_first());
        if forall|i: int| 0 <= i < ms.len() ==> (#[trigger] ms[i]).kind != MessageKind::Canvas {
            assert(ms[0].kind != MessageKind::Canvas);
            assert(next_phase(p, ms[0]) == p);
            assert forall|i: int| 0 <= i < ms.drop_first().len() implies (#[trigger] ms.drop_first()[i]).kind
                != MessageKind::Canvas by {
                assert(ms.drop_first()[i] == ms[i + 1]);
            }
        }
    }
}

} // verus!
