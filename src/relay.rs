//! The relay that runs in the window: what comes from the parent goes to the
//! worker, what comes from the worker goes to the parent, each message as it
//! was received and with its transferables moved along.
use vstd::prelude::*;
use crate::envelope::Envelope;
use crate::transport::{can_transfer, Context, PostError, Posted, Transport, TransportView};

verus! {

/// A context whose messages the relay forwards.
#[derive(Clone, Copy, Debug, PartialEq, Eq, Structural)]
pub enum Side {
    Parent,
    Worker,
}

impl Side {
    pub open spec fn context(self) -> Context {
        match self {
            Side::Parent => Context::Parent,
            Side::Worker => Context::Worker,
        }
    }

    /// Where a message from this side is sent.
    pub open spec fn target(self) -> Context {
        match self {
            Side::Parent => Context::Worker,
            Side::Worker => Context::Parent,
        }
    }
}

/// The context a message from `source` is forwarded to.
pub fn route(source: Side) -> (r: Context)
    ensures
        r == source.target(),
{
    match source {
        Side::Parent => Context::Worker,
        Side::Worker => Context::Parent,
    }
}

/// Whether a forward to `target` of a message with `transferables`
/// resources is posted with a transfer list. The worker always gets one; the
/// parent gets one only when something moves, and a plain post otherwise.
pub fn posts_with_transfer(target: Context, transferables: usize) -> (r: bool)
    ensures
        r == (target == Context::Worker || transferables > 0),
{
    match target {
        Context::Worker => true,
        _ => transferables > 0,
    }
}

/// The side that `sender` stands for, if the relay serves it.
pub fn side_of(sender: Context) -> (r: Option<Side>)
    ensures
        sender == Context::Parent ==> r == Some(Side::Parent),
        sender == Context::Worker ==> r == Some(Side::Worker),
        sender == Context::Window ==> r is None,
{
    match sender {
        Context::Parent => Some(Side::Parent),
        Context::Worker => Some(Side::Worker),
        Context::Window => None,
    }
}

/// Why a message was not forwarded. The message is then dropped; the relay
/// keeps serving later ones.
#[derive(Clone, Copy, Debug, PartialEq, Eq, Structural)]
pub enum RelayError {
    /// The relay has not been started, or has been stopped.
    NotRunning,
    /// The message came from a context the relay does not serve.
    UnknownSource,
    /// The outbound post was refused.
    ForwardFailed(PostError),
}

/// The outcome of forwarding `m` from `source`.
pub open spec fn forward_result(running: bool, v: TransportView, m: Envelope, source: Side) -> Result<
    Context,
    RelayError,
> {
    if !running {
        Err(RelayError::NotRunning)
    } else {
        match v.post_result(m, Context::Window, source.target()) {
            Ok(_) => Ok(source.target()),
            Err(e) => Err(RelayError::ForwardFailed(e)),
        }
    }
}

/// The transport after forwarding `m` from `source`.
pub open spec fn forward_state(running: bool, v: TransportView, m: Envelope, source: Side) -> TransportView {
    if forward_result(running, v, m, source) is Ok {
        v.posted(m, Context::Window, source.target())
    } else {
        v
    }
}

/// The transport after forwarding each message of `ms` from `source`, in order.
pub open spec fn forward_each(running: bool, v: TransportView, ms: Seq<Envelope>, source: Side) -> TransportView
    decreases ms.len(),
{
    if ms.len() == 0 {
        v
    } else {
        forward_each(running, forward_state(running, v, ms[0], source), ms.drop_first(), source)
    }
}

/// The window-side relay between parent and worker.
pub struct ContextRelay {
    running: bool,
}

impl ContextRelay {
    pub closed spec fn running(self) -> bool {
        self.running
    }

    /// A relay that is not yet listening.
    pub fn new() -> (r: ContextRelay)
        ensures
            !r.running(),
    {
        ContextRelay { running: false }
    }

    /// Starts listening.
    pub fn start(&mut self)
        ensures
            final(self).running(),
    {
        self.running = true;
    }

    /// Stops listening: later messages are not forwarded.
    pub fn stop(&mut self)
        ensures
            !final(self).running(),
    {
        self.running = false;
    }

    pub fn is_running(&self) -> (r: bool)
        ensures
            r == self.running(),
    {
        self.running
    }

    /// Forwards `message`, received in the window from `source`, to the
    /// other side, moving its transferables there. Returns the context it
    /// went to. A failed forward changes nothing and leaves the relay as it
    /// was.
    pub fn forward(&self, message: Envelope, source: Side, transport: &mut Transport) -> (r: Result<
        Context,
        RelayError,
    >)
        ensures
            r == forward_result(self.running(), old(transport)@, message, source),
            final(transport)@ == forward_state(self.running(), old(transport)@, message, source),
    {
        if !self.running {
            return Err(RelayError::NotRunning);
        }
        let target = route(source);
        match transport.post(message, Context::Window, target) {
            Ok(()) => Ok(target),
            Err(e) => Err(RelayError::ForwardFailed(e)),
        }
    }

    /// Takes the oldest message waiting in the window and forwards it.
    /// Returns `None` when none waits.
    pub fn relay_next(&self, transport: &mut Transport) -> (r: Option<Result<Context, RelayError>>)
        ensures
            old(transport)@.to_window.len() == 0 ==> r is None && final(transport)@ == old(transport)@,
            old(transport)@.to_window.len() > 0 ==> {
                let p = old(transport)@.to_window[0];
                let rest = TransportView { to_window: old(transport)@.to_window.drop_first(), ..old(transport)@ };
                &&& p.sender == Context::Window ==> r == Some(Err::<Context, _>(RelayError::UnknownSource))
                    && final(transport)@ == rest
                &&& p.sender == Context::Parent ==> r == Some(forward_result(self.running(), rest, p.message, Side::Parent))
                    && final(transport)@ == forward_state(self.running(), rest, p.message, Side::Parent)
                &&& p.sender == Context::Worker ==> r == Some(forward_result(self.running(), rest, p.message, Side::Worker))
                    && final(transport)@ == forward_state(self.running(), rest, p.message, Side::Worker)
            },
    {
        match transport.receive(Context::Window) {
            None => None,
            Some(p) => {
                let Posted { sender, message } = p;
                match side_of(sender) {
                    Some(side) => Some(self.forward(message, side, transport)),
                    None => Some(Err(RelayError::UnknownSource)),
                }
            },
        }
    }
}

/// Messages from one side reach the other side in the order they were
/// received: forwarding `ms` from `source`, while the relay runs and the
/// target is open, appends exactly `ms`, in order, to the target's queue, and
/// touches no other queue. It holds whatever the transfer lists are (an empty
/// one among full ones included) as long as the window owns what each lists
/// and no resource is listed by two messages.
pub proof fn forwarding_keeps_source_order(v: TransportView, ms: Seq<Envelope>, source: Side)
    requires
        v.is_open(source.target()),
        forall|i: int| 0 <= i < ms.len() ==> can_transfer(v.owners, #[trigger] ms[i].transferables@, Context::Window),
        forall|i: int, j: int, k: int, l: int|
            0 <= i < j < ms.len() && 0 <= k < ms[i].transferables@.len() && 0 <= l < ms[j].transferables@.len()
                ==> #[trigger] ms[i].transferables@[k] != #[trigger] ms[j].transferables@[l],
    ensures
        forward_each(true, v, ms, source).inbox(source.target()) == v.inbox(source.target()) + ms.map_values(
            |m: Envelope| Posted { sender: Context::Window, message: m },
        ),
        forall|c: Context| c != source.target() ==> forward_each(true, v, ms, source).inbox(c) == v.inbox(c),
    decreases ms.len(),
{
    let t = source.target();
    let f = |m: Envelope| Posted { sender: Context::Window, message: m };
    if ms.len() == 0 {
        assert(ms.map_values(f) =~= Seq::<Posted>::empty());
        assert(v.inbox(t) + ms.map_values(f) =~= v.inbox(t));
    } else {
        let m0 = ms[0];
        assert(can_transfer(v.owners, ms[0].transferables@, Context::Window));
        let v1 = forward_state(true, v, m0, source);
        assert(v1 == v.posted(m0, Context::Window, t));
        let rest = ms.drop_first();
        assert forall|i: int| 0 <= i < rest.len() implies can_transfer(
            v1.owners,
            #[trigger] rest[i].transferables@,
            Context::Window,
        ) by {
            assert(rest[i] == ms[i + 1]);
            assert(can_transfer(v.owners, ms[i + 1].transferables@, Context::Window));
            assert forall|k: int| 0 <= k < rest[i].transferables@.len() implies crate::transport::owner_of(
                v1.owners,
                #[trigger] rest[i].transferables@[k],
            ) == Some(Context::Window) by {
                let id = rest[i].transferables@[k];
                assert(ms[i + 1].transferables@[k] == id);
                assert(!m0.transferables@.contains(id)) by {
                    if m0.transferables@.contains(id) {
                        let l = choose|l: int| 0 <= l < m0.transferables@.len() && m0.transferables@[l] == id;
                        assert(ms[0].transferables@[l] != ms[i + 1].transferables@[k]);
                    }
                }
                assert(crate::transport::owner_of(v.owners, ms[i + 1].transferables@[k]) == Some(Context::Window));
            }
        }
        assert forall|i: int, j: int, k: int, l: int|
            0 <= i < j < rest.len() && 0 <= k < rest[i].transferables@.len() && 0 <= l < rest[j].transferables@.len()
                implies #[trigger] rest[i].transferables@[k] != #[trigger] rest[j].transferables@[l] by {
            assert(rest[i] == ms[i + 1]);
            assert(rest[j] == ms[j + 1]);
            assert(ms[i + 1].transferables@[k] != ms[j + 1].transferables@[l]);
        }
        assert(v1.is_open(t));
        forwarding_keeps_source_order(v1, rest, source);
        assert(v1.inbox(t) == v.inbox(t).push(f(m0)));
        assert(ms.map_values(f) =~= seq![f(m0)] + rest.map_values(f));
        assert(v.inbox(t) + ms.map_values(f) =~= v1.inbox(t) + rest.map_values(f));
        assert forall|c: Context| c != t implies v1.inbox(c) == v.inbox(c) by {}
    }
}


/// Once a message has been forwarded, the window can no longer use any
/// resource that moved with it: each one belongs to the target alone.
pub proof fn forwarded_resources_leave_the_window(running: bool, v: TransportView, m: Envelope, source: Side)
    requires
        forward_result(running, v, m, source) is Ok,
    ensures
        forall|k: int|
            0 <= k < m.transferables@.len() ==> {
                &&& crate::transport::owner_of(forward_state(running, v, m, source).owners, #[trigger] m.transferables@[k])
                    == Some(source.target())
                &&& crate::transport::owner_of(forward_state(running, v, m, source).owners, m.transferables@[k])
                    != Some(Context::Window)
            },
{
    assert forall|k: int| 0 <= k < m.transferables@.len() implies crate::transport::owner_of(
        forward_state(running, v, m, source).owners,
        #[trigger] m.transferables@[k],
    ) == Some(source.target()) by {
        let id = m.transferables@[k];
        assert(m.transferables@.contains(id));
        assert(crate::transport::owner_of(v.owners, id) == Some(Context::Window));
    }
}

} // verus!
