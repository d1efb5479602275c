//! The message wrapper exchanged between parent, window and worker.
use vstd::prelude::*;
use crate::ids::{all_listed, copy_ids, has_duplicate};

verus! {

/// The discriminant of a message.
#[derive(Clone, Copy, Debug, PartialEq, Eq, Structural)]
pub enum MessageKind {
    Canvas,
    PluginChannelRequest,
    PluginChannelCreated,
    Other,
}

/// What a message carries besides its transfer list.
#[derive(Debug, PartialEq, Eq)]
pub enum Payload {
    /// A reference to an offscreen surface.
    Surface(usize),
    /// A literal marker string.
    Marker(String),
    /// A newly created channel and the ports that reach it.
    Channel { channel: String, ports: Vec<usize> },
    /// Anything else: opaque bytes and the resources they refer to.
    Opaque { data: Vec<u8>, refs: Vec<usize> },
}

/// A typed message together with the resources that move with it.
#[derive(Debug, PartialEq, Eq)]
pub struct Envelope {
    pub kind: MessageKind,
    pub payload: Payload,
    pub transferables: Vec<usize>,
}

/// Why an envelope could not be built.
#[derive(Clone, Copy, Debug, PartialEq, Eq, Structural)]
pub enum EnvelopeError {
    /// A resource is listed twice for transfer.
    DuplicateTransferable,
    /// A resource listed for transfer is not reachable from the payload.
    UnreachableTransferable,
}

/// The marker that a plugin-channel request carries.
pub open spec fn plugin_channel_marker() -> Seq<char> {
    seq!['P', 'L', 'U', 'G', 'I', 'N', '_', 'C', 'H', 'A', 'N', 'N', 'E', 'L', '_', 'R', 'E', 'Q', 'U', 'E', 'S', 'T']
}

impl MessageKind {
    /// The discriminant as it is written on the wire; a generic message has
    /// none of its own.
    pub open spec fn tag_spec(self) -> Seq<char> {
        match self {
            MessageKind::Canvas => seq!['C', 'A', 'N', 'V', 'A', 'S'],
            MessageKind::PluginChannelRequest => plugin_channel_marker(),
            MessageKind::PluginChannelCreated => seq![
                'P', 'L', 'U', 'G', 'I', 'N', '_', 'C', 'H', 'A', 'N', 'N', 'E', 'L', '_', 'C', 'R', 'E', 'A', 'T', 'E', 'D'
            ],
            MessageKind::Other => seq![],
        }
    }

    /// The discriminant as it is written on the wire.
    pub fn tag(self) -> (r: &'static str)
        ensures
            r@ == self.tag_spec(),
    {
        match self {
            MessageKind::Canvas => {
                proof {
                    reveal_strlit("CANVAS");
                }
                "CANVAS"
            },
            MessageKind::PluginChannelRequest => {
                proof {
                    reveal_strlit("PLUGIN_CHANNEL_REQUEST");
                }
                "PLUGIN_CHANNEL_REQUEST"
            },
            MessageKind::PluginChannelCreated => {
                proof {
                    reveal_strlit("PLUGIN_CHANNEL_CREATED");
                }
                "PLUGIN_CHANNEL_CREATED"
            },
            MessageKind::Other => {
                proof {
                    reveal_strlit("");
                }
                ""
            },
        }
    }
}

impl Payload {
    /// The resources that can be reached from this payload.
    pub open spec fn references(self) -> Seq<usize> {
        match self {
            Payload::Surface(id) => seq![id],
            Payload::Marker(_) => seq![],
            Payload::Channel { ports, .. } => ports@,
            Payload::Opaque { refs, .. } => refs@,
        }
    }
}

impl Envelope {
    /// Each transferable is listed once and can be reached from the payload.
    pub open spec fn well_formed(self) -> bool {
        &&& self.transferables@.no_duplicates()
        &&& forall|i: int|
            0 <= i < self.transferables@.len() ==> self.payload.references().contains(
                #[trigger] self.transferables@[i],
            )
    }

    /// Builds an envelope, refusing a transfer list that breaks
    /// [`Envelope::well_formed`].
    pub fn new(kind: MessageKind, payload: Payload, transferables: Vec<usize>) -> (r: Result<
        Envelope,
        EnvelopeError,
    >)
        ensures
            !transferables@.no_duplicates() ==> r == Err::<Envelope, _>(
                EnvelopeError::DuplicateTransferable,
            ),
            transferables@.no_duplicates() && !(Envelope { kind, payload, transferables }).well_formed()
                ==> r == Err::<Envelope, _>(EnvelopeError::UnreachableTransferable),
            (Envelope { kind, payload, transferables }).well_formed() ==> r == Ok::<_, EnvelopeError>(
                Envelope { kind, payload, transferables },
            ),
    {
        if has_duplicate(&transferables) {
            return Err(EnvelopeError::DuplicateTransferable);
        }
        let reachable = match &payload {
            Payload::Surface(id) => {
                let mut one: Vec<usize> = Vec::new();
                one.push(*id);
                all_listed(&transferables, &one)
            },
            Payload::Marker(_) => transferables.len() == 0,
            Payload::Channel { ports, .. } => all_listed(&transferables, ports),
            Payload::Opaque { refs, .. } => all_listed(&transferables, refs),
        };
        proof {
            let e = Envelope { kind, payload, transferables };
            if let Payload::Surface(id) = payload {
                assert(e.payload.references() =~= seq![id]);
            }
            if !reachable {
                if let Payload::Marker(_) = payload {
                    assert(e.transferables@.len() > 0);
                    assert(!e.payload.references().contains(e.transferables@[0]));
                }
            }
        }
        if reachable {
            Ok(Envelope { kind, payload, transferables })
        } else {
            Err(EnvelopeError::UnreachableTransferable)
        }
    }

    /// The hand-off of an offscreen surface: the surface is the payload and
    /// the only transferable.
    pub fn canvas(surface: usize) -> (r: Envelope)
        ensures
            r.kind == MessageKind::Canvas,
            r.payload == Payload::Surface(surface),
            r.transferables@ == seq![surface],
            r.well_formed(),
    {
        let mut transferables: Vec<usize> = Vec::new();
        transferables.push(surface);
        let r = Envelope { kind: MessageKind::Canvas, payload: Payload::Surface(surface), transferables };
        assert(r.payload.references().contains(r.transferables@[0]));
        r
    }

    /// A request, from the worker, for a plugin channel: a marker and no
    /// transferables.
    pub fn plugin_channel_request() -> (r: Envelope)
        ensures
            r.kind == MessageKind::PluginChannelRequest,
            r.payload matches Payload::Marker(m) && m@ == plugin_channel_marker(),
            r.transferables@.len() == 0,
            r.well_formed(),
    {
        let marker = MessageKind::PluginChannelRequest.tag().to_owned();
        Envelope {
            kind: MessageKind::PluginChannelRequest,
            payload: Payload::Marker(marker),
            transferables: Vec::new(),
        }
    }

    /// The answer to a plugin-channel request: the channel's identifier and
    /// its ports, each port moving with the message.
    pub fn plugin_channel_created(channel: String, ports: Vec<usize>) -> (r: Result<
        Envelope,
        EnvelopeError,
    >)
        ensures
            ports@.no_duplicates() <==> r is Ok,
            !ports@.no_duplicates() ==> r == Err::<Envelope, _>(EnvelopeError::DuplicateTransferable),
            r matches Ok(e) ==> {
                &&& e.kind == MessageKind::PluginChannelCreated
                &&& e.payload == (Payload::Channel { channel, ports })
                &&& e.transferables@ == ports@
                &&& e.well_formed()
            },
    {
        if has_duplicate(&ports) {
            return Err(EnvelopeError::DuplicateTransferable);
        }
        let transferables = copy_ids(&ports);
        let r = Envelope {
            kind: MessageKind::PluginChannelCreated,
            payload: Payload::Channel { channel, ports },
            transferables,
        };
        assert forall|i: int| 0 <= i < r.transferables@.len() implies r.payload.references().contains(
            #[trigger] r.transferables@[i],
        ) by {
            assert(r.payload.references()[i] == r.transferables@[i]);
        }
        Ok(r)
    }
}

} // verus!
