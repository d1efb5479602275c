//! The message passing between the three contexts, and the table that says
//! which context owns each transferable resource.
//!
//! A resource is named by an identifier handed out by
//! [`Transport::create_resource`]. Posting a message moves each resource on
//! its transfer list to the receiving context at once; from then on the
//! sender can no longer use it.
use vstd::prelude::*;
use crate::envelope::Envelope;
use crate::ids::has_duplicate;

verus! {

/// One of the three execution contexts.
#[derive(Clone, Copy, Debug, PartialEq, Eq, Structural)]
pub enum Context {
    Parent,
    Window,
    Worker,
}

/// A message waiting in a context's queue, with the context that sent it.
#[derive(Debug, PartialEq, Eq)]
pub struct Posted {
    pub sender: Context,
    pub message: Envelope,
}

/// Why a post was refused. A refused post moves nothing and delivers nothing.
#[derive(Clone, Copy, Debug, PartialEq, Eq, Structural)]
pub enum PostError {
    /// Sender and receiver are the same context.
    SameContext,
    /// The receiving context has been torn down.
    TargetClosed,
    /// The transfer list names a resource twice, or one the sender does not own.
    Untransferable,
}

/// The mathematical state of a [`Transport`].
pub struct TransportView {
    /// Owner of each resource; `None` once a resource has been consumed.
    pub owners: Seq<Option<Context>>,
    pub to_parent: Seq<Posted>,
    pub to_window: Seq<Posted>,
    pub to_worker: Seq<Posted>,
    pub parent_open: bool,
    pub window_open: bool,
    pub worker_open: bool,
}

/// The owner of resource `id`, if it exists and has not been consumed.
pub open spec fn owner_of(owners: Seq<Option<Context>>, id: usize) -> Option<Context> {
    if id < owners.len() {
        owners[id as int]
    } else {
        None
    }
}

/// `ids` lists each resource once, and `from` owns each of them.
pub open spec fn can_transfer(owners: Seq<Option<Context>>, ids: Seq<usize>, from: Context) -> bool {
    &&& ids.no_duplicates()
    &&& forall|i: int| 0 <= i < ids.len() ==> owner_of(owners, #[trigger] ids[i]) == Some(from)
}

/// The owner table after each resource of `ids` has moved to `to`.
pub open spec fn moved(owners: Seq<Option<Context>>, ids: Seq<usize>, to: Context) -> Seq<
    Option<Context>,
> {
    Seq::new(owners.len(), |j: int| if ids.contains(j as usize) { Some(to) } else { owners[j] })
}

impl TransportView {
    pub open spec fn inbox(self, c: Context) -> Seq<Posted> {
        match c {
            Context::Parent => self.to_parent,
            Context::Window => self.to_window,
            Context::Worker => self.to_worker,
        }
    }

    pub open spec fn is_open(self, c: Context) -> bool {
        match c {
            Context::Parent => self.parent_open,
            Context::Window => self.window_open,
            Context::Worker => self.worker_open,
        }
    }

    pub open spec fn with_inbox(self, c: Context, q: Seq<Posted>) -> TransportView {
        match c {
            Context::Parent => TransportView { to_parent: q, ..self },
            Context::Window => TransportView { to_window: q, ..self },
            Context::Worker => TransportView { to_worker: q, ..self },
        }
    }

    /// The outcome of posting `m` from `from` to `to`.
    pub open spec fn post_result(self, m: Envelope, from: Context, to: Context) -> Result<(), PostError> {
        if from == to {
            Err(PostError::SameContext)
        } else if !self.is_open(to) {
            Err(PostError::TargetClosed)
        } else if !can_transfer(self.owners, m.transferables@, from) {
            Err(PostError::Untransferable)
        } else {
            Ok(())
        }
    }

    /// The state after a successful post of `m` from `from` to `to`: its
    /// transferables belong to `to` and it waits last in `to`'s queue.
    pub open spec fn posted(self, m: Envelope, from: Context, to: Context) -> TransportView {
        TransportView {
            owners: moved(self.owners, m.transferables@, to),
            ..self.with_inbox(to, self.inbox(to).push(Posted { sender: from, message: m }))
        }
    }
}

/// The transport that links parent, window and worker.
pub struct Transport {
    owners: Vec<Option<Context>>,
    to_parent: Vec<Posted>,
    to_window: Vec<Posted>,
    to_worker: Vec<Posted>,
    parent_open: bool,
    window_open: bool,
    worker_open: bool,
}

impl View for Transport {
    type V = TransportView;

    closed spec fn view(&self) -> TransportView {
        TransportView {
            owners: self.owners@,
            to_parent: self.to_parent@,
            to_window: self.to_window@,
            to_worker: self.to_worker@,
            parent_open: self.parent_open,
            window_open: self.window_open,
            worker_open: self.worker_open,
        }
    }
}

impl Transport {
    /// Three open contexts, no resources and no messages.
    pub fn new() -> (r: Transport)
        ensures
            r@.owners.len() == 0,
            r@.to_parent.len() == 0,
            r@.to_window.len() == 0,
            r@.to_worker.len() == 0,
            r@.parent_open && r@.window_open && r@.worker_open,
    {
        Transport {
            owners: Vec::new(),
            to_parent: Vec::new(),
            to_window: Vec::new(),
            to_worker: Vec::new(),
            parent_open: true,
            window_open: true,
            worker_open: true,
        }
    }

    /// Creates a resource owned by `owner` and returns its identifier.
    pub fn create_resource(&mut self, owner: Context) -> (id: usize)
        requires
            old(self)@.owners.len() < usize::MAX,
        ensures
            id == old(self)@.owners.len(),
            final(self)@ == (TransportView { owners: old(self)@.owners.push(Some(owner)), ..old(self)@ }),
    {
        let id = self.owners.len();
        self.owners.push(Some(owner));
        id
    }

    /// The context that owns resource `id`, if any.
    pub fn owner(&self, id: usize) -> (r: Option<Context>)
        ensures
            r == owner_of(self@.owners, id),
    {
        if id < self.owners.len() {
            self.owners[id]
        } else {
            None
        }
    }

    /// Whether context `ctx` may use resource `id` now.
    pub fn can_use(&self, id: usize, ctx: Context) -> (r: bool)
        ensures
            r == (owner_of(self@.owners, id) == Some(ctx)),
    {
        match self.owner(id) {
            Some(c) => c == ctx,
            None => false,
        }
    }

    /// Whether context `ctx` still runs.
    pub fn is_open(&self, ctx: Context) -> (r: bool)
        ensures
            r == self@.is_open(ctx),
    {
        match ctx {
            Context::Parent => self.parent_open,
            Context::Window => self.window_open,
            Context::Worker => self.worker_open,
        }
    }

    /// Tears context `ctx` down: later posts to it are refused.
    pub fn close(&mut self, ctx: Context)
        ensures
            !final(self)@.is_open(ctx),
            forall|c: Context| c != ctx ==> final(self)@.is_open(c) == old(self)@.is_open(c),
            final(self)@.owners == old(self)@.owners,
            forall|c: Context| final(self)@.inbox(c) == old(self)@.inbox(c),
    {
        match ctx {
            Context::Parent => self.parent_open = false,
            Context::Window => self.window_open = false,
            Context::Worker => self.worker_open = false,
        }
    }

    /// Number of messages waiting for `ctx`.
    pub fn pending(&self, ctx: Context) -> (r: usize)
        ensures
            r == self@.inbox(ctx).len(),
    {
        match ctx {
            Context::Parent => self.to_parent.len(),
            Context::Window => self.to_window.len(),
            Context::Worker => self.to_worker.len(),
        }
    }

    fn transfer_check(&self, ids: &Vec<usize>, from: Context) -> (r: bool)
        ensures
            r == can_transfer(self@.owners, ids@, from),
    {
        if has_duplicate(ids) {
            return false;
        }
        let mut i: usize = 0;
        while i < ids.len()
            invariant
                i <= ids@.len(),
                forall|k: int| 0 <= k < i ==> owner_of(self@.owners, #[trigger] ids@[k]) == Some(from),
            decreases ids@.len() - i,
        {
            if !self.can_use(ids[i], from) {
                return false;
            }
            i = i + 1;
        }
        true
    }

    fn move_all(&mut self, ids: &Vec<usize>, to: Context)
        requires
            forall|i: int| 0 <= i < ids@.len() ==> #[trigger] ids@[i] < old(self)@.owners.len(),
        ensures
            final(self)@ == (TransportView { owners: moved(old(self)@.owners, ids@, to), ..old(self)@ }),
    {
        let ghost start = self.owners@;
        let n = self.owners.len();
        let mut i: usize = 0;
        while i < ids.len()
            invariant
                i <= ids@.len(),
                forall|k: int| 0 <= k < ids@.len() ==> #[trigger] ids@[k] < start.len(),
                self.owners@ == moved(start, ids@.subrange(0, i as int), to),
                self.to_parent == old(self).to_parent,
                self.to_window == old(self).to_window,
                self.to_worker == old(self).to_worker,
                self.parent_open == old(self).parent_open,
                self.window_open == old(self).window_open,
                self.worker_open == old(self).worker_open,
                start == old(self)@.owners,
                start.len() == n,
            decreases ids@.len() - i,
        {
            let id = ids[i];
            assert(self.owners@.len() == start.len());
            self.owners.set(id, Some(to));
            proof {
                let done = ids@.subrange(0, i as int);
                let next = ids@.subrange(0, i + 1);
                assert forall|x: usize| #[trigger] next.contains(x) <==> done.contains(x) || x == id by {
                    if next.contains(x) {
                        let k = choose|k: int| 0 <= k < next.len() && next[k] == x;
                        if k < i {
                            assert(done[k] == x);
                        }
                    }
                    if done.contains(x) {
                        let k = choose|k: int| 0 <= k < done.len() && done[k] == x;
                        assert(next[k] == x);
                    }
                    if x == id {
                        assert(next[i as int] == id);
                    }
                }
                assert forall|j: int| 0 <= j < start.len() implies self.owners@[j] == moved(start, next, to)[j] by {
                    let x = j as usize;
                    assert(x as int == j);
                    if x != id {
                        assert(next.contains(x) == done.contains(x));
                    } else {
                        assert(next.contains(x));
                    }
                }
                assert(self.owners@ =~= moved(start, next, to));
            }
            i = i + 1;
        }
        assert(ids@.subrange(0, ids@.len() as int) =~= ids@);
    }

    /// Posts `message` from `from` to `to`. On success each resource on its
    /// transfer list now belongs to `to`, and the message waits last in
    /// `to`'s queue; on failure nothing changes.
    pub fn post(&mut self, message: Envelope, from: Context, to: Context) -> (r: Result<(), PostError>)
        ensures
            r == old(self)@.post_result(message, from, to),
            r is Ok ==> final(self)@ == old(self)@.posted(message, from, to),
            r is Err ==> final(self)@ == old(self)@,
    {
        if from == to {
            return Err(PostError::SameContext);
        }
        if !self.is_open(to) {
            return Err(PostError::TargetClosed);
        }
        if !self.transfer_check(&message.transferables, from) {
            return Err(PostError::Untransferable);
        }
        proof {
            assert forall|i: int| 0 <= i < message.transferables@.len() implies #[trigger] message.transferables@[i]
                < self@.owners.len() by {
                assert(owner_of(self@.owners, message.transferables@[i]) == Some(from));
            }
        }
        self.move_all(&message.transferables, to);
        let p = Posted { sender: from, message };
        match to {
            Context::Parent => self.to_parent.push(p),
            Context::Window => self.to_window.push(p),
            Context::Worker => self.to_worker.push(p),
        }
        Ok(())
    }

    /// Takes the oldest message waiting for `at`, if there is one.
    pub fn receive(&mut self, at: Context) -> (r: Option<Posted>)
        ensures
            old(self)@.inbox(at).len() == 0 ==> r is None && final(self)@ == old(self)@,
            old(self)@.inbox(at).len() > 0 ==> r == Some(old(self)@.inbox(at)[0]) && final(self)@
                == old(self)@.with_inbox(at, old(self)@.inbox(at).drop_first()),
    {
        match at {
            Context::Parent => {
                if self.to_parent.len() == 0 {
                    return None;
                }
                Some(self.to_parent.remove(0))
            },
            Context::Window => {
                if self.to_window.len() == 0 {
                    return None;
                }
                Some(self.to_window.remove(0))
            },
            Context::Worker => {
                if self.to_worker.len() == 0 {
                    return None;
                }
                Some(self.to_worker.remove(0))
            },
        }
    }

    /// Consumes resource `id` on behalf of `by`, which must own it: the
    /// resource is then bound for good and no context can use or move it.
    /// Returns whether the claim succeeded.
    pub fn claim(&mut self, id: usize, by: Context) -> (r: bool)
        ensures
            r == (owner_of(old(self)@.owners, id) == Some(by)),
            r ==> final(self)@ == (TransportView {
                owners: old(self)@.owners.update(id as int, None),
                ..old(self)@
            }),
            !r ==> final(self)@ == old(self)@,
    {
        if self.can_use(id, by) {
            self.owners.set(id, None);
            true
        } else {
            false
        }
    }
}


/// A consumed resource stays consumed: after `by` has claimed it, no context
/// (`by` included) can claim it again.
pub proof fn claimed_resource_cannot_be_claimed_again(
    v: TransportView,
    id: usize,
    by: Context,
    again: Context,
)
    requires
        owner_of(v.owners, id) == Some(by),
    ensures
        owner_of(v.owners.update(id as int, None), id) != Some(again),
{
}

} // verus!
