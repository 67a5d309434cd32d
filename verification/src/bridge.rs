//! The request router: one link carries the requests of both sides, and a
//! correlation id ties each reply to the request that it answers.

use vstd::prelude::*;
use std::collections::HashMap;
use tokio::sync::mpsc::UnboundedSender;
use tokio::sync::oneshot;
use crate::outside::{hand_over, post};
use crate::reply::Reply;
use crate::table::Table;

verus! {

broadcast use vstd::std_specs::hash::group_hash_axioms;

/// What goes over the link.
#[derive(Debug)]
pub enum Frame<M> {
    /// A request, under the correlation id that its reply will carry.
    Request { id: u64, msg: M },
    /// The reply to the request that went out under `id`.
    Reply { id: u64, reply: Reply },
}

impl<M> Frame<M> {
    /// The frame that carries the request `msg` under the correlation id `id`.
    pub fn request(id: u64, msg: M) -> (frame: Frame<M>)
        ensures
            frame == (Frame::Request { id, msg }),
    {
        Frame::Request { id, msg }
    }

    /// The frame that carries `reply` to the request that came under `id`.
    pub fn reply(id: u64, reply: Reply) -> (frame: Frame<M>)
        ensures
            frame == (Frame::<M>::Reply { id, reply }),
    {
        Frame::Reply { id, reply }
    }
}

/// Why a frame did not go out.
#[derive(Clone, Copy, Debug, PartialEq, Eq, Structural)]
pub enum BridgeError {
    /// No client is connected under the key.
    NotConnected,
    /// The client's link is closed.
    Closed,
    /// The correlation ids are used up.
    Exhausted,
}

/// A request that went out, for its sender to wait on.
#[derive(Debug)]
pub struct Sent {
    /// The correlation id that the request went out under.
    pub id: u64,
    /// Where the reply arrives.
    pub reply: oneshot::Receiver<Reply>,
}

/// What became of an inbound frame.
#[derive(Debug)]
pub enum Routed<M> {
    /// A request of the other side: to be handled, and answered under `id`.
    Handle { id: u64, msg: M },
    /// A reply that was handed to the request that waited for it; `taken`
    /// tells whether the request's sender was still waiting.
    Delivered { id: u64, taken: bool },
    /// A reply that no request waited for: it is dropped.
    Dropped { id: u64 },
}

/// The router.
#[verifier::reject_recursive_types(M)]
pub struct Bridge<M> {
    next_id: u64,
    pending: HashMap<u64, oneshot::Sender<Reply>>,
    clients: Table<UnboundedSender<Frame<M>>>,
}

/// The model of a [`Bridge`].
#[verifier::ext_equal]
#[verifier::reject_recursive_types(M)]
pub struct BridgeView<M> {
    /// The correlation id of the next request.
    pub next_id: u64,
    /// The requests that wait for their reply, by correlation id.
    pub pending: Map<u64, oneshot::Sender<Reply>>,
    /// The links of the connected clients, by client key.
    pub clients: Map<Seq<char>, UnboundedSender<Frame<M>>>,
}

impl<M> View for Bridge<M> {
    type V = BridgeView<M>;

    closed spec fn view(&self) -> BridgeView<M> {
        BridgeView { next_id: self.next_id, pending: self.pending@, clients: self.clients@ }
    }
}

/// Every request that waits went out under an id below the next one, so
/// that the next id is fresh.
pub open spec fn ids_below_next<M>(b: BridgeView<M>) -> bool {
    forall|id: u64| b.pending.contains_key(id) ==> id < b.next_id
}

/// The pending requests after a reply under `id` has come in, and whether
/// a request waited for it.
pub open spec fn after_reply(pending: Map<u64, oneshot::Sender<Reply>>, id: u64) -> (
    Map<u64, oneshot::Sender<Reply>>,
    bool,
) {
    (pending.remove(id), pending.contains_key(id))
}

/// A reply is delivered once: when a second reply comes in under the same
/// id, no request waits for it.
pub proof fn lemma_reply_is_delivered_once(pending: Map<u64, oneshot::Sender<Reply>>, id: u64)
    ensures
        !after_reply(after_reply(pending, id).0, id).1,
        after_reply(after_reply(pending, id).0, id).0 == after_reply(pending, id).0,
{
    assert(pending.remove(id).remove(id) =~= pending.remove(id));
}

impl<M> Bridge<M> {
    /// The router's invariant: the clients' table is well formed and the
    /// next correlation id is fresh.
    pub closed spec fn wf(&self) -> bool {
        &&& self.clients.wf()
        &&& ids_below_next(self@)
    }

    /// A router without clients and without pending requests.
    pub fn new() -> (bridge: Self)
        ensures
            bridge.wf(),
            bridge@ == (BridgeView::<M> { next_id: 0, pending: Map::empty(), clients: Map::empty() }),
    {
        Bridge { next_id: 0, pending: HashMap::new(), clients: Table::new() }
    }

    /// The number of requests that wait for their reply.
    pub fn pending(&self) -> (n: usize)
        ensures
            n == self@.pending.len(),
    {
        self.pending.len()
    }

    /// Whether a client is connected under `client_key`.
    pub fn is_connected(&self, client_key: &str) -> (connected: bool)
        requires
            self.wf(),
        ensures
            connected == self@.clients.contains_key(client_key@),
    {
        self.clients.contains_key(client_key)
    }

    /// Makes `sender` the link of the client `client_key`, in place of the
    /// link that the client had.
    pub fn append_client(&mut self, client_key: String, sender: UnboundedSender<Frame<M>>)
        requires
            old(self).wf(),
        ensures
            final(self).wf(),
            final(self)@ == (BridgeView {
                clients: old(self)@.clients.insert(client_key@, sender),
                ..old(self)@
            }),
    {
        self.clients.insert(client_key, sender);
        assert forall|id: u64| self@.pending.contains_key(id) implies id < self@.next_id by {
            assert(old(self)@.pending.contains_key(id));
        }
    }

    /// Forgets the link of the client `client_key`, and tells whether it
    /// had one.
    pub fn remove_client(&mut self, client_key: &str) -> (had: bool)
        requires
            old(self).wf(),
        ensures
            final(self).wf(),
            had == old(self)@.clients.contains_key(client_key@),
            final(self)@ == (BridgeView {
                clients: old(self)@.clients.remove(client_key@),
                ..old(self)@
            }),
    {
        let had = self.clients.remove(client_key).is_some();
        assert forall|id: u64| self@.pending.contains_key(id) implies id < self@.next_id by {
            assert(old(self)@.pending.contains_key(id));
        }
        had
    }

    /// Books what became of the request that was offered to a link under
    /// the next correlation id. The id is spent either way. Where the link
    /// took the frame, a slot is kept under the id for the reply, and the
    /// other end of the slot is handed back; where it did not, nothing
    /// waits and the caller is told that the link is closed.
    pub fn settle(&mut self, taken: bool) -> (out: Result<Sent, BridgeError>)
        requires
            old(self).wf(),
            old(self)@.next_id < u64::MAX,
        ensures
            final(self).wf(),
            final(self)@.next_id == old(self)@.next_id + 1,
            final(self)@.clients == old(self)@.clients,
            taken ==> {
                &&& out matches Ok(sent)
                &&& sent.id == old(self)@.next_id
                &&& !old(self)@.pending.contains_key(sent.id)
                &&& final(self)@.pending.contains_key(sent.id)
                &&& final(self)@.pending.remove(sent.id) == old(self)@.pending
            },
            !taken ==> {
                &&& out matches Err(e)
                &&& e == BridgeError::Closed
                &&& final(self)@.pending == old(self)@.pending
            },
    {
        let id = self.next_id;
        self.next_id = id + 1;
        assert forall|other: u64| self@.pending.contains_key(other) implies other
            < self@.next_id by {
            assert(old(self)@.pending.contains_key(other));
        }
        if !taken {
            return Err(BridgeError::Closed);
        }
        let (slot, reply) = oneshot::channel::<Reply>();
        self.pending.insert(id, slot);
        assert(self@.pending.remove(id) =~= old(self)@.pending);
        Ok(Sent { id, reply })
    }

    /// Sends a request to the client `client_key` under a fresh correlation
    /// id and keeps a slot for the reply. The frame that is offered to the
    /// client's link is `Frame::request` of the next id and `msg`, and what
    /// follows is what `settle` does with the link's answer: where the link
    /// does not take the frame the id is spent and nothing waits.
    pub fn send_msg(&mut self, client_key: &str, msg: M) -> (out: Result<Sent, BridgeError>)
        requires
            old(self).wf(),
        ensures
            final(self).wf(),
            final(self)@.clients == old(self)@.clients,
            match out {
                Ok(sent) => {
                    &&& old(self)@.clients.contains_key(client_key@)
                    &&& old(self)@.next_id < u64::MAX
                    &&& sent.id == old(self)@.next_id
                    &&& !old(self)@.pending.contains_key(sent.id)
                    &&& final(self)@.next_id == sent.id + 1
                    &&& final(self)@.pending.contains_key(sent.id)
                    &&& final(self)@.pending.remove(sent.id) == old(self)@.pending
                },
                Err(BridgeError::NotConnected) => {
                    &&& !old(self)@.clients.contains_key(client_key@)
                    &&& final(self)@ == old(self)@
                },
                Err(BridgeError::Exhausted) => {
                    &&& old(self)@.clients.contains_key(client_key@)
                    &&& old(self)@.next_id == u64::MAX
                    &&& final(self)@ == old(self)@
                },
                Err(BridgeError::Closed) => {
                    &&& old(self)@.clients.contains_key(client_key@)
                    &&& old(self)@.next_id < u64::MAX
                    &&& final(self)@ == (BridgeView {
                        next_id: (old(self)@.next_id + 1) as u64,
                        ..old(self)@
                    })
                },
            },
    {
        let link = match self.clients.get(client_key) {
            Some(link) => link,
            None => {
                return Err(BridgeError::NotConnected);
            },
        };
        if self.next_id == u64::MAX {
            return Err(BridgeError::Exhausted);
        }
        let taken = post(link, Frame::request(self.next_id, msg));
        self.settle(taken)
    }

    /// Gives up the slot of the request that went out under `id`, for a
    /// caller that waits no longer, and tells whether the request waited.
    pub fn forget(&mut self, id: u64) -> (waited: bool)
        requires
            old(self).wf(),
        ensures
            final(self).wf(),
            waited == after_reply(old(self)@.pending, id).1,
            final(self)@ == (BridgeView {
                pending: after_reply(old(self)@.pending, id).0,
                ..old(self)@
            }),
    {
        let waited = self.pending.remove(&id).is_some();
        assert forall|other: u64| self@.pending.contains_key(other) implies other
            < self@.next_id by {
            assert(old(self)@.pending.contains_key(other));
        }
        waited
    }

    /// Takes an inbound frame. A request is handed back to be handled. A
    /// reply goes to the request that waits under its id, which then waits
    /// no longer; a reply that nothing waits for is dropped.
    pub fn route(&mut self, frame: Frame<M>) -> (routed: Routed<M>)
        requires
            old(self).wf(),
        ensures
            final(self).wf(),
            match frame {
                Frame::Request { id, msg } => {
                    &&& routed matches Routed::Handle { id: i, msg: m }
                    &&& i == id
                    &&& m == msg
                    &&& final(self)@ == old(self)@
                },
                Frame::Reply { id, reply } => {
                    &&& final(self)@ == (BridgeView {
                        pending: after_reply(old(self)@.pending, id).0,
                        ..old(self)@
                    })
                    &&& if after_reply(old(self)@.pending, id).1 {
                        routed matches Routed::Delivered { id: i, .. } && i == id
                    } else {
                        routed matches Routed::Dropped { id: i } && i == id
                    }
                },
            },
    {
        match frame {
            Frame::Request { id, msg } => Routed::Handle { id, msg },
            Frame::Reply { id, reply } => {
                let slot = self.pending.remove(&id);
                assert forall|other: u64| self@.pending.contains_key(other) implies other
                    < self@.next_id by {
                    assert(old(self)@.pending.contains_key(other));
                }
                match slot {
                    Some(slot) => {
                        let taken = hand_over(slot, reply);
                        Routed::Delivered { id, taken }
                    },
                    None => Routed::Dropped { id },
                }
            },
        }
    }

    /// Sends the reply to the request that came in under `id` back to the
    /// client `client_key`: the frame that is offered to the client's link
    /// is `Frame::reply` of `id` and `reply`.
    pub fn answer(&self, client_key: &str, id: u64, reply: Reply) -> (out: Result<(), BridgeError>)
        requires
            self.wf(),
        ensures
            match out {
                Ok(_) => self@.clients.contains_key(client_key@),
                Err(BridgeError::NotConnected) => !self@.clients.contains_key(client_key@),
                Err(BridgeError::Closed) => self@.clients.contains_key(client_key@),
                Err(BridgeError::Exhausted) => false,
            },
    {
        match self.clients.get(client_key) {
            Some(link) => if post(link, Frame::reply(id, reply)) {
                Ok(())
            } else {
                Err(BridgeError::Closed)
            },
            None => Err(BridgeError::NotConnected),
        }
    }
}

} // verus!
