//! The signaling relay: a registry of connected peers and the rule that
//! routes a message from one of them to the others.
//!
//! The relay gives every connection an identity of its own making, stamps
//! every message with the identity of the connection it came in on, and
//! delivers it to the peer it addresses, or to every other peer if it
//! addresses none. A message to a peer that is not connected goes nowhere.
//!
//! The registry keeps, for each peer, a delivery handle of the caller's
//! choosing. Routing names the recipients; the caller looks their handles up
//! and does the sending.

use vstd::prelude::*;
use crate::signaling::{identity_message, SignalingMessage, SignalingMessageView};
use crate::signaling_connection::{Incoming, IncomingView};

verus! {

/// Taken on trust of `uuid::Uuid::new_v4` formatted by `to_string`: it gives
/// a random identifier in the hyphenated form, which is 36 characters long.
/// Nothing else is promised of it. The call draws from the operating
/// system's random source.
#[verifier::external_body]
fn fresh_peer_id() -> (id: String)
    ensures
        id@.len() == 36,
{
    uuid::Uuid::new_v4().to_string()
}

/// One registry entry: a peer's identity and the handle that delivers to it.
pub struct Peer<H> {
    id: String,
    handle: H,
}

/// One message on its way to one peer.
#[derive(Debug)]
pub struct Delivery {
    pub recipient: String,
    pub message: SignalingMessage,
}

/// A delivery as a value of characters.
pub struct DeliveryView {
    pub recipient: Seq<char>,
    pub message: SignalingMessageView,
}

impl View for Delivery {
    type V = DeliveryView;

    open spec fn view(&self) -> DeliveryView {
        DeliveryView { recipient: self.recipient@, message: self.message@ }
    }
}

/// The deliveries of `s`, each as a value of characters.
pub open spec fn delivery_views(s: Seq<Delivery>) -> Seq<DeliveryView> {
    s.map_values(|d: Delivery| d@)
}

/// The recipients of `s`, in order.
pub open spec fn recipients(s: Seq<DeliveryView>) -> Seq<Seq<char>> {
    s.map_values(|d: DeliveryView| d.recipient)
}

/// The test that an identity is not `id`.
pub open spec fn is_not(id: Seq<char>) -> spec_fn(Seq<char>) -> bool {
    |other: Seq<char>| other != id
}

/// The making of the delivery of `msg`, stamped with `sender`, to a peer.
pub open spec fn delivery_to(msg: SignalingMessageView, sender: Seq<char>) -> spec_fn(
    Seq<char>,
) -> DeliveryView {
    |id: Seq<char>| DeliveryView { recipient: id, message: msg.stamped(sender) }
}

/// The peers among `ids` other than `sender`, in registry order.
pub open spec fn others(ids: Seq<Seq<char>>, sender: Seq<char>) -> Seq<Seq<char>> {
    ids.filter(is_not(sender))
}

/// The deliveries the relay makes of `msg`, come in from `sender`, when the
/// peers `ids` are connected.
pub open spec fn spec_route(
    ids: Seq<Seq<char>>,
    sender: Seq<char>,
    msg: SignalingMessageView,
) -> Seq<DeliveryView> {
    if msg.is_broadcast() {
        others(ids, sender).map_values(delivery_to(msg, sender))
    } else if ids.contains(msg.to) {
        seq![DeliveryView { recipient: msg.to, message: msg.stamped(sender) }]
    } else {
        Seq::empty()
    }
}

/// The registry `ids` once `id` is registered: at the end if it is new.
pub open spec fn with_peer(ids: Seq<Seq<char>>, id: Seq<char>) -> Seq<Seq<char>> {
    if ids.contains(id) {
        ids
    } else {
        ids.push(id)
    }
}

/// The registry `ids` once `id` is gone from it.
pub open spec fn without_peer(ids: Seq<Seq<char>>, id: Seq<char>) -> Seq<Seq<char>> {
    ids.filter(is_not(id))
}

/// Filtering keeps a sequence free of duplicates and keeps exactly the
/// elements that pass.
pub proof fn lemma_filter_no_duplicates(ids: Seq<Seq<char>>, keep: spec_fn(Seq<char>) -> bool)
    requires
        ids.no_duplicates(),
    ensures
        ids.filter(keep).no_duplicates(),
        forall|id: Seq<char>| #[trigger]
            ids.filter(keep).contains(id) <==> ids.contains(id) && keep(id),
    decreases ids.len(),
{
    reveal(Seq::filter);
    if ids.len() > 0 {
        let init = ids.drop_last();
        let last = ids.last();
        lemma_filter_no_duplicates(init, keep);
        assert(ids =~= init.push(last));
        init.lemma_filter_push(last, keep);
        let kept = init.filter(keep);
        assert(!init.contains(last)) by {
            if init.contains(last) {
                let i = choose|i: int| 0 <= i < init.len() && init[i] == last;
                assert(ids[i] == ids[ids.len() - 1]);
            }
        }
        if keep(last) {
            assert forall|i: int, j: int|
                0 <= i < kept.push(last).len() && 0 <= j < kept.push(last).len() && i
                    != j implies kept.push(last)[i] != kept.push(last)[j] by {
                if i < kept.len() {
                    assert(kept.contains(kept[i]));
                }
                if j < kept.len() {
                    assert(kept.contains(kept[j]));
                }
            }
        }
        assert forall|id: Seq<char>| #[trigger]
            ids.filter(keep).contains(id) <==> ids.contains(id) && keep(id) by {
            if ids.contains(id) {
                let i = choose|i: int| 0 <= i < ids.len() && ids[i] == id;
                if i < init.len() {
                    assert(init[i] == id);
                }
            }
            if init.contains(id) {
                let i = choose|i: int| 0 <= i < init.len() && init[i] == id;
                assert(ids[i] == id);
            }
            if keep(last) {
                assert(kept.push(last).last() == last);
                if kept.push(last).contains(id) {
                    let longer = kept.push(last);
                    let i = choose|i: int| 0 <= i < longer.len() && longer[i] == id;
                    if i < kept.len() {
                        assert(kept[i] == id);
                    }
                }
                if kept.contains(id) {
                    let i = choose|i: int| 0 <= i < kept.len() && kept[i] == id;
                    assert(kept.push(last)[i] == id);
                }
            }
        }
    }
}

/// Relay routing, broadcast. A message that addresses no one is delivered
/// to every connected peer but the one it came from, to each exactly once,
/// and each delivery names the true sender whatever the message claimed.
pub proof fn lemma_broadcast_reaches_every_other_peer(
    ids: Seq<Seq<char>>,
    sender: Seq<char>,
    msg: SignalingMessageView,
)
    requires
        ids.no_duplicates(),
        msg.is_broadcast(),
    ensures
        recipients(spec_route(ids, sender, msg)).no_duplicates(),
        forall|id: Seq<char>| #[trigger]
            recipients(spec_route(ids, sender, msg)).contains(id) <==> ids.contains(id) && id
                != sender,
        forall|i: int|
            0 <= i < spec_route(ids, sender, msg).len() ==> (#[trigger] spec_route(
                ids,
                sender,
                msg,
            )[i]).message == msg.stamped(sender),
        recipients(spec_route(ids, sender, msg)).to_set() == ids.to_set().remove(sender),
{
    let keep = is_not(sender);
    lemma_filter_no_duplicates(ids, keep);
    let out = spec_route(ids, sender, msg);
    assert(recipients(out) =~= others(ids, sender));
    assert(recipients(out).to_set() =~= ids.to_set().remove(sender));
}

/// Relay routing, addressed. A message to a connected peer is delivered to
/// that peer alone, once, naming the true sender; a message to a peer that
/// is not connected is delivered to no one.
pub proof fn lemma_addressed_reaches_target_only(
    ids: Seq<Seq<char>>,
    sender: Seq<char>,
    msg: SignalingMessageView,
)
    requires
        !msg.is_broadcast(),
    ensures
        ids.contains(msg.to) ==> spec_route(ids, sender, msg) == seq![
            DeliveryView { recipient: msg.to, message: msg.stamped(sender) },
        ],
        !ids.contains(msg.to) ==> spec_route(ids, sender, msg).len() == 0,
{
}

/// What the relay does with what it read from a peer's connection.
#[derive(Debug)]
pub enum RelayStep {
    /// Make these deliveries, then read again.
    Deliver(Vec<Delivery>),
    /// Read again.
    Continue,
    /// The connection is over: end the loop and disconnect the peer.
    Stop,
}

/// The relay's registry of connected peers, in the order they registered,
/// which is the order a broadcast reaches them in.
pub struct SignalingServer<H> {
    peers: Vec<Peer<H>>,
}

impl<H> SignalingServer<H> {
    /// The identities of the connected peers, in the order they registered.
    pub closed spec fn ids(&self) -> Seq<Seq<char>> {
        self.peers@.map_values(|p: Peer<H>| p.id@)
    }

    /// The delivery handle registered for `id`, if `id` is connected.
    pub closed spec fn spec_handle_of(&self, id: Seq<char>) -> Option<H> {
        if self.ids().contains(id) {
            Some(self.peers@[self.ids().index_of(id)].handle)
        } else {
            None
        }
    }

    /// No identity is registered twice.
    pub open spec fn wf(&self) -> bool {
        self.ids().no_duplicates()
    }

    /// Every identity but `id` has the handle it had in `before`.
    pub open spec fn keeps_other_handles(&self, before: &Self, id: Seq<char>) -> bool {
        forall|other: Seq<char>|
            other != id ==> #[trigger] self.spec_handle_of(other) == before.spec_handle_of(other)
    }

    /// A relay nobody is connected to.
    pub fn new() -> (relay: SignalingServer<H>)
        ensures
            relay.wf(),
            relay.ids() == Seq::<Seq<char>>::empty(),
    {
        let relay = SignalingServer { peers: Vec::new() };
        assert(relay.ids() =~= Seq::<Seq<char>>::empty());
        relay
    }

    /// Number of connected peers.
    pub fn peer_count(&self) -> (n: usize)
        ensures
            n == self.ids().len(),
    {
        self.peers.len()
    }

    fn position(&self, id: &String) -> (r: Option<usize>)
        ensures
            r is Some ==> r->0 < self.ids().len() && self.ids()[r->0 as int] == id@,
            r is None ==> !self.ids().contains(id@),
    {
        let mut i: usize = 0;
        while i < self.peers.len()
            invariant
                i <= self.peers.len(),
                forall|j: int| 0 <= j < i ==> self.ids()[j] != id@,
            decreases self.peers.len() - i,
        {
            if self.peers[i].id == *id {
                return Some(i);
            }
            i = i + 1;
        }
        None
    }

    /// Whether `id` is connected.
    pub fn is_connected(&self, id: &String) -> (b: bool)
        ensures
            b == self.ids().contains(id@),
    {
        self.position(id).is_some()
    }

    /// The delivery handle registered for `id`, if `id` is connected.
    pub fn handle_of(&self, id: &String) -> (h: Option<&H>)
        requires
            self.wf(),
        ensures
            h is Some <==> self.ids().contains(id@),
            h is Some ==> self.spec_handle_of(id@) == Some(*h->0),
    {
        match self.position(id) {
            Some(i) => {
                proof {
                    let k = self.ids().index_of(id@);
                    assert(self.ids()[k] == id@ && 0 <= k < self.ids().len());
                }
                Some(&self.peers[i].handle)
            },
            None => None,
        }
    }

    /// Registers `id` with `handle` and returns the message that tells the
    /// new peer its identity. An identity that is registered already keeps
    /// its place and gets the new handle.
    pub fn register(&mut self, id: String, handle: H) -> (hello: SignalingMessage)
        requires
            old(self).wf(),
        ensures
            final(self).wf(),
            final(self).ids() == with_peer(old(self).ids(), id@),
            final(self).spec_handle_of(id@) == Some(handle),
            final(self).keeps_other_handles(old(self), id@),
            hello@ == identity_message(id@),
    {
        let hello = SignalingMessage::identity(&id);
        let ghost before = self.peers@;
        let ghost old_ids = self.ids();
        match self.position(&id) {
            Some(i) => {
                self.peers[i] = Peer { id, handle };
                assert(self.ids() =~= old_ids);
            },
            None => {
                self.peers.push(Peer { id, handle });
                assert(self.ids() =~= old_ids.push(id@));
            },
        }
        proof {
            let ids = self.ids();
            let k = ids.index_of(id@);
            assert(ids.contains(id@)) by {
                if old_ids.contains(id@) {
                    let j = choose|j: int| 0 <= j < old_ids.len() && old_ids[j] == id@;
                    assert(ids[j] == id@);
                } else {
                    assert(ids[ids.len() - 1] == id@);
                }
            }
            assert(0 <= k < ids.len() && ids[k] == id@);
            assert forall|other: Seq<char>| other != id@ implies #[trigger] self.spec_handle_of(
                other,
            ) == old(self).spec_handle_of(other) by {
                if old_ids.contains(other) {
                    let j = old_ids.index_of(other);
                    assert(0 <= j < old_ids.len() && old_ids[j] == other);
                    assert(ids[j] == other);
                    let j2 = ids.index_of(other);
                    assert(0 <= j2 < ids.len() && ids[j2] == other);
                    assert(self.peers@[j] == before[j]);
                } else {
                    if ids.contains(other) {
                        let j = choose|j: int| 0 <= j < ids.len() && ids[j] == other;
                        if j < old_ids.len() {
                            assert(old_ids[j] == other);
                        }
                    }
                }
            }
        }
        hello
    }

    /// Takes a new connection in: gives it a fresh identity, registers it
    /// with `handle`, and returns the identity with the message that
    /// announces it to the peer.
    pub fn connect(&mut self, handle: H) -> (r: (String, SignalingMessage))
        requires
            old(self).wf(),
        ensures
            final(self).wf(),
            r.0@.len() == 36,
            final(self).ids() == with_peer(old(self).ids(), r.0@),
            final(self).spec_handle_of(r.0@) == Some(handle),
            final(self).keeps_other_handles(old(self), r.0@),
            r.1@ == identity_message(r.0@),
    {
        let id = fresh_peer_id();
        let hello = self.register(id.clone(), handle);
        (id, hello)
    }

    /// Removes `id` from the registry and returns its handle, if it was
    /// connected. Nobody is told.
    pub fn disconnect(&mut self, id: &String) -> (h: Option<H>)
        requires
            old(self).wf(),
        ensures
            final(self).wf(),
            final(self).ids() == without_peer(old(self).ids(), id@),
            h == old(self).spec_handle_of(id@),
            final(self).keeps_other_handles(old(self), id@),
    {
        let ghost old_ids = self.ids();
        let ghost before = self.peers@;
        let keep = Ghost(is_not(id@));
        match self.position(id) {
            Some(i) => {
                let peer = self.peers.remove(i);
                proof {
                    let ids = self.ids();
                    assert(ids =~= old_ids.remove(i as int));
                    lemma_remove_is_filter(old_ids, i as int);
                    lemma_filter_no_duplicates(old_ids, keep@);
                    let k = old_ids.index_of(id@);
                    assert(0 <= k < old_ids.len() && old_ids[k] == id@);
                    assert forall|other: Seq<char>| other != id@ implies #[trigger]
                        self.spec_handle_of(other) == old(self).spec_handle_of(other) by {
                        if old_ids.contains(other) {
                            let j = old_ids.index_of(other);
                            assert(0 <= j < old_ids.len() && old_ids[j] == other);
                            let j2 = ids.index_of(other);
                            assert(ids.contains(other));
                            assert(0 <= j2 < ids.len() && ids[j2] == other);
                            if j2 < i {
                                assert(old_ids[j2] == other);
                            } else {
                                assert(old_ids[j2 + 1] == other);
                            }
                        }
                    }
                }
                Some(peer.handle)
            },
            None => {
                proof {
                    assert forall|j: int| 0 <= j < old_ids.len() implies (keep@)(
                        #[trigger] old_ids[j],
                    ) by {
                        assert(old_ids.contains(old_ids[j]));
                    }
                    lemma_filter_all(old_ids, keep@);
                }
                None
            },
        }
    }

    /// Takes what was read from the connection of `sender`. A message is
    /// routed. A frame that does not decode, or is not text, is passed over
    /// and reaches no one. The end of the stream and a failure of the
    /// transport end the connection.
    pub fn receive(&self, sender: &String, frame: Incoming) -> (step: RelayStep)
        ensures
            match frame@ {
                IncomingView::Message(msg) => step is Deliver && delivery_views(step->0@)
                    == spec_route(self.ids(), sender@, msg) && step->0@.len() == spec_route(
                    self.ids(),
                    sender@,
                    msg,
                ).len(),
                IncomingView::Malformed(_) => step is Continue,
                IncomingView::Other => step is Continue,
                IncomingView::Failed(_) => step is Stop,
                IncomingView::Closed => step is Stop,
            },
    {
        match frame {
            Incoming::Message(msg) => RelayStep::Deliver(self.route(sender, msg)),
            Incoming::Malformed(_) => RelayStep::Continue,
            Incoming::Other => RelayStep::Continue,
            Incoming::Failed(_) => RelayStep::Stop,
            Incoming::Closed => RelayStep::Stop,
        }
    }

    /// Routes `msg`, come in on the connection of `sender`: the message is
    /// stamped with `sender` and goes to every other connected peer if it
    /// addresses no one, to the peer it addresses if that peer is connected,
    /// and nowhere otherwise.
    pub fn route(&self, sender: &String, msg: SignalingMessage) -> (out: Vec<Delivery>)
        ensures
            delivery_views(out@) == spec_route(self.ids(), sender@, msg@),
            out@.len() == spec_route(self.ids(), sender@, msg@).len(),
            forall|i: int|
                0 <= i < out@.len() ==> (#[trigger] out@[i])@ == spec_route(
                    self.ids(),
                    sender@,
                    msg@,
                )[i],
    {
        let mut msg = msg;
        let ghost received = msg@;
        msg.from = sender.clone();
        let mut out: Vec<Delivery> = Vec::new();
        if msg.to.as_str().is_empty() {
            let ghost keep = is_not(sender@);
            let ghost wrap = delivery_to(received, sender@);
            let mut i: usize = 0;
            assert(self.ids().take(0) =~= Seq::<Seq<char>>::empty());
            assert(delivery_views(out@) =~= self.ids().take(0).filter(keep).map_values(wrap)) by {
                reveal(Seq::filter);
            }
            while i < self.peers.len()
                invariant
                    i <= self.peers.len(),
                    msg@ == received.stamped(sender@),
                    keep == is_not(sender@),
                    wrap == delivery_to(received, sender@),
                    delivery_views(out@) == self.ids().take(i as int).filter(keep).map_values(wrap),
                decreases self.peers.len() - i,
            {
                let ghost seen = self.ids().take(i as int);
                proof {
                    assert(self.ids().take(i + 1) =~= seen.push(self.ids()[i as int]));
                    seen.lemma_filter_push(self.ids()[i as int], keep);
                }
                if self.peers[i].id != *sender {
                    let ghost earlier = out@;
                    let delivery = Delivery {
                        recipient: self.peers[i].id.clone(),
                        message: msg.clone(),
                    };
                    out.push(delivery);
                    assert(delivery_views(out@) =~= delivery_views(earlier).push(delivery@));
                    assert(seen.filter(keep).push(self.ids()[i as int]).map_values(wrap)
                        =~= seen.filter(keep).map_values(wrap).push(wrap(self.ids()[i as int])));
                }
                i = i + 1;
            }
            assert(self.ids().take(i as int) =~= self.ids());
        } else {
            if self.is_connected(&msg.to) {
                let delivery = Delivery { recipient: msg.to.clone(), message: msg };
                out.push(delivery);
                assert(delivery_views(out@) =~= seq![delivery@]);
            } else {
                assert(delivery_views(out@) =~= Seq::<DeliveryView>::empty());
            }
        }
        proof {
            let routed = spec_route(self.ids(), sender@, received);
            assert forall|i: int| 0 <= i < out@.len() implies (#[trigger] out@[i])@
                == routed[i] by {
                assert(delivery_views(out@)[i] == out@[i]@);
            }
        }
        out
    }
}

/// Removing the only occurrence of an element is filtering it out.
pub proof fn lemma_remove_is_filter(ids: Seq<Seq<char>>, i: int)
    requires
        ids.no_duplicates(),
        0 <= i < ids.len(),
    ensures
        ids.remove(i) == without_peer(ids, ids[i]),
    decreases ids.len(),
{
    reveal(Seq::filter);
    let gone = ids[i];
    let keep = is_not(gone);
    let init = ids.drop_last();
    let last = ids.last();
    assert(ids =~= init.push(last));
    init.lemma_filter_push(last, keep);
    if i == ids.len() - 1 {
        assert(ids.remove(i) =~= init);
        assert forall|j: int| 0 <= j < init.len() implies keep(#[trigger] init[j]) by {
            assert(ids[j] != ids[i]);
        }
        lemma_filter_all(init, keep);
    } else {
        assert(init[i] == gone);
        lemma_remove_is_filter(init, i);
        assert(ids[ids.len() - 1] != ids[i]);
        assert(ids.remove(i) =~= init.remove(i).push(last));
    }
}

/// Filtering a sequence whose elements all pass changes nothing.
pub proof fn lemma_filter_all(ids: Seq<Seq<char>>, keep: spec_fn(Seq<char>) -> bool)
    requires
        forall|j: int| 0 <= j < ids.len() ==> keep(#[trigger] ids[j]),
    ensures
        ids.filter(keep) == ids,
    decreases ids.len(),
{
    reveal(Seq::filter);
    if ids.len() > 0 {
        let init = ids.drop_last();
        assert forall|j: int| 0 <= j < init.len() implies keep(#[trigger] init[j]) by {
            assert(init[j] == ids[j]);
        }
        lemma_filter_all(init, keep);
        assert(ids =~= init.push(ids.last()));
    }
}

} // verus!
