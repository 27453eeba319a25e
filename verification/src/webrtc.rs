//! The call state machine: what a peer does with the signaling messages it
//! receives and with the state changes of its media transport.
//!
//! The machine owns the call state and decides; the media transport and the
//! signaling connection are the caller's. Every operation takes what
//! happened as plain values and returns what is to be done about it.

use vstd::prelude::*;
use crate::signaling::{SignalingMessage, SignalingMessageView, SignalingType};

verus! {

/// What the call layer tells the layer above it.
#[derive(Debug)]
pub enum WebRTCEvent {
    Connected,
    Disconnected,
    IncomingCall(String),
}

/// A call event as a value of characters.
pub enum WebRTCEventView {
    Connected,
    Disconnected,
    IncomingCall(Seq<char>),
}

impl View for WebRTCEvent {
    type V = WebRTCEventView;

    open spec fn view(&self) -> WebRTCEventView {
        match self {
            WebRTCEvent::Connected => WebRTCEventView::Connected,
            WebRTCEvent::Disconnected => WebRTCEventView::Disconnected,
            WebRTCEvent::IncomingCall(from) => WebRTCEventView::IncomingCall(from@),
        }
    }
}

impl Clone for WebRTCEvent {
    fn clone(&self) -> (copy: Self)
        ensures
            copy == *self,
    {
        match self {
            WebRTCEvent::Connected => WebRTCEvent::Connected,
            WebRTCEvent::Disconnected => WebRTCEvent::Disconnected,
            WebRTCEvent::IncomingCall(from) => WebRTCEvent::IncomingCall(from.clone()),
        }
    }
}

/// Where a call stands.
#[derive(Debug, Clone, Copy, PartialEq, Eq, Structural)]
pub enum CallPhase {
    /// No call.
    Idle,
    /// An offer was sent, or a received one was answered; the transport is
    /// not up yet.
    Negotiating,
    /// The transport is up.
    Connected,
    /// The transport went down; passed through on the way back to `Idle`.
    Disconnected,
}

/// The states a media transport reports.
#[derive(Debug, Clone, Copy, PartialEq, Eq, Structural)]
pub enum TransportState {
    Unspecified,
    New,
    Connecting,
    Connected,
    Disconnected,
    Failed,
    Closed,
}

/// What the driver of the machine has to do.
#[derive(Debug)]
pub enum CallAction {
    /// Hand the remote offer to the transport and have it make an answer.
    /// Report the answer with [`WebRTC::answer_created`], or the refusal
    /// with [`WebRTC::offer_rejected`].
    AcceptOffer(String),
    /// Hand the remote answer to the transport.
    ApplyAnswer(String),
    /// Hand the remote network candidate to the transport, if there is one.
    AddCandidate(String),
}

/// An action as a value of characters.
pub enum CallActionView {
    AcceptOffer(Seq<char>),
    ApplyAnswer(Seq<char>),
    AddCandidate(Seq<char>),
}

impl View for CallAction {
    type V = CallActionView;

    open spec fn view(&self) -> CallActionView {
        match self {
            CallAction::AcceptOffer(sdp) => CallActionView::AcceptOffer(sdp@),
            CallAction::ApplyAnswer(sdp) => CallActionView::ApplyAnswer(sdp@),
            CallAction::AddCandidate(candidate) => CallActionView::AddCandidate(candidate@),
        }
    }
}

/// A call that was taken: the answer to send to the caller and the notice
/// of the call for the layer above.
#[derive(Debug)]
pub struct AcceptedCall {
    pub answer: SignalingMessage,
    pub notice: WebRTCEvent,
}

/// A taken call as a value of characters.
pub struct AcceptedCallView {
    pub answer: SignalingMessageView,
    pub notice: WebRTCEventView,
}

impl View for AcceptedCall {
    type V = AcceptedCallView;

    open spec fn view(&self) -> AcceptedCallView {
        AcceptedCallView { answer: self.answer@, notice: self.notice@ }
    }
}

/// The actions of `s`, each as a value of characters.
pub open spec fn action_views(s: Seq<CallAction>) -> Seq<CallActionView> {
    s.map_values(|a: CallAction| a@)
}

/// The call state as a value of characters.
pub struct CallStateView {
    /// The identity the relay assigned to this peer.
    pub local_id: Option<Seq<char>>,
    /// The peer at the other end of the call.
    pub remote_id: Option<Seq<char>>,
    pub phase: CallPhase,
    /// The sender of an offer that is with the transport and has neither
    /// been answered nor refused yet.
    pub pending_offer: Option<Seq<char>>,
}

/// The characters of an optional string.
pub open spec fn option_view(s: Option<String>) -> Option<Seq<char>> {
    match s {
        Some(s) => Some(s@),
        None => None,
    }
}

/// An outgoing message: the sender is left empty for the relay to fill in.
pub open spec fn outgoing_message(
    to: Seq<char>,
    sig_type: SignalingType,
    data: Seq<char>,
) -> SignalingMessageView {
    SignalingMessageView { to, from: Seq::<char>::empty(), sig_type, data }
}

impl CallStateView {
    /// The state a peer starts in once the relay has told it who it is.
    pub open spec fn initial(local_id: Seq<char>) -> CallStateView {
        CallStateView {
            local_id: Some(local_id),
            remote_id: None,
            phase: CallPhase::Idle,
            pending_offer: None,
        }
    }

    /// No call: the state with the remote peer and any pending offer
    /// forgotten.
    pub open spec fn cleared(self) -> CallStateView {
        CallStateView { remote_id: None, phase: CallPhase::Idle, pending_offer: None, ..self }
    }

    /// An offer that arrives now is taken up: the machine is idle and no
    /// other offer is with the transport.
    pub open spec fn takes_offers(self) -> bool {
        self.phase == CallPhase::Idle && self.pending_offer is None
    }

    /// The state after `msg` was received.
    ///
    /// An identity message sets the local identity. An offer that is taken
    /// up has its sender noted as pending; the remote peer and the phase
    /// stay as they are until the transport has answered. An answer, a
    /// candidate, and an offer that is not taken up change nothing.
    pub open spec fn after_message(self, msg: SignalingMessageView) -> CallStateView {
        match msg.sig_type {
            SignalingType::Identity => CallStateView { local_id: Some(msg.data), ..self },
            SignalingType::Offer => if self.takes_offers() {
                CallStateView { pending_offer: Some(msg.from), ..self }
            } else {
                self
            },
            SignalingType::Answer => self,
            SignalingType::Candidate => self,
        }
    }

    /// What is to be done when `msg` was received.
    ///
    /// An offer that is taken up goes to the transport. An answer received
    /// while negotiating is applied. A candidate is applied in every phase.
    /// Nothing else calls for action.
    pub open spec fn actions_for(self, msg: SignalingMessageView) -> Seq<CallActionView> {
        match msg.sig_type {
            SignalingType::Identity => Seq::empty(),
            SignalingType::Offer => if self.takes_offers() {
                seq![CallActionView::AcceptOffer(msg.data)]
            } else {
                Seq::empty()
            },
            SignalingType::Answer => if self.phase == CallPhase::Negotiating {
                seq![CallActionView::ApplyAnswer(msg.data)]
            } else {
                Seq::empty()
            },
            SignalingType::Candidate => seq![CallActionView::AddCandidate(msg.data)],
        }
    }

    /// What comes of the transport's answer `sdp`: with an offer pending,
    /// the answer to its sender and the notice of a call from that sender;
    /// without one, nothing.
    pub open spec fn answer_for(self, sdp: Seq<char>) -> Option<AcceptedCallView> {
        match self.pending_offer {
            Some(caller) => Some(
                AcceptedCallView {
                    answer: outgoing_message(caller, SignalingType::Answer, sdp),
                    notice: WebRTCEventView::IncomingCall(caller),
                },
            ),
            None => None,
        }
    }

    /// The state after the transport's answer was taken: the sender of the
    /// pending offer is the remote peer and the call is being negotiated.
    /// Without a pending offer nothing changes.
    pub open spec fn after_answer(self) -> CallStateView {
        match self.pending_offer {
            Some(caller) => CallStateView {
                remote_id: Some(caller),
                phase: CallPhase::Negotiating,
                pending_offer: None,
                ..self
            },
            None => self,
        }
    }

    /// The state after the transport refused the pending offer: no offer is
    /// pending, and nothing else has changed.
    pub open spec fn after_rejection(self) -> CallStateView {
        CallStateView { pending_offer: None, ..self }
    }

    /// The state after an offer to `target` was sent.
    pub open spec fn after_offer(self, target: Seq<char>) -> CallStateView {
        CallStateView {
            remote_id: Some(target),
            phase: CallPhase::Negotiating,
            pending_offer: None,
            ..self
        }
    }

    /// The state after the transport reported `state`: connected when it
    /// came up, cleared when it went down or was closed, as before
    /// otherwise.
    pub open spec fn after_transport(self, state: TransportState) -> CallStateView {
        match state {
            TransportState::Connected => CallStateView { phase: CallPhase::Connected, ..self },
            TransportState::Disconnected | TransportState::Closed => self.cleared(),
            _ => self,
        }
    }
}

/// What the layer above is told when the transport reports `state`.
pub open spec fn event_for(state: TransportState) -> Option<WebRTCEventView> {
    match state {
        TransportState::Connected => Some(WebRTCEventView::Connected),
        TransportState::Disconnected | TransportState::Closed => Some(
            WebRTCEventView::Disconnected,
        ),
        _ => None,
    }
}

/// Call auto-answer. An offer from a peer, received while idle, goes to the
/// transport and leaves the remote peer and the phase alone. Once the
/// transport has made its answer, the machine is negotiating with the sender
/// as the remote peer, the call is announced, and the answer goes out
/// exactly once, addressed to the sender.
pub proof fn lemma_offer_is_answered_once(
    state: CallStateView,
    offer: SignalingMessageView,
    answer_sdp: Seq<char>,
)
    requires
        state.takes_offers(),
        offer.sig_type == SignalingType::Offer,
    ensures
        state.actions_for(offer) == seq![CallActionView::AcceptOffer(offer.data)],
        state.after_message(offer) == (CallStateView {
            pending_offer: Some(offer.from),
            ..state
        }),
        state.after_message(offer).answer_for(answer_sdp) == Some(
            AcceptedCallView {
                answer: outgoing_message(offer.from, SignalingType::Answer, answer_sdp),
                notice: WebRTCEventView::IncomingCall(offer.from),
            },
        ),
        state.after_message(offer).after_answer() == (CallStateView {
            remote_id: Some(offer.from),
            phase: CallPhase::Negotiating,
            ..state
        }),
        state.after_message(offer).after_answer().answer_for(answer_sdp) is None,
{
}

/// A refused offer leaves no trace. An offer the transport does not accept
/// leaves the machine in the state it was in before the offer arrived, and
/// nothing was announced and nothing sent on its account.
pub proof fn lemma_rejected_offer_leaves_no_trace(
    state: CallStateView,
    offer: SignalingMessageView,
)
    requires
        state.takes_offers(),
        offer.sig_type == SignalingType::Offer,
    ensures
        state.actions_for(offer) == seq![CallActionView::AcceptOffer(offer.data)],
        state.after_message(offer).remote_id == state.remote_id,
        state.after_message(offer).phase == state.phase,
        state.after_message(offer).after_rejection() == state,
        state.after_message(offer).after_rejection().answer_for(offer.data) is None,
{
}

/// Disconnect resets state. Whatever the state, a transport that reports
/// that it went down or was closed leaves the machine idle with no remote
/// peer, and the layer above is told of the disconnect.
pub proof fn lemma_disconnect_resets(state: CallStateView, report: TransportState)
    requires
        report == TransportState::Disconnected || report == TransportState::Closed,
    ensures
        state.after_transport(report).phase == CallPhase::Idle,
        state.after_transport(report).remote_id is None,
        state.after_transport(report).pending_offer is None,
        state.after_transport(report).local_id == state.local_id,
        event_for(report) == Some(WebRTCEventView::Disconnected),
{
}

/// The call state of one peer.
pub struct WebRTC {
    local_peer_id: Option<String>,
    remote_peer_id: Option<String>,
    phase: CallPhase,
    pending_offer: Option<String>,
}

impl View for WebRTC {
    type V = CallStateView;

    closed spec fn view(&self) -> CallStateView {
        CallStateView {
            local_id: option_view(self.local_peer_id),
            remote_id: option_view(self.remote_peer_id),
            phase: self.phase,
            pending_offer: option_view(self.pending_offer),
        }
    }
}

fn clone_id(id: &Option<String>) -> (copy: Option<String>)
    ensures
        copy == *id,
{
    match id {
        Some(s) => Some(s.clone()),
        None => None,
    }
}

impl WebRTC {
    /// The state of a peer the relay has named `id`: idle, no remote peer.
    pub fn init(id: String) -> (state: WebRTC)
        ensures
            state@ == CallStateView::initial(id@),
    {
        WebRTC {
            local_peer_id: Some(id),
            remote_peer_id: None,
            phase: CallPhase::Idle,
            pending_offer: None,
        }
    }

    /// The identity the relay assigned to this peer.
    pub fn get_local_id(&self) -> (id: Option<String>)
        ensures
            option_view(id) == self@.local_id,
    {
        clone_id(&self.local_peer_id)
    }

    /// The peer at the other end of the call.
    pub fn get_remote_id(&self) -> (id: Option<String>)
        ensures
            option_view(id) == self@.remote_id,
    {
        clone_id(&self.remote_peer_id)
    }

    /// Where the call stands.
    pub fn phase(&self) -> (p: CallPhase)
        ensures
            p == self@.phase,
    {
        self.phase
    }

    /// Records that the transport made the offer `sdp` for a call to
    /// `target_id`, and returns the message that carries it there.
    pub fn create_offer(&mut self, target_id: String, sdp: String) -> (msg: SignalingMessage)
        ensures
            final(self)@ == old(self)@.after_offer(target_id@),
            msg@ == outgoing_message(target_id@, SignalingType::Offer, sdp@),
    {
        self.remote_peer_id = Some(target_id.clone());
        self.phase = CallPhase::Negotiating;
        self.pending_offer = None;
        SignalingMessage::outgoing(target_id, SignalingType::Offer, sdp)
    }

    /// Takes the answer `sdp` the transport made to the pending offer: the
    /// sender of the offer becomes the remote peer, the call is being
    /// negotiated, and the answer for the sender comes back together with
    /// the notice of the call. Without a pending offer nothing changes and
    /// nothing comes back.
    pub fn answer_created(&mut self, sdp: String) -> (taken: Option<AcceptedCall>)
        ensures
            final(self)@ == old(self)@.after_answer(),
            taken is Some <==> old(self)@.answer_for(sdp@) is Some,
            taken is Some ==> Some(taken->0@) == old(self)@.answer_for(sdp@),
    {
        match self.pending_offer.take() {
            Some(caller) => {
                self.remote_peer_id = Some(caller.clone());
                self.phase = CallPhase::Negotiating;
                Some(
                    AcceptedCall {
                        answer: SignalingMessage::outgoing(
                            caller.clone(),
                            SignalingType::Answer,
                            sdp,
                        ),
                        notice: WebRTCEvent::IncomingCall(caller),
                    },
                )
            },
            None => None,
        }
    }

    /// Takes note that the transport refused the pending offer: the offer
    /// is forgotten, and the machine is as it was before the offer arrived.
    pub fn offer_rejected(&mut self)
        ensures
            final(self)@ == old(self)@.after_rejection(),
    {
        self.pending_offer = None;
    }

    /// The message that carries the local network candidate `candidate` to
    /// the remote peer, if there is a remote peer.
    pub fn local_candidate(&self, candidate: String) -> (msg: Option<SignalingMessage>)
        ensures
            msg is Some <==> self@.remote_id is Some,
            msg is Some ==> msg->0@ == outgoing_message(
                self@.remote_id->0,
                SignalingType::Candidate,
                candidate@,
            ),
    {
        match &self.remote_peer_id {
            Some(remote) => Some(
                SignalingMessage::outgoing(remote.clone(), SignalingType::Candidate, candidate),
            ),
            None => None,
        }
    }

    /// Takes a state change of the transport and returns what the layer
    /// above is to be told of it, if anything.
    pub fn on_state_change(&mut self, state: TransportState) -> (event: Option<WebRTCEvent>)
        ensures
            final(self)@ == old(self)@.after_transport(state),
            event is Some <==> event_for(state) is Some,
            event is Some ==> Some(event->0@) == event_for(state),
    {
        match state {
            TransportState::Connected => {
                self.phase = CallPhase::Connected;
                Some(WebRTCEvent::Connected)
            },
            TransportState::Disconnected | TransportState::Closed => {
                self.phase = CallPhase::Disconnected;
                self.remote_peer_id = None;
                self.pending_offer = None;
                self.phase = CallPhase::Idle;
                Some(WebRTCEvent::Disconnected)
            },
            _ => None,
        }
    }

    /// Ends the call from this side: the remote peer and any pending offer
    /// are forgotten and the machine is idle.
    pub fn disconnect(&mut self)
        ensures
            final(self)@ == old(self)@.cleared(),
    {
        self.remote_peer_id = None;
        self.pending_offer = None;
        self.phase = CallPhase::Idle;
    }
}

/// Takes a signaling message received from the relay into `state` and
/// returns what is to be done about it, in order.
pub fn handle_signaling_message(
    state: &mut WebRTC,
    msg: SignalingMessage,
) -> (actions: Vec<CallAction>)
    ensures
        final(state)@ == old(state)@.after_message(msg@),
        action_views(actions@) == old(state)@.actions_for(msg@),
        actions@.len() == old(state)@.actions_for(msg@).len(),
        forall|i: int|
            0 <= i < actions@.len() ==> (#[trigger] actions@[i])@ == old(state)@.actions_for(
                msg@,
            )[i],
{
    let mut actions: Vec<CallAction> = Vec::new();
    match msg.sig_type {
        SignalingType::Identity => {
            state.local_peer_id = Some(msg.data);
        },
        SignalingType::Offer => {
            if state.phase == CallPhase::Idle && state.pending_offer.is_none() {
                state.pending_offer = Some(msg.from);
                actions.push(CallAction::AcceptOffer(msg.data));
            }
        },
        SignalingType::Answer => {
            if state.phase == CallPhase::Negotiating {
                actions.push(CallAction::ApplyAnswer(msg.data));
            }
        },
        SignalingType::Candidate => {
            actions.push(CallAction::AddCandidate(msg.data));
        },
    }
    assert(action_views(actions@) =~= old(state)@.actions_for(msg@));
    assert forall|i: int| 0 <= i < actions@.len() implies (#[trigger] actions@[i])@ == old(
        state,
    )@.actions_for(msg@)[i] by {
        assert(action_views(actions@)[i] == actions@[i]@);
    }
    actions
}

/// Seconds between two requests for a key frame.
pub const PLI_INTERVAL: u64 = 3;

/// What the key-frame request loop is told.
#[derive(Debug, Clone, Copy, PartialEq, Eq, Structural)]
pub enum PliEvent {
    /// The loop starts.
    Started,
    /// The interval has passed; the transport could or could not be
    /// resolved.
    IntervalElapsed { transport_resolved: bool },
    /// A request was handed to the transport, with or without success.
    RequestSent { ok: bool },
}

/// What the key-frame request loop does next.
#[derive(Debug, Clone, Copy, PartialEq, Eq, Structural)]
pub enum PliAction {
    /// Sleep for this many seconds.
    Wait(u64),
    /// Send a picture loss indication.
    SendRequest,
    /// End the loop.
    Stop,
}

/// The next step of the key-frame request loop.
pub open spec fn spec_pli_next(event: PliEvent) -> PliAction {
    match event {
        PliEvent::Started => PliAction::Wait(PLI_INTERVAL),
        PliEvent::IntervalElapsed { transport_resolved } => if transport_resolved {
            PliAction::SendRequest
        } else {
            PliAction::Stop
        },
        PliEvent::RequestSent { ok } => if ok {
            PliAction::Wait(PLI_INTERVAL)
        } else {
            PliAction::Stop
        },
    }
}

/// The next step of the key-frame request loop: a request goes out after
/// every interval for as long as the transport can be resolved and takes the
/// request; the loop ends the first time either fails.
pub fn pli_next(event: PliEvent) -> (action: PliAction)
    ensures
        action == spec_pli_next(event),
{
    match event {
        PliEvent::Started => PliAction::Wait(PLI_INTERVAL),
        PliEvent::IntervalElapsed { transport_resolved } => if transport_resolved {
            PliAction::SendRequest
        } else {
            PliAction::Stop
        },
        PliEvent::RequestSent { ok } => if ok {
            PliAction::Wait(PLI_INTERVAL)
        } else {
            PliAction::Stop
        },
    }
}

/// The sender identifier that key-frame requests carry: that of the first
/// encoding of the local sender, or zero if it has none.
pub fn local_ssrc(encoding_ssrcs: &[u32]) -> (ssrc: u32)
    ensures
        ssrc == if encoding_ssrcs@.len() > 0 {
            encoding_ssrcs@[0]
        } else {
            0
        },
{
    if encoding_ssrcs.len() > 0 {
        encoding_ssrcs[0]
    } else {
        0
    }
}

} // verus!
