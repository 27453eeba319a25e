//! The messages peers exchange through the relay to set a call up.

use vstd::prelude::*;

verus! {

/// What a signaling message carries.
#[derive(Debug, Clone, Copy, PartialEq, Eq, Structural)]
pub enum SignalingType {
    /// A session description that proposes a call.
    Offer,
    /// A session description that accepts one.
    Answer,
    /// A network candidate for the media path.
    Candidate,
    /// The identity the relay assigned to the receiver.
    Identity,
}

/// One signaling message. An empty `to` addresses every other peer.
#[derive(Debug)]
pub struct SignalingMessage {
    pub to: String,
    pub from: String,
    pub sig_type: SignalingType,
    pub data: String,
}

/// A signaling message as a value of characters.
pub struct SignalingMessageView {
    pub to: Seq<char>,
    pub from: Seq<char>,
    pub sig_type: SignalingType,
    pub data: Seq<char>,
}

impl View for SignalingMessage {
    type V = SignalingMessageView;

    open spec fn view(&self) -> SignalingMessageView {
        SignalingMessageView {
            to: self.to@,
            from: self.from@,
            sig_type: self.sig_type,
            data: self.data@,
        }
    }
}

impl Clone for SignalingMessage {
    fn clone(&self) -> (copy: Self)
        ensures
            copy == *self,
    {
        SignalingMessage {
            to: self.to.clone(),
            from: self.from.clone(),
            sig_type: self.sig_type,
            data: self.data.clone(),
        }
    }
}

impl SignalingMessageView {
    /// The message addresses every other peer.
    pub open spec fn is_broadcast(self) -> bool {
        self.to.len() == 0
    }

    /// The message with `sender` as where it came from, whatever it claimed.
    pub open spec fn stamped(self, sender: Seq<char>) -> SignalingMessageView {
        SignalingMessageView { from: sender, ..self }
    }
}

/// The sender a message from the relay itself names.
pub open spec fn relay_name() -> Seq<char> {
    "server"@
}

/// The message that tells a new peer the identity `id` it was given.
pub open spec fn identity_message(id: Seq<char>) -> SignalingMessageView {
    SignalingMessageView { to: id, from: relay_name(), sig_type: SignalingType::Identity, data: id }
}

impl SignalingMessage {
    /// A message of kind `sig_type` to `to` with payload `data` and no
    /// sender filled in; the relay fills it in.
    pub fn outgoing(to: String, sig_type: SignalingType, data: String) -> (msg: SignalingMessage)
        ensures
            msg@ == (SignalingMessageView {
                to: to@,
                from: Seq::<char>::empty(),
                sig_type,
                data: data@,
            }),
    {
        SignalingMessage { to, from: String::new(), sig_type, data }
    }

    /// The message that tells a new peer the identity `id` it was given.
    pub fn identity(id: &String) -> (msg: SignalingMessage)
        ensures
            msg@ == identity_message(id@),
    {
        SignalingMessage {
            to: id.clone(),
            from: "server".to_owned(),
            sig_type: SignalingType::Identity,
            data: id.clone(),
        }
    }
}

} // verus!
