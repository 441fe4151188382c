//! Messages exchanged between peers.
use vstd::prelude::*;

verus! {

/// The gossip topic on which peers announce their presence.
pub const PRESENCE_TOPIC: &'static str = "/chatpeer/presence/1.0.0";

/// Presence status a peer announces.
#[derive(Clone, Copy, Debug, PartialEq, Eq, Structural)]
pub enum OnlineStatus {
    Online,
    Away,
    Busy,
}

/// The text of a status, as presence replies show it.
pub open spec fn status_text(s: OnlineStatus) -> Seq<char> {
    match s {
        OnlineStatus::Online => "Online"@,
        OnlineStatus::Away => "Away"@,
        OnlineStatus::Busy => "Busy"@,
    }
}

impl OnlineStatus {
    /// The status's text: `Online`, `Away` or `Busy`.
    pub fn text(&self) -> (t: String)
        ensures
            t@ == status_text(*self),
    {
        match self {
            OnlineStatus::Online => "Online".to_owned(),
            OnlineStatus::Away => "Away".to_owned(),
            OnlineStatus::Busy => "Busy".to_owned(),
        }
    }
}

/// Presence announcement: who a peer is and the key to encrypt messages to it.
#[derive(Clone, Debug)]
pub struct PresenceMessage {
    pub username: String,
    pub status: OnlineStatus,
    pub public_key: [u8; 32],
}

/// A chat message on the wire: the sender's public key, the framed ciphertext
/// (nonce followed by the sealed box) and the sender's timestamp in seconds.
#[derive(Clone, Debug)]
pub struct ChatEnvelope {
    pub sender_pub: [u8; 32],
    pub encrypted: Vec<u8>,
    pub timestamp: u64,
}

/// Acknowledgement that a chat message was received and stored.
#[derive(Clone, Debug)]
pub struct Ack {
    pub msg_id: String,
}

/// How many leading bytes of a gossip message identify it.
pub const GOSSIP_ID_LEN: usize = 20;

/// The identifier of a gossip message: its first 20 bytes, or all of it where it
/// is shorter.
pub fn gossip_message_id(data: &[u8]) -> (id: Vec<u8>)
    ensures
        id@ == data@.take(if data@.len() < 20 {
            data@.len() as int
        } else {
            20
        }),
{
    let n = if data.len() < GOSSIP_ID_LEN {
        data.len()
    } else {
        GOSSIP_ID_LEN
    };
    vstd::slice::slice_to_vec(vstd::slice::slice_subrange(data, 0, n))
}

} // verus!
