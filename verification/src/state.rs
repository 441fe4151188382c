//! The daemon's chat state and the decisions it takes on each command and on
//! each message from the network: what to publish, what to encrypt and send,
//! which peers to remember and which incoming messages to accept.
use crate::crypto::{box_open_of, box_seal_of, decrypt_spec, sealed_frame, x25519_public_of, ChatCrypto, CryptoError};
use crate::ids::{msg_id_of, msg_id_text};
use crate::peers::{PeerInfo, PeerTable};
use crate::protocol::{status_text, ChatEnvelope, OnlineStatus, PresenceMessage};
use vstd::prelude::*;
use vstd::string::StringExecFns;
use vstd::utf8::{decode_utf8, encode_utf8, valid_utf8};

verus! {

/// The canonical text of the peer id that `libp2p` parses from `text`, or the
/// text of its parse error.
pub uninterp spec fn parsed_peer_id_of(text: Seq<char>) -> Result<Seq<char>, Seq<char>>;

/// The text that `String::from_utf8_lossy` makes of `bytes`.
pub uninterp spec fn utf8_lossy_of(bytes: Seq<u8>) -> Seq<char>;

/// `<libp2p::PeerId as FromStr>::from_str` on `text`, then the `Display` text of
/// the peer id or of the parse error; trusted to be a function of `text` alone.
#[verifier::external_body]
fn parse_peer_id(text: &str) -> (r: Result<String, String>)
    ensures
        match r {
            Ok(peer) => parsed_peer_id_of(text@) == Ok::<Seq<char>, Seq<char>>(peer@),
            Err(e) => parsed_peer_id_of(text@) == Err::<Seq<char>, Seq<char>>(e@),
        },
{
    match text.parse::<libp2p::PeerId>() {
        Ok(peer) => Ok(peer.to_string()),
        Err(e) => Err(e.to_string()),
    }
}

/// `String::from_utf8_lossy(bytes).to_string()`; trusted, as its documentation
/// says, to give back the decoded text where the bytes are valid UTF-8.
#[verifier::external_body]
fn utf8_lossy(bytes: &[u8]) -> (text: String)
    ensures
        text@ == utf8_lossy_of(bytes@),
        valid_utf8(bytes@) ==> text@ == decode_utf8(bytes@),
{
    String::from_utf8_lossy(bytes).to_string()
}

/// What a D-Bus send request comes to, given the counter before and after it,
/// the parsed peer id (or the parse error's text) and the content: a parse error
/// is answered with `invalid peer id: ` and the error, and leaves the counter;
/// a peer id gets the next message identifier and the command to send the content.
pub open spec fn send_request_result(
    counter_before: u64,
    counter_after: u64,
    parsed: Result<Seq<char>, Seq<char>>,
    content: Seq<char>,
    r: Result<(String, Command), String>,
) -> bool {
    match parsed {
        Err(e) => {
            &&& counter_after == counter_before
            &&& r matches Err(message)
            &&& message@ == "invalid peer id: "@ + e
        },
        Ok(peer) => {
            &&& counter_after == counter_before + 1
            &&& r matches Ok((msg_id, Command::SendMessage { peer: p, content: c }))
            &&& msg_id@ == msg_id_of(counter_after as nat)
            &&& p@ == peer
            &&& c@ == content
        },
    }
}

/// A send request's result is what it should be: a parsed peer id gets the next
/// message identifier and the command to send the request's content, unchanged,
/// to that peer; a parse error is answered with `invalid peer id: ` and the error.
pub proof fn lemma_send_request_result(
    counter_before: u64,
    counter_after: u64,
    parsed: Result<Seq<char>, Seq<char>>,
    content: Seq<char>,
    r: Result<(String, Command), String>,
)
    requires
        send_request_result(counter_before, counter_after, parsed, content, r),
    ensures
        parsed matches Ok(peer) ==> (r matches Ok(
            (msg_id, Command::SendMessage { peer: p, content: c }),
        ) && c@ == content && p@ == peer && msg_id@ == msg_id_of(counter_after as nat)
            && counter_after == counter_before + 1),
        parsed matches Err(e) ==> (r matches Err(message) && message@ == "invalid peer id: "@ + e
            && counter_after == counter_before),
{
}

/// A request handed to the swarm task.
#[derive(Debug)]
pub enum Command {
    SendMessage { peer: String, content: String },
    SetStatus { status: OnlineStatus },
}

/// What the swarm task is to do after a command.
pub enum CommandOutcome {
    /// Publish this presence announcement on the presence topic.
    Publish { presence: PresenceMessage },
    /// Store the outgoing message under `msg_id` and send `envelope` to `peer`.
    Send { peer: String, envelope: ChatEnvelope, msg_id: String, content: String },
    /// Nothing is sent: no public key is known for the peer.
    NoPublicKey { peer: String },
    /// Nothing is sent: encryption failed.
    EncryptFailed { peer: String, error: CryptoError },
}

/// What became of a presence announcement.
#[derive(Clone, Copy, Debug, PartialEq, Eq, Structural)]
pub enum PresenceOutcome {
    /// The announcement is this node's own; it is ignored.
    OwnMessage,
    /// The peer was not known before; it is now online.
    NewPeer,
    /// The peer was known; what is known of it is refreshed.
    KnownPeer,
}

/// What became of an incoming chat message.
pub enum ChatRequestOutcome {
    /// The sender is unknown or signed with another key than the one it
    /// announced; the message is dropped unanswered.
    KeyMismatch,
    /// The message could not be decrypted; it is dropped unanswered.
    DecryptFailed { error: CryptoError },
    /// The message is accepted: store it under `msg_id`, announce it and answer
    /// with an acknowledgement of `msg_id`.
    Accepted { msg_id: String, username: String, text: String, timestamp: u64 },
}

/// The daemon's state.
pub struct AppState {
    crypto: ChatCrypto,
    username: String,
    my_peer_id: String,
    peers: PeerTable,
    msg_counter: u64,
}

impl AppState {
    /// The state is well formed.
    pub closed spec fn wf(&self) -> bool {
        self.peers.wf()
    }

    /// The peers heard of: for each peer id, its public key, the username and
    /// status it last announced, and whether it is online.
    pub closed spec fn known_peers(&self) -> Map<Seq<char>, PeerInfo> {
        self.peers@
    }

    /// How many message identifiers were handed out.
    pub closed spec fn counter(&self) -> u64 {
        self.msg_counter
    }

    /// This node's secret key.
    pub closed spec fn secret_key(&self) -> Seq<u8> {
        self.crypto.secret_key()
    }

    /// This node's public key.
    pub closed spec fn public_key(&self) -> Seq<u8> {
        self.crypto.public_key()
    }

    /// This node's username.
    pub closed spec fn own_username(&self) -> Seq<char> {
        self.username@
    }

    /// This node's peer id.
    pub closed spec fn own_peer_id(&self) -> Seq<char> {
        self.my_peer_id@
    }

    /// Keys and identity are those of `other`.
    pub open spec fn same_identity(&self, other: &AppState) -> bool {
        &&& self.secret_key() == other.secret_key()
        &&& self.public_key() == other.public_key()
        &&& self.own_username() == other.own_username()
        &&& self.own_peer_id() == other.own_peer_id()
    }

    /// Nothing observable differs from `other`.
    pub open spec fn same_state(&self, other: &AppState) -> bool {
        &&& self.same_identity(other)
        &&& self.known_peers() == other.known_peers()
        &&& self.counter() == other.counter()
    }

    /// The state of a freshly started daemon: no peer known, no identifier handed out.
    pub fn new(crypto: ChatCrypto, username: String, my_peer_id: String) -> (s: AppState)
        ensures
            s.wf(),
            s.secret_key() == crypto.secret_key(),
            s.public_key() == crypto.public_key(),
            s.own_username() == username@,
            s.own_peer_id() == my_peer_id@,
            s.known_peers() == Map::<Seq<char>, PeerInfo>::empty(),
            s.counter() == 0,
    {
        AppState { crypto, username, my_peer_id, peers: PeerTable::new(), msg_counter: 0 }
    }

    /// This node's key pair.
    pub fn crypto(&self) -> (c: &ChatCrypto)
        ensures
            c.secret_key() == self.secret_key(),
            c.public_key() == self.public_key(),
    {
        &self.crypto
    }

    /// This node's username.
    pub fn username(&self) -> (name: String)
        ensures
            name@ == self.own_username(),
    {
        self.username.clone()
    }

    /// This node's peer id.
    pub fn my_peer_id(&self) -> (id: String)
        ensures
            id@ == self.own_peer_id(),
    {
        self.my_peer_id.clone()
    }

    /// How many message identifiers were handed out.
    pub fn msg_counter(&self) -> (n: u64)
        ensures
            n == self.counter(),
    {
        self.msg_counter
    }

    /// Hands out the next message identifier, `msg_` and the counter's new value.
    pub fn next_msg_id(&mut self) -> (id: String)
        requires
            old(self).counter() < u64::MAX,
        ensures
            final(self).counter() == old(self).counter() + 1,
            id@ == msg_id_of(final(self).counter() as nat),
            final(self).same_identity(old(self)),
            final(self).known_peers() == old(self).known_peers(),
            final(self).wf() == old(self).wf(),
    {
        self.msg_counter = self.msg_counter + 1;
        msg_id_text(self.msg_counter)
    }

    /// The presence announcement of this node with status `status`.
    pub fn presence_message(&self, status: OnlineStatus) -> (p: PresenceMessage)
        ensures
            p.username@ == self.own_username(),
            p.status == status,
            p.public_key@ == self.public_key(),
    {
        PresenceMessage {
            username: self.username.clone(),
            status,
            public_key: self.crypto.public_key_bytes(),
        }
    }

    /// Whether to dial a peer discovered on the local network: every peer but
    /// this node itself.
    pub fn should_dial(&self, peer: &String) -> (dial: bool)
        ensures
            dial == (peer@ != self.own_peer_id()),
    {
        !(*peer == self.my_peer_id)
    }

    /// Whether a public key is known for `peer`.
    pub fn knows_peer(&self, peer: &String) -> (b: bool)
        requires
            self.wf(),
        ensures
            b == self.known_peers().dom().contains(peer@),
    {
        self.peers.contains(peer)
    }

    /// The decision on a command from the D-Bus interface or the presence timer.
    ///
    /// `SetStatus` publishes this node's presence with the new status.
    /// `SendMessage` encrypts the content's UTF-8 bytes to the public key that the
    /// peer announced, frames it in an envelope with this node's public key and
    /// `timestamp`, and hands out the message identifier under which it is stored;
    /// where no key is known for the peer nothing is sent and nothing changes.
    pub fn handle_command(&mut self, cmd: Command, timestamp: u64) -> (outcome: CommandOutcome)
        requires
            old(self).wf(),
            cmd matches Command::SendMessage { peer, .. } ==> (old(self).known_peers().dom().contains(
                peer@,
            ) ==> old(self).counter() < u64::MAX),
            cmd matches Command::SendMessage { content, .. } ==> encode_utf8(content@).len() + 40
                <= isize::MAX,
        ensures
            final(self).wf(),
            final(self).same_identity(old(self)),
            final(self).known_peers() == old(self).known_peers(),
            match cmd {
                Command::SetStatus { status } => {
                    &&& final(self).counter() == old(self).counter()
                    &&& outcome matches CommandOutcome::Publish { presence }
                    &&& presence.username@ == old(self).own_username()
                    &&& presence.status == status
                    &&& presence.public_key@ == old(self).public_key()
                },
                Command::SendMessage { peer, content } => if !old(
                    self,
                ).known_peers().dom().contains(peer@) {
                    &&& final(self).counter() == old(self).counter()
                    &&& outcome matches CommandOutcome::NoPublicKey { peer: p }
                    &&& p@ == peer@
                } else {
                    &&& final(self).counter() == old(self).counter() + 1
                    &&& outcome matches CommandOutcome::Send { peer: p, envelope, msg_id, content: c }
                    &&& p@ == peer@
                    &&& c@ == content@
                    &&& msg_id@ == msg_id_of(final(self).counter() as nat)
                    &&& envelope.sender_pub@ == old(self).public_key()
                    &&& envelope.timestamp == timestamp
                    &&& envelope.encrypted@.len() == encode_utf8(content@).len() + 40
                    &&& envelope.encrypted@.skip(24) == box_seal_of(
                        old(self).secret_key(),
                        old(self).known_peers()[peer@].0,
                        envelope.encrypted@.take(24),
                        encode_utf8(content@),
                    )
                    &&& exists|nonce: Seq<u8>|
                        nonce.len() == 24 && envelope.encrypted@ == sealed_frame(
                            old(self).secret_key(),
                            old(self).known_peers()[peer@].0,
                            nonce,
                            encode_utf8(content@),
                        )
                },
            },
    {
        match cmd {
            Command::SetStatus { status } => CommandOutcome::Publish {
                presence: self.presence_message(status),
            },
            Command::SendMessage { peer, content } => {
                match self.peers.public_key_of(&peer) {
                    None => CommandOutcome::NoPublicKey { peer },
                    Some(recipient) => {
                        let plaintext = content.as_str().as_bytes();
                        match self.crypto.encrypt(&recipient, plaintext) {
                            Ok(encrypted) => {
                                let envelope = ChatEnvelope {
                                    sender_pub: self.crypto.public_key_bytes(),
                                    encrypted,
                                    timestamp,
                                };
                                let msg_id = self.next_msg_id();
                                CommandOutcome::Send { peer, envelope, msg_id, content }
                            },
                            Err(error) => CommandOutcome::EncryptFailed { peer, error },
                        }
                    },
                }
            },
        }
    }

    /// The decision on a D-Bus request to send `content` to the peer written
    /// `peer_text`: a text that is no peer id is refused with the parse error;
    /// otherwise the request gets the next message identifier, which is answered
    /// to the caller, and the command to send the message.
    pub fn send_request(&mut self, peer_text: &str, content: &str) -> (r: Result<
        (String, Command),
        String,
    >)
        requires
            old(self).wf(),
            parsed_peer_id_of(peer_text@) is Ok ==> old(self).counter() < u64::MAX,
        ensures
            final(self).wf(),
            final(self).same_identity(old(self)),
            final(self).known_peers() == old(self).known_peers(),
            send_request_result(
                old(self).counter(),
                final(self).counter(),
                parsed_peer_id_of(peer_text@),
                content@,
                r,
            ),
            parsed_peer_id_of(peer_text@) matches Ok(peer) ==> (r matches Ok(
                (msg_id, Command::SendMessage { peer: p, content: c }),
            ) && c@ == content@ && p@ == peer && msg_id@ == msg_id_of(final(self).counter() as nat)
                && final(self).counter() == old(self).counter() + 1),
            parsed_peer_id_of(peer_text@) matches Err(e) ==> (r matches Err(message) && message@
                == "invalid peer id: "@ + e && final(self).counter() == old(self).counter()),
    {
        let parsed = parse_peer_id(peer_text);
        self.accept_send_request(parsed, content)
    }

    /// `send_request` where the message counter may be full: `None`, with nothing
    /// changed, where the text is a peer id but no identifier is left to hand out.
    pub fn send_request_checked(&mut self, peer_text: &str, content: &str) -> (r: Option<
        Result<(String, Command), String>,
    >)
        requires
            old(self).wf(),
        ensures
            final(self).wf(),
            final(self).same_identity(old(self)),
            final(self).known_peers() == old(self).known_peers(),
            r is None <==> (parsed_peer_id_of(peer_text@) is Ok && old(self).counter() == u64::MAX),
            r is None ==> final(self).counter() == old(self).counter(),
            r matches Some(res) ==> send_request_result(
                old(self).counter(),
                final(self).counter(),
                parsed_peer_id_of(peer_text@),
                content@,
                res,
            ),
            parsed_peer_id_of(peer_text@) matches Ok(peer) ==> (r matches Some(res) ==> (res matches Ok(
                (msg_id, Command::SendMessage { peer: p, content: c }),
            ) && c@ == content@ && p@ == peer && msg_id@ == msg_id_of(final(self).counter() as nat)
                && final(self).counter() == old(self).counter() + 1)),
            parsed_peer_id_of(peer_text@) matches Err(e) ==> (r matches Some(res) && res matches Err(
                message,
            ) && message@ == "invalid peer id: "@ + e && final(self).counter() == old(self).counter()),
    {
        if self.msg_counter < u64::MAX {
            Some(self.send_request(peer_text, content))
        } else {
            match parse_peer_id(peer_text) {
                Err(e) => Some(self.accept_send_request(Err(e), content)),
                Ok(_) => None,
            }
        }
    }

    /// The decision on a D-Bus send request once the peer's text was parsed into
    /// `parsed`: the canonical peer id, or the parse error's text.
    pub fn accept_send_request(&mut self, parsed: Result<String, String>, content: &str) -> (r: Result<
        (String, Command),
        String,
    >)
        requires
            old(self).wf(),
            parsed is Ok ==> old(self).counter() < u64::MAX,
        ensures
            final(self).wf(),
            final(self).same_identity(old(self)),
            final(self).known_peers() == old(self).known_peers(),
            send_request_result(
                old(self).counter(),
                final(self).counter(),
                match parsed {
                    Ok(p) => Ok::<Seq<char>, Seq<char>>(p@),
                    Err(e) => Err::<Seq<char>, Seq<char>>(e@),
                },
                content@,
                r,
            ),
            parsed matches Ok(peer) ==> (r matches Ok(
                (msg_id, Command::SendMessage { peer: p, content: c }),
            ) && c@ == content@ && p@ == peer@ && msg_id@ == msg_id_of(final(self).counter() as nat)
                && final(self).counter() == old(self).counter() + 1),
            parsed matches Err(e) ==> (r matches Err(message) && message@ == "invalid peer id: "@
                + e@ && final(self).counter() == old(self).counter()),
    {
        match parsed {
            Err(e) => {
                let mut message = "invalid peer id: ".to_owned();
                message.append(e.as_str());
                Err(message)
            },
            Ok(peer) => {
                let msg_id = self.next_msg_id();
                Ok((msg_id, Command::SendMessage { peer, content: content.to_owned() }))
            },
        }
    }

    /// The decision on a presence announcement relayed by `propagation_source`,
    /// the peer that the announcement is credited to: this node's own
    /// announcements are ignored; otherwise the peer's public key, username and
    /// status are recorded, replacing what was known, and it is online; the peer
    /// is new where it was not known before.
    pub fn on_presence(&mut self, propagation_source: &String, presence: &PresenceMessage) -> (outcome:
        PresenceOutcome)
        requires
            old(self).wf(),
        ensures
            final(self).wf(),
            final(self).same_identity(old(self)),
            final(self).counter() == old(self).counter(),
            propagation_source@ == old(self).own_peer_id() ==> outcome == PresenceOutcome::OwnMessage
                && final(self).known_peers() == old(self).known_peers(),
            propagation_source@ != old(self).own_peer_id() ==> final(self).known_peers() == old(
                self,
            ).known_peers().insert(
                propagation_source@,
                (presence.public_key@, presence.username@, presence.status, true),
            ),
            propagation_source@ != old(self).own_peer_id() ==> (outcome == PresenceOutcome::NewPeer
                <==> !old(self).known_peers().dom().contains(propagation_source@)),
            propagation_source@ != old(self).own_peer_id() ==> outcome != PresenceOutcome::OwnMessage,
    {
        if *propagation_source == self.my_peer_id {
            return PresenceOutcome::OwnMessage;
        }
        let is_new = !self.peers.contains(propagation_source);
        self.peers.insert(
            propagation_source,
            presence.public_key,
            presence.username.clone(),
            presence.status,
        );
        if is_new {
            PresenceOutcome::NewPeer
        } else {
            PresenceOutcome::KnownPeer
        }
    }

    /// The decision when the last connection to `peer` closed: the peer is no
    /// longer online; its key, username and status are kept, so that messages to
    /// and from it still go through.
    pub fn on_peer_gone(&mut self, peer: &String)
        requires
            old(self).wf(),
        ensures
            final(self).wf(),
            final(self).same_identity(old(self)),
            final(self).counter() == old(self).counter(),
            final(self).known_peers() == if old(self).known_peers().dom().contains(peer@) {
                old(self).known_peers().insert(
                    peer@,
                    (
                        old(self).known_peers()[peer@].0,
                        old(self).known_peers()[peer@].1,
                        old(self).known_peers()[peer@].2,
                        false,
                    ),
                )
            } else {
                old(self).known_peers()
            },
    {
        self.peers.set_offline(peer);
    }

    /// Whether a chat message from `peer` under `envelope` gets past the key check
    /// and decrypts, so that it is accepted.
    pub open spec fn accepts_chat(&self, peer: Seq<char>, envelope: ChatEnvelope) -> bool {
        &&& self.known_peers().dom().contains(peer)
        &&& self.known_peers()[peer].0 == envelope.sender_pub@
        &&& decrypt_spec(self.secret_key(), envelope.sender_pub@, envelope.encrypted@) is Ok
    }

    /// The key check and the decryption of a chat message from `peer`: the
    /// plaintext, or the outcome that drops the message.
    fn open_chat_request(&self, peer: &String, envelope: &ChatEnvelope) -> (r: Result<
        Vec<u8>,
        ChatRequestOutcome,
    >)
        requires
            self.wf(),
        ensures
            !(self.known_peers().dom().contains(peer@) && self.known_peers()[peer@].0
                == envelope.sender_pub@) ==> (r matches Err(ChatRequestOutcome::KeyMismatch)),
            self.known_peers().dom().contains(peer@) && self.known_peers()[peer@].0
                == envelope.sender_pub@ ==> match decrypt_spec(
                self.secret_key(),
                envelope.sender_pub@,
                envelope.encrypted@,
            ) {
                Err(e) => r matches Err(ChatRequestOutcome::DecryptFailed { error }) && error == e,
                Ok(plain) => r matches Ok(p) && p@ == plain,
            },
            forall|a: Seq<u8>, nonce: Seq<u8>, m: Seq<u8>|
                #![trigger sealed_frame(a, x25519_public_of(self.secret_key()), nonce, m)]
                self.known_peers().dom().contains(peer@) && self.known_peers()[peer@].0
                    == envelope.sender_pub@ && a.len() == 32 && nonce.len() == 24
                    && envelope.sender_pub@ == x25519_public_of(a) && envelope.encrypted@
                    == sealed_frame(a, x25519_public_of(self.secret_key()), nonce, m) ==> (r matches Ok(
                    p,
                ) && p@ == m),
    {
        let key_ok = match self.peers.public_key_of(peer) {
            Some(stored) => crate::crypto::keys_equal(&stored, &envelope.sender_pub),
            None => false,
        };
        if !key_ok {
            return Err(ChatRequestOutcome::KeyMismatch);
        }
        match self.crypto.decrypt(&envelope.sender_pub, envelope.encrypted.as_slice()) {
            Err(error) => Err(ChatRequestOutcome::DecryptFailed { error }),
            Ok(plaintext) => Ok(plaintext),
        }
    }

    /// Accepts the decrypted `plaintext` of a chat message from `peer`.
    fn accept_chat_plaintext(&mut self, peer: &String, plaintext: Vec<u8>, timestamp: u64) -> (outcome:
        ChatRequestOutcome)
        requires
            old(self).wf(),
            old(self).counter() < u64::MAX,
            old(self).known_peers().dom().contains(peer@),
        ensures
            final(self).wf(),
            final(self).same_identity(old(self)),
            final(self).known_peers() == old(self).known_peers(),
            final(self).counter() == old(self).counter() + 1,
            outcome matches ChatRequestOutcome::Accepted { msg_id, username, text, timestamp: t }
                && msg_id@ == msg_id_of(final(self).counter() as nat) && username@ == old(
                self,
            ).known_peers()[peer@].1 && text@ == utf8_lossy_of(plaintext@) && t == timestamp,
            valid_utf8(plaintext@) ==> (outcome matches ChatRequestOutcome::Accepted { text, .. }
                && text@ == decode_utf8(plaintext@)),
    {
        let text = utf8_lossy(plaintext.as_slice());
        let username = match self.peers.username_of(peer) {
            Some(name) => name,
            None => String::new(),
        };
        let msg_id = self.next_msg_id();
        ChatRequestOutcome::Accepted { msg_id, username, text, timestamp }
    }

    /// The decision on a chat message from `peer`. It is dropped unless the
    /// envelope's sender key is the key that `peer` announced. Otherwise it is
    /// decrypted with that key; a message that does not decrypt is dropped, and
    /// one that does is accepted under the next message identifier, with its text
    /// read as UTF-8 (invalid sequences replaced), the username that `peer`
    /// announced and the envelope's timestamp. A message that the peer encrypted
    /// with the secret key behind its announced key, to this node's key, is
    /// accepted with the text that was sent.
    pub fn on_chat_request(&mut self, peer: &String, envelope: &ChatEnvelope) -> (outcome:
        ChatRequestOutcome)
        requires
            old(self).wf(),
            old(self).accepts_chat(peer@, *envelope) ==> old(self).counter() < u64::MAX,
        ensures
            final(self).wf(),
            final(self).same_identity(old(self)),
            final(self).known_peers() == old(self).known_peers(),
            !(old(self).known_peers().dom().contains(peer@) && old(self).known_peers()[peer@].0
                == envelope.sender_pub@) ==> {
                &&& final(self).counter() == old(self).counter()
                &&& outcome is KeyMismatch
            },
            old(self).known_peers().dom().contains(peer@) && old(self).known_peers()[peer@].0
                == envelope.sender_pub@ ==> match decrypt_spec(
                old(self).secret_key(),
                envelope.sender_pub@,
                envelope.encrypted@,
            ) {
                Err(e) => {
                    &&& final(self).counter() == old(self).counter()
                    &&& outcome matches ChatRequestOutcome::DecryptFailed { error }
                    &&& error == e
                },
                Ok(plain) => {
                    &&& final(self).counter() == old(self).counter() + 1
                    &&& outcome matches ChatRequestOutcome::Accepted {
                        msg_id,
                        username,
                        text,
                        timestamp,
                    }
                    &&& msg_id@ == msg_id_of(final(self).counter() as nat)
                    &&& username@ == old(self).known_peers()[peer@].1
                    &&& text@ == utf8_lossy_of(plain)
                    &&& timestamp == envelope.timestamp
                },
            },
            old(self).known_peers().dom().contains(peer@) && old(self).known_peers()[peer@].0
                == envelope.sender_pub@ && envelope.encrypted@.len() < 24 ==> (outcome matches ChatRequestOutcome::DecryptFailed { error }
                && error == CryptoError::CiphertextTooShort),
            old(self).known_peers().dom().contains(peer@) && old(self).known_peers()[peer@].0
                == envelope.sender_pub@ && envelope.encrypted@.len() >= 24 ==> match box_open_of(
                old(self).secret_key(),
                envelope.sender_pub@,
                envelope.encrypted@.take(24),
                envelope.encrypted@.skip(24),
            ) {
                None => outcome matches ChatRequestOutcome::DecryptFailed { error } && error
                    == CryptoError::DecryptionFailed,
                Some(plain) => outcome matches ChatRequestOutcome::Accepted { text, .. } && text@
                    == utf8_lossy_of(plain),
            },
            forall|a: Seq<u8>, nonce: Seq<u8>, content: Seq<char>|
                #![trigger sealed_frame(a, x25519_public_of(old(self).secret_key()), nonce, encode_utf8(content))]
                old(self).known_peers().dom().contains(peer@) && old(self).known_peers()[peer@].0
                    == envelope.sender_pub@ && a.len() == 32 && nonce.len() == 24
                    && envelope.sender_pub@ == x25519_public_of(a) && envelope.encrypted@
                    == sealed_frame(
                    a,
                    x25519_public_of(old(self).secret_key()),
                    nonce,
                    encode_utf8(content),
                ) ==> (outcome matches ChatRequestOutcome::Accepted { text, .. } && text@
                    == content),
    {
        match self.open_chat_request(peer, envelope) {
            Err(outcome) => outcome,
            Ok(plaintext) => {
                proof {
                    broadcast use vstd::utf8::encode_utf8_valid_utf8, vstd::utf8::encode_utf8_decode_utf8;
                }
                self.accept_chat_plaintext(peer, plaintext, envelope.timestamp)
            },
        }
    }

    /// `on_chat_request` where the message counter may be full: `None`, with
    /// nothing changed, where the message would be accepted but no identifier is
    /// left to hand out.
    pub fn on_chat_request_checked(&mut self, peer: &String, envelope: &ChatEnvelope) -> (r: Option<
        ChatRequestOutcome,
    >)
        requires
            old(self).wf(),
        ensures
            final(self).wf(),
            final(self).same_identity(old(self)),
            final(self).known_peers() == old(self).known_peers(),
            r is None <==> (old(self).accepts_chat(peer@, *envelope) && old(self).counter()
                == u64::MAX),
            r is None ==> final(self).counter() == old(self).counter(),
            !(old(self).known_peers().dom().contains(peer@) && old(self).known_peers()[peer@].0
                == envelope.sender_pub@) ==> {
                &&& final(self).counter() == old(self).counter()
                &&& r matches Some(ChatRequestOutcome::KeyMismatch)
            },
            old(self).known_peers().dom().contains(peer@) && old(self).known_peers()[peer@].0
                == envelope.sender_pub@ ==> match decrypt_spec(
                old(self).secret_key(),
                envelope.sender_pub@,
                envelope.encrypted@,
            ) {
                Err(e) => {
                    &&& final(self).counter() == old(self).counter()
                    &&& r matches Some(ChatRequestOutcome::DecryptFailed { error })
                    &&& error == e
                },
                Ok(plain) => old(self).counter() < u64::MAX ==> {
                    &&& final(self).counter() == old(self).counter() + 1
                    &&& r matches Some(
                        ChatRequestOutcome::Accepted { msg_id, username, text, timestamp },
                    )
                    &&& msg_id@ == msg_id_of(final(self).counter() as nat)
                    &&& username@ == old(self).known_peers()[peer@].1
                    &&& text@ == utf8_lossy_of(plain)
                    &&& timestamp == envelope.timestamp
                },
            },
    {
        if self.msg_counter < u64::MAX {
            Some(self.on_chat_request(peer, envelope))
        } else {
            match self.open_chat_request(peer, envelope) {
                Err(outcome) => Some(outcome),
                Ok(_) => None,
            }
        }
    }

    /// The peers that are online: for each online peer its username, its peer id
    /// and the text of the status it last announced, each peer once.
    pub fn online_peers(&self) -> (list: Vec<(String, String, String)>)
        requires
            self.wf(),
        ensures
            forall|i: int|
                0 <= i < list@.len() ==> {
                    let k = (#[trigger] list@[i]).1@;
                    &&& self.known_peers().dom().contains(k)
                    &&& self.known_peers()[k].3
                    &&& list@[i].0@ == self.known_peers()[k].1
                    &&& list@[i].2@ == status_text(self.known_peers()[k].2)
                },
            forall|k: Seq<char>|
                self.known_peers().dom().contains(k) && #[trigger] self.known_peers()[k].3
                    ==> exists|i: int| 0 <= i < list@.len() && (#[trigger] list@[i]).1@ == k,
            forall|i: int, j: int|
                0 <= i < j < list@.len() ==> (#[trigger] list@[i]).1@ != (#[trigger] list@[j]).1@,
    {
        let list = self.peers.online_entries();
        list
    }
}

} // verus!
