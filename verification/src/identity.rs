//! This node's libp2p identity: the Ed25519 keypair in its protobuf key file, and
//! the peer id that is this node's address.
use libp2p::identity::Keypair;
use libp2p::PeerId;
use vstd::prelude::*;

verus! {

/// `libp2p::identity::Keypair`, this node's libp2p keypair, carried through as an
/// opaque value.
#[verifier::external_type_specification]
#[verifier::external_body]
pub struct ExKeypair(libp2p::identity::Keypair);

/// The peer id, as text, of the keypair that libp2p decodes from the protobuf
/// key file `bytes`, or the text of the decoding error.
pub uninterp spec fn keypair_peer_id_of(bytes: Seq<u8>) -> Result<Seq<char>, Seq<char>>;

/// The peer id, as text, of the keypair `keypair`
/// (`PeerId::from(keypair.public())`).
pub uninterp spec fn keypair_peer_id(keypair: Keypair) -> Seq<char>;

/// The key file `bytes` decodes into a keypair whose peer id is `id`.
pub open spec fn key_file_gives(bytes: Seq<u8>, id: Seq<char>) -> bool {
    keypair_peer_id_of(bytes) == Ok::<Seq<char>, Seq<char>>(id)
}

/// `Keypair::from_protobuf_encoding` on `bytes`, then the `Display` text of the
/// keypair's peer id (`PeerId::from(keypair.public())`) or of the decoding error;
/// trusted to be a function of the bytes alone.
#[verifier::external_body]
fn decode_keypair(bytes: &[u8]) -> (r: Result<(Keypair, String), String>)
    ensures
        match r {
            Ok((_, id)) => keypair_peer_id_of(bytes@) == Ok::<Seq<char>, Seq<char>>(id@),
            Err(e) => keypair_peer_id_of(bytes@) == Err::<Seq<char>, Seq<char>>(e@),
        },
        r matches Ok((k, id)) ==> keypair_peer_id(k) == id@,
{
    match Keypair::from_protobuf_encoding(bytes) {
        Ok(keypair) => {
            let id = PeerId::from(keypair.public()).to_string();
            Ok((keypair, id))
        },
        Err(e) => Err(e.to_string()),
    }
}

/// `Keypair::generate_ed25519`, then `to_protobuf_encoding` and the keypair's peer
/// id. The keypair is random. Trusted, as the crate's source shows, that encoding
/// an Ed25519 keypair succeeds, and that the encoding decodes back to the same
/// keypair, so that the key file gives back this peer id.
#[verifier::external_body]
fn generate_keypair() -> (r: Result<(Keypair, Vec<u8>, String), String>)
    ensures
        r is Ok,
        r matches Ok((_, bytes, id)) ==> key_file_gives(bytes@, id@),
        r matches Ok((k, _, id)) ==> keypair_peer_id(k) == id@,
{
    let keypair = Keypair::generate_ed25519();
    match keypair.to_protobuf_encoding() {
        Ok(bytes) => {
            let id = PeerId::from(keypair.public()).to_string();
            Ok((keypair, bytes, id))
        },
        Err(e) => Err(e.to_string()),
    }
}

/// This node's identity read back from its key file: the keypair decoded from it
/// and that keypair's peer id, or the text of why the file holds no keypair.
pub fn identity_from_key_file(bytes: &[u8]) -> (r: Result<(Keypair, String), String>)
    ensures
        match r {
            Ok((_, id)) => keypair_peer_id_of(bytes@) == Ok::<Seq<char>, Seq<char>>(id@),
            Err(e) => keypair_peer_id_of(bytes@) == Err::<Seq<char>, Seq<char>>(e@),
        },
        r matches Ok((k, id)) ==> keypair_peer_id(k) == id@,
{
    decode_keypair(bytes)
}

/// A fresh identity: the keypair, the bytes of its key file and the keypair's peer
/// id. The key file, read back on a later start, decodes into a keypair with the
/// same peer id, so that the address stays the same.
pub fn generate_identity() -> (r: Result<(Keypair, Vec<u8>, String), String>)
    ensures
        r is Ok,
        r matches Ok((_, bytes, id)) ==> key_file_gives(bytes@, id@),
        r matches Ok((k, _, id)) ==> keypair_peer_id(k) == id@,
{
    generate_keypair()
}

/// An identity keeps its address across a restart: a keypair generated with key
/// file `bytes` and the keypair read back from that file on the next start have the
/// same peer id.
pub proof fn lemma_identity_survives_restart(bytes: Seq<u8>, generated: Keypair, loaded: Keypair)
    requires
        key_file_gives(bytes, keypair_peer_id(generated)),
        keypair_peer_id_of(bytes) == Ok::<Seq<char>, Seq<char>>(keypair_peer_id(loaded)),
    ensures
        keypair_peer_id(generated) == keypair_peer_id(loaded),
{
}

} // verus!
