//! Trusted bridge to the nostro2 event library: keypairs, notes, signing and
//! NIP-44 encryption. Everything here is believed, not proved: each item's doc
//! comment names the outside function it relies on. The spec functions name
//! what an opaque note or keypair holds, so contracts can speak about them.

use vstd::prelude::*;
use nostro2::keypair::NostrKeypair;
use nostro2::notes::NostrNote;
use crate::fhir_trait::FhirError;

verus! {

#[verifier::external_type_specification]
#[verifier::external_body]
pub struct ExNostrKeypair(NostrKeypair);

#[verifier::external_type_specification]
#[verifier::external_body]
pub struct ExNostrNote(NostrNote);

/// The hex x-only public key of a keypair: what `NostrKeypair::public_key`
/// returns, a function of the keypair alone.
pub uninterp spec fn keys_pubkey(k: NostrKeypair) -> Seq<char>;

/// The author public key a note holds.
pub uninterp spec fn note_pubkey(n: NostrNote) -> Seq<char>;

/// The kind code a note holds.
pub uninterp spec fn note_kind(n: NostrNote) -> u32;

/// The content a note holds.
pub uninterp spec fn note_content(n: NostrNote) -> Seq<char>;

/// The id a note holds, once computed by signing.
pub uninterp spec fn note_id(n: NostrNote) -> Option<Seq<char>>;

/// What `NostrKeypair::decrypt_nip_44_content` returns for a note, a
/// deterministic function of the keypair and the note; `None` when decryption
/// fails. Note that this implementation decrypts without checking the
/// message authentication tag.
pub uninterp spec fn nip44_plaintext(k: NostrKeypair, n: NostrNote) -> Option<Seq<char>>;

/// Relies on `NostrKeypair::public_key`: the hex of the x-only public key.
#[verifier::external_body]
pub fn keys_public_key(k: &NostrKeypair) -> (r: String)
    ensures
        r@ == keys_pubkey(*k),
{
    k.public_key()
}

/// Relies on `NostrNote::default` and the struct's public fields: a fresh note
/// carries exactly the author, kind and content it is given, and no id yet.
#[verifier::external_body]
pub fn new_note(pubkey: &str, kind: u32, content: &Vec<char>) -> (r: NostrNote)
    ensures
        note_pubkey(r) == pubkey@,
        note_kind(r) == kind,
        note_content(r) == content@,
        note_id(r) is None,
{
    NostrNote {
        pubkey: pubkey.to_string(),
        kind,
        content: content.iter().collect(),
        ..Default::default()
    }
}

/// Relies on `NostrKeypair::sign_nostr_event`: it computes the note's id from
/// its serialized form and attaches a signature, touching no other field; the
/// id serialization of plain strings and integers cannot fail.
#[verifier::external_body]
pub fn sign_note(keys: &NostrKeypair, note: &mut NostrNote) -> (u: ())
    ensures
        note_pubkey(*final(note)) == note_pubkey(*old(note)),
        note_kind(*final(note)) == note_kind(*old(note)),
        note_content(*final(note)) == note_content(*old(note)),
        note_id(*final(note)) is Some,
{
    keys.sign_nostr_event(note)
}

/// Relies on `NostrKeypair::sign_nip_44_encrypted`: on success the note's
/// content is replaced by a NIP-44 ciphertext of the old content, addressed to
/// the recipient public key, and the note is signed. Any keypair whose x-only
/// public key equals the recipient key derives the same conversation secret
/// (ECDH uses only the shared x coordinate), so its decryption returns the
/// old content. Requires the note to be authored by the signing keys, because
/// the recipient derives the conversation key from the note's author field.
#[verifier::external_body]
pub fn encrypt_sign_note(keys: &NostrKeypair, note: &mut NostrNote, recipient: &str) -> (r: Result<
    (),
    FhirError,
>)
    requires
        note_pubkey(*old(note)) == keys_pubkey(*keys),
    ensures
        r is Ok ==> {
            &&& note_pubkey(*final(note)) == note_pubkey(*old(note))
            &&& note_kind(*final(note)) == note_kind(*old(note))
            &&& note_id(*final(note)) is Some
            &&& forall|rk: NostrKeypair|
                keys_pubkey(rk) == recipient@ ==> nip44_plaintext(rk, *final(note)) == Some(
                    note_content(*old(note)),
                )
        },
        r matches Err(e) ==> e == FhirError::CryptoSign,
{
    match keys.sign_nip_44_encrypted(note, recipient.to_string()) {
        Ok(()) => Ok(()),
        Err(_) => Err(FhirError::CryptoSign),
    }
}

/// Relies on `NostrKeypair::decrypt_nip_44_content`: deterministic decryption
/// of the note's content, using the note's author key and the given keypair's
/// secret. The implementation reads but does not verify the authentication
/// tag; the contract claims nothing about authenticity.
#[verifier::external_body]
pub fn decrypt_note_content(keys: &NostrKeypair, note: &NostrNote) -> (r: Result<
    Vec<char>,
    FhirError,
>)
    ensures
        r matches Ok(p) ==> nip44_plaintext(*keys, *note) == Some(p@),
        r matches Err(e) ==> e == FhirError::Decrypt && nip44_plaintext(*keys, *note) is None,
{
    match keys.decrypt_nip_44_content(note) {
        Ok(s) => Ok(s.chars().collect()),
        Err(_) => Err(FhirError::Decrypt),
    }
}

/// Relies on the note's public `pubkey` field.
#[verifier::external_body]
pub fn note_get_pubkey(n: &NostrNote) -> (r: String)
    ensures
        r@ == note_pubkey(*n),
{
    n.pubkey.clone()
}

/// Relies on the note's public `id` field.
#[verifier::external_body]
pub fn note_get_id(n: &NostrNote) -> (r: Option<String>)
    ensures
        match r {
            Some(id) => note_id(*n) == Some(id@),
            None => note_id(*n) is None,
        },
{
    n.id.clone()
}

/// Relies on the note's public `content` field.
#[verifier::external_body]
pub fn note_get_content_chars(n: &NostrNote) -> (r: Vec<char>)
    ensures
        r@ == note_content(*n),
{
    n.content.chars().collect()
}

/// Relies on `NostrNote`'s `Clone`: a clone of a plain data struct is the
/// same value.
pub assume_specification [ <NostrNote as Clone>::clone ](n: &NostrNote) -> (r: NostrNote)
    ensures
        r == *n,
;

} // verus!
