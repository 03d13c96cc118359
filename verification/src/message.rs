//! Messages: the size rule, their rendering as text, and their identity.
//!
//! A message travels as raw bytes. Hosts hand it in and get it back as text,
//! and the gossip engine tells messages apart by an identity computed from
//! the bytes alone.

use crate::error::SplashError;
use crate::text::{decimal, decimal_text, lemma_decimal_injective};
use std::collections::hash_map::DefaultHasher;
use std::hash::Hash;
use std::hash::Hasher;
use vstd::prelude::*;
use vstd::std_specs::hash::DefaultHasherAdditionalSpecFns;
use vstd::utf8::*;

verus! {

/// Largest message the node takes or relays, in bytes: 300 KiB.
pub const MAX_MESSAGE_SIZE: usize = 300 * 1024;

/// What the size rule says of a message, which is its payload: the number
/// of its bytes must not exceed the limit.
pub open spec fn payload_validation(payload: Seq<u8>) -> Result<(), SplashError> {
    if payload.len() > MAX_MESSAGE_SIZE {
        Err(SplashError::MessageTooLarge(MAX_MESSAGE_SIZE))
    } else {
        Ok(())
    }
}

/// What the size rule says of a message given as text: the rule is applied
/// to the bytes that the text travels as, its UTF-8 form.
pub open spec fn validation(message: Seq<char>) -> Result<(), SplashError> {
    payload_validation(encode_utf8(message))
}

/// The text that `String::from_utf8_lossy` makes of bytes that are not valid
/// UTF-8.
pub uninterp spec fn lossy_decoded(bytes: Seq<u8>) -> Seq<char>;

/// A payload rendered as text: decoded as UTF-8 where it is valid UTF-8,
/// lossily otherwise.
pub open spec fn text_of(bytes: Seq<u8>) -> Seq<char> {
    if valid_utf8(bytes) {
        decode_utf8(bytes)
    } else {
        lossy_decoded(bytes)
    }
}

/// What `Hash::hash` of a payload writes into a hasher, write by write.
pub uninterp spec fn hashed_writes(data: Seq<u8>) -> Seq<Seq<u8>>;

/// The 64-bit digest of a payload under the standard hasher, started afresh.
pub open spec fn message_digest(data: Seq<u8>) -> u64 {
    DefaultHasher::spec_finish(hashed_writes(data))
}

/// The identity of a message: the digest of its bytes, written in decimal.
pub open spec fn message_id_of(data: Seq<u8>) -> Seq<char> {
    decimal(message_digest(data) as nat)
}

/// Decodes bytes with `String::from_utf8_lossy`.
///
/// Trusted: valid UTF-8 decodes to the text it encodes; for other input the
/// result depends on the bytes alone.
#[verifier::external_body]
fn lossy_text(bytes: &[u8]) -> (text: String)
    ensures
        text@ == if valid_utf8(bytes@) {
            decode_utf8(bytes@)
        } else {
            lossy_decoded(bytes@)
        },
{
    String::from_utf8_lossy(bytes).into_owned()
}

/// Feeds a payload to a hasher with `Hash::hash` of `Vec<u8>`.
///
/// Trusted: the hasher receives further writes, and which ones depends, in
/// any one build of the program, on the payload alone.
#[verifier::external_body]
fn feed(state: &mut DefaultHasher, data: &Vec<u8>)
    ensures
        final(state)@ == old(state)@ + hashed_writes(data@),
{
    data.hash(state);
}

/// Applies the size rule to a payload. This is the one rule that every
/// message passes, on its way out as on its way in.
pub fn validate_payload(payload: &[u8]) -> (r: Result<(), SplashError>)
    ensures
        r == payload_validation(payload@),
{
    if payload.len() > MAX_MESSAGE_SIZE {
        Err(SplashError::MessageTooLarge(MAX_MESSAGE_SIZE))
    } else {
        Ok(())
    }
}

/// Renders a payload as text.
pub fn payload_text(payload: &Vec<u8>) -> (text: String)
    ensures
        text@ == text_of(payload@),
{
    lossy_text(payload.as_slice())
}

/// Computes the identity under which the gossip engine knows a message.
pub fn message_id(data: &Vec<u8>) -> (id: String)
    ensures
        id@ == message_id_of(data@),
{
    let mut state = DefaultHasher::new();
    feed(&mut state, data);
    assert(state@ =~= hashed_writes(data@));
    decimal_text(state.finish())
}

/// A message given as text comes back as the same text once it has travelled
/// as bytes.
pub proof fn lemma_text_survives_encoding(message: Seq<char>)
    ensures
        text_of(encode_utf8(message)) == message,
{
    encode_utf8_valid_utf8(message);
    encode_utf8_decode_utf8(message);
}

/// The identity of a message depends on its bytes alone: equal payloads have
/// equal identities.
pub proof fn lemma_identity_from_bytes(a: Seq<u8>, b: Seq<u8>)
    requires
        a == b,
    ensures
        message_id_of(a) == message_id_of(b),
{
}

/// The identity tells apart exactly what the digest tells apart: two
/// payloads have one identity if and only if they have one digest.
pub proof fn lemma_identity_follows_digest(a: Seq<u8>, b: Seq<u8>)
    ensures
        message_id_of(a) == message_id_of(b) <==> message_digest(a) == message_digest(b),
{
    if message_id_of(a) == message_id_of(b) {
        lemma_decimal_injective(message_digest(a) as nat, message_digest(b) as nat);
    }
}

/// The size rule in numbers: a payload of at most 300 x 1024 bytes is valid,
/// a longer one is too large.
pub proof fn lemma_payload_validation_by_length(payload: Seq<u8>)
    ensures
        payload.len() <= 300 * 1024 ==> payload_validation(payload) == Ok::<(), SplashError>(()),
        payload.len() > 300 * 1024 ==> payload_validation(payload) == Err::<(), SplashError>(
            SplashError::MessageTooLarge(307200),
        ),
{
}

/// The same for a message given as text, by the length of its UTF-8 form.
pub proof fn lemma_validation_by_length(message: Seq<char>)
    ensures
        encode_utf8(message).len() <= 300 * 1024 ==> validation(message) == Ok::<(), SplashError>(()),
        encode_utf8(message).len() > 300 * 1024 ==> validation(message) == Err::<(), SplashError>(
            SplashError::MessageTooLarge(307200),
        ),
{
}

} // verus!
