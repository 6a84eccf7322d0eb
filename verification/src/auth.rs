//! Signature authentication, through the sessionless protocol crate.
//!
//! Public keys, signatures, and verification come from the outside crate and
//! are taken on trust here. Parsing a key or a signature, and verifying a
//! signature, are deterministic functions of the strings involved, so each
//! outcome is named by a spec function and every caller's contract speaks of
//! those names. A parsed value is kept together with the exact text it was
//! parsed from, so that verification can be stated over the texts.

use std::str::FromStr;
use vstd::prelude::*;

verus! {

#[verifier::external_type_specification]
#[verifier::external_body]
pub struct ExPublicKey(sessionless::secp256k1::PublicKey);

#[verifier::external_type_specification]
#[verifier::external_body]
pub struct ExSignature(sessionless::secp256k1::ecdsa::Signature);

#[verifier::external_type_specification]
#[verifier::external_body]
pub struct ExSessionless(sessionless::Sessionless);

/// Whether `s` parses as a string-encoded public key.
pub uninterp spec fn pub_key_well_formed(s: Seq<char>) -> bool;

/// Whether `s` parses as a string-encoded signature.
pub uninterp spec fn signature_well_formed(s: Seq<char>) -> bool;

/// Whether the signature encoded by `signature` is valid for `message` under
/// the public key encoded by `pub_key`.
pub uninterp spec fn signature_matches(
    message: Seq<char>,
    pub_key: Seq<char>,
    signature: Seq<char>,
) -> bool;

/// A public key together with the text it was parsed from.
pub struct ParsedPubKey {
    text: String,
    key: sessionless::secp256k1::PublicKey,
}

impl ParsedPubKey {
    pub closed spec fn text_view(&self) -> Seq<char> {
        self.text@
    }
}

/// A signature together with the text it was parsed from.
pub struct ParsedSignature {
    text: String,
    signature: sessionless::secp256k1::ecdsa::Signature,
}

impl ParsedSignature {
    pub closed spec fn text_view(&self) -> Seq<char> {
        self.text@
    }
}

/// Relies on secp256k1's `PublicKey::from_str`: whether a string parses as a
/// public key, and what key it parses to, depend on the string alone.
#[verifier::external_body]
pub fn parse_pub_key(s: &str) -> (r: Option<ParsedPubKey>)
    ensures
        r is Some <==> pub_key_well_formed(s@),
        r matches Some(k) ==> k.text_view() == s@,
{
    match sessionless::PublicKey::from_str(s) {
        Ok(key) => Some(ParsedPubKey { text: s.to_string(), key }),
        Err(_) => None,
    }
}

/// Relies on secp256k1's `Signature::from_str`: whether a string parses as a
/// signature, and what signature it parses to, depend on the string alone.
#[verifier::external_body]
pub fn parse_signature(s: &str) -> (r: Option<ParsedSignature>)
    ensures
        r is Some <==> signature_well_formed(s@),
        r matches Some(sig) ==> sig.text_view() == s@,
{
    match sessionless::Signature::from_str(s) {
        Ok(signature) => Some(ParsedSignature { text: s.to_string(), signature }),
        Err(_) => None,
    }
}

/// Relies on `Sessionless::new`; the context holds a randomly generated key
/// pair, so nothing is promised of it.
#[verifier::external_body]
pub fn new_sessionless() -> sessionless::Sessionless {
    sessionless::Sessionless::new()
}

/// Relies on `Sessionless::verify`: ECDSA verification of the signature over
/// the keccak256 hash of the message, under the given public key. The
/// outcome depends only on the message and the parsed key and signature, and
/// those are determined by the texts they were parsed from.
#[verifier::external_body]
pub fn verify_signature(
    ctx: &sessionless::Sessionless,
    message: &str,
    key: &ParsedPubKey,
    signature: &ParsedSignature,
) -> (r: bool)
    ensures
        r == signature_matches(message@, key.text_view(), signature.text_view()),
{
    ctx.verify(message, &key.key, &signature.signature).is_ok()
}

/// Relies on uuid's `new_v4`, through `Sessionless::generate_uuid`: a random
/// uuid rendered in the 36-character hyphenated form; nothing more is
/// promised of it.
#[verifier::external_body]
pub fn generate_uuid() -> (r: String)
    ensures
        r@.len() == 36,
{
    sessionless::Sessionless::generate_uuid().to_string()
}

} // verus!
