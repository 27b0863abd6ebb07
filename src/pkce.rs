//! PKCE (RFC 7636): the verifier/challenge pair that binds an authorization
//! code to the client that asked for it, with the S256 derivation.

use vstd::prelude::*;
use vstd::string::StringSliceAdditionalSpecFns;
use vstd::utf8::encode_utf8;

use oauth2::{PkceCodeChallenge, PkceCodeVerifier};

verus! {

/// The S256 challenge of a verifier: its SHA-256 digest, base64url-encoded
/// without padding.
pub uninterp spec fn s256_challenge_of(verifier: Seq<char>) -> Seq<char>;

/// RFC 7636 bounds a verifier to 43..=128 characters (here counted in UTF-8 bytes).
pub open spec fn verifier_length_ok(verifier: Seq<char>) -> bool {
    43 <= encode_utf8(verifier).len() <= 128
}

/// A verifier and a challenge that belong together.
pub open spec fn is_valid_pkce_pair(verifier: Seq<char>, challenge: Seq<char>) -> bool {
    verifier_length_ok(verifier) && s256_challenge_of(verifier) == challenge
}

/// A verifier with the challenge that is sent to the provider.
#[derive(Debug)]
pub struct PkcePair {
    pub verifier: String,
    pub challenge: String,
}

/// Relies on `oauth2::PkceCodeChallenge::from_code_verifier_sha256`: the S256
/// challenge of the verifier. It panics outside 43..=128 bytes.
#[verifier::external_body]
fn s256_challenge(verifier: &str) -> (r: String)
    requires
        verifier_length_ok(verifier@),
    ensures
        r@ == s256_challenge_of(verifier@),
{
    let v = PkceCodeVerifier::new(verifier.to_string());
    PkceCodeChallenge::from_code_verifier_sha256(&v).as_str().to_string()
}

/// Relies on `oauth2::PkceCodeChallenge::new_random_sha256`: a fresh random
/// verifier (32 random bytes, base64url-encoded: 43 ASCII characters) and the
/// challenge that `from_code_verifier_sha256` derives from it.
#[verifier::external_body]
fn random_pkce_pair() -> (r: PkcePair)
    ensures
        verifier_length_ok(r.verifier@),
        r.challenge@ == s256_challenge_of(r.verifier@),
{
    let (challenge, verifier) = PkceCodeChallenge::new_random_sha256();
    PkcePair { verifier: verifier.secret().to_string(), challenge: challenge.as_str().to_string() }
}

impl PkcePair {
    /// A fresh pair; a new one is drawn for every sign-in attempt.
    pub fn generate() -> (r: PkcePair)
        ensures
            is_valid_pkce_pair(r.verifier@, r.challenge@),
    {
        random_pkce_pair()
    }
}

/// Compares a derived challenge with the one presented.
pub fn challenge_matches(derived: &str, challenge: &str) -> (r: bool)
    ensures
        r == (derived@ == challenge@),
{
    derived.to_owned() == challenge.to_owned()
}

/// Checks a challenge against a verifier with the S256 derivation; a
/// verifier outside the RFC's length bounds verifies nothing.
pub fn verify_pkce_pair(verifier: &str, challenge: &str) -> (r: bool)
    ensures
        r == is_valid_pkce_pair(verifier@, challenge@),
{
    let n = verifier.as_bytes().len();
    if n < 43 || n > 128 {
        return false;
    }
    let derived = s256_challenge(verifier);
    challenge_matches(derived.as_str(), challenge)
}

/// Verification against the documented derivation succeeds for every
/// verifier with its own challenge and fails for any other challenge.
pub proof fn lemma_pkce_verification(verifier: Seq<char>, challenge: Seq<char>)
    requires
        verifier_length_ok(verifier),
    ensures
        is_valid_pkce_pair(verifier, s256_challenge_of(verifier)),
        challenge != s256_challenge_of(verifier) ==> !is_valid_pkce_pair(verifier, challenge),
{
}

} // verus!
