//! The auth gate: every inbound request carries an optional credential
//! header, and only an exact match with the configured secret lets the
//! request proceed.

use vstd::prelude::*;

verus! {

/// A request is authorized exactly when the credential header is present
/// and its value equals the secret, character for character.
pub open spec fn credential_matches(secret: Seq<char>, header: Option<Seq<char>>) -> bool {
    match header {
        Some(h) => h == secret,
        None => false,
    }
}

/// The view of an optional credential header.
pub open spec fn header_view(header: Option<&String>) -> Option<Seq<char>> {
    match header {
        Some(h) => Some(h@),
        None => None,
    }
}

/// Decide whether a request may proceed: true exactly when the credential
/// header is present and equals the secret.
pub fn authorize(secret: &String, header: Option<&String>) -> (r: bool)
    ensures
        r == credential_matches(secret@, header_view(header)),
{
    match header {
        Some(h) => *h == *secret,
        None => false,
    }
}

} // verus!
