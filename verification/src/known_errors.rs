//! Errors that a page passes to the page it redirects to, in its address: the error is
//! serialized, encoded as URL-safe base64, and put in the `err` parameter of the query.

use crate::journal::balance::BalanceUpdate;
use crate::permissions::Permissions;
use base64::Engine;
use vstd::prelude::*;

verus! {

/// The errors that a page can show after a redirect.
#[derive(Debug)]
pub enum KnownErrors {
    InternalError { context: String },
    DatabaseError { context: String },
    PostcardError { context: String },
    SessionIdNotFound,
    UsernameNotFound { username: String },
    InvalidUsername { username: String },
    LoginFailed { username: String },
    SignupPasswordMismatch { username: String },
    UserDoesntExist,
    UserExists { username: String },
    AccountExists,
    BalanceMismatch { attempted_transaction: Vec<BalanceUpdate> },
    PermissionError { required_permissions: Permissions },
    InvalidInput,
    InvalidId,
    NoInvitation,
    NotLoggedIn,
    UserCanAccessJournal,
    InvalidJournal,
    /// No error, or one that could not be read.
    NoError,
}

/// The query of a page's address that carries an error.
#[derive(Debug)]
pub struct UrlError {
    pub err: Option<String>,
}

/// The URL-safe base64 text of the bytes, with padding.
pub uninterp spec fn url_safe_base64(bytes: Seq<u8>) -> Seq<char>;

/// The bytes that URL-safe base64 text stands for, if it is valid.
pub uninterp spec fn url_safe_base64_decoded(text: Seq<u8>) -> Option<Seq<u8>>;

/// `base64::engine::general_purpose::URL_SAFE.encode`: the text is named, not stated;
/// decoding it gives back the bytes.
#[verifier::external_body]
fn base64_encode(bytes: &[u8]) -> (r: String)
    ensures
        r@ == url_safe_base64(bytes@),
        url_safe_base64_decoded(vstd::utf8::encode_utf8(r@)) == Some(bytes@),
{
    base64::engine::general_purpose::URL_SAFE.encode(bytes)
}

/// `base64::engine::general_purpose::URL_SAFE.decode`, with the error dropped.
#[verifier::external_body]
fn base64_decode(text: &[u8]) -> (r: Option<Vec<u8>>)
    ensures
        r is Some <==> url_safe_base64_decoded(text@) is Some,
        r matches Some(v) ==> v@ == url_safe_base64_decoded(text@).unwrap(),
{
    match base64::engine::general_purpose::URL_SAFE.decode(text) {
        Ok(v) => Some(v),
        Err(_) => None,
    }
}

/// The text under which a serialized error travels in an address; decoding it gives back
/// the bytes.
pub fn encode_error_bytes(bytes: &Vec<u8>) -> (r: String)
    ensures
        r@ == url_safe_base64(bytes@),
        url_safe_base64_decoded(vstd::utf8::encode_utf8(r@)) == Some(bytes@),
{
    base64_encode(bytes.as_slice())
}

/// The serialized error that the text of an address carries, if it is valid base64.
pub fn decode_error_text(err: &str) -> (r: Option<Vec<u8>>)
    ensures
        r is Some <==> url_safe_base64_decoded(vstd::utf8::encode_utf8(err@)) is Some,
        r matches Some(v) ==> v@ == url_safe_base64_decoded(vstd::utf8::encode_utf8(err@)).unwrap(),
{
    base64_decode(err.as_bytes())
}

/// The address of a page with an error in its query: `{page}?err={encoded}`.
pub open spec fn spec_error_location(page: Seq<char>, encoded: Seq<char>) -> Seq<char> {
    page + "?err="@ + encoded
}

/// The address to redirect to so that the page shows the error.
pub fn error_location(page: &str, encoded: &str) -> (r: String)
    ensures
        r@ == spec_error_location(page@, encoded@),
{
    let mut v: Vec<char> = Vec::new();
    crate::ident::push_chars(&mut v, page);
    crate::ident::push_chars(&mut v, "?err=");
    crate::ident::push_chars(&mut v, encoded);
    assert(v@ =~= spec_error_location(page@, encoded@));
    crate::ident::string_from_chars(&v)
}

} // verus!
