//! What this crate assumes of code it does not verify: the path handling of
//! the standard library and the HTTP client. Nothing here is proved; every
//! other module is proved from these statements.

use vstd::prelude::*;

verus! {

/// The final component of `path`, as `std::path::Path::file_name` gives it:
/// the name of the file or directory that the path leads to, and `None`
/// where there is no such component, as in a path that ends in `..`. The
/// path is read in the syntax of the platform the crate is built for.
pub uninterp spec fn file_name_of(path: Seq<char>) -> Option<Seq<char>>;

/// `std::path::Path::file_name` on a path given as text. Assumed: the result
/// is `file_name_of` of that text, so two calls on the same text agree.
#[verifier::external_body]
pub(crate) fn path_file_name(path: &str) -> (name: Option<String>)
    ensures
        name is Some <==> file_name_of(path@) is Some,
        name matches Some(text) ==> file_name_of(path@) == Some(text@),
{
    match std::path::Path::new(path).file_name() {
        Some(name) => Some(name.to_string_lossy().into_owned()),
        None => None,
    }
}

/// `reqwest::Client`, a handle to a shared connection pool. Opaque here: the
/// crate stores it and hands it on.
#[verifier::external_type_specification]
#[verifier::external_body]
pub struct ExClient(reqwest::Client);

/// `reqwest::Error`. Opaque here: the crate only asks for its text.
#[verifier::external_type_specification]
#[verifier::external_body]
pub struct ExReqwestError(reqwest::Error);

/// `Clone` for `reqwest::Client`. The client is a reference-counted handle,
/// so the copy is the same client.
pub assume_specification[ <reqwest::Client as Clone>::clone ](client: &reqwest::Client) -> (copy:
    reqwest::Client)
    ensures
        copy == *client,
;

/// `reqwest::ClientBuilder::build` on a fresh builder whose `User-Agent` is
/// `user_agent`. Nothing is assumed of the outcome: it depends on the TLS
/// backend and the system configuration.
#[verifier::external_body]
pub(crate) fn build_client(user_agent: &str) -> (built: Result<reqwest::Client, reqwest::Error>) {
    reqwest::Client::builder().user_agent(user_agent).build()
}

/// The text of a `reqwest::Error`, through its `Display`. Nothing is assumed
/// of it.
#[verifier::external_body]
pub(crate) fn error_text(error: &reqwest::Error) -> (text: String) {
    error.to_string()
}

} // verus!
