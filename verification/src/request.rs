//! What a command asks the server for.

use vstd::prelude::*;
use vstd::string::*;
use crate::model::Settings;

verus! {

/// How long a request may take in all, in seconds.
pub const TIMEOUT_SECONDS: u64 = 30;

/// One authenticated GET. The server's certificate is never checked, so
/// `accept_invalid_certs` is always set.
#[derive(Debug, Clone)]
pub struct Request {
    pub url: String,
    pub user: String,
    pub password: String,
    pub timeout_seconds: u64,
    pub accept_invalid_certs: bool,
}

/// The address of a resource on a host. Neither part is escaped.
pub open spec fn url_text(host: Seq<char>, path: Seq<char>) -> Seq<char> {
    "https://"@ + host + path
}

/// Whether `request` is the GET of `path` with `settings`.
pub open spec fn asks_for(request: Request, settings: Settings, path: Seq<char>) -> bool {
    &&& request.url@ == url_text(settings.host@, path)
    &&& request.user@ == settings.user@
    &&& request.password@ == settings.password@
    &&& request.timeout_seconds == TIMEOUT_SECONDS
    &&& request.accept_invalid_certs
}

/// The GET of `path` with `settings`.
pub fn get(settings: &Settings, path: &str) -> (request: Request)
    ensures
        asks_for(request, *settings, path@),
{
    let mut url: String = String::from_str("https://");
    url.append(settings.host.as_str());
    url.append(path);
    Request {
        url,
        user: settings.user.clone(),
        password: settings.password.clone(),
        timeout_seconds: TIMEOUT_SECONDS,
        accept_invalid_certs: true,
    }
}

/// The message that ends a command whose answer does not have the expected
/// shape; `detail` is the decoder's account of what was wrong.
pub open spec fn undecodable_text(detail: Seq<char>) -> Seq<char> {
    "Could not introspect the token. Error was:\n "@ + detail
}

/// Writes the message for an answer that could not be decoded.
pub fn undecodable(detail: &str) -> (message: String)
    ensures
        message@ == undecodable_text(detail@),
{
    crate::text::joined("Could not introspect the token. Error was:\n ", detail)
}

} // verus!
