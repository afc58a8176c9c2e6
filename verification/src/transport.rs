//! The types of `reqwest` and `http` that the library carries, and the calls it
//! makes into them. Each function here is trusted: its contract restates what
//! the outside crate's source does.

use crate::header::{header_key, no_headers, HeaderEntries, is_accepted_header_name, is_header_value};
use reqwest::header::{HeaderMap, HeaderValue, InvalidHeaderValue};
use reqwest::{Client, Response, StatusCode, Url};
use vstd::prelude::*;
use vstd::string::StringSliceAdditionalSpecFns;

verus! {

#[verifier::external_type_specification]
#[verifier::external_body]
#[verifier::reject_recursive_types(T)]
pub struct ExHeaderMap<T>(HeaderMap<T>);

#[verifier::external_type_specification]
#[verifier::external_body]
pub struct ExHeaderValue(HeaderValue);

#[verifier::external_type_specification]
#[verifier::external_body]
pub struct ExInvalidHeaderValue(InvalidHeaderValue);

#[verifier::external_type_specification]
#[verifier::external_body]
pub struct ExClient(Client);

#[verifier::external_type_specification]
#[verifier::external_body]
pub struct ExResponse(Response);

#[verifier::external_type_specification]
#[verifier::external_body]
pub struct ExStatusCode(StatusCode);

#[verifier::external_type_specification]
#[verifier::external_body]
pub struct ExUrl(Url);

#[verifier::external_type_specification]
#[verifier::external_body]
pub struct ExRequestError(reqwest::Error);

/// What a header map holds: for each stored (lower-case) name, the bytes of
/// its values in order.
pub uninterp spec fn header_entries(map: HeaderMap) -> HeaderEntries;

/// The bytes that a header value holds.
pub uninterp spec fn header_value_bytes(value: HeaderValue) -> Seq<u8>;

/// `HeaderMap::new`: a map that holds no header.
#[verifier::external_body]
pub(crate) fn new_header_map() -> (headers: HeaderMap)
    ensures
        header_entries(headers) == no_headers(),
{
    HeaderMap::new()
}

/// `HeaderMap::keys_len`: the number of names the map holds.
#[verifier::external_body]
pub(crate) fn header_name_count(headers: &HeaderMap) -> (count: usize)
    ensures
        count == header_entries(*headers).len(),
{
    headers.keys_len()
}

/// `HeaderMap::clone`: a map that holds the same headers.
#[verifier::external_body]
pub(crate) fn clone_header_map(headers: &HeaderMap) -> (copy: HeaderMap)
    ensures
        header_entries(copy) == header_entries(*headers),
{
    headers.clone()
}

/// `HeaderMap::insert` with a `&'static str` name: the name is parsed by
/// `HdrName::from_static` (which panics on an empty name, on a name of at most
/// 64 bytes with a byte that is not a token byte, and on a name longer than
/// 65535 bytes) and stored with its token bytes in lower case and its other
/// bytes as `0` (names compare in that form), and every value it had is replaced
/// by `value`. The map panics when its table of slots (a power of two) would
/// have to grow past 2^15 slots. It grows, doubling, only when the names fill
/// three quarters of the slots, or when probing runs long and the names are
/// at least a fifth of the slots; a map of at most 6553 names thus has at most
/// 2^14 slots whenever it grows, and never panics.
#[verifier::external_body]
pub(crate) fn insert_header_value(headers: &mut HeaderMap, name: &'static str, value: HeaderValue)
    requires
        is_accepted_header_name(name.spec_bytes()),
        header_entries(*old(headers)).dom().finite(),
        header_entries(*old(headers)).len() < 6554,
    ensures
        header_entries(*final(headers)) == header_entries(*old(headers)).insert(
            header_key(name.spec_bytes()),
            seq![header_value_bytes(value)],
        ),
{
    headers.insert(name, value);
}

/// `HeaderValue::from_str`: accepts the text exactly when each of its bytes
/// may stand in a header value, and then holds those bytes.
#[verifier::external_body]
pub(crate) fn header_value_from_str(text: &str) -> (value: Result<HeaderValue, InvalidHeaderValue>)
    ensures
        value is Ok <==> is_header_value(text.spec_bytes()),
        value matches Ok(v) ==> header_value_bytes(v) == text.spec_bytes(),
{
    HeaderValue::from_str(text)
}

/// `Client::new`: a client with reqwest's default configuration. reqwest
/// documents that it panics when a TLS backend cannot be initialised or the
/// resolver cannot load the system configuration; that depends on the
/// machine, not on any argument.
#[verifier::external_body]
pub(crate) fn default_client() -> Client {
    Client::new()
}

/// `Client::clone`: a handle to the same client (the same shared connection
/// pool, since a client is an `Arc` of its state).
#[verifier::external_body]
pub(crate) fn share_client(client: &Client) -> (shared: Client)
    ensures
        shared == *client,
{
    client.clone()
}

/// `Url::clone`: the same URL.
#[verifier::external_body]
pub(crate) fn clone_url(url: &Url) -> (copy: Url)
    ensures
        copy == *url,
{
    url.clone()
}

/// The status of a response.
pub uninterp spec fn response_status_of(response: Response) -> StatusCode;

/// What the header map of a response holds.
pub uninterp spec fn response_header_entries(response: Response) -> HeaderEntries;

/// The URL of a response, after redirects.
pub uninterp spec fn response_url_of(response: Response) -> Url;

/// `Response::status`: the status the response holds.
#[verifier::external_body]
pub(crate) fn response_status(response: &Response) -> (status: StatusCode)
    ensures
        status == response_status_of(*response),
{
    response.status()
}

/// `Response::headers`: the header map the response holds.
#[verifier::external_body]
pub(crate) fn response_headers(response: &Response) -> (headers: &HeaderMap)
    ensures
        header_entries(*headers) == response_header_entries(*response),
{
    response.headers()
}

/// `Response::url`: the URL the response holds, after redirects.
#[verifier::external_body]
pub(crate) fn response_url(response: &Response) -> (url: &Url)
    ensures
        *url == response_url_of(*response),
{
    response.url()
}

/// The status that a request failure records: one for an error raised for a
/// status code, none otherwise.
pub uninterp spec fn request_error_status_of(error: reqwest::Error) -> Option<StatusCode>;

/// The URL that a request failure records, if any.
pub uninterp spec fn request_error_url_of(error: reqwest::Error) -> Option<Url>;

/// The `Display` text of a request failure.
pub uninterp spec fn request_error_display(error: reqwest::Error) -> Seq<char>;

/// The `Display` text of a status code: its number and reason phrase.
pub uninterp spec fn status_display(status: StatusCode) -> Seq<char>;

/// `reqwest::Error::status`: the status the error records.
#[verifier::external_body]
pub(crate) fn request_error_status(error: &reqwest::Error) -> (status: Option<StatusCode>)
    ensures
        status == request_error_status_of(*error),
{
    error.status()
}

/// `reqwest::Error::url`: the URL the error records.
#[verifier::external_body]
pub(crate) fn request_error_url(error: &reqwest::Error) -> (url: Option<&Url>)
    ensures
        match url {
            Some(u) => request_error_url_of(*error) == Some(*u),
            None => request_error_url_of(*error) is None,
        },
{
    error.url()
}

/// The `Display` text of a `reqwest::Error`.
#[verifier::external_body]
pub(crate) fn request_error_text(error: &reqwest::Error) -> (text: String)
    ensures
        text@ == request_error_display(*error),
{
    error.to_string()
}

/// The `Display` text of a `StatusCode`.
#[verifier::external_body]
pub(crate) fn status_text(status: StatusCode) -> (text: String)
    ensures
        text@ == status_display(status),
{
    status.to_string()
}

} // verus!
