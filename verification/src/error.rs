//! The errors of executing a query, and the response metadata they retain.

use crate::transport::{
    clone_header_map, clone_url, header_entries, request_error_display, request_error_status,
    request_error_status_of, request_error_text, request_error_url, request_error_url_of,
    response_header_entries, response_headers, response_status, response_status_of,
    response_url, response_url_of, status_display, status_text,
};
use reqwest::header::HeaderMap;
use reqwest::{Response, StatusCode, Url};
use rp_postgrest_error::{DecodeError, PostgrestError};
use vstd::prelude::*;
use vstd::string::*;

verus! {

#[verifier::external_type_specification]
#[verifier::external_body]
pub struct ExPostgrestError(PostgrestError);

#[verifier::external_type_specification]
#[verifier::external_body]
pub struct ExDecodeError(DecodeError);

/// The `Display` text of a structured PostgREST error: its status, code and
/// message.
pub uninterp spec fn postgrest_error_display(error: PostgrestError) -> Seq<char>;

/// The `Display` text of a decode failure: its status and what failed.
pub uninterp spec fn decode_error_display(error: DecodeError) -> Seq<char>;

/// The `Display` text of a `PostgrestError`.
#[verifier::external_body]
fn postgrest_error_text(error: &PostgrestError) -> (text: String)
    ensures
        text@ == postgrest_error_display(*error),
{
    error.to_string()
}

/// The `Display` text of a `DecodeError`.
#[verifier::external_body]
fn decode_error_text(error: &DecodeError) -> (text: String)
    ensures
        text@ == decode_error_display(*error),
{
    error.to_string()
}

/// The status, headers and URL of an HTTP response, kept by the errors raised for it.
#[derive(Debug)]
pub struct ResponseMetadata {
    status: StatusCode,
    headers: HeaderMap,
    url: Url,
}

impl Clone for ResponseMetadata {
    /// A copy with the same status, headers and URL.
    fn clone(&self) -> (copy: Self)
        ensures
            copy.status_code() == self.status_code(),
            header_entries(copy.header_map()) == header_entries(self.header_map()),
            copy.effective_url() == self.effective_url(),
    {
        ResponseMetadata {
            status: self.status,
            headers: clone_header_map(&self.headers),
            url: clone_url(&self.url),
        }
    }
}

impl ResponseMetadata {
    /// The status the response had.
    pub closed spec fn status_code(&self) -> StatusCode {
        self.status
    }

    /// The headers the response had.
    pub closed spec fn header_map(&self) -> HeaderMap {
        self.headers
    }

    /// The URL of the response, after redirects.
    pub closed spec fn effective_url(&self) -> Url {
        self.url
    }

    /// Retains the status, headers and URL of `response`.
    pub fn from_response(response: &Response) -> (metadata: Self)
        ensures
            metadata.status_code() == response_status_of(*response),
            header_entries(metadata.header_map()) == response_header_entries(*response),
            metadata.effective_url() == response_url_of(*response),
    {
        ResponseMetadata {
            status: response_status(response),
            headers: clone_header_map(response_headers(response)),
            url: clone_url(response_url(response)),
        }
    }

    /// Returns the authoritative HTTP response status.
    #[must_use]
    pub fn status(&self) -> (status: StatusCode)
        ensures
            status == self.status_code(),
    {
        self.status
    }

    /// Returns all HTTP response headers.
    #[must_use]
    pub fn headers(&self) -> (headers: &HeaderMap)
        ensures
            *headers == self.header_map(),
    {
        &self.headers
    }

    /// Returns the effective response URL after redirects.
    #[must_use]
    pub fn url(&self) -> (url: &Url)
        ensures
            *url == self.effective_url(),
    {
        &self.url
    }
}

/// The text that says a request failed before any response, followed by the
/// text of the failure.
pub open spec fn request_failure_text(source: Seq<char>) -> Seq<char> {
    "failed to execute PostgREST request: "@ + source
}

/// The text that says the body of a response with the given status could not
/// be read, followed by the text of the failure.
pub open spec fn body_failure_text(status: Seq<char>, source: Seq<char>) -> Seq<char> {
    "failed to read PostgREST response body with status "@ + status + ": "@ + source
}

/// Describes a request that failed before an HTTP response was available, given
/// the text of the failure.
pub fn request_failure_message(source: &str) -> (message: String)
    ensures
        message@ == request_failure_text(source@),
{
    let mut message = String::from_str("failed to execute PostgREST request: ");
    message.append(source);
    message
}

/// Describes a response whose body could not be read, given the text of its
/// status and of the failure.
pub fn body_failure_message(status: &str, source: &str) -> (message: String)
    ensures
        message@ == body_failure_text(status@, source@),
{
    let mut message = String::from_str("failed to read PostgREST response body with status ");
    message.append(status);
    message.append(": ");
    message.append(source);
    message
}

/// The failure of a query's execution: a request that got no response, a
/// response whose body could not be read, or a non-success response that is a
/// structured PostgREST error or could not be decoded as one.
#[derive(Debug)]
#[non_exhaustive]
pub enum ExecuteError {
    /// The request failed before an HTTP response was available.
    Request(reqwest::Error),
    /// Reading the body of a non-success HTTP response failed.
    ResponseBody {
        /// Metadata retained from the HTTP response.
        metadata: ResponseMetadata,
        /// The body read failure.
        source: reqwest::Error,
    },
    /// PostgREST returned a structured error response.
    Postgrest {
        /// Metadata retained from the HTTP response.
        metadata: ResponseMetadata,
        /// The structured PostgREST error.
        source: PostgrestError,
    },
    /// A non-success response was not a valid structured PostgREST error.
    Decode {
        /// Metadata retained from the HTTP response.
        metadata: ResponseMetadata,
        /// The lossless decode failure.
        source: DecodeError,
    },
}

impl ExecuteError {
    /// The metadata of the response the error was raised for, when one was
    /// received: every variant but `Request` carries it.
    pub open spec fn retained_metadata(&self) -> Option<ResponseMetadata> {
        match self {
            ExecuteError::Request(_) => None,
            ExecuteError::ResponseBody { metadata, .. } => Some(*metadata),
            ExecuteError::Postgrest { metadata, .. } => Some(*metadata),
            ExecuteError::Decode { metadata, .. } => Some(*metadata),
        }
    }

    /// Returns metadata retained from an HTTP response, when one was received.
    #[must_use]
    pub fn response_metadata(&self) -> (retained: Option<&ResponseMetadata>)
        ensures
            match retained {
                Some(m) => self.retained_metadata() == Some(*m),
                None => self.retained_metadata() is None,
            },
            self is Request ==> retained is None,
            self matches ExecuteError::ResponseBody { metadata, .. } ==> retained matches Some(m)
                && *m == metadata,
            self matches ExecuteError::Postgrest { metadata, .. } ==> retained matches Some(m) && *m
                == metadata,
            self matches ExecuteError::Decode { metadata, .. } ==> retained matches Some(m) && *m
                == metadata,
    {
        match self {
            ExecuteError::Request(_) => None,
            ExecuteError::ResponseBody { metadata, .. } => Some(metadata),
            ExecuteError::Postgrest { metadata, .. } => Some(metadata),
            ExecuteError::Decode { metadata, .. } => Some(metadata),
        }
    }

    /// Returns the authoritative HTTP status when one was observed: the
    /// response's for an error raised for a response, and for a request
    /// failure the status `reqwest` attached to it, if any.
    #[must_use]
    pub fn status(&self) -> (status: Option<StatusCode>)
        ensures
            self.retained_metadata() matches Some(m) ==> status == Some(m.status_code()),
            self matches ExecuteError::ResponseBody { metadata, .. } ==> status == Some(
                metadata.status_code(),
            ),
            self matches ExecuteError::Postgrest { metadata, .. } ==> status == Some(
                metadata.status_code(),
            ),
            self matches ExecuteError::Decode { metadata, .. } ==> status == Some(
                metadata.status_code(),
            ),
            self matches ExecuteError::Request(source) ==> status == request_error_status_of(
                *source,
            ),
    {
        match self {
            ExecuteError::Request(source) => request_error_status(source),
            ExecuteError::ResponseBody { metadata, .. } => Some(metadata.status()),
            ExecuteError::Postgrest { metadata, .. } => Some(metadata.status()),
            ExecuteError::Decode { metadata, .. } => Some(metadata.status()),
        }
    }

    /// Returns the effective response URL, or the request URL retained by a
    /// request failure.
    #[must_use]
    pub fn url(&self) -> (url: Option<&Url>)
        ensures
            self.retained_metadata() matches Some(m) ==> (url matches Some(u) && *u
                == m.effective_url()),
            self matches ExecuteError::ResponseBody { metadata, .. } ==> (url matches Some(u) && *u
                == metadata.effective_url()),
            self matches ExecuteError::Postgrest { metadata, .. } ==> (url matches Some(u) && *u
                == metadata.effective_url()),
            self matches ExecuteError::Decode { metadata, .. } ==> (url matches Some(u) && *u
                == metadata.effective_url()),
            self matches ExecuteError::Request(source) ==> match url {
                Some(u) => request_error_url_of(*source) == Some(*u),
                None => request_error_url_of(*source) is None,
            },
    {
        match self {
            ExecuteError::Request(source) => request_error_url(source),
            ExecuteError::ResponseBody { metadata, .. } => Some(metadata.url()),
            ExecuteError::Postgrest { metadata, .. } => Some(metadata.url()),
            ExecuteError::Decode { metadata, .. } => Some(metadata.url()),
        }
    }

    /// The message that describes the error: a request failure or a body read
    /// failure is described by this library around the text of its source; a
    /// PostgREST or decode error by the text of that error.
    pub fn to_string(&self) -> (message: String)
        ensures
            self matches ExecuteError::Request(source) ==> message@ == request_failure_text(
                request_error_display(*source),
            ),
            self matches ExecuteError::ResponseBody { metadata, source } ==> message@
                == body_failure_text(
                status_display(metadata.status_code()),
                request_error_display(*source),
            ),
            self matches ExecuteError::Postgrest { source, .. } ==> message@
                == postgrest_error_display(*source),
            self matches ExecuteError::Decode { source, .. } ==> message@ == decode_error_display(
                *source,
            ),
    {
        match self {
            ExecuteError::Request(source) => {
                let text = request_error_text(source);
                request_failure_message(text.as_str())
            },
            ExecuteError::ResponseBody { metadata, source } => {
                let status = status_text(metadata.status());
                let text = request_error_text(source);
                body_failure_message(status.as_str(), text.as_str())
            },
            ExecuteError::Postgrest { source, .. } => postgrest_error_text(source),
            ExecuteError::Decode { source, .. } => decode_error_text(source),
        }
    }
}

} // verus!
