//! The query that a client hands out for a table or a stored procedure: the
//! endpoint it targets and the schema, headers and HTTP client it carries.

use crate::header::HeaderEntries;
use crate::transport::{header_entries, share_client, clone_header_map};
use reqwest::header::HeaderMap;
use reqwest::Client;
use vstd::prelude::*;

verus! {

/// A query against one table or stored procedure of a PostgREST endpoint.
#[derive(Debug)]
pub struct Builder {
    url: String,
    schema: Option<String>,
    headers: HeaderMap,
    client: Client,
    body: Option<String>,
}

/// What a query is made of: its target URL, the schema it addresses, the
/// headers it carries and, for a stored procedure, the parameters it sends.
pub struct BuilderView {
    pub url: Seq<char>,
    pub schema: Option<Seq<char>>,
    pub headers: HeaderEntries,
    pub body: Option<Seq<char>>,
}

/// The text of an optional string.
pub open spec fn optional_text(text: Option<String>) -> Option<Seq<char>> {
    match text {
        Some(t) => Some(t@),
        None => None,
    }
}

/// A copy of an optional string.
pub fn copy_optional_text(text: &Option<String>) -> (copy: Option<String>)
    ensures
        optional_text(copy) == optional_text(*text),
{
    match text {
        Some(t) => Some(t.clone()),
        None => None,
    }
}

impl View for Builder {
    type V = BuilderView;

    closed spec fn view(&self) -> BuilderView {
        BuilderView {
            url: self.url@,
            schema: optional_text(self.schema),
            headers: header_entries(self.headers),
            body: optional_text(self.body),
        }
    }
}

impl Clone for Builder {
    /// A copy of the query that goes through the same HTTP client.
    fn clone(&self) -> (copy: Self)
        ensures
            copy@ == self@,
            copy.http_client() == self.http_client(),
    {
        Builder {
            url: self.url.clone(),
            schema: copy_optional_text(&self.schema),
            headers: clone_header_map(&self.headers),
            client: share_client(&self.client),
            body: copy_optional_text(&self.body),
        }
    }
}

impl Builder {
    /// The HTTP client that the query's requests go through.
    pub closed spec fn http_client(&self) -> Client {
        self.client
    }

    /// A query for `url` with the given schema, headers, client and body.
    pub(crate) fn from_parts(
        url: String,
        schema: Option<String>,
        headers: HeaderMap,
        client: Client,
        body: Option<String>,
    ) -> (query: Builder)
        ensures
            query@ == (BuilderView {
                url: url@,
                schema: optional_text(schema),
                headers: header_entries(headers),
                body: optional_text(body),
            }),
            query.http_client() == client,
    {
        Builder { url, schema, headers, client, body }
    }

    /// The URL that the query targets.
    pub fn url(&self) -> (url: &str)
        ensures
            url@ == self@.url,
    {
        self.url.as_str()
    }

    /// The schema that the query addresses, if one was chosen.
    pub fn schema_name(&self) -> (schema: Option<&str>)
        ensures
            match schema {
                Some(s) => self@.schema == Some(s@),
                None => self@.schema is None,
            },
    {
        match &self.schema {
            Some(s) => Some(s.as_str()),
            None => None,
        }
    }

    /// The headers that the query's requests carry.
    pub fn headers(&self) -> (headers: &HeaderMap)
        ensures
            header_entries(*headers) == self@.headers,
    {
        &self.headers
    }

    /// The parameters of a stored-procedure call, if the query is one.
    pub fn body(&self) -> (body: Option<&str>)
        ensures
            match body {
                Some(b) => self@.body == Some(b@),
                None => self@.body is None,
            },
    {
        match &self.body {
            Some(b) => Some(b.as_str()),
            None => None,
        }
    }

    /// A handle to the HTTP client of the query; it shares that client's
    /// connection pool.
    pub fn client(&self) -> (client: Client)
        ensures
            client == self.http_client(),
    {
        share_client(&self.client)
    }
}

} // verus!
