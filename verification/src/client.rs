//! The PostgREST client: the endpoint's base URL, the schema it addresses, the
//! headers every request carries, and the HTTP client the requests go through.

use crate::builder::{copy_optional_text, optional_text, Builder, BuilderView};
use crate::header::{
    header_key, is_accepted_header_name, is_header_value, lemma_encode_utf8_concat,
    lemma_header_value_concat, no_headers, HeaderEntries,
};
use crate::transport::{
    clone_header_map, default_client, header_entries, header_value_from_str, insert_header_value,
    header_name_count, new_header_map, share_client,
};
use reqwest::header::HeaderMap;
use reqwest::Client;
use vstd::prelude::*;
use vstd::string::*;
use vstd::utf8::*;

verus! {

/// A PostgREST client.
#[derive(Debug)]
pub struct Postgrest {
    url: String,
    schema: Option<String>,
    headers: HeaderMap,
    client: Client,
}

/// What a client is configured with: the endpoint's base URL, the schema it
/// addresses, and the headers every request carries.
pub struct PostgrestView {
    pub url: Seq<char>,
    pub schema: Option<Seq<char>>,
    pub headers: HeaderEntries,
}

impl PostgrestView {
    /// The configuration with the schema switched to `schema`.
    pub open spec fn with_schema(self, schema: Seq<char>) -> PostgrestView {
        PostgrestView { schema: Some(schema), ..self }
    }

    /// The configuration with the header given as `name` set to the single
    /// value `value` (both as bytes).
    pub open spec fn with_header(self, name: Seq<u8>, value: Seq<u8>) -> PostgrestView {
        PostgrestView { headers: self.headers.insert(header_key(name), seq![value]), ..self }
    }

    /// The query for `table`: the table's URL, with this schema and these
    /// headers.
    pub open spec fn table_query(self, table: Seq<char>) -> BuilderView {
        BuilderView {
            url: table_url(self.url, table),
            schema: self.schema,
            headers: self.headers,
            body: None,
        }
    }

    /// The query that calls the stored procedure `function` with `params`.
    pub open spec fn procedure_query(self, function: Seq<char>, params: Seq<char>) -> BuilderView {
        BuilderView {
            url: procedure_url(self.url, function),
            schema: self.schema,
            headers: self.headers,
            body: Some(params),
        }
    }
}

/// The configuration of a new client for the endpoint `url`: no schema chosen
/// and no header set.
pub open spec fn initial_configuration(url: Seq<char>) -> PostgrestView {
    PostgrestView { url, schema: None, headers: no_headers() }
}

/// The URL of a table: the base URL, a slash, and the table's name.
pub open spec fn table_url(base: Seq<char>, table: Seq<char>) -> Seq<char> {
    base + "/"@ + table
}

/// The URL of a stored procedure: the base URL, `/rpc/`, and its name.
pub open spec fn procedure_url(base: Seq<char>, function: Seq<char>) -> Seq<char> {
    base + "/rpc/"@ + function
}

/// The value of the header that authenticates with the JWT `token`.
pub open spec fn bearer_credentials(token: Seq<char>) -> Seq<char> {
    "Bearer "@ + token
}

/// The name of the header that carries credentials.
pub open spec fn authorization_header_name() -> Seq<u8> {
    encode_utf8("Authorization"@)
}

impl View for Postgrest {
    type V = PostgrestView;

    closed spec fn view(&self) -> PostgrestView {
        PostgrestView {
            url: self.url@,
            schema: optional_text(self.schema),
            headers: header_entries(self.headers),
        }
    }
}

impl Clone for Postgrest {
    /// A copy of the client with the same configuration, going through the
    /// same HTTP client (and so sharing its connection pool).
    fn clone(&self) -> (copy: Self)
        ensures
            copy@ == self@,
            copy.http_client() == self.http_client(),
    {
        proof {
            use_type_invariant(self);
        }
        Postgrest {
            url: self.url.clone(),
            schema: copy_optional_text(&self.schema),
            headers: clone_header_map(&self.headers),
            client: share_client(&self.client),
        }
    }
}

impl Postgrest {
    /// A header map of a client is a finite map.
    #[verifier::type_invariant]
    closed spec fn headers_are_finite(self) -> bool {
        header_entries(self.headers).dom().finite()
    }

    /// The HTTP client that the client's requests go through.
    pub closed spec fn http_client(&self) -> Client {
        self.client
    }

    /// Creates a client for the endpoint `url` using reqwest's default client
    /// configuration.
    pub fn new(url: &str) -> (client: Self)
        ensures
            client@ == initial_configuration(url@),
            client@.url == url@,
            client@.schema is None,
            client@.headers.dom() == Set::<Seq<u8>>::empty(),
    {
        Self::new_with_client(url, default_client())
    }

    /// Creates a client for the endpoint `url` that sends its requests through
    /// `client`: the deadlines, proxies, TLS and connection pooling configured
    /// there apply to every query it builds.
    pub fn new_with_client(url: &str, client: Client) -> (postgrest: Self)
        ensures
            postgrest@ == initial_configuration(url@),
            postgrest@.url == url@,
            postgrest@.schema is None,
            postgrest@.headers.dom() == Set::<Seq<u8>>::empty(),
            postgrest.http_client() == client,
    {
        Postgrest { url: url.to_owned(), schema: None, headers: new_header_map(), client }
    }

    /// Authenticates the requests with the JWT `token`: every request carries
    /// `Authorization: Bearer <token>`.
    pub fn auth(self, token: &str) -> (postgrest: Self)
        requires
            is_header_value(token.spec_bytes()),
            self@.headers.len() < 6554,
        ensures
            postgrest@ == self@.with_header(
                authorization_header_name(),
                encode_utf8(bearer_credentials(token@)),
            ),
            postgrest@.url == self@.url,
            postgrest@.schema == self@.schema,
            postgrest@.headers == self@.headers.insert(
                header_key(encode_utf8("Authorization"@)),
                seq![encode_utf8("Bearer "@) + token.spec_bytes()],
            ),
            postgrest.http_client() == self.http_client(),
    {
        proof {
            use_type_invariant(&self);
        }
        let Postgrest { url, schema, mut headers, client } = self;
        let mut credentials = String::from_str("Bearer ");
        credentials.append(token);
        proof {
            reveal_strlit("Bearer ");
            reveal_strlit("Authorization");
            let prefix = "Bearer "@;
            assert(is_ascii_chars(prefix));
            is_ascii_chars_encode_utf8(prefix);
            lemma_encode_utf8_concat(prefix, token@);
            lemma_header_value_concat(encode_utf8(prefix), encode_utf8(token@));
            let name = "Authorization"@;
            assert(is_ascii_chars(name));
            is_ascii_chars_encode_utf8(name);
        }
        match header_value_from_str(credentials.as_str()) {
            Ok(value) => {
                insert_header_value(&mut headers, "Authorization", value);
            },
            Err(_) => {
                // The requires make the value acceptable.
                assert(false);
            },
        }
        Postgrest { url, schema, headers, client }
    }

    /// Switches the schema that the queries address. A query keeps the schema
    /// of the client at the time `from` or `rpc` made it.
    pub fn schema(self, schema: &str) -> (postgrest: Self)
        ensures
            postgrest@ == self@.with_schema(schema@),
            postgrest@.url == self@.url,
            postgrest@.schema == Some(schema@),
            postgrest@.headers == self@.headers,
            postgrest.http_client() == self.http_client(),
    {
        proof {
            use_type_invariant(&self);
        }
        let mut configured = self;
        configured.schema = Some(schema.to_owned());
        configured
    }

    /// Adds a header that every request carries, replacing the values of a
    /// header of the same name (names compare without regard to case).
    pub fn insert_header(self, header_name: &'static str, header_value: &str) -> (postgrest: Self)
        requires
            is_accepted_header_name(header_name.spec_bytes()),
            is_header_value(header_value.spec_bytes()),
            self@.headers.len() < 6554,
        ensures
            postgrest@ == self@.with_header(header_name.spec_bytes(), header_value.spec_bytes()),
            postgrest@.url == self@.url,
            postgrest@.schema == self@.schema,
            postgrest@.headers == self@.headers.insert(
                header_key(header_name.spec_bytes()),
                seq![header_value.spec_bytes()],
            ),
            postgrest.http_client() == self.http_client(),
    {
        proof {
            use_type_invariant(&self);
        }
        let Postgrest { url, schema, mut headers, client } = self;
        match header_value_from_str(header_value) {
            Ok(value) => {
                insert_header_value(&mut headers, header_name, value);
            },
            Err(_) => {
                // The requires make the value acceptable.
                assert(false);
            },
        }
        Postgrest { url, schema, headers, client }
    }

    /// A query against the table `table`.
    pub fn from(&self, table: &str) -> (query: Builder)
        ensures
            query@ == self@.table_query(table@),
            query@.url == self@.url + "/"@ + table@,
            query@.schema == self@.schema,
            query@.headers == self@.headers,
            query@.body is None,
            query.http_client() == self.http_client(),
    {
        let mut url = self.url.clone();
        url.append("/");
        url.append(table);
        Builder::from_parts(
            url,
            copy_optional_text(&self.schema),
            clone_header_map(&self.headers),
            share_client(&self.client),
            None,
        )
    }

    /// A call of the stored procedure `function` with the parameters `params`
    /// (a JSON object).
    pub fn rpc(&self, function: &str, params: &str) -> (query: Builder)
        ensures
            query@ == self@.procedure_query(function@, params@),
            query@.url == self@.url + "/rpc/"@ + function@,
            query@.schema == self@.schema,
            query@.headers == self@.headers,
            query@.body == Some(params@),
            query.http_client() == self.http_client(),
    {
        let mut url = self.url.clone();
        url.append("/rpc/");
        url.append(function);
        Builder::from_parts(
            url,
            copy_optional_text(&self.schema),
            clone_header_map(&self.headers),
            share_client(&self.client),
            Some(params.to_owned()),
        )
    }

    /// The endpoint's base URL.
    pub fn url(&self) -> (url: &str)
        ensures
            url@ == self@.url,
    {
        self.url.as_str()
    }

    /// The schema that the queries address, if one was chosen.
    pub fn schema_name(&self) -> (schema: Option<&str>)
        ensures
            match schema {
                Some(s) => self@.schema == Some(s@),
                None => self@.schema is None,
            },
    {
        match &self.schema {
            Some(s) => Some(s.as_str()),
            None => None,
        }
    }

    /// The number of header names set, which `auth` and `insert_header` need
    /// to be below 6554.
    pub fn header_count(&self) -> (count: usize)
        ensures
            count == self@.headers.len(),
    {
        header_name_count(&self.headers)
    }

    /// The headers that every request carries.
    pub fn headers(&self) -> (headers: &HeaderMap)
        ensures
            header_entries(*headers) == self@.headers,
    {
        &self.headers
    }
}

} // verus!
