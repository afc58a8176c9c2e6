//! Properties of a client's configuration that hold across calls.

use crate::builder::BuilderView;
use crate::client::{
    authorization_header_name, bearer_credentials, procedure_url, table_url, PostgrestView,
};
use crate::error::ExecuteError;
use crate::header::{header_key, is_token_byte};
use vstd::prelude::*;
use vstd::utf8::*;

verus! {

/// Header names compare without regard to case: setting a header under one
/// spelling and then under another spelling of the same name leaves only the
/// second value.
pub proof fn header_names_ignore_case(
    config: PostgrestView,
    first_name: Seq<u8>,
    first_value: Seq<u8>,
    second_name: Seq<u8>,
    second_value: Seq<u8>,
)
    requires
        header_key(first_name) == header_key(second_name),
    ensures
        config.with_header(first_name, first_value).with_header(second_name, second_value)
            == config.with_header(second_name, second_value),
{
    assert(config.with_header(first_name, first_value).with_header(
        second_name,
        second_value,
    ).headers =~= config.with_header(second_name, second_value).headers);
}

/// Headers of different names do not interfere: setting them in either order
/// gives the same configuration.
pub proof fn distinct_headers_commute(
    config: PostgrestView,
    first_name: Seq<u8>,
    first_value: Seq<u8>,
    second_name: Seq<u8>,
    second_value: Seq<u8>,
)
    requires
        header_key(first_name) != header_key(second_name),
    ensures
        config.with_header(first_name, first_value).with_header(second_name, second_value)
            == config.with_header(second_name, second_value).with_header(first_name, first_value),
{
    assert(config.with_header(first_name, first_value).with_header(
        second_name,
        second_value,
    ).headers =~= config.with_header(second_name, second_value).with_header(
        first_name,
        first_value,
    ).headers);
}

/// Only the last schema switch counts.
pub proof fn last_schema_switch_wins(config: PostgrestView, first: Seq<char>, second: Seq<char>)
    ensures
        config.with_schema(first).with_schema(second) == config.with_schema(second),
{
}

/// Switching the schema and setting a header do not interfere.
pub proof fn schema_and_headers_commute(
    config: PostgrestView,
    schema: Seq<char>,
    name: Seq<u8>,
    value: Seq<u8>,
)
    ensures
        config.with_schema(schema).with_header(name, value) == config.with_header(
            name,
            value,
        ).with_schema(schema),
{
}

/// A query addresses the schema the client had when it made the query; the
/// schema changes nothing else of the query.
pub proof fn query_takes_current_schema(config: PostgrestView, schema: Seq<char>, table: Seq<char>)
    ensures
        config.with_schema(schema).table_query(table) == (BuilderView {
            schema: Some(schema),
            ..config.table_query(table)
        }),
{
}

/// The credentials header is stored under the lower-case name
/// `authorization`: authenticating sets the same header as setting
/// `authorization` by hand.
pub proof fn authorization_is_stored_lower_case(config: PostgrestView, value: Seq<u8>)
    ensures
        header_key(authorization_header_name()) == encode_utf8("authorization"@),
        config.with_header(authorization_header_name(), value) == config.with_header(
            encode_utf8("authorization"@),
            value,
        ),
{
    reveal_strlit("Authorization");
    reveal_strlit("authorization");
    let given = "Authorization"@;
    let stored = "authorization"@;
    assert(is_ascii_chars(given));
    assert(is_ascii_chars(stored));
    is_ascii_chars_encode_utf8(given);
    is_ascii_chars_encode_utf8(stored);
    assert(header_key(encode_utf8(given)) =~= encode_utf8(stored));
    assert(header_key(encode_utf8(stored)) =~= encode_utf8(stored));
}

/// A table query targets the base URL, a slash and the whole table name,
/// whatever its length: the name can be read back from the end of the URL.
pub proof fn table_query_targets_whole_name(config: PostgrestView, table: Seq<char>)
    ensures
        table_url(config.url, table) == config.url + "/"@ + table,
        config.table_query(table).url == config.url + "/"@ + table,
        config.table_query(table).url.len() == config.url.len() + 1 + table.len(),
        config.table_query(table).url.subrange(0, config.url.len() as int) == config.url,
        config.table_query(table).url.subrange(
            config.url.len() + 1int,
            config.table_query(table).url.len() as int,
        ) == table,
        config.table_query(table).schema == config.schema,
        config.table_query(table).headers == config.headers,
        config.table_query(table).body is None,
{
    reveal_strlit("/");
    let url = config.url + "/"@ + table;
    assert(url.subrange(0, config.url.len() as int) =~= config.url);
    assert(url.subrange(config.url.len() + 1int, url.len() as int) =~= table);
}

/// A stored-procedure call targets the base URL, `/rpc/` and the whole
/// function name, whatever its length, and sends the parameters unchanged.
pub proof fn procedure_query_targets_whole_name(
    config: PostgrestView,
    function: Seq<char>,
    params: Seq<char>,
)
    ensures
        procedure_url(config.url, function) == config.url + "/rpc/"@ + function,
        config.procedure_query(function, params).url == config.url + "/rpc/"@ + function,
        config.procedure_query(function, params).url.len() == config.url.len() + 5
            + function.len(),
        config.procedure_query(function, params).url.subrange(0, config.url.len() as int)
            == config.url,
        config.procedure_query(function, params).url.subrange(
            config.url.len() + 5int,
            config.procedure_query(function, params).url.len() as int,
        ) == function,
        config.procedure_query(function, params).schema == config.schema,
        config.procedure_query(function, params).headers == config.headers,
        config.procedure_query(function, params).body == Some(params),
{
    reveal_strlit("/rpc/");
    let url = config.url + "/rpc/"@ + function;
    assert(url.subrange(0, config.url.len() as int) =~= config.url);
    assert(url.subrange(config.url.len() + 5int, url.len() as int) =~= function);
}

/// The credentials value is the seven bytes of `Bearer ` followed by every
/// byte of the token, whatever its length.
pub proof fn bearer_credentials_keep_whole_token(token: Seq<char>)
    ensures
        bearer_credentials(token) == "Bearer "@ + token,
        encode_utf8("Bearer "@).len() == 7,
        encode_utf8(bearer_credentials(token)) == encode_utf8("Bearer "@) + encode_utf8(token),
        encode_utf8(bearer_credentials(token)).len() == 7 + encode_utf8(token).len(),
        encode_utf8(bearer_credentials(token)).subrange(
            7,
            encode_utf8(bearer_credentials(token)).len() as int,
        ) == encode_utf8(token),
{
    reveal_strlit("Bearer ");
    let prefix = "Bearer "@;
    assert(is_ascii_chars(prefix));
    is_ascii_chars_encode_utf8(prefix);
    crate::header::lemma_encode_utf8_concat(prefix, token);
    let bytes = encode_utf8(prefix) + encode_utf8(token);
    assert(bytes.subrange(7, bytes.len() as int) =~= encode_utf8(token));
}

/// A header that is set can be read back unchanged under its stored name,
/// whatever its length; the other headers, the URL and the schema stay.
pub proof fn set_header_reads_back(config: PostgrestView, name: Seq<u8>, value: Seq<u8>)
    ensures
        config.with_header(name, value).headers.contains_key(header_key(name)),
        config.with_header(name, value).headers[header_key(name)] == seq![value],
        forall|other: Seq<u8>|
            other != header_key(name) ==> #[trigger] config.with_header(
                name,
                value,
            ).headers.contains_key(other) == config.headers.contains_key(other)
                && config.with_header(name, value).headers[other] == config.headers[other],
        config.with_header(name, value).url == config.url,
        config.with_header(name, value).schema == config.schema,
{
}

/// A header name is stored with as many bytes as it has, each token byte in
/// lower case.
pub proof fn header_key_lowers_case(name: Seq<u8>)
    ensures
        header_key(name).len() == name.len(),
        forall|i: int|
            0 <= i < name.len() && is_token_byte(name[i]) ==> #[trigger] header_key(name)[i] == (
            if 65 <= name[i] <= 90 {
                (name[i] + 32) as u8
            } else {
                name[i]
            }),
{
}

/// Every error raised for a response keeps that response's metadata, whatever
/// it holds; only a request failure has none.
pub proof fn response_errors_keep_metadata(error: ExecuteError)
    ensures
        error is Request ==> error.retained_metadata() is None,
        error matches ExecuteError::ResponseBody { metadata, .. } ==> error.retained_metadata()
            == Some(metadata),
        error matches ExecuteError::Postgrest { metadata, .. } ==> error.retained_metadata()
            == Some(metadata),
        error matches ExecuteError::Decode { metadata, .. } ==> error.retained_metadata() == Some(
            metadata,
        ),
{
}

} // verus!
