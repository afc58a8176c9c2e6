use postgrest::reqwest::Client;
use postgrest::Postgrest;

const REST_URL: &str = "http://localhost:3000";

#[test]
fn initialize() {
    assert_eq!(Postgrest::new(REST_URL).url(), REST_URL);
}

#[test]
fn switch_schema() {
    assert_eq!(
        Postgrest::new(REST_URL).schema("private").schema_name(),
        Some("private".to_string()).as_deref()
    );
}

#[test]
fn with_insert_header() {
    assert_eq!(
        Postgrest::new(REST_URL)
            .insert_header("apikey", "super.secret.key")
            .headers()
            .get("apikey")
            .unwrap(),
        "super.secret.key"
    );
}

#[test]
fn new_client_has_no_schema_and_no_headers() {
    let client = Postgrest::new(REST_URL);
    assert_eq!(client.schema_name(), None);
    assert!(client.headers().is_empty());
}

#[test]
fn auth_sets_bearer_authorization_header() {
    let client = Postgrest::new(REST_URL).auth("jwt");
    assert_eq!(client.headers().get("authorization").unwrap(), "Bearer jwt");
    assert_eq!(client.headers().get("Authorization").unwrap(), "Bearer jwt");
    assert_eq!(client.headers().len(), 1);
}

#[test]
fn auth_replaces_authorization_set_under_another_spelling() {
    let client = Postgrest::new(REST_URL)
        .insert_header("AUTHORIZATION", "Basic abc")
        .auth("jwt");
    let values: Vec<_> = client.headers().get_all("authorization").iter().collect();
    assert_eq!(values, ["Bearer jwt"]);
}

#[test]
fn header_names_ignore_case() {
    let client = Postgrest::new(REST_URL)
        .insert_header("ApiKey", "first")
        .insert_header("apikey", "second");
    let values: Vec<_> = client.headers().get_all("APIKEY").iter().collect();
    assert_eq!(values, ["second"]);
    assert_eq!(client.headers().len(), 1);
}

#[test]
fn distinct_headers_commute() {
    let one = Postgrest::new(REST_URL)
        .insert_header("apikey", "key")
        .insert_header("x-client", "rust");
    let other = Postgrest::new(REST_URL)
        .insert_header("x-client", "rust")
        .insert_header("apikey", "key");
    assert_eq!(one.headers().get("apikey"), other.headers().get("apikey"));
    assert_eq!(one.headers().get("x-client"), other.headers().get("x-client"));
    assert_eq!(one.headers().len(), other.headers().len());
}

#[test]
fn header_value_may_hold_tab_and_non_ascii_text() {
    let client = Postgrest::new(REST_URL).insert_header("x-note", "caf\u{e9}\tbar");
    assert_eq!(
        client.headers().get("x-note").unwrap().as_bytes(),
        "caf\u{e9}\tbar".as_bytes()
    );
}

#[test]
fn last_schema_switch_wins() {
    let client = Postgrest::new(REST_URL).schema("first").schema("second");
    assert_eq!(client.schema_name(), Some("second"));
    assert_eq!(client.url(), REST_URL);
}

#[test]
fn from_targets_table_url() {
    let query = Postgrest::new("https://example.test/rest/v1")
        .schema("private")
        .insert_header("apikey", "secret")
        .from("items");
    assert_eq!(query.url(), "https://example.test/rest/v1/items");
    assert_eq!(query.schema_name(), Some("private"));
    assert_eq!(query.headers().get("apikey").unwrap(), "secret");
    assert_eq!(query.body(), None);
}

#[test]
fn rpc_targets_procedure_url_with_params() {
    let params = r#"{"term":"rust"}"#;
    let query = Postgrest::new("https://example.test/rest/v1")
        .schema("private")
        .rpc("search", params);
    assert_eq!(query.url(), "https://example.test/rest/v1/rpc/search");
    assert_eq!(query.schema_name(), Some("private"));
    assert_eq!(query.body(), Some(params));
}

#[test]
fn query_keeps_schema_of_its_time() {
    let client = Postgrest::new(REST_URL).schema("first");
    let query = client.from("items");
    let client = client.schema("second");
    assert_eq!(query.schema_name(), Some("first"));
    assert_eq!(client.from("items").schema_name(), Some("second"));
}

#[test]
fn constructors_build_identical_table_queries() {
    let url = "https://example.test/rest/v1";
    let default_query = Postgrest::new(url)
        .schema("private")
        .insert_header("apikey", "secret")
        .from("items/");
    let injected_query = Postgrest::new_with_client(url, Client::new())
        .schema("private")
        .insert_header("apikey", "secret")
        .from("items/");
    assert_eq!(default_query.url(), injected_query.url());
    assert_eq!(default_query.schema_name(), injected_query.schema_name());
    assert_eq!(default_query.headers(), injected_query.headers());
    assert_eq!(default_query.body(), injected_query.body());
    assert_eq!(default_query.url(), "https://example.test/rest/v1/items/");
    assert_eq!(default_query.schema_name(), Some("private"));
    assert_eq!(default_query.headers()["apikey"], "secret");
    assert_eq!(default_query.body(), None);
}

#[test]
fn constructors_build_identical_rpc_queries() {
    let url = "https://example.test/rest/v1";
    let params = r#"{"term":"rust"}"#;
    let default_query = Postgrest::new(url)
        .schema("private")
        .insert_header("apikey", "secret")
        .rpc("search/", params);
    let injected_query = Postgrest::new_with_client(url, Client::new())
        .schema("private")
        .insert_header("apikey", "secret")
        .rpc("search/", params);
    assert_eq!(default_query.url(), injected_query.url());
    assert_eq!(default_query.schema_name(), injected_query.schema_name());
    assert_eq!(default_query.headers(), injected_query.headers());
    assert_eq!(default_query.body(), injected_query.body());
    assert_eq!(default_query.url(), "https://example.test/rest/v1/rpc/search/");
    assert_eq!(default_query.headers()["apikey"], "secret");
    assert_eq!(default_query.body(), Some(params));
}

#[test]
fn header_count_counts_names() {
    let client = Postgrest::new(REST_URL);
    assert_eq!(client.header_count(), 0);
    let client = client.insert_header("apikey", "a").auth("jwt").insert_header("APIKEY", "b");
    assert_eq!(client.header_count(), 2);
}

#[test]
fn long_header_name_keeps_non_token_bytes_as_nul() {
    let name: &'static str =
        "X Long Header Name With Spaces That Goes Past Sixty Four Bytes In Length";
    let client = Postgrest::new(REST_URL)
        .insert_header(name, "1")
        .insert_header(name, "2");
    assert_eq!(client.header_count(), 1);
    let stored = client.headers().keys().next().unwrap().as_str().to_string();
    assert_eq!(stored, name.to_ascii_lowercase().replace(' ', "\0"));
    let values: Vec<_> = client.headers().values().collect();
    assert_eq!(values, ["2"]);
}

#[test]
fn clone_keeps_configuration() {
    let client = Postgrest::new(REST_URL).schema("private").auth("jwt");
    let copy = client.clone();
    assert_eq!(copy.url(), client.url());
    assert_eq!(copy.schema_name(), client.schema_name());
    assert_eq!(copy.headers(), client.headers());
    let query = copy.rpc("add", "{}");
    let query_copy = query.clone();
    assert_eq!(query_copy.url(), "http://localhost:3000/rpc/add");
    assert_eq!(query_copy.body(), Some("{}"));
}

#[test]
fn long_token_header_name_is_stored_lower_case() {
    let name: &'static str = "X-A-Very-Long-Header-Name-That-Goes-Past-Sixty-Four-Bytes-In-Length-Surely";
    let client = Postgrest::new(REST_URL).insert_header(name, "1");
    assert_eq!(client.headers().get(name.to_ascii_lowercase().as_str()).unwrap(), "1");
    assert_eq!(client.headers().keys().next().unwrap().as_str(), name.to_ascii_lowercase());
    assert_eq!(client.headers().len(), 1);
}
