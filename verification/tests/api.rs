use logchef::api::{
    expiry_from, meaning_of, token_exchange_from_json, Client, Column, FieldValue, LogEntry, MetaData,
    QueryResponse, QueryStats, Source,
};
use logchef::config::Context;
use logchef::error::Error;
use logchef::json::{parse_json, Json};

fn pairs(items: &[(&str, &str)]) -> Vec<(String, String)> {
    items.iter().map(|(k, v)| (k.to_string(), v.to_string())).collect()
}

fn entry(n: i64) -> LogEntry {
    LogEntry { fields: vec![("n".to_string(), FieldValue::Number(n.to_string()))] }
}

#[test]
fn oidc_needs_issuer_and_client() {
    let meta = |issuer: Option<&str>, client: Option<&str>| MetaData {
        version: "1".to_string(),
        build_info: None,
        oidc_issuer: issuer.map(|s| s.to_string()),
        cli_client_id: client.map(|s| s.to_string()),
    };
    assert!(meta(Some("i"), Some("c")).oidc_enabled());
    assert!(!meta(Some("i"), None).oidc_enabled());
    assert!(!meta(None, Some("c")).oidc_enabled());
    assert!(!meta(None, None).oidc_enabled());
}

#[test]
fn entries_are_logs_unless_empty() {
    let response = |logs: Vec<LogEntry>, data: Vec<LogEntry>| QueryResponse {
        logs,
        data,
        columns: vec![],
        stats: QueryStats::default(),
        query_id: None,
        generated_sql: None,
    };
    assert_eq!(response(vec![entry(1)], vec![entry(2), entry(3)]).entries().len(), 1);
    assert_eq!(response(vec![], vec![entry(2), entry(3)]).entries().len(), 2);
    assert_eq!(response(vec![], vec![]).entries().len(), 0);
    let stats = QueryStats::default();
    assert_eq!((stats.execution_time_ms, stats.rows_read, stats.bytes_read), (0, 0, 0));
}

#[test]
fn table_ref_needs_database_and_table() {
    let source = |database: Option<&str>, table: Option<&str>| Source {
        id: 1,
        name: "s".to_string(),
        description: None,
        database: database.map(|s| s.to_string()),
        table_name: table.map(|s| s.to_string()),
        is_connected: true,
    };
    assert_eq!(source(Some("db"), Some("logs")).table_ref().as_deref(), Some("db.logs"));
    assert_eq!(source(Some("db"), None).table_ref(), None);
    assert_eq!(source(None, Some("logs")).table_ref(), None);
}

#[test]
fn client_drops_trailing_slashes() {
    let client = Client::new("https://logs.example///", 12).unwrap();
    assert_eq!(client.base_url(), "https://logs.example");
    assert_eq!(client.timeout_secs(), 12);
    assert_eq!(client.url("/x"), "https://logs.example/x");
    assert_eq!(Client::new("/", 1).unwrap().base_url(), "");
}

#[test]
fn client_addresses() {
    let client = Client::new("https://logs", 30).unwrap();
    assert_eq!(client.meta_url(), "https://logs/api/v1/meta");
    assert_eq!(client.current_user_url(), "https://logs/api/v1/me");
    assert_eq!(client.teams_url(), "https://logs/api/v1/me/teams");
    assert_eq!(client.sources_url(3), "https://logs/api/v1/teams/3/sources");
    assert_eq!(client.schema_url(3, 14), "https://logs/api/v1/teams/3/sources/14/schema");
    assert_eq!(
        client.logchefql_url(3, 14),
        "https://logs/api/v1/teams/3/sources/14/logchefql/query"
    );
    assert_eq!(client.sql_url(-3, 14), "https://logs/api/v1/teams/-3/sources/14/logs/query");
    assert_eq!(client.collections_url(3, 14), "https://logs/api/v1/teams/3/sources/14/collections");
    assert_eq!(client.exchange_token_url(), "https://logs/api/v1/cli/token");
}

#[test]
fn headers_carry_the_token() {
    let client = Client::new("https://logs", 30).unwrap();
    assert_eq!(
        client.headers(),
        pairs(&[("user-agent", "logchef-cli/0.1.0"), ("content-type", "application/json")])
    );
    let client = client.with_token("abc".to_string());
    assert_eq!(
        client.headers(),
        pairs(&[
            ("user-agent", "logchef-cli/0.1.0"),
            ("content-type", "application/json"),
            ("authorization", "Bearer abc"),
        ])
    );
}

#[test]
fn token_that_no_header_can_carry_is_left_out() {
    for bad in ["a\nb", "a\rb", "a\u{7f}", "\u{0}"] {
        let client = Client::new("https://logs", 30).unwrap().with_token(bad.to_string());
        assert_eq!(client.headers().len(), 2);
    }
    for good in ["a\tb", "caf\u{e9}", "a b"] {
        let client = Client::new("https://logs", 30).unwrap().with_token(good.to_string());
        assert_eq!(client.headers().len(), 3);
    }
}

#[test]
fn exchange_headers_prefer_the_id_token() {
    let client = Client::new("https://logs", 30).unwrap().with_token("old".to_string());
    assert_eq!(client.exchange_headers("x.y.z")[2].1, "Bearer x.y.z");
    assert_eq!(client.exchange_headers("bad\n")[2].1, "Bearer old");
    let bare = Client::new("https://logs", 30).unwrap();
    assert_eq!(bare.exchange_headers("bad\n").len(), 2);
}

#[test]
fn client_from_context_takes_its_token() {
    let mut context = Context::new("https://logs/".to_string());
    context.token = Some("t".to_string());
    context.timeout_secs = 9;
    let client = Client::from_context(&context).unwrap();
    assert_eq!(client.base_url(), "https://logs");
    assert_eq!(client.timeout_secs(), 9);
    assert_eq!(client.headers()[2].1, "Bearer t");
}

#[test]
fn successful_answer_is_its_document() {
    let doc = Client::handle_response(200, "{\"status\":\"success\",\"data\":[1,2]}").unwrap();
    assert_eq!(doc.get_text("status").as_deref(), Some("success"));
    match Client::handle_response(204, "") {
        Err(Error::Other(m)) => {
            assert_eq!(m, "Failed to parse response: not a JSON document (body: )")
        }
        other => panic!("unexpected: {:?}", other),
    }
}

#[test]
fn failed_answer_carries_the_server_s_message() {
    match Client::handle_response(403, "{\"status\":\"error\",\"message\":\"forbidden\"}") {
        Err(Error::Api { status, message }) => {
            assert_eq!(status, Some(403));
            assert_eq!(message, "forbidden");
        }
        other => panic!("unexpected: {:?}", other),
    }
    match Client::handle_response(500, "{\"message\":\"no status\"}") {
        Err(Error::Api { status, message }) => {
            assert_eq!(status, Some(500));
            assert_eq!(message, "HTTP 500: {\"message\":\"no status\"}");
        }
        other => panic!("unexpected: {:?}", other),
    }
    match Client::handle_response(502, "<html>bad gateway</html>") {
        Err(Error::Api { status, message }) => {
            assert_eq!(status, Some(502));
            assert_eq!(message, "HTTP 502: <html>bad gateway</html>");
        }
        other => panic!("unexpected: {:?}", other),
    }
    match meaning_of(199, "x", None) {
        Err(Error::Api { message, .. }) => assert_eq!(message, "HTTP 199: x"),
        other => panic!("unexpected: {:?}", other),
    }
    assert!(matches!(meaning_of(200, "x", Some(Json::Null)), Ok(Json::Null)));
}

#[test]
fn token_exchange_reads_the_envelope() {
    let body = "{\"status\":\"success\",\"data\":{\"token\":\"svc-123\",\"expires_at\":\"2030-01-01T00:00:00Z\",\"user\":{\"id\":1,\"email\":\"a@b.com\",\"full_name\":\"A B\",\"role\":null}}}";
    let data = Client::read_token_exchange(200, body).unwrap();
    assert_eq!(data.token, "svc-123");
    assert_eq!(data.expires_at.as_deref(), Some("2030-01-01T00:00:00Z"));
    let user = data.user.unwrap();
    assert_eq!(user.id, 1);
    assert_eq!(user.email, "a@b.com");
    assert_eq!(user.full_name.as_deref(), Some("A B"));
    assert_eq!(user.role, None);

    let data =
        Client::read_token_exchange(201, "{\"status\":\"ok\",\"data\":{\"token\":\"t\",\"user\":null}}")
            .unwrap();
    assert_eq!(data.token, "t");
    assert!(data.user.is_none() && data.expires_at.is_none());
}

#[test]
fn token_exchange_names_what_is_missing() {
    let missing = |body: &str| match Client::read_token_exchange(200, body) {
        Err(Error::Other(m)) => m,
        other => panic!("unexpected: {:?}", other),
    };
    assert_eq!(
        missing("{\"data\":{\"token\":\"t\"}}"),
        "Failed to parse response: missing field status"
    );
    assert_eq!(missing("{\"status\":\"ok\"}"), "Failed to parse response: missing field data");
    assert_eq!(
        missing("{\"status\":\"ok\",\"data\":{}}"),
        "Failed to parse response: missing field token"
    );
    assert_eq!(
        missing("{\"status\":\"ok\",\"data\":{\"token\":\"t\",\"user\":{\"email\":\"e\"}}}"),
        "Failed to parse response: missing field id"
    );
    assert_eq!(
        missing("{\"status\":\"ok\",\"data\":{\"token\":\"t\",\"user\":{\"id\":1.5,\"email\":\"e\"}}}"),
        "Failed to parse response: missing field id"
    );
    assert_eq!(
        missing("{\"status\":\"ok\",\"data\":{\"token\":\"secret\",\"user\":{\"id\":2}}}"),
        "Failed to parse response: missing field email"
    );
    match Client::read_token_exchange(200, "nonsense") {
        Err(Error::Json(m)) => assert_eq!(m, "not a JSON document"),
        other => panic!("unexpected: {:?}", other),
    }
    let doc = parse_json("[]").unwrap();
    assert_eq!(token_exchange_from_json(&doc).unwrap_err(), "status");
    match Client::read_token_exchange(401, "{\"status\":\"error\",\"message\":\"bad token\"}") {
        Err(Error::Api { status, message }) => {
            assert_eq!(status, Some(401));
            assert_eq!(message, "bad token");
        }
        other => panic!("unexpected: {:?}", other),
    }
}

#[test]
fn json_documents_become_plain_data() {
    assert!(parse_json("").is_none());
    assert!(parse_json("{").is_none());
    assert!(parse_json("{} x").is_none());
    assert!(matches!(parse_json("null"), Some(Json::Null)));
    assert!(matches!(parse_json(" true "), Some(Json::Bool(true))));
    match parse_json("\"a\\u00e9\\n\"") {
        Some(Json::Text(s)) => assert_eq!(s, "a\u{e9}\n"),
        other => panic!("unexpected: {:?}", other),
    }
    match parse_json("[1, -2, 3.5, 1e3, 18446744073709551615]") {
        Some(Json::Array(items)) => {
            let texts: Vec<String> = items
                .iter()
                .map(|j| match j {
                    Json::Number(n) => n.clone(),
                    other => panic!("unexpected: {:?}", other),
                })
                .collect();
            assert_eq!(texts, vec!["1", "-2", "3.5", "1000.0", "18446744073709551615"]);
            assert_eq!(items[0].as_integer(), Some(1));
            assert_eq!(items[1].as_integer(), Some(-2));
            assert_eq!(items[2].as_integer(), None);
            assert_eq!(items[3].as_integer(), None);
            assert_eq!(items[4].as_integer(), None);
        }
        other => panic!("unexpected: {:?}", other),
    }
    let doc = parse_json("{\"b\":{\"c\":\"d\"},\"a\":-9223372036854775808,\"a\":7}").unwrap();
    assert_eq!(doc.get_integer("a"), Some(7));
    assert_eq!(doc.get("b").unwrap().get_text("c").as_deref(), Some("d"));
    assert!(doc.get("c").is_none());
    assert_eq!(doc.get_text("a"), None);
    assert_eq!(doc.as_text(), None);
    assert!(Json::Null.get("a").is_none());
    assert_eq!(parse_json("-9223372036854775808").unwrap().as_integer(), Some(i64::MIN));
    assert_eq!(parse_json("9223372036854775807").unwrap().as_integer(), Some(i64::MAX));
    assert_eq!(parse_json("9223372036854775808").unwrap().as_integer(), None);
}

#[test]
fn member_lookup_takes_the_first_of_a_name() {
    let doc = Json::Object(vec![
        ("k".to_string(), Json::Text("one".to_string())),
        ("k".to_string(), Json::Text("two".to_string())),
        ("n".to_string(), Json::Number("-0".to_string())),
        ("m".to_string(), Json::Number("+5".to_string())),
    ]);
    assert_eq!(doc.get_text("k").as_deref(), Some("one"));
    assert_eq!(doc.get_integer("n"), Some(0));
    assert_eq!(doc.get_integer("m"), None);
    assert_eq!(doc.get_integer("k"), None);
}

#[test]
fn column_is_plain_data() {
    let column = Column { name: "level".to_string(), column_type: "String".to_string() };
    assert_eq!(column.clone().name, "level");
}

#[test]
fn expiry_must_be_an_instant() {
    let exchange = |expiry: &str| {
        let body =
            format!("{{\"status\":\"ok\",\"data\":{{\"token\":\"t\",\"expires_at\":{}}}}}", expiry);
        Client::read_token_exchange(200, &body)
    };
    for good in [
        "\"2030-01-01T00:00:00Z\"",
        "\"2030-01-01T00:00:00.123456789+05:30\"",
        "\"2030-01-01 00:00:00+0000\"",
        "\"2030-01-01t00:00:00z\"",
    ] {
        let data = exchange(good).unwrap();
        assert_eq!(data.expires_at.as_deref(), Some(good.trim_matches('"')));
    }
    assert_eq!(exchange("null").unwrap().expires_at, None);
    for bad in [
        "\"tomorrow\"",
        "\"\"",
        "\"2030-01-01\"",
        "\"2030-02-30T00:00:00Z\"",
        "\"2030-01-01T00:00:00\"",
        "1893456000",
        "true",
        "{}",
    ] {
        match exchange(bad) {
            Err(Error::Other(m)) => {
                assert_eq!(m, "Failed to parse response: invalid field expires_at")
            }
            other => panic!("unexpected for {}: {:?}", bad, other),
        }
    }
    assert!(logchef::clock::timestamp_ok("2012-12-12T12:12:12Z"));
    assert!(logchef::clock::timestamp_ok("2012-12-12 12:12:12+00:00"));
    assert!(!logchef::clock::timestamp_ok("2012-12-12"));
    assert!(!logchef::clock::timestamp_ok(""));
    assert_eq!(logchef::api::gap_message("token"), "Failed to parse response: missing field token");
    assert_eq!(
        logchef::api::gap_message("expires_at"),
        "Failed to parse response: invalid field expires_at"
    );
}

#[test]
fn expiry_of_each_kind_of_member() {
    let text = Json::Text("2030-01-01T00:00:00Z".to_string());
    assert_eq!(expiry_from(None, false), Some(None));
    assert_eq!(expiry_from(None, true), Some(None));
    assert_eq!(expiry_from(Some(&Json::Null), false), Some(None));
    assert_eq!(expiry_from(Some(&text), true), Some(Some("2030-01-01T00:00:00Z".to_string())));
    assert_eq!(expiry_from(Some(&text), false), None);
    assert_eq!(expiry_from(Some(&Json::Number("1".to_string())), true), None);
    assert_eq!(expiry_from(Some(&Json::Bool(true)), true), None);
    assert_eq!(expiry_from(Some(&Json::Array(vec![])), true), None);
    assert_eq!(expiry_from(Some(&Json::Object(vec![])), false), None);
}
