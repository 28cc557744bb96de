use std::collections::HashMap;
use std::time::Duration;

use kunobi_jev::client::address::{parse_ip, parse_url, IpAddress, UrlParts};
use kunobi_jev::client::builder::{check_base_url, is_loopback, validate_base_url, validate_timeout};
use kunobi_jev::client::env::non_blank;
use kunobi_jev::client::headers::{empty_headers, extend_headers, header_names_len, insert_header};
use kunobi_jev::client::max_permits;
use kunobi_jev::credentials::header_value_from_str;
use kunobi_jev::retry::{default_timeout, default_total_timeout, duration_from_secs, nanos};
use kunobi_jev::text::{
    blank, decimal_text, equal_ignoring_ascii_case, same_text, starts_with, trim,
    trim_end_matches, trim_start_matches,
};
use kunobi_jev::{
    bearer_header, bearer_value, ApiKey, Backend, Client, ClientBuilder, Credentials, Decoder, Error,
    Method,
    DEFAULT_TOTAL_TIMEOUT_SECS, ENV_API_KEY, ENV_BASE_URL, ENV_DEFAULT_MODEL,
};
use reqwest::header::{HeaderMap, HeaderName, HeaderValue};

fn env(pairs: &[(&str, &str)]) -> impl Fn(&str) -> Option<String> {
    let map: HashMap<String, String> = pairs
        .iter()
        .map(|(k, v)| (k.to_string(), v.to_string()))
        .collect();
    move |name| non_blank(map.get(name).cloned())
}

fn build(builder: ClientBuilder, pairs: &[(&str, &str)]) -> Result<Client, Error> {
    builder.build_with_env(env(pairs), Ok(()), true)
}

fn config_message(r: Result<Client, Error>) -> String {
    match r {
        Err(Error::Config(m)) => m,
        Err(other) => panic!("expected a configuration error, got {other:?}"),
        Ok(_) => panic!("expected a configuration error, got a client"),
    }
}

#[test]
fn backend_names_and_defaults() {
    assert_eq!(Backend::TypeSafe.env_api_key(), "TYPESAFE_API_KEY");
    assert_eq!(Backend::OpenRouter.env_api_key(), "OPENROUTER_API_KEY");
    assert_eq!(Backend::TypeSafe.env_base_url(), "TYPESAFE_BASE_URL");
    assert_eq!(Backend::OpenRouter.env_base_url(), "OPENROUTER_BASE_URL");
    assert_eq!(Backend::TypeSafe.env_default_model(), "TYPESAFE_DEFAULT_MODEL");
    assert_eq!(Backend::OpenRouter.env_default_model(), "OPENROUTER_DEFAULT_MODEL");
    assert_eq!(Backend::TypeSafe.default_base_url(), "https://api.typesafe.ai");
    assert_eq!(Backend::OpenRouter.default_base_url(), "https://openrouter.ai/api");
    assert_eq!(Backend::TypeSafe.default_model(), "jev-latest");
    assert_eq!(Backend::OpenRouter.default_model(), "~typesafe/jev-latest");
    assert_eq!(Backend::TypeSafe.system_one_path(), "/v1/systemone");
    assert_eq!(Backend::OpenRouter.system_one_path(), "/alpha/decisions");
    assert!(Backend::TypeSafe.models_list_supported());
    assert!(!Backend::OpenRouter.models_list_supported());
    assert_eq!(Backend::default(), Backend::TypeSafe);
}

#[test]
fn blank_environment_values_are_ignored() {
    assert_eq!(non_blank(None), None);
    assert_eq!(non_blank(Some(String::new())), None);
    assert_eq!(non_blank(Some(" \t\n\u{3000}".to_string())), None);
    assert_eq!(non_blank(Some(" x ".to_string())), Some(" x ".to_string()));
}

#[test]
fn text_helpers() {
    assert_eq!(trim("\u{3000} a b \n"), "a b");
    assert_eq!(trim("   "), "");
    assert_eq!(trim_end_matches("a//", '/'), "a");
    assert_eq!(trim_end_matches("/a/b", '/'), "/a/b");
    assert_eq!(trim_start_matches("[[x]", '['), "x]");
    assert!(blank(" \r\n"));
    assert!(!blank(" . "));
    assert!(equal_ignoring_ascii_case("LocalHost", "localhost"));
    assert!(!equal_ignoring_ascii_case("É", "é"));
    assert!(!equal_ignoring_ascii_case("localhos", "localhost"));
    assert!(same_text("abc", "abc"));
    assert!(!same_text("abc", "abd"));
    assert!(starts_with("https://x", "https:"));
    assert!(!starts_with("http://x", "https:"));
    assert!(!starts_with("htt", "https:"));
    assert_eq!(decimal_text(0), "0");
    assert_eq!(decimal_text(1234), "1234");
    assert_eq!(decimal_text(usize::MAX), usize::MAX.to_string());
}

#[test]
fn loopback_hosts() {
    for host in ["localhost", "LOCALHOST", "LocalHost", "127.0.0.1", "127.255.0.9", "[::1]", "::1"] {
        assert!(is_loopback(host), "{host}");
    }
    for host in ["", "localhost.evil.com", "10.0.0.5", "[::2]", "::ffff:127.0.0.1", "128.0.0.1"] {
        assert!(!is_loopback(host), "{host}");
    }
}

#[test]
fn ip_addresses() {
    match parse_ip("127.0.0.1") {
        Some(IpAddress::V4(o)) => assert_eq!(o, [127, 0, 0, 1]),
        other => panic!("{other:?}"),
    }
    match parse_ip("::1") {
        Some(IpAddress::V6(s)) => assert_eq!(s, [0, 0, 0, 0, 0, 0, 0, 1]),
        other => panic!("{other:?}"),
    }
    assert!(parse_ip("[::1]").is_none());
    assert!(parse_ip("localhost").is_none());
    assert!(IpAddress::V4([127, 1, 2, 3]).is_loopback());
    assert!(!IpAddress::V4([10, 0, 0, 1]).is_loopback());
    assert!(IpAddress::V6([0, 0, 0, 0, 0, 0, 0, 1]).is_loopback());
    assert!(!IpAddress::V6([0, 0, 0, 0, 0, 0xffff, 0x7f00, 1]).is_loopback());
}

#[test]
fn url_parts() {
    let parts = parse_url("HTTPS://Example.COM:8080/x").unwrap();
    assert_eq!(parts.scheme, "https");
    assert_eq!(parts.host.as_deref(), Some("example.com"));
    let parts = parse_url("http://[::1]:80").unwrap();
    assert_eq!(parts.host.as_deref(), Some("[::1]"));
    assert!(parse_url("not a url").is_none());
    assert!(parse_url("").is_none());
}

#[test]
fn base_url_messages() {
    match validate_base_url("ftp://x", true) {
        Err(Error::Config(m)) => assert_eq!(m, "`base_url` must be an https URL, got \"ftp://x\"."),
        other => panic!("{other:?}"),
    }
    match validate_base_url("http://10.0.0.5", false) {
        Err(Error::Config(m)) => assert_eq!(
            m,
            "`base_url` \"http://10.0.0.5\" uses plain http, which would send credentials \
             unencrypted. Use https, a loopback host, or `ClientBuilder::allow_insecure_http(true)`."
        ),
        other => panic!("{other:?}"),
    }
    assert!(validate_base_url("https://x.example", false).is_ok());
    let no_host = UrlParts { scheme: "http".to_string(), host: None };
    assert!(check_base_url("http:x", Some(no_host), false).is_err());
    let no_host = UrlParts { scheme: "http".to_string(), host: None };
    assert!(check_base_url("http:x", Some(no_host), true).is_ok());
    assert!(check_base_url("whatever", None, true).is_err());
}

#[test]
fn timeouts() {
    match validate_timeout(Duration::ZERO) {
        Err(Error::Config(m)) => assert_eq!(m, "`timeout` must be a positive duration, got 0."),
        other => panic!("{other:?}"),
    }
    assert_eq!(validate_timeout(Duration::from_nanos(1)).unwrap(), Duration::from_nanos(1));
    assert_eq!(nanos(Duration::from_millis(3)), 3_000_000);
    assert_eq!(duration_from_secs(7), Duration::from_secs(7));
    assert_eq!(default_timeout(), Duration::from_secs(5));
    assert_eq!(default_total_timeout(), Duration::from_secs(10));

    let client = build(ClientBuilder::default().api_key("k"), &[]).unwrap();
    assert_eq!(client.total_timeout(), Some(Duration::from_secs(DEFAULT_TOTAL_TIMEOUT_SECS)));
    let client = build(ClientBuilder::default().api_key("k").total_timeout(None), &[]).unwrap();
    assert_eq!(client.total_timeout(), None);
    let m = config_message(build(
        ClientBuilder::default().api_key("k").total_timeout(Some(Duration::ZERO)),
        &[],
    ));
    assert_eq!(m, "`total_timeout` must be a positive duration, got 0.");
}

#[test]
fn concurrency_limit() {
    assert_eq!(max_permits(), usize::MAX >> 3);
    let expected = |max: usize| {
        format!(
            "`max_concurrent_requests` must be between 1 and {}, got {max}.",
            usize::MAX >> 3
        )
    };
    let m = config_message(build(ClientBuilder::default().api_key("k").max_concurrent_requests(0), &[]));
    assert_eq!(m, expected(0));
    let too_many = (usize::MAX >> 3) + 1;
    let m = config_message(build(
        ClientBuilder::default().api_key("k").max_concurrent_requests(too_many),
        &[],
    ));
    assert_eq!(m, expected(too_many));
    let client = build(ClientBuilder::default().api_key("k").max_concurrent_requests(4), &[]).unwrap();
    assert_eq!(client.max_concurrent_requests(), Some(4));
    let client = build(ClientBuilder::default().api_key("k"), &[]).unwrap();
    assert_eq!(client.max_concurrent_requests(), None);
}

#[test]
fn credentials_and_bearer_values() {
    let key = ApiKey::new(" k ".to_string());
    assert_eq!(key.expose(), " k ");
    assert_eq!(bearer_header(&key).unwrap().to_str().unwrap(), "Bearer k");
    assert_eq!(bearer_header(&ApiKey::new("\t".to_string())).err().unwrap(), "is blank");
    assert_eq!(
        bearer_header(&ApiKey::new("a\u{7f}b".to_string())).err().unwrap(),
        "contains characters that are not allowed in an HTTP header"
    );
    let unicode = bearer_header(&ApiKey::new("ключ".to_string())).unwrap();
    assert_eq!(unicode.as_bytes(), "Bearer ключ".as_bytes());
    assert!(header_value_from_str("a\tb").is_some());
    assert!(header_value_from_str("a\nb").is_none());

    let m = config_message(build(ClientBuilder::default(), &[]));
    assert_eq!(
        m,
        "No credentials were provided. Call `ClientBuilder::api_key` or \
         `ClientBuilder::credential_provider`, or set the TYPESAFE_API_KEY environment variable."
    );
    let m = config_message(build(ClientBuilder::default().api_key("a\nb"), &[]));
    assert_eq!(m, "The API key contains characters that are not allowed in an HTTP header.");
}

#[test]
fn header_maps() {
    let mut map = empty_headers();
    assert_eq!(header_names_len(&map), 0);
    insert_header(&mut map, HeaderName::from_static("x-a"), HeaderValue::from_static("1"));
    insert_header(&mut map, HeaderName::from_static("x-a"), HeaderValue::from_static("2"));
    assert_eq!(header_names_len(&map), 1);
    assert_eq!(map.get("x-a").unwrap(), "2");
    let mut other = HeaderMap::new();
    other.insert("x-a", HeaderValue::from_static("3"));
    other.append("x-a", HeaderValue::from_static("4"));
    other.insert("x-b", HeaderValue::from_static("5"));
    extend_headers(&mut map, other);
    assert_eq!(header_names_len(&map), 2);
    let values: Vec<_> = map.get_all("x-a").iter().collect();
    assert_eq!(values, ["3", "4"]);
}

#[test]
fn default_headers_replace_earlier_values() {
    let builder = ClientBuilder::default()
        .api_key("k")
        .default_header(HeaderName::from_static("x-title"), HeaderValue::from_static("one"))
        .default_header(HeaderName::from_static("x-title"), HeaderValue::from_static("two"));
    assert_eq!(builder.default_header_names(), 1);
    let mut more = HeaderMap::new();
    more.insert("http-referer", HeaderValue::from_static("https://app.example"));
    more.insert("x-title", HeaderValue::from_static("three"));
    let client = build(builder.default_headers(more), &[]).unwrap();
    assert_eq!(client.default_headers().keys_len(), 2);
    let headers = client.default_headers();
    assert_eq!(headers.len(), 2);
    assert_eq!(headers.get("x-title").unwrap(), "three");
    assert_eq!(headers.get("http-referer").unwrap(), "https://app.example");
}

#[test]
fn resolved_api_root_has_no_surrounding_space_or_trailing_slashes() {
    let client = build(ClientBuilder::default().api_key("k").base_url(" https://x.example/api/// "), &[])
        .unwrap();
    assert_eq!(client.base_url(), "https://x.example/api");
}

#[test]
fn environment_is_read_only_where_code_set_nothing() {
    let asked = std::cell::RefCell::new(Vec::new());
    let reader = |name: &str| {
        asked.borrow_mut().push(name.to_string());
        None
    };
    let client = ClientBuilder::default()
        .api_key("k")
        .base_url("https://x.example")
        .build_with_env(reader, Ok(()), true)
        .unwrap();
    assert_eq!(client.default_model(), "jev-latest");
    assert_eq!(*asked.borrow(), vec![ENV_DEFAULT_MODEL.to_string()]);

    let asked = std::cell::RefCell::new(Vec::new());
    let reader = |name: &str| {
        asked.borrow_mut().push(name.to_string());
        None
    };
    let _ = ClientBuilder::default().build_with_env(reader, Ok(()), true);
    assert_eq!(*asked.borrow(), vec![ENV_API_KEY.to_string()]);
}

#[test]
fn code_beats_environment_and_environment_beats_defaults() {
    let pairs = [(ENV_API_KEY, "env-key"), (ENV_BASE_URL, "https://env.example"), (ENV_DEFAULT_MODEL, "env-model")];
    let client = build(ClientBuilder::default(), &pairs).unwrap();
    assert_eq!(client.base_url(), "https://env.example");
    assert_eq!(client.default_model(), "env-model");
    let client = build(ClientBuilder::default().base_url("https://code.example").default_model("code-model"), &pairs)
        .unwrap();
    assert_eq!(client.base_url(), "https://code.example");
    assert_eq!(client.default_model(), "code-model");
}

#[test]
fn a_provider_needs_no_key_anywhere() {
    let client = build(ClientBuilder::default().credential_provider(), &[]).unwrap();
    assert!(matches!(client.credentials(), Credentials::Provider));
}

#[test]
fn retry_problem_comes_after_credentials_and_root() {
    let retry = || Err(Error::Config("retry problem".to_string()));
    let err = ClientBuilder::default().build_with_env(env(&[]), retry(), true).err().unwrap();
    assert!(err.to_string().contains("No credentials"));
    let err = ClientBuilder::default()
        .api_key("k")
        .base_url("http://10.1.1.1")
        .build_with_env(env(&[]), retry(), true)
        .err().unwrap();
    assert!(err.to_string().contains("plain http"));
    let err = ClientBuilder::default()
        .api_key("k")
        .timeout(Duration::ZERO)
        .build_with_env(env(&[]), retry(), true)
        .err().unwrap();
    assert_eq!(err.to_string(), "retry problem");
}

#[test]
fn clients_and_calls() {
    let client = build(ClientBuilder::default().api_key("k").log_bodies(true), &[]).unwrap();
    assert!(client.log_bodies());
    let copy = client.clone();
    assert_eq!(copy.base_url(), client.base_url());
    assert_eq!(copy.backend(), Backend::TypeSafe);

    let call = client.system_one(Ok(b"{\"state\":1}".to_vec()));
    assert_eq!(call.method_of(), Method::Post);
    assert_eq!(call.path_of(), "/v1/systemone");
    assert_eq!(call.client_ref().base_url(), "https://api.typesafe.ai");
    assert_eq!(call.decoder_of(), Decoder::Json);

    let list = client.models().list();
    assert_eq!(list.method_of(), Method::Get);
    assert_eq!(list.path_of(), "/v1/models");
    assert!(matches!(list.body_ref(), Ok(None)));
    assert_eq!(list.decoder_of(), Decoder::ModelList);
    let (owner, method, path, body, decoder) = list.into_parts();
    assert_eq!(owner.default_model(), "jev-latest");
    assert_eq!(method, Method::Get);
    assert_eq!(path, "/v1/models");
    assert!(matches!(body, Ok(None)));
    assert_eq!(decoder, Decoder::ModelList);

    let builder = Client::builder();
    assert!(build(builder, &[]).is_err());
}

#[test]
fn requests_use_the_default_model_unless_they_name_one() {
    let client = build(ClientBuilder::default().api_key("k").default_model("jev-x"), &[]).unwrap();
    assert_eq!(client.request_model(None), "jev-x");
    assert_eq!(client.request_model(Some("jev-y")), "jev-y");
}

#[test]
fn overlapping_header_maps_count_their_names_once() {
    let names: Vec<HeaderName> = (0..4000)
        .map(|i| HeaderName::from_bytes(format!("x-h{i}").as_bytes()).unwrap())
        .collect();
    let map = |value: &'static str| {
        let mut h = HeaderMap::new();
        for n in &names {
            h.insert(n.clone(), HeaderValue::from_static(value));
        }
        h
    };
    let builder = ClientBuilder::default().default_headers(map("a")).default_headers(map("b"));
    assert_eq!(builder.default_header_names(), 4000);
    assert_eq!(builder.default_headers_setting().get("x-h17").unwrap(), "b");
}

#[test]
fn builder_settings_read_back() {
    let builder = ClientBuilder::default()
        .openrouter()
        .base_url("https://x.example")
        .allow_insecure_http(true)
        .log_bodies(true)
        .default_model("m")
        .timeout(Duration::from_secs(3))
        .total_timeout(None)
        .max_concurrent_requests(7);
    assert_eq!(builder.backend_setting(), Some(Backend::OpenRouter));
    assert!(builder.credentials_setting().is_none());
    assert_eq!(builder.base_url_setting().as_deref(), Some("https://x.example"));
    assert!(builder.allow_insecure_http_setting());
    assert!(builder.log_bodies_setting());
    assert_eq!(builder.default_model_setting().as_deref(), Some("m"));
    assert_eq!(builder.timeout_setting(), Some(Duration::from_secs(3)));
    assert_eq!(builder.total_timeout_setting(), Some(None));
    assert_eq!(builder.max_concurrent_requests_setting(), Some(7));
    assert_eq!(builder.default_headers_setting().keys_len(), 0);
}

#[test]
fn provider_tokens_are_sent_as_bearer_values() {
    assert_eq!(bearer_value(" tok ").unwrap().to_str().unwrap(), "Bearer tok");
    assert_eq!(bearer_value("").err().unwrap(), "is blank");
}

#[test]
fn no_tls_message() {
    let m = config_message(ClientBuilder::default().api_key("k").build_with_env(env(&[]), Ok(()), false));
    assert_eq!(
        m,
        "kunobi-jev was built without a TLS backend, so it cannot reach an https `base_url`. \
         Enable the `rustls` or `native-tls` feature, or pass a client through \
         `ClientBuilder::http_client`."
    );
}

#[test]
fn error_messages_are_their_text() {
    assert_eq!(Error::Config("a".to_string()).to_string(), "a");
    assert_eq!(Error::InvalidRequest("b".to_string()).to_string(), "b");
}

#[test]
fn limits_are_checked_in_order_after_credentials_and_root() {
    let base = || ClientBuilder::default().api_key("k");
    let m = config_message(build(
        base()
            .timeout(Duration::ZERO)
            .total_timeout(Some(Duration::ZERO))
            .max_concurrent_requests(0),
        &[],
    ));
    assert_eq!(m, "`timeout` must be a positive duration, got 0.");
    let m = config_message(build(
        base().total_timeout(Some(Duration::ZERO)).max_concurrent_requests(0),
        &[],
    ));
    assert_eq!(m, "`total_timeout` must be a positive duration, got 0.");
    // Credentials are checked before any limit.
    let m = config_message(build(ClientBuilder::default().timeout(Duration::ZERO), &[]));
    assert!(m.contains(ENV_API_KEY), "{m}");

    let client = build(
        base()
            .timeout(Duration::from_millis(250))
            .total_timeout(Some(Duration::from_secs(3)))
            .max_concurrent_requests(2),
        &[],
    )
    .unwrap();
    assert_eq!(client.timeout(), Duration::from_millis(250));
    assert_eq!(client.total_timeout(), Some(Duration::from_secs(3)));
    assert_eq!(client.max_concurrent_requests(), Some(2));
    let client = build(base(), &[]).unwrap();
    assert_eq!(client.timeout(), Duration::from_secs(5));
}

#[test]
fn a_blank_environment_key_is_no_key() {
    let m = config_message(build(ClientBuilder::default(), &[(ENV_API_KEY, "  \t")]));
    assert!(m.contains(ENV_API_KEY), "{m}");
    let client = build(
        ClientBuilder::default(),
        &[(ENV_API_KEY, "k"), (ENV_BASE_URL, " "), (ENV_DEFAULT_MODEL, "")],
    )
    .unwrap();
    assert_eq!(client.base_url(), "https://api.typesafe.ai");
    assert_eq!(client.default_model(), "jev-latest");
}
