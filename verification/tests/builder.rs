use std::collections::HashMap;
use std::time::Duration;

use kunobi_jev::client::builder::TLS_BACKEND;
use kunobi_jev::client::env::non_blank;
use kunobi_jev::{
    bearer_header, bearer_value, Backend, Client, ClientBuilder, Credentials, Error, DEFAULT_BASE_URL,
    DEFAULT_MODEL, DEFAULT_TIMEOUT_SECS, ENV_API_KEY, ENV_BASE_URL, ENV_DEFAULT_MODEL,
    ENV_OPENROUTER_API_KEY, ENV_OPENROUTER_BASE_URL, ENV_OPENROUTER_DEFAULT_MODEL,
    OPENROUTER_DEFAULT_BASE_URL, OPENROUTER_DEFAULT_MODEL,
};

fn env(pairs: &[(&str, &str)]) -> impl Fn(&str) -> Option<String> {
    let map: HashMap<String, String> = pairs
        .iter()
        .map(|(k, v)| (k.to_string(), v.to_string()))
        .collect();
    move |name| non_blank(map.get(name).cloned())
}

/// A builder whose client will be given a preconfigured HTTP client, so that https roots
/// do not need a TLS backend in the default one.
fn builder() -> ClientBuilder {
    ClientBuilder::default()
}

fn build(builder: ClientBuilder, pairs: &[(&str, &str)]) -> Result<Client, Error> {
    builder.build_with_env(env(pairs), Ok(()), true)
}

fn authorization(client: &Client) -> String {
    match client.credentials() {
        Credentials::ApiKey(key) => bearer_header(key)
            .unwrap()
            .to_str()
            .unwrap()
            .to_owned(),
        Credentials::Provider => panic!("a provider hands out tokens itself"),
    }
}

#[test]
fn requires_credentials() {
    let err = build(builder(), &[]).err().unwrap();
    assert!(err.to_string().contains(ENV_API_KEY), "{err:?}");
    let blank_env = build(builder(), &[(ENV_API_KEY, "  ")]);
    assert!(blank_env.is_err());
    let blank_code = build(builder().api_key(" "), &[(ENV_API_KEY, "k")]);
    assert_eq!(blank_code.err().unwrap().to_string(), "The API key is blank.");
}

#[test]
fn openrouter_uses_its_environment_and_defaults() {
    let client = build(builder().openrouter(), &[(ENV_OPENROUTER_API_KEY, " or-key ")]).unwrap();
    assert_eq!(client.backend(), Backend::OpenRouter);
    assert_eq!(client.base_url(), OPENROUTER_DEFAULT_BASE_URL);
    assert_eq!(client.default_model(), OPENROUTER_DEFAULT_MODEL);
    assert_eq!(authorization(&client), "Bearer or-key");

    let from_env = build(
        builder().openrouter(),
        &[
            (ENV_OPENROUTER_API_KEY, "k"),
            (ENV_OPENROUTER_BASE_URL, "http://localhost:9090"),
            (ENV_OPENROUTER_DEFAULT_MODEL, "typesafe/jev-1.13"),
        ],
    )
    .unwrap();
    assert_eq!(from_env.base_url(), "http://localhost:9090");
    assert_eq!(from_env.default_model(), "typesafe/jev-1.13");
}

#[test]
fn openrouter_requires_openrouter_api_key() {
    let err = build(builder().openrouter(), &[]).err().unwrap();
    assert!(err.to_string().contains(ENV_OPENROUTER_API_KEY), "{err:?}");
}

#[test]
fn default_client_stays_typesafe_when_openrouter_env_is_set() {
    let err = build(builder(), &[(ENV_OPENROUTER_API_KEY, "or-key")]).err().unwrap();
    assert!(err.to_string().contains(ENV_API_KEY), "{err:?}");

    let client = build(
        builder(),
        &[
            (ENV_API_KEY, "ts-key"),
            (ENV_OPENROUTER_API_KEY, "or-key"),
            (ENV_OPENROUTER_BASE_URL, "https://openrouter.example/api"),
            (ENV_OPENROUTER_DEFAULT_MODEL, "~typesafe/jev-latest"),
        ],
    )
    .unwrap();
    assert_eq!(client.backend(), Backend::TypeSafe);
    assert_eq!(client.base_url(), DEFAULT_BASE_URL);
    assert_eq!(client.default_model(), DEFAULT_MODEL);
}

#[test]
fn falls_back_to_environment_then_defaults() {
    let client = build(builder(), &[(ENV_API_KEY, " k ")]).unwrap();
    assert_eq!(client.base_url(), DEFAULT_BASE_URL);
    assert_eq!(client.default_model(), DEFAULT_MODEL);
    assert_eq!(client.timeout(), Duration::from_secs(DEFAULT_TIMEOUT_SECS));
    assert_eq!(authorization(&client), "Bearer k");
    assert!(!client.log_bodies());

    let from_env = build(
        builder(),
        &[
            (ENV_API_KEY, "k"),
            (ENV_BASE_URL, "http://localhost:8080//"),
            (ENV_DEFAULT_MODEL, "jev-test"),
        ],
    )
    .unwrap();
    assert_eq!(from_env.base_url(), "http://localhost:8080");
    assert_eq!(from_env.default_model(), "jev-test");
}

#[test]
fn code_takes_precedence_over_environment() {
    let client = build(
        builder()
            .api_key("from-code")
            .base_url("https://example.com/")
            .default_model("jev-code"),
        &[
            (ENV_API_KEY, "from-env"),
            (ENV_BASE_URL, "https://env.example.com"),
            (ENV_DEFAULT_MODEL, "jev-env"),
        ],
    )
    .unwrap();
    assert_eq!(authorization(&client), "Bearer from-code");
    assert_eq!(client.base_url(), "https://example.com");
    assert_eq!(client.default_model(), "jev-code");
}

#[test]
fn a_provider_replaces_api_keys_from_code_and_environment() {
    let client = build(
        builder().api_key("from-code").credential_provider(),
        &[(ENV_API_KEY, "from-env")],
    )
    .unwrap();
    assert!(matches!(client.credentials(), Credentials::Provider));
    // A provider's token is sent as the bearer value, as an API key is.
    assert_eq!(bearer_value("from-provider").unwrap().to_str().unwrap(), "Bearer from-provider");
}

#[test]
fn https_needs_a_tls_backend_or_a_custom_client() {
    let default_client = ClientBuilder::default()
        .api_key("k")
        .build_with_env(env(&[]), Ok(()), false);
    assert_eq!(default_client.is_ok(), TLS_BACKEND);
    if !TLS_BACKEND {
        let err = default_client.err().unwrap();
        assert!(err.to_string().contains("without a TLS backend"), "{err:?}");
    }
    let custom = ClientBuilder::default()
        .api_key("k")
        .build_with_env(env(&[]), Ok(()), true);
    assert!(custom.is_ok());
}

#[test]
fn plain_http_is_limited_to_loopback_hosts() {
    let build = |url: &str, allow: bool| {
        build(
            builder().api_key("k").base_url(url).allow_insecure_http(allow),
            &[],
        )
    };
    for ok in [
        "https://api.typesafe.ai",
        "http://localhost:1234",
        "http://LOCALHOST",
        "http://127.0.0.1:9",
        "http://127.8.0.1",
        "http://[::1]:80",
    ] {
        assert!(build(ok, false).is_ok(), "{ok}");
    }
    for insecure in [
        "http://api.typesafe.ai",
        "http://10.0.0.5",
        "http://localhost.evil.com",
        "http://[::2]",
    ] {
        let err = build(insecure, false).err().unwrap();
        assert!(err.to_string().contains("plain http"), "{insecure}: {err:?}");
        assert!(build(insecure, true).is_ok(), "{insecure} with opt-out");
    }
    for invalid in ["ftp://x", "not a url", ""] {
        assert!(build(invalid, true).is_err(), "{invalid}");
    }
}

#[test]
fn plain_http_from_the_environment_is_refused_too() {
    let err = build(
        builder(),
        &[(ENV_API_KEY, "k"), (ENV_BASE_URL, "http://attacker.example")],
    )
    .err().unwrap();
    assert!(err.to_string().contains("plain http"), "{err:?}");
}

#[test]
fn rejects_invalid_configuration() {
    let build_with = |builder: ClientBuilder| build(builder.api_key("k"), &[]);
    let err = build_with(builder().timeout(Duration::ZERO)).err().unwrap();
    assert!(err.to_string().contains("timeout"));
    // The retry policy is checked outside the library, which is handed the outcome.
    let err = builder()
        .api_key("k")
        .build_with_env(
            env(&[]),
            Err(Error::Config(
                "`retry.backoff_jitter` must be between 0 and 1, got 2.".to_string(),
            )),
            true,
        )
        .err().unwrap();
    assert!(err.to_string().contains("retry.backoff_jitter"));
    let err = build(builder().api_key("bad\nkey"), &[]).err().unwrap();
    assert!(err.to_string().contains("HTTP header"));
    assert!(
        !err.to_string().contains("bad"),
        "the key must not leak: {err:?}"
    );
}

#[test]
fn debug_output_hides_credentials() {
    let builder = builder().api_key("sk-secret");
    assert!(!format!("{:?}", builder.credentials_setting()).contains("sk-secret"));
    let client = build(builder, &[]).unwrap();
    assert!(!format!("{:?}", client.credentials()).contains("sk-secret"));
}
