//! What holds of every client configuration, whatever the settings and the environment.

use vstd::prelude::*;

use super::address::parsed_url;
use super::backend::Backend;
use super::builder::{spec_default_builder, with_openrouter, BuilderView};
use super::settings::{
    base_url_problem, chosen_backend, chosen_base_url, concurrency_message, credentials_problem,
    host_is_loopback, no_credentials_message, raw_base_url, resolve, timeout_message,
    total_timeout_message,
};
use super::{DEFAULT_BASE_URL, DEFAULT_MODEL, OPENROUTER_DEFAULT_BASE_URL, OPENROUTER_DEFAULT_MODEL};
use super::env::{
    spec_non_blank, ENV_API_KEY, ENV_BASE_URL, ENV_DEFAULT_MODEL, ENV_OPENROUTER_API_KEY,
};
use super::{spec_max_permits, ClientView};
use super::address::{is_loopback_address, parsed_ip, IpAddress};
use crate::credentials::{bearer_problem, bearer_text, CredentialsView};
use crate::error::ErrorView;
use crate::retry::{DEFAULT_TIMEOUT_SECS, DEFAULT_TOTAL_TIMEOUT_SECS};
use crate::text::{
    eq_ignore_ascii_case, has_prefix, is_blank, is_char, skip_leading, skip_trailing, trimmed,
};
use vstd::utf8::encode_utf8;

verus! {

/// Removing trailing `x` leaves a text that does not end with `x`.
proof fn lemma_no_trailing(s: Seq<char>, x: char)
    ensures
        skip_trailing(s, is_char(x)).len() > 0 ==> skip_trailing(s, is_char(x)).last() != x,
    decreases s.len(),
{
    if s.len() > 0 && is_char(x)(s.last()) {
        lemma_no_trailing(s.drop_last(), x);
    }
}

/// Values set in code take precedence over the environment: once credentials are set in
/// code, the environment's API key changes nothing; once the API root is set, the environment's
/// root changes nothing; once the default model is set, the environment's model changes nothing.
pub proof fn law_code_takes_precedence(
    b: BuilderView,
    env_api_key: Option<Seq<char>>,
    other_api_key: Option<Seq<char>>,
    env_base_url: Option<Seq<char>>,
    other_base_url: Option<Seq<char>>,
    env_default_model: Option<Seq<char>>,
    other_default_model: Option<Seq<char>>,
    retry: Result<(), ErrorView>,
    has_http_client: bool,
)
    ensures
        b.credentials is Some ==> resolve(
            b,
            env_api_key,
            env_base_url,
            env_default_model,
            retry,
            has_http_client,
        ) == resolve(b, other_api_key, env_base_url, env_default_model, retry, has_http_client),
        b.base_url is Some ==> resolve(
            b,
            env_api_key,
            env_base_url,
            env_default_model,
            retry,
            has_http_client,
        ) == resolve(b, env_api_key, other_base_url, env_default_model, retry, has_http_client),
        b.default_model is Some ==> resolve(
            b,
            env_api_key,
            env_base_url,
            env_default_model,
            retry,
            has_http_client,
        ) == resolve(b, env_api_key, env_base_url, other_default_model, retry, has_http_client),
{
}

/// Credentials never travel unencrypted to another machine unless the caller opted out: a
/// client is only built for an https API root, or for a plain-http root whose host is
/// `localhost` or a loopback address, or when plain http was explicitly allowed.
pub proof fn law_plain_http_only_to_loopback_or_when_allowed(
    b: BuilderView,
    env_api_key: Option<Seq<char>>,
    env_base_url: Option<Seq<char>>,
    env_default_model: Option<Seq<char>>,
    retry: Result<(), ErrorView>,
    has_http_client: bool,
)
    requires
        resolve(b, env_api_key, env_base_url, env_default_model, retry, has_http_client) is Ok,
    ensures
        ({
            let url = resolve(
                b,
                env_api_key,
                env_base_url,
                env_default_model,
                retry,
                has_http_client,
            )->Ok_0.base_url;
            match parsed_url(url) {
                Some((scheme, host)) => scheme == "https"@ || (scheme == "http"@ && (
                b.allow_insecure_http || host_is_loopback(
                    match host {
                        Some(h) => h,
                        None => Seq::empty(),
                    },
                ))),
                None => false,
            }
        }),
{
}

/// Every client that is built is usable as configured: its credentials can be sent, its
/// API root has no trailing slash, its timeout per attempt is positive, its bound on a whole
/// call is positive or absent, and its concurrency limit, if any, lies between 1 and
/// `Semaphore::MAX_PERMITS`.
pub proof fn law_built_settings_are_valid(
    b: BuilderView,
    env_api_key: Option<Seq<char>>,
    env_base_url: Option<Seq<char>>,
    env_default_model: Option<Seq<char>>,
    retry: Result<(), ErrorView>,
    has_http_client: bool,
)
    requires
        resolve(b, env_api_key, env_base_url, env_default_model, retry, has_http_client) is Ok,
    ensures
        ({
            let v = resolve(
                b,
                env_api_key,
                env_base_url,
                env_default_model,
                retry,
                has_http_client,
            )->Ok_0;
            &&& v.credentials matches CredentialsView::ApiKey(k) ==> bearer_problem(k) is None
            &&& v.base_url.len() > 0 ==> v.base_url.last() != '/'
            &&& v.timeout > 0
            &&& v.total_timeout != Some(0nat)
            &&& v.max_concurrent_requests matches Some(m) ==> 1 <= m <= spec_max_permits()
        }),
{
    lemma_no_trailing(trimmed(raw_base_url(b, env_base_url)), '/');
}

/// A credential provider replaces API keys: with a provider set, no API key from the
/// environment is used and no API key problem can stop the build, and a built client
/// authenticates with the provider.
pub proof fn law_provider_replaces_api_keys(
    b: BuilderView,
    env_api_key: Option<Seq<char>>,
    env_base_url: Option<Seq<char>>,
    env_default_model: Option<Seq<char>>,
    retry: Result<(), ErrorView>,
    has_http_client: bool,
)
    requires
        b.credentials == Some(CredentialsView::Provider),
    ensures
        credentials_problem(b, env_api_key) is None,
        resolve(b, env_api_key, env_base_url, env_default_model, retry, has_http_client) matches Ok(
            v,
        ) ==> v.credentials == CredentialsView::Provider,
{
}

/// TypeSafe is the default backend: a builder never switched to OpenRouter reads TypeSafe's
/// variables, and with no API root and no model set anywhere, a built client calls
/// `https://api.typesafe.ai` with `jev-latest`.
pub proof fn law_typesafe_is_the_default(
    b: BuilderView,
    env_api_key: Option<Seq<char>>,
    retry: Result<(), ErrorView>,
    has_http_client: bool,
)
    requires
        b.backend is None,
    ensures
        chosen_backend(b) == Backend::TypeSafe,
        chosen_backend(b).spec_env_api_key() == ENV_API_KEY@,
        chosen_backend(b).spec_env_base_url() == ENV_BASE_URL@,
        chosen_backend(b).spec_env_default_model() == ENV_DEFAULT_MODEL@,
        b.base_url is None && b.default_model is None ==> (resolve(
            b,
            env_api_key,
            None,
            None,
            retry,
            has_http_client,
        ) matches Ok(v) ==> v.backend == Backend::TypeSafe && v.base_url == DEFAULT_BASE_URL@
            && v.default_model == DEFAULT_MODEL@),
{
    reveal_strlit("https://api.typesafe.ai");
    lemma_default_root_is_clean(DEFAULT_BASE_URL@);
}

/// With OpenRouter chosen and no API root and no model set anywhere, a built client calls
/// `https://openrouter.ai/api` with `~typesafe/jev-latest`.
pub proof fn law_openrouter_defaults(
    b: BuilderView,
    env_api_key: Option<Seq<char>>,
    retry: Result<(), ErrorView>,
    has_http_client: bool,
)
    requires
        b.backend == Some(Backend::OpenRouter),
        b.base_url is None,
        b.default_model is None,
    ensures
        resolve(b, env_api_key, None, None, retry, has_http_client) matches Ok(v) ==> v.backend
            == Backend::OpenRouter && v.base_url == OPENROUTER_DEFAULT_BASE_URL@ && v.default_model
            == OPENROUTER_DEFAULT_MODEL@,
{
    reveal_strlit("https://openrouter.ai/api");
    lemma_default_root_is_clean(OPENROUTER_DEFAULT_BASE_URL@);
}

/// `openrouter` sets only the backend: a builder switched to OpenRouter keeps every other
/// setting (API key, API root, model, timeouts, limits, headers) as it was, so it commutes with
/// every other setter; and switching twice is switching once.
pub proof fn law_openrouter_sets_only_the_backend(b: BuilderView)
    ensures
        with_openrouter(b).backend == Some(Backend::OpenRouter),
        (BuilderView { backend: b.backend, ..with_openrouter(b) }) == b,
        with_openrouter(with_openrouter(b)) == with_openrouter(b),
{
}

/// What the constructors that read the environment build (`Client::new` from a builder with
/// nothing set, `Client::openrouter` from one switched to OpenRouter): with no API key in the
/// backend's variable they fail naming that variable; a client they build calls their backend,
/// at the environment's API root else the backend's default, with the environment's model else
/// the backend's default.
pub proof fn law_environment_constructors(
    env_api_key: Option<Seq<char>>,
    env_base_url: Option<Seq<char>>,
    env_default_model: Option<Seq<char>>,
    retry: Result<(), ErrorView>,
    has_http_client: bool,
)
    ensures
        resolve(spec_default_builder(), None, env_base_url, env_default_model, retry, has_http_client)
            == Err::<ClientView, ErrorView>(ErrorView::Config(no_credentials_message(ENV_API_KEY@))),
        resolve(
            with_openrouter(spec_default_builder()),
            None,
            env_base_url,
            env_default_model,
            retry,
            has_http_client,
        ) == Err::<ClientView, ErrorView>(
            ErrorView::Config(no_credentials_message(ENV_OPENROUTER_API_KEY@)),
        ),
        resolve(spec_default_builder(), env_api_key, env_base_url, env_default_model, retry, has_http_client)
            matches Ok(v) ==> {
            &&& v.backend == Backend::TypeSafe
            &&& env_base_url is None ==> v.base_url == DEFAULT_BASE_URL@
            &&& env_base_url matches Some(u) ==> v.base_url == skip_trailing(trimmed(u), is_char('/'))
            &&& v.default_model == match env_default_model {
                Some(m) => m,
                None => DEFAULT_MODEL@,
            }
        },
        resolve(
            with_openrouter(spec_default_builder()),
            env_api_key,
            env_base_url,
            env_default_model,
            retry,
            has_http_client,
        ) matches Ok(v) ==> {
            &&& v.backend == Backend::OpenRouter
            &&& env_base_url is None ==> v.base_url == OPENROUTER_DEFAULT_BASE_URL@
            &&& env_base_url matches Some(u) ==> v.base_url == skip_trailing(trimmed(u), is_char('/'))
            &&& v.default_model == match env_default_model {
                Some(m) => m,
                None => OPENROUTER_DEFAULT_MODEL@,
            }
        },
{
    reveal_strlit("https://api.typesafe.ai");
    reveal_strlit("https://openrouter.ai/api");
    lemma_default_root_is_clean(DEFAULT_BASE_URL@);
    lemma_default_root_is_clean(OPENROUTER_DEFAULT_BASE_URL@);
}

/// The limits, once credentials, the API root and the retry policy pass: a zero timeout per
/// attempt fails the build with the timeout message; else a zero bound on a whole call fails
/// it with that bound's message; else a concurrency limit of 0 or above
/// `Semaphore::MAX_PERMITS` fails it with the range and the value; else the build succeeds
/// (given a transport for an https root), and the client keeps the timeout set (5 s when
/// none), the bound set (10 s when none, none when removed) and the limit set (none when none).
pub proof fn law_limits(
    b: BuilderView,
    env_api_key: Option<Seq<char>>,
    env_base_url: Option<Seq<char>>,
    env_default_model: Option<Seq<char>>,
    has_http_client: bool,
)
    requires
        credentials_problem(b, env_api_key) is None,
        base_url_problem(chosen_base_url(b, env_base_url), b.allow_insecure_http) is None,
    ensures
        ({
            let r = resolve(b, env_api_key, env_base_url, env_default_model, Ok(()), has_http_client);
            let zero_timeout = b.timeout == Some(0nat);
            let zero_total = b.total_timeout == Some(Some(0nat));
            let bad_limit = b.max_concurrent_requests matches Some(m) && (m == 0 || m
                > spec_max_permits());
            &&& zero_timeout ==> r == Err::<ClientView, ErrorView>(ErrorView::Config(timeout_message()))
            &&& !zero_timeout && zero_total ==> r == Err::<ClientView, ErrorView>(
                ErrorView::Config(total_timeout_message()),
            )
            &&& !zero_timeout && !zero_total && bad_limit ==> r == Err::<ClientView, ErrorView>(
                ErrorView::Config(concurrency_message(b.max_concurrent_requests->Some_0)),
            )
            &&& !zero_timeout && !zero_total && !bad_limit && (has_http_client || !has_prefix(
                chosen_base_url(b, env_base_url),
                "https:"@,
            )) ==> (r matches Ok(v) && v.timeout == match b.timeout {
                Some(t) => t,
                None => (DEFAULT_TIMEOUT_SECS * 1_000_000_000) as nat,
            } && v.total_timeout == match b.total_timeout {
                Some(t) => t,
                None => Some((DEFAULT_TOTAL_TIMEOUT_SECS * 1_000_000_000) as nat),
            } && v.max_concurrent_requests == b.max_concurrent_requests)
        }),
{
}

/// Blank environment values count as unset: an empty or whitespace-only value is dropped,
/// and a build that reads one comes out as if the variable were not set; with no credentials
/// in code, a blank API key fails the build naming the backend's variable.
pub proof fn law_blank_environment_values_count_as_unset(
    b: BuilderView,
    raw_api_key: Option<Seq<char>>,
    raw_base_url: Option<Seq<char>>,
    raw_default_model: Option<Seq<char>>,
    retry: Result<(), ErrorView>,
    has_http_client: bool,
)
    ensures
        raw_api_key matches Some(v) && is_blank(v) ==> spec_non_blank(raw_api_key) is None,
        raw_api_key matches Some(v) && !is_blank(v) ==> spec_non_blank(raw_api_key) == raw_api_key,
        raw_api_key matches Some(v) && is_blank(v) ==> resolve(
            b,
            spec_non_blank(raw_api_key),
            spec_non_blank(raw_base_url),
            spec_non_blank(raw_default_model),
            retry,
            has_http_client,
        ) == resolve(
            b,
            None,
            spec_non_blank(raw_base_url),
            spec_non_blank(raw_default_model),
            retry,
            has_http_client,
        ),
        raw_base_url matches Some(v) && is_blank(v) ==> resolve(
            b,
            spec_non_blank(raw_api_key),
            spec_non_blank(raw_base_url),
            spec_non_blank(raw_default_model),
            retry,
            has_http_client,
        ) == resolve(
            b,
            spec_non_blank(raw_api_key),
            None,
            spec_non_blank(raw_default_model),
            retry,
            has_http_client,
        ),
        raw_default_model matches Some(v) && is_blank(v) ==> resolve(
            b,
            spec_non_blank(raw_api_key),
            spec_non_blank(raw_base_url),
            spec_non_blank(raw_default_model),
            retry,
            has_http_client,
        ) == resolve(
            b,
            spec_non_blank(raw_api_key),
            spec_non_blank(raw_base_url),
            None,
            retry,
            has_http_client,
        ),
        b.credentials is None && (raw_api_key matches Some(v) && is_blank(v)) ==> resolve(
            b,
            spec_non_blank(raw_api_key),
            spec_non_blank(raw_base_url),
            spec_non_blank(raw_default_model),
            retry,
            has_http_client,
        ) == Err::<ClientView, ErrorView>(
            ErrorView::Config(no_credentials_message(chosen_backend(b).spec_env_api_key())),
        ),
{
}

/// A default model set in code is the model a built client uses, on either backend and
/// whatever the environment holds.
pub proof fn law_model_set_in_code_is_kept(
    b: BuilderView,
    m: Seq<char>,
    env_api_key: Option<Seq<char>>,
    env_base_url: Option<Seq<char>>,
    env_default_model: Option<Seq<char>>,
    retry: Result<(), ErrorView>,
    has_http_client: bool,
)
    requires
        b.default_model == Some(m),
    ensures
        resolve(b, env_api_key, env_base_url, env_default_model, retry, has_http_client) matches Ok(
            v,
        ) ==> v.default_model == m,
{
}

/// An API root set in code is the root a built client calls, on either backend and whatever
/// the environment holds, with only its surrounding whitespace and trailing slashes removed.
pub proof fn law_root_set_in_code_is_kept(
    b: BuilderView,
    u: Seq<char>,
    env_api_key: Option<Seq<char>>,
    env_base_url: Option<Seq<char>>,
    env_default_model: Option<Seq<char>>,
    retry: Result<(), ErrorView>,
    has_http_client: bool,
)
    requires
        b.base_url == Some(u),
    ensures
        resolve(b, env_api_key, env_base_url, env_default_model, retry, has_http_client) matches Ok(
            v,
        ) ==> v.base_url == skip_trailing(trimmed(u), is_char('/')),
{
}

/// The headers added to a builder are the headers a built client sends with every request,
/// on either backend and whatever the environment holds.
pub proof fn law_default_headers_are_kept(
    b: BuilderView,
    env_api_key: Option<Seq<char>>,
    env_base_url: Option<Seq<char>>,
    env_default_model: Option<Seq<char>>,
    retry: Result<(), ErrorView>,
    has_http_client: bool,
)
    ensures
        resolve(b, env_api_key, env_base_url, env_default_model, retry, has_http_client) matches Ok(
            v,
        ) ==> v.default_headers == b.default_headers,
{
}

/// A secret is refused only when it is blank or when its `Authorization` value would hold a
/// byte that a header cannot carry (a control character other than tab, or DEL): a secret
/// whose text without surrounding whitespace is not empty, and whose value `Bearer <text>`
/// encodes in UTF-8 to visible ASCII, tabs and bytes from 128 up, is accepted and sent as
/// exactly that value. An API key set in code that is accepted stops no build.
pub proof fn law_sendable_secrets_are_accepted(
    key: Seq<char>,
    b: BuilderView,
    env_api_key: Option<Seq<char>>,
)
    ensures
        bearer_text(key) == "Bearer "@ + trimmed(key),
        trimmed(key).len() == 0 <==> bearer_problem(key) == Some("is blank"@),
        (trimmed(key).len() > 0 && forall|i: int|
            0 <= i < encode_utf8("Bearer "@ + trimmed(key)).len() ==> {
                let c = #[trigger] encode_utf8("Bearer "@ + trimmed(key))[i];
                (32 <= c && c != 127) || c == 9
            }) <==> bearer_problem(key) is None,
        b.credentials == Some(CredentialsView::ApiKey(key)) && bearer_problem(key) is None
            ==> credentials_problem(b, env_api_key) is None,
{
    reveal_strlit("Bearer ");
    reveal_strlit("is blank");
    reveal_strlit("contains characters that are not allowed in an HTTP header");
    assert("is blank"@.len() != "contains characters that are not allowed in an HTTP header"@.len());
}

/// Which hosts may receive credentials over plain http: `localhost` in any ASCII case, and
/// (brackets removed) IPv4 addresses in `127.0.0.0/8` and the IPv6 address `::1`; no other
/// address is loopback, and a plain-http root on any other host is refused unless plain http
/// was allowed.
pub proof fn law_loopback_hosts(
    host: Seq<char>,
    octets: [u8; 4],
    segments: [u16; 8],
    url: Seq<char>,
    allow_insecure_http: bool,
)
    ensures
        is_loopback_address(IpAddress::V4(octets)) <==> octets[0] == 127,
        is_loopback_address(IpAddress::V6(segments)) <==> (forall|i: int|
            0 <= i < 7 ==> segments[i] == 0) && segments[7] == 1,
        host_is_loopback(host) <==> (eq_ignore_ascii_case(host, "localhost"@) || match parsed_ip(
            skip_trailing(skip_leading(host, is_char('[')), is_char(']')),
        ) {
            Some(IpAddress::V4(o)) => o[0] == 127,
            Some(IpAddress::V6(s)) => (forall|i: int| 0 <= i < 7 ==> s[i] == 0) && s[7] == 1,
            None => false,
        }),
        parsed_url(url) == Some(("http"@, Some(host))) && !allow_insecure_http && !host_is_loopback(
            host,
        ) ==> base_url_problem(url, allow_insecure_http) is Some,
{
    reveal_strlit("http");
    reveal_strlit("https");
    assert("http"@.len() != "https"@.len());
    assert(is_loopback_address(IpAddress::V6(segments)) <==> (forall|i: int|
        0 <= i < 7 ==> segments[i] == 0) && segments[7] == 1) by {
        if (forall|i: int| 0 <= i < 7 ==> segments[i] == 0) && segments[7] == 1 {
            assert(segments@ =~= seq![0u16, 0, 0, 0, 0, 0, 0, 1]);
        }
    }
    let stripped = skip_trailing(skip_leading(host, is_char('[')), is_char(']'));
    if let Some(IpAddress::V6(s)) = parsed_ip(stripped) {
        if (forall|i: int| 0 <= i < 7 ==> s[i] == 0) && s[7] == 1 {
            assert(s@ =~= seq![0u16, 0, 0, 0, 0, 0, 0, 1]);
        }
    }
}

/// A root that starts with `h` and ends with `i`, as both default roots do, is left as it is
/// by the trimming of whitespace and trailing slashes.
proof fn lemma_default_root_is_clean(s: Seq<char>)
    requires
        s.len() > 1,
        s[0] == 'h',
        s.last() == 'i',
    ensures
        skip_trailing(trimmed(s), is_char('/')) == s,
{
}

} // verus!
