use fediurl::config::AppConfig;
use fediurl::error::{DbError, FediurlError};
use fediurl::models::Instance;
use fediurl::oauth::{auth, authorize_url, begin_login, redirect_uri, safe_host, token_request};
use fediurl::registry::{credentials_of, registration_request};
use fediurl::registry::finish_create;
use fediurl::models::NewInstance;
use fediurl::store::{InstanceStore, UserStore};

const KEY: u64 = 7;
const NOW: i64 = 1_700_000_000;

fn config_for(host: &str) -> AppConfig {
    AppConfig {
        hosts: vec![host.to_string()],
        sentry_dsn: None,
    }
}

fn seeded_store() -> InstanceStore {
    let mut db = InstanceStore::new();
    finish_create(
        &mut db,
        NewInstance {
            domain: "mastodon.example".to_string(),
            client_id: "cid".to_string(),
            client_secret: "SECRET-REDACTED".to_string(),
        },
        1,
    )
    .unwrap();
    db
}

#[test]
fn safe_host_uses_forwarded_scheme_or_http() {
    let config = config_for("app.example");
    assert_eq!(safe_host("app.example", None, &config), "http://app.example");
    assert_eq!(
        safe_host("app.example", Some("https"), &config),
        "https://app.example"
    );
}

#[test]
fn redirect_uri_embeds_the_domain() {
    let config = config_for("app.example");
    assert_eq!(
        redirect_uri("app.example", Some("https"), &config, "mastodon.example"),
        "https://app.example/auth/mastodon.example"
    );
}

#[test]
fn authorize_url_carries_the_encoded_parameters() {
    let instance = Instance {
        id: fediurl::models::InstanceId(1),
        domain: "mastodon.example".to_string(),
        client_id: "c i&d".to_string(),
        client_secret: "SECRET-REDACTED".to_string(),
        banned_until: None,
        created_at: 0,
        updated_at: 0,
    };
    let got = authorize_url(&instance, "https://app.example/auth/mastodon.example");
    assert_eq!(
        got,
        "https://mastodon.example/oauth/authorize?response_type=code&client_id=c+i%26d&redirect_uri=https%3A%2F%2Fapp.example%2Fauth%2Fmastodon.example&scope=read%3Asearch"
    );
}

#[test]
fn begin_login_for_a_known_instance_redirects_to_authorize() {
    let mut db = seeded_store();
    let config = config_for("app.example");
    let got = begin_login(&mut db, "mastodon.example", "app.example", Some("https"), &config, NOW)
        .unwrap();
    assert_eq!(
        got,
        "https://mastodon.example/oauth/authorize?response_type=code&client_id=cid&redirect_uri=https%3A%2F%2Fapp.example%2Fauth%2Fmastodon.example&scope=read%3Asearch"
    );
}

#[test]
fn registration_request_posts_the_registration_fields() {
    let (url, fields) = registration_request(
        "mastodon.example",
        "https://app.example/auth/mastodon.example",
    );
    assert_eq!(url, "https://mastodon.example/api/v1/apps");
    assert_eq!(
        fields,
        vec![
            ("client_name".to_string(), "Fediurl".to_string()),
            (
                "redirect_uris".to_string(),
                "https://app.example/auth/mastodon.example".to_string()
            ),
            ("scopes".to_string(), "read:search".to_string()),
            ("website".to_string(), "https://fediurl.7bit.org/".to_string()),
        ]
    );
}

#[test]
fn token_request_posts_the_exchange_fields() {
    let (url, fields) = token_request(
        "mastodon.example",
        "authcode",
        "cid",
        "SECRET-REDACTED",
        "https://app.example/auth/mastodon.example",
    );
    assert_eq!(url, "https://mastodon.example/oauth/token");
    assert_eq!(
        fields,
        vec![
            ("grant_type".to_string(), "authorization_code".to_string()),
            ("code".to_string(), "authcode".to_string()),
            ("client_id".to_string(), "cid".to_string()),
            ("client_secret".to_string(), "SECRET-REDACTED".to_string()),
            (
                "redirect_uri".to_string(),
                "https://app.example/auth/mastodon.example".to_string()
            ),
            ("scope".to_string(), "read:search".to_string()),
        ]
    );
}

#[test]
fn both_steps_derive_the_same_redirect_uri() {
    let config = config_for("app.example");
    let begin = redirect_uri("app.example", Some("https"), &config, "mastodon.example");
    let exchange = redirect_uri("app.example", Some("https"), &config, "mastodon.example");
    assert_eq!(begin, exchange);
    let (_, fields) = token_request("mastodon.example", "c", "i", "s", exchange.as_str());
    assert_eq!(fields[4].1, begin);
}

#[test]
fn credentials_require_both_parts() {
    let ok = credentials_of(Some("cid".to_string()), Some("SECRET-REDACTED".to_string()));
    assert_eq!(ok.unwrap(), ("cid".to_string(), "SECRET-REDACTED".to_string()));
    assert!(matches!(
        credentials_of(Some("cid".to_string()), None),
        Err(FediurlError::Registration)
    ));
    assert!(matches!(
        credentials_of(None, Some("SECRET-REDACTED".to_string())),
        Err(FediurlError::Registration)
    ));
    assert!(matches!(
        credentials_of(None, None),
        Err(FediurlError::Registration)
    ));
}

#[test]
fn callback_without_a_code_is_invalid_path() {
    let instances = seeded_store();
    let mut users = UserStore::new();
    let config = config_for("app.example");
    let got = auth(
        &instances,
        &mut users,
        "mastodon.example",
        None,
        "app.example",
        Some("https"),
        &config,
        KEY,
        NOW,
    );
    assert!(matches!(got, Err(FediurlError::InvalidPath)));
}

#[test]
fn callback_with_an_empty_code_is_invalid_path() {
    let instances = seeded_store();
    let mut users = UserStore::new();
    let config = config_for("app.example");
    let got = auth(
        &instances,
        &mut users,
        "mastodon.example",
        Some(""),
        "app.example",
        Some("https"),
        &config,
        KEY,
        NOW,
    );
    assert!(matches!(got, Err(FediurlError::InvalidPath)));
}

#[test]
fn callback_for_an_unknown_instance_is_not_found() {
    let instances = InstanceStore::new();
    let mut users = UserStore::new();
    let config = config_for("app.example");
    let got = auth(
        &instances,
        &mut users,
        "mastodon.example",
        Some("authcode"),
        "app.example",
        Some("https"),
        &config,
        KEY,
        NOW,
    );
    assert!(matches!(
        got,
        Err(FediurlError::Database(DbError::NotFound))
    ));
}
