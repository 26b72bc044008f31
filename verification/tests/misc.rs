use fediurl::config::AppConfig;
use fediurl::error::{DbError, ErrorResponse, FediurlError};
use fediurl::layout::{Title, TitleVisibility};
use fediurl::models::{Instance, InstanceId, NewUser, User, UserId};
use fediurl::oauth::FEDIURL_SESSION;
use fediurl::rewrite::RespondOrRedirect;
use fediurl::session::{authenticate, delete, AuthenticatedUser, AuthenticatedUserError};
use fediurl::store::UserStore;
use fediurl::token::issue;
use fediurl::web::{payload_too_large, response_time_header, XForwardedProto};

#[test]
fn http_status_maps_not_found_and_internal() {
    assert_eq!(FediurlError::InvalidPath.http_status(), 404);
    assert_eq!(FediurlError::Database(DbError::NotFound).http_status(), 404);
    assert_eq!(FediurlError::Database(DbError::Other("x".to_string())).http_status(), 500);
    assert_eq!(FediurlError::Http("x".to_string()).http_status(), 500);
    assert_eq!(FediurlError::Registration.http_status(), 500);
}

#[test]
fn messages_describe_each_error() {
    assert_eq!(FediurlError::InvalidPath.message(), "invalid path");
    assert_eq!(FediurlError::Http("timed out".to_string()).message(), "timed out");
    assert_eq!(
        FediurlError::ErrorResponse(ErrorResponse {
            status: 401,
            error: "invalid_token".to_string(),
            error_description: "token revoked".to_string(),
        })
        .message(),
        "token revoked"
    );
}

#[test]
fn default_config_is_empty() {
    let config = AppConfig::default();
    assert!(config.hosts.is_empty());
    assert!(config.sentry_dsn.is_none());
}

#[test]
fn allows_host_checks_the_whitelist() {
    let config = AppConfig {
        hosts: vec!["app.example".to_string(), "alt.example".to_string()],
        sentry_dsn: None,
    };
    assert!(config.allows_host("app.example"));
    assert!(config.allows_host("alt.example"));
    assert!(!config.allows_host("evil.example"));
}

#[test]
fn titles_carry_text_and_visibility() {
    let t = Title::head_and_body("Log in".to_string());
    assert_eq!(t.title(), "Log in");
    assert!(matches!(t.visibility(), TitleVisibility::HeadAndBody));
    let h = Title::head("Home".to_string());
    assert_eq!(h.title(), "Home");
    assert!(matches!(h.visibility(), TitleVisibility::Head));
}

#[test]
fn payload_too_large_builds_json_only_when_preferred() {
    let json = payload_too_large(true, "{\"form\":\"32KiB\"}").unwrap();
    assert_eq!(
        json,
        "{\"error\":{\"code\":413,\"reason\":\"Payload Too Large\",\"description\":\"The request payload exceeded allowed limits.\",\"limits\":{\"form\":\"32KiB\"}}}"
    );
    assert!(payload_too_large(false, "{}").is_none());
}

#[test]
fn response_time_switches_units_at_one_millisecond() {
    assert_eq!(response_time_header(0), "0 us");
    assert_eq!(response_time_header(999), "999 us");
    assert_eq!(response_time_header(1000), "1 ms");
    assert_eq!(response_time_header(2500), "2 ms");
}

#[test]
fn forwarded_proto_exposes_the_scheme() {
    let proto = XForwardedProto("https");
    assert_eq!(proto.as_str(), "https");
}

#[test]
fn user_ids_convert_and_expose_their_value() {
    let id = UserId::from(9);
    assert_eq!(id.value(), 9);
    assert_eq!(id, UserId(9));
}

#[test]
fn instance_url_prefixes_the_scheme() {
    let instance = Instance {
        id: InstanceId(1),
        domain: "mastodon.example".to_string(),
        client_id: "cid".to_string(),
        client_secret: "SECRET-REDACTED".to_string(),
        banned_until: None,
        created_at: 0,
        updated_at: 0,
    };
    assert_eq!(instance.url(), "https://mastodon.example");
    let copy = instance.clone();
    assert_eq!(copy.domain, instance.domain);
    assert_eq!(copy.id, instance.id);
}

const KEY: u64 = 99;
const NOW: i64 = 1_700_000_000;

fn store_with_user() -> (UserStore, UserId) {
    let mut users = UserStore::new();
    let uid = User::create(
        &mut users,
        NewUser { instance_id: InstanceId(1), access_token: "tok".to_string() },
        NOW,
    )
    .unwrap();
    (users, uid)
}

#[test]
fn authenticate_accepts_a_fresh_token_for_an_existing_user() {
    let (users, uid) = store_with_user();
    let token = issue(uid, KEY, NOW);
    let au = authenticate(&users, token.as_str(), KEY, NOW).unwrap();
    assert_eq!(au.id(), uid.value());
    assert_eq!(au.user().access_token, "tok");
    let user = au.into_inner();
    assert_eq!(user.id, uid);
}

#[test]
fn authenticate_rejects_an_invalid_token() {
    let (users, _) = store_with_user();
    let got = authenticate(&users, "not-a-token", KEY, NOW);
    assert!(matches!(got, Err(AuthenticatedUserError::GuardFailure)));
}

#[test]
fn authenticate_rejects_a_token_for_a_missing_user() {
    let users = UserStore::new();
    let token = issue(UserId(5), KEY, NOW);
    let got = authenticate(&users, token.as_str(), KEY, NOW);
    assert!(matches!(
        got,
        Err(AuthenticatedUserError::Database(DbError::NotFound))
    ));
}

#[test]
fn authenticated_user_wraps_a_row() {
    let (users, uid) = store_with_user();
    let user = User::from_id(&users, uid).unwrap();
    let au = AuthenticatedUser::from_user(user);
    assert_eq!(au.id(), 1);
}

#[test]
fn logout_removes_the_session_cookie_and_flashes() {
    let (cookie, response) = delete();
    assert_eq!(cookie, FEDIURL_SESSION);
    match response {
        RespondOrRedirect::FlashRedirect(to, message) => {
            assert_eq!(to, "/");
            assert_eq!(message, "You have been logged out");
        }
        _ => panic!("logout must redirect with a flash message"),
    }
}

#[test]
fn base_dirs_place_config_files() {
    let dirs = fediurl::dirs::new().unwrap();
    match dirs.place_config_file("config.toml") {
        Ok(path) => assert!(path.ends_with("/open-in-mastodon/config.toml")),
        Err(message) => assert_eq!(message, "unable to determine user config dir"),
    }
}
