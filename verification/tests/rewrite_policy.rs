use fediurl::error::{DbError, ErrorResponse, FediurlError};
use fediurl::models::{InstanceId, NewUser, User, UserId};
use fediurl::remote::remote_error;
use fediurl::rewrite::{
    bearer_value, lookup, rewrite_json_response, rewrite_response, rewrite_result, search_url,
    Account, RespondOrRedirect, Rewrite, RewriteResponse, SearchResult, Status,
};
use fediurl::session::AuthenticatedUser;
use fediurl::store::{InstanceStore, UserStore};

fn account(acct: &str) -> Account {
    Account {
        id: "90210".to_string(),
        username: acct.to_string(),
        acct: acct.to_string(),
    }
}

#[test]
fn first_status_wins_over_accounts() {
    let results = SearchResult {
        accounts: vec![account("ignored")],
        statuses: vec![
            Status { id: "111".to_string(), account: account("wezm") },
            Status { id: "222".to_string(), account: account("other") },
        ],
    };
    let got = rewrite_result("home.example", &results);
    assert_eq!(got.unwrap(), "https://home.example/@wezm/111");
}

#[test]
fn single_account_yields_account_destination() {
    let results = SearchResult {
        accounts: vec![account("alice")],
        statuses: vec![],
    };
    let got = rewrite_result("home.example", &results);
    assert_eq!(got.unwrap(), "https://home.example/@alice");
}

#[test]
fn empty_results_yield_no_match() {
    let results = SearchResult { accounts: vec![], statuses: vec![] };
    let got = rewrite_result("home.example", &results);
    assert!(got.is_none());
}

#[test]
fn remote_error_keeps_status_and_description() {
    let err = remote_error(
        401,
        Some(("invalid_token".to_string(), "token revoked".to_string())),
    );
    match err {
        FediurlError::ErrorResponse(er) => {
            assert_eq!(er.status, 401);
            assert_eq!(er.error, "invalid_token");
            assert_eq!(er.error_description, "token revoked");
        }
        other => panic!("expected a structured remote error, got {:?}", other.http_status()),
    }
}

#[test]
fn remote_error_without_a_body_is_a_transport_error() {
    let err = remote_error(500, None);
    assert!(matches!(err, FediurlError::Http(_)));
}

#[test]
fn remote_failure_is_distinct_from_no_match() {
    let failure = remote_error(
        401,
        Some(("invalid_token".to_string(), "token revoked".to_string())),
    );
    let as_json = rewrite_json_response(Err(failure));
    match as_json {
        RewriteResponse::Error(er) => {
            assert_eq!(er.status, 401);
            assert_eq!(er.error, "invalid_token");
        }
        RewriteResponse::Redirect(_) => panic!("a remote failure must not redirect"),
    }
    let no_match = rewrite_json_response(Ok(None));
    match no_match {
        RewriteResponse::Error(er) => {
            assert_eq!(er.status, 404);
            assert_eq!(er.error, "no_match");
            assert_eq!(er.error_description, "No matching URL found");
        }
        RewriteResponse::Redirect(_) => panic!("no match must not redirect"),
    }
}

#[test]
fn json_response_redirects_on_a_match() {
    let got = rewrite_json_response(Ok(Some("https://home.example/@alice".to_string())));
    match got {
        RewriteResponse::Redirect(Rewrite { destination }) => {
            assert_eq!(destination, "https://home.example/@alice");
        }
        RewriteResponse::Error(_) => panic!("a match must redirect"),
    }
}

#[test]
fn json_response_maps_each_error_kind() {
    let db = rewrite_json_response(Err(FediurlError::Database(DbError::NotFound)));
    match db {
        RewriteResponse::Error(er) => {
            assert_eq!(er.status, 500);
            assert_eq!(er.error, "database");
            assert_eq!(er.error_description, "not found");
        }
        _ => panic!("expected an error body"),
    }
    let url = rewrite_json_response(Err(FediurlError::Url("bad".to_string())));
    match url {
        RewriteResponse::Error(er) => {
            assert_eq!(er.status, 400);
            assert_eq!(er.error, "invalid_url");
            assert_eq!(er.error_description, "bad");
        }
        _ => panic!("expected an error body"),
    }
    let path = rewrite_json_response(Err(FediurlError::InvalidPath));
    match path {
        RewriteResponse::Error(er) => {
            assert_eq!(er.status, 404);
            assert_eq!(er.error, "invalid_path");
        }
        _ => panic!("expected an error body"),
    }
    let registration = rewrite_json_response(Err(FediurlError::Registration));
    match registration {
        RewriteResponse::Error(er) => {
            assert_eq!(er.status, 500);
            assert_eq!(er.error, "registration");
            assert_eq!(er.error_description, "registration response was missing credentials");
        }
        _ => panic!("expected an error body"),
    }
    let passthrough = rewrite_json_response(Err(FediurlError::ErrorResponse(ErrorResponse {
        status: 403,
        error: "forbidden".to_string(),
        error_description: "no".to_string(),
    })));
    match passthrough {
        RewriteResponse::Error(er) => {
            assert_eq!(er.status, 403);
            assert_eq!(er.error, "forbidden");
        }
        _ => panic!("expected an error body"),
    }
}

#[test]
fn browser_response_redirects_or_flashes() {
    let hit = rewrite_response(Ok(Some("https://home.example/@alice".to_string())));
    assert!(matches!(hit, Ok(RespondOrRedirect::Redirect(u)) if u == "https://home.example/@alice"));
    let miss = rewrite_response(Ok(None));
    assert!(matches!(miss, Err(FediurlError::InvalidPath)));
    let err = rewrite_response(Err(FediurlError::Http("boom".to_string())));
    match err {
        Ok(RespondOrRedirect::FlashRedirect(to, message)) => {
            assert_eq!(to, "/");
            assert_eq!(message, "Error: boom");
        }
        _ => panic!("an error must flash and redirect home"),
    }
}

#[test]
fn json_bodies_serialize_with_escaping() {
    let redirect = RewriteResponse::Redirect(Rewrite {
        destination: "https://home.example/@alice".to_string(),
    });
    assert_eq!(
        redirect.to_json(),
        "{\"type\":\"Redirect\",\"destination\":\"https://home.example/@alice\"}"
    );
    let error = RewriteResponse::Error(ErrorResponse {
        status: 401,
        error: "invalid_token".to_string(),
        error_description: "say \"no\"\nplease\u{1}".to_string(),
    });
    assert_eq!(
        error.to_json(),
        "{\"type\":\"Error\",\"status\":401,\"error\":\"invalid_token\",\"error_description\":\"say \\\"no\\\"\\nplease\\u0001\"}"
    );
}

#[test]
fn search_url_encodes_the_query() {
    let got = search_url("home.example", "https://remote.example/@wezm/110375901972328927");
    assert_eq!(
        got,
        "https://home.example/api/v2/search?q=https%3A%2F%2Fremote.example%2F%40wezm%2F110375901972328927&resolve=true"
    );
}

#[test]
fn bearer_header_prefixes_the_token() {
    assert_eq!(bearer_value("tok-123"), "Bearer tok-123");
}

#[test]
fn lookup_without_the_instance_row_is_not_found() {
    let instances = InstanceStore::new();
    let mut users = UserStore::new();
    let uid = User::create(
        &mut users,
        NewUser { instance_id: InstanceId(7), access_token: "tok".to_string() },
        5,
    )
    .unwrap();
    let user = User::from_id(&users, uid).unwrap();
    let au = AuthenticatedUser::from_user(user);
    let got = lookup(&instances, &au, "https://remote.example/@wezm");
    assert!(matches!(got, Err(FediurlError::Database(DbError::NotFound))));
}
