//! The OAuth flow: building the authorization redirect for a login attempt
//! and exchanging the callback's code for a token, a user row and a
//! session. The redirect URI is derived deterministically from the request
//! host, the forwarded scheme and the instance domain, so that the
//! authorize step and the token exchange present the identical value.

use vstd::prelude::*;
use vstd::string::*;

use crate::config::AppConfig;
use crate::encode::{url_encoded, urlencode};
use crate::error::{DbError, FediurlError};
use crate::models::{Instance, InstanceId, NewUser, User, UserId};
use crate::registry::{resolve, resolve_ok_post, SCOPES};
use crate::remote::{
    http_post_form, is_success, json_as_string, json_field, json_parse, pairs_view,
    parse_error_reply, remote_error,
};
use crate::store::{
    contains_domain, row_for, users_reference_instances, InstanceStore, UserStore,
};
use crate::token::{issue, tag_spec, token_chars, SESSION_LIFETIME_SECONDS};

verus! {

/// Name of the cookie that carries the session token.
pub const FEDIURL_SESSION: &'static str = "FEDIURL_SESSION";

/// The scheme a request reached us under: the forwarded protocol when a
/// proxy reports one, plain http otherwise.
pub open spec fn scheme_spec(proto: Option<&str>) -> Seq<char> {
    match proto {
        Some(p) => p@,
        None => "http"@,
    }
}

/// Absolute prefix of the host this request reached.
pub open spec fn safe_host_spec(host: Seq<char>, proto: Option<&str>) -> Seq<char> {
    scheme_spec(proto) + "://"@ + host
}

/// Absolute prefix of the host this request reached. The host must be one
/// the configuration names.
pub fn safe_host(host: &str, proto: Option<&str>, config: &AppConfig) -> (r: String)
    requires
        config.allows_host_spec(host@),
    ensures
        r@ == safe_host_spec(host@, proto),
{
    let scheme: String = match proto {
        Some(p) => p.to_owned(),
        None => "http".to_owned(),
    };
    let r = scheme.concat("://").concat(host);
    proof {
        assert(r@ =~= safe_host_spec(host@, proto));
    }
    r
}

/// The redirect URI both OAuth steps present: the callback route for the
/// domain, under the host and scheme of the inbound request.
pub open spec fn redirect_uri_spec(host: Seq<char>, proto: Option<&str>, domain: Seq<char>)
    -> Seq<char> {
    safe_host_spec(host, proto) + "/auth/"@ + domain
}

/// Derives the redirect URI for a domain from the inbound request alone.
pub fn redirect_uri(host: &str, proto: Option<&str>, config: &AppConfig, domain: &str) -> (r:
    String)
    requires
        config.allows_host_spec(host@),
    ensures
        r@ == redirect_uri_spec(host@, proto, domain@),
{
    let prefix = safe_host(host, proto, config);
    let r = prefix.concat("/auth/").concat(domain);
    proof {
        assert(r@ =~= redirect_uri_spec(host@, proto, domain@));
    }
    r
}

/// The authorization URL a login attempt is redirected to: the instance's
/// authorize endpoint carrying the response type, the instance's client id,
/// the redirect URI and the requested scope, each value form-encoded.
pub open spec fn authorize_url_spec(
    domain: Seq<char>,
    client_id: Seq<char>,
    redirect: Seq<char>,
) -> Seq<char> {
    "https://"@ + domain + "/oauth/authorize?response_type=code&client_id="@ + url_encoded(
        client_id,
    ) + "&redirect_uri="@ + url_encoded(redirect) + "&scope="@ + url_encoded(SCOPES@)
}

/// Builds the authorization URL for an instance and a redirect URI.
pub fn authorize_url(instance: &Instance, redirect: &str) -> (r: String)
    ensures
        r@ == authorize_url_spec(instance.domain@, instance.client_id@, redirect@),
{
    let ci = urlencode(instance.client_id.as_str());
    let ru = urlencode(redirect);
    let sc = urlencode(SCOPES);
    let r = "https://".to_owned().concat(instance.domain.as_str()).concat(
        "/oauth/authorize?response_type=code&client_id=",
    ).concat(ci.as_str()).concat("&redirect_uri=").concat(ru.as_str()).concat("&scope=").concat(
        sc.as_str(),
    );
    proof {
        assert(r@ =~= authorize_url_spec(instance.domain@, instance.client_id@, redirect@));
    }
    r
}

/// Begins a login: resolves the instance (registering it when first seen)
/// and returns the authorization URL to redirect the browser to. On
/// failure no record is created and the store is unchanged.
pub fn begin_login(
    db: &mut InstanceStore,
    domain: &str,
    host: &str,
    proto: Option<&str>,
    config: &AppConfig,
    now: i64,
) -> (r: Result<String, FediurlError>)
    requires
        old(db).wf(),
        old(db)@.len() + 1 < i64::MAX,
        config.allows_host_spec(host@),
    ensures
        final(db).wf(),
        contains_domain(old(db)@, domain@) ==> (r matches Ok(u) && final(db)@ == old(db)@ && u@
            == authorize_url_spec(
            domain@,
            row_for(old(db)@, domain@).client_id@,
            redirect_uri_spec(host@, proto, domain@),
        )),
        r matches Ok(u) ==> exists|i: Instance|
            #[trigger] resolve_ok_post(old(db)@, final(db)@, domain@, i) && u@
                == authorize_url_spec(
                domain@,
                i.client_id@,
                redirect_uri_spec(host@, proto, domain@),
            ),
        r is Err ==> final(db)@ == old(db)@ && !contains_domain(old(db)@, domain@),
{
    let redirect = redirect_uri(host, proto, config, domain);
    let instance = match resolve(db, domain, redirect.as_str(), now) {
        Ok(i) => i,
        Err(e) => {
            return Err(e);
        },
    };
    Ok(authorize_url(&instance, redirect.as_str()))
}

/// The access token of a token-exchange reply.
fn parse_token_reply(body: &Vec<u8>) -> (r: Option<String>) {
    let v = match json_parse(body) {
        Some(v) => v,
        None => {
            return None;
        },
    };
    match json_field(&v, "access_token") {
        Some(f) => json_as_string(f),
        None => None,
    }
}

/// The fields the token endpoint is sent: the grant type, the callback's
/// code, the instance's credentials, the redirect URI — byte-identical to
/// the authorize step's, both being derived by `redirect_uri` — and the
/// scope.
pub open spec fn token_fields(
    code: Seq<char>,
    client_id: Seq<char>,
    client_secret: Seq<char>,
    redirect: Seq<char>,
) -> Seq<(Seq<char>, Seq<char>)> {
    seq![
        ("grant_type"@, "authorization_code"@),
        ("code"@, code),
        ("client_id"@, client_id),
        ("client_secret"@, client_secret),
        ("redirect_uri"@, redirect),
        ("scope"@, SCOPES@),
    ]
}

/// Builds the token-exchange request: the remote instance's token endpoint
/// and exactly the exchange form fields.
pub fn token_request(
    domain: &str,
    code: &str,
    client_id: &str,
    client_secret: &str,
    redirect: &str,
) -> (r: (String, Vec<(String, String)>))
    ensures
        r.0@ == "https://"@ + domain@ + "/oauth/token"@,
        pairs_view(r.1@) == token_fields(code@, client_id@, client_secret@, redirect@),
{
    let url: String = "https://".to_owned().concat(domain).concat("/oauth/token");
    let mut fields: Vec<(String, String)> = Vec::new();
    fields.push(("grant_type".to_owned(), "authorization_code".to_owned()));
    fields.push(("code".to_owned(), code.to_owned()));
    fields.push(("client_id".to_owned(), client_id.to_owned()));
    fields.push(("client_secret".to_owned(), client_secret.to_owned()));
    fields.push(("redirect_uri".to_owned(), redirect.to_owned()));
    fields.push(("scope".to_owned(), SCOPES.to_owned()));
    proof {
        assert(url@ =~= "https://"@ + domain@ + "/oauth/token"@);
        assert(pairs_view(fields@) =~= token_fields(code@, client_id@, client_secret@, redirect@));
    }
    (url, fields)
}

/// The callback arrived without a usable code.
pub open spec fn missing_code(code: Option<&str>) -> bool {
    match code {
        None => true,
        Some(c) => c@.len() == 0,
    }
}

/// Handles the OAuth callback: requires a code, an already-registered
/// instance, and a successful token exchange; then creates the user row
/// and issues its session token. An absent or empty code fails before any
/// outbound call; every failure leaves the user table unchanged.
pub fn auth(
    instances: &InstanceStore,
    users: &mut UserStore,
    domain: &str,
    code: Option<&str>,
    host: &str,
    proto: Option<&str>,
    config: &AppConfig,
    key: u64,
    now: i64,
) -> (r: Result<(UserId, String), FediurlError>)
    requires
        instances.wf(),
        old(users).wf(),
        users_reference_instances(old(users)@, instances@),
        old(users)@.len() + 1 < i64::MAX,
        config.allows_host_spec(host@),
        0 <= now,
        now + SESSION_LIFETIME_SECONDS <= i64::MAX,
    ensures
        final(users).wf(),
        users_reference_instances(final(users)@, instances@),
        missing_code(code) ==> (r matches Err(FediurlError::InvalidPath) && final(users)@ == old(
            users,
        )@),
        r matches Err(FediurlError::InvalidPath) ==> missing_code(code),
        !missing_code(code) && !contains_domain(instances@, domain@) ==> (r matches Err(
            FediurlError::Database(DbError::NotFound),
        ) && final(users)@ == old(users)@),
        r matches Err(FediurlError::Database(e)) ==> (e is NotFound && !missing_code(code)
            && !contains_domain(instances@, domain@)),
        r is Err ==> final(users)@ == old(users)@,
        r matches Ok((uid, tok)) ==> ({
            let inst = row_for(instances@, domain@);
            let exp = (now + SESSION_LIFETIME_SECONDS) as u64;
            &&& contains_domain(instances@, domain@)
            &&& uid == UserId((old(users)@.len() + 1) as i64)
            &&& final(users)@.len() == old(users)@.len() + 1
            &&& final(users)@.last().id == uid
            &&& final(users)@.last().instance_id == inst.id
            &&& final(users)@.last().access_token@.len() > 0
            &&& final(users)@.take(old(users)@.len() as int) == old(users)@
            &&& tok@ == token_chars(uid.0 as u64, exp, tag_spec(key, uid.0 as u64, exp))
        }),
{
    let c = match code {
        Some(c) => c,
        None => {
            return Err(FediurlError::InvalidPath);
        },
    };
    if c.unicode_len() == 0 {
        return Err(FediurlError::InvalidPath);
    }
    let instance = match Instance::from_domain(instances, domain) {
        Ok(i) => i,
        Err(_) => {
            return Err(FediurlError::Database(DbError::NotFound));
        },
    };
    let redirect = redirect_uri(host, proto, config, domain);
    let (url, fields) = token_request(
        domain,
        c,
        instance.client_id.as_str(),
        instance.client_secret.as_str(),
        redirect.as_str(),
    );
    let reply = match http_post_form(url.as_str(), crate::NAME, &fields) {
        Ok(rep) => rep,
        Err(msg) => {
            return Err(FediurlError::Http(msg));
        },
    };
    if !is_success(reply.status) {
        return Err(remote_error(reply.status, parse_error_reply(&reply.body)));
    }
    let token = match parse_token_reply(&reply.body) {
        Some(t) => t,
        None => {
            return Err(FediurlError::Http("unrecognised token response".to_owned()));
        },
    };
    if token.as_str().unicode_len() == 0 {
        return Err(FediurlError::Http("remote instance issued an empty access token".to_owned()));
    }
    let new_user = NewUser { instance_id: instance.id, access_token: token };
    let user_id = match User::create(users, new_user, now) {
        Ok(id) => id,
        Err(e) => {
            proof {
                assert(false);
            }
            return Err(FediurlError::Database(e));
        },
    };
    let session = issue(user_id, key, now);
    proof {
        assert(users@.take(old(users)@.len() as int) =~= old(users)@);
        let idx = crate::store::domain_index(instances@, domain@);
        assert(0 <= idx < instances@.len() && instances@[idx].domain@ == domain@);
        assert(instance.id == InstanceId((idx + 1) as i64));
        assert(users_reference_instances(users@, instances@)) by {
            assert(forall|i: int|
                0 <= i < old(users)@.len() ==> users@[i] == #[trigger] old(users)@[i]);
        }
    }
    Ok((user_id, session))
}

} // verus!
