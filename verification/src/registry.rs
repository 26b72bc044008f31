//! The instance registry: resolves a domain to its persisted instance row,
//! registering an OAuth application with the remote server the first time
//! a domain is seen. A concurrent first login for the same domain is
//! survived by the storage uniqueness constraint: the loser discards its
//! registration and returns the winner's row.

use vstd::prelude::*;
use vstd::string::*;

use crate::error::{DbError, FediurlError};
use crate::models::{Instance, InstanceId, NewInstance};
use crate::remote::{
    http_post_form, is_success, json_field, json_as_string, json_parse, pairs_view,
    parse_error_reply, remote_error,
};
use crate::store::{
    contains_domain, lemma_row_for_unique, row_for, unique_domains, InstanceStore,
};

verus! {

/// The one OAuth scope the application asks for: read-only search.
pub const SCOPES: &'static str = "read:search";

/// The website the application registers with remote instances.
pub const WEBSITE: &'static str = "https://fediurl.7bit.org/";

/// What a successful resolve guarantees of the store before and after:
/// the domain's row exists afterwards and is the result, and a domain that
/// already had a row keeps it, untouched.
pub open spec fn resolve_ok_post(
    pre: Seq<Instance>,
    post: Seq<Instance>,
    d: Seq<char>,
    r: Instance,
) -> bool {
    &&& contains_domain(post, d)
    &&& r == row_for(post, d)
    &&& r.domain@ == d
    &&& contains_domain(pre, d) ==> post == pre && r == row_for(pre, d)
    &&& !contains_domain(pre, d) ==> post == pre.push(r)
}

/// Exactly one row holds this domain.
pub open spec fn exactly_one_row(rows: Seq<Instance>, d: Seq<char>) -> bool {
    &&& contains_domain(rows, d)
    &&& forall|i: int, j: int|
        0 <= i < rows.len() && 0 <= j < rows.len() && (#[trigger] rows[i]).domain@ == d && (
        #[trigger] rows[j]).domain@ == d ==> i == j
}

/// The name and optional credentials of an application-registration reply.
fn parse_app_reply(body: &Vec<u8>) -> (r: Option<(String, Option<String>, Option<String>)>) {
    let v = match json_parse(body) {
        Some(v) => v,
        None => {
            return None;
        },
    };
    let name = match json_field(&v, "name") {
        Some(f) => match json_as_string(f) {
            Some(s) => s,
            None => {
                return None;
            },
        },
        None => {
            return None;
        },
    };
    let client_id = match json_field(&v, "client_id") {
        Some(f) => json_as_string(f),
        None => None,
    };
    let client_secret = match json_field(&v, "client_secret") {
        Some(f) => json_as_string(f),
        None => None,
    };
    Some((name, client_id, client_secret))
}

/// The fields the app-registration endpoint is sent: the application name,
/// the redirect URI the later OAuth steps will repeat, the minimal scope,
/// and the application's website.
pub open spec fn registration_fields(redirect: Seq<char>) -> Seq<(Seq<char>, Seq<char>)> {
    seq![
        ("client_name"@, crate::NAME@),
        ("redirect_uris"@, redirect),
        ("scopes"@, SCOPES@),
        ("website"@, WEBSITE@),
    ]
}

/// Builds the application-registration request: the remote instance's app
/// endpoint and exactly the registration form fields.
pub fn registration_request(domain: &str, redirect: &str) -> (r: (String, Vec<(String, String)>))
    ensures
        r.0@ == "https://"@ + domain@ + "/api/v1/apps"@,
        pairs_view(r.1@) == registration_fields(redirect@),
{
    let url: String = "https://".to_owned().concat(domain).concat("/api/v1/apps");
    let mut fields: Vec<(String, String)> = Vec::new();
    fields.push(("client_name".to_owned(), crate::NAME.to_owned()));
    fields.push(("redirect_uris".to_owned(), redirect.to_owned()));
    fields.push(("scopes".to_owned(), SCOPES.to_owned()));
    fields.push(("website".to_owned(), WEBSITE.to_owned()));
    proof {
        assert(url@ =~= "https://"@ + domain@ + "/api/v1/apps"@);
        assert(pairs_view(fields@) =~= registration_fields(redirect@));
    }
    (url, fields)
}

/// Decides whether an app-registration reply carries both credentials:
/// exactly then they are returned, and a reply missing either is the
/// registration failure.
pub fn credentials_of(client_id: Option<String>, client_secret: Option<String>) -> (r: Result<
    (String, String),
    FediurlError,
>)
    ensures
        client_id matches Some(ci) ==> (client_secret matches Some(cs) ==> (r matches Ok(p)
            && p.0 == ci && p.1 == cs)),
        !(client_id is Some && client_secret is Some) ==> r matches Err(
            FediurlError::Registration,
        ),
{
    match (client_id, client_secret) {
        (Some(ci), Some(cs)) => Ok((ci, cs)),
        _ => Err(FediurlError::Registration),
    }
}

/// Completes a first-time registration: inserts the new row, and when the
/// uniqueness constraint reports that a concurrent caller inserted the
/// domain first, discards the attempt and returns the winner's row.
pub fn finish_create(db: &mut InstanceStore, instance: NewInstance, now: i64) -> (r: Result<
    Instance,
    DbError,
>)
    requires
        old(db).wf(),
        old(db)@.len() + 1 < i64::MAX,
    ensures
        final(db).wf(),
        r matches Ok(i) && i.domain@ == instance.domain@ && contains_domain(
            final(db)@,
            instance.domain@,
        ) && i == row_for(final(db)@, instance.domain@),
        contains_domain(old(db)@, instance.domain@) ==> (r matches Ok(i) && final(db)@ == old(
            db,
        )@ && i == row_for(old(db)@, instance.domain@)),
        !contains_domain(old(db)@, instance.domain@) ==> (r matches Ok(i) && final(db)@ == old(
            db,
        )@.push(i) && i.client_id@ == instance.client_id@ && i.client_secret@
            == instance.client_secret@ && i.created_at == now && i.id == InstanceId(
            (old(db)@.len() + 1) as i64,
        )),
{
    let domain_copy = instance.domain.clone();
    let ghost d = instance.domain@;
    match Instance::create(db, instance, now) {
        Ok(id) => {
            proof {
                assert(db@[id.0 - 1].domain@ == d);
                lemma_row_for_unique(db@, d, id.0 - 1);
            }
            match Instance::from_id(db, id) {
                Ok(i) => Ok(i),
                Err(_) => {
                    proof {
                        assert(false);
                    }
                    Err(DbError::NotFound)
                },
            }
        },
        Err(DbError::UniqueViolation) => Instance::from_domain(db, domain_copy.as_str()),
        Err(e) => {
            proof {
                assert(false);
            }
            Err(e)
        },
    }
}

/// Resolves a domain to its instance row. A known domain is returned
/// unchanged; an unknown one is registered with the remote server first,
/// and no row is created when that fails. However the remote call and the
/// insert turn out, a successful resolve leaves the domain with its one
/// row and returns it.
pub fn resolve(db: &mut InstanceStore, domain: &str, redirect_uri: &str, now: i64) -> (r: Result<
    Instance,
    FediurlError,
>)
    requires
        old(db).wf(),
        old(db)@.len() + 1 < i64::MAX,
    ensures
        final(db).wf(),
        contains_domain(old(db)@, domain@) ==> (r matches Ok(i) && final(db)@ == old(db)@ && i
            == row_for(old(db)@, domain@)),
        r matches Ok(i) ==> resolve_ok_post(old(db)@, final(db)@, domain@, i),
        r is Err ==> final(db)@ == old(db)@ && !contains_domain(old(db)@, domain@),
{
    match Instance::from_domain_optional(db, domain) {
        Ok(Some(i)) => {
            proof {
                assert(i.domain@ == domain@) by {
                    assert(i == row_for(db@, domain@));
                }
            }
            Ok(i)
        },
        Ok(None) => {
            let (url, fields) = registration_request(domain, redirect_uri);
            let reply = match http_post_form(url.as_str(), crate::NAME, &fields) {
                Ok(rep) => rep,
                Err(msg) => {
                    return Err(FediurlError::Http(msg));
                },
            };
            if !is_success(reply.status) {
                return Err(remote_error(reply.status, parse_error_reply(&reply.body)));
            }
            let app = match parse_app_reply(&reply.body) {
                Some(a) => a,
                None => {
                    return Err(
                        FediurlError::Http("unrecognised registration response".to_owned()),
                    );
                },
            };
            let (client_id, client_secret) = match credentials_of(app.1, app.2) {
                Ok(p) => p,
                Err(e) => {
                    return Err(e);
                },
            };
            let new_instance = NewInstance { domain: domain.to_owned(), client_id, client_secret };
            match finish_create(db, new_instance, now) {
                Ok(i) => Ok(i),
                Err(e) => Err(FediurlError::Database(e)),
            }
        },
        Err(e) => {
            proof {
                assert(false);
            }
            Err(FediurlError::Database(e))
        },
    }
}

/// Resolving a domain is idempotent: whenever one successful resolve is
/// followed by another for the same domain, the second returns exactly the
/// first's record — same id — and leaves the store untouched.
pub proof fn lemma_resolve_idempotent(
    s0: Seq<Instance>,
    s1: Seq<Instance>,
    s2: Seq<Instance>,
    d: Seq<char>,
    r1: Instance,
    r2: Instance,
)
    requires
        resolve_ok_post(s0, s1, d, r1),
        resolve_ok_post(s1, s2, d, r2),
    ensures
        s2 == s1,
        r2 == r1,
        r2.id == r1.id,
{
}

/// However many callers race to resolve a fresh domain, each insert goes
/// through the uniqueness constraint, which preserves distinct domains; so
/// after any caller's successful resolve the store holds exactly one row
/// for the domain.
pub proof fn lemma_resolve_one_row(
    pre: Seq<Instance>,
    post: Seq<Instance>,
    d: Seq<char>,
    r: Instance,
)
    requires
        unique_domains(post),
        resolve_ok_post(pre, post, d, r),
    ensures
        exactly_one_row(post, d),
{
    assert forall|i: int, j: int|
        0 <= i < post.len() && 0 <= j < post.len() && (#[trigger] post[i]).domain@ == d && (
        #[trigger] post[j]).domain@ == d implies i == j by {
        if i < j {
            assert(post[i].domain@ != post[j].domain@);
        } else if j < i {
            assert(post[j].domain@ != post[i].domain@);
        }
    }
}

} // verus!
