//! The resolver: rewrites a remote URL to its equivalent on the user's home
//! instance by searching for it there, then applying the tie-break policy —
//! the first status wins, else the first account, else "no match". A remote
//! failure is surfaced verbatim, never folded into "no match".

use vstd::prelude::*;
use vstd::string::*;

use crate::error::{is_error_response_for, message_spec, DbError, ErrorResponse, FediurlError};
use crate::encode::{append_json_string, json_string, url_encoded, urlencode};
use crate::text::{dec_spec, u64_to_string};
use crate::models::Instance;
use crate::remote::{
    http_get, is_success, json_as_array, json_as_string, json_field, json_parse,
    parse_error_reply, remote_error,
};
use crate::session::AuthenticatedUser;
use crate::store::InstanceStore;

verus! {

/// One account in a search reply.
pub struct Account {
    pub id: String,
    pub username: String,
    pub acct: String,
}

/// One status (post) in a search reply.
pub struct Status {
    pub id: String,
    pub account: Account,
}

/// The parts of a search reply the resolver reads.
pub struct SearchResult {
    pub accounts: Vec<Account>,
    pub statuses: Vec<Status>,
}

/// What the body-facing response of the rewrite endpoint redirects to.
pub struct Rewrite {
    pub destination: String,
}

/// The machine-readable response of the JSON rewrite endpoint.
pub enum RewriteResponse {
    Redirect(Rewrite),
    Error(ErrorResponse),
}

/// The outcomes a browser-facing flow can end in.
pub enum RespondOrRedirect {
    /// A rendered page.
    Html(String),
    /// A redirect to the given URL.
    Redirect(String),
    /// A redirect to the given path carrying a flash message.
    FlashRedirect(String, String),
}

/// Destination for a status match: the status under its author's account
/// on the home instance.
pub open spec fn status_destination(domain: Seq<char>, acct: Seq<char>, status_id: Seq<char>)
    -> Seq<char> {
    "https://"@ + domain + "/@"@ + acct + "/"@ + status_id
}

/// Destination for an account match: the account on the home instance.
pub open spec fn account_destination(domain: Seq<char>, acct: Seq<char>) -> Seq<char> {
    "https://"@ + domain + "/@"@ + acct
}

/// Applies the tie-break policy to a search reply: the first status wins;
/// with no statuses, the first account; with neither, "no match".
pub fn rewrite_result(domain: &str, results: &SearchResult) -> (r: Option<String>)
    ensures
        results.statuses@.len() > 0 ==> (r matches Some(u) && u@ == status_destination(
            domain@,
            results.statuses@[0].account.acct@,
            results.statuses@[0].id@,
        )),
        results.statuses@.len() == 0 && results.accounts@.len() > 0 ==> (r matches Some(u) && u@
            == account_destination(domain@, results.accounts@[0].acct@)),
        results.statuses@.len() == 0 && results.accounts@.len() == 0 ==> r is None,
{
    if results.statuses.len() > 0 {
        let status = &results.statuses[0];
        let u = "https://".to_owned().concat(domain).concat("/@").concat(
            status.account.acct.as_str(),
        ).concat("/").concat(status.id.as_str());
        proof {
            assert(u@ =~= status_destination(
                domain@,
                results.statuses@[0].account.acct@,
                results.statuses@[0].id@,
            ));
        }
        Some(u)
    } else if results.accounts.len() > 0 {
        let account = &results.accounts[0];
        let u = "https://".to_owned().concat(domain).concat("/@").concat(account.acct.as_str());
        proof {
            assert(u@ =~= account_destination(domain@, results.accounts@[0].acct@));
        }
        Some(u)
    } else {
        None
    }
}

/// The search endpoint of the home instance, asking it to resolve the
/// remote URL if it does not know it yet.
pub open spec fn search_url_spec(domain: Seq<char>, remote_url: Seq<char>) -> Seq<char> {
    "https://"@ + domain + "/api/v2/search?q="@ + url_encoded(remote_url) + "&resolve=true"@
}

/// Builds the search URL for a remote URL on the given home instance.
pub fn search_url(domain: &str, remote_url: &str) -> (r: String)
    ensures
        r@ == search_url_spec(domain@, remote_url@),
{
    let q = urlencode(remote_url);
    let r = "https://".to_owned().concat(domain).concat("/api/v2/search?q=").concat(
        q.as_str(),
    ).concat("&resolve=true");
    proof {
        assert(r@ =~= search_url_spec(domain@, remote_url@));
    }
    r
}

/// The Authorization header value for a search call: the bearer scheme and
/// the user's access token.
pub fn bearer_value(token: &str) -> (r: String)
    ensures
        r@ == "Bearer "@ + token@,
{
    let r = "Bearer ".to_owned().concat(token);
    proof {
        assert(r@ =~= "Bearer "@ + token@);
    }
    r
}

/// One account of a search reply, when it has the expected fields.
fn parse_account(v: &serde_json::Value) -> (r: Option<Account>) {
    let id = match json_field(v, "id") {
        Some(f) => match json_as_string(f) {
            Some(s) => s,
            None => {
                return None;
            },
        },
        None => {
            return None;
        },
    };
    let username = match json_field(v, "username") {
        Some(f) => match json_as_string(f) {
            Some(s) => s,
            None => {
                return None;
            },
        },
        None => {
            return None;
        },
    };
    let acct = match json_field(v, "acct") {
        Some(f) => match json_as_string(f) {
            Some(s) => s,
            None => {
                return None;
            },
        },
        None => {
            return None;
        },
    };
    Some(Account { id, username, acct })
}

/// One status of a search reply, when it has the expected fields.
fn parse_status(v: &serde_json::Value) -> (r: Option<Status>) {
    let id = match json_field(v, "id") {
        Some(f) => match json_as_string(f) {
            Some(s) => s,
            None => {
                return None;
            },
        },
        None => {
            return None;
        },
    };
    let account = match json_field(v, "account") {
        Some(f) => match parse_account(f) {
            Some(a) => a,
            None => {
                return None;
            },
        },
        None => {
            return None;
        },
    };
    Some(Status { id, account })
}

/// The accounts and statuses of a search reply, when it has the expected
/// shape.
fn parse_search(body: &Vec<u8>) -> (r: Option<SearchResult>) {
    let v = match json_parse(body) {
        Some(v) => v,
        None => {
            return None;
        },
    };
    let accounts_field = match json_field(&v, "accounts") {
        Some(f) => f,
        None => {
            return None;
        },
    };
    let accounts_arr = match json_as_array(accounts_field) {
        Some(a) => a,
        None => {
            return None;
        },
    };
    let mut accounts: Vec<Account> = Vec::new();
    let mut i: usize = 0;
    while i < accounts_arr.len()
        invariant
            0 <= i <= accounts_arr@.len(),
        decreases accounts_arr@.len() - i,
    {
        match parse_account(&accounts_arr[i]) {
            Some(a) => accounts.push(a),
            None => {
                return None;
            },
        }
        i = i + 1;
    }
    let statuses_field = match json_field(&v, "statuses") {
        Some(f) => f,
        None => {
            return None;
        },
    };
    let statuses_arr = match json_as_array(statuses_field) {
        Some(a) => a,
        None => {
            return None;
        },
    };
    let mut statuses: Vec<Status> = Vec::new();
    let mut j: usize = 0;
    while j < statuses_arr.len()
        invariant
            0 <= j <= statuses_arr@.len(),
        decreases statuses_arr@.len() - j,
    {
        match parse_status(&statuses_arr[j]) {
            Some(s) => statuses.push(s),
            None => {
                return None;
            },
        }
        j = j + 1;
    }
    Some(SearchResult { accounts, statuses })
}

/// Searches the user's home instance for the remote URL and applies the
/// tie-break policy. "No match" is `Ok(None)`; a remote failure is an
/// error, with its structured body kept verbatim when it sent one. Any
/// destination returned lies on the user's home instance.
pub fn lookup(db: &InstanceStore, user: &AuthenticatedUser, remote_url: &str) -> (r: Result<
    Option<String>,
    FediurlError,
>)
    ensures
        !(1 <= user.user_spec().instance_id.0 <= db@.len()) ==> r matches Err(
            FediurlError::Database(DbError::NotFound),
        ),
        r matches Err(FediurlError::Database(e)) ==> (e is NotFound && !(1
            <= user.user_spec().instance_id.0 <= db@.len())),
        r matches Ok(Some(u)) ==> ({
            let domain = db@[user.user_spec().instance_id.0 - 1].domain@;
            ||| exists|acct: Seq<char>, sid: Seq<char>|
                u@ == #[trigger] status_destination(domain, acct, sid)
            ||| exists|acct: Seq<char>| u@ == #[trigger] account_destination(domain, acct)
        }),
{
    let u = user.user();
    let instance = match Instance::from_id(db, u.instance_id) {
        Ok(i) => i,
        Err(_) => {
            return Err(FediurlError::Database(DbError::NotFound));
        },
    };
    let url = search_url(instance.domain.as_str(), remote_url);
    let bearer = bearer_value(u.access_token.as_str());
    let reply = match http_get(url.as_str(), crate::NAME, bearer.as_str()) {
        Ok(rep) => rep,
        Err(msg) => {
            return Err(FediurlError::Http(msg));
        },
    };
    if !is_success(reply.status) {
        return Err(remote_error(reply.status, parse_error_reply(&reply.body)));
    }
    let results = match parse_search(&reply.body) {
        Some(s) => s,
        None => {
            return Err(FediurlError::Http("unrecognised search response".to_owned()));
        },
    };
    let out = rewrite_result(instance.domain.as_str(), &results);
    proof {
        if results.statuses@.len() > 0 {
            assert(out matches Some(ou) && ou@ == status_destination(
                instance.domain@,
                results.statuses@[0].account.acct@,
                results.statuses@[0].id@,
            ));
        } else if results.accounts@.len() > 0 {
            assert(out matches Some(ou) && ou@ == account_destination(
                instance.domain@,
                results.accounts@[0].acct@,
            ));
        }
    }
    Ok(out)
}

/// Maps a lookup outcome to the browser-facing response: redirect on a
/// match, "not found" on no match, and a flash-messaged redirect home on
/// an error.
pub fn rewrite_response(outcome: Result<Option<String>, FediurlError>) -> (r: Result<
    RespondOrRedirect,
    FediurlError,
>)
    ensures
        outcome matches Ok(Some(u)) ==> (r matches Ok(RespondOrRedirect::Redirect(d)) && d@ == u@),
        outcome matches Ok(None::<String>) ==> r matches Err(FediurlError::InvalidPath),
        outcome matches Err(e) ==> (r matches Ok(RespondOrRedirect::FlashRedirect(to, m)) && to@
            == "/"@ && m@ == "Error: "@ + message_spec(e)),
{
    match outcome {
        Ok(Some(url)) => Ok(RespondOrRedirect::Redirect(url)),
        Ok(None) => Err(FediurlError::InvalidPath),
        Err(err) => {
            let m = "Error: ".to_owned().concat(err.message().as_str());
            proof {
                assert(m@ =~= "Error: "@ + message_spec(err));
            }
            Ok(RespondOrRedirect::FlashRedirect("/".to_owned(), m))
        },
    }
}

/// Maps a lookup outcome to the JSON response: a redirect body on a match,
/// a "no match" error body on none, and the error's structured body
/// otherwise — always distinguishing the three.
pub fn rewrite_json_response(outcome: Result<Option<String>, FediurlError>) -> (r: RewriteResponse)
    ensures
        outcome matches Ok(Some(u)) ==> (r matches RewriteResponse::Redirect(w) && w.destination@
            == u@),
        outcome matches Ok(None::<String>) ==> (r matches RewriteResponse::Error(e) && e.status
            == 404 && e.error@ == "no_match"@ && e.error_description@ == "No matching URL found"@),
        outcome matches Err(e) ==> (r matches RewriteResponse::Error(er) && is_error_response_for(
            er,
            e,
        )),
{
    match outcome {
        Ok(Some(url)) => RewriteResponse::Redirect(Rewrite { destination: url }),
        Ok(None) => RewriteResponse::Error(
            ErrorResponse {
                status: 404,
                error: "no_match".to_owned(),
                error_description: "No matching URL found".to_owned(),
            },
        ),
        Err(err) => RewriteResponse::Error(err.to_error_response()),
    }
}

/// The serialized form of a JSON rewrite response: tagged with its type,
/// a redirect carrying its destination, an error carrying its status, code
/// and description.
pub open spec fn rewrite_json_body(r: RewriteResponse) -> Seq<char> {
    match r {
        RewriteResponse::Redirect(w) => "{\"type\":\"Redirect\",\"destination\":"@ + json_string(
            w.destination@,
        ) + "}"@,
        RewriteResponse::Error(e) => "{\"type\":\"Error\",\"status\":"@ + dec_spec(e.status as nat)
            + ",\"error\":"@ + json_string(e.error@) + ",\"error_description\":"@ + json_string(
            e.error_description@,
        ) + "}"@,
    }
}

impl RewriteResponse {
    /// Serializes the response as the JSON document the rewrite endpoint
    /// answers with.
    pub fn to_json(&self) -> (r: String)
        ensures
            r@ == rewrite_json_body(*self),
    {
        match self {
            RewriteResponse::Redirect(w) => {
                let mut out: String = "{\"type\":\"Redirect\",\"destination\":".to_owned();
                append_json_string(&mut out, w.destination.as_str());
                out.append("}");
                proof {
                    assert(out@ =~= rewrite_json_body(*self));
                }
                out
            },
            RewriteResponse::Error(e) => {
                let mut out: String = "{\"type\":\"Error\",\"status\":".to_owned();
                let status = u64_to_string(e.status as u64);
                out.append(status.as_str());
                out.append(",\"error\":");
                append_json_string(&mut out, e.error.as_str());
                out.append(",\"error_description\":");
                append_json_string(&mut out, e.error_description.as_str());
                out.append("}");
                proof {
                    assert(out@ =~= rewrite_json_body(*self));
                }
                out
            },
        }
    }
}

/// The browser-facing rewrite: looks the URL up on the user's home
/// instance and answers with the mapped response.
pub fn rewrite(db: &InstanceStore, user: &AuthenticatedUser, remote_url: &str) -> (r: Result<
    RespondOrRedirect,
    FediurlError,
>)
    ensures
        r matches Ok(RespondOrRedirect::Redirect(u)) ==> ({
            let domain = db@[user.user_spec().instance_id.0 - 1].domain@;
            ||| exists|acct: Seq<char>, sid: Seq<char>|
                u@ == #[trigger] status_destination(domain, acct, sid)
            ||| exists|acct: Seq<char>| u@ == #[trigger] account_destination(domain, acct)
        }),
{
    rewrite_response(lookup(db, user, remote_url))
}

/// The JSON rewrite: looks the URL up on the user's home instance and
/// answers with the machine-readable response.
pub fn rewrite_json(db: &InstanceStore, user: &AuthenticatedUser, remote_url: &str) -> (r:
    RewriteResponse)
    ensures
        r matches RewriteResponse::Redirect(w) ==> ({
            let domain = db@[user.user_spec().instance_id.0 - 1].domain@;
            ||| exists|acct: Seq<char>, sid: Seq<char>|
                w.destination@ == #[trigger] status_destination(domain, acct, sid)
            ||| exists|acct: Seq<char>| w.destination@ == #[trigger] account_destination(
                domain,
                acct,
            )
        }),
{
    rewrite_json_response(lookup(db, user, remote_url))
}

} // verus!
