//! Pure pieces of the web layer: the forwarded-protocol header value, the
//! body of the "payload too large" catcher, and the response-time header.

use vstd::prelude::*;
use vstd::string::*;

use crate::text::{dec_spec, u64_to_string};

verus! {

/// The scheme a reverse proxy reports the inbound request used.
pub struct XForwardedProto<'r>(pub &'r str);

impl<'r> XForwardedProto<'r> {
    /// The reported scheme.
    pub fn as_str(&self) -> (r: &'r str)
        ensures
            r@ == self.0@,
    {
        self.0
    }
}

/// The JSON body reported when a request's payload exceeds the limits,
/// with the serialized limits embedded.
pub open spec fn payload_too_large_body(limits: Seq<char>) -> Seq<char> {
    "{\"error\":{\"code\":413,\"reason\":\"Payload Too Large\",\"description\":\"The request payload exceeded allowed limits.\",\"limits\":"@
        + limits + "}}"@
}

/// The body of the "payload too large" catcher: the structured JSON body
/// when the client prefers JSON, nothing otherwise (the caller then serves
/// its static page).
pub fn payload_too_large(prefers_json: bool, limits_json: &str) -> (r: Option<String>)
    ensures
        prefers_json ==> (r matches Some(b) && b@ == payload_too_large_body(limits_json@)),
        !prefers_json ==> r is None,
{
    if prefers_json {
        let b =
            "{\"error\":{\"code\":413,\"reason\":\"Payload Too Large\",\"description\":\"The request payload exceeded allowed limits.\",\"limits\":".to_owned().concat(
            limits_json,
        ).concat("}}");
        proof {
            assert(b@ =~= payload_too_large_body(limits_json@));
        }
        Some(b)
    } else {
        None
    }
}

/// The response-time header value: whole microseconds under a millisecond,
/// whole milliseconds from there on.
pub fn response_time_header(us: u64) -> (r: String)
    ensures
        us < 1000 ==> r@ == dec_spec(us as nat) + " us"@,
        us >= 1000 ==> r@ == dec_spec((us / 1000) as nat) + " ms"@,
{
    if us < 1000 {
        u64_to_string(us).concat(" us")
    } else {
        u64_to_string(us / 1000).concat(" ms")
    }
}

} // verus!
