//! Persistent records: instances a user can authenticate against and the
//! users created by successful token exchanges. Timestamps are seconds
//! since the Unix epoch; remote-issued credentials are opaque strings.

use vstd::prelude::*;
use vstd::string::*;

verus! {

/// Identifier of one `Instance` row.
#[derive(Clone, Copy, PartialEq, Eq, Structural, Debug, Hash)]
pub struct InstanceId(pub i64);

/// Identifier of one `User` row.
#[derive(Clone, Copy, PartialEq, Eq, Structural, Debug, Hash)]
pub struct UserId(pub i64);

impl UserId {
    pub fn value(&self) -> (r: i64)
        ensures
            r == self.0,
    {
        self.0
    }
}

impl From<i64> for UserId {
    fn from(id: i64) -> (r: Self)
        ensures
            r == UserId(id),
    {
        UserId(id)
    }
}

impl vstd::std_specs::convert::FromSpecImpl<i64> for UserId {
    open spec fn obeys_from_spec() -> bool {
        true
    }

    open spec fn from_spec(t: i64) -> Self {
        UserId(t)
    }
}

/// One federated server the system can authenticate against. The domain is
/// unique across all rows; the OAuth credentials are immutable after
/// creation.
pub struct Instance {
    pub id: InstanceId,
    pub domain: String,
    pub client_id: String,
    pub client_secret: String,
    pub banned_until: Option<i64>,
    pub created_at: i64,
    pub updated_at: i64,
}

/// The fields of an `Instance` known before the row exists.
pub struct NewInstance {
    pub domain: String,
    pub client_id: String,
    pub client_secret: String,
}

/// One authenticated end user: a home instance and the access token the
/// instance issued. The token is never empty.
pub struct User {
    pub id: UserId,
    pub instance_id: InstanceId,
    pub access_token: String,
    pub banned_until: Option<i64>,
    pub created_at: i64,
    pub updated_at: i64,
}

/// The fields of a `User` known before the row exists.
pub struct NewUser {
    pub instance_id: InstanceId,
    pub access_token: String,
}

impl User {
    /// A stored user always carries a non-empty access token.
    pub open spec fn wf(&self) -> bool {
        self.access_token@.len() > 0
    }
}

impl Clone for Instance {
    fn clone(&self) -> (r: Self)
        ensures
            r == *self,
    {
        Instance {
            id: self.id,
            domain: self.domain.clone(),
            client_id: self.client_id.clone(),
            client_secret: self.client_secret.clone(),
            banned_until: self.banned_until,
            created_at: self.created_at,
            updated_at: self.updated_at,
        }
    }
}

impl Clone for User {
    fn clone(&self) -> (r: Self)
        ensures
            r == *self,
    {
        User {
            id: self.id,
            instance_id: self.instance_id,
            access_token: self.access_token.clone(),
            banned_until: self.banned_until,
            created_at: self.created_at,
            updated_at: self.updated_at,
        }
    }
}

impl Clone for NewInstance {
    fn clone(&self) -> (r: Self)
        ensures
            r == *self,
    {
        NewInstance {
            domain: self.domain.clone(),
            client_id: self.client_id.clone(),
            client_secret: self.client_secret.clone(),
        }
    }
}

impl Instance {
    /// Base URL of the instance.
    pub fn url(&self) -> (r: String)
        ensures
            r@ == "https://"@ + self.domain@,
    {
        let s: String = "https://".to_owned();
        s.concat(self.domain.as_str())
    }
}

} // verus!
