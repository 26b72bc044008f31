//! In-memory relational rows for instances and users. The instance store
//! enforces the storage layer's uniqueness constraint on domains: an insert
//! for an existing domain is refused, never overwritten. Row identifiers
//! are assigned sequentially from one.

use vstd::prelude::*;

use crate::error::DbError;
use crate::models::{Instance, InstanceId, NewInstance, NewUser, User, UserId};
use crate::text::str_eq;

verus! {

/// Some row holds this domain.
pub open spec fn contains_domain(rows: Seq<Instance>, d: Seq<char>) -> bool {
    exists|i: int| 0 <= i < rows.len() && (#[trigger] rows[i]).domain@ == d
}

/// Index of a row holding this domain (unique when domains are unique).
pub open spec fn domain_index(rows: Seq<Instance>, d: Seq<char>) -> int {
    choose|i: int| 0 <= i < rows.len() && (#[trigger] rows[i]).domain@ == d
}

/// The row holding this domain.
pub open spec fn row_for(rows: Seq<Instance>, d: Seq<char>) -> Instance {
    rows[domain_index(rows, d)]
}

/// No two rows share a domain.
pub open spec fn unique_domains(rows: Seq<Instance>) -> bool {
    forall|i: int, j: int|
        0 <= i < j < rows.len() ==> (#[trigger] rows[i]).domain@ != (#[trigger] rows[j]).domain@
}

/// With unique domains, any row holding the domain is the row the spec
/// functions name.
pub proof fn lemma_row_for_unique(rows: Seq<Instance>, d: Seq<char>, i: int)
    requires
        unique_domains(rows),
        0 <= i < rows.len(),
        rows[i].domain@ == d,
    ensures
        domain_index(rows, d) == i,
        row_for(rows, d) == rows[i],
        contains_domain(rows, d),
{
    assert(contains_domain(rows, d));
    let j = domain_index(rows, d);
    assert(0 <= j < rows.len() && rows[j].domain@ == d);
    if i < j {
        assert(rows[i].domain@ != rows[j].domain@);
    } else if j < i {
        assert(rows[j].domain@ != rows[i].domain@);
    }
}

/// The table of registered instances.
pub struct InstanceStore {
    rows: Vec<Instance>,
}

impl View for InstanceStore {
    type V = Seq<Instance>;

    closed spec fn view(&self) -> Seq<Instance> {
        self.rows@
    }
}

impl InstanceStore {
    /// Row `i` carries id `i + 1`, domains are unique, and the table is
    /// small enough for ids to fit their type.
    pub open spec fn wf(&self) -> bool {
        &&& forall|i: int|
            0 <= i < self@.len() ==> (#[trigger] self@[i]).id == InstanceId((i + 1) as i64)
        &&& unique_domains(self@)
        &&& self@.len() < i64::MAX
    }

    pub fn new() -> (r: InstanceStore)
        ensures
            r@ == Seq::<Instance>::empty(),
            r.wf(),
    {
        InstanceStore { rows: Vec::new() }
    }

    /// Index of the row for this domain, if any.
    fn find_index(&self, domain: &str) -> (r: Option<usize>)
        ensures
            r matches Some(i) ==> i < self@.len() && self@[i as int].domain@ == domain@,
            r is None ==> !contains_domain(self@, domain@),
    {
        let mut i: usize = 0;
        while i < self.rows.len()
            invariant
                0 <= i <= self@.len(),
                forall|j: int| 0 <= j < i ==> (#[trigger] self@[j]).domain@ != domain@,
            decreases self@.len() - i,
        {
            if str_eq(self.rows[i].domain.as_str(), domain) {
                return Some(i);
            }
            i = i + 1;
        }
        None
    }
}

impl Instance {
    /// Inserts a new instance and returns its id; an insert for a domain
    /// that already has a row is refused with a uniqueness violation and
    /// leaves the table unchanged.
    pub fn create(db: &mut InstanceStore, instance: NewInstance, now: i64) -> (r: Result<
        InstanceId,
        DbError,
    >)
        requires
            old(db).wf(),
            old(db)@.len() + 1 < i64::MAX,
        ensures
            final(db).wf(),
            contains_domain(old(db)@, instance.domain@) ==> (r matches Err(
                DbError::UniqueViolation,
            ) && final(db)@ == old(db)@),
            !contains_domain(old(db)@, instance.domain@) ==> (r matches Ok(id) && id == InstanceId(
                (old(db)@.len() + 1) as i64,
            ) && final(db)@ == old(db)@.push(
                Instance {
                    id,
                    domain: instance.domain,
                    client_id: instance.client_id,
                    client_secret: instance.client_secret,
                    banned_until: None,
                    created_at: now,
                    updated_at: now,
                },
            )),
    {
        if let Some(_) = db.find_index(instance.domain.as_str()) {
            assert(contains_domain(db@, instance.domain@));
            return Err(DbError::UniqueViolation);
        }
        let id = InstanceId(db.rows.len() as i64 + 1);
        let row = Instance {
            id,
            domain: instance.domain,
            client_id: instance.client_id,
            client_secret: instance.client_secret,
            banned_until: None,
            created_at: now,
            updated_at: now,
        };
        db.rows.push(row);
        proof {
            assert forall|i: int, j: int| 0 <= i < j < db@.len() implies (#[trigger] db@[i]).domain@
                != (#[trigger] db@[j]).domain@ by {
                if j < db@.len() - 1 {
                    assert(old(db)@[i].domain@ != old(db)@[j].domain@);
                } else {
                    assert(!contains_domain(old(db)@, db@[j].domain@));
                }
            }
        }
        Ok(id)
    }

    /// The row with this id, or "not found".
    pub fn from_id(db: &InstanceStore, id: InstanceId) -> (r: Result<Instance, DbError>)
        ensures
            1 <= id.0 <= db@.len() ==> (r matches Ok(i) && i == db@[id.0 - 1]),
            !(1 <= id.0 <= db@.len()) ==> r matches Err(DbError::NotFound),
    {
        if id.0 >= 1 && (id.0 as u64) <= (db.rows.len() as u64) {
            assert(id.0 - 1 < db@.len() <= usize::MAX);
            let idx = (id.0 - 1) as usize;
            Ok(db.rows[idx].clone())
        } else {
            Err(DbError::NotFound)
        }
    }

    /// The row with this domain, or "not found".
    pub fn from_domain(db: &InstanceStore, domain: &str) -> (r: Result<Instance, DbError>)
        requires
            db.wf(),
        ensures
            contains_domain(db@, domain@) ==> (r matches Ok(i) && i == row_for(db@, domain@)),
            !contains_domain(db@, domain@) ==> r matches Err(DbError::NotFound),
    {
        match db.find_index(domain) {
            Some(i) => {
                proof {
                    lemma_row_for_unique(db@, domain@, i as int);
                }
                Ok(db.rows[i].clone())
            },
            None => Err(DbError::NotFound),
        }
    }

    /// The row with this domain, if any.
    pub fn from_domain_optional(db: &InstanceStore, domain: &str) -> (r: Result<
        Option<Instance>,
        DbError,
    >)
        requires
            db.wf(),
        ensures
            contains_domain(db@, domain@) ==> (r matches Ok(Some(i)) && i == row_for(db@, domain@)),
            !contains_domain(db@, domain@) ==> r matches Ok(None::<Instance>),
    {
        match db.find_index(domain) {
            Some(i) => {
                proof {
                    lemma_row_for_unique(db@, domain@, i as int);
                }
                Ok(Some(db.rows[i].clone()))
            },
            None => Ok(None),
        }
    }
}

/// The table of users.
pub struct UserStore {
    rows: Vec<User>,
}

impl View for UserStore {
    type V = Seq<User>;

    closed spec fn view(&self) -> Seq<User> {
        self.rows@
    }
}

impl UserStore {
    /// Row `i` carries id `i + 1`, every row carries a non-empty access
    /// token, and the table is small enough for ids to fit their type.
    pub open spec fn wf(&self) -> bool {
        &&& forall|i: int|
            0 <= i < self@.len() ==> (#[trigger] self@[i]).id == UserId((i + 1) as i64)
        &&& forall|i: int| 0 <= i < self@.len() ==> (#[trigger] self@[i]).wf()
        &&& self@.len() < i64::MAX
    }

    pub fn new() -> (r: UserStore)
        ensures
            r@ == Seq::<User>::empty(),
            r.wf(),
    {
        UserStore { rows: Vec::new() }
    }
}

/// The foreign-key invariant on the pair of tables: every user's instance
/// reference names an existing instance row.
pub open spec fn users_reference_instances(users: Seq<User>, instances: Seq<Instance>) -> bool {
    forall|i: int|
        0 <= i < users.len() ==> 1 <= (#[trigger] users[i]).instance_id.0 <= instances.len()
}

/// Under the foreign-key invariant, a stored user's home-instance lookup is
/// owed success: its instance reference is a live row id.
pub proof fn lemma_user_instance_exists(users: Seq<User>, instances: Seq<Instance>, i: int)
    requires
        users_reference_instances(users, instances),
        0 <= i < users.len(),
    ensures
        1 <= users[i].instance_id.0 <= instances.len(),
{
}

impl User {
    /// Inserts a new user and returns its id.
    pub fn create(db: &mut UserStore, user: NewUser, now: i64) -> (r: Result<UserId, DbError>)
        requires
            old(db).wf(),
            old(db)@.len() + 1 < i64::MAX,
            user.access_token@.len() > 0,
        ensures
            final(db).wf(),
            r matches Ok(id) && id == UserId((old(db)@.len() + 1) as i64) && final(db)@ == old(
                db,
            )@.push(
                User {
                    id,
                    instance_id: user.instance_id,
                    access_token: user.access_token,
                    banned_until: None,
                    created_at: now,
                    updated_at: now,
                },
            ),
    {
        let id = UserId(db.rows.len() as i64 + 1);
        let row = User {
            id,
            instance_id: user.instance_id,
            access_token: user.access_token,
            banned_until: None,
            created_at: now,
            updated_at: now,
        };
        db.rows.push(row);
        Ok(id)
    }

    /// The row with this id, or "not found".
    pub fn from_id(db: &UserStore, user_id: UserId) -> (r: Result<User, DbError>)
        ensures
            1 <= user_id.0 <= db@.len() ==> (r matches Ok(u) && u == db@[user_id.0 - 1]),
            !(1 <= user_id.0 <= db@.len()) ==> r matches Err(DbError::NotFound),
    {
        if user_id.0 >= 1 && (user_id.0 as u64) <= (db.rows.len() as u64) {
            assert(user_id.0 - 1 < db@.len() <= usize::MAX);
            let idx = (user_id.0 - 1) as usize;
            Ok(db.rows[idx].clone())
        } else {
            Err(DbError::NotFound)
        }
    }

    /// The home instance of this user.
    pub fn instance(&self, db: &InstanceStore) -> (r: Result<Instance, DbError>)
        ensures
            1 <= self.instance_id.0 <= db@.len() ==> (r matches Ok(i) && i == db@[self.instance_id.0
                - 1]),
            !(1 <= self.instance_id.0 <= db@.len()) ==> r matches Err(DbError::NotFound),
    {
        Instance::from_id(db, self.instance_id)
    }
}

} // verus!
