use fediurl::error::DbError;
use fediurl::models::{Instance, InstanceId, NewInstance};
use fediurl::registry::{finish_create, resolve};
use fediurl::store::InstanceStore;

fn new_instance(domain: &str) -> NewInstance {
    NewInstance {
        domain: domain.to_string(),
        client_id: "cid".to_string(),
        client_secret: "SECRET-REDACTED".to_string(),
    }
}

#[test]
fn create_assigns_sequential_ids() {
    let mut db = InstanceStore::new();
    let a = Instance::create(&mut db, new_instance("a.example"), 10).unwrap();
    let b = Instance::create(&mut db, new_instance("b.example"), 11).unwrap();
    assert_eq!(a, InstanceId(1));
    assert_eq!(b, InstanceId(2));
}

#[test]
fn create_refuses_duplicate_domain() {
    let mut db = InstanceStore::new();
    Instance::create(&mut db, new_instance("a.example"), 10).unwrap();
    let second = Instance::create(&mut db, new_instance("a.example"), 11);
    assert!(matches!(second, Err(DbError::UniqueViolation)));
}

#[test]
fn from_domain_finds_the_row() {
    let mut db = InstanceStore::new();
    Instance::create(&mut db, new_instance("a.example"), 10).unwrap();
    let row = Instance::from_domain(&db, "a.example").unwrap();
    assert_eq!(row.domain, "a.example");
    assert_eq!(row.client_id, "cid");
    assert!(matches!(
        Instance::from_domain(&db, "missing.example"),
        Err(DbError::NotFound)
    ));
}

#[test]
fn from_domain_optional_distinguishes_absence() {
    let mut db = InstanceStore::new();
    Instance::create(&mut db, new_instance("a.example"), 10).unwrap();
    assert!(matches!(
        Instance::from_domain_optional(&db, "a.example"),
        Ok(Some(_))
    ));
    assert!(matches!(
        Instance::from_domain_optional(&db, "missing.example"),
        Ok(None)
    ));
}

#[test]
fn from_id_finds_the_row() {
    let mut db = InstanceStore::new();
    let id = Instance::create(&mut db, new_instance("a.example"), 10).unwrap();
    let row = Instance::from_id(&db, id).unwrap();
    assert_eq!(row.id, id);
    assert!(matches!(
        Instance::from_id(&db, InstanceId(99)),
        Err(DbError::NotFound)
    ));
}

#[test]
fn finish_create_inserts_a_fresh_domain() {
    let mut db = InstanceStore::new();
    let row = finish_create(&mut db, new_instance("a.example"), 12).unwrap();
    assert_eq!(row.id, InstanceId(1));
    assert_eq!(row.domain, "a.example");
    assert_eq!(row.created_at, 12);
    assert!(row.banned_until.is_none());
}

#[test]
fn finish_create_returns_the_winner_after_a_lost_race() {
    // A concurrent caller registered the domain first: the second insert
    // hits the uniqueness constraint and the winner's row is returned.
    let mut db = InstanceStore::new();
    let winner = finish_create(&mut db, new_instance("a.example"), 12).unwrap();
    let mut loser = new_instance("a.example");
    loser.client_id = "other-cid".to_string();
    let got = finish_create(&mut db, loser, 99).unwrap();
    assert_eq!(got.id, winner.id);
    assert_eq!(got.client_id, "cid");
    // Exactly one row exists for the domain: ids are still sequential and a
    // third lookup sees the same record.
    let again = Instance::from_domain(&db, "a.example").unwrap();
    assert_eq!(again.id, winner.id);
}

#[test]
fn resolve_is_idempotent_for_a_known_domain() {
    let mut db = InstanceStore::new();
    finish_create(&mut db, new_instance("a.example"), 12).unwrap();
    let first = resolve(&mut db, "a.example", "http://app.example/auth/a.example", 20).unwrap();
    let second = resolve(&mut db, "a.example", "http://app.example/auth/a.example", 21).unwrap();
    assert_eq!(first.id, second.id);
    assert_eq!(first.domain, second.domain);
    assert_eq!(first.client_id, second.client_id);
}
