use users_service::record::Record;
use users_service::store::{Store, StoreError};

fn s(x: &str) -> String {
    x.to_string()
}

#[test]
fn create_then_get_gives_same_record() {
    let mut store = Store::new();
    let rec = store.create(s("a@x.com"), s("A")).unwrap();
    let got = store.get_by_id(&rec.id).unwrap();
    assert_eq!(got, rec);
}

#[test]
fn create_user_example() {
    let mut store = Store::new();
    let rec = store.create(s("a@x.com"), s("A")).unwrap();
    assert!(!rec.id.is_empty());
    let got = store.get_by_id(&rec.id).unwrap();
    assert_eq!(got.email, "a@x.com");
    assert_eq!(got.name, "A");
}

#[test]
fn list_counts_successful_creates() {
    let mut store = Store::new();
    assert_eq!(store.list().len(), 0);
    for k in 0..5 {
        store.create(format!("u{}@x.com", k), format!("U{}", k)).unwrap();
        assert_eq!(store.list().len(), k + 1);
        assert_eq!(store.len(), k + 1);
    }
}

#[test]
fn many_creates_give_distinct_ids() {
    let mut store = Store::new();
    let n = 50;
    for k in 0..n {
        store.create(format!("u{}@x.com", k), s("same name")).unwrap();
    }
    let list = store.list();
    assert_eq!(list.len(), n);
    for i in 0..n {
        for j in 0..n {
            if i != j {
                assert_ne!(list[i].id, list[j].id);
            }
        }
    }
}

#[test]
fn unknown_id_is_not_found() {
    let mut store = Store::new();
    assert_eq!(store.get_by_id(&s("nope")), Err(StoreError::NotFound));
    store.create(s("a@x.com"), s("A")).unwrap();
    assert_eq!(store.get_by_id(&s("nope")), Err(StoreError::NotFound));
}

#[test]
fn list_keeps_insertion_order() {
    let mut store = Store::new();
    let a = store.create(s("a@x.com"), s("A")).unwrap();
    let b = store.create(s("b@x.com"), s("B")).unwrap();
    let c = store.create(s("c@x.com"), s("C")).unwrap();
    assert_eq!(store.list(), vec![a, b, c]);
}

#[test]
fn same_email_is_accepted_twice() {
    let mut store = Store::new();
    let a = store.create(s("a@x.com"), s("A")).unwrap();
    let b = store.create(s("a@x.com"), s("A")).unwrap();
    assert_ne!(a.id, b.id);
    assert_eq!(store.len(), 2);
}

#[test]
fn insert_refuses_taken_id() {
    let mut store = Store::new();
    let rec = store.insert(s("k1"), s("a@x.com"), s("A"), s("2024-01-01T00:00:00+00:00")).unwrap();
    assert_eq!(
        rec,
        Record {
            id: s("k1"),
            email: s("a@x.com"),
            name: s("A"),
            created_at: s("2024-01-01T00:00:00+00:00"),
        }
    );
    assert!(store.contains_id(&s("k1")));
    assert!(!store.contains_id(&s("k2")));
    assert_eq!(store.insert(s("k1"), s("b@x.com"), s("B"), s("t")), Err(StoreError::DuplicateId));
    assert_eq!(store.list(), vec![rec.clone()]);
    assert_eq!(store.get_by_id(&s("k1")), Ok(rec));
}

#[test]
fn get_finds_each_of_several() {
    let mut store = Store::new();
    store.insert(s("k1"), s("a"), s("A"), s("t1")).unwrap();
    store.insert(s("k2"), s("b"), s("B"), s("t2")).unwrap();
    store.insert(s("k3"), s("c"), s("C"), s("t3")).unwrap();
    assert_eq!(store.get_by_id(&s("k2")).unwrap().name, "B");
    assert_eq!(store.get_by_id(&s("k3")).unwrap().email, "c");
    assert_eq!(store.get_by_id(&s("k1")).unwrap().created_at, "t1");
}

#[test]
fn created_id_is_hyphenated_uuid() {
    let mut store = Store::new();
    let rec = store.create(s("a@x.com"), s("A")).unwrap();
    assert_eq!(rec.id.len(), 36);
    for (i, ch) in rec.id.chars().enumerate() {
        if i == 8 || i == 13 || i == 18 || i == 23 {
            assert_eq!(ch, '-');
        } else {
            assert!(ch.is_ascii_hexdigit() && !ch.is_ascii_uppercase());
        }
    }
    assert_eq!(rec.id.chars().nth(14), Some('4'));
}

#[test]
fn created_at_is_rfc3339_utc() {
    let mut store = Store::new();
    let rec = store.create(s("a@x.com"), s("A")).unwrap();
    assert!(rec.created_at.len() >= 20);
    assert_eq!(rec.created_at.as_bytes()[10], b'T');
    assert!(rec.created_at.ends_with("+00:00"));
}

#[test]
fn duplicate_copies_every_field() {
    let rec = Record { id: s("i"), email: s("e"), name: s("n"), created_at: s("c") };
    assert_eq!(rec.duplicate(), rec);
}
