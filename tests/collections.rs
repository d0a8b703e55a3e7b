use sled_rkyv::{derive_collection, Collection, FieldDecl, KeyMarker, KeyOption, RecordShape};

#[derive(Clone, Debug, PartialEq)]
struct Msg {
    string: String,
    number: i32,
}

struct EmptyId;
struct StringId;
struct CaseInsensitiveId;

fn encode(m: &Msg) -> Vec<u8> {
    let mut out = m.number.to_le_bytes().to_vec();
    out.extend_from_slice(m.string.as_bytes());
    out
}

fn decode(bytes: &[u8]) -> Msg {
    let mut number = [0u8; 4];
    number.copy_from_slice(&bytes[..4]);
    Msg {
        string: String::from_utf8(bytes[4..].to_vec()).unwrap(),
        number: i32::from_le_bytes(number),
    }
}

fn shape(key: Option<KeyMarker>) -> RecordShape {
    RecordShape::Named(vec![
        FieldDecl { name: "string".to_string(), is_string: true, key },
        FieldDecl { name: "number".to_string(), is_string: false, key: None },
    ])
}

fn open<T>(name: &str, key: Option<KeyMarker>) -> (sled::Db, Collection<T>) {
    let db = sled::Config::new().temporary(true).open().unwrap();
    let spec = derive_collection(name, &shape(key)).unwrap();
    let collection = Collection::open(&db, &spec).unwrap();
    (db, collection)
}

fn case_insensitive() -> Option<KeyMarker> {
    Some(KeyMarker::List(vec![KeyOption::Word("case_insensitive".to_string())]))
}

#[test]
fn empty_id() {
    let (_db, c) = open::<EmptyId>("EmptyId", None);
    let msg = Msg { string: "test".into(), number: 4 };
    assert!(c.get(None).unwrap().is_none());
    assert!(c.insert(None, &encode(&msg)).unwrap().is_none());
    let from_db = c.get(None).unwrap().unwrap();
    assert_eq!(4, decode(from_db.raw()).number);
    assert_eq!(msg, decode(from_db.raw()));
    assert_eq!(msg, decode(c.remove(None).unwrap().unwrap().raw()));
    assert!(c.get(None).unwrap().is_none());
}

#[test]
fn string_id() {
    let (_db, c) = open::<StringId>("StringId", Some(KeyMarker::Bare));
    let msg = Msg { string: "test".into(), number: 4 };
    assert!(c.get(Some("test")).unwrap().is_none());
    assert!(c.get(Some("non-existing")).unwrap().is_none());
    assert!(c.insert(Some(&msg.string), &encode(&msg)).unwrap().is_none());
    assert_eq!(msg, decode(c.get(Some("test")).unwrap().unwrap().raw()));
    assert!(c.get(Some("TEST")).unwrap().is_none());
    assert_eq!(msg, decode(c.remove(Some("test")).unwrap().unwrap().raw()));
    assert!(c.get(Some("test")).unwrap().is_none());
    assert!(c.get(Some("non-existing")).unwrap().is_none());
}

#[test]
fn case_insensitive_id() {
    let (_db, c) = open::<CaseInsensitiveId>("CaseInsensitiveId", case_insensitive());
    let msg = Msg { string: "test".into(), number: 4 };
    assert!(c.get(Some("test")).unwrap().is_none());
    assert!(c.get(Some("non-existing")).unwrap().is_none());
    assert!(c.insert(Some(&msg.string), &encode(&msg)).unwrap().is_none());
    assert_eq!(msg, decode(c.get(Some("TEST")).unwrap().unwrap().raw()));
    assert!(c.get(Some("non-existing")).unwrap().is_none());
    assert_eq!(msg, decode(c.remove(Some("TeSt")).unwrap().unwrap().raw()));
    assert!(c.get(Some("tEsT")).unwrap().is_none());
    assert!(c.get(Some("non-existing")).unwrap().is_none());
}

#[test]
fn round_trip_of_each_policy() {
    let (_db, unit) = open::<EmptyId>("EmptyId", None);
    let msg = Msg { string: "alpha".into(), number: -7 };
    unit.insert(None, &encode(&msg)).unwrap();
    assert_eq!(msg, decode(unit.get(None).unwrap().unwrap().raw()));

    let (_db2, verbatim) = open::<StringId>("StringId", Some(KeyMarker::Bare));
    verbatim.insert(Some(&msg.string), &encode(&msg)).unwrap();
    assert_eq!(msg, decode(verbatim.get(Some("alpha")).unwrap().unwrap().raw()));

    let (_db3, folded) = open::<CaseInsensitiveId>("CaseInsensitiveId", case_insensitive());
    let upper = Msg { string: "ALPHA".into(), number: 1 };
    folded.insert(Some(&upper.string), &encode(&upper)).unwrap();
    assert_eq!(upper, decode(folded.get(Some("ALPHA")).unwrap().unwrap().raw()));
    assert_eq!(upper, decode(folded.get(Some("alpha")).unwrap().unwrap().raw()));
}

#[test]
fn insert_returns_previous() {
    let (_db, c) = open::<StringId>("StringId", Some(KeyMarker::Bare));
    let first = Msg { string: "k".into(), number: 1 };
    let second = Msg { string: "k".into(), number: 2 };
    assert!(c.insert(Some("k"), &encode(&first)).unwrap().is_none());
    assert_eq!(first, decode(c.insert(Some("k"), &encode(&second)).unwrap().unwrap().raw()));
    assert_eq!(second, decode(c.get(Some("k")).unwrap().unwrap().raw()));
}

#[test]
fn remove_then_get_is_absent() {
    let (_db, c) = open::<StringId>("StringId", Some(KeyMarker::Bare));
    let msg = Msg { string: "gone".into(), number: 3 };
    c.insert(Some("gone"), &encode(&msg)).unwrap();
    assert_eq!(msg, decode(c.remove(Some("gone")).unwrap().unwrap().raw()));
    assert!(c.get(Some("gone")).unwrap().is_none());
    assert!(c.remove(Some("gone")).unwrap().is_none());
}

#[test]
fn case_folded_variants_share_one_entry() {
    let (_db, c) = open::<CaseInsensitiveId>("CaseInsensitiveId", case_insensitive());
    let first = Msg { string: "Test".into(), number: 1 };
    let second = Msg { string: "tEST".into(), number: 2 };
    assert!(c.insert(Some(&first.string), &encode(&first)).unwrap().is_none());
    assert_eq!(first, decode(c.insert(Some(&second.string), &encode(&second)).unwrap().unwrap().raw()));
    for id in ["TEST", "TeSt", "test"] {
        assert_eq!(second, decode(c.get(Some(id)).unwrap().unwrap().raw()));
    }
    assert_eq!(second, decode(c.remove(Some("TeSt")).unwrap().unwrap().raw()));
    for id in ["TEST", "TeSt", "test"] {
        assert!(c.get(Some(id)).unwrap().is_none());
    }
}

#[test]
fn unitary_type_has_one_slot() {
    let (_db, c) = open::<EmptyId>("EmptyId", None);
    let first = Msg { string: "one".into(), number: 1 };
    let second = Msg { string: "two".into(), number: 2 };
    assert!(c.insert(None, &encode(&first)).unwrap().is_none());
    assert_eq!(first, decode(c.insert(None, &encode(&second)).unwrap().unwrap().raw()));
    assert_eq!(second, decode(c.get(None).unwrap().unwrap().raw()));
    assert_eq!(second, decode(c.remove(None).unwrap().unwrap().raw()));
    assert!(c.get(None).unwrap().is_none());
}

#[test]
fn record_types_have_separate_partitions() {
    let db = sled::Config::new().temporary(true).open().unwrap();
    let a_spec = derive_collection("A", &shape(Some(KeyMarker::Bare))).unwrap();
    let b_spec = derive_collection("B", &shape(Some(KeyMarker::Bare))).unwrap();
    let a: Collection<StringId> = Collection::open(&db, &a_spec).unwrap();
    let b: Collection<StringId> = Collection::open(&db, &b_spec).unwrap();
    let again: Collection<StringId> = Collection::open(&db, &a_spec).unwrap();
    let msg = Msg { string: "x".into(), number: 9 };
    a.insert(Some("x"), &encode(&msg)).unwrap();
    assert!(b.get(Some("x")).unwrap().is_none());
    assert_eq!(msg, decode(again.get(Some("x")).unwrap().unwrap().raw()));
    assert_eq!("A", a.name());
}
