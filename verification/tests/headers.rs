use embedding::fields::{from_list, Fields, FieldsResource, FreezeError, HeaderError};

fn text(bytes: &[u8]) -> Vec<u8> {
    bytes.to_vec()
}

#[test]
fn insert_folds_keys_and_get_is_case_insensitive() {
    let mut f = Fields::new();
    assert!(f.insert("Content-Type".to_string(), text(b"text/plain")).is_ok());
    // The stored key is the folded form.
    let entries = f.entries();
    assert_eq!(entries.len(), 1);
    assert_eq!(entries[0].0, "content-type");
    assert_eq!(entries[0].1, text(b"text/plain"));
    // Lookup folds the queried name too.
    assert_eq!(f.get(&"CONTENT-TYPE".to_string()), vec![text(b"text/plain")]);
    assert_eq!(f.get(&"content-type".to_string()), vec![text(b"text/plain")]);
}

#[test]
fn values_keep_insertion_order_among_same_key_entries() {
    let mut f = Fields::new();
    f.insert("Accept".to_string(), text(b"one")).unwrap();
    f.insert("accept".to_string(), text(b"two")).unwrap();
    f.insert("other".to_string(), text(b"x")).unwrap();
    f.insert("ACCEPT".to_string(), text(b"three")).unwrap();
    assert_eq!(
        f.get(&"Accept".to_string()),
        vec![text(b"one"), text(b"two"), text(b"three")]
    );
}

#[test]
fn an_invalid_value_is_rejected_and_changes_nothing() {
    let mut f = Fields::new();
    let r = f.insert("X".to_string(), vec![0xff, 0xfe]);
    assert_eq!(r, Err(HeaderError::InvalidSyntax));
    assert_eq!(f.entries().len(), 0);
}

#[test]
fn delete_removes_every_entry_under_the_key() {
    let mut f = Fields::new();
    f.insert("A".to_string(), text(b"1")).unwrap();
    f.insert("b".to_string(), text(b"2")).unwrap();
    f.insert("a".to_string(), text(b"3")).unwrap();
    f.delete(&"A".to_string());
    assert_eq!(f.get(&"a".to_string()), Vec::<Vec<u8>>::new());
    assert_eq!(f.get(&"b".to_string()), vec![text(b"2")]);
}

#[test]
fn freeze_with_one_owner_keeps_entries_exactly() {
    let mut f = Fields::new();
    f.insert("Content-Type".to_string(), text(b"text/plain")).unwrap();
    f.insert("Accept".to_string(), text(b"*/*")).unwrap();
    let mut r = FieldsResource::new(f);
    let before = r.entries();
    assert!(r.freeze().is_ok());
    let after = r.entries();
    assert_eq!(before, after);
}

#[test]
fn freeze_scenario_lookup_on_frozen_result() {
    let mut f = Fields::new();
    f.insert("Content-Type".to_string(), text(b"text/plain")).unwrap();
    let mut r = FieldsResource::new(f);
    assert!(r.freeze().is_ok());
    assert_eq!(r.get(&"content-type".to_string()), vec![text(b"text/plain")]);
}

#[test]
fn freeze_with_a_second_owner_fails_and_leaves_it_mutable() {
    let mut f = Fields::new();
    f.insert("K".to_string(), text(b"v")).unwrap();
    let mut r = FieldsResource::new(f);
    r.share();
    let before = r.entries();
    assert_eq!(r.freeze(), Err(FreezeError::OwnershipViolation));
    // Unchanged, and still mutable.
    assert_eq!(r.entries(), before);
    assert!(r.append("K".to_string(), text(b"w")).is_ok());
    assert_eq!(
        r.get(&"k".to_string()),
        vec![text(b"v"), text(b"w")]
    );
}

#[test]
fn freeze_succeeds_once_the_extra_owner_is_released() {
    let f = Fields::new();
    let mut r = FieldsResource::new(f);
    r.share();
    assert_eq!(r.freeze(), Err(FreezeError::OwnershipViolation));
    r.release();
    assert!(r.freeze().is_ok());
}

#[test]
fn a_frozen_collection_refuses_every_mutation() {
    let mut f = Fields::new();
    f.insert("K".to_string(), text(b"v")).unwrap();
    let mut r = FieldsResource::new(f);
    r.freeze().unwrap();
    assert_eq!(
        r.set("K".to_string(), vec![text(b"x")]),
        Err(HeaderError::Immutable)
    );
    assert_eq!(r.delete(&"K".to_string()), Err(HeaderError::Immutable));
    assert_eq!(
        r.append("K".to_string(), text(b"x")),
        Err(HeaderError::Immutable)
    );
    assert_eq!(r.get(&"k".to_string()), vec![text(b"v")]);
}

#[test]
fn set_replaces_everything_under_the_key() {
    let mut f = Fields::new();
    f.insert("A".to_string(), text(b"1")).unwrap();
    f.insert("a".to_string(), text(b"2")).unwrap();
    f.insert("b".to_string(), text(b"keep")).unwrap();
    let mut r = FieldsResource::new(f);
    assert!(r.set("A".to_string(), vec![text(b"x"), text(b"y")]).is_ok());
    assert_eq!(r.get(&"a".to_string()), vec![text(b"x"), text(b"y")]);
    assert_eq!(r.get(&"b".to_string()), vec![text(b"keep")]);
}

#[test]
fn set_stops_at_the_first_invalid_value() {
    let f = Fields::new();
    let mut r = FieldsResource::new(f);
    let out = r.set(
        "A".to_string(),
        vec![text(b"ok"), vec![0xff], text(b"never")],
    );
    assert_eq!(out, Err(HeaderError::InvalidSyntax));
    // The valid prefix was inserted.
    assert_eq!(r.get(&"a".to_string()), vec![text(b"ok")]);
}

#[test]
fn has_answers_after_folding() {
    let mut f = Fields::new();
    f.insert("X-Thing".to_string(), text(b"1")).unwrap();
    let r = FieldsResource::new(f);
    assert!(r.has(&"x-thing".to_string()));
    assert!(!r.has(&"x-other".to_string()));
}

#[test]
fn from_list_builds_a_collection_or_rejects_it_whole() {
    let ok = from_list(vec![
        ("A".to_string(), text(b"1")),
        ("B".to_string(), text(b"2")),
    ])
    .unwrap();
    assert_eq!(ok.get(&"a".to_string()), vec![text(b"1")]);
    assert_eq!(ok.get(&"b".to_string()), vec![text(b"2")]);

    let bad = from_list(vec![
        ("A".to_string(), text(b"1")),
        ("B".to_string(), vec![0xc0]),
    ]);
    assert!(matches!(bad, Err(HeaderError::InvalidSyntax)));
}

#[test]
fn duplicate_copies_the_entries_into_a_fresh_mutable_resource() {
    let mut f = Fields::new();
    f.insert("K".to_string(), text(b"v")).unwrap();
    let mut r = FieldsResource::new(f);
    r.freeze().unwrap();
    let mut copy = r.duplicate();
    // The copy is mutable even though the original is frozen.
    assert!(copy.append("K".to_string(), text(b"w")).is_ok());
    assert_eq!(copy.get(&"k".to_string()), vec![text(b"v"), text(b"w")]);
    assert_eq!(r.get(&"k".to_string()), vec![text(b"v")]);
}
