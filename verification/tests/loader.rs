use goods::id::{AssetId, TypedAssetId};
use goods::loader::{
    AssetTable, Error, HandleState, Key, LoadOutcome, LookupState, NotFound, ResultState,
};

fn decoded(bytes: &[u8]) -> LoadOutcome<Vec<u8>> {
    LoadOutcome::Loaded { decoded: bytes.to_vec(), version: 1, source: 0 }
}

#[test]
fn repeated_request_shares_the_first_one() {
    let mut t: AssetTable<String, Vec<u8>> = AssetTable::new();
    let id = AssetId::new(5).unwrap();
    let (_, start) = t.load_by_id(id);
    assert!(start);
    let (h2, start2) = t.load_by_id(id);
    assert!(!start2);
    assert!(matches!(h2.state, HandleState::Loading));
}

#[test]
fn handle_waits_then_resolves_and_builds_once() {
    let mut t: AssetTable<String, Vec<u8>> = AssetTable::new();
    let id = AssetId::new(7).unwrap();
    let (mut h, start) = t.load_by_id(id);
    assert!(start);
    assert!(t.poll_handle(&mut h, Some(11)).is_none());
    let wake = t.complete_load(id, decoded(b"hi"));
    assert_eq!(wake, vec![11]);
    let mut r = t.poll_handle(&mut h, Some(11)).unwrap();
    assert!(matches!(r.state, ResultState::Decoded));
    let built = r.build(&mut t, |d: Vec<u8>| Ok(String::from_utf8(d).unwrap())).unwrap().clone();
    assert_eq!(built, "hi");
    // A second handle of the same asset gets the built asset; its builder is never called.
    let (mut h2, start2) = t.load_by_id(id);
    assert!(!start2);
    let mut r2 = t.poll_handle(&mut h2, None).unwrap();
    let again = r2
        .build(&mut t, |_d: Vec<u8>| -> Result<String, Error> { panic!("built twice") })
        .unwrap()
        .clone();
    assert_eq!(again, "hi");
}

#[test]
fn failed_build_is_recorded() {
    let mut t: AssetTable<String, Vec<u8>> = AssetTable::new();
    let id = AssetId::new(8).unwrap();
    let (mut h, _) = t.load_by_id(id);
    t.complete_load(id, decoded(b"x"));
    let mut r = t.poll_handle(&mut h, None).unwrap();
    let e = r
        .build(&mut t, |_d: Vec<u8>| Err(Error::new("bad".to_string(), "Bad".to_string(), None)))
        .unwrap_err();
    assert_eq!(e.message(), "bad");
    assert_eq!(e.debug_message(), "Bad");
    assert!(e.source().is_none());
    assert!(matches!(r.state, ResultState::Error(_)));
    // A later handle of the same asset reports the same error, debug text included.
    let (mut h2, start2) = t.load_by_id(id);
    assert!(!start2);
    let mut r2 = t.poll_handle(&mut h2, None).unwrap();
    let e2 = r2
        .build(&mut t, |_d: Vec<u8>| -> Result<String, Error> { panic!("built twice") })
        .unwrap_err();
    assert_eq!(e2.message(), "bad");
    assert_eq!(e2.debug_message(), "Bad");
}

#[test]
fn wrapped_error_keeps_its_debug_text_and_source() {
    let cause = Error::new("eof".to_string(), "UnexpectedEof".to_string(), None);
    let e = Error::new("read failed".to_string(), "Read(UnexpectedEof)".to_string(), Some(cause));
    let copy = e.clone();
    for err in [&e, &copy] {
        assert_eq!(err.message(), "read failed");
        assert_eq!(err.debug_message(), "Read(UnexpectedEof)");
        let source = err.source().unwrap();
        assert_eq!(source.message(), "eof");
        assert_eq!(source.debug_message(), "UnexpectedEof");
        assert!(source.source().is_none());
    }
    let nf = NotFound { path: Some("p".to_string()), id: None }.into_error();
    assert_eq!(nf.message(), "Failed to load asset 'p'");
    assert_eq!(nf.debug_message(), "Failed to load asset 'p'");
    assert!(nf.source().is_none());
}

#[test]
fn missing_asset_is_reported_with_its_key() {
    let mut t: AssetTable<String, Vec<u8>> = AssetTable::new();
    let id = AssetId::new(0x1f).unwrap();
    let (mut h, _) = t.load_by_id(id);
    t.complete_load(id, LoadOutcome::NotFound);
    let mut r = t.poll_handle(&mut h, None).unwrap();
    assert!(r.build_optional(&mut t, |d: Vec<u8>| Ok(String::from_utf8(d).unwrap())).unwrap().is_none());
    let e = r.build(&mut t, |d: Vec<u8>| Ok(String::from_utf8(d).unwrap())).unwrap_err();
    assert_eq!(e.message(), "Failed to load asset '1f'");
}

#[test]
fn path_request_waits_for_the_search_then_the_asset() {
    let mut t: AssetTable<String, Vec<u8>> = AssetTable::new();
    let (mut h, search) = t.load_by_path("a/b.json");
    assert!(search);
    let (_, search2) = t.load_by_path("a/b.json");
    assert!(!search2);
    assert!(t.poll_handle(&mut h, Some(3)).is_none());
    let id = AssetId::new(42).unwrap();
    let done = t.complete_find("a/b.json", Some(id));
    assert_eq!(done.load.map(|i| i.get()), Some(42));
    assert!(done.wake.is_empty());
    let wake = t.complete_load(id, decoded(b"ok"));
    assert_eq!(wake, vec![3]);
    let r = t.poll_handle(&mut h, None).unwrap();
    assert_eq!(r.id().map(|i| i.get()), Some(42));
    assert_eq!(r.path(), Some("a/b.json"));
}

#[test]
fn unknown_path_resolves_to_missing() {
    let mut t: AssetTable<String, Vec<u8>> = AssetTable::new();
    let (mut lookup, search) = t.lookup("nowhere");
    assert!(search);
    assert!(t.poll_lookup(&mut lookup, Some(9)).is_none());
    let done = t.complete_find("nowhere", None);
    assert_eq!(done.wake, vec![9]);
    assert!(done.load.is_none());
    let found = t.poll_lookup(&mut lookup, None).unwrap();
    assert!(found.is_err());
    assert!(matches!(lookup.state, LookupState::Missing));
}

#[test]
fn not_found_texts() {
    assert_eq!(
        NotFound { path: None, id: None }.message(),
        "Failed to load an asset. [No AssetId or path provided]"
    );
    assert_eq!(
        NotFound { path: Some("p".to_string()), id: None }.message(),
        "Failed to load asset 'p'"
    );
    assert_eq!(
        NotFound { path: Some("p".to_string()), id: AssetId::new(255) }.message(),
        "Failed to load asset 'ff @ p'"
    );
}

#[test]
fn keys_convert_from_paths_and_identifiers() {
    let k: Key = Key::from("x");
    assert!(matches!(k, Key::Path("x")));
    let k: Key = Key::from(AssetId::new(3).unwrap());
    assert!(matches!(k, Key::Id(_)));
}

#[test]
fn load_dispatches_on_the_key() {
    let mut t: AssetTable<String, Vec<u8>> = AssetTable::new();
    let (h, search) = t.load(Key::from("dir/x"));
    assert!(search);
    assert_eq!(h.path.as_deref(), Some("dir/x"));
    assert!(matches!(h.state, HandleState::Searching));
    let id = AssetId::new(12).unwrap();
    let (h, start) = t.load(Key::from(id));
    assert!(start);
    assert!(h.path.is_none());
    assert_eq!(h.id.map(|i| i.get()), Some(12));
}

#[test]
fn ready_results_and_trivial_gets() {
    let mut t: AssetTable<u32, u32> = AssetTable::new();
    let id = TypedAssetId::<u32>::new(21).unwrap();
    let (mut h, start) = t.load_typed(id);
    assert!(start);
    assert!(h.get_ready(&mut t).is_none());
    t.complete_load(id.id, LoadOutcome::Loaded { decoded: 5, version: 0, source: 1 });
    let mut r = h.get_impl(&mut t, Some(1)).unwrap();
    assert_eq!(*r.get(&mut t).unwrap(), 5);
    assert_eq!(r.get_optional(&mut t).unwrap(), Some(&5));
    let (mut lookup, _) = t.lookup("p");
    assert!(lookup.get_impl(&mut t, Some(2)).is_none());
    let done = t.complete_find("p", Some(id.id));
    assert!(done.load.is_none());
    assert_eq!(done.wake, vec![2]);
    assert_eq!(lookup.get_ready(&mut t).unwrap().unwrap().get(), 21);
}
