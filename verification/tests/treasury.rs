use goods::ffi::{
    fetch_reply, identifier_bytes, read_reply, store_reply, write_prefix, ImporterFFI,
    PluginImporter, Reply,
};
use goods::treasury::{
    goods_file_refused, needs_reimport, next_version, plan_fetch, returns_data,
    version_from_systime, AssetIndex, AssetRecord, FetchError, FetchPlan, ImporterDirError,
    Importers, StoreError, StorePlan, SysTime,
};
use goods::treasury::{answer_after_conversion, require_importer, ImportFailure, ImporterDirs};
use goods::wasm::{ImportAction, ImportEvent, ImportPhase, ImportTask};
use goods::wasm::{
    after_first_listing, import_error_message, import_layout, import_status, is_wasm_module,
    records_from_words, records_size, ImportStatus, Listing,
};

fn t(secs: u64, nanos: u32) -> SysTime {
    SysTime { secs, nanos }
}

#[test]
fn version_is_milliseconds_since_the_epoch() {
    assert_eq!(version_from_systime(t(0, 0)), 0);
    assert_eq!(version_from_systime(t(1, 999_999)), 1000);
    assert_eq!(version_from_systime(t(2, 1_500_000)), 2001);
    assert_eq!(version_from_systime(t(u64::MAX, 0)), u64::MAX.wrapping_mul(1000));
}

#[test]
fn stale_native_file_is_imported_again() {
    assert!(needs_reimport(t(1, 0), Some(t(2, 0))));
    assert!(needs_reimport(t(1, 5), Some(t(1, 6))));
    assert!(!needs_reimport(t(2, 0), Some(t(2, 0))));
    assert!(!needs_reimport(t(1, 0), None));
}

#[test]
fn fetch_answers_only_newer_versions() {
    assert_eq!(next_version(None), 0);
    assert_eq!(next_version(Some(41)), 42);
    assert!(returns_data(0, t(0, 0)));
    assert!(!returns_data(1001, t(1, 0)));
    assert_eq!(
        plan_fetch(0, Some(t(3, 0)), Some(t(4, 0))),
        FetchPlan { reimport: true, answer: Some(3000), after_conversion: false }
    );
    // An update asked with the version a fetch reported answers nothing.
    assert_eq!(
        plan_fetch(next_version(Some(3000)), Some(t(3, 0)), None),
        FetchPlan { reimport: false, answer: None, after_conversion: false }
    );
}

#[test]
fn treasury_file_checks() {
    assert!(goods_file_refused(false, true, true));
    assert!(!goods_file_refused(false, false, false));
    assert!(!goods_file_refused(true, true, true));
    assert!(goods_file_refused(true, false, false));
}

#[test]
fn storing_the_same_source_twice_gives_the_first_asset() {
    let mut index = AssetIndex::new();
    match index.plan_store("a.png", "png", 7) {
        StorePlan::Import(u) => assert_eq!(u, 7),
        _ => panic!("new pair"),
    }
    index.register(AssetRecord { uuid: 7, source: "a.png".to_string(), importer: "png".to_string() });
    assert!(matches!(index.plan_store("a.png", "png", 9), StorePlan::Existing(7)));
    assert!(matches!(index.plan_store("b.png", "png", 7), StorePlan::Retry));
    assert!(matches!(index.plan_store("a.png", "jpeg", 9), StorePlan::Import(9)));
    assert_eq!(index.find_uuid(7), Some(0));
    assert_eq!(index.find_uuid(8), None);
}

#[test]
fn first_importer_for_a_pair_is_kept() {
    let mut imps: Importers<&str> = Importers::new();
    assert!(imps.register("png".to_string(), "rgba".to_string(), "first"));
    assert!(!imps.register("png".to_string(), "rgba".to_string(), "second"));
    assert_eq!(imps.get_importer("png", "rgba"), Some(&"first"));
    assert_eq!(imps.get_importer("png", "bc7"), None);
}

#[test]
fn treasury_error_texts() {
    assert_eq!(FetchError::NotFound.message(), "Asset not found");
    assert_eq!(
        FetchError::NativeIoError { path: "/x".to_string(), message: "gone".to_string() }.message(),
        "Failed to access native file '/x'"
    );
    assert_eq!(
        StoreError::ImporterNotFound { importer: "png".to_string() }.message(),
        "Failed to find importer 'png'"
    );
    assert_eq!(StoreError::ImportError { message: "x".to_string() }.message(), "Import failed");
    assert_eq!(
        ImporterDirError { path: "d".to_string(), message: "m".to_string() }.message(),
        "Failed to scan importers directory 'd'"
    );
}

#[test]
fn stored_identifier_is_read_back_by_the_plugin() {
    let uuid: [u8; 16] = [1, 2, 3, 4, 5, 6, 7, 8, 9, 10, 11, 12, 13, 14, 15, 16];
    let mut buf = vec![0u8; 1024];
    assert_eq!(store_reply(Ok(uuid), &mut buf), 16);
    match read_reply(16, &buf) {
        Reply::Answer(a) => assert_eq!(identifier_bytes(&a), Some(uuid)),
        Reply::Failure(_) => panic!("answer expected"),
    }
    let mut small = vec![0u8; 4];
    assert_eq!(store_reply(Ok(uuid), &mut small), -4);
    assert_eq!(small, b"Too ".to_vec());
    assert_eq!(identifier_bytes(&[1, 2, 3]), None);
}

#[test]
fn error_reply_is_read_back_truncated() {
    let mut buf = vec![0u8; 5];
    let code = store_reply(Err(&b"import failed"[..]), &mut buf);
    assert_eq!(code, -5);
    match read_reply(code as isize, &buf) {
        Reply::Failure(m) => assert_eq!(m, b"impor".to_vec()),
        Reply::Answer(_) => panic!("failure expected"),
    }
}

#[test]
fn fetch_reply_checks_the_path_buffer() {
    let mut path = vec![0u8; 8];
    let mut err = vec![0u8; 64];
    assert_eq!(fetch_reply(Ok(&b"/n/1"[..]), &mut path, &mut err), 4);
    assert_eq!(&path[..4], b"/n/1");
    let mut tiny = vec![0u8; 2];
    assert_eq!(fetch_reply(Ok(&b"/n/1"[..]), &mut tiny, &mut err), -24);
    assert_eq!(&err[..24], b"Path buffer is too small");
}

#[test]
fn prefix_writes_what_fits() {
    let mut buf = vec![9u8; 3];
    assert_eq!(write_prefix(&mut buf, &[1, 2]), 2);
    assert_eq!(buf, vec![1, 2, 9]);
    assert_eq!(write_prefix(&mut buf, &[4, 5, 6, 7]), 3);
    assert_eq!(buf, vec![4, 5, 6]);
}

#[test]
fn importer_interface_writes_its_names() {
    let imp = ImporterFFI::new("dummy".to_string(), "src".to_string(), "bin".to_string());
    let mut buf = vec![0u8; 16];
    assert_eq!(imp.write_name(&mut buf), 5);
    assert_eq!(&buf[..5], b"dummy");
    let mut err = vec![0u8; 3];
    assert_eq!(ImporterFFI::import_reply(Err(&b"boom"[..]), &mut err), -3);
    assert_eq!(ImporterFFI::import_reply(Ok(()), &mut err), 0);
    let p = PluginImporter;
    assert_eq!((p.name(), p.source(), p.native()), ("plugin", "source", "native"));
}

#[test]
fn wasm_importer_listing() {
    assert_eq!(records_size(3), 60);
    assert_eq!(after_first_listing(10), Listing::Done { count: 10 });
    assert_eq!(after_first_listing(64), Listing::Done { count: 64 });
    assert_eq!(after_first_listing(65), Listing::Retry { count: 65, size: 1300 });
    let records = records_from_words(&[1, 2, 3, 4, 5, 6, 7, 8, 9, 10, 11]);
    assert_eq!(records.len(), 2);
    assert_eq!(records[1].data, 6);
    assert_eq!(records[1].import, 10);
    assert!(is_wasm_module("png.wasm"));
    assert!(!is_wasm_module(".wasm"));
    assert!(!is_wasm_module("png.wasm.bak"));
    assert!(!is_wasm_module("pngwasm"));
}

#[test]
fn wasm_import_layout_and_result() {
    let l = import_layout(100, 10, 20);
    assert_eq!((l.size, l.source, l.native, l.error), (2078, 100, 110, 130));
    assert_eq!(import_status(0), ImportStatus::Done);
    assert_eq!(import_status(-12), ImportStatus::Failed { len: 12 });
    assert_eq!(import_error_message("bad"), "Importer error: 'bad'");
}

#[test]
fn asset_description_shows_the_hyphenated_identifier() {
    let a = goods::treasury::Asset::new(
        0x936DA01F_9ABD_4D9D_80C7_02AF85C822A8,
        "img/a.png".to_string(),
        "png".to_string(),
        "rgba".to_string(),
        vec!["ui".to_string()],
    );
    assert_eq!(
        a.display_text(false),
        "{ 936da01f-9abd-4d9d-80c7-02af85c822a8 <- 'img/a.png' : 'png' as 'rgba' }"
    );
    assert_eq!(
        a.display_text(true),
        "{\n  uuid: 936da01f-9abd-4d9d-80c7-02af85c822a8\n  source: img/a.png\n  source_format: png\n  native_format: rgba\n}"
    );
    assert_eq!(a.tags(), &["ui".to_string()]);
}

#[test]
fn native_file_is_named_by_identifier() {
    let (native, tmp) = goods::treasury::native_paths("/t", 1);
    assert_eq!(native, "/t/00000000-0000-0000-0000-000000000001");
    assert_eq!(tmp, "/t/00000000-0000-0000-0000-000000000001.tmp");
}

#[test]
fn drawn_identifier_is_a_random_one() {
    let index = AssetIndex::new();
    match index.plan_store_drawn("a", "png") {
        StorePlan::Import(u) => {
            assert_eq!((u >> 76) & 0xf, 4);
            assert_eq!((u >> 62) & 0x3, 2);
        }
        _ => panic!("empty index imports"),
    }
}

#[test]
fn finishing_a_store_records_the_asset_or_reports_why_not() {
    let mut index = AssetIndex::new();
    let rec = |u: u128| AssetRecord { uuid: u, source: "s".to_string(), importer: "i".to_string() };
    let e = index
        .finish_store(rec(1), Err(ImportFailure::Other("bad input".to_string())), Ok(()), "/n".to_string())
        .unwrap_err();
    assert_eq!(e.message(), "Import failed");
    let e = index
        .finish_store(
            rec(1),
            Err(ImportFailure::Store(StoreError::ImporterNotFound { importer: "x".to_string() })),
            Ok(()),
            "/n".to_string(),
        )
        .unwrap_err();
    assert_eq!(e.message(), "Failed to find importer 'x'");
    let e = index.finish_store(rec(1), Ok(()), Err("busy".to_string()), "/n".to_string()).unwrap_err();
    assert_eq!(e.message(), "Failed to access native file '/n'");
    assert_eq!(index.find_uuid(1), None);
    assert_eq!(index.finish_store(rec(1), Ok(()), Ok(()), "/n".to_string()).unwrap(), 1);
    assert_eq!(index.find_uuid(1), Some(0));
}

#[test]
fn absent_native_file_is_converted_first() {
    assert_eq!(
        plan_fetch(0, None, Some(t(4, 0))),
        FetchPlan { reimport: true, answer: None, after_conversion: true }
    );
    assert_eq!(answer_after_conversion(0, Ok(t(5, 0)), "/n".to_string()).unwrap(), Some(5000));
    assert_eq!(answer_after_conversion(6000, Ok(t(5, 0)), "/n".to_string()).unwrap(), None);
    let e = answer_after_conversion(0, Err("gone".to_string()), "/n".to_string()).unwrap_err();
    assert_eq!(e.message(), "Failed to access native file '/n'");
}

#[test]
fn unknown_identifier_is_not_found_on_fetch() {
    let mut index = AssetIndex::new();
    assert!(matches!(index.fetch_index(3), Err(FetchError::NotFound)));
    index.register(AssetRecord { uuid: 3, source: "s".to_string(), importer: "i".to_string() });
    assert_eq!(index.fetch_index(3).unwrap(), 0);
}

#[test]
fn missing_importer_fails_a_new_store() {
    let e = require_importer(StorePlan::Import(5), "png", false).unwrap_err();
    assert_eq!(e.message(), "Failed to find importer 'png'");
    assert!(matches!(require_importer(StorePlan::Import(5), "png", true), Ok(StorePlan::Import(5))));
    assert!(matches!(require_importer(StorePlan::Existing(2), "png", false), Ok(StorePlan::Existing(2))));
}

#[test]
fn importer_directory_is_loaded_once() {
    let mut dirs = ImporterDirs::new();
    assert!(dirs.needs_loading("imp"));
    dirs.record("imp".to_string());
    assert!(!dirs.needs_loading("imp"));
    dirs.record("imp".to_string());
    assert!(dirs.needs_loading("other"));
}

#[test]
fn failed_wasm_import_frees_then_reports_the_message() {
    let (mut task, first) = ImportTask::start(3, 4);
    assert!(matches!(first, ImportAction::ReleaseRegistry));
    assert!(matches!(task.step(ImportEvent::Done), ImportAction::Allocate { size: 2055 }));
    assert!(matches!(
        task.step(ImportEvent::Allocated { base: 100 }),
        ImportAction::WritePaths { source: 100, native: 103 }
    ));
    match task.step(ImportEvent::Done) {
        ImportAction::CallImporter { layout } => assert_eq!(layout.error, 107),
        _ => panic!("call expected"),
    }
    assert!(matches!(task.step(ImportEvent::Returned { code: -3 }), ImportAction::ReadError { at: 107, len: 3 }));
    assert!(matches!(
        task.step(ImportEvent::ErrorRead { text: "bad".to_string() }),
        ImportAction::Free { base: 100, size: 2055 }
    ));
    match task.step(ImportEvent::Done) {
        ImportAction::Finish(Err(m)) => assert_eq!(m, "Importer error: 'bad'"),
        _ => panic!("failure expected"),
    }
    assert!(matches!(task.phase, ImportPhase::Finished));
}

#[test]
fn successful_wasm_import_frees_then_succeeds() {
    let (mut task, _) = ImportTask::start(1, 1);
    task.step(ImportEvent::Done);
    task.step(ImportEvent::Allocated { base: 0 });
    task.step(ImportEvent::Done);
    assert!(matches!(task.step(ImportEvent::Returned { code: 0 }), ImportAction::Free { base: 0, size: 2050 }));
    assert!(matches!(task.step(ImportEvent::Done), ImportAction::Finish(Ok(()))));
    let (mut trapped, _) = ImportTask::start(1, 1);
    trapped.step(ImportEvent::Done);
    trapped.step(ImportEvent::Allocated { base: 0 });
    trapped.step(ImportEvent::Done);
    match trapped.step(ImportEvent::Failed { message: "trap".to_string() }) {
        ImportAction::Finish(Err(m)) => assert_eq!(m, "trap"),
        _ => panic!("trap ends the import"),
    }
}
