use goods::asset::{after_json_error, first_info_encoding, InfoEncoding, InfoStep, PassthroughFormat};
use goods::error::{Error, Report, SourceError};
use goods::key::{IdKey, PathKey};
use goods::id::AssetId;
use goods::paths::relative_to;
use goods::shards::{Loader, LoaderBuilder};
use goods::source::{probe_load, probe_read, read_result, AssetData, Probe, RegistryBuilder, SourceScan};
use goods::sources::{
    join_path, Base64Error, DataUrlSource, FetchOutcome, FetchSource, FileSource, GoodsFetchError,
    GoodsSource, ReqwestSource, ResponseAction,
};

fn source_message(e: SourceError) -> String {
    e.message()
}

#[test]
fn data_url_payload_is_decoded() {
    let s = DataUrlSource;
    assert_eq!(s.read("data:,aGVsbG8=").unwrap(), b"hello".to_vec());
    assert_eq!(s.read("data:text/plain;base64,aGk=").unwrap(), b"hi".to_vec());
    assert_eq!(s.read("data:,_-8=").unwrap(), vec![0xff, 0xef]);
}

#[test]
fn text_that_is_no_data_url_is_not_found() {
    let s = DataUrlSource;
    assert!(matches!(s.read("http://x"), Err(SourceError::NotFound)));
    assert!(matches!(s.read("data:aGk="), Err(SourceError::NotFound)));
    assert!(matches!(s.read("dat"), Err(SourceError::NotFound)));
}

#[test]
fn bad_base64_is_a_source_error() {
    let s = DataUrlSource;
    match s.read("data:,!!!!") {
        Err(e) => assert_eq!(source_message(e), "Source error: Invalid byte 33, offset 0."),
        Ok(_) => panic!("not base64"),
    }
    assert_eq!(
        Base64Error::InvalidLength.message(),
        "Encoded text cannot have a 6-bit remainder."
    );
    assert_eq!(
        Base64Error::InvalidLastSymbol { offset: 3, byte: 66 }.message(),
        "Invalid last symbol 66, offset 3."
    );
}

#[test]
fn file_source_paths() {
    let fs = FileSource::new("/root".to_string());
    assert_eq!(fs.file_path("a/b.txt").unwrap(), "/root/a/b.txt");
    assert_eq!(fs.file_path("/abs/c").unwrap(), "/abs/c");
    assert_eq!(fs.file_path("file:///x%20y").unwrap(), "/root/x y");
    assert_eq!(fs.file_path("file://localhost/z").unwrap(), "/root/z");
    assert!(matches!(fs.file_path("file://host/z"), Err(SourceError::NotFound)));
    assert!(matches!(fs.file_path("file:///%ff"), Err(SourceError::Error(_))));
    let relative = FileSource::new("assets".to_string());
    assert_eq!(relative.file_path("a.txt").unwrap(), "assets/a.txt");
    assert_eq!(join_path("/a/", "b"), "/a/b");
    assert_eq!(join_path("", "b"), "b");
}

#[test]
fn only_ok_responses_carry_the_asset() {
    assert_eq!(ReqwestSource::<()>::action_for_status(200), ResponseAction::ReadBody);
    for status in [204u16, 301, 404, 500] {
        assert_eq!(ReqwestSource::<()>::action_for_status(status), ResponseAction::NotFound);
    }
    assert!(matches!(ReqwestSource::<()>::request_failed(), SourceError::NotFound));
    let r: ReqwestSource<u8> = ReqwestSource::new();
    assert_eq!(r.client, 0);
    assert_eq!(ReqwestSource::with_client(7u8).client, 7);
    match ReqwestSource::<()>::body_failed("eof".to_string()) {
        SourceError::Error(e) => assert_eq!(e.message(), "eof"),
        SourceError::NotFound => panic!("body errors are source errors"),
    }
}

#[test]
fn fetch_outcomes() {
    let _ = FetchSource::new();
    assert_eq!(FetchSource::result(FetchOutcome::Body(vec![1])).unwrap(), vec![1]);
    assert!(matches!(FetchSource::result(FetchOutcome::NoWindow), Err(SourceError::NotFound)));
    assert!(matches!(FetchSource::result(FetchOutcome::RequestFailed), Err(SourceError::NotFound)));
    assert!(matches!(FetchSource::result(FetchOutcome::NotOk), Err(SourceError::NotFound)));
    assert!(matches!(
        FetchSource::result(FetchOutcome::BodyFailed("x".to_string())),
        Err(SourceError::Error(_))
    ));
}

#[test]
fn treasury_source_answers() {
    let got = GoodsSource::<()>::load_result(Ok(Some(goods::treasury::AssetData {
        bytes: vec![3],
        version: 9,
    })))
    .unwrap()
    .unwrap();
    assert_eq!((got.bytes, got.version), (vec![3], 9));
    assert!(GoodsSource::<()>::load_result(Ok(None)).unwrap().is_none());
    assert!(GoodsSource::<()>::load_result(Err(goods::treasury::FetchError::NotFound))
        .unwrap()
        .is_none());
    let e = GoodsSource::<()>::load_result(Err(goods::treasury::FetchError::NativeIoError {
        path: "/n".to_string(),
        message: "denied".to_string(),
    }))
    .unwrap_err();
    assert_eq!(e.message(), "Failed to access native file '/n'");
    assert!(GoodsSource::<()>::update_result().unwrap().is_none());
    let direct = GoodsFetchError { path: "p".to_string(), message: String::new() };
    assert_eq!(direct.message(), "Failed to access native file 'p'");
}

#[test]
fn first_source_that_answers_decides() {
    let mut scan: SourceScan<u8, &str> = SourceScan::new();
    assert!(scan.feed(Probe::Miss).is_none());
    assert_eq!(scan.feed(Probe::Hit(4)), Some(Ok(4)));
    let mut failing: SourceScan<u8, &str> = SourceScan::new();
    assert_eq!(failing.feed(Probe::Fail("boom")), Some(Err("boom")));
    assert!(matches!(probe_read(Err(SourceError::NotFound)), Probe::Miss));
    assert!(matches!(probe_read(Ok(vec![1])), Probe::Hit(_)));
    assert!(matches!(read_result(None), Err(SourceError::NotFound)));
    assert_eq!(read_result(Some(Ok(vec![2]))).unwrap(), vec![2]);
    match probe_load::<()>(3, Ok(Some(AssetData { bytes: vec![1], version: 2 }))) {
        Probe::Hit(d) => assert_eq!((d.source, d.version), (3, 2)),
        _ => panic!("hit expected"),
    }
}

#[test]
fn registry_keeps_sources_in_order() {
    let mut b: RegistryBuilder<u8, u16> = RegistryBuilder::new();
    b.add(1).add(2);
    let r = b.with_local(9).build();
    assert_eq!(r.sources_in_order(), &[1, 2]);
    assert_eq!(r.local_sources_in_order(), &[9]);
}

#[test]
fn shard_count_is_a_power_of_two_up_to_512() {
    let l: Loader<u8> = LoaderBuilder::with_cpus(1).with_num_shards(0).build();
    assert_eq!(l.shard_count(), 1);
    let l: Loader<u8> = LoaderBuilder::with_cpus(1).with_num_shards(3).build();
    assert_eq!(l.shard_count(), 4);
    let l: Loader<u8> = LoaderBuilder::with_cpus(1).with_num_shards(64).build();
    assert_eq!(l.shard_count(), 64);
    let l: Loader<u8> = LoaderBuilder::with_cpus(1).with_num_shards(1000).build();
    assert_eq!(l.shard_count(), 512);
    assert_eq!(l.shard_index(515), 3);
    let default: Loader<u8> = LoaderBuilder::with_cpus(3).build();
    assert_eq!(default.shard_count(), 32);
    let mut b: LoaderBuilder<u8> = Loader::builder();
    b.set_num_shards(5).add(7);
    let l = b.build();
    assert_eq!(l.shard_count(), 8);
    assert_eq!(l.sources_in_order(), &[7]);
}

#[test]
fn path_relative_to_root() {
    assert_eq!(relative_to("/a/b/c", "/a/d"), "../b/c");
    assert_eq!(relative_to("/a/b", "/a/b"), "");
    assert_eq!(relative_to("/a/b/c", "/a"), "b/c");
    assert_eq!(relative_to("/x/./y//z/", "/x"), "y/z");
}

#[test]
fn loading_errors_convert_and_render() {
    assert!(matches!(Error::from(SourceError::NotFound), Error::NotFound));
    let e = Error::from(SourceError::Error(Report::new("disk".to_string())));
    assert_eq!(e.message(), "Source error: disk");
    assert_eq!(e.debug_message(), "Error::Source(disk)");
    assert_eq!(e.source().map(|r| r.message().to_string()), Some("disk".to_string()));
    assert_eq!(Error::NotFound.message(), "Asset not found");
    assert!(Error::SpawnError.source().is_none());
    assert_eq!(source_message(SourceError::NotFound), "Asset not found");
    assert!(matches!(SourceError::from_read_failure(true, "x".to_string()), SourceError::NotFound));
}

#[test]
fn keys_compare_by_type_and_value() {
    let id = AssetId::new(4).unwrap();
    let k = IdKey::new(1, id);
    assert!(k.eq_key(1, id));
    assert!(!k.eq_key(2, id));
    let p = PathKey::new(1, "a".to_string());
    assert!(p.eq_key(1, "a"));
    assert!(!p.eq_key(1, "b"));
}

#[test]
fn derived_decoder_tries_json_first() {
    assert_eq!(first_info_encoding(0), InfoEncoding::Bincode);
    assert_eq!(first_info_encoding(5), InfoEncoding::Json);
    assert_eq!(after_json_error(true), InfoStep::Decode(InfoEncoding::Bincode));
    assert_eq!(after_json_error(false), InfoStep::FailJson);
    assert_eq!(PassthroughFormat.decode(vec![1, 2]), vec![1, 2]);
}

#[test]
fn default_builder_requests_eight_shards_per_cpu() {
    let b: LoaderBuilder<u8> = LoaderBuilder::new();
    let l = b.build();
    let n = l.shard_count();
    assert!(n >= 8 && n <= 512 && n.is_power_of_two());
}
