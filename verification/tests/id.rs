use goods::id::{AssetId, IntErrorKind, ParseAssetIdError, TypedAssetId};

#[test]
fn hex_text_parses_to_its_value() {
    assert_eq!(AssetId::from_str("1f").unwrap().get(), 31);
    assert_eq!(AssetId::from_str("FF").unwrap().get(), 255);
    assert_eq!(AssetId::from_str("+a").unwrap().get(), 10);
    assert_eq!(AssetId::from_str("ffffffffffffffff").unwrap().get(), u64::MAX);
}

#[test]
fn zero_is_no_identifier() {
    assert_eq!(AssetId::from_str("0").unwrap_err(), ParseAssetIdError::ZeroId);
    assert_eq!(AssetId::from_str("000").unwrap_err(), ParseAssetIdError::ZeroId);
    assert!(AssetId::new(0).is_none());
    assert!(TypedAssetId::<u8>::new(0).is_none());
}

#[test]
fn malformed_hex_text_is_refused() {
    assert_eq!(
        AssetId::from_str("").unwrap_err(),
        ParseAssetIdError::ParseIntError(IntErrorKind::Empty)
    );
    assert_eq!(
        AssetId::from_str("+").unwrap_err(),
        ParseAssetIdError::ParseIntError(IntErrorKind::InvalidDigit)
    );
    assert_eq!(
        AssetId::from_str("-1").unwrap_err(),
        ParseAssetIdError::ParseIntError(IntErrorKind::InvalidDigit)
    );
    assert_eq!(
        AssetId::from_str("1g").unwrap_err(),
        ParseAssetIdError::ParseIntError(IntErrorKind::InvalidDigit)
    );
    assert_eq!(
        AssetId::from_str("10000000000000000").unwrap_err(),
        ParseAssetIdError::ParseIntError(IntErrorKind::PosOverflow)
    );
}

#[test]
fn identifier_renders_in_hex() {
    let id = AssetId::new(0xbeef).unwrap();
    assert_eq!(id.to_lower_hex(), "beef");
    assert_eq!(id.to_upper_hex(), "BEEF");
    assert_eq!(id.to_hex(false, true), "0xbeef");
    assert_eq!(id.to_hex(true, true), "0xBEEF");
}

#[test]
fn identifier_text_round_trips() {
    for v in [1u64, 9, 10, 255, 0x1234_5678_9abc_def0, u64::MAX] {
        let id = AssetId::new(v).unwrap();
        assert_eq!(AssetId::from_str(&id.to_lower_hex()).unwrap().get(), v);
        assert_eq!(AssetId::from_str(&id.to_upper_hex()).unwrap().get(), v);
    }
}

#[test]
fn typed_identifier_names_its_type() {
    let id = TypedAssetId::<u8>::new(255).unwrap();
    assert_eq!(id.describe("image", false, false), "image(ff)");
    assert_eq!(id.describe("image", true, true), "image(0xFF)");
}

#[test]
fn serialized_text_pads_to_sixteen_characters() {
    let id = AssetId::new(0x1f).unwrap();
    let text = id.to_serialized_text();
    assert_eq!(text.len(), 16);
    assert_eq!(text, format!("1f{}", "\0".repeat(14)));
    // The padding does not read back as digits.
    assert_eq!(
        AssetId::from_str(&text).unwrap_err(),
        ParseAssetIdError::ParseIntError(IntErrorKind::InvalidDigit)
    );
}

#[test]
fn full_width_identifier_round_trips_through_serialized_text() {
    let id = AssetId::new(0xfedc_ba98_7654_3210).unwrap();
    let text = id.to_serialized_text();
    assert_eq!(text, "fedcba9876543210");
    assert_eq!(AssetId::from_str(&text).unwrap().get(), 0xfedc_ba98_7654_3210);
}
