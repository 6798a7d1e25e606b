use goods::derive::{
    asset_field_impl, asset_impl, field_attr, name_arg, names, parse, snake_to_pascal, Data,
    DeriveError, DeriveInput, FieldCode, FieldInput, FieldKind, FieldPlan, Generated, Shape,
    TokenTree,
};

fn ident(s: &str) -> TokenTree {
    TokenTree::Ident(s.to_string())
}

fn name_attr(name: &str) -> Vec<TokenTree> {
    vec![ident("name"), TokenTree::Punct('='), TokenTree::Str(name.to_string())]
}

#[test]
fn snake_case_becomes_pascal_case() {
    assert_eq!(snake_to_pascal("foo_bar"), "FooBar");
    assert_eq!(snake_to_pascal("foo"), "Foo");
    assert_eq!(snake_to_pascal("a1b"), "A1B");
    assert_eq!(snake_to_pascal("__x__y"), "XY");
    assert_eq!(snake_to_pascal("Bar"), "Bar");
    assert_eq!(snake_to_pascal("a_1"), "A1");
}

#[test]
fn identifier_with_other_characters_is_kept() {
    assert_eq!(snake_to_pascal("r#type"), "r#type");
    assert_eq!(snake_to_pascal("caf\u{e9}_x"), "caf\u{e9}_x");
}

#[test]
fn name_attribute_is_read() {
    assert_eq!(name_arg(name_attr("bar")).unwrap(), "bar");
    assert_eq!(name_arg(vec![]).unwrap_err(), DeriveError::ExpectedIdent);
    assert_eq!(name_arg(vec![ident("nam")]).unwrap_err(), DeriveError::UnexpectedNameIdent);
    assert_eq!(name_arg(vec![ident("name")]).unwrap_err(), DeriveError::ExpectedEq);
    assert_eq!(
        name_arg(vec![ident("name"), TokenTree::Punct('=')]).unwrap_err(),
        DeriveError::ExpectedString
    );
    let mut extra = name_attr("bar");
    extra.push(TokenTree::Punct(','));
    assert_eq!(name_arg(extra).unwrap_err(), DeriveError::ExpectedEnd);
}

#[test]
fn last_name_is_kept_and_first_error_wins() {
    assert_eq!(
        names(vec![name_attr("a"), name_attr("b")]).unwrap(),
        Some("b".to_string())
    );
    assert_eq!(names(vec![]).unwrap(), None);
    assert_eq!(
        names(vec![vec![ident("x")], vec![]]).unwrap_err(),
        DeriveError::UnexpectedNameIdent
    );
}

#[test]
fn field_attribute_is_read() {
    let a = field_attr(vec![ident("external")]).unwrap();
    assert_eq!(a.kind, FieldKind::External);
    assert!(a.as_type.is_none());
    let a = field_attr(vec![
        ident("container"),
        TokenTree::Parens(vec![ident("as"), ident("Vec"), TokenTree::Punct('<'), ident("u8"), TokenTree::Punct('>')]),
    ])
    .unwrap();
    assert_eq!(a.kind, FieldKind::Container);
    assert_eq!(a.as_type.unwrap().len(), 4);
    assert_eq!(field_attr(vec![ident("inline")]).unwrap_err(), DeriveError::UnexpectedFieldIdent);
    assert_eq!(
        field_attr(vec![ident("external"), ident("as")]).unwrap_err(),
        DeriveError::ExpectedParens
    );
    assert_eq!(
        field_attr(vec![ident("external"), TokenTree::Parens(vec![ident("u8")])]).unwrap_err(),
        DeriveError::ExpectedAs
    );
    assert_eq!(
        field_attr(vec![ident("external"), TokenTree::Parens(vec![ident("as")])]).unwrap_err(),
        DeriveError::ExpectedType
    );
}

fn input(data: Data, fields: Vec<FieldInput>) -> DeriveInput {
    DeriveInput {
        ident: "AssetStruct".to_string(),
        asset_attrs: vec![name_attr("assetstruct")],
        serde_attrs: vec![vec![ident("rename_all"), TokenTree::Punct('='), TokenTree::Str("camelCase".to_string())]],
        data,
        fields,
    }
}

#[test]
fn struct_with_marked_fields_is_loaded_in_stages() {
    let fields = vec![
        FieldInput { ident: Some("foo".to_string()), asset_attrs: vec![], serde_attrs: vec![] },
        FieldInput { ident: Some("bar_baz".to_string()), asset_attrs: vec![vec![ident("external")]], serde_attrs: vec![] },
        FieldInput { ident: Some("baz".to_string()), asset_attrs: vec![vec![ident("container")]], serde_attrs: vec![] },
    ];
    let parsed = parse(input(Data::Struct(Shape::Named), fields)).unwrap();
    assert!(parsed.complex);
    assert_eq!(parsed.name.as_deref(), Some("assetstruct"));
    assert_eq!(parsed.info, "AssetStructInfo");
    assert_eq!(parsed.futures, "AssetStructFutures");
    assert_eq!(parsed.decoded, "AssetStructDecoded");
    assert_eq!(parsed.decode_error, "AssetStructDecodeError");
    assert_eq!(parsed.build_error, "AssetStructBuildError");
    assert!(matches!(parsed.fields[0], FieldPlan::Plain { .. }));
    match &parsed.fields[1] {
        FieldPlan::Asset { kind, variant, decode_text, build_text, .. } => {
            assert_eq!(*kind, FieldKind::External);
            assert_eq!(variant, "BarBazError");
            assert_eq!(decode_text, "Failed to decode asset field 'bar_baz'");
            assert_eq!(build_text, "Failed to build asset field 'bar_baz'");
        }
        FieldPlan::Plain { .. } => panic!("field is marked"),
    }
    let generated = asset_impl(&parsed).unwrap();
    assert_eq!(generated.generated, Generated::Staged);
    assert_eq!(generated.fields.len(), 3);
    assert!(matches!(generated.fields[0], FieldCode::Copied));
    match &generated.fields[1] {
        FieldCode::Loaded { kind, converted, variant, decode_text, build_text } => {
            assert_eq!(*kind, FieldKind::External);
            assert!(!*converted);
            assert_eq!(variant, "BarBazError");
            assert_eq!(decode_text, "Failed to decode asset field 'bar_baz'");
            assert_eq!(build_text, "Failed to build asset field 'bar_baz'");
        }
        FieldCode::Copied => panic!("field is loaded"),
    }
    match &generated.fields[2] {
        FieldCode::Loaded { kind, variant, .. } => {
            assert_eq!(*kind, FieldKind::Container);
            assert_eq!(variant, "BazError");
        }
        FieldCode::Copied => panic!("field is loaded"),
    }
    assert_eq!(asset_field_impl(&parsed).unwrap_err(), DeriveError::NameNotAccepted);
}

#[test]
fn field_loaded_as_another_type_is_converted() {
    let as_image = vec![
        ident("external"),
        TokenTree::Parens(vec![ident("as"), ident("Image")]),
    ];
    let fields = vec![FieldInput {
        ident: Some("texture".to_string()),
        asset_attrs: vec![as_image],
        serde_attrs: vec![],
    }];
    let parsed = parse(input(Data::Struct(Shape::Named), fields)).unwrap();
    match &asset_impl(&parsed).unwrap().fields[0] {
        FieldCode::Loaded { converted, variant, .. } => {
            assert!(*converted);
            assert_eq!(variant, "TextureError");
        }
        FieldCode::Copied => panic!("field is loaded"),
    }
}

#[test]
fn tuple_fields_are_named_by_position() {
    let fields = vec![
        FieldInput { ident: None, asset_attrs: vec![], serde_attrs: vec![] },
        FieldInput { ident: None, asset_attrs: vec![vec![ident("external")]], serde_attrs: vec![] },
    ];
    let parsed = parse(input(Data::Struct(Shape::Unnamed), fields)).unwrap();
    match &parsed.fields[1] {
        FieldPlan::Asset { variant, decode_text, build_text, .. } => {
            assert_eq!(variant, "Field1Error");
            assert_eq!(decode_text, "Failed to decode asset field '1'");
            assert_eq!(build_text, "Failed to load asset field '1'");
        }
        FieldPlan::Plain { .. } => panic!("field is marked"),
    }
}

#[test]
fn unit_and_plain_structs_are_trivial() {
    let unit = parse(input(Data::Struct(Shape::Unit), vec![])).unwrap();
    assert!(!unit.complex);
    assert_eq!(asset_impl(&unit).unwrap().generated, Generated::Unit);
    let plain = parse(input(
        Data::Struct(Shape::Named),
        vec![FieldInput { ident: Some("foo".to_string()), asset_attrs: vec![], serde_attrs: vec![] }],
    ))
    .unwrap();
    let whole = asset_impl(&plain).unwrap();
    assert_eq!(whole.generated, Generated::Whole);
    assert_eq!(whole.fields.len(), 1);
    assert!(matches!(whole.fields[0], FieldCode::Copied));
    assert!(asset_impl(&unit).unwrap().fields.is_empty());
}

#[test]
fn derive_refusals() {
    assert_eq!(parse(input(Data::Enum, vec![])).unwrap_err(), DeriveError::NotAStruct);
    let two = vec![FieldInput {
        ident: Some("x".to_string()),
        asset_attrs: vec![vec![ident("external")], vec![ident("container")]],
        serde_attrs: vec![],
    }];
    assert_eq!(
        parse(input(Data::Struct(Shape::Named), two)).unwrap_err(),
        DeriveError::TwoFieldAttributes
    );
    let no_name = DeriveInput {
        ident: "Baz".to_string(),
        asset_attrs: vec![],
        serde_attrs: vec![],
        data: Data::Struct(Shape::Unit),
        fields: vec![],
    };
    let parsed = parse(no_name).unwrap();
    assert_eq!(asset_impl(&parsed).unwrap_err(), DeriveError::MissingName);
    let field_impl = asset_field_impl(&parsed).unwrap();
    assert_eq!(field_impl.generated, Generated::Unit);
    assert!(field_impl.fields.is_empty());
    assert_eq!(
        DeriveError::MissingName.message(),
        "`derive(Asset)` requires `asset(name = \"<name>\")` attribute"
    );
}

#[test]
fn serde_attributes_and_name_are_kept() {
    let rename = vec![ident("rename"), TokenTree::Punct('='), TokenTree::Str("x".to_string())];
    let fields = vec![FieldInput {
        ident: Some("foo".to_string()),
        asset_attrs: vec![],
        serde_attrs: vec![rename, vec![ident("default")]],
    }];
    let parsed = parse(input(Data::Struct(Shape::Named), fields)).unwrap();
    assert_eq!(parsed.serde_attrs.len(), 1);
    match &parsed.fields[0] {
        FieldPlan::Plain { serde_attrs } => assert_eq!(serde_attrs.len(), 2),
        _ => panic!("plain field"),
    }
    let generated = asset_impl(&parsed).unwrap();
    assert_eq!(generated.name, "assetstruct");
    assert_eq!(generated.generated, Generated::Whole);
}
