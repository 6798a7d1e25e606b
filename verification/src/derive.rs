//! What `derive(Asset)` and `derive(AssetField)` decide about a struct: the
//! arguments of its `asset` attributes, the plan of each field, the names of the
//! generated types and the shape of the generated implementations. The input is
//! the struct as token trees; writing out the generated code is left to the
//! macro front end.
use vstd::prelude::*;
use vstd::string::StrSliceExecFns;

use crate::text::{decimal_chars, push_char, push_decimal, push_str, str_eq};

verus! {

/// A token tree of an attribute's arguments.
#[derive(Debug)]
pub enum TokenTree {
    Ident(String),
    Punct(char),
    /// A string literal, by its value.
    Str(String),
    /// Any other literal, by its text.
    Literal(String),
    /// A group delimited by parentheses.
    Parens(Vec<TokenTree>),
    /// A group delimited by brackets or braces.
    Group(Vec<TokenTree>),
}

/// Why a derive is refused.
#[derive(Clone, Copy, Debug, PartialEq, Eq, Structural)]
pub enum DeriveError {
    ExpectedIdent,
    ExpectedEq,
    ExpectedString,
    ExpectedParens,
    ExpectedAs,
    ExpectedType,
    ExpectedEnd,
    UnexpectedNameIdent,
    UnexpectedFieldIdent,
    NotAStruct,
    TwoFieldAttributes,
    MissingName,
    NameNotAccepted,
}

pub open spec fn derive_error_text(e: DeriveError) -> Seq<char> {
    match e {
        DeriveError::ExpectedIdent => "expected identifier"@,
        DeriveError::ExpectedEq => "expected `=`"@,
        DeriveError::ExpectedString => "expected string literal"@,
        DeriveError::ExpectedParens => "expected parentheses"@,
        DeriveError::ExpectedAs => "expected `as`"@,
        DeriveError::ExpectedType => "expected type"@,
        DeriveError::ExpectedEnd => "Expected end of arguments"@,
        DeriveError::UnexpectedNameIdent => "Unexpected ident. Expected: 'name'"@,
        DeriveError::UnexpectedFieldIdent => "Unexpected ident. Expected: 'external' or 'container'"@,
        DeriveError::NotAStruct => "Only structs are currently supported by derive(Asset) macro"@,
        DeriveError::TwoFieldAttributes => "Only one of two attributes 'external' or 'container' can be specified"@,
        DeriveError::MissingName => "`derive(Asset)` requires `asset(name = \"<name>\")` attribute"@,
        DeriveError::NameNotAccepted => "`derive(AssetField)` does not accept `asset(name = \"<name>\")` attribute"@,
    }
}

impl DeriveError {
    /// The message the macro reports.
    pub fn message(&self) -> (r: &'static str)
        ensures
            r@ == derive_error_text(*self),
    {
        match self {
            DeriveError::ExpectedIdent => "expected identifier",
            DeriveError::ExpectedEq => "expected `=`",
            DeriveError::ExpectedString => "expected string literal",
            DeriveError::ExpectedParens => "expected parentheses",
            DeriveError::ExpectedAs => "expected `as`",
            DeriveError::ExpectedType => "expected type",
            DeriveError::ExpectedEnd => "Expected end of arguments",
            DeriveError::UnexpectedNameIdent => "Unexpected ident. Expected: 'name'",
            DeriveError::UnexpectedFieldIdent => "Unexpected ident. Expected: 'external' or 'container'",
            DeriveError::NotAStruct => "Only structs are currently supported by derive(Asset) macro",
            DeriveError::TwoFieldAttributes => "Only one of two attributes 'external' or 'container' can be specified",
            DeriveError::MissingName => "`derive(Asset)` requires `asset(name = \"<name>\")` attribute",
            DeriveError::NameNotAccepted => "`derive(AssetField)` does not accept `asset(name = \"<name>\")` attribute",
        }
    }
}

pub open spec fn is_ascii_alpha(c: char) -> bool {
    (97 <= c as u32 <= 122) || (65 <= c as u32 <= 90)
}

pub open spec fn is_ascii_digit(c: char) -> bool {
    48 <= c as u32 <= 57
}

/// The upper case of an ASCII letter; other characters are kept.
pub open spec fn ascii_upper(c: char) -> char {
    if 97 <= c as u32 <= 122 {
        ((c as u32) - 32) as char
    } else {
        c
    }
}

/// Converting a prefix of an identifier from snake case: whether every
/// character so far is an ASCII letter, digit or underscore, the text so far,
/// and whether the next letter starts a word.
pub open spec fn pascal_state(cs: Seq<char>) -> (bool, Seq<char>, bool)
    decreases cs.len(),
{
    if cs.len() == 0 {
        (true, Seq::empty(), true)
    } else {
        let prev = pascal_state(cs.drop_last());
        let c = cs.last();
        if !prev.0 {
            prev
        } else if is_ascii_alpha(c) {
            (true, prev.1.push(if prev.2 { ascii_upper(c) } else { c }), false)
        } else if is_ascii_digit(c) {
            (true, prev.1.push(c), true)
        } else if c == '_' {
            (true, prev.1, true)
        } else {
            (false, prev.1, prev.2)
        }
    }
}

/// An identifier in snake case turned into Pascal case: underscores are
/// dropped and the letter after one (or after a digit, or at the start) is upper
/// case. An identifier with any other character is kept as it is.
pub open spec fn snake_to_pascal_spec(s: Seq<char>) -> Seq<char> {
    if pascal_state(s).0 {
        pascal_state(s).1
    } else {
        s
    }
}

proof fn lemma_pascal_failure_stays(cs: Seq<char>, k: int)
    requires
        0 <= k <= cs.len(),
        !pascal_state(cs.take(k)).0,
    ensures
        !pascal_state(cs).0,
    decreases cs.len() - k,
{
    if k == cs.len() {
        assert(cs.take(k) =~= cs);
    } else {
        assert(cs.take(k + 1).drop_last() =~= cs.take(k));
        lemma_pascal_failure_stays(cs, k + 1);
    }
}

/// Whether the Pascal case of a snake-case identifier is no identifier at all:
/// empty (as for `__`) or starting with a digit (as for `_1`). No type can be
/// named so, and the macro cannot go on with such a name.
pub open spec fn pascal_not_ident(s: Seq<char>) -> bool {
    pascal_state(s).0 && (pascal_state(s).1.len() == 0 || is_ascii_digit(pascal_state(s).1[0]))
}

/// Converts an identifier from snake case to Pascal case.
pub fn snake_to_pascal(input: &str) -> (r: String)
    requires
        !pascal_not_ident(input@),
    ensures
        r@ == snake_to_pascal_spec(input@),
{
    let n = input.unicode_len();
    let mut out = String::new();
    let mut upper = true;
    let mut i: usize = 0;
    assert(input@.take(0) =~= Seq::<char>::empty());
    while i < n
        invariant
            n == input@.len(),
            i <= n,
            pascal_state(input@.take(i as int)) == (true, out@, upper),
        decreases n - i,
    {
        let c = input.get_char(i);
        assert(input@.take(i as int + 1).drop_last() =~= input@.take(i as int));
        assert(input@.take(i as int + 1).last() == c);
        let code = c as u32;
        if (97 <= code && code <= 122) || (65 <= code && code <= 90) {
            if upper && code >= 97 {
                let u = ((code - 32) as u8) as char;
                assert(u == ascii_upper(c));
                push_char(&mut out, u);
            } else {
                push_char(&mut out, c);
            }
            upper = false;
        } else if 48 <= code && code <= 57 {
            push_char(&mut out, c);
            upper = true;
        } else if code == 95 {
            upper = true;
        } else {
            proof {
                lemma_pascal_failure_stays(input@, i as int + 1);
            }
            return input.to_owned();
        }
        i = i + 1;
    }
    assert(input@.take(n as int) =~= input@);
    out
}

/// The name given by a struct's `asset(name = "...")` attribute.
pub open spec fn name_arg_spec(args: Seq<TokenTree>) -> Result<String, DeriveError> {
    if args.len() == 0 || !(args[0] is Ident) {
        Err(DeriveError::ExpectedIdent)
    } else if args[0]->Ident_0@ != "name"@ {
        Err(DeriveError::UnexpectedNameIdent)
    } else if args.len() < 2 || !(args[1] matches TokenTree::Punct(c) && c == '=') {
        Err(DeriveError::ExpectedEq)
    } else if args.len() < 3 || !(args[2] is Str) {
        Err(DeriveError::ExpectedString)
    } else if args.len() > 3 {
        Err(DeriveError::ExpectedEnd)
    } else {
        Ok(args[2]->Str_0)
    }
}

/// The name given by a struct's `asset` attributes, in order: the first
/// refusal, or else the last name given.
pub open spec fn names_spec(attrs: Seq<Seq<TokenTree>>) -> Result<Option<String>, DeriveError>
    decreases attrs.len(),
{
    if attrs.len() == 0 {
        Ok(None)
    } else {
        match names_spec(attrs.drop_last()) {
            Err(e) => Err(e),
            Ok(_) => match name_arg_spec(attrs.last()) {
                Err(e) => Err(e),
                Ok(n) => Ok(Some(n)),
            },
        }
    }
}

/// Parses the arguments of a struct's `asset` attribute: `name = "<name>"`.
pub fn name_arg(args: Vec<TokenTree>) -> (r: Result<String, DeriveError>)
    ensures
        r == name_arg_spec(args@),
{
    let mut args = args;
    if args.len() == 0 {
        return Err(DeriveError::ExpectedIdent);
    }
    let is_name = match &args[0] {
        TokenTree::Ident(i) => str_eq(i.as_str(), "name"),
        _ => {
            return Err(DeriveError::ExpectedIdent);
        },
    };
    if !is_name {
        return Err(DeriveError::UnexpectedNameIdent);
    }
    if args.len() < 2 {
        return Err(DeriveError::ExpectedEq);
    }
    match &args[1] {
        TokenTree::Punct(c) => {
            if *c != '=' {
                return Err(DeriveError::ExpectedEq);
            }
        },
        _ => {
            return Err(DeriveError::ExpectedEq);
        },
    }
    if args.len() < 3 {
        return Err(DeriveError::ExpectedString);
    }
    if !matches!(args[2], TokenTree::Str(_)) {
        return Err(DeriveError::ExpectedString);
    }
    if args.len() > 3 {
        return Err(DeriveError::ExpectedEnd);
    }
    let ghost a = args@;
    let last = args.remove(2);
    match last {
        TokenTree::Str(name) => {
            assert(name == a[2]->Str_0);
            Ok(name)
        },
        _ => Err(DeriveError::ExpectedString),
    }
}

/// The views of the arguments of several attributes.
pub open spec fn attrs_view(attrs: Seq<Vec<TokenTree>>) -> Seq<Seq<TokenTree>> {
    attrs.map_values(|a: Vec<TokenTree>| a@)
}

/// Parses the name that a struct's `asset` attributes give.
pub fn names(attrs: Vec<Vec<TokenTree>>) -> (r: Result<Option<String>, DeriveError>)
    ensures
        r == names_spec(attrs_view(attrs@)),
{
    let ghost all = attrs_view(attrs@);
    let mut rest = attrs;
    let mut name: Option<String> = None;
    let mut i: usize = 0;
    let n = rest.len();
    assert(all.take(0) =~= Seq::<Seq<TokenTree>>::empty());
    while rest.len() > 0
        invariant
            all == attrs_view(attrs@),
            n == all.len(),
            i + rest@.len() == n,
            forall|j: int| 0 <= j < rest@.len() ==> #[trigger] rest@[j]@ == all[i + j],
            names_spec(all.take(i as int)) == Ok::<Option<String>, DeriveError>(name),
        decreases rest.len(),
    {
        let args = rest.remove(0);
        assert(args@ == all[i as int]);
        assert(all.take(i as int + 1).drop_last() =~= all.take(i as int));
        assert(all.take(i as int + 1).last() == all[i as int]);
        match name_arg(args) {
            Err(e) => {
                proof {
                    assert(names_spec(all.take(i as int + 1)) == Err::<Option<String>, DeriveError>(e));
                    lemma_names_error_stays(all, i as int + 1);
                }
                return Err(e);
            },
            Ok(nm) => {
                name = Some(nm);
            },
        }
        i = i + 1;
    }
    assert(all.take(n as int) =~= all);
    Ok(name)
}

proof fn lemma_names_error_stays(attrs: Seq<Seq<TokenTree>>, k: int)
    requires
        0 <= k <= attrs.len(),
        names_spec(attrs.take(k)) is Err,
    ensures
        names_spec(attrs) == names_spec(attrs.take(k)),
    decreases attrs.len() - k,
{
    if k == attrs.len() {
        assert(attrs.take(k) =~= attrs);
    } else {
        assert(attrs.take(k + 1).drop_last() =~= attrs.take(k));
        lemma_names_error_stays(attrs, k + 1);
    }
}

/// How a field marked with an `asset` attribute is loaded: as an asset of its
/// own, by identifier, or as a container of such fields.
#[derive(Clone, Copy, Debug, PartialEq, Eq, Structural)]
pub enum FieldKind {
    External,
    Container,
}

/// What a field's `asset` attribute says: its kind and, optionally, the type
/// it is loaded as before it is converted into the field's type.
#[derive(Debug)]
pub struct FieldAttr {
    pub kind: FieldKind,
    pub as_type: Option<Vec<TokenTree>>,
}

pub open spec fn field_kind_of(i: Seq<char>) -> Option<FieldKind> {
    if i == "external"@ {
        Some(FieldKind::External)
    } else if i == "container"@ {
        Some(FieldKind::Container)
    } else {
        None
    }
}

pub open spec fn opt_tokens_view(o: Option<Vec<TokenTree>>) -> Option<Seq<TokenTree>> {
    match o {
        Some(v) => Some(v@),
        None => None,
    }
}

/// A field's `asset` attribute: `external` or `container`, optionally followed
/// by `(as <type>)`.
pub open spec fn field_attr_spec(args: Seq<TokenTree>) -> Result<
    (FieldKind, Option<Seq<TokenTree>>),
    DeriveError,
> {
    if args.len() == 0 || !(args[0] is Ident) {
        Err(DeriveError::ExpectedIdent)
    } else {
        match field_kind_of(args[0]->Ident_0@) {
            None => Err(DeriveError::UnexpectedFieldIdent),
            Some(kind) => if args.len() == 1 {
                Ok((kind, None))
            } else if !(args[1] is Parens) {
                Err(DeriveError::ExpectedParens)
            } else if args[1]->Parens_0@.len() == 0 || !(args[1]->Parens_0@[0] matches TokenTree::Ident(
                a,
            ) && a@ == "as"@) {
                Err(DeriveError::ExpectedAs)
            } else if args[1]->Parens_0@.len() == 1 {
                Err(DeriveError::ExpectedType)
            } else if args.len() > 2 {
                Err(DeriveError::ExpectedEnd)
            } else {
                Ok((kind, Some(args[1]->Parens_0@.skip(1))))
            },
        }
    }
}

/// Parses the arguments of a field's `asset` attribute.
pub fn field_attr(args: Vec<TokenTree>) -> (r: Result<FieldAttr, DeriveError>)
    ensures
        match r {
            Ok(a) => field_attr_spec(args@) == Ok::<(FieldKind, Option<Seq<TokenTree>>), DeriveError>(
                (a.kind, opt_tokens_view(a.as_type)),
            ),
            Err(e) => field_attr_spec(args@) == Err::<(FieldKind, Option<Seq<TokenTree>>), DeriveError>(e),
        },
{
    let ghost a0 = args@;
    let mut args = args;
    if args.len() == 0 {
        return Err(DeriveError::ExpectedIdent);
    }
    let kind = match &args[0] {
        TokenTree::Ident(i) => {
            if str_eq(i.as_str(), "external") {
                FieldKind::External
            } else if str_eq(i.as_str(), "container") {
                FieldKind::Container
            } else {
                return Err(DeriveError::UnexpectedFieldIdent);
            }
        },
        _ => {
            return Err(DeriveError::ExpectedIdent);
        },
    };
    if args.len() == 1 {
        return Ok(FieldAttr { kind, as_type: None });
    }
    if !matches!(args[1], TokenTree::Parens(_)) {
        return Err(DeriveError::ExpectedParens);
    }
    let n = args.len();
    let group = args.remove(1);
    match group {
        TokenTree::Parens(inner) => {
            let mut inner = inner;
            assert(inner@ == a0[1]->Parens_0@);
            if inner.len() == 0 {
                return Err(DeriveError::ExpectedAs);
            }
            let is_as = match &inner[0] {
                TokenTree::Ident(a) => str_eq(a.as_str(), "as"),
                _ => false,
            };
            if !is_as {
                return Err(DeriveError::ExpectedAs);
            }
            if inner.len() == 1 {
                return Err(DeriveError::ExpectedType);
            }
            if n > 2 {
                return Err(DeriveError::ExpectedEnd);
            }
            let ty = inner.split_off(1);
            assert(ty@ =~= a0[1]->Parens_0@.skip(1));
            Ok(FieldAttr { kind, as_type: Some(ty) })
        },
        _ => Err(DeriveError::ExpectedParens),
    }
}

/// What the macro generates for a field: the field as it is, with its `serde`
/// attributes, or, for a field
/// with an `asset` attribute, its kind, the type it is loaded as, the name of
/// its error variants and the messages of its decode and build errors.
#[derive(Debug)]
pub enum FieldPlan {
    /// The field as it is, with its `serde` attributes.
    Plain { serde_attrs: Vec<Vec<TokenTree>> },
    Asset {
        kind: FieldKind,
        as_type: Option<Vec<TokenTree>>,
        variant: String,
        decode_text: String,
        build_text: String,
    },
}

pub open spec fn plan_view(p: FieldPlan) -> Option<
    (FieldKind, Option<Seq<TokenTree>>, Seq<char>, Seq<char>, Seq<char>),
> {
    match p {
        FieldPlan::Plain { .. } => None,
        FieldPlan::Asset { kind, as_type, variant, decode_text, build_text } => Some(
            (kind, opt_tokens_view(as_type), variant@, decode_text@, build_text@),
        ),
    }
}

/// A field of the struct: its name (none in a tuple struct), the arguments
/// of each of its `asset` attributes, and the arguments of each of its `serde`
/// attributes.
#[derive(Debug)]
pub struct FieldInput {
    pub ident: Option<String>,
    pub asset_attrs: Vec<Vec<TokenTree>>,
    pub serde_attrs: Vec<Vec<TokenTree>>,
}

pub open spec fn field_input_view(f: FieldInput) -> (Option<Seq<char>>, Seq<Seq<TokenTree>>) {
    (
        match f.ident {
            Some(i) => Some(i@),
            None => None,
        },
        attrs_view(f.asset_attrs@),
    )
}

/// How a field is named in messages: by its name, or by its position.
pub open spec fn field_label(ident: Option<Seq<char>>, index: nat) -> Seq<char> {
    match ident {
        Some(i) => i,
        None => decimal_chars(index),
    }
}

/// Name of the error variants of a field.
pub open spec fn variant_name(ident: Option<Seq<char>>, index: nat) -> Seq<char> {
    match ident {
        Some(i) => snake_to_pascal_spec(i) + "Error"@,
        None => "Field"@ + decimal_chars(index) + "Error"@,
    }
}

pub open spec fn decode_text(ident: Option<Seq<char>>, index: nat) -> Seq<char> {
    "Failed to decode asset field '"@ + field_label(ident, index) + "'"@
}

pub open spec fn build_text(ident: Option<Seq<char>>, index: nat) -> Seq<char> {
    match ident {
        Some(_) => "Failed to build asset field '"@ + field_label(ident, index) + "'"@,
        None => "Failed to load asset field '"@ + field_label(ident, index) + "'"@,
    }
}

/// The plan of the field at `index`: plain without an `asset` attribute, as its
/// attribute says with one, refused with more.
pub open spec fn field_plan_spec(
    ident: Option<Seq<char>>,
    index: nat,
    attrs: Seq<Seq<TokenTree>>,
) -> Result<Option<(FieldKind, Option<Seq<TokenTree>>, Seq<char>, Seq<char>, Seq<char>)>, DeriveError> {
    if attrs.len() == 0 {
        Ok(None)
    } else if attrs.len() == 1 {
        match field_attr_spec(attrs[0]) {
            Err(e) => Err(e),
            Ok((kind, ty)) => Ok(
                Some(
                    (
                        kind,
                        ty,
                        variant_name(ident, index),
                        decode_text(ident, index),
                        build_text(ident, index),
                    ),
                ),
            ),
        }
    } else {
        Err(DeriveError::TwoFieldAttributes)
    }
}

fn push_label(s: &mut String, ident: &Option<String>, index: usize)
    ensures
        final(s)@ == old(s)@ + field_label(
            match ident {
                Some(i) => Some(i@),
                None => None,
            },
            index as nat,
        ),
{
    match ident {
        Some(i) => push_str(s, i.as_str()),
        None => push_decimal(s, index as u64),
    }
}

/// Whether planning a field needs the Pascal case of a name that has none: a
/// named field with one well-formed `asset` attribute whose name turns into no
/// identifier.
pub open spec fn plan_needs_bad_name(ident: Option<Seq<char>>, attrs: Seq<Seq<TokenTree>>) -> bool {
    &&& attrs.len() == 1
    &&& field_attr_spec(attrs[0]) is Ok
    &&& ident matches Some(i) && pascal_not_ident(i)
}

/// Plans the field at `index`.
pub fn field_plan(field: FieldInput, index: usize) -> (r: Result<FieldPlan, DeriveError>)
    requires
        !plan_needs_bad_name(field_input_view(field).0, field_input_view(field).1),
    ensures
        ({
            let (ident, attrs) = field_input_view(field);
            match r {
                Ok(p) => field_plan_spec(ident, index as nat, attrs) == Ok::<
                    Option<(FieldKind, Option<Seq<TokenTree>>, Seq<char>, Seq<char>, Seq<char>)>,
                    DeriveError,
                >(plan_view(p)),
                Err(e) => field_plan_spec(ident, index as nat, attrs) == Err::<
                    Option<(FieldKind, Option<Seq<TokenTree>>, Seq<char>, Seq<char>, Seq<char>)>,
                    DeriveError,
                >(e),
            }
        }),
        r matches Ok(FieldPlan::Plain { serde_attrs }) ==> serde_attrs@ == field.serde_attrs@,
{
    let ghost (ident_v, attrs_v) = field_input_view(field);
    let FieldInput { ident, asset_attrs, serde_attrs } = field;
    let mut asset_attrs = asset_attrs;
    if asset_attrs.len() == 0 {
        return Ok(FieldPlan::Plain { serde_attrs });
    }
    if asset_attrs.len() > 1 {
        return Err(DeriveError::TwoFieldAttributes);
    }
    let args = asset_attrs.remove(0);
    assert(args@ == attrs_v[0]);
    let attr = match field_attr(args) {
        Ok(a) => a,
        Err(e) => {
            return Err(e);
        },
    };
    let mut variant = String::new();
    match &ident {
        Some(i) => {
            let p = snake_to_pascal(i.as_str());
            push_str(&mut variant, p.as_str());
        },
        None => {
            push_str(&mut variant, "Field");
            push_decimal(&mut variant, index as u64);
        },
    }
    push_str(&mut variant, "Error");
    let mut decode = String::new();
    push_str(&mut decode, "Failed to decode asset field '");
    push_label(&mut decode, &ident, index);
    push_str(&mut decode, "'");
    let mut build = String::new();
    match &ident {
        Some(_) => push_str(&mut build, "Failed to build asset field '"),
        None => push_str(&mut build, "Failed to load asset field '"),
    }
    push_label(&mut build, &ident, index);
    push_str(&mut build, "'");
    proof {
        assert(variant@ =~= variant_name(ident_v, index as nat));
        assert(decode@ =~= decode_text(ident_v, index as nat));
        assert(build@ =~= build_text(ident_v, index as nat));
    }
    Ok(
        FieldPlan::Asset {
            kind: attr.kind,
            as_type: attr.as_type,
            variant,
            decode_text: decode,
            build_text: build,
        },
    )
}

/// The fields of a struct.
#[derive(Clone, Copy, Debug, PartialEq, Eq, Structural)]
pub enum Shape {
    Unit,
    Unnamed,
    Named,
}

/// What the derive is applied to.
#[derive(Clone, Copy, Debug, PartialEq, Eq, Structural)]
pub enum Data {
    Struct(Shape),
    Enum,
    Union,
}

/// The item a derive is applied to: its name, the arguments of its `asset`
/// attributes, what it is, and its fields in order.
#[derive(Debug)]
pub struct DeriveInput {
    pub ident: String,
    pub asset_attrs: Vec<Vec<TokenTree>>,
    pub serde_attrs: Vec<Vec<TokenTree>>,
    pub data: Data,
    pub fields: Vec<FieldInput>,
}

pub type PlanView = Option<(FieldKind, Option<Seq<TokenTree>>, Seq<char>, Seq<char>, Seq<char>)>;

/// The plans of the fields in order, or the first field's refusal.
pub open spec fn fields_spec(fields: Seq<(Option<Seq<char>>, Seq<Seq<TokenTree>>)>) -> Result<
    Seq<PlanView>,
    DeriveError,
>
    decreases fields.len(),
{
    if fields.len() == 0 {
        Ok(Seq::empty())
    } else {
        match fields_spec(fields.drop_last()) {
            Err(e) => Err(e),
            Ok(plans) => match field_plan_spec(
                fields.last().0,
                (fields.len() - 1) as nat,
                fields.last().1,
            ) {
                Err(e) => Err(e),
                Ok(p) => Ok(plans.push(p)),
            },
        }
    }
}

/// What the derive macros learn from the item: whether any field has an
/// `asset` attribute, the name given, the struct's `serde` attributes (kept for
/// the generated info type), the shape of the struct, the names of the
/// generated types, and the plan of each field.
#[derive(Debug)]
pub struct Parsed {
    pub complex: bool,
    pub name: Option<String>,
    pub serde_attrs: Vec<Vec<TokenTree>>,
    pub shape: Shape,
    pub info: String,
    pub futures: String,
    pub decoded: String,
    pub decode_error: String,
    pub build_error: String,
    pub fields: Vec<FieldPlan>,
}

pub open spec fn plans_view(plans: Seq<FieldPlan>) -> Seq<PlanView> {
    plans.map_values(|p: FieldPlan| plan_view(p))
}

/// Whether any field has an `asset` attribute.
pub open spec fn any_asset_field(plans: Seq<PlanView>) -> bool {
    exists|j: int| 0 <= j < plans.len() && (#[trigger] plans[j]) is Some
}

pub open spec fn inputs_view(fields: Seq<FieldInput>) -> Seq<(Option<Seq<char>>, Seq<Seq<TokenTree>>)> {
    fields.map_values(|f: FieldInput| field_input_view(f))
}

proof fn lemma_fields_error_stays(fields: Seq<(Option<Seq<char>>, Seq<Seq<TokenTree>>)>, k: int)
    requires
        0 <= k <= fields.len(),
        fields_spec(fields.take(k)) is Err,
    ensures
        fields_spec(fields) == fields_spec(fields.take(k)),
    decreases fields.len() - k,
{
    if k == fields.len() {
        assert(fields.take(k) =~= fields);
    } else {
        assert(fields.take(k + 1).drop_last() =~= fields.take(k));
        lemma_fields_error_stays(fields, k + 1);
    }
}

proof fn lemma_any_push(plans: Seq<PlanView>, p: PlanView)
    ensures
        any_asset_field(plans.push(p)) == (any_asset_field(plans) || p is Some),
{
    let q = plans.push(p);
    if any_asset_field(plans) {
        let j = choose|j: int| 0 <= j < plans.len() && (#[trigger] plans[j]) is Some;
        assert(q[j] is Some);
    }
    if p is Some {
        assert(q[plans.len() as int] is Some);
    }
    if any_asset_field(q) {
        let j = choose|j: int| 0 <= j < q.len() && (#[trigger] q[j]) is Some;
        if j < plans.len() {
            assert(plans[j] is Some);
        }
    }
}

fn ident_with(ident: &str, suffix: &str) -> (r: String)
    ensures
        r@ == ident@ + suffix@,
{
    let mut s = String::new();
    push_str(&mut s, ident);
    push_str(&mut s, suffix);
    s
}

/// Whether planning the fields in order reaches, before any refusal, a field
/// whose error variant cannot be named.
pub open spec fn fields_need_bad_name(fields: Seq<(Option<Seq<char>>, Seq<Seq<TokenTree>>)>) -> bool {
    exists|j: int|
        0 <= j < fields.len() && fields_spec(fields.take(j)) is Ok && #[trigger] plan_needs_bad_name(
            fields[j].0,
            fields[j].1,
        )
}

/// Parses the item of a derive: the name from the item's `asset` attributes
/// (refusing a malformed one), that the item is a struct, then the plan of each
/// field in order (refusing the first malformed one).
pub fn parse(input: DeriveInput) -> (r: Result<Parsed, DeriveError>)
    requires
        names_spec(attrs_view(input.asset_attrs@)) is Ok && input.data is Struct
            ==> !fields_need_bad_name(inputs_view(input.fields@)),
    ensures
        match names_spec(attrs_view(input.asset_attrs@)) {
            Err(e) => r == Err::<Parsed, DeriveError>(e),
            Ok(name) => match input.data {
                Data::Struct(shape) => match fields_spec(inputs_view(input.fields@)) {
                    Err(e) => r == Err::<Parsed, DeriveError>(e),
                    Ok(plans) => r matches Ok(p) && {
                        &&& p.name == name
                        &&& p.serde_attrs@ == input.serde_attrs@
                        &&& p.fields@.len() == input.fields@.len()
                        &&& forall|j: int|
                            0 <= j < p.fields@.len() ==> (#[trigger] p.fields@[j] matches FieldPlan::Plain {
                                serde_attrs,
                            } ==> serde_attrs@ == input.fields@[j].serde_attrs@)
                        &&& p.shape == shape
                        &&& plans_view(p.fields@) == plans
                        &&& p.complex == any_asset_field(plans)
                        &&& p.info@ == input.ident@ + "Info"@
                        &&& p.futures@ == input.ident@ + "Futures"@
                        &&& p.decoded@ == input.ident@ + "Decoded"@
                        &&& p.decode_error@ == input.ident@ + "DecodeError"@
                        &&& p.build_error@ == input.ident@ + "BuildError"@
                    },
                },
                _ => r == Err::<Parsed, DeriveError>(DeriveError::NotAStruct),
            },
        },
{
    let ghost all = inputs_view(input.fields@);
    let DeriveInput { ident, asset_attrs, serde_attrs, data, fields } = input;
    let name = match names(asset_attrs) {
        Ok(n) => n,
        Err(e) => {
            return Err(e);
        },
    };
    let shape = match data {
        Data::Struct(shape) => shape,
        _ => {
            return Err(DeriveError::NotAStruct);
        },
    };
    let mut rest = fields;
    let n = rest.len();
    let mut plans: Vec<FieldPlan> = Vec::new();
    let mut complex = false;
    let mut i: usize = 0;
    assert(all.take(0) =~= Seq::<(Option<Seq<char>>, Seq<Seq<TokenTree>>)>::empty());
    assert(plans_view(plans@) =~= Seq::<PlanView>::empty());
    while rest.len() > 0
        invariant
            all == inputs_view(input.fields@),
            names_spec(attrs_view(input.asset_attrs@)) == Ok::<Option<String>, DeriveError>(name),
            input.data == Data::Struct(shape),
            n == all.len(),
            i + rest@.len() == n,
            forall|j: int| 0 <= j < rest@.len() ==> field_input_view(#[trigger] rest@[j]) == all[i + j],
            forall|j: int| 0 <= j < rest@.len() ==> (#[trigger] rest@[j]).serde_attrs@ == input.fields@[i + j].serde_attrs@,
            input.fields@.len() == n,
            !fields_need_bad_name(all),
            forall|j: int|
                0 <= j < plans@.len() ==> (#[trigger] plans@[j] matches FieldPlan::Plain { serde_attrs } ==> serde_attrs@
                    == input.fields@[j].serde_attrs@),
            fields_spec(all.take(i as int)) == Ok::<Seq<PlanView>, DeriveError>(plans_view(plans@)),
            plans@.len() == i,
            complex == any_asset_field(plans_view(plans@)),
        decreases rest.len(),
    {
        let field = rest.remove(0);
        assert(field_input_view(field) == all[i as int]);
        assert(field.serde_attrs@ == input.fields@[i as int].serde_attrs@);
        assert(all.take(i as int + 1).drop_last() =~= all.take(i as int));
        assert(all.take(i as int + 1).last() == all[i as int]);
        assert(!plan_needs_bad_name(all[i as int].0, all[i as int].1));
        match field_plan(field, i) {
            Err(e) => {
                proof {
                    assert(fields_spec(all.take(i as int + 1)) == Err::<Seq<PlanView>, DeriveError>(e));
                    lemma_fields_error_stays(all, i as int + 1);
                }
                return Err(e);
            },
            Ok(p) => {
                let is_asset = match &p {
                    FieldPlan::Plain { .. } => false,
                    _ => true,
                };
                let ghost old_plans = plans_view(plans@);
                let ghost pv = plan_view(p);
                assert(pv is Some == is_asset);
                plans.push(p);
                proof {
                    assert(plans_view(plans@) =~= old_plans.push(pv));
                    lemma_any_push(old_plans, pv);
                }
                complex = complex || is_asset;
            },
        }
        i = i + 1;
    }
    assert(all.take(n as int) =~= all);
    Ok(
        Parsed {
            complex,
            name,
            serde_attrs,
            shape,
            info: ident_with(ident.as_str(), "Info"),
            futures: ident_with(ident.as_str(), "Futures"),
            decoded: ident_with(ident.as_str(), "Decoded"),
            decode_error: ident_with(ident.as_str(), "DecodeError"),
            build_error: ident_with(ident.as_str(), "BuildError"),
            fields: plans,
        },
    )
}

/// Which implementations a derive generates: for a unit struct, a trivial
/// asset (or field) built from nothing; for a struct with a field marked
/// `asset`, an asset (or field) decoded in stages, each marked field loaded on
/// its own; otherwise a trivial asset (or field) deserialized whole.
#[derive(Clone, Copy, Debug, PartialEq, Eq, Structural)]
pub enum Generated {
    Unit,
    Staged,
    Whole,
}

pub open spec fn generated_for(shape: Shape, complex: bool) -> Generated {
    match shape {
        Shape::Unit => Generated::Unit,
        _ => if complex {
            Generated::Staged
        } else {
            Generated::Whole
        },
    }
}

/// What the generated code does with one field of the struct.
#[derive(Debug)]
pub enum FieldCode {
    /// The field is moved from the deserialized info into the struct as it is.
    Copied,
    /// The field is loaded. Decoding hands the info's field to the `kind` of
    /// asset field that it is loaded as (the type given by `as` when
    /// `converted`, else the field's own type); its failure becomes the
    /// `variant` of the generated decode error, with `decode_text`. Building
    /// builds the decoded value the same way, its failure becoming the `variant`
    /// of the generated build error, with `build_text`, and when `converted`
    /// turns the result into the field's type by `From`.
    Loaded { kind: FieldKind, converted: bool, variant: String, decode_text: String, build_text: String },
}

pub open spec fn code_view(c: FieldCode) -> Option<(FieldKind, bool, Seq<char>, Seq<char>, Seq<char>)> {
    match c {
        FieldCode::Copied => None,
        FieldCode::Loaded { kind, converted, variant, decode_text, build_text } => Some(
            (kind, converted, variant@, decode_text@, build_text@),
        ),
    }
}

/// The code generated for a field of a given plan.
pub open spec fn code_of_plan(p: PlanView) -> Option<(FieldKind, bool, Seq<char>, Seq<char>, Seq<char>)> {
    match p {
        None => None,
        Some((kind, ty, variant, decode_text, build_text)) => Some(
            (kind, ty is Some, variant, decode_text, build_text),
        ),
    }
}

/// The code generated for the fields of a struct of a given shape: none for
/// a unit struct, else one for each field, in order.
pub open spec fn codes_match(shape: Shape, plans: Seq<FieldPlan>, codes: Seq<FieldCode>) -> bool {
    if shape is Unit {
        codes.len() == 0
    } else {
        &&& codes.len() == plans.len()
        &&& forall|j: int|
            0 <= j < codes.len() ==> code_view(#[trigger] codes[j]) == code_of_plan(plan_view(plans[j]))
    }
}

fn field_codes(shape: Shape, plans: &Vec<FieldPlan>) -> (r: Vec<FieldCode>)
    ensures
        codes_match(shape, plans@, r@),
{
    let mut codes: Vec<FieldCode> = Vec::new();
    if let Shape::Unit = shape {
        return codes;
    }
    let mut i: usize = 0;
    while i < plans.len()
        invariant
            !(shape is Unit),
            i <= plans@.len(),
            codes@.len() == i,
            forall|j: int|
                0 <= j < i ==> code_view(#[trigger] codes@[j]) == code_of_plan(plan_view(plans@[j])),
        decreases plans.len() - i,
    {
        let code = match &plans[i] {
            FieldPlan::Plain { .. } => FieldCode::Copied,
            FieldPlan::Asset { kind, as_type, variant, decode_text, build_text } => FieldCode::Loaded {
                kind: *kind,
                converted: as_type.is_some(),
                variant: variant.clone(),
                decode_text: decode_text.clone(),
                build_text: build_text.clone(),
            },
        };
        codes.push(code);
        i = i + 1;
    }
    codes
}

/// What `derive(Asset)` generates: which implementations, the name that the
/// generated `name()` returns, and the code for each field. The generated
/// decoder reads the info type as [`crate::asset::first_info_encoding`] and
/// [`crate::asset::after_json_error`] decide.
#[derive(Debug)]
pub struct AssetImpl {
    pub generated: Generated,
    pub name: String,
    pub fields: Vec<FieldCode>,
}

/// What `derive(Asset)` generates: it requires a name. Tuple structs are not
/// supported yet.
pub fn asset_impl(parsed: &Parsed) -> (r: Result<AssetImpl, DeriveError>)
    requires
        !(parsed.shape is Unnamed && parsed.name is Some),
    ensures
        match parsed.name {
            None => r matches Err(e) && e == DeriveError::MissingName,
            Some(n) => r matches Ok(a) && a.generated == generated_for(parsed.shape, parsed.complex)
                && a.name@ == n@ && codes_match(parsed.shape, parsed.fields@, a.fields@),
        },
{
    let name = match &parsed.name {
        None => {
            return Err(DeriveError::MissingName);
        },
        Some(n) => n.clone(),
    };
    let generated = match parsed.shape {
        Shape::Unit => Generated::Unit,
        _ => if parsed.complex {
            Generated::Staged
        } else {
            Generated::Whole
        },
    };
    Ok(AssetImpl { generated, name, fields: field_codes(parsed.shape, &parsed.fields) })
}

/// What `derive(AssetField)` generates: which implementations, and the code
/// for each field.
#[derive(Debug)]
pub struct FieldImpl {
    pub generated: Generated,
    pub fields: Vec<FieldCode>,
}

/// What `derive(AssetField)` generates: it refuses a name. Tuple structs are
/// not supported yet.
pub fn asset_field_impl(parsed: &Parsed) -> (r: Result<FieldImpl, DeriveError>)
    requires
        !(parsed.shape is Unnamed && parsed.name is None),
    ensures
        match parsed.name {
            Some(_) => r matches Err(e) && e == DeriveError::NameNotAccepted,
            None => r matches Ok(f) && f.generated == generated_for(parsed.shape, parsed.complex)
                && codes_match(parsed.shape, parsed.fields@, f.fields@),
        },
{
    if parsed.name.is_some() {
        return Err(DeriveError::NameNotAccepted);
    }
    let generated = match parsed.shape {
        Shape::Unit => Generated::Unit,
        _ => if parsed.complex {
            Generated::Staged
        } else {
            Generated::Whole
        },
    };
    Ok(FieldImpl { generated, fields: field_codes(parsed.shape, &parsed.fields) })
}

} // verus!
