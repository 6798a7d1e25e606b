//! Asset identifiers: non-zero 64-bit values written as hexadecimal text.
use core::marker::PhantomData;
use vstd::prelude::*;
use vstd::utf8::*;

use crate::text::{push_char, push_str};

verus! {

/// Type for unique asset identification.
/// There are 2^64-1 valid values: zero is never an identifier.
#[derive(Clone, Copy, PartialEq, Eq, Structural, PartialOrd, Ord, Hash, Debug)]
pub struct AssetId {
    value: u64,
}

impl AssetId {
    #[verifier::type_invariant]
    spec fn nonzero(self) -> bool {
        self.value != 0
    }
}

impl View for AssetId {
    type V = u64;

    closed spec fn view(&self) -> u64 {
        self.value
    }
}

/// Why text could not be read as a 64-bit unsigned number (the kinds std's
/// `u64::from_str_radix` reports for unsigned targets).
#[derive(Clone, Copy, Debug, PartialEq, Eq, Structural)]
pub enum IntErrorKind {
    /// The text is empty.
    Empty,
    /// The text holds a byte that is not a digit of the radix.
    InvalidDigit,
    /// The number does not fit in 64 bits.
    PosOverflow,
}

/// Error of reading an [`AssetId`] from text.
#[derive(Clone, Copy, Debug, PartialEq, Eq, Structural)]
pub enum ParseAssetIdError {
    /// The text is not a hexadecimal 64-bit number.
    ParseIntError(IntErrorKind),
    /// The text denotes zero, which is not an identifier.
    ZeroId,
}

/// Value of a hexadecimal digit byte (`0-9`, `a-f`, `A-F`).
pub open spec fn hex_digit_value(b: u8) -> Option<nat> {
    if 48 <= b <= 57 {
        Some((b - 48) as nat)
    } else if 97 <= b <= 102 {
        Some((b - 87) as nat)
    } else if 65 <= b <= 70 {
        Some((b - 55) as nat)
    } else {
        None
    }
}

/// Reads a sequence of hexadecimal digit bytes left to right, as std does:
/// the first byte that is not a digit gives `InvalidDigit`, and the first
/// digit that takes the value past `u64::MAX` gives `PosOverflow`.
pub open spec fn parse_hex_digits(digits: Seq<u8>) -> Result<nat, IntErrorKind>
    decreases digits.len(),
{
    if digits.len() == 0 {
        Ok(0)
    } else {
        match parse_hex_digits(digits.drop_last()) {
            Err(e) => Err(e),
            Ok(acc) => match hex_digit_value(digits.last()) {
                None => Err(IntErrorKind::InvalidDigit),
                Some(d) => if acc * 16 + d > u64::MAX {
                    Err(IntErrorKind::PosOverflow)
                } else {
                    Ok(acc * 16 + d)
                },
            },
        }
    }
}

/// `u64::from_str_radix(_, 16)` on the bytes of a string: empty text is
/// `Empty`, a lone sign is `InvalidDigit`, one leading `+` is skipped.
pub open spec fn parse_hex_u64(bytes: Seq<u8>) -> Result<nat, IntErrorKind> {
    if bytes.len() == 0 {
        Err(IntErrorKind::Empty)
    } else if bytes.len() == 1 && (bytes[0] == 43u8 || bytes[0] == 45u8) {
        Err(IntErrorKind::InvalidDigit)
    } else if bytes[0] == 43u8 {
        parse_hex_digits(bytes.drop_first())
    } else {
        parse_hex_digits(bytes)
    }
}

/// What reading an identifier from the given bytes yields: the value, or why not.
pub open spec fn parse_asset_id(bytes: Seq<u8>) -> Result<u64, ParseAssetIdError> {
    match parse_hex_u64(bytes) {
        Err(kind) => Err(ParseAssetIdError::ParseIntError(kind)),
        Ok(v) => if v == 0 {
            Err(ParseAssetIdError::ZeroId)
        } else {
            Ok(v as u64)
        },
    }
}

/// The hexadecimal digit character for `d < 16`.
pub open spec fn hex_char(d: nat, upper: bool) -> char {
    if d < 10 {
        ((d + 48) as u8) as char
    } else if upper {
        ((d + 55) as u8) as char
    } else {
        ((d + 87) as u8) as char
    }
}

/// Hexadecimal rendering of `v` without leading zeros (`"0"` for zero).
pub open spec fn hex_chars(v: nat, upper: bool) -> Seq<char>
    decreases v,
{
    if v < 16 {
        seq![hex_char(v, upper)]
    } else {
        hex_chars(v / 16, upper).push(hex_char(v % 16, upper))
    }
}

/// The text of an identifier in a given style: `0x` in front when `alternate`.
pub open spec fn hex_text(v: nat, upper: bool, alternate: bool) -> Seq<char> {
    if alternate {
        seq!['0', 'x'] + hex_chars(v, upper)
    } else {
        hex_chars(v, upper)
    }
}

fn push_hex(s: &mut String, v: u64, upper: bool)
    ensures
        final(s)@ == old(s)@ + hex_chars(v as nat, upper),
    decreases v,
{
    if v >= 16 {
        push_hex(s, v / 16, upper);
    }
    let d = (v % 16) as u8;
    let c = if d < 10 {
        (d + 48) as char
    } else if upper {
        (d + 55) as char
    } else {
        (d + 87) as char
    };
    push_char(s, c);
    proof {
        assert(c == hex_char((v % 16) as nat, upper));
        if v >= 16 {
            assert(hex_chars(v as nat, upper) == hex_chars((v / 16) as nat, upper).push(
                hex_char((v % 16) as nat, upper),
            ));
        }
    }
}

impl AssetId {
    /// Returns the identifier with the given value, or `None` for zero.
    pub fn new(value: u64) -> (r: Option<AssetId>)
        ensures
            r is Some <==> value != 0,
            r matches Some(id) ==> id@ == value,
    {
        if value == 0 {
            None
        } else {
            Some(AssetId { value })
        }
    }

    /// The identifier's value.
    pub fn get(&self) -> (r: u64)
        ensures
            r == self@,
            r != 0,
    {
        proof {
            use_type_invariant(self);
        }
        self.value
    }

    /// Reads an identifier written in hexadecimal, as `u64::from_str_radix(s, 16)`
    /// does, and refuses zero.
    pub fn from_str(s: &str) -> (r: Result<AssetId, ParseAssetIdError>)
        ensures
            r matches Ok(id) ==> parse_asset_id(encode_utf8(s@)) == Ok::<u64, ParseAssetIdError>(id@),
            r matches Err(e) ==> parse_asset_id(encode_utf8(s@)) == Err::<u64, ParseAssetIdError>(e),
    {
        let bytes = s.as_bytes();
        let n = bytes.len();
        let ghost all = bytes@;
        if n == 0 {
            return Err(ParseAssetIdError::ParseIntError(IntErrorKind::Empty));
        }
        if n == 1 && (bytes[0] == 43u8 || bytes[0] == 45u8) {
            return Err(ParseAssetIdError::ParseIntError(IntErrorKind::InvalidDigit));
        }
        let start: usize = if bytes[0] == 43u8 { 1 } else { 0 };
        let ghost digits = all.subrange(start as int, n as int);
        assert(start == 1 ==> digits =~= all.drop_first());
        assert(start == 0 ==> digits =~= all);
        assert(all == encode_utf8(s@));
        assert(parse_hex_u64(all) == parse_hex_digits(digits));
        let mut acc: u64 = 0;
        let mut i: usize = start;
        while i < n
            invariant
                start <= i <= n,
                n == all.len(),
                bytes@ == all,
                digits == all.subrange(start as int, n as int),
                all == encode_utf8(s@),
                parse_hex_u64(all) == parse_hex_digits(digits),
                parse_hex_digits(all.subrange(start as int, i as int)) == Ok::<nat, IntErrorKind>(
                    acc as nat,
                ),
            decreases n - i,
        {
            let b = bytes[i];
            let ghost prefix = all.subrange(start as int, i as int + 1);
            assert(prefix.drop_last() =~= all.subrange(start as int, i as int));
            assert(prefix.last() == b);
            let d: u64 = if 48 <= b && b <= 57 {
                (b - 48) as u64
            } else if 97 <= b && b <= 102 {
                (b - 87) as u64
            } else if 65 <= b && b <= 70 {
                (b - 55) as u64
            } else {
                proof {
                    assert(hex_digit_value(b) is None);
                    assert(parse_hex_digits(prefix) == Err::<nat, IntErrorKind>(IntErrorKind::InvalidDigit));
                    assert(digits.subrange(0, (i - start + 1) as int) =~= prefix);
                    lemma_parse_error_persists(digits, (i - start + 1) as nat);
                }
                return Err(ParseAssetIdError::ParseIntError(IntErrorKind::InvalidDigit));
            };
            assert(hex_digit_value(b) == Some(d as nat));
            if acc > 0x0fff_ffff_ffff_ffffu64 {
                proof {
                    assert(acc * 16 + d > u64::MAX);
                    assert(parse_hex_digits(prefix) == Err::<nat, IntErrorKind>(IntErrorKind::PosOverflow));
                    assert(digits.subrange(0, (i - start + 1) as int) =~= prefix);
                    lemma_parse_error_persists(digits, (i - start + 1) as nat);
                }
                return Err(ParseAssetIdError::ParseIntError(IntErrorKind::PosOverflow));
            }
            acc = acc * 16 + d;
            i = i + 1;
        }
        assert(all.subrange(start as int, n as int) == digits);
        if acc == 0 {
            Err(ParseAssetIdError::ZeroId)
        } else {
            Ok(AssetId { value: acc })
        }
    }

    /// Lower-case hexadecimal text of the identifier, without prefix
    /// (its `Display`, `Debug` and `LowerHex` form).
    pub fn to_lower_hex(&self) -> (r: String)
        ensures
            r@ == hex_chars(self@ as nat, false),
    {
        self.to_hex(false, false)
    }

    /// Upper-case hexadecimal text of the identifier, without prefix (its `UpperHex` form).
    pub fn to_upper_hex(&self) -> (r: String)
        ensures
            r@ == hex_chars(self@ as nat, true),
    {
        self.to_hex(true, false)
    }

    /// Hexadecimal text of the identifier; `upper` picks the digit case and
    /// `alternate` puts `0x` in front, as the `#` flag of `{:x}` and `{:X}` does.
    pub fn to_hex(&self, upper: bool, alternate: bool) -> (r: String)
        ensures
            r@ == hex_text(self@ as nat, upper, alternate),
    {
        let mut s = String::new();
        if alternate {
            push_str(&mut s, "0x");
            proof {
                reveal_strlit("0x");
            }
        }
        push_hex(&mut s, self.value, upper);
        s
    }
}

/// Once reading fails on a prefix, reading any longer prefix fails the same way.
proof fn lemma_parse_error_persists(digits: Seq<u8>, k: nat)
    requires
        k <= digits.len(),
        parse_hex_digits(digits.subrange(0, k as int)) is Err,
    ensures
        parse_hex_digits(digits) == parse_hex_digits(digits.subrange(0, k as int)),
    decreases digits.len() - k,
{
    if k < digits.len() {
        let next = digits.subrange(0, k as int + 1);
        assert(next.drop_last() =~= digits.subrange(0, k as int));
        lemma_parse_error_persists(digits, k + 1);
    } else {
        assert(digits.subrange(0, k as int) =~= digits);
    }
}

proof fn lemma_hex_char_value(d: nat, upper: bool)
    requires
        d < 16,
    ensures
        hex_digit_value(hex_char(d, upper) as u8) == Some(d),
        hex_char(d, upper) <= '\u{7f}',
{
    let c = hex_char(d, upper);
    if d < 10 {
        let b = (d + 48) as u8;
        assert(c == b as char);
        assert(c as u8 == b);
    } else if upper {
        let b = (d + 55) as u8;
        assert(c == b as char);
        assert(c as u8 == b);
    } else {
        let b = (d + 87) as u8;
        assert(c == b as char);
        assert(c as u8 == b);
    }
}

proof fn lemma_hex_chars_ascii(v: nat, upper: bool)
    ensures
        is_ascii_chars(hex_chars(v, upper)),
        hex_chars(v, upper).len() >= 1,
        forall|i: int|
            0 <= i < hex_chars(v, upper).len() ==> hex_digit_value(
                #[trigger] hex_chars(v, upper)[i] as u8,
            ) is Some,
    decreases v,
{
    lemma_hex_char_value(v % 16, upper);
    if v >= 16 {
        lemma_hex_chars_ascii(v / 16, upper);
        let cs = hex_chars(v, upper);
        let prev = hex_chars(v / 16, upper);
        assert(cs == prev.push(hex_char(v % 16, upper)));
        assert forall|i: int| 0 <= i < cs.len() implies hex_digit_value(#[trigger] cs[i] as u8) is Some && cs[i] <= '\u{7f}' by {
            if i < prev.len() {
                assert(cs[i] == prev[i]);
            }
        }
    }
}

/// Reading the hexadecimal rendering of `v` gives back `v`.
proof fn lemma_parse_hex_chars(v: nat, upper: bool)
    requires
        v <= u64::MAX,
    ensures
        parse_hex_digits(encode_utf8(hex_chars(v, upper))) == Ok::<nat, IntErrorKind>(v),
    decreases v,
{
    let cs = hex_chars(v, upper);
    lemma_hex_chars_ascii(v, upper);
    is_ascii_chars_encode_utf8(cs);
    let bs = encode_utf8(cs);
    lemma_hex_char_value(v % 16, upper);
    if v < 16 {
        assert(bs.drop_last() =~= Seq::<u8>::empty());
        assert(parse_hex_digits(bs.drop_last()) == Ok::<nat, IntErrorKind>(0));
        assert(bs.last() == cs[0] as u8);
    } else {
        let prev = hex_chars(v / 16, upper);
        lemma_hex_chars_ascii(v / 16, upper);
        is_ascii_chars_encode_utf8(prev);
        lemma_parse_hex_chars(v / 16, upper);
        assert(cs == prev.push(hex_char(v % 16, upper)));
        assert(bs.drop_last() =~= encode_utf8(prev));
        assert(bs.last() == hex_char(v % 16, upper) as u8);
        assert(v == (v / 16) * 16 + v % 16);
    }
}

/// Law: the text of an identifier, in lower or upper case and without prefix,
/// reads back as the same identifier.
pub proof fn lemma_asset_id_text_round_trip(id: AssetId, upper: bool)
    requires
        id@ != 0,
    ensures
        parse_asset_id(encode_utf8(hex_chars(id@ as nat, upper))) == Ok::<u64, ParseAssetIdError>(
            id@,
        ),
{
    let cs = hex_chars(id@ as nat, upper);
    lemma_hex_chars_ascii(id@ as nat, upper);
    is_ascii_chars_encode_utf8(cs);
    lemma_parse_hex_chars(id@ as nat, upper);
    let bs = encode_utf8(cs);
    assert(hex_digit_value(cs[0] as u8) is Some);
    assert(bs[0] == cs[0] as u8);
}

/// `16^k`.
pub open spec fn pow16(k: nat) -> nat
    decreases k,
{
    if k == 0 {
        1
    } else {
        16 * pow16((k - 1) as nat)
    }
}

proof fn lemma_hex_chars_len(v: nat, k: nat, upper: bool)
    requires
        k >= 1,
    ensures
        v < pow16(k) ==> hex_chars(v, upper).len() <= k,
        v >= pow16((k - 1) as nat) ==> hex_chars(v, upper).len() >= k,
    decreases k,
{
    if v >= 16 {
        if k >= 2 {
            lemma_hex_chars_len(v / 16, (k - 1) as nat, upper);
            let p = pow16((k - 2) as nat);
            assert(v < 16 * pow16((k - 1) as nat) ==> v / 16 < pow16((k - 1) as nat)) by (nonlinear_arith);
            assert(v >= 16 * p ==> v / 16 >= p) by (nonlinear_arith);
        } else {
            assert(pow16(1) == 16) by {
                reveal_with_fuel(pow16, 2);
            }
        }
    } else {
        if k >= 2 {
            assert(pow16((k - 1) as nat) >= 16) by {
                lemma_pow16_grows((k - 1) as nat);
            }
        }
    }
}

proof fn lemma_pow16_grows(k: nat)
    requires
        k >= 1,
    ensures
        pow16(k) >= 16,
    decreases k,
{
    if k > 1 {
        lemma_pow16_grows((k - 1) as nat);
    } else {
        reveal_with_fuel(pow16, 2);
    }
}

/// The text an identifier is serialized as in human-readable formats: its
/// lower-case hexadecimal digits written at the start of a buffer of 16 zero
/// bytes, the whole buffer taken as text, so that an identifier with fewer than
/// 16 digits is followed by NUL characters.
pub open spec fn serialized_text(v: nat) -> Seq<char> {
    let digits = hex_chars(v, false);
    digits + Seq::new((16 - digits.len()) as nat, |i: int| '\0')
}

impl AssetId {
    /// The text the identifier is serialized as in human-readable formats.
    pub fn to_serialized_text(&self) -> (r: String)
        ensures
            r@ == serialized_text(self@ as nat),
    {
        proof {
            lemma_hex_chars_len(self@ as nat, 16, false);
            reveal_with_fuel(pow16, 17);
        }
        let mut s = self.to_lower_hex();
        let ghost digits = s@;
        let mut n = s.as_str().unicode_len();
        while n < 16
            invariant
                digits == hex_chars(self@ as nat, false),
                digits.len() <= 16,
                digits.len() <= n <= 16,
                s@.len() == n,
                s@ == digits + Seq::new((n - digits.len()) as nat, |i: int| '\0'),
            decreases 16 - n,
        {
            crate::text::push_char(&mut s, '\0');
            n = n + 1;
            assert(s@ =~= digits + Seq::new((n - digits.len()) as nat, |i: int| '\0'));
        }
        assert(s@ =~= serialized_text(self@ as nat));
        s
    }
}

/// Law: an identifier of 16 hexadecimal digits is read back from its
/// serialized text. (Shorter identifiers are followed by NUL characters, which
/// do not read as digits.)
pub proof fn lemma_serialized_text_round_trip(id: AssetId)
    requires
        id@ >= 0x1000_0000_0000_0000,
    ensures
        parse_asset_id(encode_utf8(serialized_text(id@ as nat))) == Ok::<u64, ParseAssetIdError>(id@),
{
    lemma_hex_chars_len(id@ as nat, 16, false);
    assert(pow16(16) == 0x1_0000_0000_0000_0000 && pow16(15) == 0x1000_0000_0000_0000) by {
        reveal_with_fuel(pow16, 17);
    }
    let digits = hex_chars(id@ as nat, false);
    assert(serialized_text(id@ as nat) =~= digits);
    lemma_asset_id_text_round_trip(id, false);
}

/// `AssetId` augmented with the type of asset it refers to.
pub struct TypedAssetId<A> {
    pub id: AssetId,
    pub marker: PhantomData<A>,
}

impl<A> Clone for TypedAssetId<A> {
    fn clone(&self) -> (r: Self)
        ensures
            r.id == self.id,
    {
        TypedAssetId { id: self.id, marker: PhantomData }
    }
}

impl<A> Copy for TypedAssetId<A> {

}

impl<A> TypedAssetId<A> {
    /// Returns the typed identifier with the given value, or `None` for zero.
    pub fn new(value: u64) -> (r: Option<Self>)
        ensures
            r is Some <==> value != 0,
            r matches Some(t) ==> t.id@ == value,
    {
        match AssetId::new(value) {
            None => None,
            Some(id) => Some(TypedAssetId { id, marker: PhantomData }),
        }
    }

    /// Text of the typed identifier: the asset type's name, then the identifier's
    /// hexadecimal text in brackets (the `Display`/`Debug`/`LowerHex`/`UpperHex` forms).
    pub fn describe(&self, name: &str, upper: bool, alternate: bool) -> (r: String)
        ensures
            r@ == name@ + seq!['('] + hex_text(self.id@ as nat, upper, alternate) + seq![')'],
    {
        let mut s = String::new();
        push_str(&mut s, name);
        push_char(&mut s, '(');
        let h = self.id.to_hex(upper, alternate);
        push_str(&mut s, h.as_str());
        push_char(&mut s, ')');
        s
    }
}

} // verus!
