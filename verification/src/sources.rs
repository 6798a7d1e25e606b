//! The sources that come with the loader: data URLs, files, HTTP and the
//! browser's fetch. What each decides from a key stands here; the reads
//! themselves are done by the driver.
use vstd::prelude::*;
use vstd::string::StrSliceExecFns;
use vstd::utf8::*;

use crate::error::{Report, SourceError};
use crate::id::hex_digit_value;
use crate::text::{decimal_chars, first_byte_from, find_byte, push_decimal, push_str, strip_prefix};

verus! {

/// Why base64 text could not be decoded (the variants of `base64::DecodeError`).
#[derive(Clone, Copy, Debug, PartialEq, Eq, Structural)]
pub enum Base64Error {
    /// A byte outside the alphabet, at this offset.
    InvalidByte { offset: usize, byte: u8 },
    /// The length of the text is invalid.
    InvalidLength,
    /// The last symbol carries bits that would be discarded.
    InvalidLastSymbol { offset: usize, byte: u8 },
}

/// Text of a base64 decoding error, as the `base64` crate writes it.
pub open spec fn base64_error_text(e: Base64Error) -> Seq<char> {
    match e {
        Base64Error::InvalidByte { offset, byte } => "Invalid byte "@ + decimal_chars(byte as nat)
            + ", offset "@ + decimal_chars(offset as nat) + "."@,
        Base64Error::InvalidLength => "Encoded text cannot have a 6-bit remainder."@,
        Base64Error::InvalidLastSymbol { offset, byte } => "Invalid last symbol "@ + decimal_chars(
            byte as nat,
        ) + ", offset "@ + decimal_chars(offset as nat) + "."@,
    }
}

impl Base64Error {
    /// The error's text.
    pub fn message(&self) -> (r: String)
        ensures
            r@ == base64_error_text(*self),
    {
        let mut s = String::new();
        proof {
            reveal_strlit("Invalid byte ");
            reveal_strlit(", offset ");
            reveal_strlit(".");
            reveal_strlit("Encoded text cannot have a 6-bit remainder.");
            reveal_strlit("Invalid last symbol ");
        }
        match self {
            Base64Error::InvalidByte { offset, byte } => {
                push_str(&mut s, "Invalid byte ");
                push_decimal(&mut s, *byte as u64);
                push_str(&mut s, ", offset ");
                push_decimal(&mut s, *offset as u64);
                push_str(&mut s, ".");
            },
            Base64Error::InvalidLength => {
                push_str(&mut s, "Encoded text cannot have a 6-bit remainder.");
            },
            Base64Error::InvalidLastSymbol { offset, byte } => {
                push_str(&mut s, "Invalid last symbol ");
                push_decimal(&mut s, *byte as u64);
                push_str(&mut s, ", offset ");
                push_decimal(&mut s, *offset as u64);
                push_str(&mut s, ".");
            },
        }
        s
    }
}

/// What `base64::decode_config` returns for the URL-safe alphabet with padding,
/// trailing bits allowed.
pub uninterp spec fn base64_url_safe_decode(input: Seq<u8>) -> Result<Seq<u8>, Base64Error>;

/// Decodes base64 text with the URL-safe alphabet, allowing trailing bits
/// (`base64::decode_config(input, URL_SAFE.decode_allow_trailing_bits(true))`).
/// The result is the named function of the input; the crate panics when the
/// input length plus seven overflows, which `requires` rules out.
#[verifier::external_body]
fn decode_base64_url_safe(input: &[u8]) -> (r: Result<Vec<u8>, Base64Error>)
    requires
        input@.len() + 7 <= usize::MAX,
    ensures
        match r {
            Ok(v) => base64_url_safe_decode(input@) == Ok::<Seq<u8>, Base64Error>(v@),
            Err(e) => base64_url_safe_decode(input@) == Err::<Seq<u8>, Base64Error>(e),
        },
{
    match base64::decode_config(input, base64::URL_SAFE.decode_allow_trailing_bits(true)) {
        Ok(v) => Ok(v),
        Err(base64::DecodeError::InvalidByte(offset, byte)) => Err(Base64Error::InvalidByte { offset, byte }),
        Err(base64::DecodeError::InvalidLength) => Err(Base64Error::InvalidLength),
        Err(base64::DecodeError::InvalidLastSymbol(offset, byte)) => Err(Base64Error::InvalidLastSymbol { offset, byte }),
    }
}

/// The bytes of `data:`.
pub open spec fn data_scheme() -> Seq<u8> {
    seq![100u8, 97u8, 116u8, 97u8, 58u8]
}

/// Payload of a data URL: what follows the first comma after `data:`, or `None`
/// when the text is not a data URL or has no comma.
pub open spec fn data_url_payload(url: Seq<u8>) -> Option<Seq<u8>> {
    if url.len() >= 5 && url.subrange(0, 5) == data_scheme() {
        match first_byte_from(url, 44u8, 5) {
            Some(i) => Some(url.subrange(i + 1, url.len() as int)),
            None => None,
        }
    } else {
        None
    }
}

/// What a data-URL source returns for a decoding outcome.
pub open spec fn data_url_result(decoded: Result<Seq<u8>, Base64Error>) -> Result<
    Seq<u8>,
    Seq<char>,
> {
    match decoded {
        Ok(v) => Ok(v),
        Err(e) => Err(base64_error_text(e)),
    }
}

/// Quasi-source that decodes data directly from URLs with the `data:` scheme.
#[derive(Debug, Clone, Copy)]
pub struct DataUrlSource;

impl DataUrlSource {
    /// Reads the asset a data URL holds. Text that is not a data URL, or has no
    /// comma after `data:`, is not found here; otherwise what follows the comma
    /// is base64 decoded, and a decoding error is a source error.
    pub fn read(&self, url: &str) -> (r: Result<Vec<u8>, SourceError>)
        requires
            encode_utf8(url@).len() + 7 <= usize::MAX,
        ensures
            match data_url_payload(encode_utf8(url@)) {
                None => r matches Err(SourceError::NotFound),
                Some(payload) => match r {
                    Ok(v) => data_url_result(base64_url_safe_decode(payload)) == Ok::<
                        Seq<u8>,
                        Seq<char>,
                    >(v@),
                    Err(SourceError::Error(e)) => data_url_result(base64_url_safe_decode(payload))
                        == Err::<Seq<u8>, Seq<char>>(e@),
                    Err(SourceError::NotFound) => false,
                },
            },
    {
        let bytes = url.as_bytes();
        let n = bytes.len();
        if n < 5 || bytes[0] != 100u8 || bytes[1] != 97u8 || bytes[2] != 116u8 || bytes[3] != 97u8
            || bytes[4] != 58u8 {
            proof {
                if bytes@.len() >= 5 && bytes@.subrange(0, 5) == data_scheme() {
                    assert(bytes@.subrange(0, 5)[0] == bytes@[0]);
                    assert(bytes@.subrange(0, 5)[4] == bytes@[4]);
                }
            }
            return Err(SourceError::NotFound);
        }
        assert(bytes@.subrange(0, 5) =~= data_scheme());
        match find_byte(bytes, 44u8, 5) {
            None => Err(SourceError::NotFound),
            Some(comma) => {
                let payload = &bytes[comma + 1..n];
                let decoded = decode_base64_url_safe(payload);
                Self::read_outcome(decoded)
            },
        }
    }

    /// What the source returns for the outcome of decoding a data URL's payload:
    /// the bytes, or a source error with the decoding error's text.
    pub fn read_outcome(decoded: Result<Vec<u8>, Base64Error>) -> (r: Result<Vec<u8>, SourceError>)
        ensures
            match decoded {
                Ok(v) => r matches Ok(rv) && rv@ == v@,
                Err(e) => r matches Err(SourceError::Error(re)) && re@ == base64_error_text(e),
            },
    {
        match decoded {
            Ok(v) => Ok(v),
            Err(e) => Err(SourceError::Error(Report::new(e.message()))),
        }
    }
}

/// Percent-decoding of bytes as the `urlencoding` crate does it: `%` and two
/// hexadecimal digits become the byte they denote; any other `%` and every
/// other byte are kept as they are.
pub open spec fn percent_decode_bytes(b: Seq<u8>) -> Seq<u8>
    decreases b.len(),
{
    if b.len() == 0 {
        Seq::empty()
    } else if b[0] == 37u8 && b.len() >= 3 && hex_digit_value(b[1]) is Some && hex_digit_value(
        b[2],
    ) is Some {
        seq![(hex_digit_value(b[1])->0 * 16 + hex_digit_value(b[2])->0) as u8]
            + percent_decode_bytes(b.skip(3))
    } else {
        seq![b[0]] + percent_decode_bytes(b.skip(1))
    }
}

/// Decodes percent-encoded text (`urlencoding::decode`): the decoded bytes
/// read as UTF-8, or an error when they are not UTF-8. The error's text is
/// std's description of the UTF-8 error and is not stated here.
#[verifier::external_body]
fn percent_decode(data: &str) -> (r: Result<String, String>)
    ensures
        match r {
            Ok(s) => valid_utf8(percent_decode_bytes(encode_utf8(data@))) && s@ == decode_utf8(
                percent_decode_bytes(encode_utf8(data@)),
            ),
            Err(_) => !valid_utf8(percent_decode_bytes(encode_utf8(data@))),
        },
{
    match urlencoding::decode(data) {
        Ok(decoded) => Ok(decoded.into_owned()),
        Err(err) => Err(err.to_string()),
    }
}

/// Joining a path to a base path, as std does on Unix: an absolute path
/// replaces the base; otherwise a separator is put between them when the base
/// is not empty and does not end with one.
pub open spec fn path_join(base: Seq<char>, path: Seq<char>) -> Seq<char> {
    if path.len() > 0 && path[0] == '/' {
        path
    } else if base.len() == 0 {
        path
    } else if base.last() == '/' {
        base + path
    } else {
        base + seq!['/'] + path
    }
}

/// Joins `path` to `base` (std's `Path::join` on Unix).
pub fn join_path(base: &str, path: &str) -> (r: String)
    ensures
        r@ == path_join(base@, path@),
{
    let mut s = String::new();
    let pn = path.unicode_len();
    let bn = base.unicode_len();
    proof {
        reveal_strlit("/");
    }
    if pn > 0 && path.get_char(0) == '/' {
        push_str(&mut s, path);
    } else if bn == 0 {
        push_str(&mut s, path);
    } else if base.get_char(bn - 1) == '/' {
        push_str(&mut s, base);
        push_str(&mut s, path);
    } else {
        push_str(&mut s, base);
        push_str(&mut s, "/");
        push_str(&mut s, path);
    }
    s
}

/// Where a key of a file source points: `None` for a `file://` URL whose host is
/// neither empty nor `localhost`; the text after the host for other `file://`
/// URLs (still percent-encoded); the key itself otherwise.
pub open spec fn file_key_target(key: Seq<char>) -> Option<(bool, Seq<char>)> {
    if "file://"@.is_prefix_of(key) {
        let rest = key.skip(7);
        if "/"@.is_prefix_of(rest) {
            Some((true, rest.skip(1)))
        } else if "localhost/"@.is_prefix_of(rest) {
            Some((true, rest.skip(10)))
        } else {
            None
        }
    } else {
        Some((false, key))
    }
}

/// Asset source that treats the key as a file path, or a `file://` URL,
/// relative to a root directory. It decides which file holds the asset; the
/// driver reads it.
#[derive(Debug)]
pub struct FileSource {
    root: String,
}

impl FileSource {
    pub closed spec fn root(&self) -> Seq<char> {
        self.root@
    }

    /// Source with the given root path.
    pub fn new(root: String) -> (r: FileSource)
        ensures
            r.root() == root@,
    {
        FileSource { root }
    }

    /// The path of the file that holds the asset with `key`: the key joined to
    /// the root. A `file://` URL whose host is neither empty
    /// nor `localhost` is not found here; its path is percent-decoded, and text
    /// that does not decode to UTF-8 is a source error.
    pub fn file_path(&self, key: &str) -> (r: Result<String, SourceError>)
        ensures
            match file_key_target(key@) {
                None => r matches Err(SourceError::NotFound),
                Some((false, p)) => r matches Ok(s) && s@ == path_join(self.root(), p),
                Some((true, p)) => {
                    let bytes = percent_decode_bytes(encode_utf8(p));
                    if valid_utf8(bytes) {
                        r matches Ok(s) && s@ == path_join(self.root(), decode_utf8(bytes))
                    } else {
                        r matches Err(SourceError::Error(_))
                    }
                },
            },
    {
        proof {
            reveal_strlit("file://");
            reveal_strlit("/");
            reveal_strlit("localhost/");
        }
        let relative: String = match strip_prefix(key, "file://") {
            Some(stripped) => {
                let path = match strip_prefix(stripped, "/") {
                    Some(p) => p,
                    None => match strip_prefix(stripped, "localhost/") {
                        Some(p) => p,
                        None => {
                            return Err(SourceError::NotFound);
                        },
                    },
                };
                match percent_decode(path) {
                    Ok(decoded) => decoded,
                    Err(message) => {
                        return Err(SourceError::Error(Report::new(message)));
                    },
                }
            },
            None => key.to_owned(),
        };
        Ok(join_path(self.root.as_str(), relative.as_str()))
    }
}

/// What an HTTP source does with a response status.
#[derive(Clone, Copy, Debug, PartialEq, Eq, Structural)]
pub enum ResponseAction {
    /// Read the body: it is the asset.
    ReadBody,
    /// The asset is not found at this URL.
    NotFound,
}

/// Asset source that treats the key as a URL and fetches data from it with an
/// HTTP client of type `C`.
#[derive(Debug, Default)]
pub struct ReqwestSource<C> {
    pub client: C,
}

impl<C: Default> ReqwestSource<C> {
    /// Source with a client made with its default settings.
    pub fn new() -> (r: Self)
        ensures
            call_ensures(C::default, (), r.client),
    {
        ReqwestSource { client: C::default() }
    }
}

impl<C> ReqwestSource<C> {
    /// Source that uses the given client.
    pub fn with_client(client: C) -> (r: Self)
        ensures
            r.client == client,
    {
        ReqwestSource { client }
    }

    /// What to do with a response of the given status: only `200 OK` carries
    /// the asset; `204`, `301`, `404` and any other status mean not found.
    pub fn action_for_status(status: u16) -> (r: ResponseAction)
        ensures
            r == (if status == 200 {
                ResponseAction::ReadBody
            } else {
                ResponseAction::NotFound
            }),
    {
        if status == 200 {
            ResponseAction::ReadBody
        } else {
            ResponseAction::NotFound
        }
    }

    /// The error for a request that failed before a response came: the asset is
    /// taken as not found at this URL.
    pub fn request_failed() -> (r: SourceError)
        ensures
            r is NotFound,
    {
        SourceError::NotFound
    }

    /// The error for a body that could not be read: a source error.
    pub fn body_failed(message: String) -> (r: SourceError)
        ensures
            r matches SourceError::Error(e) && e@ == message@,
    {
        SourceError::Error(Report::new(message))
    }
}

/// Stage at which a fetch in the browser ended.
pub enum FetchOutcome {
    /// There is no window to fetch from.
    NoWindow,
    /// The request failed.
    RequestFailed,
    /// The response did not have an OK status.
    NotOk,
    /// The response's body could not be read; the description of the failure.
    BodyFailed(String),
    /// The body was read.
    Body(Vec<u8>),
}

/// Asset source that fetches the key as a URL with the browser's `fetch`.
#[derive(Debug, Default, Clone, Copy)]
pub struct FetchSource;

impl FetchSource {
    pub fn new() -> (r: FetchSource) {
        FetchSource
    }

    /// What the source returns for how the fetch ended: the body, or not found
    /// when there is no window, the request failed or the status is not OK, or a
    /// source error when the body could not be read.
    pub fn result(outcome: FetchOutcome) -> (r: Result<Vec<u8>, SourceError>)
        ensures
            match outcome {
                FetchOutcome::Body(b) => r matches Ok(rb) && rb@ == b@,
                FetchOutcome::BodyFailed(m) => r matches Err(SourceError::Error(e)) && e@ == m@,
                _ => r matches Err(SourceError::NotFound),
            },
    {
        match outcome {
            FetchOutcome::Body(b) => Ok(b),
            FetchOutcome::BodyFailed(m) => Err(SourceError::Error(Report::new(m))),
            _ => Err(SourceError::NotFound),
        }
    }
}

/// Error of the treasury source: the native file could not be accessed.
#[derive(Debug)]
pub struct GoodsFetchError {
    pub path: String,
    pub message: String,
}

impl GoodsFetchError {
    /// Description of the error.
    pub fn message(&self) -> (r: String)
        ensures
            r@ == "Failed to access native file '"@ + self.path@ + "'"@,
    {
        let mut s = String::new();
        push_str(&mut s, "Failed to access native file '");
        push_str(&mut s, self.path.as_str());
        push_str(&mut s, "'");
        s
    }
}

/// Source that loads assets from a treasury of type `G`.
pub struct GoodsSource<G>(pub G);

impl<G> GoodsSource<G> {
    /// What a load answers from what the treasury's fetch returned: the data
    /// when it has the asset, nothing when it does not know it, and an error
    /// when its native file could not be read.
    pub fn load_result(
        fetched: Result<Option<crate::treasury::AssetData>, crate::treasury::FetchError>,
    ) -> (r: Result<Option<crate::source::AssetData>, GoodsFetchError>)
        ensures
            match fetched {
                Ok(None) => r matches Ok(None),
                Ok(Some(d)) => r matches Ok(Some(e)) && e.bytes@ == d.bytes@ && e.version == d.version,
                Err(crate::treasury::FetchError::NotFound) => r matches Ok(None),
                Err(crate::treasury::FetchError::NativeIoError { path, message }) => r matches Err(e)
                    && e.path@ == path@ && e.message@ == message@,
            },
    {
        match fetched {
            Ok(None) => Ok(None),
            Ok(Some(d)) => Ok(Some(crate::source::AssetData { bytes: d.bytes, version: d.version })),
            Err(crate::treasury::FetchError::NotFound) => Ok(None),
            Err(crate::treasury::FetchError::NativeIoError { path, message }) => Err(
                GoodsFetchError { path, message },
            ),
        }
    }

    /// What an update answers: never newer data.
    pub fn update_result() -> (r: Result<Option<crate::source::AssetData>, GoodsFetchError>)
        ensures
            r matches Ok(None),
    {
        Ok(None)
    }
}

} // verus!
