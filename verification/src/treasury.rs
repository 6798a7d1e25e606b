//! The treasury: a store of assets imported from source files into native
//! files. What it decides stands here: its index of assets, which importer
//! converts what, when a native file is stale and which version it has.
use vstd::prelude::*;

use crate::id::hex_char;
use crate::sources::{join_path, path_join};
use crate::text::push_str;

verus! {

/// A point in time after the Unix epoch: whole seconds and nanoseconds.
#[derive(Clone, Copy, Debug, PartialEq, Eq, Structural)]
pub struct SysTime {
    pub secs: u64,
    pub nanos: u32,
}

/// `a` is earlier than `b`.
pub open spec fn earlier(a: SysTime, b: SysTime) -> bool {
    a.secs < b.secs || (a.secs == b.secs && a.nanos < b.nanos)
}

/// A time in nanoseconds since the epoch.
pub open spec fn nanos_since_epoch(t: SysTime) -> int {
    t.secs * 1_000_000_000 + t.nanos
}

/// Law: for times whose nanoseconds are below a second, as `SystemTime`
/// gives them, one is earlier than another exactly when fewer nanoseconds
/// have passed since the epoch; a time with more whole seconds is never the
/// earlier one, whatever its nanoseconds.
pub proof fn lemma_earlier_is_time_order(a: SysTime, b: SysTime)
    ensures
        a.nanos < 1_000_000_000 && b.nanos < 1_000_000_000 ==> (earlier(a, b) <==> nanos_since_epoch(
            a,
        ) < nanos_since_epoch(b)),
        b.secs < a.secs ==> !earlier(a, b),
        earlier(a, b) ==> !earlier(b, a),
        !earlier(a, a),
{
}

/// Version of a native file modified at `t`: milliseconds since the epoch,
/// truncated to 64 bits.
pub open spec fn version_of(t: SysTime) -> u64 {
    ((t.secs as int * 1000 + t.nanos as int / 1_000_000) % 0x1_0000_0000_0000_0000) as u64
}

/// Version of a native file modified at `systime` (milliseconds since the
/// epoch, truncated to 64 bits).
pub fn version_from_systime(systime: SysTime) -> (r: u64)
    ensures
        r == version_of(systime),
{
    let ms: u128 = systime.secs as u128 * 1000 + (systime.nanos / 1_000_000) as u128;
    (ms % 0x1_0000_0000_0000_0000u128) as u64
}

/// Whether a native file modified at `native` must be imported again from a
/// source file modified at `source`: when the source's time is known and the
/// native file is older.
pub fn needs_reimport(native: SysTime, source: Option<SysTime>) -> (r: bool)
    ensures
        r == (source matches Some(s) && earlier(native, s)),
        r ==> source is Some,
        source matches Some(s) && s.secs < native.secs ==> !r,
        source matches Some(s) && native.secs < s.secs ==> r,
{
    match source {
        Some(s) => native.secs < s.secs || (native.secs == s.secs && native.nanos < s.nanos),
        None => false,
    }
}

/// Whether a fetch that asks for versions from `next_version` on returns the
/// native file modified at `native`: only when its version is not older.
pub fn returns_data(next_version: u64, native: SysTime) -> (r: bool)
    ensures
        r == (next_version <= version_of(native)),
{
    next_version <= version_from_systime(native)
}

/// Version from which a fetch asks for data: any version for a plain fetch,
/// versions newer than the given one for an update.
pub open spec fn first_version(updated_since: Option<u64>) -> int {
    match updated_since {
        None => 0,
        Some(v) => v + 1,
    }
}

/// Version from which a fetch asks for data: any version for a plain fetch,
/// versions newer than `version` for an update.
pub fn next_version(updated_since: Option<u64>) -> (r: u64)
    requires
        updated_since matches Some(v) ==> v < u64::MAX,
    ensures
        r == first_version(updated_since),
{
    match updated_since {
        None => 0,
        Some(v) => v + 1,
    }
}

/// Whether creating a treasury is refused because of its metadata file: it
/// exists and may not be overwritten, or it may be overwritten but is not a
/// regular file (which includes its being absent).
pub fn goods_file_refused(overwrite: bool, exists: bool, is_file: bool) -> (r: bool)
    ensures
        r == ((!overwrite && exists) || (overwrite && !is_file)),
{
    if !overwrite && exists {
        return true;
    }
    overwrite && !is_file
}

/// What a fetch does once it looked at the native file: whether the native
/// file is converted from the source first (it is absent, or older than the
/// source), and, for a native file that was there, the version it answers with
/// if the file is not older than the version asked for. That version is the one
/// of the native file as it was opened, before any new conversion. For an
/// absent native file the answer waits for the conversion
/// ([`answer_after_conversion`]).
#[derive(Clone, Copy, Debug, PartialEq, Eq, Structural)]
pub struct FetchPlan {
    pub reimport: bool,
    pub answer: Option<u64>,
    pub after_conversion: bool,
}

/// The version a native file modified at `native` answers a fetch from
/// `next_version` with, if it is not older.
pub open spec fn answer_for(next_version: u64, native: SysTime) -> Option<u64> {
    if next_version <= version_of(native) {
        Some(version_of(native))
    } else {
        None
    }
}

/// Plans a fetch that asks for versions from `next_version` on, of a native
/// file modified at `native` (`None` when it is absent) whose source was
/// modified at `source`, if known.
pub fn plan_fetch(next_version: u64, native: Option<SysTime>, source: Option<SysTime>) -> (r: FetchPlan)
    ensures
        match native {
            Some(t) => {
                &&& r.reimport == (source matches Some(s) && earlier(t, s))
                &&& r.answer == answer_for(next_version, t)
                &&& !r.after_conversion
            },
            None => r.reimport && r.answer is None && r.after_conversion,
        },
{
    match native {
        Some(t) => {
            let reimport = needs_reimport(t, source);
            let version = version_from_systime(t);
            let answer = if next_version <= version {
                Some(version)
            } else {
                None
            };
            FetchPlan { reimport, answer, after_conversion: false }
        },
        None => FetchPlan { reimport: true, answer: None, after_conversion: true },
    }
}

/// The answer of a fetch whose absent native file was converted: the new native
/// file's version if it is not older than the version asked for; an error
/// naming the native file when it still cannot be read.
pub fn answer_after_conversion(next_version: u64, converted: Result<SysTime, String>, path: String) -> (r:
    Result<Option<u64>, FetchError>)
    ensures
        match converted {
            Ok(t) => r == Ok::<Option<u64>, FetchError>(answer_for(next_version, t)),
            Err(m) => r matches Err(FetchError::NativeIoError { path: p, message }) && p@ == path@
                && message@ == m@,
        },
{
    match converted {
        Ok(t) => {
            let version = version_from_systime(t);
            if next_version <= version {
                Ok(Some(version))
            } else {
                Ok(None)
            }
        },
        Err(message) => Err(FetchError::NativeIoError { path, message }),
    }
}

/// Law: a plain fetch returns the native file's data whatever its time, and an
/// update asked with the version that fetch reported returns nothing while the
/// native file keeps that time.
pub proof fn lemma_fetch_then_update(native: SysTime)
    ensures
        first_version(None) <= version_of(native),
        !(first_version(Some(version_of(native))) <= version_of(native)),
{
}

/// Data of an asset fetched from the treasury.
#[derive(Debug)]
pub struct AssetData {
    pub bytes: Vec<u8>,
    pub version: u64,
}

/// Error of a fetch.
#[derive(Debug)]
pub enum FetchError {
    /// No asset with the identifier.
    NotFound,
    /// The native file could not be accessed.
    NativeIoError { path: String, message: String },
}

/// Error of a store.
#[derive(Debug)]
pub enum StoreError {
    /// No importer with the name.
    ImporterNotFound { importer: String },
    /// The importer failed.
    ImportError { message: String },
    /// The source file could not be accessed.
    SourceIoError { path: String, message: String },
    /// The native file could not be written.
    NativeIoError { path: String, message: String },
}

/// Error of scanning a directory of importers.
#[derive(Debug)]
pub struct ImporterDirError {
    pub path: String,
    pub message: String,
}

pub open spec fn quoted(prefix: Seq<char>, s: Seq<char>) -> Seq<char> {
    prefix + "'"@ + s + "'"@
}

impl FetchError {
    /// The error's text.
    pub fn message(&self) -> (r: String)
        ensures
            r@ == match *self {
                FetchError::NotFound => "Asset not found"@,
                FetchError::NativeIoError { path, .. } => quoted(
                    "Failed to access native file "@,
                    path@,
                ),
            },
    {
        let mut s = String::new();
        proof {
            reveal_strlit("Asset not found");
            reveal_strlit("Failed to access native file ");
            reveal_strlit("'");
        }
        match self {
            FetchError::NotFound => push_str(&mut s, "Asset not found"),
            FetchError::NativeIoError { path, .. } => {
                push_str(&mut s, "Failed to access native file ");
                push_str(&mut s, "'");
                push_str(&mut s, path.as_str());
                push_str(&mut s, "'");
            },
        }
        s
    }
}

impl StoreError {
    /// The error's text.
    pub fn message(&self) -> (r: String)
        ensures
            r@ == match *self {
                StoreError::ImporterNotFound { importer } => quoted(
                    "Failed to find importer "@,
                    importer@,
                ),
                StoreError::ImportError { .. } => "Import failed"@,
                StoreError::SourceIoError { path, .. } => quoted(
                    "Failed to access source file "@,
                    path@,
                ),
                StoreError::NativeIoError { path, .. } => quoted(
                    "Failed to access native file "@,
                    path@,
                ),
            },
    {
        let mut s = String::new();
        proof {
            reveal_strlit("Failed to find importer ");
            reveal_strlit("Import failed");
            reveal_strlit("Failed to access source file ");
            reveal_strlit("Failed to access native file ");
            reveal_strlit("'");
        }
        match self {
            StoreError::ImporterNotFound { importer } => {
                push_str(&mut s, "Failed to find importer ");
                push_str(&mut s, "'");
                push_str(&mut s, importer.as_str());
                push_str(&mut s, "'");
            },
            StoreError::ImportError { .. } => push_str(&mut s, "Import failed"),
            StoreError::SourceIoError { path, .. } => {
                push_str(&mut s, "Failed to access source file ");
                push_str(&mut s, "'");
                push_str(&mut s, path.as_str());
                push_str(&mut s, "'");
            },
            StoreError::NativeIoError { path, .. } => {
                push_str(&mut s, "Failed to access native file ");
                push_str(&mut s, "'");
                push_str(&mut s, path.as_str());
                push_str(&mut s, "'");
            },
        }
        s
    }
}

impl ImporterDirError {
    /// The error's text.
    pub fn message(&self) -> (r: String)
        ensures
            r@ == quoted("Failed to scan importers directory "@, self.path@),
    {
        let mut s = String::new();
        proof {
            reveal_strlit("Failed to scan importers directory ");
            reveal_strlit("'");
        }
        push_str(&mut s, "Failed to scan importers directory ");
        push_str(&mut s, "'");
        push_str(&mut s, self.path.as_str());
        push_str(&mut s, "'");
        s
    }
}

/// The `n` lower-case hexadecimal digits of `v` modulo `16^n`, most
/// significant first.
pub open spec fn hex_fixed(v: nat, n: nat) -> Seq<char>
    decreases n,
{
    if n == 0 {
        Seq::empty()
    } else {
        hex_fixed(v / 16, (n - 1) as nat).push(hex_char(v % 16, false))
    }
}

/// Text of an asset identifier: its 32 lower-case hexadecimal digits in
/// groups of 8, 4, 4, 4 and 12, joined by hyphens.
pub open spec fn uuid_text(u: u128) -> Seq<char> {
    let d = hex_fixed(u as nat, 32);
    d.subrange(0, 8) + seq!['-'] + d.subrange(8, 12) + seq!['-'] + d.subrange(12, 16) + seq!['-']
        + d.subrange(16, 20) + seq!['-'] + d.subrange(20, 32)
}

/// `uuid::Uuid::from_u128(u).to_hyphenated().to_string()`: the identifier's 32
/// lower-case hexadecimal digits, most significant first, with a hyphen after
/// the 8th, 12th, 16th and 20th.
#[verifier::external_body]
fn hyphenated_uuid(u: u128) -> (r: String)
    ensures
        r@ == uuid_text(u),
{
    uuid::Uuid::from_u128(u).to_hyphenated().to_string()
}

/// `uuid::Uuid::new_v4().as_u128()`: random bits, except that the version
/// nibble is 4 and the two variant bits are `10`. The crate panics when the
/// operating system gives no random bytes; nothing else is stated, as the
/// value is random.
#[verifier::external_body]
fn random_uuid() -> (r: u128)
    ensures
        (r >> 76u128) & 0xfu128 == 4,
        (r >> 62u128) & 0x3u128 == 2,
{
    uuid::Uuid::new_v4().as_u128()
}

/// Where the native file of a new asset goes: the root joined with the
/// identifier's text. The importer first writes it beside, with the extension
/// `tmp`.
pub fn native_paths(root: &str, uuid: u128) -> (r: (String, String))
    ensures
        r.0@ == path_join(root@, uuid_text(uuid)),
        r.1@ == r.0@ + ".tmp"@,
{
    let name = hyphenated_uuid(uuid);
    let native = join_path(root, name.as_str());
    let mut tmp = join_path(root, name.as_str());
    push_str(&mut tmp, ".tmp");
    (native, tmp)
}

/// Meta-information about an asset in the treasury.
pub struct Asset {
    uuid: u128,
    source: String,
    source_format: String,
    native_format: String,
    tags: Vec<String>,
}

impl Asset {
    pub closed spec fn uuid_spec(&self) -> u128 {
        self.uuid
    }

    pub closed spec fn source_spec(&self) -> Seq<char> {
        self.source@
    }

    pub closed spec fn source_format_spec(&self) -> Seq<char> {
        self.source_format@
    }

    pub closed spec fn native_format_spec(&self) -> Seq<char> {
        self.native_format@
    }

    pub closed spec fn tags_spec(&self) -> Seq<String> {
        self.tags@
    }

    /// Asset with the given identifier, source path, formats and tags.
    pub fn new(
        uuid: u128,
        source: String,
        source_format: String,
        native_format: String,
        tags: Vec<String>,
    ) -> (r: Asset)
        ensures
            r.uuid_spec() == uuid,
            r.source_spec() == source@,
            r.source_format_spec() == source_format@,
            r.native_format_spec() == native_format@,
            r.tags_spec() == tags@,
    {
        Asset { uuid, source, source_format, native_format, tags }
    }

    pub fn uuid(&self) -> (r: u128)
        ensures
            r == self.uuid_spec(),
    {
        self.uuid
    }

    pub fn source(&self) -> (r: &str)
        ensures
            r@ == self.source_spec(),
    {
        self.source.as_str()
    }

    pub fn source_format(&self) -> (r: &str)
        ensures
            r@ == self.source_format_spec(),
    {
        self.source_format.as_str()
    }

    pub fn native_format(&self) -> (r: &str)
        ensures
            r@ == self.native_format_spec(),
    {
        self.native_format.as_str()
    }

    pub fn tags(&self) -> (r: &[String])
        ensures
            r@ == self.tags_spec(),
    {
        self.tags.as_slice()
    }

    /// The asset's description (its `Display` form): on one line, or one field
    /// per line in the alternate form.
    pub fn display_text(&self, alternate: bool) -> (r: String)
        ensures
            r@ == (if alternate {
                "{\n  uuid: "@ + uuid_text(self.uuid_spec()) + "\n  source: "@ + self.source_spec()
                    + "\n  source_format: "@ + self.source_format_spec() + "\n  native_format: "@
                    + self.native_format_spec() + "\n}"@
            } else {
                "{ "@ + uuid_text(self.uuid_spec()) + " <- '"@ + self.source_spec() + "' : '"@
                    + self.source_format_spec() + "' as '"@ + self.native_format_spec() + "' }"@
            }),
    {
        let id = hyphenated_uuid(self.uuid);
        let mut s = String::new();
        if alternate {
            push_str(&mut s, "{\n  uuid: ");
            push_str(&mut s, id.as_str());
            push_str(&mut s, "\n  source: ");
            push_str(&mut s, self.source.as_str());
            push_str(&mut s, "\n  source_format: ");
            push_str(&mut s, self.source_format.as_str());
            push_str(&mut s, "\n  native_format: ");
            push_str(&mut s, self.native_format.as_str());
            push_str(&mut s, "\n}");
        } else {
            push_str(&mut s, "{ ");
            push_str(&mut s, id.as_str());
            push_str(&mut s, " <- '");
            push_str(&mut s, self.source.as_str());
            push_str(&mut s, "' : '");
            push_str(&mut s, self.source_format.as_str());
            push_str(&mut s, "' as '");
            push_str(&mut s, self.native_format.as_str());
            push_str(&mut s, "' }");
        }
        s
    }
}

/// An asset's index entry: identifier, source path relative to the root and
/// the importer that converts it.
pub struct AssetRecord {
    pub uuid: u128,
    pub source: String,
    pub importer: String,
}

/// Index of a treasury's assets. No identifier occurs twice, nor a pair of
/// source path and importer.
pub struct AssetIndex {
    records: Vec<AssetRecord>,
}

/// What storing an asset from a source path with an importer amounts to.
#[derive(Debug)]
pub enum StorePlan {
    /// The pair was imported before, as this asset.
    Existing(u128),
    /// The candidate identifier is taken; draw another.
    Retry,
    /// Import as a new asset with the candidate identifier.
    Import(u128),
}

impl AssetIndex {
    pub closed spec fn records(&self) -> Seq<(u128, Seq<char>, Seq<char>)> {
        Seq::new(
            self.records@.len(),
            |i: int| (self.records@[i].uuid, self.records@[i].source@, self.records@[i].importer@),
        )
    }

    /// No identifier and no pair of source and importer occurs twice.
    pub open spec fn wf(&self) -> bool {
        &&& forall|i: int, j: int|
            0 <= i < j < self.records().len() ==> (#[trigger] self.records()[i]).0 != (
            #[trigger] self.records()[j]).0
        &&& forall|i: int, j: int|
            0 <= i < j < self.records().len() ==> ((#[trigger] self.records()[i]).1, self.records()[i].2)
                != ((#[trigger] self.records()[j]).1, self.records()[j].2)
    }

    pub open spec fn has_uuid(&self, uuid: u128) -> bool {
        exists|i: int| 0 <= i < self.records().len() && (#[trigger] self.records()[i]).0 == uuid
    }

    /// Empty index.
    pub fn new() -> (r: AssetIndex)
        ensures
            r.records().len() == 0,
            r.wf(),
    {
        AssetIndex { records: Vec::new() }
    }

    /// Position of the asset with identifier `uuid`.
    pub fn find_uuid(&self, uuid: u128) -> (r: Option<usize>)
        ensures
            r matches Some(i) ==> i < self.records().len() && self.records()[i as int].0 == uuid,
            r is None ==> !self.has_uuid(uuid),
    {
        let mut i: usize = 0;
        while i < self.records.len()
            invariant
                i <= self.records@.len(),
                forall|j: int| 0 <= j < i ==> (#[trigger] self.records()[j]).0 != uuid,
            decreases self.records.len() - i,
        {
            if self.records[i].uuid == uuid {
                return Some(i);
            }
            i = i + 1;
        }
        None
    }

    /// The position of the asset a fetch of `uuid` reads, or the not-found
    /// fetch error when no asset has that identifier.
    pub fn fetch_index(&self, uuid: u128) -> (r: Result<usize, FetchError>)
        ensures
            r is Err <==> !self.has_uuid(uuid),
            r matches Err(e) ==> e is NotFound,
            r matches Ok(i) ==> i < self.records().len() && self.records()[i as int].0 == uuid,
    {
        match self.find_uuid(uuid) {
            Some(i) => Ok(i),
            None => Err(FetchError::NotFound),
        }
    }

    /// Position of the asset imported from `source` with `importer`.
    pub fn find_source_importer(&self, source: &str, importer: &str) -> (r: Option<usize>)
        ensures
            r matches Some(i) ==> i < self.records().len() && self.records()[i as int].1
                == source@ && self.records()[i as int].2 == importer@,
            r is None ==> forall|i: int|
                0 <= i < self.records().len() ==> !((#[trigger] self.records()[i]).1 == source@
                    && self.records()[i].2 == importer@),
    {
        let mut i: usize = 0;
        while i < self.records.len()
            invariant
                i <= self.records@.len(),
                forall|j: int|
                    0 <= j < i ==> !((#[trigger] self.records()[j]).1 == source@
                        && self.records()[j].2 == importer@),
            decreases self.records.len() - i,
        {
            let rec = &self.records[i];
            if crate::text::str_eq(rec.source.as_str(), source) && crate::text::str_eq(
                rec.importer.as_str(),
                importer,
            ) {
                return Some(i);
            }
            i = i + 1;
        }
        None
    }

    /// What storing `source` with `importer` amounts to, with `candidate` as the
    /// identifier drawn for a new asset: a pair imported before is that asset;
    /// otherwise the candidate is used unless it is taken.
    pub fn plan_store(&self, source: &str, importer: &str, candidate: u128) -> (r: StorePlan)
        ensures
            match r {
                StorePlan::Existing(u) => exists|i: int|
                    0 <= i < self.records().len() && (#[trigger] self.records()[i]).0 == u
                        && self.records()[i].1 == source@ && self.records()[i].2 == importer@,
                StorePlan::Retry => self.has_uuid(candidate) && forall|i: int|
                    0 <= i < self.records().len() ==> !((#[trigger] self.records()[i]).1 == source@
                        && self.records()[i].2 == importer@),
                StorePlan::Import(u) => u == candidate && !self.has_uuid(candidate) && forall|i: int|
                    0 <= i < self.records().len() ==> !((#[trigger] self.records()[i]).1 == source@
                        && self.records()[i].2 == importer@),
            },
    {
        match self.find_source_importer(source, importer) {
            Some(i) => {
                let u = self.records[i].uuid;
                assert(self.records()[i as int].0 == u);
                StorePlan::Existing(u)
            },
            None => match self.find_uuid(candidate) {
                Some(_) => StorePlan::Retry,
                None => StorePlan::Import(candidate),
            },
        }
    }

    /// What storing `source` with `importer` amounts to, with a random
    /// identifier drawn for a new asset: a pair imported before is that asset;
    /// otherwise the drawn identifier is used unless it is taken, in which case
    /// the caller asks again.
    pub fn plan_store_drawn(&self, source: &str, importer: &str) -> (r: StorePlan)
        ensures
            match r {
                StorePlan::Existing(u) => exists|i: int|
                    0 <= i < self.records().len() && (#[trigger] self.records()[i]).0 == u
                        && self.records()[i].1 == source@ && self.records()[i].2 == importer@,
                StorePlan::Retry => forall|i: int|
                    0 <= i < self.records().len() ==> !((#[trigger] self.records()[i]).1 == source@
                        && self.records()[i].2 == importer@),
                StorePlan::Import(u) => !self.has_uuid(u) && (u >> 76u128) & 0xfu128 == 4 && (u >> 62u128)
                    & 0x3u128 == 2 && forall|i: int|
                    0 <= i < self.records().len() ==> !((#[trigger] self.records()[i]).1 == source@
                        && self.records()[i].2 == importer@),
            },
    {
        let candidate = random_uuid();
        self.plan_store(source, importer, candidate)
    }

    /// Records a newly imported asset. Its identifier and its pair of source
    /// and importer must be new.
    pub fn register(&mut self, record: AssetRecord) -> (index: usize)
        requires
            old(self).wf(),
            !old(self).has_uuid(record.uuid),
            forall|i: int|
                0 <= i < old(self).records().len() ==> !((#[trigger] old(self).records()[i]).1
                    == record.source@ && old(self).records()[i].2 == record.importer@),
        ensures
            final(self).wf(),
            final(self).records() == old(self).records().push(
                (record.uuid, record.source@, record.importer@),
            ),
            index == old(self).records().len(),
    {
        let index = self.records.len();
        let ghost entry = (record.uuid, record.source@, record.importer@);
        self.records.push(record);
        assert(self.records() =~= old(self).records().push(entry));
        index
    }
}

/// A store that must import a new asset needs its importer: when no importer
/// of that name is found it fails with an error naming it; every other plan
/// stands as it is.
pub fn require_importer(plan: StorePlan, importer: &str, importer_found: bool) -> (r: Result<
    StorePlan,
    StoreError,
>)
    ensures
        match plan {
            StorePlan::Import(_) => if importer_found {
                r == Ok::<StorePlan, StoreError>(plan)
            } else {
                r matches Err(StoreError::ImporterNotFound { importer: i }) && i@ == importer@
            },
            _ => r == Ok::<StorePlan, StoreError>(plan),
        },
{
    match plan {
        StorePlan::Import(u) => if importer_found {
            Ok(StorePlan::Import(u))
        } else {
            Err(StoreError::ImporterNotFound { importer: importer.to_owned() })
        },
        other => Ok(other),
    }
}

/// How an importer failed: with an error of a nested store, or otherwise.
#[derive(Debug)]
pub enum ImportFailure {
    Store(StoreError),
    Other(String),
}

impl AssetIndex {
    /// Ends the store of a new asset once its importer ran: an import that
    /// failed with the error of a nested store fails with that error, any other
    /// failed import is an import error; a native file that could not be moved into place is a
    /// native file error; otherwise the asset is recorded and its identifier
    /// returned. The identifier and the pair of source and importer are new.
    pub fn finish_store(
        &mut self,
        record: AssetRecord,
        import: Result<(), ImportFailure>,
        rename: Result<(), String>,
        native_path: String,
    ) -> (r: Result<u128, StoreError>)
        requires
            old(self).wf(),
            !old(self).has_uuid(record.uuid),
            forall|i: int|
                0 <= i < old(self).records().len() ==> !((#[trigger] old(self).records()[i]).1
                    == record.source@ && old(self).records()[i].2 == record.importer@),
        ensures
            final(self).wf(),
            match import {
                Err(ImportFailure::Store(e)) => r == Err::<u128, StoreError>(e) && final(self).records()
                    == old(self).records(),
                Err(ImportFailure::Other(m)) => r matches Err(StoreError::ImportError { message })
                    && message@ == m@ && final(self).records() == old(self).records(),
                Ok(()) => match rename {
                    Err(m) => r matches Err(StoreError::NativeIoError { path, message })
                        && path@ == native_path@ && message@ == m@ && final(self).records()
                        == old(self).records(),
                    Ok(()) => r == Ok::<u128, StoreError>(record.uuid) && final(self).records()
                        == old(self).records().push((record.uuid, record.source@, record.importer@)),
                },
            },
    {
        match import {
            Err(ImportFailure::Store(e)) => Err(e),
            Err(ImportFailure::Other(message)) => Err(StoreError::ImportError { message }),
            Ok(()) => match rename {
                Err(message) => Err(StoreError::NativeIoError { path: native_path, message }),
                Ok(()) => {
                    let uuid = record.uuid;
                    self.register(record);
                    Ok(uuid)
                },
            },
        }
    }
}

/// The importer directories a treasury has loaded, relative to its root.
pub struct ImporterDirs {
    dirs: Vec<String>,
}

impl ImporterDirs {
    pub closed spec fn dirs(&self) -> Seq<Seq<char>> {
        Seq::new(self.dirs@.len(), |i: int| self.dirs@[i]@)
    }

    /// No directory loaded.
    pub fn new() -> (r: Self)
        ensures
            r.dirs().len() == 0,
    {
        ImporterDirs { dirs: Vec::new() }
    }

    /// Whether the importers of `dir` must be loaded: only when it was not
    /// loaded before.
    pub fn needs_loading(&self, dir: &str) -> (r: bool)
        ensures
            r == !self.dirs().contains(dir@),
    {
        let mut i: usize = 0;
        while i < self.dirs.len()
            invariant
                i <= self.dirs@.len(),
                forall|j: int| 0 <= j < i ==> self.dirs()[j] != dir@,
            decreases self.dirs.len() - i,
        {
            if crate::text::str_eq(self.dirs[i].as_str(), dir) {
                assert(self.dirs()[i as int] == dir@);
                return false;
            }
            i = i + 1;
        }
        true
    }

    /// Records that the importers of `dir` were loaded.
    pub fn record(&mut self, dir: String)
        ensures
            final(self).dirs() == with_dir(old(self).dirs(), dir@),
    {
        if self.needs_loading(dir.as_str()) {
            let ghost d = dir@;
            self.dirs.push(dir);
            assert(self.dirs() =~= old(self).dirs().push(d));
        }
    }
}

/// Directories after `dir` is recorded: added unless already there.
pub open spec fn with_dir(dirs: Seq<Seq<char>>, dir: Seq<char>) -> Seq<Seq<char>> {
    if dirs.contains(dir) {
        dirs
    } else {
        dirs.push(dir)
    }
}

/// Law: once the importers of a directory were loaded, loading that directory
/// again loads nothing.
pub proof fn lemma_second_load_loads_nothing(dirs: Seq<Seq<char>>, dir: Seq<char>)
    ensures
        with_dir(dirs, dir).contains(dir),
{
    if !dirs.contains(dir) {
        assert(dirs.push(dir)[dirs.len() as int] == dir);
    }
}

/// Law: storing from the same source with the same importer twice yields the
/// asset of the first store, whatever identifier is drawn the second time.
pub proof fn lemma_store_twice_is_existing(index: AssetIndex, source: Seq<char>, importer: Seq<char>, i: int)
    requires
        index.wf(),
        0 <= i < index.records().len(),
        index.records()[i].1 == source,
        index.records()[i].2 == importer,
    ensures
        forall|j: int|
            0 <= j < index.records().len() && #[trigger] index.records()[j].1 == source
                && index.records()[j].2 == importer ==> index.records()[j].0 == index.records()[i].0,
{
    assert forall|j: int|
        0 <= j < index.records().len() && #[trigger] index.records()[j].1 == source
            && index.records()[j].2 == importer implies index.records()[j].0
        == index.records()[i].0 by {
        if j < i {
            assert((index.records()[j].1, index.records()[j].2) != (index.records()[i].1, index.records()[i].2));
        } else if i < j {
            assert((index.records()[i].1, index.records()[i].2) != (index.records()[j].1, index.records()[j].2));
        }
    }
}

/// Importers registered by the pair of formats they convert between; the
/// first importer registered for a pair is kept.
pub struct Importers<I> {
    entries: Vec<(String, String, I)>,
}

impl<I> Importers<I> {
    pub closed spec fn pairs(&self) -> Seq<(Seq<char>, Seq<char>)> {
        Seq::new(self.entries@.len(), |i: int| (self.entries@[i].0@, self.entries@[i].1@))
    }

    pub closed spec fn importer_at(&self, i: int) -> I {
        self.entries@[i].2
    }

    /// No pair of formats occurs twice.
    pub open spec fn wf(&self) -> bool {
        forall|i: int, j: int|
            0 <= i < j < self.pairs().len() ==> #[trigger] self.pairs()[i] != #[trigger] self.pairs()[j]
    }

    /// No importers.
    pub fn new() -> (r: Self)
        ensures
            r.pairs().len() == 0,
            r.wf(),
    {
        Importers { entries: Vec::new() }
    }

    fn position(&self, source: &str, native: &str) -> (r: Option<usize>)
        ensures
            r matches Some(i) ==> i < self.pairs().len() && self.pairs()[i as int] == (source@, native@),
            r is None ==> forall|i: int| 0 <= i < self.pairs().len() ==> #[trigger] self.pairs()[i] != (source@, native@),
    {
        let mut i: usize = 0;
        while i < self.entries.len()
            invariant
                i <= self.entries@.len(),
                forall|j: int| 0 <= j < i ==> #[trigger] self.pairs()[j] != (source@, native@),
            decreases self.entries.len() - i,
        {
            let e = &self.entries[i];
            if crate::text::str_eq(e.0.as_str(), source) && crate::text::str_eq(e.1.as_str(), native) {
                return Some(i);
            }
            i = i + 1;
        }
        None
    }

    /// The importer from `source` format to `native` format, if one is registered.
    pub fn get_importer(&self, source: &str, native: &str) -> (r: Option<&I>)
        ensures
            r matches Some(imp) ==> exists|i: int|
                0 <= i < self.pairs().len() && #[trigger] self.pairs()[i] == (source@, native@) && *imp
                    == self.importer_at(i),
            r is None ==> forall|i: int| 0 <= i < self.pairs().len() ==> #[trigger] self.pairs()[i] != (source@, native@),
    {
        match self.position(source, native) {
            Some(i) => Some(&self.entries[i].2),
            None => None,
        }
    }

    /// Registers `importer` for its pair of formats unless one is registered for
    /// it already. Returns whether it was registered.
    pub fn register(&mut self, source: String, native: String, importer: I) -> (r: bool)
        requires
            old(self).wf(),
        ensures
            final(self).wf(),
            r == forall|i: int| 0 <= i < old(self).pairs().len() ==> #[trigger] old(self).pairs()[i] != (source@, native@),
            r ==> final(self).pairs() == old(self).pairs().push((source@, native@)) && final(self).importer_at(old(self).pairs().len() as int) == importer && forall|i: int|
                0 <= i < old(self).pairs().len() ==> final(self).importer_at(i) == old(self).importer_at(i),
            !r ==> final(self).pairs() == old(self).pairs() && forall|i: int|
                0 <= i < old(self).pairs().len() ==> final(self).importer_at(i) == old(self).importer_at(i),
    {
        match self.position(source.as_str(), native.as_str()) {
            Some(_) => false,
            None => {
                let ghost p = (source@, native@);
                self.entries.push((source, native, importer));
                assert(self.pairs() =~= old(self).pairs().push(p));
                true
            },
        }
    }
}

} // verus!
