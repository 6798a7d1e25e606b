//! The treasury's side of importers compiled to WebAssembly: how it sizes the
//! buffer the module lists its importers into, reads the listed records, lays
//! out the paths and the error buffer of an import in the module's memory, and
//! reads the import's result.
use vstd::prelude::*;

use vstd::string::StrSliceExecFns;

use crate::text::push_str;

verus! {

/// Number of importer records the first listing has room for.
pub const WASM_IMPORTERS_INITIAL_COUNT: u32 = 64;

/// Length of the buffer an import writes its error message into.
pub const ERROR_BUFFER_LEN: u32 = 2048;

/// Bytes of one importer record: five 32-bit addresses.
pub const RECORD_SIZE: u32 = 20;

/// An importer as a module lists it: the addresses of its data and of its name,
/// source, native and import functions.
#[derive(Clone, Copy, Debug, PartialEq, Eq, Structural)]
pub struct ImporterRecord {
    pub data: u32,
    pub name: u32,
    pub source: u32,
    pub native: u32,
    pub import: u32,
}

/// Bytes for `count` importer records.
pub fn records_size(count: u32) -> (r: u32)
    requires
        count * RECORD_SIZE <= u32::MAX,
    ensures
        r == count * RECORD_SIZE,
{
    count * RECORD_SIZE
}

/// What follows the first listing of a module's importers.
#[derive(Clone, Copy, Debug, PartialEq, Eq, Structural)]
pub enum Listing {
    /// All importers were listed; `count` records are read.
    Done { count: u32 },
    /// There are more importers than room: the buffer is freed and one of
    /// `size` bytes is allocated for all `count` of them, which are listed again.
    /// Whatever count the second listing reports, `count` records are read.
    Retry { count: u32, size: u32 },
}

/// Decides what follows a first listing that reported `count` importers.
pub fn after_first_listing(count: u32) -> (r: Listing)
    requires
        count * RECORD_SIZE <= u32::MAX,
    ensures
        count <= WASM_IMPORTERS_INITIAL_COUNT ==> r == (Listing::Done { count }),
        count > WASM_IMPORTERS_INITIAL_COUNT ==> r == (Listing::Retry { count, size: (count * RECORD_SIZE) as u32 }),
{
    if count > WASM_IMPORTERS_INITIAL_COUNT {
        Listing::Retry { count, size: records_size(count) }
    } else {
        Listing::Done { count }
    }
}

/// The record made of the five words at `5 * i`.
pub open spec fn record_at(words: Seq<u32>, i: int) -> ImporterRecord {
    ImporterRecord {
        data: words[5 * i],
        name: words[5 * i + 1],
        source: words[5 * i + 2],
        native: words[5 * i + 3],
        import: words[5 * i + 4],
    }
}

/// The five words a module writes for an importer, in its layout order: data,
/// name, source, native, import.
pub open spec fn record_words(r: ImporterRecord) -> Seq<u32> {
    seq![r.data, r.name, r.source, r.native, r.import]
}

/// The words of a listing of importers, one after another.
pub open spec fn listing_words(rs: Seq<ImporterRecord>) -> Seq<u32>
    decreases rs.len(),
{
    if rs.len() == 0 {
        Seq::empty()
    } else {
        listing_words(rs.drop_last()) + record_words(rs.last())
    }
}

proof fn lemma_listing_layout(rs: Seq<ImporterRecord>)
    ensures
        listing_words(rs).len() == 5 * rs.len(),
        forall|i: int, j: int|
            0 <= i < rs.len() && 0 <= j < 5 ==> listing_words(rs)[5 * i + j] == #[trigger] record_words(
                rs[i],
            )[j],
    decreases rs.len(),
{
    if rs.len() > 0 {
        let rest = rs.drop_last();
        lemma_listing_layout(rest);
        assert forall|i: int, j: int|
            0 <= i < rs.len() && 0 <= j < 5 implies listing_words(rs)[5 * i + j] == #[trigger] record_words(
                rs[i],
            )[j] by {
            if i < rs.len() - 1 {
                assert(rest[i] == rs[i]);
                assert(record_words(rest[i])[j] == listing_words(rest)[5 * i + j]);
            }
        }
    }
}

/// Law: reading a listing gives back the importers a module laid out, each
/// field from its place in the record: data first, then name, source, native
/// and import.
pub proof fn lemma_listing_round_trip(rs: Seq<ImporterRecord>)
    ensures
        listing_words(rs).len() / 5 == rs.len(),
        forall|i: int| 0 <= i < rs.len() ==> #[trigger] record_at(listing_words(rs), i) == rs[i],
{
    lemma_listing_layout(rs);
    assert forall|i: int| 0 <= i < rs.len() implies #[trigger] record_at(listing_words(rs), i) == rs[i] by {
        let w = listing_words(rs);
        assert(w[5 * i + 0] == record_words(rs[i])[0]);
        assert(w[5 * i + 1] == record_words(rs[i])[1]);
        assert(w[5 * i + 2] == record_words(rs[i])[2]);
        assert(w[5 * i + 3] == record_words(rs[i])[3]);
        assert(w[5 * i + 4] == record_words(rs[i])[4]);
    }
}

/// Reads the importer records from the words of the listing buffer, five words
/// each; words left over after the last whole record are ignored.
pub fn records_from_words(words: &[u32]) -> (r: Vec<ImporterRecord>)
    ensures
        r@.len() == words@.len() / 5,
        forall|i: int| 0 <= i < r@.len() ==> #[trigger] r@[i] == record_at(words@, i),
        forall|i: int|
            0 <= i < r@.len() ==> record_words(#[trigger] r@[i]) == words@.subrange(5 * i, 5 * i + 5),
{
    let len = words.len();
    let n = len / 5;
    let mut r: Vec<ImporterRecord> = Vec::new();
    let mut i: usize = 0;
    while i < n
        invariant
            len == words@.len(),
            n == words@.len() / 5,
            i <= n,
            r@.len() == i,
            forall|j: int| 0 <= j < i ==> #[trigger] r@[j] == record_at(words@, j),
            forall|j: int|
                0 <= j < i ==> record_words(#[trigger] r@[j]) == words@.subrange(5 * j, 5 * j + 5),
        decreases n - i,
    {
        assert(5 * (i as int) + 5 <= words@.len()) by (nonlinear_arith)
            requires
                i < n,
                n == words@.len() / 5,
        ;
        let b = 5 * i;
        let ghost before = r@;
        r.push(
            ImporterRecord {
                data: words[b],
                name: words[b + 1],
                source: words[b + 2],
                native: words[b + 3],
                import: words[b + 4],
            },
        );
        proof {
            assert(record_words(r@[i as int]) =~= words@.subrange(5 * i as int, 5 * i as int + 5));
            assert forall|j: int| 0 <= j < i + 1 implies record_words(#[trigger] r@[j])
                == words@.subrange(5 * j, 5 * j + 5) by {
                if j < i {
                    assert(r@[j] == before[j]);
                }
            }
        }
        i = i + 1;
    }
    r
}

/// Where an import's arguments lie in the module's memory: one allocation of
/// `size` bytes at `base` holds the source path, then the native path, then the
/// error buffer.
#[derive(Clone, Copy, Debug, PartialEq, Eq, Structural)]
pub struct ImportLayout {
    pub size: u32,
    pub source: u32,
    pub native: u32,
    pub error: u32,
}

/// Bytes to allocate for an import with paths of these lengths.
pub open spec fn import_size(source_len: int, native_len: int) -> int {
    source_len + native_len + ERROR_BUFFER_LEN
}

/// Size of the allocation for an import with paths of these lengths.
pub fn import_alloc_size(source_len: u32, native_len: u32) -> (r: u32)
    requires
        import_size(source_len as int, native_len as int) <= u32::MAX,
    ensures
        r == import_size(source_len as int, native_len as int),
{
    source_len + native_len + ERROR_BUFFER_LEN
}

/// Lays out an import's arguments in the allocation at `base`.
pub fn import_layout(base: u32, source_len: u32, native_len: u32) -> (r: ImportLayout)
    requires
        import_size(source_len as int, native_len as int) <= u32::MAX,
        base + source_len + native_len <= u32::MAX,
    ensures
        r.size == import_size(source_len as int, native_len as int),
        r.source == base,
        r.native == base + source_len,
        r.error == base + source_len + native_len,
        r.native + native_len == r.error,
        r.error + ERROR_BUFFER_LEN == base + r.size,
{
    ImportLayout {
        size: import_alloc_size(source_len, native_len),
        source: base,
        native: base + source_len,
        error: base + source_len + native_len,
    }
}

/// What an import's result says.
#[derive(Clone, Copy, Debug, PartialEq, Eq, Structural)]
pub enum ImportStatus {
    /// The import succeeded.
    Done,
    /// The import failed; its message is the first `len` bytes of the error buffer.
    Failed { len: u32 },
}

pub open spec fn import_status_of(code: int) -> ImportStatus {
    if code < 0 {
        ImportStatus::Failed { len: (-code) as u32 }
    } else {
        ImportStatus::Done
    }
}

/// Reads an import's result code: a negative code is a failure whose message
/// has as many bytes as the code's magnitude.
pub fn import_status(code: i32) -> (r: ImportStatus)
    requires
        code > i32::MIN,
    ensures
        r == import_status_of(code as int),
{
    if code < 0 {
        ImportStatus::Failed { len: (-code) as u32 }
    } else {
        ImportStatus::Done
    }
}

/// The error an import fails with, around the importer's message.
pub fn import_error_message(message: &str) -> (r: String)
    ensures
        r@ == "Importer error: '"@ + message@ + "'"@,
{
    let mut s = String::new();
    push_str(&mut s, "Importer error: '");
    push_str(&mut s, message);
    push_str(&mut s, "'");
    s
}

/// Whether a file in an importer directory is a module to load: its extension,
/// the part of its name after the last dot, is `wasm`, and the name does not
/// consist of that dot and extension alone.
pub open spec fn is_wasm_name(name: Seq<char>) -> bool {
    name.len() > 5 && name.skip(name.len() - 5) == ".wasm"@
}

/// Whether the file named `name` is a module to load importers from.
pub fn is_wasm_module(name: &str) -> (r: bool)
    ensures
        r == is_wasm_name(name@),
{
    let n = name.unicode_len();
    if n <= 5 {
        return false;
    }
    let tail = name.substring_char(n - 5, n);
    let r = crate::text::str_eq(tail, ".wasm");
    assert(tail@ =~= name@.skip(n - 5));
    r
}

/// Where an import through a WebAssembly importer stands.
pub enum ImportPhase {
    /// The registry lock is being released.
    Releasing,
    /// Memory for the paths and the error buffer is being allocated.
    Allocating,
    /// The paths are being written at `base`.
    Writing { base: u32 },
    /// The importer is running.
    Calling { base: u32 },
    /// The importer's error message, of `len` bytes, is being read.
    ReadingError { base: u32, len: u32 },
    /// The allocation is being freed; then the import ends, with the error
    /// message built from what the importer wrote, if it failed.
    Freeing { base: u32, error: Option<String> },
    /// The import is over.
    Finished,
}

/// What the driver reports back.
pub enum ImportEvent {
    /// The requested action is done.
    Done,
    /// The allocation is at `base`.
    Allocated { base: u32 },
    /// The importer returned `code`.
    Returned { code: i32 },
    /// The bytes of the importer's error message, as text.
    ErrorRead { text: String },
    /// Calling the importer or freeing the allocation failed with `message`.
    Failed { message: String },
}

/// What the driver must do next.
pub enum ImportAction {
    ReleaseRegistry,
    Allocate { size: u32 },
    WritePaths { source: u32, native: u32 },
    CallImporter { layout: ImportLayout },
    ReadError { at: u32, len: u32 },
    Free { base: u32, size: u32 },
    Finish(Result<(), String>),
}

/// An import of a source file of `source_len` bytes of path into a native file
/// of `native_len` bytes of path.
pub struct ImportTask {
    pub source_len: u32,
    pub native_len: u32,
    pub phase: ImportPhase,
}

/// Whether `event` answers the action asked for in `phase`.
pub open spec fn expected(phase: ImportPhase, event: ImportEvent) -> bool {
    match phase {
        ImportPhase::Releasing => event is Done,
        ImportPhase::Allocating => event is Allocated,
        ImportPhase::Writing { .. } => event is Done,
        ImportPhase::Calling { .. } => event is Returned || event is Failed,
        ImportPhase::ReadingError { .. } => event is ErrorRead,
        ImportPhase::Freeing { .. } => event is Done || event is Failed,
        ImportPhase::Finished => false,
    }
}

impl ImportTask {
    /// Starts an import: the registry lock is released first, so that the
    /// importer can store sub-assets while it runs.
    pub fn start(source_len: u32, native_len: u32) -> (r: (ImportTask, ImportAction))
        requires
            import_size(source_len as int, native_len as int) <= u32::MAX,
        ensures
            r.0.source_len == source_len,
            r.0.native_len == native_len,
            r.0.phase is Releasing,
            r.1 is ReleaseRegistry,
    {
        (ImportTask { source_len, native_len, phase: ImportPhase::Releasing }, ImportAction::ReleaseRegistry)
    }

    /// Takes the answer to the last action and returns the next one: allocate
    /// room for both paths and the error buffer, write the paths, call the
    /// importer, read its error message when it returned a negative code,
    /// free the allocation, and end with the import's result: success for a
    /// code that is not negative, otherwise the importer's message quoted. A
    /// failed call ends the import with its error at once; a failed free ends it
    /// with that error.
    pub fn step(&mut self, event: ImportEvent) -> (a: ImportAction)
        requires
            import_size(old(self).source_len as int, old(self).native_len as int) <= u32::MAX,
            expected(old(self).phase, event),
            event matches ImportEvent::Allocated { base } ==> base + import_size(
                old(self).source_len as int,
                old(self).native_len as int,
            ) <= u32::MAX,
            event matches ImportEvent::Returned { code } ==> code > i32::MIN,
            old(self).phase matches ImportPhase::Writing { base } ==> base + import_size(
                old(self).source_len as int,
                old(self).native_len as int,
            ) <= u32::MAX,
            old(self).phase matches ImportPhase::Calling { base } ==> base + import_size(
                old(self).source_len as int,
                old(self).native_len as int,
            ) <= u32::MAX,
        ensures
            final(self).source_len == old(self).source_len,
            final(self).native_len == old(self).native_len,
            ({
                let sl = old(self).source_len;
                let nl = old(self).native_len;
                let size = import_size(sl as int, nl as int);
                match old(self).phase {
                    ImportPhase::Releasing => final(self).phase is Allocating && a == (ImportAction::Allocate {
                        size: size as u32,
                    }),
                    ImportPhase::Allocating => match event {
                        ImportEvent::Allocated { base } => final(self).phase == (ImportPhase::Writing { base })
                            && a == (ImportAction::WritePaths { source: base, native: (base + sl) as u32 }),
                        _ => false,
                    },
                    ImportPhase::Writing { base } => final(self).phase == (ImportPhase::Calling { base })
                        && (a matches ImportAction::CallImporter { layout } && layout.source == base
                        && layout.native == base + sl && layout.error == base + sl + nl && layout.size
                        == size),
                    ImportPhase::Calling { base } => match event {
                        ImportEvent::Returned { code } => if code < 0 {
                            final(self).phase == (ImportPhase::ReadingError { base, len: (-code) as u32 })
                                && a == (ImportAction::ReadError {
                                at: (base + sl + nl) as u32,
                                len: (-code) as u32,
                            })
                        } else {
                            final(self).phase == (ImportPhase::Freeing { base, error: None })
                                && a == (ImportAction::Free { base, size: size as u32 })
                        },
                        ImportEvent::Failed { message } => final(self).phase is Finished && (a matches ImportAction::Finish(
                            Err(m),
                        ) && m@ == message@),
                        _ => false,
                    },
                    ImportPhase::ReadingError { base, len } => match event {
                        ImportEvent::ErrorRead { text } => (final(self).phase matches ImportPhase::Freeing {
                            base: b,
                            error: Some(m),
                        } && b == base && m@ == "Importer error: '"@ + text@ + "'"@) && a == (
                        ImportAction::Free { base, size: size as u32 }),
                        _ => false,
                    },
                    ImportPhase::Freeing { base, error } => final(self).phase is Finished && match event {
                        ImportEvent::Done => match error {
                            None => a matches ImportAction::Finish(Ok(())),
                            Some(e) => a matches ImportAction::Finish(Err(m)) && m@ == e@,
                        },
                        ImportEvent::Failed { message } => a matches ImportAction::Finish(Err(m))
                            && m@ == message@,
                        _ => false,
                    },
                    ImportPhase::Finished => false,
                }
            }),
    {
        let sl = self.source_len;
        let nl = self.native_len;
        let size = import_alloc_size(sl, nl);
        let mut phase = ImportPhase::Finished;
        std::mem::swap(&mut phase, &mut self.phase);
        match phase {
            ImportPhase::Releasing => {
                self.phase = ImportPhase::Allocating;
                ImportAction::Allocate { size }
            },
            ImportPhase::Allocating => match event {
                ImportEvent::Allocated { base } => {
                    self.phase = ImportPhase::Writing { base };
                    ImportAction::WritePaths { source: base, native: base + sl }
                },
                _ => ImportAction::Finish(Ok(())),
            },
            ImportPhase::Writing { base } => {
                self.phase = ImportPhase::Calling { base };
                ImportAction::CallImporter { layout: import_layout(base, sl, nl) }
            },
            ImportPhase::Calling { base } => match event {
                ImportEvent::Returned { code } => {
                    match import_status(code) {
                        ImportStatus::Failed { len } => {
                            self.phase = ImportPhase::ReadingError { base, len };
                            ImportAction::ReadError { at: base + sl + nl, len }
                        },
                        ImportStatus::Done => {
                            self.phase = ImportPhase::Freeing { base, error: None };
                            ImportAction::Free { base, size }
                        },
                    }
                },
                ImportEvent::Failed { message } => ImportAction::Finish(Err(message)),
                _ => ImportAction::Finish(Ok(())),
            },
            ImportPhase::ReadingError { base, len } => match event {
                ImportEvent::ErrorRead { text } => {
                    let message = import_error_message(text.as_str());
                    self.phase = ImportPhase::Freeing { base, error: Some(message) };
                    ImportAction::Free { base, size }
                },
                _ => ImportAction::Finish(Ok(())),
            },
            ImportPhase::Freeing { base, error } => match event {
                ImportEvent::Done => match error {
                    None => ImportAction::Finish(Ok(())),
                    Some(e) => ImportAction::Finish(Err(e)),
                },
                ImportEvent::Failed { message } => ImportAction::Finish(Err(message)),
                _ => ImportAction::Finish(Ok(())),
            },
            ImportPhase::Finished => ImportAction::Finish(Ok(())),
        }
    }
}

/// Law: an importer that fails with a message of `message_len` bytes into the
/// error buffer of an import is read by the treasury as failed, with the part of
/// the message that fits. A message of no bytes reads as success.
pub proof fn lemma_import_failure_is_read(message_len: nat)
    requires
        message_len > 0,
    ensures
        import_status_of(
            -crate::ffi::min(ERROR_BUFFER_LEN as int, message_len as int),
        ) == (ImportStatus::Failed {
            len: crate::ffi::min(ERROR_BUFFER_LEN as int, message_len as int) as u32,
        }),
{
}

} // verus!
