//! The buffer protocol between the treasury and importers loaded as plugins:
//! strings and identifiers are passed through caller-provided byte buffers,
//! and a negative length says that the buffer holds an error message.
use vstd::prelude::*;
use vstd::utf8::*;

verus! {

/// Length of the buffers an importer passes for replies.
pub const BUFFER_LEN: usize = 1024;

/// Opaque pointee of an importer's data pointer.
#[derive(Clone, Copy)]
pub struct ImporterOpaque {
    byte: u8,
}

pub open spec fn min(a: int, b: int) -> int {
    if a <= b {
        a
    } else {
        b
    }
}

/// A buffer after the first bytes of `data` were written at its start, as many
/// as fit.
pub open spec fn written(buf: Seq<u8>, data: Seq<u8>) -> Seq<u8> {
    let n = min(buf.len() as int, data.len() as int);
    data.take(n) + buf.skip(n)
}

/// Writes the bytes of `data` that fit at the start of `buf`; returns how many.
pub fn write_prefix(buf: &mut Vec<u8>, data: &[u8]) -> (n: usize)
    ensures
        final(buf)@ == written(old(buf)@, data@),
        n as int == min(old(buf)@.len() as int, data@.len() as int),
{
    let n = if buf.len() < data.len() {
        buf.len()
    } else {
        data.len()
    };
    let mut i: usize = 0;
    while i < n
        invariant
            n <= buf.len(),
            n <= data.len(),
            n as int == min(old(buf)@.len() as int, data@.len() as int),
            buf@.len() == old(buf)@.len(),
            i <= n,
            forall|j: int| 0 <= j < i ==> buf@[j] == data@[j],
            forall|j: int| i <= j < buf@.len() ==> buf@[j] == old(buf)@[j],
        decreases n - i,
    {
        buf.set(i, data[i]);
        i = i + 1;
    }
    assert(buf@ =~= written(old(buf)@, data@));
    n
}

/// An importer as seen through the plugin interface: its name and the source
/// and native formats it converts between.
pub struct ImporterFFI {
    name: String,
    source: String,
    native: String,
}

impl ImporterFFI {
    pub closed spec fn name(&self) -> Seq<char> {
        self.name@
    }

    pub closed spec fn source(&self) -> Seq<char> {
        self.source@
    }

    pub closed spec fn native(&self) -> Seq<char> {
        self.native@
    }

    /// Interface of the importer with the given name and formats.
    pub fn new(name: String, source: String, native: String) -> (r: ImporterFFI)
        ensures
            r.name() == name@,
            r.source() == source@,
            r.native() == native@,
    {
        ImporterFFI { name, source, native }
    }

    /// Writes the importer's name into `buf` and returns its length. The name
    /// must fit in the buffer.
    pub fn write_name(&self, buf: &mut Vec<u8>) -> (n: usize)
        requires
            encode_utf8(self.name()).len() <= old(buf)@.len(),
        ensures
            n == encode_utf8(self.name()).len(),
            final(buf)@ == written(old(buf)@, encode_utf8(self.name())),
    {
        let bytes = self.name.as_str().as_bytes();
        write_prefix(buf, bytes)
    }

    /// Writes the importer's source format into `buf` and returns its length.
    /// The text must fit in the buffer.
    pub fn write_source(&self, buf: &mut Vec<u8>) -> (n: usize)
        requires
            encode_utf8(self.source()).len() <= old(buf)@.len(),
        ensures
            n == encode_utf8(self.source()).len(),
            final(buf)@ == written(old(buf)@, encode_utf8(self.source())),
    {
        let bytes = self.source.as_str().as_bytes();
        write_prefix(buf, bytes)
    }

    /// Writes the importer's native format into `buf` and returns its length.
    /// The text must fit in the buffer.
    pub fn write_native(&self, buf: &mut Vec<u8>) -> (n: usize)
        requires
            encode_utf8(self.native()).len() <= old(buf)@.len(),
        ensures
            n == encode_utf8(self.native()).len(),
            final(buf)@ == written(old(buf)@, encode_utf8(self.native())),
    {
        let bytes = self.native.as_str().as_bytes();
        write_prefix(buf, bytes)
    }

    /// Reply of an import: 0 on success; on failure the message's bytes that
    /// fit are written into the error buffer and their count is returned negated.
    pub fn import_reply(result: Result<(), &[u8]>, error_buf: &mut Vec<u8>) -> (r: isize)
        requires
            old(error_buf)@.len() <= isize::MAX,
        ensures
            match result {
                Ok(()) => r == 0 && final(error_buf)@ == old(error_buf)@,
                Err(m) => r == -min(old(error_buf)@.len() as int, m@.len() as int) && final(error_buf)@ == written(old(error_buf)@, m@),
            },
    {
        match result {
            Ok(()) => 0,
            Err(message) => {
                let n = write_prefix(error_buf, message);
                -(n as isize)
            },
        }
    }
}

/// Reply of the treasury to a plugin's request.
#[derive(Debug)]
pub enum Reply {
    /// Success; the bytes of the answer.
    Answer(Vec<u8>),
    /// Failure; the bytes of the error message that fit.
    Failure(Vec<u8>),
}

/// Message the treasury writes when a buffer cannot hold an identifier.
pub open spec fn too_short_text() -> Seq<u8> {
    seq![84u8, 111, 111, 32, 115, 104, 111, 114, 116]
}

/// Message the treasury writes when a buffer cannot hold a path.
pub open spec fn path_buffer_too_small_text() -> Seq<u8> {
    seq![80u8, 97, 116, 104, 32, 98, 117, 102, 102, 101, 114, 32, 105, 115, 32, 116, 111, 111, 32,
        115, 109, 97, 108, 108]
}

/// Writes the treasury's reply to a plugin's request to store an asset: the
/// 16 bytes of the new asset's identifier when the buffer can hold them, else
/// an error. Returns the number of bytes written, negated for an error.
pub fn store_reply(outcome: Result<[u8; 16], &[u8]>, result_buf: &mut Vec<u8>) -> (r: i32)
    requires
        old(result_buf)@.len() <= i32::MAX,
    ensures
        match outcome {
            Ok(uuid) => if old(result_buf)@.len() >= 16 {
                r == 16 && final(result_buf)@ == written(old(result_buf)@, uuid@)
            } else {
                r == -min(old(result_buf)@.len() as int, 9) && final(result_buf)@ == written(
                    old(result_buf)@,
                    too_short_text(),
                )
            },
            Err(m) => r == -min(old(result_buf)@.len() as int, m@.len() as int) && final(result_buf)@ == written(old(result_buf)@, m@),
        },
{
    match outcome {
        Ok(uuid) => {
            if result_buf.len() >= 16 {
                let n = write_prefix(result_buf, uuid.as_slice());
                16
            } else {
                let msg: [u8; 9] = [84u8, 111, 111, 32, 115, 104, 111, 114, 116];
                assert(msg@ =~= too_short_text());
                let n = write_prefix(result_buf, msg.as_slice());
                -(n as i32)
            }
        },
        Err(message) => {
            let n = write_prefix(result_buf, message);
            -(n as i32)
        },
    }
}

/// Writes the treasury's reply to a plugin's request for the native path of an
/// asset: the path when the path buffer can hold it (returns its length), an
/// error in the error buffer otherwise (returns its length negated).
pub fn fetch_reply(outcome: Result<&[u8], &[u8]>, path_buf: &mut Vec<u8>, error_buf: &mut Vec<u8>) -> (r: i32)
    requires
        old(path_buf)@.len() <= i32::MAX,
        old(error_buf)@.len() <= i32::MAX,
    ensures
        match outcome {
            Ok(p) => if p@.len() <= old(path_buf)@.len() {
                r == p@.len() && final(path_buf)@ == written(old(path_buf)@, p@) && final(error_buf)@
                    == old(error_buf)@
            } else {
                r == -min(old(error_buf)@.len() as int, 24) && final(error_buf)@ == written(
                    old(error_buf)@,
                    path_buffer_too_small_text(),
                ) && final(path_buf)@ == old(path_buf)@
            },
            Err(m) => r == -min(old(error_buf)@.len() as int, m@.len() as int) && final(error_buf)@ == written(old(error_buf)@, m@) && final(path_buf)@ == old(path_buf)@,
        },
{
    match outcome {
        Ok(path) => {
            if path.len() <= path_buf.len() {
                let n = write_prefix(path_buf, path);
                n as i32
            } else {
                let msg: [u8; 24] = [80u8, 97, 116, 104, 32, 98, 117, 102, 102, 101, 114, 32, 105,
                    115, 32, 116, 111, 111, 32, 115, 109, 97, 108, 108];
                assert(msg@ =~= path_buffer_too_small_text());
                let n = write_prefix(error_buf, msg.as_slice());
                -(n as i32)
            }
        },
        Err(message) => {
            let n = write_prefix(error_buf, message);
            -(n as i32)
        },
    }
}

/// How a plugin reads a reply of `code` from a buffer of `BUFFER_LEN` bytes:
/// a negative code is an error whose message is the first `-code` bytes
/// (at most the buffer), otherwise the answer is the first `code` bytes.
pub open spec fn read_reply_spec(code: int, buf: Seq<u8>) -> (bool, Seq<u8>) {
    if code < 0 {
        (false, buf.take(min(-code, buf.len() as int)))
    } else {
        (true, buf.take(min(code, buf.len() as int)))
    }
}

/// Reads a reply of `code` from `buf`.
pub fn read_reply(code: isize, buf: &[u8]) -> (r: Reply)
    requires
        code > isize::MIN,
    ensures
        match r {
            Reply::Answer(v) => read_reply_spec(code as int, buf@) == (true, v@),
            Reply::Failure(v) => read_reply_spec(code as int, buf@) == (false, v@),
        },
{
    let (ok, len) = if code < 0 {
        (false, (-code) as usize)
    } else {
        (true, code as usize)
    };
    let n = if len < buf.len() {
        len
    } else {
        buf.len()
    };
    let mut v: Vec<u8> = Vec::new();
    let mut i: usize = 0;
    while i < n
        invariant
            n <= buf@.len(),
            i <= n,
            v@ == buf@.take(i as int),
        decreases n - i,
    {
        v.push(buf[i]);
        i = i + 1;
        assert(v@ =~= buf@.take(i as int));
    }
    if ok {
        Reply::Answer(v)
    } else {
        Reply::Failure(v)
    }
}

/// Reads the identifier of a stored asset from a successful reply: its first 16 bytes.
pub fn identifier_bytes(answer: &[u8]) -> (r: Option<[u8; 16]>)
    ensures
        answer@.len() >= 16 <==> r is Some,
        r matches Some(u) ==> u@ == answer@.take(16),
{
    if answer.len() < 16 {
        return None;
    }
    let mut u: [u8; 16] = [0u8; 16];
    let mut i: usize = 0;
    while i < 16
        invariant
            answer@.len() >= 16,
            i <= 16,
            u@.len() == 16,
            forall|j: int| 0 <= j < i ==> u@[j] == answer@[j],
        decreases 16 - i,
    {
        u[i] = answer[i];
        i = i + 1;
    }
    assert(u@ =~= answer@.take(16));
    Some(u)
}

/// Law: an identifier the treasury writes into a buffer of `BUFFER_LEN` bytes
/// is read back by the plugin as the same identifier.
pub proof fn lemma_store_reply_round_trip(uuid: Seq<u8>, buf: Seq<u8>)
    requires
        uuid.len() == 16,
        buf.len() == BUFFER_LEN,
    ensures
        read_reply_spec(16, written(buf, uuid)) == (true, uuid),
{
    let w = written(buf, uuid);
    assert(w.take(16) =~= uuid);
}

/// Law: an error message the treasury writes into a buffer is read back by
/// the plugin as the message's first bytes, as many as the buffer holds, when
/// at least one byte is written (a reply of zero bytes reads as success).
pub proof fn lemma_error_reply_round_trip(message: Seq<u8>, buf: Seq<u8>)
    requires
        buf.len() <= i32::MAX,
        buf.len() > 0,
        message.len() > 0,
    ensures
        read_reply_spec(-min(buf.len() as int, message.len() as int), written(buf, message)) == (
            false,
            message.take(min(buf.len() as int, message.len() as int)),
        ),
{
    let n = min(buf.len() as int, message.len() as int);
    let w = written(buf, message);
    assert(w.take(n) =~= message.take(n));
}

/// Importer that a plugin exports: it copies the source file to the native
/// file as it is.
pub struct PluginImporter;

impl PluginImporter {
    /// Name of the importer.
    pub fn name(&self) -> (r: &'static str)
        ensures
            r@ == "plugin"@,
    {
        "plugin"
    }

    /// Name of the source format.
    pub fn source(&self) -> (r: &'static str)
        ensures
            r@ == "source"@,
    {
        "source"
    }

    /// Name of the native format.
    pub fn native(&self) -> (r: &'static str)
        ensures
            r@ == "native"@,
    {
        "native"
    }
}

} // verus!
