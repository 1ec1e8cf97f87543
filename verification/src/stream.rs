use vstd::prelude::*;
use crate::{GlkFileMode, GlkRock, GlkSeekMode};
use crate::codec::{be_bytes_of_chars, u32_of_be};
use crate::mem_stream::{MemStream, mem_write_byte, mem_write, mem_read, mem_read_uni, is_scalar_value};
use crate::file_stream::{FileStream, file_write_byte, file_write, line_end, file_read_uni};
use crate::windows::GlkWindowID;

verus! {

/// An opaque stream ID
pub type GlkStreamID = u32;

/// The stats from the stream that is being closed
#[derive(Debug, Default, Clone, PartialEq, Eq, Structural)]
pub struct GlkStreamResult {
    /// number of characters that were read from this stream
    pub read_count: u32,
    /// number of characters that were written to this stream
    pub write_count: u32,
}

/// The typed failures a stream operation can report; a faulty caller gets
/// an error back instead of taking the interpreter down.
#[derive(Debug, Clone, Copy, PartialEq, Eq, Structural)]
pub enum GlkError {
    /// A write was attempted on a stream whose mode does not allow writing
    NotWritable,
    /// A read was attempted on a stream whose mode does not allow reading
    NotReadable,
    /// The stream ID does not name a live stream
    NoSuchStream,
    /// The window ID does not name a live window
    NoSuchWindow,
}

/// A byte sequence viewed as the characters a window shows: one character
/// per byte, as in Latin-1.
pub open spec fn chars_of_bytes(s: Seq<u8>) -> Seq<char> {
    s.map_values(|b: u8| b as char)
}

/// A count kept in 32 bits: additions past the top stick there.
pub open spec fn sat_add(a: u32, n: int) -> u32 {
    if a + n <= u32::MAX {
        (a + n) as u32
    } else {
        u32::MAX
    }
}

/// Add `n` to the 32-bit counter `a`, sticking at the top.
pub fn sat_add32(a: u32, n: usize) -> (r: u32)
    ensures
        r == sat_add(a, n as int),
{
    if n >= (u32::MAX - a) as usize {
        u32::MAX
    } else {
        a + n as u32
    }
}

/// One of the three interchangeable byte/char sinks a stream writes into:
/// a window's text, an in-memory buffer, or a file's bytes.
pub enum StreamBackend {
    /// the stream feeds a window; the characters shown so far are kept here
    Window {
        /// the window this stream belongs to
        winid: GlkWindowID,
        /// everything written to the window, in order
        textdata: Vec<char>,
    },
    /// the stream reads and writes an in-memory buffer
    Memory(MemStream),
    /// the stream reads and writes a file's bytes, on behalf of a file
    /// reference whose contents are stored back when the stream closes
    File {
        /// the open file's bytes and cursor
        fs: FileStream,
        /// the file reference whose file this is
        fileref: crate::file_stream::GlkFileRef,
    },
}

/// A live stream: a backend behind a mode gate, with running totals of the
/// logical units read and written.
pub struct GlkStream {
    /// where the bytes and characters go
    pub backend: StreamBackend,
    /// which operations this stream accepts
    pub mode: GlkFileMode,
    /// the caller's tag
    pub rock: GlkRock,
    /// logical units read so far
    pub read_count: u32,
    /// logical units written so far
    pub write_count: u32,
}

impl GlkStream {
    /// A stream is well formed when its memory backend is, and a window
    /// backend only ever sits behind a write-only gate: window streams are
    /// not read from.
    pub open spec fn wf(self) -> bool {
        match self.backend {
            StreamBackend::Memory(ms) => ms.wf(),
            StreamBackend::Window { .. } => self.mode == GlkFileMode::Write,
            StreamBackend::File { .. } => true,
        }
    }

    /// Everything except the write target and the write count is kept.
    pub open spec fn write_frame(pre: GlkStream, post: GlkStream) -> bool {
        &&& post.mode == pre.mode
        &&& post.rock == pre.rock
        &&& post.read_count == pre.read_count
    }

    /// Everything except the read cursor and the read count is kept.
    pub open spec fn read_frame(pre: GlkStream, post: GlkStream) -> bool {
        &&& post.mode == pre.mode
        &&& post.rock == pre.rock
        &&& post.write_count == pre.write_count
    }

    /// What writing one byte does: a window shows it as a character, a
    /// memory buffer stores it under its cursor, a file stores it at the
    /// write position; each counts one unit (a clipped memory write counts
    /// the bytes that fit).
    pub open spec fn put_char_rel(pre: GlkStream, post: GlkStream, ch: u8) -> bool {
        &&& Self::write_frame(pre, post)
        &&& match (pre.backend, post.backend) {
            (
                StreamBackend::Window { winid: w1, textdata: t1 },
                StreamBackend::Window { winid: w2, textdata: t2 },
            ) => {
                &&& w2 == w1
                &&& t2@ == t1@ + seq![ch as char]
                &&& post.write_count == sat_add(pre.write_count, 1)
            },
            (StreamBackend::Memory(m1), StreamBackend::Memory(m2)) => {
                &&& (m2@, m2.spec_cursor()) == mem_write_byte(m1@, m1.spec_cursor(), ch)
                &&& post.write_count == sat_add(
                    pre.write_count,
                    m2.spec_cursor() - m1.spec_cursor(),
                )
            },
            (StreamBackend::File { fs: f1, fileref: r1 }, StreamBackend::File { fs: f2, fileref: r2 }) => {
                &&& r2 == r1
                &&& (f2@, f2.spec_cursor()) == file_write_byte(f1@, f1.write_pos(), ch)
                &&& f2.spec_append() == f1.spec_append()
                &&& post.write_count == sat_add(pre.write_count, 1)
            },
            _ => false,
        }
    }

    /// What writing a string does: a window appends its characters and
    /// counts one unit each; a memory buffer stores four big-endian bytes
    /// per character and counts the bytes that fit; a file stores UTF-8
    /// and counts the bytes.
    pub open spec fn put_string_rel(pre: GlkStream, post: GlkStream, s: Seq<char>) -> bool {
        &&& Self::write_frame(pre, post)
        &&& match (pre.backend, post.backend) {
            (
                StreamBackend::Window { winid: w1, textdata: t1 },
                StreamBackend::Window { winid: w2, textdata: t2 },
            ) => {
                &&& w2 == w1
                &&& t2@ == t1@ + s
                &&& post.write_count == sat_add(pre.write_count, s.len() as int)
            },
            (StreamBackend::Memory(m1), StreamBackend::Memory(m2)) => {
                &&& (m2@, m2.spec_cursor()) == mem_write(
                    m1@,
                    m1.spec_cursor(),
                    be_bytes_of_chars(s),
                )
                &&& post.write_count == sat_add(
                    pre.write_count,
                    m2.spec_cursor() - m1.spec_cursor(),
                )
            },
            (StreamBackend::File { fs: f1, fileref: r1 }, StreamBackend::File { fs: f2, fileref: r2 }) => {
                &&& r2 == r1
                &&& f2@ == file_write(
                    f1@,
                    f1.write_pos(),
                    crate::codec::utf8_encode_chars(s),
                ).0
                &&& (s.len() > 0 ==> f2.spec_cursor() == file_write(
                    f1@,
                    f1.write_pos(),
                    crate::codec::utf8_encode_chars(s),
                ).1)
                &&& (s.len() == 0 ==> f2 == f1)
                &&& f2.spec_append() == f1.spec_append()
                &&& post.write_count == sat_add(
                    pre.write_count,
                    crate::codec::utf8_encode_chars(s).len() as int,
                )
            },
            _ => false,
        }
    }

    /// What writing a byte run does: a window shows one character per byte,
    /// a memory buffer stores the bytes that fit, a file stores them all;
    /// each byte is one unit.
    pub open spec fn put_buffer_rel(pre: GlkStream, post: GlkStream, data: Seq<u8>) -> bool {
        &&& Self::write_frame(pre, post)
        &&& match (pre.backend, post.backend) {
            (
                StreamBackend::Window { winid: w1, textdata: t1 },
                StreamBackend::Window { winid: w2, textdata: t2 },
            ) => {
                &&& w2 == w1
                &&& t2@ == t1@ + chars_of_bytes(data)
                &&& post.write_count == sat_add(pre.write_count, data.len() as int)
            },
            (StreamBackend::Memory(m1), StreamBackend::Memory(m2)) => {
                &&& (m2@, m2.spec_cursor()) == mem_write(m1@, m1.spec_cursor(), data)
                &&& post.write_count == sat_add(
                    pre.write_count,
                    m2.spec_cursor() - m1.spec_cursor(),
                )
            },
            (StreamBackend::File { fs: f1, fileref: r1 }, StreamBackend::File { fs: f2, fileref: r2 }) => {
                &&& r2 == r1
                &&& f2@ == file_write(f1@, f1.write_pos(), data).0
                &&& (data.len() > 0 ==> f2.spec_cursor() == file_write(
                    f1@,
                    f1.write_pos(),
                    data,
                ).1)
                &&& (data.len() == 0 ==> f2 == f1)
                &&& f2.spec_append() == f1.spec_append()
                &&& post.write_count == sat_add(pre.write_count, data.len() as int)
            },
            _ => false,
        }
    }

    /// What writing one code point does: a window shows it, a memory
    /// buffer stores four big-endian bytes, a file stores UTF-8; the fixed
    /// charge is four units (a clipped memory write counts what fit).
    pub open spec fn put_char_uni_rel(pre: GlkStream, post: GlkStream, ch: char) -> bool {
        &&& Self::write_frame(pre, post)
        &&& match (pre.backend, post.backend) {
            (
                StreamBackend::Window { winid: w1, textdata: t1 },
                StreamBackend::Window { winid: w2, textdata: t2 },
            ) => {
                &&& w2 == w1
                &&& t2@ == t1@ + seq![ch]
                &&& post.write_count == sat_add(pre.write_count, 4)
            },
            (StreamBackend::Memory(m1), StreamBackend::Memory(m2)) => {
                &&& (m2@, m2.spec_cursor()) == mem_write(
                    m1@,
                    m1.spec_cursor(),
                    crate::codec::be_bytes_of_u32(ch as u32),
                )
                &&& post.write_count == sat_add(
                    pre.write_count,
                    m2.spec_cursor() - m1.spec_cursor(),
                )
            },
            (StreamBackend::File { fs: f1, fileref: r1 }, StreamBackend::File { fs: f2, fileref: r2 }) => {
                &&& r2 == r1
                &&& (f2@, f2.spec_cursor()) == file_write(
                    f1@,
                    f1.write_pos(),
                    crate::codec::utf8_encode_char(ch),
                )
                &&& f2.spec_append() == f1.spec_append()
                &&& post.write_count == sat_add(pre.write_count, 4)
            },
            _ => false,
        }
    }

    /// What writing a run of code points does, four units each.
    pub open spec fn put_buffer_uni_rel(pre: GlkStream, post: GlkStream, s: Seq<char>) -> bool {
        &&& Self::write_frame(pre, post)
        &&& match (pre.backend, post.backend) {
            (
                StreamBackend::Window { winid: w1, textdata: t1 },
                StreamBackend::Window { winid: w2, textdata: t2 },
            ) => {
                &&& w2 == w1
                &&& t2@ == t1@ + s
                &&& post.write_count == sat_add(pre.write_count, 4 * s.len() as int)
            },
            (StreamBackend::Memory(m1), StreamBackend::Memory(m2)) => {
                &&& (m2@, m2.spec_cursor()) == mem_write(
                    m1@,
                    m1.spec_cursor(),
                    be_bytes_of_chars(s),
                )
                &&& post.write_count == sat_add(
                    pre.write_count,
                    m2.spec_cursor() - m1.spec_cursor(),
                )
            },
            (StreamBackend::File { fs: f1, fileref: r1 }, StreamBackend::File { fs: f2, fileref: r2 }) => {
                &&& r2 == r1
                &&& f2@ == file_write(
                    f1@,
                    f1.write_pos(),
                    crate::codec::utf8_encode_chars(s),
                ).0
                &&& (s.len() > 0 ==> f2.spec_cursor() == file_write(
                    f1@,
                    f1.write_pos(),
                    crate::codec::utf8_encode_chars(s),
                ).1)
                &&& (s.len() == 0 ==> f2 == f1)
                &&& f2.spec_append() == f1.spec_append()
                &&& post.write_count == sat_add(pre.write_count, 4 * s.len() as int)
            },
            _ => false,
        }
    }

    /// A fresh stream over `backend`, gated by `mode`, with zeroed counts.
    pub fn new(backend: StreamBackend, mode: GlkFileMode, rock: GlkRock) -> (r: GlkStream)
        ensures
            r.backend == backend,
            r.mode == mode,
            r.rock == rock,
            r.read_count == 0,
            r.write_count == 0,
    {
        GlkStream { backend, mode, rock, read_count: 0, write_count: 0 }
    }

    /// Write a byte. A stream not opened for writing refuses with a mode
    /// error and is left untouched.
    pub fn put_char(&mut self, ch: u8) -> (r: Result<(), GlkError>)
        requires
            old(self).wf(),
        ensures
            final(self).wf(),
            !old(self).mode.is_write() ==> r == Err::<(), GlkError>(GlkError::NotWritable)
                && *final(self) == *old(self),
            old(self).mode.is_write() ==> r == Ok::<(), GlkError>(())
                && Self::put_char_rel(*old(self), *final(self), ch),
    {
        if !self.mode.is_write() {
            return Err(GlkError::NotWritable);
        }
        let n: usize = match &mut self.backend {
            StreamBackend::Window { winid: _, textdata } => {
                textdata.push(ch as char);
                proof {
                    let t0 = old(self).backend->Window_textdata;
                    assert(textdata@ =~= t0@ + seq![ch as char]);
                }
                1
            },
            StreamBackend::Memory(ms) => ms.put_char(ch),
            StreamBackend::File { fs, .. } => fs.put_char(ch),
        };
        self.write_count = sat_add32(self.write_count, n);
        Ok(())
    }

    /// Write a string.
    pub fn put_string(&mut self, s: &str) -> (r: Result<(), GlkError>)
        requires
            old(self).wf(),
        ensures
            final(self).wf(),
            !old(self).mode.is_write() ==> r == Err::<(), GlkError>(GlkError::NotWritable)
                && *final(self) == *old(self),
            old(self).mode.is_write() ==> r == Ok::<(), GlkError>(())
                && Self::put_string_rel(*old(self), *final(self), s@),
    {
        if !self.mode.is_write() {
            return Err(GlkError::NotWritable);
        }
        let chars = crate::codec::string_chars(s);
        let n: usize = match &mut self.backend {
            StreamBackend::Window { winid: _, textdata } => {
                let len = chars.len();
                let mut tmp = chars;
                textdata.append(&mut tmp);
                len
            },
            StreamBackend::Memory(ms) => ms.put_buffer_uni(chars.as_slice()),
            StreamBackend::File { fs, .. } => {
                let bytes = crate::codec::encode_utf8_string(chars.as_slice());
                proof {
                    crate::codec::lemma_utf8_chars_len(s@);
                }
                fs.put_buffer(bytes.as_slice())
            },
        };
        self.write_count = sat_add32(self.write_count, n);
        Ok(())
    }

    /// Write a run of bytes.
    pub fn put_buffer(&mut self, data: &[u8]) -> (r: Result<(), GlkError>)
        requires
            old(self).wf(),
        ensures
            final(self).wf(),
            !old(self).mode.is_write() ==> r == Err::<(), GlkError>(GlkError::NotWritable)
                && *final(self) == *old(self),
            old(self).mode.is_write() ==> r == Ok::<(), GlkError>(())
                && Self::put_buffer_rel(*old(self), *final(self), data@),
    {
        if !self.mode.is_write() {
            return Err(GlkError::NotWritable);
        }
        let n: usize = match &mut self.backend {
            StreamBackend::Window { winid: _, textdata } => {
                let mut i: usize = 0;
                while i < data.len()
                    invariant
                        i <= data@.len(),
                        old(self).backend matches StreamBackend::Window { textdata: t0, .. }
                            && textdata@ == t0@ + chars_of_bytes(data@.subrange(0, i as int)),
                    decreases data@.len() - i,
                {
                    textdata.push(data[i] as char);
                    i = i + 1;
                    proof {
                        let t0 = old(self).backend->Window_textdata;
                        assert(textdata@ =~= t0@ + chars_of_bytes(
                            data@.subrange(0, i as int),
                        ));
                    }
                }
                proof {
                    assert(data@.subrange(0, data@.len() as int) =~= data@);
                }
                data.len()
            },
            StreamBackend::Memory(ms) => ms.put_buffer(data),
            StreamBackend::File { fs, .. } => fs.put_buffer(data),
        };
        self.write_count = sat_add32(self.write_count, n);
        Ok(())
    }

    /// Write one code point.
    pub fn put_char_uni(&mut self, ch: char) -> (r: Result<(), GlkError>)
        requires
            old(self).wf(),
        ensures
            final(self).wf(),
            !old(self).mode.is_write() ==> r == Err::<(), GlkError>(GlkError::NotWritable)
                && *final(self) == *old(self),
            old(self).mode.is_write() ==> r == Ok::<(), GlkError>(())
                && Self::put_char_uni_rel(*old(self), *final(self), ch),
    {
        if !self.mode.is_write() {
            return Err(GlkError::NotWritable);
        }
        let n: usize = match &mut self.backend {
            StreamBackend::Window { winid: _, textdata } => {
                textdata.push(ch);
                proof {
                    let t0 = old(self).backend->Window_textdata;
                    assert(textdata@ =~= t0@ + seq![ch]);
                }
                4
            },
            StreamBackend::Memory(ms) => ms.put_char_uni(ch),
            StreamBackend::File { fs, .. } => fs.put_char_uni(ch),
        };
        self.write_count = sat_add32(self.write_count, n);
        Ok(())
    }

    /// Write a run of code points.
    pub fn put_buffer_uni(&mut self, data: &[char]) -> (r: Result<(), GlkError>)
        requires
            old(self).wf(),
        ensures
            final(self).wf(),
            !old(self).mode.is_write() ==> r == Err::<(), GlkError>(GlkError::NotWritable)
                && *final(self) == *old(self),
            old(self).mode.is_write() ==> r == Ok::<(), GlkError>(())
                && Self::put_buffer_uni_rel(*old(self), *final(self), data@),
    {
        if !self.mode.is_write() {
            return Err(GlkError::NotWritable);
        }
        let n: usize = match &mut self.backend {
            StreamBackend::Window { winid: _, textdata } => {
                let mut i: usize = 0;
                while i < data.len()
                    invariant
                        i <= data@.len(),
                        old(self).backend matches StreamBackend::Window { textdata: t0, .. }
                            && textdata@ == t0@ + data@.subrange(0, i as int),
                    decreases data@.len() - i,
                {
                    textdata.push(data[i]);
                    i = i + 1;
                    proof {
                        let t0 = old(self).backend->Window_textdata;
                        assert(textdata@ =~= t0@ + data@.subrange(0, i as int));
                    }
                }
                proof {
                    assert(data@.subrange(0, data@.len() as int) =~= data@);
                }
                if data.len() > (usize::MAX / 4) {
                    usize::MAX
                } else {
                    4 * data.len()
                }
            },
            StreamBackend::Memory(ms) => ms.put_buffer_uni(data),
            StreamBackend::File { fs, .. } => {
                let bytes = crate::codec::encode_utf8_string(data);
                proof {
                    crate::codec::lemma_utf8_chars_len(data@);
                }
                let _ = fs.put_buffer(bytes.as_slice());
                if data.len() > (usize::MAX / 4) {
                    usize::MAX
                } else {
                    4 * data.len()
                }
            },
        };
        self.write_count = sat_add32(self.write_count, n);
        Ok(())
    }
}

} // verus!

verus! {

impl GlkStream {

    /// What reading one byte does: it comes from under the read cursor,
    /// which moves past it; at the end of the data nothing comes back and
    /// nothing moves. One unit per byte read.
    pub open spec fn get_char_rel(pre: GlkStream, post: GlkStream, v: Option<u8>) -> bool {
        &&& Self::read_frame(pre, post)
        &&& match (pre.backend, post.backend) {
            (StreamBackend::Memory(m1), StreamBackend::Memory(m2)) => {
                &&& m2@ == m1@
                &&& if m1.spec_cursor() < m1@.len() {
                    &&& v == Some(m1@[m1.spec_cursor()])
                    &&& m2.spec_cursor() == m1.spec_cursor() + 1
                    &&& post.read_count == sat_add(pre.read_count, 1)
                } else {
                    &&& v is None
                    &&& m2.spec_cursor() == m1.spec_cursor()
                    &&& post.read_count == pre.read_count
                }
            },
            (
                StreamBackend::File { fs: f1, fileref: r1 },
                StreamBackend::File { fs: f2, fileref: r2 },
            ) => {
                &&& r2 == r1
                &&& f2@ == f1@
                &&& f2.spec_append() == f1.spec_append()
                &&& if f1.spec_cursor() < f1@.len() {
                    &&& v == Some(f1@[f1.spec_cursor()])
                    &&& f2.spec_cursor() == f1.spec_cursor() + 1
                    &&& post.read_count == sat_add(pre.read_count, 1)
                } else {
                    &&& v is None
                    &&& f2.spec_cursor() == f1.spec_cursor()
                    &&& post.read_count == pre.read_count
                }
            },
            _ => false,
        }
    }

    /// Read one byte; `None` at the end of the data. One unit per byte
    /// read. A stream not opened for reading refuses with a mode error.
    pub fn get_char(&mut self) -> (r: Result<Option<u8>, GlkError>)
        requires
            old(self).wf(),
        ensures
            final(self).wf(),
            !old(self).mode.is_read() ==> r == Err::<Option<u8>, GlkError>(
                GlkError::NotReadable,
            ) && *final(self) == *old(self),
            old(self).mode.is_read() ==> (r matches Ok(v) && Self::get_char_rel(
                *old(self),
                *final(self),
                v,
            )),
    {
        if !self.mode.is_read() {
            return Err(GlkError::NotReadable);
        }
        let ch = match &mut self.backend {
            StreamBackend::Window { .. } => {
                proof {
                    assert(false);
                }
                None
            },
            StreamBackend::Memory(ms) => ms.get_char(),
            StreamBackend::File { fs, .. } => fs.get_char(),
        };
        if ch.is_some() {
            self.read_count = sat_add32(self.read_count, 1);
        }
        Ok(ch)
    }


    /// What a byte-run read does, per backend, with one unit counted per
    /// byte that came back.
    pub open spec fn get_buffer_rel(
        pre: GlkStream,
        post: GlkStream,
        maxlen: Option<usize>,
        v: Seq<u8>,
    ) -> bool {
        &&& Self::read_frame(pre, post)
        &&& post.read_count == sat_add(pre.read_count, v.len() as int)
        &&& match (pre.backend, post.backend) {
            (StreamBackend::Memory(m1), StreamBackend::Memory(m2)) => {
                &&& m2@ == m1@
                &&& (v, m2.spec_cursor()) == mem_read(
                    m1@,
                    m1.spec_cursor(),
                    m1.spec_read_count(maxlen, 1),
                    None,
                )
            },
            (
                StreamBackend::File { fs: f1, fileref: r1 },
                StreamBackend::File { fs: f2, fileref: r2 },
            ) => {
                &&& r2 == r1
                &&& f2@ == f1@
                &&& f2.spec_append() == f1.spec_append()
                &&& ({
                    let avail = if f1.spec_cursor() < f1@.len() {
                        f1@.len() - f1.spec_cursor()
                    } else {
                        0
                    };
                    let n = match maxlen {
                        Some(m) => if m < avail {
                            m as int
                        } else {
                            avail
                        },
                        None => avail,
                    };
                    &&& (n > 0 ==> v == f1@.subrange(f1.spec_cursor(), f1.spec_cursor() + n))
                    &&& (n == 0 ==> v == Seq::<u8>::empty())
                    &&& f2.spec_cursor() == f1.spec_cursor() + n
                })
            },
            _ => false,
        }
    }

    /// Read up to `maxlen` bytes, or everything left; one unit per byte.
    pub fn get_buffer(&mut self, maxlen: Option<usize>) -> (r: Result<Vec<u8>, GlkError>)
        requires
            old(self).wf(),
        ensures
            final(self).wf(),
            !old(self).mode.is_read() ==> r == Err::<Vec<u8>, GlkError>(
                GlkError::NotReadable,
            ) && *final(self) == *old(self),
            old(self).mode.is_read() ==> (r matches Ok(v) && Self::get_buffer_rel(
                *old(self),
                *final(self),
                maxlen,
                v@,
            )),
    {
        if !self.mode.is_read() {
            return Err(GlkError::NotReadable);
        }
        let out = match &mut self.backend {
            StreamBackend::Window { .. } => {
                proof {
                    assert(false);
                }
                Vec::new()
            },
            StreamBackend::Memory(ms) => ms.get_buffer(maxlen),
            StreamBackend::File { fs, .. } => fs.get_buffer(maxlen),
        };
        self.read_count = sat_add32(self.read_count, out.len());
        Ok(out)
    }


    /// What a line read does: the line runs through its newline, which is
    /// included, or to the end of the data or the limit; a file stream
    /// pushes back what a limit over-read; one unit per byte that came
    /// back.
    pub open spec fn get_line_rel(
        pre: GlkStream,
        post: GlkStream,
        maxlen: Option<usize>,
        v: Seq<u8>,
    ) -> bool {
        &&& Self::read_frame(pre, post)
        &&& post.read_count == sat_add(pre.read_count, v.len() as int)
        &&& match (pre.backend, post.backend) {
            (StreamBackend::Memory(m1), StreamBackend::Memory(m2)) => {
                &&& m2@ == m1@
                &&& (v, m2.spec_cursor()) == mem_read(
                    m1@,
                    m1.spec_cursor(),
                    m1.spec_read_count(maxlen, 1),
                    Some(10u8),
                )
            },
            (
                StreamBackend::File { fs: f1, fileref: r1 },
                StreamBackend::File { fs: f2, fileref: r2 },
            ) => {
                &&& r2 == r1
                &&& f2@ == f1@
                &&& f2.spec_append() == f1.spec_append()
                &&& ({
                    let c = f1.spec_cursor();
                    let e = line_end(f1@, c);
                    if c >= f1@.len() {
                        v == Seq::<u8>::empty() && f2.spec_cursor() == c
                    } else {
                        let n = match maxlen {
                            Some(m) => if m < f1@.len() - c {
                                m as int
                            } else {
                                f1@.len() - c
                            },
                            None => f1@.len() - c,
                        };
                        if e - c <= n {
                            v == f1@.subrange(c, e) && f2.spec_cursor() == e
                        } else {
                            v == f1@.subrange(c, c + n) && f2.spec_cursor() == c + n
                        }
                    }
                })
            },
            _ => false,
        }
    }

    /// Read a line of bytes, through its newline inclusive; one unit per
    /// byte returned.
    pub fn get_line(&mut self, maxlen: Option<usize>) -> (r: Result<Vec<u8>, GlkError>)
        requires
            old(self).wf(),
        ensures
            final(self).wf(),
            !old(self).mode.is_read() ==> r == Err::<Vec<u8>, GlkError>(
                GlkError::NotReadable,
            ) && *final(self) == *old(self),
            old(self).mode.is_read() ==> (r matches Ok(v) && Self::get_line_rel(
                *old(self),
                *final(self),
                maxlen,
                v@,
            )),
    {
        if !self.mode.is_read() {
            return Err(GlkError::NotReadable);
        }
        let out = match &mut self.backend {
            StreamBackend::Window { .. } => {
                proof {
                    assert(false);
                }
                Vec::new()
            },
            StreamBackend::Memory(ms) => ms.get_line(maxlen),
            StreamBackend::File { fs, .. } => fs.get_line(maxlen),
        };
        self.read_count = sat_add32(self.read_count, out.len());
        Ok(out)
    }


    /// What reading one code point does: four big-endian bytes from a
    /// memory stream, one UTF-8 sequence from a file; nothing comes back
    /// past the end of the data or from bytes that name no character, and
    /// a successful read counts four units.
    pub open spec fn get_char_uni_rel(pre: GlkStream, post: GlkStream, v: Option<char>)
        -> bool {
        &&& Self::read_frame(pre, post)
        &&& (v is Some ==> post.read_count == sat_add(pre.read_count, 4))
        &&& (v is None ==> post.read_count == pre.read_count)
        &&& match (pre.backend, post.backend) {
            (StreamBackend::Memory(m1), StreamBackend::Memory(m2)) => {
                &&& m2@ == m1@
                &&& (m1.spec_cursor() + 4 <= m1@.len() ==> {
                    let w = u32_of_be(
                        m1@[m1.spec_cursor()],
                        m1@[m1.spec_cursor() + 1],
                        m1@[m1.spec_cursor() + 2],
                        m1@[m1.spec_cursor() + 3],
                    );
                    &&& m2.spec_cursor() == m1.spec_cursor() + 4
                    &&& (is_scalar_value(w) ==> (v matches Some(c) && c as int == w as int))
                    &&& (!is_scalar_value(w) ==> v is None)
                })
                &&& (m1.spec_cursor() + 4 > m1@.len() ==> v is None)
            },
            (
                StreamBackend::File { fs: f1, fileref: r1 },
                StreamBackend::File { fs: f2, fileref: r2 },
            ) => {
                &&& r2 == r1
                &&& f2@ == f1@
                &&& f2.spec_append() == f1.spec_append()
                &&& (f1.spec_cursor() >= f1@.len() ==> v is None && f2.spec_cursor()
                    == f1.spec_cursor())
                &&& (f1.spec_cursor() < f1@.len() ==> {
                    let step = crate::codec::utf8_step(f1@, f1.spec_cursor());
                    &&& f2.spec_cursor() == step.1
                    &&& match step.0 {
                        None => v is None,
                        Some(w) => if is_scalar_value(w) {
                            v matches Some(c) && c as int == w as int
                        } else {
                            v is None
                        },
                    }
                })
            },
            _ => false,
        }
    }

    /// Read one code point: four big-endian bytes from a memory stream, a
    /// UTF-8 sequence from a file; four units when something comes back.
    pub fn get_char_uni(&mut self) -> (r: Result<Option<char>, GlkError>)
        requires
            old(self).wf(),
        ensures
            final(self).wf(),
            !old(self).mode.is_read() ==> r == Err::<Option<char>, GlkError>(
                GlkError::NotReadable,
            ) && *final(self) == *old(self),
            old(self).mode.is_read() ==> (r matches Ok(v) && Self::get_char_uni_rel(
                *old(self),
                *final(self),
                v,
            )),
    {
        if !self.mode.is_read() {
            return Err(GlkError::NotReadable);
        }
        let ch = match &mut self.backend {
            StreamBackend::Window { .. } => {
                proof {
                    assert(false);
                }
                None
            },
            StreamBackend::Memory(ms) => ms.get_char_uni(),
            StreamBackend::File { fs, .. } => fs.get_char_uni(),
        };
        if ch.is_some() {
            self.read_count = sat_add32(self.read_count, 4);
        }
        Ok(ch)
    }


    /// What a code-point-run read does, four units per code point that
    /// came back.
    pub open spec fn get_buffer_uni_read_rel(
        pre: GlkStream,
        post: GlkStream,
        maxlen: Option<usize>,
        v: Seq<char>,
    ) -> bool {
        &&& Self::read_frame(pre, post)
        &&& post.read_count == sat_add(pre.read_count, 4 * v.len() as int)
        &&& match (pre.backend, post.backend) {
            (StreamBackend::Memory(m1), StreamBackend::Memory(m2)) => {
                &&& m2@ == m1@
                &&& (v, m2.spec_cursor()) == mem_read_uni(
                    m1@,
                    m1.spec_cursor(),
                    m1.spec_read_count(maxlen, 4),
                    None,
                )
            },
            (
                StreamBackend::File { fs: f1, fileref: r1 },
                StreamBackend::File { fs: f2, fileref: r2 },
            ) => {
                &&& r2 == r1
                &&& f2@ == f1@
                &&& f2.spec_append() == f1.spec_append()
                &&& ({
                    let count = match maxlen {
                        Some(m) => m as int,
                        None => f1@.len() as int,
                    };
                    (v, f2.spec_cursor()) == file_read_uni(f1@, f1.spec_cursor(), count, false)
                })
            },
            _ => false,
        }
    }

    /// Read a run of code points; four units per code point returned.
    pub fn get_buffer_uni(&mut self, maxlen: Option<usize>) -> (r: Result<
        Vec<char>,
        GlkError,
    >)
        requires
            old(self).wf(),
        ensures
            final(self).wf(),
            !old(self).mode.is_read() ==> r == Err::<Vec<char>, GlkError>(
                GlkError::NotReadable,
            ) && *final(self) == *old(self),
            old(self).mode.is_read() ==> (r matches Ok(v) && Self::get_buffer_uni_read_rel(
                *old(self),
                *final(self),
                maxlen,
                v@,
            )),
    {
        if !self.mode.is_read() {
            return Err(GlkError::NotReadable);
        }
        let out = match &mut self.backend {
            StreamBackend::Window { .. } => {
                proof {
                    assert(false);
                }
                Vec::new()
            },
            StreamBackend::Memory(ms) => ms.get_buffer_uni(maxlen),
            StreamBackend::File { fs, .. } => fs.get_buffer_uni(maxlen),
        };
        let n = if out.len() > (usize::MAX / 4) {
            usize::MAX
        } else {
            4 * out.len()
        };
        self.read_count = sat_add32(self.read_count, n);
        Ok(out)
    }


    /// What a code-point line read does: the line runs through its
    /// newline, which is included; four units per code point that came
    /// back.
    pub open spec fn get_line_uni_read_rel(
        pre: GlkStream,
        post: GlkStream,
        maxlen: Option<usize>,
        v: Seq<char>,
    ) -> bool {
        &&& Self::read_frame(pre, post)
        &&& post.read_count == sat_add(pre.read_count, 4 * v.len() as int)
        &&& match (pre.backend, post.backend) {
            (StreamBackend::Memory(m1), StreamBackend::Memory(m2)) => {
                &&& m2@ == m1@
                &&& (v, m2.spec_cursor()) == mem_read_uni(
                    m1@,
                    m1.spec_cursor(),
                    m1.spec_read_count(maxlen, 4),
                    Some('\n'),
                )
            },
            (
                StreamBackend::File { fs: f1, fileref: r1 },
                StreamBackend::File { fs: f2, fileref: r2 },
            ) => {
                &&& r2 == r1
                &&& f2@ == f1@
                &&& f2.spec_append() == f1.spec_append()
                &&& ({
                    let count = match maxlen {
                        Some(m) => m as int,
                        None => f1@.len() as int,
                    };
                    (v, f2.spec_cursor()) == file_read_uni(f1@, f1.spec_cursor(), count, true)
                })
            },
            _ => false,
        }
    }

    /// Read a line of code points, through its newline inclusive; four
    /// units per code point.
    pub fn get_line_uni(&mut self, maxlen: Option<usize>) -> (r: Result<Vec<char>, GlkError>)
        requires
            old(self).wf(),
        ensures
            final(self).wf(),
            !old(self).mode.is_read() ==> r == Err::<Vec<char>, GlkError>(
                GlkError::NotReadable,
            ) && *final(self) == *old(self),
            old(self).mode.is_read() ==> (r matches Ok(v) && Self::get_line_uni_read_rel(
                *old(self),
                *final(self),
                maxlen,
                v@,
            )),
    {
        if !self.mode.is_read() {
            return Err(GlkError::NotReadable);
        }
        let out = match &mut self.backend {
            StreamBackend::Window { .. } => {
                proof {
                    assert(false);
                }
                Vec::new()
            },
            StreamBackend::Memory(ms) => ms.get_line_uni(maxlen),
            StreamBackend::File { fs, .. } => fs.get_line_uni(maxlen),
        };
        let n = if out.len() > (usize::MAX / 4) {
            usize::MAX
        } else {
            4 * out.len()
        };
        self.read_count = sat_add32(self.read_count, n);
        Ok(out)
    }

    /// Whether this stream feeds a window.
    pub fn is_window_stream(&self) -> (r: bool)
        ensures
            r == (self.backend is Window),
    {
        matches!(self.backend, StreamBackend::Window { .. })
    }

    /// Whether this stream sits on an in-memory buffer.
    pub fn is_memory_stream(&self) -> (r: bool)
        ensures
            r == (self.backend is Memory),
    {
        matches!(self.backend, StreamBackend::Memory(_))
    }

    /// The stream's position: window streams always report zero (Glk spec
    /// section 5.4).
    pub fn get_position(&self) -> (r: u32)
        ensures
            r == match self.backend {
                StreamBackend::Window { .. } => 0u32,
                StreamBackend::Memory(ms) => ms.spec_cursor() as u32,
                StreamBackend::File { fs, .. } => fs.spec_cursor() as u32,
            },
    {
        match &self.backend {
            StreamBackend::Window { .. } => 0,
            StreamBackend::Memory(ms) => ms.get_position(),
            StreamBackend::File { fs, .. } => fs.get_position(),
        }
    }

    /// Move the stream's position; window streams ignore the call (Glk
    /// spec section 5.4).
    pub fn set_position(&mut self, pos: i32, seekmode: GlkSeekMode) -> (r: Option<()>)
        requires
            old(self).wf(),
        ensures
            final(self).wf(),
            final(self).mode == old(self).mode,
            final(self).rock == old(self).rock,
            final(self).read_count == old(self).read_count,
            final(self).write_count == old(self).write_count,
            match (old(self).backend, final(self).backend) {
                (StreamBackend::Window { .. }, _) => r is Some && final(self).backend == old(
                    self,
                ).backend,
                (StreamBackend::Memory(m1), StreamBackend::Memory(m2)) => {
                    &&& m2@ == m1@
                    &&& ({
                        let target: int = match seekmode {
                            GlkSeekMode::Start => pos as int,
                            GlkSeekMode::Current => m1.spec_cursor() + pos as int,
                            GlkSeekMode::End => m1@.len() + pos as int,
                        };
                        if target < 0 || target > m1@.len() {
                            r is None && m2.spec_cursor() == m1.spec_cursor()
                        } else {
                            r is Some && m2.spec_cursor() == target
                        }
                    })
                },
                (StreamBackend::File { fs: f1, fileref: r1 }, StreamBackend::File { fs: f2, fileref: r2 }) => {
                &&& r2 == r1
                    &&& f2@ == f1@
                    &&& f2.spec_append() == f1.spec_append()
                    &&& ({
                        let target: int = match seekmode {
                            GlkSeekMode::Start => pos as int,
                            GlkSeekMode::Current => f1.spec_cursor() + pos as int,
                            GlkSeekMode::End => f1@.len() + pos as int,
                        };
                        let refused = (seekmode is Start && pos < 0) || (seekmode is End
                            && pos > 0) || target < 0 || target > usize::MAX;
                        if refused {
                            r is None && f2.spec_cursor() == f1.spec_cursor()
                        } else {
                            r is Some && f2.spec_cursor() == target
                        }
                    })
                },
                _ => false,
            },
    {
        match &mut self.backend {
            StreamBackend::Window { .. } => Some(()),
            StreamBackend::Memory(ms) => ms.set_position(pos, seekmode),
            StreamBackend::File { fs, .. } => fs.set_position(pos, seekmode),
        }
    }

    /// A memory stream's whole buffer, as handed back when the stream
    /// closes; other backends have no buffer to hand back.
    pub fn get_data(&self) -> (r: Vec<u8>)
        ensures
            r@ == match self.backend {
                StreamBackend::Memory(ms) => ms@,
                StreamBackend::File { fs, .. } => fs@,
                StreamBackend::Window { .. } => Seq::<u8>::empty(),
            },
    {
        match &self.backend {
            StreamBackend::Memory(ms) => ms.get_data(),
            StreamBackend::File { fs, .. } => fs.get_data(),
            StreamBackend::Window { .. } => Vec::new(),
        }
    }

    /// The running totals of logical units read and written.
    pub fn get_results(&self) -> (r: GlkStreamResult)
        ensures
            r.read_count == self.read_count,
            r.write_count == self.write_count,
    {
        GlkStreamResult { read_count: self.read_count, write_count: self.write_count }
    }
}

/// Owns the table of live streams, keyed by an identity that is never
/// reused: closing a stream leaves a permanent gap.
pub struct StreamManager {
    /// each identity's stream; a closed stream leaves `None` behind
    pub streams: Vec<Option<GlkStream>>,
}

impl StreamManager {
    /// Every live stream is well formed.
    pub open spec fn wf(self) -> bool {
        forall|i: int|
            0 <= i < self.streams@.len() ==> (#[trigger] self.streams@[i] matches Some(s)
                ==> s.wf())
    }

    /// The stream `id` names, if it is live.
    pub open spec fn spec_get(self, id: GlkStreamID) -> Option<GlkStream> {
        if (id as int) < self.streams@.len() {
            self.streams@[id as int]
        } else {
            None
        }
    }

    /// A manager with no streams.
    pub fn new() -> (r: StreamManager)
        ensures
            r.wf(),
            r.streams@.len() == 0,
    {
        StreamManager { streams: Vec::new() }
    }

    /// Register a stream under the next free identity.
    pub fn new_stream(&mut self, stream: GlkStream) -> (r: GlkStreamID)
        requires
            old(self).wf(),
            stream.wf(),
            old(self).streams@.len() < GlkStreamID::MAX,
        ensures
            final(self).wf(),
            r == old(self).streams@.len(),
            final(self).streams@ == old(self).streams@.push(Some(stream)),
    {
        let id = self.streams.len() as GlkStreamID;
        self.streams.push(Some(stream));
        id
    }

    /// Remove the stream `id` and hand it back; its identity stays dead.
    pub fn close(&mut self, id: GlkStreamID) -> (r: Option<GlkStream>)
        requires
            old(self).wf(),
        ensures
            final(self).wf(),
            r == old(self).spec_get(id),
            old(self).spec_get(id) is None ==> final(self).streams@ == old(self).streams@,
            old(self).spec_get(id) is Some ==> {
                &&& final(self).streams@ == old(self).streams@.update(id as int, None)
                &&& r matches Some(s) && s.wf()
            },
    {
        if (id as usize) >= self.streams.len() {
            return None;
        }
        let slot = &mut self.streams[id as usize];
        let taken = slot.take();
        proof {
            if taken is None {
                assert(self.streams@ =~= old(self).streams@);
            } else {
                assert(self.streams@ =~= old(self).streams@.update(id as int, None));
            }
            assert forall|i: int|
                0 <= i < self.streams@.len() implies (#[trigger] self.streams@[i] matches Some(
                st,
            ) ==> st.wf()) by {
                if i != id as int {
                    assert(self.streams@[i] == old(self).streams@[i]);
                }
            }
        }
        taken
    }
}

} // verus!

verus! {

impl StreamManager {
    /// Borrow the stream `id` names, if it is live.
    pub fn get(&self, id: GlkStreamID) -> (r: Option<&GlkStream>)
        ensures
            match self.spec_get(id) {
                Some(s) => r matches Some(b) && *b == s,
                None => r is None,
            },
    {
        if (id as usize) >= self.streams.len() {
            return None;
        }
        match &self.streams[id as usize] {
            Some(s) => Some(s),
            None => None,
        }
    }
}

} // verus!

verus! {

/// Below the counter's top the saturating addition is exact: every read
/// and write count rises by exactly the logical units read or written,
/// until the 32-bit counter would overflow and sticks at its top.
pub proof fn lemma_sat_add_exact(a: u32, n: int)
    requires
        0 <= n,
        a + n <= u32::MAX,
    ensures
        sat_add(a, n) == a + n,
{
}

} // verus!
