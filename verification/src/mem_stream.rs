use vstd::prelude::*;
use crate::GlkSeekMode;
use crate::codec::{be_bytes_of_u32, u32_be_bytes, u32_of_be, char_from_u32};

verus! {

/// Whether a 32-bit value names a Unicode scalar value.
pub open spec fn is_scalar_value(v: u32) -> bool {
    (v as int) < 0xD800 || (0xE000 <= (v as int) && (v as int) < 0x110000)
}

/// Writing one byte into a fixed buffer at a cursor: within the buffer the
/// byte lands and the cursor moves on; at the end the byte is dropped.
pub open spec fn mem_write_byte(buf: Seq<u8>, cursor: int, x: u8) -> (Seq<u8>, int) {
    if 0 <= cursor < buf.len() {
        (buf.update(cursor, x), cursor + 1)
    } else {
        (buf, cursor)
    }
}

/// Writing a run of bytes, one after the other, under the same clipping
/// rule.
pub open spec fn mem_write(buf: Seq<u8>, cursor: int, data: Seq<u8>) -> (Seq<u8>, int)
    decreases data.len(),
{
    if data.len() == 0 {
        (buf, cursor)
    } else {
        let step = mem_write_byte(buf, cursor, data[0]);
        mem_write(step.0, step.1, data.drop_first())
    }
}

/// Reading up to `count` bytes from `cursor`, stopping at the terminator
/// `end`, which is consumed and included in the result, or at the end of
/// the buffer.
pub open spec fn mem_read(buf: Seq<u8>, cursor: int, count: int, end: Option<u8>) -> (
    Seq<u8>,
    int,
)
    decreases count,
{
    if count <= 0 || cursor < 0 || cursor >= buf.len() {
        (Seq::empty(), cursor)
    } else {
        let ch = buf[cursor];
        if end == Some(ch) {
            (seq![ch], cursor + 1)
        } else {
            let rest = mem_read(buf, cursor + 1, count - 1, end);
            (seq![ch] + rest.0, rest.1)
        }
    }
}

/// Reading up to `count` code points, each four big-endian bytes, from
/// `cursor`: a group that names no scalar value is skipped, and the `end`
/// character stops the read, consumed and included in the result.
pub open spec fn mem_read_uni(buf: Seq<u8>, cursor: int, count: int, end: Option<char>) -> (
    Seq<char>,
    int,
)
    decreases count,
{
    if count <= 0 || cursor < 0 || cursor + 4 > buf.len() {
        (Seq::empty(), cursor)
    } else {
        let v = u32_of_be(buf[cursor], buf[cursor + 1], buf[cursor + 2], buf[cursor + 3]);
        if !is_scalar_value(v) {
            let rest = mem_read_uni(buf, cursor + 4, count - 1, end);
            (rest.0, rest.1)
        } else {
            let ch = v as char;
            if end == Some(ch) {
                (seq![ch], cursor + 4)
            } else {
                let rest = mem_read_uni(buf, cursor + 4, count - 1, end);
                (seq![ch] + rest.0, rest.1)
            }
        }
    }
}

/// An in-memory stream backend: a byte buffer the caller handed over, plus
/// a cursor. Reads and writes move the cursor; writes past the end of the
/// buffer are dropped, the buffer never grows.
#[derive(Debug)]
pub struct MemStream {
    /// the caller's buffer, returned when the stream closes
    buf: Vec<u8>,
    /// the position of the next read or write
    cursor: usize,
}

impl MemStream {
    /// The buffer contents.
    pub closed spec fn view(&self) -> Seq<u8> {
        self.buf@
    }

    /// The cursor position.
    pub closed spec fn spec_cursor(&self) -> int {
        self.cursor as int
    }

    /// The cursor never leaves the buffer.
    pub closed spec fn wf(&self) -> bool {
        self.cursor <= self.buf@.len()
    }

    /// A memory stream over `buf`, positioned at its start.
    pub fn new(buf: Vec<u8>) -> (r: MemStream)
        ensures
            r.wf(),
            r@ == buf@,
            r.spec_cursor() == 0,
    {
        MemStream { buf, cursor: 0 }
    }

    /// Write one byte at the cursor; a full buffer drops it. Returns how
    /// many bytes were stored.
    pub fn put_char(&mut self, ch: u8) -> (r: usize)
        requires
            old(self).wf(),
        ensures
            final(self).wf(),
            (final(self)@, final(self).spec_cursor()) == mem_write_byte(
                old(self)@,
                old(self).spec_cursor(),
                ch,
            ),
            r == final(self).spec_cursor() - old(self).spec_cursor(),
    {
        if self.cursor < self.buf.len() {
            self.buf[self.cursor] = ch;
            self.cursor = self.cursor + 1;
            1
        } else {
            0
        }
    }

    /// Write one code point as four big-endian bytes; at the end of the
    /// buffer only the bytes that fit are stored. Returns how many bytes
    /// were stored.
    pub fn put_char_uni(&mut self, ch: char) -> (r: usize)
        requires
            old(self).wf(),
        ensures
            final(self).wf(),
            (final(self)@, final(self).spec_cursor()) == mem_write(
                old(self)@,
                old(self).spec_cursor(),
                be_bytes_of_u32(ch as u32),
            ),
            r == final(self).spec_cursor() - old(self).spec_cursor(),
    {
        let ghost data = be_bytes_of_u32(ch as u32);
        let (b0, b1, b2, b3) = u32_be_bytes(ch as u32);
        let ghost c0 = self.spec_cursor();
        let n0 = self.put_char(b0);
        let n1 = self.put_char(b1);
        let n2 = self.put_char(b2);
        let n3 = self.put_char(b3);
        proof {
            reveal_with_fuel(mem_write, 5);
            assert(data =~= seq![b0, b1, b2, b3]);
            assert(data.drop_first() =~= seq![b1, b2, b3]);
            assert(data.drop_first().drop_first() =~= seq![b2, b3]);
            assert(data.drop_first().drop_first().drop_first() =~= seq![b3]);
            assert(data.drop_first().drop_first().drop_first().drop_first()
                =~= Seq::<u8>::empty());
        }
        n0 + n1 + n2 + n3
    }

    /// Write a run of bytes at the cursor; what does not fit is dropped.
    /// Returns how many bytes were stored.
    pub fn put_buffer(&mut self, data: &[u8]) -> (r: usize)
        requires
            old(self).wf(),
        ensures
            final(self).wf(),
            (final(self)@, final(self).spec_cursor()) == mem_write(
                old(self)@,
                old(self).spec_cursor(),
                data@,
            ),
            r == final(self).spec_cursor() - old(self).spec_cursor(),
    {
        let ghost goal = mem_write(self@, self.spec_cursor(), data@);
        let start = self.cursor;
        let ghost c0 = self.spec_cursor();
        proof {
            assert(data@.subrange(0, data@.len() as int) =~= data@);
        }
        let mut i: usize = 0;
        while i < data.len()
            invariant
                self.wf(),
                i <= data@.len(),
                c0 == start as int,
                c0 <= self.spec_cursor(),
                self.spec_cursor() - c0 <= i,
                mem_write(self@, self.spec_cursor(), data@.subrange(i as int, data@.len() as int))
                    == goal,
            decreases data@.len() - i,
        {
            let ghost remaining = data@.subrange(i as int, data@.len() as int);
            let _ = self.put_char(data[i]);
            proof {
                assert(remaining[0] == data@[i as int]);
                assert(remaining.drop_first() =~= data@.subrange(
                    i + 1 as int,
                    data@.len() as int,
                ));
            }
            i = i + 1;
        }
        proof {
            assert(data@.subrange(data@.len() as int, data@.len() as int)
                =~= Seq::<u8>::empty());
        }
        self.cursor - start
    }

    /// Write each character of a run of code points as four big-endian
    /// bytes. Returns how many bytes were stored.
    pub fn put_buffer_uni(&mut self, data: &[char]) -> (r: usize)
        requires
            old(self).wf(),
        ensures
            final(self).wf(),
            (final(self)@, final(self).spec_cursor()) == mem_write(
                old(self)@,
                old(self).spec_cursor(),
                crate::codec::be_bytes_of_chars(data@),
            ),
            r == final(self).spec_cursor() - old(self).spec_cursor(),
    {
        let ghost goal = mem_write(
            self@,
            self.spec_cursor(),
            crate::codec::be_bytes_of_chars(data@),
        );
        let start = self.cursor;
        let ghost c0 = self.spec_cursor();
        proof {
            assert(data@.subrange(0, data@.len() as int) =~= data@);
        }
        let mut i: usize = 0;
        while i < data.len()
            invariant
                self.wf(),
                i <= data@.len(),
                c0 == start as int,
                c0 <= self.spec_cursor(),
                mem_write(
                    self@,
                    self.spec_cursor(),
                    crate::codec::be_bytes_of_chars(
                        data@.subrange(i as int, data@.len() as int),
                    ),
                ) == goal,
            decreases data@.len() - i,
        {
            let ghost remaining = data@.subrange(i as int, data@.len() as int);
            let ghost pre = self@;
            let ghost prec = self.spec_cursor();
            let _ = self.put_char_uni(data[i]);
            proof {
                assert(remaining[0] == data@[i as int]);
                assert(remaining.drop_first() =~= data@.subrange(
                    i + 1 as int,
                    data@.len() as int,
                ));
                crate::codec::lemma_be_chars_unfold(remaining);
                Self::lemma_mem_write_append(
                    pre,
                    prec,
                    be_bytes_of_u32(data@[i as int] as u32),
                    crate::codec::be_bytes_of_chars(
                        data@.subrange(i + 1 as int, data@.len() as int),
                    ),
                );
            }
            i = i + 1;
        }
        proof {
            assert(data@.subrange(data@.len() as int, data@.len() as int)
                =~= Seq::<char>::empty());
        }
        self.cursor - start
    }

    /// Writing one run of bytes and then another is writing their
    /// concatenation.
    pub proof fn lemma_mem_write_append(buf: Seq<u8>, cursor: int, d1: Seq<u8>, d2: Seq<u8>)
        ensures
            mem_write(buf, cursor, d1 + d2) == {
                let step = mem_write(buf, cursor, d1);
                mem_write(step.0, step.1, d2)
            },
        decreases d1.len(),
    {
        if d1.len() == 0 {
            assert(d1 + d2 =~= d2);
        } else {
            let step = mem_write_byte(buf, cursor, d1[0]);
            Self::lemma_mem_write_append(step.0, step.1, d1.drop_first(), d2);
            assert((d1 + d2).drop_first() =~= d1.drop_first() + d2);
        }
    }

    /// Read one byte at the cursor; at the end of the buffer there is
    /// nothing to read.
    pub fn get_char(&mut self) -> (r: Option<u8>)
        requires
            old(self).wf(),
        ensures
            final(self).wf(),
            final(self)@ == old(self)@,
            old(self).spec_cursor() < old(self)@.len() ==> {
                &&& r == Some(old(self)@[old(self).spec_cursor()])
                &&& final(self).spec_cursor() == old(self).spec_cursor() + 1
            },
            old(self).spec_cursor() >= old(self)@.len() ==> {
                &&& r is None
                &&& final(self).spec_cursor() == old(self).spec_cursor()
            },
    {
        if self.cursor < self.buf.len() {
            self.cursor = self.cursor + 1;
            Some(self.buf[self.cursor - 1])
        } else {
            None
        }
    }

    /// How many items a read may deliver: the caller's limit, or what is
    /// left, whichever is smaller; `unit` is the bytes one item takes.
    fn read_count(&self, maxlen: Option<usize>, unit: usize) -> (r: usize)
        requires
            self.wf(),
            unit == 1 || unit == 4,
        ensures
            r == self.spec_read_count(maxlen, unit as int),
    {
        let remaining = (self.buf.len() - self.cursor) / unit;
        match maxlen {
            Some(m) => if m < remaining {
                m
            } else {
                remaining
            },
            None => remaining,
        }
    }

    /// The count `read_count` answers.
    pub open spec fn spec_read_count(&self, maxlen: Option<usize>, unit: int) -> int {
        let remaining = (self@.len() - self.spec_cursor()) / unit;
        match maxlen {
            Some(m) => if m < remaining {
                m as int
            } else {
                remaining
            },
            None => remaining,
        }
    }

    /// Read up to `maxlen` bytes (or to the end), stopping after an `end`
    /// byte, which is consumed and included in the result.
    fn get_bytes(&mut self, maxlen: Option<usize>, end_char: Option<u8>) -> (r: Vec<u8>)
        requires
            old(self).wf(),
        ensures
            final(self).wf(),
            final(self)@ == old(self)@,
            (r@, final(self).spec_cursor()) == mem_read(
                old(self)@,
                old(self).spec_cursor(),
                old(self).spec_read_count(maxlen, 1),
                end_char,
            ),
    {
        let count = self.read_count(maxlen, 1);
        let ghost goal = mem_read(self@, self.spec_cursor(), count as int, end_char);
        let mut result: Vec<u8> = Vec::new();
        let mut i: usize = 0;
        while i < count
            invariant
                self.wf(),
                self@ == old(self)@,
                i <= count,
                count <= self@.len(),
                self.spec_cursor() + (count - i) <= self@.len(),
                count == old(self).spec_read_count(maxlen, 1),
                goal == mem_read(
                    old(self)@,
                    old(self).spec_cursor(),
                    count as int,
                    end_char,
                ),
                goal == {
                    let rest = mem_read(
                        self@,
                        self.spec_cursor(),
                        count - i,
                        end_char,
                    );
                    (result@ + rest.0, rest.1)
                },
            decreases count - i,
        {
            let ghost pre_cursor = self.spec_cursor();
            let ghost pre_result = result@;
            let ghost rest_pre = mem_read(self@, pre_cursor, count - i, end_char);
            let ch = match self.get_char() {
                Some(c) => c,
                None => {
                    proof {
                        assert(false);
                    }
                    return result;
                },
            };
            if end_char == Some(ch) {
                result.push(ch);
                proof {
                    assert(rest_pre == (seq![ch], pre_cursor + 1));
                    assert(pre_result + seq![ch] =~= result@);
                }
                return result;
            }
            result.push(ch);
            i = i + 1;
            proof {
                let rest_post = mem_read(self@, self.spec_cursor(), count - i, end_char);
                assert(rest_pre.0 == seq![ch] + rest_post.0);
                assert(pre_result + rest_pre.0 =~= result@ + rest_post.0);
            }
        }
        proof {
            assert(mem_read(self@, self.spec_cursor(), 0, end_char)
                == (Seq::<u8>::empty(), self.spec_cursor()));
            assert(result@ + Seq::<u8>::empty() =~= result@);
        }
        result
    }

    /// Read up to `maxlen` bytes, or everything left.
    pub fn get_buffer(&mut self, maxlen: Option<usize>) -> (r: Vec<u8>)
        requires
            old(self).wf(),
        ensures
            final(self).wf(),
            final(self)@ == old(self)@,
            (r@, final(self).spec_cursor()) == mem_read(
                old(self)@,
                old(self).spec_cursor(),
                old(self).spec_read_count(maxlen, 1),
                None,
            ),
    {
        self.get_bytes(maxlen, None)
    }

    /// Read bytes through the next newline; the newline is consumed and
    /// included in the result.
    pub fn get_line(&mut self, maxlen: Option<usize>) -> (r: Vec<u8>)
        requires
            old(self).wf(),
        ensures
            final(self).wf(),
            final(self)@ == old(self)@,
            (r@, final(self).spec_cursor()) == mem_read(
                old(self)@,
                old(self).spec_cursor(),
                old(self).spec_read_count(maxlen, 1),
                Some(10u8),
            ),
    {
        self.get_bytes(maxlen, Some(10u8))
    }

    /// Read one code point stored as four big-endian bytes. Fewer than four
    /// bytes left reads nothing; four bytes that name no scalar value are
    /// consumed and answer `None`.
    pub fn get_char_uni(&mut self) -> (r: Option<char>)
        requires
            old(self).wf(),
        ensures
            final(self).wf(),
            final(self)@ == old(self)@,
            old(self).spec_cursor() + 4 <= old(self)@.len() ==> {
                let v = u32_of_be(
                    old(self)@[old(self).spec_cursor()],
                    old(self)@[old(self).spec_cursor() + 1],
                    old(self)@[old(self).spec_cursor() + 2],
                    old(self)@[old(self).spec_cursor() + 3],
                );
                &&& final(self).spec_cursor() == old(self).spec_cursor() + 4
                &&& (is_scalar_value(v) ==> (r matches Some(c) && c as int == v as int))
                &&& (!is_scalar_value(v) ==> r is None)
            },
            old(self).spec_cursor() + 4 > old(self)@.len() ==> {
                &&& r is None
                &&& final(self).spec_cursor() == if old(self)@.len() - old(self).spec_cursor()
                    >= 1 {
                    old(self)@.len() as int
                } else {
                    old(self).spec_cursor()
                }
            },
    {
        let mut result: u32 = 0;
        let ghost c0 = self.spec_cursor();
        let b0 = match self.get_char() {
            Some(b) => b,
            None => {
                return None;
            },
        };
        let b1 = match self.get_char() {
            Some(b) => b,
            None => {
                return None;
            },
        };
        let b2 = match self.get_char() {
            Some(b) => b,
            None => {
                return None;
            },
        };
        let b3 = match self.get_char() {
            Some(b) => b,
            None => {
                return None;
            },
        };
        let v = ((b0 as u32) << 24) | ((b1 as u32) << 16) | ((b2 as u32) << 8) | (b3 as u32);
        char_from_u32(v)
    }

    /// Read up to `maxlen` code points (or as many whole four-byte groups
    /// as remain).
    pub fn get_buffer_uni(&mut self, maxlen: Option<usize>) -> (r: Vec<char>)
        requires
            old(self).wf(),
        ensures
            final(self).wf(),
            final(self)@ == old(self)@,
            (r@, final(self).spec_cursor()) == mem_read_uni(
                old(self)@,
                old(self).spec_cursor(),
                old(self).spec_read_count(maxlen, 4),
                None,
            ),
    {
        self.get_uni(maxlen, None)
    }

    /// Read code points through the next newline; the newline is consumed
    /// and included in the result.
    pub fn get_line_uni(&mut self, maxlen: Option<usize>) -> (r: Vec<char>)
        requires
            old(self).wf(),
        ensures
            final(self).wf(),
            final(self)@ == old(self)@,
            (r@, final(self).spec_cursor()) == mem_read_uni(
                old(self)@,
                old(self).spec_cursor(),
                old(self).spec_read_count(maxlen, 4),
                Some('\n'),
            ),
    {
        self.get_uni(maxlen, Some('\n'))
    }

    /// Read up to `maxlen` four-byte groups, stopping after an `end`
    /// character, which is consumed and included in the result.
    fn get_uni(&mut self, maxlen: Option<usize>, end_char: Option<char>) -> (r: Vec<char>)
        requires
            old(self).wf(),
        ensures
            final(self).wf(),
            final(self)@ == old(self)@,
            (r@, final(self).spec_cursor()) == mem_read_uni(
                old(self)@,
                old(self).spec_cursor(),
                old(self).spec_read_count(maxlen, 4),
                end_char,
            ),
    {
        let count = self.read_count(maxlen, 4);
        let ghost goal = mem_read_uni(self@, self.spec_cursor(), count as int, end_char);
        let mut result: Vec<char> = Vec::new();
        let mut i: usize = 0;
        proof {
            let avail = old(self)@.len() - old(self).spec_cursor();
            vstd::arithmetic::div_mod::lemma_div_pos_is_pos(avail, 4);
            vstd::arithmetic::div_mod::lemma_fundamental_div_mod(avail, 4);
            vstd::arithmetic::div_mod::lemma_mod_bound(avail, 4);
        }
        while i < count
            invariant
                self.wf(),
                self@ == old(self)@,
                i <= count,
                self.spec_cursor() + 4 * (count - i) <= self@.len(),
                count == old(self).spec_read_count(maxlen, 4),
                goal == mem_read_uni(
                    old(self)@,
                    old(self).spec_cursor(),
                    count as int,
                    end_char,
                ),
                goal == {
                    let rest = mem_read_uni(
                        self@,
                        self.spec_cursor(),
                        count - i,
                        end_char,
                    );
                    (result@ + rest.0, rest.1)
                },
            decreases count - i,
        {
            let ghost pre_cursor = self.spec_cursor();
            let ghost pre_result = result@;
            let ghost rest_pre = mem_read_uni(self@, pre_cursor, count - i, end_char);
            let ghost v = u32_of_be(
                self@[pre_cursor],
                self@[pre_cursor + 1],
                self@[pre_cursor + 2],
                self@[pre_cursor + 3],
            );
            match self.get_char_uni() {
                None => {
                    proof {
                        assert(!is_scalar_value(v));
                    }
                },
                Some(ch) => {
                    proof {
                        assert(is_scalar_value(v));
                        assert(ch as int == v as int);
                        assert((v as char) as int == v as int);
                        assert(ch == v as char);
                    }
                    if end_char == Some(ch) {
                        result.push(ch);
                        proof {
                            assert(rest_pre == (seq![ch], pre_cursor + 4));
                            assert(pre_result + seq![ch] =~= result@);
                        }
                        return result;
                    }
                    result.push(ch);
                },
            }
            i = i + 1;
            proof {
                let rest_post = mem_read_uni(self@, self.spec_cursor(), count - i, end_char);
                assert(pre_result + rest_pre.0 =~= result@ + rest_post.0);
            }
        }
        proof {
            assert(result@ + Seq::<char>::empty() =~= result@);
        }
        result
    }

    /// The cursor's offset from the start of the buffer.
    pub fn get_position(&self) -> (r: u32)
        ensures
            r == self.spec_cursor() as u32,
    {
        self.cursor as u32
    }

    /// Move the cursor to an offset from the start, the current position or
    /// the end; a position outside the buffer is refused.
    pub fn set_position(&mut self, pos: i32, seekmode: GlkSeekMode) -> (r: Option<()>)
        requires
            old(self).wf(),
        ensures
            final(self).wf(),
            final(self)@ == old(self)@,
            ({
                let target: int = match seekmode {
                    GlkSeekMode::Start => pos as int,
                    GlkSeekMode::Current => old(self).spec_cursor() + pos as int,
                    GlkSeekMode::End => old(self)@.len() + pos as int,
                };
                if target < 0 || target > old(self)@.len() {
                    r is None && final(self).spec_cursor() == old(self).spec_cursor()
                } else {
                    r is Some && final(self).spec_cursor() == target
                }
            }),
    {
        let target: i128 = match seekmode {
            GlkSeekMode::Start => pos as i128,
            GlkSeekMode::Current => self.cursor as i128 + pos as i128,
            GlkSeekMode::End => self.buf.len() as i128 + pos as i128,
        };
        if target < 0 || target > self.buf.len() as i128 {
            None
        } else {
            self.cursor = target as usize;
            Some(())
        }
    }

    /// A copy of the whole buffer, as handed back when the stream closes.
    pub fn get_data(&self) -> (r: Vec<u8>)
        ensures
            r@ == self@,
    {
        self.buf.clone()
    }
}

} // verus!

verus! {

impl MemStream {
    /// The cursor never sits before the buffer's start.
    pub proof fn lemma_cursor_nonneg(&self)
        ensures
            0 <= self.spec_cursor(),
    {
    }
}

} // verus!
