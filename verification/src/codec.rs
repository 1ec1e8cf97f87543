use vstd::prelude::*;

verus! {

/// Character-mode memory and window streams store one code point as four
/// big-endian bytes; file streams store UTF-8. Both codecs live here, each
/// with its round-trip law.

/// The four big-endian bytes of a 32-bit value.
pub open spec fn be_bytes_of_u32(n: u32) -> Seq<u8> {
    seq![
        ((n >> 24) & 0xff) as u8,
        ((n >> 16) & 0xff) as u8,
        ((n >> 8) & 0xff) as u8,
        (n & 0xff) as u8,
    ]
}

/// The 32-bit value read back from four big-endian bytes.
pub open spec fn u32_of_be(b0: u8, b1: u8, b2: u8, b3: u8) -> u32 {
    ((b0 as u32) << 24) | ((b1 as u32) << 16) | ((b2 as u32) << 8) | (b3 as u32)
}

/// A sequence of code points in the fixed four-byte big-endian encoding.
pub open spec fn be_bytes_of_chars(s: Seq<char>) -> Seq<u8>
    decreases s.len(),
{
    if s.len() == 0 {
        Seq::empty()
    } else {
        be_bytes_of_u32(s[0] as u32) + be_bytes_of_chars(s.drop_first())
    }
}

/// Reassembling the four big-endian bytes of a value gives the value back.
pub proof fn lemma_be_round_trip(n: u32)
    ensures
        u32_of_be(
            ((n >> 24) & 0xff) as u8,
            ((n >> 16) & 0xff) as u8,
            ((n >> 8) & 0xff) as u8,
            (n & 0xff) as u8,
        ) == n,
{
    assert((((((n >> 24) & 0xff) as u8) as u32) << 24) | (((((n >> 16) & 0xff) as u8) as u32)
        << 16) | (((((n >> 8) & 0xff) as u8) as u32) << 8) | (((n & 0xff) as u8) as u32)
        == n) by (bit_vector);
}

/// The four big-endian bytes of a 32-bit value, for writing them out one by
/// one.
pub fn u32_be_bytes(n: u32) -> (r: (u8, u8, u8, u8))
    ensures
        seq![r.0, r.1, r.2, r.3] == be_bytes_of_u32(n),
{
    (
        ((n >> 24) & 0xff) as u8,
        ((n >> 16) & 0xff) as u8,
        ((n >> 8) & 0xff) as u8,
        (n & 0xff) as u8,
    )
}

/// The UTF-8 encoding of one code point: one to four bytes, the width given
/// by the code point's magnitude.
pub open spec fn utf8_encode_char(c: char) -> Seq<u8> {
    let n = c as u32;
    if n < 0x80 {
        seq![n as u8]
    } else if n < 0x800 {
        seq![(0xc0 | (n >> 6)) as u8, (0x80 | (n & 0x3f)) as u8]
    } else if n < 0x10000 {
        seq![
            (0xe0 | (n >> 12)) as u8,
            (0x80 | ((n >> 6) & 0x3f)) as u8,
            (0x80 | (n & 0x3f)) as u8,
        ]
    } else {
        seq![
            (0xf0 | (n >> 18)) as u8,
            (0x80 | ((n >> 12) & 0x3f)) as u8,
            (0x80 | ((n >> 6) & 0x3f)) as u8,
            (0x80 | (n & 0x3f)) as u8,
        ]
    }
}

/// The UTF-8 encoding of a sequence of code points.
pub open spec fn utf8_encode_chars(s: Seq<char>) -> Seq<u8>
    decreases s.len(),
{
    if s.len() == 0 {
        Seq::empty()
    } else {
        utf8_encode_char(s[0]) + utf8_encode_chars(s.drop_first())
    }
}

/// One step of the UTF-8 decoder at position `i`: the decoded value and the
/// position after it, or `None` with the position after the bytes that were
/// consumed. The lead byte's high bits give the sequence width, following
/// the standard prefix patterns through `11110xxx`; every later byte must
/// be a continuation byte (`10xxxxxx`), and any other lead byte is refused.
/// Hitting the end of the data mid-sequence consumes the rest. The decoded
/// value may still name no character (a surrogate, or past the last code
/// point); the caller checks.
pub open spec fn utf8_step(s: Seq<u8>, i: int) -> (Option<u32>, int)
    recommends
        0 <= i < s.len(),
{
    let b0 = s[i];
    if b0 < 0x80 {
        (Some(b0 as u32), i + 1)
    } else if (b0 & 0xe0) == 0xc0 {
        if s.len() < i + 2 {
            (None, s.len() as int)
        } else {
            let b1 = s[i + 1];
            if (b1 & 0xc0) == 0x80 {
                (Some((((b0 & 0x1f) as u32) << 6) | ((b1 & 0x3f) as u32)), i + 2)
            } else {
                (None, i + 2)
            }
        }
    } else if (b0 & 0xf0) == 0xe0 {
        if s.len() < i + 3 {
            (None, s.len() as int)
        } else {
            let b1 = s[i + 1];
            let b2 = s[i + 2];
            if (b1 & 0xc0) == 0x80 && (b2 & 0xc0) == 0x80 {
                (
                    Some(
                        (((((b0 & 0xf) as u32) << 12) & 0xf000) | (((((b1
                            & 0x3f) as u32) << 6)) & 0xfc0) | ((b2 & 0x3f) as u32)),
                    ),
                    i + 3,
                )
            } else {
                (None, i + 3)
            }
        }
    } else if (b0 & 0xf8) == 0xf0 {
        if s.len() < i + 4 {
            (None, s.len() as int)
        } else {
            let b1 = s[i + 1];
            let b2 = s[i + 2];
            let b3 = s[i + 3];
            if (b1 & 0xc0) == 0x80 && (b2 & 0xc0) == 0x80 && (b3 & 0xc0) == 0x80 {
                (
                    Some(
                        (((((b0 & 0x7) as u32) << 18) & 0x1c0000) | (((((b1
                            & 0x3f) as u32) << 12)) & 0x3f000) | (((((b2
                            & 0x3f) as u32) << 6)) & 0xfc0) | ((b3 & 0x3f) as u32)),
                    ),
                    i + 4,
                )
            } else {
                (None, i + 4)
            }
        }
    } else {
        (None, i + 1)
    }
}

/// Decoding right after encoding gives the encoded code point back: one
/// decoder step over the encoder's bytes yields the original value and
/// stops exactly after them, whatever data follows.
pub proof fn lemma_utf8_round_trip(c: char, s: Seq<u8>, i: int)
    requires
        0 <= i,
        i + utf8_encode_char(c).len() <= s.len(),
        s.subrange(i, i + utf8_encode_char(c).len() as int) == utf8_encode_char(c),
    ensures
        utf8_step(s, i) == (Some(c as u32), i + utf8_encode_char(c).len() as int),
{
    let n = c as u32;
    let e = utf8_encode_char(c);
    assert(n < 0x110000);
    if n < 0x80 {
        assert(s[i] == e[0]);
        assert(n < 0x80 ==> (n as u8) < 0x80 && ((n as u8) as u32) == n) by (bit_vector);
    } else if n < 0x800 {
        assert(s[i] == e[0] && s[i + 1] == e[1]);
        let b0 = (0xc0 | (n >> 6)) as u8;
        let b1 = (0x80 | (n & 0x3f)) as u8;
        assert((0x80 <= n && n < 0x800) ==> {
            &&& !(((0xc0 | (n >> 6)) as u8) < 0x80)
            &&& (((0xc0 | (n >> 6)) as u8) & 0xe0) == 0xc0
            &&& (((0x80 | (n & 0x3f)) as u8) & 0xc0) == 0x80
            &&& ((((((0xc0 | (n >> 6)) as u8) & 0x1f) as u32) << 6) | ((((0x80 | (n
                & 0x3f)) as u8) & 0x3f) as u32)) == n
        }) by (bit_vector);
    } else if n < 0x10000 {
        assert(s[i] == e[0] && s[i + 1] == e[1] && s[i + 2] == e[2]);
        assert((0x800 <= n && n < 0x10000) ==> {
            &&& !(((0xe0 | (n >> 12)) as u8) < 0x80)
            &&& (((0xe0 | (n >> 12)) as u8) & 0xe0) != 0xc0
            &&& (((0xe0 | (n >> 12)) as u8) & 0xf0) == 0xe0
            &&& (((0x80 | ((n >> 6) & 0x3f)) as u8) & 0xc0) == 0x80
            &&& (((0x80 | (n & 0x3f)) as u8) & 0xc0) == 0x80
            &&& ((((((0xe0 | (n >> 12)) as u8) & 0xf) as u32) << 12) & 0xf000 | (((((0x80 | ((n
                >> 6) & 0x3f)) as u8) & 0x3f) as u32) << 6) & 0xfc0 | ((((0x80 | (n
                & 0x3f)) as u8) & 0x3f) as u32)) == n
        }) by (bit_vector);
    } else {
        assert(s[i] == e[0] && s[i + 1] == e[1] && s[i + 2] == e[2] && s[i + 3] == e[3]);
        assert((0x10000 <= n && n < 0x110000) ==> {
            &&& !(((0xf0 | (n >> 18)) as u8) < 0x80)
            &&& (((0xf0 | (n >> 18)) as u8) & 0xe0) != 0xc0
            &&& (((0xf0 | (n >> 18)) as u8) & 0xf0) != 0xe0
            &&& (((0xf0 | (n >> 18)) as u8) & 0xf8) == 0xf0
            &&& (((0x80 | ((n >> 12) & 0x3f)) as u8) & 0xc0) == 0x80
            &&& (((0x80 | ((n >> 6) & 0x3f)) as u8) & 0xc0) == 0x80
            &&& (((0x80 | (n & 0x3f)) as u8) & 0xc0) == 0x80
            &&& ((((((0xf0 | (n >> 18)) as u8) & 0x7) as u32) << 18) & 0x1c0000 | (((((0x80 | ((n
                >> 12) & 0x3f)) as u8) & 0x3f) as u32) << 12) & 0x3f000 | (((((0x80 | ((n >> 6)
                & 0x3f)) as u8) & 0x3f) as u32) << 6) & 0xfc0 | ((((0x80 | (n
                & 0x3f)) as u8) & 0x3f) as u32)) == n
        }) by (bit_vector);
    }
}

/// The UTF-8 bytes of one code point, for writing them to a byte sink.
pub fn encode_utf8_char(c: char) -> (r: Vec<u8>)
    ensures
        r@ == utf8_encode_char(c),
        1 <= r@.len() <= 4,
{
    let n = c as u32;
    let mut v: Vec<u8> = Vec::new();
    if n < 0x80 {
        v.push(n as u8);
    } else if n < 0x800 {
        v.push((0xc0 | (n >> 6)) as u8);
        v.push((0x80 | (n & 0x3f)) as u8);
    } else if n < 0x10000 {
        v.push((0xe0 | (n >> 12)) as u8);
        v.push((0x80 | ((n >> 6) & 0x3f)) as u8);
        v.push((0x80 | (n & 0x3f)) as u8);
    } else {
        v.push((0xf0 | (n >> 18)) as u8);
        v.push((0x80 | ((n >> 12) & 0x3f)) as u8);
        v.push((0x80 | ((n >> 6) & 0x3f)) as u8);
        v.push((0x80 | (n & 0x3f)) as u8);
    }
    assert(v@ =~= utf8_encode_char(c));
    v
}

/// One exec step of the UTF-8 decoder over a byte buffer.
pub fn utf8_decode_step(data: &Vec<u8>, i: usize) -> (r: (Option<u32>, usize))
    requires
        i < data@.len(),
    ensures
        (r.0, r.1 as int) == utf8_step(data@, i as int),
        i < r.1 <= data@.len(),
{
    let len = data.len();
    let b0 = data[i];
    if b0 < 0x80 {
        (Some(b0 as u32), i + 1)
    } else if (b0 & 0xe0) == 0xc0 {
        if len - i < 2 {
            (None, len)
        } else {
            let b1 = data[i + 1];
            if (b1 & 0xc0) == 0x80 {
                (Some((((b0 & 0x1f) as u32) << 6) | ((b1 & 0x3f) as u32)), i + 2)
            } else {
                (None, i + 2)
            }
        }
    } else if (b0 & 0xf0) == 0xe0 {
        if len - i < 3 {
            (None, len)
        } else {
            let b1 = data[i + 1];
            let b2 = data[i + 2];
            if (b1 & 0xc0) == 0x80 && (b2 & 0xc0) == 0x80 {
                (
                    Some(
                        (((((b0 & 0xf) as u32) << 12) & 0xf000) | (((((b1
                            & 0x3f) as u32) << 6)) & 0xfc0) | ((b2 & 0x3f) as u32)),
                    ),
                    i + 3,
                )
            } else {
                (None, i + 3)
            }
        }
    } else if (b0 & 0xf8) == 0xf0 {
        if len - i < 4 {
            (None, len)
        } else {
            let b1 = data[i + 1];
            let b2 = data[i + 2];
            let b3 = data[i + 3];
            if (b1 & 0xc0) == 0x80 && (b2 & 0xc0) == 0x80 && (b3 & 0xc0) == 0x80 {
                (
                    Some(
                        (((((b0 & 0x7) as u32) << 18) & 0x1c0000) | (((((b1
                            & 0x3f) as u32) << 12)) & 0x3f000) | (((((b2
                            & 0x3f) as u32) << 6)) & 0xfc0) | ((b3 & 0x3f) as u32)),
                    ),
                    i + 4,
                )
            } else {
                (None, i + 4)
            }
        }
    } else {
        (None, i + 1)
    }
}

/// Relies on char::from_u32: it answers `Some` exactly for valid Unicode
/// scalar values (code points outside the surrogate range), and the
/// character it returns has the value it was given.
#[verifier::external_body]
pub(crate) fn char_from_u32(v: u32) -> (r: Option<char>)
    ensures
        r is Some <==> ((v as int) < 0xD800 || (0xE000 <= (v as int) && (v as int) < 0x110000)),
        r matches Some(c) ==> c as int == v as int,
{
    char::from_u32(v)
}

/// Every code point survives the trip through its own four-byte big-endian
/// encoding.
pub proof fn lemma_char_be_round_trip(c: char)
    ensures
        u32_of_be(
            be_bytes_of_u32(c as u32)[0],
            be_bytes_of_u32(c as u32)[1],
            be_bytes_of_u32(c as u32)[2],
            be_bytes_of_u32(c as u32)[3],
        ) == c as u32,
{
    lemma_be_round_trip(c as u32);
}

} // verus!

verus! {

/// One character peeled off the front of a big-endian character encoding.
pub proof fn lemma_be_chars_unfold(s: Seq<char>)
    requires
        s.len() > 0,
    ensures
        be_bytes_of_chars(s) == be_bytes_of_u32(s[0] as u32) + be_bytes_of_chars(
            s.drop_first(),
        ),
{
}

} // verus!

verus! {

/// The characters of a string, for code that walks them by index.
pub fn string_chars(s: &str) -> (r: Vec<char>)
    ensures
        r@ == s@,
{
    let n = s.unicode_len();
    let mut v: Vec<char> = Vec::new();
    let mut i: usize = 0;
    while i < n
        invariant
            n == s@.len(),
            i <= n,
            v@ == s@.subrange(0, i as int),
        decreases n - i,
    {
        v.push(s.get_char(i));
        proof {
            assert(v@ =~= s@.subrange(0, i + 1 as int));
        }
        i = i + 1;
    }
    proof {
        assert(s@.subrange(0, s@.len() as int) =~= s@);
    }
    v
}

/// Relies on String's FromIterator over characters: collecting characters
/// builds the string of exactly those characters.
#[verifier::external_body]
pub(crate) fn chars_to_string(v: &Vec<char>) -> (s: String)
    ensures
        s@ == v@,
{
    v.iter().collect()
}

/// Relies on str's equality: two strings are equal exactly when their
/// character sequences are.
#[verifier::external_body]
pub(crate) fn str_eq(a: &str, b: &str) -> (r: bool)
    ensures
        r <==> a@ == b@,
{
    a == b
}

} // verus!

verus! {

/// The UTF-8 bytes of a run of code points.
pub fn encode_utf8_string(chars: &[char]) -> (r: Vec<u8>)
    ensures
        r@ == utf8_encode_chars(chars@),
{
    let mut out: Vec<u8> = Vec::new();
    let mut i: usize = 0;
    proof {
        assert(chars@.subrange(0, 0) =~= Seq::<char>::empty());
    }
    while i < chars.len()
        invariant
            i <= chars@.len(),
            out@ == utf8_encode_chars(chars@.subrange(0, i as int)),
        decreases chars@.len() - i,
    {
        let mut piece = encode_utf8_char(chars[i]);
        out.append(&mut piece);
        i = i + 1;
        proof {
            lemma_utf8_chars_snoc(chars@.subrange(0, i as int));
            assert(chars@.subrange(0, i as int).drop_last() =~= chars@.subrange(
                0,
                i - 1 as int,
            ));
        }
    }
    proof {
        assert(chars@.subrange(0, chars@.len() as int) =~= chars@);
    }
    out
}

/// The last character's bytes sit at the end of an encoded run.
pub proof fn lemma_utf8_chars_snoc(s: Seq<char>)
    requires
        s.len() > 0,
    ensures
        utf8_encode_chars(s) == utf8_encode_chars(s.drop_last()) + utf8_encode_char(
            s.last(),
        ),
    decreases s.len(),
{
    if s.len() == 1 {
        assert(s.drop_first() =~= Seq::<char>::empty());
        assert(s.drop_last() =~= Seq::<char>::empty());
        assert(utf8_encode_chars(s.drop_last()) + utf8_encode_char(s.last())
            =~= utf8_encode_char(s[0]) + utf8_encode_chars(s.drop_first()));
    } else {
        lemma_utf8_chars_snoc(s.drop_first());
        assert(s.drop_first().drop_last() =~= s.drop_last().drop_first());
        assert(s.drop_last()[0] == s[0]);
        assert(s.drop_first().last() == s.last());
        assert(utf8_encode_char(s[0]) + (utf8_encode_chars(s.drop_first().drop_last())
            + utf8_encode_char(s.last())) =~= (utf8_encode_char(s.drop_last()[0])
            + utf8_encode_chars(s.drop_last().drop_first())) + utf8_encode_char(s.last()));
    }
}

/// A run of code points never encodes to fewer bytes than it has
/// characters, nor to more than four per character.
pub proof fn lemma_utf8_chars_len(s: Seq<char>)
    ensures
        s.len() <= utf8_encode_chars(s).len() <= 4 * s.len(),
    decreases s.len(),
{
    if s.len() > 0 {
        lemma_utf8_chars_len(s.drop_first());
    }
}

} // verus!
