use vstd::prelude::*;
use crate::blorb::error::BlorbError;
use crate::blorb::types::{ResourceType, BlorbType, resource_type_of};
use crate::blorb::stream::{RawBlorbChunk, be16, be32};
use vstd::utf8::{valid_utf8, decode_utf8};

verus! {

/// Decoded chunk information
#[derive(Debug, PartialEq, Eq)]
pub enum BlorbChunk {
    /// An Fspc resource chunk: the number of the frontispiece image
    Frontispiece(usize),
    /// A resource description chunk
    ResourceDescription(Vec<TextDescription>),
    /// An author chunk
    Author(String),
    /// A copyright chunk
    Copyright(String),
    /// An annotation chunk
    Annotation(String),
    /// A "Rect" placeholder image
    Placeholder(usize, usize),
    /// A game identifier for Z-Code files
    GameIdentifier {
        /// release number ($2 in header)
        release_number: u16,
        /// serial number ($12 in header)
        serial_number: [u8; 6],
        /// checksum ($1C in header)
        checksum: u16,
        /// Starting PC value
        pc: [u8; 3],
    },
    /// The release number of the resource file.
    ReleaseNumber(u16),
    /// A resolution chunk for scaling images
    Resolution {
        /// Standard window width and height
        standard: WindowSize,
        /// Minimum window width and height
        minimum: WindowSize,
        /// Maximum window width and height
        maximum: WindowSize,
        /// Image resolution entries
        entries: Vec<ResolutionEntry>,
    },
    /// A list of picture resources which have adaptive palette colors
    AdaptivePalette(Vec<usize>),
}

/// The size of a window for the resolution chunk
#[derive(Debug, PartialEq, Eq, Structural, Clone, Copy)]
pub struct WindowSize {
    /// width in pixels
    pub width: usize,
    /// height in pixels
    pub height: usize,
}

/// A resolution definition for an image resource
#[derive(Debug, PartialEq, Eq, Structural, Clone, Copy)]
pub struct ResolutionEntry {
    /// image resource number
    pub number: usize,
    /// Standard ratio numerator and denominator
    pub standard: ResolutionRatio,
    /// Minimum ratio numerator and denominator
    pub minimum: ResolutionRatio,
    /// Maximum ratio numerator and denominator
    pub maximum: ResolutionRatio,
}

/// A resolution ratio
#[derive(Debug, PartialEq, Eq, Structural, Clone, Copy)]
pub struct ResolutionRatio {
    /// numerator of the ratio
    pub numerator: usize,
    /// denominator of the ratio
    pub denominator: usize,
}

/// A textual description of a visual or auditory resource
#[derive(Debug, PartialEq, Eq)]
pub struct TextDescription {
    /// Resource Usage
    pub usage: ResourceType,
    /// Number of resource
    pub number: usize,
    /// Textual description
    pub text: String,
}

/// The entries of a resource description chunk, parsed from `offset`:
/// each entry is a usage tag, a resource number, a text length and that
/// much UTF-8 text. `None` when any entry is cut short, carries an
/// unknown tag, or holds text that is not UTF-8.
pub open spec fn rdes_entries(bytes: Seq<u8>, offset: int, n: int) -> Option<
    Seq<(ResourceType, int, Seq<char>)>,
>
    decreases n,
{
    if n <= 0 {
        Some(Seq::empty())
    } else if offset + 12 > bytes.len() {
        None
    } else {
        let usage = resource_type_of(bytes.subrange(offset, offset + 4));
        let number = be32(bytes, offset + 4);
        let len = be32(bytes, offset + 8);
        if usage is None || offset + 12 + len > bytes.len() {
            None
        } else if !valid_utf8(bytes.subrange(offset + 12, offset + 12 + len)) {
            None
        } else {
            let text = decode_utf8(bytes.subrange(offset + 12, offset + 12 + len));
            match rdes_entries(bytes, offset + 12 + len, n - 1) {
                None => None,
                Some(rest) => Some(seq![(usage->0, number, text)] + rest),
            }
        }
    }
}

/// Relies on std::str::from_utf8: it accepts exactly valid UTF-8, and the
/// characters it hands back encode to the given bytes.
#[verifier::external_body]
fn bytes_to_str(v: &[u8]) -> (r: Option<&str>)
    ensures
        r is Some <==> valid_utf8(v@),
        r matches Some(s) ==> s@ == decode_utf8(v@),
{
    std::str::from_utf8(v).ok()
}

/// The bytes decoded as UTF-8 text, or the decode failure.
pub fn bytes_to_string(bytes: &[u8]) -> (r: Result<String, BlorbError>)
    ensures
        valid_utf8(bytes@) ==> (r matches Ok(s) && s@ == decode_utf8(bytes@)),
        !valid_utf8(bytes@) ==> r == Err::<String, BlorbError>(BlorbError::InvalidUtf8String),
{
    match bytes_to_str(bytes) {
        Some(s) => Ok(s.to_owned()),
        None => Err(BlorbError::InvalidUtf8String),
    }
}

/// The 16-bit big-endian value of a two-byte slice.
pub fn bytes_to_u16(bytes: &[u8]) -> (r: Result<u16, BlorbError>)
    ensures
        bytes@.len() == 2 ==> (r matches Ok(v) && v == be16(bytes@, 0)),
        bytes@.len() != 2 ==> r == Err::<u16, BlorbError>(BlorbError::ConversionFailed),
{
    if bytes.len() != 2 {
        Err(BlorbError::ConversionFailed)
    } else {
        Ok((bytes[0] as u16) * 0x100 + (bytes[1] as u16))
    }
}

/// The 32-bit big-endian value of a four-byte slice.
pub fn bytes_to_usize(bytes: &[u8]) -> (r: Result<usize, BlorbError>)
    ensures
        bytes@.len() == 4 ==> (r matches Ok(v) && v == be32(bytes@, 0)),
        bytes@.len() != 4 ==> r == Err::<usize, BlorbError>(BlorbError::ConversionFailed),
{
    if bytes.len() != 4 {
        Err(BlorbError::ConversionFailed)
    } else {
        Ok(
            (bytes[0] as usize) * 0x1000000 + (bytes[1] as usize) * 0x10000 + (
            bytes[2] as usize) * 0x100 + (bytes[3] as usize),
        )
    }
}

/// The 32-bit big-endian value at `i` in a longer buffer.
fn read_be32_at(bytes: &[u8], i: usize) -> (r: usize)
    requires
        i + 4 <= bytes@.len(),
    ensures
        r == be32(bytes@, i as int),
{
    (bytes[i] as usize) * 0x1000000 + (bytes[i + 1] as usize) * 0x10000 + (bytes[i
        + 1 + 1] as usize) * 0x100 + (bytes[i + 3] as usize)
}

} // verus!

verus! {

/// The bytes between `from` and `to`.
fn slice_range(bytes: &[u8], from: usize, to: usize) -> (r: Vec<u8>)
    requires
        from <= to <= bytes@.len(),
    ensures
        r@ == bytes@.subrange(from as int, to as int),
{
    let mut out: Vec<u8> = Vec::new();
    let mut i: usize = from;
    while i < to
        invariant
            from <= i <= to <= bytes@.len(),
            out@ == bytes@.subrange(from as int, i as int),
        decreases to - i,
    {
        out.push(bytes[i]);
        i = i + 1;
        proof {
            assert(out@ =~= bytes@.subrange(from as int, i as int));
        }
    }
    out
}

impl BlorbChunk {

    /// What `from_raw` answers for a chunk of type `ty` over `bytes`.
    pub open spec fn interprets(ty: BlorbType, bytes: Seq<u8>, r: Result<
        BlorbChunk,
        BlorbError,
    >) -> bool {
        ({
                let b = bytes;
                match ty {
                    BlorbType::Fspc => if b.len() == 4 {
                        r == Ok::<BlorbChunk, BlorbError>(
                            BlorbChunk::Frontispiece(be32(b, 0) as usize),
                        )
                    } else {
                        r == Err::<BlorbChunk, BlorbError>(BlorbError::ConversionFailed)
                    },
                    BlorbType::Auth => if valid_utf8(b) {
                        r matches Ok(BlorbChunk::Author(s)) && s@ == decode_utf8(b)
                    } else {
                        r == Err::<BlorbChunk, BlorbError>(BlorbError::InvalidUtf8String)
                    },
                    BlorbType::Copr => if valid_utf8(b) {
                        r matches Ok(BlorbChunk::Copyright(s)) && s@ == decode_utf8(b)
                    } else {
                        r == Err::<BlorbChunk, BlorbError>(BlorbError::InvalidUtf8String)
                    },
                    BlorbType::Anno => if valid_utf8(b) {
                        r matches Ok(BlorbChunk::Annotation(s)) && s@ == decode_utf8(b)
                    } else {
                        r == Err::<BlorbChunk, BlorbError>(BlorbError::InvalidUtf8String)
                    },
                    BlorbType::Reln => if b.len() >= 2 {
                        r == Ok::<BlorbChunk, BlorbError>(
                            BlorbChunk::ReleaseNumber(be16(b, 0) as u16),
                        )
                    } else {
                        r == Err::<BlorbChunk, BlorbError>(BlorbError::ConversionFailed)
                    },
                    BlorbType::Ifhd => if b.len() == 13 {
                        r matches Ok(BlorbChunk::GameIdentifier {
                            release_number,
                            serial_number,
                            checksum,
                            pc,
                        }) && {
                            &&& release_number == be16(b, 0)
                            &&& serial_number@ == b.subrange(2, 8)
                            &&& checksum == be16(b, 8)
                            &&& pc@ == b.subrange(10, 13)
                        }
                    } else {
                        r == Err::<BlorbChunk, BlorbError>(BlorbError::ConversionFailed)
                    },
                    BlorbType::Rect => if b.len() >= 8 {
                        r == Ok::<BlorbChunk, BlorbError>(
                            BlorbChunk::Placeholder(be32(b, 0) as usize, be32(b, 4) as usize),
                        )
                    } else {
                        r == Err::<BlorbChunk, BlorbError>(BlorbError::ConversionFailed)
                    },
                    BlorbType::Apal => if b.len() % 4 == 0 {
                        r matches Ok(BlorbChunk::AdaptivePalette(v)) && v@.len() == b.len()
                            / 4 && (forall|i: int|
                            0 <= i < v@.len() ==> #[trigger] v@[i] == be32(b, 4 * i))
                    } else {
                        r == Err::<BlorbChunk, BlorbError>(BlorbError::ConversionFailed)
                    },
                    BlorbType::Rdes => if b.len() >= 4 {
                        match rdes_entries(b, 4, be32(b, 0)) {
                            Some(es) => r matches Ok(BlorbChunk::ResourceDescription(v)) && {
                                &&& v@.len() == es.len()
                                &&& forall|i: int|
                                    0 <= i < es.len() ==> {
                                        &&& (#[trigger] v@[i]).usage == es[i].0
                                        &&& v@[i].number == es[i].1
                                        &&& v@[i].text@ == es[i].2
                                    }
                            },
                            None => r is Err,
                        }
                    } else {
                        r == Err::<BlorbChunk, BlorbError>(BlorbError::ConversionFailed)
                    },
                    BlorbType::Reso => if b.len() >= 24 && (b.len() - 24) % 28 == 0 {
                        r matches Ok(BlorbChunk::Resolution {
                            standard,
                            minimum,
                            maximum,
                            entries,
                        }) && {
                            &&& standard == (WindowSize {
                                width: be32(b, 0) as usize,
                                height: be32(b, 4) as usize,
                            })
                            &&& minimum == (WindowSize {
                                width: be32(b, 8) as usize,
                                height: be32(b, 12) as usize,
                            })
                            &&& maximum == (WindowSize {
                                width: be32(b, 16) as usize,
                                height: be32(b, 20) as usize,
                            })
                            &&& entries@.len() == (b.len() - 24) / 28
                            &&& forall|i: int|
                                0 <= i < entries@.len() ==> #[trigger] entries@[i] == (
                                ResolutionEntry {
                                    number: be32(b, 24 + 28 * i) as usize,
                                    standard: ResolutionRatio {
                                        numerator: be32(b, 24 + 28 * i + 4) as usize,
                                        denominator: be32(b, 24 + 28 * i + 8) as usize,
                                    },
                                    minimum: ResolutionRatio {
                                        numerator: be32(b, 24 + 28 * i + 12) as usize,
                                        denominator: be32(b, 24 + 28 * i + 16) as usize,
                                    },
                                    maximum: ResolutionRatio {
                                        numerator: be32(b, 24 + 28 * i + 20) as usize,
                                        denominator: be32(b, 24 + 28 * i + 24) as usize,
                                    },
                                })
                        }
                    } else {
                        r == Err::<BlorbChunk, BlorbError>(BlorbError::ConversionFailed)
                    },
                    _ => r == Err::<BlorbChunk, BlorbError>(BlorbError::ConversionFailed),
                }
        })
    }

    /// Interpret a raw chunk's bytes according to its type. A chunk whose
    /// type carries no interpretation here, or whose bytes are cut short
    /// or malformed, is refused.
    #[verifier::rlimit(60)]
    pub fn from_raw(bc: &RawBlorbChunk) -> (r: Result<BlorbChunk, BlorbError>)
        ensures
            Self::interprets(bc.blorb_type, bc.bytes@, r),
    {
        let b = &bc.bytes;
        match bc.blorb_type {
            BlorbType::Fspc => {
                match bytes_to_usize(b.as_slice()) {
                    Ok(n) => Ok(BlorbChunk::Frontispiece(n)),
                    Err(e) => Err(e),
                }
            },
            BlorbType::Auth => {
                match bytes_to_string(b.as_slice()) {
                    Ok(s) => Ok(BlorbChunk::Author(s)),
                    Err(e) => Err(e),
                }
            },
            BlorbType::Copr => {
                match bytes_to_string(b.as_slice()) {
                    Ok(s) => Ok(BlorbChunk::Copyright(s)),
                    Err(e) => Err(e),
                }
            },
            BlorbType::Anno => {
                match bytes_to_string(b.as_slice()) {
                    Ok(s) => Ok(BlorbChunk::Annotation(s)),
                    Err(e) => Err(e),
                }
            },
            BlorbType::Reln => {
                if b.len() < 2 {
                    return Err(BlorbError::ConversionFailed);
                }
                Ok(
                    BlorbChunk::ReleaseNumber(
                        (b[0] as u16) * 0x100 + (b[1] as u16),
                    ),
                )
            },
            BlorbType::Ifhd => {
                if b.len() != 13 {
                    return Err(BlorbError::ConversionFailed);
                }
                let serial_number: [u8; 6] = [b[2], b[3], b[4], b[5], b[6], b[7]];
                let pc: [u8; 3] = [b[10], b[11], b[12]];
                proof {
                    assert(serial_number@ =~= bc.bytes@.subrange(2, 8));
                    assert(pc@ =~= bc.bytes@.subrange(10, 13));
                }
                Ok(
                    BlorbChunk::GameIdentifier {
                        release_number: (b[0] as u16) * 0x100 + (b[1] as u16),
                        serial_number,
                        checksum: (b[8] as u16) * 0x100 + (b[9] as u16),
                        pc,
                    },
                )
            },
            BlorbType::Rect => {
                if b.len() < 8 {
                    return Err(BlorbError::ConversionFailed);
                }
                let width = read_be32_at(b.as_slice(), 0);
                let height = read_be32_at(b.as_slice(), 4);
                Ok(BlorbChunk::Placeholder(width, height))
            },
            BlorbType::Apal => {
                if b.len() % 4 != 0 {
                    return Err(BlorbError::ConversionFailed);
                }
                let count = b.len() / 4;
                proof {
                    vstd::arithmetic::div_mod::lemma_fundamental_div_mod(b@.len() as int, 4);
                    vstd::std_specs::vec::axiom_spec_len(b);
                }
                let mut entries: Vec<usize> = Vec::new();
                let mut i: usize = 0;
                while i < count
                    invariant
                        b@ == bc.bytes@,
                        bc.blorb_type == BlorbType::Apal,
                        i <= count,
                        count == b@.len() / 4,
                        b@.len() % 4 == 0,
                        4 * count <= b@.len() <= usize::MAX,
                        entries@.len() == i,
                        forall|j: int|
                            0 <= j < i ==> #[trigger] entries@[j] == be32(b@, 4 * j),
                    decreases count - i,
                {
                    entries.push(read_be32_at(b.as_slice(), 4 * i));
                    i = i + 1;
                }
                Ok(BlorbChunk::AdaptivePalette(entries))
            },
            BlorbType::Rdes => {
                if b.len() < 4 {
                    return Err(BlorbError::ConversionFailed);
                }
                let count = read_be32_at(b.as_slice(), 0);
                let ghost total = rdes_entries(b@, 4, count as int);
                let mut entries: Vec<TextDescription> = Vec::new();
                let mut offset: usize = 4;
                let mut k: usize = 0;
                while k < count
                    invariant
                        b@ == bc.bytes@,
                        bc.blorb_type == BlorbType::Rdes,
                        k <= count,
                        4 <= offset <= b@.len() || k == count,
                        b@.len() >= 4,
                        count as int == be32(b@, 0),
                        total == rdes_entries(b@, 4, count as int),
                        match rdes_entries(b@, offset as int, count - k) {
                            None => total is None,
                            Some(rest) => total matches Some(all) && {
                                &&& all.len() == entries@.len() + rest.len()
                                &&& all.subrange(entries@.len() as int, all.len() as int)
                                    == rest
                                &&& forall|i: int|
                                    0 <= i < entries@.len() ==> {
                                        &&& (#[trigger] entries@[i]).usage == all[i].0
                                        &&& entries@[i].number == all[i].1
                                        &&& entries@[i].text@ == all[i].2
                                    }
                            },
                        },
                    decreases count - k,
                {
                    let ghost rest_pre = rdes_entries(b@, offset as int, count - k);
                    if offset > b.len() || b.len() - offset < 12 {
                        proof {
                            assert(rest_pre is None);
                        }
                        return Err(BlorbError::ConversionFailed);
                    }
                    let tag = slice_range(b.as_slice(), offset, offset + 4);
                    let usage = match ResourceType::from_tag(tag.as_slice()) {
                        Ok(u) => u,
                        Err(e) => {
                            proof {
                                assert(rest_pre is None);
                            }
                            return Err(e);
                        },
                    };
                    let number = read_be32_at(b.as_slice(), offset + 4);
                    let len = read_be32_at(b.as_slice(), offset + 8);
                    if len > b.len() || offset + 12 > b.len() - len {
                        proof {
                            assert(rest_pre is None);
                            assert(total is None);
                            assert(bc.blorb_type == BlorbType::Rdes);
                            assert(bc.bytes@.len() >= 4);
                            assert(count as int == be32(bc.bytes@, 0));
                            assert(rdes_entries(bc.bytes@, 4, be32(bc.bytes@, 0)) is None);
                        }
                        return Err(BlorbError::ConversionFailed);
                    }
                    let text_bytes = slice_range(b.as_slice(), offset + 12, offset + 12 + len);
                    let text = match bytes_to_string(text_bytes.as_slice()) {
                        Ok(t) => t,
                        Err(e) => {
                            proof {
                                assert(rest_pre is None);
                            }
                            return Err(e);
                        },
                    };
                    let ghost old_n = entries@.len() as int;
                    entries.push(TextDescription { usage, number, text });
                    offset = offset + 12 + len;
                    k = k + 1;
                    proof {
                        let rest_post = rdes_entries(b@, offset as int, count - k);
                        if rest_pre is Some {
                            let rp = rest_pre->0;
                            let ro = rest_post->0;
                            assert(rest_post is Some);
                            assert(rp == seq![rp[0]] + ro);
                            let all = total->0;
                            assert(all.subrange(old_n, all.len() as int) == rp);
                            assert(all[old_n] == rp[0]);
                            assert forall|t: int| 0 <= t < ro.len() implies all[old_n + 1
                                + t] == ro[t] by {
                                assert(all.subrange(old_n, all.len() as int)[t + 1] == rp[t
                                    + 1]);
                                assert(rp[t + 1] == (seq![rp[0]] + ro)[t + 1]);
                            }
                            assert(all.subrange(old_n + 1, all.len() as int) =~= ro);
                        } else {
                            assert(rest_post is None);
                        }
                    }
                }
                proof {
                    assert(rdes_entries(b@, offset as int, 0) == Some(
                        Seq::<(ResourceType, int, Seq<char>)>::empty(),
                    ));
                }
                Ok(BlorbChunk::ResourceDescription(entries))
            },
            BlorbType::Reso => {
                if b.len() < 24 || (b.len() - 24) % 28 != 0 {
                    return Err(BlorbError::ConversionFailed);
                }
                let count = (b.len() - 24) / 28;
                proof {
                    vstd::arithmetic::div_mod::lemma_fundamental_div_mod(b@.len() - 24, 28);
                    vstd::std_specs::vec::axiom_spec_len(b);
                }
                let standard = WindowSize {
                    width: read_be32_at(b.as_slice(), 0),
                    height: read_be32_at(b.as_slice(), 4),
                };
                let minimum = WindowSize {
                    width: read_be32_at(b.as_slice(), 8),
                    height: read_be32_at(b.as_slice(), 12),
                };
                let maximum = WindowSize {
                    width: read_be32_at(b.as_slice(), 16),
                    height: read_be32_at(b.as_slice(), 20),
                };
                let mut entries: Vec<ResolutionEntry> = Vec::new();
                let mut i: usize = 0;
                while i < count
                    invariant
                        b@ == bc.bytes@,
                        bc.blorb_type == BlorbType::Reso,
                        i <= count,
                        count == (b@.len() - 24) / 28,
                        b@.len() >= 24,
                        (b@.len() - 24) % 28 == 0,
                        24 + 28 * count <= b@.len() <= usize::MAX,
                        entries@.len() == i,
                        forall|j: int|
                            0 <= j < i ==> #[trigger] entries@[j] == (ResolutionEntry {
                                number: be32(b@, 24 + 28 * j) as usize,
                                standard: ResolutionRatio {
                                    numerator: be32(b@, 24 + 28 * j + 4) as usize,
                                    denominator: be32(b@, 24 + 28 * j + 8) as usize,
                                },
                                minimum: ResolutionRatio {
                                    numerator: be32(b@, 24 + 28 * j + 12) as usize,
                                    denominator: be32(b@, 24 + 28 * j + 16) as usize,
                                },
                                maximum: ResolutionRatio {
                                    numerator: be32(b@, 24 + 28 * j + 20) as usize,
                                    denominator: be32(b@, 24 + 28 * j + 24) as usize,
                                },
                            }),
                    decreases count - i,
                {
                    let base = 24 + 28 * i;
                    entries.push(
                        ResolutionEntry {
                            number: read_be32_at(b.as_slice(), base),
                            standard: ResolutionRatio {
                                numerator: read_be32_at(b.as_slice(), base + 4),
                                denominator: read_be32_at(b.as_slice(), base + 8),
                            },
                            minimum: ResolutionRatio {
                                numerator: read_be32_at(b.as_slice(), base + 12),
                                denominator: read_be32_at(b.as_slice(), base + 16),
                            },
                            maximum: ResolutionRatio {
                                numerator: read_be32_at(b.as_slice(), base + 20),
                                denominator: read_be32_at(b.as_slice(), base + 24),
                            },
                        },
                    );
                    i = i + 1;
                }
                Ok(
                    BlorbChunk::Resolution { standard, minimum, maximum, entries },
                )
            },
            _ => Err(BlorbError::ConversionFailed),
        }
    }
}

} // verus!
