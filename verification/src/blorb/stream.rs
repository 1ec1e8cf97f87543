use vstd::prelude::*;
use crate::blorb::error::BlorbError;
use crate::blorb::types::{BlorbType, ResourceType, blorb_type_of, resource_type_of};

verus! {

/// The 16-bit big-endian value at `i`.
pub open spec fn be16(s: Seq<u8>, i: int) -> int {
    s[i] * 0x100 + s[i + 1]
}

/// The 32-bit big-endian value at `i`.
pub open spec fn be32(s: Seq<u8>, i: int) -> int {
    s[i] * 0x1000000 + s[i + 1] * 0x10000 + s[i + 2] * 0x100 + s[i + 3]
}

/// The archive's bytes and a cursor the reader walks with.
#[derive(Debug)]
pub struct BlorbStream {
    /// the whole file
    pub bytes: Vec<u8>,
    /// the position of the next read
    pub cursor: usize,
}

/// A raw IFRS chunk
#[derive(Debug)]
pub struct RawBlorbChunk {
    /// what the resource index says this chunk is used for, if it came
    /// from a resource lookup
    pub usage: Option<ResourceType>,
    /// The type of data stored in the bytes field
    pub blorb_type: BlorbType,
    /// Raw data from the blorb file
    pub bytes: Vec<u8>,
}

impl RawBlorbChunk {
    /// A chunk of the given type over the given bytes, with no usage.
    pub fn new(blorb_type: BlorbType, bytes: Vec<u8>) -> (r: RawBlorbChunk)
        ensures
            r.usage is None,
            r.blorb_type == blorb_type,
            r.bytes@ == bytes@,
    {
        RawBlorbChunk { usage: None, blorb_type, bytes }
    }

    /// The same chunk, marked with the usage the resource index gave it.
    pub fn with_usage(self, usage: ResourceType) -> (r: RawBlorbChunk)
        ensures
            r.usage == Some(usage),
            r.blorb_type == self.blorb_type,
            r.bytes@ == self.bytes@,
    {
        RawBlorbChunk { usage: Some(usage), ..self }
    }
}

impl BlorbStream {
    /// A stream over the file's bytes, positioned at the start.
    pub fn new(bytes: Vec<u8>) -> (r: BlorbStream)
        ensures
            r.bytes@ == bytes@,
            r.cursor == 0,
    {
        BlorbStream { bytes, cursor: 0 }
    }

    /// Move the cursor to `offset`.
    pub fn seek(&mut self, offset: usize)
        ensures
            final(self).bytes@ == old(self).bytes@,
            final(self).cursor == offset,
    {
        self.cursor = offset;
    }

    /// The cursor's position.
    pub fn get_offset(&self) -> (r: usize)
        ensures
            r == self.cursor,
    {
        self.cursor
    }

    /// The next `size` bytes, leaving the cursor past them and their pad
    /// byte (chunks are padded to even length); `None` if they run off
    /// the end of the file.
    pub fn get_next_chunk(&mut self, size: usize) -> (r: Option<Vec<u8>>)
        ensures
            final(self).bytes@ == old(self).bytes@,
            old(self).cursor + size <= old(self)@.len() && size + (size % 2)
                <= usize::MAX - old(self).cursor ==> {
                &&& r matches Some(v) && v@ == old(self)@.subrange(
                    old(self).cursor as int,
                    old(self).cursor + size,
                )
                &&& final(self).cursor == old(self).cursor + size + (size % 2)
            },
            old(self).cursor + size > old(self)@.len() || size + (size % 2) > usize::MAX
                - old(self).cursor ==> r is None && final(self).cursor == old(self).cursor,
    {
        if size > self.bytes.len() || self.cursor > self.bytes.len() - size {
            return None;
        }
        if size % 2 == 1 && self.cursor >= usize::MAX - size {
            return None;
        }
        let mut out: Vec<u8> = Vec::new();
        let mut i: usize = self.cursor;
        let stop = self.cursor + size;
        while i < stop
            invariant
                self.cursor <= i <= stop,
                stop == self.cursor + size,
                stop <= self.bytes@.len(),
                out@ == self.bytes@.subrange(self.cursor as int, i as int),
            decreases stop - i,
        {
            out.push(self.bytes[i]);
            i = i + 1;
            proof {
                assert(out@ =~= self.bytes@.subrange(self.cursor as int, i as int));
            }
        }
        self.cursor = self.cursor + size + (size % 2);
        Some(out)
    }

    /// The spec-level view of the stream's bytes.
    pub open spec fn view(&self) -> Seq<u8> {
        self.bytes@
    }

    /// Read a four-byte chunk type at the cursor. With fewer than five
    /// bytes left the file has ended; a tag that names no chunk type is
    /// refused. Either way four bytes are consumed.
    pub fn read_chunk_type(&mut self) -> (r: Result<BlorbType, BlorbError>)
        ensures
            final(self).bytes@ == old(self)@,
            old(self).cursor + 4 >= old(self)@.len() ==> r == Err::<BlorbType, BlorbError>(
                BlorbError::EndOfFile,
            ) && final(self).cursor == old(self).cursor,
            old(self).cursor + 4 < old(self)@.len() ==> {
                &&& final(self).cursor == old(self).cursor + 4
                &&& match blorb_type_of(
                    old(self)@.subrange(old(self).cursor as int, old(self).cursor + 4),
                ) {
                    Some(t) => r == Ok::<BlorbType, BlorbError>(t),
                    None => r matches Err(BlorbError::InvalidResourceType(_)),
                }
            },
    {
        if self.bytes.len() < 4 || self.cursor >= self.bytes.len() - 4 {
            return Err(BlorbError::EndOfFile);
        }
        let tag = self.read_tag();
        BlorbType::from_tag(tag.as_slice())
    }

    /// Read a four-byte resource usage at the cursor; fewer than four
    /// bytes left ends the file.
    pub fn read_resource_type(&mut self) -> (r: Result<ResourceType, BlorbError>)
        ensures
            final(self).bytes@ == old(self)@,
            old(self).cursor + 4 > old(self)@.len() ==> r == Err::<ResourceType, BlorbError>(
                BlorbError::EndOfFile,
            ) && final(self).cursor == old(self).cursor,
            old(self).cursor + 4 <= old(self)@.len() ==> {
                &&& final(self).cursor == old(self).cursor + 4
                &&& match resource_type_of(
                    old(self)@.subrange(old(self).cursor as int, old(self).cursor + 4),
                ) {
                    Some(t) => r == Ok::<ResourceType, BlorbError>(t),
                    None => r matches Err(BlorbError::InvalidResourceType(_)),
                }
            },
    {
        if self.bytes.len() < 4 || self.cursor > self.bytes.len() - 4 {
            return Err(BlorbError::EndOfFile);
        }
        let tag = self.read_tag();
        ResourceType::from_tag(tag.as_slice())
    }

    /// Read a 32-bit big-endian size at the cursor; fewer than four bytes
    /// left ends the file.
    pub fn read_chunk_size(&mut self) -> (r: Result<usize, BlorbError>)
        ensures
            final(self).bytes@ == old(self)@,
            old(self).cursor + 4 > old(self)@.len() ==> r == Err::<usize, BlorbError>(
                BlorbError::EndOfFile,
            ) && final(self).cursor == old(self).cursor,
            old(self).cursor + 4 <= old(self)@.len() ==> {
                &&& final(self).cursor == old(self).cursor + 4
                &&& r matches Ok(n) && n == be32(old(self)@, old(self).cursor as int)
            },
    {
        if self.bytes.len() < 4 || self.cursor > self.bytes.len() - 4 {
            return Err(BlorbError::EndOfFile);
        }
        let b0 = self.bytes[self.cursor];
        let b1 = self.bytes[self.cursor + 1];
        let b2 = self.bytes[self.cursor + 2];
        let b3 = self.bytes[self.cursor + 3];
        self.cursor = self.cursor + 4;
        Ok(
            (b0 as usize) * 0x1000000 + (b1 as usize) * 0x10000 + (b2 as usize) * 0x100 + (
            b3 as usize),
        )
    }

    /// The four bytes at the cursor, consuming them.
    fn read_tag(&mut self) -> (r: Vec<u8>)
        requires
            old(self).cursor + 4 <= old(self)@.len(),
        ensures
            final(self).bytes@ == old(self)@,
            final(self).cursor == old(self).cursor + 4,
            r@ == old(self)@.subrange(old(self).cursor as int, old(self).cursor + 4),
    {
        proof {
            vstd::std_specs::vec::axiom_spec_len(&self.bytes);
        }
        let mut out: Vec<u8> = Vec::new();
        out.push(self.bytes[self.cursor]);
        out.push(self.bytes[self.cursor + 1]);
        out.push(self.bytes[self.cursor + 2]);
        out.push(self.bytes[self.cursor + 3]);
        self.cursor = self.cursor + 4;
        proof {
            assert(out@ =~= old(self)@.subrange(old(self).cursor as int, old(self).cursor + 4));
        }
        out
    }

    /// Whether the next four bytes name the given chunk type; they are
    /// consumed either way.
    pub fn next_chunk_is(&mut self, blorb_type: BlorbType) -> (r: bool)
        ensures
            final(self).bytes@ == old(self)@,
            old(self).cursor + 4 >= old(self)@.len() ==> r == false && final(self).cursor
                == old(self).cursor,
            old(self).cursor + 4 < old(self)@.len() ==> {
                &&& final(self).cursor == old(self).cursor + 4
                &&& r == (blorb_type_of(
                    old(self)@.subrange(old(self).cursor as int, old(self).cursor + 4),
                ) == Some(blorb_type))
            },
    {
        match self.read_chunk_type() {
            Ok(t) => t == blorb_type,
            Err(_) => false,
        }
    }
}

} // verus!

verus! {

impl BlorbStream {
    /// Read the chunk at the cursor: its type, its size, and its data; it
    /// succeeds exactly when a whole chunk sits there. A FORM chunk is a
    /// container, so its data is the whole chunk with the header kept; any
    /// other chunk's data starts after the header.
    pub fn read_chunk(&mut self) -> (r: Result<RawBlorbChunk, BlorbError>)
        ensures
            final(self).bytes@ == old(self)@,
            ({
                let c = old(self).cursor as int;
                let view = old(self)@;
                &&& (r is Ok <==> crate::blorb::reader::chunk_readable(view, c))
                &&& (r matches Ok(chunk) ==> {
                    &&& blorb_type_of(view.subrange(c, c + 4)) matches Some(t)
                        && chunk.blorb_type == t
                    &&& chunk.bytes@ == if chunk.blorb_type == BlorbType::Form {
                        view.subrange(c, c + 8 + be32(view, c + 4))
                    } else {
                        view.subrange(c + 8, c + 8 + be32(view, c + 4))
                    }
                    &&& chunk.usage is None
                })
            }),
    {
        let offset = self.cursor;
        let blorb_type = match self.read_chunk_type() {
            Ok(t) => t,
            Err(e) => {
                return Err(e);
            },
        };
        let size = match self.read_chunk_size() {
            Ok(n) => n,
            Err(e) => {
                return Err(e);
            },
        };
        if size > self.bytes.len() || offset + 8 > self.bytes.len() - size {
            return Err(BlorbError::EndOfFile);
        }
        let start = if matches!(blorb_type, BlorbType::Form) {
            offset
        } else {
            offset + 8
        };
        let mut data: Vec<u8> = Vec::new();
        let mut i: usize = start;
        let stop = offset + 8 + size;
        while i < stop
            invariant
                start <= i <= stop,
                stop <= self.bytes@.len(),
                data@ == self.bytes@.subrange(start as int, i as int),
            decreases stop - i,
        {
            data.push(self.bytes[i]);
            i = i + 1;
            proof {
                assert(data@ =~= self.bytes@.subrange(start as int, i as int));
            }
        }
        Ok(RawBlorbChunk::new(blorb_type, data))
    }
}

} // verus!
