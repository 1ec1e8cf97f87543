use vstd::prelude::*;
use crate::blorb::chunk::BlorbChunk;
use crate::blorb::error::BlorbError;
use crate::blorb::stream::{BlorbStream, RawBlorbChunk, be32};
use crate::blorb::types::{BlorbType, ResourceType, blorb_type_of, resource_type_of};

verus! {

/// Whether a whole chunk (header and data) can be read at `c`.
pub open spec fn chunk_readable(view: Seq<u8>, c: int) -> bool {
    &&& 0 <= c
    &&& c + 4 < view.len()
    &&& blorb_type_of(view.subrange(c, c + 4)) is Some
    &&& c + 8 <= view.len()
    &&& c + 8 + be32(view, c + 4) <= view.len()
}

/// Where the cursor stands after walking over the chunk at `c`: past its
/// header, its data, and the pad byte of an odd-sized chunk.
pub open spec fn chunk_end(view: Seq<u8>, c: int) -> int {
    c + 8 + be32(view, c + 4) + (be32(view, c + 4) % 2)
}

/// Whether the walk can read the chunk at `c` and step over it: the chunk
/// is whole and the step past its pad byte stays representable.
pub open spec fn chunk_steppable(view: Seq<u8>, c: int) -> bool {
    &&& chunk_readable(view, c)
    &&& be32(view, c + 4) + (be32(view, c + 4) % 2) <= usize::MAX - (c + 8)
}

/// The position of the first chunk of type `ty` at or after `c`, walking
/// chunk by chunk; `None` when the file ends or turns unreadable first.
pub open spec fn find_pos(view: Seq<u8>, c: int, ty: BlorbType) -> Option<int>
    decreases view.len() + 1 - c,
{
    if !chunk_steppable(view, c) {
        None
    } else if blorb_type_of(view.subrange(c, c + 4)) == Some(ty) {
        Some(c)
    } else {
        find_pos(view, chunk_end(view, c), ty)
    }
}

/// A position the walk finds really holds a whole chunk of the wanted
/// type.
pub proof fn lemma_find_pos_readable(view: Seq<u8>, c: int, ty: BlorbType)
    ensures
        find_pos(view, c, ty) matches Some(p) ==> {
            &&& chunk_steppable(view, p)
            &&& blorb_type_of(view.subrange(p, p + 4)) == Some(ty)
        },
    decreases view.len() + 1 - c,
{
    if chunk_readable(view, c) {
        if chunk_steppable(view, c) && blorb_type_of(view.subrange(c, c + 4)) != Some(ty) {
            lemma_find_pos_readable(view, chunk_end(view, c), ty);
        }
    }
}

/// Whether `BlorbReader::new` accepts the file: a FORM container marked
/// IFRS whose first chunk is the resource index, with every index entry
/// whole and carrying a known usage tag.
pub open spec fn reader_accepts(bytes: Seq<u8>) -> bool {
    &&& bytes.len() >= 24
    &&& blorb_type_of(bytes.subrange(0, 4)) == Some(BlorbType::Form)
    &&& blorb_type_of(bytes.subrange(8, 12)) == Some(BlorbType::Ifrs)
    &&& blorb_type_of(bytes.subrange(12, 16)) == Some(BlorbType::Ridx)
    &&& 24 + 12 * be32(bytes, 20) <= bytes.len()
    &&& forall|i: int|
        0 <= i < be32(bytes, 20) ==> resource_type_of(
            #[trigger] bytes.subrange(24 + 12 * i, 24 + 12 * i + 4),
        ) is Some
}

/// One entry of the archive's resource index.
#[derive(Debug, PartialEq, Eq, Structural, Clone, Copy)]
pub struct RsrcIndex {
    /// what the resource is used for
    pub usage: ResourceType,
    /// the number the game refers to it by
    pub id: usize,
    /// where its chunk starts in the file
    pub offset: usize,
}

/// A reader for blorb files
#[derive(Debug)]
pub struct BlorbReader {
    /// the file's bytes and the read cursor
    pub stream: BlorbStream,
    /// the resource index
    pub ridx: Vec<RsrcIndex>,
}

impl BlorbReader {
    /// Create a blorb file reader from a vec of bytes. Exactly the files
    /// `reader_accepts` describes are accepted: a FORM container marked
    /// IFRS whose first chunk is the resource index, read whole.
    pub fn new(bytes: Vec<u8>) -> (r: Result<BlorbReader, BlorbError>)
        ensures
            r is Ok <==> reader_accepts(bytes@),
            r matches Ok(rd) ==> {
                &&& rd.stream.bytes@ == bytes@
                &&& rd.ridx@.len() == be32(bytes@, 20)
                &&& forall|i: int|
                    0 <= i < rd.ridx@.len() ==> #[trigger] rd.ridx@[i] == (RsrcIndex {
                        usage: resource_type_of(
                            bytes@.subrange(24 + 12 * i, 24 + 12 * i + 4),
                        )->0,
                        id: be32(bytes@, 24 + 12 * i + 4) as usize,
                        offset: be32(bytes@, 24 + 12 * i + 8) as usize,
                    })
            },
    {
        let ghost view = bytes@;
        let mut stream = BlorbStream::new(bytes);

        if !stream.next_chunk_is(BlorbType::Form) {
            return Err(BlorbError::InvalidFileType);
        }
        let _file_size = match stream.read_chunk_size() {
            Ok(n) => n,
            Err(e) => {
                return Err(e);
            },
        };
        if !stream.next_chunk_is(BlorbType::Ifrs) {
            return Err(BlorbError::InvalidFileType);
        }
        if !stream.next_chunk_is(BlorbType::Ridx) {
            return Err(BlorbError::InvalidFileType);
        }
        let _size = match stream.read_chunk_size() {
            Ok(n) => n,
            Err(e) => {
                return Err(e);
            },
        };
        let count = match stream.read_chunk_size() {
            Ok(n) => n,
            Err(e) => {
                return Err(e);
            },
        };

        let mut ridx: Vec<RsrcIndex> = Vec::new();
        let mut i: usize = 0;
        while i < count
            invariant
                view == bytes@,
                stream.bytes@ == view,
                i <= count,
                count as int == be32(view, 20),
                view.len() >= 24,
                blorb_type_of(view.subrange(0, 4)) == Some(BlorbType::Form),
                blorb_type_of(view.subrange(8, 12)) == Some(BlorbType::Ifrs),
                blorb_type_of(view.subrange(12, 16)) == Some(BlorbType::Ridx),
                stream.cursor == 24 + 12 * i,
                i > 0 ==> 24 + 12 * i <= view.len(),
                ridx@.len() == i,
                forall|j: int|
                    0 <= j < i ==> resource_type_of(
                        #[trigger] view.subrange(24 + 12 * j, 24 + 12 * j + 4),
                    ) is Some,
                forall|j: int|
                    0 <= j < i ==> #[trigger] ridx@[j] == (RsrcIndex {
                        usage: resource_type_of(view.subrange(24 + 12 * j, 24 + 12 * j + 4))->0,
                        id: be32(view, 24 + 12 * j + 4) as usize,
                        offset: be32(view, 24 + 12 * j + 8) as usize,
                    }),
            decreases count - i,
        {
            let usage = match stream.read_resource_type() {
                Ok(u) => u,
                Err(e) => {
                    proof {
                        if 24 + 12 * (i as int) + 4 > view.len() {
                            assert(24 + 12 * be32(view, 20) > view.len());
                            assert(!reader_accepts(view));
                        } else {
                            assert(resource_type_of(
                                view.subrange(
                                    24 + 12 * (i as int),
                                    24 + 12 * (i as int) + 4,
                                ),
                            ) is None);
                            assert(0 <= i as int && (i as int) < be32(view, 20));
                            assert(!reader_accepts(view));
                        }
                    }
                    return Err(e);
                },
            };
            let id = match stream.read_chunk_size() {
                Ok(n) => n,
                Err(e) => {
                    proof {
                        assert(24 + 12 * be32(view, 20) > view.len());
                        assert(!reader_accepts(view));
                    }
                    return Err(e);
                },
            };
            let offset = match stream.read_chunk_size() {
                Ok(n) => n,
                Err(e) => {
                    proof {
                        assert(24 + 12 * be32(view, 20) > view.len());
                        assert(!reader_accepts(view));
                    }
                    return Err(e);
                },
            };
            ridx.push(RsrcIndex { usage, id, offset });
            i = i + 1;
        }
        proof {
            if count == 0 {
                assert(24 + 12 * be32(view, 20) <= view.len());
            }
        }
        Ok(BlorbReader { stream, ridx })
    }

    /// Position the cursor on the archive's first body chunk, right after
    /// the container header; `next_chunk` then walks the chunks in file
    /// order.
    pub fn start_iter(&mut self)
        ensures
            final(self).stream.bytes@ == old(self).stream.bytes@,
            final(self).ridx@ == old(self).ridx@,
            final(self).stream.cursor == 12,
    {
        self.stream.seek(12);
    }

    /// Read the chunk under the cursor and move past it; `None` at the
    /// end of the file. A whole chunk under the cursor is always read.
    pub fn next_chunk(&mut self) -> (r: Option<Result<RawBlorbChunk, BlorbError>>)
        ensures
            final(self).stream.bytes@ == old(self).stream.bytes@,
            final(self).ridx@ == old(self).ridx@,
            ({
                let c = old(self).stream.cursor as int;
                let view = old(self).stream.bytes@;
                &&& ((r matches Some(Ok(_))) <==> chunk_steppable(view, c))
                &&& (r matches Some(Ok(chunk)) ==> {
                    &&& blorb_type_of(view.subrange(c, c + 4)) matches Some(t)
                        && chunk.blorb_type == t
                    &&& chunk.bytes@ == view.subrange(c + 8, c + 8 + be32(view, c + 4))
                    &&& chunk.usage is None
                    &&& final(self).stream.cursor as int == chunk_end(view, c)
                })
            }),
    {
        match self.read_next_chunk() {
            Ok(chunk) => Some(Ok(chunk)),
            Err(BlorbError::EndOfFile) => None,
            Err(e) => Some(Err(e)),
        }
    }

    /// Read one chunk header and its data at the cursor, stepping past the
    /// chunk; exactly the positions `chunk_steppable` describes are read.
    pub fn read_next_chunk(&mut self) -> (r: Result<RawBlorbChunk, BlorbError>)
        ensures
            final(self).stream.bytes@ == old(self).stream.bytes@,
            final(self).ridx@ == old(self).ridx@,
            ({
                let c = old(self).stream.cursor as int;
                let view = old(self).stream.bytes@;
                &&& (r is Ok <==> chunk_steppable(view, c))
                &&& (r matches Ok(chunk) ==> {
                    &&& blorb_type_of(view.subrange(c, c + 4)) matches Some(t)
                        && chunk.blorb_type == t
                    &&& chunk.bytes@ == view.subrange(c + 8, c + 8 + be32(view, c + 4))
                    &&& chunk.usage is None
                    &&& final(self).stream.cursor as int == chunk_end(view, c)
                })
            }),
    {
        let blorb_type = match self.stream.read_chunk_type() {
            Ok(t) => t,
            Err(e) => {
                return Err(e);
            },
        };
        let chunk_size = match self.stream.read_chunk_size() {
            Ok(n) => n,
            Err(e) => {
                return Err(e);
            },
        };
        match self.stream.get_next_chunk(chunk_size) {
            Some(data) => Ok(RawBlorbChunk::new(blorb_type, data)),
            None => Err(BlorbError::EndOfFile),
        }
    }

    /// The first index entry for the given usage and resource number.
    pub open spec fn spec_rsrc_find(entries: Seq<RsrcIndex>, usage: ResourceType, id: usize)
        -> Option<RsrcIndex>
        decreases entries.len(),
    {
        if entries.len() == 0 {
            None
        } else if entries[0].id == id && entries[0].usage == usage {
            Some(entries[0])
        } else {
            Self::spec_rsrc_find(entries.drop_first(), usage, id)
        }
    }

    /// Retrieve a resouce by Resource ID as defined in the RIdx chunk: its
    /// chunk is read at the offset the index gives and carries the usage
    /// the index gave it; a FORM chunk, being a container, comes back
    /// whole with its header. The read succeeds exactly when the first
    /// matching index entry points at a whole chunk.
    pub fn get_resource(&mut self, usage: ResourceType, id: usize) -> (r: Result<
        RawBlorbChunk,
        BlorbError,
    >)
        ensures
            final(self).stream.bytes@ == old(self).stream.bytes@,
            final(self).ridx@ == old(self).ridx@,
            Self::spec_rsrc_find(old(self).ridx@, usage, id) is None ==> r == Err::<
                RawBlorbChunk,
                BlorbError,
            >(BlorbError::NonExistentResource(id)),
            Self::spec_rsrc_find(old(self).ridx@, usage, id) matches Some(entry) ==> {
                let c = entry.offset as int;
                let view = old(self).stream.bytes@;
                &&& (r is Ok <==> chunk_readable(view, c))
                &&& (r matches Ok(chunk) ==> {
                    &&& blorb_type_of(view.subrange(c, c + 4)) matches Some(t)
                        && chunk.blorb_type == t
                    &&& chunk.bytes@ == if chunk.blorb_type == BlorbType::Form {
                        view.subrange(c, c + 8 + be32(view, c + 4))
                    } else {
                        view.subrange(c + 8, c + 8 + be32(view, c + 4))
                    }
                    &&& chunk.usage == Some(usage)
                })
            },
    {
        let ghost ridx0 = self.ridx@;
        let ghost bytes0 = self.stream.bytes@;
        proof {
            assert(self.ridx@.subrange(0, self.ridx@.len() as int) =~= self.ridx@);
        }
        let mut i: usize = 0;
        while i < self.ridx.len()
            invariant
                i <= self.ridx@.len(),
                self.ridx@ == ridx0,
                self.stream.bytes@ == bytes0,
                ridx0 == old(self).ridx@,
                bytes0 == old(self).stream.bytes@,
                Self::spec_rsrc_find(ridx0, usage, id) == Self::spec_rsrc_find(
                    ridx0.subrange(i as int, ridx0.len() as int),
                    usage,
                    id,
                ),
            decreases self.ridx@.len() - i,
        {
            let ghost rest = ridx0.subrange(i as int, ridx0.len() as int);
            let entry = self.ridx[i];
            if entry.id == id && entry.usage == usage {
                proof {
                    assert(rest[0] == entry);
                }
                let offset = entry.offset;
                self.stream.seek(offset);
                let chunk = match self.stream.read_chunk() {
                    Ok(c) => c,
                    Err(e) => {
                        return Err(e);
                    },
                };
                return Ok(chunk.with_usage(usage));
            }
            proof {
                assert(rest[0] == entry);
                assert(rest.drop_first() =~= ridx0.subrange(
                    i + 1 as int,
                    ridx0.len() as int,
                ));
            }
            i = i + 1;
        }
        proof {
            assert(ridx0.subrange(ridx0.len() as int, ridx0.len() as int).len() == 0);
        }
        Err(BlorbError::NonExistentResource(id))
    }

    /// Find the first chunk of the given type, walking the file's body
    /// chunk by chunk from the start: it succeeds exactly when such a
    /// chunk appears before the file ends or turns unreadable, and hands
    /// back that first chunk.
    pub fn find_chunk(&mut self, blorb_type: BlorbType) -> (r: Result<
        RawBlorbChunk,
        BlorbError,
    >)
        ensures
            final(self).stream.bytes@ == old(self).stream.bytes@,
            final(self).ridx@ == old(self).ridx@,
            ({
                let view = old(self).stream.bytes@;
                &&& (r is Ok <==> find_pos(view, 12, blorb_type) is Some)
                &&& (r matches Ok(chunk) ==> {
                    let p = find_pos(view, 12, blorb_type)->0;
                    &&& chunk.blorb_type == blorb_type
                    &&& chunk.bytes@ == view.subrange(p + 8, p + 8 + be32(view, p + 4))
                    &&& chunk.usage is None
                })
            }),
    {
        let ghost view = self.stream.bytes@;
        let ghost ridx0 = self.ridx@;
        self.start_iter();
        let mut fuel: usize = self.stream.bytes.len() / 8 + 2;
        proof {
            vstd::std_specs::vec::axiom_spec_len(&self.stream.bytes);
        }
        while fuel > 0
            invariant
                self.stream.bytes@ == view,
                self.ridx@ == ridx0,
                view == old(self).stream.bytes@,
                ridx0 == old(self).ridx@,
                find_pos(view, 12, blorb_type) == find_pos(
                    view,
                    self.stream.cursor as int,
                    blorb_type,
                ),
                self.stream.cursor as int + 8 * fuel >= view.len() + 9,
            decreases fuel,
        {
            fuel = fuel - 1;
            let ghost pre_cursor = self.stream.cursor as int;
            match self.next_chunk() {
                None => {
                    proof {
                        assert(!chunk_steppable(view, pre_cursor));
                    }
                    return Err(BlorbError::ChunkNotFound);
                },
                Some(Err(e)) => {
                    proof {
                        assert(!chunk_steppable(view, pre_cursor));
                    }
                    return Err(e);
                },
                Some(Ok(chunk)) => {
                    if chunk.blorb_type == blorb_type {
                        proof {
                            assert(find_pos(view, pre_cursor, blorb_type) == Some(
                                pre_cursor,
                            ));
                        }
                        return Ok(chunk);
                    }
                    proof {
                        assert(find_pos(view, pre_cursor, blorb_type) == find_pos(
                            view,
                            chunk_end(view, pre_cursor),
                            blorb_type,
                        ));
                    }
                },
            }
        }
        proof {
            assert(self.stream.cursor as int >= view.len() + 9);
            assert(!chunk_steppable(view, self.stream.cursor as int));
        }
        Err(BlorbError::ChunkNotFound)
    }

    /// Retrieve the image associated with the Frontispiece chunk, if the
    /// archive names one.
    pub fn get_frontispiece_image(&mut self) -> (r: Option<RawBlorbChunk>)
        ensures
            final(self).stream.bytes@ == old(self).stream.bytes@,
            final(self).ridx@ == old(self).ridx@,
            r matches Some(chunk) ==> chunk.usage == Some(ResourceType::Pict),
    {
        let chunk = match self.find_chunk(BlorbType::Fspc) {
            Ok(c) => c,
            Err(_) => {
                return None;
            },
        };
        match BlorbChunk::from_raw(&chunk) {
            Ok(BlorbChunk::Frontispiece(num)) => match self.get_resource(
                ResourceType::Pict,
                num,
            ) {
                Ok(res) => Some(res),
                Err(_) => None,
            },
            _ => None,
        }
    }

    /// Retrieve the game identifier chunk: exactly when the archive's walk
    /// finds a game-identifier chunk and it has the identifier's fixed
    /// thirteen bytes.
    pub fn get_game_identifier(&mut self) -> (r: Option<BlorbChunk>)
        ensures
            final(self).stream.bytes@ == old(self).stream.bytes@,
            final(self).ridx@ == old(self).ridx@,
            ({
                let view = old(self).stream.bytes@;
                &&& (r is Some <==> (find_pos(view, 12, BlorbType::Ifhd) matches Some(p)
                    && be32(view, p + 4) == 13))
                &&& (r matches Some(c) ==> c is GameIdentifier)
            }),
    {
        proof {
            lemma_find_pos_readable(
                old(self).stream.bytes@,
                12,
                BlorbType::Ifhd,
            );
        }
        let chunk = match self.find_chunk(BlorbType::Ifhd) {
            Ok(c) => c,
            Err(_) => {
                return None;
            },
        };
        match BlorbChunk::from_raw(&chunk) {
            Ok(c) => if matches!(c, BlorbChunk::GameIdentifier { .. }) {
                Some(c)
            } else {
                None
            },
            Err(_) => None,
        }
    }

    /// The resource index entries, for an embedding program to show.
    pub fn rsrc_entries(&self) -> (r: Vec<RsrcIndex>)
        ensures
            r@ == self.ridx@,
    {
        let mut out: Vec<RsrcIndex> = Vec::new();
        let mut i: usize = 0;
        while i < self.ridx.len()
            invariant
                i <= self.ridx@.len(),
                out@ == self.ridx@.subrange(0, i as int),
            decreases self.ridx@.len() - i,
        {
            out.push(self.ridx[i]);
            i = i + 1;
            proof {
                assert(out@ =~= self.ridx@.subrange(0, i as int));
            }
        }
        proof {
            assert(self.ridx@.subrange(0, self.ridx@.len() as int) =~= self.ridx@);
        }
        out
    }
}

} // verus!
