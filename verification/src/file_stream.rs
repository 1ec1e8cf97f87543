use vstd::prelude::*;
use crate::{GlkFileMode, GlkFileUsage, GlkRock, GlkSeekMode};
use crate::codec::{str_eq, utf8_step, utf8_decode_step, char_from_u32};

verus! {

/// A reference to a file
pub type GlkFileRef = u32;

/// A reference to a file: its usage, its name, the caller's tag, and
/// whether it was created as a temporary file.
#[derive(Debug)]
pub struct FileRef {
    /// The usage of the file
    pub usage: GlkFileUsage,
    /// The name of the file
    pub name: String,
    /// The file reference rock
    pub rock: GlkRock,
    /// are we creating a temporary file
    pub is_temp: bool,
}

/// One named file's contents, as the library sees them. Reading and
/// writing the platform's real files is the embedding program's business;
/// the library keeps each file's bytes under its name.
pub struct NamedFile {
    /// the file's name
    pub name: String,
    /// the file's bytes
    pub data: Vec<u8>,
}

/// Relies on mktemp's Temp::new_file: it creates a fresh temporary file
/// and hands back its path; the path depends on the environment, so
/// nothing more is promised. A failure to create the file answers `None`.
#[verifier::external_body]
fn temp_file_path() -> (r: Option<String>) {
    match mktemp::Temp::new_file() {
        Ok(t) => Some(t.to_path_buf().to_string_lossy().to_string()),
        Err(_) => None,
    }
}

/// The index of the file named `name`, or `-1` if no file has that name.
pub open spec fn spec_file_index(files: Seq<NamedFile>, name: Seq<char>) -> int
    decreases files.len(),
{
    if files.len() == 0 {
        -1
    } else if files[0].name@ == name {
        0
    } else {
        let rest = spec_file_index(files.drop_first(), name);
        if rest == -1 {
            -1
        } else {
            rest + 1
        }
    }
}

/// Owns the table of file references and the contents of every file the
/// library has seen.
pub struct FileRefManager {
    /// the file references, identified by their index
    pub refs: Vec<FileRef>,
    /// the contents of each named file
    pub files: Vec<NamedFile>,
}

impl FileRefManager {
    /// The index result of `spec_file_index` stays inside the table.
    pub proof fn lemma_file_index_in_range(files: Seq<NamedFile>, name: Seq<char>)
        ensures
            -1 <= spec_file_index(files, name) < files.len(),
            spec_file_index(files, name) >= 0 ==> files[spec_file_index(files, name)].name@
                == name,
        decreases files.len(),
    {
        if files.len() > 0 {
            Self::lemma_file_index_in_range(files.drop_first(), name);
        }
    }

    /// A manager with no file references and no file contents.
    pub fn new() -> (r: FileRefManager)
        ensures
            r.refs@.len() == 0,
            r.files@.len() == 0,
    {
        FileRefManager { refs: Vec::new(), files: Vec::new() }
    }

    /// The file reference `id` names, if any.
    pub fn get(&self, id: GlkFileRef) -> (r: Option<&FileRef>)
        ensures
            (id as int) < self.refs@.len() ==> r == Some(&self.refs@[id as int]),
            (id as int) >= self.refs@.len() ==> r is None,
    {
        if (id as usize) < self.refs.len() {
            Some(&self.refs[id as usize])
        } else {
            None
        }
    }

    /// Record a new file reference under the next free identity.
    fn create_file(&mut self, usage: GlkFileUsage, name: String, rock: GlkRock, is_temp: bool)
        -> (r: Option<GlkFileRef>)
        ensures
            old(self).refs@.len() < GlkFileRef::MAX ==> {
                &&& r == Some(old(self).refs@.len() as GlkFileRef)
                &&& final(self).refs@.len() == old(self).refs@.len() + 1
                &&& final(self).refs@.last().usage == usage
                &&& final(self).refs@.last().name@ == name@
                &&& final(self).refs@.last().rock == rock
                &&& final(self).refs@.last().is_temp == is_temp
                &&& final(self).refs@.subrange(0, old(self).refs@.len() as int) == old(
                    self,
                ).refs@
            },
            old(self).refs@.len() >= GlkFileRef::MAX ==> r is None && *final(self) == *old(
                self,
            ),
            final(self).files@ == old(self).files@,
    {
        if self.refs.len() >= GlkFileRef::MAX as usize {
            return None;
        }
        let id = self.refs.len() as GlkFileRef;
        self.refs.push(FileRef { usage, name, rock, is_temp });
        proof {
            assert(self.refs@.subrange(0, old(self).refs@.len() as int) =~= old(self).refs@);
        }
        Some(id)
    }

    /// Create a reference to a fresh temporary file; the platform picks the
    /// name, so nothing is promised of it.
    pub fn create_temp_file(&mut self, usage: GlkFileUsage, rock: GlkRock) -> (r: Option<
        GlkFileRef,
    >)
        ensures
            final(self).files@ == old(self).files@,
            r matches Some(id) ==> {
                &&& id == old(self).refs@.len()
                &&& final(self).refs@.len() == old(self).refs@.len() + 1
                &&& final(self).refs@.last().usage == usage
                &&& final(self).refs@.last().rock == rock
                &&& final(self).refs@.last().is_temp == true
                &&& final(self).refs@.subrange(0, old(self).refs@.len() as int) == old(
                    self,
                ).refs@
            },
            r is None ==> final(self).refs@ == old(self).refs@,
    {
        match temp_file_path() {
            None => None,
            Some(path) => self.create_file(usage, path, rock, true),
        }
    }

    /// Create a reference to a file with a caller-chosen name.
    pub fn create_named_file(&mut self, usage: GlkFileUsage, name: String, rock: GlkRock)
        -> (r: Option<GlkFileRef>)
        ensures
            final(self).files@ == old(self).files@,
            old(self).refs@.len() < GlkFileRef::MAX ==> {
                &&& r == Some(old(self).refs@.len() as GlkFileRef)
                &&& final(self).refs@.len() == old(self).refs@.len() + 1
                &&& final(self).refs@.last().usage == usage
                &&& final(self).refs@.last().name@ == name@
                &&& final(self).refs@.last().rock == rock
                &&& final(self).refs@.last().is_temp == false
                &&& final(self).refs@.subrange(0, old(self).refs@.len() as int) == old(
                    self,
                ).refs@
            },
            old(self).refs@.len() >= GlkFileRef::MAX ==> r is None && *final(self) == *old(
                self,
            ),
    {
        self.create_file(usage, name, rock, false)
    }

    /// Drop the stored contents of the file that reference `id` names; the
    /// reference itself stays. The embedding program removes the real file.
    pub fn delete_file_by_id(&mut self, id: GlkFileRef)
        ensures
            final(self).refs@ == old(self).refs@,
            (id as int) < old(self).refs@.len() ==> {
                let idx = spec_file_index(old(self).files@, old(self).refs@[id as int].name@);
                if idx >= 0 {
                    final(self).files@ == old(self).files@.remove(idx)
                } else {
                    final(self).files@ == old(self).files@
                }
            },
            (id as int) >= old(self).refs@.len() ==> final(self).files@ == old(self).files@,
    {
        if (id as usize) >= self.refs.len() {
            return ;
        }
        proof {
            Self::lemma_file_index_in_range(self.files@, self.refs@[id as int].name@);
        }
        let idx = match self.find_file(id) {
            Some(i) => i,
            None => {
                return ;
            },
        };
        let _ = self.files.remove(idx);
    }

    /// The index of the stored contents for the file that reference `id`
    /// names.
    fn find_file(&self, id: GlkFileRef) -> (r: Option<usize>)
        requires
            (id as int) < self.refs@.len(),
        ensures
            ({
                let idx = spec_file_index(self.files@, self.refs@[id as int].name@);
                if idx >= 0 {
                    r == Some(idx as usize)
                } else {
                    r is None
                }
            }),
    {
        let mut i: usize = 0;
        let ghost name = self.refs@[id as int].name@;
        proof {
            Self::lemma_file_index_in_range(self.files@, name);
            Self::lemma_file_index_prefix(self.files@, name, 0);
        }
        while i < self.files.len()
            invariant
                i <= self.files@.len(),
                name == self.refs@[id as int].name@,
                (id as int) < self.refs@.len(),
                spec_file_index(self.files@, name) == if spec_file_index(
                    self.files@.subrange(i as int, self.files@.len() as int),
                    name,
                ) >= 0 {
                    spec_file_index(
                        self.files@.subrange(i as int, self.files@.len() as int),
                        name,
                    ) + i
                } else {
                    -1
                },
            decreases self.files@.len() - i,
        {
            let ghost rest = self.files@.subrange(i as int, self.files@.len() as int);
            if str_eq(self.files[i].name.as_str(), self.refs[id as usize].name.as_str()) {
                proof {
                    assert(rest[0].name@ == name);
                    assert(spec_file_index(rest, name) == 0);
                }
                return Some(i);
            }
            proof {
                assert(rest[0].name@ != name);
                assert(rest.drop_first() =~= self.files@.subrange(
                    i + 1 as int,
                    self.files@.len() as int,
                ));
            }
            i = i + 1;
        }
        proof {
            assert(self.files@.subrange(
                self.files@.len() as int,
                self.files@.len() as int,
            ).len() == 0);
        }
        None
    }

    /// Splitting the search at `i`: the index in the whole table is the
    /// index in the tail shifted by `i`, when the head holds no match.
    proof fn lemma_file_index_prefix(files: Seq<NamedFile>, name: Seq<char>, i: int)
        requires
            0 <= i <= files.len(),
            forall|j: int| 0 <= j < i ==> files[j].name@ != name,
        ensures
            spec_file_index(files, name) == if spec_file_index(
                files.subrange(i, files.len() as int),
                name,
            ) >= 0 {
                spec_file_index(files.subrange(i, files.len() as int), name) + i
            } else {
                -1
            },
        decreases i,
    {
        Self::lemma_file_index_in_range(files, name);
        Self::lemma_file_index_in_range(files.subrange(i, files.len() as int), name);
        if i == 0 {
            assert(files.subrange(0, files.len() as int) =~= files);
        } else {
            assert(files[0].name@ != name);
            assert(files.len() > 0);
            Self::lemma_file_index_tail_shift(files, name, i);
        }
    }

    /// Helper for `lemma_file_index_prefix`: peel off one non-matching
    /// head.
    proof fn lemma_file_index_tail_shift(files: Seq<NamedFile>, name: Seq<char>, i: int)
        requires
            1 <= i <= files.len(),
            forall|j: int| 0 <= j < i ==> files[j].name@ != name,
        ensures
            spec_file_index(files, name) == if spec_file_index(
                files.subrange(i, files.len() as int),
                name,
            ) >= 0 {
                spec_file_index(files.subrange(i, files.len() as int), name) + i
            } else {
                -1
            },
        decreases i,
    {
        let tail = files.drop_first();
        assert(files[0].name@ != name);
        Self::lemma_file_index_in_range(files, name);
        Self::lemma_file_index_in_range(tail, name);
        Self::lemma_file_index_in_range(files.subrange(i, files.len() as int), name);
        if i == 1 {
            assert(files.subrange(1, files.len() as int) =~= tail);
        } else {
            assert forall|j: int| 0 <= j < i - 1 implies tail[j].name@ != name by {
                assert(tail[j] == files[j + 1]);
            }
            Self::lemma_file_index_tail_shift(tail, name, i - 1);
            assert(tail.subrange(i - 1, tail.len() as int) =~= files.subrange(
                i,
                files.len() as int,
            ));
        }
    }

    /// Whether reference `id` names a file with stored contents.
    pub fn has_file(&self, id: GlkFileRef) -> (r: bool)
        ensures
            r <==> ((id as int) < self.refs@.len() && spec_file_index(
                self.files@,
                self.refs@[id as int].name@,
            ) >= 0),
    {
        if (id as usize) >= self.refs.len() {
            return false;
        }
        proof {
            Self::lemma_file_index_in_range(self.files@, self.refs@[id as int].name@);
        }
        self.find_file(id).is_some()
    }

    /// The stored contents of the file named by reference `id`: a missing
    /// file reads as empty, the way creating a fresh file finds it.
    pub fn read_file(&self, id: GlkFileRef) -> (r: Option<Vec<u8>>)
        ensures
            (id as int) >= self.refs@.len() ==> r is None,
            (id as int) < self.refs@.len() ==> {
                let idx = spec_file_index(self.files@, self.refs@[id as int].name@);
                if idx >= 0 {
                    r matches Some(v) && v@ == self.files@[idx].data@
                } else {
                    r matches Some(v) && v@ == Seq::<u8>::empty()
                }
            },
    {
        if (id as usize) >= self.refs.len() {
            return None;
        }
        proof {
            Self::lemma_file_index_in_range(self.files@, self.refs@[id as int].name@);
        }
        match self.find_file(id) {
            Some(i) => {
                let ghost idx = spec_file_index(self.files@, self.refs@[id as int].name@);
                proof {
                    vstd::std_specs::vec::axiom_spec_len(&self.files);
                    assert(i as int == idx);
                }
                let v = self.files[i].data.clone();
                proof {
                    assert(v@ == self.files@[idx].data@);
                }
                Some(v)
            },
            None => {
                let empty: Vec<u8> = Vec::new();
                Some(empty)
            },
        }
    }

    /// Store `data` as the contents of the file named by reference `id`.
    pub fn write_file(&mut self, id: GlkFileRef, data: Vec<u8>)
        ensures
            final(self).refs@ == old(self).refs@,
            (id as int) >= old(self).refs@.len() ==> final(self).files@ == old(self).files@,
            (id as int) < old(self).refs@.len() ==> {
                let idx = spec_file_index(old(self).files@, old(self).refs@[id as int].name@);
                if idx >= 0 {
                    &&& final(self).files@.len() == old(self).files@.len()
                    &&& final(self).files@[idx].data@ == data@
                    &&& final(self).files@[idx].name@ == old(self).files@[idx].name@
                    &&& forall|j: int|
                        0 <= j < old(self).files@.len() && j != idx ==> final(self).files@[j]
                            == old(self).files@[j]
                } else {
                    &&& final(self).files@.len() == old(self).files@.len() + 1
                    &&& final(self).files@.last().name@ == old(self).refs@[id as int].name@
                    &&& final(self).files@.last().data@ == data@
                    &&& final(self).files@.subrange(0, old(self).files@.len() as int) == old(
                        self,
                    ).files@
                }
            },
    {
        if (id as usize) >= self.refs.len() {
            return ;
        }
        proof {
            Self::lemma_file_index_in_range(self.files@, self.refs@[id as int].name@);
        }
        match self.find_file(id) {
            Some(i) => {
                let ghost pre = self.files@;
                let ghost idx = spec_file_index(self.files@, self.refs@[id as int].name@);
                proof {
                    vstd::std_specs::vec::axiom_spec_len(&self.files);
                    assert(i as int == idx);
                }
                let name = self.files[i].name.as_str().to_owned();
                let replacement = NamedFile { name, data };
                let ghost grepl = replacement;
                self.files[i] = replacement;
                proof {
                    assert(self.files@ == pre.update(idx, grepl));
                    assert(grepl.data@ == data@);
                    assert(grepl.name@ == pre[idx].name@);
                    assert(self.files@[idx].data@ == data@);
                }
            },
            None => {
                let name = self.refs[id as usize].name.as_str().to_owned();
                self.files.push(NamedFile { name, data });
                proof {
                    assert(self.files@.subrange(0, old(self).files@.len() as int) =~= old(
                        self,
                    ).files@);
                }
            },
        }
    }
}

} // verus!

verus! {

/// Writing one byte to a file at a cursor: inside the file it overwrites;
/// past the end the gap fills with zero bytes, as seeking past the end of
/// a real file behaves. A cursor at the very top of the address space
/// drops the byte.
pub open spec fn file_write_byte(data: Seq<u8>, cursor: int, x: u8) -> (Seq<u8>, int) {
    if 0 <= cursor < data.len() {
        (data.update(cursor, x), cursor + 1)
    } else if cursor < usize::MAX {
        (data + Seq::new((cursor - data.len()) as nat, |j: int| 0u8) + seq![x], cursor + 1)
    } else {
        (data, cursor)
    }
}

/// Writing a run of bytes, one after the other.
pub open spec fn file_write(data: Seq<u8>, cursor: int, bytes: Seq<u8>) -> (Seq<u8>, int)
    decreases bytes.len(),
{
    if bytes.len() == 0 {
        (data, cursor)
    } else {
        let step = file_write_byte(data, cursor, bytes[0]);
        file_write(step.0, step.1, bytes.drop_first())
    }
}

/// The position just after the newline that ends the line starting at `i`,
/// or the end of the data when no newline follows.
pub open spec fn line_end(data: Seq<u8>, i: int) -> int
    recommends
        0 <= i <= data.len(),
    decreases data.len() - i,
{
    if i < 0 || i >= data.len() {
        data.len() as int
    } else if data[i] == 10 {
        i + 1
    } else {
        line_end(data, i + 1)
    }
}

/// Reading up to `count` UTF-8 code points from `cursor`: a decode failure
/// or a value outside the scalar range stops the read after the bytes it
/// consumed; when `stop_nl` is set, a newline ends the read and is
/// included.
pub open spec fn file_read_uni(data: Seq<u8>, cursor: int, count: int, stop_nl: bool) -> (
    Seq<char>,
    int,
)
    decreases count,
{
    if count <= 0 || cursor < 0 || cursor >= data.len() {
        (Seq::empty(), cursor)
    } else {
        let step = utf8_step(data, cursor);
        match step.0 {
            None => (Seq::empty(), step.1),
            Some(v) => if !crate::mem_stream::is_scalar_value(v) {
                (Seq::empty(), step.1)
            } else {
                let ch = v as char;
                if stop_nl && ch == '\n' {
                    (seq![ch], step.1)
                } else {
                    let rest = file_read_uni(data, step.1, count - 1, stop_nl);
                    (seq![ch] + rest.0, rest.1)
                }
            },
        }
    }
}

/// A file stream backend: the named file's bytes while the stream is open,
/// plus a cursor. The embedding program loads the bytes when the stream
/// opens and stores them back when it closes; everything in between is
/// plain buffer arithmetic. In append mode every write lands at the end.
#[derive(Debug)]
pub struct FileStream {
    /// the file's bytes while the stream is open
    data: Vec<u8>,
    /// the position of the next read or write; seeks may park it past the
    /// end of the data
    cursor: usize,
    /// writes always go to the end, as in a file opened for appending
    append: bool,
}

impl FileStream {
    /// The file's bytes.
    pub closed spec fn view(&self) -> Seq<u8> {
        self.data@
    }

    /// The cursor position.
    pub closed spec fn spec_cursor(&self) -> int {
        self.cursor as int
    }

    /// Whether every write goes to the end.
    pub closed spec fn spec_append(&self) -> bool {
        self.append
    }

    /// Where the next write lands.
    pub open spec fn write_pos(&self) -> int {
        if self.spec_append() {
            self@.len() as int
        } else {
            self.spec_cursor()
        }
    }

    /// A file stream over the contents a file reference supplied, prepared
    /// for `mode`: writing truncates, appending starts at the end, and
    /// reading starts at the beginning.
    pub fn open(contents: Vec<u8>, mode: GlkFileMode) -> (r: FileStream)
        ensures
            mode == GlkFileMode::Write ==> r@ == Seq::<u8>::empty(),
            mode != GlkFileMode::Write ==> r@ == contents@,
            r.spec_cursor() == if mode == GlkFileMode::WriteAppend {
                contents@.len() as int
            } else {
                0
            },
            r.spec_append() == (mode == GlkFileMode::WriteAppend),
    {
        match mode {
            GlkFileMode::Write => FileStream { data: Vec::new(), cursor: 0, append: false },
            GlkFileMode::WriteAppend => {
                let cursor = contents.len();
                FileStream { data: contents, cursor, append: true }
            },
            _ => FileStream { data: contents, cursor: 0, append: false },
        }
    }

    /// Write one byte at the write position. Returns how many bytes were
    /// written.
    pub fn put_char(&mut self, ch: u8) -> (r: usize)
        ensures
            (final(self)@, final(self).spec_cursor()) == file_write_byte(
                old(self)@,
                old(self).write_pos(),
                ch,
            ),
            final(self).spec_append() == old(self).spec_append(),
            r == 1,
    {
        if self.append {
            self.cursor = self.data.len();
        }
        if self.cursor < self.data.len() {
            self.data[self.cursor] = ch;
            self.cursor = self.cursor + 1;
        } else if self.cursor < usize::MAX {
            while self.data.len() < self.cursor
                invariant
                    old(self)@.len() <= self.data@.len() <= self.cursor,
                    self.append == old(self).spec_append(),
                    self.cursor as int == old(self).write_pos(),
                    self.cursor < usize::MAX,
                    self.data@ =~= old(self)@ + Seq::new(
                        (self.data@.len() - old(self)@.len()) as nat,
                        |j: int| 0u8,
                    ),
                decreases self.cursor - self.data@.len(),
            {
                self.data.push(0);
                proof {
                    assert(self.data@ =~= old(self)@ + Seq::new(
                        (self.data@.len() - old(self)@.len()) as nat,
                        |j: int| 0u8,
                    ));
                }
            }
            self.data.push(ch);
            self.cursor = self.cursor + 1;
            proof {
                assert(self.data@ =~= old(self)@ + Seq::new(
                    (old(self).write_pos() - old(self)@.len()) as nat,
                    |j: int| 0u8,
                ) + seq![ch]);
            }
        }
        1
    }

    /// Write a run of bytes at the write position. Returns how many bytes
    /// were written.
    pub fn put_buffer(&mut self, bytes: &[u8]) -> (r: usize)
        ensures
            final(self)@ == file_write(old(self)@, old(self).write_pos(), bytes@).0,
            bytes@.len() > 0 ==> final(self).spec_cursor() == file_write(
                old(self)@,
                old(self).write_pos(),
                bytes@,
            ).1,
            bytes@.len() == 0 ==> *final(self) == *old(self),
            final(self).spec_append() == old(self).spec_append(),
            r == bytes@.len(),
    {
        let ghost goal = file_write(self@, self.write_pos(), bytes@);
        proof {
            assert(bytes@.subrange(0, bytes@.len() as int) =~= bytes@);
        }
        let mut i: usize = 0;
        while i < bytes.len()
            invariant
                i <= bytes@.len(),
                self.spec_append() == old(self).spec_append(),
                goal == file_write(old(self)@, old(self).write_pos(), bytes@),
                i == 0 ==> *self == *old(self),
                i > 0 ==> goal == file_write(
                    self@,
                    self.spec_cursor(),
                    bytes@.subrange(i as int, bytes@.len() as int),
                ),
                i > 0 ==> self.write_pos() == self.spec_cursor(),
            decreases bytes@.len() - i,
        {
            let ghost remaining = bytes@.subrange(i as int, bytes@.len() as int);
            let _ = self.put_char(bytes[i]);
            proof {
                assert(remaining[0] == bytes@[i as int]);
                assert(remaining.drop_first() =~= bytes@.subrange(
                    i + 1 as int,
                    bytes@.len() as int,
                ));
                if self.spec_append() {
                    assert(self.write_pos() == self.spec_cursor());
                }
            }
            i = i + 1;
        }
        proof {
            assert(bytes@.subrange(bytes@.len() as int, bytes@.len() as int)
                =~= Seq::<u8>::empty());
        }
        bytes.len()
    }

    /// Write one code point as UTF-8 at the write position. Counts as four
    /// logical units, the fixed charge for a code point.
    pub fn put_char_uni(&mut self, ch: char) -> (r: usize)
        ensures
            (final(self)@, final(self).spec_cursor()) == file_write(
                old(self)@,
                old(self).write_pos(),
                crate::codec::utf8_encode_char(ch),
            ),
            final(self).spec_append() == old(self).spec_append(),
            r == 4,
    {
        let bytes = crate::codec::encode_utf8_char(ch);
        let _ = self.put_buffer(bytes.as_slice());
        4
    }

    /// Read one byte at the cursor; at or past the end of the data there
    /// is nothing to read.
    pub fn get_char(&mut self) -> (r: Option<u8>)
        ensures
            final(self)@ == old(self)@,
            final(self).spec_append() == old(self).spec_append(),
            old(self).spec_cursor() < old(self)@.len() ==> {
                &&& r == Some(old(self)@[old(self).spec_cursor()])
                &&& final(self).spec_cursor() == old(self).spec_cursor() + 1
            },
            old(self).spec_cursor() >= old(self)@.len() ==> {
                &&& r is None
                &&& final(self).spec_cursor() == old(self).spec_cursor()
            },
    {
        if self.cursor < self.data.len() {
            self.cursor = self.cursor + 1;
            Some(self.data[self.cursor - 1])
        } else {
            None
        }
    }

    /// Read up to `maxlen` bytes, or everything from the cursor to the end.
    pub fn get_buffer(&mut self, maxlen: Option<usize>) -> (r: Vec<u8>)
        ensures
            final(self)@ == old(self)@,
            final(self).spec_append() == old(self).spec_append(),
            ({
                let avail = if old(self).spec_cursor() < old(self)@.len() {
                    old(self)@.len() - old(self).spec_cursor()
                } else {
                    0
                };
                let n = match maxlen {
                    Some(m) => if m < avail {
                        m as int
                    } else {
                        avail
                    },
                    None => avail,
                };
                &&& n > 0 ==> r@ == old(self)@.subrange(
                    old(self).spec_cursor(),
                    old(self).spec_cursor() + n,
                )
                &&& n == 0 ==> r@ == Seq::<u8>::empty()
                &&& final(self).spec_cursor() == old(self).spec_cursor() + n
            }),
    {
        let avail = if self.cursor < self.data.len() {
            self.data.len() - self.cursor
        } else {
            0
        };
        let n = match maxlen {
            Some(m) => if m < avail {
                m
            } else {
                avail
            },
            None => avail,
        };
        let mut result: Vec<u8> = Vec::new();
        let mut i: usize = 0;
        while i < n
            invariant
                i <= n,
                self@ == old(self)@,
                self.spec_append() == old(self).spec_append(),
                self.spec_cursor() == old(self).spec_cursor() + i,
                n > 0 ==> old(self).spec_cursor() + n <= self@.len(),
                n > 0 ==> result@ == old(self)@.subrange(
                    old(self).spec_cursor(),
                    old(self).spec_cursor() + i,
                ),
                n == 0 ==> result@ == Seq::<u8>::empty(),
            decreases n - i,
        {
            proof {
                vstd::std_specs::vec::axiom_spec_len(&self.data);
            }
            result.push(self.data[self.cursor]);
            self.cursor = self.cursor + 1;
            i = i + 1;
            proof {
                assert(result@ =~= old(self)@.subrange(
                    old(self).spec_cursor(),
                    old(self).spec_cursor() + i,
                ));
            }
        }
        result
    }

    /// Read a line of bytes: up to the limit (or to the end of the data),
    /// stopping at the newline, whichever comes first; the newline is
    /// included, and bytes a limit over-read stay unread.
    pub fn get_line(&mut self, maxlen: Option<usize>) -> (r: Vec<u8>)
        ensures
            final(self)@ == old(self)@,
            final(self).spec_append() == old(self).spec_append(),
            ({
                let c = old(self).spec_cursor();
                let e = line_end(old(self)@, c);
                if c >= old(self)@.len() {
                    r@ == Seq::<u8>::empty() && final(self).spec_cursor() == c
                } else {
                    let n = match maxlen {
                        Some(m) => if m < old(self)@.len() - c {
                            m as int
                        } else {
                            old(self)@.len() - c
                        },
                        None => old(self)@.len() - c,
                    };
                    if e - c <= n {
                        r@ == old(self)@.subrange(c, e) && final(self).spec_cursor() == e
                    } else {
                        r@ == old(self)@.subrange(c, c + n) && final(self).spec_cursor() == c
                            + n
                    }
                }
            }),
    {
        if self.cursor >= self.data.len() {
            return Vec::new();
        }
        let remaining = self.data.len() - self.cursor;
        let n = match maxlen {
            Some(m) => if m < remaining {
                m
            } else {
                remaining
            },
            None => remaining,
        };
        let e = self.find_line_end();
        if e - self.cursor <= n {
            let r = self.copy_range(self.cursor, e);
            self.cursor = e;
            r
        } else {
            let r = self.copy_range(self.cursor, self.cursor + n);
            self.cursor = self.cursor + n;
            r
        }
    }

    /// Where the line starting at the cursor ends: just after its newline,
    /// or at the end of the data.
    fn find_line_end(&self) -> (r: usize)
        ensures
            r as int == line_end(self@, self.spec_cursor()),
            self.spec_cursor() <= self@.len() ==> self.spec_cursor() <= r as int
                <= self@.len(),
    {
        let mut i: usize = self.cursor;
        if i >= self.data.len() {
            proof {
                if self.spec_cursor() >= self@.len() {
                    assert(line_end(self@, self.spec_cursor()) == self@.len() as int);
                }
            }
            return self.data.len();
        }
        while i < self.data.len()
            invariant
                self.spec_cursor() <= i as int <= self@.len(),
                line_end(self@, self.spec_cursor()) == line_end(self@, i as int),
            decreases self@.len() - i,
        {
            if self.data[i] == 10 {
                return i + 1;
            }
            i = i + 1;
        }
        self.data.len()
    }

    /// The bytes between `from` and `to`.
    fn copy_range(&self, from: usize, to: usize) -> (r: Vec<u8>)
        requires
            from <= to <= self@.len(),
        ensures
            r@ == self@.subrange(from as int, to as int),
    {
        let mut result: Vec<u8> = Vec::new();
        let mut i: usize = from;
        while i < to
            invariant
                from <= i <= to <= self@.len(),
                result@ == self@.subrange(from as int, i as int),
            decreases to - i,
        {
            result.push(self.data[i]);
            i = i + 1;
            proof {
                assert(result@ =~= self@.subrange(from as int, i as int));
            }
        }
        result
    }

    /// Read one UTF-8 code point at the cursor. The bytes the decoder
    /// looked at are consumed even when they decode to nothing.
    pub fn get_char_uni(&mut self) -> (r: Option<char>)
        ensures
            final(self)@ == old(self)@,
            final(self).spec_append() == old(self).spec_append(),
            old(self).spec_cursor() >= old(self)@.len() ==> (r is None
                && final(self).spec_cursor() == old(self).spec_cursor()),
            old(self).spec_cursor() < old(self)@.len() ==> {
                let step = utf8_step(old(self)@, old(self).spec_cursor());
                &&& final(self).spec_cursor() == step.1
                &&& match step.0 {
                    None => r is None,
                    Some(v) => if crate::mem_stream::is_scalar_value(v) {
                        r matches Some(c) && c as int == v as int
                    } else {
                        r is None
                    },
                }
            },
    {
        if self.cursor >= self.data.len() {
            return None;
        }
        let (v, next) = utf8_decode_step(&self.data, self.cursor);
        self.cursor = next;
        match v {
            None => None,
            Some(value) => char_from_u32(value),
        }
    }

    /// Read up to `maxlen` UTF-8 code points, stopping at the end of the
    /// data or at the first byte sequence that decodes to nothing.
    pub fn get_buffer_uni(&mut self, maxlen: Option<usize>) -> (r: Vec<char>)
        ensures
            final(self)@ == old(self)@,
            final(self).spec_append() == old(self).spec_append(),
            ({
                let count = match maxlen {
                    Some(m) => m as int,
                    None => old(self)@.len() as int,
                };
                (r@, final(self).spec_cursor()) == file_read_uni(
                    old(self)@,
                    old(self).spec_cursor(),
                    count,
                    false,
                )
            }),
    {
        self.read_uni(maxlen, false)
    }

    /// Read UTF-8 code points up to and including the next newline, the
    /// data's end, or the first byte sequence that decodes to nothing.
    pub fn get_line_uni(&mut self, maxlen: Option<usize>) -> (r: Vec<char>)
        ensures
            final(self)@ == old(self)@,
            final(self).spec_append() == old(self).spec_append(),
            ({
                let count = match maxlen {
                    Some(m) => m as int,
                    None => old(self)@.len() as int,
                };
                (r@, final(self).spec_cursor()) == file_read_uni(
                    old(self)@,
                    old(self).spec_cursor(),
                    count,
                    true,
                )
            }),
    {
        self.read_uni(maxlen, true)
    }

    /// Read up to `maxlen` UTF-8 code points, optionally stopping after a
    /// newline.
    fn read_uni(&mut self, maxlen: Option<usize>, stop_nl: bool) -> (r: Vec<char>)
        ensures
            final(self)@ == old(self)@,
            final(self).spec_append() == old(self).spec_append(),
            ({
                let count = match maxlen {
                    Some(m) => m as int,
                    None => old(self)@.len() as int,
                };
                (r@, final(self).spec_cursor()) == file_read_uni(
                    old(self)@,
                    old(self).spec_cursor(),
                    count,
                    stop_nl,
                )
            }),
    {
        let count = match maxlen {
            Some(m) => m,
            None => self.data.len(),
        };
        let ghost count0 = count as int;
        let ghost goal = file_read_uni(self@, self.spec_cursor(), count as int, stop_nl);
        let mut result: Vec<char> = Vec::new();
        let mut i: usize = 0;
        while i < count
            invariant
                i <= count,
                self@ == old(self)@,
                self.spec_append() == old(self).spec_append(),
                goal == {
                    let rest = file_read_uni(
                        self@,
                        self.spec_cursor(),
                        count - i,
                        stop_nl,
                    );
                    (result@ + rest.0, rest.1)
                },
                goal == file_read_uni(old(self)@, old(self).spec_cursor(), count0, stop_nl),
                count0 == count as int,
                count0 == match maxlen {
                    Some(m) => m as int,
                    None => old(self)@.len() as int,
                },
            decreases count - i,
        {
            let ghost pre_cursor = self.spec_cursor();
            let ghost pre_result = result@;
            let ghost rest_pre = file_read_uni(self@, pre_cursor, count - i, stop_nl);
            if self.cursor >= self.data.len() {
                proof {
                    assert(rest_pre == (Seq::<char>::empty(), pre_cursor));
                    assert(pre_result + Seq::<char>::empty() =~= pre_result);
                }
                return result;
            }
            match self.get_char_uni() {
                None => {
                    proof {
                        assert(rest_pre == (Seq::<char>::empty(), self.spec_cursor()));
                        assert(pre_result + Seq::<char>::empty() =~= pre_result);
                    }
                    return result;
                },
                Some(ch) => {
                    proof {
                        let step = utf8_step(old(self)@, pre_cursor);
                        assert(step.0 is Some);
                        let v = step.0->0;
                        assert(ch as int == v as int);
                        assert((v as char) as int == v as int);
                        assert(ch == v as char);
                    }
                    result.push(ch);
                    if stop_nl && ch == '\n' {
                        proof {
                            assert(pre_result + seq![ch] =~= result@);
                        }
                        return result;
                    }
                },
            }
            i = i + 1;
            proof {
                let rest_post = file_read_uni(self@, self.spec_cursor(), count - i, stop_nl);
                assert(pre_result + rest_pre.0 =~= result@ + rest_post.0);
            }
        }
        proof {
            assert(result@ + Seq::<char>::empty() =~= result@);
        }
        result
    }

    /// The cursor's offset from the start of the file.
    pub fn get_position(&self) -> (r: u32)
        ensures
            r == self.spec_cursor() as u32,
    {
        self.cursor as u32
    }

    /// Move the cursor to an offset from the start, the current position
    /// or the end. Seeking before the start is refused; seeking past the
    /// end is allowed and reads there find nothing.
    pub fn set_position(&mut self, pos: i32, seekmode: GlkSeekMode) -> (r: Option<()>)
        ensures
            final(self)@ == old(self)@,
            final(self).spec_append() == old(self).spec_append(),
            ({
                let target: int = match seekmode {
                    GlkSeekMode::Start => pos as int,
                    GlkSeekMode::Current => old(self).spec_cursor() + pos as int,
                    GlkSeekMode::End => old(self)@.len() + pos as int,
                };
                let refused = (seekmode is Start && pos < 0) || (seekmode is End && pos > 0)
                    || target < 0 || target > usize::MAX;
                if refused {
                    r is None && final(self).spec_cursor() == old(self).spec_cursor()
                } else {
                    r is Some && final(self).spec_cursor() == target
                }
            }),
    {
        match seekmode {
            GlkSeekMode::Start => if pos < 0 {
                return None;
            },
            GlkSeekMode::End => if pos > 0 {
                return None;
            },
            GlkSeekMode::Current => {},
        }
        let target: i128 = match seekmode {
            GlkSeekMode::Start => pos as i128,
            GlkSeekMode::Current => self.cursor as i128 + pos as i128,
            GlkSeekMode::End => self.data.len() as i128 + pos as i128,
        };
        if target < 0 || target > usize::MAX as i128 {
            None
        } else {
            self.cursor = target as usize;
            Some(())
        }
    }

    /// The file's bytes, handed back so they can be stored under the
    /// file's name when the stream closes.
    pub fn get_data(&self) -> (r: Vec<u8>)
        ensures
            r@ == self@,
    {
        self.data.clone()
    }
}

} // verus!

verus! {

impl FileStream {
    /// The cursor never sits before the file's start.
    pub proof fn lemma_cursor_nonneg(&self)
        ensures
            0 <= self.spec_cursor(),
    {
    }
}

} // verus!
