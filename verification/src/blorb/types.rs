use vstd::prelude::*;
use crate::blorb::error::BlorbError;

verus! {

/// The IFF types that exist for blorb files
#[derive(PartialEq, Eq, Structural, Debug, Copy, Clone)]
pub enum BlorbType {
    /// "FORM" - specifies that the file is an IFF type file
    Form,
    /// "IFRS" - the FORM type for blorb files
    Ifrs,
    /// "RIdx" - a Resource Index chunk
    Ridx,
    /// A Z-Code executable chunk
    Zcod,
    /// A Glulx executable chunk
    Glul,
    /// Blorb file metadata
    Ifmd,
    /// A Fronispiece chunk
    Fspc,
    /// A resource description chunk
    Rdes,
    /// An AUTH chunk containing the name of the author or creator of the file
    Auth,
    /// A copyright chunk containing the copyright message (date and holder)
    Copr,
    /// An annotation chunk containing any textual annotation that the user or writing program sees fit to include
    Anno,
    /// A text (utf-8 *or* latin-1) chunk
    Text,
    /// A binary chunk of data
    Bina,
    /// A PNG image chunk
    Png,
    /// A JPeg image chunk
    Jpeg,
    /// A Rect placeholder picture chunk
    Rect,
    /// A game identifier chunk for Z-Code games
    Ifhd,
    /// The release number of the resource file
    Reln,
    /// A list of picture resources with adaptive palette colors
    Apal,
    /// A resolution chunk for scaling images
    Reso,
    /// An MOD sound format chunk
    Mod,
    /// An Ogg Vorbis sound chunk
    Oggv,
    /// A Song file format chunk
    Song,
}

/// In the RIdx chunk, the file defines four different types of resources
#[derive(PartialEq, Eq, Structural, Debug, Copy, Clone)]
pub enum ResourceType {
    /// "Pict" - an image resource
    Pict,
    /// "Snd " - a sound resource
    Sound,
    /// "Data" - a chunk of data
    Data,
    /// "Exec" - the executable game to play
    Executable,
}

/// The chunk type a four-byte tag names, if it names one.
pub open spec fn blorb_type_of(tag: Seq<u8>) -> Option<BlorbType> {
    if tag == "FORM"@.map_values(|c: char| c as u8) {
        Some(BlorbType::Form)
    } else if tag == "IFRS"@.map_values(|c: char| c as u8) {
        Some(BlorbType::Ifrs)
    } else if tag == "RIdx"@.map_values(|c: char| c as u8) {
        Some(BlorbType::Ridx)
    } else if tag == "IFmd"@.map_values(|c: char| c as u8) {
        Some(BlorbType::Ifmd)
    } else if tag == "Fspc"@.map_values(|c: char| c as u8) {
        Some(BlorbType::Fspc)
    } else if tag == "RDes"@.map_values(|c: char| c as u8) {
        Some(BlorbType::Rdes)
    } else if tag == "AUTH"@.map_values(|c: char| c as u8) {
        Some(BlorbType::Auth)
    } else if tag == "(c) "@.map_values(|c: char| c as u8) {
        Some(BlorbType::Copr)
    } else if tag == "ANNO"@.map_values(|c: char| c as u8) {
        Some(BlorbType::Anno)
    } else if tag == "TEXT"@.map_values(|c: char| c as u8) {
        Some(BlorbType::Text)
    } else if tag == "BINA"@.map_values(|c: char| c as u8) {
        Some(BlorbType::Bina)
    } else if tag == "PNG "@.map_values(|c: char| c as u8) {
        Some(BlorbType::Png)
    } else if tag == "JPEG"@.map_values(|c: char| c as u8) {
        Some(BlorbType::Jpeg)
    } else if tag == "Rect"@.map_values(|c: char| c as u8) {
        Some(BlorbType::Rect)
    } else if tag == "GLUL"@.map_values(|c: char| c as u8) {
        Some(BlorbType::Glul)
    } else if tag == "ZCOD"@.map_values(|c: char| c as u8) {
        Some(BlorbType::Zcod)
    } else if tag == "MOD "@.map_values(|c: char| c as u8) {
        Some(BlorbType::Mod)
    } else if tag == "OGGV"@.map_values(|c: char| c as u8) {
        Some(BlorbType::Oggv)
    } else if tag == "Song"@.map_values(|c: char| c as u8) {
        Some(BlorbType::Song)
    } else if tag == "IFhd"@.map_values(|c: char| c as u8) {
        Some(BlorbType::Ifhd)
    } else if tag == "RelN"@.map_values(|c: char| c as u8) {
        Some(BlorbType::Reln)
    } else if tag == "APal"@.map_values(|c: char| c as u8) {
        Some(BlorbType::Apal)
    } else if tag == "Reso"@.map_values(|c: char| c as u8) {
        Some(BlorbType::Reso)
    } else {
        None
    }
}

/// The resource usage a four-byte tag names, if it names one.
pub open spec fn resource_type_of(tag: Seq<u8>) -> Option<ResourceType> {
    if tag == "Pict"@.map_values(|c: char| c as u8) {
        Some(ResourceType::Pict)
    } else if tag == "Snd "@.map_values(|c: char| c as u8) {
        Some(ResourceType::Sound)
    } else if tag == "Data"@.map_values(|c: char| c as u8) {
        Some(ResourceType::Data)
    } else if tag == "Exec"@.map_values(|c: char| c as u8) {
        Some(ResourceType::Executable)
    } else {
        None
    }
}

/// The chunk type a four-character name names, if it names one.
pub open spec fn blorb_type_of_name(s: Seq<char>) -> Option<BlorbType> {
    if s == "FORM"@ {
        Some(BlorbType::Form)
    } else if s == "IFRS"@ {
        Some(BlorbType::Ifrs)
    } else if s == "RIdx"@ {
        Some(BlorbType::Ridx)
    } else if s == "IFmd"@ {
        Some(BlorbType::Ifmd)
    } else if s == "Fspc"@ {
        Some(BlorbType::Fspc)
    } else if s == "RDes"@ {
        Some(BlorbType::Rdes)
    } else if s == "AUTH"@ {
        Some(BlorbType::Auth)
    } else if s == "(c) "@ {
        Some(BlorbType::Copr)
    } else if s == "ANNO"@ {
        Some(BlorbType::Anno)
    } else if s == "TEXT"@ {
        Some(BlorbType::Text)
    } else if s == "BINA"@ {
        Some(BlorbType::Bina)
    } else if s == "PNG "@ {
        Some(BlorbType::Png)
    } else if s == "JPEG"@ {
        Some(BlorbType::Jpeg)
    } else if s == "Rect"@ {
        Some(BlorbType::Rect)
    } else if s == "GLUL"@ {
        Some(BlorbType::Glul)
    } else if s == "ZCOD"@ {
        Some(BlorbType::Zcod)
    } else if s == "MOD "@ {
        Some(BlorbType::Mod)
    } else if s == "OGGV"@ {
        Some(BlorbType::Oggv)
    } else if s == "Song"@ {
        Some(BlorbType::Song)
    } else if s == "IFhd"@ {
        Some(BlorbType::Ifhd)
    } else if s == "RelN"@ {
        Some(BlorbType::Reln)
    } else if s == "APal"@ {
        Some(BlorbType::Apal)
    } else if s == "Reso"@ {
        Some(BlorbType::Reso)
    } else {
        None
    }
}

/// The resource usage a four-character name names, if it names one.
pub open spec fn resource_type_of_name(s: Seq<char>) -> Option<ResourceType> {
    if s == "Pict"@ {
        Some(ResourceType::Pict)
    } else if s == "Snd "@ {
        Some(ResourceType::Sound)
    } else if s == "Data"@ {
        Some(ResourceType::Data)
    } else if s == "Exec"@ {
        Some(ResourceType::Executable)
    } else {
        None
    }
}

/// Whether a four-byte tag equals a four-character name.
fn tag_is(t: &[u8], a: u8, b: u8, c: u8, d: u8) -> (r: bool)
    ensures
        r <==> t@ == seq![a, b, c, d],
{
    let r = t.len() == 4 && t[0] == a && t[1] == b && t[2] == c && t[3] == d;
    proof {
        if r {
            assert(t@ =~= seq![a, b, c, d]);
        }
    }
    r
}

impl BlorbType {
    /// The chunk type a four-byte tag names; any other tag is refused
    /// with the printable text of the bytes it held.
    pub fn from_tag(t: &[u8]) -> (r: Result<BlorbType, BlorbError>)
        ensures
            match blorb_type_of(t@) {
                Some(ty) => r == Ok::<BlorbType, BlorbError>(ty),
                None => r matches Err(BlorbError::InvalidResourceType(_)),
            },
    {
        proof {
            reveal_strlit("FORM");
            reveal_strlit("IFRS");
            reveal_strlit("RIdx");
            reveal_strlit("IFmd");
            reveal_strlit("Fspc");
            reveal_strlit("RDes");
            reveal_strlit("AUTH");
            reveal_strlit("(c) ");
            reveal_strlit("ANNO");
            reveal_strlit("TEXT");
            reveal_strlit("BINA");
            reveal_strlit("PNG ");
            reveal_strlit("JPEG");
            reveal_strlit("Rect");
            reveal_strlit("GLUL");
            reveal_strlit("ZCOD");
            reveal_strlit("MOD ");
            reveal_strlit("OGGV");
            reveal_strlit("Song");
            reveal_strlit("IFhd");
            reveal_strlit("RelN");
            reveal_strlit("APal");
            reveal_strlit("Reso");
            assert("FORM"@.map_values(|c: char| c as u8) =~= seq![70u8, 79u8, 82u8, 77u8]);
            assert("IFRS"@.map_values(|c: char| c as u8) =~= seq![73u8, 70u8, 82u8, 83u8]);
            assert("RIdx"@.map_values(|c: char| c as u8) =~= seq![82u8, 73u8, 100u8, 120u8]);
            assert("IFmd"@.map_values(|c: char| c as u8) =~= seq![73u8, 70u8, 109u8, 100u8]);
            assert("Fspc"@.map_values(|c: char| c as u8) =~= seq![70u8, 115u8, 112u8, 99u8]);
            assert("RDes"@.map_values(|c: char| c as u8) =~= seq![82u8, 68u8, 101u8, 115u8]);
            assert("AUTH"@.map_values(|c: char| c as u8) =~= seq![65u8, 85u8, 84u8, 72u8]);
            assert("(c) "@.map_values(|c: char| c as u8) =~= seq![40u8, 99u8, 41u8, 32u8]);
            assert("ANNO"@.map_values(|c: char| c as u8) =~= seq![65u8, 78u8, 78u8, 79u8]);
            assert("TEXT"@.map_values(|c: char| c as u8) =~= seq![84u8, 69u8, 88u8, 84u8]);
            assert("BINA"@.map_values(|c: char| c as u8) =~= seq![66u8, 73u8, 78u8, 65u8]);
            assert("PNG "@.map_values(|c: char| c as u8) =~= seq![80u8, 78u8, 71u8, 32u8]);
            assert("JPEG"@.map_values(|c: char| c as u8) =~= seq![74u8, 80u8, 69u8, 71u8]);
            assert("Rect"@.map_values(|c: char| c as u8) =~= seq![82u8, 101u8, 99u8, 116u8]);
            assert("GLUL"@.map_values(|c: char| c as u8) =~= seq![71u8, 76u8, 85u8, 76u8]);
            assert("ZCOD"@.map_values(|c: char| c as u8) =~= seq![90u8, 67u8, 79u8, 68u8]);
            assert("MOD "@.map_values(|c: char| c as u8) =~= seq![77u8, 79u8, 68u8, 32u8]);
            assert("OGGV"@.map_values(|c: char| c as u8) =~= seq![79u8, 71u8, 71u8, 86u8]);
            assert("Song"@.map_values(|c: char| c as u8) =~= seq![83u8, 111u8, 110u8, 103u8]);
            assert("IFhd"@.map_values(|c: char| c as u8) =~= seq![73u8, 70u8, 104u8, 100u8]);
            assert("RelN"@.map_values(|c: char| c as u8) =~= seq![82u8, 101u8, 108u8, 78u8]);
            assert("APal"@.map_values(|c: char| c as u8) =~= seq![65u8, 80u8, 97u8, 108u8]);
            assert("Reso"@.map_values(|c: char| c as u8) =~= seq![82u8, 101u8, 115u8, 111u8]);
        }
        if tag_is(t, 70, 79, 82, 77) {
            return Ok(BlorbType::Form);
        }
        if tag_is(t, 73, 70, 82, 83) {
            return Ok(BlorbType::Ifrs);
        }
        if tag_is(t, 82, 73, 100, 120) {
            return Ok(BlorbType::Ridx);
        }
        if tag_is(t, 73, 70, 109, 100) {
            return Ok(BlorbType::Ifmd);
        }
        if tag_is(t, 70, 115, 112, 99) {
            return Ok(BlorbType::Fspc);
        }
        if tag_is(t, 82, 68, 101, 115) {
            return Ok(BlorbType::Rdes);
        }
        if tag_is(t, 65, 85, 84, 72) {
            return Ok(BlorbType::Auth);
        }
        if tag_is(t, 40, 99, 41, 32) {
            return Ok(BlorbType::Copr);
        }
        if tag_is(t, 65, 78, 78, 79) {
            return Ok(BlorbType::Anno);
        }
        if tag_is(t, 84, 69, 88, 84) {
            return Ok(BlorbType::Text);
        }
        if tag_is(t, 66, 73, 78, 65) {
            return Ok(BlorbType::Bina);
        }
        if tag_is(t, 80, 78, 71, 32) {
            return Ok(BlorbType::Png);
        }
        if tag_is(t, 74, 80, 69, 71) {
            return Ok(BlorbType::Jpeg);
        }
        if tag_is(t, 82, 101, 99, 116) {
            return Ok(BlorbType::Rect);
        }
        if tag_is(t, 71, 76, 85, 76) {
            return Ok(BlorbType::Glul);
        }
        if tag_is(t, 90, 67, 79, 68) {
            return Ok(BlorbType::Zcod);
        }
        if tag_is(t, 77, 79, 68, 32) {
            return Ok(BlorbType::Mod);
        }
        if tag_is(t, 79, 71, 71, 86) {
            return Ok(BlorbType::Oggv);
        }
        if tag_is(t, 83, 111, 110, 103) {
            return Ok(BlorbType::Song);
        }
        if tag_is(t, 73, 70, 104, 100) {
            return Ok(BlorbType::Ifhd);
        }
        if tag_is(t, 82, 101, 108, 78) {
            return Ok(BlorbType::Reln);
        }
        if tag_is(t, 65, 80, 97, 108) {
            return Ok(BlorbType::Apal);
        }
        if tag_is(t, 82, 101, 115, 111) {
            return Ok(BlorbType::Reso);
        }
        Err(BlorbError::InvalidResourceType(tag_text(t)))
    }

    /// The chunk type a four-character name names; any other name is
    /// refused and carried back in the error.
    pub fn from_name(s: &str) -> (r: Result<BlorbType, BlorbError>)
        ensures
            match blorb_type_of_name(s@) {
                Some(ty) => r == Ok::<BlorbType, BlorbError>(ty),
                None => r matches Err(BlorbError::InvalidResourceType(name)) && name@ == s@,
            },
    {
        if crate::codec::str_eq(s, "FORM") {
            return Ok(BlorbType::Form);
        }
        if crate::codec::str_eq(s, "IFRS") {
            return Ok(BlorbType::Ifrs);
        }
        if crate::codec::str_eq(s, "RIdx") {
            return Ok(BlorbType::Ridx);
        }
        if crate::codec::str_eq(s, "IFmd") {
            return Ok(BlorbType::Ifmd);
        }
        if crate::codec::str_eq(s, "Fspc") {
            return Ok(BlorbType::Fspc);
        }
        if crate::codec::str_eq(s, "RDes") {
            return Ok(BlorbType::Rdes);
        }
        if crate::codec::str_eq(s, "AUTH") {
            return Ok(BlorbType::Auth);
        }
        if crate::codec::str_eq(s, "(c) ") {
            return Ok(BlorbType::Copr);
        }
        if crate::codec::str_eq(s, "ANNO") {
            return Ok(BlorbType::Anno);
        }
        if crate::codec::str_eq(s, "TEXT") {
            return Ok(BlorbType::Text);
        }
        if crate::codec::str_eq(s, "BINA") {
            return Ok(BlorbType::Bina);
        }
        if crate::codec::str_eq(s, "PNG ") {
            return Ok(BlorbType::Png);
        }
        if crate::codec::str_eq(s, "JPEG") {
            return Ok(BlorbType::Jpeg);
        }
        if crate::codec::str_eq(s, "Rect") {
            return Ok(BlorbType::Rect);
        }
        if crate::codec::str_eq(s, "GLUL") {
            return Ok(BlorbType::Glul);
        }
        if crate::codec::str_eq(s, "ZCOD") {
            return Ok(BlorbType::Zcod);
        }
        if crate::codec::str_eq(s, "MOD ") {
            return Ok(BlorbType::Mod);
        }
        if crate::codec::str_eq(s, "OGGV") {
            return Ok(BlorbType::Oggv);
        }
        if crate::codec::str_eq(s, "Song") {
            return Ok(BlorbType::Song);
        }
        if crate::codec::str_eq(s, "IFhd") {
            return Ok(BlorbType::Ifhd);
        }
        if crate::codec::str_eq(s, "RelN") {
            return Ok(BlorbType::Reln);
        }
        if crate::codec::str_eq(s, "APal") {
            return Ok(BlorbType::Apal);
        }
        if crate::codec::str_eq(s, "Reso") {
            return Ok(BlorbType::Reso);
        }
        Err(BlorbError::InvalidResourceType(s.to_owned()))
    }
}

impl ResourceType {
    /// The resource usage a four-byte tag names; any other tag is refused
    /// with the printable text of the bytes it held.
    pub fn from_tag(t: &[u8]) -> (r: Result<ResourceType, BlorbError>)
        ensures
            match resource_type_of(t@) {
                Some(ty) => r == Ok::<ResourceType, BlorbError>(ty),
                None => r matches Err(BlorbError::InvalidResourceType(_)),
            },
    {
        proof {
            reveal_strlit("Pict");
            reveal_strlit("Snd ");
            reveal_strlit("Data");
            reveal_strlit("Exec");
            assert("Pict"@.map_values(|c: char| c as u8) =~= seq![80u8, 105u8, 99u8, 116u8]);
            assert("Snd "@.map_values(|c: char| c as u8) =~= seq![83u8, 110u8, 100u8, 32u8]);
            assert("Data"@.map_values(|c: char| c as u8) =~= seq![68u8, 97u8, 116u8, 97u8]);
            assert("Exec"@.map_values(|c: char| c as u8) =~= seq![69u8, 120u8, 101u8, 99u8]);
        }
        if tag_is(t, 80, 105, 99, 116) {
            return Ok(ResourceType::Pict);
        }
        if tag_is(t, 83, 110, 100, 32) {
            return Ok(ResourceType::Sound);
        }
        if tag_is(t, 68, 97, 116, 97) {
            return Ok(ResourceType::Data);
        }
        if tag_is(t, 69, 120, 101, 99) {
            return Ok(ResourceType::Executable);
        }
        Err(BlorbError::InvalidResourceType(tag_text(t)))
    }

    /// The resource usage a four-character name names; any other name is
    /// refused and carried back in the error.
    pub fn from_name(s: &str) -> (r: Result<ResourceType, BlorbError>)
        ensures
            match resource_type_of_name(s@) {
                Some(ty) => r == Ok::<ResourceType, BlorbError>(ty),
                None => r matches Err(BlorbError::InvalidResourceType(name)) && name@ == s@,
            },
    {
        if crate::codec::str_eq(s, "Pict") {
            return Ok(ResourceType::Pict);
        }
        if crate::codec::str_eq(s, "Snd ") {
            return Ok(ResourceType::Sound);
        }
        if crate::codec::str_eq(s, "Data") {
            return Ok(ResourceType::Data);
        }
        if crate::codec::str_eq(s, "Exec") {
            return Ok(ResourceType::Executable);
        }
        Err(BlorbError::InvalidResourceType(s.to_owned()))
    }
}

/// The printable text of a tag's bytes: printable bytes read as their
/// characters, anything else as a question mark.
fn tag_text(t: &[u8]) -> (r: String)
    ensures
        r@.len() == t@.len(),
{
    let mut out: Vec<char> = Vec::new();
    let mut i: usize = 0;
    while i < t.len()
        invariant
            i <= t@.len(),
            out@.len() == i,
        decreases t@.len() - i,
    {
        let b = t[i];
        if 32 <= b && b <= 126 {
            out.push(b as char);
        } else {
            out.push('?');
        }
        i = i + 1;
    }
    crate::codec::chars_to_string(&out)
}

} // verus!
