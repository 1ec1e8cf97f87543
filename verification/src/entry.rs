use vstd::prelude::*;
use crate::{GlkFileMode, GlkFileUsage, GlkRock, GlkSeekMode};
use crate::events::{EventManager, GlkEvent, LineInput, LineRequest};
use crate::file_stream::{FileRefManager, FileStream, GlkFileRef};
use crate::gestalt::{Gestalt, GestaltResult, gestalt_answer};
use crate::stream::{GlkError, GlkStream, GlkStreamID, GlkStreamResult, StreamBackend, StreamManager};
use crate::windows::{GlkWindowID, GlkWindowSize, GlkWindowType, WindowManager, WindowSplitMethod, WindowType};

verus! {

/// The first character of a code point's lowercase mapping; it depends on
/// the character alone.
pub uninterp spec fn lower_char_of(c: char) -> char;

/// The first character of a code point's uppercase mapping; it depends on
/// the character alone.
pub uninterp spec fn upper_char_of(c: char) -> char;

/// A string's full lowercase mapping; it depends on the characters alone.
pub uninterp spec fn lower_of(s: Seq<char>) -> Seq<char>;

/// A string's full uppercase mapping; it depends on the characters alone.
pub uninterp spec fn upper_of(s: Seq<char>) -> Seq<char>;

/// A string's canonical decomposition, Normalization Form D; it depends on
/// the characters alone.
pub uninterp spec fn nfd_of(s: Seq<char>) -> Seq<char>;

/// A string's canonical composition, Normalization Form C; it depends on
/// the characters alone.
pub uninterp spec fn nfc_of(s: Seq<char>) -> Seq<char>;

/// Relies on char::to_lowercase: the mapping is never empty, so its first
/// character exists, and it depends on the character alone.
#[verifier::external_body]
fn char_lower(ch: char) -> (r: char)
    ensures
        r == lower_char_of(ch),
{
    ch.to_lowercase().next().unwrap()
}

/// Relies on char::to_uppercase: the mapping is never empty, so its first
/// character exists, and it depends on the character alone.
#[verifier::external_body]
fn char_upper(ch: char) -> (r: char)
    ensures
        r == upper_char_of(ch),
{
    ch.to_uppercase().next().unwrap()
}

/// Relies on str::to_lowercase: the result depends on the characters
/// alone.
#[verifier::external_body]
fn str_lower(s: &str) -> (r: String)
    ensures
        r@ == lower_of(s@),
{
    s.to_lowercase()
}

/// Relies on str::to_uppercase: the result depends on the characters
/// alone.
#[verifier::external_body]
fn str_upper(s: &str) -> (r: String)
    ensures
        r@ == upper_of(s@),
{
    s.to_uppercase()
}

/// Relies on unicode_normalization's nfd iterator: canonical decomposition
/// depends on the characters alone.
#[verifier::external_body]
fn str_nfd(s: &str) -> (r: String)
    ensures
        r@ == nfd_of(s@),
{
    unicode_normalization::UnicodeNormalization::nfd(s).collect::<String>()
}

/// Relies on unicode_normalization's nfc iterator: canonical composition
/// depends on the characters alone.
#[verifier::external_body]
fn str_nfc(s: &str) -> (r: String)
    ensures
        r@ == nfc_of(s@),
{
    unicode_normalization::UnicodeNormalization::nfc(s).collect::<String>()
}

/// Relies on std::time::SystemTime: the seconds and microseconds since
/// 1970; the clock decides, so nothing is promised of the value. Before
/// the epoch both read as zero.
#[verifier::external_body]
fn system_clock_now() -> (r: (i64, u32)) {
    match std::time::SystemTime::now().duration_since(std::time::UNIX_EPOCH) {
        Ok(d) => (d.as_secs() as i64, d.subsec_micros()),
        Err(_) => (0, 0),
    }
}

/// The calendar parts of a Unix timestamp read in UTC: year, month, day,
/// weekday (days from Sunday), hour, minute, second. A pure function of
/// the timestamp.
pub uninterp spec fn utc_parts_of(sec: i64) -> (i32, i32, i32, i32, i32, i32, i32);

/// Relies on chrono's timestamp conversion and Datelike/Timelike
/// accessors: months run 1 to 12, days 1 to 31, weekdays 0 to 6, hours 0
/// to 23, minutes and seconds 0 to 59, and the whole answer depends on the
/// timestamp alone. Only a timestamp chrono cannot represent answers
/// `None`; its calendar spans hundreds of millennia around the epoch, so
/// any timestamp within three trillion seconds of it is answered.
#[verifier::external_body]
fn utc_calendar(sec: i64) -> (r: Option<(i32, i32, i32, i32, i32, i32, i32)>)
    ensures
        -3_000_000_000_000 <= sec <= 3_000_000_000_000 ==> r is Some,
        r matches Some(p) ==> {
            &&& p == utc_parts_of(sec)
            &&& 1 <= p.1 <= 12
            &&& 1 <= p.2 <= 31
            &&& 0 <= p.3 <= 6
            &&& 0 <= p.4 <= 23
            &&& 0 <= p.5 <= 59
            &&& 0 <= p.6 <= 59
        },
{
    let dt: chrono::DateTime<chrono::Utc> = chrono::DateTime::from_timestamp(sec, 0)?;
    Some(
        (
            chrono::Datelike::year(&dt),
            chrono::Datelike::month(&dt) as i32,
            chrono::Datelike::day(&dt) as i32,
            chrono::Datelike::weekday(&dt).num_days_from_sunday() as i32,
            chrono::Timelike::hour(&dt) as i32,
            chrono::Timelike::minute(&dt) as i32,
            chrono::Timelike::second(&dt) as i32,
        ),
    )
}

/// Relies on chrono's timestamp conversion with the machine's local
/// offset: the answer also depends on the time zone, so only the calendar
/// ranges are promised.
#[verifier::external_body]
fn local_calendar(sec: i64) -> (r: Option<(i32, i32, i32, i32, i32, i32, i32)>)
    ensures
        r matches Some(p) ==> {
            &&& 1 <= p.1 <= 12
            &&& 1 <= p.2 <= 31
            &&& 0 <= p.3 <= 6
            &&& 0 <= p.4 <= 23
            &&& 0 <= p.5 <= 59
            &&& 0 <= p.6 <= 59
        },
{
    let utc: chrono::DateTime<chrono::Utc> = chrono::DateTime::from_timestamp(sec, 0)?;
    let dt = utc.with_timezone(&chrono::Local);
    Some(
        (
            chrono::Datelike::year(&dt),
            chrono::Datelike::month(&dt) as i32,
            chrono::Datelike::day(&dt) as i32,
            chrono::Datelike::weekday(&dt).num_days_from_sunday() as i32,
            chrono::Timelike::hour(&dt) as i32,
            chrono::Timelike::minute(&dt) as i32,
            chrono::Timelike::second(&dt) as i32,
        ),
    )
}

/// A timestamp in seconds and microseconds since 1970.
#[derive(Debug, Default, PartialEq, Eq, Structural, Clone, Copy)]
pub struct GlkTimeval {
    /// whole seconds since 1970
    pub sec: i64,
    /// microseconds within the second
    pub microsec: u32,
}

/// A timestamp broken out into calendar parts.
#[derive(Debug, Default, PartialEq, Eq, Structural, Clone, Copy)]
pub struct GlkDate {
    /// the year
    pub year: i32,
    /// the month, 1 to 12
    pub month: i32,
    /// the day of the month, 1 to 31
    pub day: i32,
    /// the day of the week, 0 (Sunday) to 6
    pub weekday: i32,
    /// the hour, 0 to 23
    pub hour: i32,
    /// the minute, 0 to 59
    pub minute: i32,
    /// the second, 0 to 59
    pub second: i32,
    /// microseconds within the second
    pub microsec: u32,
}

/// determines the style of title case conversions
#[derive(Debug, PartialEq, Eq, Structural, Clone, Copy)]
pub enum TitleCaseStyle {
    /// Convert the first character to uppercase, and leave the remaining characters alone
    UppercaseFirst,
    /// Convert the first character to uppercase, and convert the remaining to lowercase
    LowercaseRest,
}

/// Provide a conversion function for u8 (Latin-1) values, and char (unicode) values
pub trait ToChar {
    /// The character this value stands for.
    spec fn spec_to_char(&self) -> char;

    /// convert value to char
    fn to_char(&self) -> (r: char)
        ensures
            r == self.spec_to_char(),
    ;
}

impl ToChar for u8 {
    open spec fn spec_to_char(&self) -> char {
        *self as char
    }

    fn to_char(&self) -> (r: char)
        ensures
            r == self.spec_to_char(),
    {
        *self as char
    }
}

impl ToChar for char {
    open spec fn spec_to_char(&self) -> char {
        *self
    }

    fn to_char(&self) -> (r: char)
        ensures
            r == self.spec_to_char(),
    {
        *self
    }
}

/// The GLK object: one window tree, one stream table, one event queue and
/// one file-reference table, behind the numbered Glk call surface.
pub struct Glk {
    /// the tree of windows
    pub win_mgr: WindowManager,
    /// the event queue and timer
    pub event_mgr: EventManager,
    /// the table of live streams
    pub stream_mgr: StreamManager,
    /// the table of file references and file contents
    pub fileref_mgr: FileRefManager,
    /// where the convenience put and get calls go
    pub default_stream: Option<GlkStreamID>,
}

impl Glk {
    /// The facade is well formed when its managers are.
    pub open spec fn wf(self) -> bool {
        &&& self.win_mgr.wf()
        &&& self.stream_mgr.wf()
        &&& self.event_mgr.wf()
    }

    /// Create a new glk interface
    pub fn new() -> (r: Glk)
        ensures
            r.wf(),
            r.win_mgr.root is None,
            r.win_mgr.next_id == 0,
            r.stream_mgr.streams@.len() == 0,
            r.fileref_mgr.refs@.len() == 0,
            r.fileref_mgr.files@.len() == 0,
            r.event_mgr.pending@.len() == 0,
            r.event_mgr.timer_interval == 0,
            r.event_mgr.last_timer_ms == 0,
            r.event_mgr.line_requests@.len() == 0,
            r.default_stream is None,
    {
        Glk {
            win_mgr: WindowManager::new(),
            event_mgr: EventManager::new(),
            stream_mgr: StreamManager::new(),
            fileref_mgr: FileRefManager::new(),
            default_stream: None,
        }
    }

    /// Retrieve capability from the gestalt system
    pub fn gestalt(&self, gestalt: Gestalt) -> (r: GestaltResult)
        ensures
            r == gestalt_answer(gestalt),
    {
        match gestalt {
            Gestalt::Version => GestaltResult::Version(0x00000705),
            Gestalt::LineInput(ch) => GestaltResult::CanAccept(
                32 <= ch as u32 && (ch as u32) <= 126,
            ),
            Gestalt::CharInput(crate::keycode::Keycode::Basic(ch)) => GestaltResult::CanAccept(
                32 <= ch as u32 && (ch as u32) <= 126,
            ),
            Gestalt::CharInput(ch) => GestaltResult::CanAccept(
                crate::keycode::Keycode::Return == ch,
            ),
            Gestalt::CharOutput(crate::keycode::Keycode::Basic(ch)) => {
                if 32 <= ch as u32 && (ch as u32) <= 126 {
                    GestaltResult::CharOutput(crate::gestalt::OutputType::ExactPrint)
                } else {
                    GestaltResult::CharOutput(crate::gestalt::OutputType::CannotPrint(1))
                }
            },
            Gestalt::CharOutput(_) => GestaltResult::CharOutput(
                crate::gestalt::OutputType::CannotPrint(1),
            ),
            Gestalt::Unicode => GestaltResult::CanAccept(true),
            Gestalt::UnicodeNorm => GestaltResult::CanAccept(true),
            _ => GestaltResult::CanAccept(false),
        }
    }

    /// Convert a latin-1 / unicode character to lowercase
    pub fn char_to_lower<C: ToChar>(&self, ch: C) -> (r: char)
        ensures
            r == lower_char_of(ch.spec_to_char()),
    {
        let c = ch.to_char();
        char_lower(c)
    }

    /// Convert a latin-1 / unicode character to uppercase
    pub fn char_to_upper<C: ToChar>(&self, ch: C) -> (r: char)
        ensures
            r == upper_char_of(ch.spec_to_char()),
    {
        let c = ch.to_char();
        char_upper(c)
    }

    /// convert a string to upper case
    pub fn buffer_to_upper_case_uni(&self, s: &str) -> (r: String)
        ensures
            r@ == upper_of(s@),
    {
        str_upper(s)
    }

    /// convert a string to lower case
    pub fn buffer_to_lower_case_uni(&self, s: &str) -> (r: String)
        ensures
            r@ == lower_of(s@),
    {
        str_lower(s)
    }

    /// convert a string to title case: the first character goes to upper
    /// case, and the rest are kept or lowered one by one as the style
    /// asks.
    pub fn buffer_to_title_case_uni(&self, s: &str, style: TitleCaseStyle) -> (r: String)
        ensures
            s@.len() == 0 ==> r@ == Seq::<char>::empty(),
            s@.len() > 0 && style == TitleCaseStyle::UppercaseFirst ==> r@ == seq![
                upper_char_of(s@[0]),
            ] + s@.drop_first(),
            s@.len() > 0 && style == TitleCaseStyle::LowercaseRest ==> r@ == seq![
                upper_char_of(s@[0]),
            ] + s@.drop_first().map_values(|c: char| lower_char_of(c)),
    {
        let chars = crate::codec::string_chars(s);
        if chars.len() == 0 {
            let empty: Vec<char> = Vec::new();
            return crate::codec::chars_to_string(&empty);
        }
        let mut out: Vec<char> = Vec::new();
        out.push(char_upper(chars[0]));
        if matches!(style, TitleCaseStyle::UppercaseFirst) {
            let mut i: usize = 1;
            while i < chars.len()
                invariant
                    1 <= i <= chars@.len(),
                    chars@ == s@,
                    s@.len() > 0,
                    out@ == seq![upper_char_of(s@[0])] + s@.subrange(1, i as int),
                decreases chars@.len() - i,
            {
                out.push(chars[i]);
                i = i + 1;
                proof {
                    assert(out@ =~= seq![upper_char_of(s@[0])] + s@.subrange(1, i as int));
                }
            }
            proof {
                assert(s@.subrange(1, s@.len() as int) =~= s@.drop_first());
            }
        } else {
            let mut i: usize = 1;
            while i < chars.len()
                invariant
                    1 <= i <= chars@.len(),
                    chars@ == s@,
                    s@.len() > 0,
                    out@ == seq![upper_char_of(s@[0])] + s@.subrange(1, i as int).map_values(
                        |c: char| lower_char_of(c),
                    ),
                decreases chars@.len() - i,
            {
                out.push(char_lower(chars[i]));
                i = i + 1;
                proof {
                    assert(out@ =~= seq![upper_char_of(s@[0])] + s@.subrange(
                        1,
                        i as int,
                    ).map_values(|c: char| lower_char_of(c)));
                }
            }
            proof {
                assert(s@.subrange(1, s@.len() as int) =~= s@.drop_first());
            }
        }
        crate::codec::chars_to_string(&out)
    }

    /// Convert a string to Normalization Form D
    pub fn buffer_canon_decompose_uni(s: &str) -> (r: String)
        ensures
            r@ == nfd_of(s@),
    {
        str_nfd(s)
    }

    /// Convert a string to Normalization Form C
    pub fn buffer_canon_normalize_uni(s: &str) -> (r: String)
        ensures
            r@ == nfc_of(s@),
    {
        str_nfc(s)
    }

    /// Creates a reference to a temporary file. It is always a new file (one which does not yet
    /// exist). The file (once created) will be somewhere out of the player's way
    pub fn fileref_create_temp(&mut self, usage: GlkFileUsage, rock: GlkRock) -> (r: Option<
        GlkFileRef,
    >)
        requires
            old(self).wf(),
        ensures
            final(self).wf(),
            final(self).win_mgr == old(self).win_mgr,
            final(self).stream_mgr == old(self).stream_mgr,
            final(self).event_mgr == old(self).event_mgr,
            final(self).default_stream == old(self).default_stream,
            final(self).fileref_mgr.files@ == old(self).fileref_mgr.files@,
            r matches Some(id) ==> {
                &&& id == old(self).fileref_mgr.refs@.len()
                &&& final(self).fileref_mgr.refs@.len() == old(self).fileref_mgr.refs@.len()
                    + 1
                &&& final(self).fileref_mgr.refs@.last().usage == usage
                &&& final(self).fileref_mgr.refs@.last().rock == rock
                &&& final(self).fileref_mgr.refs@.last().is_temp == true
                &&& final(self).fileref_mgr.refs@.subrange(
                    0,
                    old(self).fileref_mgr.refs@.len() as int,
                ) == old(self).fileref_mgr.refs@
            },
            r is None ==> final(self).fileref_mgr.refs@ == old(self).fileref_mgr.refs@,
    {
        self.fileref_mgr.create_temp_file(usage, rock)
    }

    /// creates a reference to a file with a specific name. The file will be in a fixed location
    /// relevant to your program, and visible to the player
    pub fn fileref_create_by_name(&mut self, usage: GlkFileUsage, name: &str, rock: GlkRock)
        -> (r: Option<GlkFileRef>)
        requires
            old(self).wf(),
        ensures
            final(self).wf(),
            final(self).win_mgr == old(self).win_mgr,
            final(self).stream_mgr == old(self).stream_mgr,
            final(self).event_mgr == old(self).event_mgr,
            final(self).default_stream == old(self).default_stream,
            final(self).fileref_mgr.files@ == old(self).fileref_mgr.files@,
            old(self).fileref_mgr.refs@.len() < GlkFileRef::MAX ==> {
                &&& r == Some(old(self).fileref_mgr.refs@.len() as GlkFileRef)
                &&& final(self).fileref_mgr.refs@.len() == old(self).fileref_mgr.refs@.len()
                    + 1
                &&& final(self).fileref_mgr.refs@.last().usage == usage
                &&& final(self).fileref_mgr.refs@.last().name@ == name@
                &&& final(self).fileref_mgr.refs@.last().rock == rock
                &&& final(self).fileref_mgr.refs@.last().is_temp == false
                &&& final(self).fileref_mgr.refs@.subrange(
                    0,
                    old(self).fileref_mgr.refs@.len() as int,
                ) == old(self).fileref_mgr.refs@
            },
            old(self).fileref_mgr.refs@.len() >= GlkFileRef::MAX ==> r is None,
    {
        let owned = name.to_owned();
        self.fileref_mgr.create_named_file(usage, owned, rock)
    }

    /// Deletes the file referred to by the file reference. It does not destroy the fileref itself.
    pub fn fileref_delete_file(&mut self, filerefid: GlkFileRef)
        requires
            old(self).wf(),
        ensures
            final(self).wf(),
            final(self).win_mgr == old(self).win_mgr,
            final(self).stream_mgr == old(self).stream_mgr,
            final(self).event_mgr == old(self).event_mgr,
            final(self).default_stream == old(self).default_stream,
            final(self).fileref_mgr.refs@ == old(self).fileref_mgr.refs@,
            (filerefid as int) < old(self).fileref_mgr.refs@.len() ==> {
                let idx = crate::file_stream::spec_file_index(
                    old(self).fileref_mgr.files@,
                    old(self).fileref_mgr.refs@[filerefid as int].name@,
                );
                if idx >= 0 {
                    final(self).fileref_mgr.files@ == old(self).fileref_mgr.files@.remove(idx)
                } else {
                    final(self).fileref_mgr.files@ == old(self).fileref_mgr.files@
                }
            },
            (filerefid as int) >= old(self).fileref_mgr.refs@.len() ==> final(self).fileref_mgr.files@ == old(self).fileref_mgr.files@,
    {
        self.fileref_mgr.delete_file_by_id(filerefid);
    }

    /// Gets the current system time in seconds and microseconds since
    /// 1970; the clock decides the value.
    pub fn current_time(&self) -> (r: GlkTimeval) {
        let (sec, microsec) = system_clock_now();
        GlkTimeval { sec, microsec }
    }

    /// Gets the current system time scaled down by a factor; the clock
    /// decides the value.
    pub fn current_simple_time(&self, factor: u32) -> (r: i32)
        requires
            factor >= 1,
    {
        let (sec, _) = system_clock_now();
        if sec < 0 {
            0
        } else {
            ((sec as u64 / factor as u64) as u32) as i32
        }
    }

    /// Convert a given timestamp to a UTC GlkDate; a timestamp outside the
    /// calendar's range answers the zero date, and every timestamp within
    /// three trillion seconds of the epoch is converted.
    pub fn time_to_date_utc(&self, time: &GlkTimeval) -> (r: GlkDate)
        ensures
            ({
                let p = utc_parts_of(time.sec);
                let converted = GlkDate {
                    year: p.0,
                    month: p.1,
                    day: p.2,
                    weekday: p.3,
                    hour: p.4,
                    minute: p.5,
                    second: p.6,
                    microsec: time.microsec,
                };
                &&& (r == converted || r == GlkDate {
                    year: 0,
                    month: 0,
                    day: 0,
                    weekday: 0,
                    hour: 0,
                    minute: 0,
                    second: 0,
                    microsec: 0,
                })
                &&& (-3_000_000_000_000 <= time.sec <= 3_000_000_000_000 ==> r == converted)
            }),
    {
        match utc_calendar(time.sec) {
            None => GlkDate {
                year: 0,
                month: 0,
                day: 0,
                weekday: 0,
                hour: 0,
                minute: 0,
                second: 0,
                microsec: 0,
            },
            Some(p) => GlkDate {
                year: p.0,
                month: p.1,
                day: p.2,
                weekday: p.3,
                hour: p.4,
                minute: p.5,
                second: p.6,
                microsec: time.microsec,
            },
        }
    }

    /// Convert a given timestamp to a GlkDate in the machine's time zone;
    /// the zone's offset decides the parts, so only their calendar ranges
    /// are promised.
    pub fn time_to_date_local(&self, time: &GlkTimeval) -> (r: GlkDate)
        ensures
            0 <= r.month <= 12,
            0 <= r.day <= 31,
            0 <= r.weekday <= 6,
            0 <= r.hour <= 23,
            0 <= r.minute <= 59,
            0 <= r.second <= 59,
    {
        match local_calendar(time.sec) {
            None => GlkDate {
                year: 0,
                month: 0,
                day: 0,
                weekday: 0,
                hour: 0,
                minute: 0,
                second: 0,
                microsec: 0,
            },
            Some(p) => GlkDate {
                year: p.0,
                month: p.1,
                day: p.2,
                weekday: p.3,
                hour: p.4,
                minute: p.5,
                second: p.6,
                microsec: time.microsec,
            },
        }
    }

    /// Convert a simple time multiplied by a factor to a UTC GlkDate.
    pub fn simple_time_to_date_utc(&self, time: i32, factor: u32) -> (r: GlkDate)
        ensures
            ({
                let p = utc_parts_of(((time as int) * (factor as int)) as i64);
                r == (GlkDate {
                    year: p.0,
                    month: p.1,
                    day: p.2,
                    weekday: p.3,
                    hour: p.4,
                    minute: p.5,
                    second: p.6,
                    microsec: 0,
                }) || r == GlkDate {
                    year: 0,
                    month: 0,
                    day: 0,
                    weekday: 0,
                    hour: 0,
                    minute: 0,
                    second: 0,
                    microsec: 0,
                }
            }),
    {
        proof {
            assert((time as int) * (factor as int) <= 0x7fff_ffff_ffff_ffff && (time as int)
                * (factor as int) >= -0x8000_0000_0000_0000) by (nonlinear_arith)
                requires
                    -0x8000_0000 <= time as int <= 0x7fff_ffff,
                    0 <= factor as int <= 0xffff_ffff,
            ;
        }
        let sec: i64 = time as i64 * factor as i64;
        let tv = GlkTimeval { sec, microsec: 0 };
        self.time_to_date_utc(&tv)
    }

    /// Convert a simple time multiplied by a factor to a local GlkDate.
    pub fn simple_time_to_date_local(&self, time: i32, factor: u32) -> (r: GlkDate)
        ensures
            0 <= r.month <= 12,
            0 <= r.day <= 31,
            0 <= r.weekday <= 6,
            0 <= r.hour <= 23,
            0 <= r.minute <= 59,
            0 <= r.second <= 59,
    {
        proof {
            assert((time as int) * (factor as int) <= 0x7fff_ffff_ffff_ffff && (time as int)
                * (factor as int) >= -0x8000_0000_0000_0000) by (nonlinear_arith)
                requires
                    -0x8000_0000 <= time as int <= 0x7fff_ffff,
                    0 <= factor as int <= 0xffff_ffff,
            ;
        }
        let sec: i64 = time as i64 * factor as i64;
        let tv = GlkTimeval { sec, microsec: 0 };
        self.time_to_date_local(&tv)
    }
}

} // verus!

verus! {

impl Glk {
    /// The library's window type for a caller's window type; `Pair` cannot
    /// be asked for.
    pub open spec fn spec_wintype(wintype: GlkWindowType) -> WindowType {
        match wintype {
            GlkWindowType::Blank => WindowType::Blank,
            GlkWindowType::TextBuffer => WindowType::TextBuffer,
            GlkWindowType::TextGrid => WindowType::TextGrid,
            GlkWindowType::Graphics => WindowType::Graphics,
            GlkWindowType::Pair => WindowType::Pair,
        }
    }

    /// Whether a window-open call succeeds: pair windows cannot be asked
    /// for, the first window needs an empty tree, every later window needs
    /// a live parent to split, and a fresh window and stream identity must
    /// be available.
    pub open spec fn window_open_ok(
        self,
        parent: Option<GlkWindowID>,
        wintype: GlkWindowType,
    ) -> bool {
        &&& wintype != GlkWindowType::Pair
        &&& self.stream_mgr.streams@.len() < GlkStreamID::MAX
        &&& match parent {
            None => self.win_mgr.root is None && self.win_mgr.next_id < GlkWindowID::MAX,
            Some(p) => self.win_mgr.has_window(p) && self.win_mgr.next_id
                <= GlkWindowID::MAX - 2,
        }
    }

    /// create a new window: the first window with no parent, every later
    /// one by splitting an existing window. The new window gets a fresh
    /// write-only stream of its own.
    pub fn window_open(
        &mut self,
        parent: Option<GlkWindowID>,
        wintype: GlkWindowType,
        method: Option<WindowSplitMethod>,
        rock: GlkRock,
    ) -> (r: Option<GlkWindowID>)
        requires
            old(self).wf(),
        ensures
            final(self).wf(),
            r is Some <==> old(self).window_open_ok(parent, wintype),
            r is None ==> *final(self) == *old(self),
            r matches Some(id) ==> {
                let sid = old(self).stream_mgr.streams@.len() as GlkStreamID;
                let wt = Self::spec_wintype(wintype);
                let neww = crate::windows::Window {
                    stream: sid,
                    ..crate::windows::Window::spec_new_leaf(wt, rock, id)
                };
                &&& final(self).event_mgr == old(self).event_mgr
                &&& final(self).fileref_mgr == old(self).fileref_mgr
                &&& final(self).default_stream == old(self).default_stream
                &&& final(self).stream_mgr.streams@.len() == old(
                    self,
                ).stream_mgr.streams@.len() + 1
                &&& (forall|j: int|
                    0 <= j < old(self).stream_mgr.streams@.len() ==> final(self).stream_mgr.streams@[j] == old(self).stream_mgr.streams@[j])
                &&& final(self).stream_mgr.spec_get(sid) matches Some(st) && {
                    &&& st.backend matches StreamBackend::Window { winid, textdata } && winid
                        == id && textdata@ == Seq::<char>::empty()
                    &&& st.mode == GlkFileMode::Write
                    &&& st.read_count == 0
                    &&& st.write_count == 0
                }
                &&& match parent {
                    None => {
                        &&& id == if old(self).win_mgr.next_id == 0 {
                            1
                        } else {
                            old(self).win_mgr.next_id
                        }
                        &&& final(self).win_mgr.root == Some(crate::windows::WinTree::Leaf(neww))
                        &&& final(self).win_mgr.next_id == id + 1
                    },
                    Some(p) => {
                        &&& id == old(self).win_mgr.next_id + 1
                        &&& old(self).win_mgr.root matches Some(t) && final(self).win_mgr.root
                            == Some(
                            t.spec_split(
                                p,
                                crate::windows::Window::spec_new_pair(
                                    method,
                                    old(self).win_mgr.next_id,
                                ),
                                crate::windows::Window::spec_new_leaf(wt, rock, id),
                            ).spec_update(id, neww),
                        )
                        &&& final(self).win_mgr.next_id == old(self).win_mgr.next_id + 2
                    },
                }
            },
    {
        let wt = match wintype {
            GlkWindowType::Blank => WindowType::Blank,
            GlkWindowType::TextBuffer => WindowType::TextBuffer,
            GlkWindowType::TextGrid => WindowType::TextGrid,
            GlkWindowType::Graphics => WindowType::Graphics,
            GlkWindowType::Pair => {
                return None;
            },
        };
        if self.stream_mgr.streams.len() >= GlkStreamID::MAX as usize {
            return None;
        }
        let new_win = match parent {
            Some(p) => self.win_mgr.split(p, method, wt, rock),
            None => self.win_mgr.open_window(wt, rock),
        };
        let new_win = match new_win {
            Some(w) => w,
            None => {
                return None;
            },
        };
        proof {
            if parent is Some {
                let t = old(self).win_mgr.root->0;
                let pairw = crate::windows::Window::spec_new_pair(
                    method,
                    old(self).win_mgr.next_id,
                );
                let neww0 = crate::windows::Window::spec_new_leaf(wt, rock, new_win);
                t.lemma_ids_below_bound(old(self).win_mgr.next_id);
                t.lemma_split_ids(parent->0, pairw, neww0);
                t.lemma_split_find(parent->0, pairw, neww0);
            }
        }
        let backend = StreamBackend::Window { winid: new_win, textdata: Vec::new() };
        let stream = GlkStream::new(backend, GlkFileMode::Write, 0);
        let sid = self.stream_mgr.new_stream(stream);
        let set = self.win_mgr.set_stream_id(new_win, sid);
        proof {
            assert(set is Some);
        }
        Some(new_win)
    }

    /// close the given window and all of its children: the subtree
    /// disappears, the window's own stream closes, and any window echoing
    /// into that stream stops. Returns the stream's final read and write
    /// counts.
    pub fn window_close(&mut self, win: GlkWindowID) -> (r: Option<GlkStreamResult>)
        requires
            old(self).wf(),
        ensures
            final(self).wf(),
            r is Some <==> old(self).win_mgr.has_window(win),
            r is None ==> *final(self) == *old(self),
            r matches Some(res) ==> {
                let sid = old(self).win_mgr.spec_find(win)->0.stream;
                let owned = old(self).stream_mgr.spec_get(sid) matches Some(st) && (
                st.backend matches StreamBackend::Window { winid, .. } && winid == win);
                &&& final(self).event_mgr == old(self).event_mgr
                &&& final(self).fileref_mgr == old(self).fileref_mgr
                &&& final(self).default_stream == old(self).default_stream
                &&& final(self).win_mgr.next_id == old(self).win_mgr.next_id
                &&& if owned {
                    let st = old(self).stream_mgr.spec_get(sid)->0;
                    &&& res.read_count == st.read_count
                    &&& res.write_count == st.write_count
                    &&& final(self).stream_mgr.streams@ == old(
                        self,
                    ).stream_mgr.streams@.update(sid as int, None)
                    &&& old(self).win_mgr.root matches Some(t) && final(self).win_mgr.root
                        == match t.spec_close(win) {
                        None => None::<crate::windows::WinTree>,
                        Some(t2) => Some(t2.spec_clear_echo(sid)),
                    }
                } else {
                    &&& res == (GlkStreamResult { read_count: 0, write_count: 0 })
                    &&& final(self).stream_mgr.streams@ == old(self).stream_mgr.streams@
                    &&& old(self).win_mgr.root matches Some(t) && final(self).win_mgr.root
                        == t.spec_close(win)
                }
            },
    {
        proof {
            if self.win_mgr.root is Some {
                self.win_mgr.root->0.lemma_find_iff_contains(win);
            }
        }
        let w = match self.win_mgr.get_window(win) {
            Some(w) => w,
            None => {
                return None;
            },
        };
        let sid = w.stream;
        let closed = self.win_mgr.close(win);
        proof {
            assert(closed is Some);
        }
        let owned = match self.stream_mgr.get(sid) {
            Some(st) => st.is_window_stream() && match &st.backend {
                StreamBackend::Window { winid, .. } => *winid == win,
                _ => false,
            },
            None => false,
        };
        if owned {
            let st = match self.stream_mgr.close(sid) {
                Some(st) => st,
                None => {
                    proof {
                        assert(false);
                    }
                    return None;
                },
            };
            self.win_mgr.clear_echo_refs(sid);
            Some(st.get_results())
        } else {
            Some(GlkStreamResult { read_count: 0, write_count: 0 })
        }
    }

    /// get the actual size of the window, in its measurement system
    pub fn window_get_size(&self, win: GlkWindowID) -> (r: Option<GlkWindowSize>)
        ensures
            r == match self.win_mgr.spec_find(win) {
                Some(w) => Some(GlkWindowSize { width: w.width, height: w.height }),
                None => None::<GlkWindowSize>,
            },
    {
        self.win_mgr.get_size(win)
    }

    /// Change how a pair window divides its space (Glk Spec section 3.3).
    pub fn window_set_arrangement(
        &mut self,
        win: GlkWindowID,
        method: WindowSplitMethod,
        keywin: Option<GlkWindowID>,
    )
        requires
            old(self).wf(),
        ensures
            final(self).wf(),
            final(self).event_mgr == old(self).event_mgr,
            final(self).fileref_mgr == old(self).fileref_mgr,
            final(self).default_stream == old(self).default_stream,
            final(self).stream_mgr == old(self).stream_mgr,
            final(self).win_mgr.next_id == old(self).win_mgr.next_id,
            final(self).win_mgr.window_ids() =~= old(self).win_mgr.window_ids(),
            match old(self).win_mgr.spec_find(win) {
                Some(w) => if w.wintype == WindowType::Pair {
                    final(self).win_mgr.spec_find(win) == Some(
                        crate::windows::Window {
                            method: Some(method),
                            keywin: match keywin {
                                Some(k) => {
                                    if (old(self).win_mgr.root->0.children_of(win)->0).0
                                        == k {
                                        crate::windows::KeyWindow::Child1
                                    } else {
                                        crate::windows::KeyWindow::Child2
                                    }
                                },
                                None => w.keywin,
                            },
                            ..w
                        },
                    ) && (forall|j: GlkWindowID|
                        j != win ==> final(self).win_mgr.spec_find(j) == old(
                            self,
                        ).win_mgr.spec_find(j))
                } else {
                    final(self).win_mgr == old(self).win_mgr
                },
                None => final(self).win_mgr == old(self).win_mgr,
            },
    {
        self.win_mgr.set_arrangement(win, method, keywin);
    }

    /// returns the constraints of the window
    pub fn window_get_arrangement(&self, win: GlkWindowID) -> (r: (
        Option<WindowSplitMethod>,
        Option<GlkWindowID>,
    ))
        requires
            self.wf(),
        ensures
            r == match self.win_mgr.spec_find(win) {
                Some(w) => if w.wintype == WindowType::Pair && w.method is Some {
                    (
                        Some(w.method->0),
                        match w.keywin {
                            crate::windows::KeyWindow::Unset => None::<GlkWindowID>,
                            crate::windows::KeyWindow::Child1 => Some(
                                (self.win_mgr.root->0.children_of(win)->0).0,
                            ),
                            crate::windows::KeyWindow::Child2 => Some(
                                (self.win_mgr.root->0.children_of(win)->0).1,
                            ),
                        },
                    )
                } else {
                    (None::<WindowSplitMethod>, None::<GlkWindowID>)
                },
                None => (None::<WindowSplitMethod>, None::<GlkWindowID>),
            },
    {
        match self.win_mgr.get_arrangement(win) {
            Some((method, key)) => (Some(method), key),
            None => (None, None),
        }
    }

    /// Move the cursor in a text grid window (all other window types ignore this API)
    pub fn window_move_cursor(&mut self, win: GlkWindowID, xpos: u32, ypos: u32)
        requires
            old(self).wf(),
        ensures
            final(self).wf(),
            final(self).event_mgr == old(self).event_mgr,
            final(self).fileref_mgr == old(self).fileref_mgr,
            final(self).default_stream == old(self).default_stream,
            final(self).stream_mgr == old(self).stream_mgr,
            final(self).win_mgr.next_id == old(self).win_mgr.next_id,
            match old(self).win_mgr.spec_find(win) {
                Some(w) => if w.wintype == WindowType::TextGrid {
                    final(self).win_mgr.spec_find(win) == Some(
                        crate::windows::Window { cursor_x: xpos, cursor_y: ypos, ..w },
                    ) && (forall|j: GlkWindowID|
                        j != win ==> final(self).win_mgr.spec_find(j) == old(
                            self,
                        ).win_mgr.spec_find(j))
                } else {
                    final(self).win_mgr == old(self).win_mgr
                },
                None => final(self).win_mgr == old(self).win_mgr,
            },
    {
        self.win_mgr.move_cursor(win, xpos, ypos);
    }

    /// iterate through all the windows
    pub fn window_iterate(&self) -> (r: Vec<GlkWindowID>)
        ensures
            r@ == match self.win_mgr.root {
                Some(t) => t.id_seq(),
                None => Seq::<GlkWindowID>::empty(),
            },
    {
        self.win_mgr.get_iter()
    }

    /// get the rock value for a given window
    pub fn window_get_rock(&self, win: GlkWindowID) -> (r: Option<GlkRock>)
        ensures
            r == match self.win_mgr.spec_find(win) {
                Some(w) => Some(w.rock),
                None => None::<GlkRock>,
            },
    {
        match self.win_mgr.get_window(win) {
            Some(w) => Some(w.rock),
            None => None,
        }
    }

    /// get the type of the window
    pub fn window_get_type(&self, win: GlkWindowID) -> (r: Option<GlkWindowType>)
        requires
            self.wf(),
        ensures
            r == match self.win_mgr.spec_find(win) {
                Some(w) => Some(
                    match w.wintype {
                        WindowType::Blank => GlkWindowType::Blank,
                        WindowType::TextBuffer => GlkWindowType::TextBuffer,
                        WindowType::TextGrid => GlkWindowType::TextGrid,
                        WindowType::Graphics => GlkWindowType::Graphics,
                        WindowType::Pair => GlkWindowType::Pair,
                        WindowType::Root => GlkWindowType::Blank,
                    },
                ),
                None => None::<GlkWindowType>,
            },
            r is Some ==> self.win_mgr.spec_find(win)->0.wintype != WindowType::Root,
    {
        proof {
            if self.win_mgr.root is Some {
                self.win_mgr.root->0.lemma_find_types(self.win_mgr.next_id, win);
            }
        }
        match self.win_mgr.get_window(win) {
            Some(w) => Some(
                match w.wintype {
                    WindowType::Blank => GlkWindowType::Blank,
                    WindowType::TextBuffer => GlkWindowType::TextBuffer,
                    WindowType::TextGrid => GlkWindowType::TextGrid,
                    WindowType::Graphics => GlkWindowType::Graphics,
                    WindowType::Pair => GlkWindowType::Pair,
                    WindowType::Root => {
                        proof {
                            assert(false);
                        }
                        GlkWindowType::Blank
                    },
                },
            ),
            None => None,
        }
    }

    /// get the parent for this window; exactly the windows that exist and
    /// are not the single top-level window have one.
    pub fn window_get_parent(&self, win: GlkWindowID) -> (r: Option<GlkWindowID>)
        requires
            self.wf(),
        ensures
            r == self.win_mgr.spec_parent(win),
            r is Some <==> (self.win_mgr.has_window(win) && (self.win_mgr.root matches Some(
                t,
            ) && t.node().this_id != win)),
    {
        proof {
            if self.win_mgr.root is Some {
                self.win_mgr.root->0.lemma_parent_some(self.win_mgr.next_id, win);
            }
        }
        self.win_mgr.get_parent(win)
    }

    /// get the sibling of this window; exactly the windows that exist and
    /// are not the single top-level window have one.
    pub fn window_get_sibling(&self, win: GlkWindowID) -> (r: Option<GlkWindowID>)
        requires
            self.wf(),
        ensures
            r == self.win_mgr.spec_sibling(win),
            r is Some <==> (self.win_mgr.has_window(win) && (self.win_mgr.root matches Some(
                t,
            ) && t.node().this_id != win)),
    {
        proof {
            if self.win_mgr.root is Some {
                self.win_mgr.root->0.lemma_sibling_some(self.win_mgr.next_id, win);
            }
        }
        self.win_mgr.get_sibling(win)
    }

    /// gets the root window - if there are no windows, returns None
    pub fn window_get_root(&self) -> (r: Option<GlkWindowID>)
        ensures
            r == match self.win_mgr.root {
                Some(t) => Some(t.node().this_id),
                None => None::<GlkWindowID>,
            },
    {
        self.win_mgr.get_root()
    }

    /// clears the window: the cursor returns to the top-left corner
    pub fn window_clear(&mut self, win: GlkWindowID)
        requires
            old(self).wf(),
        ensures
            final(self).wf(),
            final(self).event_mgr == old(self).event_mgr,
            final(self).fileref_mgr == old(self).fileref_mgr,
            final(self).default_stream == old(self).default_stream,
            final(self).stream_mgr == old(self).stream_mgr,
            final(self).win_mgr.next_id == old(self).win_mgr.next_id,
            match old(self).win_mgr.spec_find(win) {
                Some(w) => final(self).win_mgr.spec_find(win) == Some(
                    crate::windows::Window { cursor_x: 0, cursor_y: 0, ..w },
                ) && (forall|j: GlkWindowID|
                    j != win ==> final(self).win_mgr.spec_find(j) == old(
                        self,
                    ).win_mgr.spec_find(j)),
                None => final(self).win_mgr == old(self).win_mgr,
            },
    {
        self.win_mgr.clear(win);
    }

    /// get the stream associated with a window
    pub fn window_get_stream(&self, win: GlkWindowID) -> (r: Option<GlkStreamID>)
        ensures
            r == match self.win_mgr.spec_find(win) {
                Some(w) => Some(w.stream),
                None => None::<GlkStreamID>,
            },
    {
        match self.win_mgr.get_window(win) {
            Some(w) => Some(w.stream),
            None => None,
        }
    }

    /// set the echo stream of a window: writes to the window's stream are
    /// mirrored there from now on
    pub fn window_set_echo_stream(&mut self, win: GlkWindowID, stream: Option<GlkStreamID>)
        requires
            old(self).wf(),
        ensures
            final(self).wf(),
            final(self).event_mgr == old(self).event_mgr,
            final(self).fileref_mgr == old(self).fileref_mgr,
            final(self).default_stream == old(self).default_stream,
            final(self).stream_mgr == old(self).stream_mgr,
            final(self).win_mgr.next_id == old(self).win_mgr.next_id,
            !old(self).win_mgr.has_window(win) ==> final(self).win_mgr == old(self).win_mgr,
            old(self).win_mgr.has_window(win) ==> {
                &&& final(self).win_mgr.spec_find(win) == Some(
                    crate::windows::Window {
                        echo_stream: stream,
                        ..old(self).win_mgr.spec_find(win)->0
                    },
                )
                &&& forall|j: GlkWindowID|
                    j != win ==> final(self).win_mgr.spec_find(j) == old(
                        self,
                    ).win_mgr.spec_find(j)
            },
    {
        proof {
            if self.win_mgr.root is Some {
                self.win_mgr.root->0.lemma_find_iff_contains(win);
            }
        }
        self.win_mgr.set_echo_stream(win, stream);
    }

    /// get the echo stream of a window, if one is set
    pub fn window_get_echo_stream(&self, win: GlkWindowID) -> (r: Option<GlkStreamID>)
        ensures
            r == match self.win_mgr.spec_find(win) {
                Some(w) => w.echo_stream,
                None => None::<GlkStreamID>,
            },
    {
        self.win_mgr.get_echo_stream(win)
    }

    /// The text a window has shown so far: everything written to its
    /// stream, in order. This is what a renderer draws.
    pub fn window_get_text(&self, win: GlkWindowID) -> (r: Option<Vec<char>>)
        ensures
            match self.win_mgr.spec_find(win) {
                Some(w) => {
                    let sid = w.stream;
                    match self.stream_mgr.spec_get(sid) {
                        Some(st) => match st.backend {
                            StreamBackend::Window { textdata, .. } => r matches Some(v) && v@
                                == textdata@,
                            _ => r is None,
                        },
                        None => r is None,
                    }
                },
                None => r is None,
            },
    {
        let w = match self.win_mgr.get_window(win) {
            Some(w) => w,
            None => {
                return None;
            },
        };
        match self.stream_mgr.get(w.stream) {
            Some(st) => match &st.backend {
                StreamBackend::Window { textdata, .. } => {
                    let mut out: Vec<char> = Vec::new();
                    let mut i: usize = 0;
                    while i < textdata.len()
                        invariant
                            i <= textdata@.len(),
                            out@ == textdata@.subrange(0, i as int),
                        decreases textdata@.len() - i,
                    {
                        out.push(textdata[i]);
                        i = i + 1;
                        proof {
                            assert(out@ =~= textdata@.subrange(0, i as int));
                        }
                    }
                    proof {
                        assert(textdata@.subrange(0, textdata@.len() as int) =~= textdata@);
                    }
                    Some(out)
                },
                _ => None,
            },
            None => None,
        }
    }
}

} // verus!

verus! {

impl Glk {
    /// Nothing observable moved: the managers and the stream table read
    /// exactly as before.
    pub open spec fn glk_unchanged(pre: Glk, post: Glk) -> bool {
        &&& Self::streams_frame(pre, post)
        &&& post.stream_mgr.streams@ == pre.stream_mgr.streams@
    }

    /// Everything but the stream table is kept.
    pub open spec fn streams_frame(pre: Glk, post: Glk) -> bool {
        &&& post.win_mgr == pre.win_mgr
        &&& post.event_mgr == pre.event_mgr
        &&& post.fileref_mgr == pre.fileref_mgr
        &&& post.default_stream == pre.default_stream
    }

    /// What a write to stream `sid` does to the facade: the stream takes
    /// the write as `op` says; when it feeds a window with an echo stream,
    /// the same write lands there too; every other stream is untouched.
    /// The mirror is one level deep by design: a write into the echo
    /// target does not consult that target's own echo stream, and echoing
    /// into the written stream itself mirrors nothing — chains of echo
    /// targets could otherwise loop forever.
    pub open spec fn stream_write_rel(
        pre: Glk,
        post: Glk,
        sid: GlkStreamID,
        op: spec_fn(GlkStream, GlkStream) -> bool,
    ) -> bool {
        &&& Self::streams_frame(pre, post)
        &&& post.stream_mgr.streams@.len() == pre.stream_mgr.streams@.len()
        &&& pre.stream_mgr.spec_get(sid) matches Some(s) && (
        post.stream_mgr.spec_get(sid) matches Some(s2) && op(s, s2))
        &&& ({
            let s = pre.stream_mgr.spec_get(sid)->0;
            let echo = match s.backend {
                StreamBackend::Window { winid, .. } => match pre.win_mgr.spec_find(winid) {
                    Some(w) => w.echo_stream,
                    None => None::<GlkStreamID>,
                },
                _ => None::<GlkStreamID>,
            };
            match echo {
                Some(esid) => if esid != sid && (pre.stream_mgr.spec_get(esid) matches Some(es)
                    && es.mode.is_write()) {
                    &&& (post.stream_mgr.spec_get(esid) matches Some(es2) && op(
                        pre.stream_mgr.spec_get(esid)->0,
                        es2,
                    ))
                    &&& forall|j: GlkStreamID|
                        j != sid && j != esid ==> post.stream_mgr.spec_get(j)
                            == pre.stream_mgr.spec_get(j)
                } else {
                    forall|j: GlkStreamID|
                        j != sid ==> post.stream_mgr.spec_get(j) == pre.stream_mgr.spec_get(
                            j,
                        )
                },
                None => forall|j: GlkStreamID|
                    j != sid ==> post.stream_mgr.spec_get(j) == pre.stream_mgr.spec_get(j),
            }
        })
    }

    /// The window a writable stream echoes for, if any.
    fn echo_target_of(&self, sid: GlkStreamID) -> (r: Option<GlkStreamID>)
        ensures
            r == match self.stream_mgr.spec_get(sid) {
                Some(s) => match s.backend {
                    StreamBackend::Window { winid, .. } => match self.win_mgr.spec_find(
                        winid,
                    ) {
                        Some(w) => w.echo_stream,
                        None => None::<GlkStreamID>,
                    },
                    _ => None::<GlkStreamID>,
                },
                None => None::<GlkStreamID>,
            },
    {
        let winid = match self.stream_mgr.get(sid) {
            Some(s) => match &s.backend {
                StreamBackend::Window { winid, .. } => Some(*winid),
                _ => None,
            },
            None => None,
        };
        match winid {
            Some(w) => self.win_mgr.get_echo_stream(w),
            None => None,
        }
    }

    /// write a byte to a stream, and to its echo stream if one is set
    pub fn put_char_stream(&mut self, streamid: GlkStreamID, ch: u8) -> (r: Result<
        (),
        GlkError,
    >)
        requires
            old(self).wf(),
        ensures
            final(self).wf(),
            old(self).stream_mgr.spec_get(streamid) is None ==> r == Err::<(), GlkError>(
                GlkError::NoSuchStream,
            ) && Self::glk_unchanged(*old(self), *final(self)),
            old(self).stream_mgr.spec_get(streamid) matches Some(s) ==> {
                if !s.mode.is_write() {
                    r == Err::<(), GlkError>(GlkError::NotWritable) && Self::glk_unchanged(
                        *old(self),
                        *final(self),
                    )
                } else {
                    r == Ok::<(), GlkError>(()) && Self::stream_write_rel(
                        *old(self),
                        *final(self),
                        streamid,
                        (|a: GlkStream, b: GlkStream| GlkStream::put_char_rel(a, b, ch)),
                    )
                }
            },
    {
        if (streamid as usize) >= self.stream_mgr.streams.len() {
            return Err(GlkError::NoSuchStream);
        }
        match &mut self.stream_mgr.streams[streamid as usize] {
            None => {
                proof {
                    assert(self.stream_mgr.streams@ =~= old(self).stream_mgr.streams@);
                }
                return Err(GlkError::NoSuchStream);
            },
            Some(stream) => {
                match stream.put_char(ch) {
                    Err(e) => {
                        proof {
                            assert(self.stream_mgr.streams@ =~= old(
                                self,
                            ).stream_mgr.streams@);
                        }
                        return Err(e);
                    },
                    Ok(()) => {},
                }
            },
        }
        let echo = self.echo_target_of(streamid);
        match echo {
            Some(esid) => {
                if esid != streamid && (esid as usize) < self.stream_mgr.streams.len() {
                    match &mut self.stream_mgr.streams[esid as usize] {
                        Some(es) => {
                            if es.mode.is_write() {
                                let _ = es.put_char(ch);
                            }
                        },
                        None => {},
                    }
                }
            },
            None => {},
        }
        Ok(())
    }
}

} // verus!

verus! {

impl Glk {
    /// write a string to a stream, and to its echo stream if one is set
    pub fn put_string_stream(&mut self, streamid: GlkStreamID, s: &str) -> (r: Result<
        (),
        GlkError,
    >)
        requires
            old(self).wf(),
        ensures
            final(self).wf(),
            old(self).stream_mgr.spec_get(streamid) is None ==> r == Err::<(), GlkError>(
                GlkError::NoSuchStream,
            ) && Self::glk_unchanged(*old(self), *final(self)),
            old(self).stream_mgr.spec_get(streamid) matches Some(cur) ==> {
                if !cur.mode.is_write() {
                    r == Err::<(), GlkError>(GlkError::NotWritable) && Self::glk_unchanged(
                        *old(self),
                        *final(self),
                    )
                } else {
                    r == Ok::<(), GlkError>(()) && Self::stream_write_rel(
                        *old(self),
                        *final(self),
                        streamid,
                        (|a: GlkStream, b: GlkStream| GlkStream::put_string_rel(a, b, s@)),
                    )
                }
            },
    {
        if (streamid as usize) >= self.stream_mgr.streams.len() {
            return Err(GlkError::NoSuchStream);
        }
        match &mut self.stream_mgr.streams[streamid as usize] {
            None => {
                proof {
                    assert(self.stream_mgr.streams@ =~= old(self).stream_mgr.streams@);
                }
                return Err(GlkError::NoSuchStream);
            },
            Some(stream) => {
                match stream.put_string(s) {
                    Err(e) => {
                        proof {
                            assert(self.stream_mgr.streams@ =~= old(
                                self,
                            ).stream_mgr.streams@);
                        }
                        return Err(e);
                    },
                    Ok(()) => {},
                }
            },
        }
        let echo = self.echo_target_of(streamid);
        match echo {
            Some(esid) => {
                if esid != streamid && (esid as usize) < self.stream_mgr.streams.len() {
                    match &mut self.stream_mgr.streams[esid as usize] {
                        Some(es) => {
                            if es.mode.is_write() {
                                let _ = es.put_string(s);
                            }
                        },
                        None => {},
                    }
                }
            },
            None => {},
        }
        Ok(())
    }

    /// write a unicode string to a stream - same as put_string_stream() because every string already holds unicode
    pub fn put_string_stream_uni(&mut self, streamid: GlkStreamID, s: &str) -> (r: Result<
        (),
        GlkError,
    >)
        requires
            old(self).wf(),
        ensures
            final(self).wf(),
            old(self).stream_mgr.spec_get(streamid) is None ==> r == Err::<(), GlkError>(
                GlkError::NoSuchStream,
            ) && Self::glk_unchanged(*old(self), *final(self)),
            old(self).stream_mgr.spec_get(streamid) matches Some(cur) ==> {
                if !cur.mode.is_write() {
                    r == Err::<(), GlkError>(GlkError::NotWritable) && Self::glk_unchanged(
                        *old(self),
                        *final(self),
                    )
                } else {
                    r == Ok::<(), GlkError>(()) && Self::stream_write_rel(
                        *old(self),
                        *final(self),
                        streamid,
                        (|a: GlkStream, b: GlkStream| GlkStream::put_string_rel(a, b, s@)),
                    )
                }
            },
    {
        if (streamid as usize) >= self.stream_mgr.streams.len() {
            return Err(GlkError::NoSuchStream);
        }
        match &mut self.stream_mgr.streams[streamid as usize] {
            None => {
                proof {
                    assert(self.stream_mgr.streams@ =~= old(self).stream_mgr.streams@);
                }
                return Err(GlkError::NoSuchStream);
            },
            Some(stream) => {
                match stream.put_string(s) {
                    Err(e) => {
                        proof {
                            assert(self.stream_mgr.streams@ =~= old(
                                self,
                            ).stream_mgr.streams@);
                        }
                        return Err(e);
                    },
                    Ok(()) => {},
                }
            },
        }
        let echo = self.echo_target_of(streamid);
        match echo {
            Some(esid) => {
                if esid != streamid && (esid as usize) < self.stream_mgr.streams.len() {
                    match &mut self.stream_mgr.streams[esid as usize] {
                        Some(es) => {
                            if es.mode.is_write() {
                                let _ = es.put_string(s);
                            }
                        },
                        None => {},
                    }
                }
            },
            None => {},
        }
        Ok(())
    }

    /// write a buffer of bytes to a stream, and to its echo stream if one is set
    pub fn put_buffer_stream(&mut self, streamid: GlkStreamID, buf: &[u8]) -> (r: Result<
        (),
        GlkError,
    >)
        requires
            old(self).wf(),
        ensures
            final(self).wf(),
            old(self).stream_mgr.spec_get(streamid) is None ==> r == Err::<(), GlkError>(
                GlkError::NoSuchStream,
            ) && Self::glk_unchanged(*old(self), *final(self)),
            old(self).stream_mgr.spec_get(streamid) matches Some(cur) ==> {
                if !cur.mode.is_write() {
                    r == Err::<(), GlkError>(GlkError::NotWritable) && Self::glk_unchanged(
                        *old(self),
                        *final(self),
                    )
                } else {
                    r == Ok::<(), GlkError>(()) && Self::stream_write_rel(
                        *old(self),
                        *final(self),
                        streamid,
                        (|a: GlkStream, b: GlkStream| GlkStream::put_buffer_rel(a, b, buf@)),
                    )
                }
            },
    {
        if (streamid as usize) >= self.stream_mgr.streams.len() {
            return Err(GlkError::NoSuchStream);
        }
        match &mut self.stream_mgr.streams[streamid as usize] {
            None => {
                proof {
                    assert(self.stream_mgr.streams@ =~= old(self).stream_mgr.streams@);
                }
                return Err(GlkError::NoSuchStream);
            },
            Some(stream) => {
                match stream.put_buffer(buf) {
                    Err(e) => {
                        proof {
                            assert(self.stream_mgr.streams@ =~= old(
                                self,
                            ).stream_mgr.streams@);
                        }
                        return Err(e);
                    },
                    Ok(()) => {},
                }
            },
        }
        let echo = self.echo_target_of(streamid);
        match echo {
            Some(esid) => {
                if esid != streamid && (esid as usize) < self.stream_mgr.streams.len() {
                    match &mut self.stream_mgr.streams[esid as usize] {
                        Some(es) => {
                            if es.mode.is_write() {
                                let _ = es.put_buffer(buf);
                            }
                        },
                        None => {},
                    }
                }
            },
            None => {},
        }
        Ok(())
    }

    /// write a unicode character to a stream, and to its echo stream if one is set
    pub fn put_char_stream_uni(&mut self, streamid: GlkStreamID, ch: char) -> (r: Result<
        (),
        GlkError,
    >)
        requires
            old(self).wf(),
        ensures
            final(self).wf(),
            old(self).stream_mgr.spec_get(streamid) is None ==> r == Err::<(), GlkError>(
                GlkError::NoSuchStream,
            ) && Self::glk_unchanged(*old(self), *final(self)),
            old(self).stream_mgr.spec_get(streamid) matches Some(cur) ==> {
                if !cur.mode.is_write() {
                    r == Err::<(), GlkError>(GlkError::NotWritable) && Self::glk_unchanged(
                        *old(self),
                        *final(self),
                    )
                } else {
                    r == Ok::<(), GlkError>(()) && Self::stream_write_rel(
                        *old(self),
                        *final(self),
                        streamid,
                        (|a: GlkStream, b: GlkStream| GlkStream::put_char_uni_rel(a, b, ch)),
                    )
                }
            },
    {
        if (streamid as usize) >= self.stream_mgr.streams.len() {
            return Err(GlkError::NoSuchStream);
        }
        match &mut self.stream_mgr.streams[streamid as usize] {
            None => {
                proof {
                    assert(self.stream_mgr.streams@ =~= old(self).stream_mgr.streams@);
                }
                return Err(GlkError::NoSuchStream);
            },
            Some(stream) => {
                match stream.put_char_uni(ch) {
                    Err(e) => {
                        proof {
                            assert(self.stream_mgr.streams@ =~= old(
                                self,
                            ).stream_mgr.streams@);
                        }
                        return Err(e);
                    },
                    Ok(()) => {},
                }
            },
        }
        let echo = self.echo_target_of(streamid);
        match echo {
            Some(esid) => {
                if esid != streamid && (esid as usize) < self.stream_mgr.streams.len() {
                    match &mut self.stream_mgr.streams[esid as usize] {
                        Some(es) => {
                            if es.mode.is_write() {
                                let _ = es.put_char_uni(ch);
                            }
                        },
                        None => {},
                    }
                }
            },
            None => {},
        }
        Ok(())
    }

    /// write a buffer of unicode characters to a stream, and to its echo stream if one is set
    pub fn put_buffer_stream_uni(&mut self, streamid: GlkStreamID, buf: &[char]) -> (r: Result<
        (),
        GlkError,
    >)
        requires
            old(self).wf(),
        ensures
            final(self).wf(),
            old(self).stream_mgr.spec_get(streamid) is None ==> r == Err::<(), GlkError>(
                GlkError::NoSuchStream,
            ) && Self::glk_unchanged(*old(self), *final(self)),
            old(self).stream_mgr.spec_get(streamid) matches Some(cur) ==> {
                if !cur.mode.is_write() {
                    r == Err::<(), GlkError>(GlkError::NotWritable) && Self::glk_unchanged(
                        *old(self),
                        *final(self),
                    )
                } else {
                    r == Ok::<(), GlkError>(()) && Self::stream_write_rel(
                        *old(self),
                        *final(self),
                        streamid,
                        (|a: GlkStream, b: GlkStream| GlkStream::put_buffer_uni_rel(a, b, buf@)),
                    )
                }
            },
    {
        if (streamid as usize) >= self.stream_mgr.streams.len() {
            return Err(GlkError::NoSuchStream);
        }
        match &mut self.stream_mgr.streams[streamid as usize] {
            None => {
                proof {
                    assert(self.stream_mgr.streams@ =~= old(self).stream_mgr.streams@);
                }
                return Err(GlkError::NoSuchStream);
            },
            Some(stream) => {
                match stream.put_buffer_uni(buf) {
                    Err(e) => {
                        proof {
                            assert(self.stream_mgr.streams@ =~= old(
                                self,
                            ).stream_mgr.streams@);
                        }
                        return Err(e);
                    },
                    Ok(()) => {},
                }
            },
        }
        let echo = self.echo_target_of(streamid);
        match echo {
            Some(esid) => {
                if esid != streamid && (esid as usize) < self.stream_mgr.streams.len() {
                    match &mut self.stream_mgr.streams[esid as usize] {
                        Some(es) => {
                            if es.mode.is_write() {
                                let _ = es.put_buffer_uni(buf);
                            }
                        },
                        None => {},
                    }
                }
            },
            None => {},
        }
        Ok(())
    }
}

} // verus!

verus! {

impl Glk {
    /// A read touched stream `sid` and nothing else.
    pub open spec fn stream_read_frame(pre: Glk, post: Glk, sid: GlkStreamID) -> bool {
        &&& Self::streams_frame(pre, post)
        &&& post.stream_mgr.streams@.len() == pre.stream_mgr.streams@.len()
        &&& forall|j: GlkStreamID|
            j != sid ==> post.stream_mgr.spec_get(j) == pre.stream_mgr.spec_get(j)
    }

    /// read a byte from a stream. `None` when there are no more bytes to read; a stream that cannot be read from answers a mode error.
    pub fn get_char_stream(&mut self, streamid: GlkStreamID ) -> (r: Result<Option<u8>, GlkError>)
        requires
            old(self).wf(),
        ensures
            final(self).wf(),
            old(self).stream_mgr.spec_get(streamid) is None ==> r == Err::<Option<u8>, GlkError>(
                GlkError::NoSuchStream,
            ) && Self::glk_unchanged(*old(self), *final(self)),
            old(self).stream_mgr.spec_get(streamid) matches Some(cur) ==> {
                if !cur.mode.is_read() {
                    r == Err::<Option<u8>, GlkError>(GlkError::NotReadable) && Self::glk_unchanged(
                        *old(self),
                        *final(self),
                    )
                } else {
                    &&& Self::stream_read_frame(*old(self), *final(self), streamid)
                    &&& r matches Ok(v) && (final(self).stream_mgr.spec_get(streamid)
                        matches Some(s2) && GlkStream::get_char_rel(
                        cur,
                        s2,
                        v,
                    ))
                }
            },
    {
        if (streamid as usize) >= self.stream_mgr.streams.len() {
            return Err(GlkError::NoSuchStream);
        }
        match &mut self.stream_mgr.streams[streamid as usize] {
            None => {
                proof {
                    assert(self.stream_mgr.streams@ =~= old(self).stream_mgr.streams@);
                }
                Err(GlkError::NoSuchStream)
            },
            Some(stream) => {
                match stream.get_char() {
                    Err(e) => {
                        proof {
                            assert(self.stream_mgr.streams@ =~= old(
                                self,
                            ).stream_mgr.streams@);
                        }
                        Err(e)
                    },
                    Ok(v) => Ok(v),
                }
            },
        }
    }

    /// read a run of bytes from a stream, up to `len` of them or everything left
    pub fn get_buffer_stream(&mut self, streamid: GlkStreamID , len: Option<usize>) -> (r: Result<Vec<u8>, GlkError>)
        requires
            old(self).wf(),
        ensures
            final(self).wf(),
            old(self).stream_mgr.spec_get(streamid) is None ==> r == Err::<Vec<u8>, GlkError>(
                GlkError::NoSuchStream,
            ) && Self::glk_unchanged(*old(self), *final(self)),
            old(self).stream_mgr.spec_get(streamid) matches Some(cur) ==> {
                if !cur.mode.is_read() {
                    r == Err::<Vec<u8>, GlkError>(GlkError::NotReadable) && Self::glk_unchanged(
                        *old(self),
                        *final(self),
                    )
                } else {
                    &&& Self::stream_read_frame(*old(self), *final(self), streamid)
                    &&& r matches Ok(v) && (final(self).stream_mgr.spec_get(streamid)
                        matches Some(s2) && GlkStream::get_buffer_rel(
                        cur,
                        s2,
                        len,
                        v@,
                    ))
                }
            },
    {
        if (streamid as usize) >= self.stream_mgr.streams.len() {
            return Err(GlkError::NoSuchStream);
        }
        match &mut self.stream_mgr.streams[streamid as usize] {
            None => {
                proof {
                    assert(self.stream_mgr.streams@ =~= old(self).stream_mgr.streams@);
                }
                Err(GlkError::NoSuchStream)
            },
            Some(stream) => {
                match stream.get_buffer(len) {
                    Err(e) => {
                        proof {
                            assert(self.stream_mgr.streams@ =~= old(
                                self,
                            ).stream_mgr.streams@);
                        }
                        Err(e)
                    },
                    Ok(v) => Ok(v),
                }
            },
        }
    }

    /// read a run of bytes until a newline, or until end-of-stream
    pub fn get_line_stream(&mut self, streamid: GlkStreamID , len: Option<usize>) -> (r: Result<Vec<u8>, GlkError>)
        requires
            old(self).wf(),
        ensures
            final(self).wf(),
            old(self).stream_mgr.spec_get(streamid) is None ==> r == Err::<Vec<u8>, GlkError>(
                GlkError::NoSuchStream,
            ) && Self::glk_unchanged(*old(self), *final(self)),
            old(self).stream_mgr.spec_get(streamid) matches Some(cur) ==> {
                if !cur.mode.is_read() {
                    r == Err::<Vec<u8>, GlkError>(GlkError::NotReadable) && Self::glk_unchanged(
                        *old(self),
                        *final(self),
                    )
                } else {
                    &&& Self::stream_read_frame(*old(self), *final(self), streamid)
                    &&& r matches Ok(v) && (final(self).stream_mgr.spec_get(streamid)
                        matches Some(s2) && GlkStream::get_line_rel(
                        cur,
                        s2,
                        len,
                        v@,
                    ))
                }
            },
    {
        if (streamid as usize) >= self.stream_mgr.streams.len() {
            return Err(GlkError::NoSuchStream);
        }
        match &mut self.stream_mgr.streams[streamid as usize] {
            None => {
                proof {
                    assert(self.stream_mgr.streams@ =~= old(self).stream_mgr.streams@);
                }
                Err(GlkError::NoSuchStream)
            },
            Some(stream) => {
                match stream.get_line(len) {
                    Err(e) => {
                        proof {
                            assert(self.stream_mgr.streams@ =~= old(
                                self,
                            ).stream_mgr.streams@);
                        }
                        Err(e)
                    },
                    Ok(v) => Ok(v),
                }
            },
        }
    }

    /// get a unicode character from a stream. `None` at the end of the data or on bytes that name no character.
    pub fn get_char_stream_uni(&mut self, streamid: GlkStreamID ) -> (r: Result<Option<char>, GlkError>)
        requires
            old(self).wf(),
        ensures
            final(self).wf(),
            old(self).stream_mgr.spec_get(streamid) is None ==> r == Err::<Option<char>, GlkError>(
                GlkError::NoSuchStream,
            ) && Self::glk_unchanged(*old(self), *final(self)),
            old(self).stream_mgr.spec_get(streamid) matches Some(cur) ==> {
                if !cur.mode.is_read() {
                    r == Err::<Option<char>, GlkError>(GlkError::NotReadable) && Self::glk_unchanged(
                        *old(self),
                        *final(self),
                    )
                } else {
                    &&& Self::stream_read_frame(*old(self), *final(self), streamid)
                    &&& r matches Ok(v) && (final(self).stream_mgr.spec_get(streamid)
                        matches Some(s2) && GlkStream::get_char_uni_rel(
                        cur,
                        s2,
                        v,
                    ))
                }
            },
    {
        if (streamid as usize) >= self.stream_mgr.streams.len() {
            return Err(GlkError::NoSuchStream);
        }
        match &mut self.stream_mgr.streams[streamid as usize] {
            None => {
                proof {
                    assert(self.stream_mgr.streams@ =~= old(self).stream_mgr.streams@);
                }
                Err(GlkError::NoSuchStream)
            },
            Some(stream) => {
                match stream.get_char_uni() {
                    Err(e) => {
                        proof {
                            assert(self.stream_mgr.streams@ =~= old(
                                self,
                            ).stream_mgr.streams@);
                        }
                        Err(e)
                    },
                    Ok(v) => Ok(v),
                }
            },
        }
    }

    /// read a run of unicode characters from a stream
    pub fn get_buffer_stream_uni(&mut self, streamid: GlkStreamID , len: Option<usize>) -> (r: Result<Vec<char>, GlkError>)
        requires
            old(self).wf(),
        ensures
            final(self).wf(),
            old(self).stream_mgr.spec_get(streamid) is None ==> r == Err::<Vec<char>, GlkError>(
                GlkError::NoSuchStream,
            ) && Self::glk_unchanged(*old(self), *final(self)),
            old(self).stream_mgr.spec_get(streamid) matches Some(cur) ==> {
                if !cur.mode.is_read() {
                    r == Err::<Vec<char>, GlkError>(GlkError::NotReadable) && Self::glk_unchanged(
                        *old(self),
                        *final(self),
                    )
                } else {
                    &&& Self::stream_read_frame(*old(self), *final(self), streamid)
                    &&& r matches Ok(v) && (final(self).stream_mgr.spec_get(streamid)
                        matches Some(s2) && GlkStream::get_buffer_uni_read_rel(
                        cur,
                        s2,
                        len,
                        v@,
                    ))
                }
            },
    {
        if (streamid as usize) >= self.stream_mgr.streams.len() {
            return Err(GlkError::NoSuchStream);
        }
        match &mut self.stream_mgr.streams[streamid as usize] {
            None => {
                proof {
                    assert(self.stream_mgr.streams@ =~= old(self).stream_mgr.streams@);
                }
                Err(GlkError::NoSuchStream)
            },
            Some(stream) => {
                match stream.get_buffer_uni(len) {
                    Err(e) => {
                        proof {
                            assert(self.stream_mgr.streams@ =~= old(
                                self,
                            ).stream_mgr.streams@);
                        }
                        Err(e)
                    },
                    Ok(v) => Ok(v),
                }
            },
        }
    }

    /// read unicode characters up to a newline, or until end-of-stream
    pub fn get_line_stream_uni(&mut self, streamid: GlkStreamID , len: Option<usize>) -> (r: Result<Vec<char>, GlkError>)
        requires
            old(self).wf(),
        ensures
            final(self).wf(),
            old(self).stream_mgr.spec_get(streamid) is None ==> r == Err::<Vec<char>, GlkError>(
                GlkError::NoSuchStream,
            ) && Self::glk_unchanged(*old(self), *final(self)),
            old(self).stream_mgr.spec_get(streamid) matches Some(cur) ==> {
                if !cur.mode.is_read() {
                    r == Err::<Vec<char>, GlkError>(GlkError::NotReadable) && Self::glk_unchanged(
                        *old(self),
                        *final(self),
                    )
                } else {
                    &&& Self::stream_read_frame(*old(self), *final(self), streamid)
                    &&& r matches Ok(v) && (final(self).stream_mgr.spec_get(streamid)
                        matches Some(s2) && GlkStream::get_line_uni_read_rel(
                        cur,
                        s2,
                        len,
                        v@,
                    ))
                }
            },
    {
        if (streamid as usize) >= self.stream_mgr.streams.len() {
            return Err(GlkError::NoSuchStream);
        }
        match &mut self.stream_mgr.streams[streamid as usize] {
            None => {
                proof {
                    assert(self.stream_mgr.streams@ =~= old(self).stream_mgr.streams@);
                }
                Err(GlkError::NoSuchStream)
            },
            Some(stream) => {
                match stream.get_line_uni(len) {
                    Err(e) => {
                        proof {
                            assert(self.stream_mgr.streams@ =~= old(
                                self,
                            ).stream_mgr.streams@);
                        }
                        Err(e)
                    },
                    Ok(v) => Ok(v),
                }
            },
        }
    }
}

} // verus!

verus! {

impl Glk {
    /// set the current stream, or None to disable
    pub fn stream_set_current(&mut self, streamid: GlkStreamID)
        ensures
            final(self).default_stream == Some(streamid),
            final(self).win_mgr == old(self).win_mgr,
            final(self).event_mgr == old(self).event_mgr,
            final(self).stream_mgr == old(self).stream_mgr,
            final(self).fileref_mgr == old(self).fileref_mgr,
    {
        self.default_stream = Some(streamid)
    }

    /// get the current stream, or None if no stream is set
    pub fn stream_get_current(&self) -> (r: Option<GlkStreamID>)
        ensures
            r == self.default_stream,
    {
        self.default_stream
    }

    /// write a byte to the default stream
    pub fn put_char(&mut self , ch: u8) -> (r: Result<(), GlkError>)
        requires
            old(self).wf(),
        ensures
            final(self).wf(),
            old(self).default_stream is None ==> r == Ok::<(), GlkError>(())
                && Self::glk_unchanged(*old(self), *final(self)),
            old(self).default_stream matches Some(sid) ==> {
                &&& old(self).stream_mgr.spec_get(sid) is None ==> r == Err::<(), GlkError>(
                    GlkError::NoSuchStream,
                ) && Self::glk_unchanged(*old(self), *final(self))
                &&& old(self).stream_mgr.spec_get(sid) matches Some(cur) ==> {
                    if !cur.mode.is_write() {
                        r == Err::<(), GlkError>(GlkError::NotWritable) && Self::glk_unchanged(
                            *old(self),
                            *final(self),
                        )
                    } else {
                        r == Ok::<(), GlkError>(()) && Self::stream_write_rel(
                            *old(self),
                            *final(self),
                            sid,
                            (|a: GlkStream, b: GlkStream| GlkStream::put_char_rel(a, b, ch)),
                        )
                    }
                }
            },
    {
        match self.default_stream {
            None => Ok(()),
            Some(sid) => self.put_char_stream(sid, ch),
        }
    }

    /// write a string to the default stream
    pub fn put_string(&mut self , s: &str) -> (r: Result<(), GlkError>)
        requires
            old(self).wf(),
        ensures
            final(self).wf(),
            old(self).default_stream is None ==> r == Ok::<(), GlkError>(())
                && Self::glk_unchanged(*old(self), *final(self)),
            old(self).default_stream matches Some(sid) ==> {
                &&& old(self).stream_mgr.spec_get(sid) is None ==> r == Err::<(), GlkError>(
                    GlkError::NoSuchStream,
                ) && Self::glk_unchanged(*old(self), *final(self))
                &&& old(self).stream_mgr.spec_get(sid) matches Some(cur) ==> {
                    if !cur.mode.is_write() {
                        r == Err::<(), GlkError>(GlkError::NotWritable) && Self::glk_unchanged(
                            *old(self),
                            *final(self),
                        )
                    } else {
                        r == Ok::<(), GlkError>(()) && Self::stream_write_rel(
                            *old(self),
                            *final(self),
                            sid,
                            (|a: GlkStream, b: GlkStream| GlkStream::put_string_rel(a, b, s@)),
                        )
                    }
                }
            },
    {
        match self.default_stream {
            None => Ok(()),
            Some(sid) => self.put_string_stream(sid, s),
        }
    }

    /// write a string to the default stream; every string already holds unicode
    pub fn put_string_uni(&mut self , s: &str) -> (r: Result<(), GlkError>)
        requires
            old(self).wf(),
        ensures
            final(self).wf(),
            old(self).default_stream is None ==> r == Ok::<(), GlkError>(())
                && Self::glk_unchanged(*old(self), *final(self)),
            old(self).default_stream matches Some(sid) ==> {
                &&& old(self).stream_mgr.spec_get(sid) is None ==> r == Err::<(), GlkError>(
                    GlkError::NoSuchStream,
                ) && Self::glk_unchanged(*old(self), *final(self))
                &&& old(self).stream_mgr.spec_get(sid) matches Some(cur) ==> {
                    if !cur.mode.is_write() {
                        r == Err::<(), GlkError>(GlkError::NotWritable) && Self::glk_unchanged(
                            *old(self),
                            *final(self),
                        )
                    } else {
                        r == Ok::<(), GlkError>(()) && Self::stream_write_rel(
                            *old(self),
                            *final(self),
                            sid,
                            (|a: GlkStream, b: GlkStream| GlkStream::put_string_rel(a, b, s@)),
                        )
                    }
                }
            },
    {
        match self.default_stream {
            None => Ok(()),
            Some(sid) => self.put_string_stream(sid, s),
        }
    }

    /// write a byte buffer to the default stream
    pub fn put_buffer(&mut self , buf: &[u8]) -> (r: Result<(), GlkError>)
        requires
            old(self).wf(),
        ensures
            final(self).wf(),
            old(self).default_stream is None ==> r == Ok::<(), GlkError>(())
                && Self::glk_unchanged(*old(self), *final(self)),
            old(self).default_stream matches Some(sid) ==> {
                &&& old(self).stream_mgr.spec_get(sid) is None ==> r == Err::<(), GlkError>(
                    GlkError::NoSuchStream,
                ) && Self::glk_unchanged(*old(self), *final(self))
                &&& old(self).stream_mgr.spec_get(sid) matches Some(cur) ==> {
                    if !cur.mode.is_write() {
                        r == Err::<(), GlkError>(GlkError::NotWritable) && Self::glk_unchanged(
                            *old(self),
                            *final(self),
                        )
                    } else {
                        r == Ok::<(), GlkError>(()) && Self::stream_write_rel(
                            *old(self),
                            *final(self),
                            sid,
                            (|a: GlkStream, b: GlkStream| GlkStream::put_buffer_rel(a, b, buf@)),
                        )
                    }
                }
            },
    {
        match self.default_stream {
            None => Ok(()),
            Some(sid) => self.put_buffer_stream(sid, buf),
        }
    }

    /// write a unicode character to the default stream
    pub fn put_char_uni(&mut self , ch: char) -> (r: Result<(), GlkError>)
        requires
            old(self).wf(),
        ensures
            final(self).wf(),
            old(self).default_stream is None ==> r == Ok::<(), GlkError>(())
                && Self::glk_unchanged(*old(self), *final(self)),
            old(self).default_stream matches Some(sid) ==> {
                &&& old(self).stream_mgr.spec_get(sid) is None ==> r == Err::<(), GlkError>(
                    GlkError::NoSuchStream,
                ) && Self::glk_unchanged(*old(self), *final(self))
                &&& old(self).stream_mgr.spec_get(sid) matches Some(cur) ==> {
                    if !cur.mode.is_write() {
                        r == Err::<(), GlkError>(GlkError::NotWritable) && Self::glk_unchanged(
                            *old(self),
                            *final(self),
                        )
                    } else {
                        r == Ok::<(), GlkError>(()) && Self::stream_write_rel(
                            *old(self),
                            *final(self),
                            sid,
                            (|a: GlkStream, b: GlkStream| GlkStream::put_char_uni_rel(a, b, ch)),
                        )
                    }
                }
            },
    {
        match self.default_stream {
            None => Ok(()),
            Some(sid) => self.put_char_stream_uni(sid, ch),
        }
    }

    /// write a unicode buffer to the default stream
    pub fn put_buffer_uni(&mut self , buf: &[char]) -> (r: Result<(), GlkError>)
        requires
            old(self).wf(),
        ensures
            final(self).wf(),
            old(self).default_stream is None ==> r == Ok::<(), GlkError>(())
                && Self::glk_unchanged(*old(self), *final(self)),
            old(self).default_stream matches Some(sid) ==> {
                &&& old(self).stream_mgr.spec_get(sid) is None ==> r == Err::<(), GlkError>(
                    GlkError::NoSuchStream,
                ) && Self::glk_unchanged(*old(self), *final(self))
                &&& old(self).stream_mgr.spec_get(sid) matches Some(cur) ==> {
                    if !cur.mode.is_write() {
                        r == Err::<(), GlkError>(GlkError::NotWritable) && Self::glk_unchanged(
                            *old(self),
                            *final(self),
                        )
                    } else {
                        r == Ok::<(), GlkError>(()) && Self::stream_write_rel(
                            *old(self),
                            *final(self),
                            sid,
                            (|a: GlkStream, b: GlkStream| GlkStream::put_buffer_uni_rel(a, b, buf@)),
                        )
                    }
                }
            },
    {
        match self.default_stream {
            None => Ok(()),
            Some(sid) => self.put_buffer_stream_uni(sid, buf),
        }
    }
}

} // verus!

verus! {

impl Glk {
    /// Closes a stream. Window streams are only close-able through
    /// window_close. The final read and write counts come back, and for a
    /// memory stream the buffer too; a file stream's bytes are stored
    /// under its file's name. Any window echoing into the closed stream
    /// stops.
    pub fn stream_close(&mut self, streamid: GlkStreamID) -> (r: Option<
        (GlkStreamResult, Option<Vec<u8>>),
    >)
        requires
            old(self).wf(),
        ensures
            final(self).wf(),
            r is None <==> (old(self).stream_mgr.spec_get(streamid) is None || old(
                self,
            ).stream_mgr.spec_get(streamid)->0.backend is Window),
            r is None ==> Self::glk_unchanged(*old(self), *final(self)),
            r matches Some((res, data)) ==> {
                let st = old(self).stream_mgr.spec_get(streamid)->0;
                &&& final(self).event_mgr == old(self).event_mgr
                &&& final(self).default_stream == old(self).default_stream
                &&& res.read_count == st.read_count
                &&& res.write_count == st.write_count
                &&& final(self).stream_mgr.streams@ == old(self).stream_mgr.streams@.update(
                    streamid as int,
                    None,
                )
                &&& (old(self).win_mgr.root is None ==> final(self).win_mgr.root is None)
                &&& (old(self).win_mgr.root matches Some(t) ==> final(self).win_mgr.root
                    == Some(t.spec_clear_echo(streamid)))
                &&& final(self).win_mgr.next_id == old(self).win_mgr.next_id
                &&& match st.backend {
                    StreamBackend::Memory(ms) => data matches Some(buf) && buf@ == ms@
                        && final(self).fileref_mgr == old(self).fileref_mgr,
                    StreamBackend::File { fs, fileref } => {
                        &&& data is None
                        &&& final(self).fileref_mgr.refs@ == old(self).fileref_mgr.refs@
                        &&& (st.mode.is_write() && (fileref as int) < old(
                            self,
                        ).fileref_mgr.refs@.len() ==> {
                            let idx = crate::file_stream::spec_file_index(
                                old(self).fileref_mgr.files@,
                                old(self).fileref_mgr.refs@[fileref as int].name@,
                            );
                            if idx >= 0 {
                                &&& final(self).fileref_mgr.files@.len() == old(
                                    self,
                                ).fileref_mgr.files@.len()
                                &&& final(self).fileref_mgr.files@[idx].data@ == fs@
                            } else {
                                &&& final(self).fileref_mgr.files@.len() == old(
                                    self,
                                ).fileref_mgr.files@.len() + 1
                                &&& final(self).fileref_mgr.files@.last().data@ == fs@
                            }
                        })
                        &&& (!st.mode.is_write() ==> final(self).fileref_mgr == old(
                            self,
                        ).fileref_mgr)
                    },
                    StreamBackend::Window { .. } => false,
                }
            },
    {
        let is_window = match self.stream_mgr.get(streamid) {
            Some(st) => st.is_window_stream(),
            None => {
                return None;
            },
        };
        if is_window {
            return None;
        }
        let st = match self.stream_mgr.close(streamid) {
            Some(st) => st,
            None => {
                proof {
                    assert(false);
                }
                return None;
            },
        };
        let results = st.get_results();
        let out = match st.backend {
            StreamBackend::Memory(ms) => {
                let data = ms.get_data();
                Some((results, Some(data)))
            },
            StreamBackend::File { fs, fileref } => {
                if st.mode.is_write() {
                    let data = fs.get_data();
                    self.fileref_mgr.write_file(fileref, data);
                }
                Some((results, None))
            },
            StreamBackend::Window { .. } => {
                proof {
                    assert(false);
                }
                None
            },
        };
        self.win_mgr.clear_echo_refs(streamid);
        out
    }

    /// Get the position within a stream, an offset from its beginning;
    /// window streams always report zero.
    pub fn stream_get_position(&self, streamid: GlkStreamID) -> (r: Option<u32>)
        ensures
            r == match self.stream_mgr.spec_get(streamid) {
                Some(st) => Some(
                    match st.backend {
                        StreamBackend::Window { .. } => 0u32,
                        StreamBackend::Memory(ms) => ms.spec_cursor() as u32,
                        StreamBackend::File { fs, .. } => fs.spec_cursor() as u32,
                    },
                ),
                None => None::<u32>,
            },
    {
        match self.stream_mgr.get(streamid) {
            Some(st) => Some(st.get_position()),
            None => None,
        }
    }

    /// Sets the position of the next read/write location in the stream;
    /// window streams ignore the call.
    pub fn stream_set_position(
        &mut self,
        streamid: GlkStreamID,
        pos: i32,
        mode: GlkSeekMode,
    ) -> (r: Option<()>)
        requires
            old(self).wf(),
        ensures
            final(self).wf(),
            old(self).stream_mgr.spec_get(streamid) is None ==> r is None
                && Self::glk_unchanged(*old(self), *final(self)),
            old(self).stream_mgr.spec_get(streamid) matches Some(cur) ==> {
                &&& Self::stream_read_frame(*old(self), *final(self), streamid)
                &&& final(self).stream_mgr.spec_get(streamid) matches Some(s2) && {
                    &&& s2.mode == cur.mode
                    &&& s2.rock == cur.rock
                    &&& s2.read_count == cur.read_count
                    &&& s2.write_count == cur.write_count
                    &&& match (cur.backend, s2.backend) {
                        (StreamBackend::Window { .. }, _) => r is Some && s2.backend
                            == cur.backend,
                        (StreamBackend::Memory(m1), StreamBackend::Memory(m2)) => {
                            &&& m2@ == m1@
                            &&& ({
                                let target: int = match mode {
                                    GlkSeekMode::Start => pos as int,
                                    GlkSeekMode::Current => m1.spec_cursor() + pos as int,
                                    GlkSeekMode::End => m1@.len() + pos as int,
                                };
                                if target < 0 || target > m1@.len() {
                                    r is None && m2.spec_cursor() == m1.spec_cursor()
                                } else {
                                    r is Some && m2.spec_cursor() == target
                                }
                            })
                        },
                        (
                            StreamBackend::File { fs: f1, fileref: fr1 },
                            StreamBackend::File { fs: f2, fileref: fr2 },
                        ) => {
                            &&& fr2 == fr1
                            &&& f2@ == f1@
                            &&& f2.spec_append() == f1.spec_append()
                            &&& ({
                                let target: int = match mode {
                                    GlkSeekMode::Start => pos as int,
                                    GlkSeekMode::Current => f1.spec_cursor() + pos as int,
                                    GlkSeekMode::End => f1@.len() + pos as int,
                                };
                                let refused = (mode is Start && pos < 0) || (mode is End
                                    && pos > 0) || target < 0 || target > usize::MAX;
                                if refused {
                                    r is None && f2.spec_cursor() == f1.spec_cursor()
                                } else {
                                    r is Some && f2.spec_cursor() == target
                                }
                            })
                        },
                        _ => false,
                    }
                }
            },
    {
        if (streamid as usize) >= self.stream_mgr.streams.len() {
            return None;
        }
        match &mut self.stream_mgr.streams[streamid as usize] {
            None => {
                proof {
                    assert(self.stream_mgr.streams@ =~= old(self).stream_mgr.streams@);
                }
                None
            },
            Some(stream) => stream.set_position(pos, mode),
        }
    }

    /// Open a memory-based buffer to do stream I/O; the buffer comes back
    /// when the stream closes.
    pub fn stream_open_memory(&mut self, buf: Vec<u8>, file_mode: GlkFileMode, rock: GlkRock)
        -> (r: GlkStreamID)
        requires
            old(self).wf(),
            old(self).stream_mgr.streams@.len() < GlkStreamID::MAX,
        ensures
            final(self).wf(),
            final(self).win_mgr == old(self).win_mgr,
            final(self).event_mgr == old(self).event_mgr,
            final(self).fileref_mgr == old(self).fileref_mgr,
            final(self).default_stream == old(self).default_stream,
            r == old(self).stream_mgr.streams@.len(),
            final(self).stream_mgr.streams@.len() == old(self).stream_mgr.streams@.len() + 1,
            forall|j: int|
                0 <= j < old(self).stream_mgr.streams@.len() ==> final(self).stream_mgr.streams@[j] == old(self).stream_mgr.streams@[j],
            final(self).stream_mgr.spec_get(r) matches Some(st) && {
                &&& st.backend matches StreamBackend::Memory(ms) && ms@ == buf@
                    && ms.spec_cursor() == 0
                &&& st.mode == file_mode
                &&& st.rock == rock
                &&& st.read_count == 0
                &&& st.write_count == 0
            },
    {
        let ms = crate::mem_stream::MemStream::new(buf);
        let stream = GlkStream::new(StreamBackend::Memory(ms), file_mode, rock);
        self.stream_mgr.new_stream(stream)
    }

    /// open a file stream for reading or writing, or both: the file's
    /// stored bytes are loaded, write mode truncates, and append mode
    /// starts at the end. Opening a file that was never stored is allowed
    /// for the modes that create one, and refused for reading.
    pub fn stream_open_file(&mut self, filerefid: GlkFileRef, mode: GlkFileMode, rock: GlkRock)
        -> (r: Option<GlkStreamID>)
        requires
            old(self).wf(),
        ensures
            final(self).wf(),
            final(self).win_mgr == old(self).win_mgr,
            final(self).event_mgr == old(self).event_mgr,
            final(self).fileref_mgr == old(self).fileref_mgr,
            final(self).default_stream == old(self).default_stream,
            r is Some <==> ((filerefid as int) < old(self).fileref_mgr.refs@.len() && old(
                self,
            ).stream_mgr.streams@.len() < GlkStreamID::MAX && (mode == GlkFileMode::Read
                ==> crate::file_stream::spec_file_index(
                old(self).fileref_mgr.files@,
                old(self).fileref_mgr.refs@[filerefid as int].name@,
            ) >= 0)),
            r is None ==> final(self).stream_mgr.streams@ == old(self).stream_mgr.streams@,
            r matches Some(sid) ==> {
                let idx = crate::file_stream::spec_file_index(
                    old(self).fileref_mgr.files@,
                    old(self).fileref_mgr.refs@[filerefid as int].name@,
                );
                let contents = if idx >= 0 {
                    old(self).fileref_mgr.files@[idx].data@
                } else {
                    Seq::<u8>::empty()
                };
                &&& sid == old(self).stream_mgr.streams@.len()
                &&& final(self).stream_mgr.streams@.len() == old(
                    self,
                ).stream_mgr.streams@.len() + 1
                &&& (forall|j: int|
                    0 <= j < old(self).stream_mgr.streams@.len() ==> final(self).stream_mgr.streams@[j] == old(self).stream_mgr.streams@[j])
                &&& final(self).stream_mgr.spec_get(sid) matches Some(st) && {
                    &&& st.backend matches StreamBackend::File { fs, fileref } && {
                        &&& fileref == filerefid
                        &&& (mode == GlkFileMode::Write ==> fs@ == Seq::<u8>::empty())
                        &&& (mode != GlkFileMode::Write ==> fs@ == contents)
                        &&& fs.spec_cursor() == if mode == GlkFileMode::WriteAppend {
                            contents.len() as int
                        } else {
                            0
                        }
                        &&& fs.spec_append() == (mode == GlkFileMode::WriteAppend)
                    }
                    &&& st.mode == mode
                    &&& st.rock == rock
                    &&& st.read_count == 0
                    &&& st.write_count == 0
                }
            },
    {
        if self.stream_mgr.streams.len() >= GlkStreamID::MAX as usize {
            return None;
        }
        if matches!(mode, GlkFileMode::Read) && !self.fileref_mgr.has_file(filerefid) {
            return None;
        }
        let contents = match self.fileref_mgr.read_file(filerefid) {
            Some(c) => c,
            None => {
                return None;
            },
        };
        let fs = FileStream::open(contents, mode);
        let stream = GlkStream::new(
            StreamBackend::File { fs, fileref: filerefid },
            mode,
            rock,
        );
        Some(self.stream_mgr.new_stream(stream))
    }

    /// open a file stream using unicode encoding: reserved, and not yet
    /// offered; every call is refused.
    pub fn stream_open_file_uni(
        &mut self,
        _filerefid: GlkFileRef,
        _mode: GlkFileMode,
        _rock: GlkRock,
    ) -> (r: Option<GlkStreamID>)
        requires
            old(self).wf(),
        ensures
            final(self).wf(),
            r is None,
            *final(self) == *old(self),
    {
        None
    }
}

} // verus!

verus! {

impl Glk {
    /// Everything but the event queue is kept.
    pub open spec fn events_frame(pre: Glk, post: Glk) -> bool {
        &&& post.win_mgr == pre.win_mgr
        &&& post.stream_mgr == pre.stream_mgr
        &&& post.fileref_mgr == pre.fileref_mgr
        &&& post.default_stream == pre.default_stream
    }

    /// Deliver what a finished blocking wait yields at `now_ms`: a queued
    /// event, what the wait received, or a timer event while a timer is
    /// live. The embedding program runs the wait itself: it sleeps on its
    /// channel for at most `event_wait_timeout` milliseconds, then calls
    /// here with whatever arrived.
    pub fn select(&mut self, now_ms: u64, received: Option<GlkEvent>) -> (r: GlkEvent)
        requires
            old(self).wf(),
            received != Some(GlkEvent::NoEvent),
        ensures
            final(self).wf(),
            Self::events_frame(*old(self), *final(self)),
            EventManager::select_rel(
                old(self).event_mgr,
                final(self).event_mgr,
                now_ms as int,
                received,
                r,
            ),
            r == GlkEvent::NoEvent <==> (old(self).event_mgr.pending@.len() == 0
                && received is None && old(self).event_mgr.timer_interval == 0),
    {
        self.event_mgr.select(now_ms, received)
    }

    /// check to see if an event is available at `now_ms`, and return it;
    /// otherwise return `GlkEvent::NoEvent`. Never blocks.
    pub fn select_poll(&mut self, now_ms: u64) -> (r: GlkEvent)
        requires
            old(self).wf(),
        ensures
            final(self).wf(),
            Self::events_frame(*old(self), *final(self)),
            EventManager::pop_rel(
                old(self).event_mgr,
                final(self).event_mgr,
                now_ms as int,
                r,
            ),
    {
        self.event_mgr.pop_event(now_ms)
    }

    /// How long a blocking wait may sleep from `now_ms` before a timer
    /// event is due; `None` means wait for the channel alone.
    pub fn event_wait_timeout(&self, now_ms: u64) -> (r: Option<u64>)
        ensures
            self.event_mgr.timer_interval == 0 ==> r is None,
            self.event_mgr.timer_interval != 0 ==> r == Some(
                if now_ms as int >= self.event_mgr.deadline() {
                    0u64
                } else if self.event_mgr.deadline() - now_ms > u64::MAX {
                    u64::MAX
                } else {
                    (self.event_mgr.deadline() - now_ms) as u64
                },
            ),
    {
        self.event_mgr.wait_timeout(now_ms)
    }

    /// Take delivery of an event from the embedding program's channel; it
    /// queues in arrival order. Only realized events travel the channel,
    /// so `NoEvent` cannot be delivered.
    pub fn deliver_event(&mut self, ev: GlkEvent)
        requires
            old(self).wf(),
            ev != GlkEvent::NoEvent,
        ensures
            final(self).wf(),
            Self::events_frame(*old(self), *final(self)),
            final(self).event_mgr.pending@ == old(self).event_mgr.pending@.push(ev),
            final(self).event_mgr.timer_interval == old(self).event_mgr.timer_interval,
            final(self).event_mgr.last_timer_ms == old(self).event_mgr.last_timer_ms,
            final(self).event_mgr.line_requests == old(self).event_mgr.line_requests,
    {
        self.event_mgr.push_event(ev);
    }

    /// Request a line of Latin-1 characters from a given window: the
    /// request is recorded for the embedding program, which performs the
    /// blocking read and posts one LineInput event for it. A window that
    /// does not exist is refused.
    pub fn request_line_event(&mut self, win: GlkWindowID, buf: &[u8], initlen: usize) -> (r:
        Result<(), GlkError>)
        requires
            old(self).wf(),
        ensures
            final(self).wf(),
            Self::events_frame(*old(self), *final(self)),
            !old(self).win_mgr.has_window(win) ==> r == Err::<(), GlkError>(
                GlkError::NoSuchWindow,
            ) && final(self).event_mgr == old(self).event_mgr,
            old(self).win_mgr.has_window(win) ==> {
                &&& r == Ok::<(), GlkError>(())
                &&& final(self).event_mgr.line_requests@.len() == old(
                    self,
                ).event_mgr.line_requests@.len() + 1
                &&& final(self).event_mgr.line_requests@.last().win == win
                &&& final(self).event_mgr.line_requests@.last().buf matches LineInput::Latin1(
                    b,
                ) && b@ == buf@
                &&& final(self).event_mgr.line_requests@.last().initlen == initlen
                &&& final(self).event_mgr.line_requests@.subrange(
                    0,
                    old(self).event_mgr.line_requests@.len() as int,
                ) == old(self).event_mgr.line_requests@
                &&& final(self).event_mgr.pending@ == old(self).event_mgr.pending@
                &&& final(self).event_mgr.timer_interval == old(self).event_mgr.timer_interval
                &&& final(self).event_mgr.last_timer_ms == old(self).event_mgr.last_timer_ms
            },
    {
        proof {
            if self.win_mgr.root is Some {
                self.win_mgr.root->0.lemma_find_iff_contains(win);
            }
        }
        if self.win_mgr.get_window(win).is_none() {
            return Err(GlkError::NoSuchWindow);
        }
        let mut owned: Vec<u8> = Vec::new();
        owned.extend_from_slice(buf);
        self.event_mgr.queue_line_input_request(win, LineInput::Latin1(owned), initlen);
        Ok(())
    }

    /// request a line of unicode codepoints from a given window; as with
    /// request_line_event, the embedding program performs the read.
    pub fn request_line_event_uni(&mut self, win: GlkWindowID, buf: &[u32], initlen: usize)
        -> (r: Result<(), GlkError>)
        requires
            old(self).wf(),
        ensures
            final(self).wf(),
            Self::events_frame(*old(self), *final(self)),
            !old(self).win_mgr.has_window(win) ==> r == Err::<(), GlkError>(
                GlkError::NoSuchWindow,
            ) && final(self).event_mgr == old(self).event_mgr,
            old(self).win_mgr.has_window(win) ==> {
                &&& r == Ok::<(), GlkError>(())
                &&& final(self).event_mgr.line_requests@.len() == old(
                    self,
                ).event_mgr.line_requests@.len() + 1
                &&& final(self).event_mgr.line_requests@.last().win == win
                &&& final(self).event_mgr.line_requests@.last().buf matches LineInput::Unicode(
                    b,
                ) && b@ == buf@
                &&& final(self).event_mgr.line_requests@.last().initlen == initlen
                &&& final(self).event_mgr.line_requests@.subrange(
                    0,
                    old(self).event_mgr.line_requests@.len() as int,
                ) == old(self).event_mgr.line_requests@
                &&& final(self).event_mgr.pending@ == old(self).event_mgr.pending@
                &&& final(self).event_mgr.timer_interval == old(self).event_mgr.timer_interval
                &&& final(self).event_mgr.last_timer_ms == old(self).event_mgr.last_timer_ms
            },
    {
        proof {
            if self.win_mgr.root is Some {
                self.win_mgr.root->0.lemma_find_iff_contains(win);
            }
        }
        if self.win_mgr.get_window(win).is_none() {
            return Err(GlkError::NoSuchWindow);
        }
        let mut owned: Vec<u32> = Vec::new();
        owned.extend_from_slice(buf);
        self.event_mgr.queue_line_input_request(win, LineInput::Unicode(owned), initlen);
        Ok(())
    }

    /// Hand the outstanding line requests to the embedding program.
    pub fn take_line_requests(&mut self) -> (r: Vec<LineRequest>)
        requires
            old(self).wf(),
        ensures
            final(self).wf(),
            Self::events_frame(*old(self), *final(self)),
            r@ == old(self).event_mgr.line_requests@,
            final(self).event_mgr.line_requests@.len() == 0,
            final(self).event_mgr.pending@ == old(self).event_mgr.pending@,
            final(self).event_mgr.timer_interval == old(self).event_mgr.timer_interval,
            final(self).event_mgr.last_timer_ms == old(self).event_mgr.last_timer_ms,
    {
        self.event_mgr.take_line_requests()
    }

    /// Request a timer event to be sent at fixed intervals, or 0 to turn
    /// the timer off; the tick clock restarts at `now_ms`.
    pub fn request_timer_events(&mut self, millisecs: u32, now_ms: u64)
        requires
            old(self).wf(),
        ensures
            final(self).wf(),
            Self::events_frame(*old(self), *final(self)),
            final(self).event_mgr.timer_interval == millisecs,
            final(self).event_mgr.last_timer_ms == now_ms,
            final(self).event_mgr.pending@ == old(self).event_mgr.pending@,
            final(self).event_mgr.line_requests == old(self).event_mgr.line_requests,
    {
        self.event_mgr.set_timer(millisecs, now_ms)
    }
}

} // verus!
