//! Properties of the player: their names and the shapes of their values.

use crate::json::{
    json_string, lemma_escaped_plain, push_json_string, DataError, FromJson, Json, Number, ToJson,
};
use crate::text::{decimal, push_decimal, str_eq, utf8, AsText};
use std::borrow::Cow;
use vstd::prelude::*;

verus! {

/// A property: its name on the wire, and the type of its value.
pub trait MpvProperty {
    type Value: FromJson + ToJson;

    /// The property's name on the wire.
    spec fn property_name(&self) -> Seq<char>;

    /// The property's name on the wire.
    fn name(&self) -> (r: &str)
        ensures
            r@ == self.property_name(),
    ;
}

/// A property given by its name only, as owned text; its value is any JSON
/// value.
impl MpvProperty for String {
    type Value = Json;

    open spec fn property_name(&self) -> Seq<char> {
        self.text()
    }

    fn name(&self) -> (r: &str) {
        self.as_text()
    }
}

/// A property given by its name only, as borrowed text; its value is any JSON
/// value.
impl<'a> MpvProperty for &'a str {
    type Value = Json;

    open spec fn property_name(&self) -> Seq<char> {
        self.text()
    }

    fn name(&self) -> (r: &str) {
        self.as_text()
    }
}

/// A property given by its name only, as text that is borrowed or owned; its
/// value is any JSON value.
impl<'a> MpvProperty for Cow<'a, str> {
    type Value = Json;

    open spec fn property_name(&self) -> Seq<char> {
        self.text()
    }

    fn name(&self) -> (r: &str) {
        self.as_text()
    }
}

/// A track id as a property's value: an index, or a word.
#[derive(Debug, Clone, Copy, PartialEq, Eq)]
pub enum TrackId {
    Index(u32),
    Str(TrackIdStr),
}

/// The words that stand for a track id.
#[derive(Debug, Clone, Copy, PartialEq, Eq)]
pub enum TrackIdStr {
    Auto,
    /// Any other word.
    Unknown,
}

impl FromJson for TrackId {
    open spec fn decoded(data: Option<Json>) -> Result<TrackId, DataError> {
        match data {
            Some(Json::Null) | None => Err(DataError::Missing),
            Some(Json::Number(text)) => match Json::Number(text).u32_of() {
                Some(index) => Ok(TrackId::Index(index)),
                None => Err(DataError::Mismatch),
            },
            Some(Json::Text(word)) => if word@ == "auto"@ {
                Ok(TrackId::Str(TrackIdStr::Auto))
            } else {
                Ok(TrackId::Str(TrackIdStr::Unknown))
            },
            Some(_) => Err(DataError::Mismatch),
        }
    }

    fn from_json(data: Option<Json>) -> (r: Result<TrackId, DataError>) {
        match data {
            Some(Json::Null) | None => Err(DataError::Missing),
            Some(Json::Number(text)) => match Json::Number(text).as_u32() {
                Some(index) => Ok(TrackId::Index(index)),
                None => Err(DataError::Mismatch),
            },
            Some(Json::Text(word)) => if str_eq(word.as_str(), "auto") {
                Ok(TrackId::Str(TrackIdStr::Auto))
            } else {
                Ok(TrackId::Str(TrackIdStr::Unknown))
            },
            Some(_) => Err(DataError::Mismatch),
        }
    }
}

impl ToJson for TrackId {
    open spec fn encoded(&self) -> Seq<u8> {
        match *self {
            TrackId::Index(index) => decimal(index as int),
            TrackId::Str(TrackIdStr::Auto) => json_string("auto"@),
            TrackId::Str(TrackIdStr::Unknown) => json_string("Unknown"@),
        }
    }

    fn write_json(&self, out: &mut Vec<u8>) {
        match *self {
            TrackId::Index(index) => push_decimal(out, index as i64),
            TrackId::Str(TrackIdStr::Auto) => push_json_string(out, "auto"),
            TrackId::Str(TrackIdStr::Unknown) => push_json_string(out, "Unknown"),
        }
    }
}

/// The words of a track id as they stand on the wire: `"auto"` and
/// `"Unknown"`.
pub proof fn lemma_track_id_words_on_the_wire()
    ensures
        json_string("auto"@) == seq![34u8, 97u8, 117u8, 116u8, 111u8, 34u8],
        json_string("Unknown"@) == seq![
            34u8,
            85u8,
            110u8,
            107u8,
            110u8,
            111u8,
            119u8,
            110u8,
            34u8,
        ],
{
    reveal_strlit("auto");
    reveal_strlit("Unknown");
    let auto = "auto"@;
    let unknown = "Unknown"@;
    assert(vstd::utf8::is_ascii_chars(auto));
    assert(vstd::utf8::is_ascii_chars(unknown));
    vstd::utf8::is_ascii_chars_encode_utf8(auto);
    vstd::utf8::is_ascii_chars_encode_utf8(unknown);
    assert(utf8(auto) =~= seq![97u8, 117u8, 116u8, 111u8]);
    assert(utf8(unknown) =~= seq![85u8, 110u8, 107u8, 110u8, 111u8, 119u8, 110u8]);
    lemma_escaped_plain(seq![97u8, 117u8, 116u8, 111u8]);
    lemma_escaped_plain(seq![85u8, 110u8, 107u8, 110u8, 111u8, 119u8, 110u8]);
    assert(json_string(auto) =~= seq![34u8, 97u8, 117u8, 116u8, 111u8, 34u8]);
    assert(json_string(unknown) =~= seq![
        34u8,
        85u8,
        110u8,
        107u8,
        110u8,
        111u8,
        119u8,
        110u8,
        34u8,
    ]);
}

/// The properties that have a type of their own here.
#[derive(Debug, Clone, Copy, PartialEq, Eq, Structural)]
pub enum KnownMpvProperty {
    Volume,
    PercentPos,
    TimePos,
    Path,
    WorkingDirectory,
    MediaTitle,
    Filename,
    Aid,
    Vid,
    Sid,
    Fullscreen,
    Pause,
}

impl KnownMpvProperty {
    /// The property's name on the wire.
    pub open spec fn wire_name(self) -> Seq<char> {
        match self {
            KnownMpvProperty::Volume => "volume"@,
            KnownMpvProperty::PercentPos => "percent-pos"@,
            KnownMpvProperty::TimePos => "time-pos"@,
            KnownMpvProperty::Path => "path"@,
            KnownMpvProperty::WorkingDirectory => "working-directory"@,
            KnownMpvProperty::MediaTitle => "media-title"@,
            KnownMpvProperty::Filename => "filename"@,
            KnownMpvProperty::Aid => "aid"@,
            KnownMpvProperty::Vid => "vid"@,
            KnownMpvProperty::Sid => "sid"@,
            KnownMpvProperty::Fullscreen => "fullscreen"@,
            KnownMpvProperty::Pause => "pause"@,
        }
    }

    /// The property that has `name` on the wire.
    pub open spec fn named(name: Seq<char>) -> Option<KnownMpvProperty> {
        if name == "volume"@ {
            Some(KnownMpvProperty::Volume)
        } else if name == "percent-pos"@ {
            Some(KnownMpvProperty::PercentPos)
        } else if name == "time-pos"@ {
            Some(KnownMpvProperty::TimePos)
        } else if name == "path"@ {
            Some(KnownMpvProperty::Path)
        } else if name == "working-directory"@ {
            Some(KnownMpvProperty::WorkingDirectory)
        } else if name == "media-title"@ {
            Some(KnownMpvProperty::MediaTitle)
        } else if name == "filename"@ {
            Some(KnownMpvProperty::Filename)
        } else if name == "aid"@ {
            Some(KnownMpvProperty::Aid)
        } else if name == "vid"@ {
            Some(KnownMpvProperty::Vid)
        } else if name == "sid"@ {
            Some(KnownMpvProperty::Sid)
        } else if name == "fullscreen"@ {
            Some(KnownMpvProperty::Fullscreen)
        } else if name == "pause"@ {
            Some(KnownMpvProperty::Pause)
        } else {
            None
        }
    }

    /// Finds the property that has `name` on the wire.
    pub fn from_name(name: &str) -> (r: Option<KnownMpvProperty>)
        ensures
            r == Self::named(name@),
    {
        if str_eq(name, "volume") {
            Some(KnownMpvProperty::Volume)
        } else if str_eq(name, "percent-pos") {
            Some(KnownMpvProperty::PercentPos)
        } else if str_eq(name, "time-pos") {
            Some(KnownMpvProperty::TimePos)
        } else if str_eq(name, "path") {
            Some(KnownMpvProperty::Path)
        } else if str_eq(name, "working-directory") {
            Some(KnownMpvProperty::WorkingDirectory)
        } else if str_eq(name, "media-title") {
            Some(KnownMpvProperty::MediaTitle)
        } else if str_eq(name, "filename") {
            Some(KnownMpvProperty::Filename)
        } else if str_eq(name, "aid") {
            Some(KnownMpvProperty::Aid)
        } else if str_eq(name, "vid") {
            Some(KnownMpvProperty::Vid)
        } else if str_eq(name, "sid") {
            Some(KnownMpvProperty::Sid)
        } else if str_eq(name, "fullscreen") {
            Some(KnownMpvProperty::Fullscreen)
        } else if str_eq(name, "pause") {
            Some(KnownMpvProperty::Pause)
        } else {
            None
        }
    }

    /// The property's name on the wire.
    pub fn property_name(&self) -> (r: &'static str)
        ensures
            r@ == self.wire_name(),
    {
        match self {
            KnownMpvProperty::Volume => "volume",
            KnownMpvProperty::PercentPos => "percent-pos",
            KnownMpvProperty::TimePos => "time-pos",
            KnownMpvProperty::Path => "path",
            KnownMpvProperty::WorkingDirectory => "working-directory",
            KnownMpvProperty::MediaTitle => "media-title",
            KnownMpvProperty::Filename => "filename",
            KnownMpvProperty::Aid => "aid",
            KnownMpvProperty::Vid => "vid",
            KnownMpvProperty::Sid => "sid",
            KnownMpvProperty::Fullscreen => "fullscreen",
            KnownMpvProperty::Pause => "pause",
        }
    }
}

pub struct Volume;

impl MpvProperty for Volume {
    type Value = Number;

    open spec fn property_name(&self) -> Seq<char> {
        "volume"@
    }

    fn name(&self) -> (r: &str) {
        "volume"
    }
}

pub struct PercentPos;

impl MpvProperty for PercentPos {
    type Value = Number;

    open spec fn property_name(&self) -> Seq<char> {
        "percent-pos"@
    }

    fn name(&self) -> (r: &str) {
        "percent-pos"
    }
}

pub struct TimePos;

impl MpvProperty for TimePos {
    type Value = Number;

    open spec fn property_name(&self) -> Seq<char> {
        "time-pos"@
    }

    fn name(&self) -> (r: &str) {
        "time-pos"
    }
}

pub struct Path;

impl MpvProperty for Path {
    type Value = String;

    open spec fn property_name(&self) -> Seq<char> {
        "path"@
    }

    fn name(&self) -> (r: &str) {
        "path"
    }
}

pub struct WorkingDirectory;

impl MpvProperty for WorkingDirectory {
    type Value = String;

    open spec fn property_name(&self) -> Seq<char> {
        "working-directory"@
    }

    fn name(&self) -> (r: &str) {
        "working-directory"
    }
}

pub struct MediaTitle;

impl MpvProperty for MediaTitle {
    type Value = String;

    open spec fn property_name(&self) -> Seq<char> {
        "media-title"@
    }

    fn name(&self) -> (r: &str) {
        "media-title"
    }
}

pub struct Filename;

impl MpvProperty for Filename {
    type Value = String;

    open spec fn property_name(&self) -> Seq<char> {
        "filename"@
    }

    fn name(&self) -> (r: &str) {
        "filename"
    }
}

pub struct Aid;

impl MpvProperty for Aid {
    type Value = TrackId;

    open spec fn property_name(&self) -> Seq<char> {
        "aid"@
    }

    fn name(&self) -> (r: &str) {
        "aid"
    }
}

pub struct Vid;

impl MpvProperty for Vid {
    type Value = TrackId;

    open spec fn property_name(&self) -> Seq<char> {
        "vid"@
    }

    fn name(&self) -> (r: &str) {
        "vid"
    }
}

pub struct Sid;

impl MpvProperty for Sid {
    type Value = TrackId;

    open spec fn property_name(&self) -> Seq<char> {
        "sid"@
    }

    fn name(&self) -> (r: &str) {
        "sid"
    }
}

pub struct Fullscreen;

impl MpvProperty for Fullscreen {
    type Value = bool;

    open spec fn property_name(&self) -> Seq<char> {
        "fullscreen"@
    }

    fn name(&self) -> (r: &str) {
        "fullscreen"
    }
}

pub struct Pause;

impl MpvProperty for Pause {
    type Value = bool;

    open spec fn property_name(&self) -> Seq<char> {
        "pause"@
    }

    fn name(&self) -> (r: &str) {
        "pause"
    }
}

} // verus!
