//! Values that the player reports in payloads.

use crate::json::{
    json_string, json_text, lemma_escaped_plain, push_json_string, DataError, FromJson, Json, ToJson,
};
use crate::text::{decimal, push_decimal, push_str, str_eq, utf8};
use vstd::prelude::*;

verus! {

/// What the player answers when it has queued a file.
#[derive(Debug, PartialEq, Eq)]
pub struct FileloadInfo {
    pub playlist_entry_id: i64,
}

impl FromJson for FileloadInfo {
    open spec fn decoded(data: Option<Json>) -> Result<FileloadInfo, DataError> {
        match data {
            Some(Json::Null) | None => Err(DataError::Missing),
            Some(json) => match json.member_value_of("playlist_entry_id"@) {
                Some(value) => match value.integer_of() {
                    Some(id) => Ok(FileloadInfo { playlist_entry_id: id }),
                    None => Err(DataError::Mismatch),
                },
                None => Err(DataError::Mismatch),
            },
        }
    }

    fn from_json(data: Option<Json>) -> (r: Result<FileloadInfo, DataError>) {
        match data {
            Some(Json::Null) | None => Err(DataError::Missing),
            Some(json) => match json.member_value("playlist_entry_id") {
                Some(value) => match value.as_i64() {
                    Some(id) => Ok(FileloadInfo { playlist_entry_id: id }),
                    None => Err(DataError::Mismatch),
                },
                None => Err(DataError::Mismatch),
            },
        }
    }
}

/// The forms in which the player writes a track id.
#[derive(Debug, Clone, Copy, PartialEq, Eq)]
pub enum TrackIdRepr {
    Index(u32),
    Bool(bool),
    Str(TrackIdReprStr),
}

/// The words that the player uses for a track id.
#[derive(Debug, Clone, Copy, PartialEq, Eq)]
pub enum TrackIdReprStr {
    Auto,
    No,
}

/// The choice of a track: one by its index, the player's own choice, or no track.
#[derive(Debug, Clone, Copy, PartialEq, Eq)]
pub enum TrackId {
    Index(u32),
    Auto,
    Off,
}

impl Default for TrackId {
    fn default() -> (r: Self)
        ensures
            r == TrackId::Auto,
    {
        TrackId::Auto
    }
}

impl From<TrackId> for TrackIdRepr {
    fn from(id: TrackId) -> (r: Self) {
        match id {
            TrackId::Index(index) => TrackIdRepr::Index(index),
            TrackId::Auto => TrackIdRepr::Str(TrackIdReprStr::Auto),
            TrackId::Off => TrackIdRepr::Bool(false),
        }
    }
}

impl vstd::std_specs::convert::FromSpecImpl<TrackId> for TrackIdRepr {
    open spec fn obeys_from_spec() -> bool {
        true
    }

    open spec fn from_spec(id: TrackId) -> Self {
        match id {
            TrackId::Index(index) => TrackIdRepr::Index(index),
            TrackId::Auto => TrackIdRepr::Str(TrackIdReprStr::Auto),
            TrackId::Off => TrackIdRepr::Bool(false),
        }
    }
}

impl From<TrackIdRepr> for TrackId {
    fn from(repr: TrackIdRepr) -> (r: Self) {
        match repr {
            TrackIdRepr::Index(index) => TrackId::Index(index),
            TrackIdRepr::Bool(false) => TrackId::Off,
            _ => TrackId::Auto,
        }
    }
}

impl vstd::std_specs::convert::FromSpecImpl<TrackIdRepr> for TrackId {
    open spec fn obeys_from_spec() -> bool {
        true
    }

    open spec fn from_spec(repr: TrackIdRepr) -> Self {
        match repr {
            TrackIdRepr::Index(index) => TrackId::Index(index),
            TrackIdRepr::Bool(false) => TrackId::Off,
            _ => TrackId::Auto,
        }
    }
}

impl FromJson for TrackIdRepr {
    open spec fn decoded(data: Option<Json>) -> Result<TrackIdRepr, DataError> {
        match data {
            Some(Json::Null) | None => Err(DataError::Missing),
            Some(Json::Number(text)) => match Json::Number(text).u32_of() {
                Some(index) => Ok(TrackIdRepr::Index(index)),
                None => Err(DataError::Mismatch),
            },
            Some(Json::Bool(b)) => Ok(TrackIdRepr::Bool(b)),
            Some(Json::Text(word)) => if word@ == "auto"@ {
                Ok(TrackIdRepr::Str(TrackIdReprStr::Auto))
            } else if word@ == "no"@ {
                Ok(TrackIdRepr::Str(TrackIdReprStr::No))
            } else {
                Err(DataError::Mismatch)
            },
            Some(_) => Err(DataError::Mismatch),
        }
    }

    fn from_json(data: Option<Json>) -> (r: Result<TrackIdRepr, DataError>) {
        match data {
            Some(Json::Null) | None => Err(DataError::Missing),
            Some(Json::Number(text)) => match Json::Number(text).as_u32() {
                Some(index) => Ok(TrackIdRepr::Index(index)),
                None => Err(DataError::Mismatch),
            },
            Some(Json::Bool(b)) => Ok(TrackIdRepr::Bool(b)),
            Some(Json::Text(word)) => if str_eq(word.as_str(), "auto") {
                Ok(TrackIdRepr::Str(TrackIdReprStr::Auto))
            } else if str_eq(word.as_str(), "no") {
                Ok(TrackIdRepr::Str(TrackIdReprStr::No))
            } else {
                Err(DataError::Mismatch)
            },
            Some(_) => Err(DataError::Mismatch),
        }
    }
}

impl ToJson for TrackIdRepr {
    open spec fn encoded(&self) -> Seq<u8> {
        match *self {
            TrackIdRepr::Index(index) => decimal(index as int),
            TrackIdRepr::Bool(b) => json_text(Json::Bool(b)),
            TrackIdRepr::Str(TrackIdReprStr::Auto) => json_string("auto"@),
            TrackIdRepr::Str(TrackIdReprStr::No) => json_string("no"@),
        }
    }

    fn write_json(&self, out: &mut Vec<u8>) {
        match *self {
            TrackIdRepr::Index(index) => push_decimal(out, index as i64),
            TrackIdRepr::Bool(b) => if b {
                push_str(out, "true")
            } else {
                push_str(out, "false")
            },
            TrackIdRepr::Str(TrackIdReprStr::Auto) => push_json_string(out, "auto"),
            TrackIdRepr::Str(TrackIdReprStr::No) => push_json_string(out, "no"),
        }
    }
}

impl FromJson for TrackId {
    open spec fn decoded(data: Option<Json>) -> Result<TrackId, DataError> {
        match <TrackIdRepr as FromJson>::decoded(data) {
            Ok(repr) => Ok(<TrackId as vstd::std_specs::convert::FromSpec<TrackIdRepr>>::from_spec(repr)),
            Err(e) => Err(e),
        }
    }

    fn from_json(data: Option<Json>) -> (r: Result<TrackId, DataError>) {
        match TrackIdRepr::from_json(data) {
            Ok(repr) => Ok(TrackId::from(repr)),
            Err(e) => Err(e),
        }
    }
}

impl ToJson for TrackId {
    open spec fn encoded(&self) -> Seq<u8> {
        <TrackIdRepr as vstd::std_specs::convert::FromSpec<TrackId>>::from_spec(*self).encoded()
    }

    fn write_json(&self, out: &mut Vec<u8>) {
        TrackIdRepr::from(*self).write_json(out)
    }
}

/// Turned into its wire form and back, a track id is what it was.
pub proof fn lemma_track_id_round_trip(id: TrackId)
    ensures
        <TrackId as vstd::std_specs::convert::FromSpec<TrackIdRepr>>::from_spec(
            <TrackIdRepr as vstd::std_specs::convert::FromSpec<TrackId>>::from_spec(id),
        ) == id,
{
}

/// The words of a track id as they stand on the wire: `"auto"` and `"no"`.
pub proof fn lemma_words_on_the_wire()
    ensures
        json_string("auto"@) == seq![34u8, 97u8, 117u8, 116u8, 111u8, 34u8],
        json_string("no"@) == seq![34u8, 110u8, 111u8, 34u8],
{
    reveal_strlit("auto");
    reveal_strlit("no");
    let auto = "auto"@;
    let no = "no"@;
    assert(vstd::utf8::is_ascii_chars(auto));
    assert(vstd::utf8::is_ascii_chars(no));
    vstd::utf8::is_ascii_chars_encode_utf8(auto);
    vstd::utf8::is_ascii_chars_encode_utf8(no);
    assert(utf8(auto) =~= seq![97u8, 117u8, 116u8, 111u8]);
    assert(utf8(no) =~= seq![110u8, 111u8]);
    lemma_escaped_plain(seq![97u8, 117u8, 116u8, 111u8]);
    lemma_escaped_plain(seq![110u8, 111u8]);
    assert(json_string(auto) =~= seq![34u8, 97u8, 117u8, 116u8, 111u8, 34u8]);
    assert(json_string(no) =~= seq![34u8, 110u8, 111u8, 34u8]);
}

} // verus!
