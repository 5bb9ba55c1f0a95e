//! The commands that have a type of their own.

use super::property::MpvProperty;
use super::{MpvCommand, MpvCommandRaw};
use crate::json::{DataError, FromJson, Json, Number, ToJson};
use crate::model::FileloadInfo;
use crate::text::{decimal, push_decimal, push_str, utf8, AsText};
use std::borrow::Cow;
use vstd::prelude::*;

verus! {

/// What an answer without a payload is read as: nothing, where there is no
/// payload or it is `null`.
pub open spec fn no_payload(data: Option<Json>) -> Result<Option<()>, DataError> {
    match data {
        None | Some(Json::Null) => Ok(None),
        Some(_) => Err(DataError::Mismatch),
    }
}

/// Reads an answer that carries no payload.
pub fn parse_no_payload(data: Option<Json>) -> (r: Result<Option<()>, DataError>)
    ensures
        r == no_payload(data),
{
    match data {
        None | Some(Json::Null) => Ok(None),
        Some(_) => Err(DataError::Mismatch),
    }
}

/// A command in the player's text form, sent as it is.
pub struct CmdRawText<S: AsText>(S);

impl<S: AsText> CmdRawText<S> {
    pub fn new(text: S) -> (r: Self)
        ensures
            r.text() == text.text(),
    {
        Self(text)
    }

    /// The text of the command.
    pub closed spec fn text(&self) -> Seq<char> {
        self.0.text()
    }
}

impl<S: AsText> MpvCommandRaw for CmdRawText<S> {
    open spec fn frame(&self, request_id: Option<i64>) -> Seq<u8> {
        utf8(self.text())
    }

    fn write(&self, w: &mut Vec<u8>, request_id: Option<i64>) {
        push_str(w, self.0.as_text());
    }
}

/// A JSON command of which the items of the command array are given as text.
pub struct CmdRawJsonArgs<S: AsText>(S);

impl<S: AsText> CmdRawJsonArgs<S> {
    pub fn new(text: S) -> (r: Self)
        ensures
            r.text() == text.text(),
    {
        Self(text)
    }

    /// The items of the command array.
    pub closed spec fn text(&self) -> Seq<char> {
        self.0.text()
    }
}

impl<S: AsText> MpvCommand for CmdRawJsonArgs<S> {
    type ParsedData = Json;

    type Error = DataError;

    open spec fn args(&self) -> Seq<u8> {
        utf8(self.text())
    }

    fn write_args(&self, w: &mut Vec<u8>) {
        push_str(w, self.0.as_text());
    }

    open spec fn parsed(&self, data: Option<Json>) -> Result<Json, DataError> {
        match data {
            None => Ok(Json::Null),
            Some(value) => Ok(value),
        }
    }

    fn parse_data(&self, data: Option<Json>) -> (r: Result<Json, DataError>) {
        let value = match data {
            None => Json::Null,
            Some(value) => value,
        };
        Ok(value)
    }
}

/// Asks for the version of the client API.
pub struct CmdGetVersion(());

impl CmdGetVersion {
    pub fn new() -> Self {
        CmdGetVersion(())
    }

    /// The major and the minor version that the number `data` holds: its upper
    /// and its lower 16 bits.
    pub open spec fn version_of(data: u32) -> (u16, u16) {
        ((data / 0x1_0000) as u16, (data % 0x1_0000) as u16)
    }

    /// Splits the version number into major and minor version.
    pub fn split_version(data: u32) -> (r: (u16, u16))
        ensures
            r == Self::version_of(data),
    {
        let major: u32 = (data >> 16) & 0xFFFF;
        let minor: u32 = data & 0xFFFF;
        assert((data >> 16) & 0xFFFF == data / 0x1_0000) by (bit_vector);
        assert(data & 0xFFFF == data % 0x1_0000) by (bit_vector);
        (major as u16, minor as u16)
    }
}

impl MpvCommand for CmdGetVersion {
    type ParsedData = (u16, u16);

    type Error = DataError;

    open spec fn args(&self) -> Seq<u8> {
        utf8("\"get_version\""@)
    }

    fn write_args(&self, w: &mut Vec<u8>) {
        push_str(w, "\"get_version\"");
    }

    open spec fn parsed(&self, data: Option<Json>) -> Result<(u16, u16), DataError> {
        match data {
            None | Some(Json::Null) => Err(DataError::Missing),
            Some(value) => match value.u32_of() {
                Some(version) => Ok(Self::version_of(version)),
                None => Err(DataError::Mismatch),
            },
        }
    }

    fn parse_data(&self, data: Option<Json>) -> (r: Result<(u16, u16), DataError>) {
        match data {
            None | Some(Json::Null) => Err(DataError::Missing),
            Some(value) => match value.as_u32() {
                Some(version) => Ok(Self::split_version(version)),
                None => Err(DataError::Mismatch),
            },
        }
    }
}

/// Asks for the value of a property.
pub struct CmdGetProperty<P: MpvProperty>(pub P);

impl<P: MpvProperty> CmdGetProperty<P> {
    pub fn new(property: P) -> (r: Self)
        ensures
            r.0 == property,
    {
        CmdGetProperty(property)
    }
}

impl<P: MpvProperty> MpvCommand for CmdGetProperty<P> {
    type ParsedData = P::Value;

    type Error = DataError;

    open spec fn args(&self) -> Seq<u8> {
        utf8("\"get_property\",\""@) + utf8(self.0.property_name()) + utf8("\""@)
    }

    fn write_args(&self, w: &mut Vec<u8>) {
        push_str(w, "\"get_property\",\"");
        push_str(w, self.0.name());
        push_str(w, "\"");
    }

    open spec fn parsed(&self, data: Option<Json>) -> Result<P::Value, DataError> {
        <P::Value as FromJson>::decoded(data)
    }

    fn parse_data(&self, data: Option<Json>) -> (r: Result<P::Value, DataError>) {
        <P::Value as FromJson>::from_json(data)
    }
}

/// Gives a property a new value.
pub struct CmdSetProperty<P: MpvProperty>(pub P, pub P::Value);

impl<P: MpvProperty> CmdSetProperty<P> {
    pub fn new(property: P, value: P::Value) -> (r: Self)
        ensures
            r.0 == property,
            r.1 == value,
    {
        CmdSetProperty(property, value)
    }
}

impl<P: MpvProperty> MpvCommand for CmdSetProperty<P> {
    type ParsedData = Option<()>;

    type Error = DataError;

    open spec fn args(&self) -> Seq<u8> {
        utf8("\"set_property\",\""@) + utf8(self.0.property_name()) + utf8("\","@)
            + self.1.encoded()
    }

    fn write_args(&self, w: &mut Vec<u8>) {
        push_str(w, "\"set_property\",\"");
        push_str(w, self.0.name());
        push_str(w, "\",");
        self.1.write_json(w);
    }

    open spec fn parsed(&self, data: Option<Json>) -> Result<Option<()>, DataError> {
        no_payload(data)
    }

    fn parse_data(&self, data: Option<Json>) -> (r: Result<Option<()>, DataError>) {
        parse_no_payload(data)
    }
}

/// Moves a property to its next value, or with `down` to the one before.
pub struct CmdCycleProperty<P: MpvProperty>(pub P, pub bool);

impl<P: MpvProperty> CmdCycleProperty<P> {
    pub fn new(property: P, down: bool) -> (r: Self)
        ensures
            r.0 == property,
            r.1 == down,
    {
        CmdCycleProperty(property, down)
    }
}

impl<P: MpvProperty> MpvCommand for CmdCycleProperty<P> {
    type ParsedData = Option<()>;

    type Error = DataError;

    open spec fn args(&self) -> Seq<u8> {
        utf8("\"cycle\",\""@) + utf8(self.0.property_name()) + utf8("\",\""@) + utf8(
            if self.1 {
                "down"@
            } else {
                "up"@
            },
        ) + utf8("\""@)
    }

    fn write_args(&self, w: &mut Vec<u8>) {
        let direction = match self.1 {
            false => "up",
            true => "down",
        };
        push_str(w, "\"cycle\",\"");
        push_str(w, self.0.name());
        push_str(w, "\",\"");
        push_str(w, direction);
        push_str(w, "\"");
    }

    open spec fn parsed(&self, data: Option<Json>) -> Result<Option<()>, DataError> {
        no_payload(data)
    }

    fn parse_data(&self, data: Option<Json>) -> (r: Result<Option<()>, DataError>) {
        parse_no_payload(data)
    }
}

/// Asks for an event whenever a property changes; the events carry the
/// observer's id.
pub struct CmdObserveProperty<P: MpvProperty>(pub u32, pub P);

impl<P: MpvProperty> CmdObserveProperty<P> {
    pub fn new(observer_id: u32, property: P) -> (r: Self)
        ensures
            r.0 == observer_id,
            r.1 == property,
    {
        CmdObserveProperty(observer_id, property)
    }
}

impl<P: MpvProperty> MpvCommand for CmdObserveProperty<P> {
    type ParsedData = Option<()>;

    type Error = DataError;

    open spec fn args(&self) -> Seq<u8> {
        utf8("\"observe_property\","@) + decimal(self.0 as int) + utf8(",\""@) + utf8(
            self.1.property_name(),
        ) + utf8("\""@)
    }

    fn write_args(&self, w: &mut Vec<u8>) {
        push_str(w, "\"observe_property\",");
        push_decimal(w, self.0 as i64);
        push_str(w, ",\"");
        push_str(w, self.1.name());
        push_str(w, "\"");
    }

    open spec fn parsed(&self, data: Option<Json>) -> Result<Option<()>, DataError> {
        no_payload(data)
    }

    fn parse_data(&self, data: Option<Json>) -> (r: Result<Option<()>, DataError>) {
        parse_no_payload(data)
    }
}

/// Ends the events of an observer.
pub struct CmdUnobserveProperty(pub u32);

impl CmdUnobserveProperty {
    pub fn new(observer_id: u32) -> (r: Self)
        ensures
            r.0 == observer_id,
    {
        CmdUnobserveProperty(observer_id)
    }
}

impl MpvCommand for CmdUnobserveProperty {
    type ParsedData = Option<()>;

    type Error = DataError;

    open spec fn args(&self) -> Seq<u8> {
        utf8("\"unobserve_property\","@) + decimal(self.0 as int)
    }

    fn write_args(&self, w: &mut Vec<u8>) {
        push_str(w, "\"unobserve_property\",");
        push_decimal(w, self.0 as i64);
    }

    open spec fn parsed(&self, data: Option<Json>) -> Result<Option<()>, DataError> {
        no_payload(data)
    }

    fn parse_data(&self, data: Option<Json>) -> (r: Result<Option<()>, DataError>) {
        parse_no_payload(data)
    }
}

/// Loads a file and plays it.
pub struct CmdLoadfile<'a>(Cow<'a, str>);

impl<'a> CmdLoadfile<'a> {
    pub fn new(file_path: Cow<'a, str>) -> (r: Self)
        ensures
            r.file_path() == file_path.text(),
    {
        CmdLoadfile(file_path)
    }

    /// The path of the file.
    pub closed spec fn file_path(&self) -> Seq<char> {
        self.0.text()
    }
}

impl<'a> MpvCommand for CmdLoadfile<'a> {
    type ParsedData = FileloadInfo;

    type Error = DataError;

    open spec fn args(&self) -> Seq<u8> {
        utf8("\"loadfile\",\""@) + utf8(self.file_path()) + utf8("\""@)
    }

    fn write_args(&self, w: &mut Vec<u8>) {
        push_str(w, "\"loadfile\",\"");
        push_str(w, self.0.as_text());
        push_str(w, "\"");
    }

    open spec fn parsed(&self, data: Option<Json>) -> Result<FileloadInfo, DataError> {
        <FileloadInfo as FromJson>::decoded(data)
    }

    fn parse_data(&self, data: Option<Json>) -> (r: Result<FileloadInfo, DataError>) {
        FileloadInfo::from_json(data)
    }
}

/// Stops playback, and clears the playlist unless told to keep it.
pub struct CmdStop(pub bool);

impl CmdStop {
    pub fn new(keep_playlist: bool) -> (r: Self)
        ensures
            r.0 == keep_playlist,
    {
        CmdStop(keep_playlist)
    }
}

impl MpvCommand for CmdStop {
    type ParsedData = Option<()>;

    type Error = DataError;

    open spec fn args(&self) -> Seq<u8> {
        if self.0 {
            utf8("\"stop\",\"keep-playlist\""@)
        } else {
            utf8("\"stop\""@)
        }
    }

    fn write_args(&self, w: &mut Vec<u8>) {
        if self.0 {
            push_str(w, "\"stop\",\"keep-playlist\"")
        } else {
            push_str(w, "\"stop\"")
        }
    }

    open spec fn parsed(&self, data: Option<Json>) -> Result<Option<()>, DataError> {
        no_payload(data)
    }

    fn parse_data(&self, data: Option<Json>) -> (r: Result<Option<()>, DataError>) {
        parse_no_payload(data)
    }
}

/// Where a seek goes: to a time or to a position in percent, counted from the
/// start or from where the player is. The number is kept as its JSON text.
enum CmdSeekInner {
    AbsoluteTime(Number),
    AbsolutePercent(Number),
    RelativeTime(Number),
    RelativePercent(Number),
}

/// Moves the playback position.
pub struct CmdSeek(CmdSeekInner);

impl CmdSeek {
    /// The number of the seek, as JSON text.
    pub closed spec fn target(&self) -> Seq<char> {
        match self.0 {
            CmdSeekInner::AbsoluteTime(time) => time.text@,
            CmdSeekInner::AbsolutePercent(percent) => percent.text@,
            CmdSeekInner::RelativeTime(time) => time.text@,
            CmdSeekInner::RelativePercent(percent) => percent.text@,
        }
    }

    /// The word that the player has for the kind of the seek.
    pub closed spec fn kind(&self) -> Seq<char> {
        match self.0 {
            CmdSeekInner::AbsoluteTime(_) => "absolute"@,
            CmdSeekInner::AbsolutePercent(_) => "absolute-percent"@,
            CmdSeekInner::RelativeTime(_) => "relative"@,
            CmdSeekInner::RelativePercent(_) => "relative-percent"@,
        }
    }

    /// A seek to a time in seconds, or by one where it is not absolute.
    pub fn time(time: Number, absolute: bool) -> (r: Self)
        ensures
            r.target() == time.text@,
            r.kind() == if absolute {
                "absolute"@
            } else {
                "relative"@
            },
    {
        if absolute {
            CmdSeek(CmdSeekInner::AbsoluteTime(time))
        } else {
            CmdSeek(CmdSeekInner::RelativeTime(time))
        }
    }

    /// A seek to a position in percent, or by one where it is not absolute.
    pub fn percent(percent: Number, absolute: bool) -> (r: Self)
        ensures
            r.target() == percent.text@,
            r.kind() == if absolute {
                "absolute-percent"@
            } else {
                "relative-percent"@
            },
    {
        if absolute {
            CmdSeek(CmdSeekInner::AbsolutePercent(percent))
        } else {
            CmdSeek(CmdSeekInner::RelativePercent(percent))
        }
    }
}

impl MpvCommand for CmdSeek {
    type ParsedData = Option<()>;

    type Error = DataError;

    open spec fn args(&self) -> Seq<u8> {
        utf8("\"seek\","@) + utf8(self.target()) + utf8(",\""@) + utf8(self.kind()) + utf8(
            "\""@,
        )
    }

    fn write_args(&self, w: &mut Vec<u8>) {
        push_str(w, "\"seek\",");
        match &self.0 {
            CmdSeekInner::AbsoluteTime(time) => {
                push_str(w, time.text.as_str());
                push_str(w, ",\"");
                push_str(w, "absolute");
            },
            CmdSeekInner::AbsolutePercent(percent) => {
                push_str(w, percent.text.as_str());
                push_str(w, ",\"");
                push_str(w, "absolute-percent");
            },
            CmdSeekInner::RelativeTime(time) => {
                push_str(w, time.text.as_str());
                push_str(w, ",\"");
                push_str(w, "relative");
            },
            CmdSeekInner::RelativePercent(percent) => {
                push_str(w, percent.text.as_str());
                push_str(w, ",\"");
                push_str(w, "relative-percent");
            },
        }
        push_str(w, "\"");
    }

    open spec fn parsed(&self, data: Option<Json>) -> Result<Option<()>, DataError> {
        no_payload(data)
    }

    fn parse_data(&self, data: Option<Json>) -> (r: Result<Option<()>, DataError>) {
        parse_no_payload(data)
    }
}

/// Shows the progress bar, in the player's text form.
pub struct CmdShowProgress(());

impl CmdShowProgress {
    pub fn new() -> Self {
        CmdShowProgress(())
    }
}

impl MpvCommandRaw for CmdShowProgress {
    open spec fn frame(&self, request_id: Option<i64>) -> Seq<u8> {
        utf8("show-progress"@)
    }

    fn write(&self, w: &mut Vec<u8>, request_id: Option<i64>) {
        push_str(w, "show-progress");
    }
}

} // verus!
