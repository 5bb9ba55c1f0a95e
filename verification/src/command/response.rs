//! What the player sends: events and results.
//!
//! Each message is one JSON object. A message with an `event` member is an
//! event; one with an `error` member is the result of a command, a success where
//! the member says `success` and a failure where it names one.

use crate::json::{json_document, Json};
use crate::text::str_eq;
use vstd::prelude::*;

verus! {

/// Why a line is not a message.
#[derive(Clone, Copy, Debug, PartialEq, Eq, Structural)]
pub enum DeserializeError {
    /// The line is not a JSON document.
    Syntax,
    /// The line is JSON, but neither an event nor a result.
    Shape,
}

/// The property that a `property-change` event is about.
#[derive(Debug, PartialEq, Eq)]
pub enum MpvResponseEventPropertyName {
    Volume,
    Filename,
    FilenameNoExt,
    /// A property without a name of its own here.
    Unknown(String),
}

/// An unsolicited message of the player.
#[derive(Debug, PartialEq, Eq)]
pub enum MpvResponseEvent {
    PropertyChange {
        /// Id of the observer.
        id: i64,
        name: MpvResponseEventPropertyName,
        /// New value of the property; `null` where the event has none.
        data: Json,
    },
    LogMessage,
    StartFile { playlist_entry_id: i64 },
    EndFile,
    FileLoaded,
    Seek,
    PlaybackRestart,
    Shutdown,
    AudioReconfig,
    VideoReconfig,
    /// An event with a name that is not known here.
    Unknown,
}

/// The one word that marks a success.
#[derive(Clone, Copy, Debug, PartialEq, Eq, Structural)]
pub enum MpvResponseResultSuccess {
    Success,
}

/// The failures that the player reports for a command.
#[derive(Clone, Copy, Debug, PartialEq, Eq, Structural)]
pub enum MpvResponseResultError {
    InvalidParameter,
    PropertyUnavailable,
    PropertyNotFound,
    ErrorRunningCommand,
}

/// The player's answer to a command.
#[derive(Debug, PartialEq, Eq)]
#[allow(inconsistent_fields)]
pub enum MpvResponseResult {
    Success {
        error: MpvResponseResultSuccess,
        /// The payload; `None` where the message has no `data` member.
        data: Option<Json>,
        request_id: Option<i64>,
    },
    Error { error: MpvResponseResultError, request_id: Option<i64> },
}

/// Either an event or a result.
#[derive(Debug, PartialEq, Eq)]
pub enum MpvResponse {
    Event(MpvResponseEvent),
    Result(MpvResponseResult),
}

/// The members of a message that decide what it is, each read as JSON; `None`
/// for a member that the message does not have.
#[derive(Debug, PartialEq, Eq)]
pub struct Envelope {
    pub event: Option<Json>,
    pub error: Option<Json>,
    pub request_id: Option<Json>,
    pub id: Option<Json>,
    pub name: Option<Json>,
    pub playlist_entry_id: Option<Json>,
    pub data: Option<Json>,
}

/// The integer that a member holds.
pub open spec fn integer_member(member: Option<Json>) -> Option<i64> {
    match member {
        Some(json) => json.integer_of(),
        None => None,
    }
}

/// The request id of a result: none where the member is missing or `null`, the
/// integer where it holds one. The outer `None` says that the member holds
/// something else.
pub open spec fn request_id_of(member: Option<Json>) -> Option<Option<i64>> {
    match member {
        None | Some(Json::Null) => Some(None),
        Some(json) => match json.integer_of() {
            Some(id) => Some(Some(id)),
            None => None,
        },
    }
}

/// The failure that an `error` member names.
pub open spec fn error_named(word: Seq<char>) -> Option<MpvResponseResultError> {
    if word == "invalid parameter"@ {
        Some(MpvResponseResultError::InvalidParameter)
    } else if word == "property unavailable"@ {
        Some(MpvResponseResultError::PropertyUnavailable)
    } else if word == "property not found"@ {
        Some(MpvResponseResultError::PropertyNotFound)
    } else if word == "error running command"@ {
        Some(MpvResponseResultError::ErrorRunningCommand)
    } else {
        None
    }
}

impl MpvResponseResultError {
    /// Reads the word that the player uses for a failure.
    pub fn from_word(word: &str) -> (r: Option<MpvResponseResultError>)
        ensures
            r == error_named(word@),
    {
        if str_eq(word, "invalid parameter") {
            Some(MpvResponseResultError::InvalidParameter)
        } else if str_eq(word, "property unavailable") {
            Some(MpvResponseResultError::PropertyUnavailable)
        } else if str_eq(word, "property not found") {
            Some(MpvResponseResultError::PropertyNotFound)
        } else if str_eq(word, "error running command") {
            Some(MpvResponseResultError::ErrorRunningCommand)
        } else {
            None
        }
    }
}

impl MpvResponseEventPropertyName {
    /// The property that `name` stands for.
    pub open spec fn named(name: String) -> MpvResponseEventPropertyName {
        if name@ == "volume"@ {
            MpvResponseEventPropertyName::Volume
        } else if name@ == "filename"@ {
            MpvResponseEventPropertyName::Filename
        } else if name@ == "filename/no-ext"@ {
            MpvResponseEventPropertyName::FilenameNoExt
        } else {
            MpvResponseEventPropertyName::Unknown(name)
        }
    }

    /// Reads a property's name. A name that is not known is kept as it is.
    pub fn deserialize_with_unknown(name: String) -> (r: MpvResponseEventPropertyName)
        ensures
            r == Self::named(name),
    {
        if str_eq(name.as_str(), "volume") {
            MpvResponseEventPropertyName::Volume
        } else if str_eq(name.as_str(), "filename") {
            MpvResponseEventPropertyName::Filename
        } else if str_eq(name.as_str(), "filename/no-ext") {
            MpvResponseEventPropertyName::FilenameNoExt
        } else {
            MpvResponseEventPropertyName::Unknown(name)
        }
    }
}

impl MpvResponseResult {
    /// The id of the request that this result answers, as the player gave it.
    pub open spec fn id(&self) -> Option<i64> {
        match self {
            MpvResponseResult::Success { request_id, .. } => *request_id,
            MpvResponseResult::Error { request_id, .. } => *request_id,
        }
    }

    /// The id of the request that this result answers, as the player gave it.
    pub fn request_id(&self) -> (r: Option<i64>)
        ensures
            r == self.id(),
    {
        match self {
            MpvResponseResult::Success { request_id, .. } => *request_id,
            MpvResponseResult::Error { request_id, .. } => *request_id,
        }
    }
}

impl Envelope {
    /// The event that the members make, if they make one: there is an `event`
    /// member that holds a name, and the members that the named event needs are
    /// there. A name that is not known makes the unknown event.
    pub open spec fn event_of(self) -> Option<MpvResponseEvent> {
        match self.event {
            Some(Json::Text(kind)) => if kind@ == "property-change"@ {
                match (integer_member(self.id), self.name) {
                    (Some(id), Some(Json::Text(name))) => Some(
                        MpvResponseEvent::PropertyChange {
                            id,
                            name: MpvResponseEventPropertyName::named(name),
                            data: match self.data {
                                Some(data) => data,
                                None => Json::Null,
                            },
                        },
                    ),
                    _ => None,
                }
            } else if kind@ == "log-message"@ {
                Some(MpvResponseEvent::LogMessage)
            } else if kind@ == "start-file"@ {
                match integer_member(self.playlist_entry_id) {
                    Some(playlist_entry_id) => Some(
                        MpvResponseEvent::StartFile { playlist_entry_id },
                    ),
                    None => None,
                }
            } else if kind@ == "end-file"@ {
                Some(MpvResponseEvent::EndFile)
            } else if kind@ == "file-loaded"@ {
                Some(MpvResponseEvent::FileLoaded)
            } else if kind@ == "seek"@ {
                Some(MpvResponseEvent::Seek)
            } else if kind@ == "playback-restart"@ {
                Some(MpvResponseEvent::PlaybackRestart)
            } else if kind@ == "shutdown"@ {
                Some(MpvResponseEvent::Shutdown)
            } else if kind@ == "audio-reconfig"@ {
                Some(MpvResponseEvent::AudioReconfig)
            } else if kind@ == "video-reconfig"@ {
                Some(MpvResponseEvent::VideoReconfig)
            } else {
                Some(MpvResponseEvent::Unknown)
            },
            _ => None,
        }
    }

    /// The result that the members make, if they make one: there is an `error`
    /// member that holds `success` or the name of a failure, and the request
    /// id, if there is one, is an integer. The payload goes with a success only.
    pub open spec fn result_of(self) -> Option<MpvResponseResult> {
        match (self.error, request_id_of(self.request_id)) {
            (Some(Json::Text(word)), Some(request_id)) => if word@ == "success"@ {
                Some(
                    MpvResponseResult::Success {
                        error: MpvResponseResultSuccess::Success,
                        data: self.data,
                        request_id,
                    },
                )
            } else {
                match error_named(word@) {
                    Some(error) => Some(MpvResponseResult::Error { error, request_id }),
                    None => None,
                }
            },
            _ => None,
        }
    }

    /// What the message is: an event where the members make one, else a result
    /// where they make one.
    pub open spec fn classified(self) -> Result<MpvResponse, DeserializeError> {
        match self.event_of() {
            Some(event) => Ok(MpvResponse::Event(event)),
            None => match self.result_of() {
                Some(result) => Ok(MpvResponse::Result(result)),
                None => Err(DeserializeError::Shape),
            },
        }
    }

    /// The members of the message that `line` holds.
    pub open spec fn of_line(line: Seq<u8>) -> Result<Envelope, DeserializeError> {
        match json_document(line) {
            Some(Json::Object(members)) => {
                let message = Json::Object(members);
                Ok(
                    Envelope {
                        event: message.member_value_of("event"@),
                        error: message.member_value_of("error"@),
                        request_id: message.member_value_of("request_id"@),
                        id: message.member_value_of("id"@),
                        name: message.member_value_of("name"@),
                        playlist_entry_id: message.member_value_of("playlist_entry_id"@),
                        data: message.member_value_of("data"@),
                    },
                )
            },
            Some(_) => Err(DeserializeError::Shape),
            None => Err(DeserializeError::Syntax),
        }
    }

    /// Reads the members of the message that `line` holds. The line has to be a
    /// JSON object.
    pub fn read(line: &[u8]) -> (r: Result<Envelope, DeserializeError>)
        ensures
            r == Envelope::of_line(line@),
    {
        match Json::parse(line) {
            Ok(Json::Object(members)) => {
                let message = Json::Object(members);
                Ok(
                    Envelope {
                        event: message.member_value("event"),
                        error: message.member_value("error"),
                        request_id: message.member_value("request_id"),
                        id: message.member_value("id"),
                        name: message.member_value("name"),
                        playlist_entry_id: message.member_value("playlist_entry_id"),
                        data: message.member_value("data"),
                    },
                )
            },
            Ok(_) => Err(DeserializeError::Shape),
            Err(_) => Err(DeserializeError::Syntax),
        }
    }

    fn integer(member: &Option<Json>) -> (r: Option<i64>)
        ensures
            r == integer_member(*member),
    {
        match member {
            Some(json) => json.as_i64(),
            None => None,
        }
    }

    fn request_id(member: &Option<Json>) -> (r: Option<Option<i64>>)
        ensures
            r == request_id_of(*member),
    {
        match member {
            None | Some(Json::Null) => Some(None),
            Some(json) => match json.as_i64() {
                Some(id) => Some(Some(id)),
                None => None,
            },
        }
    }

    fn into_event(self) -> (r: Result<MpvResponseEvent, Envelope>)
        ensures
            match r {
                Ok(event) => self.event_of() == Some(event),
                Err(envelope) => self.event_of() is None && envelope == self,
            },
    {
        let Envelope { event, error, request_id, id, name, playlist_entry_id, data } = self;
        match event {
            Some(Json::Text(kind)) => {
                if str_eq(kind.as_str(), "property-change") {
                    match (Self::integer(&id), name) {
                        (Some(observer), Some(Json::Text(name))) => Ok(
                            MpvResponseEvent::PropertyChange {
                                id: observer,
                                name: MpvResponseEventPropertyName::deserialize_with_unknown(name),
                                data: match data {
                                    Some(data) => data,
                                    None => Json::Null,
                                },
                            },
                        ),
                        (_, name) => Err(
                            Envelope {
                                event: Some(Json::Text(kind)),
                                error,
                                request_id,
                                id,
                                name,
                                playlist_entry_id,
                                data,
                            },
                        ),
                    }
                } else if str_eq(kind.as_str(), "log-message") {
                    Ok(MpvResponseEvent::LogMessage)
                } else if str_eq(kind.as_str(), "start-file") {
                    match Self::integer(&playlist_entry_id) {
                        Some(entry) => Ok(MpvResponseEvent::StartFile { playlist_entry_id: entry }),
                        None => Err(
                            Envelope {
                                event: Some(Json::Text(kind)),
                                error,
                                request_id,
                                id,
                                name,
                                playlist_entry_id,
                                data,
                            },
                        ),
                    }
                } else if str_eq(kind.as_str(), "end-file") {
                    Ok(MpvResponseEvent::EndFile)
                } else if str_eq(kind.as_str(), "file-loaded") {
                    Ok(MpvResponseEvent::FileLoaded)
                } else if str_eq(kind.as_str(), "seek") {
                    Ok(MpvResponseEvent::Seek)
                } else if str_eq(kind.as_str(), "playback-restart") {
                    Ok(MpvResponseEvent::PlaybackRestart)
                } else if str_eq(kind.as_str(), "shutdown") {
                    Ok(MpvResponseEvent::Shutdown)
                } else if str_eq(kind.as_str(), "audio-reconfig") {
                    Ok(MpvResponseEvent::AudioReconfig)
                } else if str_eq(kind.as_str(), "video-reconfig") {
                    Ok(MpvResponseEvent::VideoReconfig)
                } else {
                    Ok(MpvResponseEvent::Unknown)
                }
            },
            event => Err(Envelope { event, error, request_id, id, name, playlist_entry_id, data }),
        }
    }

    fn into_result(self) -> (r: Option<MpvResponseResult>)
        ensures
            r == self.result_of(),
    {
        let request_id = Self::request_id(&self.request_id);
        match (self.error, request_id) {
            (Some(Json::Text(word)), Some(request_id)) => {
                if str_eq(word.as_str(), "success") {
                    Some(
                        MpvResponseResult::Success {
                            error: MpvResponseResultSuccess::Success,
                            data: self.data,
                            request_id,
                        },
                    )
                } else {
                    match MpvResponseResultError::from_word(word.as_str()) {
                        Some(error) => Some(MpvResponseResult::Error { error, request_id }),
                        None => None,
                    }
                }
            },
            _ => None,
        }
    }
}

impl MpvResponse {
    /// The message that `line` holds.
    pub open spec fn of_line(line: Seq<u8>) -> Result<MpvResponse, DeserializeError> {
        match Envelope::of_line(line) {
            Ok(envelope) => envelope.classified(),
            Err(e) => Err(e),
        }
    }

    /// Tells what a message is from the members that decide it.
    pub fn from_envelope(envelope: Envelope) -> (r: Result<MpvResponse, DeserializeError>)
        ensures
            r == envelope.classified(),
    {
        match envelope.into_event() {
            Ok(event) => Ok(MpvResponse::Event(event)),
            Err(envelope) => match envelope.into_result() {
                Some(result) => Ok(MpvResponse::Result(result)),
                None => Err(DeserializeError::Shape),
            },
        }
    }

    /// Reads the message that `line` holds.
    pub fn decode(line: &[u8]) -> (r: Result<MpvResponse, DeserializeError>)
        ensures
            r == MpvResponse::of_line(line@),
    {
        match Envelope::read(line) {
            Ok(envelope) => MpvResponse::from_envelope(envelope),
            Err(e) => Err(e),
        }
    }
}

} // verus!
