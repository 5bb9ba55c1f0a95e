//! Commands: what is sent to the player, and how its answer is read.

use crate::json::Json;
use crate::text::{decimal, push_decimal, push_str, utf8};
use vstd::prelude::*;

pub mod commands;
pub mod property;
pub mod response;

verus! {

/// The number that a frame carries for a request id: the id, or zero where the
/// command asks for no correlation.
pub open spec fn wire_id(request_id: Option<i64>) -> int {
    match request_id {
        Some(id) => id as int,
        None => 0,
    }
}

/// A JSON command on the wire: the request id and the command array that holds
/// `args`.
pub open spec fn command_frame(request_id: Option<i64>, args: Seq<u8>) -> Seq<u8> {
    utf8("{\"request_id\":"@) + decimal(wire_id(request_id)) + utf8(",\"command\":["@) + args
        + utf8("]}"@)
}

/// A command as it is sent: any text that the player takes on one line.
pub trait MpvCommandRaw {
    /// The bytes that the command is sent as, for the given request id.
    spec fn frame(&self, request_id: Option<i64>) -> Seq<u8>;

    /// Appends the command to `w`.
    fn write(&self, w: &mut Vec<u8>, request_id: Option<i64>)
        ensures
            final(w)@ == old(w)@ + self.frame(request_id),
    ;
}

/// A JSON command: a name with arguments, and a way to read the payload of the
/// player's answer.
///
/// On the wire: `{"request_id":123,"command":["name","arg1","arg2"]}`.
pub trait MpvCommand: MpvCommandRaw {
    /// What a successful answer is read as.
    type ParsedData;

    /// Why the payload of a successful answer could not be read.
    type Error;

    /// The items of the command array, as JSON, with commas between them and
    /// without the brackets around them.
    spec fn args(&self) -> Seq<u8>;

    /// Appends the items of the command array to `w`.
    fn write_args(&self, w: &mut Vec<u8>)
        ensures
            final(w)@ == old(w)@ + self.args(),
    ;

    /// What the payload of a successful answer is read as; `None` stands for an
    /// answer without a payload.
    spec fn parsed(&self, data: Option<Json>) -> Result<Self::ParsedData, Self::Error>;

    /// Reads the payload of a successful answer.
    fn parse_data(&self, data: Option<Json>) -> (r: Result<Self::ParsedData, Self::Error>)
        ensures
            r == self.parsed(data),
    ;
}

impl<T: MpvCommand> MpvCommandRaw for T {
    open spec fn frame(&self, request_id: Option<i64>) -> Seq<u8> {
        command_frame(request_id, self.args())
    }

    fn write(&self, w: &mut Vec<u8>, request_id: Option<i64>) {
        let id: i64 = match request_id {
            Some(id) => id,
            None => 0,
        };
        push_str(w, "{\"request_id\":");
        push_decimal(w, id);
        push_str(w, ",\"command\":[");
        self.write_args(w);
        push_str(w, "]}");
    }
}

} // verus!
