//! The link: request ids, framing of commands, and the sorting of what comes
//! back into events and the result that is waited for.
//!
//! The link does not touch the channel. Where it needs bytes it says so, and the
//! owner of the channel reads, or waits until the channel is readable, and calls
//! again.

use crate::command::commands::CmdGetProperty;
use crate::command::property::MpvProperty;
use crate::command::response::{
    DeserializeError, MpvResponse, MpvResponseEvent, MpvResponseResult, MpvResponseResultError,
    MpvResponseResultSuccess,
};
use crate::command::{MpvCommand, MpvCommandRaw};
use crate::io::IoFailure;
use crate::json::{DataError, FromJson, Json};
use crate::response_buffer::{
    after_line, first_line, has_line, lemma_line_len, line_len, lines, ResponseBuffer, LINE_DELIM,
};
use vstd::prelude::*;

pub mod unix;

verus! {

/// A command could not be written.
#[derive(Debug, PartialEq, Eq)]
pub enum SendError {
    /// Could not write into the stream.
    Io(IoFailure),
}

/// No message could be taken from the channel.
#[derive(Debug, PartialEq, Eq)]
pub enum ReceiveError {
    /// Could not read from the stream.
    Io(IoFailure),
    /// A line is not a message.
    Deserialize(DeserializeError),
    /// A result answers another request than the one that is waited for; a
    /// result without a request id is found as 0.
    RequestIdMismatch { expected: i64, found: i64 },
    /// A result came where only events were expected.
    UnexpectedResponseResult(MpvResponseResult),
}

/// Why a command has no outcome.
#[derive(Debug, PartialEq, Eq)]
pub enum CommandError<E> {
    SendError(SendError),
    ReceiveError(ReceiveError),
    /// The player refused the command.
    ResultError(MpvResponseResultError),
    /// The payload of the answer could not be read.
    DataParseError(E),
}

/// Why no link could be set up.
#[derive(Debug, PartialEq, Eq)]
pub enum MpvLinkInitError {
    /// Failed to create the socket pair.
    SocketPair(IoFailure),
    /// Failed to clear the close-on-exec flag.
    Cloexec(IoFailure),
    /// Failed to set the channel to non-blocking.
    Nonblocking(IoFailure),
    /// Failed to spawn the player.
    Spawn(IoFailure),
    /// Failed to connect to the player's socket.
    Connect(IoFailure),
    /// Failed to remove a socket that an earlier player left behind.
    RemovePrevious(IoFailure),
}

/// What went wrong while a link was taken down.
#[derive(Debug, PartialEq, Eq)]
pub enum MpvLinkDeinitError {
    /// Failed to shut down the socket.
    Shutdown(IoFailure),
    /// Failed to wait for the player to exit.
    Wait(IoFailure),
}

impl From<IoFailure> for SendError {
    fn from(e: IoFailure) -> (r: Self) {
        SendError::Io(e)
    }
}

impl vstd::std_specs::convert::FromSpecImpl<IoFailure> for SendError {
    open spec fn obeys_from_spec() -> bool {
        true
    }

    open spec fn from_spec(e: IoFailure) -> Self {
        SendError::Io(e)
    }
}

impl From<IoFailure> for ReceiveError {
    fn from(e: IoFailure) -> (r: Self) {
        ReceiveError::Io(e)
    }
}

impl vstd::std_specs::convert::FromSpecImpl<IoFailure> for ReceiveError {
    open spec fn obeys_from_spec() -> bool {
        true
    }

    open spec fn from_spec(e: IoFailure) -> Self {
        ReceiveError::Io(e)
    }
}

impl From<DeserializeError> for ReceiveError {
    fn from(e: DeserializeError) -> (r: Self) {
        ReceiveError::Deserialize(e)
    }
}

impl vstd::std_specs::convert::FromSpecImpl<DeserializeError> for ReceiveError {
    open spec fn obeys_from_spec() -> bool {
        true
    }

    open spec fn from_spec(e: DeserializeError) -> Self {
        ReceiveError::Deserialize(e)
    }
}

impl<E> From<SendError> for CommandError<E> {
    fn from(e: SendError) -> (r: Self) {
        CommandError::SendError(e)
    }
}

impl<E> vstd::std_specs::convert::FromSpecImpl<SendError> for CommandError<E> {
    open spec fn obeys_from_spec() -> bool {
        true
    }

    open spec fn from_spec(e: SendError) -> Self {
        CommandError::SendError(e)
    }
}

impl<E> From<ReceiveError> for CommandError<E> {
    fn from(e: ReceiveError) -> (r: Self) {
        CommandError::ReceiveError(e)
    }
}

impl<E> vstd::std_specs::convert::FromSpecImpl<ReceiveError> for CommandError<E> {
    open spec fn obeys_from_spec() -> bool {
        true
    }

    open spec fn from_spec(e: ReceiveError) -> Self {
        CommandError::ReceiveError(e)
    }
}

/// What the owner of the channel has to do before the link can go on.
#[derive(Clone, Copy, Debug, PartialEq, Eq, Structural)]
pub enum Demand {
    /// Read what is available without blocking, and hand it to
    /// [`MpvLink::supply`].
    Read,
    /// Wait, for as long as it takes, until the channel is readable.
    Wait,
}

/// How far an operation of the link has come.
#[derive(Debug, PartialEq, Eq)]
pub enum Step<T> {
    /// It is done.
    Ready(T),
    /// It goes on once the owner of the channel has done what is demanded and
    /// calls again.
    Pending(Demand),
}

/// The id that follows `id`: the next integer, and 1 after the largest.
pub open spec fn next_request_id(id: i64) -> i64 {
    if id == i64::MAX {
        1
    } else {
        (id + 1) as i64
    }
}

/// Computes the id that follows `id`.
pub fn request_id_after(id: i64) -> (r: i64)
    ensures
        r == next_request_id(id),
{
    if id == i64::MAX {
        1
    } else {
        id + 1
    }
}

/// From a positive id on, request ids stay positive, so none is 0, and each is
/// larger than the one before but for the step from the largest back to 1.
pub proof fn lemma_request_ids(id: i64)
    requires
        id >= 1,
    ensures
        next_request_id(id) >= 1,
        next_request_id(id) != 0,
        id < i64::MAX ==> next_request_id(id) > id,
        id == i64::MAX ==> next_request_id(id) == 1,
{
}

/// Where looking through buffered bytes for a result stops.
pub enum Halt {
    /// At a result.
    Result(MpvResponseResult),
    /// At a line that is no message.
    Malformed(DeserializeError),
    /// At the end of the complete lines: each of them was an event.
    Drained,
}

/// What looking through buffered bytes for a result gives.
pub struct Scan {
    /// The events that were met before the halt, in the order of their lines.
    pub events: Seq<MpvResponseEvent>,
    /// Where the scan stopped.
    pub halt: Halt,
    /// The bytes that were not looked at: those after the line of the halt, or
    /// the unfinished line.
    pub rest: Seq<u8>,
}

/// Looks through `pending` line by line, past every event, up to the first
/// result, the first line that is no message, or the end of the complete lines.
pub open spec fn scan(pending: Seq<u8>) -> Scan
    decreases pending.len(),
{
    if has_line(pending) {
        let line = pending.take(line_len(pending) as int);
        let rest = pending.skip(line_len(pending) as int + 1);
        match MpvResponse::of_line(line) {
            Ok(MpvResponse::Event(event)) => {
                let later = scan(rest);
                Scan { events: seq![event] + later.events, halt: later.halt, rest: later.rest }
            },
            Ok(MpvResponse::Result(result)) => Scan {
                events: Seq::empty(),
                halt: Halt::Result(result),
                rest,
            },
            Err(error) => Scan { events: Seq::empty(), halt: Halt::Malformed(error), rest },
        }
    } else {
        Scan { events: Seq::empty(), halt: Halt::Drained, rest: pending }
    }
}

/// Without a complete line a scan meets nothing and leaves every byte.
pub proof fn lemma_scan_without_line(pending: Seq<u8>)
    requires
        !has_line(pending),
    ensures
        scan(pending).events == Seq::<MpvResponseEvent>::empty(),
        scan(pending).halt is Drained,
        scan(pending).rest == pending,
{
}

/// A scan does not look past a result: where the first line is a result, no
/// event is met and the bytes after that line are left.
pub proof fn lemma_scan_stops_at_result(pending: Seq<u8>, result: MpvResponseResult)
    requires
        has_line(pending),
        MpvResponse::of_line(pending.take(line_len(pending) as int)) == Ok::<
            MpvResponse,
            DeserializeError,
        >(MpvResponse::Result(result)),
    ensures
        scan(pending).events == Seq::<MpvResponseEvent>::empty(),
        scan(pending).halt == Halt::Result(result),
        scan(pending).rest == pending.skip(line_len(pending) as int + 1),
{
}

/// A scan keeps every event and their order of arrival: where the first line
/// is an event, the scan meets it first and then what the scan of the bytes
/// after that line meets, and halts where that scan halts.
pub proof fn lemma_scan_keeps_events(pending: Seq<u8>, event: MpvResponseEvent)
    requires
        has_line(pending),
        MpvResponse::of_line(pending.take(line_len(pending) as int)) == Ok::<
            MpvResponse,
            DeserializeError,
        >(MpvResponse::Event(event)),
    ensures
        scan(pending).events == seq![event] + scan(
            pending.skip(line_len(pending) as int + 1),
        ).events,
        scan(pending).halt == scan(pending.skip(line_len(pending) as int + 1)).halt,
        scan(pending).rest == scan(pending.skip(line_len(pending) as int + 1)).rest,
{
}

/// The events that a scan meets are the messages of the first lines, one for
/// one and in the order of the lines; the line after them, if the scan halts at
/// one, holds what it halts at.
pub proof fn lemma_scan_in_arrival_order(pending: Seq<u8>)
    ensures
        scan(pending).events.len() <= lines(pending).len(),
        forall|i: int|
            0 <= i < scan(pending).events.len() ==> MpvResponse::of_line(
                #[trigger] lines(pending)[i],
            ) == Ok::<MpvResponse, DeserializeError>(
                MpvResponse::Event(scan(pending).events[i]),
            ),
        match scan(pending).halt {
            Halt::Result(result) => {
                &&& scan(pending).events.len() < lines(pending).len()
                &&& MpvResponse::of_line(lines(pending)[scan(pending).events.len() as int])
                    == Ok::<MpvResponse, DeserializeError>(MpvResponse::Result(result))
            },
            Halt::Malformed(error) => {
                &&& scan(pending).events.len() < lines(pending).len()
                &&& MpvResponse::of_line(lines(pending)[scan(pending).events.len() as int])
                    == Err::<MpvResponse, DeserializeError>(error)
            },
            Halt::Drained => scan(pending).events.len() == lines(pending).len(),
        },
    decreases pending.len(),
{
    if has_line(pending) {
        lemma_line_len(pending);
        let line = pending.take(line_len(pending) as int);
        let rest = pending.skip(line_len(pending) as int + 1);
        assert(lines(pending) == seq![line] + lines(rest));
        assert(lines(pending)[0] == line);
        match MpvResponse::of_line(line) {
            Ok(MpvResponse::Event(event)) => {
                lemma_scan_in_arrival_order(rest);
                assert forall|i: int| 0 <= i < scan(pending).events.len() implies MpvResponse::of_line(
                    #[trigger] lines(pending)[i],
                ) == Ok::<MpvResponse, DeserializeError>(
                    MpvResponse::Event(scan(pending).events[i]),
                ) by {
                    if i > 0 {
                        assert(lines(pending)[i] == lines(rest)[i - 1]);
                        assert(scan(pending).events[i] == scan(rest).events[i - 1]);
                    }
                }
                let n = scan(rest).events.len() as int;
                if n < lines(rest).len() {
                    assert(lines(pending)[n + 1] == lines(rest)[n]);
                }
            },
            _ => {},
        }
    }
}

/// A result that does not carry exactly the id that is waited for settles the
/// command with the mismatch, whatever else the result holds; a result
/// without an id is found as 0.
pub proof fn lemma_mismatch<C: MpvCommand>(command: &C, current_id: i64, result: MpvResponseResult)
    requires
        result.id() != Some(current_id),
    ensures
        settled(command, current_id, result) == Err::<C::ParsedData, CommandError<C::Error>>(
            CommandError::ReceiveError(
                ReceiveError::RequestIdMismatch {
                    expected: current_id,
                    found: match result.id() {
                        Some(found) => found,
                        None => 0,
                    },
                },
            ),
        ),
{
}

/// A failure that the player reports under the id that is waited for settles
/// the command with that failure; no payload is looked at.
pub proof fn lemma_result_error<C: MpvCommand>(
    command: &C,
    current_id: i64,
    error: MpvResponseResultError,
)
    ensures
        settled(
            command,
            current_id,
            MpvResponseResult::Error { error, request_id: Some(current_id) },
        ) == Err::<C::ParsedData, CommandError<C::Error>>(CommandError::ResultError(error)),
{
}

/// Asking for a property and getting a success under the same id gives back
/// the payload as the value of the property: unchanged where the property is
/// given by its name only, and as the command reads it otherwise.
pub proof fn lemma_get_property_round_trip<P: MpvProperty>(
    property: P,
    name: String,
    current_id: i64,
    data: Json,
)
    ensures
        settled(
            &CmdGetProperty(name),
            current_id,
            MpvResponseResult::Success {
                error: MpvResponseResultSuccess::Success,
                data: Some(data),
                request_id: Some(current_id),
            },
        ) == Ok::<Json, CommandError<DataError>>(data),
        settled(
            &CmdGetProperty(property),
            current_id,
            MpvResponseResult::Success {
                error: MpvResponseResultSuccess::Success,
                data: Some(data),
                request_id: Some(current_id),
            },
        ) == match <P::Value as FromJson>::decoded(Some(data)) {
            Ok(value) => Ok::<P::Value, CommandError<DataError>>(value),
            Err(e) => Err(CommandError::DataParseError(e)),
        },
{
}

/// What becomes of a command once its result is there: a result for another
/// request is a mismatch, a failure is handed on, and the payload of a success
/// is read by the command.
pub open spec fn settled<C: MpvCommand>(
    command: &C,
    current_id: i64,
    result: MpvResponseResult,
) -> Result<C::ParsedData, CommandError<C::Error>> {
    if result.id() != Some(current_id) {
        Err(
            CommandError::ReceiveError(
                ReceiveError::RequestIdMismatch {
                    expected: current_id,
                    found: match result.id() {
                        Some(found) => found,
                        None => 0,
                    },
                },
            ),
        )
    } else {
        match result {
            MpvResponseResult::Error { error, .. } => Err(CommandError::ResultError(error)),
            MpvResponseResult::Success { data, .. } => match command.parsed(data) {
                Ok(parsed) => Ok(parsed),
                Err(e) => Err(CommandError::DataParseError(e)),
            },
        }
    }
}

/// Settles a command with the result that came for it.
pub fn settle<C: MpvCommand>(command: &C, current_id: i64, result: MpvResponseResult) -> (r:
    Result<C::ParsedData, CommandError<C::Error>>)
    ensures
        r == settled(command, current_id, result),
{
    match result.request_id() {
        Some(request_id) if request_id == current_id => {},
        request_id => {
            return Err(
                CommandError::ReceiveError(
                    ReceiveError::RequestIdMismatch {
                        expected: current_id,
                        found: match request_id {
                            Some(found) => found,
                            None => 0,
                        },
                    },
                ),
            );
        },
    }
    match result {
        MpvResponseResult::Error { error, .. } => Err(CommandError::ResultError(error)),
        MpvResponseResult::Success { data, .. } => match command.parse_data(data) {
            Ok(parsed) => Ok(parsed),
            Err(e) => Err(CommandError::DataParseError(e)),
        },
    }
}

/// The protocol side of a connection to the player.
pub struct MpvLink {
    current_id: i64,
    response_buffer: ResponseBuffer,
    event_queue: Vec<MpvResponseEvent>,
    refilled: bool,
}

impl MpvLink {
    /// The buffer is well-formed and the next request id is positive.
    pub closed spec fn wf(&self) -> bool {
        &&& self.response_buffer.wf()
        &&& self.current_id >= 1
    }

    /// The id that the next command gets.
    pub closed spec fn next_id(&self) -> i64 {
        self.current_id
    }

    /// The bytes that were received and not yet looked at.
    pub closed spec fn pending(&self) -> Seq<u8> {
        self.response_buffer.pending()
    }

    /// The number of bytes that were looked at and are still held.
    pub closed spec fn consumed(&self) -> nat {
        self.response_buffer.cursor()
    }

    /// The events that were received and not yet drained, oldest first.
    pub closed spec fn events(&self) -> Seq<MpvResponseEvent> {
        self.event_queue@
    }

    /// Whether bytes were supplied since a line was last looked for in vain.
    pub closed spec fn refilled(&self) -> bool {
        self.refilled
    }

    /// A link that has sent and received nothing. Its first request id is 1.
    pub fn new() -> (r: Self)
        ensures
            r.wf(),
            r.next_id() == 1,
            r.pending() == Seq::<u8>::empty(),
            r.events() == Seq::<MpvResponseEvent>::empty(),
            !r.refilled(),
    {
        MpvLink {
            current_id: 1,
            response_buffer: ResponseBuffer::new(),
            event_queue: Vec::new(),
            refilled: false,
        }
    }

    /// Gives a command the next request id and frames it: the command as it
    /// writes itself for that id, and the line delimiter. Returns the id and the
    /// bytes to send. No answer is waited for.
    pub fn run_command_raw<C: MpvCommandRaw>(&mut self, command: &C) -> (r: (i64, Vec<u8>))
        requires
            old(self).wf(),
        ensures
            final(self).wf(),
            r.0 == old(self).next_id(),
            r.0 != 0,
            final(self).next_id() == next_request_id(r.0),
            r.1@ == command.frame(Some(r.0)).push(LINE_DELIM),
            final(self).pending() == old(self).pending(),
            final(self).consumed() == old(self).consumed(),
            final(self).events() == old(self).events(),
            final(self).refilled() == old(self).refilled(),
    {
        let current_id: i64 = self.current_id;
        self.current_id = request_id_after(current_id);
        let frame = Self::send_command(command, current_id);
        (current_id, frame)
    }

    /// Frames a command for sending under the given request id.
    pub fn send_command<C: MpvCommandRaw>(command: &C, current_id: i64) -> (frame: Vec<u8>)
        ensures
            frame@ == command.frame(Some(current_id)).push(LINE_DELIM),
    {
        let mut frame: Vec<u8> = Vec::new();
        command.write(&mut frame, Some(current_id));
        frame.push(LINE_DELIM);
        assert(frame@ =~= command.frame(Some(current_id)).push(LINE_DELIM));
        frame
    }

    /// Takes in what a non-blocking read of everything available gave. The
    /// bytes are put behind those that are pending. That the read would have
    /// blocked is no error; any other failure of the read is handed back.
    pub fn supply(&mut self, received: &[u8], outcome: Result<(), IoFailure>) -> (r: Result<
        (),
        ReceiveError,
    >)
        requires
            old(self).wf(),
        ensures
            final(self).wf(),
            final(self).pending() == old(self).pending() + received@,
            final(self).consumed() == old(self).consumed(),
            final(self).events() == old(self).events(),
            final(self).next_id() == old(self).next_id(),
            match outcome {
                Err(e) if e.kind != crate::io::IoErrorKind::WouldBlock => {
                    &&& r == Err::<(), ReceiveError>(ReceiveError::Io(e))
                    &&& final(self).refilled() == old(self).refilled()
                },
                _ => r == Ok::<(), ReceiveError>(()) && final(self).refilled(),
            },
    {
        match self.response_buffer.read_nonblocking(received, outcome) {
            Ok(()) => {
                self.refilled = true;
                Ok(())
            },
            Err(e) => Err(ReceiveError::Io(e)),
        }
    }

    /// Takes the next message from the pending bytes.
    ///
    /// Where a complete line is pending, it is taken and read: the message, or
    /// the reason why the line is none. Where none is pending and nothing was
    /// supplied since the last time, a read is demanded. Where none is pending
    /// although bytes were supplied, there is no message yet.
    pub fn next_response(&mut self) -> (r: Result<Step<Option<MpvResponse>>, ReceiveError>)
        requires
            old(self).wf(),
        ensures
            final(self).wf(),
            final(self).events() == old(self).events(),
            final(self).next_id() == old(self).next_id(),
            final(self).pending() == after_line(old(self).pending()),
            final(self).consumed() + final(self).pending().len() == old(self).consumed() + old(
                self,
            ).pending().len(),
            !final(self).refilled(),
            match first_line(old(self).pending()) {
                Some(line) => match MpvResponse::of_line(line) {
                    Ok(response) => r == Ok::<Step<Option<MpvResponse>>, ReceiveError>(
                        Step::Ready(Some(response)),
                    ),
                    Err(e) => r == Err::<Step<Option<MpvResponse>>, ReceiveError>(
                        ReceiveError::Deserialize(e),
                    ),
                },
                None => if old(self).refilled() {
                    r == Ok::<Step<Option<MpvResponse>>, ReceiveError>(Step::Ready(None))
                } else {
                    r == Ok::<Step<Option<MpvResponse>>, ReceiveError>(
                        Step::Pending(Demand::Read),
                    )
                },
            },
    {
        let refilled: bool = self.refilled;
        self.refilled = false;
        match self.response_buffer.consume_line() {
            Some(line) => match MpvResponse::decode(line) {
                Ok(response) => Ok(Step::Ready(Some(response))),
                Err(e) => Err(ReceiveError::Deserialize(e)),
            },
            None => if refilled {
                Ok(Step::Ready(None))
            } else {
                Ok(Step::Pending(Demand::Read))
            },
        }
    }

    /// Sorts a message that was taken from the channel: an event is put at the
    /// end of the event queue, a result is handed back.
    pub fn sort_response(&mut self, response: MpvResponse) -> (r: Option<MpvResponseResult>)
        requires
            old(self).wf(),
        ensures
            final(self).wf(),
            final(self).next_id() == old(self).next_id(),
            final(self).pending() == old(self).pending(),
            final(self).consumed() == old(self).consumed(),
            final(self).refilled() == old(self).refilled(),
            match response {
                MpvResponse::Event(event) => {
                    &&& r is None
                    &&& final(self).events() == old(self).events().push(event)
                },
                MpvResponse::Result(result) => {
                    &&& r == Some(result)
                    &&& final(self).events() == old(self).events()
                },
            },
    {
        match response {
            MpvResponse::Event(event) => {
                self.event_queue.push(event);
                None
            },
            MpvResponse::Result(result) => Some(result),
        }
    }

    /// Takes messages from the pending lines, in order, and puts every event at
    /// the end of the event queue, up to where the scan of the pending bytes
    /// halts: the result, at a result; the reason, at a line that is no
    /// message. Where the lines run out, nothing, if they ran out although bytes
    /// were supplied since the last time, and else the demand of a read.
    fn take_events(&mut self) -> (r: Result<Step<Option<MpvResponseResult>>, ReceiveError>)
        requires
            old(self).wf(),
        ensures
            final(self).wf(),
            final(self).next_id() == old(self).next_id(),
            final(self).events() == old(self).events() + scan(old(self).pending()).events,
            final(self).pending() == scan(old(self).pending()).rest,
            final(self).consumed() + final(self).pending().len() == old(self).consumed() + old(
                self,
            ).pending().len(),
            !final(self).refilled(),
            match scan(old(self).pending()).halt {
                Halt::Result(result) => r == Ok::<
                    Step<Option<MpvResponseResult>>,
                    ReceiveError,
                >(Step::Ready(Some(result))),
                Halt::Malformed(e) => r == Err::<Step<Option<MpvResponseResult>>, ReceiveError>(
                    ReceiveError::Deserialize(e),
                ),
                Halt::Drained => r == Ok::<Step<Option<MpvResponseResult>>, ReceiveError>(
                    if old(self).refilled() && !has_line(old(self).pending()) {
                        Step::Ready(None)
                    } else {
                        Step::Pending(Demand::Read)
                    },
                ),
            },
    {
        let ghost mut met: Seq<MpvResponseEvent> = Seq::empty();
        loop
            invariant
                self.wf(),
                self.next_id() == old(self).next_id(),
                self.events() == old(self).events() + met,
                scan(old(self).pending()).events == met + scan(self.pending()).events,
                scan(old(self).pending()).halt == scan(self.pending()).halt,
                scan(old(self).pending()).rest == scan(self.pending()).rest,
                self.consumed() + self.pending().len() == old(self).consumed() + old(
                    self,
                ).pending().len(),
                if met.len() == 0 {
                    self.pending() == old(self).pending() && self.refilled() == old(
                        self,
                    ).refilled()
                } else {
                    has_line(old(self).pending()) && !self.refilled()
                },
            decreases self.pending().len(),
        {
            let ghost before = self.pending();
            proof {
                lemma_line_len(before);
            }
            match self.next_response() {
                Err(e) => {
                    return Err(e);
                },
                Ok(Step::Pending(demand)) => {
                    return Ok(Step::Pending(demand));
                },
                Ok(Step::Ready(None)) => {
                    return Ok(Step::Ready(None));
                },
                Ok(Step::Ready(Some(response))) => match self.sort_response(response) {
                    None => {
                        proof {
                            let event = response->Event_0;
                            assert(scan(before).events == seq![event] + scan(
                                self.pending(),
                            ).events);
                            assert(met + (seq![event] + scan(self.pending()).events)
                                =~= met.push(event) + scan(self.pending()).events);
                            met = met.push(event);
                        }
                    },
                    Some(result) => {
                        assert(met + Seq::<MpvResponseEvent>::empty() =~= met);
                        return Ok(Step::Ready(Some(result)));
                    },
                },
            }
        }
    }

    /// Looks at the pending lines, in order, up to the first result. Every
    /// event on the way is put at the end of the event queue.
    ///
    /// The result, once one is met; the consumed bytes are then dropped from
    /// the buffer. A line that is no message ends the call with the reason.
    /// Where the lines run out, a read is demanded; where they ran out although
    /// bytes were supplied since the last time, a wait is demanded instead.
    pub fn next_result(&mut self) -> (r: Result<Step<MpvResponseResult>, ReceiveError>)
        requires
            old(self).wf(),
        ensures
            final(self).wf(),
            final(self).next_id() == old(self).next_id(),
            final(self).events() == old(self).events() + scan(old(self).pending()).events,
            final(self).pending() == scan(old(self).pending()).rest,
            !final(self).refilled(),
            match scan(old(self).pending()).halt {
                Halt::Result(result) => {
                    &&& r == Ok::<Step<MpvResponseResult>, ReceiveError>(Step::Ready(result))
                    &&& final(self).consumed() == 0
                },
                Halt::Malformed(e) => r == Err::<Step<MpvResponseResult>, ReceiveError>(
                    ReceiveError::Deserialize(e),
                ),
                Halt::Drained => r == Ok::<Step<MpvResponseResult>, ReceiveError>(
                    Step::Pending(
                        if old(self).refilled() && !has_line(old(self).pending()) {
                            Demand::Wait
                        } else {
                            Demand::Read
                        },
                    ),
                ),
            },
            !(scan(old(self).pending()).halt is Result) ==> old(self).consumed() + old(
                self,
            ).pending().len() == final(self).consumed() + final(self).pending().len(),
    {
        match self.take_events() {
            Err(e) => Err(e),
            Ok(Step::Pending(demand)) => Ok(Step::Pending(demand)),
            Ok(Step::Ready(None)) => Ok(Step::Pending(Demand::Wait)),
            Ok(Step::Ready(Some(result))) => {
                self.response_buffer.shift();
                Ok(Step::Ready(result))
            },
        }
    }

    /// Takes every event that is pending into the event queue, without ever
    /// asking for a wait.
    ///
    /// The queue, once the lines have run out after bytes were supplied; the
    /// consumed bytes are then dropped from the buffer. Where the lines run out
    /// otherwise, a read is demanded. A result among the lines ends the call
    /// with that result as the error, and a line that is no message with the
    /// reason; the events before it are kept.
    pub fn poll_events(&mut self) -> (r: Result<Step<&[MpvResponseEvent]>, ReceiveError>)
        requires
            old(self).wf(),
        ensures
            final(self).wf(),
            final(self).next_id() == old(self).next_id(),
            final(self).events() == old(self).events() + scan(old(self).pending()).events,
            final(self).pending() == scan(old(self).pending()).rest,
            !final(self).refilled(),
            !(r matches Ok(Step::Pending(Demand::Wait))),
            match scan(old(self).pending()).halt {
                Halt::Result(result) => r == Err::<Step<&[MpvResponseEvent]>, ReceiveError>(
                    ReceiveError::UnexpectedResponseResult(result),
                ),
                Halt::Malformed(e) => r == Err::<Step<&[MpvResponseEvent]>, ReceiveError>(
                    ReceiveError::Deserialize(e),
                ),
                Halt::Drained => if old(self).refilled() && !has_line(old(self).pending()) {
                    &&& r matches Ok(Step::Ready(queue))
                    &&& queue@ == final(self).events()
                    &&& final(self).consumed() == 0
                } else {
                    r == Ok::<Step<&[MpvResponseEvent]>, ReceiveError>(
                        Step::Pending(Demand::Read),
                    )
                },
            },
            !(r matches Ok(Step::Ready(_))) ==> old(self).consumed() + old(
                self,
            ).pending().len() == final(self).consumed() + final(self).pending().len(),
    {
        match self.take_events() {
            Err(e) => Err(e),
            Ok(Step::Pending(demand)) => Ok(Step::Pending(demand)),
            Ok(Step::Ready(Some(result))) => Err(ReceiveError::UnexpectedResponseResult(result)),
            Ok(Step::Ready(None)) => {
                self.response_buffer.shift();
                Ok(Step::Ready(self.event_queue.as_slice()))
            },
        }
    }

    /// The queued events, oldest first.
    pub fn queued_events(&self) -> (r: &[MpvResponseEvent])
        ensures
            r@ == self.events(),
    {
        self.event_queue.as_slice()
    }

    /// Goes on with a command that was sent under `current_id`: looks at the
    /// pending lines up to the first result and settles the command with it.
    ///
    /// Every event on the way is put at the end of the event queue, whatever
    /// the call ends in. A result that does not carry exactly `current_id` ends
    /// the call with the mismatch; a failure that the player reports is handed
    /// on without looking at any payload; the payload of a success is read by
    /// the command. Where the lines run out, the demand of
    /// [`MpvLink::next_result`] is handed on.
    pub fn run_command<C: MpvCommand>(&mut self, command: &C, current_id: i64) -> (r: Result<
        Step<C::ParsedData>,
        CommandError<C::Error>,
    >)
        requires
            old(self).wf(),
        ensures
            final(self).wf(),
            final(self).next_id() == old(self).next_id(),
            final(self).events() == old(self).events() + scan(old(self).pending()).events,
            final(self).pending() == scan(old(self).pending()).rest,
            !final(self).refilled(),
            match scan(old(self).pending()).halt {
                Halt::Result(result) => {
                    &&& r == match settled(command, current_id, result) {
                        Ok(parsed) => Ok::<Step<C::ParsedData>, CommandError<C::Error>>(
                            Step::Ready(parsed),
                        ),
                        Err(e) => Err(e),
                    }
                    &&& final(self).consumed() == 0
                },
                Halt::Malformed(e) => r == Err::<Step<C::ParsedData>, CommandError<C::Error>>(
                    CommandError::ReceiveError(ReceiveError::Deserialize(e)),
                ),
                Halt::Drained => r == Ok::<Step<C::ParsedData>, CommandError<C::Error>>(
                    Step::Pending(
                        if old(self).refilled() && !has_line(old(self).pending()) {
                            Demand::Wait
                        } else {
                            Demand::Read
                        },
                    ),
                ),
            },
            !(scan(old(self).pending()).halt is Result) ==> old(self).consumed() + old(
                self,
            ).pending().len() == final(self).consumed() + final(self).pending().len(),
    {
        match self.next_result() {
            Err(e) => Err(CommandError::ReceiveError(e)),
            Ok(Step::Pending(demand)) => Ok(Step::Pending(demand)),
            Ok(Step::Ready(result)) => match settle(command, current_id, result) {
                Ok(parsed) => Ok(Step::Ready(parsed)),
                Err(e) => Err(e),
            },
        }
    }

    /// Takes the queued events out of the link, oldest first.
    pub fn drain_events(&mut self) -> (r: Vec<MpvResponseEvent>)
        requires
            old(self).wf(),
        ensures
            final(self).wf(),
            r@ == old(self).events(),
            final(self).events() == Seq::<MpvResponseEvent>::empty(),
            final(self).pending() == old(self).pending(),
            final(self).consumed() == old(self).consumed(),
            final(self).next_id() == old(self).next_id(),
            final(self).refilled() == old(self).refilled(),
    {
        let mut drained: Vec<MpvResponseEvent> = Vec::new();
        core::mem::swap(&mut self.event_queue, &mut drained);
        drained
    }
}

} // verus!
