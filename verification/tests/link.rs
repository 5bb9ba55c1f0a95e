use std::borrow::Cow;

use mpvsock::command::commands::{CmdGetProperty, CmdGetVersion, CmdLoadfile, CmdShowProgress, CmdStop};
use mpvsock::command::property::{Pause, Volume};
use mpvsock::command::response::{
    DeserializeError, MpvResponse, MpvResponseEvent, MpvResponseResult, MpvResponseResultError,
    MpvResponseResultSuccess,
};
use mpvsock::command::MpvCommand;
use mpvsock::io::{IoErrorKind, IoFailure};
use mpvsock::json::{DataError, Json, Number};
use mpvsock::link::{settle, CommandError, Demand, MpvLink, ReceiveError, SendError, Step};
use mpvsock::model::FileloadInfo;

const WOULD_BLOCK: IoFailure = IoFailure { kind: IoErrorKind::WouldBlock, code: None };

/// Runs a command against a player whose answers are given as the chunks that
/// successive reads return. Returns the outcome, what was sent, and the number
/// of waits.
fn run<C: MpvCommand>(
    link: &mut MpvLink,
    command: &C,
    reads: &[&[u8]],
) -> (Result<C::ParsedData, CommandError<C::Error>>, Vec<u8>, usize) {
    let (id, frame) = link.run_command_raw(command);
    let mut reads = reads.iter();
    let mut waits = 0;
    loop {
        match link.run_command(command, id) {
            Ok(Step::Ready(parsed)) => return (Ok(parsed), frame, waits),
            Ok(Step::Pending(Demand::Read)) => {
                let chunk = reads.next().copied().unwrap_or(b"");
                if let Err(e) = link.supply(chunk, Err(WOULD_BLOCK)) {
                    return (Err(CommandError::ReceiveError(e)), frame, waits);
                }
            }
            Ok(Step::Pending(Demand::Wait)) => {
                waits += 1;
                assert!(waits < 100, "the command never completes");
            }
            Err(e) => return (Err(e), frame, waits),
        }
    }
}

/// Polls for events against a player whose messages are given as the chunks
/// that successive reads return. Returns the queue as it is shown for debugging.
fn poll(link: &mut MpvLink, reads: &[&[u8]]) -> Result<String, ReceiveError> {
    let mut reads = reads.iter();
    loop {
        match link.poll_events()? {
            Step::Ready(events) => return Ok(format!("{:?}", events)),
            Step::Pending(Demand::Read) => {
                let chunk = reads.next().copied().unwrap_or(b"");
                link.supply(chunk, Err(WOULD_BLOCK))?;
            }
            Step::Pending(Demand::Wait) => panic!("poll_events asked to wait"),
        }
    }
}

fn shown(events: Vec<MpvResponseEvent>) -> String {
    format!("{:?}", events)
}

#[test]
fn request_ids_start_at_one_and_increase() {
    let mut link = MpvLink::new();
    let command = CmdShowProgress::new();
    let mut last = 0;
    for expected in 1..=50 {
        let (id, _) = link.run_command_raw(&command);
        assert_eq!(id, expected);
        assert!(id > last);
        assert_ne!(id, 0);
        last = id;
    }
}

#[test]
fn run_command_raw_frames_the_command_with_its_id() {
    let mut link = MpvLink::new();
    let (id, frame) = link.run_command_raw(&CmdGetVersion::new());
    assert_eq!(id, 1);
    assert_eq!(frame, b"{\"request_id\":1,\"command\":[\"get_version\"]}\n");
    let (id, frame) = link.run_command_raw(&CmdShowProgress::new());
    assert_eq!(id, 2);
    assert_eq!(frame, b"show-progress\n");
    let (id, frame) = link.run_command_raw(&CmdStop::new(true));
    assert_eq!(id, 3);
    assert_eq!(frame, b"{\"request_id\":3,\"command\":[\"stop\",\"keep-playlist\"]}\n");
    assert_eq!(
        MpvLink::send_command(&CmdStop::new(false), 77),
        b"{\"request_id\":77,\"command\":[\"stop\"]}\n"
    );
}

#[test]
fn run_command_returns_the_payload_of_its_result() {
    let mut link = MpvLink::new();
    let (outcome, sent, waits) = run(
        &mut link,
        &CmdGetVersion::new(),
        &[b"{\"data\":131077,\"error\":\"success\",\"request_id\":1}\n"],
    );
    assert_eq!(outcome, Ok((2, 5)));
    assert_eq!(sent, b"{\"request_id\":1,\"command\":[\"get_version\"]}\n");
    assert_eq!(waits, 0);
}

#[test]
fn get_property_round_trip() {
    let mut link = MpvLink::new();
    let (outcome, sent, _) = run(
        &mut link,
        &CmdGetProperty::new(Volume),
        &[b"{\"error\":\"success\",\"data\":62.5,\"request_id\":1}\n"],
    );
    assert_eq!(sent, b"{\"request_id\":1,\"command\":[\"get_property\",\"volume\"]}\n");
    assert_eq!(outcome, Ok(Number { text: "62.5".to_string() }));
    let (outcome, _, _) = run(
        &mut link,
        &CmdGetProperty::new(Pause),
        &[b"{\"error\":\"success\",\"data\":true,\"request_id\":2}\n"],
    );
    assert_eq!(outcome, Ok(true));
    let (outcome, _, _) = run(
        &mut link,
        &CmdGetProperty::new("metadata".to_string()),
        &[b"{\"error\":\"success\",\"data\":{\"title\":\"x\"},\"request_id\":3}\n"],
    );
    assert_eq!(
        outcome,
        Ok(Json::Object(vec![("title".to_string(), "\"x\"".to_string())]))
    );
}

#[test]
fn run_command_waits_when_a_read_brings_no_line() {
    let mut link = MpvLink::new();
    let (outcome, _, waits) = run(
        &mut link,
        &CmdGetProperty::new(Pause),
        &[b"", b"{\"error\":\"succ", b"ess\",\"data\":false,", b"\"request_id\":1}\n"],
    );
    assert_eq!(outcome, Ok(false));
    assert_eq!(waits, 3);
}

#[test]
fn events_before_the_result_are_queued_in_order() {
    let mut link = MpvLink::new();
    let (outcome, _, _) = run(
        &mut link,
        &CmdLoadfile::new(Cow::Borrowed("a.mkv")),
        &[
            b"{\"event\":\"start-file\",\"playlist_entry_id\":1}\n{\"event\":\"seek\"}\n",
            b"{\"event\":\"file-loaded\"}\n{\"data\":{\"playlist_entry_id\":1},\"error\":\"success\",\"request_id\":1}\n{\"event\":\"playback-restart\"}\n",
        ],
    );
    assert_eq!(outcome, Ok(FileloadInfo { playlist_entry_id: 1 }));
    assert_eq!(
        link.drain_events(),
        vec![
            MpvResponseEvent::StartFile { playlist_entry_id: 1 },
            MpvResponseEvent::Seek,
            MpvResponseEvent::FileLoaded,
        ]
    );
    assert_eq!(link.drain_events(), vec![]);
    assert_eq!(poll(&mut link, &[]), Ok(shown(vec![MpvResponseEvent::PlaybackRestart])));
}

#[test]
fn mismatched_request_id_fails_and_keeps_events() {
    let mut link = MpvLink::new();
    assert_eq!(poll(&mut link, &[b"{\"event\":\"seek\"}\n"]), Ok(shown(vec![MpvResponseEvent::Seek])));
    let (outcome, _, _) = run(
        &mut link,
        &CmdGetVersion::new(),
        &[b"{\"event\":\"shutdown\"}\n{\"data\":1,\"error\":\"success\",\"request_id\":7}\n"],
    );
    assert_eq!(
        outcome,
        Err(CommandError::ReceiveError(ReceiveError::RequestIdMismatch { expected: 1, found: 7 }))
    );
    assert_eq!(link.drain_events(), vec![MpvResponseEvent::Seek, MpvResponseEvent::Shutdown]);
}

#[test]
fn result_without_request_id_is_a_mismatch() {
    let mut link = MpvLink::new();
    let (outcome, _, _) = run(&mut link, &CmdGetVersion::new(), &[b"{\"data\":1,\"error\":\"success\"}\n"]);
    assert_eq!(
        outcome,
        Err(CommandError::ReceiveError(ReceiveError::RequestIdMismatch { expected: 1, found: 0 }))
    );
}

#[test]
fn result_error_is_handed_on_without_reading_a_payload() {
    let mut link = MpvLink::new();
    let (outcome, _, _) = run(
        &mut link,
        &CmdGetProperty::new(Pause),
        &[b"{\"error\":\"property not found\",\"request_id\":1}\n"],
    );
    assert_eq!(outcome, Err(CommandError::ResultError(MpvResponseResultError::PropertyNotFound)));
    let (outcome, _, _) = run(
        &mut link,
        &CmdGetProperty::new(Pause),
        &[b"{\"error\":\"property unavailable\",\"data\":\"not a bool\",\"request_id\":2}\n"],
    );
    assert_eq!(outcome, Err(CommandError::ResultError(MpvResponseResultError::PropertyUnavailable)));
}

#[test]
fn unreadable_payload_is_a_data_parse_error() {
    let mut link = MpvLink::new();
    let (outcome, _, _) = run(
        &mut link,
        &CmdGetProperty::new(Pause),
        &[b"{\"error\":\"success\",\"data\":\"yes\",\"request_id\":1}\n"],
    );
    assert_eq!(outcome, Err(CommandError::DataParseError(DataError::Mismatch)));
    let (outcome, _, _) = run(
        &mut link,
        &CmdGetProperty::new(Pause),
        &[b"{\"error\":\"success\",\"request_id\":2}\n"],
    );
    assert_eq!(outcome, Err(CommandError::DataParseError(DataError::Missing)));
}

#[test]
fn malformed_line_is_a_receive_error() {
    let mut link = MpvLink::new();
    let (outcome, _, _) = run(&mut link, &CmdGetVersion::new(), &[b"{\"event\":\"seek\"}\nnot json\n"]);
    assert_eq!(
        outcome,
        Err(CommandError::ReceiveError(ReceiveError::Deserialize(DeserializeError::Syntax)))
    );
    assert_eq!(link.drain_events(), vec![MpvResponseEvent::Seek]);
    let (outcome, _, _) = run(&mut link, &CmdGetVersion::new(), &[b"{\"neither\":1}\n"]);
    assert_eq!(
        outcome,
        Err(CommandError::ReceiveError(ReceiveError::Deserialize(DeserializeError::Shape)))
    );
}

#[test]
fn read_failure_is_a_receive_error() {
    let mut link = MpvLink::new();
    let broken = IoFailure { kind: IoErrorKind::Other, code: Some(104) };
    assert_eq!(link.supply(b"", Err(broken)), Err(ReceiveError::Io(broken)));
    assert_eq!(link.supply(b"", Err(WOULD_BLOCK)), Ok(()));
    assert_eq!(link.supply(b"", Ok(())), Ok(()));
    assert_eq!(ReceiveError::from(broken), ReceiveError::Io(broken));
    assert_eq!(SendError::from(broken), SendError::Io(broken));
    assert_eq!(
        CommandError::<DataError>::from(SendError::Io(broken)),
        CommandError::SendError(SendError::Io(broken))
    );
    assert_eq!(
        CommandError::<DataError>::from(ReceiveError::Io(broken)),
        CommandError::ReceiveError(ReceiveError::Io(broken))
    );
    assert_eq!(
        ReceiveError::from(DeserializeError::Shape),
        ReceiveError::Deserialize(DeserializeError::Shape)
    );
}

#[test]
fn poll_events_returns_empty_queue_without_a_complete_line() {
    let mut link = MpvLink::new();
    assert_eq!(link.poll_events(), Ok(Step::Pending(Demand::Read)));
    assert_eq!(link.supply(b"", Err(WOULD_BLOCK)), Ok(()));
    assert_eq!(link.poll_events(), Ok(Step::Ready(&[][..])));
    assert_eq!(poll(&mut link, &[b"{\"event\":\"se"]), Ok(shown(vec![])));
    assert_eq!(poll(&mut link, &[b"ek\"}\n{\"event\""]), Ok(shown(vec![MpvResponseEvent::Seek])));
    assert_eq!(link.drain_events(), vec![MpvResponseEvent::Seek]);
}

#[test]
fn poll_events_reads_again_after_lines() {
    let mut link = MpvLink::new();
    assert_eq!(
        poll(&mut link, &[b"{\"event\":\"seek\"}\n", b"{\"event\":\"shutdown\"}\n"]),
        Ok(shown(vec![MpvResponseEvent::Seek, MpvResponseEvent::Shutdown]))
    );
}

#[test]
fn poll_events_refuses_a_result() {
    let mut link = MpvLink::new();
    let outcome = poll(
        &mut link,
        &[b"{\"event\":\"seek\"}\n{\"error\":\"success\",\"request_id\":4}\n{\"event\":\"shutdown\"}\n"],
    );
    assert_eq!(
        outcome,
        Err(ReceiveError::UnexpectedResponseResult(MpvResponseResult::Success {
            error: MpvResponseResultSuccess::Success,
            data: None,
            request_id: Some(4),
        }))
    );
    assert_eq!(link.drain_events(), vec![MpvResponseEvent::Seek]);
    assert_eq!(poll(&mut link, &[]), Ok(shown(vec![MpvResponseEvent::Shutdown])));
}

#[test]
fn next_response_takes_one_message_at_a_time() {
    let mut link = MpvLink::new();
    assert_eq!(link.next_response(), Ok(Step::Pending(Demand::Read)));
    link.supply(b"{\"event\":\"seek\"}\n{\"error\":\"invalid parameter\"}\n", Ok(())).unwrap();
    assert_eq!(
        link.next_response(),
        Ok(Step::Ready(Some(MpvResponse::Event(MpvResponseEvent::Seek))))
    );
    assert_eq!(
        link.next_response(),
        Ok(Step::Ready(Some(MpvResponse::Result(MpvResponseResult::Error {
            error: MpvResponseResultError::InvalidParameter,
            request_id: None,
        }))))
    );
    assert_eq!(link.next_response(), Ok(Step::Pending(Demand::Read)));
    link.supply(b"", Err(WOULD_BLOCK)).unwrap();
    assert_eq!(link.next_response(), Ok(Step::Ready(None)));
    assert_eq!(link.next_response(), Ok(Step::Pending(Demand::Read)));
}

#[test]
fn next_result_demands_read_then_wait() {
    let mut link = MpvLink::new();
    assert_eq!(link.next_result(), Ok(Step::Pending(Demand::Read)));
    link.supply(b"", Err(WOULD_BLOCK)).unwrap();
    assert_eq!(link.next_result(), Ok(Step::Pending(Demand::Wait)));
    assert_eq!(link.next_result(), Ok(Step::Pending(Demand::Read)));
    link.supply(b"{\"event\":\"seek\"}\n", Err(WOULD_BLOCK)).unwrap();
    assert_eq!(link.next_result(), Ok(Step::Pending(Demand::Read)));
    link.supply(b"{\"error\":\"success\",\"request_id\":1}\n", Err(WOULD_BLOCK)).unwrap();
    assert_eq!(
        link.next_result(),
        Ok(Step::Ready(MpvResponseResult::Success {
            error: MpvResponseResultSuccess::Success,
            data: None,
            request_id: Some(1),
        }))
    );
    assert_eq!(link.drain_events(), vec![MpvResponseEvent::Seek]);
}

#[test]
fn settle_decides_by_id_then_by_kind() {
    let command = CmdGetProperty::new(Pause);
    let success = |request_id| MpvResponseResult::Success {
        error: MpvResponseResultSuccess::Success,
        data: Some(Json::Bool(true)),
        request_id,
    };
    assert_eq!(settle(&command, 3, success(Some(3))), Ok(true));
    assert_eq!(
        settle(&command, 3, success(Some(4))),
        Err(CommandError::ReceiveError(ReceiveError::RequestIdMismatch { expected: 3, found: 4 }))
    );
    assert_eq!(
        settle(&command, 3, success(None)),
        Err(CommandError::ReceiveError(ReceiveError::RequestIdMismatch { expected: 3, found: 0 }))
    );
    assert_eq!(
        settle(
            &command,
            3,
            MpvResponseResult::Error {
                error: MpvResponseResultError::ErrorRunningCommand,
                request_id: Some(3),
            }
        ),
        Err(CommandError::ResultError(MpvResponseResultError::ErrorRunningCommand))
    );
    assert_eq!(
        settle(
            &command,
            3,
            MpvResponseResult::Error {
                error: MpvResponseResultError::InvalidParameter,
                request_id: Some(2),
            }
        ),
        Err(CommandError::ReceiveError(ReceiveError::RequestIdMismatch { expected: 3, found: 2 }))
    );
}

#[test]
fn request_id_wraps_to_one_and_skips_zero() {
    assert_eq!(mpvsock::link::request_id_after(1), 2);
    assert_eq!(mpvsock::link::request_id_after(41), 42);
    assert_eq!(mpvsock::link::request_id_after(i64::MAX - 1), i64::MAX);
    assert_eq!(mpvsock::link::request_id_after(i64::MAX), 1);
}

#[test]
fn sort_response_queues_events_and_hands_back_results() {
    let mut link = MpvLink::new();
    assert_eq!(link.sort_response(MpvResponse::Event(MpvResponseEvent::Seek)), None);
    let result = MpvResponseResult::Error {
        error: MpvResponseResultError::InvalidParameter,
        request_id: Some(2),
    };
    let copy = MpvResponseResult::Error {
        error: MpvResponseResultError::InvalidParameter,
        request_id: Some(2),
    };
    assert_eq!(link.sort_response(MpvResponse::Result(result)), Some(copy));
    assert_eq!(link.sort_response(MpvResponse::Event(MpvResponseEvent::Shutdown)), None);
    assert_eq!(link.drain_events(), vec![MpvResponseEvent::Seek, MpvResponseEvent::Shutdown]);
}

#[test]
fn queued_events_shows_the_queue_without_taking_it() {
    let mut link = MpvLink::new();
    assert_eq!(link.queued_events(), &[][..]);
    link.supply(b"{\"event\":\"seek\"}\n{\"event\":\"shutdown\"}\n", Ok(())).unwrap();
    assert_eq!(link.poll_events(), Ok(Step::Pending(Demand::Read)));
    assert_eq!(link.queued_events(), &[MpvResponseEvent::Seek, MpvResponseEvent::Shutdown][..]);
    assert_eq!(link.queued_events().len(), 2);
    assert_eq!(link.drain_events(), vec![MpvResponseEvent::Seek, MpvResponseEvent::Shutdown]);
    assert_eq!(link.queued_events(), &[][..]);
}

#[test]
fn after_a_wait_a_command_demands_a_read() {
    let mut link = MpvLink::new();
    let command = CmdGetVersion::new();
    let (id, _) = link.run_command_raw(&command);
    assert_eq!(link.run_command(&command, id), Ok(Step::Pending(Demand::Read)));
    link.supply(b"", Err(WOULD_BLOCK)).unwrap();
    assert_eq!(link.run_command(&command, id), Ok(Step::Pending(Demand::Wait)));
    assert_eq!(link.run_command(&command, id), Ok(Step::Pending(Demand::Read)));
    link.supply(b"{\"data\":65537,\"error\":\"success\",\"request_id\":1}\n", Ok(())).unwrap();
    assert_eq!(link.run_command(&command, id), Ok(Step::Ready((1, 1))));
}
