use mpvsock::command::response::{
    DeserializeError, Envelope, MpvResponse, MpvResponseEvent, MpvResponseEventPropertyName,
    MpvResponseResult, MpvResponseResultError, MpvResponseResultSuccess,
};
use mpvsock::json::Json;

fn object(members: Vec<(&str, serde_json::Value)>) -> Vec<u8> {
    let mut map = serde_json::Map::new();
    for (key, value) in members {
        map.insert(key.to_string(), value);
    }
    serde_json::to_vec(&serde_json::Value::Object(map)).unwrap()
}

fn event(line: &[u8]) -> MpvResponseEvent {
    match MpvResponse::decode(line) {
        Ok(MpvResponse::Event(event)) => event,
        other => panic!("Expected an event but found {:?}", other),
    }
}

fn result(line: &[u8]) -> MpvResponseResult {
    match MpvResponse::decode(line) {
        Ok(MpvResponse::Result(result)) => result,
        other => panic!("Expected a result but found {:?}", other),
    }
}

fn empty_envelope() -> Envelope {
    Envelope {
        event: None,
        error: None,
        request_id: None,
        id: None,
        name: None,
        playlist_entry_id: None,
        data: None,
    }
}

#[test]
fn test_mpv_response_event_property_change() {
    let json = object(vec![
        ("event", serde_json::Value::from("property-change")),
        ("id", serde_json::Value::from(1)),
        ("name", serde_json::Value::from("filename")),
    ]);

    let response: MpvResponseEvent = event(&json);

    match response {
        MpvResponseEvent::PropertyChange {
            id: 1,
            name: MpvResponseEventPropertyName::Filename,
            data: Json::Null,
        } => (),
        me => panic!("Expected MpvResponseEvent::PropertyChange {{ id: 1, name: Filename, data: null }} but found {:?}", me),
    }
}

#[test]
fn test_mpv_response_event_property_change_name_unknown_parse() {
    let json = object(vec![
        ("event", serde_json::Value::from("property-change")),
        ("id", serde_json::Value::from(1)),
        ("name", serde_json::Value::from("whatever-unknown-thing")),
    ]);

    let response: MpvResponseEvent = event(&json);

    match response {
        MpvResponseEvent::PropertyChange {
            id: 1,
            name: MpvResponseEventPropertyName::Unknown(ref name),
            data: Json::Null,
        } if name == "whatever-unknown-thing" => (),
        me => panic!("Expected MpvResponseEvent::PropertyChange {{ id: 1, name: Unknown(\"whatever-unknown-thing\"), data: null }} but found {:?}", me),
    }
}

#[test]
fn test_mpv_response_event_unknown_parse() {
    let json = object(vec![("event", serde_json::Value::from("idle"))]);

    let response: MpvResponseEvent = event(&json);

    match response {
        MpvResponseEvent::Unknown => (),
        me => panic!("Expected MpvResponseEvent::Unknown() but found {:?}", me),
    }
}

#[test]
fn property_change_carries_its_data() {
    assert_eq!(
        event(b"{\"event\":\"property-change\",\"id\":2,\"name\":\"volume\",\"data\":55.5}"),
        MpvResponseEvent::PropertyChange {
            id: 2,
            name: MpvResponseEventPropertyName::Volume,
            data: Json::Number("55.5".to_string()),
        }
    );
    assert_eq!(
        event(b"{\"event\":\"property-change\",\"id\":-3,\"name\":\"filename/no-ext\",\"data\":\"song\"}"),
        MpvResponseEvent::PropertyChange {
            id: -3,
            name: MpvResponseEventPropertyName::FilenameNoExt,
            data: Json::Text("song".to_string()),
        }
    );
}

#[test]
fn events_by_name() {
    assert_eq!(event(b"{\"event\":\"log-message\",\"text\":\"x\"}"), MpvResponseEvent::LogMessage);
    assert_eq!(
        event(b"{\"event\":\"start-file\",\"playlist_entry_id\":3}"),
        MpvResponseEvent::StartFile { playlist_entry_id: 3 }
    );
    assert_eq!(event(b"{\"event\":\"end-file\",\"reason\":\"eof\"}"), MpvResponseEvent::EndFile);
    assert_eq!(event(b"{\"event\":\"file-loaded\"}"), MpvResponseEvent::FileLoaded);
    assert_eq!(event(b"{\"event\":\"seek\"}"), MpvResponseEvent::Seek);
    assert_eq!(event(b"{\"event\":\"playback-restart\"}"), MpvResponseEvent::PlaybackRestart);
    assert_eq!(event(b"{\"event\":\"shutdown\"}"), MpvResponseEvent::Shutdown);
    assert_eq!(event(b"{\"event\":\"audio-reconfig\"}"), MpvResponseEvent::AudioReconfig);
    assert_eq!(event(b"{\"event\":\"video-reconfig\"}"), MpvResponseEvent::VideoReconfig);
    assert_eq!(event(b"{\"event\":\"tick\"}"), MpvResponseEvent::Unknown);
}

#[test]
fn property_name_by_word() {
    assert_eq!(
        MpvResponseEventPropertyName::deserialize_with_unknown("volume".to_string()),
        MpvResponseEventPropertyName::Volume
    );
    assert_eq!(
        MpvResponseEventPropertyName::deserialize_with_unknown("filename".to_string()),
        MpvResponseEventPropertyName::Filename
    );
    assert_eq!(
        MpvResponseEventPropertyName::deserialize_with_unknown("filename/no-ext".to_string()),
        MpvResponseEventPropertyName::FilenameNoExt
    );
    assert_eq!(
        MpvResponseEventPropertyName::deserialize_with_unknown("pause".to_string()),
        MpvResponseEventPropertyName::Unknown("pause".to_string())
    );
}

#[test]
fn success_with_and_without_payload() {
    assert_eq!(
        result(b"{\"error\":\"success\",\"data\":true,\"request_id\":5}"),
        MpvResponseResult::Success {
            error: MpvResponseResultSuccess::Success,
            data: Some(Json::Bool(true)),
            request_id: Some(5),
        }
    );
    assert_eq!(
        result(b"{\"error\":\"success\",\"request_id\":6}"),
        MpvResponseResult::Success {
            error: MpvResponseResultSuccess::Success,
            data: None,
            request_id: Some(6),
        }
    );
    assert_eq!(
        result(b"{\"error\":\"success\",\"data\":null,\"request_id\":null}"),
        MpvResponseResult::Success {
            error: MpvResponseResultSuccess::Success,
            data: Some(Json::Null),
            request_id: None,
        }
    );
    assert_eq!(
        result(b"{\"error\":\"success\"}"),
        MpvResponseResult::Success {
            error: MpvResponseResultSuccess::Success,
            data: None,
            request_id: None,
        }
    );
}

#[test]
fn property_not_found_is_a_result_error() {
    let response = result(b"{\"error\":\"property not found\",\"request_id\":9}");
    assert_eq!(
        response,
        MpvResponseResult::Error {
            error: MpvResponseResultError::PropertyNotFound,
            request_id: Some(9),
        }
    );
    assert_eq!(response.request_id(), Some(9));
}

#[test]
fn failures_by_word() {
    for (word, error) in [
        ("invalid parameter", MpvResponseResultError::InvalidParameter),
        ("property unavailable", MpvResponseResultError::PropertyUnavailable),
        ("property not found", MpvResponseResultError::PropertyNotFound),
        ("error running command", MpvResponseResultError::ErrorRunningCommand),
    ] {
        assert_eq!(MpvResponseResultError::from_word(word), Some(error));
        let line = object(vec![
            ("error", serde_json::Value::from(word)),
            ("data", serde_json::Value::from(1)),
        ]);
        assert_eq!(result(&line), MpvResponseResult::Error { error, request_id: None });
    }
    assert_eq!(MpvResponseResultError::from_word("success"), None);
    assert_eq!(MpvResponseResultError::from_word("Invalid parameter"), None);
}

#[test]
fn lines_that_are_no_message() {
    assert_eq!(MpvResponse::decode(b"{\"error\":"), Err(DeserializeError::Syntax));
    assert_eq!(MpvResponse::decode(b""), Err(DeserializeError::Syntax));
    assert_eq!(MpvResponse::decode(b"[1]"), Err(DeserializeError::Shape));
    assert_eq!(MpvResponse::decode(b"\"success\""), Err(DeserializeError::Shape));
    assert_eq!(MpvResponse::decode(b"{}"), Err(DeserializeError::Shape));
    assert_eq!(MpvResponse::decode(b"{\"error\":\"no such error\"}"), Err(DeserializeError::Shape));
    assert_eq!(MpvResponse::decode(b"{\"error\":5}"), Err(DeserializeError::Shape));
    assert_eq!(
        MpvResponse::decode(b"{\"error\":\"success\",\"request_id\":\"7\"}"),
        Err(DeserializeError::Shape)
    );
    assert_eq!(
        MpvResponse::decode(b"{\"error\":\"success\",\"request_id\":1.5}"),
        Err(DeserializeError::Shape)
    );
    assert_eq!(MpvResponse::decode(b"{\"event\":\"property-change\"}"), Err(DeserializeError::Shape));
    assert_eq!(
        MpvResponse::decode(b"{\"event\":\"property-change\",\"id\":\"1\",\"name\":\"volume\"}"),
        Err(DeserializeError::Shape)
    );
    assert_eq!(MpvResponse::decode(b"{\"event\":\"start-file\"}"), Err(DeserializeError::Shape));
    assert_eq!(MpvResponse::decode(b"{\"event\":7}"), Err(DeserializeError::Shape));
}

#[test]
fn an_event_member_decides_before_an_error_member() {
    assert_eq!(
        MpvResponse::decode(b"{\"event\":\"seek\",\"error\":\"success\"}"),
        Ok(MpvResponse::Event(MpvResponseEvent::Seek))
    );
    assert_eq!(
        MpvResponse::decode(b"{\"event\":\"start-file\",\"error\":\"success\",\"request_id\":1}"),
        Ok(MpvResponse::Result(MpvResponseResult::Success {
            error: MpvResponseResultSuccess::Success,
            data: None,
            request_id: Some(1),
        }))
    );
}

#[test]
fn envelope_holds_the_deciding_members() {
    assert_eq!(
        Envelope::read(b"{\"event\":\"property-change\",\"id\":1,\"name\":\"pause\",\"data\":false,\"more\":[]}"),
        Ok(Envelope {
            event: Some(Json::Text("property-change".to_string())),
            error: None,
            request_id: None,
            id: Some(Json::Number("1".to_string())),
            name: Some(Json::Text("pause".to_string())),
            playlist_entry_id: None,
            data: Some(Json::Bool(false)),
        })
    );
    assert_eq!(Envelope::read(b"{}"), Ok(empty_envelope()));
    assert_eq!(Envelope::read(b"7"), Err(DeserializeError::Shape));
    assert_eq!(Envelope::read(b"{"), Err(DeserializeError::Syntax));
}

#[test]
fn from_envelope_classifies() {
    let mut envelope = empty_envelope();
    assert_eq!(MpvResponse::from_envelope(envelope), Err(DeserializeError::Shape));
    envelope = empty_envelope();
    envelope.error = Some(Json::Text("property not found".to_string()));
    envelope.data = Some(Json::Text("ignored".to_string()));
    assert_eq!(
        MpvResponse::from_envelope(envelope),
        Ok(MpvResponse::Result(MpvResponseResult::Error {
            error: MpvResponseResultError::PropertyNotFound,
            request_id: None,
        }))
    );
    envelope = empty_envelope();
    envelope.event = Some(Json::Text("start-file".to_string()));
    envelope.playlist_entry_id = Some(Json::Number("12".to_string()));
    assert_eq!(
        MpvResponse::from_envelope(envelope),
        Ok(MpvResponse::Event(MpvResponseEvent::StartFile { playlist_entry_id: 12 }))
    );
}
