use aquestalk_proxy::aquestalk::{AquesTalk, Wav};
use aquestalk_proxy::messages::{
    DecodeError, DecodeErrorKind, Request, Response, ResponsePayload, ResponseStatus,
};
use aquestalk_proxy::server::{
    conclude, new_limit_reached_error, new_voice_type_error, plan, send, write_response,
    AquesTalkProxyServer, Decoded, Plan, Session,
};
use std::cell::RefCell;
use std::time::Duration;

/// A synthesis that answers with the text in UTF-8 and records each call.
struct Recorder {
    calls: RefCell<Vec<(String, String, i32)>>,
}

impl Recorder {
    fn new() -> Self {
        Recorder { calls: RefCell::new(Vec::new()) }
    }
}

impl AquesTalk for Recorder {
    fn synthe(&self, voice_type: &str, koe: &str, speed: i32) -> Result<Wav, ResponsePayload> {
        self.calls.borrow_mut().push((voice_type.to_string(), koe.to_string(), speed));
        if voice_type != "f1" {
            return Err(new_voice_type_error(voice_type));
        }
        Ok(Wav::new(koe.as_bytes().to_vec()).unwrap())
    }
}

fn error(kind: DecodeErrorKind, message: &str) -> DecodeError {
    DecodeError { kind, message: message.to_string() }
}

fn request(voice_type: &str, koe: &str) -> Request {
    Request { voice_type: voice_type.to_string(), speed: 100, koe: koe.to_string() }
}

fn value(text: &str, voice_type: &str, koe: &str) -> Decoded {
    Decoded::Value { text: text.to_string(), request: Ok(request(voice_type, koe)) }
}

fn limit_reached() -> Response {
    Response {
        is_success: false,
        will_close: Some(true),
        response: ResponsePayload::IoError { message: "Request is too long".to_string() },
        request: None,
    }
}

#[test]
fn unknown_voice_message_names_the_voice() {
    assert_eq!(
        new_voice_type_error("invalid type"),
        ResponsePayload::AquestalkError {
            code: None,
            message: "不明な声種 (invalid type)".to_string()
        }
    );
    assert_eq!(
        new_voice_type_error(""),
        ResponsePayload::AquestalkError { code: None, message: "不明な声種 ()".to_string() }
    );
}

#[test]
fn limit_reached_has_its_message() {
    assert_eq!(
        new_limit_reached_error(),
        ResponsePayload::IoError { message: "Request is too long".to_string() }
    );
}

#[test]
fn end_of_stream_is_planned_as_silent_end() {
    assert_eq!(plan(Decoded::End), Plan::Finish);
}

#[test]
fn end_inside_a_value_with_empty_budget_is_limit_reached() {
    let decoded = Decoded::Failed {
        error: error(DecodeErrorKind::Eof, "EOF while parsing an object at line 1 column 37"),
        remaining: Some(0),
    };
    assert_eq!(plan(decoded), Plan::Abort { response: limit_reached() });
}

#[test]
fn end_inside_a_value_with_budget_left_is_a_protocol_fault() {
    for remaining in [None, Some(1), Some(u64::MAX)] {
        let decoded = Decoded::Failed {
            error: error(DecodeErrorKind::Eof, "EOF while parsing an object at line 1 column 37"),
            remaining,
        };
        assert_eq!(
            plan(decoded),
            Plan::Abort {
                response: Response {
                    is_success: false,
                    will_close: Some(true),
                    response: ResponsePayload::JsonError {
                        message: "EOF while parsing an object at line 1 column 37".to_string()
                    },
                    request: None,
                }
            }
        );
    }
}

#[test]
fn syntax_error_with_empty_budget_is_a_protocol_fault() {
    let decoded = Decoded::Failed {
        error: error(DecodeErrorKind::Syntax, "expected value at line 1 column 1"),
        remaining: Some(0),
    };
    assert_eq!(
        plan(decoded),
        Plan::Abort {
            response: Response {
                is_success: false,
                will_close: Some(true),
                response: ResponsePayload::JsonError {
                    message: "expected value at line 1 column 1".to_string()
                },
                request: None,
            }
        }
    );
}

#[test]
fn failed_source_is_a_terminal_transport_fault() {
    for remaining in [None, Some(0), Some(9)] {
        let decoded =
            Decoded::Failed { error: error(DecodeErrorKind::Io, "timed out"), remaining };
        assert_eq!(
            plan(decoded),
            Plan::Abort {
                response: Response {
                    is_success: false,
                    will_close: Some(true),
                    response: ResponsePayload::IoError { message: "timed out".to_string() },
                    request: None,
                }
            }
        );
    }
}

#[test]
fn value_that_is_no_request_is_rejected_with_its_text() {
    let decoded = Decoded::Value {
        text: "{\"koee\":\"a\"}".to_string(),
        request: Err(error(
            DecodeErrorKind::Data,
            "unknown field `koee`, expected one of `type`, `speed`, `koe`",
        )),
    };
    assert_eq!(
        plan(decoded),
        Plan::Reject {
            response: Response {
                is_success: false,
                will_close: None,
                response: ResponsePayload::JsonError {
                    message: "unknown field `koee`, expected one of `type`, `speed`, `koe`"
                        .to_string()
                },
                request: Some("{\"koee\":\"a\"}".to_string()),
            }
        }
    );
}

#[test]
fn request_is_planned_for_synthesis() {
    assert_eq!(
        plan(value("{\"koe\":\"a\"}", "f1", "a")),
        Plan::Synthesize { request: request("f1", "a"), text: "{\"koe\":\"a\"}".to_string() }
    );
}

#[test]
fn audio_concludes_as_success() {
    let response = conclude(Ok(Wav::new(b"hello world".to_vec()).unwrap()), "1".to_string());
    assert_eq!(
        response,
        Response {
            is_success: true,
            will_close: None,
            response: ResponsePayload::Wav { wav: "aGVsbG8gd29ybGQ=".to_string() },
            request: Some("1".to_string()),
        }
    );
}

#[test]
fn refusal_concludes_as_recoverable_fault() {
    let refusal = ResponsePayload::AquestalkError { code: Some(111), message: "m".to_string() };
    let response = conclude(Err(refusal.clone()), "1".to_string());
    assert_eq!(
        response,
        Response {
            is_success: false,
            will_close: None,
            response: refusal,
            request: Some("1".to_string()),
        }
    );
}

#[test]
fn new_session_is_open_and_keeps_its_limit() {
    let session = Session::new(Some(37));
    assert!(!session.is_closed());
    assert_eq!(session.limit(), Some(37));
    assert_eq!(Session::new(None).limit(), None);
}

#[test]
fn request_with_known_voice_succeeds_and_session_stays_open() {
    let aqtk = Recorder::new();
    let mut session = Session::new(None);
    let response = session.handle(&aqtk, value("{\"koe\":\"a\"}", "f1", "hello world")).unwrap();
    assert!(response.is_success);
    assert_eq!(response.will_close, None);
    assert_eq!(response.response, ResponsePayload::Wav { wav: "aGVsbG8gd29ybGQ=".to_string() });
    assert_eq!(response.request, Some("{\"koe\":\"a\"}".to_string()));
    assert!(!session.is_closed());
    assert_eq!(
        *aqtk.calls.borrow(),
        vec![("f1".to_string(), "hello world".to_string(), 100)]
    );
}

#[test]
fn request_with_unknown_voice_fails_without_code_and_session_stays_open() {
    let aqtk = Recorder::new();
    let mut session = Session::new(None);
    let response = session.handle(&aqtk, value("{}", "invalid type", "a")).unwrap();
    assert!(!response.is_success);
    assert_eq!(response.will_close, None);
    assert_eq!(
        response.response,
        ResponsePayload::AquestalkError {
            code: None,
            message: "不明な声種 (invalid type)".to_string()
        }
    );
    assert!(!session.is_closed());
}

#[test]
fn exhausted_budget_ends_the_session_with_one_response() {
    let aqtk = Recorder::new();
    let mut session = Session::new(Some(37));
    let decoded = Decoded::Failed {
        error: error(DecodeErrorKind::Eof, "EOF while parsing an object at line 1 column 37"),
        remaining: Some(0),
    };
    assert_eq!(session.handle(&aqtk, decoded), Some(limit_reached()));
    assert!(session.is_closed());
    assert_eq!(session.handle(&aqtk, value("{}", "f1", "a")), None);
    assert_eq!(session.handle(&aqtk, Decoded::End), None);
    assert!(session.is_closed());
    assert!(aqtk.calls.borrow().is_empty());
    assert_eq!(session.limit(), Some(37));
}

#[test]
fn broken_value_ends_the_session() {
    let aqtk = Recorder::new();
    let mut session = Session::new(None);
    let decoded = Decoded::Failed {
        error: error(DecodeErrorKind::Syntax, "expected value at line 1 column 8"),
        remaining: None,
    };
    let response = session.handle(&aqtk, decoded).unwrap();
    assert_eq!(response.will_close, Some(true));
    assert!(!response.is_success);
    assert_eq!(response.request, None);
    assert!(session.is_closed());
}

#[test]
fn rejected_value_leaves_the_session_open_and_asks_no_synthesis() {
    let aqtk = Recorder::new();
    let mut session = Session::new(None);
    let decoded = Decoded::Value {
        text: "[]".to_string(),
        request: Err(error(DecodeErrorKind::Data, "invalid type")),
    };
    let response = session.handle(&aqtk, decoded).unwrap();
    assert_eq!(response.will_close, None);
    assert_eq!(response.request, Some("[]".to_string()));
    assert!(!session.is_closed());
    assert!(aqtk.calls.borrow().is_empty());
}

#[test]
fn end_of_stream_closes_without_a_response() {
    let aqtk = Recorder::new();
    let mut session = Session::new(None);
    assert_eq!(session.handle(&aqtk, Decoded::End), None);
    assert!(session.is_closed());
}

#[test]
fn same_request_twice_is_answered_twice_alike() {
    let aqtk = Recorder::new();
    let mut session = Session::new(None);
    let first = session.handle(&aqtk, value("{\"koe\":\"a\"}", "f1", "a")).unwrap();
    let second = session.handle(&aqtk, value("{\"koe\":\"a\"}", "f1", "a")).unwrap();
    assert!(first.is_success);
    assert_eq!(first, second);
    assert_eq!(aqtk.calls.borrow().len(), 2);
    let fresh = Session::new(None).handle(&aqtk, value("{\"koe\":\"a\"}", "f1", "a")).unwrap();
    assert_eq!(second, fresh);
}

#[test]
fn responses_are_written_as_lines_one_after_the_other() {
    let mut writer = b"x".to_vec();
    write_response(&mut writer, ResponseStatus::Error, new_limit_reached_error(), None);
    write_response(
        &mut writer,
        ResponseStatus::Success,
        ResponsePayload::from_wav(b"hello world"),
        Some("{\"koe\":\"あ\"}".to_string()),
    );
    let expected = "x{\"isSuccess\":false,\"willClose\":true,\"response\":{\"type\":\"IoError\",\"message\":\"Request is too long\"}}\n{\"isSuccess\":true,\"response\":{\"type\":\"Wav\",\"wav\":\"aGVsbG8gd29ybGQ=\"},\"request\":{\"koe\":\"あ\"}}\n";
    assert_eq!(writer, expected.as_bytes());
}

#[test]
fn send_writes_what_write_response_writes() {
    let mut one = Vec::new();
    let mut other = Vec::new();
    send(&mut one, &limit_reached());
    write_response(&mut other, ResponseStatus::Error, new_limit_reached_error(), None);
    assert_eq!(one, other);
}

#[test]
fn server_starts_with_one_worker_and_no_limits() {
    let server = AquesTalkProxyServer::new(7u8);
    assert_eq!(*server.aqtks(), 7);
    assert_eq!(server.num_threads(), 1);
    assert_eq!(server.timeout(), None);
    assert_eq!(server.limit(), None);
    let session = server.session();
    assert!(!session.is_closed());
    assert_eq!(session.limit(), None);
}

#[test]
fn server_setters_change_one_thing_each() {
    let mut server = AquesTalkProxyServer::new("voices");
    server.set_num_threads(4);
    assert_eq!((server.num_threads(), server.timeout(), server.limit()), (4, None, None));
    server.set_timeout(Some(Duration::from_millis(1500)));
    assert_eq!(
        (server.num_threads(), server.timeout(), server.limit()),
        (4, Some(Duration::from_millis(1500)), None)
    );
    server.set_limit(Some(37));
    assert_eq!(
        (server.num_threads(), server.timeout(), server.limit()),
        (4, Some(Duration::from_millis(1500)), Some(37))
    );
    assert_eq!(server.session().limit(), Some(37));
    server.set_limit(None);
    server.set_timeout(None);
    assert_eq!((server.num_threads(), server.timeout(), server.limit()), (4, None, None));
    assert_eq!(*server.aqtks(), "voices");
}
