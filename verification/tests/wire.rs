use aquestalk_proxy::messages::{Request, Response, ResponsePayload, ResponseStatus};
use aquestalk_proxy::wire::{append_decimal, encode_request, encode_response};
use serde_json::Value;

fn decimal(n: i32) -> String {
    let mut out = String::new();
    append_decimal(&mut out, n);
    out
}

#[test]
fn integers_are_written_in_decimal() {
    assert_eq!(decimal(0), "0");
    assert_eq!(decimal(7), "7");
    assert_eq!(decimal(10), "10");
    assert_eq!(decimal(105), "105");
    assert_eq!(decimal(-1), "-1");
    assert_eq!(decimal(-120), "-120");
    assert_eq!(decimal(i32::MAX), "2147483647");
    assert_eq!(decimal(i32::MIN), "-2147483648");
    for n in [1, 9, 11, 99, 100, 1000, 65535, -9, -10, -99999] {
        assert_eq!(decimal(n), n.to_string());
    }
}

#[test]
fn decimal_is_appended_to_what_is_there() {
    let mut out = "speed=".to_string();
    append_decimal(&mut out, 42);
    assert_eq!(out, "speed=42");
}

#[test]
fn success_on_the_wire() {
    let response = Response::new(
        ResponseStatus::Success,
        ResponsePayload::from_wav(b"hello world"),
        Some("{\"koe\":\"a\"}".to_string()),
    );
    assert_eq!(
        encode_response(&response),
        "{\"isSuccess\":true,\"response\":{\"type\":\"Wav\",\"wav\":\"aGVsbG8gd29ybGQ=\"},\"request\":{\"koe\":\"a\"}}"
    );
}

#[test]
fn engine_fault_on_the_wire() {
    let response = Response::new(
        ResponseStatus::RecoverableError,
        ResponsePayload::AquestalkError { code: Some(105), message: "x".to_string() },
        Some("1".to_string()),
    );
    assert_eq!(
        encode_response(&response),
        "{\"isSuccess\":false,\"response\":{\"type\":\"AquestalkError\",\"code\":105,\"message\":\"x\"},\"request\":1}"
    );
}

#[test]
fn unknown_voice_on_the_wire_has_no_code() {
    let response = Response::new(
        ResponseStatus::RecoverableError,
        ResponsePayload::AquestalkError { code: None, message: "不明な声種 (x)".to_string() },
        Some("{}".to_string()),
    );
    assert_eq!(
        encode_response(&response),
        "{\"isSuccess\":false,\"response\":{\"type\":\"AquestalkError\",\"message\":\"不明な声種 (x)\"},\"request\":{}}"
    );
}

#[test]
fn terminal_faults_on_the_wire() {
    let response = Response::new(
        ResponseStatus::Error,
        ResponsePayload::IoError { message: "Request is too long".to_string() },
        None,
    );
    assert_eq!(
        encode_response(&response),
        "{\"isSuccess\":false,\"willClose\":true,\"response\":{\"type\":\"IoError\",\"message\":\"Request is too long\"}}"
    );
    let response = Response::new(
        ResponseStatus::Error,
        ResponsePayload::JsonError { message: "expected value at line 1 column 1".to_string() },
        None,
    );
    assert_eq!(
        encode_response(&response),
        "{\"isSuccess\":false,\"willClose\":true,\"response\":{\"type\":\"JsonError\",\"message\":\"expected value at line 1 column 1\"}}"
    );
}

#[test]
fn will_close_false_is_written_when_present() {
    let response = Response {
        is_success: true,
        will_close: Some(false),
        response: ResponsePayload::Wav { wav: String::new() },
        request: None,
    };
    assert_eq!(
        encode_response(&response),
        "{\"isSuccess\":true,\"willClose\":false,\"response\":{\"type\":\"Wav\",\"wav\":\"\"}}"
    );
}

#[test]
fn messages_are_escaped_as_json_strings() {
    let message = "invalid type: string \"a\\b\", expected i32\n\tline\u{1}";
    let response = Response::new(
        ResponseStatus::RecoverableError,
        ResponsePayload::JsonError { message: message.to_string() },
        Some("null".to_string()),
    );
    let text = encode_response(&response);
    assert_eq!(
        text,
        "{\"isSuccess\":false,\"response\":{\"type\":\"JsonError\",\"message\":\"invalid type: string \\\"a\\\\b\\\", expected i32\\n\\tline\\u0001\"},\"request\":null}"
    );
    let parsed: Value = serde_json::from_str(&text).unwrap();
    assert_eq!(parsed["response"]["message"], Value::String(message.to_string()));
}

#[test]
fn response_is_one_line() {
    let response = Response::new(
        ResponseStatus::RecoverableError,
        ResponsePayload::JsonError { message: "a\nb\r\nc".to_string() },
        None,
    );
    assert!(!encode_response(&response).contains('\n'));
}

#[test]
fn request_on_the_wire() {
    let request =
        Request { voice_type: "f1".to_string(), speed: 100, koe: "こんにちわ、せ'かい".to_string() };
    assert_eq!(
        encode_request(&request),
        "{\"type\":\"f1\",\"speed\":100,\"koe\":\"こんにちわ、せ'かい\"}"
    );
    let request = Request { voice_type: "a\"b".to_string(), speed: -3, koe: String::new() };
    assert_eq!(encode_request(&request), "{\"type\":\"a\\\"b\",\"speed\":-3,\"koe\":\"\"}");
}
