//! The wire format: each message as one JSON object, written without
//! spaces, with its fields in a fixed order.

use crate::messages::{PayloadView, Request, RequestView, Response, ResponsePayload, ResponseView};
use vstd::prelude::*;
use vstd::string::StringExecFns;

verus! {

/// A string as JSON: between double quotes, with the escapes that
/// `serde_json` writes.
pub uninterp spec fn json_string_text(s: Seq<char>) -> Seq<char>;

/// Calls `serde_json::to_string` on a string. The result is the JSON string
/// literal for it. The call cannot fail for a string: the crate fails only
/// for values that refuse to be written and for maps with keys that are no
/// strings.
#[verifier::external_body]
fn json_string(s: &str) -> (text: String)
    ensures
        text@ == json_string_text(s@),
{
    serde_json::to_string(s).unwrap_or_default()
}

/// The character for one decimal digit.
pub open spec fn digit(d: int) -> char
    recommends
        0 <= d < 10,
{
    if d == 0 {
        '0'
    } else if d == 1 {
        '1'
    } else if d == 2 {
        '2'
    } else if d == 3 {
        '3'
    } else if d == 4 {
        '4'
    } else if d == 5 {
        '5'
    } else if d == 6 {
        '6'
    } else if d == 7 {
        '7'
    } else if d == 8 {
        '8'
    } else {
        '9'
    }
}

/// A natural number in decimal, without leading zeros.
pub open spec fn decimal_nat(n: nat) -> Seq<char>
    decreases n,
{
    if n < 10 {
        seq![digit(n as int)]
    } else {
        decimal_nat(n / 10).push(digit((n % 10) as int))
    }
}

/// An integer in decimal, with a minus sign where it is negative.
pub open spec fn decimal(n: int) -> Seq<char> {
    if n < 0 {
        seq!['-'] + decimal_nat((-n) as nat)
    } else {
        decimal_nat(n as nat)
    }
}

/// A truth value as JSON.
pub open spec fn bool_text(b: bool) -> Seq<char> {
    if b {
        "true"@
    } else {
        "false"@
    }
}

/// The field for the code of a fault, left out where there is none.
pub open spec fn code_field(code: Option<i32>) -> Seq<char> {
    match code {
        Some(c) => ",\"code\":"@ + decimal(c as int),
        None => Seq::empty(),
    }
}

/// A payload on the wire: its kind under `type`, then its own fields.
pub open spec fn payload_json(payload: PayloadView) -> Seq<char> {
    match payload {
        PayloadView::Wav { wav } => "{\"type\":\"Wav\",\"wav\":"@ + json_string_text(wav) + "}"@,
        PayloadView::AquestalkError { code, message } => "{\"type\":\"AquestalkError\""@
            + code_field(code) + ",\"message\":"@ + json_string_text(message) + "}"@,
        PayloadView::JsonError { message } => "{\"type\":\"JsonError\",\"message\":"@
            + json_string_text(message) + "}"@,
        PayloadView::IoError { message } => "{\"type\":\"IoError\",\"message\":"@
            + json_string_text(message) + "}"@,
    }
}

/// The field that announces the end of the session, left out where the
/// session goes on.
pub open spec fn will_close_field(will_close: Option<bool>) -> Seq<char> {
    match will_close {
        Some(b) => ",\"willClose\":"@ + bool_text(b),
        None => Seq::empty(),
    }
}

/// The field that gives the request back, left out where none was read.
pub open spec fn request_field(request: Option<Seq<char>>) -> Seq<char> {
    match request {
        Some(text) => ",\"request\":"@ + text,
        None => Seq::empty(),
    }
}

/// A response on the wire.
pub open spec fn response_json(response: ResponseView) -> Seq<char> {
    "{\"isSuccess\":"@ + bool_text(response.is_success) + will_close_field(response.will_close)
        + ",\"response\":"@ + payload_json(response.response) + request_field(response.request)
        + "}"@
}

/// A request on the wire.
pub open spec fn request_json(request: RequestView) -> Seq<char> {
    "{\"type\":"@ + json_string_text(request.voice_type) + ",\"speed\":"@ + decimal(request.speed)
        + ",\"koe\":"@ + json_string_text(request.koe) + "}"@
}

fn digit_str(d: u32) -> (s: &'static str)
    requires
        d < 10,
    ensures
        s@ == seq![digit(d as int)],
{
    proof {
        reveal_strlit("0");
        reveal_strlit("1");
        reveal_strlit("2");
        reveal_strlit("3");
        reveal_strlit("4");
        reveal_strlit("5");
        reveal_strlit("6");
        reveal_strlit("7");
        reveal_strlit("8");
        reveal_strlit("9");
    }
    let s = if d == 0 {
        "0"
    } else if d == 1 {
        "1"
    } else if d == 2 {
        "2"
    } else if d == 3 {
        "3"
    } else if d == 4 {
        "4"
    } else if d == 5 {
        "5"
    } else if d == 6 {
        "6"
    } else if d == 7 {
        "7"
    } else if d == 8 {
        "8"
    } else {
        "9"
    };
    assert(s@ =~= seq![digit(d as int)]);
    s
}

fn append_decimal_nat(out: &mut String, n: u32)
    ensures
        final(out)@ == old(out)@ + decimal_nat(n as nat),
    decreases n,
{
    if n >= 10 {
        append_decimal_nat(out, n / 10);
    }
    out.append(digit_str(n % 10));
    assert(out@ =~= old(out)@ + decimal_nat(n as nat));
}

/// Appends an integer in decimal.
pub fn append_decimal(out: &mut String, n: i32)
    ensures
        final(out)@ == old(out)@ + decimal(n as int),
{
    if n < 0 {
        proof {
            reveal_strlit("-");
        }
        out.append("-");
        let magnitude = (0 - n as i64) as u32;
        append_decimal_nat(out, magnitude);
        assert(out@ =~= old(out)@ + decimal(n as int));
    } else {
        append_decimal_nat(out, n as u32);
    }
}

fn append_bool(out: &mut String, b: bool)
    ensures
        final(out)@ == old(out)@ + bool_text(b),
{
    if b {
        out.append("true");
    } else {
        out.append("false");
    }
}

fn append_payload(out: &mut String, payload: &ResponsePayload)
    ensures
        final(out)@ == old(out)@ + payload_json(payload@),
{
    match payload {
        ResponsePayload::Wav { wav } => {
            out.append("{\"type\":\"Wav\",\"wav\":");
            let quoted = json_string(wav.as_str());
            out.append(quoted.as_str());
            out.append("}");
        },
        ResponsePayload::AquestalkError { code, message } => {
            out.append("{\"type\":\"AquestalkError\"");
            match code {
                Some(c) => {
                    out.append(",\"code\":");
                    append_decimal(out, *c);
                },
                None => {},
            }
            assert(out@ =~= old(out)@ + ("{\"type\":\"AquestalkError\""@ + code_field(*code)));
            out.append(",\"message\":");
            let quoted = json_string(message.as_str());
            out.append(quoted.as_str());
            out.append("}");
        },
        ResponsePayload::JsonError { message } => {
            out.append("{\"type\":\"JsonError\",\"message\":");
            let quoted = json_string(message.as_str());
            out.append(quoted.as_str());
            out.append("}");
        },
        ResponsePayload::IoError { message } => {
            out.append("{\"type\":\"IoError\",\"message\":");
            let quoted = json_string(message.as_str());
            out.append(quoted.as_str());
            out.append("}");
        },
    }
    assert(out@ =~= old(out)@ + payload_json(payload@));
}

/// Writes a response as one JSON object.
pub fn encode_response(response: &Response) -> (text: String)
    ensures
        text@ == response_json(response@),
{
    let mut out = String::from_str("{\"isSuccess\":");
    append_bool(&mut out, response.is_success);
    match response.will_close {
        Some(b) => {
            out.append(",\"willClose\":");
            append_bool(&mut out, b);
        },
        None => {},
    }
    assert(out@ =~= "{\"isSuccess\":"@ + bool_text(response.is_success) + will_close_field(
        response.will_close,
    ));
    out.append(",\"response\":");
    append_payload(&mut out, &response.response);
    let ghost before = out@;
    match &response.request {
        Some(text) => {
            out.append(",\"request\":");
            out.append(text.as_str());
        },
        None => {},
    }
    assert(out@ =~= before + request_field(response@.request));
    out.append("}");
    out
}

/// Writes a request as one JSON object.
pub fn encode_request(request: &Request) -> (text: String)
    ensures
        text@ == request_json(request@),
{
    let mut out = String::from_str("{\"type\":");
    let voice = json_string(request.voice_type.as_str());
    out.append(voice.as_str());
    out.append(",\"speed\":");
    append_decimal(&mut out, request.speed);
    out.append(",\"koe\":");
    let koe = json_string(request.koe.as_str());
    out.append(koe.as_str());
    out.append("}");
    out
}

} // verus!
