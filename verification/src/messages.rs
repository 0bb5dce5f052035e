//! The messages of the protocol: what a peer asks for and what it is told.

use crate::aquestalk::{is_known_code, message_of, Error};
use vstd::prelude::*;
use vstd::string::StringExecFns;
use vstd::utf8::encode_utf8;

verus! {

/// The longest audio buffer, in bytes, that is turned into text: with it the
/// text stays within what a `usize` of 32 bits can address.
pub const MAX_WAV_BYTES: usize = 0x3fff_ffff;

/// The longest text, in bytes of UTF-8, that is turned back into audio: the
/// length of the text of [`MAX_WAV_BYTES`] bytes.
pub const MAX_WAV_TEXT_BYTES: usize = 0x5555_5554;

/// The voice that a request without `type` asks for.
pub open spec fn default_type_spec() -> Seq<char> {
    "f1"@
}

/// The speed, in percent, of a request without `speed`.
pub open spec fn default_speed_spec() -> int {
    100
}

/// One synthesis request.
#[derive(Debug, Clone, PartialEq, Eq)]
pub struct Request {
    /// Identifier of the voice, `type` on the wire.
    pub voice_type: String,
    /// Speaking speed in percent.
    pub speed: i32,
    /// The phonetic text to speak.
    pub koe: String,
}

/// A request as the contracts see it.
pub struct RequestView {
    pub voice_type: Seq<char>,
    pub speed: int,
    pub koe: Seq<char>,
}

impl View for Request {
    type V = RequestView;

    open spec fn view(&self) -> RequestView {
        RequestView { voice_type: self.voice_type@, speed: self.speed as int, koe: self.koe@ }
    }
}

/// The voice of a request that names none.
pub fn default_type() -> (voice: String)
    ensures
        voice@ == default_type_spec(),
{
    String::from_str("f1")
}

/// The speed of a request that gives none.
pub fn default_speed() -> (speed: i32)
    ensures
        speed == default_speed_spec(),
{
    100
}

/// The request that a peer makes when it leaves out `type`, `speed` or both.
pub open spec fn request_with_defaults(
    voice_type: Option<Seq<char>>,
    speed: Option<int>,
    koe: Seq<char>,
) -> RequestView {
    RequestView {
        voice_type: match voice_type {
            Some(v) => v,
            None => default_type_spec(),
        },
        speed: match speed {
            Some(s) => s,
            None => default_speed_spec(),
        },
        koe,
    }
}

impl Request {
    /// Fills in the defaults for the fields that the peer left out.
    pub fn with_defaults(voice_type: Option<String>, speed: Option<i32>, koe: String) -> (request:
        Request)
        ensures
            request@ == request_with_defaults(
                match voice_type {
                    Some(v) => Some(v@),
                    None => None,
                },
                match speed {
                    Some(s) => Some(s as int),
                    None => None,
                },
                koe@,
            ),
    {
        let voice_type = match voice_type {
            Some(v) => v,
            None => default_type(),
        };
        let speed = match speed {
            Some(s) => s,
            None => default_speed(),
        };
        Request { voice_type, speed, koe }
    }
}

/// How an exchange ended, as far as the session is concerned.
#[derive(Debug, Clone, Copy, PartialEq, Eq)]
pub enum ResponseStatus {
    /// The request was served.
    Success,
    /// The request failed; the session goes on.
    RecoverableError,
    /// The session is over.
    Error,
}

/// What a response says, by kind.
#[derive(Debug, Clone, PartialEq, Eq)]
pub enum ResponsePayload {
    /// The synthesized audio as base64 text.
    Wav { wav: String },
    /// The voice is unknown (no code) or the engine reported a fault.
    AquestalkError { code: Option<i32>, message: String },
    /// The bytes received are no JSON, or no request.
    JsonError { message: String },
    /// Reading failed or the byte budget ran out.
    IoError { message: String },
}

/// A payload as the contracts see it.
pub enum PayloadView {
    Wav { wav: Seq<char> },
    AquestalkError { code: Option<i32>, message: Seq<char> },
    JsonError { message: Seq<char> },
    IoError { message: Seq<char> },
}

impl View for ResponsePayload {
    type V = PayloadView;

    open spec fn view(&self) -> PayloadView {
        match self {
            ResponsePayload::Wav { wav } => PayloadView::Wav { wav: wav@ },
            ResponsePayload::AquestalkError { code, message } => PayloadView::AquestalkError {
                code: *code,
                message: message@,
            },
            ResponsePayload::JsonError { message } => PayloadView::JsonError { message: message@ },
            ResponsePayload::IoError { message } => PayloadView::IoError { message: message@ },
        }
    }
}

/// The class of a failure to read a JSON value, as `serde_json` tells them
/// apart.
#[derive(Debug, Clone, Copy, PartialEq, Eq)]
pub enum DecodeErrorKind {
    /// The source of bytes failed.
    Io,
    /// The bytes are not JSON.
    Syntax,
    /// The JSON is well formed but is not the value asked for.
    Data,
    /// The bytes ended inside a value.
    Eof,
}

/// A failure to read a JSON value: its class and the text that describes it.
#[derive(Debug, Clone, PartialEq, Eq)]
pub struct DecodeError {
    pub kind: DecodeErrorKind,
    pub message: String,
}

/// A failure to read as the contracts see it.
pub struct DecodeErrorView {
    pub kind: DecodeErrorKind,
    pub message: Seq<char>,
}

impl View for DecodeError {
    type V = DecodeErrorView;

    open spec fn view(&self) -> DecodeErrorView {
        DecodeErrorView { kind: self.kind, message: self.message@ }
    }
}

/// The base64 text (standard alphabet, padded) of a byte string, as the
/// `base64` crate writes it.
pub uninterp spec fn base64_text(bytes: Seq<u8>) -> Seq<char>;

/// What the `base64` crate makes of a text: the bytes it stands for, or the
/// description of what is wrong with it.
pub uninterp spec fn base64_bytes(text: Seq<char>) -> Result<Seq<u8>, Seq<char>>;

/// Calls `base64::encode`. The result is the standard padded base64 text of
/// the input; the bound keeps the length computation of the crate, four
/// characters for three bytes, from overflowing.
#[verifier::external_body]
fn base64_encode(bytes: &[u8]) -> (text: String)
    requires
        bytes@.len() <= MAX_WAV_BYTES,
    ensures
        text@ == base64_text(bytes@),
{
    base64::encode(bytes)
}

/// Calls `base64::decode` and, where it fails, `to_string` on its error. The
/// result is what the crate decodes the text to, or the description that it
/// gives of the first thing wrong with the text. The bound keeps the length
/// estimate of the crate, the input length plus three, from overflowing.
#[verifier::external_body]
fn base64_decode(text: &str) -> (decoded: Result<Vec<u8>, String>)
    requires
        encode_utf8(text@).len() <= MAX_WAV_TEXT_BYTES,
    ensures
        match decoded {
            Ok(bytes) => base64_bytes(text@) == Ok::<Seq<u8>, Seq<char>>(bytes@),
            Err(message) => base64_bytes(text@) == Err::<Seq<u8>, Seq<char>>(message@),
        },
{
    match base64::decode(text) {
        Ok(bytes) => Ok(bytes),
        Err(err) => Err(err.to_string()),
    }
}

/// The payload that carries an audio buffer.
pub open spec fn wav_payload(wav: Seq<u8>) -> PayloadView {
    PayloadView::Wav { wav: base64_text(wav) }
}

/// The payload that reports a fault of the engine.
pub open spec fn fault_payload(code: int) -> PayloadView {
    PayloadView::AquestalkError { code: Some(code as i32), message: message_of(code) }
}

/// The payload that reports a failure to read a value: a transport fault
/// where the source of bytes failed, a protocol fault otherwise.
pub open spec fn decode_error_payload(err: DecodeErrorView) -> PayloadView {
    if err.kind == DecodeErrorKind::Io {
        PayloadView::IoError { message: err.message }
    } else {
        PayloadView::JsonError { message: err.message }
    }
}

/// What a client gets out of a payload: the audio of a `Wav` whose text is
/// base64, a transport fault for a `Wav` whose text is not, and any other
/// payload back as it is.
pub open spec fn payload_audio(payload: PayloadView) -> Result<Seq<u8>, PayloadView> {
    match payload {
        PayloadView::Wav { wav } => match base64_bytes(wav) {
            Ok(bytes) => Ok(bytes),
            Err(message) => Err(PayloadView::IoError { message }),
        },
        other => Err(other),
    }
}

/// Whether the text of a payload, where it carries audio, is short enough to
/// be turned back into it.
pub open spec fn decodable(payload: PayloadView) -> bool {
    payload matches PayloadView::Wav { wav } ==> encode_utf8(wav).len() <= MAX_WAV_TEXT_BYTES
}

impl ResponsePayload {
    /// The payload for synthesized audio.
    pub fn from_wav(wav: &[u8]) -> (payload: ResponsePayload)
        requires
            wav@.len() <= MAX_WAV_BYTES,
        ensures
            payload@ == wav_payload(wav@),
    {
        ResponsePayload::Wav { wav: base64_encode(wav) }
    }

    /// The payload for a fault of the engine: its code and documented message.
    pub fn from_error(err: Error) -> (payload: ResponsePayload)
        ensures
            payload@ == fault_payload(err@),
            is_known_code(err@),
    {
        let code = err.code();
        ResponsePayload::AquestalkError {
            code: Some(code),
            message: String::from_str(err.message()),
        }
    }

    /// The payload for a failure to read a value.
    pub fn from_decode_error(err: DecodeError) -> (payload: ResponsePayload)
        ensures
            payload@ == decode_error_payload(err@),
    {
        match err.kind {
            DecodeErrorKind::Io => ResponsePayload::IoError { message: err.message },
            _ => ResponsePayload::JsonError { message: err.message },
        }
    }

    /// Takes the audio out of a payload, see [`payload_audio`].
    pub fn into_wav(self) -> (audio: Result<Vec<u8>, ResponsePayload>)
        requires
            decodable(self@),
        ensures
            match audio {
                Ok(bytes) => payload_audio(self@) == Ok::<Seq<u8>, PayloadView>(bytes@),
                Err(payload) => payload_audio(self@) == Err::<Seq<u8>, PayloadView>(payload@),
            },
    {
        match self {
            ResponsePayload::Wav { wav } => match base64_decode(wav.as_str()) {
                Ok(bytes) => Ok(bytes),
                Err(message) => Err(ResponsePayload::IoError { message }),
            },
            other => Err(other),
        }
    }
}

/// One response: the payload, the two flags, and the request that it
/// answers, as the compact JSON text of the value that was read.
#[derive(Debug, Clone, PartialEq, Eq)]
pub struct Response {
    pub is_success: bool,
    /// `Some(true)` on the last response of a session, absent otherwise.
    pub will_close: Option<bool>,
    pub response: ResponsePayload,
    /// Absent where no value could be read.
    pub request: Option<String>,
}

/// A response as the contracts see it.
pub struct ResponseView {
    pub is_success: bool,
    pub will_close: Option<bool>,
    pub response: PayloadView,
    pub request: Option<Seq<char>>,
}

impl View for Response {
    type V = ResponseView;

    open spec fn view(&self) -> ResponseView {
        ResponseView {
            is_success: self.is_success,
            will_close: self.will_close,
            response: self.response@,
            request: match self.request {
                Some(text) => Some(text@),
                None => None,
            },
        }
    }
}

/// The response with the flags that belong to a status.
pub open spec fn response_of(
    status: ResponseStatus,
    payload: PayloadView,
    request: Option<Seq<char>>,
) -> ResponseView {
    ResponseView {
        is_success: status == ResponseStatus::Success,
        will_close: if status == ResponseStatus::Error {
            Some(true)
        } else {
            None
        },
        response: payload,
        request,
    }
}

impl Response {
    /// The response with this payload and request and the flags of the
    /// status.
    pub fn new(status: ResponseStatus, payload: ResponsePayload, request: Option<String>) -> (response:
        Response)
        ensures
            response@ == response_of(
                status,
                payload@,
                match request {
                    Some(text) => Some(text@),
                    None => None,
                },
            ),
    {
        let (is_success, close) = match status {
            ResponseStatus::Success => (true, None),
            ResponseStatus::RecoverableError => (false, None),
            ResponseStatus::Error => (false, Some(true)),
        };
        Response { is_success, will_close: close, response: payload, request }
    }
}

impl ResponseView {
    /// Whether the session ends with this response.
    pub open spec fn is_terminal(self) -> bool {
        self.will_close == Some(true)
    }
}

} // verus!
