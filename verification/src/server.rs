//! One session of the proxy: what it answers to each value that was read
//! from its stream, and when it ends.

use crate::aquestalk::koe::fits;
use crate::aquestalk::{outcome_view, AquesTalk, Wav};
use crate::messages::{
    decode_error_payload, response_of, wav_payload, DecodeError, DecodeErrorKind, DecodeErrorView,
    PayloadView, Request, RequestView, Response, ResponsePayload, ResponseStatus, ResponseView,
};
use crate::wire::{encode_response, response_json};
use std::time::Duration;
use vstd::prelude::*;
use vstd::string::StringExecFns;
use vstd::utf8::encode_utf8;

verus! {

/// The payload for a request that names a voice which is not there.
pub open spec fn unknown_voice_payload(voice_type: Seq<char>) -> PayloadView {
    PayloadView::AquestalkError { code: None, message: "不明な声種 ("@ + voice_type + ")"@ }
}

/// The payload for a stream that ran into its byte budget.
pub open spec fn limit_reached_payload() -> PayloadView {
    PayloadView::IoError { message: "Request is too long"@ }
}

/// The fault for a request that names a voice which is not there.
pub fn new_voice_type_error(voice_type: &str) -> (payload: ResponsePayload)
    ensures
        payload@ == unknown_voice_payload(voice_type@),
{
    let message = String::from_str("不明な声種 (").concat(voice_type).concat(")");
    ResponsePayload::AquestalkError { code: None, message }
}

/// The fault for a stream that ran into its byte budget.
pub fn new_limit_reached_error() -> (payload: ResponsePayload)
    ensures
        payload@ == limit_reached_payload(),
{
    ResponsePayload::IoError { message: String::from_str("Request is too long") }
}

/// What one attempt to read the next value from the stream gave.
#[derive(Debug, PartialEq, Eq)]
pub enum Decoded {
    /// The stream ended between two values.
    End,
    /// No value could be read. `remaining` is what was left of the byte
    /// budget then, where the session has one.
    Failed { error: DecodeError, remaining: Option<u64> },
    /// A value was read. `text` is its compact JSON text, `request` what it
    /// is when taken as a request.
    Value { text: String, request: Result<Request, DecodeError> },
}

/// An attempt to read as the contracts see it.
pub enum DecodedView {
    End,
    Failed { error: DecodeErrorView, remaining: Option<u64> },
    Value { text: Seq<char>, request: Result<RequestView, DecodeErrorView> },
}

impl View for Decoded {
    type V = DecodedView;

    open spec fn view(&self) -> DecodedView {
        match self {
            Decoded::End => DecodedView::End,
            Decoded::Failed { error, remaining } => DecodedView::Failed {
                error: error@,
                remaining: *remaining,
            },
            Decoded::Value { text, request } => DecodedView::Value {
                text: text@,
                request: match request {
                    Ok(r) => Ok(r@),
                    Err(e) => Err(e@),
                },
            },
        }
    }
}

impl DecodedView {
    /// Whether the text of the request, if it is one, can be encoded.
    pub open spec fn fits(self) -> bool {
        self matches DecodedView::Value { request: Ok(r), .. } ==> fits(r.koe)
    }
}

/// Whether a failure to read is the byte budget running out: the bytes ended
/// inside a value with nothing of the budget left.
pub open spec fn limit_reached(error: DecodeErrorView, remaining: Option<u64>) -> bool {
    error.kind == DecodeErrorKind::Eof && remaining == Some(0u64)
}

/// The payload for a failure to read a value. The budget running out comes
/// before any other reading of the failure.
pub open spec fn failure_payload(error: DecodeErrorView, remaining: Option<u64>) -> PayloadView {
    if limit_reached(error, remaining) {
        limit_reached_payload()
    } else {
        decode_error_payload(error)
    }
}

/// The response to a request, given what the synthesis gave.
pub open spec fn synthesis_response(
    outcome: Result<Seq<u8>, PayloadView>,
    text: Seq<char>,
) -> ResponseView {
    match outcome {
        Ok(wav) => response_of(ResponseStatus::Success, wav_payload(wav), Some(text)),
        Err(payload) => response_of(ResponseStatus::RecoverableError, payload, Some(text)),
    }
}

/// What an open session answers to one attempt to read, given what the
/// synthesis gives where it is asked. `None` is the silent end.
pub open spec fn reply(decoded: DecodedView, outcome: Result<Seq<u8>, PayloadView>) -> Option<
    ResponseView,
> {
    match decoded {
        DecodedView::End => None,
        DecodedView::Failed { error, remaining } => Some(
            response_of(ResponseStatus::Error, failure_payload(error, remaining), None),
        ),
        DecodedView::Value { text, request: Err(error) } => Some(
            response_of(ResponseStatus::RecoverableError, decode_error_payload(error), Some(text)),
        ),
        DecodedView::Value { text, request: Ok(_) } => Some(synthesis_response(outcome, text)),
    }
}

/// Whether the synthesis may give `outcome` for the request that was read.
/// Where no request was read, nothing is asked of it.
pub open spec fn may_give<A: AquesTalk>(
    aqtk: &A,
    decoded: DecodedView,
    outcome: Result<Seq<u8>, PayloadView>,
) -> bool {
    decoded matches DecodedView::Value { request: Ok(r), .. } ==> aqtk.may_answer(
        r.voice_type,
        r.koe,
        r.speed,
        outcome,
    )
}

/// Whether an open session is over after this attempt to read.
pub open spec fn ends(decoded: DecodedView) -> bool {
    decoded is End || decoded is Failed
}

/// What the session does about one attempt to read, before any synthesis.
#[derive(Debug, PartialEq, Eq)]
pub enum Plan {
    /// End without a word.
    Finish,
    /// Send the response and end.
    Abort { response: Response },
    /// Send the response and read on.
    Reject { response: Response },
    /// Ask for the synthesis, answer with [`conclude`] and read on.
    Synthesize { request: Request, text: String },
}

/// A plan as the contracts see it.
pub enum PlanView {
    Finish,
    Abort { response: ResponseView },
    Reject { response: ResponseView },
    Synthesize { request: RequestView, text: Seq<char> },
}

impl View for Plan {
    type V = PlanView;

    open spec fn view(&self) -> PlanView {
        match self {
            Plan::Finish => PlanView::Finish,
            Plan::Abort { response } => PlanView::Abort { response: response@ },
            Plan::Reject { response } => PlanView::Reject { response: response@ },
            Plan::Synthesize { request, text } => PlanView::Synthesize {
                request: request@,
                text: text@,
            },
        }
    }
}

/// The plan for each attempt to read.
pub open spec fn plan_of(decoded: DecodedView) -> PlanView {
    match decoded {
        DecodedView::End => PlanView::Finish,
        DecodedView::Failed { error, remaining } => PlanView::Abort {
            response: response_of(ResponseStatus::Error, failure_payload(error, remaining), None),
        },
        DecodedView::Value { text, request: Err(error) } => PlanView::Reject {
            response: response_of(
                ResponseStatus::RecoverableError,
                decode_error_payload(error),
                Some(text),
            ),
        },
        DecodedView::Value { text, request: Ok(request) } => PlanView::Synthesize { request, text },
    }
}

/// Decides what to do about one attempt to read.
pub fn plan(decoded: Decoded) -> (plan: Plan)
    ensures
        plan@ == plan_of(decoded@),
{
    match decoded {
        Decoded::End => Plan::Finish,
        Decoded::Failed { error, remaining } => {
            let exhausted = match (error.kind, remaining) {
                (DecodeErrorKind::Eof, Some(left)) => left == 0,
                _ => false,
            };
            let payload = if exhausted {
                new_limit_reached_error()
            } else {
                ResponsePayload::from_decode_error(error)
            };
            Plan::Abort { response: Response::new(ResponseStatus::Error, payload, None) }
        },
        Decoded::Value { text, request } => match request {
            Err(error) => Plan::Reject {
                response: Response::new(
                    ResponseStatus::RecoverableError,
                    ResponsePayload::from_decode_error(error),
                    Some(text),
                ),
            },
            Ok(request) => Plan::Synthesize { request, text },
        },
    }
}

/// The response to the request with the JSON text `text`, for what the
/// synthesis gave.
pub fn conclude(outcome: Result<Wav, ResponsePayload>, text: String) -> (response: Response)
    ensures
        response@ == synthesis_response(outcome_view(outcome), text@),
{
    match outcome {
        Ok(wav) => Response::new(
            ResponseStatus::Success,
            ResponsePayload::from_wav(wav.as_bytes()),
            Some(text),
        ),
        Err(payload) => Response::new(ResponseStatus::RecoverableError, payload, Some(text)),
    }
}

/// One session: its byte budget and whether it is over.
#[derive(Debug, Clone, Copy, PartialEq, Eq)]
pub struct Session {
    limit: Option<u64>,
    closed: bool,
}

impl Session {
    /// The byte budget that the session was opened with.
    pub closed spec fn budget(&self) -> Option<u64> {
        self.limit
    }

    /// Whether the session is over.
    pub closed spec fn is_over(&self) -> bool {
        self.closed
    }

    /// An open session that may read `limit` bytes, or any number without one.
    pub fn new(limit: Option<u64>) -> (session: Session)
        ensures
            session.budget() == limit,
            !session.is_over(),
    {
        Session { limit, closed: false }
    }

    /// The byte budget that the session was opened with.
    pub fn limit(&self) -> (limit: Option<u64>)
        ensures
            limit == self.budget(),
    {
        self.limit
    }

    /// Whether the session is over.
    pub fn is_closed(&self) -> (closed: bool)
        ensures
            closed == self.is_over(),
    {
        self.closed
    }

    /// Takes one attempt to read and gives the response to send, if any.
    /// A session that is over stays so and says nothing. An open one asks
    /// the synthesis for what a request names, answers as [`reply`] says for
    /// what the synthesis gave, and is over when [`ends`] says so.
    pub fn handle<A: AquesTalk>(&mut self, aqtk: &A, decoded: Decoded) -> (response: Option<
        Response,
    >)
        requires
            decoded@.fits(),
        ensures
            final(self).budget() == old(self).budget(),
            old(self).is_over() ==> final(self).is_over() && response is None,
            !old(self).is_over() ==> final(self).is_over() == ends(decoded@),
            !old(self).is_over() ==> exists|outcome: Result<Seq<u8>, PayloadView>|
                may_give(aqtk, decoded@, outcome) && response_view(response) == #[trigger] reply(
                    decoded@,
                    outcome,
                ),
    {
        if self.closed {
            return None;
        }
        let ghost seen = decoded@;
        match plan(decoded) {
            Plan::Finish => {
                self.closed = true;
                assert(response_view(None) == reply(seen, Err(limit_reached_payload())));
                None
            },
            Plan::Abort { response } => {
                self.closed = true;
                assert(response_view(Some(response)) == reply(seen, Err(limit_reached_payload())));
                Some(response)
            },
            Plan::Reject { response } => {
                assert(response_view(Some(response)) == reply(seen, Err(limit_reached_payload())));
                Some(response)
            },
            Plan::Synthesize { request, text } => {
                let outcome = aqtk.synthe(
                    request.voice_type.as_str(),
                    request.koe.as_str(),
                    request.speed,
                );
                let ghost given = outcome_view(outcome);
                let response = conclude(outcome, text);
                assert(response_view(Some(response)) == reply(seen, given));
                Some(response)
            },
        }
    }
}

/// A response that may be absent, as the contracts see it.
pub open spec fn response_view(response: Option<Response>) -> Option<ResponseView> {
    match response {
        Some(r) => Some(r@),
        None => None,
    }
}

/// The bytes of a response on the stream: its JSON object and a line feed.
pub open spec fn response_line(response: ResponseView) -> Seq<u8> {
    encode_utf8(response_json(response) + "\n"@)
}

/// Appends the response with this status, payload and request to what was
/// written so far.
pub fn write_response(
    writer: &mut Vec<u8>,
    status: ResponseStatus,
    payload: ResponsePayload,
    request: Option<String>,
)
    ensures
        final(writer)@ == old(writer)@ + response_line(
            response_of(
                status,
                payload@,
                match request {
                    Some(text) => Some(text@),
                    None => None,
                },
            ),
        ),
{
    send(writer, &Response::new(status, payload, request));
}

/// Appends a response to what was written so far.
pub fn send(writer: &mut Vec<u8>, response: &Response)
    ensures
        final(writer)@ == old(writer)@ + response_line(response@),
{
    let mut line = encode_response(response);
    line.append("\n");
    writer.extend_from_slice(line.as_str().as_bytes());
}

/// One attempt to read together with what the synthesis gives where it is
/// asked.
pub struct Exchange {
    pub decoded: DecodedView,
    pub outcome: Result<Seq<u8>, PayloadView>,
}

/// The responses of a session, in order, to the attempts to read that it is
/// handed from its start. Nothing follows the attempt that ends it.
pub open spec fn transcript(exchanges: Seq<Exchange>) -> Seq<ResponseView>
    decreases exchanges.len(),
{
    if exchanges.len() == 0 {
        Seq::empty()
    } else {
        let first = exchanges[0];
        let said = match reply(first.decoded, first.outcome) {
            Some(response) => seq![response],
            None => Seq::empty(),
        };
        if ends(first.decoded) {
            said
        } else {
            said + transcript(exchanges.drop_first())
        }
    }
}

/// A request whose synthesis gives audio is answered with that audio, marked
/// as a success, with the request given back, and the session goes on.
pub proof fn law_request_is_served(text: Seq<char>, request: RequestView, wav: Seq<u8>)
    ensures
        !ends(DecodedView::Value { text, request: Ok(request) }),
        reply(DecodedView::Value { text, request: Ok(request) }, Ok(wav)) == Some(
            ResponseView {
                is_success: true,
                will_close: None,
                response: wav_payload(wav),
                request: Some(text),
            },
        ),
{
}

/// A request that the synthesis refuses is answered with the payload of the
/// refusal, marked as a failure, with the request given back, and the
/// session goes on.
pub proof fn law_fault_is_reported(text: Seq<char>, request: RequestView, fault: PayloadView)
    ensures
        !ends(DecodedView::Value { text, request: Ok(request) }),
        reply(DecodedView::Value { text, request: Ok(request) }, Err(fault)) == Some(
            ResponseView {
                is_success: false,
                will_close: None,
                response: fault,
                request: Some(text),
            },
        ),
{
}

/// A stream that ends inside a value with nothing of its byte budget left is
/// answered with the one transport fault for that, the session ends, and
/// whatever would have been read later is not answered.
pub proof fn law_budget_ends_session(
    error: DecodeErrorView,
    outcome: Result<Seq<u8>, PayloadView>,
    later: Seq<Exchange>,
)
    requires
        error.kind == DecodeErrorKind::Eof,
    ensures
        ends(DecodedView::Failed { error, remaining: Some(0u64) }),
        transcript(
            seq![Exchange { decoded: DecodedView::Failed { error, remaining: Some(0u64) }, outcome }]
                + later,
        ) == seq![
            ResponseView {
                is_success: false,
                will_close: Some(true),
                response: PayloadView::IoError { message: "Request is too long"@ },
                request: None,
            },
        ],
{
    let first = Exchange { decoded: DecodedView::Failed { error, remaining: Some(0u64) }, outcome };
    assert((seq![first] + later)[0] == first);
}

/// A value that cannot be read, for another reason than the byte budget or
/// the source of the bytes, is answered with one protocol fault that carries
/// the description of the failure, the session ends, and whatever would have
/// been read later is not answered.
pub proof fn law_broken_stream_ends_session(
    error: DecodeErrorView,
    remaining: Option<u64>,
    outcome: Result<Seq<u8>, PayloadView>,
    later: Seq<Exchange>,
)
    requires
        error.kind != DecodeErrorKind::Io,
        !limit_reached(error, remaining),
    ensures
        ends(DecodedView::Failed { error, remaining }),
        transcript(
            seq![Exchange { decoded: DecodedView::Failed { error, remaining }, outcome }] + later,
        ) == seq![
            ResponseView {
                is_success: false,
                will_close: Some(true),
                response: PayloadView::JsonError { message: error.message },
                request: None,
            },
        ],
{
    let first = Exchange { decoded: DecodedView::Failed { error, remaining }, outcome };
    assert((seq![first] + later)[0] == first);
}

/// A source of bytes that fails is answered with one transport fault that
/// carries the description of the failure, and the session ends.
pub proof fn law_failed_source_ends_session(
    error: DecodeErrorView,
    remaining: Option<u64>,
    outcome: Result<Seq<u8>, PayloadView>,
    later: Seq<Exchange>,
)
    requires
        error.kind == DecodeErrorKind::Io,
    ensures
        transcript(
            seq![Exchange { decoded: DecodedView::Failed { error, remaining }, outcome }] + later,
        ) == seq![
            ResponseView {
                is_success: false,
                will_close: Some(true),
                response: PayloadView::IoError { message: error.message },
                request: None,
            },
        ],
{
    let first = Exchange { decoded: DecodedView::Failed { error, remaining }, outcome };
    assert((seq![first] + later)[0] == first);
}

/// A value that was read but is no request is answered with a protocol fault
/// that carries the description of what is wrong, without the mark of the
/// end and with the value given back, and the session goes on.
pub proof fn law_bad_request_is_rejected(
    text: Seq<char>,
    error: DecodeErrorView,
    outcome: Result<Seq<u8>, PayloadView>,
)
    requires
        error.kind != DecodeErrorKind::Io,
    ensures
        !ends(DecodedView::Value { text, request: Err(error) }),
        reply(DecodedView::Value { text, request: Err(error) }, outcome) == Some(
            ResponseView {
                is_success: false,
                will_close: None,
                response: PayloadView::JsonError { message: error.message },
                request: Some(text),
            },
        ),
{
}

/// Every value that was read gets exactly one response; only the end of the
/// stream gets none.
pub proof fn law_one_response_per_value(decoded: DecodedView, outcome: Result<Seq<u8>, PayloadView>)
    ensures
        reply(decoded, outcome) is None <==> decoded is End,
{
}

/// A response gives back the text of the value that it answers; only the
/// response to a value that could not be read gives nothing back.
pub proof fn law_request_is_given_back(decoded: DecodedView, outcome: Result<Seq<u8>, PayloadView>)
    ensures
        reply(decoded, outcome) matches Some(response) ==> response.request == match decoded {
            DecodedView::Value { text, .. } => Some(text),
            _ => None::<Seq<char>>,
        },
{
}

/// A response carries the mark of the end exactly when the session ends with
/// it, and such a response is no success.
pub proof fn law_end_is_announced(decoded: DecodedView, outcome: Result<Seq<u8>, PayloadView>)
    ensures
        reply(decoded, outcome) matches Some(response) ==> (response.is_terminal() <==> ends(
            decoded,
        )) && (response.is_terminal() ==> !response.is_success),
{
}

/// What a session says after attempts to read that did not end it is what a
/// fresh session would say: earlier exchanges leave no trace in later
/// responses.
pub proof fn law_responses_are_independent(before: Seq<Exchange>, after: Seq<Exchange>)
    requires
        forall|i: int| 0 <= i < before.len() ==> !ends(#[trigger] before[i].decoded),
    ensures
        transcript(before + after) == transcript(before) + transcript(after),
    decreases before.len(),
{
    if before.len() == 0 {
        assert(before + after =~= after);
    } else {
        let rest = before.drop_first();
        assert forall|i: int| 0 <= i < rest.len() implies !ends(#[trigger] rest[i].decoded) by {
            assert(rest[i] == before[i + 1]);
        }
        law_responses_are_independent(rest, after);
        assert((before + after).drop_first() =~= rest + after);
        assert((before + after)[0] == before[0]);
        let said = match reply(before[0].decoded, before[0].outcome) {
            Some(response) => seq![response],
            None => Seq::empty(),
        };
        assert(said + (transcript(rest) + transcript(after)) =~= (said + transcript(rest))
            + transcript(after));
    }
}

/// The same request made twice in a session is answered twice, in order;
/// each response carries the audio that its own synthesis gave.
pub proof fn law_same_request_twice(
    text: Seq<char>,
    request: RequestView,
    first: Seq<u8>,
    second: Seq<u8>,
)
    ensures
        transcript(
            seq![
                Exchange { decoded: DecodedView::Value { text, request: Ok(request) }, outcome: Ok(first) },
                Exchange {
                    decoded: DecodedView::Value { text, request: Ok(request) },
                    outcome: Ok(second),
                },
            ],
        ) == seq![
            response_of(ResponseStatus::Success, wav_payload(first), Some(text)),
            response_of(ResponseStatus::Success, wav_payload(second), Some(text)),
        ],
{
    let decoded = DecodedView::Value { text, request: Ok(request) };
    let one = seq![Exchange { decoded, outcome: Ok(first) }];
    let two = seq![Exchange { decoded, outcome: Ok(second) }];
    law_responses_are_independent(one, two);
    assert(one + two =~= seq![
        Exchange { decoded, outcome: Ok(first) },
        Exchange { decoded, outcome: Ok(second) },
    ]);
    law_single_exchange(Exchange { decoded, outcome: Ok(first) });
    law_single_exchange(Exchange { decoded, outcome: Ok(second) });
}

/// A session that is handed one attempt to read says what [`reply`] gives
/// for it, and no more.
pub proof fn law_single_exchange(exchange: Exchange)
    ensures
        transcript(seq![exchange]) == match reply(exchange.decoded, exchange.outcome) {
            Some(response) => seq![response],
            None => Seq::empty(),
        },
{
    let only = seq![exchange];
    assert(only[0] == exchange);
    assert(only.drop_first() =~= Seq::<Exchange>::empty());
    assert(transcript(only.drop_first()) =~= Seq::<ResponseView>::empty());
    let said = match reply(exchange.decoded, exchange.outcome) {
        Some(response) => seq![response],
        None => Seq::empty(),
    };
    assert(said + Seq::<ResponseView>::empty() =~= said);
}

/// Only the last response of a session can carry the mark of the end.
pub proof fn law_at_most_one_terminal_response(exchanges: Seq<Exchange>)
    ensures
        forall|i: int|
            0 <= i < transcript(exchanges).len() - 1 ==> !(#[trigger] transcript(
                exchanges,
            )[i]).is_terminal(),
    decreases exchanges.len(),
{
    if exchanges.len() > 0 {
        let first = exchanges[0];
        let rest = transcript(exchanges.drop_first());
        law_at_most_one_terminal_response(exchanges.drop_first());
        law_end_is_announced(first.decoded, first.outcome);
        law_one_response_per_value(first.decoded, first.outcome);
        if !ends(first.decoded) {
            let said = seq![reply(first.decoded, first.outcome)->0];
            assert(transcript(exchanges) == said + rest);
            assert forall|i: int| 0 <= i < transcript(exchanges).len() - 1 implies !(
            #[trigger] transcript(exchanges)[i]).is_terminal() by {
                if i > 0 {
                    assert(transcript(exchanges)[i] == rest[i - 1]);
                }
            }
        }
    }
}

/// What a server is run with: the synthesis, the number of workers that
/// serve connections, and for each connection the longest wait for bytes and
/// the byte budget.
pub struct AquesTalkProxyServer<A> {
    aqtks: A,
    num_threads: usize,
    timeout: Option<Duration>,
    limit: Option<u64>,
}

impl<A> AquesTalkProxyServer<A> {
    /// The synthesis that the server offers.
    pub closed spec fn voices(&self) -> A {
        self.aqtks
    }

    /// The number of workers.
    pub closed spec fn workers(&self) -> usize {
        self.num_threads
    }

    /// The longest wait for bytes on a connection, if it is limited.
    pub closed spec fn wait(&self) -> Option<Duration> {
        self.timeout
    }

    /// The byte budget of a connection, if it has one.
    pub closed spec fn budget(&self) -> Option<u64> {
        self.limit
    }

    /// A server with one worker, no limit on the wait and no byte budget.
    pub fn new(libs: A) -> (server: Self)
        ensures
            server.voices() == libs,
            server.workers() == 1,
            server.wait() is None,
            server.budget() is None,
    {
        AquesTalkProxyServer { aqtks: libs, num_threads: 1, timeout: None, limit: None }
    }

    /// Sets the number of workers.
    pub fn set_num_threads(&mut self, num_threads: usize)
        ensures
            final(self).workers() == num_threads,
            final(self).voices() == old(self).voices(),
            final(self).wait() == old(self).wait(),
            final(self).budget() == old(self).budget(),
    {
        self.num_threads = num_threads;
    }

    /// Sets or lifts the limit on the wait for bytes.
    pub fn set_timeout(&mut self, dur: Option<Duration>)
        ensures
            final(self).wait() == dur,
            final(self).voices() == old(self).voices(),
            final(self).workers() == old(self).workers(),
            final(self).budget() == old(self).budget(),
    {
        self.timeout = dur;
    }

    /// Sets or lifts the byte budget.
    pub fn set_limit(&mut self, limit: Option<u64>)
        ensures
            final(self).budget() == limit,
            final(self).voices() == old(self).voices(),
            final(self).workers() == old(self).workers(),
            final(self).wait() == old(self).wait(),
    {
        self.limit = limit;
    }

    /// The synthesis that the server offers.
    pub fn aqtks(&self) -> (aqtks: &A)
        ensures
            *aqtks == self.voices(),
    {
        &self.aqtks
    }

    /// The number of workers.
    pub fn num_threads(&self) -> (num_threads: usize)
        ensures
            num_threads == self.workers(),
    {
        self.num_threads
    }

    /// The longest wait for bytes on a connection, if it is limited.
    pub fn timeout(&self) -> (timeout: Option<Duration>)
        ensures
            timeout == self.wait(),
    {
        self.timeout
    }

    /// The byte budget of a connection, if it has one.
    pub fn limit(&self) -> (limit: Option<u64>)
        ensures
            limit == self.budget(),
    {
        self.limit
    }

    /// The session for a connection that was accepted: open, with the byte
    /// budget of the server.
    pub fn session(&self) -> (session: Session)
        ensures
            session.budget() == self.budget(),
            !session.is_over(),
    {
        Session::new(self.limit)
    }
}

} // verus!
