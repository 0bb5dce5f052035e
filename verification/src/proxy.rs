//! The client side of the protocol: one request out, one response back.

use crate::messages::{
    decodable, payload_audio, PayloadView, Request, RequestView, Response, ResponsePayload,
    ResponseView,
};
use crate::wire::{encode_request, request_json};
use vstd::prelude::*;
use vstd::string::StringExecFns;

verus! {

/// The payload for a request that is made after the proxy announced the end.
pub open spec fn closed_payload() -> PayloadView {
    PayloadView::IoError { message: "Writer is already closed."@ }
}

/// What a response means to the one who asked: the audio of a success, the
/// payload of anything else.
pub open spec fn audio_of(response: ResponseView) -> Result<Seq<u8>, PayloadView> {
    if response.is_success {
        payload_audio(response.response)
    } else {
        Err(response.response)
    }
}

/// Whether the text of a response, where it carries audio, is short enough
/// to be turned back into it.
pub open spec fn receivable(response: ResponseView) -> bool {
    decodable(response.response)
}

/// A client of one proxy, with the two ends of its connection. The end to
/// write to is given up when the proxy announces that it closes.
pub struct AquesTalkProxyClient<R, W> {
    pub reader: R,
    pub writer: Option<W>,
}

impl<R, W> AquesTalkProxyClient<R, W> {
    /// An open client on the two ends of a connection.
    pub fn new(reader: R, writer: W) -> (client: Self)
        ensures
            client.reader == reader,
            client.writer == Some(writer),
    {
        AquesTalkProxyClient { reader, writer: Some(writer) }
    }

    /// Whether the proxy announced that it closes.
    pub fn is_closed(&self) -> (closed: bool)
        ensures
            closed == (self.writer is None),
    {
        self.writer.is_none()
    }

    /// The bytes to send for a request, or the fault that says why none can
    /// be sent any more.
    pub fn request(&self, voice_type: &str, koe: &str, speed: i32) -> (line: Result<
        String,
        ResponsePayload,
    >)
        ensures
            match line {
                Ok(text) => self.writer is Some && text@ == request_json(
                    RequestView { voice_type: voice_type@, speed: speed as int, koe: koe@ },
                ),
                Err(payload) => self.writer is None && payload@ == closed_payload(),
            },
    {
        if self.writer.is_none() {
            return Err(
                ResponsePayload::IoError { message: String::from_str("Writer is already closed.") },
            );
        }
        let request = Request {
            voice_type: String::from_str(voice_type),
            speed,
            koe: String::from_str(koe),
        };
        Ok(encode_request(&request))
    }

    /// Takes the response to the request that was sent last. The end to
    /// write to is given up where the response announces the end; the end
    /// to read from stays.
    pub fn receive(&mut self, response: Response) -> (audio: Result<Vec<u8>, ResponsePayload>)
        requires
            receivable(response@),
        ensures
            final(self).reader == old(self).reader,
            final(self).writer == if response.will_close == Some(true) {
                None
            } else {
                old(self).writer
            },
            match audio {
                Ok(bytes) => audio_of(response@) == Ok::<Seq<u8>, PayloadView>(bytes@),
                Err(payload) => audio_of(response@) == Err::<Seq<u8>, PayloadView>(payload@),
            },
    {
        let closing = match response.will_close {
            Some(close) => close,
            None => false,
        };
        if closing {
            self.writer = None;
        }
        if !response.is_success {
            return Err(response.response);
        }
        response.response.into_wav()
    }
}

/// A client that reaches its proxy at an address, with a new connection for
/// each request.
pub struct TcpClient<A> {
    addr: A,
}

impl<A> TcpClient<A> {
    /// The address of the proxy.
    pub closed spec fn address(&self) -> A {
        self.addr
    }

    /// A client of the proxy at `addr`.
    pub fn new(addr: A) -> (client: Self)
        ensures
            client.address() == addr,
    {
        TcpClient { addr }
    }

    /// The address of the proxy.
    pub fn addr(&self) -> (addr: &A)
        ensures
            *addr == self.address(),
    {
        &self.addr
    }
}

} // verus!
