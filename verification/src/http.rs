//! The trusted boundary to the HTTP transport.
//!
//! Everything network-dependent lives behind the few items here. None of
//! their contracts promise anything about what the network returns: the
//! verified code around them handles every outcome, and states what it
//! does as a function of whatever came back.

use vstd::prelude::*;
use crate::events::{FetchEvent, ResponseMeta, fetch_event_ends_stream};

verus! {

/// A completed (non-streamed) HTTP exchange, reduced to what the client
/// reads: the status code and the body as text, when the body was
/// decodable as text.
#[derive(Debug, Clone, PartialEq, Eq)]
pub struct HttpReply {
    pub status: u16,
    pub text: Option<String>,
}

/// Declares `std::sync::mpsc::Receiver`, the consuming end of the
/// channel on which the stream worker delivers its events; the verified
/// code only carries such a value and hands it to [`recv_event`].
#[verifier::external_type_specification]
#[verifier::external_body]
#[verifier::reject_recursive_types(T)]
pub struct ExReceiver<T>(std::sync::mpsc::Receiver<T>);

/// Relies on `ehttp::fetch`: one blocking HTTP round trip. A `GET` when
/// `body` is absent, a `POST` of `body` otherwise, with the given
/// headers. `None` means the transport worker vanished without
/// answering; otherwise the transport's own error text or the reply.
#[verifier::external_body]
pub(crate) fn http_exchange(url: &str, headers: &[(String, String)], body: Option<Vec<u8>>) -> (r:
    Option<Result<HttpReply, String>>)
{
    let mut request = match body {
        Some(b) => ehttp::Request::post(url, b),
        None => ehttp::Request::get(url),
    };
    for (k, v) in headers { request.headers.insert(k, v); }
    let (tx, rx) = std::sync::mpsc::channel();
    ehttp::fetch(request, move |res| { let _ = tx.send(res); });
    match rx.recv() {
        Err(_) => None,
        Ok(Err(e)) => Some(Err(e)),
        Ok(Ok(r)) => Some(Ok(HttpReply { status: r.status, text: r.text().map(str::to_string) })),
    }
}

/// Relies on `ehttp::streaming::fetch`: issue one streaming `GET` and
/// hand every transport event — the response header, each body chunk,
/// or the failure text — through a channel, in transport order, closing
/// the stream after the first event that ends it.
#[verifier::external_body]
pub(crate) fn open_event_stream(url: &str, headers: &[(String, String)]) -> (rx: std::sync::mpsc::Receiver<FetchEvent>)
{
    let mut request = ehttp::Request::get(url);
    for (k, v) in headers { request.headers.insert(k, v); }
    let (tx, rx) = std::sync::mpsc::channel();
    ehttp::streaming::fetch(request, move |part| {
        let ev = match part {
            Err(e) => FetchEvent::Failed(e),
            Ok(ehttp::streaming::Part::Response(r)) =>
                FetchEvent::Meta(ResponseMeta { status: r.status, ok: r.ok, status_text: r.status_text }),
            Ok(ehttp::streaming::Part::Chunk(c)) => FetchEvent::Chunk(c),
        };
        let ends = fetch_event_ends_stream(&ev);
        if tx.send(ev).is_err() || ends { std::ops::ControlFlow::Break(()) }
        else { std::ops::ControlFlow::Continue(()) }
    });
    rx
}

/// Relies on `std::sync::mpsc::Receiver::recv`: block until the stream
/// worker sends the next event, or report the channel closed (`None`).
#[verifier::external_body]
pub(crate) fn recv_event(rx: &std::sync::mpsc::Receiver<FetchEvent>) -> (r: Option<FetchEvent>) {
    rx.recv().ok()
}

} // verus!
