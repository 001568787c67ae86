//! Classification of transport events.
//!
//! The transport delivers a streamed HTTP response as a sequence of events:
//! one response header, then body chunks, terminated by either an empty
//! chunk (normal end of stream) or a failure. Each event is classified
//! into the single step the consumer must take: forward a chunk to the
//! render sink, keep going, complete successfully, or abort with a
//! client-visible error kind.

use vstd::prelude::*;
use vstd::string::StrSliceExecFns;
use crate::errors::CustomError;

verus! {

/// The response header of a streamed fetch, as the transport reports it.
#[derive(Debug, Clone, PartialEq, Eq)]
pub struct ResponseMeta {
    /// HTTP status code.
    pub status: u16,
    /// True when the status code is in the success range.
    pub ok: bool,
    /// The status line's text, used as the diagnostic body on failure.
    pub status_text: String,
}

/// One event of a streamed fetch, in transport order.
#[derive(Debug, Clone, PartialEq, Eq)]
pub enum FetchEvent {
    /// The transport failed; the payload is its diagnostic message.
    Failed(String),
    /// The response header arrived.
    Meta(ResponseMeta),
    /// One chunk of the body arrived. An empty chunk means the stream
    /// ended normally and no further data will follow.
    Chunk(Vec<u8>),
}

/// The single step a consumer takes for one classified event.
#[derive(Debug, Clone, PartialEq, Eq)]
pub enum FetchStep {
    /// Hand this (non-empty) chunk to the render sink and keep reading.
    Forward(Vec<u8>),
    /// Nothing to deliver; keep reading.
    Proceed,
    /// The stream ended normally.
    Complete,
    /// The stream ended in the given failure.
    Abort(CustomError),
}

/// The diagnostic prefix with which the transport reports that it could
/// not assemble a complete body chunk — the one transient fault.
pub fn chunk_decode_prefix() -> (r: &'static str)
    ensures
        r@ == spec_chunk_decode_prefix(),
{
    "Failed to read response body: Error while decoding chunk"
}

/// The prefix that marks a transport message as a chunk-decode fault.
pub open spec fn spec_chunk_decode_prefix() -> Seq<char> {
    "Failed to read response body: Error while decoding chunk"@
}

/// A transport failure message denotes a chunk-decode fault exactly when
/// it starts with the chunk-decode prefix.
pub open spec fn is_chunk_decode_message(s: Seq<char>) -> bool {
    spec_chunk_decode_prefix().is_prefix_of(s)
}

/// True exactly when `p`'s characters are a prefix of `s`'s.
pub fn str_has_prefix(s: &str, p: &str) -> (r: bool)
    ensures
        r == p@.is_prefix_of(s@),
{
    let n = p.unicode_len();
    if s.unicode_len() < n {
        assert(!p@.is_prefix_of(s@));
        return false;
    }
    let mut i: usize = 0;
    while i < n
        invariant
            0 <= i <= n,
            n == p@.len(),
            s@.len() >= n,
            forall|j: int| 0 <= j < i ==> s@[j] == p@[j],
        decreases n - i,
    {
        if s.get_char(i) != p.get_char(i) {
            assert(p@.is_prefix_of(s@) ==> p@ =~= s@.subrange(0, n as int));
            assert(p@ =~= s@.subrange(0, n as int) ==> p@[i as int] == s@[i as int]);
            return false;
        }
        i += 1;
    }
    assert(p@ =~= s@.subrange(0, n as int));
    true
}

/// How one event must be handled, as a function of the event alone.
pub open spec fn spec_classify(ev: FetchEvent) -> FetchStep {
    match ev {
        FetchEvent::Failed(msg) => if is_chunk_decode_message(msg@) {
            FetchStep::Abort(CustomError::ChunkDecodeError)
        } else {
            FetchStep::Abort(CustomError::HttpError { status: None, body: msg })
        },
        FetchEvent::Meta(meta) => if meta.ok {
            FetchStep::Proceed
        } else {
            FetchStep::Abort(
                CustomError::HttpError { status: Some(meta.status), body: meta.status_text },
            )
        },
        FetchEvent::Chunk(chunk) => if chunk@.len() == 0 {
            FetchStep::Complete
        } else {
            FetchStep::Forward(chunk)
        },
    }
}

/// Classify one transport event.
///
/// A failure whose message carries the chunk-decode prefix is the
/// transient kind; any other failure is an HTTP error (with the status
/// code when the server produced one, without it for transport faults).
/// A response header is only checked for its success flag. An empty chunk
/// is never forwarded: it means the stream ended normally.
pub fn classify_event(ev: FetchEvent) -> (r: FetchStep)
    ensures
        r == spec_classify(ev),
{
    match ev {
        FetchEvent::Failed(msg) => {
            if str_has_prefix(msg.as_str(), chunk_decode_prefix()) {
                FetchStep::Abort(CustomError::ChunkDecodeError)
            } else {
                FetchStep::Abort(CustomError::HttpError { status: None, body: msg })
            }
        },
        FetchEvent::Meta(meta) => {
            if meta.ok {
                FetchStep::Proceed
            } else {
                FetchStep::Abort(
                    CustomError::HttpError { status: Some(meta.status), body: meta.status_text },
                )
            }
        },
        FetchEvent::Chunk(chunk) => {
            if chunk.len() == 0 {
                FetchStep::Complete
            } else {
                FetchStep::Forward(chunk)
            }
        },
    }
}

/// True exactly for the events after which the transport has nothing more
/// to say: a failure, a non-success response header, or the empty chunk
/// that closes the stream.
pub open spec fn spec_ends_stream(ev: FetchEvent) -> bool {
    !(spec_classify(ev) is Forward || spec_classify(ev) is Proceed)
}

/// Whether this event closes the stream (see [`spec_ends_stream`]).
pub fn fetch_event_ends_stream(ev: &FetchEvent) -> (r: bool)
    ensures
        r == spec_ends_stream(*ev),
{
    match ev {
        FetchEvent::Failed(_) => true,
        FetchEvent::Meta(meta) => !meta.ok,
        FetchEvent::Chunk(chunk) => chunk.len() == 0,
    }
}

} // verus!
