//! The retrying stream reader.
//!
//! One fetch attempt consumes transport events until the stream either
//! completes or fails ([`consume_events`]). The retry policy around it
//! ([`RetryState`]) re-issues the whole request after a transient
//! chunk-decode fault, up to a fixed budget with a fixed delay, and lets
//! every other failure through unchanged on first occurrence. Chunks that
//! failed attempts already delivered are not taken back: re-delivery after
//! a restart is an accepted, visible artifact of the design.

use vstd::prelude::*;
use crate::errors::CustomError;
use crate::events::{FetchEvent, FetchStep, classify_event, spec_classify};

verus! {

/// How many times a transient fault may trigger a fresh attempt. The
/// first attempt is not counted, so up to `MAX_RETRIES + 1` attempts are
/// issued in all.
pub const MAX_RETRIES: u32 = 5;

/// Fixed delay between a transient fault and the next attempt.
pub const RETRY_DELAY_SECS: u64 = 15;

/// Why the reader gave up.
#[derive(Debug, Clone, PartialEq, Eq)]
pub enum ReaderError {
    /// The retry budget for transient chunk-decode faults is spent.
    TooManyErrors,
    /// A fault of a kind that is never retried.
    Fatal(CustomError),
}

/// What the reader does after one attempt ends.
#[derive(Debug, Clone, PartialEq, Eq)]
pub enum ReaderAction {
    /// The attempt completed normally: the stream is done.
    Finished,
    /// Sleep for `delay_secs`, then re-issue the whole request; this will
    /// be retry number `attempt`.
    RetryAfterDelay { delay_secs: u64, attempt: u32 },
    /// Give up with the given error.
    Fail(ReaderError),
}

/// The retry policy's whole state: how many transient faults have been
/// seen in this read.
#[derive(Debug, Clone, PartialEq, Eq)]
pub struct RetryState {
    pub attempts: u32,
}

/// The policy's transition: the new fault count and the action taken,
/// as a function of the count so far and the attempt's outcome.
pub open spec fn spec_retry_step(attempts: u32, outcome: Result<(), CustomError>) -> (
    u32,
    ReaderAction,
) {
    match outcome {
        Ok(_) => (attempts, ReaderAction::Finished),
        Err(e) => if e is ChunkDecodeError {
            if attempts < MAX_RETRIES {
                (
                    (attempts + 1) as u32,
                    ReaderAction::RetryAfterDelay {
                        delay_secs: RETRY_DELAY_SECS,
                        attempt: (attempts + 1) as u32,
                    },
                )
            } else {
                (attempts, ReaderAction::Fail(ReaderError::TooManyErrors))
            }
        } else {
            (attempts, ReaderAction::Fail(ReaderError::Fatal(e)))
        },
    }
}

impl RetryState {
    /// A fresh read: no faults seen yet.
    pub fn new() -> (r: RetryState)
        ensures
            r.attempts == 0,
    {
        RetryState { attempts: 0 }
    }

    /// Decide what to do after one attempt ended with `outcome`.
    ///
    /// Success finishes the read. A transient chunk-decode fault is
    /// retried after a fixed delay while the budget lasts, and converted
    /// into [`ReaderError::TooManyErrors`] when it is spent. Any other
    /// fault fails the read at once, with zero retries.
    pub fn on_attempt_end(&mut self, outcome: Result<(), CustomError>) -> (r: ReaderAction)
        ensures
            (final(self).attempts, r) == spec_retry_step(old(self).attempts, outcome),
            final(self).attempts <= old(self).attempts + 1,
    {
        match outcome {
            Ok(_) => ReaderAction::Finished,
            Err(e) => {
                if e.is_transient() {
                    if self.attempts < MAX_RETRIES {
                        self.attempts = self.attempts + 1;
                        ReaderAction::RetryAfterDelay {
                            delay_secs: RETRY_DELAY_SECS,
                            attempt: self.attempts,
                        }
                    } else {
                        ReaderAction::Fail(ReaderError::TooManyErrors)
                    }
                } else {
                    ReaderAction::Fail(ReaderError::Fatal(e))
                }
            },
        }
    }
}

/// The chunks one attempt delivers to the render sink: every non-empty
/// chunk that precedes the first terminal event, in transport order.
pub open spec fn spec_attempt_delivered(evs: Seq<FetchEvent>) -> Seq<Vec<u8>>
    decreases evs.len(),
{
    if evs.len() == 0 {
        Seq::empty()
    } else {
        match spec_classify(evs.first()) {
            FetchStep::Forward(c) => seq![c] + spec_attempt_delivered(evs.drop_first()),
            FetchStep::Proceed => spec_attempt_delivered(evs.drop_first()),
            FetchStep::Complete => Seq::empty(),
            FetchStep::Abort(_) => Seq::empty(),
        }
    }
}

/// The outcome of one attempt: success if the stream's terminating empty
/// chunk arrives, the classified error if a terminal failure arrives
/// first, and a channel error if the transport goes silent without either.
pub open spec fn spec_attempt_result(evs: Seq<FetchEvent>) -> Result<(), CustomError>
    decreases evs.len(),
{
    if evs.len() == 0 {
        Err(CustomError::ChannelError)
    } else {
        match spec_classify(evs.first()) {
            FetchStep::Forward(_) => spec_attempt_result(evs.drop_first()),
            FetchStep::Proceed => spec_attempt_result(evs.drop_first()),
            FetchStep::Complete => Ok(()),
            FetchStep::Abort(e) => Err(e),
        }
    }
}

/// Consume the events of one fetch attempt in order, pushing each
/// delivered chunk into `sink`, and report the attempt's outcome.
///
/// This is the sink side of one streamed fetch: chunks are forwarded in
/// transport order, exactly once each, and the empty terminating chunk is
/// never forwarded.
pub fn consume_events(events: Vec<FetchEvent>, sink: &mut Vec<Vec<u8>>) -> (r: Result<
    (),
    CustomError,
>)
    ensures
        final(sink)@ == old(sink)@ + spec_attempt_delivered(events@),
        r == spec_attempt_result(events@),
{
    let ghost all = events@;
    proof {
        assert(all.take(0) =~= Seq::<FetchEvent>::empty());
        assert(all.skip(0) =~= all);
        assert(sink@ =~= old(sink)@ + spec_attempt_delivered(all.take(0)));
        assert(spec_attempt_delivered(all) =~= spec_attempt_delivered(all.take(0))
            + spec_attempt_delivered(all.skip(0)));
    }
    for ev in it: events.into_iter()
        invariant
            it.seq() == all,
            sink@ == old(sink)@ + spec_attempt_delivered(all.take(it.index())),
            spec_attempt_result(all.take(it.index())) == Err::<(), CustomError>(
                CustomError::ChannelError,
            ),
            spec_attempt_delivered(all) == spec_attempt_delivered(all.take(it.index()))
                + spec_attempt_delivered(all.skip(it.index())),
            spec_attempt_result(all) == spec_attempt_result(all.skip(it.index())),
    {
        let ghost i = it.index();
        proof {
            assert(ev == all[i]);
            assert(all.skip(i).len() > 0);
            assert(all.skip(i).first() == all[i]);
            assert(all.skip(i).drop_first() =~= all.skip(i + 1));
        }
        match classify_event(ev) {
            FetchStep::Forward(chunk) => {
                proof {
                    lemma_attempt_snoc_forward(all.take(i), all[i], chunk);
                    assert(all.take(i).push(all[i]) =~= all.take(i + 1));
                    assert(spec_attempt_delivered(all.skip(i)) == seq![chunk]
                        + spec_attempt_delivered(all.skip(i + 1)));
                }
                sink.push(chunk);
                proof {
                    assert(sink@ =~= old(sink)@ + spec_attempt_delivered(all.take(i + 1)));
                    assert(spec_attempt_delivered(all) =~= spec_attempt_delivered(all.take(i + 1))
                        + spec_attempt_delivered(all.skip(i + 1)));
                }
            },
            FetchStep::Proceed => {
                proof {
                    lemma_attempt_snoc_proceed(all.take(i), all[i]);
                    assert(all.take(i).push(all[i]) =~= all.take(i + 1));
                    assert(spec_attempt_delivered(all) =~= spec_attempt_delivered(all.take(i + 1))
                        + spec_attempt_delivered(all.skip(i + 1)));
                }
            },
            FetchStep::Complete => {
                proof {
                    lemma_attempt_cuts(all, i);
                }
                return Ok(());
            },
            FetchStep::Abort(e) => {
                proof {
                    lemma_attempt_cuts(all, i);
                }
                return Err(e);
            },
        }
    }
    proof {
        assert(all.skip(all.len() as int) =~= Seq::<FetchEvent>::empty());
        assert(all.take(all.len() as int) =~= all);
    }
    Err(CustomError::ChannelError)
}

/// The whole read, as a function of the transport's behaviour: given the
/// event sequences of the successive attempts the transport would serve,
/// and the number of transient faults already counted, the triple of
///
///  - the read's result (`None` when the recorded attempts end while the
///    reader would still issue another one),
///  - everything delivered to the sink across all consumed attempts, in
///    order, duplicates from restarted attempts included, and
///  - how many attempts were consumed.
pub open spec fn spec_read(atts: Seq<Vec<FetchEvent>>, failures: u32) -> (
    Option<Result<(), ReaderError>>,
    Seq<Vec<u8>>,
    int,
)
    decreases atts.len(),
{
    if atts.len() == 0 {
        (None, Seq::empty(), 0)
    } else {
        let delivered = spec_attempt_delivered(atts.first()@);
        match spec_attempt_result(atts.first()@) {
            Ok(_) => (Some(Ok(())), delivered, 1),
            Err(e) => if e is ChunkDecodeError {
                if failures < MAX_RETRIES {
                    let (res, more, used) = spec_read(atts.drop_first(), (failures + 1) as u32);
                    (res, delivered + more, 1 + used)
                } else {
                    (Some(Err(ReaderError::TooManyErrors)), delivered, 1)
                }
            } else {
                (Some(Err(ReaderError::Fatal(e))), delivered, 1)
            },
        }
    }
}

/// Read one logical stream from recorded transport behaviour, retrying
/// transient faults under the bounded-retry policy.
///
/// Each element of `attempts` is the event sequence one fetch attempt
/// would produce; the reader consumes them in order exactly as the live
/// loop consumes successive fetches. Chunks go to `sink` as they are
/// read, so chunks delivered by attempts that later failed stay in the
/// sink — the reader does not deduplicate across restarts. The result is
/// `None` when the recording ends while the reader would retry further.
pub fn read_with_retries(attempts: Vec<Vec<FetchEvent>>, sink: &mut Vec<Vec<u8>>) -> (r: Option<
    Result<(), ReaderError>,
>)
    ensures
        r == spec_read(attempts@, 0).0,
        final(sink)@ == old(sink)@ + spec_read(attempts@, 0).1,
{
    let ghost all = attempts@;
    let ghost mut added: Seq<Vec<u8>> = Seq::empty();
    let mut st = RetryState::new();
    proof {
        assert(all.skip(0) =~= all);
        assert(sink@ =~= old(sink)@ + added);
        assert(added + spec_read(all, 0).1 =~= spec_read(all, 0).1);
    }
    for att in it: attempts.into_iter()
        invariant
            it.seq() == all,
            st.attempts == it.index(),
            it.index() <= MAX_RETRIES,
            sink@ == old(sink)@ + added,
            spec_read(all, 0).0 == spec_read(all.skip(it.index()), st.attempts).0,
            spec_read(all, 0).1 == added + spec_read(all.skip(it.index()), st.attempts).1,
    {
        let ghost i = it.index();
        proof {
            assert(att == all[i]);
            assert(all.skip(i).len() > 0);
            assert(all.skip(i).first() == all[i]);
            assert(all.skip(i).drop_first() =~= all.skip(i + 1));
        }
        let outcome = consume_events(att, sink);
        proof {
            let ghost delivered = spec_attempt_delivered(all[i]@);
            assert(sink@ =~= (old(sink)@ + added) + delivered);
            assert((old(sink)@ + added) + delivered =~= old(sink)@ + (added + delivered));
            added = added + delivered;
        }
        match st.on_attempt_end(outcome) {
            ReaderAction::Finished => {
                proof {
                    assert(spec_read(all, 0).1 =~= added);
                }
                return Some(Ok(()));
            },
            ReaderAction::RetryAfterDelay { .. } => {
                proof {
                    assert(spec_read(all, 0).1 =~= added + spec_read(
                        all.skip(i + 1),
                        st.attempts,
                    ).1);
                }
            },
            ReaderAction::Fail(err) => {
                proof {
                    assert(spec_read(all, 0).1 =~= added);
                }
                return Some(Err(err));
            },
        }
    }
    proof {
        assert(all.skip(all.len() as int) =~= Seq::<Vec<FetchEvent>>::empty());
        assert(spec_read(all, 0).1 =~= added);
    }
    None
}

/// Appending a forwarded-chunk event to a run of non-terminal events
/// extends the delivered sequence by that chunk and keeps the run
/// non-terminal.
proof fn lemma_attempt_snoc_forward(evs: Seq<FetchEvent>, ev: FetchEvent, c: Vec<u8>)
    requires
        spec_classify(ev) == FetchStep::Forward(c),
        spec_attempt_result(evs) == Err::<(), CustomError>(CustomError::ChannelError),
    ensures
        spec_attempt_delivered(evs.push(ev)) =~= spec_attempt_delivered(evs) + seq![c],
        spec_attempt_result(evs.push(ev)) == Err::<(), CustomError>(CustomError::ChannelError),
    decreases evs.len(),
{
    let p = evs.push(ev);
    if evs.len() == 0 {
        assert(p.first() == ev);
        assert(p.drop_first() =~= Seq::<FetchEvent>::empty());
        assert(spec_attempt_delivered(p) == seq![c] + spec_attempt_delivered(p.drop_first()));
        assert(spec_attempt_delivered(p.drop_first()) == Seq::<Vec<u8>>::empty());
        assert(spec_attempt_delivered(evs) == Seq::<Vec<u8>>::empty());
        assert(spec_attempt_result(p) == spec_attempt_result(p.drop_first()));
    } else {
        assert(p.first() == evs.first());
        assert(p.drop_first() =~= evs.drop_first().push(ev));
        lemma_attempt_snoc_forward(evs.drop_first(), ev, c);
    }
}

/// Appending a header event to a run of non-terminal events leaves the
/// delivered sequence unchanged and keeps the run non-terminal.
proof fn lemma_attempt_snoc_proceed(evs: Seq<FetchEvent>, ev: FetchEvent)
    requires
        spec_classify(ev) is Proceed,
        spec_attempt_result(evs) == Err::<(), CustomError>(CustomError::ChannelError),
    ensures
        spec_attempt_delivered(evs.push(ev)) =~= spec_attempt_delivered(evs),
        spec_attempt_result(evs.push(ev)) == Err::<(), CustomError>(CustomError::ChannelError),
    decreases evs.len(),
{
    let p = evs.push(ev);
    if evs.len() == 0 {
        assert(p.first() == ev);
        assert(p.drop_first() =~= Seq::<FetchEvent>::empty());
        assert(spec_attempt_delivered(p) == spec_attempt_delivered(p.drop_first()));
        assert(spec_attempt_delivered(p.drop_first()) == Seq::<Vec<u8>>::empty());
        assert(spec_attempt_delivered(evs) == Seq::<Vec<u8>>::empty());
        assert(spec_attempt_result(p) == spec_attempt_result(p.drop_first()));
    } else {
        assert(p.first() == evs.first());
        assert(p.drop_first() =~= evs.drop_first().push(ev));
        lemma_attempt_snoc_proceed(evs.drop_first(), ev);
    }
}

/// Once the first terminal event is reached, the events after it do not
/// change what the attempt delivered or how it ended.
proof fn lemma_attempt_cuts(evs: Seq<FetchEvent>, i: int)
    requires
        0 <= i < evs.len(),
        spec_attempt_result(evs.take(i)) == Err::<(), CustomError>(CustomError::ChannelError),
        spec_classify(evs[i]) is Complete || spec_classify(evs[i]) is Abort,
    ensures
        spec_attempt_delivered(evs) =~= spec_attempt_delivered(evs.take(i)),
        spec_attempt_result(evs) == (match spec_classify(evs[i]) {
            FetchStep::Complete => Ok::<(), CustomError>(()),
            FetchStep::Abort(e) => Err::<(), CustomError>(e),
            _ => Err::<(), CustomError>(CustomError::ChannelError),
        }),
    decreases evs.len(),
{
    if i == 0 {
        assert(evs.first() == evs[0]);
    } else {
        assert(evs.first() == evs.take(i).first());
        assert(evs.take(i).len() > 0);
        assert(evs.take(i).drop_first() =~= evs.drop_first().take(i - 1));
        lemma_attempt_cuts(evs.drop_first(), i - 1);
        assert(evs.drop_first()[i - 1] == evs[i]);
    }
}

/// Everything a run of attempts would deliver if every attempt were
/// consumed: the concatenation of each attempt's delivered chunks.
pub open spec fn spec_total_delivered(atts: Seq<Vec<FetchEvent>>) -> Seq<Vec<u8>>
    decreases atts.len(),
{
    if atts.len() == 0 {
        Seq::empty()
    } else {
        spec_attempt_delivered(atts.first()@) + spec_total_delivered(atts.drop_first())
    }
}

/// One attempt whose events are exactly the chunks of `chunks` — each
/// non-empty — followed by the empty terminating chunk completes normally
/// and delivers exactly `chunks`, in order.
pub proof fn lemma_attempt_clean_stream(evs: Seq<FetchEvent>, chunks: Seq<Vec<u8>>)
    requires
        evs.len() == chunks.len() + 1,
        forall|j: int| 0 <= j < chunks.len() ==> evs[j] == FetchEvent::Chunk(chunks[j]),
        forall|j: int| 0 <= j < chunks.len() ==> chunks[j]@.len() > 0,
        evs.last() matches FetchEvent::Chunk(t) && t@.len() == 0,
    ensures
        spec_attempt_result(evs) == Ok::<(), CustomError>(()),
        spec_attempt_delivered(evs) =~= chunks,
    decreases chunks.len(),
{
    if chunks.len() == 0 {
        assert(evs.first() == evs.last());
    } else {
        assert(evs.first() == FetchEvent::Chunk(chunks.first()));
        assert(evs.drop_first().len() == chunks.drop_first().len() + 1);
        assert(forall|j: int| 0 <= j < chunks.drop_first().len() ==> evs.drop_first()[j]
            == FetchEvent::Chunk(chunks.drop_first()[j]));
        assert(evs.drop_first().last() == evs.last());
        lemma_attempt_clean_stream(evs.drop_first(), chunks.drop_first());
        assert(seq![chunks.first()] + chunks.drop_first() =~= chunks);
    }
}

/// For any stream of N > 0 chunks followed by the empty terminator and no
/// fault, the reader finishes on the first attempt and the sink receives
/// exactly those N chunks, in order, exactly once.
pub proof fn lemma_reader_clean_stream(atts: Seq<Vec<FetchEvent>>, chunks: Seq<Vec<u8>>)
    requires
        atts.len() == 1,
        chunks.len() > 0,
        atts[0]@.len() == chunks.len() + 1,
        forall|j: int| 0 <= j < chunks.len() ==> atts[0]@[j] == FetchEvent::Chunk(chunks[j]),
        forall|j: int| 0 <= j < chunks.len() ==> chunks[j]@.len() > 0,
        atts[0]@.last() matches FetchEvent::Chunk(t) && t@.len() == 0,
    ensures
        spec_read(atts, 0).0 == Some(Ok::<(), ReaderError>(())),
        spec_read(atts, 0).1 =~= chunks,
        spec_read(atts, 0).2 == 1,
{
    assert(atts.first() == atts[0]);
    lemma_attempt_clean_stream(atts[0]@, chunks);
}

/// A run of `k` transient faults followed by a success, starting from
/// `failures` faults already counted, finishes normally after `k + 1`
/// further attempts and delivers each consumed attempt's chunks in order.
proof fn lemma_read_after_failures(atts: Seq<Vec<FetchEvent>>, failures: u32, k: int)
    requires
        0 <= k,
        failures + k <= MAX_RETRIES,
        atts.len() == k + 1,
        forall|j: int| 0 <= j < k ==> spec_attempt_result(atts[j]@) == Err::<(), CustomError>(
            CustomError::ChunkDecodeError,
        ),
        spec_attempt_result(atts[k]@) is Ok,
    ensures
        spec_read(atts, failures).0 == Some(Ok::<(), ReaderError>(())),
        spec_read(atts, failures).1 =~= spec_total_delivered(atts),
        spec_read(atts, failures).2 == k + 1,
    decreases k,
{
    assert(atts.first() == atts[0]);
    if k == 0 {
        assert(spec_total_delivered(atts.drop_first()) =~= Seq::<Vec<u8>>::empty());
        assert(spec_attempt_delivered(atts[0]@) + Seq::<Vec<u8>>::empty() =~= spec_attempt_delivered(
            atts[0]@,
        ));
    } else {
        assert(forall|j: int| 0 <= j < k - 1 ==> atts.drop_first()[j] == atts[j + 1]);
        assert(atts.drop_first()[k - 1] == atts[k]);
        lemma_read_after_failures(atts.drop_first(), (failures + 1) as u32, k - 1);
    }
}

/// Splitting a run's total delivery at its last attempt.
proof fn lemma_total_delivered_split_last(atts: Seq<Vec<FetchEvent>>)
    requires
        atts.len() > 0,
    ensures
        spec_total_delivered(atts) =~= spec_total_delivered(atts.drop_last())
            + spec_attempt_delivered(atts.last()@),
    decreases atts.len(),
{
    if atts.len() == 1 {
        assert(atts.drop_last() =~= Seq::<Vec<FetchEvent>>::empty());
        assert(atts.drop_first() =~= Seq::<Vec<FetchEvent>>::empty());
        assert(atts.first() == atts.last());
    } else {
        lemma_total_delivered_split_last(atts.drop_first());
        assert(atts.drop_first().last() == atts.last());
        assert(atts.drop_first().drop_last() =~= atts.drop_last().drop_first());
        assert(atts.drop_last().len() > 0);
        assert(atts.drop_last().first() == atts.first());
    }
}

/// If attempts 1 through k (k at most the retry budget) each end in a
/// transient chunk-decode fault and attempt k + 1 completes, the reader
/// returns success after exactly k + 1 attempts. The sink ends with the
/// successful attempt's chunks appended after whatever the failed
/// attempts had already delivered: nothing is deduplicated against the
/// final attempt.
pub proof fn lemma_reader_retry_then_success(atts: Seq<Vec<FetchEvent>>, k: int)
    requires
        0 <= k <= MAX_RETRIES,
        atts.len() == k + 1,
        forall|j: int| 0 <= j < k ==> spec_attempt_result(atts[j]@) == Err::<(), CustomError>(
            CustomError::ChunkDecodeError,
        ),
        spec_attempt_result(atts[k]@) is Ok,
    ensures
        spec_read(atts, 0).0 == Some(Ok::<(), ReaderError>(())),
        spec_read(atts, 0).1 =~= spec_total_delivered(atts.take(k)) + spec_attempt_delivered(
            atts[k]@,
        ),
        spec_read(atts, 0).2 == k + 1,
{
    lemma_read_after_failures(atts, 0, k);
    lemma_total_delivered_split_last(atts);
    assert(atts.drop_last() =~= atts.take(k));
    assert(atts.last() == atts[k]);
}

/// Once the transient-fault budget is spent — `MAX_RETRIES + 1`
/// consecutive chunk-decode faults — the reader fails with
/// [`ReaderError::TooManyErrors`] after exactly `MAX_RETRIES + 1`
/// attempts: whatever the transport would serve beyond them is never
/// consulted.
pub proof fn lemma_reader_exhaustion(atts: Seq<Vec<FetchEvent>>)
    requires
        atts.len() >= MAX_RETRIES + 1,
        forall|j: int| 0 <= j < MAX_RETRIES + 1 ==> spec_attempt_result(atts[j]@) == Err::<
            (),
            CustomError,
        >(CustomError::ChunkDecodeError),
    ensures
        spec_read(atts, 0).0 == Some(Err::<(), ReaderError>(ReaderError::TooManyErrors)),
        spec_read(atts, 0).2 == MAX_RETRIES + 1,
{
    lemma_reader_exhaustion_helper(atts, 0);
}

/// Generalisation of [`lemma_reader_exhaustion`] over the number of
/// faults already counted.
proof fn lemma_reader_exhaustion_helper(atts: Seq<Vec<FetchEvent>>, failures: u32)
    requires
        failures <= MAX_RETRIES,
        atts.len() >= MAX_RETRIES + 1 - failures,
        forall|j: int| 0 <= j < MAX_RETRIES + 1 - failures ==> spec_attempt_result(atts[j]@)
            == Err::<(), CustomError>(CustomError::ChunkDecodeError),
    ensures
        spec_read(atts, failures).0 == Some(Err::<(), ReaderError>(ReaderError::TooManyErrors)),
        spec_read(atts, failures).2 == MAX_RETRIES + 1 - failures,
    decreases MAX_RETRIES - failures,
{
    assert(atts.first() == atts[0]);
    if failures < MAX_RETRIES {
        assert(forall|j: int| 0 <= j < MAX_RETRIES - failures ==> atts.drop_first()[j] == atts[j
            + 1]);
        lemma_reader_exhaustion_helper(atts.drop_first(), (failures + 1) as u32);
    }
}

/// The reader never consumes more than `MAX_RETRIES + 1` attempts,
/// whatever the transport does.
pub proof fn lemma_reader_attempt_budget(atts: Seq<Vec<FetchEvent>>, failures: u32)
    requires
        failures <= MAX_RETRIES,
    ensures
        spec_read(atts, failures).2 <= MAX_RETRIES + 1 - failures,
    decreases atts.len(),
{
    if atts.len() > 0 {
        match spec_attempt_result(atts.first()@) {
            Ok(_) => {},
            Err(e) => {
                if e is ChunkDecodeError && failures < MAX_RETRIES {
                    lemma_reader_attempt_budget(atts.drop_first(), (failures + 1) as u32);
                }
            },
        }
    }
}

/// Any non-transient fault — an HTTP error, a parameter error, a broken
/// channel — short-circuits on its first occurrence: one attempt, zero
/// retries, and the error is passed through unchanged.
pub proof fn lemma_reader_fatal_short_circuit(atts: Seq<Vec<FetchEvent>>, e: CustomError)
    requires
        atts.len() >= 1,
        spec_attempt_result(atts[0]@) == Err::<(), CustomError>(e),
        !(e is ChunkDecodeError),
    ensures
        spec_read(atts, 0).0 == Some(Err::<(), ReaderError>(ReaderError::Fatal(e))),
        spec_read(atts, 0).1 =~= spec_attempt_delivered(atts[0]@),
        spec_read(atts, 0).2 == 1,
{
    assert(atts.first() == atts[0]);
}

} // verus!