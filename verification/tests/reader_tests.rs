use april::errors::CustomError;
use april::events::{classify_event, FetchEvent, FetchStep, ResponseMeta};
use april::reader::{
    consume_events, read_with_retries, ReaderAction, ReaderError, RetryState, MAX_RETRIES,
    RETRY_DELAY_SECS,
};

fn decode_fault() -> FetchEvent {
    FetchEvent::Failed(
        "Failed to read response body: Error while decoding chunk: connection reset".to_string(),
    )
}

fn ok_meta() -> FetchEvent {
    FetchEvent::Meta(ResponseMeta { status: 200, ok: true, status_text: "OK".to_string() })
}

#[test]
fn classify_forwards_nonempty_chunks() {
    let step = classify_event(FetchEvent::Chunk(b"hello".to_vec()));
    assert_eq!(step, FetchStep::Forward(b"hello".to_vec()));
}

#[test]
fn classify_completes_on_empty_chunk() {
    let step = classify_event(FetchEvent::Chunk(Vec::new()));
    assert_eq!(step, FetchStep::Complete);
}

#[test]
fn classify_skips_successful_meta() {
    assert_eq!(classify_event(ok_meta()), FetchStep::Proceed);
}

#[test]
fn classify_turns_bad_meta_into_http_error() {
    let step = classify_event(FetchEvent::Meta(ResponseMeta {
        status: 500,
        ok: false,
        status_text: "Internal Server Error".to_string(),
    }));
    assert_eq!(
        step,
        FetchStep::Abort(CustomError::HttpError {
            status: Some(500),
            body: "Internal Server Error".to_string(),
        })
    );
}

#[test]
fn classify_recognises_chunk_decode_faults() {
    assert_eq!(
        classify_event(decode_fault()),
        FetchStep::Abort(CustomError::ChunkDecodeError)
    );
}

#[test]
fn classify_treats_other_transport_faults_as_http_errors() {
    let step = classify_event(FetchEvent::Failed("connection refused".to_string()));
    assert_eq!(
        step,
        FetchStep::Abort(CustomError::HttpError {
            status: None,
            body: "connection refused".to_string(),
        })
    );
}

#[test]
fn consume_delivers_chunks_in_order_exactly_once() {
    let events = vec![
        ok_meta(),
        FetchEvent::Chunk(b"one".to_vec()),
        FetchEvent::Chunk(b"two".to_vec()),
        FetchEvent::Chunk(Vec::new()),
    ];
    let mut sink: Vec<Vec<u8>> = Vec::new();
    let result = consume_events(events, &mut sink);
    assert_eq!(result, Ok(()));
    assert_eq!(sink, vec![b"one".to_vec(), b"two".to_vec()]);
}

#[test]
fn consume_reports_silent_stream_as_channel_fault() {
    let events = vec![ok_meta(), FetchEvent::Chunk(b"partial".to_vec())];
    let mut sink: Vec<Vec<u8>> = Vec::new();
    let result = consume_events(events, &mut sink);
    assert_eq!(result, Err(CustomError::ChannelError));
    assert_eq!(sink, vec![b"partial".to_vec()]);
}

#[test]
fn reader_delivers_clean_stream_once() {
    let attempts = vec![vec![
        ok_meta(),
        FetchEvent::Chunk(b"Looking at repo...".to_vec()),
        FetchEvent::Chunk(Vec::new()),
    ]];
    let mut sink: Vec<Vec<u8>> = Vec::new();
    let result = read_with_retries(attempts, &mut sink);
    assert_eq!(result, Some(Ok(())));
    assert_eq!(sink, vec![b"Looking at repo...".to_vec()]);
}

#[test]
fn reader_retries_transient_fault_and_keeps_earlier_chunks() {
    let attempts = vec![
        vec![ok_meta(), FetchEvent::Chunk(b"first half".to_vec()), decode_fault()],
        vec![
            ok_meta(),
            FetchEvent::Chunk(b"first half".to_vec()),
            FetchEvent::Chunk(b"second half".to_vec()),
            FetchEvent::Chunk(Vec::new()),
        ],
    ];
    let mut sink: Vec<Vec<u8>> = Vec::new();
    let result = read_with_retries(attempts, &mut sink);
    assert_eq!(result, Some(Ok(())));
    // The chunk shown during the failed attempt stays; the successful
    // attempt's chunks follow it, not deduplicated.
    assert_eq!(
        sink,
        vec![
            b"first half".to_vec(),
            b"first half".to_vec(),
            b"second half".to_vec(),
        ]
    );
}

#[test]
fn reader_succeeds_on_the_last_budgeted_attempt() {
    let mut attempts: Vec<Vec<FetchEvent>> = Vec::new();
    for _ in 0..MAX_RETRIES {
        attempts.push(vec![decode_fault()]);
    }
    attempts.push(vec![FetchEvent::Chunk(b"done".to_vec()), FetchEvent::Chunk(Vec::new())]);
    let mut sink: Vec<Vec<u8>> = Vec::new();
    let result = read_with_retries(attempts, &mut sink);
    assert_eq!(result, Some(Ok(())));
    assert_eq!(sink, vec![b"done".to_vec()]);
}

#[test]
fn reader_gives_up_after_exhausting_the_retry_budget() {
    let mut attempts: Vec<Vec<FetchEvent>> = Vec::new();
    for _ in 0..(MAX_RETRIES + 1) {
        attempts.push(vec![decode_fault()]);
    }
    // Anything recorded beyond the budget is never consulted.
    attempts.push(vec![FetchEvent::Chunk(b"never read".to_vec()), FetchEvent::Chunk(Vec::new())]);
    let mut sink: Vec<Vec<u8>> = Vec::new();
    let result = read_with_retries(attempts, &mut sink);
    assert_eq!(result, Some(Err(ReaderError::TooManyErrors)));
    assert_eq!(sink, Vec::<Vec<u8>>::new());
}

#[test]
fn reader_fails_fast_on_http_error() {
    let attempts = vec![
        vec![FetchEvent::Meta(ResponseMeta {
            status: 404,
            ok: false,
            status_text: "Not Found".to_string(),
        })],
        vec![FetchEvent::Chunk(b"never read".to_vec()), FetchEvent::Chunk(Vec::new())],
    ];
    let mut sink: Vec<Vec<u8>> = Vec::new();
    let result = read_with_retries(attempts, &mut sink);
    assert_eq!(
        result,
        Some(Err(ReaderError::Fatal(CustomError::HttpError {
            status: Some(404),
            body: "Not Found".to_string(),
        })))
    );
    assert!(sink.is_empty());
}

#[test]
fn retry_policy_counts_to_the_budget_and_stops() {
    let mut st = RetryState::new();
    for k in 1..=MAX_RETRIES {
        let action = st.on_attempt_end(Err(CustomError::ChunkDecodeError));
        assert_eq!(
            action,
            ReaderAction::RetryAfterDelay { delay_secs: RETRY_DELAY_SECS, attempt: k }
        );
    }
    let action = st.on_attempt_end(Err(CustomError::ChunkDecodeError));
    assert_eq!(action, ReaderAction::Fail(ReaderError::TooManyErrors));
    assert_eq!(st.attempts, MAX_RETRIES);
}

#[test]
fn retry_policy_never_retries_invalid_parameters() {
    let mut st = RetryState::new();
    let action = st.on_attempt_end(Err(CustomError::InvalidParameters));
    assert_eq!(
        action,
        ReaderAction::Fail(ReaderError::Fatal(CustomError::InvalidParameters))
    );
    assert_eq!(st.attempts, 0);
}

#[test]
fn retry_policy_finishes_on_success() {
    let mut st = RetryState::new();
    assert_eq!(st.on_attempt_end(Ok(())), ReaderAction::Finished);
    assert_eq!(st.attempts, 0);
}

#[test]
fn a_partial_prefix_is_not_a_chunk_decode_fault() {
    let step = classify_event(FetchEvent::Failed(
        "Failed to read response body: timeout".to_string(),
    ));
    assert_eq!(
        step,
        FetchStep::Abort(CustomError::HttpError {
            status: None,
            body: "Failed to read response body: timeout".to_string(),
        })
    );
}

#[test]
fn nothing_after_the_terminator_is_delivered() {
    let events = vec![
        FetchEvent::Chunk(b"shown".to_vec()),
        FetchEvent::Chunk(Vec::new()),
        FetchEvent::Chunk(b"ignored".to_vec()),
    ];
    let mut sink: Vec<Vec<u8>> = Vec::new();
    assert_eq!(consume_events(events, &mut sink), Ok(()));
    assert_eq!(sink, vec![b"shown".to_vec()]);
}
