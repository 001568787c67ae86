use april::selog::{extract_lint_fields, split_tokens};

#[test]
fn tokens_are_maximal_nonspace_runs() {
    let tokens = split_tokens(b"  one\ttwo  three ");
    assert_eq!(tokens, vec![b"one".to_vec(), b"two".to_vec(), b"three".to_vec()]);
    assert_eq!(split_tokens(b"   "), Vec::<Vec<u8>>::new());
    assert_eq!(split_tokens(b"solo"), vec![b"solo".to_vec()]);
}

#[test]
fn a_lint_log_line_yields_timestamp_and_duration() {
    let (datetime, dur) =
        extract_lint_fields(b"INFO 2023-10-01 12:00:00 lint code len dur:123").unwrap();
    assert_eq!(datetime, b"2023-10-01 12:00:00".to_vec());
    assert_eq!(dur, b"123".to_vec());
}

#[test]
fn the_duration_stops_at_a_second_colon() {
    let (_, dur) = extract_lint_fields(b"INFO 2023-10-01 12:00:00 dur:42:extra").unwrap();
    assert_eq!(dur, b"42".to_vec());
}

#[test]
fn the_first_duration_token_wins() {
    let (_, dur) = extract_lint_fields(b"INFO 2023-10-01 12:00:00 dur:1 dur:2").unwrap();
    assert_eq!(dur, b"1".to_vec());
}

#[test]
fn short_or_markerless_lines_yield_nothing() {
    assert_eq!(extract_lint_fields(b"INFO 2023-10-01"), None);
    assert_eq!(extract_lint_fields(b"INFO 2023-10-01 12:00:00 lint code len"), None);
}
