use april::spinner::{CommandOutcome, IndicatorPhase, Spinner, SpinnerCommand};

#[test]
fn a_fresh_indicator_is_idle_and_draws_nothing() {
    let mut sp = Spinner::new("Generating");
    assert_eq!(sp.phase, IndicatorPhase::Idle);
    assert_eq!(sp.index, 0);
    assert_eq!(sp.message, "Generating".to_string());
    assert_eq!(sp.step(), None);
}

#[test]
fn first_frame_shows_glyph_message_and_blank_dots() {
    let mut sp = Spinner::new("hello, world");
    sp.start();
    let line = sp.step().expect("a running indicator draws");
    assert_eq!(line, "\u{280b}hello, world   ".to_string());
    assert_eq!(sp.index, 1);
}

#[test]
fn dots_grow_every_five_frames() {
    let mut sp = Spinner::new("w");
    sp.start();
    let mut last = String::new();
    for _ in 0..6 {
        last = sp.step().expect("running");
    }
    // Frame index 5: sixth glyph, one dot padded to width three.
    assert_eq!(last, "\u{2834}w.  ".to_string());
}

#[test]
fn frame_index_wraps_around_its_cycle() {
    let mut sp = Spinner::new("");
    sp.start();
    for _ in 0..20 {
        sp.step().expect("running");
    }
    assert_eq!(sp.index, 0);
}

#[test]
fn pause_clears_once_and_silences_the_animation() {
    let mut sp = Spinner::new("m");
    sp.start();
    assert!(sp.pause(), "leaving Running must clear the line");
    assert_eq!(sp.phase, IndicatorPhase::Paused);
    assert_eq!(sp.step(), None, "a paused indicator draws nothing");
    assert!(!sp.pause(), "pausing a paused indicator has nothing to clear");
}

#[test]
fn continue_resumes_a_paused_indicator_with_a_new_message() {
    let mut sp = Spinner::new("hello, world");
    sp.start();
    sp.pause();
    sp.cont("ME again");
    assert_eq!(sp.phase, IndicatorPhase::Running);
    assert_eq!(sp.message, "ME again".to_string());
}

#[test]
fn continue_while_running_is_a_noop_and_keeps_the_message() {
    let mut sp = Spinner::new("first message");
    sp.start();
    sp.cont("replacement");
    assert_eq!(sp.phase, IndicatorPhase::Running);
    assert_eq!(sp.message, "first message".to_string());
}

#[test]
fn stop_is_terminal_and_safe_to_repeat() {
    let mut sp = Spinner::new("m");
    sp.start();
    assert!(sp.stop(), "stopping a running indicator clears the line");
    assert_eq!(sp.phase, IndicatorPhase::Stopped);
    assert!(!sp.stop(), "a second stop is a no-op");
    assert_eq!(sp.phase, IndicatorPhase::Stopped);
    assert_eq!(sp.step(), None);
}

#[test]
fn stop_after_pause_needs_no_second_clear() {
    let mut sp = Spinner::new("m");
    sp.start();
    assert!(sp.pause());
    assert!(!sp.stop(), "the line was already cleared at the pause");
    assert_eq!(sp.phase, IndicatorPhase::Stopped);
}

#[test]
fn commands_drive_the_machine_and_report_their_effects() {
    let mut sp = Spinner::new("hello");
    sp.start();
    let out = sp.on_command(SpinnerCommand::Pause);
    assert_eq!(out, CommandOutcome { clear: true, ack: true, exit: false });
    let out = sp.on_command(SpinnerCommand::Continue("again".to_string()));
    assert_eq!(out, CommandOutcome { clear: false, ack: false, exit: false });
    assert_eq!(sp.message, "again".to_string());
    let out = sp.on_command(SpinnerCommand::Stop);
    assert_eq!(out, CommandOutcome { clear: true, ack: true, exit: true });
    let out = sp.on_command(SpinnerCommand::Stop);
    assert_eq!(out, CommandOutcome { clear: false, ack: true, exit: true });
}
