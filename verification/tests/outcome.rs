use rget::display::{progress_display, tint_of, ProgressDisplay, Tint};
use rget::error::TransferError;
use rget::outcome::{Outcome, OutcomeRecord};
use rget::transfer::{Ending, Fault};

fn record(outcome: Outcome, seconds: u64) -> OutcomeRecord {
    OutcomeRecord::new("http://host/data.bin", outcome, seconds)
}

#[test]
fn success_line() {
    assert_eq!(
        record(Outcome::Completed, 12).log_line(),
        "SUCCESS: http://host/data.bin (12 seconds)\n"
    );
}

#[test]
fn paused_line() {
    assert_eq!(
        record(Outcome::Paused, 0).log_line(),
        "PAUSED: http://host/data.bin (0 seconds)\n"
    );
}

#[test]
fn failed_line_holds_the_detail_verbatim() {
    assert_eq!(
        record(Outcome::Failed { detail: "connection refused (os error 111)".to_string() }, 3)
            .log_line(),
        "FAILED: http://host/data.bin (connection refused (os error 111)) (3 seconds)\n"
    );
    assert_eq!(
        record(Outcome::Failed { detail: String::new() }, 1).log_line(),
        "FAILED: http://host/data.bin () (1 seconds)\n"
    );
}

#[test]
fn line_for_a_long_run() {
    assert_eq!(
        record(Outcome::Completed, u64::MAX).log_line(),
        "SUCCESS: http://host/data.bin (18446744073709551615 seconds)\n"
    );
}

#[test]
fn exit_status_is_zero_unless_failed() {
    assert_eq!(Outcome::Completed.exit_status(), 0);
    assert_eq!(Outcome::Paused.exit_status(), 0);
    assert_eq!(Outcome::Failed { detail: "x".to_string() }.exit_status(), 1);
}

#[test]
fn only_completion_is_success() {
    assert!(Outcome::Completed.succeeded());
    assert!(!Outcome::Paused.succeeded());
    assert!(!Outcome::Failed { detail: "x".to_string() }.succeeded());
}

#[test]
fn outcome_of_each_ending() {
    assert_eq!(Outcome::of_ending(Ending::Completed, "ignored"), Outcome::Completed);
    assert_eq!(Outcome::of_ending(Ending::Paused, "ignored"), Outcome::Paused);
    assert_eq!(
        Outcome::of_ending(Ending::Failed(Fault::Read), "connection reset"),
        Outcome::Failed { detail: "connection reset".to_string() }
    );
    assert_eq!(
        Outcome::of_ending(Ending::Failed(Fault::Write), "No space left on device"),
        Outcome::Failed { detail: "No space left on device".to_string() }
    );
    assert_eq!(
        Outcome::of_ending(Ending::Failed(Fault::LengthLimit), "ignored"),
        Outcome::Failed { detail: "file length limit reached".to_string() }
    );
}

#[test]
fn detail_of_each_error() {
    assert_eq!(TransferError::Input.detail(), "URL has no file name");
    assert_eq!(
        TransferError::Connection { detail: "dns error".to_string() }.detail(),
        "dns error"
    );
    assert_eq!(TransferError::Protocol { status: 404 }.detail(), "unexpected HTTP status 404");
    assert_eq!(TransferError::Protocol { status: 0 }.detail(), "unexpected HTTP status 0");
    assert_eq!(
        TransferError::Stream { detail: "broken pipe".to_string() }.detail(),
        "broken pipe"
    );
}

#[test]
fn outcome_of_an_error_is_a_failure_with_its_detail() {
    assert_eq!(
        Outcome::of_error(&TransferError::Input),
        Outcome::Failed { detail: "URL has no file name".to_string() }
    );
    assert_eq!(
        Outcome::of_error(&TransferError::Connection { detail: "timed out".to_string() }),
        Outcome::Failed { detail: "timed out".to_string() }
    );
}

#[test]
fn display_is_hidden_in_quiet_mode() {
    assert_eq!(progress_display(true, Some(300)), ProgressDisplay::Hidden);
    assert_eq!(progress_display(true, None), ProgressDisplay::Hidden);
}

#[test]
fn display_is_a_bar_for_a_known_total() {
    assert_eq!(progress_display(false, Some(300)), ProgressDisplay::Bar { length: 300 });
    assert_eq!(progress_display(false, Some(0)), ProgressDisplay::Bar { length: 0 });
}

#[test]
fn display_is_a_spinner_for_an_unknown_total() {
    assert_eq!(progress_display(false, None), ProgressDisplay::Spinner);
}

#[test]
fn tint_by_name() {
    assert_eq!(tint_of("green"), Tint::Green);
    assert_eq!(tint_of("red"), Tint::Red);
    assert_eq!(tint_of("blue"), Tint::Plain);
    assert_eq!(tint_of("Green"), Tint::Plain);
    assert_eq!(tint_of(""), Tint::Plain);
}

#[test]
fn record_keeps_what_it_was_made_from() {
    let made = OutcomeRecord::new("http://host/x", Outcome::Paused, 9);
    assert_eq!(made.url(), "http://host/x");
    assert_eq!(made.outcome(), &Outcome::Paused);
    assert_eq!(made.duration_seconds(), 9);
    assert!(!made.succeeded());
    assert_eq!(made.error_detail(), None);
}

#[test]
fn record_of_a_failure_carries_its_detail() {
    let made = record(Outcome::Failed { detail: "disk full".to_string() }, 4);
    assert!(!made.succeeded());
    assert_eq!(made.error_detail(), Some("disk full"));
    assert!(record(Outcome::Completed, 4).succeeded());
    assert_eq!(record(Outcome::Completed, 4).error_detail(), None);
}
