use log_pipeline::redact::{redact_phone_numbers, PHONE_PATTERN, REDACTION_MARKER};

#[test]
fn short_number_inside_a_sentence() {
    assert_eq!(redact_phone_numbers("call 555-1234 now"), "call [REDACTED] now");
}

#[test]
fn long_number_alone() {
    assert_eq!(redact_phone_numbers("555-555-1234"), "[REDACTED]");
}

#[test]
fn digit_run_longer_than_the_shape_is_left() {
    assert_eq!(redact_phone_numbers("12345-1234"), "12345-1234");
    assert_eq!(redact_phone_numbers("555-12345"), "555-12345");
    assert_eq!(redact_phone_numbers("5555-1234"), "5555-1234");
}

#[test]
fn empty_text_stays_empty() {
    assert_eq!(redact_phone_numbers(""), "");
}

#[test]
fn text_without_numbers_is_unchanged() {
    assert_eq!(redact_phone_numbers("nothing to see here"), "nothing to see here");
    assert_eq!(redact_phone_numbers("555 1234"), "555 1234");
    assert_eq!(redact_phone_numbers("55-1234"), "55-1234");
    assert_eq!(redact_phone_numbers("555-123"), "555-123");
}

#[test]
fn every_number_is_replaced_from_left_to_right() {
    assert_eq!(
        redact_phone_numbers("a 555-1234, b 555-555-1234; c 123-4567."),
        "a [REDACTED], b [REDACTED]; c [REDACTED]."
    );
    assert_eq!(redact_phone_numbers("555-1234 555-1234"), "[REDACTED] [REDACTED]");
}

#[test]
fn first_shape_that_fits_wins() {
    assert_eq!(redact_phone_numbers("555-1234-5678"), "[REDACTED]-5678");
    assert_eq!(redact_phone_numbers("555-555-1234-567"), "[REDACTED]-567");
    assert_eq!(redact_phone_numbers("555-1234-555-1234"), "[REDACTED]-[REDACTED]");
}

#[test]
fn letters_and_underscores_next_to_a_number_keep_it() {
    assert_eq!(redact_phone_numbers("a555-1234"), "a555-1234");
    assert_eq!(redact_phone_numbers("555-1234b"), "555-1234b");
    assert_eq!(redact_phone_numbers("_555-1234"), "_555-1234");
    assert_eq!(redact_phone_numbers("(555-1234)"), "([REDACTED])");
    assert_eq!(redact_phone_numbers("tel:555-555-1234."), "tel:[REDACTED].");
}

#[test]
fn number_at_either_end_of_the_text() {
    assert_eq!(redact_phone_numbers("555-1234 is mine"), "[REDACTED] is mine");
    assert_eq!(redact_phone_numbers("mine is 555-555-1234"), "mine is [REDACTED]");
}

#[test]
fn text_beyond_ascii_is_kept() {
    assert_eq!(
        redact_phone_numbers("\u{260e} 555-1234 \u{2014} caf\u{e9}"),
        "\u{260e} [REDACTED] \u{2014} caf\u{e9}"
    );
}

#[test]
fn redacting_twice_is_redacting_once() {
    let samples = [
        "",
        "call 555-1234 now",
        "555-555-1234",
        "12345-1234",
        "555-1234-5678",
        "555-1234-555-1234",
        "a 555-1234, b 555-555-1234; c 123-4567.",
        "[REDACTED]",
        "[REDACTED]555-1234",
        "555-1234[REDACTED]",
    ];
    for sample in samples {
        let once = redact_phone_numbers(sample);
        let twice = redact_phone_numbers(&once);
        assert_eq!(twice, once);
    }
}

#[test]
fn marker_is_not_taken_for_a_number() {
    assert_eq!(REDACTION_MARKER, "[REDACTED]");
    assert_eq!(redact_phone_numbers(REDACTION_MARKER), REDACTION_MARKER);
}

#[test]
fn pattern_names_both_shapes() {
    assert_eq!(PHONE_PATTERN, r"\b(?:\d{3}-\d{4}|\d{3}-\d{3}-\d{4})\b");
}
