use rfid_scanner::speech::{pacing_delay_ticks, split_sentences, PACING_TICKS_PER_CHAR};

#[test]
fn two_sentences_are_split_and_resuffixed() {
    let sentences = split_sentences("Hello. World.");
    assert_eq!(sentences, vec!["Hello. ".to_string(), "World. ".to_string()]);
}

#[test]
fn trailing_text_without_period_still_becomes_a_sentence() {
    let sentences = split_sentences("System Online");
    assert_eq!(sentences, vec!["System Online. ".to_string()]);
}

#[test]
fn surrounding_whitespace_is_trimmed() {
    let sentences = split_sentences("  Hello .\n World \t.");
    assert_eq!(sentences, vec!["Hello. ".to_string(), "World. ".to_string()]);
}

#[test]
fn empty_segments_are_not_submitted() {
    assert_eq!(split_sentences(""), Vec::<String>::new());
    assert_eq!(split_sentences("..."), Vec::<String>::new());
    assert_eq!(split_sentences(" . . "), Vec::<String>::new());
    assert_eq!(split_sentences("A.. B"), vec!["A. ".to_string(), "B. ".to_string()]);
}

#[test]
fn pacing_delay_is_proportional_to_length() {
    assert_eq!(pacing_delay_ticks(0), 0);
    assert_eq!(pacing_delay_ticks(1), PACING_TICKS_PER_CHAR);
    assert_eq!(pacing_delay_ticks(7), 700);
    // A pause separates consecutive sentence submissions.
    assert!(pacing_delay_ticks("Hello. ".len()) > 0);
}

#[test]
fn pacing_delay_saturates_at_the_type_bound() {
    assert_eq!(pacing_delay_ticks(usize::MAX), u64::MAX);
}
