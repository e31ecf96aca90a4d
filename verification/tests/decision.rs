use cmdgen::decision::{resolve_answer, resolve_decision, Answer, UserDecision};

#[test]
fn empty_line_takes_the_default() {
    assert_eq!(resolve_decision("", &Answer::Yes), UserDecision::Accept);
}

#[test]
fn n_aborts() {
    assert_eq!(resolve_decision("n", &Answer::Yes), UserDecision::Abort);
}

#[test]
fn r_retries() {
    assert_eq!(resolve_decision("r", &Answer::Yes), UserDecision::Retry);
}

#[test]
fn y_accepts() {
    assert_eq!(resolve_decision("y", &Answer::Yes), UserDecision::Accept);
    assert_eq!(resolve_decision("y", &Answer::No), UserDecision::Accept);
}

#[test]
fn letters_count_in_either_case() {
    assert_eq!(resolve_decision("Y", &Answer::Yes), UserDecision::Accept);
    assert_eq!(resolve_decision("R", &Answer::Yes), UserDecision::Retry);
    assert_eq!(resolve_decision("N", &Answer::Yes), UserDecision::Abort);
}

#[test]
fn any_other_text_aborts() {
    for text in ["yes", "no", "x", " y", "y ", "rr", "0", "\u{212A}"] {
        assert_eq!(resolve_decision(text, &Answer::Yes), UserDecision::Abort, "{:?}", text);
    }
}

#[test]
fn decisions_agree_with_lower_case() {
    for text in ["y", "Y", "r", "R", "n", "N", "q", "yy", "\u{0130}", "\u{1E9E}"] {
        let lower = text.to_lowercase();
        let expected = if lower == "y" {
            UserDecision::Accept
        } else if lower == "r" {
            UserDecision::Retry
        } else {
            UserDecision::Abort
        };
        assert_eq!(resolve_answer(&Answer::Response(String::from(text))), expected, "{:?}", text);
    }
}

#[test]
fn empty_line_with_another_default() {
    assert_eq!(resolve_decision("", &Answer::No), UserDecision::Retry);
    assert_eq!(
        resolve_decision("", &Answer::Response(String::from("r"))),
        UserDecision::Retry
    );
    assert_eq!(
        resolve_decision("", &Answer::Response(String::from("n"))),
        UserDecision::Abort
    );
}

#[test]
fn plain_answers() {
    assert_eq!(resolve_answer(&Answer::Yes), UserDecision::Accept);
    assert_eq!(resolve_answer(&Answer::No), UserDecision::Retry);
    assert_eq!(resolve_answer(&Answer::Response(String::new())), UserDecision::Abort);
}
