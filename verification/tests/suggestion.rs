use git_suggestion::suggestion::{is_line_crlf, Error, LineEnding, Suggestion};

fn suggestion(comment: &str, start: Option<usize>, end: usize) -> Suggestion {
    Suggestion {
        diff: "".to_owned(),
        comment: comment.to_owned(),
        commit: "".to_owned(),
        path: "".to_owned(),
        original_start_line: start,
        original_end_line: end,
    }
}

#[test]
fn suggestion_apply_to_writes_patch_to_writer() {
    let original = r#"
     ‘Beware the Jabberwock, my son!
      The jaws that bite, the claws that catch!
     Beware the Jubjub bird, and shun
      The frumious Bandersnatch!’

     He took his vorpal blade in hand:
      Long time the manxome foe he sought--
     So rested he by the Tumtum tree,
      And stood awhile in thought.
"#;

    let suggestion = suggestion(
        r#"``` suggestion
     He took his vorpal sword in hand:
      Long time the manxome foe he sought—
```"#,
        Some(7),
        8,
    );

    let expected = r#"
     ‘Beware the Jabberwock, my son!
      The jaws that bite, the claws that catch!
     Beware the Jubjub bird, and shun
      The frumious Bandersnatch!’

     He took his vorpal sword in hand:
      Long time the manxome foe he sought—
     So rested he by the Tumtum tree,
      And stood awhile in thought.
"#;

    let actual = suggestion.apply_to(original.as_bytes()).unwrap();

    assert_eq!(std::str::from_utf8(&actual).unwrap(), expected);
}

#[test]
fn extract_yields_block_interior() {
    let s = suggestion("```suggestion\nfoo\n```", None, 1);
    let out = s.suggestion_with_line_ending(&LineEnding::Lf);
    assert_eq!(out, b"foo\n".to_vec());
}

#[test]
fn extract_keeps_only_first_block_through_closing_fence() {
    let s = suggestion("prose\n```suggestion\nbar\n```\nmore prose", None, 1);
    let out = s.suggestion_with_line_ending(&LineEnding::Lf);
    assert_eq!(out, b"bar\n".to_vec());
}

#[test]
fn extract_honors_first_of_multiple_blocks() {
    let s = suggestion(
        "```suggestion\nfirst\n```\n```suggestion\nsecond\n```",
        None,
        1,
    );
    let out = s.suggestion_with_line_ending(&LineEnding::Lf);
    assert_eq!(out, b"first\n".to_vec());
}

#[test]
fn extract_without_block_strips_bare_fences() {
    let s = suggestion("plain replacement\n```\n", None, 1);
    let out = s.suggestion_with_line_ending(&LineEnding::Lf);
    assert_eq!(out, b"plain replacement\n\n".to_vec());
}

#[test]
fn extract_strips_carriage_returns_for_lf_target() {
    let s = suggestion("```suggestion\r\nfoo\r\nbar\r\n```\r\n", None, 1);
    let out = s.suggestion_with_line_ending(&LineEnding::Lf);
    assert_eq!(out, b"foo\nbar\n".to_vec());
}

#[test]
fn extract_keeps_carriage_returns_for_crlf_target() {
    let s = suggestion("```suggestion\r\nfoo\r\n```\r\n", None, 1);
    let out = s.suggestion_with_line_ending(&LineEnding::CrLf);
    assert_eq!(out, b"foo\r\n".to_vec());
}

#[test]
fn line_crlf_detection_looks_at_trailing_carriage_return() {
    assert!(is_line_crlf(b"abc\r"));
    assert!(!is_line_crlf(b"abc"));
    assert!(!is_line_crlf(b""));
}

#[test]
fn apply_to_crlf_content_keeps_crlf() {
    let original = b"alpha\r\nbravo\r\ncharlie\r\n";
    let s = suggestion("```suggestion\r\nBRAVO\r\n```", Some(2), 2);
    let actual = s.apply_to(original).unwrap();
    assert_eq!(actual, b"alpha\r\nBRAVO\r\ncharlie\r\n".to_vec());
}

#[test]
fn apply_to_lf_content_strips_carriage_returns_from_suggestion() {
    let original = b"alpha\nbravo\ncharlie\n";
    let s = suggestion("```suggestion\r\nBRAVO\r\n```", Some(2), 2);
    let actual = s.apply_to(original).unwrap();
    assert_eq!(actual, b"alpha\nBRAVO\ncharlie\n".to_vec());
}

#[test]
fn apply_to_preserves_lines_outside_the_range() {
    let original = b"one\ntwo\nthree\nfour\nfive";
    let s = suggestion("```suggestion\nTWO\nTHREE\n```", Some(2), 3);
    let actual = s.apply_to(original).unwrap();
    assert_eq!(actual, b"one\nTWO\nTHREE\nfour\nfive".to_vec());
}

#[test]
fn apply_to_absent_start_equals_start_at_end() {
    let original = b"one\ntwo\nthree\n";
    let with_none = suggestion("```suggestion\nTWO\n```", None, 2);
    let with_start = suggestion("```suggestion\nTWO\n```", Some(2), 2);
    assert_eq!(
        with_none.apply_to(original).unwrap(),
        with_start.apply_to(original).unwrap(),
    );
    assert_eq!(with_none.apply_to(original).unwrap(), b"one\nTWO\nthree\n".to_vec());
}

#[test]
fn apply_to_range_past_content_is_range_invalid() {
    let original = b"one\ntwo\n";
    let s = suggestion("```suggestion\nX\n```", Some(1), 3);
    assert!(matches!(s.apply_to(original), Err(Error::RangeInvalid)));
}

#[test]
fn apply_to_reversed_range_is_range_invalid() {
    let original = b"one\ntwo\nthree\n";
    let s = suggestion("```suggestion\nX\n```", Some(3), 2);
    assert!(matches!(s.apply_to(original), Err(Error::RangeInvalid)));
}

#[test]
fn apply_to_line_zero_is_range_invalid() {
    let original = b"one\n";
    let s = suggestion("```suggestion\nX\n```", None, 0);
    assert!(matches!(s.apply_to(original), Err(Error::RangeInvalid)));
}

#[test]
fn apply_to_empty_content_is_range_invalid() {
    let s = suggestion("```suggestion\nX\n```", None, 1);
    assert!(matches!(s.apply_to(b""), Err(Error::RangeInvalid)));
}

#[test]
fn apply_to_replacement_at_final_unterminated_line() {
    let original = b"one\ntwo";
    let s = suggestion("```suggestion\nTWO\n```", None, 2);
    let actual = s.apply_to(original).unwrap();
    assert_eq!(actual, b"one\nTWO\n".to_vec());
}

#[test]
fn sniffing_uses_only_the_first_line() {
    let original = b"alpha\r\nbravo\n";
    let s = suggestion("```suggestion\r\nBRAVO\r\n```", Some(2), 2);
    let actual = s.apply_to(original).unwrap();
    assert_eq!(actual, b"alpha\r\nBRAVO\r\n".to_vec());
}

#[test]
fn extract_unclosed_block_keeps_remainder_without_fences() {
    let s = suggestion("```suggestion\nfoo\nbar", None, 1);
    let out = s.suggestion_with_line_ending(&LineEnding::Lf);
    assert_eq!(out, b"foo\nbar".to_vec());
}

#[test]
fn extract_unclosed_block_strips_bare_fences_from_remainder() {
    let s = suggestion("```suggestion\nfoo\n```x", None, 1);
    let out = s.suggestion_with_line_ending(&LineEnding::Lf);
    assert_eq!(out, b"foo\nx".to_vec());
}
