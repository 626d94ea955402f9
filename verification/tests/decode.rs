use gemini_tutor::feedback::parse_tutor_response;

fn assert_no_json_canned(input: &str) {
    let fb = parse_tutor_response(input);
    assert_eq!(fb.encouragement, "很棒的嘗試！每一次練習都是進步。");
    assert_eq!(fb.specific_feedback, "您的努力很值得讚賞，繼續保持這種學習態度。");
    assert_eq!(
        fb.improvement_tips,
        vec!["保持每日練習的習慣".to_string(), "錄音後多聽幾遍自己的發音".to_string()]
    );
    assert_eq!(fb.next_challenge, "挑戰更長的對話練習");
    assert_eq!(fb.motivation_level, "high");
    assert_eq!(fb.difficulty_adjustment, "maintain");
}

fn assert_invalid_json_canned(input: &str) {
    let fb = parse_tutor_response(input);
    assert_eq!(fb.encouragement, "很好的練習！您正在進步中。");
    assert_eq!(fb.specific_feedback, "繼續保持練習的節奏，您會看到明顯的改善。");
    assert_eq!(
        fb.improvement_tips,
        vec![
            "每天堅持練習15分鐘".to_string(),
            "注意單詞的重音位置".to_string(),
            "模仿母語者的語調".to_string()
        ]
    );
    assert_eq!(fb.next_challenge, "嘗試朗讀一段新聞文章");
    assert_eq!(fb.motivation_level, "medium");
    assert_eq!(fb.difficulty_adjustment, "maintain");
}

#[test]
fn decode_embedded_json_verbatim() {
    let input = r#"Here is feedback: {"encouragement":"Great job!","specific_feedback":"Good pace.","improvement_tips":["Slow down"],"next_challenge":"Try longer text","motivation_level":"high","difficulty_adjustment":"maintain"} Hope this helps!"#;
    let fb = parse_tutor_response(input);
    assert_eq!(fb.encouragement, "Great job!");
    assert_eq!(fb.specific_feedback, "Good pace.");
    assert_eq!(fb.improvement_tips, vec!["Slow down".to_string()]);
    assert_eq!(fb.next_challenge, "Try longer text");
    assert_eq!(fb.motivation_level, "high");
    assert_eq!(fb.difficulty_adjustment, "maintain");
}

#[test]
fn decode_empty_string_is_no_json_canned() {
    assert_no_json_canned("");
}

#[test]
fn decode_braceless_text_is_no_json_canned() {
    assert_no_json_canned("no structured reply here, sorry");
}

#[test]
fn decode_only_open_brace_is_no_json_canned() {
    assert_no_json_canned("some { text without a close");
}

#[test]
fn decode_close_before_open_is_no_json_canned() {
    assert_no_json_canned("} and later {");
}

#[test]
fn decode_trailing_comma_is_invalid_json_canned() {
    assert_invalid_json_canned(r#"reply: {"encouragement":"hi",} done"#);
}

#[test]
fn decode_unbalanced_inner_braces_is_invalid_json_canned() {
    assert_invalid_json_canned("text {{\"a\":1} trailing }} oops }");
}

#[test]
fn canned_sets_differ() {
    let no_json = parse_tutor_response("plain");
    let invalid = parse_tutor_response("{oops}");
    assert_ne!(no_json.encouragement, invalid.encouragement);
    assert_ne!(no_json.improvement_tips, invalid.improvement_tips);
    assert_ne!(no_json.motivation_level, invalid.motivation_level);
}

#[test]
fn decode_missing_tips_substitutes_two_item_default() {
    let input = r#"{"encouragement":"Nice","specific_feedback":"Solid","next_challenge":"More","motivation_level":"low","difficulty_adjustment":"increase"}"#;
    let fb = parse_tutor_response(input);
    assert_eq!(fb.improvement_tips, vec!["多聽多練".to_string(), "注意語調".to_string()]);
    assert_eq!(fb.encouragement, "Nice");
    assert_eq!(fb.specific_feedback, "Solid");
    assert_eq!(fb.next_challenge, "More");
    assert_eq!(fb.motivation_level, "low");
    assert_eq!(fb.difficulty_adjustment, "increase");
}

#[test]
fn decode_non_array_tips_substitutes_default() {
    let input = r#"{"improvement_tips":"just one tip"}"#;
    let fb = parse_tutor_response(input);
    assert_eq!(fb.improvement_tips, vec!["多聽多練".to_string(), "注意語調".to_string()]);
}

#[test]
fn decode_mixed_typed_tips_substitutes_default() {
    let input = r#"{"improvement_tips":["slow down", 5, true, "breathe"]}"#;
    let fb = parse_tutor_response(input);
    assert_eq!(fb.improvement_tips, vec!["多聽多練".to_string(), "注意語調".to_string()]);
}

#[test]
fn decode_keeps_all_string_tips_in_order() {
    let input = r#"{"improvement_tips":["slow down", "breathe", "repeat"]}"#;
    let fb = parse_tutor_response(input);
    assert_eq!(
        fb.improvement_tips,
        vec!["slow down".to_string(), "breathe".to_string(), "repeat".to_string()]
    );
}

#[test]
fn decode_wrong_typed_field_falls_back_per_field() {
    let input = r#"{"encouragement": 7, "next_challenge": "Read aloud"}"#;
    let fb = parse_tutor_response(input);
    assert_eq!(fb.encouragement, "很好的嘗試！繼續加油！");
    assert_eq!(fb.specific_feedback, "您的發音整體不錯，繼續練習會更好。");
    assert_eq!(fb.next_challenge, "Read aloud");
    assert_eq!(fb.motivation_level, "medium");
    assert_eq!(fb.difficulty_adjustment, "maintain");
}

#[test]
fn decode_uses_first_open_and_last_close() {
    // The outermost first-`{` / last-`}` pair is sliced, so narrative
    // braces around the object spoil the parse and yield the canned set.
    assert_invalid_json_canned(r#"notes {a} then {"encouragement":"x"} tail }"#);
}
