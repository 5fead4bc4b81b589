use snapblaster::ai::{
    choose_api_key, collect_generated, extract_json_from_response, find_text,
    generation_completed, generation_failed, is_white_space, rfind_text, trim_range, trim_text,
    values_by_cc, values_for_parameters,
};
use snapblaster::effects::Effect;
use snapblaster::events::Event;
use snapblaster::model::{ModelError, Parameter, ProjectState};

fn param(cc: u8) -> Parameter {
    Parameter { name: String::new(), description: String::new(), cc }
}

#[test]
fn json_in_a_marked_fence() {
    let answer = "Here you go:\n```json\n{\"values\": []}\n```\nEnjoy.";
    assert_eq!(extract_json_from_response(answer), "{\"values\": []}");
}

#[test]
fn json_in_a_plain_fence() {
    let answer = "```\n  {\"a\": 1}  \n```";
    assert_eq!(extract_json_from_response(answer), "{\"a\": 1}");
}

#[test]
fn json_without_a_fence_is_trimmed() {
    assert_eq!(extract_json_from_response("  \n{\"a\": 1}\t\n"), "{\"a\": 1}");
    assert_eq!(extract_json_from_response(""), "");
    assert_eq!(extract_json_from_response(" \n\t "), "");
}

#[test]
fn the_last_fence_closes() {
    let answer = "```json\n{\"a\": \"```\"}\n```";
    assert_eq!(extract_json_from_response(answer), "{\"a\": \"```\"}");
}

#[test]
fn text_on_the_line_of_the_opening_is_left_out() {
    assert_eq!(extract_json_from_response("```json5 please\n{}\n```"), "{}");
    assert_eq!(extract_json_from_response("```js\n{}\n```"), "{}");
}

#[test]
fn a_fence_without_a_line_break_begins_behind_the_opening() {
    assert_eq!(extract_json_from_response("```json{\"a\":1}```"), "{\"a\":1}");
    assert_eq!(extract_json_from_response("```{\"a\":1}```"), "{\"a\":1}");
}

#[test]
fn a_fence_that_is_never_closed_counts_as_none() {
    assert_eq!(extract_json_from_response("```json\n{}"), "```json\n{}");
    assert_eq!(extract_json_from_response(" ```json "), "```json");
    assert_eq!(extract_json_from_response("```"), "```");
}

#[test]
fn other_scripts_are_counted_by_character() {
    assert_eq!(extract_json_from_response("größe\n```json\n{\"ä\": \"ß\"}\n```"), "{\"ä\": \"ß\"}");
    assert_eq!(extract_json_from_response("\u{2003}{}\u{00A0}"), "{}");
}

#[test]
fn trimming() {
    assert_eq!(trim_text("  a b  "), "a b");
    assert_eq!(trim_text("a"), "a");
    assert_eq!(trim_text("\n"), "");
    assert_eq!(trim_text(""), "");
    assert_eq!(trim_text(" x"), "x");
    assert_eq!(trim_text("x "), "x");
    for text in ["  a  b ", "\t\r\n x \u{3000}", "", " ", "abc", "\u{0085}a\u{2028}"] {
        assert_eq!(trim_text(text), text.trim());
    }
}

#[test]
fn trim_ranges() {
    assert_eq!(trim_range(&vec![]), (0, 0));
    assert_eq!(trim_range(&vec![true, true]), (2, 2));
    assert_eq!(trim_range(&vec![false]), (0, 1));
    assert_eq!(trim_range(&vec![true, false, true, false, true, true]), (1, 4));
    assert_eq!(trim_range(&vec![false, true, true]), (0, 1));
    assert_eq!(trim_range(&vec![true, true, false]), (2, 3));
}

#[test]
fn finding_text() {
    assert_eq!(find_text("abcabc", "bc"), Some(1));
    assert_eq!(rfind_text("abcabc", "bc"), Some(4));
    assert_eq!(find_text("abcabc", "x"), None);
    assert_eq!(rfind_text("abcabc", "abcabcd"), None);
    assert_eq!(find_text("abc", ""), Some(0));
    assert_eq!(rfind_text("abc", ""), Some(3));
    assert_eq!(find_text("", ""), Some(0));
    assert_eq!(rfind_text("abc", "abc"), Some(0));
    assert_eq!(find_text("aaa", "aa"), Some(0));
    assert_eq!(rfind_text("aaa", "aa"), Some(1));
}

#[test]
fn generated_values_go_by_cc_number() {
    let params = vec![param(10), param(20), param(30), param(10)];
    let generated = vec![(20u8, 5u8), (10, 7), (99, 1), (10, 9)];
    assert_eq!(values_for_parameters(&params, &generated), vec![9, 5, 64, 9]);
    assert_eq!(values_for_parameters(&params, &vec![]), vec![64, 64, 64, 64]);
    assert_eq!(values_for_parameters(&vec![], &generated), Vec::<u8>::new());
}

#[test]
fn the_key_from_the_environment_comes_first() {
    let env = Some("SECRET-REDACTED".to_string());
    let stored = Some("stored".to_string());
    assert_eq!(choose_api_key(env.clone(), stored.clone()), env);
    assert_eq!(choose_api_key(None, stored.clone()), stored);
    assert_eq!(choose_api_key(env.clone(), None), env);
    assert_eq!(choose_api_key(None, None), None);
}

#[test]
fn generated_values_are_stored_and_announced() {
    let mut state = ProjectState::default();
    let effect = generation_completed(&mut state, 0, 0, vec![1, 2, 3]).unwrap();
    assert_eq!(
        effect,
        Effect::Publish(Event::AIGenerationCompleted { bank_id: 0, snap_id: 0, values: vec![1, 2, 3] })
    );
    assert_eq!(&state.project.banks[0].snaps[0].values[..4], &[1, 2, 3, 64]);
    assert_eq!(state.project.banks[0].snaps[0].values.len(), 64);
    assert_eq!(generation_completed(&mut state, 1, 0, vec![1]), Err(ModelError::BankOutOfRange));
    assert_eq!(generation_completed(&mut state, 0, 1, vec![1]), Err(ModelError::SnapOutOfRange));
}

#[test]
fn a_failure_carries_its_text() {
    assert_eq!(
        generation_failed(1, 2, "no key".to_string()),
        Effect::Publish(Event::AIGenerationFailed { bank_id: 1, snap_id: 2, error: "no key".to_string() })
    );
}

#[test]
fn white_space_is_what_the_standard_library_takes_for_it() {
    for code in 0..=0x10FFFFu32 {
        if let Some(c) = char::from_u32(code) {
            assert_eq!(is_white_space(c), c.is_whitespace(), "U+{code:04X}");
        }
    }
    assert!(is_white_space(' '));
    assert!(is_white_space('\n'));
    assert!(is_white_space('\u{A0}'));
    assert!(!is_white_space('a'));
    assert!(!is_white_space('\u{200B}'));
}

#[test]
fn generated_values_are_kept_by_cc_number() {
    let by_cc = collect_generated(&vec![(20u8, 5u8), (10, 7), (10, 9)]);
    assert_eq!(by_cc.len(), 2);
    assert_eq!(by_cc.get(&10), Some(&9));
    assert_eq!(by_cc.get(&20), Some(&5));
    assert_eq!(values_by_cc(&vec![param(20), param(30), param(10)], &by_cc), vec![5, 64, 9]);
    assert!(collect_generated(&vec![]).is_empty());
}
