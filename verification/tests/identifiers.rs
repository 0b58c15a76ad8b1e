use ios_agent_background::identifier::{continued_processing_identifier, short_run_id};

const PREFIX: &str = "com.tauritavern.client.agent.continued.";

fn suffix(run_id: &str) -> String {
    let identifier = continued_processing_identifier(run_id);
    assert!(identifier.starts_with(PREFIX));
    identifier[PREFIX.len()..].to_string()
}

#[test]
fn letters_become_lower_case_and_digits_stay() {
    assert_eq!(
        continued_processing_identifier("Run42ABCxyz"),
        "com.tauritavern.client.agent.continued.run42abcxyz"
    );
}

#[test]
fn other_characters_become_dashes_one_by_one() {
    assert_eq!(suffix("run_2024.05.01"), "run-2024-05-01");
    assert_eq!(suffix("a__b"), "a--b");
    assert_eq!(suffix("a b\tc"), "a-b-c");
}

#[test]
fn characters_beyond_ascii_become_dashes() {
    assert_eq!(suffix("na\u{ef}ve"), "na-ve");
    assert_eq!(suffix("x\u{1f980}y"), "x-y");
    assert_eq!(suffix("\u{c4}bc\u{df}"), "bc");
}

#[test]
fn neighbours_of_letters_and_digits_become_dashes() {
    assert_eq!(suffix("a@Z[b`z{c/0:9d"), "a-z-b-z-c-0-9d");
}

#[test]
fn dashes_at_both_ends_are_dropped() {
    assert_eq!(suffix("--run--7--"), "run--7");
    assert_eq!(suffix("__Run"), "run");
    assert_eq!(suffix("run!"), "run");
}

#[test]
fn nothing_left_leads_to_run() {
    assert_eq!(suffix(""), "run");
    assert_eq!(suffix("---"), "run");
    assert_eq!(suffix("_"), "run");
    assert_eq!(suffix("\u{4e2d}\u{6587}"), "run");
}

#[test]
fn identifiers_are_stable() {
    for run_id in ["Run_1", "", "--x--", "agent_run_9F"] {
        let once = suffix(run_id);
        assert_eq!(suffix(&once), once);
    }
}

#[test]
fn identifiers_are_covered_by_the_pattern() {
    let pattern = ios_agent_background::identifier::CONTINUED_PROCESSING_IDENTIFIER_PATTERN;
    let fixed = pattern.strip_suffix('*').unwrap();
    for run_id in ["Run_1", "", "--x--"] {
        let identifier = continued_processing_identifier(run_id);
        assert!(identifier.starts_with(fixed));
        assert!(identifier.len() > fixed.len());
    }
}

#[test]
fn short_run_id_is_the_tail_behind_the_last_underscore() {
    assert_eq!(short_run_id("agent_run_42"), "42");
    assert_eq!(short_run_id("run_\u{e9}t\u{e9}"), "\u{e9}t\u{e9}");
    assert_eq!(short_run_id("\u{e9}_x"), "x");
}

#[test]
fn short_run_id_without_underscore_is_the_run_id() {
    assert_eq!(short_run_id("run-42"), "run-42");
    assert_eq!(short_run_id(""), "");
}

#[test]
fn short_run_id_behind_a_final_underscore_is_empty() {
    assert_eq!(short_run_id("run_"), "");
    assert_eq!(short_run_id("_"), "");
}
