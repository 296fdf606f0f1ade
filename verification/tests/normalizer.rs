use rgx::commands::generate::GenerateResponse;
use rgx::commands::test::TestCommand;

fn make_generated(pattern: &str) -> GenerateResponse {
    GenerateResponse {
        pattern: pattern.to_string(),
        matches: vec![],
        non_matches: vec![],
        explanation: "test pattern".to_string(),
    }
}

#[test]
fn simple_match() {
    let cmd = TestCommand::new("123");
    let gen = make_generated(r"\d+");
    let result = cmd.test_pattern(&gen).unwrap();
    assert!(result.matches);
    let details = result.match_details.unwrap();
    assert_eq!(details.full_match, "123");
}

#[test]
fn no_match() {
    let cmd = TestCommand::new("abc");
    let gen = make_generated(r"\d+");
    let result = cmd.test_pattern(&gen).unwrap();
    assert!(!result.matches);
    assert!(result.match_details.is_none());
}

#[test]
fn partial_match_in_string() {
    let cmd = TestCommand::new("abc123def");
    let gen = make_generated(r"\d+");
    let result = cmd.test_pattern(&gen).unwrap();
    assert!(result.matches);
    let details = result.match_details.unwrap();
    assert_eq!(details.full_match, "123");
    assert_eq!(details.start, 3);
    assert_eq!(details.end, 6);
}

#[test]
fn capture_groups_unnamed() {
    let cmd = TestCommand::new("123-456");
    let gen = make_generated(r"(\d+)-(\d+)");
    let result = cmd.test_pattern(&gen).unwrap();
    assert!(result.matches);
    let details = result.match_details.unwrap();
    assert_eq!(details.groups.len(), 2);
    assert_eq!(details.groups[0].index, 1);
    assert_eq!(details.groups[0].value, "123");
    assert!(details.groups[0].name.is_none());
    assert_eq!(details.groups[1].index, 2);
    assert_eq!(details.groups[1].value, "456");
}

#[test]
fn named_capture_groups() {
    let cmd = TestCommand::new("123");
    let gen = make_generated(r"(?P<digits>\d+)");
    let result = cmd.test_pattern(&gen).unwrap();
    assert!(result.matches);
    let details = result.match_details.unwrap();
    assert_eq!(details.groups.len(), 1);
    assert_eq!(details.groups[0].name, Some("digits".to_string()));
    assert_eq!(details.groups[0].value, "123");
}

#[test]
fn mixed_named_and_unnamed_groups() {
    let cmd = TestCommand::new("abc-123");
    let gen = make_generated(r"([a-z]+)-(?P<num>\d+)");
    let result = cmd.test_pattern(&gen).unwrap();
    assert!(result.matches);
    let details = result.match_details.unwrap();
    assert_eq!(details.groups.len(), 2);
    assert!(details.groups[0].name.is_none());
    assert_eq!(details.groups[0].value, "abc");
    assert_eq!(details.groups[1].name, Some("num".to_string()));
    assert_eq!(details.groups[1].value, "123");
}

#[test]
fn match_position_at_start() {
    let cmd = TestCommand::new("123abc");
    let gen = make_generated(r"\d+");
    let result = cmd.test_pattern(&gen).unwrap();
    let details = result.match_details.unwrap();
    assert_eq!(details.start, 0);
    assert_eq!(details.end, 3);
}

#[test]
fn match_position_at_end() {
    let cmd = TestCommand::new("abc123");
    let gen = make_generated(r"\d+");
    let result = cmd.test_pattern(&gen).unwrap();
    let details = result.match_details.unwrap();
    assert_eq!(details.start, 3);
    assert_eq!(details.end, 6);
}

#[test]
fn full_string_match() {
    let cmd = TestCommand::new("hello");
    let gen = make_generated(r"^hello$");
    let result = cmd.test_pattern(&gen).unwrap();
    assert!(result.matches);
    let details = result.match_details.unwrap();
    assert_eq!(details.full_match, "hello");
    assert_eq!(details.start, 0);
    assert_eq!(details.end, 5);
}

#[test]
fn anchored_no_match() {
    let cmd = TestCommand::new("say hello");
    let gen = make_generated(r"^hello$");
    let result = cmd.test_pattern(&gen).unwrap();
    assert!(!result.matches);
}

#[test]
fn invalid_regex_returns_error() {
    let cmd = TestCommand::new("test");
    let gen = make_generated(r"["); // unclosed bracket
    let result = cmd.test_pattern(&gen);
    assert!(result.is_err());
}

#[test]
fn invalid_regex_unbalanced_parens() {
    let cmd = TestCommand::new("test");
    let gen = make_generated(r"(abc");
    let result = cmd.test_pattern(&gen);
    assert!(result.is_err());
}

#[test]
fn empty_pattern_matches_empty() {
    let cmd = TestCommand::new("");
    let gen = make_generated(r"");
    let result = cmd.test_pattern(&gen).unwrap();
    assert!(result.matches);
    let details = result.match_details.unwrap();
    assert_eq!(details.full_match, "");
}

#[test]
fn empty_pattern_matches_at_start() {
    let cmd = TestCommand::new("abc");
    let gen = make_generated(r"");
    let result = cmd.test_pattern(&gen).unwrap();
    assert!(result.matches);
    let details = result.match_details.unwrap();
    assert_eq!(details.start, 0);
    assert_eq!(details.end, 0);
}

#[test]
fn no_groups_empty_groups_vec() {
    let cmd = TestCommand::new("abc");
    let gen = make_generated(r"abc");
    let result = cmd.test_pattern(&gen).unwrap();
    assert!(result.matches);
    let details = result.match_details.unwrap();
    assert!(details.groups.is_empty());
}

#[test]
fn unicode_in_input() {
    let cmd = TestCommand::new("café");
    let gen = make_generated(r"\w+");
    let result = cmd.test_pattern(&gen).unwrap();
    assert!(result.matches);
}

#[test]
fn test_result_has_pattern() {
    let cmd = TestCommand::new("123");
    let gen = make_generated(r"\d+");
    let result = cmd.test_pattern(&gen).unwrap();
    assert_eq!(result.pattern, r"\d+");
}

#[test]
fn test_result_has_input() {
    let cmd = TestCommand::new("123");
    let gen = make_generated(r"\d+");
    let result = cmd.test_pattern(&gen).unwrap();
    assert_eq!(result.test_input, "123");
}

#[test]
fn test_result_has_generated_response() {
    let cmd = TestCommand::new("123");
    let gen = make_generated(r"\d+");
    let result = cmd.test_pattern(&gen).unwrap();
    assert_eq!(result.generated.explanation, "test pattern");
}

#[test]
fn optional_group_not_matched() {
    let cmd = TestCommand::new("abc");
    let gen = make_generated(r"abc(\d+)?");
    let result = cmd.test_pattern(&gen).unwrap();
    assert!(result.matches);
    let details = result.match_details.unwrap();
    // Optional group didn't match, so groups should be empty
    // (filter_map filters out None)
    assert!(details.groups.is_empty());
}

#[test]
fn alternation_first_branch() {
    let cmd = TestCommand::new("cat");
    let gen = make_generated(r"cat|dog");
    let result = cmd.test_pattern(&gen).unwrap();
    assert!(result.matches);
    assert_eq!(result.match_details.unwrap().full_match, "cat");
}

#[test]
fn alternation_second_branch() {
    let cmd = TestCommand::new("dog");
    let gen = make_generated(r"cat|dog");
    let result = cmd.test_pattern(&gen).unwrap();
    assert!(result.matches);
    assert_eq!(result.match_details.unwrap().full_match, "dog");
}

#[test]
fn email_like_pattern() {
    let cmd = TestCommand::new("test@example.com");
    let gen = make_generated(r"[a-zA-Z0-9._%+-]+@[a-zA-Z0-9.-]+\.[a-zA-Z]{2,}");
    let result = cmd.test_pattern(&gen).unwrap();
    assert!(result.matches);
    assert_eq!(result.match_details.unwrap().full_match, "test@example.com");
}

fn group(
    index: usize,
    name: Option<&str>,
    value: &str,
    start: usize,
    end: usize,
) -> (usize, Option<String>, String, usize, usize) {
    (index, name.map(|n| n.to_string()), value.to_string(), start, end)
}

fn groups_of(details: &rgx::commands::test::MatchDetails) -> Vec<(usize, Option<String>, String, usize, usize)> {
    details
        .groups
        .iter()
        .map(|g| (g.index, g.name.clone(), g.value.clone(), g.start, g.end))
        .collect()
}

fn found(start: usize, end: usize, text: &str) -> rgx::engine::GroupMatch {
    rgx::engine::GroupMatch { start, end, text: text.to_string() }
}

#[test]
fn two_positional_groups_scenario() {
    let cmd = TestCommand::new("123-456");
    let gen = make_generated(r"(\d+)-(\d+)");
    let result = cmd.test_pattern(&gen).unwrap();
    assert!(result.matches);
    let details = result.match_details.unwrap();
    assert_eq!(details.full_match, "123-456");
    assert_eq!(details.start, 0);
    assert_eq!(details.end, 7);
    assert_eq!(
        groups_of(&details),
        vec![group(1, None, "123", 0, 3), group(2, None, "456", 4, 7)]
    );
}

#[test]
fn named_group_scenario() {
    let cmd = TestCommand::new("123");
    let gen = make_generated(r"(?P<num>\d+)");
    let result = cmd.test_pattern(&gen).unwrap();
    let details = result.match_details.unwrap();
    assert_eq!(groups_of(&details), vec![group(1, Some("num"), "123", 0, 3)]);
}

#[test]
fn optional_group_scenario() {
    let cmd = TestCommand::new("abc");
    let gen = make_generated(r"abc(\d+)?");
    let result = cmd.test_pattern(&gen).unwrap();
    assert!(result.matches);
    let details = result.match_details.unwrap();
    assert_eq!(details.full_match, "abc");
    assert_eq!(groups_of(&details), vec![]);
}

#[test]
fn unclosed_bracket_scenario() {
    let gen = make_generated("[");
    for input in ["", "test", "[", "anything at all"] {
        let result = TestCommand::new(input).test_pattern(&gen);
        match result {
            Err(rgx::error::Error::InvalidRegex(message)) => assert!(!message.is_empty()),
            other => panic!("expected InvalidRegex, got {:?}", other.map(|r| r.matches)),
        }
    }
}

#[test]
fn invalid_pattern_carries_engine_diagnostic() {
    let gen = make_generated("(abc");
    let expected = regex::Regex::new("(abc").unwrap_err().to_string();
    match TestCommand::new("abc").test_pattern(&gen) {
        Err(rgx::error::Error::InvalidRegex(message)) => assert_eq!(message, expected),
        _ => panic!("expected InvalidRegex"),
    }
}

#[test]
fn invalid_pattern_error_is_the_same_for_every_input() {
    let gen = make_generated("a{2,1}");
    let first = match TestCommand::new("aa").test_pattern(&gen) {
        Err(e) => e.to_string(),
        Ok(_) => panic!("expected an error"),
    };
    let second = match TestCommand::new("").test_pattern(&gen) {
        Err(e) => e.to_string(),
        Ok(_) => panic!("expected an error"),
    };
    assert_eq!(first, second);
    assert!(first.starts_with("Invalid regex pattern: "));
}

#[test]
fn oversized_pattern_is_invalid() {
    let gen = make_generated(r"\w{1000}{1000}");
    assert!(matches!(
        TestCommand::new("a").test_pattern(&gen),
        Err(rgx::error::Error::InvalidRegex(_))
    ));
}

#[test]
fn untaken_alternative_is_omitted_and_index_is_kept() {
    let cmd = TestCommand::new("b");
    let gen = make_generated(r"(a)|(b)");
    let details = cmd.test_pattern(&gen).unwrap().match_details.unwrap();
    assert_eq!(groups_of(&details), vec![group(2, None, "b", 0, 1)]);
}

#[test]
fn sparse_groups_keep_ascending_indices() {
    let cmd = TestCommand::new("x1-z");
    let gen = make_generated(r"(x)(\d)?(?P<mid>y)?-(?P<last>z)(w)?");
    let details = cmd.test_pattern(&gen).unwrap().match_details.unwrap();
    assert_eq!(
        groups_of(&details),
        vec![
            group(1, None, "x", 0, 1),
            group(2, None, "1", 1, 2),
            group(4, Some("last"), "z", 3, 4),
        ]
    );
    for pair in details.groups.windows(2) {
        assert!(pair[0].index < pair[1].index);
    }
}

#[test]
fn nested_groups_are_numbered_by_opening_parenthesis() {
    let cmd = TestCommand::new("ab");
    let gen = make_generated(r"((a)(b))");
    let details = cmd.test_pattern(&gen).unwrap().match_details.unwrap();
    assert_eq!(
        groups_of(&details),
        vec![group(1, None, "ab", 0, 2), group(2, None, "a", 0, 1), group(3, None, "b", 1, 2)]
    );
}

#[test]
fn non_capturing_group_is_not_listed() {
    let cmd = TestCommand::new("ab");
    let gen = make_generated(r"(?:a)(b)");
    let details = cmd.test_pattern(&gen).unwrap().match_details.unwrap();
    assert_eq!(groups_of(&details), vec![group(1, None, "b", 1, 2)]);
}

#[test]
fn group_that_matched_nothing_is_still_listed() {
    let cmd = TestCommand::new("b");
    let gen = make_generated(r"(a*)b");
    let details = cmd.test_pattern(&gen).unwrap().match_details.unwrap();
    assert_eq!(groups_of(&details), vec![group(1, None, "", 0, 0)]);
}

#[test]
fn leftmost_match_is_reported() {
    let cmd = TestCommand::new("a1 b22 c333");
    let gen = make_generated(r"[a-z](\d+)");
    let details = cmd.test_pattern(&gen).unwrap().match_details.unwrap();
    assert_eq!(details.full_match, "a1");
    assert_eq!((details.start, details.end), (0, 2));
    assert_eq!(groups_of(&details), vec![group(1, None, "1", 1, 2)]);
}

#[test]
fn offsets_are_in_bytes() {
    let cmd = TestCommand::new("café 123");
    let gen = make_generated(r"(\d+)");
    let details = cmd.test_pattern(&gen).unwrap().match_details.unwrap();
    assert_eq!((details.start, details.end), (6, 9));
    assert_eq!(groups_of(&details), vec![group(1, None, "123", 6, 9)]);
}

#[test]
fn empty_input_no_match_is_not_an_error() {
    let cmd = TestCommand::new("");
    let gen = make_generated(r"\d");
    let result = cmd.test_pattern(&gen).unwrap();
    assert!(!result.matches);
    assert!(result.match_details.is_none());
    assert_eq!(result.pattern, r"\d");
    assert_eq!(result.test_input, "");
}

#[test]
fn result_carries_the_whole_generated_response() {
    let gen = GenerateResponse {
        pattern: "a".to_string(),
        matches: vec!["a".to_string(), "aa".to_string()],
        non_matches: vec!["b".to_string()],
        explanation: "the letter a".to_string(),
    };
    let result = TestCommand::new("a").test_pattern(&gen).unwrap();
    assert_eq!(result.generated.pattern, "a");
    assert_eq!(result.generated.matches, vec!["a", "aa"]);
    assert_eq!(result.generated.non_matches, vec!["b"]);
    assert_eq!(result.generated.explanation, "the letter a");
}

#[test]
fn test_command_new_keeps_input() {
    assert_eq!(TestCommand::new("some input").test_input, "some input");
}

#[test]
fn collect_groups_skips_absent_slots() {
    let names = vec![None, None, Some("n".to_string()), None];
    let slots = vec![None, Some(found(1, 2, "x")), Some(found(2, 4, "yz"))];
    let listed = rgx::commands::test::collect_groups(&names, &slots);
    let listed: Vec<_> = listed
        .iter()
        .map(|g| (g.index, g.name.clone(), g.value.clone(), g.start, g.end))
        .collect();
    assert_eq!(listed, vec![group(2, Some("n"), "x", 1, 2), group(3, None, "yz", 2, 4)]);
}

#[test]
fn collect_groups_goes_by_declared_names() {
    // More slots than declared groups: the surplus is not listed.
    let names = vec![None, None];
    let slots = vec![Some(found(0, 1, "a")), Some(found(1, 2, "b"))];
    let listed = rgx::commands::test::collect_groups(&names, &slots);
    assert_eq!(listed.len(), 1);
    assert_eq!(listed[0].index, 1);
    assert_eq!(listed[0].value, "a");

    // Fewer slots than declared groups: the missing ones took no part.
    let names = vec![None, None, None, None];
    let slots = vec![Some(found(0, 1, "a"))];
    let listed = rgx::commands::test::collect_groups(&names, &slots);
    assert_eq!(listed.len(), 1);

    // No declared group at all.
    assert!(rgx::commands::test::collect_groups(&vec![], &slots).is_empty());
    assert!(rgx::commands::test::collect_groups(&vec![None], &slots).is_empty());
}

#[test]
fn match_details_reports_whole_match_and_groups() {
    let names = vec![None, Some("word".to_string())];
    let engine_match = rgx::commands::test::EngineMatch {
        whole: found(3, 8, "hello"),
        groups: vec![Some(found(3, 8, "hello"))],
    };
    let details = rgx::commands::test::match_details(&names, &engine_match);
    assert_eq!(details.full_match, "hello");
    assert_eq!((details.start, details.end), (3, 8));
    assert_eq!(groups_of(&details), vec![group(1, Some("word"), "hello", 3, 8)]);
}

#[test]
fn normalize_without_match_has_no_details() {
    let gen = make_generated("x");
    let names = vec![None];
    let outcome = rgx::commands::test::normalize(&gen, "abc", &names, None);
    assert!(!outcome.matches);
    assert!(outcome.match_details.is_none());
    assert_eq!(outcome.pattern, "x");
    assert_eq!(outcome.test_input, "abc");
    assert_eq!(outcome.generated.explanation, "test pattern");
}

#[test]
fn normalize_with_match_has_details() {
    let gen = make_generated("(b)");
    let names = vec![None, None];
    let engine_match = rgx::commands::test::EngineMatch {
        whole: found(1, 2, "b"),
        groups: vec![Some(found(1, 2, "b"))],
    };
    let outcome = rgx::commands::test::normalize(&gen, "abc", &names, Some(&engine_match));
    assert!(outcome.matches);
    let details = outcome.match_details.unwrap();
    assert_eq!(details.full_match, "b");
    assert_eq!(groups_of(&details), vec![group(1, None, "b", 1, 2)]);
}
