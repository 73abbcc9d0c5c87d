use tx_lifecycle::model::{SessionType, TransactionType};
use tx_lifecycle::options::Options;
use tx_lifecycle::query::QueryKind;
use tx_lifecycle::rule::{
    check_rule_parts, draft_rule, pattern_kind, plain, PatternKind, RuleDraft, RuleError, MAX_BRACES,
    MAX_DIGITS, MAX_PARENTHESES, MAX_PATTERN_LENGTH,
};
use tx_lifecycle::sample::manual::{closing_ending, manual_script, Closing, DB_NAME, ENTRIES};
use tx_lifecycle::sample::step::Ending;

const CONDITION: &str = "{$u isa user, has email $e; $e contains '@vaticle.com';}";
const CONCLUSION: &str = "$u has name 'Employee'";

#[test]
fn a_pattern_has_one_of_four_forms() {
    assert_eq!(pattern_kind(CONDITION), Some(PatternKind::Conjunction));
    assert_eq!(pattern_kind(CONCLUSION), Some(PatternKind::Statement));
    assert_eq!(pattern_kind("$x isa person"), Some(PatternKind::Statement));
    assert_eq!(pattern_kind("{ $x isa person; }"), Some(PatternKind::Conjunction));
    assert_eq!(pattern_kind("{ $x isa person; } or { $x isa company; }"), Some(PatternKind::Disjunction));
    assert_eq!(pattern_kind("not { $x isa person; }"), Some(PatternKind::Negation));
    assert_eq!(pattern_kind("  $x isa person  "), Some(PatternKind::Statement));
}

#[test]
fn what_the_parser_rejects_is_no_pattern() {
    for text in ["", "isa", "{ $x isa person }", "$x isa", "{", "}", "match $x isa person;", "$x isa person;"] {
        assert_eq!(pattern_kind(text), None, "{:?}", text);
    }
    let nested = format!("{}$x isa y;{}", "{".repeat(MAX_BRACES), "};".repeat(MAX_BRACES - 1));
    assert_eq!(pattern_kind(&nested), None);
    assert_eq!(pattern_kind(&format!("{}}}", nested)), Some(PatternKind::Conjunction));
}

/// What `plain` computes, written down once more and more simply.
fn plain_by_the_book(text: &str) -> bool {
    let chars: Vec<char> = text.chars().collect();
    let digit = |c: char| c.is_ascii_digit();
    let gap = |c: char| c == ' ' || c == '\t' || c == '\r' || c == '\n';
    if chars.len() > MAX_PATTERN_LENGTH {
        return false;
    }
    if chars.iter().filter(|c| **c == '{').count() > MAX_BRACES {
        return false;
    }
    if chars.iter().filter(|c| **c == '(').count() > MAX_PARENTHESES {
        return false;
    }
    if chars.windows(MAX_DIGITS + 1).any(|window| window.iter().all(|c| digit(*c))) {
        return false;
    }
    if chars.windows(3).any(|window| digit(window[0]) && window[1] == '-' && digit(window[2])) {
        return false;
    }
    for (i, c) in chars.iter().enumerate() {
        if *c == '+' || *c == '-' {
            let mut j = i + 1;
            while j < chars.len() && gap(chars[j]) {
                j += 1;
            }
            if j < chars.len() && (chars[j] == '#' || (j > i + 1 && digit(chars[j]))) {
                return false;
            }
        }
    }
    true
}

#[test]
fn a_text_is_plain_within_its_bounds() {
    assert!(plain(CONDITION));
    assert!(plain(""));
    assert!(plain(&"{".repeat(MAX_BRACES)));
    assert!(!plain(&"{".repeat(MAX_BRACES + 1)));
    assert!(plain(&"(".repeat(MAX_PARENTHESES)));
    assert!(!plain(&"(".repeat(MAX_PARENTHESES + 1)));
    assert!(plain(&"a".repeat(MAX_PATTERN_LENGTH)));
    assert!(!plain(&"a".repeat(MAX_PATTERN_LENGTH + 1)));
    assert!(plain(&"é".repeat(MAX_PATTERN_LENGTH)));
    assert_eq!(MAX_PATTERN_LENGTH, 1024);
    assert_eq!(MAX_BRACES, 8);
    assert_eq!(MAX_PARENTHESES, 32);
    assert_eq!(MAX_DIGITS, 18);
}

#[test]
fn a_number_is_plain_where_it_is_safe() {
    for text in [
        "$x has age 30",
        "$x1 isa person",
        "0",
        "$x == -5",
        "$x == +5",
        "$x has height 1.75",
        "$x has phone '17778889999'",
        "?v = $a - $b",
        "?v = $a -$b",
        "$x has full-name 'a', has age 30",
        "$x == 999999999999999999",
        "$x == 123456789012345678.123456789012345678",
        "- x",
        "+",
        "-",
        "5 -",
        "$x has a -5#c",
    ] {
        assert!(plain(text), "{:?}", text);
    }
    for text in [
        "$x == 1234567890123456789",
        "$x == 9223372036854775808",
        "$x has born 2020-01-01",
        "$x has born 2020-13-45",
        "$x has born 2020-01-01T10:00:00.123",
        "5-3",
        "$x == - 5",
        "$x == + 5",
        "$x == -\t5",
        "$x == -\n5",
        "$x == -\r\n 5",
        "$x == -#c\n5",
        "$x == - #c\n5",
        "?v = $a - 5",
        "-#",
        "+ \n#",
    ] {
        assert!(!plain(text), "{:?}", text);
    }
}

#[test]
fn plain_agrees_with_the_book() {
    let alphabet = ['0', '1', '9', '-', '+', ' ', '\t', '\n', '\r', '#', '.', '$', 'x', '(', '{', 'é'];
    let mut state: u64 = 0x2545_f491_4f6c_dd1d;
    let mut plain_ones = 0usize;
    for round in 0..4000usize {
        let mut text = String::new();
        state = state.wrapping_mul(6364136223846793005).wrapping_add(1442695040888963407);
        let length = ((state >> 33) as usize) % 12 + if round % 50 == 0 { 30 } else { 0 };
        for _ in 0..length {
            state = state.wrapping_mul(6364136223846793005).wrapping_add(1442695040888963407);
            let pick = if round % 50 == 0 { ((state >> 33) as usize) % 3 } else { ((state >> 33) as usize) % alphabet.len() };
            text.push(alphabet[pick]);
        }
        assert_eq!(plain(&text), plain_by_the_book(&text), "{:?}", text);
        if plain(&text) {
            plain_ones += 1;
        }
    }
    assert!(plain_ones > 100);
    assert!(plain_ones < 3900);
}

#[test]
fn a_text_that_is_not_plain_is_not_parsed() {
    assert_eq!(pattern_kind("$x has age 30"), Some(PatternKind::Statement));
    assert_eq!(pattern_kind("{ $x has age > 30; $x has height 1.75; }"), Some(PatternKind::Conjunction));
    assert_eq!(pattern_kind("$x == -5"), Some(PatternKind::Statement));
    assert_eq!(pattern_kind("$x == - 5"), None);
    assert_eq!(pattern_kind("$x has age 99999999999999999999"), None);
    assert_eq!(pattern_kind("$x has born 2020-13-45"), None);
    assert_eq!(pattern_kind(&"{".repeat(MAX_BRACES + 1)), None);
}

#[test]
fn a_rule_needs_a_conjunction_and_a_statement() {
    let forms = [
        None,
        Some(PatternKind::Conjunction),
        Some(PatternKind::Disjunction),
        Some(PatternKind::Negation),
        Some(PatternKind::Statement),
    ];
    for condition in forms {
        for conclusion in forms {
            let expected = match (condition, conclusion) {
                (None, _) => Err(RuleError::InvalidCondition),
                (Some(PatternKind::Conjunction), None) => Err(RuleError::InvalidConclusion),
                (Some(PatternKind::Conjunction), Some(PatternKind::Statement)) => Ok(()),
                (Some(PatternKind::Conjunction), Some(_)) => Err(RuleError::ConclusionNotStatement),
                (Some(_), _) => Err(RuleError::ConditionNotConjunction),
            };
            assert_eq!(check_rule_parts(condition, conclusion), expected);
        }
    }
}

#[test]
fn a_rule_with_numbers_passes() {
    assert_eq!(
        draft_rule("Adult", "{ $u isa user, has age $a; $a >= 18; }", "$u has name 'Adult'"),
        Ok(RuleDraft {
            label: "Adult".to_string(),
            condition: "{ $u isa user, has age $a; $a >= 18; }".to_string(),
            conclusion: "$u has name 'Adult'".to_string(),
        })
    );
}

#[test]
fn a_rule_that_passes_keeps_its_texts() {
    assert_eq!(
        draft_rule("Employee", CONDITION, CONCLUSION),
        Ok(RuleDraft {
            label: "Employee".to_string(),
            condition: CONDITION.to_string(),
            conclusion: CONCLUSION.to_string(),
        })
    );
}

#[test]
fn a_rule_that_fails_says_why() {
    assert_eq!(draft_rule("r", CONCLUSION, CONCLUSION), Err(RuleError::ConditionNotConjunction));
    assert_eq!(draft_rule("r", "not { $u isa user; }", CONCLUSION), Err(RuleError::ConditionNotConjunction));
    assert_eq!(draft_rule("r", CONDITION, CONDITION), Err(RuleError::ConclusionNotStatement));
    assert_eq!(draft_rule("r", "{ $u isa }", CONCLUSION), Err(RuleError::InvalidCondition));
    assert_eq!(draft_rule("r", "{ $u isa }", "has"), Err(RuleError::InvalidCondition));
    assert_eq!(draft_rule("r", CONDITION, "has"), Err(RuleError::InvalidConclusion));
    assert_eq!(draft_rule("r", "{ $u has age - 30; }", CONCLUSION), Err(RuleError::Unsupported));
    assert_eq!(draft_rule("r", CONDITION, "$u has born 2020-01-01"), Err(RuleError::Unsupported));
    assert_eq!(draft_rule("r", "$u has age 12345678901234567890", "has"), Err(RuleError::Unsupported));
    assert_eq!(draft_rule("r", &"{".repeat(9), CONCLUSION), Err(RuleError::Unsupported));
    assert_eq!(draft_rule("r", CONDITION, &"(".repeat(33)), Err(RuleError::Unsupported));
}

#[test]
fn the_walk_has_eleven_entries() {
    assert_eq!(DB_NAME, "sample_db");
    assert_eq!(ENTRIES, 11);
    for place in 0..ENTRIES {
        let entry = manual_script(place).unwrap();
        let request = entry.request;
        assert!(!(request.transaction == TransactionType::Read && request.kind.is_write()));
        assert_eq!(entry.closing == Closing::Close, request.transaction == TransactionType::Read);
        assert_eq!(
            request.session == SessionType::Schema,
            request.kind == QueryKind::Define || request.kind == QueryKind::Undefine
        );
    }
    assert_eq!(manual_script(ENTRIES), None);
    assert_eq!(manual_script(usize::MAX), None);
}

#[test]
fn the_walk_starts_with_the_schema_and_ends_with_explanations() {
    let first = manual_script(0).unwrap();
    assert_eq!(first.request.session, SessionType::Schema);
    assert_eq!(first.request.transaction, TransactionType::Write);
    assert_eq!(first.request.kind, QueryKind::Define);
    assert_eq!(first.request.options, Options::new());
    assert_eq!(first.closing, Closing::Commit);
    assert_eq!(
        first.request.text,
        "
                                    define
                                    email sub attribute, value string;
                                    name sub attribute, value string;
                                    friendship sub relation, relates friend;
                                    user sub entity,
                                        owns email @key,
                                        owns name,
                                        plays friendship:friend;
                                    admin sub user;
                                    "
    );
    let undefine = manual_script(1).unwrap();
    assert_eq!(undefine.request.text, "undefine admin sub user;");
    assert_eq!(undefine.request.kind, QueryKind::Undefine);
    let inferred = manual_script(9).unwrap();
    assert_eq!(inferred.request.options, Options::new().infer(true));
    assert_eq!(inferred.request.kind, QueryKind::Fetch);
    assert_eq!(inferred.request.text, manual_script(6).unwrap().request.text);
    let last = manual_script(10).unwrap();
    assert_eq!(last.request.options, Options::new().infer(true).explain(true));
    assert_eq!(last.request.transaction, TransactionType::Read);
    assert_eq!(last.request.kind, QueryKind::Match);
    assert_eq!(last.closing, Closing::Close);
    assert_eq!(
        last.request.text,
        "
                                match
                                $u isa user, has email $e, has name $n;
                                $e contains 'Alice';
                                get
                                $u, $n;
                                "
    );
}

#[test]
fn the_walk_commits_a_single_change_only() {
    assert_eq!(manual_script(3).unwrap().closing, Closing::CommitIfSingle);
    assert_eq!(manual_script(5).unwrap().closing, Closing::CommitIfSingle);
    assert_eq!(closing_ending(Closing::CommitIfSingle, 1), Ending::Commit);
    for results in [0usize, 2, 3, usize::MAX] {
        assert_eq!(closing_ending(Closing::CommitIfSingle, results), Ending::Close);
        assert_eq!(closing_ending(Closing::Commit, results), Ending::Commit);
        assert_eq!(closing_ending(Closing::Close, results), Ending::Close);
    }
    assert_eq!(closing_ending(Closing::Commit, 1), Ending::Commit);
    assert_eq!(closing_ending(Closing::Close, 1), Ending::Close);
}
