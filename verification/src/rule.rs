//! Rules of inference, as the caller writes them: a label, a condition
//! and a conclusion, both patterns of the query language. A rule is
//! checked here before it is sent: the patterns are parsed, and the
//! condition must be a conjunction, the conclusion a single statement.

use vstd::prelude::*;
use vstd::string::*;

verus! {

/// The four forms of a pattern.
#[derive(Clone, Copy, Debug, PartialEq, Eq, Structural)]
pub enum PatternKind {
    Conjunction,
    Disjunction,
    Negation,
    Statement,
}

/// Why a rule is not sent.
#[derive(Clone, Copy, Debug, PartialEq, Eq, Structural)]
pub enum RuleError {
    /// A pattern is not plain: it is too long or too deep, or holds a
    /// number or a date that the parser cannot be trusted with.
    Unsupported,
    /// The condition is no pattern.
    InvalidCondition,
    /// The condition is a pattern, but no conjunction.
    ConditionNotConjunction,
    /// The conclusion is no pattern.
    InvalidConclusion,
    /// The conclusion is a pattern, but no statement.
    ConclusionNotStatement,
}

/// A rule that has passed the check.
#[derive(Debug, PartialEq, Eq)]
pub struct RuleDraft {
    pub label: String,
    pub condition: String,
    pub conclusion: String,
}

/// The longest pattern that is handed to the parser, in characters.
pub const MAX_PATTERN_LENGTH: usize = 1024;

/// The most opening braces that a pattern handed to the parser holds.
pub const MAX_BRACES: usize = 8;

/// The most opening parentheses that a pattern handed to the parser holds.
pub const MAX_PARENTHESES: usize = 32;

/// The most digits in a row that a pattern handed to the parser holds.
pub const MAX_DIGITS: usize = 18;

pub open spec fn is_digit(c: char) -> bool {
    '0' <= c <= '9'
}

pub open spec fn is_sign(c: char) -> bool {
    c == '+' || c == '-'
}

/// The characters that the query language passes over between words.
pub open spec fn is_gap(c: char) -> bool {
    c == ' ' || c == '\t' || c == '\r' || c == '\n'
}

/// The number of times that a character stands in a text.
pub open spec fn count(text: Seq<char>, c: char) -> nat
    decreases text.len(),
{
    if text.len() == 0 {
        0
    } else {
        count(text.drop_last(), c) + if text.last() == c {
            1nat
        } else {
            0nat
        }
    }
}

/// From place `i` on stand more digits in a row than `MAX_DIGITS`.
pub open spec fn long_number_at(text: Seq<char>, i: int) -> bool {
    &&& 0 <= i
    &&& i + MAX_DIGITS < text.len()
    &&& forall|k: int| i <= k <= i + MAX_DIGITS ==> is_digit(#[trigger] text[k])
}

/// At place `i` stand a digit, a minus sign and a digit, as in a date.
pub open spec fn date_at(text: Seq<char>, i: int) -> bool {
    &&& 0 <= i
    &&& i + 2 < text.len()
    &&& is_digit(text[i])
    &&& text[i + 1] == '-'
    &&& is_digit(text[i + 2])
}

/// A sign stands at place `i`, and nothing but gaps between it and
/// place `j`.
pub open spec fn sign_waits(text: Seq<char>, i: int, j: int) -> bool {
    &&& 0 <= i < j <= text.len()
    &&& is_sign(text[i])
    &&& forall|k: int| i < k < j ==> is_gap(#[trigger] text[k])
}

/// A sign at place `i` is parted from its number: after it come gaps
/// and then a digit at place `j`, or, with or without gaps, a comment
/// that begins at place `j`.
pub open spec fn parted_sign_at(text: Seq<char>, i: int, j: int) -> bool {
    &&& j < text.len()
    &&& sign_waits(text, i, j)
    &&& (text[j] == '#' || (j > i + 1 && is_digit(text[j])))
}

/// A text is plain when the parser can be trusted with it.
///
/// The parser ends the process where it converts a number that does not
/// fit, a date that the calendar does not have, or a number whose sign
/// stands apart from it. So a plain text has at most `MAX_DIGITS` digits
/// in a row, which always fit; nowhere a digit, a minus sign and a
/// digit in a row, without which there is no date; and no sign that is
/// parted from a digit by gaps or followed by a comment.
///
/// The time that the parser takes doubles with every brace inside a
/// brace, and the stack that it takes grows with every brace and
/// parenthesis inside another. So a plain text is not long and holds
/// few opening braces and parentheses.
pub open spec fn is_plain(text: Seq<char>) -> bool {
    &&& text.len() <= MAX_PATTERN_LENGTH
    &&& count(text, '{') <= MAX_BRACES
    &&& count(text, '(') <= MAX_PARENTHESES
    &&& forall|i: int| !#[trigger] long_number_at(text, i)
    &&& forall|i: int| !#[trigger] date_at(text, i)
    &&& forall|i: int, j: int| !#[trigger] parted_sign_at(text, i, j)
}

fn digit(c: char) -> (r: bool)
    ensures
        r == is_digit(c),
{
    '0' <= c && c <= '9'
}

/// Whether a text is plain.
pub fn plain(text: &str) -> (r: bool)
    ensures
        r == is_plain(text@),
{
    let n: usize = text.unicode_len();
    if n > MAX_PATTERN_LENGTH {
        return false;
    }
    let mut braces: usize = 0;
    let mut parentheses: usize = 0;
    // The digits in a row that end here.
    let mut run: usize = 0;
    // Whether the last character was a digit, and whether the last two
    // were a digit and a minus sign.
    let mut was_digit: bool = false;
    let mut dated: bool = false;
    // 0: no sign waits; 1: the last character was a sign; 2: a sign and
    // then gaps, the sign at place `at`.
    let mut sign: u8 = 0;
    let ghost mut at: int = 0;
    let mut i: usize = 0;
    while i < n
        invariant
            i <= n,
            n == text@.len(),
            n <= MAX_PATTERN_LENGTH,
            braces == count(text@.take(i as int), '{'),
            braces <= i,
            parentheses == count(text@.take(i as int), '('),
            parentheses <= i,
            run <= MAX_DIGITS,
            run <= i,
            forall|k: int| i - run <= k < i ==> is_digit(#[trigger] text@[k]),
            run < i ==> !is_digit(text@[i - run - 1]),
            forall|s: int| s + MAX_DIGITS < i ==> !#[trigger] long_number_at(text@, s),
            was_digit == (i >= 1 && is_digit(text@[i - 1])),
            dated == (i >= 2 && is_digit(text@[i - 2]) && text@[i - 1] == '-'),
            forall|s: int| s + 2 < i ==> !#[trigger] date_at(text@, s),
            sign <= 2,
            sign == 0 ==> forall|p: int| !#[trigger] sign_waits(text@, p, i as int),
            sign == 1 ==> i >= 1 && is_sign(text@[i - 1]),
            sign == 2 ==> at + 1 < i && sign_waits(text@, at, i as int),
            forall|p: int, j: int| j < i ==> !#[trigger] parted_sign_at(text@, p, j),
        decreases n - i,
    {
        let c = text.get_char(i);
        let is_number = digit(c);
        if sign != 0 && c == '#' {
            proof {
                let p = if sign == 1 {
                    i - 1
                } else {
                    at
                };
                assert(sign_waits(text@, p, i as int));
                assert(parted_sign_at(text@, p, i as int));
            }
            return false;
        }
        if sign == 2 && is_number {
            assert(parted_sign_at(text@, at, i as int));
            return false;
        }
        if dated && is_number {
            assert(date_at(text@, i - 2));
            return false;
        }
        if is_number && run == MAX_DIGITS {
            assert(long_number_at(text@, i - MAX_DIGITS));
            return false;
        }
        proof {
            assert(text@.take(i + 1).drop_last() =~= text@.take(i as int));
            assert forall|p: int| !#[trigger] parted_sign_at(text@, p, i as int) by {
                if parted_sign_at(text@, p, i as int) {
                    assert(sign_waits(text@, p, i as int));
                    if sign == 1 && p != i - 1 {
                        assert(is_gap(text@[i - 1]));
                    }
                }
            }
            assert(!date_at(text@, i - 2));
            assert(!long_number_at(text@, i - MAX_DIGITS)) by {
                if long_number_at(text@, i - MAX_DIGITS) {
                    assert(is_digit(text@[i as int]));
                    if run < i {
                        assert(is_digit(text@[i - run - 1]));
                    }
                }
            }
        }
        if c == '{' {
            braces += 1;
        }
        if c == '(' {
            parentheses += 1;
        }
        if is_number {
            run += 1;
        } else {
            run = 0;
        }
        dated = was_digit && c == '-';
        was_digit = is_number;
        if c == '+' || c == '-' {
            sign = 1;
        } else if sign != 0 && (c == ' ' || c == '\t' || c == '\r' || c == '\n') {
            proof {
                if sign == 1 {
                    at = i - 1;
                }
                assert(sign_waits(text@, at, i + 1));
            }
            sign = 2;
        } else {
            proof {
                assert forall|p: int| !#[trigger] sign_waits(text@, p, i + 1) by {
                    if sign_waits(text@, p, i + 1) {
                        if p < i {
                            assert(is_gap(text@[i as int]));
                            assert(sign_waits(text@, p, i as int));
                        }
                    }
                }
            }
            sign = 0;
        }
        i += 1;
    }
    assert(text@.take(n as int) =~= text@);
    braces <= MAX_BRACES && parentheses <= MAX_PARENTHESES
}

/// Calls `typeql::parse_pattern` and tells the four variants of the
/// `Pattern` it returns apart; an error becomes `None`. Nothing is
/// promised of the result: the parser gives up where the thread has
/// little stack left, so that one text can be a pattern at one call and
/// none at the next. What is asked of the text keeps the parser from
/// ending the process and from running long; `is_plain` says how.
#[verifier::external_body]
fn parse_pattern_kind(text: &str) -> (r: Option<PatternKind>)
    requires
        is_plain(text@),
{
    match typeql::parse_pattern(text) {
        Ok(typeql::pattern::Pattern::Conjunction(_)) => Some(PatternKind::Conjunction),
        Ok(typeql::pattern::Pattern::Disjunction(_)) => Some(PatternKind::Disjunction),
        Ok(typeql::pattern::Pattern::Negation(_)) => Some(PatternKind::Negation),
        Ok(typeql::pattern::Pattern::Statement(_)) => Some(PatternKind::Statement),
        Err(_) => None,
    }
}

/// What the check of a rule comes to, from what its two patterns parsed
/// to. The condition is judged first.
pub open spec fn parts_verdict(condition: Option<PatternKind>, conclusion: Option<PatternKind>) -> Option<RuleError> {
    match condition {
        None => Some(RuleError::InvalidCondition),
        Some(PatternKind::Conjunction) => match conclusion {
            None => Some(RuleError::InvalidConclusion),
            Some(PatternKind::Statement) => None,
            Some(_) => Some(RuleError::ConclusionNotStatement),
        },
        Some(_) => Some(RuleError::ConditionNotConjunction),
    }
}

/// Checks the forms of the two patterns of a rule, from what the
/// condition and the conclusion parsed to.
pub fn check_rule_parts(condition: Option<PatternKind>, conclusion: Option<PatternKind>) -> (r: Result<
    (),
    RuleError,
>)
    ensures
        r == (match parts_verdict(condition, conclusion) {
            Some(e) => Err::<(), RuleError>(e),
            None => Ok(()),
        }),
{
    match condition {
        None => Err(RuleError::InvalidCondition),
        Some(PatternKind::Conjunction) => match conclusion {
            None => Err(RuleError::InvalidConclusion),
            Some(PatternKind::Statement) => Ok(()),
            Some(_) => Err(RuleError::ConclusionNotStatement),
        },
        Some(_) => Err(RuleError::ConditionNotConjunction),
    }
}

/// The result of `draft_rule` is the one that follows where the
/// condition parsed to `premise` and the conclusion to `consequence`:
/// the error that `parts_verdict` gives, or a draft of the three texts.
pub open spec fn follows_from(
    r: Result<RuleDraft, RuleError>,
    label: Seq<char>,
    condition: Seq<char>,
    conclusion: Seq<char>,
    premise: Option<PatternKind>,
    consequence: Option<PatternKind>,
) -> bool {
    match parts_verdict(premise, consequence) {
        Some(e) => r == Err::<RuleDraft, RuleError>(e),
        None => r matches Ok(draft) && draft.label@ == label && draft.condition@ == condition
            && draft.conclusion@ == conclusion,
    }
}

/// The form that the parser finds in a text, or `None` where it finds
/// none. A text that is not plain is not parsed and has no form. Of a
/// plain text nothing more is known here than what comes back.
pub fn pattern_kind(text: &str) -> (r: Option<PatternKind>)
    ensures
        !is_plain(text@) ==> r is None,
{
    if plain(text) {
        parse_pattern_kind(text)
    } else {
        None
    }
}

/// Checks a rule before it is sent. Where a pattern is not plain, the
/// rule is refused as unsupported and nothing is parsed. Where both are
/// plain, both are parsed, and the result is what `check_rule_parts`
/// makes of the two forms that the parser found: an error, or a draft
/// that holds the three texts unchanged.
pub fn draft_rule(label: &str, condition: &str, conclusion: &str) -> (r: Result<RuleDraft, RuleError>)
    ensures
        !is_plain(condition@) || !is_plain(conclusion@) ==> r == Err::<RuleDraft, RuleError>(
            RuleError::Unsupported,
        ),
        is_plain(condition@) && is_plain(conclusion@) ==> exists|
            premise: Option<PatternKind>,
            consequence: Option<PatternKind>,
        | #[trigger]
            follows_from(r, label@, condition@, conclusion@, premise, consequence),
{
    if !plain(condition) || !plain(conclusion) {
        return Err(RuleError::Unsupported);
    }
    let premise = parse_pattern_kind(condition);
    let consequence = parse_pattern_kind(conclusion);
    let r = match check_rule_parts(premise, consequence) {
        Err(e) => Err(e),
        Ok(()) => Ok(
            RuleDraft {
                label: String::from_str(label),
                condition: String::from_str(condition),
                conclusion: String::from_str(conclusion),
            },
        ),
    };
    assert(follows_from(r, label@, condition@, conclusion@, premise, consequence));
    r
}

} // verus!
