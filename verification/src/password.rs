//! Strength rules for a raw password.

use vstd::prelude::*;
use vstd::utf8::encode_utf8;
use vstd::std_specs::iter::IteratorSpec;

verus! {

/// One rule that a raw password can break.
#[derive(Debug, Clone, Copy, PartialEq, Eq, Structural)]
pub enum PasswordRule {
    Length,
    Uppercase,
    Lowercase,
    Digit,
    Special,
}

pub open spec fn is_upper(c: char) -> bool {
    'A' <= c <= 'Z'
}

pub open spec fn is_lower(c: char) -> bool {
    'a' <= c <= 'z'
}

pub open spec fn is_digit(c: char) -> bool {
    '0' <= c <= '9'
}

/// The fixed set of characters that count as special.
pub open spec fn is_special(c: char) -> bool {
    c == '@' || c == '$' || c == '!' || c == '%' || c == '*' || c == '?' || c == '&'
}

pub open spec fn has_upper(s: Seq<char>) -> bool {
    exists|i: int| 0 <= i < s.len() && is_upper(#[trigger] s[i])
}

pub open spec fn has_lower(s: Seq<char>) -> bool {
    exists|i: int| 0 <= i < s.len() && is_lower(#[trigger] s[i])
}

pub open spec fn has_digit(s: Seq<char>) -> bool {
    exists|i: int| 0 <= i < s.len() && is_digit(#[trigger] s[i])
}

pub open spec fn has_special(s: Seq<char>) -> bool {
    exists|i: int| 0 <= i < s.len() && is_special(#[trigger] s[i])
}

/// The length rule counts the bytes of the UTF-8 encoding.
pub open spec fn length_ok(s: Seq<char>) -> bool {
    8 <= encode_utf8(s).len() <= 100
}

pub open spec fn rule_if(broken: bool, rule: PasswordRule) -> Seq<PasswordRule> {
    if broken {
        seq![rule]
    } else {
        Seq::empty()
    }
}

/// Every rule that `s` breaks, in a fixed order: length, uppercase,
/// lowercase, digit, special character.
pub open spec fn broken_rules(s: Seq<char>) -> Seq<PasswordRule> {
    rule_if(!length_ok(s), PasswordRule::Length)
        + rule_if(!has_upper(s), PasswordRule::Uppercase)
        + rule_if(!has_lower(s), PasswordRule::Lowercase)
        + rule_if(!has_digit(s), PasswordRule::Digit)
        + rule_if(!has_special(s), PasswordRule::Special)
}

/// A password is strong when it breaks no rule.
pub open spec fn is_strong(s: Seq<char>) -> bool {
    length_ok(s) && has_upper(s) && has_lower(s) && has_digit(s) && has_special(s)
}

/// Which of the three letter and digit classes occur in a text.
pub struct ClassesSeen {
    pub upper: bool,
    pub lower: bool,
    pub digit: bool,
}

/// Scans the text once and reports which of the classes upper case, lower
/// case and digit occur in it.
pub fn scan_classes(text: &str) -> (seen: ClassesSeen)
    ensures
        seen.upper == has_upper(text@),
        seen.lower == has_lower(text@),
        seen.digit == has_digit(text@),
{
    broadcast use vstd::string::group_string_axioms;

    let mut upper = false;
    let mut lower = false;
    let mut digit = false;
    let mut chars = text.chars();
    let ghost mut done: int = 0;
    loop
        invariant
            0 <= done <= text@.len(),
            chars.remaining() == text@.subrange(done, text@.len() as int),
            chars.obeys_prophetic_iter_laws(),
            upper == has_upper(text@.subrange(0, done)),
            lower == has_lower(text@.subrange(0, done)),
            digit == has_digit(text@.subrange(0, done)),
        ensures
            done == text@.len(),
        decreases text@.len() - done,
    {
        let ghost before = text@.subrange(0, done);
        match chars.next() {
            Some(c) => {
                proof {
                    let after = text@.subrange(0, done + 1);
                    assert(after =~= before.push(c));
                    assert(forall|i: int| 0 <= i < before.len() ==> before[i] == after[i]);
                    assert(after[done] == c);
                    assert(text@.subrange(done, text@.len() as int).drop_first() =~= text@.subrange(
                        done + 1,
                        text@.len() as int,
                    ));
                    done = done + 1;
                }
                if 'A' <= c && c <= 'Z' {
                    upper = true;
                }
                if 'a' <= c && c <= 'z' {
                    lower = true;
                }
                if '0' <= c && c <= '9' {
                    digit = true;
                }
            },
            None => {
                break ;
            },
        }
    }
    assert(text@.subrange(0, done) =~= text@);
    ClassesSeen { upper, lower, digit }
}

/// Calls `regex::Regex::new` on the pattern and `Regex::is_match` on the text.
///
/// The only pattern admitted is the bracketed class of the seven special
/// characters. Inside brackets each of them stands for itself, and `is_match`
/// looks for a match anywhere in the text, so the call answers whether some
/// character of the text belongs to the class. This is taken from the
/// documentation of `regex` and is not proved here.
#[verifier::external_body]
fn matches_special_class(pattern: &str, text: &str) -> (found: bool)
    requires
        pattern@ == "[@$!%*?&]"@,
    ensures
        found == has_special(text@),
{
    regex::Regex::new(pattern).unwrap().is_match(text)
}

impl PasswordRule {
    /// The reason shown to a client for a broken rule.
    pub open spec fn spec_message(self) -> &'static str {
        match self {
            PasswordRule::Length => "Password must be 8-100 characters long",
            PasswordRule::Uppercase => "Password must contain at least one uppercase letter",
            PasswordRule::Lowercase => "Password must contain at least one lowercase letter",
            PasswordRule::Digit => "Password must contain at least one digit",
            PasswordRule::Special => "Password must contain at least one special character (@$!%*?&)",
        }
    }

    #[verifier::when_used_as_spec(spec_message)]
    pub fn message(self) -> (text: &'static str)
        ensures
            text == self.spec_message(),
    {
        match self {
            PasswordRule::Length => "Password must be 8-100 characters long",
            PasswordRule::Uppercase => "Password must contain at least one uppercase letter",
            PasswordRule::Lowercase => "Password must contain at least one lowercase letter",
            PasswordRule::Digit => "Password must contain at least one digit",
            PasswordRule::Special => "Password must contain at least one special character (@$!%*?&)",
        }
    }
}

/// Lists every rule that the password breaks, in the order of
/// [`broken_rules`]. The list is empty exactly for a strong password.
pub fn password_faults(password: &str) -> (faults: Vec<PasswordRule>)
    ensures
        faults@ == broken_rules(password@),
        faults@.len() == 0 <==> is_strong(password@),
{
    let mut faults: Vec<PasswordRule> = Vec::new();
    let bytes: usize = password.as_bytes().len();
    if bytes < 8 || bytes > 100 {
        faults.push(PasswordRule::Length);
    }
    assert(faults@ =~= rule_if(!length_ok(password@), PasswordRule::Length));
    let seen = scan_classes(password);
    if !seen.upper {
        faults.push(PasswordRule::Uppercase);
    }
    if !seen.lower {
        faults.push(PasswordRule::Lowercase);
    }
    if !seen.digit {
        faults.push(PasswordRule::Digit);
    }
    if !matches_special_class("[@$!%*?&]", password) {
        faults.push(PasswordRule::Special);
    }
    assert(faults@ =~= broken_rules(password@));
    faults
}

/// Accepts a strong password and refuses any other with the full list of
/// the rules it breaks.
pub fn password_schema(password: &str) -> (verdict: Result<(), Vec<PasswordRule>>)
    ensures
        verdict is Ok <==> is_strong(password@),
        verdict is Err ==> verdict->Err_0@ == broken_rules(password@),
{
    let faults = password_faults(password);
    if faults.len() == 0 {
        Ok(())
    } else {
        Err(faults)
    }
}

/// A password is refused exactly when it breaks some rule, and every rule
/// it breaks is then listed exactly once.
pub proof fn lemma_broken_rules_complete(s: Seq<char>, rule: PasswordRule)
    ensures
        broken_rules(s).len() == 0 <==> is_strong(s),
        broken_rules(s).contains(rule) <==> match rule {
            PasswordRule::Length => !length_ok(s),
            PasswordRule::Uppercase => !has_upper(s),
            PasswordRule::Lowercase => !has_lower(s),
            PasswordRule::Digit => !has_digit(s),
            PasswordRule::Special => !has_special(s),
        },
        broken_rules(s).no_duplicates(),
{
    let a = rule_if(!length_ok(s), PasswordRule::Length);
    let b = rule_if(!has_upper(s), PasswordRule::Uppercase);
    let c = rule_if(!has_lower(s), PasswordRule::Lowercase);
    let d = rule_if(!has_digit(s), PasswordRule::Digit);
    let e = rule_if(!has_special(s), PasswordRule::Special);
    let all = broken_rules(s);
    assert(all == a + b + c + d + e);
    assert(all.len() == a.len() + b.len() + c.len() + d.len() + e.len());
    if !length_ok(s) {
        assert(all[0] == PasswordRule::Length);
    }
    if !has_upper(s) {
        assert(all[a.len() as int] == PasswordRule::Uppercase);
    }
    if !has_lower(s) {
        assert(all[(a.len() + b.len()) as int] == PasswordRule::Lowercase);
    }
    if !has_digit(s) {
        assert(all[(a.len() + b.len() + c.len()) as int] == PasswordRule::Digit);
    }
    if !has_special(s) {
        assert(all[(a.len() + b.len() + c.len() + d.len()) as int] == PasswordRule::Special);
    }
}

} // verus!
