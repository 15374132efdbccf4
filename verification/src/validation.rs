//! Vocabulary of request-shape validation: the fields a request can carry,
//! the reasons for which one is refused, and the checks on single values.

use vstd::prelude::*;
use crate::password::PasswordRule;

verus! {

/// A field of a request shape. `Shape` stands for a rule that spans fields.
#[derive(Debug, Clone, Copy, PartialEq, Eq, Structural)]
pub enum Field {
    Username,
    Email,
    Password,
    ConfirmPassword,
    Page,
    PageSize,
    Shape,
}

/// Why a value was refused.
#[derive(Debug, Clone, Copy, PartialEq, Eq, Structural)]
pub enum Reason {
    UsernameLength,
    EmailSyntax,
    Password(PasswordRule),
    PasswordsDiffer,
    PasswordPairIncomplete,
    PageTooSmall,
    PageSizeTooSmall,
}

/// One refusal: the field it is about and the reason.
#[derive(Debug, Clone, Copy, PartialEq, Eq, Structural)]
pub struct Violation {
    pub field: Field,
    pub reason: Reason,
}

pub const USERNAME_MIN: u64 = 5;

pub const USERNAME_MAX: u64 = 50;

pub const PAGE_MIN: i64 = 1;

pub const PAGE_SIZE_MIN: i64 = 5;

pub const DEFAULT_PAGE: i64 = 1;

pub const DEFAULT_PAGE_SIZE: i64 = 25;

impl Field {
    /// The name of the field as it is written on the wire.
    pub open spec fn spec_name(self) -> &'static str {
        match self {
            Field::Username => "username",
            Field::Email => "email",
            Field::Password => "password",
            Field::ConfirmPassword => "confirmPassword",
            Field::Page => "page",
            Field::PageSize => "pageSize",
            Field::Shape => "__all__",
        }
    }

    #[verifier::when_used_as_spec(spec_name)]
    pub fn name(self) -> (text: &'static str)
        ensures
            text == self.spec_name(),
    {
        match self {
            Field::Username => "username",
            Field::Email => "email",
            Field::Password => "password",
            Field::ConfirmPassword => "confirmPassword",
            Field::Page => "page",
            Field::PageSize => "pageSize",
            Field::Shape => "__all__",
        }
    }
}

impl Reason {
    /// The reason in words, as shown to a client.
    pub open spec fn spec_message(self) -> &'static str {
        match self {
            Reason::UsernameLength => "Username must be 5-50 characters long",
            Reason::EmailSyntax => "Email address is not valid",
            Reason::Password(rule) => rule.spec_message(),
            Reason::PasswordsDiffer => "Passwords must match",
            Reason::PasswordPairIncomplete => "Either provide both password fields or neither",
            Reason::PageTooSmall => "Page must be at least 1",
            Reason::PageSizeTooSmall => "Page size must be at least 5",
        }
    }

    #[verifier::when_used_as_spec(spec_message)]
    pub fn message(self) -> (text: &'static str)
        ensures
            text == self.spec_message(),
    {
        match self {
            Reason::UsernameLength => "Username must be 5-50 characters long",
            Reason::EmailSyntax => "Email address is not valid",
            Reason::Password(rule) => rule.message(),
            Reason::PasswordsDiffer => "Passwords must match",
            Reason::PasswordPairIncomplete => "Either provide both password fields or neither",
            Reason::PageTooSmall => "Page must be at least 1",
            Reason::PageSizeTooSmall => "Page size must be at least 5",
        }
    }
}

/// A request shape that can list what is wrong with itself.
pub trait Validate {
    /// Every violation of the shape, in a fixed order.
    spec fn violations(&self) -> Seq<Violation>;

    fn validate(&self) -> (found: Vec<Violation>)
        ensures
            found@ == self.violations(),
    ;
}

/// Whether `validator` takes a text for an e-mail address. The rules are
/// those of the HTML5 specification and are not restated here.
pub uninterp spec fn email_accepted(email: Seq<char>) -> bool;

/// Calls `validator::ValidateEmail::validate_email` on the text. The answer
/// depends on the text alone; the contract gives it a name and claims no
/// more.
#[verifier::external_body]
pub(crate) fn is_email(email: &str) -> (ok: bool)
    ensures
        ok == email_accepted(email@),
{
    validator::ValidateEmail::validate_email(&email)
}

/// Calls `validator::ValidateLength::validate_length` with a lower and an
/// upper bound. For a string the crate counts characters, so the call answers
/// whether the number of characters lies within the bounds, both included.
#[verifier::external_body]
pub(crate) fn length_within(text: &str, min: u64, max: u64) -> (ok: bool)
    ensures
        ok == (min <= text@.len() <= max),
{
    validator::ValidateLength::validate_length(text, Some(min), Some(max), None)
}

/// Calls `validator::ValidateRange::validate_range` with a lower bound only:
/// the value passes when it is not less than the bound.
#[verifier::external_body]
pub(crate) fn at_least(value: i64, min: i64) -> (ok: bool)
    ensures
        ok == (value >= min),
{
    validator::ValidateRange::validate_range(&value, Some(min), None, None, None)
}

/// The violations of one password field: each broken rule, under the
/// field's name.
pub open spec fn password_violations(field: Field, rules: Seq<PasswordRule>) -> Seq<Violation> {
    Seq::new(rules.len(), |i: int| Violation { field, reason: Reason::Password(rules[i]) })
}

/// Appends to `found` the violations of one password field.
pub fn push_password_violations(found: &mut Vec<Violation>, field: Field, rules: &Vec<PasswordRule>)
    ensures
        final(found)@ == old(found)@ + password_violations(field, rules@),
{
    let ghost before = found@;
    let mut i: usize = 0;
    while i < rules.len()
        invariant
            0 <= i <= rules.len(),
            found@ == before + password_violations(field, rules@.subrange(0, i as int)),
        decreases rules.len() - i,
    {
        found.push(Violation { field, reason: Reason::Password(rules[i]) });
        proof {
            let shorter = password_violations(field, rules@.subrange(0, i as int));
            let longer = password_violations(field, rules@.subrange(0, i + 1));
            assert(longer =~= shorter.push(Violation { field, reason: Reason::Password(rules@[i as int]) }));
            assert(found@ =~= before + longer);
        }
        i = i + 1;
    }
    assert(rules@.subrange(0, i as int) =~= rules@);
}

} // verus!
