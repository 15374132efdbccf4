//! The request shapes of the user endpoints, their validation rules, and the
//! inputs they become once validated.

use vstd::prelude::*;
use crate::password::{
    broken_rules, is_strong, lemma_broken_rules_complete, password_faults, PasswordRule,
};
use crate::validation::{
    at_least, email_accepted, is_email, length_within, password_violations,
    push_password_violations, Field, Reason, Validate, Violation, DEFAULT_PAGE,
    DEFAULT_PAGE_SIZE, PAGE_MIN, PAGE_SIZE_MIN, USERNAME_MAX, USERNAME_MIN,
};

verus! {

/// Body of a request to create a user.
pub struct CreateUserDto {
    pub username: String,
    pub email: String,
    pub password: String,
    pub confirm_password: String,
}

/// Body of a request to update a user. Any subset of the fields may be
/// present, but the two password fields come together or not at all.
pub struct UpdateUserDto {
    pub username: Option<String>,
    pub email: Option<String>,
    pub password: Option<String>,
    pub confirm_password: Option<String>,
}

/// Query of a request to list users.
#[derive(Debug)]
pub struct UserQuery {
    pub page: Option<i64>,
    pub page_size: Option<i64>,
}

/// What the create use case works on.
pub struct CreateUserInput {
    pub username: String,
    pub email: String,
    pub password: String,
}

/// What the update use case works on.
pub struct UpdateUserInput {
    pub username: Option<String>,
    pub email: Option<String>,
    pub password: Option<String>,
}

/// What the list use case works on.
pub struct UserQueryInput {
    pub page: i64,
    pub page_size: i64,
}

pub open spec fn one_if(broken: bool, field: Field, reason: Reason) -> Seq<Violation> {
    if broken {
        seq![Violation { field, reason }]
    } else {
        Seq::empty()
    }
}

pub open spec fn username_ok(username: Seq<char>) -> bool {
    USERNAME_MIN <= username.len() <= USERNAME_MAX
}

/// The rule that spans the two password fields of an update: both or
/// neither, and equal when both.
pub open spec fn optional_pair_fault(
    password: Option<Seq<char>>,
    confirm: Option<Seq<char>>,
) -> Option<Reason> {
    match (password, confirm) {
        (Some(p), Some(c)) => if p != c {
            Some(Reason::PasswordsDiffer)
        } else {
            None
        },
        (Some(_), None) => Some(Reason::PasswordPairIncomplete),
        (None, Some(_)) => Some(Reason::PasswordPairIncomplete),
        (None, None) => None,
    }
}

pub open spec fn text_of(value: Option<String>) -> Option<Seq<char>> {
    match value {
        Some(text) => Some(text@),
        None => None,
    }
}

pub open spec fn optional_password_violations(field: Field, value: Option<String>) -> Seq<
    Violation,
> {
    match value {
        Some(text) => password_violations(field, broken_rules(text@)),
        None => Seq::empty(),
    }
}

/// The two passwords of a create request must be the same text.
pub fn validate_password_pairs(dto: &CreateUserDto) -> (verdict: Result<(), Reason>)
    ensures
        verdict is Ok <==> dto.password@ == dto.confirm_password@,
        verdict is Err ==> verdict->Err_0 == Reason::PasswordsDiffer,
{
    if dto.password == dto.confirm_password {
        Ok(())
    } else {
        Err(Reason::PasswordsDiffer)
    }
}

/// The two passwords of an update request come together or not at all, and
/// are the same text when they come.
pub fn validate_optional_password_pairs(dto: &UpdateUserDto) -> (verdict: Result<(), Reason>)
    ensures
        verdict is Ok <==> optional_pair_fault(text_of(dto.password), text_of(dto.confirm_password))
            is None,
        verdict is Err ==> Some(verdict->Err_0) == optional_pair_fault(
            text_of(dto.password),
            text_of(dto.confirm_password),
        ),
{
    match (&dto.password, &dto.confirm_password) {
        (Some(password), Some(confirm)) => {
            if *password == *confirm {
                Ok(())
            } else {
                Err(Reason::PasswordsDiffer)
            }
        },
        (Some(_), None) => Err(Reason::PasswordPairIncomplete),
        (None, Some(_)) => Err(Reason::PasswordPairIncomplete),
        (None, None) => Ok(()),
    }
}

impl CreateUserDto {
    /// Every violation of the shape, given whether the e-mail address is
    /// well formed: username, e-mail, password, confirmation, then the pair.
    pub open spec fn violations_with(&self, email_ok: bool) -> Seq<Violation> {
        one_if(!username_ok(self.username@), Field::Username, Reason::UsernameLength)
            + one_if(!email_ok, Field::Email, Reason::EmailSyntax)
            + password_violations(Field::Password, broken_rules(self.password@))
            + password_violations(Field::ConfirmPassword, broken_rules(self.confirm_password@))
            + one_if(
            self.password@ != self.confirm_password@,
            Field::Shape,
            Reason::PasswordsDiffer,
        )
    }

    /// Checks every rule of the shape but the syntax of the e-mail address,
    /// whose verdict the caller hands in.
    pub fn validate_with(&self, email_ok: bool) -> (found: Vec<Violation>)
        ensures
            found@ == self.violations_with(email_ok),
    {
        let mut found: Vec<Violation> = Vec::new();
        if !length_within(self.username.as_str(), USERNAME_MIN, USERNAME_MAX) {
            found.push(Violation { field: Field::Username, reason: Reason::UsernameLength });
        }
        if !email_ok {
            found.push(Violation { field: Field::Email, reason: Reason::EmailSyntax });
        }
        assert(found@ =~= one_if(
            !username_ok(self.username@),
            Field::Username,
            Reason::UsernameLength,
        ) + one_if(!email_ok, Field::Email, Reason::EmailSyntax));
        let password_rules = password_faults(self.password.as_str());
        push_password_violations(&mut found, Field::Password, &password_rules);
        let confirm_rules = password_faults(self.confirm_password.as_str());
        push_password_violations(&mut found, Field::ConfirmPassword, &confirm_rules);
        match validate_password_pairs(self) {
            Ok(()) => {},
            Err(reason) => {
                found.push(Violation { field: Field::Shape, reason });
            },
        }
        assert(found@ =~= self.violations_with(email_ok));
        found
    }
}

impl Validate for CreateUserDto {
    open spec fn violations(&self) -> Seq<Violation> {
        self.violations_with(email_accepted(self.email@))
    }

    fn validate(&self) -> (found: Vec<Violation>) {
        let email_ok = is_email(self.email.as_str());
        self.validate_with(email_ok)
    }
}

impl UpdateUserDto {
    /// Every violation of the shape, given whether the e-mail address, if
    /// there is one, is well formed. An absent field breaks no rule of its
    /// own.
    pub open spec fn violations_with(&self, email_ok: bool) -> Seq<Violation> {
        one_if(
            self.username is Some && !username_ok(self.username->Some_0@),
            Field::Username,
            Reason::UsernameLength,
        ) + one_if(self.email is Some && !email_ok, Field::Email, Reason::EmailSyntax)
            + optional_password_violations(Field::Password, self.password)
            + optional_password_violations(Field::ConfirmPassword, self.confirm_password)
            + match optional_pair_fault(text_of(self.password), text_of(self.confirm_password)) {
            Some(reason) => seq![Violation { field: Field::Shape, reason }],
            None => Seq::empty(),
        }
    }

    /// Whether the e-mail address of the shape passes: an absent one does.
    pub open spec fn email_passes(&self) -> bool {
        match self.email {
            Some(email) => email_accepted(email@),
            None => true,
        }
    }

    /// Checks every rule of the shape but the syntax of the e-mail address,
    /// whose verdict the caller hands in.
    pub fn validate_with(&self, email_ok: bool) -> (found: Vec<Violation>)
        ensures
            found@ == self.violations_with(email_ok),
    {
        let mut found: Vec<Violation> = Vec::new();
        match &self.username {
            Some(username) => {
                if !length_within(username.as_str(), USERNAME_MIN, USERNAME_MAX) {
                    found.push(
                        Violation { field: Field::Username, reason: Reason::UsernameLength },
                    );
                }
            },
            None => {},
        }
        if self.email.is_some() && !email_ok {
            found.push(Violation { field: Field::Email, reason: Reason::EmailSyntax });
        }
        assert(found@ =~= one_if(
            self.username is Some && !username_ok(self.username->Some_0@),
            Field::Username,
            Reason::UsernameLength,
        ) + one_if(self.email is Some && !email_ok, Field::Email, Reason::EmailSyntax));
        match &self.password {
            Some(password) => {
                let rules = password_faults(password.as_str());
                push_password_violations(&mut found, Field::Password, &rules);
            },
            None => {},
        }
        match &self.confirm_password {
            Some(confirm) => {
                let rules = password_faults(confirm.as_str());
                push_password_violations(&mut found, Field::ConfirmPassword, &rules);
            },
            None => {},
        }
        match validate_optional_password_pairs(self) {
            Ok(()) => {},
            Err(reason) => {
                found.push(Violation { field: Field::Shape, reason });
            },
        }
        assert(found@ =~= self.violations_with(email_ok));
        found
    }
}

impl Validate for UpdateUserDto {
    open spec fn violations(&self) -> Seq<Violation> {
        self.violations_with(self.email_passes())
    }

    fn validate(&self) -> (found: Vec<Violation>) {
        let email_ok = match &self.email {
            Some(email) => is_email(email.as_str()),
            None => true,
        };
        self.validate_with(email_ok)
    }
}

impl UserQuery {
    /// The page asked for, or the default where none was given.
    pub open spec fn page_or_default(&self) -> i64 {
        match self.page {
            Some(page) => page,
            None => DEFAULT_PAGE,
        }
    }

    /// The page size asked for, or the default where none was given.
    pub open spec fn page_size_or_default(&self) -> i64 {
        match self.page_size {
            Some(size) => size,
            None => DEFAULT_PAGE_SIZE,
        }
    }
}

impl Validate for UserQuery {
    /// The bounds are held against the values after the defaults have
    /// filled what is missing.
    open spec fn violations(&self) -> Seq<Violation> {
        one_if(self.page_or_default() < PAGE_MIN, Field::Page, Reason::PageTooSmall) + one_if(
            self.page_size_or_default() < PAGE_SIZE_MIN,
            Field::PageSize,
            Reason::PageSizeTooSmall,
        )
    }

    fn validate(&self) -> (found: Vec<Violation>) {
        let mut found: Vec<Violation> = Vec::new();
        let page: i64 = match self.page {
            Some(page) => page,
            None => DEFAULT_PAGE,
        };
        let page_size: i64 = match self.page_size {
            Some(size) => size,
            None => DEFAULT_PAGE_SIZE,
        };
        if !at_least(page, PAGE_MIN) {
            found.push(Violation { field: Field::Page, reason: Reason::PageTooSmall });
        }
        if !at_least(page_size, PAGE_SIZE_MIN) {
            found.push(Violation { field: Field::PageSize, reason: Reason::PageSizeTooSmall });
        }
        assert(found@ =~= self.violations());
        found
    }
}

impl From<CreateUserDto> for CreateUserInput {
    fn from(dto: CreateUserDto) -> (input: CreateUserInput)
        ensures
            input.username == dto.username,
            input.email == dto.email,
            input.password == dto.password,
    {
        CreateUserInput { username: dto.username, email: dto.email, password: dto.password }
    }
}

impl vstd::std_specs::convert::FromSpecImpl<CreateUserDto> for CreateUserInput {
    open spec fn obeys_from_spec() -> bool {
        true
    }

    open spec fn from_spec(dto: CreateUserDto) -> CreateUserInput {
        CreateUserInput { username: dto.username, email: dto.email, password: dto.password }
    }
}

impl From<UpdateUserDto> for UpdateUserInput {
    fn from(dto: UpdateUserDto) -> (input: UpdateUserInput)
        ensures
            input.username == dto.username,
            input.email == dto.email,
            input.password == dto.password,
    {
        UpdateUserInput { username: dto.username, email: dto.email, password: dto.password }
    }
}

impl vstd::std_specs::convert::FromSpecImpl<UpdateUserDto> for UpdateUserInput {
    open spec fn obeys_from_spec() -> bool {
        true
    }

    open spec fn from_spec(dto: UpdateUserDto) -> UpdateUserInput {
        UpdateUserInput { username: dto.username, email: dto.email, password: dto.password }
    }
}

impl From<UserQuery> for UserQueryInput {
    fn from(value: UserQuery) -> (input: UserQueryInput)
        ensures
            input.page == value.page_or_default(),
            input.page_size == value.page_size_or_default(),
    {
        UserQueryInput {
            page: match value.page {
                Some(page) => page,
                None => DEFAULT_PAGE,
            },
            page_size: match value.page_size {
                Some(size) => size,
                None => DEFAULT_PAGE_SIZE,
            },
        }
    }
}

impl vstd::std_specs::convert::FromSpecImpl<UserQuery> for UserQueryInput {
    open spec fn obeys_from_spec() -> bool {
        true
    }

    open spec fn from_spec(value: UserQuery) -> UserQueryInput {
        UserQueryInput { page: value.page_or_default(), page_size: value.page_size_or_default() }
    }
}

/// A create request whose two passwords differ is never accepted: among
/// its violations, the last, is the one that says so.
pub proof fn lemma_mismatch_refused(dto: CreateUserDto)
    requires
        dto.password@ != dto.confirm_password@,
    ensures
        dto.violations().len() > 0,
        dto.violations().last() == (Violation {
            field: Field::Shape,
            reason: Reason::PasswordsDiffer,
        }),
{
}

/// A create request breaks no rule exactly when the username has between
/// five and fifty characters, the e-mail address is well formed, the
/// password is strong and the confirmation repeats it.
pub proof fn lemma_create_accepted(dto: CreateUserDto)
    ensures
        dto.violations().len() == 0 <==> {
            &&& username_ok(dto.username@)
            &&& email_accepted(dto.email@)
            &&& is_strong(dto.password@)
            &&& dto.password@ == dto.confirm_password@
        },
{
    lemma_broken_rules_complete(dto.password@, PasswordRule::Length);
    lemma_broken_rules_complete(dto.confirm_password@, PasswordRule::Length);
}

/// A list query breaks no rule exactly when the page, or the default in its
/// place, is at least 1 and the page size, or the default in its place, is
/// at least 5. A query that gives neither is accepted.
pub proof fn lemma_query_accepted(query: UserQuery)
    ensures
        query.violations().len() == 0 <==> query.page_or_default() >= PAGE_MIN
            && query.page_size_or_default() >= PAGE_SIZE_MIN,
        query.page is None && query.page_size is None ==> query.violations().len() == 0,
{
}

} // verus!
