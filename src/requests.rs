//! Request bodies and the rules that they must meet before anything is stored.

use vstd::prelude::*;

use crate::schedule::{frequency_named, is_transaction_type, validate_frequency, validate_transaction_type};
use crate::text::copy_optional;
use crate::updates::set_if;

verus! {

/// `chrono::NaiveDate`, a calendar date such as a birth date or a deadline.
/// Its value is carried through, never read.
#[verifier::external_type_specification]
#[verifier::external_body]
pub struct ExNaiveDate(chrono::NaiveDate);

/// Whether `validator` accepts `s` as an e-mail address.
pub uninterp spec fn email_accepted(s: Seq<char>) -> bool;

/// Relies on `validator::validate_email`: a local part and a domain part
/// around the last `@`, each checked against its grammar. Text without `@`
/// is refused.
#[verifier::external_body]
fn is_email(s: &str) -> (r: bool)
    ensures
        r == email_accepted(s@),
        !s@.contains('@') ==> !r,
{
    validator::validate_email(s)
}

/// Relies on `validator::validate_length` on a `&str`, which counts characters.
#[verifier::external_body]
fn length_within(s: &str, min: u64, max: Option<u64>) -> (r: bool)
    ensures
        r == (min <= s@.len() && match max {
            Some(m) => s@.len() <= m,
            None => true,
        }),
{
    validator::validate_length(s, Some(min), max, None)
}

/// A field of a request body.
#[derive(Clone, Copy, Debug, PartialEq, Eq, Structural)]
pub enum Field {
    FullName,
    Email,
    Password,
    OldPassword,
    NewPassword,
    Name,
    Description,
    TransactionType,
    Frequency,
}

impl Field {
    /// The field's name in request bodies.
    pub fn name(&self) -> (r: &'static str)
        ensures
            r@ == match self {
                Field::FullName => "full_name"@,
                Field::Email => "email"@,
                Field::Password => "password"@,
                Field::OldPassword => "old_password"@,
                Field::NewPassword => "new_password"@,
                Field::Name => "name"@,
                Field::Description => "description"@,
                Field::TransactionType => "transaction_type"@,
                Field::Frequency => "frequency"@,
            },
    {
        match self {
            Field::FullName => "full_name",
            Field::Email => "email",
            Field::Password => "password",
            Field::OldPassword => "old_password",
            Field::NewPassword => "new_password",
            Field::Name => "name",
            Field::Description => "description",
            Field::TransactionType => "transaction_type",
            Field::Frequency => "frequency",
        }
    }
}

/// `f` when the check failed, nothing when it passed.
pub open spec fn failure(ok: bool, f: Field) -> Seq<Field> {
    if ok {
        Seq::empty()
    } else {
        seq![f]
    }
}

/// Length at least `min` and, when given, at most `max`.
pub open spec fn length_ok(s: Seq<char>, min: int, max: Option<int>) -> bool {
    min <= s.len() && match max {
        Some(m) => s.len() <= m,
        None => true,
    }
}

/// Pushes `f` onto `failed` when `ok` is false.
fn note(failed: &mut Vec<Field>, ok: bool, f: Field)
    ensures
        final(failed)@ == old(failed)@ + failure(ok, f),
{
    if !ok {
        failed.push(f);
    }
    proof {
        if ok {
            assert(final(failed)@ =~= old(failed)@ + failure(ok, f));
        }
    }
}

/// `Ok` when nothing failed, else the fields that failed, in order.
fn verdict(failed: Vec<Field>) -> (r: Result<(), Vec<Field>>)
    ensures
        failed@.len() == 0 ==> r is Ok,
        failed@.len() > 0 ==> r is Err && r->Err_0@ == failed@,
{
    if failed.len() == 0 {
        Ok(())
    } else {
        Err(failed)
    }
}

/// A new account.
#[derive(Debug)]
pub struct RegisterRequest {
    pub full_name: String,
    pub email: String,
    pub password: String,
    pub cpf: String,
    pub birth_date: chrono::NaiveDate,
    pub phone: String,
}

impl RegisterRequest {
    /// The fields that break their rule, in order: a full name of 3 to 255
    /// characters, an e-mail address, a password of at least 6 characters.
    pub open spec fn failures(&self) -> Seq<Field> {
        failure(length_ok(self.full_name@, 3, Some(255)), Field::FullName) + failure(
            email_accepted(self.email@),
            Field::Email,
        ) + failure(length_ok(self.password@, 6, None), Field::Password)
    }

    /// Checks the field rules.
    pub fn validate(&self) -> (r: Result<(), Vec<Field>>)
        ensures
            r is Ok <==> self.failures().len() == 0,
            r is Err ==> r->Err_0@ == self.failures(),
    {
        let mut failed: Vec<Field> = Vec::new();
        note(&mut failed, length_within(self.full_name.as_str(), 3, Some(255)), Field::FullName);
        note(&mut failed, is_email(self.email.as_str()), Field::Email);
        note(&mut failed, length_within(self.password.as_str(), 6, None), Field::Password);
        assert(failed@ =~= self.failures());
        verdict(failed)
    }
}

/// Credentials for a sign-in.
#[derive(Clone, Debug)]
pub struct LoginRequest {
    pub email: String,
    pub password: String,
}

impl LoginRequest {
    /// The fields that break their rule, in order: an e-mail address, a
    /// password of at least 6 characters.
    pub open spec fn failures(&self) -> Seq<Field> {
        failure(email_accepted(self.email@), Field::Email) + failure(
            length_ok(self.password@, 6, None),
            Field::Password,
        )
    }

    /// Checks the field rules.
    pub fn validate(&self) -> (r: Result<(), Vec<Field>>)
        ensures
            r is Ok <==> self.failures().len() == 0,
            r is Err ==> r->Err_0@ == self.failures(),
    {
        let mut failed: Vec<Field> = Vec::new();
        note(&mut failed, is_email(self.email.as_str()), Field::Email);
        note(&mut failed, length_within(self.password.as_str(), 6, None), Field::Password);
        assert(failed@ =~= self.failures());
        verdict(failed)
    }
}

/// A password change.
#[derive(Clone, Debug)]
pub struct ChangePassword {
    pub old_password: String,
    pub new_password: String,
}

impl ChangePassword {
    /// The fields that break their rule: both passwords need at least 6 characters.
    pub open spec fn failures(&self) -> Seq<Field> {
        failure(length_ok(self.old_password@, 6, None), Field::OldPassword) + failure(
            length_ok(self.new_password@, 6, None),
            Field::NewPassword,
        )
    }

    /// Checks the field rules.
    pub fn validate(&self) -> (r: Result<(), Vec<Field>>)
        ensures
            r is Ok <==> self.failures().len() == 0,
            r is Err ==> r->Err_0@ == self.failures(),
    {
        let mut failed: Vec<Field> = Vec::new();
        note(&mut failed, length_within(self.old_password.as_str(), 6, None), Field::OldPassword);
        note(&mut failed, length_within(self.new_password.as_str(), 6, None), Field::NewPassword);
        assert(failed@ =~= self.failures());
        verdict(failed)
    }
}

/// A request for a password-recovery message.
#[derive(Clone, Debug)]
pub struct ForgotPasswordRequest {
    pub email: String,
}

impl ForgotPasswordRequest {
    /// The fields that break their rule: an e-mail address.
    pub open spec fn failures(&self) -> Seq<Field> {
        failure(email_accepted(self.email@), Field::Email)
    }

    /// Checks the field rules.
    pub fn validate(&self) -> (r: Result<(), Vec<Field>>)
        ensures
            r is Ok <==> self.failures().len() == 0,
            r is Err ==> r->Err_0@ == self.failures(),
    {
        let mut failed: Vec<Field> = Vec::new();
        note(&mut failed, is_email(self.email.as_str()), Field::Email);
        assert(failed@ =~= self.failures());
        verdict(failed)
    }
}

/// A new category, or the new values of one.
#[derive(Clone, Debug)]
pub struct CreateCategory {
    pub name: String,
    pub icon: String,
    pub color: String,
    pub category_type: String,
}

/// `s`, or `default` when `s` is empty.
pub open spec fn or_default(s: Seq<char>, default: Seq<char>) -> Seq<char> {
    if s.len() == 0 {
        default
    } else {
        s
    }
}

/// The icon of a category created without one.
pub const DEFAULT_CATEGORY_ICON: &'static str = "💵";

/// The color of a category created without one.
pub const DEFAULT_CATEGORY_COLOR: &'static str = "#636e72";

/// A column of the categories table that an update may set.
#[derive(Clone, Copy, Debug, PartialEq, Eq, Structural)]
pub enum CategoryColumn {
    Name,
    Icon,
    Color,
}

impl CreateCategory {
    /// The fields that break their rule: a name of 1 to 100 characters.
    pub open spec fn failures(&self) -> Seq<Field> {
        failure(length_ok(self.name@, 1, Some(100)), Field::Name)
    }

    /// Checks the field rules.
    pub fn validate(&self) -> (r: Result<(), Vec<Field>>)
        ensures
            r is Ok <==> self.failures().len() == 0,
            r is Err ==> r->Err_0@ == self.failures(),
    {
        let mut failed: Vec<Field> = Vec::new();
        note(&mut failed, length_within(self.name.as_str(), 1, Some(100)), Field::Name);
        assert(failed@ =~= self.failures());
        verdict(failed)
    }

    /// The icon to store: the given one, or the default when it is empty.
    pub fn icon_or_default(&self) -> (r: &str)
        ensures
            r@ == or_default(self.icon@, DEFAULT_CATEGORY_ICON@),
    {
        if self.icon.as_str().unicode_len() == 0 {
            DEFAULT_CATEGORY_ICON
        } else {
            self.icon.as_str()
        }
    }

    /// The color to store: the given one, or the default when it is empty.
    pub fn color_or_default(&self) -> (r: &str)
        ensures
            r@ == or_default(self.color@, DEFAULT_CATEGORY_COLOR@),
    {
        if self.color.as_str().unicode_len() == 0 {
            DEFAULT_CATEGORY_COLOR
        } else {
            self.color.as_str()
        }
    }

    /// The columns that an update with these values sets: those whose new value is not empty.
    pub open spec fn spec_changes(&self) -> Seq<CategoryColumn> {
        set_if(self.name@.len() > 0, CategoryColumn::Name) + set_if(
            self.icon@.len() > 0,
            CategoryColumn::Icon,
        ) + set_if(self.color@.len() > 0, CategoryColumn::Color)
    }

    /// The columns that an update with these values sets, in order. None means
    /// there is nothing to update.
    pub fn changes(&self) -> (r: Vec<CategoryColumn>)
        ensures
            r@ == self.spec_changes(),
    {
        let mut cols: Vec<CategoryColumn> = Vec::new();
        if self.name.as_str().unicode_len() > 0 {
            cols.push(CategoryColumn::Name);
        }
        if self.icon.as_str().unicode_len() > 0 {
            cols.push(CategoryColumn::Icon);
        }
        if self.color.as_str().unicode_len() > 0 {
            cols.push(CategoryColumn::Color);
        }
        assert(cols@ =~= self.spec_changes());
        cols
    }
}

/// A new notification.
#[derive(Clone, Debug)]
pub struct CreateNotification {
    pub title: String,
    pub message: String,
    pub notification_type: Option<String>,
}

/// The kind of a notification created without one.
pub const DEFAULT_NOTIFICATION_TYPE: &'static str = "info";

impl CreateNotification {
    /// The kind to store: the given one, or `info`.
    pub fn type_or_default(&self) -> (r: String)
        ensures
            r@ == match self.notification_type {
                Some(t) => t@,
                None => DEFAULT_NOTIFICATION_TYPE@,
            },
    {
        match copy_optional(&self.notification_type) {
            Some(t) => t,
            None => DEFAULT_NOTIFICATION_TYPE.to_string(),
        }
    }
}

/// The fields of a new savings goal that break their rule: a name of 1 to
/// 255 characters. (The target amount is checked where it is parsed.)
pub open spec fn goal_failures(name: Seq<char>) -> Seq<Field> {
    failure(length_ok(name, 1, Some(255)), Field::Name)
}

/// Checks the field rules of a new savings goal.
pub fn validate_goal(name: &str) -> (r: Result<(), Vec<Field>>)
    ensures
        r is Ok <==> goal_failures(name@).len() == 0,
        r is Err ==> r->Err_0@ == goal_failures(name@),
{
    let mut failed: Vec<Field> = Vec::new();
    note(&mut failed, length_within(name, 1, Some(255)), Field::Name);
    assert(failed@ =~= goal_failures(name@));
    verdict(failed)
}

/// The fields of a new recurring rule that break their rules, in order: a
/// description of 1 to 255 characters, `income` or `expense`, and one of the
/// four frequency names. (The amount is checked where it is parsed.)
pub open spec fn recurring_failures(
    description: Seq<char>,
    transaction_type: Seq<char>,
    frequency: Seq<char>,
) -> Seq<Field> {
    failure(length_ok(description, 1, Some(255)), Field::Description) + failure(
        is_transaction_type(transaction_type),
        Field::TransactionType,
    ) + failure(frequency_named(frequency) is Some, Field::Frequency)
}

/// Checks the field rules of a new recurring rule.
pub fn validate_recurring(description: &str, transaction_type: &str, frequency: &str) -> (r: Result<
    (),
    Vec<Field>,
>)
    ensures
        r is Ok <==> recurring_failures(description@, transaction_type@, frequency@).len() == 0,
        r is Err ==> r->Err_0@ == recurring_failures(description@, transaction_type@, frequency@),
{
    let mut failed: Vec<Field> = Vec::new();
    note(&mut failed, length_within(description, 1, Some(255)), Field::Description);
    note(&mut failed, validate_transaction_type(transaction_type).is_ok(), Field::TransactionType);
    note(&mut failed, validate_frequency(frequency).is_ok(), Field::Frequency);
    assert(failed@ =~= recurring_failures(description@, transaction_type@, frequency@));
    verdict(failed)
}

} // verus!
