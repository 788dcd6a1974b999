//! Request payloads and the rules they are checked against.
use vstd::prelude::*;
use vstd::string::*;
use crate::account::{CreateUserReq, RegisterReq, MAX_CREDIT_ADJUSTMENT};
use crate::enums::{ProductEdition, TemplateTopic};
use crate::pay::PayFrom;

verus! {

/// Whether `s` is an email address as `validator` judges it.
pub uninterp spec fn is_email(s: Seq<char>) -> bool;

/// Relies on `validator::ValidateEmail::validate_email` for `String`: the
/// HTML5 address check. Its source refuses an empty string, and one without
/// `@`, before any other test.
#[verifier::external_body]
fn email_ok(s: &String) -> (r: bool)
    ensures
        r == is_email(s@),
        r ==> s@.len() > 0 && s@.contains('@'),
{
    validator::ValidateEmail::validate_email(s)
}

/// The field of a request that broke its rule.
#[derive(Clone, Copy, Debug, PartialEq, Eq, Structural)]
pub enum FieldError {
    Name,
    Email,
    Password,
    ValidateCode,
    Description,
    Amount,
    UserId,
    OrderId,
}

/// `s` has between `min` and `max` characters.
pub open spec fn len_within(s: Seq<char>, min: nat, max: nat) -> bool {
    min <= s.len() <= max
}

fn char_len_within(s: &String, min: usize, max: usize) -> (r: bool)
    ensures
        r == len_within(s@, min as nat, max as nat),
{
    let n = s.as_str().unicode_len();
    min <= n && n <= max
}

/// `s` is an email address of at most `max` characters.
pub open spec fn email_within(s: Seq<char>, max: nat) -> bool {
    is_email(s) && s.len() <= max
}

fn check_email(s: &String, max: usize) -> (r: bool)
    ensures
        r == email_within(s@, max as nat),
{
    let ok = email_ok(s);
    ok && char_len_within(s, 0, max)
}

impl RegisterReq {
    /// Name up to 30 characters, an email of up to 60, a password of up to 32,
    /// a validation code of up to 8.
    pub fn validate(&self) -> (r: Result<(), FieldError>)
        ensures
            r.is_ok() <==> (len_within(self.name@, 0, 30) && email_within(self.email@, 60)
                && len_within(self.passwd@, 0, 32) && len_within(self.validate_code@, 0, 8)),
            r == Err::<(), FieldError>(FieldError::Name) ==> !len_within(self.name@, 0, 30),
            r == Err::<(), FieldError>(FieldError::Email) ==> !email_within(self.email@, 60),
            r == Err::<(), FieldError>(FieldError::Password) ==> !len_within(self.passwd@, 0, 32),
            r == Err::<(), FieldError>(FieldError::ValidateCode) ==> !len_within(
                self.validate_code@,
                0,
                8,
            ),
            r.is_ok() || r == Err::<(), FieldError>(FieldError::Name) || r == Err::<
                (),
                FieldError,
            >(FieldError::Email) || r == Err::<(), FieldError>(FieldError::Password) || r
                == Err::<(), FieldError>(FieldError::ValidateCode),
    {
        if !char_len_within(&self.name, 0, 30) {
            return Err(FieldError::Name);
        }
        if !check_email(&self.email, 60) {
            return Err(FieldError::Email);
        }
        if !char_len_within(&self.passwd, 0, 32) {
            return Err(FieldError::Password);
        }
        if !char_len_within(&self.validate_code, 0, 8) {
            return Err(FieldError::ValidateCode);
        }
        Ok(())
    }
}

impl CreateUserReq {
    /// Name of 1 to 32 characters, an email of up to 64, a password of 6 to 32.
    pub fn validate(&self) -> (r: Result<(), FieldError>)
        ensures
            r.is_ok() <==> (len_within(self.username@, 1, 32) && email_within(self.email@, 64)
                && len_within(self.password@, 6, 32)),
            r == Err::<(), FieldError>(FieldError::Name) ==> !len_within(self.username@, 1, 32),
            r == Err::<(), FieldError>(FieldError::Email) ==> !email_within(self.email@, 64),
            r == Err::<(), FieldError>(FieldError::Password) ==> !len_within(
                self.password@,
                6,
                32,
            ),
            r.is_ok() || r == Err::<(), FieldError>(FieldError::Name) || r == Err::<
                (),
                FieldError,
            >(FieldError::Email) || r == Err::<(), FieldError>(FieldError::Password),
    {
        if !char_len_within(&self.username, 1, 32) {
            return Err(FieldError::Name);
        }
        if !check_email(&self.email, 64) {
            return Err(FieldError::Email);
        }
        if !char_len_within(&self.password, 6, 32) {
            return Err(FieldError::Password);
        }
        Ok(())
    }
}

/// A sign-in with email and password.
pub struct AuthenticationToken {
    pub email: String,
    pub passwd: String,
}

/// A password reset.
pub struct ResetPasswdReq {
    pub email: String,
    pub passwd: String,
    pub validate_code: String,
}

impl ResetPasswdReq {
    /// An email of up to 60 characters, a password of up to 32, a code of up to 8.
    pub fn validate(&self) -> (r: Result<(), FieldError>)
        ensures
            r.is_ok() <==> (email_within(self.email@, 60) && len_within(self.passwd@, 0, 32)
                && len_within(self.validate_code@, 0, 8)),
            r == Err::<(), FieldError>(FieldError::Email) ==> !email_within(self.email@, 60),
            r == Err::<(), FieldError>(FieldError::Password) ==> !len_within(self.passwd@, 0, 32),
            r == Err::<(), FieldError>(FieldError::ValidateCode) ==> !len_within(
                self.validate_code@,
                0,
                8,
            ),
            r.is_ok() || r == Err::<(), FieldError>(FieldError::Email) || r == Err::<
                (),
                FieldError,
            >(FieldError::Password) || r == Err::<(), FieldError>(FieldError::ValidateCode),
    {
        if !check_email(&self.email, 60) {
            return Err(FieldError::Email);
        }
        if !char_len_within(&self.passwd, 0, 32) {
            return Err(FieldError::Password);
        }
        if !char_len_within(&self.validate_code, 0, 8) {
            return Err(FieldError::ValidateCode);
        }
        Ok(())
    }
}

/// A request to mail a validation code.
pub struct SendEmailReq {
    pub email: String,
}

impl SendEmailReq {
    /// An email of up to 60 characters.
    pub fn validate(&self) -> (r: Result<(), FieldError>)
        ensures
            r.is_ok() <==> email_within(self.email@, 60),
            r.is_err() ==> r == Err::<(), FieldError>(FieldError::Email),
    {
        if !check_email(&self.email, 60) {
            return Err(FieldError::Email);
        }
        Ok(())
    }
}

/// A new display name.
pub struct SetNameReq {
    pub name: String,
}

impl SetNameReq {
    /// A name of up to 30 characters.
    pub fn validate(&self) -> (r: Result<(), FieldError>)
        ensures
            r.is_ok() <==> len_within(self.name@, 0, 30),
            r.is_err() ==> r == Err::<(), FieldError>(FieldError::Name),
    {
        if !char_len_within(&self.name, 0, 30) {
            return Err(FieldError::Name);
        }
        Ok(())
    }
}

/// An administrator's edit of an account.
pub struct UpdateUserReq {
    pub username: String,
    pub email: String,
    pub locked: Option<bool>,
    pub edition: Option<ProductEdition>,
}

impl UpdateUserReq {
    /// A name of 1 to 32 characters and an email of up to 64.
    pub fn validate(&self) -> (r: Result<(), FieldError>)
        ensures
            r.is_ok() <==> (len_within(self.username@, 1, 32) && email_within(self.email@, 64)),
            r == Err::<(), FieldError>(FieldError::Name) ==> !len_within(self.username@, 1, 32),
            r == Err::<(), FieldError>(FieldError::Email) ==> !email_within(self.email@, 64),
            r.is_ok() || r == Err::<(), FieldError>(FieldError::Name) || r == Err::<
                (),
                FieldError,
            >(FieldError::Email),
    {
        if !char_len_within(&self.username, 1, 32) {
            return Err(FieldError::Name);
        }
        if !check_email(&self.email, 64) {
            return Err(FieldError::Email);
        }
        Ok(())
    }
}

/// An administrator's change of a balance.
pub struct AdjustCreditsReq {
    pub amount: i32,
    pub description: String,
}

impl AdjustCreditsReq {
    /// An amount within the adjustment bound either way, a description of 1
    /// to 200 characters.
    pub fn validate(&self) -> (r: Result<(), FieldError>)
        ensures
            r.is_ok() <==> (-MAX_CREDIT_ADJUSTMENT <= self.amount <= MAX_CREDIT_ADJUSTMENT
                && len_within(self.description@, 1, 200)),
            r == Err::<(), FieldError>(FieldError::Amount) ==> !(-MAX_CREDIT_ADJUSTMENT
                <= self.amount <= MAX_CREDIT_ADJUSTMENT),
            r == Err::<(), FieldError>(FieldError::Description) ==> !len_within(
                self.description@,
                1,
                200,
            ),
            r.is_ok() || r == Err::<(), FieldError>(FieldError::Amount) || r == Err::<
                (),
                FieldError,
            >(FieldError::Description),
    {
        if self.amount < -MAX_CREDIT_ADJUSTMENT || self.amount > MAX_CREDIT_ADJUSTMENT {
            return Err(FieldError::Amount);
        }
        if !char_len_within(&self.description, 1, 200) {
            return Err(FieldError::Description);
        }
        Ok(())
    }
}

/// An administrator's change of a tier.
pub struct UpdateUserEditionReq {
    pub edition: ProductEdition,
    pub description: String,
}

impl UpdateUserEditionReq {
    /// A description of 1 to 200 characters.
    pub fn validate(&self) -> (r: Result<(), FieldError>)
        ensures
            r.is_ok() <==> len_within(self.description@, 1, 200),
            r.is_err() ==> r == Err::<(), FieldError>(FieldError::Description),
    {
        if !char_len_within(&self.description, 1, 200) {
            return Err(FieldError::Description);
        }
        Ok(())
    }
}

/// An administrator's new task.
pub struct CreateTaskReq {
    pub name: String,
    pub user_id: i64,
}

impl CreateTaskReq {
    /// A name of 1 to 60 characters and a positive user id.
    pub fn validate(&self) -> (r: Result<(), FieldError>)
        ensures
            r.is_ok() <==> (len_within(self.name@, 1, 60) && self.user_id >= 1),
            r == Err::<(), FieldError>(FieldError::Name) ==> !len_within(self.name@, 1, 60),
            r == Err::<(), FieldError>(FieldError::UserId) ==> self.user_id < 1,
            r.is_ok() || r == Err::<(), FieldError>(FieldError::Name) || r == Err::<
                (),
                FieldError,
            >(FieldError::UserId),
    {
        if !char_len_within(&self.name, 1, 60) {
            return Err(FieldError::Name);
        }
        if self.user_id < 1 {
            return Err(FieldError::UserId);
        }
        Ok(())
    }
}

/// An administrator's rename of a task.
pub struct UpdateTaskReq {
    pub name: String,
}

impl UpdateTaskReq {
    /// A name of 1 to 60 characters.
    pub fn validate(&self) -> (r: Result<(), FieldError>)
        ensures
            r.is_ok() <==> len_within(self.name@, 1, 60),
            r.is_err() ==> r == Err::<(), FieldError>(FieldError::Name),
    {
        if !char_len_within(&self.name, 1, 60) {
            return Err(FieldError::Name);
        }
        Ok(())
    }
}

/// A search of one's tasks by name prefix.
pub struct ScraperTaskQuery {
    pub name: Option<String>,
}

impl ScraperTaskQuery {
    /// A name of up to 80 characters, if any.
    pub fn validate(&self) -> (r: Result<(), FieldError>)
        ensures
            r.is_ok() <==> (self.name matches Some(n) ==> len_within(n@, 0, 80)),
            r.is_err() ==> r == Err::<(), FieldError>(FieldError::Name),
    {
        if let Some(n) = &self.name {
            if !char_len_within(n, 0, 80) {
                return Err(FieldError::Name);
            }
        }
        Ok(())
    }
}

/// A search of the template catalog.
pub struct TemplateQuery {
    pub name: Option<String>,
    pub topic: Option<TemplateTopic>,
    pub edition: Option<ProductEdition>,
}

impl TemplateQuery {
    /// A name of up to 30 characters, if any.
    pub fn validate(&self) -> (r: Result<(), FieldError>)
        ensures
            r.is_ok() <==> (self.name matches Some(n) ==> len_within(n@, 0, 30)),
            r.is_err() ==> r == Err::<(), FieldError>(FieldError::Name),
    {
        if let Some(n) = &self.name {
            if !char_len_within(n, 0, 30) {
                return Err(FieldError::Name);
            }
        }
        Ok(())
    }
}

/// A checkout: which tier, through which provider.
pub struct TradeCreateQuery {
    pub level: ProductEdition,
    pub pay_from: PayFrom,
}

/// A question about one order.
pub struct PayStatusQuery {
    pub order_id: i32,
}

impl PayStatusQuery {
    /// A positive order id.
    pub fn validate(&self) -> (r: Result<(), FieldError>)
        ensures
            r.is_ok() <==> self.order_id >= 1,
            r.is_err() ==> r == Err::<(), FieldError>(FieldError::OrderId),
    {
        if self.order_id < 1 {
            return Err(FieldError::OrderId);
        }
        Ok(())
    }
}

/// Days to report payments for, as `YYYY-MM-DD`.
pub struct PayStatsQuery {
    pub start_date: Option<String>,
    pub end_date: Option<String>,
}

/// An administrator's search of accounts by name or email.
pub struct UserListQuery {
    pub keyword: Option<String>,
}

/// An administrator's listing of tasks by state name.
pub struct TaskListQuery {
    pub status: Option<String>,
}

} // verus!
