//! The decisions of the account endpoints: registration, sign-in, password
//! change and profile update. Lookups and writes are the caller's; what is
//! checked, hashed and answered is decided here.

use vstd::prelude::*;

use crate::cpf::{is_valid_cpf, validate_cpf};
use crate::ids::fresh_id;
use crate::password::{bcrypt_verdict, hash_password, verify_password, PasswordError};
use crate::requests::{ChangePassword, Field, RegisterRequest};
use crate::token::{create_jwt, signed_token, token_payload, JwtConfig, TokenError};
use crate::updates::set_if;

verus! {

/// Why a registration is refused before any lookup.
#[derive(Clone, Debug)]
pub enum RegisterRejection {
    /// These fields break their rules.
    Validation(Vec<Field>),
    /// The CPF is not valid.
    InvalidCpf,
}

/// Checks a registration: the field rules first, then the CPF.
pub fn check_registration(req: &RegisterRequest) -> (r: Result<(), RegisterRejection>)
    ensures
        req.failures().len() > 0 ==> (r matches Err(RegisterRejection::Validation(f)) && f@
            == req.failures()),
        req.failures().len() == 0 ==> (r is Ok <==> is_valid_cpf(req.cpf@)),
        req.failures().len() == 0 && !is_valid_cpf(req.cpf@) ==> r matches Err(
            RegisterRejection::InvalidCpf,
        ),
{
    match req.validate() {
        Err(fields) => Err(RegisterRejection::Validation(fields)),
        Ok(()) => {
            if validate_cpf(req.cpf.as_str()) {
                Ok(())
            } else {
                Err(RegisterRejection::InvalidCpf)
            }
        },
    }
}

/// Whether a count of matching accounts means the value is already in use.
pub fn already_registered(count: i64) -> (r: bool)
    ensures
        r == (count > 0),
{
    count > 0
}

/// The row of a new account.
#[derive(Debug)]
pub struct NewUser {
    pub id: String,
    pub full_name: String,
    pub email: String,
    pub password_hash: String,
    pub cpf: String,
    pub birth_date: chrono::NaiveDate,
    pub phone: String,
}

/// The account that `req` opens: a fresh id, the request's fields, and a
/// hash that the request's password checks out against.
pub fn prepare_account(req: &RegisterRequest) -> (r: Result<NewUser, PasswordError>)
    ensures
        r is Err ==> r matches Err(PasswordError::Hashing),
        r matches Ok(u) ==> {
            &&& u.id@.len() == 36
            &&& u.full_name == req.full_name
            &&& u.email == req.email
            &&& bcrypt_verdict(req.password@, u.password_hash@) == Some(true)
            &&& u.cpf == req.cpf
            &&& u.birth_date == req.birth_date
            &&& u.phone == req.phone
        },
{
    let password_hash = match hash_password(req.password.as_str()) {
        Ok(h) => h,
        Err(e) => return Err(e),
    };
    Ok(
        NewUser {
            id: fresh_id(),
            full_name: req.full_name.clone(),
            email: req.email.clone(),
            password_hash,
            cpf: req.cpf.clone(),
            birth_date: req.birth_date,
            phone: req.phone.clone(),
        },
    )
}

/// Why a sign-in or a password change failed.
#[derive(Clone, Copy, Debug, PartialEq, Eq, Structural)]
pub enum CredentialError {
    /// The password does not match the stored hash.
    WrongPassword,
    /// The stored hash is not a bcrypt hash.
    MalformedHash,
    /// No new hash could be made.
    Hashing,
    /// No token could be made.
    Token(TokenError),
}

/// Signs in the user `user_id` whose stored hash is `stored_hash`: the
/// password must match, and then a token is issued for the user.
pub fn sign_in(password: &str, stored_hash: &str, user_id: &str, config: &JwtConfig) -> (r: Result<
    String,
    CredentialError,
>)
    ensures
        bcrypt_verdict(password@, stored_hash@) is None ==> r == Err::<String, CredentialError>(
            CredentialError::MalformedHash,
        ),
        bcrypt_verdict(password@, stored_hash@) == Some(false) ==> r == Err::<
            String,
            CredentialError,
        >(CredentialError::WrongPassword),
        bcrypt_verdict(password@, stored_hash@) == Some(true) ==> r is Ok || r matches Err(
            CredentialError::Token(_),
        ),
        r is Ok ==> exists|now: i64|
            {
                &&& r->Ok_0@ == #[trigger] signed_token(
                    config.secret@,
                    user_id@,
                    (now + config.ttl_seconds) as u64,
                )
                &&& token_payload(config.secret@, r->Ok_0@) == Some(
                    (Some(user_id@), Some((now + config.ttl_seconds) as u64)),
                )
            },
{
    match verify_password(password, stored_hash) {
        Err(_) => Err(CredentialError::MalformedHash),
        Ok(false) => Err(CredentialError::WrongPassword),
        Ok(true) => match create_jwt(user_id, config) {
            Ok(token) => Ok(token),
            Err(e) => Err(CredentialError::Token(e)),
        },
    }
}

/// The hash to store for a password change: the old password must match the
/// stored hash, and the new one is hashed.
pub fn replace_password(req: &ChangePassword, stored_hash: &str) -> (r: Result<String, CredentialError>)
    ensures
        bcrypt_verdict(req.old_password@, stored_hash@) is None ==> r == Err::<
            String,
            CredentialError,
        >(CredentialError::MalformedHash),
        bcrypt_verdict(req.old_password@, stored_hash@) == Some(false) ==> r == Err::<
            String,
            CredentialError,
        >(CredentialError::WrongPassword),
        bcrypt_verdict(req.old_password@, stored_hash@) == Some(true) ==> (r is Ok || r == Err::<
            String,
            CredentialError,
        >(CredentialError::Hashing)),
        r is Ok ==> bcrypt_verdict(req.new_password@, r->Ok_0@) == Some(true),
{
    match verify_password(req.old_password.as_str(), stored_hash) {
        Err(_) => Err(CredentialError::MalformedHash),
        Ok(false) => Err(CredentialError::WrongPassword),
        Ok(true) => match hash_password(req.new_password.as_str()) {
            Ok(h) => Ok(h),
            Err(_) => Err(CredentialError::Hashing),
        },
    }
}

/// New values for a profile; absent ones stay as they are.
#[derive(Debug)]
pub struct UpdateProfile {
    pub full_name: Option<String>,
    pub email: Option<String>,
    pub phone: Option<String>,
    pub birth_date: Option<chrono::NaiveDate>,
}

/// A column of the users table that a profile update may set.
#[derive(Clone, Copy, Debug, PartialEq, Eq, Structural)]
pub enum ProfileColumn {
    FullName,
    Email,
    Phone,
    BirthDate,
}

impl UpdateProfile {
    /// The columns that the update sets, in order.
    pub open spec fn spec_changes(&self) -> Seq<ProfileColumn> {
        set_if(self.full_name is Some, ProfileColumn::FullName) + set_if(
            self.email is Some,
            ProfileColumn::Email,
        ) + set_if(self.phone is Some, ProfileColumn::Phone) + set_if(
            self.birth_date is Some,
            ProfileColumn::BirthDate,
        )
    }

    /// The columns that the update sets, in order. None means there is
    /// nothing to update.
    pub fn changes(&self) -> (r: Vec<ProfileColumn>)
        ensures
            r@ == self.spec_changes(),
    {
        let mut cols: Vec<ProfileColumn> = Vec::new();
        if self.full_name.is_some() {
            cols.push(ProfileColumn::FullName);
        }
        if self.email.is_some() {
            cols.push(ProfileColumn::Email);
        }
        if self.phone.is_some() {
            cols.push(ProfileColumn::Phone);
        }
        if self.birth_date.is_some() {
            cols.push(ProfileColumn::BirthDate);
        }
        assert(cols@ =~= self.spec_changes());
        cols
    }
}

} // verus!
