//! Verified core of a personal-finance service: CPF checks, the due-date
//! engine for recurring transactions, bearer tokens, password hashing and the
//! rules that request bodies must meet.

mod clock;

pub mod accounts;
pub mod cpf;
pub mod ids;
pub mod password;
pub mod requests;
pub mod schedule;
pub mod text;
pub mod token;
pub mod updates;
