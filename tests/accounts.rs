use alpha_bank::accounts::{
    already_registered, check_registration, prepare_account, replace_password, sign_in,
    CredentialError, ProfileColumn, RegisterRejection, UpdateProfile,
};
use alpha_bank::ids::fresh_id;
use alpha_bank::password::{hash_password, verify_password, PasswordError};
use alpha_bank::requests::{ChangePassword, Field, RegisterRequest};
use alpha_bank::token::{decode_jwt, JwtConfig};
use chrono::NaiveDate;

fn request(cpf: &str, email: &str, password: &str) -> RegisterRequest {
    RegisterRequest {
        full_name: "Maria Silva".to_string(),
        email: email.to_string(),
        password: password.to_string(),
        cpf: cpf.to_string(),
        birth_date: NaiveDate::from_ymd_opt(1990, 5, 17).unwrap(),
        phone: "+55 11 99999-0000".to_string(),
    }
}

fn config() -> JwtConfig {
    JwtConfig { secret: b"account-tests".to_vec(), ttl_seconds: 3600 }
}

#[test]
fn password_hash_round_trip() {
    let h = hash_password("secret1").unwrap();
    assert_ne!(h, "secret1");
    assert_eq!(verify_password("secret1", &h), Ok(true));
    assert_eq!(verify_password("secret2", &h), Ok(false));
}

#[test]
fn malformed_hash() {
    assert_eq!(verify_password("secret1", "not a hash"), Err(PasswordError::MalformedHash));
}

#[test]
fn registration_checks() {
    assert!(check_registration(&request("529.982.247-25", "maria@example.com", "secret1")).is_ok());
    assert!(matches!(
        check_registration(&request("11111111111", "maria@example.com", "secret1")),
        Err(RegisterRejection::InvalidCpf)
    ));
    match check_registration(&request("11111111111", "maria.example.com", "12345")) {
        Err(RegisterRejection::Validation(fields)) => {
            assert_eq!(fields, vec![Field::Email, Field::Password])
        }
        other => panic!("unexpected {other:?}"),
    }
}

#[test]
fn counts_mean_taken() {
    assert!(!already_registered(0));
    assert!(already_registered(1));
}

#[test]
fn prepared_account_keeps_fields_and_hashes() {
    let req = request("52998224725", "maria@example.com", "secret1");
    let user = prepare_account(&req).unwrap();
    assert_eq!(user.id.len(), 36);
    assert_eq!(user.email, req.email);
    assert_eq!(user.cpf, req.cpf);
    assert_eq!(user.birth_date, req.birth_date);
    assert_ne!(user.password_hash, req.password);
    assert_eq!(verify_password("secret1", &user.password_hash), Ok(true));
}

#[test]
fn sign_in_outcomes() {
    let h = hash_password("secret1").unwrap();
    let token = sign_in("secret1", &h, "user-1", &config()).unwrap();
    assert_eq!(decode_jwt(&token, &config()).unwrap().sub, "user-1");
    assert_eq!(sign_in("wrong!!", &h, "user-1", &config()), Err(CredentialError::WrongPassword));
    assert_eq!(sign_in("secret1", "$bad", "user-1", &config()), Err(CredentialError::MalformedHash));
}

#[test]
fn password_change_outcomes() {
    let h = hash_password("secret1").unwrap();
    let change = ChangePassword { old_password: "secret1".to_string(), new_password: "better2".to_string() };
    let new_hash = replace_password(&change, &h).unwrap();
    assert_eq!(verify_password("better2", &new_hash), Ok(true));
    assert_eq!(verify_password("secret1", &new_hash), Ok(false));
    let wrong = ChangePassword { old_password: "guess12".to_string(), new_password: "better2".to_string() };
    assert_eq!(replace_password(&wrong, &h), Err(CredentialError::WrongPassword));
    assert_eq!(replace_password(&change, "garbage"), Err(CredentialError::MalformedHash));
}

#[test]
fn profile_changes_in_order() {
    let none = UpdateProfile { full_name: None, email: None, phone: None, birth_date: None };
    assert!(none.changes().is_empty());
    let some = UpdateProfile {
        full_name: Some("A".to_string()),
        email: None,
        phone: Some("1".to_string()),
        birth_date: NaiveDate::from_ymd_opt(2000, 1, 1),
    };
    assert_eq!(some.changes(), vec![ProfileColumn::FullName, ProfileColumn::Phone, ProfileColumn::BirthDate]);
}

#[test]
fn fresh_ids_differ() {
    let a = fresh_id();
    let b = fresh_id();
    assert_eq!(a.len(), 36);
    assert_ne!(a, b);
}
