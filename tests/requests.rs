use alpha_bank::requests::{
    validate_goal, validate_recurring, CategoryColumn, ChangePassword, CreateCategory, CreateNotification, Field, ForgotPasswordRequest,
    LoginRequest,
};

fn login(email: &str, password: &str) -> LoginRequest {
    LoginRequest { email: email.to_string(), password: password.to_string() }
}

fn category(name: &str, icon: &str, color: &str) -> CreateCategory {
    CreateCategory {
        name: name.to_string(),
        icon: icon.to_string(),
        color: color.to_string(),
        category_type: "expense".to_string(),
    }
}

#[test]
fn login_validation() {
    assert_eq!(login("a@example.com", "secret").validate(), Ok(()));
    assert_eq!(login("nobody", "secret").validate(), Err(vec![Field::Email]));
    assert_eq!(login("a@example.com", "12345").validate(), Err(vec![Field::Password]));
    assert_eq!(login("", "").validate(), Err(vec![Field::Email, Field::Password]));
}

#[test]
fn password_length_counts_characters() {
    // six characters, twelve bytes
    assert_eq!(login("a@example.com", "ãéíõúç").validate(), Ok(()));
}

#[test]
fn change_password_validation() {
    let ok = ChangePassword { old_password: "123456".to_string(), new_password: "abcdef".to_string() };
    assert_eq!(ok.validate(), Ok(()));
    let bad = ChangePassword { old_password: "1".to_string(), new_password: "2".to_string() };
    assert_eq!(bad.validate(), Err(vec![Field::OldPassword, Field::NewPassword]));
}

#[test]
fn forgot_password_validation() {
    assert_eq!(ForgotPasswordRequest { email: "x@y.com".to_string() }.validate(), Ok(()));
    assert_eq!(ForgotPasswordRequest { email: "x@".to_string() }.validate(), Err(vec![Field::Email]));
}

#[test]
fn category_validation_and_defaults() {
    assert_eq!(category("Food", "", "").validate(), Ok(()));
    assert_eq!(category("", "", "").validate(), Err(vec![Field::Name]));
    assert_eq!(category(&"x".repeat(101), "", "").validate(), Err(vec![Field::Name]));
    assert_eq!(category(&"x".repeat(100), "", "").validate(), Ok(()));
    let c = category("Food", "", "");
    assert_eq!(c.icon_or_default(), "💵");
    assert_eq!(c.color_or_default(), "#636e72");
    let d = category("Food", "🍔", "#ffffff");
    assert_eq!(d.icon_or_default(), "🍔");
    assert_eq!(d.color_or_default(), "#ffffff");
}

#[test]
fn category_update_columns() {
    assert!(category("", "", "").changes().is_empty());
    assert_eq!(category("N", "", "#000").changes(), vec![CategoryColumn::Name, CategoryColumn::Color]);
    assert_eq!(
        category("N", "i", "c").changes(),
        vec![CategoryColumn::Name, CategoryColumn::Icon, CategoryColumn::Color]
    );
}

#[test]
fn notification_type_default() {
    let n = CreateNotification { title: "t".to_string(), message: "m".to_string(), notification_type: None };
    assert_eq!(n.type_or_default(), "info");
    let w = CreateNotification {
        title: "t".to_string(),
        message: "m".to_string(),
        notification_type: Some("warning".to_string()),
    };
    assert_eq!(w.type_or_default(), "warning");
}

#[test]
fn field_names() {
    assert_eq!(Field::FullName.name(), "full_name");
    assert_eq!(Field::NewPassword.name(), "new_password");
}

#[test]
fn goal_and_recurring_validation() {
    assert_eq!(validate_goal("Trip"), Ok(()));
    assert_eq!(validate_goal(""), Err(vec![Field::Name]));
    assert_eq!(validate_goal(&"g".repeat(256)), Err(vec![Field::Name]));
    assert_eq!(validate_recurring("Rent", "expense", "monthly"), Ok(()));
    assert_eq!(
        validate_recurring("", "transfer", "biweekly"),
        Err(vec![Field::Description, Field::TransactionType, Field::Frequency])
    );
    assert_eq!(validate_recurring("Salary", "income", "hourly"), Err(vec![Field::Frequency]));
}
