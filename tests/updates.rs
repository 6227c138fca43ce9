use alpha_bank::updates::{
    GoalColumn, RecurringColumn, TransactionColumn, UpdateGoal, UpdateRecurring, UpdateTransaction,
};
use chrono::NaiveDate;
use rust_decimal::Decimal;

#[test]
fn transaction_update_columns() {
    let none = UpdateTransaction { description: None, amount: None, transaction_type: None, category_id: None };
    assert!(none.changes().is_empty());
    let some = UpdateTransaction {
        description: None,
        amount: Some(Decimal::new(-250, 2)),
        transaction_type: None,
        category_id: Some("c1".to_string()),
    };
    assert_eq!(some.changes(), vec![TransactionColumn::Amount, TransactionColumn::CategoryId]);
}

#[test]
fn goal_update_columns() {
    let u = UpdateGoal {
        name: Some("Trip".to_string()),
        target_amount: None,
        deadline: NaiveDate::from_ymd_opt(2030, 12, 31),
        icon: Some("x".to_string()),
    };
    assert_eq!(u.changes(), vec![GoalColumn::Name, GoalColumn::Deadline, GoalColumn::Icon]);
}

#[test]
fn recurring_update_columns() {
    let u = UpdateRecurring {
        description: Some("Rent".to_string()),
        amount: Some(Decimal::new(100_000, 2)),
        transaction_type: Some("expense".to_string()),
        category_id: Some("c".to_string()),
        frequency: Some("monthly".to_string()),
        active: Some(false),
    };
    assert_eq!(
        u.changes(),
        vec![
            RecurringColumn::Description,
            RecurringColumn::Amount,
            RecurringColumn::TransactionType,
            RecurringColumn::CategoryId,
            RecurringColumn::Frequency,
            RecurringColumn::Active,
        ]
    );
    let only_active = UpdateRecurring {
        description: None,
        amount: None,
        transaction_type: None,
        category_id: None,
        frequency: None,
        active: Some(true),
    };
    assert_eq!(only_active.changes(), vec![RecurringColumn::Active]);
}
