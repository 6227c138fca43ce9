//! Partial updates: which columns a request sets, in a fixed order. A field
//! that is absent leaves its column as it is; an update that sets nothing is
//! refused by the caller.

use vstd::prelude::*;

use rust_decimal::Decimal;

verus! {

/// `[c]` when `present`, nothing otherwise.
pub open spec fn set_if<C>(present: bool, c: C) -> Seq<C> {
    if present {
        seq![c]
    } else {
        Seq::empty()
    }
}

/// A column of the transactions table that an update may set.
#[derive(Clone, Copy, Debug, PartialEq, Eq, Structural)]
pub enum TransactionColumn {
    Description,
    Amount,
    TransactionType,
    CategoryId,
}

/// New values for a transaction.
#[derive(Debug)]
pub struct UpdateTransaction {
    pub description: Option<String>,
    pub amount: Option<Decimal>,
    pub transaction_type: Option<String>,
    pub category_id: Option<String>,
}

impl UpdateTransaction {
    /// The columns that the update sets, in order.
    pub open spec fn spec_changes(&self) -> Seq<TransactionColumn> {
        set_if(self.description is Some, TransactionColumn::Description) + set_if(
            self.amount is Some,
            TransactionColumn::Amount,
        ) + set_if(self.transaction_type is Some, TransactionColumn::TransactionType) + set_if(
            self.category_id is Some,
            TransactionColumn::CategoryId,
        )
    }

    /// The columns that the update sets, in order.
    pub fn changes(&self) -> (r: Vec<TransactionColumn>)
        ensures
            r@ == self.spec_changes(),
    {
        let mut cols: Vec<TransactionColumn> = Vec::new();
        if self.description.is_some() {
            cols.push(TransactionColumn::Description);
        }
        if self.amount.is_some() {
            cols.push(TransactionColumn::Amount);
        }
        if self.transaction_type.is_some() {
            cols.push(TransactionColumn::TransactionType);
        }
        if self.category_id.is_some() {
            cols.push(TransactionColumn::CategoryId);
        }
        assert(cols@ =~= self.spec_changes());
        cols
    }
}

/// A column of the goals table that an update may set.
#[derive(Clone, Copy, Debug, PartialEq, Eq, Structural)]
pub enum GoalColumn {
    Name,
    TargetAmount,
    Deadline,
    Icon,
}

/// New values for a savings goal.
#[derive(Debug)]
pub struct UpdateGoal {
    pub name: Option<String>,
    pub target_amount: Option<Decimal>,
    pub deadline: Option<chrono::NaiveDate>,
    pub icon: Option<String>,
}

impl UpdateGoal {
    /// The columns that the update sets, in order.
    pub open spec fn spec_changes(&self) -> Seq<GoalColumn> {
        set_if(self.name is Some, GoalColumn::Name) + set_if(
            self.target_amount is Some,
            GoalColumn::TargetAmount,
        ) + set_if(self.deadline is Some, GoalColumn::Deadline) + set_if(
            self.icon is Some,
            GoalColumn::Icon,
        )
    }

    /// The columns that the update sets, in order.
    pub fn changes(&self) -> (r: Vec<GoalColumn>)
        ensures
            r@ == self.spec_changes(),
    {
        let mut cols: Vec<GoalColumn> = Vec::new();
        if self.name.is_some() {
            cols.push(GoalColumn::Name);
        }
        if self.target_amount.is_some() {
            cols.push(GoalColumn::TargetAmount);
        }
        if self.deadline.is_some() {
            cols.push(GoalColumn::Deadline);
        }
        if self.icon.is_some() {
            cols.push(GoalColumn::Icon);
        }
        assert(cols@ =~= self.spec_changes());
        cols
    }
}

/// A column of the recurring-rules table that an update may set.
#[derive(Clone, Copy, Debug, PartialEq, Eq, Structural)]
pub enum RecurringColumn {
    Description,
    Amount,
    TransactionType,
    CategoryId,
    Frequency,
    Active,
}

/// New values for a recurring rule.
#[derive(Debug)]
pub struct UpdateRecurring {
    pub description: Option<String>,
    pub amount: Option<Decimal>,
    pub transaction_type: Option<String>,
    pub category_id: Option<String>,
    pub frequency: Option<String>,
    pub active: Option<bool>,
}

impl UpdateRecurring {
    /// The columns that the update sets, in order.
    pub open spec fn spec_changes(&self) -> Seq<RecurringColumn> {
        set_if(self.description is Some, RecurringColumn::Description) + set_if(
            self.amount is Some,
            RecurringColumn::Amount,
        ) + set_if(self.transaction_type is Some, RecurringColumn::TransactionType) + set_if(
            self.category_id is Some,
            RecurringColumn::CategoryId,
        ) + set_if(self.frequency is Some, RecurringColumn::Frequency) + set_if(
            self.active is Some,
            RecurringColumn::Active,
        )
    }

    /// The columns that the update sets, in order.
    pub fn changes(&self) -> (r: Vec<RecurringColumn>)
        ensures
            r@ == self.spec_changes(),
    {
        let mut cols: Vec<RecurringColumn> = Vec::new();
        if self.description.is_some() {
            cols.push(RecurringColumn::Description);
        }
        if self.amount.is_some() {
            cols.push(RecurringColumn::Amount);
        }
        if self.transaction_type.is_some() {
            cols.push(RecurringColumn::TransactionType);
        }
        if self.category_id.is_some() {
            cols.push(RecurringColumn::CategoryId);
        }
        if self.frequency.is_some() {
            cols.push(RecurringColumn::Frequency);
        }
        if self.active.is_some() {
            cols.push(RecurringColumn::Active);
        }
        assert(cols@ =~= self.spec_changes());
        cols
    }
}

} // verus!
