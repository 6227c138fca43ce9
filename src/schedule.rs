//! The due-date engine for recurring transactions: which rules are due, and the
//! generation run that inserts one transaction per due rule and moves the
//! rule's watermark forward.

use vstd::prelude::*;

use crate::clock::current_timestamp;
use crate::ids::fresh_id;
use crate::text::{copy_optional, same_text};
use rust_decimal::Decimal;

verus! {

/// `rust_decimal::Decimal`, the exact amount of money of a rule or a
/// transaction. Its value is carried through, never read.
#[verifier::external_type_specification]
#[verifier::external_body]
pub struct ExDecimal(Decimal);

/// Seconds in a day.
pub const SECONDS_PER_DAY: i64 = 86400;

/// How often a recurring rule produces a transaction.
#[derive(Clone, Copy, Debug, PartialEq, Eq, Structural)]
pub enum Frequency {
    Daily,
    Weekly,
    Monthly,
    Yearly,
}

impl Frequency {
    /// Whole days that must pass between two generations.
    pub open spec fn spec_period_days(self) -> int {
        match self {
            Frequency::Daily => 1,
            Frequency::Weekly => 7,
            Frequency::Monthly => 30,
            Frequency::Yearly => 365,
        }
    }

    /// Whole days that must pass between two generations.
    pub fn period_days(&self) -> (r: i64)
        ensures
            r == self.spec_period_days(),
    {
        match self {
            Frequency::Daily => 1,
            Frequency::Weekly => 7,
            Frequency::Monthly => 30,
            Frequency::Yearly => 365,
        }
    }

    /// The frequency that `s` names: `daily`, `weekly`, `monthly` or `yearly`.
    pub fn parse(s: &str) -> (r: Option<Frequency>)
        ensures
            r == frequency_named(s@),
    {
        if same_text(s, "daily") {
            Some(Frequency::Daily)
        } else if same_text(s, "weekly") {
            Some(Frequency::Weekly)
        } else if same_text(s, "monthly") {
            Some(Frequency::Monthly)
        } else if same_text(s, "yearly") {
            Some(Frequency::Yearly)
        } else {
            None
        }
    }
}

/// The frequency that a name stands for; any other name stands for none.
pub open spec fn frequency_named(s: Seq<char>) -> Option<Frequency> {
    if s == "daily"@ {
        Some(Frequency::Daily)
    } else if s == "weekly"@ {
        Some(Frequency::Weekly)
    } else if s == "monthly"@ {
        Some(Frequency::Monthly)
    } else if s == "yearly"@ {
        Some(Frequency::Yearly)
    } else {
        None
    }
}

/// A recurring rule. Instants are whole seconds since the Unix epoch.
#[derive(Debug)]
pub struct RecurringTransaction {
    pub id: String,
    pub user_id: String,
    pub description: String,
    pub amount: Decimal,
    pub transaction_type: String,
    pub category_id: Option<String>,
    pub frequency: String,
    pub active: bool,
    /// When the rule last produced a transaction; `None` if it never has.
    pub last_generated: Option<i64>,
    pub created_at: i64,
    pub updated_at: i64,
}

/// Whether a rule is due.
#[derive(Clone, Copy, Debug, PartialEq, Eq, Structural)]
pub enum Verdict {
    Due,
    NotDue,
}

/// Whole days from `from` to `to`, truncated toward zero.
pub open spec fn whole_days_between(from: int, to: int) -> int {
    if from <= to {
        (to - from) / (SECONDS_PER_DAY as int)
    } else {
        -((from - to) / (SECONDS_PER_DAY as int))
    }
}

/// A rule that never generated is due; otherwise it is due once the whole days
/// since its watermark reach its period. A rule of unknown frequency is never
/// due once it has a watermark.
pub open spec fn is_due(rule: RecurringTransaction, now: int) -> bool {
    match rule.last_generated {
        None => true,
        Some(last) => match frequency_named(rule.frequency@) {
            None => false,
            Some(f) => whole_days_between(last as int, now) >= f.spec_period_days(),
        },
    }
}

/// Decides whether `rule` is due at `now`.
pub fn evaluate(rule: &RecurringTransaction, now: i64) -> (r: Verdict)
    ensures
        r == (if is_due(*rule, now as int) {
            Verdict::Due
        } else {
            Verdict::NotDue
        }),
{
    match rule.last_generated {
        None => Verdict::Due,
        Some(last) => match Frequency::parse(rule.frequency.as_str()) {
            None => Verdict::NotDue,
            Some(f) => {
                if now < last {
                    proof {
                        assert((last - now) / (SECONDS_PER_DAY as int) >= 0);
                    }
                    Verdict::NotDue
                } else {
                    let elapsed: i128 = now as i128 - last as i128;
                    let days: i128 = elapsed / (SECONDS_PER_DAY as i128);
                    if days >= f.period_days() as i128 {
                        Verdict::Due
                    } else {
                        Verdict::NotDue
                    }
                }
            },
        },
    }
}

/// A rule that never generated is due at any instant.
pub proof fn lemma_never_generated_is_due(rule: RecurringTransaction, now: int)
    requires
        rule.last_generated is None,
    ensures
        is_due(rule, now),
{
}

/// A rule of unknown frequency that has a watermark is not due, however much
/// time has passed.
pub proof fn lemma_unknown_frequency_not_due(rule: RecurringTransaction, now: int)
    requires
        rule.last_generated is Some,
        frequency_named(rule.frequency@) is None,
    ensures
        !is_due(rule, now),
{
}

/// The rule with its watermark moved to `now`.
pub open spec fn advanced(rule: RecurringTransaction, now: i64) -> RecurringTransaction {
    RecurringTransaction { last_generated: Some(now), ..rule }
}

/// The rules as a run at `now` in which every step succeeded leaves them:
/// each rule due at `now` has its watermark at `now`.
pub open spec fn after_run(rules: Seq<RecurringTransaction>, now: i64) -> Seq<RecurringTransaction> {
    rules.map_values(
        |r: RecurringTransaction|
            if is_due(r, now as int) {
                advanced(r, now)
            } else {
                r
            },
    )
}

/// A rule whose watermark was just moved to `now` is not due at `now`.
pub proof fn lemma_advanced_not_due(rule: RecurringTransaction, now: i64)
    ensures
        !is_due(advanced(rule, now), now as int),
{
    assert(whole_days_between(now as int, now as int) == 0);
}

/// Index of the first rule at or after `from` that is due at `now`, or the
/// number of rules if none is.
pub open spec fn first_due_from(rules: Seq<RecurringTransaction>, from: int, now: int) -> int
    decreases rules.len() - from,
{
    if from >= rules.len() {
        rules.len() as int
    } else if is_due(rules[from], now) {
        from
    } else {
        first_due_from(rules, from + 1, now)
    }
}

proof fn lemma_first_due_bounds(rules: Seq<RecurringTransaction>, from: int, now: int)
    requires
        0 <= from,
    ensures
        from <= rules.len() ==> from <= first_due_from(rules, from, now) <= rules.len(),
        first_due_from(rules, from, now) < rules.len() ==> is_due(
            rules[first_due_from(rules, from, now)],
            now,
        ),
    decreases rules.len() - from,
{
    if from < rules.len() && !is_due(rules[from], now) {
        lemma_first_due_bounds(rules, from + 1, now);
    }
}

proof fn lemma_none_due_from(rules: Seq<RecurringTransaction>, from: int, now: int)
    requires
        0 <= from <= rules.len(),
        forall|i: int| from <= i < rules.len() ==> !is_due(#[trigger] rules[i], now),
    ensures
        first_due_from(rules, from, now) == rules.len(),
    decreases rules.len() - from,
{
    if from < rules.len() {
        lemma_none_due_from(rules, from + 1, now);
    }
}

/// Running the generation again at the same instant, once every step of the
/// first run succeeded, finds no rule due: the second run generates nothing.
pub proof fn lemma_second_run_generates_nothing(rules: Seq<RecurringTransaction>, now: i64)
    ensures
        first_due_from(after_run(rules, now), 0, now as int) == rules.len(),
{
    let after = after_run(rules, now);
    assert forall|i: int| 0 <= i < after.len() implies !is_due(#[trigger] after[i], now as int) by {
        if is_due(rules[i], now as int) {
            lemma_advanced_not_due(rules[i], now);
        }
    }
    lemma_none_due_from(after, 0, now as int);
}

/// A transaction produced by a recurring rule.
#[derive(Debug)]
pub struct GeneratedTransaction {
    pub id: String,
    pub user_id: String,
    pub description: String,
    pub amount: Decimal,
    pub transaction_type: String,
    pub category_id: Option<String>,
    pub date: i64,
    /// The rule that produced it.
    pub recurring_id: String,
}

/// `t` is the transaction that `rule` produces at `now`, under a fresh id.
pub open spec fn generated_from(t: GeneratedTransaction, rule: RecurringTransaction, now: int) -> bool {
    &&& t.id@.len() == 36
    &&& t.user_id == rule.user_id
    &&& t.description == rule.description
    &&& t.amount == rule.amount
    &&& t.transaction_type == rule.transaction_type
    &&& t.category_id == rule.category_id
    &&& t.date == now
    &&& t.recurring_id == rule.id
}

/// The transaction that `rule` produces at `now`.
fn transaction_for(rule: &RecurringTransaction, now: i64) -> (t: GeneratedTransaction)
    ensures
        generated_from(t, *rule, now as int),
{
    GeneratedTransaction {
        id: fresh_id(),
        user_id: rule.user_id.clone(),
        description: rule.description.clone(),
        amount: rule.amount,
        transaction_type: rule.transaction_type.clone(),
        category_id: copy_optional(&rule.category_id),
        date: now,
        recurring_id: rule.id.clone(),
    }
}

/// What the storage layer is asked to do next.
#[derive(Debug)]
pub enum GenerationAction {
    /// Store this transaction.
    Insert(GeneratedTransaction),
    /// Set the watermark of rule `rule_id` to `at`.
    AdvanceWatermark { rule_id: String, at: i64 },
    /// The run is over; `generated` rules had both steps succeed.
    Finished { generated: u64 },
}

/// Where a generation run stands.
#[derive(Clone, Copy, Debug, PartialEq, Eq, Structural)]
pub enum Stage {
    /// Looking for the next due rule from the cursor on.
    Scanning,
    /// The transaction of the rule at the cursor was handed out.
    Inserting,
    /// The watermark move of the rule at the cursor was handed out.
    Advancing,
}

/// The state of a generation run, as a value.
pub struct GenerationModel {
    pub rules: Seq<RecurringTransaction>,
    pub now: int,
    pub cursor: int,
    pub stage: Stage,
    pub generated: int,
}

/// One generation run over the active rules of one owner at one instant. Each
/// call of `next` reports whether the previous action succeeded and returns
/// the next one. Rules are visited in order; for each due rule the run asks to
/// insert its transaction and, if that succeeded, to move its watermark to the
/// run's instant. A rule counts as generated when both succeeded; a failure
/// skips the rule and the run goes on with the next.
pub struct PendingGeneration {
    rules: Vec<RecurringTransaction>,
    now: i64,
    cursor: usize,
    stage: Stage,
    generated: u64,
}

impl View for PendingGeneration {
    type V = GenerationModel;

    closed spec fn view(&self) -> GenerationModel {
        GenerationModel {
            rules: self.rules@,
            now: self.now as int,
            cursor: self.cursor as int,
            stage: self.stage,
            generated: self.generated as int,
        }
    }
}

/// Where the search for the next due rule starts after a report.
pub open spec fn resume_from(m: GenerationModel) -> int {
    if m.stage == Stage::Scanning {
        m.cursor
    } else {
        m.cursor + 1
    }
}

/// The count after a report of `succeeded`.
pub open spec fn generated_after(m: GenerationModel, succeeded: bool) -> int {
    if m.stage == Stage::Advancing && succeeded {
        m.generated + 1
    } else {
        m.generated
    }
}

impl PendingGeneration {
    /// The run's invariant.
    pub closed spec fn wf(&self) -> bool {
        &&& self.rules@.len() <= usize::MAX
        &&& self.cursor <= self.rules@.len()
        &&& self.generated <= self.cursor
        &&& self.stage != Stage::Scanning ==> {
            &&& self.cursor < self.rules@.len()
            &&& is_due(self.rules@[self.cursor as int], self.now as int)
        }
    }

    /// A run over `rules` at instant `now`.
    pub fn new(rules: Vec<RecurringTransaction>, now: i64) -> (r: PendingGeneration)
        ensures
            r.wf(),
            r@.rules == rules@,
            r@.now == now,
            r@.cursor == 0,
            r@.stage == Stage::Scanning,
            r@.generated == 0,
    {
        // a Vec never holds more than usize::MAX items
        let _ = rules.len();
        PendingGeneration { rules, now, cursor: 0, stage: Stage::Scanning, generated: 0 }
    }

    /// A run over `rules` at the current time.
    pub fn begin(rules: Vec<RecurringTransaction>) -> (r: PendingGeneration)
        ensures
            r.wf(),
            r@.rules == rules@,
            r@.cursor == 0,
            r@.stage == Stage::Scanning,
            r@.generated == 0,
    {
        let now = current_timestamp();
        PendingGeneration::new(rules, now)
    }

    /// The number of rules generated so far.
    pub fn generated(&self) -> (r: u64)
        ensures
            r == self@.generated,
    {
        self.generated
    }

    /// Takes the outcome of the last action handed out (ignored before the
    /// first one) and returns the next action.
    pub fn next(&mut self, succeeded: bool) -> (action: GenerationAction)
        requires
            old(self).wf(),
        ensures
            final(self).wf(),
            final(self)@.rules == old(self)@.rules,
            final(self)@.now == old(self)@.now,
            final(self)@.generated == generated_after(old(self)@, succeeded),
            ({
                let m = old(self)@;
                let n = final(self)@;
                if m.stage == Stage::Inserting && succeeded {
                    &&& n.stage == Stage::Advancing
                    &&& n.cursor == m.cursor
                    &&& action matches GenerationAction::AdvanceWatermark { rule_id, at }
                    &&& rule_id == m.rules[m.cursor].id
                    &&& at == m.now
                } else {
                    let k = first_due_from(m.rules, resume_from(m), m.now);
                    if k < m.rules.len() {
                        &&& n.stage == Stage::Inserting
                        &&& n.cursor == k
                        &&& action matches GenerationAction::Insert(t)
                        &&& generated_from(t, m.rules[k], m.now)
                    } else {
                        &&& n.stage == Stage::Scanning
                        &&& n.cursor == m.rules.len()
                        &&& action == (GenerationAction::Finished { generated: n.generated as u64 })
                    }
                }
            }),
    {
        proof {
            assert(self.wf());
        }
        let inserting = matches!(self.stage, Stage::Inserting);
        let advancing = matches!(self.stage, Stage::Advancing);
        if inserting && succeeded {
            self.stage = Stage::Advancing;
            return GenerationAction::AdvanceWatermark {
                rule_id: self.rules[self.cursor].id.clone(),
                at: self.now,
            };
        }
        if advancing && succeeded {
            self.generated = self.generated + 1;
        }
        let start: usize = if inserting || advancing {
            self.cursor + 1
        } else {
            self.cursor
        };
        proof {
            lemma_first_due_bounds(self.rules@, start as int, self.now as int);
        }
        let mut i: usize = start;
        while i < self.rules.len()
            invariant
                self.rules@ == old(self).rules@,
                self.now == old(self).now,
                self.generated == generated_after(old(self)@, succeeded),
                self.generated <= start,
                start == resume_from(old(self)@),
                !(old(self).stage == Stage::Inserting && succeeded),
                self.rules@.len() <= usize::MAX,
                start <= i <= self.rules@.len(),
                first_due_from(self.rules@, start as int, self.now as int) == first_due_from(
                    self.rules@,
                    i as int,
                    self.now as int,
                ),
            decreases self.rules@.len() - i,
        {
            if matches!(evaluate(&self.rules[i], self.now), Verdict::Due) {
                self.cursor = i;
                self.stage = Stage::Inserting;
                let t = transaction_for(&self.rules[i], self.now);
                return GenerationAction::Insert(t);
            }
            i = i + 1;
        }
        self.cursor = self.rules.len();
        self.stage = Stage::Scanning;
        GenerationAction::Finished { generated: self.generated }
    }
}

/// Why a field of a recurring rule was refused.
#[derive(Clone, Copy, Debug, PartialEq, Eq, Structural)]
pub enum InvalidValue {
    /// Neither `income` nor `expense`.
    TransactionType,
    /// Not one of the four frequency names.
    Frequency,
}

/// `income` or `expense`.
pub open spec fn is_transaction_type(s: Seq<char>) -> bool {
    s == "income"@ || s == "expense"@
}

/// Accepts `income` and `expense`.
pub fn validate_transaction_type(value: &str) -> (r: Result<(), InvalidValue>)
    ensures
        r is Ok <==> is_transaction_type(value@),
        r is Err ==> r == Err::<(), InvalidValue>(InvalidValue::TransactionType),
{
    if same_text(value, "income") || same_text(value, "expense") {
        Ok(())
    } else {
        Err(InvalidValue::TransactionType)
    }
}

/// Accepts `daily`, `weekly`, `monthly` and `yearly`.
pub fn validate_frequency(value: &str) -> (r: Result<(), InvalidValue>)
    ensures
        r is Ok <==> frequency_named(value@) is Some,
        r is Err ==> r == Err::<(), InvalidValue>(InvalidValue::Frequency),
{
    match Frequency::parse(value) {
        Some(_) => Ok(()),
        None => Err(InvalidValue::Frequency),
    }
}

} // verus!
