//! From schedule entries to the cron expressions that are registered with
//! the scheduling engine.

use crate::settings::{
    lemma_time_of_written_time, parse_time, text_of, time_of, ScheduledTime, ScheduledTimeView,
};
use crate::text::{all_digits, decimal, decimal_string, digits_value, lemma_decimal_round_trip};
use vstd::prelude::*;

verus! {

/// Whether `hour` and `minute` name a time of the day.
pub open spec fn is_clock_time(hour: u8, minute: u8) -> bool {
    hour <= 23 && minute <= 59
}

/// The cron expression, with a field for seconds in front, that fires once
/// a day at second 0 of minute `minute` of hour `hour`.
pub open spec fn daily_cron(hour: u8, minute: u8) -> Seq<char> {
    "0 "@ + decimal(minute as nat) + " "@ + decimal(hour as nat) + " * * *"@
}

/// The cron expression under which `entry` is registered. A cron entry is
/// taken as it is. A daily entry is rewritten if its text denotes a time of
/// the day; if it does not, the entry has no expression and is dropped.
pub open spec fn cron_of(entry: ScheduledTimeView) -> Option<Seq<char>> {
    match entry {
        ScheduledTimeView::Cron(expression) => Some(expression),
        ScheduledTimeView::Daily(text) => match time_of(text) {
            Some((hour, minute)) => if is_clock_time(hour, minute) {
                Some(daily_cron(hour, minute))
            } else {
                None
            },
            None => None,
        },
    }
}

/// Writes the cron expression that fires once a day at `hour`:`minute`.
pub fn daily_cron_expression(hour: u8, minute: u8) -> (expression: String)
    ensures
        expression@ == daily_cron(hour, minute),
{
    let mut expression = String::from_str("0 ");
    expression.append(decimal_string(minute as u32).as_str());
    expression.append(" ");
    expression.append(decimal_string(hour as u32).as_str());
    expression.append(" * * *");
    expression
}

impl ScheduledTime {
    /// The cron expression under which this entry is registered, or `None`
    /// if the entry is a daily one whose text is no time of the day.
    pub fn cron_expression(&self) -> (expression: Option<String>)
        ensures
            text_of(expression) == cron_of(self@),
    {
        match self {
            ScheduledTime::Cron(expression) => Some(expression.clone()),
            ScheduledTime::Daily(text) => match parse_time(text.as_str()) {
                Some((hour, minute)) => {
                    if hour <= 23 && minute <= 59 {
                        Some(daily_cron_expression(hour, minute))
                    } else {
                        None
                    }
                },
                None => None,
            },
        }
    }
}

/// Whether `plan` is the registration plan of `schedule`: entry by entry
/// and in the same order, the cron expression to register, or `None` where
/// the entry is dropped.
pub open spec fn is_registration_plan(
    plan: Seq<Option<String>>,
    schedule: Seq<ScheduledTime>,
) -> bool {
    &&& plan.len() == schedule.len()
    &&& forall|i: int| 0 <= i < schedule.len() ==> text_of(#[trigger] plan[i]) == cron_of(schedule[i]@)
}

/// Plans the registration of `schedule`. An entry that is dropped does not
/// keep the entries after it from being registered.
pub fn registration_plan(schedule: &Vec<ScheduledTime>) -> (plan: Vec<Option<String>>)
    ensures
        is_registration_plan(plan@, schedule@),
{
    let mut plan: Vec<Option<String>> = Vec::new();
    let mut i: usize = 0;
    while i < schedule.len()
        invariant
            i <= schedule.len(),
            plan.len() == i,
            forall|j: int| 0 <= j < i ==> text_of(#[trigger] plan@[j]) == cron_of(schedule@[j]@),
        decreases schedule.len() - i,
    {
        plan.push(schedule[i].cron_expression());
        i = i + 1;
    }
    plan
}

/// A daily entry is registered exactly when its text is `hour:minute` with
/// an hour below 24 and a minute below 60, and then under the expression
/// for that time. Every other daily entry is dropped.
pub proof fn lemma_daily_entry_registered_iff_clock_time(text: Seq<char>)
    ensures
        cron_of(ScheduledTimeView::Daily(text)) is Some <==> (time_of(text) matches Some(time)
            && is_clock_time(time.0, time.1)),
        forall|hour: u8, minute: u8|
            time_of(text) == Some((hour, minute)) && is_clock_time(hour, minute) ==> cron_of(
                ScheduledTimeView::Daily(text),
            ) == Some(daily_cron(hour, minute)),
{
}

/// The expression of a daily entry has six fields with one blank between
/// them: second 0, the minute, the hour, and `*` for the day of the month,
/// the month and the day of the week. The minute and the hour are written
/// in digits that denote just the numbers asked for.
pub proof fn lemma_daily_cron_fields(hour: u8, minute: u8)
    ensures
        daily_cron(hour, minute) == "0"@ + " "@ + decimal(minute as nat) + " "@ + decimal(
            hour as nat,
        ) + " "@ + "*"@ + " "@ + "*"@ + " "@ + "*"@,
        all_digits(decimal(minute as nat)) && digits_value(decimal(minute as nat)) == minute,
        all_digits(decimal(hour as nat)) && digits_value(decimal(hour as nat)) == hour,
{
    lemma_decimal_round_trip(minute as nat);
    lemma_decimal_round_trip(hour as nat);
    reveal_strlit("0 ");
    reveal_strlit("0");
    reveal_strlit(" ");
    reveal_strlit("*");
    reveal_strlit(" * * *");
    assert(daily_cron(hour, minute) =~= "0"@ + " "@ + decimal(minute as nat) + " "@ + decimal(
        hour as nat,
    ) + " "@ + "*"@ + " "@ + "*"@ + " "@ + "*"@);
}

/// A daily entry that gives a time of the day in plain decimal numbers is
/// registered under the expression for just that time.
pub proof fn lemma_written_time_is_registered(hour: u8, minute: u8)
    requires
        is_clock_time(hour, minute),
    ensures
        cron_of(
            ScheduledTimeView::Daily(
                decimal(hour as nat) + seq![':'] + decimal(minute as nat),
            ),
        ) == Some(daily_cron(hour, minute)),
{
    lemma_time_of_written_time(hour, minute);
}

/// Every cron entry is registered, under its own expression.
pub proof fn lemma_cron_entry_registered_unchanged(expression: Seq<char>)
    ensures
        cron_of(ScheduledTimeView::Cron(expression)) == Some(expression),
{
}

} // verus!
