use vstd::prelude::*;
use crate::models::task::{Task, TaskView};
use crate::text::{text_le, text_lt, text_order};

verus! {

/// Shortcut filters on a task's due date.
#[derive(Debug, Clone, Copy, PartialEq, Eq, Structural)]
pub enum QuickDate {
    /// No date restriction.
    Anytime,
    Today,
    Overdue,
    ThisWeek,
}

impl QuickDate {
    /// Every quick date filter, in display order.
    pub fn all() -> (v: Vec<QuickDate>)
        ensures
            v@ == seq![QuickDate::Anytime, QuickDate::Today, QuickDate::Overdue, QuickDate::ThisWeek],
    {
        let mut v = Vec::new();
        v.push(QuickDate::Anytime);
        v.push(QuickDate::Today);
        v.push(QuickDate::Overdue);
        v.push(QuickDate::ThisWeek);
        v
    }

    pub open spec fn spec_label(self) -> Seq<char> {
        match self {
            QuickDate::Anytime => "None"@,
            QuickDate::Today => "Today"@,
            QuickDate::Overdue => "Overdue"@,
            QuickDate::ThisWeek => "This week"@,
        }
    }

    /// Whether a task passes this filter, given today's date and the last day
    /// of this week (dates are compared as text, so they are written in a
    /// year-first form): `Today` wants a due date equal to today, `Overdue` one
    /// before today, `ThisWeek` one from today to the end of the week, and
    /// `Anytime` (shown as "None") lets every task through. A task without a
    /// due date passes only `Anytime`.
    pub open spec fn spec_matches(
        self,
        task: TaskView,
        today: Seq<char>,
        week_end: Seq<char>,
    ) -> bool {
        match self {
            QuickDate::Anytime => true,
            QuickDate::Today => task.due_date == Some(today),
            QuickDate::Overdue => match task.due_date {
                Some(date) => text_lt(date, today),
                None => false,
            },
            QuickDate::ThisWeek => match task.due_date {
                Some(date) => text_le(today, date) && text_le(date, week_end),
                None => false,
            },
        }
    }

    pub fn label(self) -> (s: &'static str)
        ensures
            s@ == self.spec_label(),
    {
        match self {
            QuickDate::Anytime => "None",
            QuickDate::Today => "Today",
            QuickDate::Overdue => "Overdue",
            QuickDate::ThisWeek => "This week",
        }
    }

    pub fn matches(self, task: &Task, today: &str, week_end: &str) -> (b: bool)
        ensures
            b == self.spec_matches(task@, today@, week_end@),
    {
        match self {
            QuickDate::Anytime => true,
            QuickDate::Today => match &task.due_date {
                Some(date) => text_order(date.as_str(), today) == 0,
                None => false,
            },
            QuickDate::Overdue => match &task.due_date {
                Some(date) => text_order(date.as_str(), today) < 0,
                None => false,
            },
            QuickDate::ThisWeek => match &task.due_date {
                Some(date) => text_order(today, date.as_str()) <= 0 && text_order(
                    date.as_str(),
                    week_end,
                ) <= 0,
                None => false,
            },
        }
    }
}

} // verus!
