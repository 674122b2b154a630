use taskscape::models::completion_filter::CompletionFilter;
use taskscape::models::priority::Priority;
use taskscape::models::priority_filter::PriorityFilter;
use taskscape::models::quick_date::QuickDate;
use taskscape::models::sort_mode::SortMode;
use taskscape::models::status_filter::StatusFilter;
use taskscape::models::task::{Task, TaskStatus};
use taskscape::theme::ThemeMode;

fn task(title: &str, completed: bool, status: TaskStatus, archived: bool) -> Task {
    let mut t = Task::new(title.to_string());
    t.completed = completed;
    t.status = status;
    t.archived = archived;
    t
}

fn due(date: &str) -> Task {
    let mut t = Task::new("due".to_string());
    t.due_date = Some(date.to_string());
    t
}

#[test]
fn priority_labels_and_ranks() {
    assert_eq!(Priority::Low.label(), "Low priority");
    assert_eq!(Priority::Medium.label(), "Medium priority");
    assert_eq!(Priority::High.label(), "High priority");
    assert_eq!(Priority::Critical.label(), "Critical priority");
    assert_eq!(Priority::Low.short_label(), "Low");
    assert_eq!(Priority::Critical.short_label(), "Critical");
    let ranks: Vec<u8> = Priority::all().into_iter().map(|p| p.rank()).collect();
    assert_eq!(ranks, vec![0, 1, 2, 3]);
    assert_eq!(Priority::default(), Priority::Medium);
    assert_eq!(Priority::High.to_text(), "High priority");
}

#[test]
fn new_task_defaults() {
    let t = Task::new("Write report".to_string());
    assert_eq!(t.title, "Write report");
    assert_eq!(t.priority, Priority::Medium);
    assert_eq!(t.due_date, None);
    assert!(!t.is_completed());
    assert_eq!(t.status, TaskStatus::Todo);
    assert!(!t.archived);
}

#[test]
fn completion_filter_matches() {
    let open = task("a", false, TaskStatus::Todo, false);
    let done = task("b", true, TaskStatus::Done, false);
    let archived = task("c", false, TaskStatus::Doing, true);
    let blocked = task("d", false, TaskStatus::Blocked, false);
    assert!(CompletionFilter::Active.matches(&open));
    assert!(!CompletionFilter::Active.matches(&done));
    assert!(!CompletionFilter::Active.matches(&archived));
    assert!(CompletionFilter::Completed.matches(&done));
    assert!(!CompletionFilter::Completed.matches(&open));
    assert!(CompletionFilter::Pending.matches(&open));
    assert!(!CompletionFilter::Pending.matches(&archived));
    assert!(!CompletionFilter::Pending.matches(&blocked));
    assert!(CompletionFilter::Archived.matches(&archived));
    assert!(!CompletionFilter::Archived.matches(&open));
    for t in [&open, &done, &archived, &blocked] {
        assert!(CompletionFilter::All.matches(t));
        assert!(!(CompletionFilter::Active.matches(t) && CompletionFilter::Completed.matches(t)));
    }
    let labels: Vec<&str> = CompletionFilter::all().into_iter().map(|f| f.label()).collect();
    assert_eq!(labels, vec!["Active", "Completed", "Pending", "Archived", "All"]);
}

#[test]
fn priority_filter_matches() {
    assert!(PriorityFilter::All.matches(Priority::Low));
    assert!(PriorityFilter::All.matches(Priority::Critical));
    assert!(PriorityFilter::High.matches(Priority::High));
    assert!(!PriorityFilter::High.matches(Priority::Critical));
    assert!(PriorityFilter::Low.matches(Priority::Low));
    assert!(!PriorityFilter::Low.matches(Priority::Medium));
    let labels: Vec<&str> = PriorityFilter::all().into_iter().map(|f| f.label()).collect();
    assert_eq!(labels, vec!["All", "Low", "Medium", "High", "Critical"]);
}

#[test]
fn status_filter_matches() {
    assert!(StatusFilter::All.matches(TaskStatus::Blocked));
    assert!(StatusFilter::Doing.matches(TaskStatus::Doing));
    assert!(!StatusFilter::Doing.matches(TaskStatus::Done));
    assert!(StatusFilter::Blocked.matches(TaskStatus::Blocked));
    let labels: Vec<&str> = StatusFilter::all().into_iter().map(|f| f.label()).collect();
    assert_eq!(labels, vec!["All", "Todo", "Doing", "Done", "Blocked"]);
}

#[test]
fn sort_mode_labels() {
    let labels: Vec<&str> = SortMode::all().into_iter().map(|m| m.label()).collect();
    assert_eq!(labels, vec!["Manual", "Newest", "Oldest", "Due date", "Priority", "A-Z"]);
}

#[test]
fn quick_date_matches() {
    let today = "2024-05-10";
    let week_end = "2024-05-12";
    let no_date = Task::new("x".to_string());
    assert!(QuickDate::Anytime.matches(&no_date, today, week_end));
    assert!(!QuickDate::Today.matches(&no_date, today, week_end));
    assert!(!QuickDate::Overdue.matches(&no_date, today, week_end));
    assert!(!QuickDate::ThisWeek.matches(&no_date, today, week_end));

    assert!(QuickDate::Today.matches(&due("2024-05-10"), today, week_end));
    assert!(!QuickDate::Today.matches(&due("2024-05-11"), today, week_end));
    assert!(QuickDate::Overdue.matches(&due("2024-05-09"), today, week_end));
    assert!(QuickDate::Overdue.matches(&due("2023-12-31"), today, week_end));
    assert!(!QuickDate::Overdue.matches(&due("2024-05-10"), today, week_end));
    assert!(QuickDate::ThisWeek.matches(&due("2024-05-10"), today, week_end));
    assert!(QuickDate::ThisWeek.matches(&due("2024-05-12"), today, week_end));
    assert!(!QuickDate::ThisWeek.matches(&due("2024-05-13"), today, week_end));
    assert!(!QuickDate::ThisWeek.matches(&due("2024-05-09"), today, week_end));
    // A prefix sorts first.
    assert!(QuickDate::Overdue.matches(&due("2024-05"), today, week_end));
    let labels: Vec<&str> = QuickDate::all().into_iter().map(|q| q.label()).collect();
    assert_eq!(labels, vec!["None", "Today", "Overdue", "This week"]);
}

#[test]
fn theme_mode_toggles() {
    assert_eq!(ThemeMode::Dark.toggled(), ThemeMode::Light);
    assert_eq!(ThemeMode::Light.toggled(), ThemeMode::Dark);
    assert_eq!(ThemeMode::Dark.toggled().toggled(), ThemeMode::Dark);
    assert_eq!(ThemeMode::Dark.label(), "Dark mode");
    assert_eq!(ThemeMode::Light.label(), "Light mode");
    assert_eq!(ThemeMode::default(), ThemeMode::Dark);
}
