pub mod completion_filter;
pub mod priority;
pub mod priority_filter;
pub mod quick_date;
pub mod sort_mode;
pub mod status_filter;
pub mod task;
