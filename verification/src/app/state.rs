//! The application state shared by the main window app and the tray service,
//! and its mathematical model.
use vstd::prelude::*;
use crate::app::snapshot::AppSnapshot;
use crate::models::task::{Task, TaskView, new_task_view};
use crate::text::trimmed;
use crate::theme::ThemeMode;

verus! {

/// Which of the two processes this instance is.
#[derive(Debug, Clone, Copy, PartialEq, Eq, Structural)]
pub enum AppRole {
    /// The main-window app: source of truth, client of the link.
    Main,
    /// The background service: menu bar icon, compact window and hotkey,
    /// server of the link.
    Tray,
}

/// The state of one process. Windows are identified by number.
#[derive(Debug)]
pub struct Taskscape {
    pub role: AppRole,
    pub window_id: Option<u64>,
    /// The compact window toggled from the menu bar icon, while it is open.
    pub mini_window_id: Option<u64>,
    pub theme_mode: ThemeMode,
    /// The title being typed for the next task.
    pub title_input: String,
    pub due_date_input: String,
    pub status_message: String,
    pub undo_stack: Vec<AppSnapshot>,
    pub redo_stack: Vec<AppSnapshot>,
    pub tasks: Vec<Task>,
    pub file_name: String,
    /// The file name while it is being edited.
    pub file_name_editing: String,
    pub editing_title: bool,
    /// Whether the peer process is linked.
    pub ipc_connected: bool,
    /// Set while a change received from the peer is being applied.
    pub applying_remote: bool,
}

/// The model of [`Taskscape`]: texts as character sequences, task lists as
/// sequences of task contents, and each history stack as the sequence of
/// saved lists, oldest first.
#[verifier::ext_equal]
pub struct TaskscapeView {
    pub role: AppRole,
    pub window_id: Option<u64>,
    pub mini_window_id: Option<u64>,
    pub theme_mode: ThemeMode,
    pub title_input: Seq<char>,
    pub due_date_input: Seq<char>,
    pub status_message: Seq<char>,
    pub undo_stack: Seq<Seq<TaskView>>,
    pub redo_stack: Seq<Seq<TaskView>>,
    pub tasks: Seq<TaskView>,
    pub file_name: Seq<char>,
    pub file_name_editing: Seq<char>,
    pub editing_title: bool,
    pub ipc_connected: bool,
    pub applying_remote: bool,
}

impl View for Taskscape {
    type V = TaskscapeView;

    open spec fn view(&self) -> TaskscapeView {
        TaskscapeView {
            role: self.role,
            window_id: self.window_id,
            mini_window_id: self.mini_window_id,
            theme_mode: self.theme_mode,
            title_input: self.title_input@,
            due_date_input: self.due_date_input@,
            status_message: self.status_message@,
            undo_stack: self.undo_stack.deep_view(),
            redo_stack: self.redo_stack.deep_view(),
            tasks: self.tasks.deep_view(),
            file_name: self.file_name@,
            file_name_editing: self.file_name_editing@,
            editing_title: self.editing_title,
            ipc_connected: self.ipc_connected,
            applying_remote: self.applying_remote,
        }
    }
}

/// The status line of a fresh state.
pub open spec fn ready_text() -> Seq<char> {
    "Ready."@
}

/// The name of a list that was never saved or loaded.
pub open spec fn untitled_text() -> Seq<char> {
    "Untitled"@
}

/// Whether a task is still open.
pub open spec fn is_open(t: TaskView) -> bool {
    !t.completed
}

/// Whether a task is done.
pub open spec fn is_done(t: TaskView) -> bool {
    t.completed
}

/// The state a process starts in.
pub open spec fn initial_view(role: AppRole) -> TaskscapeView {
    TaskscapeView {
        role,
        window_id: None,
        mini_window_id: None,
        theme_mode: ThemeMode::Dark,
        title_input: Seq::empty(),
        due_date_input: Seq::empty(),
        status_message: ready_text(),
        undo_stack: Seq::empty(),
        redo_stack: Seq::empty(),
        tasks: Seq::empty(),
        file_name: untitled_text(),
        file_name_editing: untitled_text(),
        editing_title: false,
        ipc_connected: false,
        applying_remote: false,
    }
}

impl TaskscapeView {
    pub open spec fn with_status(self, text: Seq<char>) -> TaskscapeView {
        TaskscapeView { status_message: text, ..self }
    }

    /// The current list saved on the undo stack; the redo stack emptied.
    pub open spec fn pushed_history(self) -> TaskscapeView {
        TaskscapeView {
            undo_stack: self.undo_stack.push(self.tasks),
            redo_stack: Seq::empty(),
            ..self
        }
    }

    /// Adds a task titled with the trimmed composer input, unless that is
    /// empty; the inputs are cleared.
    pub open spec fn after_add_task(self) -> TaskscapeView {
        let title = trimmed(self.title_input);
        if title.len() == 0 {
            self
        } else {
            let s = self.pushed_history();
            TaskscapeView {
                tasks: s.tasks.push(new_task_view(title)),
                title_input: Seq::empty(),
                due_date_input: Seq::empty(),
                status_message: "Task added."@,
                ..s
            }
        }
    }

    /// Adds a task with the given title as is, unless it is only white space.
    pub open spec fn after_add_task_with_title(self, title: Seq<char>) -> TaskscapeView {
        if trimmed(title).len() == 0 {
            self
        } else {
            let s = self.pushed_history();
            TaskscapeView {
                tasks: s.tasks.push(new_task_view(title)),
                status_message: "Task added."@,
                ..s
            }
        }
    }

    /// Removes the task at `index`, if there is one.
    pub open spec fn after_remove_task(self, index: usize) -> TaskscapeView {
        if index >= self.tasks.len() {
            self
        } else {
            let s = self.pushed_history();
            TaskscapeView {
                tasks: s.tasks.remove(index as int),
                status_message: "Task removed."@,
                ..s
            }
        }
    }

    /// Marks the task at `index`, if there is one, complete or open.
    pub open spec fn after_toggle_task(self, index: usize, completed: bool) -> TaskscapeView {
        if index >= self.tasks.len() {
            self
        } else {
            let s = self.pushed_history();
            TaskscapeView {
                tasks: s.tasks.update(
                    index as int,
                    TaskView { completed, ..s.tasks[index as int] },
                ),
                status_message: if completed {
                    "Task marked complete."@
                } else {
                    "Task marked open."@
                },
                ..s
            }
        }
    }

    /// Keeps only the open tasks, in order.
    pub open spec fn after_clear_completed(self) -> TaskscapeView {
        let s = self.pushed_history();
        TaskscapeView {
            tasks: s.tasks.filter(|t: TaskView| is_open(t)),
            status_message: "Completed tasks removed."@,
            ..s
        }
    }

    /// Removes every task.
    pub open spec fn after_clear_all(self) -> TaskscapeView {
        let s = self.pushed_history();
        TaskscapeView { tasks: Seq::empty(), status_message: "All tasks removed."@, ..s }
    }

    /// Goes back to the list before the last change, if there is one; the
    /// current list moves to the redo stack.
    pub open spec fn after_undo(self) -> TaskscapeView {
        if self.undo_stack.len() == 0 {
            self
        } else {
            TaskscapeView {
                tasks: self.undo_stack.last(),
                undo_stack: self.undo_stack.drop_last(),
                redo_stack: self.redo_stack.push(self.tasks),
                status_message: "Undid the last change."@,
                ..self
            }
        }
    }

    /// Goes forward to the list before the last undo, if there is one; the
    /// current list moves to the undo stack.
    pub open spec fn after_redo(self) -> TaskscapeView {
        if self.redo_stack.len() == 0 {
            self
        } else {
            TaskscapeView {
                tasks: self.redo_stack.last(),
                redo_stack: self.redo_stack.drop_last(),
                undo_stack: self.undo_stack.push(self.tasks),
                status_message: "Restored the undone change."@,
                ..self
            }
        }
    }

    /// Starts an empty list with no history, showing `status`.
    pub open spec fn after_new_list(self, status: Seq<char>) -> TaskscapeView {
        TaskscapeView {
            undo_stack: Seq::empty(),
            redo_stack: Seq::empty(),
            tasks: Seq::empty(),
            status_message: status,
            ..self
        }
    }

    /// The number of open tasks.
    pub open spec fn open_count(self) -> nat {
        self.tasks.filter(|t: TaskView| is_open(t)).len()
    }

    /// The number of completed tasks.
    pub open spec fn completed_count(self) -> nat {
        self.tasks.filter(|t: TaskView| is_done(t)).len()
    }
}

impl Taskscape {
    /// A fresh state for the given role: dark theme, no tasks, no history,
    /// an untitled list and "Ready." in the status line.
    pub fn new(role: AppRole) -> (s: Taskscape)
        ensures
            s@ == initial_view(role),
    {
        let s = Taskscape {
            role,
            window_id: None,
            mini_window_id: None,
            theme_mode: ThemeMode::Dark,
            title_input: String::new(),
            due_date_input: String::new(),
            status_message: String::from_str("Ready."),
            undo_stack: Vec::new(),
            redo_stack: Vec::new(),
            tasks: Vec::new(),
            file_name: String::from_str("Untitled"),
            file_name_editing: String::from_str("Untitled"),
            editing_title: false,
            ipc_connected: false,
            applying_remote: false,
        };
        assert(s@ =~= initial_view(role));
        s
    }

    /// Whether some text is being edited in place.
    pub fn is_any_editing(&self) -> (b: bool)
        ensures
            b == self.editing_title,
    {
        self.editing_title
    }

    /// The title of a window: the compact window has its own.
    pub fn title(&self, window: u64) -> (s: String)
        ensures
            s@ == if self.mini_window_id == Some(window) {
                "Taskscape Mini"@
            } else {
                "Taskscape"@
            },
    {
        if self.mini_window_id == Some(window) {
            String::from_str("Taskscape Mini")
        } else {
            String::from_str("Taskscape")
        }
    }
}

} // verus!
