//! What the state does once the host has written or read a task file.
use vstd::prelude::*;
use crate::app::state::{Taskscape, TaskscapeView};
use crate::models::task::{Task, TaskView};
use crate::text::{decimal, decimal_text};

verus! {

/// The status line after loading `count` tasks from the file shown as `shown`.
pub open spec fn loaded_text(count: nat, shown: Seq<char>) -> Seq<char> {
    "Loaded "@ + decimal(count) + " tasks from "@ + shown + "."@
}

impl TaskscapeView {
    /// After writing the list: on success the history is dropped and the
    /// writer's message shown; on failure only the error is shown.
    pub open spec fn after_save(self, result: Result<Seq<char>, Seq<char>>) -> TaskscapeView {
        match result {
            Ok(text) => TaskscapeView {
                undo_stack: Seq::empty(),
                redo_stack: Seq::empty(),
                status_message: text,
                ..self
            },
            Err(text) => self.with_status(text),
        }
    }

    /// After reading a list: on success it replaces the current one, the
    /// history is dropped, the file's stem (when it has one) becomes the
    /// list's name, and the number of tasks is shown; on failure only the
    /// error is shown.
    pub open spec fn after_load(
        self,
        result: Result<Seq<TaskView>, Seq<char>>,
        stem: Option<Seq<char>>,
        shown: Seq<char>,
    ) -> TaskscapeView {
        match result {
            Ok(tasks) => TaskscapeView {
                undo_stack: Seq::empty(),
                redo_stack: Seq::empty(),
                tasks,
                file_name: match stem {
                    Some(name) => name,
                    None => self.file_name,
                },
                status_message: loaded_text(tasks.len(), shown),
                ..self
            },
            Err(text) => self.with_status(text),
        }
    }
}

pub open spec fn save_result_view(r: Result<String, String>) -> Result<Seq<char>, Seq<char>> {
    match r {
        Ok(t) => Ok(t@),
        Err(e) => Err(e@),
    }
}

pub open spec fn load_result_view(r: Result<Vec<Task>, String>) -> Result<
    Seq<TaskView>,
    Seq<char>,
> {
    match r {
        Ok(tasks) => Ok(tasks.deep_view()),
        Err(e) => Err(e@),
    }
}

impl Taskscape {
    /// Takes in the outcome of writing the list to a file.
    pub fn complete_save(&mut self, result: Result<String, String>)
        ensures
            final(self)@ == old(self)@.after_save(save_result_view(result)),
    {
        let ghost r = save_result_view(result);
        match result {
            Ok(text) => {
                self.undo_stack.clear();
                self.redo_stack.clear();
                self.status_message = text;
            },
            Err(text) => self.status_message = text,
        }
        assert(self@ =~= old(self)@.after_save(r));
    }

    /// Takes in the outcome of reading a list from a file; `stem` is the
    /// file's name without extension, `shown` how its path is displayed.
    pub fn complete_load(
        &mut self,
        result: Result<Vec<Task>, String>,
        stem: Option<String>,
        shown: &str,
    )
        ensures
            final(self)@ == old(self)@.after_load(
                load_result_view(result),
                crate::app::message::option_text(stem),
                shown@,
            ),
    {
        let ghost r = load_result_view(result);
        let ghost st = crate::app::message::option_text(stem);
        match result {
            Ok(tasks) => {
                self.undo_stack.clear();
                self.redo_stack.clear();
                let count = tasks.len();
                self.tasks = tasks;
                if let Some(name) = stem {
                    self.file_name = name;
                }
                self.status_message = String::from_str("Loaded ").concat(
                    decimal_text(count).as_str(),
                ).concat(" tasks from ").concat(shown).concat(".");
            },
            Err(text) => self.status_message = text,
        }
        assert(self@ =~= old(self)@.after_load(r, st, shown@));
    }
}

} // verus!
