//! The first, minimal version of the app: a text field, an "Add" button that
//! appends the typed text as a task, and a "Clear" button.
use vstd::prelude::*;
use crate::text::{trim_text, trimmed};

verus! {

/// The starter app's state: what is typed, and the tasks added so far.
pub struct Taskscape {
    pub input_value: String,
    pub tasks: Vec<String>,
}

/// The model of the starter app's state.
pub struct StarterView {
    pub input_value: Seq<char>,
    pub tasks: Seq<Seq<char>>,
}

impl View for Taskscape {
    type V = StarterView;

    open spec fn view(&self) -> StarterView {
        StarterView { input_value: self.input_value@, tasks: self.tasks.deep_view() }
    }
}

/// What the starter app reacts to.
#[derive(Debug)]
pub enum Message {
    InputChanged(String),
    AddTask,
    ClearTasks,
}

pub enum MessageView {
    InputChanged(Seq<char>),
    AddTask,
    ClearTasks,
}

impl DeepView for Message {
    type V = MessageView;

    open spec fn deep_view(&self) -> MessageView {
        match self {
            Message::InputChanged(v) => MessageView::InputChanged(v@),
            Message::AddTask => MessageView::AddTask,
            Message::ClearTasks => MessageView::ClearTasks,
        }
    }
}

impl StarterView {
    /// The state after a message: typing replaces the input; adding appends
    /// the input as typed (not trimmed) and empties it, unless the input is
    /// blank, which adds nothing; clearing drops every task.
    pub open spec fn after(self, m: MessageView) -> StarterView {
        match m {
            MessageView::InputChanged(v) => StarterView { input_value: v, ..self },
            MessageView::AddTask => if trimmed(self.input_value).len() == 0 {
                self
            } else {
                StarterView { tasks: self.tasks.push(self.input_value), input_value: Seq::empty() }
            },
            MessageView::ClearTasks => StarterView { tasks: Seq::empty(), ..self },
        }
    }
}

impl Taskscape {
    /// An empty input and no tasks.
    pub fn new() -> (s: Taskscape)
        ensures
            s@.input_value.len() == 0,
            s@.tasks.len() == 0,
    {
        Taskscape { input_value: String::new(), tasks: Vec::new() }
    }

    /// The window title.
    pub fn title(&self) -> (s: String)
        ensures
            s@ == "Taskscape"@,
    {
        String::from_str("Taskscape")
    }

    /// Reacts to a message.
    pub fn update(&mut self, message: Message)
        ensures
            final(self)@ == old(self)@.after(message.deep_view()),
    {
        match message {
            Message::InputChanged(value) => {
                self.input_value = value;
            },
            Message::AddTask => {
                let trimmed_input = trim_text(self.input_value.as_str());
                if trimmed_input.unicode_len() > 0 {
                    let typed = self.input_value.clone();
                    self.tasks.push(typed);
                    self.input_value = String::new();
                    assert(self@.tasks =~= old(self)@.tasks.push(old(self)@.input_value));
                }
            },
            Message::ClearTasks => {
                self.tasks = Vec::new();
                assert(self@.tasks =~= Seq::<Seq<char>>::empty());
            },
        }
    }
}

/// Adding a task keeps every earlier task in place and puts the typed text
/// last; clearing after any message leaves no task.
pub proof fn law_starter_add_appends(s: StarterView, m: MessageView)
    ensures
        trimmed(s.input_value).len() > 0 ==> s.after(MessageView::AddTask).tasks == s.tasks.push(
            s.input_value,
        ),
        s.after(m).after(MessageView::ClearTasks).tasks.len() == 0,
        trimmed(s.input_value).len() == 0 ==> s.after(MessageView::AddTask) == s,
{
}

} // verus!
