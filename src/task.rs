use vstd::prelude::*;

use crate::list::opt_view;

verus! {

#[derive(Clone, Copy, Debug, PartialEq, Eq, Structural)]
pub enum TaskStatus {
    NotStarted,
    Completed,
}

/// The canonical task record. Dates are seconds since the Unix epoch.
#[derive(Debug)]
pub struct Task {
    pub id: String,
    pub title: String,
    pub status: TaskStatus,
    pub favorite: bool,
    pub due_date: Option<i64>,
    pub reminder_date: Option<i64>,
    pub list_id: String,
    pub notes: Option<String>,
    pub priority: i32,
}

/// The abstract value of a `Task`.
pub struct TaskModel {
    pub id: Seq<char>,
    pub title: Seq<char>,
    pub status: TaskStatus,
    pub favorite: bool,
    pub due_date: Option<i64>,
    pub reminder_date: Option<i64>,
    pub list_id: Seq<char>,
    pub notes: Option<Seq<char>>,
    pub priority: i32,
}

impl View for Task {
    type V = TaskModel;

    open spec fn view(&self) -> TaskModel {
        TaskModel {
            id: self.id@,
            title: self.title@,
            status: self.status,
            favorite: self.favorite,
            due_date: self.due_date,
            reminder_date: self.reminder_date,
            list_id: self.list_id@,
            notes: opt_view(self.notes),
            priority: self.priority,
        }
    }
}

impl Clone for Task {
    fn clone(&self) -> (r: Task)
        ensures
            r@ == self@,
    {
        Task {
            id: self.id.clone(),
            title: self.title.clone(),
            status: self.status,
            favorite: self.favorite,
            due_date: self.due_date,
            reminder_date: self.reminder_date,
            list_id: self.list_id.clone(),
            notes: crate::list::clone_opt_string(&self.notes),
            priority: self.priority,
        }
    }
}

} // verus!
