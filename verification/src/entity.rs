//! The two entities, each in the form that clients exchange and in the form
//! that the store keeps, and the conversions between the two forms.

use vstd::prelude::*;
use vstd::std_specs::convert::FromSpecImpl;

verus! {

/// A task as clients send and receive it.
#[derive(Debug, PartialEq, Eq)]
pub struct Task {
    pub id: String,
    pub parent_list: String,
    pub title: String,
    pub body: String,
    pub completed_on: Option<i64>,
    pub due_date: Option<i64>,
    pub importance: i32,
    pub favorite: bool,
    pub is_reminder_on: bool,
    pub reminder_date: Option<i64>,
    pub status: i32,
    pub created_date_time: i64,
    pub last_modified_date_time: i64,
}

/// A task as one row of the table `tasks`, keyed by `id_task`.
#[derive(Debug, PartialEq, Eq)]
pub struct QueryableTask {
    pub id_task: String,
    pub parent_list: String,
    pub title: String,
    pub body: String,
    pub completed_on: Option<i64>,
    pub due_date: Option<i64>,
    pub importance: i32,
    pub favorite: bool,
    pub is_reminder_on: bool,
    pub reminder_date: Option<i64>,
    pub status: i32,
    pub created_date_time: i64,
    pub last_modified_date_time: i64,
}

/// A list as clients send and receive it.
#[derive(Debug, PartialEq, Eq)]
pub struct List {
    pub id: String,
    pub name: String,
    pub is_owner: bool,
    pub icon_name: String,
    pub provider: String,
}

/// A list as one row of the table `lists`, keyed by `id_list`.
#[derive(Debug, PartialEq, Eq)]
pub struct QueryableList {
    pub id_list: String,
    pub name: String,
    pub is_owner: bool,
    pub icon_name: String,
    pub provider: String,
}

/// The row that stands for a task: every field carried over under its
/// column's name, nothing defaulted and nothing checked.
pub open spec fn task_to_row(task: Task) -> QueryableTask {
    QueryableTask {
        id_task: task.id,
        parent_list: task.parent_list,
        title: task.title,
        body: task.body,
        completed_on: task.completed_on,
        due_date: task.due_date,
        importance: task.importance,
        favorite: task.favorite,
        is_reminder_on: task.is_reminder_on,
        reminder_date: task.reminder_date,
        status: task.status,
        created_date_time: task.created_date_time,
        last_modified_date_time: task.last_modified_date_time,
    }
}

/// The task that a row stands for.
pub open spec fn row_to_task(row: QueryableTask) -> Task {
    Task {
        id: row.id_task,
        parent_list: row.parent_list,
        title: row.title,
        body: row.body,
        completed_on: row.completed_on,
        due_date: row.due_date,
        importance: row.importance,
        favorite: row.favorite,
        is_reminder_on: row.is_reminder_on,
        reminder_date: row.reminder_date,
        status: row.status,
        created_date_time: row.created_date_time,
        last_modified_date_time: row.last_modified_date_time,
    }
}

/// The row that stands for a list.
pub open spec fn list_to_row(list: List) -> QueryableList {
    QueryableList {
        id_list: list.id,
        name: list.name,
        is_owner: list.is_owner,
        icon_name: list.icon_name,
        provider: list.provider,
    }
}

/// The list that a row stands for.
pub open spec fn row_to_list(row: QueryableList) -> List {
    List {
        id: row.id_list,
        name: row.name,
        is_owner: row.is_owner,
        icon_name: row.icon_name,
        provider: row.provider,
    }
}

impl Clone for Task {
    fn clone(&self) -> (copy: Self)
        ensures
            copy == *self,
    {
        Task {
            id: self.id.clone(),
            parent_list: self.parent_list.clone(),
            title: self.title.clone(),
            body: self.body.clone(),
            completed_on: self.completed_on,
            due_date: self.due_date,
            importance: self.importance,
            favorite: self.favorite,
            is_reminder_on: self.is_reminder_on,
            reminder_date: self.reminder_date,
            status: self.status,
            created_date_time: self.created_date_time,
            last_modified_date_time: self.last_modified_date_time,
        }
    }
}

impl Clone for QueryableTask {
    fn clone(&self) -> (copy: Self)
        ensures
            copy == *self,
    {
        QueryableTask {
            id_task: self.id_task.clone(),
            parent_list: self.parent_list.clone(),
            title: self.title.clone(),
            body: self.body.clone(),
            completed_on: self.completed_on,
            due_date: self.due_date,
            importance: self.importance,
            favorite: self.favorite,
            is_reminder_on: self.is_reminder_on,
            reminder_date: self.reminder_date,
            status: self.status,
            created_date_time: self.created_date_time,
            last_modified_date_time: self.last_modified_date_time,
        }
    }
}

impl Clone for List {
    fn clone(&self) -> (copy: Self)
        ensures
            copy == *self,
    {
        List {
            id: self.id.clone(),
            name: self.name.clone(),
            is_owner: self.is_owner,
            icon_name: self.icon_name.clone(),
            provider: self.provider.clone(),
        }
    }
}

impl Clone for QueryableList {
    fn clone(&self) -> (copy: Self)
        ensures
            copy == *self,
    {
        QueryableList {
            id_list: self.id_list.clone(),
            name: self.name.clone(),
            is_owner: self.is_owner,
            icon_name: self.icon_name.clone(),
            provider: self.provider.clone(),
        }
    }
}

impl From<Task> for QueryableTask {
    fn from(task: Task) -> (row: QueryableTask) {
        QueryableTask {
            id_task: task.id,
            parent_list: task.parent_list,
            title: task.title,
            body: task.body,
            completed_on: task.completed_on,
            due_date: task.due_date,
            importance: task.importance,
            favorite: task.favorite,
            is_reminder_on: task.is_reminder_on,
            reminder_date: task.reminder_date,
            status: task.status,
            created_date_time: task.created_date_time,
            last_modified_date_time: task.last_modified_date_time,
        }
    }
}

impl FromSpecImpl<Task> for QueryableTask {
    open spec fn obeys_from_spec() -> bool {
        true
    }

    open spec fn from_spec(task: Task) -> QueryableTask {
        task_to_row(task)
    }
}

impl From<QueryableTask> for Task {
    fn from(row: QueryableTask) -> (task: Task) {
        Task {
            id: row.id_task,
            parent_list: row.parent_list,
            title: row.title,
            body: row.body,
            completed_on: row.completed_on,
            due_date: row.due_date,
            importance: row.importance,
            favorite: row.favorite,
            is_reminder_on: row.is_reminder_on,
            reminder_date: row.reminder_date,
            status: row.status,
            created_date_time: row.created_date_time,
            last_modified_date_time: row.last_modified_date_time,
        }
    }
}

impl FromSpecImpl<QueryableTask> for Task {
    open spec fn obeys_from_spec() -> bool {
        true
    }

    open spec fn from_spec(row: QueryableTask) -> Task {
        row_to_task(row)
    }
}

impl From<List> for QueryableList {
    fn from(list: List) -> (row: QueryableList) {
        QueryableList {
            id_list: list.id,
            name: list.name,
            is_owner: list.is_owner,
            icon_name: list.icon_name,
            provider: list.provider,
        }
    }
}

impl FromSpecImpl<List> for QueryableList {
    open spec fn obeys_from_spec() -> bool {
        true
    }

    open spec fn from_spec(list: List) -> QueryableList {
        list_to_row(list)
    }
}

impl From<QueryableList> for List {
    fn from(row: QueryableList) -> (list: List) {
        List {
            id: row.id_list,
            name: row.name,
            is_owner: row.is_owner,
            icon_name: row.icon_name,
            provider: row.provider,
        }
    }
}

impl FromSpecImpl<QueryableList> for List {
    open spec fn obeys_from_spec() -> bool {
        true
    }

    open spec fn from_spec(row: QueryableList) -> List {
        row_to_list(row)
    }
}

/// A task that goes to the store and comes back is the task that went.
pub proof fn task_survives_storage(task: Task)
    ensures
        row_to_task(task_to_row(task)) == task,
{
}

/// A task row that goes to the wire and comes back is the row that went.
pub proof fn task_row_survives_wire(row: QueryableTask)
    ensures
        task_to_row(row_to_task(row)) == row,
{
}

/// A list that goes to the store and comes back is the list that went.
pub proof fn list_survives_storage(list: List)
    ensures
        row_to_list(list_to_row(list)) == list,
{
}

/// A list row that goes to the wire and comes back is the row that went.
pub proof fn list_row_survives_wire(row: QueryableList)
    ensures
        list_to_row(row_to_list(row)) == row,
{
}

} // verus!
