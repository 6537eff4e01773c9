//! What an operation asks of the store, and what the store answers.

use vstd::prelude::*;
use crate::entity::{QueryableList, QueryableTask};
use crate::response::StoreError;

verus! {

/// Which rows of the table `tasks` a query speaks of.
#[derive(Clone, Debug, PartialEq, Eq)]
pub enum TaskFilter {
    /// Every row.
    All,
    /// The rows whose column `parent_list` holds this identifier.
    ParentListIs(String),
    /// The rows whose key `id_task` is this identifier.
    IdIs(String),
}

/// Which column of a task a count matches its argument against.
#[derive(Clone, Copy, Debug, PartialEq, Eq)]
pub enum CountBy {
    /// The task's own key, `id_task`.
    TaskKey,
    /// The list that the task points back to, `parent_list`.
    ParentList,
}

/// The filter of a count of tasks under the given choice of column.
pub open spec fn count_filter(by: CountBy, id: String) -> TaskFilter {
    match by {
        CountBy::TaskKey => TaskFilter::IdIs(id),
        CountBy::ParentList => TaskFilter::ParentListIs(id),
    }
}

/// Which rows of the table `lists` a query speaks of.
#[derive(Clone, Debug, PartialEq, Eq)]
pub enum ListFilter {
    /// Every row.
    All,
    /// The rows whose key `id_list` is this identifier.
    IdIs(String),
}

/// One query or mutation, on one of the two tables.
#[derive(Clone, Debug, PartialEq, Eq)]
pub enum Query {
    /// The selected task rows, whole, in the store's order.
    LoadTasks(TaskFilter),
    /// The keys of the selected task rows, in the store's order.
    TaskIds(TaskFilter),
    /// How many task rows are selected.
    CountTasks(TaskFilter),
    /// The first selected task row; a failure where there is none.
    FirstTask(TaskFilter),
    /// One new task row.
    InsertTask(QueryableTask),
    /// Every column of each selected task row replaced by the given row's.
    UpdateTasks(TaskFilter, QueryableTask),
    /// The selected task rows removed, however many there are.
    DeleteTasks(TaskFilter),
    /// The selected list rows, whole, in the store's order.
    LoadLists(ListFilter),
    /// The keys of the selected list rows, in the store's order.
    ListIds(ListFilter),
    /// The first selected list row; a failure where there is none.
    FirstList(ListFilter),
    /// One new list row.
    InsertList(QueryableList),
    /// Every column of each selected list row replaced by the given row's.
    UpdateLists(ListFilter, QueryableList),
    /// The selected list rows removed, however many there are.
    DeleteLists(ListFilter),
}

/// What the store hands back for a query that went through.
#[derive(Clone, Debug, PartialEq, Eq)]
pub enum Reply {
    Tasks(Vec<QueryableTask>),
    Lists(Vec<QueryableList>),
    Ids(Vec<String>),
    Count(i64),
    Task(QueryableTask),
    List(QueryableList),
    Done,
}

/// Whether a task row is among those that the filter selects.
pub open spec fn task_selected(filter: TaskFilter, row: QueryableTask) -> bool {
    match filter {
        TaskFilter::All => true,
        TaskFilter::ParentListIs(id) => row.parent_list@ == id@,
        TaskFilter::IdIs(id) => row.id_task@ == id@,
    }
}

/// Whether a list row is among those that the filter selects.
pub open spec fn list_selected(filter: ListFilter, row: QueryableList) -> bool {
    match filter {
        ListFilter::All => true,
        ListFilter::IdIs(id) => row.id_list@ == id@,
    }
}

/// The kind of answer that a query is owed when it goes through.
pub open spec fn answers(query: Query, reply: Reply) -> bool {
    match query {
        Query::LoadTasks(_) => reply is Tasks,
        Query::TaskIds(_) | Query::ListIds(_) => reply is Ids,
        Query::CountTasks(_) => reply is Count,
        Query::FirstTask(_) => reply is Task,
        Query::LoadLists(_) => reply is Lists,
        Query::FirstList(_) => reply is List,
        Query::InsertTask(_) | Query::UpdateTasks(_, _) | Query::DeleteTasks(_) => reply is Done,
        Query::InsertList(_) | Query::UpdateLists(_, _) | Query::DeleteLists(_) => reply is Done,
    }
}

/// The failure that stands for an answer of the wrong kind.
pub open spec fn is_mismatch(err: StoreError) -> bool {
    err matches StoreError::Query(detail) && detail@ == "The store answered another query."@
}

fn mismatch() -> (err: StoreError)
    ensures
        is_mismatch(err),
{
    StoreError::Query("The store answered another query.".to_owned())
}

impl TaskFilter {
    /// Whether `row` is among the rows that this filter selects.
    pub fn selects(&self, row: &QueryableTask) -> (hit: bool)
        ensures
            hit == task_selected(*self, *row),
    {
        match self {
            TaskFilter::All => true,
            TaskFilter::ParentListIs(id) => row.parent_list == *id,
            TaskFilter::IdIs(id) => row.id_task == *id,
        }
    }
}

impl ListFilter {
    /// Whether `row` is among the rows that this filter selects.
    pub fn selects(&self, row: &QueryableList) -> (hit: bool)
        ensures
            hit == list_selected(*self, *row),
    {
        match self {
            ListFilter::All => true,
            ListFilter::IdIs(id) => row.id_list == *id,
        }
    }
}

/// The task rows of an outcome; an answer of another kind is a failed query.
pub fn expect_tasks(outcome: Result<Reply, StoreError>) -> (rows: Result<Vec<QueryableTask>, StoreError>)
    ensures
        match outcome {
            Ok(Reply::Tasks(found)) => rows == Ok::<Vec<QueryableTask>, StoreError>(found),
            Ok(_) => rows is Err && is_mismatch(rows->Err_0),
            Err(err) => rows == Err::<Vec<QueryableTask>, StoreError>(err),
        },
{
    match outcome {
        Ok(Reply::Tasks(found)) => Ok(found),
        Ok(_) => Err(mismatch()),
        Err(err) => Err(err),
    }
}

/// The list rows of an outcome; an answer of another kind is a failed query.
pub fn expect_lists(outcome: Result<Reply, StoreError>) -> (rows: Result<Vec<QueryableList>, StoreError>)
    ensures
        match outcome {
            Ok(Reply::Lists(found)) => rows == Ok::<Vec<QueryableList>, StoreError>(found),
            Ok(_) => rows is Err && is_mismatch(rows->Err_0),
            Err(err) => rows == Err::<Vec<QueryableList>, StoreError>(err),
        },
{
    match outcome {
        Ok(Reply::Lists(found)) => Ok(found),
        Ok(_) => Err(mismatch()),
        Err(err) => Err(err),
    }
}

/// The keys of an outcome; an answer of another kind is a failed query.
pub fn expect_ids(outcome: Result<Reply, StoreError>) -> (ids: Result<Vec<String>, StoreError>)
    ensures
        match outcome {
            Ok(Reply::Ids(found)) => ids == Ok::<Vec<String>, StoreError>(found),
            Ok(_) => ids is Err && is_mismatch(ids->Err_0),
            Err(err) => ids == Err::<Vec<String>, StoreError>(err),
        },
{
    match outcome {
        Ok(Reply::Ids(found)) => Ok(found),
        Ok(_) => Err(mismatch()),
        Err(err) => Err(err),
    }
}

/// The number of an outcome; an answer of another kind is a failed query.
pub fn expect_count(outcome: Result<Reply, StoreError>) -> (count: Result<i64, StoreError>)
    ensures
        match outcome {
            Ok(Reply::Count(found)) => count == Ok::<i64, StoreError>(found),
            Ok(_) => count is Err && is_mismatch(count->Err_0),
            Err(err) => count == Err::<i64, StoreError>(err),
        },
{
    match outcome {
        Ok(Reply::Count(found)) => Ok(found),
        Ok(_) => Err(mismatch()),
        Err(err) => Err(err),
    }
}

/// The one task row of an outcome; an answer of another kind is a failed query.
pub fn expect_task(outcome: Result<Reply, StoreError>) -> (row: Result<QueryableTask, StoreError>)
    ensures
        match outcome {
            Ok(Reply::Task(found)) => row == Ok::<QueryableTask, StoreError>(found),
            Ok(_) => row is Err && is_mismatch(row->Err_0),
            Err(err) => row == Err::<QueryableTask, StoreError>(err),
        },
{
    match outcome {
        Ok(Reply::Task(found)) => Ok(found),
        Ok(_) => Err(mismatch()),
        Err(err) => Err(err),
    }
}

/// The one list row of an outcome; an answer of another kind is a failed query.
pub fn expect_list(outcome: Result<Reply, StoreError>) -> (row: Result<QueryableList, StoreError>)
    ensures
        match outcome {
            Ok(Reply::List(found)) => row == Ok::<QueryableList, StoreError>(found),
            Ok(_) => row is Err && is_mismatch(row->Err_0),
            Err(err) => row == Err::<QueryableList, StoreError>(err),
        },
{
    match outcome {
        Ok(Reply::List(found)) => Ok(found),
        Ok(_) => Err(mismatch()),
        Err(err) => Err(err),
    }
}

/// That a mutation went through; an answer of another kind is a failed query.
pub fn expect_done(outcome: Result<Reply, StoreError>) -> (done: Result<(), StoreError>)
    ensures
        match outcome {
            Ok(Reply::Done) => done is Ok,
            Ok(_) => done is Err && is_mismatch(done->Err_0),
            Err(err) => done == Err::<(), StoreError>(err),
        },
{
    match outcome {
        Ok(Reply::Done) => Ok(()),
        Ok(_) => Err(mismatch()),
        Err(err) => Err(err),
    }
}

} // verus!
