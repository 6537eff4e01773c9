//! The response envelope that every operation answers with, and the two kinds
//! of failure that the store can report.

use vstd::prelude::*;
use crate::entity::{List, Task};

verus! {

/// Why an operation on the store did not go through.
#[derive(Clone, Debug, PartialEq, Eq)]
pub enum StoreError {
    /// No connection could be opened: the store is unreachable or refuses us.
    Connection(String),
    /// The connection stood, and the store refused or could not answer the
    /// query: a broken constraint, no row where one was required.
    Query(String),
}

/// What the store itself said of the failure; may be empty.
pub open spec fn detail_of(err: StoreError) -> Seq<char> {
    match err {
        StoreError::Connection(detail) => detail@,
        StoreError::Query(detail) => detail@,
    }
}

/// The text a client is shown for a failure: the store's own words, or a
/// fixed sentence where it gave none, so that the text is never empty.
pub open spec fn description(err: StoreError) -> Seq<char> {
    if detail_of(err).len() == 0 {
        "The store gave no detail."@
    } else {
        detail_of(err)
    }
}

/// The text for a failure of an operation that names its queries: a query
/// that failed is reported under that name, a connection that failed in the
/// store's own words.
pub open spec fn description_in(err: StoreError, context: Seq<char>) -> Seq<char> {
    match err {
        StoreError::Connection(_) => description(err),
        StoreError::Query(_) => context,
    }
}

impl StoreError {
    /// The text a client is shown for this failure.
    pub fn describe(self) -> (text: String)
        ensures
            text@ == description(self),
            text@.len() > 0,
    {
        proof {
            reveal_strlit("The store gave no detail.");
        }
        let detail = match self {
            StoreError::Connection(detail) => detail,
            StoreError::Query(detail) => detail,
        };
        if detail.as_str().is_empty() {
            "The store gave no detail.".to_owned()
        } else {
            detail
        }
    }

    /// The text a client is shown for this failure of an operation whose
    /// queries go under the name `context`.
    pub fn describe_in(self, context: &str) -> (text: String)
        ensures
            text@ == description_in(self, context@),
            context@.len() > 0 ==> text@.len() > 0,
    {
        match self {
            StoreError::Connection(detail) => StoreError::Connection(detail).describe(),
            StoreError::Query(_) => context.to_owned(),
        }
    }
}

/// Answer to an operation on one task.
#[derive(Clone, Debug, PartialEq, Eq)]
pub struct TaskResponse {
    pub successful: bool,
    pub message: String,
    pub task: Option<Task>,
}

/// Answer to an operation on one list.
#[derive(Clone, Debug, PartialEq, Eq)]
pub struct ListResponse {
    pub successful: bool,
    pub message: String,
    pub list: Option<List>,
}

/// Answer to a request for a number of tasks.
#[derive(Clone, Debug, PartialEq, Eq)]
pub struct CountResponse {
    pub successful: bool,
    pub message: String,
    pub count: i64,
}

/// Answer to a request for the identifiers of tasks.
#[derive(Clone, Debug, PartialEq, Eq)]
pub struct TaskIdResponse {
    pub successful: bool,
    pub message: String,
    pub ids: Vec<String>,
}

/// Answer to a request for the identifiers of lists.
#[derive(Clone, Debug, PartialEq, Eq)]
pub struct ListIdResponse {
    pub successful: bool,
    pub message: String,
    pub ids: Vec<String>,
}

/// The task answer to a failure: no task, and the given text.
pub open spec fn task_failure(response: TaskResponse, text: Seq<char>) -> bool {
    &&& !response.successful
    &&& response.message@ == text
    &&& response.task is None
}

/// The task answer to a success: the given text and task.
pub open spec fn task_success(response: TaskResponse, text: Seq<char>, task: Option<Task>) -> bool {
    &&& response.successful
    &&& response.message@ == text
    &&& response.task == task
}

/// The list answer to a failure: no list, and the given text.
pub open spec fn list_failure(response: ListResponse, text: Seq<char>) -> bool {
    &&& !response.successful
    &&& response.message@ == text
    &&& response.list is None
}

/// The list answer to a success: the given text and list.
pub open spec fn list_success(response: ListResponse, text: Seq<char>, list: Option<List>) -> bool {
    &&& response.successful
    &&& response.message@ == text
    &&& response.list == list
}

} // verus!
