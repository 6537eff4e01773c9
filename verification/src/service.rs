//! The provider's operations. Each has two halves: the query it puts to the
//! store, and the answer it makes of what the store gave back. Whoever holds
//! the connection runs the query between the two.

use vstd::prelude::*;
use crate::entity::{row_to_list, row_to_task, task_to_row, list_to_row};
use crate::entity::{List, QueryableList, QueryableTask, Task};
use crate::query::{count_filter, CountBy, ListFilter, Query, TaskFilter};
use crate::response::{description, description_in, list_failure, list_success};
use crate::response::{task_failure, task_success};
use crate::response::{CountResponse, ListIdResponse, ListResponse, StoreError};
use crate::response::{TaskIdResponse, TaskResponse};

verus! {

/// A provider that keeps its tasks and lists in a local store. The four
/// strings are fixed when it is built and say what it is.
#[derive(Clone, Debug)]
pub struct LocalService {
    pub id: String,
    pub name: String,
    pub description: String,
    pub icon: String,
}

impl Default for LocalService {
    fn default() -> (service: LocalService)
        ensures
            service.id@.len() == 0,
            service.name@.len() == 0,
            service.description@.len() == 0,
            service.icon@.len() == 0,
    {
        LocalService {
            id: String::new(),
            name: String::new(),
            description: String::new(),
            icon: String::new(),
        }
    }
}

/// One message for each row, in the rows' order: each a success that carries
/// the row's task under the given text.
pub open spec fn are_task_messages(
    messages: Seq<TaskResponse>,
    rows: Seq<QueryableTask>,
    text: Seq<char>,
) -> bool {
    &&& messages.len() == rows.len()
    &&& forall|i: int|
        0 <= i < rows.len() ==> task_success(
            #[trigger] messages[i],
            text,
            Some(row_to_task(rows[i])),
        )
}

/// One message for each row, in the rows' order: each a success that carries
/// the row's list under the given text.
pub open spec fn are_list_messages(
    messages: Seq<ListResponse>,
    rows: Seq<QueryableList>,
    text: Seq<char>,
) -> bool {
    &&& messages.len() == rows.len()
    &&& forall|i: int|
        0 <= i < rows.len() ==> list_success(
            #[trigger] messages[i],
            text,
            Some(row_to_list(rows[i])),
        )
}

/// A stream that tells of a failed query: one message, a failure under the
/// given text, which is not empty.
pub open spec fn is_task_alarm(messages: Seq<TaskResponse>, text: Seq<char>) -> bool {
    &&& messages.len() == 1
    &&& task_failure(messages[0], text)
    &&& text.len() > 0
}

/// A stream that tells of a failed query: one message, a failure under the
/// given text, which is not empty.
pub open spec fn is_list_alarm(messages: Seq<ListResponse>, text: Seq<char>) -> bool {
    &&& messages.len() == 1
    &&& list_failure(messages[0], text)
    &&& text.len() > 0
}

fn task_alarm(text: String) -> (messages: Vec<TaskResponse>)
    requires
        text@.len() > 0,
    ensures
        is_task_alarm(messages@, text@),
{
    let mut messages: Vec<TaskResponse> = Vec::new();
    messages.push(TaskResponse { successful: false, message: text, task: None });
    messages
}

fn list_alarm(text: String) -> (messages: Vec<ListResponse>)
    requires
        text@.len() > 0,
    ensures
        is_list_alarm(messages@, text@),
{
    let mut messages: Vec<ListResponse> = Vec::new();
    messages.push(ListResponse { successful: false, message: text, list: None });
    messages
}

/// The answer owed to a request for one task, given what the store found.
pub open spec fn is_read_task_answer(
    outcome: Result<QueryableTask, StoreError>,
    response: TaskResponse,
) -> bool {
    match outcome {
        Ok(row) => task_success(response, "Task fetched successfully."@, Some(row_to_task(row))),
        Err(err) => task_failure(
            response,
            description_in(err, "Failed to fetch list of tasks."@),
        ),
    }
}

/// The answer owed to a request for one list, given what the store found.
pub open spec fn is_read_list_answer(
    outcome: Result<QueryableList, StoreError>,
    response: ListResponse,
) -> bool {
    match outcome {
        Ok(row) => list_success(response, "List fetched succesfully."@, Some(row_to_list(row))),
        Err(err) => list_failure(response, description(err)),
    }
}

/// The messages that a sequence of task rows is sent as.
pub fn task_messages(rows: &Vec<QueryableTask>, text: &str) -> (messages: Vec<TaskResponse>)
    ensures
        are_task_messages(messages@, rows@, text@),
{
    let mut messages: Vec<TaskResponse> = Vec::new();
    let mut i: usize = 0;
    while i < rows.len()
        invariant
            i <= rows.len(),
            are_task_messages(messages@, rows@.take(i as int), text@),
        decreases rows.len() - i,
    {
        let task = Task::from(rows[i].clone());
        messages.push(TaskResponse { successful: true, message: text.to_owned(), task: Some(task) });
        i += 1;
    }
    assert(rows@.take(i as int) == rows@);
    messages
}

/// The messages that a sequence of list rows is sent as.
pub fn list_messages(rows: &Vec<QueryableList>, text: &str) -> (messages: Vec<ListResponse>)
    ensures
        are_list_messages(messages@, rows@, text@),
{
    let mut messages: Vec<ListResponse> = Vec::new();
    let mut i: usize = 0;
    while i < rows.len()
        invariant
            i <= rows.len(),
            are_list_messages(messages@, rows@.take(i as int), text@),
        decreases rows.len() - i,
    {
        let list = List::from(rows[i].clone());
        messages.push(ListResponse { successful: true, message: text.to_owned(), list: Some(list) });
        i += 1;
    }
    assert(rows@.take(i as int) == rows@);
    messages
}

impl LocalService {
    /// The provider's identifier.
    pub fn get_id(&self) -> (id: String)
        ensures
            id == self.id,
    {
        self.id.clone()
    }

    /// The provider's display name.
    pub fn get_name(&self) -> (name: String)
        ensures
            name == self.name,
    {
        self.name.clone()
    }

    /// What the provider says of itself.
    pub fn get_description(&self) -> (description: String)
        ensures
            description == self.description,
    {
        self.description.clone()
    }

    /// The name of the provider's icon.
    pub fn get_icon_name(&self) -> (icon: String)
        ensures
            icon == self.icon,
    {
        self.icon.clone()
    }

    /// The query behind `read_all_tasks`: every task row.
    pub fn read_all_tasks_query(&self) -> (query: Query)
        ensures
            query == Query::LoadTasks(TaskFilter::All),
    {
        Query::LoadTasks(TaskFilter::All)
    }

    /// The messages to send for all tasks, in order: one for each row the
    /// store gave, so none for an empty table. Where the query failed, a
    /// single failure goes out in their place, so that a consumer can tell
    /// a failed query from an empty table.
    pub fn read_all_tasks(&self, outcome: Result<Vec<QueryableTask>, StoreError>) -> (messages: Vec<
        TaskResponse,
    >)
        ensures
            match outcome {
                Ok(rows) => are_task_messages(messages@, rows@, "Task fetched succesfully."@),
                Err(err) => is_task_alarm(
                    messages@,
                    description_in(err, "Failed to fetch list of tasks."@),
                ),
            },
    {
        proof {
            reveal_strlit("Failed to fetch list of tasks.");
        }
        match outcome {
            Ok(rows) => task_messages(&rows, "Task fetched succesfully."),
            Err(err) => task_alarm(err.describe_in("Failed to fetch list of tasks.")),
        }
    }

    /// The query behind `read_tasks_from_list`: the task rows that point
    /// back to the list `id`.
    pub fn read_tasks_from_list_query(&self, id: String) -> (query: Query)
        ensures
            query == Query::LoadTasks(TaskFilter::ParentListIs(id)),
    {
        Query::LoadTasks(TaskFilter::ParentListIs(id))
    }

    /// The messages to send for the tasks of one list, in order: one for each
    /// row the store gave, so none where no task points back to the list.
    /// Where the query failed, a single failure goes out in their place.
    pub fn read_tasks_from_list(&self, outcome: Result<Vec<QueryableTask>, StoreError>) -> (messages:
        Vec<TaskResponse>)
        ensures
            match outcome {
                Ok(rows) => are_task_messages(messages@, rows@, "Task fetched successfully"@),
                Err(err) => is_task_alarm(
                    messages@,
                    description_in(err, "Failed to fetch list of tasks."@),
                ),
            },
    {
        proof {
            reveal_strlit("Failed to fetch list of tasks.");
        }
        match outcome {
            Ok(rows) => task_messages(&rows, "Task fetched successfully"),
            Err(err) => task_alarm(err.describe_in("Failed to fetch list of tasks.")),
        }
    }

    /// The query behind `read_task_ids_from_list`: the keys of the task rows
    /// that point back to the list `id`.
    pub fn read_task_ids_from_list_query(&self, id: String) -> (query: Query)
        ensures
            query == Query::TaskIds(TaskFilter::ParentListIs(id)),
    {
        Query::TaskIds(TaskFilter::ParentListIs(id))
    }

    /// The answer to a request for the task keys of one list. A failure is
    /// reported under one fixed text, whatever the store said.
    pub fn read_task_ids_from_list(&self, outcome: Result<Vec<String>, StoreError>) -> (response:
        TaskIdResponse)
        ensures
            match outcome {
                Ok(ids) => {
                    &&& response.successful
                    &&& response.message@ == "Task identifiers fetched successfully."@
                    &&& response.ids == ids
                },
                Err(_) => {
                    &&& !response.successful
                    &&& response.message@ == "Failed to fetch list of tasks"@
                    &&& response.ids@.len() == 0
                },
            },
            response.message@.len() > 0,
    {
        proof {
            reveal_strlit("Task identifiers fetched successfully.");
            reveal_strlit("Failed to fetch list of tasks");
        }
        match outcome {
            Ok(ids) => TaskIdResponse {
                successful: true,
                message: "Task identifiers fetched successfully.".to_owned(),
                ids,
            },
            Err(_) => TaskIdResponse {
                successful: false,
                message: "Failed to fetch list of tasks".to_owned(),
                ids: Vec::new(),
            },
        }
    }

    /// A count of the tasks whose column chosen by `by` holds `id`.
    pub fn count_tasks_query(&self, by: CountBy, id: String) -> (query: Query)
        ensures
            query == Query::CountTasks(count_filter(by, id)),
    {
        match by {
            CountBy::TaskKey => Query::CountTasks(TaskFilter::IdIs(id)),
            CountBy::ParentList => Query::CountTasks(TaskFilter::ParentListIs(id)),
        }
    }

    /// The query behind `read_task_count_from_list`: how many task rows have
    /// `id` as their own key. The argument is matched against the tasks'
    /// keys (`CountBy::TaskKey`), not against the lists they point back to;
    /// a count by list is `count_tasks_query` with `CountBy::ParentList`.
    pub fn read_task_count_from_list_query(&self, id: String) -> (query: Query)
        ensures
            query == Query::CountTasks(TaskFilter::IdIs(id)),
    {
        self.count_tasks_query(CountBy::TaskKey, id)
    }

    /// The answer to a request for a number of tasks.
    pub fn read_task_count_from_list(&self, outcome: Result<i64, StoreError>) -> (response:
        CountResponse)
        ensures
            match outcome {
                Ok(count) => {
                    &&& response.successful
                    &&& response.message@ == "Task count fetched successfully."@
                    &&& response.count == count
                },
                Err(err) => {
                    &&& !response.successful
                    &&& response.message@ == description(err)
                    &&& response.count == 0
                },
            },
            response.message@.len() > 0,
    {
        proof {
            reveal_strlit("Task count fetched successfully.");
        }
        match outcome {
            Ok(count) => CountResponse {
                successful: true,
                message: "Task count fetched successfully.".to_owned(),
                count,
            },
            Err(err) => CountResponse { successful: false, message: err.describe(), count: 0 },
        }
    }

    /// The query behind `create_task`: one new row, the task's.
    pub fn create_task_query(&self, task: &Task) -> (query: Query)
        ensures
            query == Query::InsertTask(task_to_row(*task)),
    {
        Query::InsertTask(QueryableTask::from(task.clone()))
    }

    /// The answer to a request to add `task`: on success the task itself
    /// comes back.
    pub fn create_task(&self, task: Task, outcome: Result<(), StoreError>) -> (response:
        TaskResponse)
        ensures
            match outcome {
                Ok(_) => task_success(response, "Task added successfully."@, Some(task)),
                Err(err) => task_failure(response, description(err)),
            },
            response.message@.len() > 0,
    {
        proof {
            reveal_strlit("Task added successfully.");
        }
        match outcome {
            Ok(_) => TaskResponse {
                successful: true,
                message: "Task added successfully.".to_owned(),
                task: Some(task),
            },
            Err(err) => TaskResponse { successful: false, message: err.describe(), task: None },
        }
    }

    /// The query behind `read_task`: the first row whose key is `id`.
    pub fn read_task_query(&self, id: String) -> (query: Query)
        ensures
            query == Query::FirstTask(TaskFilter::IdIs(id)),
    {
        Query::FirstTask(TaskFilter::IdIs(id))
    }

    /// The answer to a request for one task. That there is no such task and
    /// that the store could not be reached are both failures, told apart
    /// only by their text.
    pub fn read_task(&self, outcome: Result<QueryableTask, StoreError>) -> (response: TaskResponse)
        ensures
            is_read_task_answer(outcome, response),
            response.message@.len() > 0,
    {
        proof {
            reveal_strlit("Task fetched successfully.");
            reveal_strlit("Failed to fetch list of tasks.");
        }
        match outcome {
            Ok(row) => TaskResponse {
                successful: true,
                message: "Task fetched successfully.".to_owned(),
                task: Some(Task::from(row)),
            },
            Err(err) => TaskResponse {
                successful: false,
                message: err.describe_in("Failed to fetch list of tasks."),
                task: None,
            },
        }
    }

    /// The query behind `update_task`: every column of the rows under the
    /// task's key replaced by the task's.
    pub fn update_task_query(&self, task: Task) -> (query: Query)
        ensures
            query == Query::UpdateTasks(TaskFilter::IdIs(task.id), task_to_row(task)),
    {
        let key = task.id.clone();
        Query::UpdateTasks(TaskFilter::IdIs(key), QueryableTask::from(task))
    }

    /// The answer to a request to replace a task; it carries no task.
    pub fn update_task(&self, outcome: Result<(), StoreError>) -> (response: TaskResponse)
        ensures
            match outcome {
                Ok(_) => task_success(response, "Task updated successfully."@, None),
                Err(err) => task_failure(response, description_in(err, "Failed to update task."@)),
            },
            response.message@.len() > 0,
    {
        proof {
            reveal_strlit("Task updated successfully.");
            reveal_strlit("Failed to update task.");
        }
        match outcome {
            Ok(_) => TaskResponse {
                successful: true,
                message: "Task updated successfully.".to_owned(),
                task: None,
            },
            Err(err) => TaskResponse {
                successful: false,
                message: err.describe_in("Failed to update task."),
                task: None,
            },
        }
    }

    /// The query behind `delete_task`: the rows whose key is `id` removed.
    pub fn delete_task_query(&self, id: String) -> (query: Query)
        ensures
            query == Query::DeleteTasks(TaskFilter::IdIs(id)),
    {
        Query::DeleteTasks(TaskFilter::IdIs(id))
    }

    /// The answer to a request to remove a task; it carries no task, and is
    /// a success however many rows left.
    pub fn delete_task(&self, outcome: Result<(), StoreError>) -> (response: TaskResponse)
        ensures
            match outcome {
                Ok(_) => task_success(response, "Task removed successfully."@, None),
                Err(err) => task_failure(response, description(err)),
            },
            response.message@.len() > 0,
    {
        proof {
            reveal_strlit("Task removed successfully.");
        }
        match outcome {
            Ok(_) => TaskResponse {
                successful: true,
                message: "Task removed successfully.".to_owned(),
                task: None,
            },
            Err(err) => TaskResponse { successful: false, message: err.describe(), task: None },
        }
    }

    /// The query behind `read_all_lists`: every list row.
    pub fn read_all_lists_query(&self) -> (query: Query)
        ensures
            query == Query::LoadLists(ListFilter::All),
    {
        Query::LoadLists(ListFilter::All)
    }

    /// The messages to send for all lists, in order: one for each row the
    /// store gave, so none for an empty table. Where the query failed, a
    /// single failure goes out in their place.
    pub fn read_all_lists(&self, outcome: Result<Vec<QueryableList>, StoreError>) -> (messages: Vec<
        ListResponse,
    >)
        ensures
            match outcome {
                Ok(rows) => are_list_messages(messages@, rows@, "List fetched succesfully."@),
                Err(err) => is_list_alarm(messages@, description(err)),
            },
    {
        match outcome {
            Ok(rows) => list_messages(&rows, "List fetched succesfully."),
            Err(err) => list_alarm(err.describe()),
        }
    }

    /// The query behind `read_all_list_ids`: the keys of every list row.
    pub fn read_all_list_ids_query(&self) -> (query: Query)
        ensures
            query == Query::ListIds(ListFilter::All),
    {
        Query::ListIds(ListFilter::All)
    }

    /// The answer to a request for the keys of all lists. A failure is
    /// reported under one fixed text, whatever the store said.
    pub fn read_all_list_ids(&self, outcome: Result<Vec<String>, StoreError>) -> (response:
        ListIdResponse)
        ensures
            match outcome {
                Ok(ids) => {
                    &&& response.successful
                    &&& response.message@ == "List identifiers fetched successfully."@
                    &&& response.ids == ids
                },
                Err(_) => {
                    &&& !response.successful
                    &&& response.message@ == "Failed to fetch list of tasks"@
                    &&& response.ids@.len() == 0
                },
            },
            response.message@.len() > 0,
    {
        proof {
            reveal_strlit("List identifiers fetched successfully.");
            reveal_strlit("Failed to fetch list of tasks");
        }
        match outcome {
            Ok(ids) => ListIdResponse {
                successful: true,
                message: "List identifiers fetched successfully.".to_owned(),
                ids,
            },
            Err(_) => ListIdResponse {
                successful: false,
                message: "Failed to fetch list of tasks".to_owned(),
                ids: Vec::new(),
            },
        }
    }

    /// The query behind `create_list`: one new row, the list's.
    pub fn create_list_query(&self, list: List) -> (query: Query)
        ensures
            query == Query::InsertList(list_to_row(list)),
    {
        Query::InsertList(QueryableList::from(list))
    }

    /// The answer to a request to add a list. Unlike that for a task, it
    /// carries no entity.
    pub fn create_list(&self, outcome: Result<(), StoreError>) -> (response: ListResponse)
        ensures
            match outcome {
                Ok(_) => list_success(response, "List added succesfully."@, None),
                Err(err) => list_failure(response, description(err)),
            },
            response.message@.len() > 0,
    {
        proof {
            reveal_strlit("List added succesfully.");
        }
        match outcome {
            Ok(_) => ListResponse {
                successful: true,
                message: "List added succesfully.".to_owned(),
                list: None,
            },
            Err(err) => ListResponse { successful: false, message: err.describe(), list: None },
        }
    }

    /// The query behind `read_list`: the first row whose key is `id`.
    pub fn read_list_query(&self, id: String) -> (query: Query)
        ensures
            query == Query::FirstList(ListFilter::IdIs(id)),
    {
        Query::FirstList(ListFilter::IdIs(id))
    }

    /// The answer to a request for one list.
    pub fn read_list(&self, outcome: Result<QueryableList, StoreError>) -> (response: ListResponse)
        ensures
            is_read_list_answer(outcome, response),
            response.message@.len() > 0,
    {
        proof {
            reveal_strlit("List fetched succesfully.");
        }
        match outcome {
            Ok(row) => ListResponse {
                successful: true,
                message: "List fetched succesfully.".to_owned(),
                list: Some(List::from(row)),
            },
            Err(err) => ListResponse { successful: false, message: err.describe(), list: None },
        }
    }

    /// The query behind `update_list`: every column of the rows under the
    /// list's key replaced by the list's.
    pub fn update_list_query(&self, list: List) -> (query: Query)
        ensures
            query == Query::UpdateLists(ListFilter::IdIs(list.id), list_to_row(list)),
    {
        let key = list.id.clone();
        Query::UpdateLists(ListFilter::IdIs(key), QueryableList::from(list))
    }

    /// The answer to a request to replace a list; it carries no list.
    pub fn update_list(&self, outcome: Result<(), StoreError>) -> (response: ListResponse)
        ensures
            match outcome {
                Ok(_) => list_success(response, "List updated succesfully."@, None),
                Err(err) => list_failure(response, description_in(err, "Failed to update list."@)),
            },
            response.message@.len() > 0,
    {
        proof {
            reveal_strlit("List updated succesfully.");
            reveal_strlit("Failed to update list.");
        }
        match outcome {
            Ok(_) => ListResponse {
                successful: true,
                message: "List updated succesfully.".to_owned(),
                list: None,
            },
            Err(err) => ListResponse {
                successful: false,
                message: err.describe_in("Failed to update list."),
                list: None,
            },
        }
    }

    /// The query behind `delete_list`: the rows whose key is `id` removed.
    /// The tasks that point back to the list are left as they are.
    pub fn delete_list_query(&self, id: String) -> (query: Query)
        ensures
            query == Query::DeleteLists(ListFilter::IdIs(id)),
    {
        Query::DeleteLists(ListFilter::IdIs(id))
    }

    /// The answer to a request to remove a list; it carries no list, and is
    /// a success however many rows left.
    pub fn delete_list(&self, outcome: Result<(), StoreError>) -> (response: ListResponse)
        ensures
            match outcome {
                Ok(_) => list_success(response, "List removed succesfully."@, None),
                Err(err) => list_failure(response, description(err)),
            },
            response.message@.len() > 0,
    {
        proof {
            reveal_strlit("List removed succesfully.");
        }
        match outcome {
            Ok(_) => ListResponse {
                successful: true,
                message: "List removed succesfully.".to_owned(),
                list: None,
            },
            Err(err) => ListResponse { successful: false, message: err.describe(), list: None },
        }
    }
}

} // verus!
