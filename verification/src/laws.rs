//! What holds of the operations taken together, whatever the tables hold:
//! each statement is over the meaning of the queries and the answers that
//! the operations make of their outcomes.

use vstd::prelude::*;
use crate::entity::{list_to_row, row_to_task, task_to_row};
use crate::entity::{List, QueryableList, QueryableTask, Task};
use crate::query::{list_selected, task_selected, ListFilter, Query, Reply, TaskFilter};
use crate::response::{ListResponse, StoreError, TaskResponse};
use crate::service::{are_task_messages, is_read_list_answer, is_read_task_answer};
use crate::store::{holds_list, holds_task, is_outcome, keeps_keys, lists_after, list_test};
use crate::store::{selected_tasks, task_test, tasks_after};
use crate::store::{unique_list_keys, unique_task_keys};

verus! {

/// Whatever a filter keeps is a row of the table and passes the test.
pub proof fn kept_rows_pass<A>(rows: Seq<A>, test: spec_fn(A) -> bool, i: int)
    requires
        0 <= i < rows.filter(test).len(),
    ensures
        test(rows.filter(test)[i]),
        rows.contains(rows.filter(test)[i]),
    decreases rows.len(),
{
    reveal(Seq::filter);
    if rows.len() > 0 {
        let rest = rows.drop_last();
        let last = rows.last();
        if test(last) && i == rest.filter(test).len() {
            assert(rows[rows.len() - 1] == last);
        } else {
            kept_rows_pass(rest, test, i);
            let row = rest.filter(test)[i];
            let j = choose|j: int| 0 <= j < rest.len() && rest[j] == row;
            assert(rows[j] == row);
        }
    }
}

/// Every row of the table that passes the test is kept.
pub proof fn passing_rows_are_kept<A>(rows: Seq<A>, test: spec_fn(A) -> bool, j: int)
    requires
        0 <= j < rows.len(),
        test(rows[j]),
    ensures
        rows.filter(test).contains(rows[j]),
        rows.filter(test).len() > 0,
{
    rows.lemma_filter_contains(test, j);
}

/// A task that was added is the task that a read under its key brings
/// back: the store finds its row, and the answer carries the task itself.
pub proof fn created_task_is_read_back(
    tasks: Seq<QueryableTask>,
    lists: Seq<QueryableList>,
    task: Task,
    created: Result<Reply, StoreError>,
    found: Result<Reply, StoreError>,
    response: TaskResponse,
)
    requires
        is_outcome(tasks, lists, Query::InsertTask(task_to_row(task)), created),
        created is Ok,
        is_outcome(
            tasks_after(tasks, Query::InsertTask(task_to_row(task))),
            lists_after(lists, Query::InsertTask(task_to_row(task))),
            Query::FirstTask(TaskFilter::IdIs(task.id)),
            found,
        ),
        found matches Ok(Reply::Task(row)) ==> is_read_task_answer(Ok(row), response),
    ensures
        found == Ok::<Reply, StoreError>(Reply::Task(task_to_row(task))),
        response.successful,
        response.task == Some(task),
{
    let row = task_to_row(task);
    let test = task_test(TaskFilter::IdIs(task.id), true);
    let after = tasks.push(row);
    reveal(Seq::filter);
    assert(after.drop_last() =~= tasks);
    assert(tasks.filter(test).len() == 0);
    assert(after.filter(test) =~= seq![row]);
}

/// A list that was added is the list that a read under its key brings
/// back: the store finds its row, and the answer carries the list itself.
pub proof fn created_list_is_read_back(
    tasks: Seq<QueryableTask>,
    lists: Seq<QueryableList>,
    list: List,
    created: Result<Reply, StoreError>,
    found: Result<Reply, StoreError>,
    response: ListResponse,
)
    requires
        is_outcome(tasks, lists, Query::InsertList(list_to_row(list)), created),
        created is Ok,
        is_outcome(
            tasks_after(tasks, Query::InsertList(list_to_row(list))),
            lists_after(lists, Query::InsertList(list_to_row(list))),
            Query::FirstList(ListFilter::IdIs(list.id)),
            found,
        ),
        found matches Ok(Reply::List(row)) ==> is_read_list_answer(Ok(row), response),
    ensures
        found == Ok::<Reply, StoreError>(Reply::List(list_to_row(list))),
        response.successful,
        response.list == Some(list),
{
    let row = list_to_row(list);
    let test = list_test(ListFilter::IdIs(list.id), true);
    let after = lists.push(row);
    reveal(Seq::filter);
    assert(after.drop_last() =~= lists);
    assert(lists.filter(test).len() == 0);
    assert(after.filter(test) =~= seq![row]);
}

/// Once the rows under a key are removed, a read under that key fails: the
/// store finds no row, and the answer is a failure that carries no task.
pub proof fn deleted_task_is_not_read(
    tasks: Seq<QueryableTask>,
    lists: Seq<QueryableList>,
    id: String,
    found: Result<Reply, StoreError>,
    response: TaskResponse,
)
    requires
        is_outcome(
            tasks_after(tasks, Query::DeleteTasks(TaskFilter::IdIs(id))),
            lists_after(lists, Query::DeleteTasks(TaskFilter::IdIs(id))),
            Query::FirstTask(TaskFilter::IdIs(id)),
            found,
        ),
        found matches Err(err) ==> is_read_task_answer(Err(err), response),
    ensures
        found is Err,
        !response.successful,
        response.task is None,
{
    let left = tasks.filter(task_test(TaskFilter::IdIs(id), false));
    let hits = left.filter(task_test(TaskFilter::IdIs(id), true));
    if hits.len() > 0 {
        kept_rows_pass(left, task_test(TaskFilter::IdIs(id), true), 0);
        let j = choose|j: int| 0 <= j < left.len() && left[j] == hits[0];
        kept_rows_pass(tasks, task_test(TaskFilter::IdIs(id), false), j);
    }
}

/// Once the rows under a key are removed, a read under that key fails: the
/// store finds no row, and the answer is a failure that carries no list.
pub proof fn deleted_list_is_not_read(
    tasks: Seq<QueryableTask>,
    lists: Seq<QueryableList>,
    id: String,
    found: Result<Reply, StoreError>,
    response: ListResponse,
)
    requires
        is_outcome(
            tasks_after(tasks, Query::DeleteLists(ListFilter::IdIs(id))),
            lists_after(lists, Query::DeleteLists(ListFilter::IdIs(id))),
            Query::FirstList(ListFilter::IdIs(id)),
            found,
        ),
        found matches Err(err) ==> is_read_list_answer(Err(err), response),
    ensures
        found is Err,
        !response.successful,
        response.list is None,
{
    let left = lists.filter(list_test(ListFilter::IdIs(id), false));
    let hits = left.filter(list_test(ListFilter::IdIs(id), true));
    if hits.len() > 0 {
        kept_rows_pass(left, list_test(ListFilter::IdIs(id), true), 0);
        let j = choose|j: int| 0 <= j < left.len() && left[j] == hits[0];
        kept_rows_pass(lists, list_test(ListFilter::IdIs(id), false), j);
    }
}

/// After a task is replaced, a read under its key finds a row if and only
/// if one was there before, and what it finds is the new task in every
/// field: nothing of the old row is left.
pub proof fn updated_task_is_read_back(
    tasks: Seq<QueryableTask>,
    lists: Seq<QueryableList>,
    task: Task,
    found: Result<Reply, StoreError>,
    response: TaskResponse,
)
    requires
        is_outcome(
            tasks_after(tasks, Query::UpdateTasks(TaskFilter::IdIs(task.id), task_to_row(task))),
            lists_after(lists, Query::UpdateTasks(TaskFilter::IdIs(task.id), task_to_row(task))),
            Query::FirstTask(TaskFilter::IdIs(task.id)),
            found,
        ),
        found matches Ok(Reply::Task(row)) ==> is_read_task_answer(Ok(row), response),
    ensures
        found is Ok <==> holds_task(tasks, task.id),
        found is Ok ==> found == Ok::<Reply, StoreError>(Reply::Task(task_to_row(task))),
        found is Ok ==> response.successful && response.task == Some(task),
{
    let filter = TaskFilter::IdIs(task.id);
    let test = task_test(filter, true);
    let after = tasks_after(tasks, Query::UpdateTasks(filter, task_to_row(task)));
    if after.filter(test).len() > 0 {
        kept_rows_pass(after, test, 0);
        let j = choose|j: int| 0 <= j < after.len() && after[j] == after.filter(test)[0];
        assert(task_selected(filter, tasks[j]));
        passing_rows_are_kept(tasks, test, j);
    }
    if tasks.filter(test).len() > 0 {
        kept_rows_pass(tasks, test, 0);
        let j = choose|j: int| 0 <= j < tasks.len() && tasks[j] == tasks.filter(test)[0];
        assert(after[j] == task_to_row(task));
        passing_rows_are_kept(after, test, j);
    }
}

/// After a list is replaced, a read under its key finds a row if and only
/// if one was there before, and what it finds is the new list in every
/// field: nothing of the old row is left.
pub proof fn updated_list_is_read_back(
    tasks: Seq<QueryableTask>,
    lists: Seq<QueryableList>,
    list: List,
    found: Result<Reply, StoreError>,
    response: ListResponse,
)
    requires
        is_outcome(
            tasks_after(tasks, Query::UpdateLists(ListFilter::IdIs(list.id), list_to_row(list))),
            lists_after(lists, Query::UpdateLists(ListFilter::IdIs(list.id), list_to_row(list))),
            Query::FirstList(ListFilter::IdIs(list.id)),
            found,
        ),
        found matches Ok(Reply::List(row)) ==> is_read_list_answer(Ok(row), response),
    ensures
        found is Ok <==> holds_list(lists, list.id),
        found is Ok ==> found == Ok::<Reply, StoreError>(Reply::List(list_to_row(list))),
        found is Ok ==> response.successful && response.list == Some(list),
{
    let filter = ListFilter::IdIs(list.id);
    let test = list_test(filter, true);
    let after = lists_after(lists, Query::UpdateLists(filter, list_to_row(list)));
    if after.filter(test).len() > 0 {
        kept_rows_pass(after, test, 0);
        let j = choose|j: int| 0 <= j < after.len() && after[j] == after.filter(test)[0];
        assert(list_selected(filter, lists[j]));
        passing_rows_are_kept(lists, test, j);
    }
    if lists.filter(test).len() > 0 {
        kept_rows_pass(lists, test, 0);
        let j = choose|j: int| 0 <= j < lists.len() && lists[j] == lists.filter(test)[0];
        assert(after[j] == list_to_row(list));
        passing_rows_are_kept(after, test, j);
    }
}

/// The messages streamed for the tasks of a list carry exactly the tasks
/// that point back to it: each message carries a task of the table with
/// that back-reference, each such task of the table is carried, and the
/// messages stand in the order of the table's rows.
pub proof fn tasks_of_a_list_are_exactly_its_own(
    tasks: Seq<QueryableTask>,
    lists: Seq<QueryableList>,
    id: String,
    outcome: Result<Reply, StoreError>,
    messages: Seq<TaskResponse>,
    text: Seq<char>,
)
    requires
        is_outcome(tasks, lists, Query::LoadTasks(TaskFilter::ParentListIs(id)), outcome),
        outcome matches Ok(Reply::Tasks(rows)) ==> are_task_messages(messages, rows@, text),
    ensures
        are_task_messages(messages, selected_tasks(tasks, TaskFilter::ParentListIs(id)), text),
        forall|i: int|
            0 <= i < messages.len() ==> {
                &&& (#[trigger] messages[i]).task is Some
                &&& messages[i].task->0.parent_list@ == id@
                &&& exists|j: int|
                    0 <= j < tasks.len() && messages[i].task == Some(row_to_task(tasks[j]))
            },
        forall|j: int|
            0 <= j < tasks.len() && (#[trigger] tasks[j]).parent_list@ == id@ ==> exists|i: int|
                0 <= i < messages.len() && (#[trigger] messages[i]).task == Some(
                    row_to_task(tasks[j]),
                ),
{
    let filter = TaskFilter::ParentListIs(id);
    let test = task_test(filter, true);
    let chosen = selected_tasks(tasks, filter);
    assert forall|i: int| 0 <= i < messages.len() implies {
        &&& (#[trigger] messages[i]).task is Some
        &&& messages[i].task->0.parent_list@ == id@
        &&& exists|j: int| 0 <= j < tasks.len() && messages[i].task == Some(row_to_task(tasks[j]))
    } by {
        kept_rows_pass(tasks, test, i);
        let j = choose|j: int| 0 <= j < tasks.len() && tasks[j] == chosen[i];
        assert(messages[i].task == Some(row_to_task(tasks[j])));
    }
    assert forall|j: int|
        0 <= j < tasks.len() && (#[trigger] tasks[j]).parent_list@ == id@ implies exists|i: int|
        0 <= i < messages.len() && (#[trigger] messages[i]).task == Some(
            row_to_task(tasks[j]),
        ) by {
        passing_rows_are_kept(tasks, test, j);
        let i = choose|i: int| 0 <= i < chosen.len() && chosen[i] == tasks[j];
        assert(messages[i].task == Some(row_to_task(tasks[j])));
    }
}

/// Taking rows out of a table leaves the keys of the others distinct.
pub proof fn kept_tasks_stay_unique(rows: Seq<QueryableTask>, test: spec_fn(QueryableTask) -> bool)
    requires
        unique_task_keys(rows),
    ensures
        unique_task_keys(rows.filter(test)),
    decreases rows.len(),
{
    reveal(Seq::filter);
    if rows.len() > 0 {
        let rest = rows.drop_last();
        assert forall|i: int, j: int| 0 <= i < j < rest.len() implies (#[trigger] rest[i]).id_task@
            != (#[trigger] rest[j]).id_task@ by {
            assert(rest[i] == rows[i] && rest[j] == rows[j]);
        }
        kept_tasks_stay_unique(rest, test);
        let kept = rows.filter(test);
        assert forall|i: int, j: int| 0 <= i < j < kept.len() implies (#[trigger] kept[i]).id_task@
            != (#[trigger] kept[j]).id_task@ by {
            if j == rest.filter(test).len() {
                kept_rows_pass(rest, test, i);
                let k = choose|k: int| 0 <= k < rest.len() && rest[k] == rest.filter(test)[i];
                assert(rows[k] == kept[i]);
                assert(rows[rows.len() - 1] == kept[j]);
            }
        }
    }
}

/// Taking rows out of a table leaves the keys of the others distinct.
pub proof fn kept_lists_stay_unique(rows: Seq<QueryableList>, test: spec_fn(QueryableList) -> bool)
    requires
        unique_list_keys(rows),
    ensures
        unique_list_keys(rows.filter(test)),
    decreases rows.len(),
{
    reveal(Seq::filter);
    if rows.len() > 0 {
        let rest = rows.drop_last();
        assert forall|i: int, j: int| 0 <= i < j < rest.len() implies (#[trigger] rest[i]).id_list@
            != (#[trigger] rest[j]).id_list@ by {
            assert(rest[i] == rows[i] && rest[j] == rows[j]);
        }
        kept_lists_stay_unique(rest, test);
        let kept = rows.filter(test);
        assert forall|i: int, j: int| 0 <= i < j < kept.len() implies (#[trigger] kept[i]).id_list@
            != (#[trigger] kept[j]).id_list@ by {
            if j == rest.filter(test).len() {
                kept_rows_pass(rest, test, i);
                let k = choose|k: int| 0 <= k < rest.len() && rest[k] == rest.filter(test)[i];
                assert(rows[k] == kept[i]);
                assert(rows[rows.len() - 1] == kept[j]);
            }
        }
    }
}

/// Keys stay unique: whatever the operations put to the store, no two task
/// rows come to stand under one key. An identifier, once given, is that of
/// one task only.
pub proof fn task_keys_stay_unique(tasks: Seq<QueryableTask>, query: Query)
    requires
        unique_task_keys(tasks),
        keeps_keys(query),
    ensures
        unique_task_keys(tasks_after(tasks, query)),
{
    let after = tasks_after(tasks, query);
    match query {
        Query::InsertTask(row) => {
            if !holds_task(tasks, row.id_task) {
                assert forall|i: int, j: int| 0 <= i < j < after.len() implies (
                #[trigger] after[i]).id_task@ != (#[trigger] after[j]).id_task@ by {
                    if j == tasks.len() {
                        if tasks[i].id_task@ == row.id_task@ {
                            passing_rows_are_kept(
                                tasks,
                                task_test(TaskFilter::IdIs(row.id_task), true),
                                i,
                            );
                        }
                    } else {
                        assert(after[i] == tasks[i] && after[j] == tasks[j]);
                    }
                }
            }
        },
        Query::UpdateTasks(filter, row) => {
            assert forall|i: int, j: int| 0 <= i < j < after.len() implies (
            #[trigger] after[i]).id_task@ != (#[trigger] after[j]).id_task@ by {
                assert(after[i].id_task@ == tasks[i].id_task@);
                assert(after[j].id_task@ == tasks[j].id_task@);
            }
        },
        Query::DeleteTasks(filter) => {
            kept_tasks_stay_unique(tasks, task_test(filter, false));
        },
        _ => {},
    }
}

/// Keys stay unique: whatever the operations put to the store, no two list
/// rows come to stand under one key.
pub proof fn list_keys_stay_unique(lists: Seq<QueryableList>, query: Query)
    requires
        unique_list_keys(lists),
        keeps_keys(query),
    ensures
        unique_list_keys(lists_after(lists, query)),
{
    let after = lists_after(lists, query);
    match query {
        Query::InsertList(row) => {
            if !holds_list(lists, row.id_list) {
                assert forall|i: int, j: int| 0 <= i < j < after.len() implies (
                #[trigger] after[i]).id_list@ != (#[trigger] after[j]).id_list@ by {
                    if j == lists.len() {
                        if lists[i].id_list@ == row.id_list@ {
                            passing_rows_are_kept(
                                lists,
                                list_test(ListFilter::IdIs(row.id_list), true),
                                i,
                            );
                        }
                    } else {
                        assert(after[i] == lists[i] && after[j] == lists[j]);
                    }
                }
            }
        },
        Query::UpdateLists(filter, row) => {
            assert forall|i: int, j: int| 0 <= i < j < after.len() implies (
            #[trigger] after[i]).id_list@ != (#[trigger] after[j]).id_list@ by {
                assert(after[i].id_list@ == lists[i].id_list@);
                assert(after[j].id_list@ == lists[j].id_list@);
            }
        },
        Query::DeleteLists(filter) => {
            kept_lists_stay_unique(lists, list_test(filter, false));
        },
        _ => {},
    }
}

/// Removing a list leaves every task as it was, those that point back to
/// the list too.
pub proof fn removing_a_list_keeps_its_tasks(tasks: Seq<QueryableTask>, id: String)
    ensures
        tasks_after(tasks, Query::DeleteLists(ListFilter::IdIs(id))) == tasks,
{
}

} // verus!
