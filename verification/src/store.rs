//! The two tables held in memory, with the meaning of every query stated
//! over their rows. It is the yardstick for any store that the operations
//! are run against, and a store in its own right where none else is at hand.

use vstd::prelude::*;
use crate::entity::{QueryableList, QueryableTask};
use crate::query::{list_selected, task_selected, ListFilter, Query, Reply, TaskFilter};
use crate::response::StoreError;
use crate::laws::{list_keys_stay_unique, task_keys_stay_unique};

verus! {

/// The test that keeps the task rows which the filter selects (`wanted`) or
/// those which it does not (`!wanted`).
pub open spec fn task_test(filter: TaskFilter, wanted: bool) -> spec_fn(QueryableTask) -> bool {
    |row: QueryableTask| task_selected(filter, row) == wanted
}

/// The test that keeps the list rows which the filter selects (`wanted`) or
/// those which it does not (`!wanted`).
pub open spec fn list_test(filter: ListFilter, wanted: bool) -> spec_fn(QueryableList) -> bool {
    |row: QueryableList| list_selected(filter, row) == wanted
}

/// The task rows that a filter selects, in the table's order.
pub open spec fn selected_tasks(rows: Seq<QueryableTask>, filter: TaskFilter) -> Seq<QueryableTask> {
    rows.filter(task_test(filter, true))
}

/// The list rows that a filter selects, in the table's order.
pub open spec fn selected_lists(rows: Seq<QueryableList>, filter: ListFilter) -> Seq<QueryableList> {
    rows.filter(list_test(filter, true))
}

/// The table with every column of each selected row replaced by `row`'s.
pub open spec fn tasks_replaced(
    rows: Seq<QueryableTask>,
    filter: TaskFilter,
    row: QueryableTask,
) -> Seq<QueryableTask> {
    Seq::new(rows.len(), |i: int| if task_selected(filter, rows[i]) { row } else { rows[i] })
}

/// The table with every column of each selected row replaced by `row`'s.
pub open spec fn lists_replaced(
    rows: Seq<QueryableList>,
    filter: ListFilter,
    row: QueryableList,
) -> Seq<QueryableList> {
    Seq::new(rows.len(), |i: int| if list_selected(filter, rows[i]) { row } else { rows[i] })
}

/// Whether the table `tasks` holds a row under this key.
pub open spec fn holds_task(rows: Seq<QueryableTask>, key: String) -> bool {
    selected_tasks(rows, TaskFilter::IdIs(key)).len() > 0
}

/// Whether the table `lists` holds a row under this key.
pub open spec fn holds_list(rows: Seq<QueryableList>, key: String) -> bool {
    selected_lists(rows, ListFilter::IdIs(key)).len() > 0
}

/// A number of rows as the store reports it.
pub open spec fn reported_count(n: nat) -> i64 {
    if n <= i64::MAX {
        n as i64
    } else {
        i64::MAX
    }
}

/// The keys handed out are those of the rows, one for one and in order.
pub open spec fn are_task_keys(keys: Seq<String>, rows: Seq<QueryableTask>) -> bool {
    &&& keys.len() == rows.len()
    &&& forall|i: int| 0 <= i < rows.len() ==> (#[trigger] keys[i]) == rows[i].id_task
}

/// The keys handed out are those of the rows, one for one and in order.
pub open spec fn are_list_keys(keys: Seq<String>, rows: Seq<QueryableList>) -> bool {
    &&& keys.len() == rows.len()
    &&& forall|i: int| 0 <= i < rows.len() ==> (#[trigger] keys[i]) == rows[i].id_list
}

/// The table `tasks` once a query has run. A row is added only under a key
/// that the table does not hold yet.
pub open spec fn tasks_after(rows: Seq<QueryableTask>, query: Query) -> Seq<QueryableTask> {
    match query {
        Query::InsertTask(row) => if holds_task(rows, row.id_task) {
            rows
        } else {
            rows.push(row)
        },
        Query::UpdateTasks(filter, row) => tasks_replaced(rows, filter, row),
        Query::DeleteTasks(filter) => rows.filter(task_test(filter, false)),
        _ => rows,
    }
}

/// The table `lists` once a query has run. A row is added only under a key
/// that the table does not hold yet.
pub open spec fn lists_after(rows: Seq<QueryableList>, query: Query) -> Seq<QueryableList> {
    match query {
        Query::InsertList(row) => if holds_list(rows, row.id_list) {
            rows
        } else {
            rows.push(row)
        },
        Query::UpdateLists(filter, row) => lists_replaced(rows, filter, row),
        Query::DeleteLists(filter) => rows.filter(list_test(filter, false)),
        _ => rows,
    }
}

/// What a reachable store answers to a query, given its two tables as they
/// were before. The only failures are a lookup that finds no row and a new
/// row under a key that is taken.
pub open spec fn is_outcome(
    tasks: Seq<QueryableTask>,
    lists: Seq<QueryableList>,
    query: Query,
    outcome: Result<Reply, StoreError>,
) -> bool {
    match query {
        Query::LoadTasks(filter) => outcome matches Ok(Reply::Tasks(rows)) && rows@
            == selected_tasks(tasks, filter),
        Query::TaskIds(filter) => outcome matches Ok(Reply::Ids(keys)) && are_task_keys(
            keys@,
            selected_tasks(tasks, filter),
        ),
        Query::CountTasks(filter) => outcome == Ok::<Reply, StoreError>(
            Reply::Count(reported_count(selected_tasks(tasks, filter).len())),
        ),
        Query::FirstTask(filter) => if selected_tasks(tasks, filter).len() > 0 {
            outcome == Ok::<Reply, StoreError>(Reply::Task(selected_tasks(tasks, filter)[0]))
        } else {
            outcome matches Err(StoreError::Query(_))
        },
        Query::InsertTask(row) => if holds_task(tasks, row.id_task) {
            outcome matches Err(StoreError::Query(_))
        } else {
            outcome == Ok::<Reply, StoreError>(Reply::Done)
        },
        Query::UpdateTasks(_, _) | Query::DeleteTasks(_) => outcome == Ok::<Reply, StoreError>(
            Reply::Done,
        ),
        Query::LoadLists(filter) => outcome matches Ok(Reply::Lists(rows)) && rows@
            == selected_lists(lists, filter),
        Query::ListIds(filter) => outcome matches Ok(Reply::Ids(keys)) && are_list_keys(
            keys@,
            selected_lists(lists, filter),
        ),
        Query::FirstList(filter) => if selected_lists(lists, filter).len() > 0 {
            outcome == Ok::<Reply, StoreError>(Reply::List(selected_lists(lists, filter)[0]))
        } else {
            outcome matches Err(StoreError::Query(_))
        },
        Query::InsertList(row) => if holds_list(lists, row.id_list) {
            outcome matches Err(StoreError::Query(_))
        } else {
            outcome == Ok::<Reply, StoreError>(Reply::Done)
        },
        Query::UpdateLists(_, _) | Query::DeleteLists(_) => outcome == Ok::<Reply, StoreError>(
            Reply::Done,
        ),
    }
}

/// No two task rows stand under one key.
pub open spec fn unique_task_keys(rows: Seq<QueryableTask>) -> bool {
    forall|i: int, j: int|
        0 <= i < j < rows.len() ==> (#[trigger] rows[i]).id_task@ != (#[trigger] rows[j]).id_task@
}

/// No two list rows stand under one key.
pub open spec fn unique_list_keys(rows: Seq<QueryableList>) -> bool {
    forall|i: int, j: int|
        0 <= i < j < rows.len() ==> (#[trigger] rows[i]).id_list@ != (#[trigger] rows[j]).id_list@
}

/// Whether a query leaves every row under the key it has: a replacement
/// does where it goes to the rows under the new row's own key, as those of
/// the provider's operations do; every other query does.
pub open spec fn keeps_keys(query: Query) -> bool {
    match query {
        Query::UpdateTasks(filter, row) => filter matches TaskFilter::IdIs(id) && id@ == row.id_task@,
        Query::UpdateLists(filter, row) => filter matches ListFilter::IdIs(id) && id@ == row.id_list@,
        _ => true,
    }
}

/// Filtering one row further: the row joins what was kept if it passes.
pub proof fn filter_one_more<A>(rows: Seq<A>, test: spec_fn(A) -> bool, i: int)
    requires
        0 <= i < rows.len(),
    ensures
        rows.take(i + 1).filter(test) == if test(rows[i]) {
            rows.take(i).filter(test).push(rows[i])
        } else {
            rows.take(i).filter(test)
        },
{
    reveal(Seq::filter);
    assert(rows.take(i + 1).drop_last() =~= rows.take(i));
}

/// The two tables, and whether a connection to them can be had.
#[derive(Debug)]
pub struct MemoryStore {
    pub tasks: Vec<QueryableTask>,
    pub lists: Vec<QueryableList>,
    pub online: bool,
}

fn pick_tasks(rows: &Vec<QueryableTask>, filter: &TaskFilter, wanted: bool) -> (kept: Vec<
    QueryableTask,
>)
    ensures
        kept@ == rows@.filter(task_test(*filter, wanted)),
{
    let mut kept: Vec<QueryableTask> = Vec::new();
    let mut i: usize = 0;
    proof {
        reveal(Seq::filter);
        assert(rows@.take(0).filter(task_test(*filter, wanted)) =~= Seq::empty());
    }
    while i < rows.len()
        invariant
            i <= rows.len(),
            kept@ == rows@.take(i as int).filter(task_test(*filter, wanted)),
        decreases rows.len() - i,
    {
        proof {
            filter_one_more(rows@, task_test(*filter, wanted), i as int);
        }
        if filter.selects(&rows[i]) == wanted {
            kept.push(rows[i].clone());
        }
        i += 1;
    }
    assert(rows@.take(i as int) == rows@);
    kept
}

fn pick_lists(rows: &Vec<QueryableList>, filter: &ListFilter, wanted: bool) -> (kept: Vec<
    QueryableList,
>)
    ensures
        kept@ == rows@.filter(list_test(*filter, wanted)),
{
    let mut kept: Vec<QueryableList> = Vec::new();
    let mut i: usize = 0;
    proof {
        reveal(Seq::filter);
        assert(rows@.take(0).filter(list_test(*filter, wanted)) =~= Seq::empty());
    }
    while i < rows.len()
        invariant
            i <= rows.len(),
            kept@ == rows@.take(i as int).filter(list_test(*filter, wanted)),
        decreases rows.len() - i,
    {
        proof {
            filter_one_more(rows@, list_test(*filter, wanted), i as int);
        }
        if filter.selects(&rows[i]) == wanted {
            kept.push(rows[i].clone());
        }
        i += 1;
    }
    assert(rows@.take(i as int) == rows@);
    kept
}

fn replace_tasks(rows: &Vec<QueryableTask>, filter: &TaskFilter, row: &QueryableTask) -> (changed:
    Vec<QueryableTask>)
    ensures
        changed@ == tasks_replaced(rows@, *filter, *row),
{
    let mut changed: Vec<QueryableTask> = Vec::new();
    let mut i: usize = 0;
    while i < rows.len()
        invariant
            i <= rows.len(),
            changed@ =~= tasks_replaced(rows@, *filter, *row).take(i as int),
        decreases rows.len() - i,
    {
        if filter.selects(&rows[i]) {
            changed.push(row.clone());
        } else {
            changed.push(rows[i].clone());
        }
        i += 1;
    }
    assert(changed@ =~= tasks_replaced(rows@, *filter, *row));
    changed
}

fn replace_lists(rows: &Vec<QueryableList>, filter: &ListFilter, row: &QueryableList) -> (changed:
    Vec<QueryableList>)
    ensures
        changed@ == lists_replaced(rows@, *filter, *row),
{
    let mut changed: Vec<QueryableList> = Vec::new();
    let mut i: usize = 0;
    while i < rows.len()
        invariant
            i <= rows.len(),
            changed@ =~= lists_replaced(rows@, *filter, *row).take(i as int),
        decreases rows.len() - i,
    {
        if filter.selects(&rows[i]) {
            changed.push(row.clone());
        } else {
            changed.push(rows[i].clone());
        }
        i += 1;
    }
    assert(changed@ =~= lists_replaced(rows@, *filter, *row));
    changed
}

fn task_keys(rows: &Vec<QueryableTask>) -> (keys: Vec<String>)
    ensures
        are_task_keys(keys@, rows@),
{
    let mut keys: Vec<String> = Vec::new();
    let mut i: usize = 0;
    while i < rows.len()
        invariant
            i <= rows.len(),
            are_task_keys(keys@, rows@.take(i as int)),
        decreases rows.len() - i,
    {
        keys.push(rows[i].id_task.clone());
        i += 1;
    }
    assert(rows@.take(i as int) == rows@);
    keys
}

fn list_keys(rows: &Vec<QueryableList>) -> (keys: Vec<String>)
    ensures
        are_list_keys(keys@, rows@),
{
    let mut keys: Vec<String> = Vec::new();
    let mut i: usize = 0;
    while i < rows.len()
        invariant
            i <= rows.len(),
            are_list_keys(keys@, rows@.take(i as int)),
        decreases rows.len() - i,
    {
        keys.push(rows[i].id_list.clone());
        i += 1;
    }
    assert(rows@.take(i as int) == rows@);
    keys
}

fn count_of(n: usize) -> (count: i64)
    ensures
        count == reported_count(n as nat),
{
    let wide: u64 = n as u64;
    if wide <= 0x7fff_ffff_ffff_ffff {
        wide as i64
    } else {
        i64::MAX
    }
}

impl MemoryStore {
    /// In each table no two rows stand under one key.
    pub open spec fn well_formed(&self) -> bool {
        unique_task_keys(self.tasks@) && unique_list_keys(self.lists@)
    }

    /// A reachable store with both tables empty.
    pub fn new() -> (store: MemoryStore)
        ensures
            store.tasks@.len() == 0,
            store.lists@.len() == 0,
            store.online,
            store.well_formed(),
    {
        MemoryStore { tasks: Vec::new(), lists: Vec::new(), online: true }
    }

    /// Runs one query. Where no connection can be had the query fails as
    /// such and the tables stay as they are; otherwise the answer and the
    /// tables afterwards are those that the query's meaning gives. Keys that
    /// were unique stay so under every query that keeps the rows' keys.
    pub fn run(&mut self, query: Query) -> (outcome: Result<Reply, StoreError>)
        ensures
            final(self).online == old(self).online,
            old(self).well_formed() && keeps_keys(query) ==> final(self).well_formed(),
            !old(self).online ==> {
                &&& outcome matches Err(StoreError::Connection(_))
                &&& final(self).tasks@ == old(self).tasks@
                &&& final(self).lists@ == old(self).lists@
            },
            old(self).online ==> {
                &&& is_outcome(old(self).tasks@, old(self).lists@, query, outcome)
                &&& final(self).tasks@ == tasks_after(old(self).tasks@, query)
                &&& final(self).lists@ == lists_after(old(self).lists@, query)
            },
    {
        if !self.online {
            return Err(StoreError::Connection("The store cannot be reached.".to_owned()));
        }
        proof {
            if self.well_formed() && keeps_keys(query) {
                task_keys_stay_unique(self.tasks@, query);
                list_keys_stay_unique(self.lists@, query);
            }
        }
        match query {
            Query::LoadTasks(filter) => Ok(Reply::Tasks(pick_tasks(&self.tasks, &filter, true))),
            Query::TaskIds(filter) => {
                let rows = pick_tasks(&self.tasks, &filter, true);
                Ok(Reply::Ids(task_keys(&rows)))
            },
            Query::CountTasks(filter) => {
                let rows = pick_tasks(&self.tasks, &filter, true);
                Ok(Reply::Count(count_of(rows.len())))
            },
            Query::FirstTask(filter) => {
                let rows = pick_tasks(&self.tasks, &filter, true);
                if rows.len() > 0 {
                    Ok(Reply::Task(rows[0].clone()))
                } else {
                    Err(StoreError::Query("Record not found".to_owned()))
                }
            },
            Query::InsertTask(row) => {
                let held = pick_tasks(&self.tasks, &TaskFilter::IdIs(row.id_task.clone()), true);
                if held.len() > 0 {
                    Err(StoreError::Query("The key is taken.".to_owned()))
                } else {
                    self.tasks.push(row);
                    Ok(Reply::Done)
                }
            },
            Query::UpdateTasks(filter, row) => {
                self.tasks = replace_tasks(&self.tasks, &filter, &row);
                Ok(Reply::Done)
            },
            Query::DeleteTasks(filter) => {
                self.tasks = pick_tasks(&self.tasks, &filter, false);
                Ok(Reply::Done)
            },
            Query::LoadLists(filter) => Ok(Reply::Lists(pick_lists(&self.lists, &filter, true))),
            Query::ListIds(filter) => {
                let rows = pick_lists(&self.lists, &filter, true);
                Ok(Reply::Ids(list_keys(&rows)))
            },
            Query::FirstList(filter) => {
                let rows = pick_lists(&self.lists, &filter, true);
                if rows.len() > 0 {
                    Ok(Reply::List(rows[0].clone()))
                } else {
                    Err(StoreError::Query("Record not found".to_owned()))
                }
            },
            Query::InsertList(row) => {
                let held = pick_lists(&self.lists, &ListFilter::IdIs(row.id_list.clone()), true);
                if held.len() > 0 {
                    Err(StoreError::Query("The key is taken.".to_owned()))
                } else {
                    self.lists.push(row);
                    Ok(Reply::Done)
                }
            },
            Query::UpdateLists(filter, row) => {
                self.lists = replace_lists(&self.lists, &filter, &row);
                Ok(Reply::Done)
            },
            Query::DeleteLists(filter) => {
                self.lists = pick_lists(&self.lists, &filter, false);
                Ok(Reply::Done)
            },
        }
    }
}

} // verus!
