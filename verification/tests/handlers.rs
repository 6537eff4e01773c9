use local_provider::entity::{List, QueryableList, QueryableTask, Task};
use local_provider::query::{
    expect_count, expect_done, expect_ids, expect_list, expect_lists, expect_task, expect_tasks,
    CountBy, ListFilter, Query, Reply, TaskFilter,
};
use local_provider::response::StoreError;
use local_provider::service::{list_messages, task_messages, LocalService};

fn service() -> LocalService {
    LocalService {
        id: "local".to_string(),
        name: "Local".to_string(),
        description: "Tasks kept on this machine".to_string(),
        icon: "computer".to_string(),
    }
}

fn handler_task(id: &str, parent: &str, title: &str) -> Task {
    Task {
        id: id.to_string(),
        parent_list: parent.to_string(),
        title: title.to_string(),
        body: String::new(),
        completed_on: None,
        due_date: Some(42),
        importance: 1,
        favorite: false,
        is_reminder_on: false,
        reminder_date: None,
        status: 0,
        created_date_time: 10,
        last_modified_date_time: 20,
    }
}

fn handler_list(id: &str, name: &str) -> List {
    List {
        id: id.to_string(),
        name: name.to_string(),
        is_owner: true,
        icon_name: "list".to_string(),
        provider: "local".to_string(),
    }
}

fn unreachable_store() -> StoreError {
    StoreError::Connection("unable to open database file".to_string())
}

fn refused() -> StoreError {
    StoreError::Query("Record not found".to_string())
}

#[test]
fn metadata_getters_return_the_configured_strings() {
    let svc = service();
    assert_eq!(svc.get_id(), "local");
    assert_eq!(svc.get_name(), "Local");
    assert_eq!(svc.get_description(), "Tasks kept on this machine");
    assert_eq!(svc.get_icon_name(), "computer");
}

#[test]
fn default_service_has_empty_strings() {
    let svc = LocalService::default();
    assert_eq!(svc.get_id(), "");
    assert_eq!(svc.get_name(), "");
    assert_eq!(svc.get_description(), "");
    assert_eq!(svc.get_icon_name(), "");
}

#[test]
fn queries_of_the_task_operations() {
    let svc = service();
    assert_eq!(svc.read_all_tasks_query(), Query::LoadTasks(TaskFilter::All));
    assert_eq!(
        svc.read_tasks_from_list_query("L1".to_string()),
        Query::LoadTasks(TaskFilter::ParentListIs("L1".to_string()))
    );
    assert_eq!(
        svc.read_task_ids_from_list_query("L1".to_string()),
        Query::TaskIds(TaskFilter::ParentListIs("L1".to_string()))
    );
    assert_eq!(
        svc.read_task_query("T1".to_string()),
        Query::FirstTask(TaskFilter::IdIs("T1".to_string()))
    );
    assert_eq!(
        svc.delete_task_query("T1".to_string()),
        Query::DeleteTasks(TaskFilter::IdIs("T1".to_string()))
    );
    let task = handler_task("T1", "L1", "Buy milk");
    let row: QueryableTask = task.clone().into();
    assert_eq!(svc.create_task_query(&task), Query::InsertTask(row.clone()));
    assert_eq!(
        svc.update_task_query(task),
        Query::UpdateTasks(TaskFilter::IdIs("T1".to_string()), row)
    );
}

#[test]
fn count_query_matches_the_tasks_own_key() {
    let svc = service();
    assert_eq!(
        svc.read_task_count_from_list_query("L1".to_string()),
        Query::CountTasks(TaskFilter::IdIs("L1".to_string()))
    );
}

#[test]
fn count_query_by_either_column() {
    let svc = service();
    assert_eq!(
        svc.count_tasks_query(CountBy::TaskKey, "X".to_string()),
        Query::CountTasks(TaskFilter::IdIs("X".to_string()))
    );
    assert_eq!(
        svc.count_tasks_query(CountBy::ParentList, "X".to_string()),
        Query::CountTasks(TaskFilter::ParentListIs("X".to_string()))
    );
}

#[test]
fn queries_of_the_list_operations() {
    let svc = service();
    assert_eq!(svc.read_all_lists_query(), Query::LoadLists(ListFilter::All));
    assert_eq!(svc.read_all_list_ids_query(), Query::ListIds(ListFilter::All));
    assert_eq!(
        svc.read_list_query("L1".to_string()),
        Query::FirstList(ListFilter::IdIs("L1".to_string()))
    );
    assert_eq!(
        svc.delete_list_query("L1".to_string()),
        Query::DeleteLists(ListFilter::IdIs("L1".to_string()))
    );
    let list = handler_list("L1", "Home");
    let row: QueryableList = list.clone().into();
    assert_eq!(svc.create_list_query(list.clone()), Query::InsertList(row.clone()));
    assert_eq!(
        svc.update_list_query(list),
        Query::UpdateLists(ListFilter::IdIs("L1".to_string()), row)
    );
}

#[test]
fn read_all_tasks_sends_one_message_per_row_in_order() {
    let svc = service();
    let rows: Vec<QueryableTask> = vec![
        handler_task("T2", "L1", "Second").into(),
        handler_task("T1", "L2", "First").into(),
    ];
    let messages = svc.read_all_tasks(Ok(rows));
    assert_eq!(messages.len(), 2);
    assert!(messages[0].successful);
    assert_eq!(messages[0].message, "Task fetched succesfully.");
    assert_eq!(messages[0].task, Some(handler_task("T2", "L1", "Second")));
    assert!(messages[1].successful);
    assert_eq!(messages[1].message, "Task fetched succesfully.");
    assert_eq!(messages[1].task, Some(handler_task("T1", "L2", "First")));
}

#[test]
fn read_tasks_from_list_uses_its_own_text() {
    let svc = service();
    let rows: Vec<QueryableTask> = vec![handler_task("T1", "L1", "Buy milk").into()];
    let messages = svc.read_tasks_from_list(Ok(rows));
    assert_eq!(messages.len(), 1);
    assert!(messages[0].successful);
    assert_eq!(messages[0].message, "Task fetched successfully");
    assert_eq!(messages[0].task, Some(handler_task("T1", "L1", "Buy milk")));
}

#[test]
fn streams_of_an_empty_result_send_nothing() {
    let svc = service();
    assert!(svc.read_all_tasks(Ok(vec![])).is_empty());
    assert!(svc.read_tasks_from_list(Ok(vec![])).is_empty());
    assert!(svc.read_all_lists(Ok(vec![])).is_empty());
    assert!(task_messages(&vec![], "x").is_empty());
    assert!(list_messages(&vec![], "x").is_empty());
}

#[test]
fn streams_of_a_failed_query_send_one_failure() {
    let svc = service();
    let all = svc.read_all_tasks(Err(unreachable_store()));
    assert_eq!(all.len(), 1);
    assert!(!all[0].successful);
    assert_eq!(all[0].message, "unable to open database file");
    assert_eq!(all[0].task, None);
    let from = svc.read_tasks_from_list(Err(refused()));
    assert_eq!(from.len(), 1);
    assert!(!from[0].successful);
    assert_eq!(from[0].message, "Failed to fetch list of tasks.");
    assert_eq!(from[0].task, None);
    let lists = svc.read_all_lists(Err(refused()));
    assert_eq!(lists.len(), 1);
    assert!(!lists[0].successful);
    assert_eq!(lists[0].message, "Record not found");
    assert_eq!(lists[0].list, None);
    let silent = svc.read_all_lists(Err(StoreError::Connection(String::new())));
    assert_eq!(silent.len(), 1);
    assert!(!silent[0].successful);
    assert_eq!(silent[0].message, "The store gave no detail.");
}

#[test]
fn read_all_lists_sends_one_message_per_row_in_order() {
    let svc = service();
    let rows: Vec<QueryableList> =
        vec![handler_list("L2", "Work").into(), handler_list("L1", "Home").into()];
    let messages = svc.read_all_lists(Ok(rows));
    assert_eq!(messages.len(), 2);
    assert!(messages[0].successful);
    assert_eq!(messages[0].message, "List fetched succesfully.");
    assert_eq!(messages[0].list, Some(handler_list("L2", "Work")));
    assert_eq!(messages[1].list, Some(handler_list("L1", "Home")));
}

#[test]
fn read_task_ids_from_list_answers() {
    let svc = service();
    let ok = svc.read_task_ids_from_list(Ok(vec!["T1".to_string(), "T2".to_string()]));
    assert!(ok.successful);
    assert_eq!(ok.message, "Task identifiers fetched successfully.");
    assert_eq!(ok.ids, vec!["T1".to_string(), "T2".to_string()]);
    let failed = svc.read_task_ids_from_list(Err(unreachable_store()));
    assert!(!failed.successful);
    assert_eq!(failed.message, "Failed to fetch list of tasks");
    assert!(failed.ids.is_empty());
}

#[test]
fn read_all_list_ids_answers() {
    let svc = service();
    let ok = svc.read_all_list_ids(Ok(vec!["L1".to_string()]));
    assert!(ok.successful);
    assert_eq!(ok.message, "List identifiers fetched successfully.");
    assert_eq!(ok.ids, vec!["L1".to_string()]);
    let failed = svc.read_all_list_ids(Err(refused()));
    assert!(!failed.successful);
    assert_eq!(failed.message, "Failed to fetch list of tasks");
    assert!(failed.ids.is_empty());
}

#[test]
fn read_task_count_from_list_answers() {
    let svc = service();
    let ok = svc.read_task_count_from_list(Ok(3));
    assert!(ok.successful);
    assert_eq!(ok.message, "Task count fetched successfully.");
    assert_eq!(ok.count, 3);
    let failed = svc.read_task_count_from_list(Err(unreachable_store()));
    assert!(!failed.successful);
    assert_eq!(failed.message, "unable to open database file");
    assert_eq!(failed.count, 0);
}

#[test]
fn create_task_echoes_the_task() {
    let svc = service();
    let ok = svc.create_task(handler_task("T1", "L1", "Buy milk"), Ok(()));
    assert!(ok.successful);
    assert_eq!(ok.message, "Task added successfully.");
    assert_eq!(ok.task, Some(handler_task("T1", "L1", "Buy milk")));
    let failed = svc.create_task(
        handler_task("T1", "L1", "Buy milk"),
        Err(StoreError::Query("UNIQUE constraint failed: tasks.id_task".to_string())),
    );
    assert!(!failed.successful);
    assert_eq!(failed.message, "UNIQUE constraint failed: tasks.id_task");
    assert_eq!(failed.task, None);
}

#[test]
fn create_list_carries_no_list() {
    let svc = service();
    let ok = svc.create_list(Ok(()));
    assert!(ok.successful);
    assert_eq!(ok.message, "List added succesfully.");
    assert_eq!(ok.list, None);
    let failed = svc.create_list(Err(unreachable_store()));
    assert!(!failed.successful);
    assert_eq!(failed.message, "unable to open database file");
    assert_eq!(failed.list, None);
}

#[test]
fn read_task_answers() {
    let svc = service();
    let ok = svc.read_task(Ok(handler_task("T1", "L1", "Buy milk").into()));
    assert!(ok.successful);
    assert_eq!(ok.message, "Task fetched successfully.");
    assert_eq!(ok.task, Some(handler_task("T1", "L1", "Buy milk")));
    let missing = svc.read_task(Err(refused()));
    assert!(!missing.successful);
    assert_eq!(missing.message, "Failed to fetch list of tasks.");
    assert_eq!(missing.task, None);
    let down = svc.read_task(Err(unreachable_store()));
    assert!(!down.successful);
    assert_eq!(down.message, "unable to open database file");
    assert_eq!(down.task, None);
}

#[test]
fn read_list_answers() {
    let svc = service();
    let ok = svc.read_list(Ok(handler_list("L1", "Home").into()));
    assert!(ok.successful);
    assert_eq!(ok.message, "List fetched succesfully.");
    assert_eq!(ok.list, Some(handler_list("L1", "Home")));
    let missing = svc.read_list(Err(refused()));
    assert!(!missing.successful);
    assert_eq!(missing.message, "Record not found");
    assert_eq!(missing.list, None);
}

#[test]
fn update_answers_carry_no_entity() {
    let svc = service();
    let task = svc.update_task(Ok(()));
    assert!(task.successful);
    assert_eq!(task.message, "Task updated successfully.");
    assert_eq!(task.task, None);
    let task_failed = svc.update_task(Err(refused()));
    assert!(!task_failed.successful);
    assert_eq!(task_failed.message, "Failed to update task.");
    let list = svc.update_list(Ok(()));
    assert!(list.successful);
    assert_eq!(list.message, "List updated succesfully.");
    assert_eq!(list.list, None);
    let list_failed = svc.update_list(Err(refused()));
    assert!(!list_failed.successful);
    assert_eq!(list_failed.message, "Failed to update list.");
    let list_down = svc.update_list(Err(unreachable_store()));
    assert_eq!(list_down.message, "unable to open database file");
}

#[test]
fn delete_answers_carry_no_entity() {
    let svc = service();
    let task = svc.delete_task(Ok(()));
    assert!(task.successful);
    assert_eq!(task.message, "Task removed successfully.");
    assert_eq!(task.task, None);
    let list = svc.delete_list(Ok(()));
    assert!(list.successful);
    assert_eq!(list.message, "List removed succesfully.");
    assert_eq!(list.list, None);
    let failed = svc.delete_list(Err(refused()));
    assert!(!failed.successful);
    assert_eq!(failed.message, "Record not found");
}

#[test]
fn connection_failure_gives_a_failure_with_a_text_in_every_single_answer() {
    let svc = service();
    let silent = || StoreError::Connection(String::new());
    let r = svc.read_task(Err(silent()));
    assert!(!r.successful && !r.message.is_empty());
    let r = svc.create_task(handler_task("T1", "L1", "x"), Err(silent()));
    assert!(!r.successful && !r.message.is_empty());
    let r = svc.update_task(Err(silent()));
    assert!(!r.successful && !r.message.is_empty());
    let r = svc.delete_task(Err(silent()));
    assert!(!r.successful && !r.message.is_empty());
    let r = svc.read_list(Err(silent()));
    assert!(!r.successful && !r.message.is_empty());
    let r = svc.create_list(Err(silent()));
    assert!(!r.successful && !r.message.is_empty());
    let r = svc.update_list(Err(silent()));
    assert!(!r.successful && !r.message.is_empty());
    let r = svc.delete_list(Err(silent()));
    assert!(!r.successful && !r.message.is_empty());
    let r = svc.read_task_count_from_list(Err(silent()));
    assert!(!r.successful && !r.message.is_empty());
    let r = svc.read_task_ids_from_list(Err(silent()));
    assert!(!r.successful && !r.message.is_empty());
    let r = svc.read_all_list_ids(Err(silent()));
    assert!(!r.successful && !r.message.is_empty());
}

#[test]
fn failure_texts() {
    assert_eq!(StoreError::Connection("down".to_string()).describe(), "down");
    assert_eq!(StoreError::Query("bad".to_string()).describe(), "bad");
    assert_eq!(StoreError::Query(String::new()).describe(), "The store gave no detail.");
    assert_eq!(StoreError::Connection("down".to_string()).describe_in("Reading"), "down");
    assert_eq!(StoreError::Query("bad".to_string()).describe_in("Reading"), "Reading");
    assert_eq!(
        StoreError::Connection(String::new()).describe_in("Reading"),
        "The store gave no detail."
    );
}

#[test]
fn filters_select_by_their_column() {
    let row: QueryableTask = handler_task("T1", "L1", "Buy milk").into();
    assert!(TaskFilter::All.selects(&row));
    assert!(TaskFilter::IdIs("T1".to_string()).selects(&row));
    assert!(!TaskFilter::IdIs("L1".to_string()).selects(&row));
    assert!(TaskFilter::ParentListIs("L1".to_string()).selects(&row));
    assert!(!TaskFilter::ParentListIs("T1".to_string()).selects(&row));
    let list: QueryableList = handler_list("L1", "Home").into();
    assert!(ListFilter::All.selects(&list));
    assert!(ListFilter::IdIs("L1".to_string()).selects(&list));
    assert!(!ListFilter::IdIs("Home".to_string()).selects(&list));
}

#[test]
fn replies_of_the_expected_kind_are_unwrapped() {
    let row: QueryableTask = handler_task("T1", "L1", "Buy milk").into();
    let list: QueryableList = handler_list("L1", "Home").into();
    assert_eq!(expect_tasks(Ok(Reply::Tasks(vec![row.clone()]))), Ok(vec![row.clone()]));
    assert_eq!(expect_lists(Ok(Reply::Lists(vec![list.clone()]))), Ok(vec![list.clone()]));
    assert_eq!(expect_ids(Ok(Reply::Ids(vec!["T1".to_string()]))), Ok(vec!["T1".to_string()]));
    assert_eq!(expect_count(Ok(Reply::Count(7))), Ok(7));
    assert_eq!(expect_task(Ok(Reply::Task(row.clone()))), Ok(row));
    assert_eq!(expect_list(Ok(Reply::List(list.clone()))), Ok(list));
    assert_eq!(expect_done(Ok(Reply::Done)), Ok(()));
}

#[test]
fn replies_of_another_kind_are_failed_queries() {
    let wrong = || StoreError::Query("The store answered another query.".to_string());
    assert_eq!(expect_tasks(Ok(Reply::Done)), Err(wrong()));
    assert_eq!(expect_lists(Ok(Reply::Count(1))), Err(wrong()));
    assert_eq!(expect_ids(Ok(Reply::Done)), Err(wrong()));
    assert_eq!(expect_count(Ok(Reply::Ids(vec![]))), Err(wrong()));
    assert_eq!(expect_task(Ok(Reply::Tasks(vec![]))), Err(wrong()));
    assert_eq!(expect_list(Ok(Reply::Done)), Err(wrong()));
    assert_eq!(expect_done(Ok(Reply::Count(0))), Err(wrong()));
}

#[test]
fn failures_pass_through_the_unwrapping() {
    assert_eq!(expect_tasks(Err(unreachable_store())), Err(unreachable_store()));
    assert_eq!(expect_lists(Err(refused())), Err(refused()));
    assert_eq!(expect_ids(Err(refused())), Err(refused()));
    assert_eq!(expect_count(Err(refused())), Err(refused()));
    assert_eq!(expect_task(Err(refused())), Err(refused()));
    assert_eq!(expect_list(Err(refused())), Err(refused()));
    assert_eq!(expect_done(Err(unreachable_store())), Err(unreachable_store()));
}
