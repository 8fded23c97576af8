use done_sync::list::List;
use done_sync::provider::{MemoryProvider, ProviderResponse};
use done_sync::service::{Availability, DispatchError, Dispatcher, Route, Service};
use done_sync::sidebar::{
    SidebarCommand, SidebarList, TaskListSidebarInput, TaskListSidebarModel,
    TaskListSidebarOutput, TaskListSidebarStatus,
};
use done_sync::smart::{Aggregator, Next7DaysInput, Next7DaysModel, Next7DaysOutput, SmartList, TodayModel};
use done_sync::task::{Task, TaskStatus};

const DAY: i64 = 86400;
const TODAY: i64 = 20000 * DAY;

fn plain_list(id: &str, name: &str, service: Service) -> List {
    List {
        id: id.to_string(),
        name: name.to_string(),
        description: String::new(),
        icon: None,
        service,
    }
}

fn task(id: &str, due: Option<i64>) -> Task {
    Task {
        id: id.to_string(),
        title: format!("task {}", id),
        status: TaskStatus::NotStarted,
        favorite: false,
        due_date: due,
        reminder_date: None,
        list_id: "l1".to_string(),
        notes: None,
        priority: 0,
    }
}

fn names(m: &TaskListSidebarModel) -> Vec<String> {
    m.lists
        .iter()
        .map(|l| match l {
            SidebarList::Custom(l) => l.name.clone(),
            SidebarList::Smart(SmartList::Today) => "<today>".to_string(),
            SidebarList::Smart(SmartList::Next7Days) => "<next7>".to_string(),
        })
        .collect()
}

fn engine(service: Service, stream: bool) -> TaskListSidebarModel {
    let mut m = TaskListSidebarModel::new(service, TODAY);
    m.update(TaskListSidebarInput::ServiceEnabled(service, stream));
    m
}

#[test]
fn create_then_read_all_on_polling_stub() {
    let mut p = MemoryProvider::new("local", "Local", "Lists on this machine", "local-icon");
    assert!(!p.stream_support());
    let l = plain_list("g1", "Groceries", Service::Local);
    assert!(p.create_list(l).successful);
    let all = p.read_all_lists();
    assert!(all.iter().any(|l| l.name == "Groceries"));

    let mut m = engine(Service::Local, false);
    let c = m.update(TaskListSidebarInput::LoadTaskLists);
    let g = match c {
        SidebarCommand::FetchLists { service, generation } => {
            assert_eq!(service, Service::Local);
            generation
        },
        other => panic!("unexpected {:?}", other),
    };
    m.update(TaskListSidebarInput::ListsFetched(g, all));
    assert_eq!(names(&m), vec!["Groceries".to_string()]);
    assert_eq!(m.state, TaskListSidebarStatus::Loaded);
}

#[test]
fn provider_identity_and_duplicates() {
    let mut p = MemoryProvider::new("local", "Local", "desc", "icon");
    assert_eq!(p.get_id(), "local");
    assert_eq!(p.get_name(), "Local");
    assert_eq!(p.get_description(), "desc");
    assert_eq!(p.get_icon_name(), "icon");
    assert!(p.create_list(plain_list("a", "A", Service::Local)).successful);
    assert!(!p.create_list(plain_list("a", "B", Service::Local)).successful);
    assert_eq!(p.read_all_lists().len(), 1);
    assert_eq!(p.read_list(&"a".to_string()).map(|l| l.name), Some("A".to_string()));
    assert!(p.read_list(&"b".to_string()).is_none());
    assert!(p.update_list(plain_list("a", "A2", Service::Local)).successful);
    assert_eq!(p.read_list(&"a".to_string()).map(|l| l.name), Some("A2".to_string()));
    assert!(!p.update_list(plain_list("zz", "Z", Service::Local)).successful);
    assert!(p.delete_list(&"a".to_string()).successful);
    assert!(p.read_all_lists().is_empty());
}

#[test]
fn provider_tasks_crud() {
    let mut p = MemoryProvider::new("local", "Local", "", "");
    assert!(p.create_task(task("t1", None)).successful);
    assert!(!p.create_task(task("t1", None)).successful);
    let mut other = task("t2", None);
    other.list_id = "l2".to_string();
    assert!(p.create_task(other).successful);
    let of_l1 = p.read_all_tasks(&"l1".to_string());
    assert_eq!(of_l1.len(), 1);
    assert_eq!(of_l1[0].id, "t1");
    let mut changed = task("t1", Some(5));
    changed.title = "renamed".to_string();
    assert!(p.update_task(changed).successful);
    assert_eq!(p.read_task(&"t1".to_string()).map(|t| t.title), Some("renamed".to_string()));
    assert!(p.delete_task(&"t2".to_string()).successful);
    assert!(!p.delete_task(&"t2".to_string()).successful);
    assert!(p.read_task(&"t2".to_string()).is_none());
}

#[test]
fn unimplemented_is_an_explicit_failure() {
    let r = ProviderResponse::unimplemented();
    assert!(!r.successful);
    assert!(!r.message.is_empty());
}

#[test]
fn deleting_missing_list_keeps_cache() {
    let mut p = MemoryProvider::new("local", "Local", "", "");
    p.create_list(plain_list("a", "A", Service::Local));
    let resp = p.delete_list(&"missing".to_string());
    assert!(!resp.successful);
    assert_eq!(p.read_all_lists().len(), 1);

    let mut m = engine(Service::Local, false);
    let g = match m.update(TaskListSidebarInput::LoadTaskLists) {
        SidebarCommand::FetchLists { generation, .. } => generation,
        other => panic!("unexpected {:?}", other),
    };
    m.update(TaskListSidebarInput::ListsFetched(g, p.read_all_lists()));
    let before = m.lists.len();
    match m.update(TaskListSidebarInput::DeleteTaskList(0, "missing".to_string())) {
        SidebarCommand::DeleteList { service, index, id } => {
            assert_eq!(service, Service::Local);
            assert_eq!(index, 0);
            assert_eq!(id, "missing");
        },
        other => panic!("unexpected {:?}", other),
    }
    let c = m.update(TaskListSidebarInput::ListDeleted(0, "missing".to_string(), resp));
    assert!(matches!(c, SidebarCommand::Nothing));
    assert_eq!(m.lists.len(), before);
}

#[test]
fn deleting_present_list_removes_entry() {
    let mut m = engine(Service::Local, false);
    let g = match m.update(TaskListSidebarInput::LoadTaskLists) {
        SidebarCommand::FetchLists { generation, .. } => generation,
        other => panic!("unexpected {:?}", other),
    };
    m.update(TaskListSidebarInput::ListsFetched(g, vec![plain_list("a", "A", Service::Local)]));
    let ok = ProviderResponse::success("deleted");
    let c = m.update(TaskListSidebarInput::ListDeleted(0, "a".to_string(), ok));
    assert!(matches!(c, SidebarCommand::Output(TaskListSidebarOutput::CleanContent)));
    assert!(m.lists.is_empty());
    assert_eq!(m.state, TaskListSidebarStatus::Empty);
}

#[test]
fn polling_load_emits_one_batch() {
    let mut m = engine(Service::Google, false);
    m.update(TaskListSidebarInput::ListsFetched(0, vec![plain_list("old", "Old", Service::Google)]));
    let g = match m.update(TaskListSidebarInput::LoadTaskLists) {
        SidebarCommand::FetchLists { generation, .. } => generation,
        other => panic!("unexpected {:?}", other),
    };
    assert_eq!(m.state, TaskListSidebarStatus::Loading);
    assert!(m.lists.is_empty());
    let batch = vec![
        plain_list("1", "One", Service::Google),
        plain_list("2", "Two", Service::Google),
    ];
    m.update(TaskListSidebarInput::ListsFetched(g, batch));
    assert_eq!(names(&m), vec!["One".to_string(), "Two".to_string()]);
    assert_eq!(m.state, TaskListSidebarStatus::Loaded);
}

#[test]
fn polling_load_of_nothing_is_empty() {
    let mut m = engine(Service::Google, false);
    let g = match m.update(TaskListSidebarInput::LoadTaskLists) {
        SidebarCommand::FetchLists { generation, .. } => generation,
        other => panic!("unexpected {:?}", other),
    };
    m.update(TaskListSidebarInput::ListsFetched(g, vec![]));
    assert_eq!(m.state, TaskListSidebarStatus::Empty);
}

#[test]
fn streaming_load_keeps_delivery_order() {
    let mut m = engine(Service::Microsoft, true);
    let g = match m.update(TaskListSidebarInput::LoadTaskLists) {
        SidebarCommand::StreamLists { service, generation } => {
            assert_eq!(service, Service::Microsoft);
            generation
        },
        other => panic!("unexpected {:?}", other),
    };
    assert_eq!(m.state, TaskListSidebarStatus::Loading);
    for (id, name) in [("3", "C"), ("1", "A"), ("2", "B")] {
        m.update(TaskListSidebarInput::LoadTaskList(g, plain_list(id, name, Service::Microsoft)));
        assert_eq!(m.state, TaskListSidebarStatus::Loaded);
    }
    m.update(TaskListSidebarInput::StreamFinished(g));
    assert_eq!(names(&m), vec!["C".to_string(), "A".to_string(), "B".to_string()]);
    assert_eq!(m.state, TaskListSidebarStatus::Loaded);
}

#[test]
fn streaming_load_of_nothing_is_empty() {
    let mut m = engine(Service::Microsoft, true);
    let g = match m.update(TaskListSidebarInput::LoadTaskLists) {
        SidebarCommand::StreamLists { generation, .. } => generation,
        other => panic!("unexpected {:?}", other),
    };
    m.update(TaskListSidebarInput::StreamFinished(g));
    assert_eq!(m.state, TaskListSidebarStatus::Empty);
    assert!(m.lists.is_empty());
}

#[test]
fn newer_load_drops_older_stream_items() {
    let mut m = engine(Service::Microsoft, true);
    let g1 = match m.update(TaskListSidebarInput::LoadTaskLists) {
        SidebarCommand::StreamLists { generation, .. } => generation,
        other => panic!("unexpected {:?}", other),
    };
    m.update(TaskListSidebarInput::LoadTaskList(g1, plain_list("a", "Early", Service::Microsoft)));
    let g2 = match m.update(TaskListSidebarInput::LoadTaskLists) {
        SidebarCommand::StreamLists { generation, .. } => generation,
        other => panic!("unexpected {:?}", other),
    };
    assert_eq!(g2, g1 + 1);
    m.update(TaskListSidebarInput::LoadTaskList(g1, plain_list("b", "Late", Service::Microsoft)));
    m.update(TaskListSidebarInput::StreamFinished(g1));
    assert!(m.lists.is_empty());
    assert_eq!(m.state, TaskListSidebarStatus::Loading);
    m.update(TaskListSidebarInput::LoadTaskList(g2, plain_list("c", "Fresh", Service::Microsoft)));
    m.update(TaskListSidebarInput::StreamFinished(g2));
    assert_eq!(names(&m), vec!["Fresh".to_string()]);
}

#[test]
fn disabled_service_falls_back_to_smart() {
    let mut m = engine(Service::Microsoft, true);
    m.update(TaskListSidebarInput::LoadTaskLists);
    let c = m.update(TaskListSidebarInput::ServiceDisabled(Service::Microsoft));
    assert!(matches!(c, SidebarCommand::Nothing));
    assert_eq!(m.service, Service::Smart);
    assert_eq!(names(&m), vec!["<today>".to_string(), "<next7>".to_string()]);
    assert_eq!(m.state, TaskListSidebarStatus::Empty);
    m.update(TaskListSidebarInput::TasksFetched(Service::Local, vec![task("far", Some(TODAY + 30 * DAY))]));
    assert_eq!(m.state, TaskListSidebarStatus::Empty);
    m.update(TaskListSidebarInput::TasksFetched(Service::Google, vec![task("soon", Some(TODAY + 2 * DAY))]));
    assert_eq!(m.state, TaskListSidebarStatus::Loaded);
}

#[test]
fn unavailable_service_loads_smart() {
    let mut m = TaskListSidebarModel::new(Service::Google, TODAY);
    let c = m.update(TaskListSidebarInput::LoadTaskLists);
    assert!(matches!(c, SidebarCommand::Nothing));
    assert_eq!(m.service, Service::Smart);
}

#[test]
fn create_list_goes_to_plugin_and_back() {
    let mut m = engine(Service::Local, false);
    let list = match m.update(TaskListSidebarInput::AddTaskListToSidebar("Groceries".to_string())) {
        SidebarCommand::CreateList { service, list } => {
            assert_eq!(service, Service::Local);
            list
        },
        other => panic!("unexpected {:?}", other),
    };
    assert_eq!(list.name, "Groceries");
    assert!(m.lists.is_empty());
    let mut p = MemoryProvider::new("local", "Local", "", "");
    let resp = p.create_list(list.clone());
    m.update(TaskListSidebarInput::ListCreated(list, resp));
    assert_eq!(names(&m), vec!["Groceries".to_string()]);
    assert_eq!(m.state, TaskListSidebarStatus::Loaded);
}

#[test]
fn failed_create_leaves_cache() {
    let mut m = engine(Service::Local, false);
    let l = plain_list("x", "X", Service::Local);
    m.update(TaskListSidebarInput::ListCreated(l, ProviderResponse::failure("no")));
    assert!(m.lists.is_empty());
}

#[test]
fn select_and_dialog_commands() {
    let mut m = engine(Service::Local, false);
    assert!(matches!(m.update(TaskListSidebarInput::OpenNewTaskListDialog), SidebarCommand::PresentListDialog));
    match m.update(TaskListSidebarInput::SelectList(SidebarList::Smart(SmartList::Today))) {
        SidebarCommand::Output(TaskListSidebarOutput::SelectList(SidebarList::Smart(SmartList::Today), s)) => {
            assert_eq!(s, Service::Local)
        },
        other => panic!("unexpected {:?}", other),
    }
}

#[test]
fn dispatcher_routes() {
    let mut d = Dispatcher::new();
    assert_eq!(d.resolve(Service::Smart), Ok(Route::Smart));
    assert_eq!(d.resolve(Service::Local), Err(DispatchError::ServiceUnavailable(Service::Local)));
    d.set_availability(Service::Local, Availability::Available { stream_support: true });
    assert_eq!(
        d.resolve(Service::Local),
        Ok(Route::Plugin { service: Service::Local, stream_support: true })
    );
    d.set_availability(Service::Local, Availability::Unavailable);
    assert!(d.resolve(Service::Local).is_err());
}

#[test]
fn smart_views_filter_by_due_date() {
    let mut a = Aggregator::new();
    a.set_tasks(
        Service::Local,
        vec![
            task("today-early", Some(TODAY)),
            task("yesterday", Some(TODAY - 1)),
            task("none", None),
        ],
    );
    a.set_tasks(
        Service::Microsoft,
        vec![task("today-late", Some(TODAY + DAY - 1)), task("day6", Some(TODAY + 7 * DAY - 1))],
    );
    a.set_tasks(Service::Google, vec![task("day7", Some(TODAY + 7 * DAY))]);
    a.set_tasks(Service::Smart, vec![task("ignored", Some(TODAY))]);
    let today: Vec<String> = a.smart_view(SmartList::Today, TODAY).into_iter().map(|t| t.id).collect();
    assert_eq!(today, vec!["today-early".to_string(), "today-late".to_string()]);
    let week: Vec<String> = a.smart_view(SmartList::Next7Days, TODAY).into_iter().map(|t| t.id).collect();
    assert_eq!(
        week,
        vec!["today-early".to_string(), "today-late".to_string(), "day6".to_string()]
    );
    assert!(a.has_smart_tasks(TODAY));
    assert!(!a.has_smart_tasks(TODAY + 30 * DAY));
    assert_eq!(TodayModel::new(&a, TODAY).tasks.len(), 2);
    let mut n = Next7DaysModel::new(&a, TODAY);
    assert_eq!(n.tasks.len(), 3);
    assert_eq!(n.update(&a, Next7DaysInput::Refresh(TODAY + DAY)), Next7DaysOutput::Refreshed(2));
}

#[test]
fn aggregator_save_and_remove() {
    let mut a = Aggregator::new();
    a.save_task(Service::Local, task("t1", None));
    a.save_task(Service::Local, task("t2", None));
    let mut changed = task("t1", Some(TODAY));
    changed.title = "changed".to_string();
    a.save_task(Service::Local, changed);
    let ids: Vec<(String, String)> = a.local.iter().map(|t| (t.id.clone(), t.title.clone())).collect();
    assert_eq!(
        ids,
        vec![("t1".to_string(), "changed".to_string()), ("t2".to_string(), "task t2".to_string())]
    );
    a.remove_task(Service::Local, &"t1".to_string());
    assert_eq!(a.local.len(), 1);
    assert_eq!(a.local[0].id, "t2");
    a.save_task(Service::Smart, task("s", None));
    assert!(a.microsoft.is_empty() && a.google.is_empty());
}

#[test]
fn acknowledged_task_changes_reach_smart_state() {
    let mut m = TaskListSidebarModel::new(Service::Smart, TODAY);
    m.update(TaskListSidebarInput::LoadTaskLists);
    assert_eq!(m.state, TaskListSidebarStatus::Empty);
    m.update(TaskListSidebarInput::TaskSaved(Service::Local, task("a", Some(TODAY)), ProviderResponse::failure("no")));
    assert_eq!(m.state, TaskListSidebarStatus::Empty);
    m.update(TaskListSidebarInput::TaskSaved(Service::Local, task("a", Some(TODAY)), ProviderResponse::success("ok")));
    assert_eq!(m.state, TaskListSidebarStatus::Loaded);
    m.update(TaskListSidebarInput::TaskDeleted(Service::Local, "a".to_string(), ProviderResponse::success("ok")));
    assert_eq!(m.state, TaskListSidebarStatus::Empty);
    m.update(TaskListSidebarInput::TaskSaved(Service::Local, task("b", Some(TODAY)), ProviderResponse::success("ok")));
    m.update(TaskListSidebarInput::DayStarted(TODAY + 10 * DAY));
    assert_eq!(m.state, TaskListSidebarStatus::Empty);
}

#[test]
fn acknowledged_list_update_replaces_entry() {
    let mut m = engine(Service::Local, false);
    let g = match m.update(TaskListSidebarInput::LoadTaskLists) {
        SidebarCommand::FetchLists { generation, .. } => generation,
        other => panic!("unexpected {:?}", other),
    };
    m.update(TaskListSidebarInput::ListsFetched(
        g,
        vec![plain_list("a", "A", Service::Local), plain_list("b", "B", Service::Local)],
    ));
    m.update(TaskListSidebarInput::ListUpdated(plain_list("b", "Bee", Service::Local), ProviderResponse::failure("no")));
    assert_eq!(names(&m), vec!["A".to_string(), "B".to_string()]);
    m.update(TaskListSidebarInput::ListUpdated(plain_list("b", "Bee", Service::Local), ProviderResponse::success("ok")));
    assert_eq!(names(&m), vec!["A".to_string(), "Bee".to_string()]);
}
