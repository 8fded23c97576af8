use done_sync::list::List;
use done_sync::provider::ProviderResponse;
use done_sync::rows::{
    ListCommand, ListData, ListInput, ListOutput, Plugin, PluginPreferences, ServiceRowEffect,
    ServiceRowInput, ServiceRowModel, ServiceRowOutput, TaskData, TaskInput, TaskOutput,
    UpdateStatus,
};
use done_sync::service::Service;
use done_sync::task::{Task, TaskStatus};

fn row() -> ServiceRowModel {
    ServiceRowModel::init_model(PluginPreferences {
        plugin: Plugin {
            service: Service::Google,
            name: "Google".to_string(),
            description: "Google Tasks".to_string(),
        },
        enabled: true,
        installed: true,
        update: true,
    })
}

#[test]
fn service_row_first_enable_is_silent() {
    let mut r = row();
    assert!(r.first_load);
    let e = r.update(ServiceRowInput::ToggleSwitch(3, true));
    assert!(matches!(e, ServiceRowEffect::Input(ServiceRowInput::EnablePlugin(3))));
    assert!(!r.first_load);
    let mut r = row();
    assert!(matches!(r.update(ServiceRowInput::EnablePlugin(3)), ServiceRowEffect::Nothing));
    match r.update(ServiceRowInput::EnablePlugin(3)) {
        ServiceRowEffect::Output(ServiceRowOutput::EnablePlugin(3, p)) => assert_eq!(p.name, "Google"),
        other => panic!("unexpected {:?}", other),
    }
    match r.update(ServiceRowInput::DisablePlugin(1)) {
        ServiceRowEffect::Output(ServiceRowOutput::DisablePlugin(1, p)) => {
            assert_eq!(p.service, Service::Google)
        },
        other => panic!("unexpected {:?}", other),
    }
}

#[test]
fn service_row_status_and_buttons() {
    let mut r = row();
    r.update(ServiceRowInput::InformStatus(UpdateStatus::Completed));
    assert!(!r.update);
    r.update(ServiceRowInput::InformStatus(UpdateStatus::Failed));
    assert!(r.update);
    r.update(ServiceRowInput::ShowInstallButton(true));
    assert!(!r.installed);
    assert!(matches!(r.update(ServiceRowInput::SwitchOn(false)), ServiceRowEffect::SetSwitch(false)));
    assert!(matches!(
        r.update(ServiceRowInput::InstallPlugin(2)),
        ServiceRowEffect::Output(ServiceRowOutput::InstallPlugin(2, _))
    ));
    assert!(matches!(
        r.update(ServiceRowInput::RemovePlugin(2)),
        ServiceRowEffect::Output(ServiceRowOutput::RemovePlugin(2, _))
    ));
    assert!(matches!(
        r.update(ServiceRowInput::UpdatePlugin(2)),
        ServiceRowEffect::Output(ServiceRowOutput::UpdatePlugin(2, _))
    ));
}

fn list_row(service: Service) -> ListData {
    ListData {
        data: List {
            id: "l1".to_string(),
            name: "Groceries".to_string(),
            description: String::new(),
            icon: Some("📌".to_string()),
            service,
        },
    }
}

#[test]
fn list_row_rename_waits_for_plugin() {
    let mut r = list_row(Service::Local);
    match r.update(ListInput::Rename("Food".to_string())) {
        ListCommand::UpdateList(l) => {
            assert_eq!(l.name, "Food");
            assert_eq!(l.id, "l1");
        },
        other => panic!("unexpected {:?}", other),
    }
    assert_eq!(r.data.name, "Groceries");
    r.update(ListInput::Renamed("Food".to_string(), ProviderResponse::failure("no")));
    assert_eq!(r.data.name, "Groceries");
    r.update(ListInput::Renamed("Food".to_string(), ProviderResponse::success("ok")));
    assert_eq!(r.data.name, "Food");
    match r.update(ListInput::ChangeIcon("🍎".to_string())) {
        ListCommand::UpdateList(l) => assert_eq!(l.icon, Some("🍎".to_string())),
        other => panic!("unexpected {:?}", other),
    }
    r.update(ListInput::IconChanged("🍎".to_string(), ProviderResponse::success("ok")));
    assert_eq!(r.data.icon, Some("🍎".to_string()));
}

#[test]
fn list_row_delete_and_select() {
    let mut r = list_row(Service::Local);
    match r.update(ListInput::Delete(4)) {
        ListCommand::DeleteList(4, id) => assert_eq!(id, "l1"),
        other => panic!("unexpected {:?}", other),
    }
    assert!(matches!(
        r.update(ListInput::Deleted(4, ProviderResponse::success("ok"))),
        ListCommand::Output(ListOutput::DeleteTaskList(4))
    ));
    assert!(matches!(r.update(ListInput::Deleted(4, ProviderResponse::failure("no"))), ListCommand::Nothing));
    match r.update(ListInput::Select) {
        ListCommand::Output(ListOutput::Select(l)) => assert_eq!(l.name, "Groceries"),
        other => panic!("unexpected {:?}", other),
    }
    let mut smart = list_row(Service::Smart);
    assert!(matches!(smart.update(ListInput::Delete(0)), ListCommand::Nothing));
    assert!(matches!(smart.update(ListInput::Select), ListCommand::Output(ListOutput::Select(_))));
}

#[test]
fn task_row_updates() {
    let mut t = TaskData {
        data: Task {
            id: "t".to_string(),
            title: "Milk".to_string(),
            status: TaskStatus::NotStarted,
            favorite: false,
            due_date: None,
            reminder_date: None,
            list_id: "l".to_string(),
            notes: Some("2%".to_string()),
            priority: 1,
        },
    };
    match t.update(TaskInput::SetCompleted(true)) {
        TaskOutput::UpdateTask(None, task) => assert_eq!(task.status, TaskStatus::Completed),
        other => panic!("unexpected {:?}", other),
    }
    match t.update(TaskInput::Favorite(6)) {
        TaskOutput::UpdateTask(Some(6), task) => assert!(task.favorite),
        other => panic!("unexpected {:?}", other),
    }
    match t.update(TaskInput::ModifyTitle("Oat milk".to_string())) {
        TaskOutput::UpdateTask(None, task) => {
            assert_eq!(task.title, "Oat milk");
            assert_eq!(task.notes, Some("2%".to_string()));
        },
        other => panic!("unexpected {:?}", other),
    }
    assert_eq!(t.data.status, TaskStatus::Completed);
}
