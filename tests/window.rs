use done_sync::list::List;
use done_sync::rows::{
    ContentInput, ListData, ListOutput, Plugin, PluginPreferences, PreferencesComponentInput,
    ProviderInput, ServiceRowEffect, ServiceRowModel, ServiceRowOutput, TaskData, TaskOutput,
};
use done_sync::service::{Availability, Dispatcher, Service};
use done_sync::sidebar::{SidebarCommand, TaskListSidebarModel, TaskListSidebarStatus};
use done_sync::window::{App, AppCommand, AppMsg, Pane, ViewChange};

fn groceries() -> List {
    List {
        id: "g".to_string(),
        name: "Groceries".to_string(),
        description: String::new(),
        icon: None,
        service: Service::Local,
    }
}

#[test]
fn selecting_a_list_sets_title_and_hides_warning() {
    let mut app = App::new();
    assert!(app.warning_revealed);
    match app.update(AppMsg::ListSelected(groceries())) {
        AppCommand::SetTaskList(l) => assert_eq!(l.id, "g"),
        other => panic!("unexpected {:?}", other),
    }
    assert_eq!(app.content_title, Some("Groceries".to_string()));
    assert!(!app.warning_revealed);
    assert!(matches!(app.update(AppMsg::Quit), AppCommand::Quit));
}

#[test]
fn folding_shows_open_list_or_sidebar() {
    let mut app = App::new();
    app.update(AppMsg::Folded);
    assert_eq!(
        app.post_view(),
        ViewChange { visible: Some(Pane::Sidebar), back_button: Some(true), title_buttons: Some(true) }
    );
    app.update(AppMsg::ListSelected(groceries()));
    app.update(AppMsg::Folded);
    assert_eq!(app.post_view().visible, Some(Pane::Content));
    app.update(AppMsg::Unfolded);
    assert_eq!(
        app.post_view(),
        ViewChange { visible: None, back_button: Some(false), title_buttons: Some(false) }
    );
    app.update(AppMsg::Back);
    assert_eq!(app.post_view().visible, Some(Pane::Sidebar));
    app.update(AppMsg::Forward);
    assert_eq!(app.post_view().visible, Some(Pane::Content));
    app.update(AppMsg::CloseWarning);
    assert!(!app.warning_revealed);
}

#[test]
fn provider_selection_is_passed_on() {
    let mut app = App::new();
    let p = Plugin { service: Service::Google, name: "Google".to_string(), description: String::new() };
    match app.update(AppMsg::ProviderSelected(p)) {
        AppCommand::SetProvider(p) => assert_eq!(p.service, Service::Google),
        other => panic!("unexpected {:?}", other),
    }
}

#[test]
fn service_row_switch_starts_on_when_enabled() {
    let prefs = |enabled| PluginPreferences {
        plugin: Plugin { service: Service::Local, name: "Local".to_string(), description: String::new() },
        enabled,
        installed: true,
        update: false,
    };
    let on = ServiceRowModel::init_model(prefs(true));
    assert!(matches!(on.init_widgets(), ServiceRowEffect::SetSwitch(true)));
    let off = ServiceRowModel::init_model(prefs(false));
    assert!(matches!(off.init_widgets(), ServiceRowEffect::Nothing));
}

#[test]
fn row_outputs_become_parent_inputs() {
    let p = Plugin { service: Service::Local, name: "Local".to_string(), description: String::new() };
    assert!(matches!(
        ServiceRowModel::output_to_parent_input(ServiceRowOutput::RemovePlugin(2, p)),
        Some(PreferencesComponentInput::RemovePlugin(2, _))
    ));
    assert!(matches!(
        ListData::output_to_parent_input(ListOutput::Forward),
        Some(ProviderInput::Forward(true))
    ));
    assert!(matches!(
        ListData::output_to_parent_input(ListOutput::DeleteTaskList(5)),
        Some(ProviderInput::DeleteTaskList(5))
    ));
    assert!(matches!(
        TaskData::output_to_parent_input(TaskOutput::Remove(1)),
        Some(ContentInput::RemoveTask(1))
    ));
}

#[test]
fn sidebar_init_starts_a_load() {
    let mut d = Dispatcher::new();
    d.set_availability(Service::Microsoft, Availability::Available { stream_support: true });
    let (m, c) = TaskListSidebarModel::init(Service::Microsoft, d, 0);
    assert!(matches!(c, SidebarCommand::StreamLists { service: Service::Microsoft, generation: 1 }));
    assert_eq!(m.state, TaskListSidebarStatus::Loading);
    let (m, c) = TaskListSidebarModel::init(Service::Google, d, 0);
    assert!(matches!(c, SidebarCommand::Nothing));
    assert_eq!(m.service, Service::Smart);
    assert_eq!(m.lists.len(), 2);
    assert_eq!(m.state, TaskListSidebarStatus::Empty);
}
