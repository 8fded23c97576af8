use vstd::prelude::*;

use crate::list::{List, ListModel};
use crate::provider::ProviderResponse;
use crate::service::Service;
use crate::task::{Task, TaskModel, TaskStatus};

verus! {

// ---------------------------------------------------------------------------
// A plugin in the preferences
// ---------------------------------------------------------------------------

/// A provider plugin as the preferences list it.
#[derive(Debug)]
pub struct Plugin {
    pub service: Service,
    pub name: String,
    pub description: String,
}

impl Clone for Plugin {
    fn clone(&self) -> (r: Plugin)
        ensures
            r.service == self.service,
            r.name@ == self.name@,
            r.description@ == self.description@,
    {
        Plugin {
            service: self.service,
            name: self.name.clone(),
            description: self.description.clone(),
        }
    }
}

/// What the preferences know of a plugin when its row is made.
#[derive(Debug)]
pub struct PluginPreferences {
    pub plugin: Plugin,
    pub enabled: bool,
    pub installed: bool,
    pub update: bool,
}

/// One row of the preferences: a plugin and its switches.
#[derive(Debug)]
pub struct ServiceRowModel {
    pub plugin: Plugin,
    pub enabled: bool,
    pub installed: bool,
    pub update: bool,
    pub first_load: bool,
}

#[derive(Clone, Copy, Debug, PartialEq, Eq, Structural)]
pub enum ServiceRowInput {
    InstallPlugin(usize),
    EnablePlugin(usize),
    DisablePlugin(usize),
    RemovePlugin(usize),
    UpdatePlugin(usize),
    ShowInstallButton(bool),
    SwitchOn(bool),
    ToggleSwitch(usize, bool),
    InformStatus(UpdateStatus),
}

#[derive(Clone, Copy, Debug, PartialEq, Eq, Structural)]
pub enum UpdateStatus {
    Completed,
    Failed,
}

#[derive(Debug)]
pub enum ServiceRowOutput {
    InstallPlugin(usize, Plugin),
    EnablePlugin(usize, Plugin),
    DisablePlugin(usize, Plugin),
    RemovePlugin(usize, Plugin),
    UpdatePlugin(usize, Plugin),
}

/// The messages of the preferences that a row's outputs become.
#[derive(Debug)]
pub enum PreferencesComponentInput {
    InstallPlugin(usize, Plugin),
    EnablePlugin(usize, Plugin),
    DisablePlugin(usize, Plugin),
    RemovePlugin(usize, Plugin),
    UpdatePlugin(usize, Plugin),
}

/// What a row asks of its runner after a message.
#[derive(Debug)]
pub enum ServiceRowEffect {
    Nothing,
    /// Send this message to the row itself.
    Input(ServiceRowInput),
    /// Send this to the preferences.
    Output(ServiceRowOutput),
    /// Set the row's switch to this state.
    SetSwitch(bool),
}

/// The output that carries `index` and a copy of the row's plugin.
pub open spec fn output_is(o: ServiceRowOutput, kind: int, index: usize, p: Plugin) -> bool {
    let (k, i, q) = match o {
        ServiceRowOutput::InstallPlugin(i, q) => (0int, i, q),
        ServiceRowOutput::EnablePlugin(i, q) => (1int, i, q),
        ServiceRowOutput::DisablePlugin(i, q) => (2int, i, q),
        ServiceRowOutput::RemovePlugin(i, q) => (3int, i, q),
        ServiceRowOutput::UpdatePlugin(i, q) => (4int, i, q),
    };
    k == kind && i == index && q.service == p.service && q.name@ == p.name@ && q.description@
        == p.description@
}

pub open spec fn effect_outputs(e: ServiceRowEffect, kind: int, index: usize, p: Plugin) -> bool {
    match e {
        ServiceRowEffect::Output(o) => output_is(o, kind, index, p),
        _ => false,
    }
}

impl ServiceRowModel {
    /// A row as the preferences describe it; the first message only settles the switch.
    pub fn init_model(prefs: PluginPreferences) -> (r: ServiceRowModel)
        ensures
            r.plugin == prefs.plugin,
            r.enabled == prefs.enabled,
            r.installed == prefs.installed,
            r.update == prefs.update,
            r.first_load,
    {
        ServiceRowModel {
            plugin: prefs.plugin,
            enabled: prefs.enabled,
            installed: prefs.installed,
            update: prefs.update,
            first_load: true,
        }
    }

    /// Each output becomes the preferences message of the same name.
    pub fn output_to_parent_input(output: ServiceRowOutput) -> (r: Option<
        PreferencesComponentInput,
    >)
        ensures
            r == Some(
                match output {
                    ServiceRowOutput::InstallPlugin(i, p) => PreferencesComponentInput::InstallPlugin(
                        i,
                        p,
                    ),
                    ServiceRowOutput::EnablePlugin(i, p) => PreferencesComponentInput::EnablePlugin(
                        i,
                        p,
                    ),
                    ServiceRowOutput::DisablePlugin(i, p) => PreferencesComponentInput::DisablePlugin(
                        i,
                        p,
                    ),
                    ServiceRowOutput::RemovePlugin(i, p) => PreferencesComponentInput::RemovePlugin(
                        i,
                        p,
                    ),
                    ServiceRowOutput::UpdatePlugin(i, p) => PreferencesComponentInput::UpdatePlugin(
                        i,
                        p,
                    ),
                },
            ),
    {
        let input = match output {
            ServiceRowOutput::InstallPlugin(index, plugin) => {
                PreferencesComponentInput::InstallPlugin(index, plugin)
            },
            ServiceRowOutput::EnablePlugin(index, plugin) => {
                PreferencesComponentInput::EnablePlugin(index, plugin)
            },
            ServiceRowOutput::DisablePlugin(index, plugin) => {
                PreferencesComponentInput::DisablePlugin(index, plugin)
            },
            ServiceRowOutput::RemovePlugin(index, plugin) => {
                PreferencesComponentInput::RemovePlugin(index, plugin)
            },
            ServiceRowOutput::UpdatePlugin(index, plugin) => {
                PreferencesComponentInput::UpdatePlugin(index, plugin)
            },
        };
        Some(input)
    }

    /// The switch starts on for an enabled plugin.
    pub fn init_widgets(&self) -> (r: ServiceRowEffect)
        ensures
            r == (if self.enabled {
                ServiceRowEffect::SetSwitch(true)
            } else {
                ServiceRowEffect::Nothing
            }),
    {
        if self.enabled {
            ServiceRowEffect::SetSwitch(true)
        } else {
            ServiceRowEffect::Nothing
        }
    }

    /// Applies `message`. Enabling or disabling is passed on only after the
    /// first message, which is the switch being set to its stored state.
    pub fn update(&mut self, message: ServiceRowInput) -> (r: ServiceRowEffect)
        ensures
            !final(self).first_load,
            final(self).plugin == old(self).plugin,
            final(self).enabled == old(self).enabled,
            final(self).installed == match message {
                ServiceRowInput::ShowInstallButton(b) => !b,
                _ => old(self).installed,
            },
            final(self).update == match message {
                ServiceRowInput::InformStatus(UpdateStatus::Completed) => false,
                ServiceRowInput::InformStatus(UpdateStatus::Failed) => true,
                _ => old(self).update,
            },
            match message {
                ServiceRowInput::ToggleSwitch(i, true) => r == ServiceRowEffect::Input(
                    ServiceRowInput::EnablePlugin(i),
                ),
                ServiceRowInput::ToggleSwitch(i, false) => r == ServiceRowEffect::Input(
                    ServiceRowInput::DisablePlugin(i),
                ),
                ServiceRowInput::InstallPlugin(i) => effect_outputs(r, 0, i, old(self).plugin),
                ServiceRowInput::EnablePlugin(i) => if old(self).first_load {
                    r is Nothing
                } else {
                    effect_outputs(r, 1, i, old(self).plugin)
                },
                ServiceRowInput::DisablePlugin(i) => if old(self).first_load {
                    r is Nothing
                } else {
                    effect_outputs(r, 2, i, old(self).plugin)
                },
                ServiceRowInput::RemovePlugin(i) => effect_outputs(r, 3, i, old(self).plugin),
                ServiceRowInput::UpdatePlugin(i) => effect_outputs(r, 4, i, old(self).plugin),
                ServiceRowInput::SwitchOn(b) => r == ServiceRowEffect::SetSwitch(b),
                _ => r is Nothing,
            },
    {
        let r = match message {
            ServiceRowInput::ToggleSwitch(index, state) => {
                if state {
                    ServiceRowEffect::Input(ServiceRowInput::EnablePlugin(index))
                } else {
                    ServiceRowEffect::Input(ServiceRowInput::DisablePlugin(index))
                }
            },
            ServiceRowInput::InstallPlugin(index) => ServiceRowEffect::Output(
                ServiceRowOutput::InstallPlugin(index, self.plugin.clone()),
            ),
            ServiceRowInput::EnablePlugin(index) => {
                if !self.first_load {
                    ServiceRowEffect::Output(
                        ServiceRowOutput::EnablePlugin(index, self.plugin.clone()),
                    )
                } else {
                    ServiceRowEffect::Nothing
                }
            },
            ServiceRowInput::DisablePlugin(index) => {
                if !self.first_load {
                    ServiceRowEffect::Output(
                        ServiceRowOutput::DisablePlugin(index, self.plugin.clone()),
                    )
                } else {
                    ServiceRowEffect::Nothing
                }
            },
            ServiceRowInput::RemovePlugin(index) => ServiceRowEffect::Output(
                ServiceRowOutput::RemovePlugin(index, self.plugin.clone()),
            ),
            ServiceRowInput::UpdatePlugin(index) => ServiceRowEffect::Output(
                ServiceRowOutput::UpdatePlugin(index, self.plugin.clone()),
            ),
            ServiceRowInput::InformStatus(status) => {
                match status {
                    UpdateStatus::Completed => self.update = false,
                    UpdateStatus::Failed => self.update = true,
                }
                ServiceRowEffect::Nothing
            },
            ServiceRowInput::ShowInstallButton(enable) => {
                self.installed = !enable;
                ServiceRowEffect::Nothing
            },
            ServiceRowInput::SwitchOn(enabled) => ServiceRowEffect::SetSwitch(enabled),
        };
        self.first_load = false;
        r
    }
}

// ---------------------------------------------------------------------------
// A list row
// ---------------------------------------------------------------------------

/// A row that shows one list of a provider.
#[derive(Debug)]
pub struct ListData {
    pub data: List,
}

/// The user's requests, and the plugin's answers to the calls they cause.
#[derive(Debug)]
pub enum ListInput {
    Select,
    Delete(usize),
    Rename(String),
    ChangeIcon(String),
    Renamed(String, ProviderResponse),
    IconChanged(String, ProviderResponse),
    Deleted(usize, ProviderResponse),
}

#[derive(Debug)]
pub enum ListOutput {
    Select(List),
    DeleteTaskList(usize),
    Forward,
}

/// The messages of the provider group that a list row's outputs become.
#[derive(Debug)]
pub enum ProviderInput {
    ListSelected(List),
    DeleteTaskList(usize),
    Forward(bool),
}

/// What a list row asks of its runner.
#[derive(Debug)]
pub enum ListCommand {
    Nothing,
    /// Send `list` to the plugin as an update; answer with `Renamed` or `IconChanged`.
    UpdateList(List),
    /// Ask the plugin to delete the list `id`; answer with `Deleted`.
    DeleteList(usize, String),
    Output(ListOutput),
}

impl ListData {
    /// Selecting a list opens it, a deletion removes the row, and `Forward`
    /// moves the view on to the list.
    pub fn output_to_parent_input(output: ListOutput) -> (r: Option<ProviderInput>)
        ensures
            r == Some(
                match output {
                    ListOutput::Select(l) => ProviderInput::ListSelected(l),
                    ListOutput::DeleteTaskList(i) => ProviderInput::DeleteTaskList(i),
                    ListOutput::Forward => ProviderInput::Forward(true),
                },
            ),
    {
        match output {
            ListOutput::Select(list) => Some(ProviderInput::ListSelected(list)),
            ListOutput::DeleteTaskList(index) => Some(ProviderInput::DeleteTaskList(index)),
            ListOutput::Forward => Some(ProviderInput::Forward(true)),
        }
    }

    /// Applies `message`. A list of the smart service has no plugin: it can
    /// only be selected.
    pub fn update(&mut self, message: ListInput) -> (r: ListCommand)
        ensures
            final(self).data@ == match message {
                ListInput::Renamed(name, resp) => if resp.successful && old(self).data@.service
                    != Service::Smart {
                    ListModel { name: name@, ..old(self).data@ }
                } else {
                    old(self).data@
                },
                ListInput::IconChanged(icon, resp) => if resp.successful && old(self).data@.service
                    != Service::Smart {
                    ListModel { icon: Some(icon@), ..old(self).data@ }
                } else {
                    old(self).data@
                },
                _ => old(self).data@,
            },
            match message {
                ListInput::Select => match r {
                    ListCommand::Output(ListOutput::Select(l)) => l@ == old(self).data@,
                    _ => false,
                },
                ListInput::Rename(name) => if old(self).data@.service != Service::Smart {
                    match r {
                        ListCommand::UpdateList(l) => l@ == (ListModel {
                            name: name@,
                            ..old(self).data@
                        }),
                        _ => false,
                    }
                } else {
                    r is Nothing
                },
                ListInput::ChangeIcon(icon) => if old(self).data@.service != Service::Smart {
                    match r {
                        ListCommand::UpdateList(l) => l@ == (ListModel {
                            icon: Some(icon@),
                            ..old(self).data@
                        }),
                        _ => false,
                    }
                } else {
                    r is Nothing
                },
                ListInput::Delete(index) => if old(self).data@.service != Service::Smart {
                    match r {
                        ListCommand::DeleteList(i, id) => i == index && id@ == old(self).data@.id,
                        _ => false,
                    }
                } else {
                    r is Nothing
                },
                ListInput::Deleted(index, resp) => if resp.successful && old(self).data@.service
                    != Service::Smart {
                    r matches ListCommand::Output(ListOutput::DeleteTaskList(i)) && i == index
                } else {
                    r is Nothing
                },
                _ => r is Nothing,
            },
    {
        if let ListInput::Select = message {
            return ListCommand::Output(ListOutput::Select(self.data.clone()));
        }
        if self.data.service.is_smart() {
            return ListCommand::Nothing;
        }
        match message {
            ListInput::Rename(name) => {
                let mut list = self.data.clone();
                list.name = name;
                ListCommand::UpdateList(list)
            },
            ListInput::ChangeIcon(icon) => {
                let mut list = self.data.clone();
                list.icon = Some(icon);
                ListCommand::UpdateList(list)
            },
            ListInput::Delete(index) => ListCommand::DeleteList(index, self.data.id.clone()),
            ListInput::Renamed(name, resp) => {
                if resp.successful {
                    self.data.name = name;
                }
                ListCommand::Nothing
            },
            ListInput::IconChanged(icon, resp) => {
                if resp.successful {
                    self.data.icon = Some(icon);
                }
                ListCommand::Nothing
            },
            ListInput::Deleted(index, resp) => {
                if resp.successful {
                    ListCommand::Output(ListOutput::DeleteTaskList(index))
                } else {
                    ListCommand::Nothing
                }
            },
            ListInput::Select => ListCommand::Nothing,
        }
    }
}

// ---------------------------------------------------------------------------
// A task row
// ---------------------------------------------------------------------------

/// A row that shows one task.
#[derive(Debug)]
pub struct TaskData {
    pub data: Task,
}

#[derive(Debug)]
pub enum TaskInput {
    SetCompleted(bool),
    Favorite(usize),
    ModifyTitle(String),
}

#[derive(Debug)]
pub enum TaskOutput {
    Remove(usize),
    UpdateTask(Option<usize>, Task),
}

/// The messages of the content pane that a task row's outputs become.
#[derive(Debug)]
pub enum ContentInput {
    RemoveTask(usize),
    UpdateTask(Option<usize>, Task),
}

impl TaskData {
    pub fn output_to_parent_input(output: TaskOutput) -> (r: Option<ContentInput>)
        ensures
            r == Some(
                match output {
                    TaskOutput::Remove(i) => ContentInput::RemoveTask(i),
                    TaskOutput::UpdateTask(i, t) => ContentInput::UpdateTask(i, t),
                },
            ),
    {
        Some(
            match output {
                TaskOutput::Remove(index) => ContentInput::RemoveTask(index),
                TaskOutput::UpdateTask(index, task) => ContentInput::UpdateTask(index, task),
            },
        )
    }

    /// Applies `message` to the task and hands the changed task on to be saved.
    pub fn update(&mut self, message: TaskInput) -> (r: TaskOutput)
        ensures
            final(self).data@ == match message {
                TaskInput::SetCompleted(done) => TaskModel {
                    status: if done {
                        TaskStatus::Completed
                    } else {
                        TaskStatus::NotStarted
                    },
                    ..old(self).data@
                },
                TaskInput::Favorite(_) => TaskModel {
                    favorite: !old(self).data@.favorite,
                    ..old(self).data@
                },
                TaskInput::ModifyTitle(title) => TaskModel { title: title@, ..old(self).data@ },
            },
            match r {
                TaskOutput::UpdateTask(index, t) => t@ == final(self).data@ && index == match message {
                    TaskInput::Favorite(i) => Some(i),
                    _ => None,
                },
                TaskOutput::Remove(_) => false,
            },
    {
        let index = match message {
            TaskInput::SetCompleted(completed) => {
                self.data.status = if completed {
                    TaskStatus::Completed
                } else {
                    TaskStatus::NotStarted
                };
                None
            },
            TaskInput::Favorite(index) => {
                self.data.favorite = !self.data.favorite;
                Some(index)
            },
            TaskInput::ModifyTitle(title) => {
                self.data.title = title;
                None
            },
        };
        TaskOutput::UpdateTask(index, self.data.clone())
    }
}

// ---------------------------------------------------------------------------
// The task details pane
// ---------------------------------------------------------------------------

/// Edits made in the details pane of a task. Dates are seconds since the Unix epoch.
#[derive(Debug)]
pub enum TaskDetailsFactoryInput {
    SaveTask,
    SetTitle(String),
    SetNotes(Option<String>),
    SetPriority(i32),
    SetFavorite(bool),
    SetStatus(bool),
    SetDueDate(Option<i64>),
    SetReminderDate(Option<i64>),
    CancelWarning,
}

#[derive(Debug)]
pub enum TaskDetailsFactoryOutput {
    SaveTask(Option<usize>, Box<Task>, bool),
    CleanTaskEntry,
    HideFlap,
}

} // verus!
