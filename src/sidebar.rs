use vstd::prelude::*;

use crate::list::{default_icon, List, ListModel};
use crate::provider::{has_list, task_models, ProviderResponse};
use crate::service::{Availability, Dispatcher, Route, Service};
use crate::smart::{saved, without_task, lemma_supplied_task_shows, due_in, Aggregator, AggregatorView, SmartList, DAY_SECONDS};
use crate::task::Task;

verus! {

/// One entry of the sidebar: a computed smart list or a list of a provider.
#[derive(Debug)]
pub enum SidebarList {
    Smart(SmartList),
    Custom(List),
}

/// The abstract value of a `SidebarList`.
pub enum SidebarListModel {
    Smart(SmartList),
    Custom(ListModel),
}

impl View for SidebarList {
    type V = SidebarListModel;

    open spec fn view(&self) -> SidebarListModel {
        match self {
            SidebarList::Smart(k) => SidebarListModel::Smart(*k),
            SidebarList::Custom(l) => SidebarListModel::Custom(l@),
        }
    }
}

impl Clone for SidebarList {
    fn clone(&self) -> (r: SidebarList)
        ensures
            r@ == self@,
    {
        match self {
            SidebarList::Smart(k) => SidebarList::Smart(*k),
            SidebarList::Custom(l) => SidebarList::Custom(l.clone()),
        }
    }
}

pub open spec fn sidebar_models(s: Seq<SidebarList>) -> Seq<SidebarListModel> {
    s.map_values(|l: SidebarList| l@)
}

/// The entries that a batch of provider lists becomes, in order.
pub open spec fn custom_entries(s: Seq<List>) -> Seq<SidebarListModel> {
    s.map_values(|l: List| SidebarListModel::Custom(l@))
}

/// The fixed lists of the smart service.
pub open spec fn smart_lists() -> Seq<SidebarListModel> {
    seq![SidebarListModel::Smart(SmartList::Today), SidebarListModel::Smart(SmartList::Next7Days)]
}

#[derive(Clone, Copy, Debug, PartialEq, Eq, Structural)]
pub enum TaskListSidebarStatus {
    Empty,
    Loading,
    Loaded,
}

/// What the engine is told: a request of the user, or the outcome of a call
/// that it asked for. Stream and batch results carry the generation of the
/// load that asked for them.
#[derive(Debug)]
pub enum TaskListSidebarInput {
    LoadTaskLists,
    OpenNewTaskListDialog,
    AddTaskListToSidebar(String),
    ListCreated(List, ProviderResponse),
    ListUpdated(List, ProviderResponse),
    LoadTaskList(u64, List),
    StreamFinished(u64),
    ListsFetched(u64, Vec<List>),
    FetchFailed(u64),
    ServiceSelected(Service),
    ServiceEnabled(Service, bool),
    ServiceDisabled(Service),
    SelectList(SidebarList),
    DeleteTaskList(usize, String),
    ListDeleted(usize, String, ProviderResponse),
    TasksFetched(Service, Vec<Task>),
    TaskSaved(Service, Task, ProviderResponse),
    TaskDeleted(Service, String, ProviderResponse),
    DayStarted(i64),
}

#[derive(Debug)]
pub enum TaskListSidebarOutput {
    SelectList(SidebarList, Service),
    CleanContent,
}

/// What the engine asks its runner to do next.
#[derive(Debug)]
pub enum SidebarCommand {
    Nothing,
    PresentListDialog,
    /// Open a streamed read of every list; send each as `LoadTaskList`, then `StreamFinished`.
    StreamLists { service: Service, generation: u64 },
    /// Read every list in one call; send them as `ListsFetched`.
    FetchLists { service: Service, generation: u64 },
    /// Ask the plugin to create `list`; send the answer as `ListCreated`.
    CreateList { service: Service, list: List },
    /// Ask the plugin to delete the list; send the answer as `ListDeleted`.
    DeleteList { service: Service, index: usize, id: String },
    Output(TaskListSidebarOutput),
}

/// The synchronisation engine of the list sidebar, with the canonical cache.
pub struct TaskListSidebarModel {
    pub service: Service,
    pub state: TaskListSidebarStatus,
    pub lists: Vec<SidebarList>,
    pub generation: u64,
    pub dispatcher: Dispatcher,
    pub aggregator: Aggregator,
    pub day_start: i64,
}

/// The abstract value of the engine.
pub struct SidebarView {
    pub service: Service,
    pub state: TaskListSidebarStatus,
    pub lists: Seq<SidebarListModel>,
    pub generation: u64,
    pub dispatcher: Dispatcher,
    pub tasks: AggregatorView,
    pub day_start: i64,
}

impl View for TaskListSidebarModel {
    type V = SidebarView;

    open spec fn view(&self) -> SidebarView {
        SidebarView {
            service: self.service,
            state: self.state,
            lists: sidebar_models(self.lists@),
            generation: self.generation,
            dispatcher: self.dispatcher,
            tasks: self.aggregator@,
            day_start: self.day_start,
        }
    }
}

// ---------------------------------------------------------------------------
// The transition function
// ---------------------------------------------------------------------------

pub open spec fn next_generation(g: u64) -> u64 {
    if g == u64::MAX {
        0
    } else {
        (g + 1) as u64
    }
}

/// Loaded when some smart list has a task to show, else empty.
pub open spec fn smart_state(m: SidebarView) -> TaskListSidebarStatus {
    if m.tasks.has_smart_tasks(m.day_start) {
        TaskListSidebarStatus::Loaded
    } else {
        TaskListSidebarStatus::Empty
    }
}

/// Loaded when there is an entry, else empty.
pub open spec fn filled_state(lists: Seq<SidebarListModel>) -> TaskListSidebarStatus {
    if lists.len() == 0 {
        TaskListSidebarStatus::Empty
    } else {
        TaskListSidebarStatus::Loaded
    }
}

/// A new load: a fresh generation, and either a cleared cache waiting for the
/// plugin, or the smart lists when the service has no plugin that answers.
pub open spec fn load(m: SidebarView) -> SidebarView {
    let g = next_generation(m.generation);
    match m.dispatcher.spec_resolve(m.service) {
        Ok(Route::Plugin { .. }) => SidebarView {
            state: TaskListSidebarStatus::Loading,
            lists: Seq::empty(),
            generation: g,
            ..m
        },
        _ => {
            let s = SidebarView { service: Service::Smart, generation: g, ..m };
            SidebarView { lists: smart_lists(), state: smart_state(s), ..s }
        },
    }
}

pub open spec fn load_command(m: SidebarView) -> SidebarCommand {
    let g = next_generation(m.generation);
    match m.dispatcher.spec_resolve(m.service) {
        Ok(Route::Plugin { service, stream_support }) => if stream_support {
            SidebarCommand::StreamLists { service, generation: g }
        } else {
            SidebarCommand::FetchLists { service, generation: g }
        },
        _ => SidebarCommand::Nothing,
    }
}

/// A result that belongs to the load in progress.
pub open spec fn is_current(m: SidebarView, g: u64) -> bool {
    g == m.generation && m.service.is_remote()
}

/// The entry at `index` is the provider list `id`.
pub open spec fn entry_is(lists: Seq<SidebarListModel>, index: int, id: Seq<char>) -> bool {
    0 <= index < lists.len() && match lists[index] {
        SidebarListModel::Custom(l) => l.id == id,
        SidebarListModel::Smart(_) => false,
    }
}

/// `lists` with every entry of the provider list `l.id` showing `l` instead.
pub open spec fn replace_entry(lists: Seq<SidebarListModel>, l: ListModel) -> Seq<SidebarListModel>
    decreases lists.len(),
{
    if lists.len() == 0 {
        lists
    } else {
        let e = lists.last();
        replace_entry(lists.drop_last(), l).push(
            match e {
                SidebarListModel::Custom(x) => if x.id == l.id {
                    SidebarListModel::Custom(l)
                } else {
                    e
                },
                SidebarListModel::Smart(_) => e,
            },
        )
    }
}

pub open spec fn refresh_smart(m: SidebarView) -> SidebarView {
    if m.service is Smart {
        SidebarView { state: smart_state(m), ..m }
    } else {
        m
    }
}

/// The state after the engine is told `e`.
pub open spec fn next(m: SidebarView, e: TaskListSidebarInput) -> SidebarView {
    match e {
        TaskListSidebarInput::LoadTaskLists => load(m),
        TaskListSidebarInput::ListCreated(l, resp) => if resp.successful && l.service == m.service
            && m.service.is_remote() {
            SidebarView {
                lists: m.lists.push(SidebarListModel::Custom(l@)),
                state: TaskListSidebarStatus::Loaded,
                ..m
            }
        } else {
            m
        },
        TaskListSidebarInput::ListUpdated(l, resp) => if resp.successful && l.service
            == m.service {
            SidebarView { lists: replace_entry(m.lists, l@), ..m }
        } else {
            m
        },
        TaskListSidebarInput::LoadTaskList(g, l) => if is_current(m, g) {
            SidebarView {
                lists: m.lists.push(SidebarListModel::Custom(l@)),
                state: TaskListSidebarStatus::Loaded,
                ..m
            }
        } else {
            m
        },
        TaskListSidebarInput::StreamFinished(g) => if is_current(m, g) {
            SidebarView { state: filled_state(m.lists), ..m }
        } else {
            m
        },
        TaskListSidebarInput::ListsFetched(g, batch) => if is_current(m, g) {
            let lists = m.lists + custom_entries(batch@);
            SidebarView { lists, state: filled_state(lists), ..m }
        } else {
            m
        },
        TaskListSidebarInput::FetchFailed(g) => if is_current(m, g) {
            SidebarView { state: filled_state(m.lists), ..m }
        } else {
            m
        },
        TaskListSidebarInput::ServiceSelected(s) => load(SidebarView { service: s, ..m }),
        TaskListSidebarInput::ServiceEnabled(s, stream_support) => SidebarView {
            dispatcher: m.dispatcher.spec_with(s, Availability::Available { stream_support }),
            ..m
        },
        TaskListSidebarInput::ServiceDisabled(s) => {
            let m1 = SidebarView {
                dispatcher: m.dispatcher.spec_with(s, Availability::Unavailable),
                ..m
            };
            if m.service == s && s.is_remote() {
                load(SidebarView { service: Service::Smart, ..m1 })
            } else {
                m1
            }
        },
        TaskListSidebarInput::ListDeleted(index, id, resp) => if resp.successful && entry_is(
            m.lists,
            index as int,
            id@,
        ) {
            let lists = m.lists.remove(index as int);
            SidebarView {
                lists,
                state: if lists.len() == 0 {
                    TaskListSidebarStatus::Empty
                } else {
                    m.state
                },
                ..m
            }
        } else {
            m
        },
        TaskListSidebarInput::TasksFetched(s, tasks) => refresh_smart(
            SidebarView { tasks: m.tasks.with(s, task_models(tasks@)), ..m },
        ),
        TaskListSidebarInput::TaskSaved(s, t, resp) => if resp.successful {
            refresh_smart(
                SidebarView { tasks: m.tasks.with(s, saved(m.tasks.tasks_of(s), t@)), ..m },
            )
        } else {
            m
        },
        TaskListSidebarInput::TaskDeleted(s, id, resp) => if resp.successful {
            refresh_smart(
                SidebarView { tasks: m.tasks.with(s, without_task(m.tasks.tasks_of(s), id@)), ..m },
            )
        } else {
            m
        },
        TaskListSidebarInput::DayStarted(d) => refresh_smart(SidebarView { day_start: d, ..m }),
        _ => m,
    }
}

/// What the engine asks for when told `e` in state `m`. A list to create is
/// authored anew, so its id is only known to be fresh.
pub open spec fn command_ok(m: SidebarView, e: TaskListSidebarInput, c: SidebarCommand) -> bool {
    match e {
        TaskListSidebarInput::LoadTaskLists => c == load_command(m),
        TaskListSidebarInput::ServiceSelected(s) => c == load_command(
            SidebarView { service: s, ..m },
        ),
        TaskListSidebarInput::OpenNewTaskListDialog => c is PresentListDialog,
        TaskListSidebarInput::AddTaskListToSidebar(name) => if m.service.is_remote() {
            match c {
                SidebarCommand::CreateList { service, list } => service == m.service
                    && list@.name == name@ && list@.service == m.service && list@.icon == Some(
                    default_icon(),
                ) && list@.description.len() == 0,
                _ => false,
            }
        } else {
            c is Nothing
        },
        TaskListSidebarInput::SelectList(l) => match c {
            SidebarCommand::Output(TaskListSidebarOutput::SelectList(l2, s)) => l2@ == l@ && s
                == m.service,
            _ => false,
        },
        TaskListSidebarInput::DeleteTaskList(index, id) => if m.service.is_remote() {
            match c {
                SidebarCommand::DeleteList { service, index: i, id: id2 } => service == m.service
                    && i == index && id2@ == id@,
                _ => false,
            }
        } else {
            c is Nothing
        },
        TaskListSidebarInput::ListDeleted(index, id, resp) => if resp.successful && entry_is(
            m.lists,
            index as int,
            id@,
        ) {
            c matches SidebarCommand::Output(TaskListSidebarOutput::CleanContent)
        } else {
            c is Nothing
        },
        _ => c is Nothing,
    }
}

// ---------------------------------------------------------------------------
// The engine
// ---------------------------------------------------------------------------

impl TaskListSidebarModel {
    /// An engine for `service`, with no plugin available yet and nothing loaded.
    pub fn new(service: Service, day_start: i64) -> (r: TaskListSidebarModel)
        ensures
            r@.service == service,
            r@.state == TaskListSidebarStatus::Empty,
            r@.lists.len() == 0,
            r@.generation == 0,
            forall|s: Service| r@.dispatcher.availability(s) == Availability::Unavailable,
            r@.tasks.all_tasks().len() == 0,
            r@.day_start == day_start,
    {
        TaskListSidebarModel {
            service,
            state: TaskListSidebarStatus::Empty,
            lists: Vec::new(),
            generation: 0,
            dispatcher: Dispatcher::new(),
            aggregator: Aggregator::new(),
            day_start,
        }
    }

    /// An engine for `service` that routes through `dispatcher` and has
    /// started its first load.
    pub fn init(service: Service, dispatcher: Dispatcher, day_start: i64) -> (r: (
        TaskListSidebarModel,
        SidebarCommand,
    ))
        ensures
            r.0@ == load(
                SidebarView {
                    service,
                    state: TaskListSidebarStatus::Empty,
                    lists: Seq::empty(),
                    generation: 0,
                    dispatcher,
                    tasks: r.0@.tasks,
                    day_start,
                },
            ),
            r.0@.tasks.all_tasks().len() == 0,
            r.1 == load_command(
                SidebarView {
                    service,
                    state: TaskListSidebarStatus::Empty,
                    lists: Seq::empty(),
                    generation: 0,
                    dispatcher,
                    tasks: r.0@.tasks,
                    day_start,
                },
            ),
    {
        let mut model = TaskListSidebarModel::new(service, day_start);
        model.dispatcher = dispatcher;
        let command = model.load();
        (model, command)
    }

    fn show_smart_state(&mut self)
        ensures
            final(self)@ == (SidebarView { state: smart_state(old(self)@), ..old(self)@ }),
    {
        self.state = if self.aggregator.has_smart_tasks(self.day_start) {
            TaskListSidebarStatus::Loaded
        } else {
            TaskListSidebarStatus::Empty
        };
    }

    fn refresh_smart(&mut self)
        ensures
            final(self)@ == refresh_smart(old(self)@),
    {
        if self.service.is_smart() {
            self.show_smart_state();
        }
    }

    fn fill_state(&mut self)
        ensures
            final(self)@ == (SidebarView { state: filled_state(old(self)@.lists), ..old(self)@ }),
    {
        self.state = if self.lists.len() == 0 {
            TaskListSidebarStatus::Empty
        } else {
            TaskListSidebarStatus::Loaded
        };
    }

    fn push_entry(&mut self, entry: SidebarList)
        ensures
            final(self)@ == (SidebarView {
                lists: old(self)@.lists.push(entry@),
                ..old(self)@
            }),
    {
        self.lists.push(entry);
        proof {
            assert(sidebar_models(self.lists@) =~= old(self)@.lists.push(entry@));
        }
    }

    fn append_batch(&mut self, batch: &Vec<List>)
        ensures
            final(self)@ == (SidebarView {
                lists: old(self)@.lists + custom_entries(batch@),
                ..old(self)@
            }),
    {
        let ghost before = self@;
        let mut i: usize = 0;
        while i < batch.len()
            invariant
                i <= batch@.len(),
                self@ == (SidebarView {
                    lists: before.lists + custom_entries(batch@.take(i as int)),
                    ..before
                }),
            decreases batch@.len() - i,
        {
            let l = batch[i].clone();
            self.push_entry(SidebarList::Custom(l));
            i = i + 1;
            proof {
                let prev = batch@.take(i - 1);
                let cur = batch@.take(i as int);
                assert(cur =~= prev.push(batch@[i - 1]));
                assert(custom_entries(cur) =~= custom_entries(prev).push(
                    SidebarListModel::Custom(batch@[i - 1]@),
                ));
                assert(before.lists + custom_entries(cur) =~= (before.lists
                    + custom_entries(prev)).push(
                    SidebarListModel::Custom(batch@[i - 1]@),
                ));
            }
        }
        proof {
            assert(batch@.take(i as int) =~= batch@);
        }
    }

    fn replace_entries(&mut self, list: &List)
        ensures
            final(self)@ == (SidebarView {
                lists: replace_entry(old(self)@.lists, list@),
                ..old(self)@
            }),
    {
        let mut out: Vec<SidebarList> = Vec::new();
        let mut i: usize = 0;
        while i < self.lists.len()
            invariant
                i <= self.lists@.len(),
                sidebar_models(out@) == replace_entry(sidebar_models(self.lists@.take(i as int)), list@),
            decreases self.lists@.len() - i,
        {
            let ghost before = out@;
            let e = match &self.lists[i] {
                SidebarList::Custom(x) => if x.id == list.id {
                    SidebarList::Custom(list.clone())
                } else {
                    SidebarList::Custom(x.clone())
                },
                SidebarList::Smart(k) => SidebarList::Smart(*k),
            };
            out.push(e);
            i = i + 1;
            proof {
                let prev = sidebar_models(self.lists@.take(i - 1));
                let cur = sidebar_models(self.lists@.take(i as int));
                assert(cur.drop_last() =~= prev);
                assert(cur.last() == self.lists@[i - 1]@);
                assert(sidebar_models(out@) =~= sidebar_models(before).push(e@));
            }
        }
        proof {
            assert(self.lists@.take(i as int) =~= self.lists@);
        }
        self.lists = out;
    }

    fn load(&mut self) -> (c: SidebarCommand)
        ensures
            final(self)@ == load(old(self)@),
            c == load_command(old(self)@),
    {
        self.generation = if self.generation == u64::MAX {
            0
        } else {
            self.generation + 1
        };
        match self.dispatcher.resolve(self.service) {
            Ok(Route::Plugin { service, stream_support }) => {
                self.lists = Vec::new();
                self.state = TaskListSidebarStatus::Loading;
                proof {
                    assert(sidebar_models(self.lists@) =~= Seq::<SidebarListModel>::empty());
                }
                if stream_support {
                    SidebarCommand::StreamLists { service, generation: self.generation }
                } else {
                    SidebarCommand::FetchLists { service, generation: self.generation }
                }
            },
            _ => {
                self.service = Service::Smart;
                let mut lists: Vec<SidebarList> = Vec::new();
                lists.push(SidebarList::Smart(SmartList::Today));
                lists.push(SidebarList::Smart(SmartList::Next7Days));
                self.lists = lists;
                proof {
                    assert(sidebar_models(self.lists@) =~= smart_lists());
                }
                self.show_smart_state();
                SidebarCommand::Nothing
            },
        }
    }

    /// Applies `message` to the engine and says what to do next.
    pub fn update(&mut self, message: TaskListSidebarInput) -> (c: SidebarCommand)
        ensures
            final(self)@ == next(old(self)@, message),
            command_ok(old(self)@, message, c),
    {
        let ghost m = self@;
        match message {
            TaskListSidebarInput::LoadTaskLists => self.load(),
            TaskListSidebarInput::OpenNewTaskListDialog => SidebarCommand::PresentListDialog,
            TaskListSidebarInput::AddTaskListToSidebar(name) => {
                if self.service.is_smart() {
                    SidebarCommand::Nothing
                } else {
                    let list = List::new(name.as_str(), self.service);
                    SidebarCommand::CreateList { service: self.service, list }
                }
            },
            TaskListSidebarInput::ListCreated(list, resp) => {
                if resp.successful && list.service == self.service && !self.service.is_smart() {
                    self.push_entry(SidebarList::Custom(list));
                    self.state = TaskListSidebarStatus::Loaded;
                }
                SidebarCommand::Nothing
            },
            TaskListSidebarInput::ListUpdated(list, resp) => {
                if resp.successful && list.service == self.service {
                    self.replace_entries(&list);
                }
                SidebarCommand::Nothing
            },
            TaskListSidebarInput::LoadTaskList(g, list) => {
                if g == self.generation && !self.service.is_smart() {
                    self.push_entry(SidebarList::Custom(list));
                    self.state = TaskListSidebarStatus::Loaded;
                }
                SidebarCommand::Nothing
            },
            TaskListSidebarInput::StreamFinished(g) => {
                if g == self.generation && !self.service.is_smart() {
                    self.fill_state();
                }
                SidebarCommand::Nothing
            },
            TaskListSidebarInput::ListsFetched(g, batch) => {
                if g == self.generation && !self.service.is_smart() {
                    self.append_batch(&batch);
                    self.fill_state();
                }
                SidebarCommand::Nothing
            },
            TaskListSidebarInput::FetchFailed(g) => {
                if g == self.generation && !self.service.is_smart() {
                    self.fill_state();
                }
                SidebarCommand::Nothing
            },
            TaskListSidebarInput::ServiceSelected(s) => {
                self.service = s;
                self.load()
            },
            TaskListSidebarInput::ServiceEnabled(s, stream_support) => {
                self.dispatcher.set_availability(s, Availability::Available { stream_support });
                SidebarCommand::Nothing
            },
            TaskListSidebarInput::ServiceDisabled(s) => {
                self.dispatcher.set_availability(s, Availability::Unavailable);
                if self.service == s && !s.is_smart() {
                    self.service = Service::Smart;
                    self.load();
                }
                SidebarCommand::Nothing
            },
            TaskListSidebarInput::SelectList(list) => {
                SidebarCommand::Output(TaskListSidebarOutput::SelectList(list, self.service))
            },
            TaskListSidebarInput::DeleteTaskList(index, id) => {
                if self.service.is_smart() {
                    SidebarCommand::Nothing
                } else {
                    SidebarCommand::DeleteList { service: self.service, index, id }
                }
            },
            TaskListSidebarInput::ListDeleted(index, id, resp) => {
                let matches_entry = index < self.lists.len() && match &self.lists[index] {
                    SidebarList::Custom(l) => l.id == id,
                    SidebarList::Smart(_) => false,
                };
                if resp.successful && matches_entry {
                    self.lists.remove(index);
                    proof {
                        assert(sidebar_models(self.lists@) =~= m.lists.remove(index as int));
                    }
                    if self.lists.len() == 0 {
                        self.state = TaskListSidebarStatus::Empty;
                    }
                    SidebarCommand::Output(TaskListSidebarOutput::CleanContent)
                } else {
                    SidebarCommand::Nothing
                }
            },
            TaskListSidebarInput::TasksFetched(s, tasks) => {
                self.aggregator.set_tasks(s, tasks);
                self.refresh_smart();
                SidebarCommand::Nothing
            },
            TaskListSidebarInput::TaskSaved(s, task, resp) => {
                if resp.successful {
                    self.aggregator.save_task(s, task);
                    self.refresh_smart();
                }
                SidebarCommand::Nothing
            },
            TaskListSidebarInput::TaskDeleted(s, id, resp) => {
                if resp.successful {
                    self.aggregator.remove_task(s, &id);
                    self.refresh_smart();
                }
                SidebarCommand::Nothing
            },
            TaskListSidebarInput::DayStarted(d) => {
                self.day_start = d;
                self.refresh_smart();
                SidebarCommand::Nothing
            },
        }
    }
}

// ---------------------------------------------------------------------------
// Laws of the engine
// ---------------------------------------------------------------------------

/// The state after the engine is told each of `events` in turn.
pub open spec fn run(m: SidebarView, events: Seq<TaskListSidebarInput>) -> SidebarView
    decreases events.len(),
{
    if events.len() == 0 {
        m
    } else {
        next(run(m, events.drop_last()), events.last())
    }
}

/// The messages of a stream that delivers `items` for generation `g`.
pub open spec fn stream_of(g: u64, items: Seq<List>) -> Seq<TaskListSidebarInput> {
    items.map_values(|l: List| TaskListSidebarInput::LoadTaskList(g, l))
}

/// A result of a load of generation `g` or of an earlier one.
pub open spec fn is_result_up_to(e: TaskListSidebarInput, g: u64) -> bool {
    match e {
        TaskListSidebarInput::LoadTaskList(h, _) => h <= g,
        TaskListSidebarInput::StreamFinished(h) => h <= g,
        TaskListSidebarInput::ListsFetched(h, _) => h <= g,
        TaskListSidebarInput::FetchFailed(h) => h <= g,
        _ => false,
    }
}

proof fn lemma_stream_prefix(m: SidebarView, g: u64, items: Seq<List>)
    requires
        is_current(m, g),
    ensures
        run(m, stream_of(g, items)) == (SidebarView {
            lists: m.lists + custom_entries(items),
            state: if items.len() == 0 {
                m.state
            } else {
                TaskListSidebarStatus::Loaded
            },
            ..m
        }),
    decreases items.len(),
{
    let evs = stream_of(g, items);
    if items.len() == 0 {
        assert(m.lists + custom_entries(items) =~= m.lists);
    } else {
        let rest = items.drop_last();
        lemma_stream_prefix(m, g, rest);
        assert(evs.drop_last() =~= stream_of(g, rest));
        assert(evs.last() == TaskListSidebarInput::LoadTaskList(g, items.last()));
        assert(m.lists + custom_entries(items) =~= (m.lists + custom_entries(rest)).push(
            SidebarListModel::Custom(items.last()@),
        ));
    }
}

/// A streamed load shows the lists in the order in which the stream delivers
/// them, and ends empty exactly when the stream delivered none.
pub proof fn lemma_stream_load_keeps_order(m: SidebarView, items: Seq<List>)
    requires
        m.dispatcher.spec_resolve(m.service) == Ok::<Route, crate::service::DispatchError>(
            Route::Plugin { service: m.service, stream_support: true },
        ),
    ensures
        load_command(m) == (SidebarCommand::StreamLists {
            service: m.service,
            generation: load(m).generation,
        }),
        run(load(m), stream_of(load(m).generation, items)).lists == custom_entries(items),
        next(
            run(load(m), stream_of(load(m).generation, items)),
            TaskListSidebarInput::StreamFinished(load(m).generation),
        ).lists == custom_entries(items),
        next(
            run(load(m), stream_of(load(m).generation, items)),
            TaskListSidebarInput::StreamFinished(load(m).generation),
        ).state == if items.len() == 0 {
            TaskListSidebarStatus::Empty
        } else {
            TaskListSidebarStatus::Loaded
        },
{
    let m1 = load(m);
    lemma_stream_prefix(m1, m1.generation, items);
    assert(m1.lists + custom_entries(items) =~= custom_entries(items));
}

/// A polled load asks for one read of every list and shows exactly the batch
/// that the read returned.
pub proof fn lemma_poll_load_one_batch(m: SidebarView, batch: Vec<List>)
    requires
        m.dispatcher.spec_resolve(m.service) == Ok::<Route, crate::service::DispatchError>(
            Route::Plugin { service: m.service, stream_support: false },
        ),
    ensures
        load_command(m) == (SidebarCommand::FetchLists {
            service: m.service,
            generation: load(m).generation,
        }),
        next(load(m), TaskListSidebarInput::ListsFetched(load(m).generation, batch)).lists
            == custom_entries(batch@),
        next(load(m), TaskListSidebarInput::ListsFetched(load(m).generation, batch)).state
            == filled_state(custom_entries(batch@)),
{
    let m1 = load(m);
    assert(m1.lists + custom_entries(batch@) =~= custom_entries(batch@));
}

/// Once a new load has started, no result of an earlier load changes the
/// cache: whatever the earlier streams still deliver is dropped.
pub proof fn lemma_stale_results_ignored(m: SidebarView, events: Seq<TaskListSidebarInput>)
    requires
        m.generation < u64::MAX,
        forall|i: int| 0 <= i < events.len() ==> is_result_up_to(#[trigger] events[i], m.generation),
    ensures
        run(load(m), events) == load(m),
    decreases events.len(),
{
    if events.len() > 0 {
        let rest = events.drop_last();
        assert forall|i: int| 0 <= i < rest.len() implies is_result_up_to(
            #[trigger] rest[i],
            m.generation,
        ) by {
            assert(rest[i] == events[i]);
        }
        lemma_stale_results_ignored(m, rest);
        assert(is_result_up_to(events[events.len() - 1], m.generation));
    }
}

/// Deleting a list that the plugin does not hold fails, and the cache keeps
/// every entry.
pub proof fn lemma_failed_delete_keeps_cache(
    m: SidebarView,
    store: Seq<ListModel>,
    index: usize,
    id: String,
    resp: ProviderResponse,
)
    requires
        !has_list(store, id@),
        resp.successful == has_list(store, id@),
    ensures
        !resp.successful,
        next(m, TaskListSidebarInput::ListDeleted(index, id, resp)) == m,
        next(m, TaskListSidebarInput::ListDeleted(index, id, resp)).lists.len() == m.lists.len(),
{
}

/// When the selected service is disabled the engine falls back to the smart
/// service; it shows empty until some service supplies a task due in the
/// coming seven days, and loaded from then on.
pub proof fn lemma_smart_fallback_loads(m: SidebarView, s: Service, tasks: Vec<Task>, k: int)
    requires
        m.service.is_remote(),
        s.is_remote(),
        0 <= k < tasks@.len(),
        due_in(tasks@[k]@, m.day_start as int, m.day_start + 7 * DAY_SECONDS),
    ensures
        next(m, TaskListSidebarInput::ServiceDisabled(m.service)).service == Service::Smart,
        next(m, TaskListSidebarInput::ServiceDisabled(m.service)).lists == smart_lists(),
        !m.tasks.has_smart_tasks(m.day_start) ==> next(
            m,
            TaskListSidebarInput::ServiceDisabled(m.service),
        ).state == TaskListSidebarStatus::Empty,
        next(
            next(m, TaskListSidebarInput::ServiceDisabled(m.service)),
            TaskListSidebarInput::TasksFetched(s, tasks),
        ).state == TaskListSidebarStatus::Loaded,
{
    let m1 = next(m, TaskListSidebarInput::ServiceDisabled(m.service));
    assert(task_models(tasks@)[k] == tasks@[k]@);
    lemma_supplied_task_shows(m1.tasks, s, task_models(tasks@), k, m1.day_start);
}

} // verus!
