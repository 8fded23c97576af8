use vstd::prelude::*;

use crate::provider::{has_task, task_models};
use crate::service::Service;
use crate::task::{Task, TaskModel};

verus! {

/// Seconds in a day.
pub const DAY_SECONDS: i64 = 86400;

/// The computed lists of the smart service.
#[derive(Clone, Copy, Debug, PartialEq, Eq, Structural)]
pub enum SmartList {
    Today,
    Next7Days,
}

impl SmartList {
    /// How many days from the start of the current day the view reaches.
    pub open spec fn spec_days(self) -> int {
        match self {
            SmartList::Today => 1,
            SmartList::Next7Days => 7,
        }
    }
}

/// The task is due at a moment in `[lo, hi)`.
pub open spec fn due_in(t: TaskModel, lo: int, hi: int) -> bool {
    match t.due_date {
        Some(d) => lo <= d && d < hi,
        None => false,
    }
}

/// The tasks of `s` due in `[lo, hi)`, in order.
pub open spec fn due_within(s: Seq<TaskModel>, lo: int, hi: int) -> Seq<TaskModel>
    decreases s.len(),
{
    if s.len() == 0 {
        s
    } else {
        let rest = due_within(s.drop_last(), lo, hi);
        if due_in(s.last(), lo, hi) {
            rest.push(s.last())
        } else {
            rest
        }
    }
}

/// The tasks that each service with a plugin has supplied.
#[derive(Debug)]
pub struct Aggregator {
    pub local: Vec<Task>,
    pub microsoft: Vec<Task>,
    pub google: Vec<Task>,
}

pub struct AggregatorView {
    pub local: Seq<TaskModel>,
    pub microsoft: Seq<TaskModel>,
    pub google: Seq<TaskModel>,
}

impl AggregatorView {
    pub open spec fn tasks_of(self, s: Service) -> Seq<TaskModel> {
        match s {
            Service::Smart => Seq::empty(),
            Service::Local => self.local,
            Service::Microsoft => self.microsoft,
            Service::Google => self.google,
        }
    }

    /// Every supplied task, service by service.
    pub open spec fn all_tasks(self) -> Seq<TaskModel> {
        self.local + self.microsoft + self.google
    }

    pub open spec fn with(self, s: Service, tasks: Seq<TaskModel>) -> AggregatorView {
        match s {
            Service::Smart => self,
            Service::Local => AggregatorView { local: tasks, ..self },
            Service::Microsoft => AggregatorView { microsoft: tasks, ..self },
            Service::Google => AggregatorView { google: tasks, ..self },
        }
    }

    /// The tasks that a smart list shows, for a day that starts at `day_start`.
    pub open spec fn smart_view(self, kind: SmartList, day_start: i64) -> Seq<TaskModel> {
        due_within(self.all_tasks(), day_start as int, day_start + kind.spec_days() * DAY_SECONDS)
    }

    /// Some smart list has a task to show.
    pub open spec fn has_smart_tasks(self, day_start: i64) -> bool {
        self.smart_view(SmartList::Next7Days, day_start).len() > 0
    }
}

impl View for Aggregator {
    type V = AggregatorView;

    open spec fn view(&self) -> AggregatorView {
        AggregatorView {
            local: task_models(self.local@),
            microsoft: task_models(self.microsoft@),
            google: task_models(self.google@),
        }
    }
}

/// Appends to `out` the tasks of `src` due in `[lo, hi)`.
fn collect_due(src: &Vec<Task>, lo: i128, hi: i128, out: &mut Vec<Task>)
    ensures
        task_models(final(out)@) == task_models(old(out)@) + due_within(
            task_models(src@),
            lo as int,
            hi as int,
        ),
{
    let ghost start = task_models(out@);
    let mut i: usize = 0;
    while i < src.len()
        invariant
            i <= src@.len(),
            task_models(out@) == start + due_within(
                task_models(src@.take(i as int)),
                lo as int,
                hi as int,
            ),
        decreases src@.len() - i,
    {
        let ghost before = out@;
        let hit = match src[i].due_date {
            Some(d) => lo <= d as i128 && (d as i128) < hi,
            None => false,
        };
        if hit {
            let t = src[i].clone();
            out.push(t);
            proof {
                assert(task_models(out@) =~= task_models(before).push(t@));
            }
        }
        i = i + 1;
        proof {
            let prev = task_models(src@.take(i - 1));
            let cur = task_models(src@.take(i as int));
            assert(cur.drop_last() =~= prev);
            assert(cur.last() == src@[i - 1]@);
            let d = due_within(cur, lo as int, hi as int);
            if hit {
                assert(task_models(out@) =~= start + d);
            } else {
                assert(task_models(out@) =~= start + d);
            }
        }
    }
    proof {
        assert(src@.take(i as int) =~= src@);
    }
}

pub(crate) proof fn lemma_due_within_add(a: Seq<TaskModel>, b: Seq<TaskModel>, lo: int, hi: int)
    ensures
        due_within(a + b, lo, hi) == due_within(a, lo, hi) + due_within(b, lo, hi),
    decreases b.len(),
{
    if b.len() == 0 {
        assert(a + b =~= a);
        assert(due_within(a, lo, hi) + due_within(b, lo, hi) =~= due_within(a, lo, hi));
    } else {
        lemma_due_within_add(a, b.drop_last(), lo, hi);
        assert((a + b).drop_last() =~= a + b.drop_last());
        assert((a + b).last() == b.last());
        let x = due_within(a, lo, hi);
        let y = due_within(b.drop_last(), lo, hi);
        assert((x + y).push(b.last()) =~= x + y.push(b.last()));
    }
}

pub(crate) proof fn lemma_due_within_has(s: Seq<TaskModel>, k: int, lo: int, hi: int)
    requires
        0 <= k < s.len(),
        due_in(s[k], lo, hi),
    ensures
        due_within(s, lo, hi).len() > 0,
    decreases s.len(),
{
    if k < s.len() - 1 {
        assert(s.drop_last()[k] == s[k]);
        lemma_due_within_has(s.drop_last(), k, lo, hi);
    }
}

/// A task due in the coming seven days, supplied by any service with a
/// plugin, makes the smart lists non-empty.
pub proof fn lemma_supplied_task_shows(a: AggregatorView, s: Service, tasks: Seq<TaskModel>, k: int, day_start: i64)
    requires
        s.is_remote(),
        0 <= k < tasks.len(),
        due_in(tasks[k], day_start as int, day_start + 7 * DAY_SECONDS),
    ensures
        a.with(s, tasks).has_smart_tasks(day_start),
{
    let b = a.with(s, tasks);
    let lo = day_start as int;
    let hi = day_start + 7 * DAY_SECONDS;
    lemma_due_within_add(b.local, b.microsoft, lo, hi);
    lemma_due_within_add(b.local + b.microsoft, b.google, lo, hi);
    lemma_due_within_has(tasks, k, lo, hi);
}

/// `s` with every task that has the id of `t` replaced by `t`.
pub open spec fn replace_task(s: Seq<TaskModel>, t: TaskModel) -> Seq<TaskModel>
    decreases s.len(),
{
    if s.len() == 0 {
        s
    } else {
        replace_task(s.drop_last(), t).push(
            if s.last().id == t.id {
                t
            } else {
                s.last()
            },
        )
    }
}

/// `s` after `t` was saved: the task with its id replaced, or `t` appended.
pub open spec fn saved(s: Seq<TaskModel>, t: TaskModel) -> Seq<TaskModel> {
    if has_task(s, t.id) {
        replace_task(s, t)
    } else {
        s.push(t)
    }
}

/// `s` without the tasks whose id is `id`.
pub open spec fn without_task(s: Seq<TaskModel>, id: Seq<char>) -> Seq<TaskModel>
    decreases s.len(),
{
    if s.len() == 0 {
        s
    } else {
        let rest = without_task(s.drop_last(), id);
        if s.last().id == id {
            rest
        } else {
            rest.push(s.last())
        }
    }
}

proof fn lemma_has_task_push(s: Seq<TaskModel>, x: TaskModel, id: Seq<char>)
    ensures
        has_task(s.push(x), id) == (has_task(s, id) || x.id == id),
{
    let t = s.push(x);
    if has_task(s, id) {
        let k = choose|k: int| 0 <= k < s.len() && #[trigger] s[k].id == id;
        assert(t[k] == s[k]);
    }
    if x.id == id {
        assert(t[s.len() as int] == x);
    }
    if has_task(t, id) {
        let k = choose|k: int| 0 <= k < t.len() && #[trigger] t[k].id == id;
        if k < s.len() {
            assert(t[k] == s[k]);
        }
    }
}

fn save_into(v: &mut Vec<Task>, task: Task)
    ensures
        task_models(final(v)@) == saved(task_models(old(v)@), task@),
{
    let ghost tv = task@;
    let mut out: Vec<Task> = Vec::new();
    let mut found = false;
    let mut i: usize = 0;
    while i < v.len()
        invariant
            i <= v@.len(),
            task_models(out@) == replace_task(task_models(v@.take(i as int)), tv),
            found == has_task(task_models(v@.take(i as int)), tv.id),
            task@ == tv,
        decreases v@.len() - i,
    {
        let ghost before = out@;
        let x = if v[i].id == task.id {
            found = true;
            task.clone()
        } else {
            v[i].clone()
        };
        out.push(x);
        i = i + 1;
        proof {
            let prev = task_models(v@.take(i - 1));
            let cur = task_models(v@.take(i as int));
            assert(cur.drop_last() =~= prev);
            assert(cur.last() == v@[i - 1]@);
            assert(cur =~= prev.push(v@[i - 1]@));
            lemma_has_task_push(prev, v@[i - 1]@, tv.id);
            assert(task_models(out@) =~= task_models(before).push(x@));
        }
    }
    proof {
        assert(v@.take(i as int) =~= v@);
    }
    if !found {
        let ghost before = out@;
        out.push(task);
        proof {
            assert(task_models(out@) =~= task_models(before).push(tv));
            assert(replace_task(task_models(v@), tv) == task_models(v@)) by {
                lemma_replace_absent(task_models(v@), tv);
            }
        }
    }
    *v = out;
}

proof fn lemma_replace_absent(s: Seq<TaskModel>, t: TaskModel)
    requires
        !has_task(s, t.id),
    ensures
        replace_task(s, t) == s,
    decreases s.len(),
{
    if s.len() > 0 {
        lemma_has_task_push(s.drop_last(), s.last(), t.id);
        assert(s.drop_last().push(s.last()) =~= s);
        lemma_replace_absent(s.drop_last(), t);
    }
}

fn remove_from(v: &mut Vec<Task>, id: &String)
    ensures
        task_models(final(v)@) == without_task(task_models(old(v)@), id@),
{
    let mut out: Vec<Task> = Vec::new();
    let mut i: usize = 0;
    while i < v.len()
        invariant
            i <= v@.len(),
            task_models(out@) == without_task(task_models(v@.take(i as int)), id@),
        decreases v@.len() - i,
    {
        let ghost before = out@;
        if v[i].id != *id {
            let x = v[i].clone();
            out.push(x);
            proof {
                assert(task_models(out@) =~= task_models(before).push(x@));
            }
        }
        i = i + 1;
        proof {
            let prev = task_models(v@.take(i - 1));
            let cur = task_models(v@.take(i as int));
            assert(cur.drop_last() =~= prev);
            assert(cur.last() == v@[i - 1]@);
        }
    }
    proof {
        assert(v@.take(i as int) =~= v@);
    }
    *v = out;
}

impl Aggregator {
    pub fn new() -> (r: Aggregator)
        ensures
            r@.all_tasks().len() == 0,
            forall|s: Service| r@.tasks_of(s).len() == 0,
    {
        let r = Aggregator { local: Vec::new(), microsoft: Vec::new(), google: Vec::new() };
        assert(r@.all_tasks() =~= Seq::<TaskModel>::empty());
        r
    }

    /// Replaces what `s` supplied; the smart service supplies nothing and is ignored.
    pub fn set_tasks(&mut self, s: Service, tasks: Vec<Task>)
        ensures
            final(self)@ == old(self)@.with(s, task_models(tasks@)),
    {
        match s {
            Service::Smart => {},
            Service::Local => self.local = tasks,
            Service::Microsoft => self.microsoft = tasks,
            Service::Google => self.google = tasks,
        }
    }

    /// Applies a task that the plugin of `s` has saved: it replaces the task
    /// with its id, or joins the end.
    pub fn save_task(&mut self, s: Service, task: Task)
        ensures
            final(self)@ == old(self)@.with(s, saved(old(self)@.tasks_of(s), task@)),
    {
        match s {
            Service::Smart => {},
            Service::Local => save_into(&mut self.local, task),
            Service::Microsoft => save_into(&mut self.microsoft, task),
            Service::Google => save_into(&mut self.google, task),
        }
    }

    /// Applies a deletion that the plugin of `s` has acknowledged.
    pub fn remove_task(&mut self, s: Service, id: &String)
        ensures
            final(self)@ == old(self)@.with(s, without_task(old(self)@.tasks_of(s), id@)),
    {
        match s {
            Service::Smart => {},
            Service::Local => remove_from(&mut self.local, id),
            Service::Microsoft => remove_from(&mut self.microsoft, id),
            Service::Google => remove_from(&mut self.google, id),
        }
    }

    /// The tasks of a smart list for the day that starts at `day_start`,
    /// across every service, service by service.
    pub fn smart_view(&self, kind: SmartList, day_start: i64) -> (r: Vec<Task>)
        ensures
            task_models(r@) == self@.smart_view(kind, day_start),
    {
        let lo = day_start as i128;
        let span: i128 = match kind {
            SmartList::Today => DAY_SECONDS as i128,
            SmartList::Next7Days => 7 * (DAY_SECONDS as i128),
        };
        let hi = lo + span;
        let mut out: Vec<Task> = Vec::new();
        collect_due(&self.local, lo, hi, &mut out);
        collect_due(&self.microsoft, lo, hi, &mut out);
        collect_due(&self.google, lo, hi, &mut out);
        proof {
            let v = self@;
            lemma_due_within_add(v.local, v.microsoft, lo as int, hi as int);
            lemma_due_within_add(v.local + v.microsoft, v.google, lo as int, hi as int);
            assert(task_models(Seq::<Task>::empty()) =~= Seq::<TaskModel>::empty());
            assert(task_models(out@) =~= v.smart_view(kind, day_start));
        }
        out
    }

    /// Whether some smart list has a task to show.
    pub fn has_smart_tasks(&self, day_start: i64) -> (r: bool)
        ensures
            r == self@.has_smart_tasks(day_start),
    {
        let v = self.smart_view(SmartList::Next7Days, day_start);
        v.len() > 0
    }
}

/// The "Today" smart list: tasks due on the current day.
pub struct TodayModel {
    pub tasks: Vec<Task>,
}

#[derive(Clone, Copy, Debug, PartialEq, Eq, Structural)]
pub enum TodayInput {
    /// Recompute the list for the day that starts at the given moment.
    Refresh(i64),
}

#[derive(Clone, Copy, Debug, PartialEq, Eq, Structural)]
pub enum TodayOutput {
    /// The list was recomputed and holds this many tasks.
    Refreshed(usize),
}

impl TodayModel {
    pub fn new(aggregator: &Aggregator, day_start: i64) -> (r: TodayModel)
        ensures
            task_models(r.tasks@) == aggregator@.smart_view(SmartList::Today, day_start),
    {
        TodayModel { tasks: aggregator.smart_view(SmartList::Today, day_start) }
    }

    pub fn update(&mut self, aggregator: &Aggregator, message: TodayInput) -> (r: TodayOutput)
        ensures
            match message {
                TodayInput::Refresh(day_start) => task_models(final(self).tasks@)
                    == aggregator@.smart_view(SmartList::Today, day_start) && r
                    == TodayOutput::Refreshed(final(self).tasks@.len() as usize),
            },
    {
        match message {
            TodayInput::Refresh(day_start) => {
                self.tasks = aggregator.smart_view(SmartList::Today, day_start);
                TodayOutput::Refreshed(self.tasks.len())
            },
        }
    }
}

/// The "Next 7 days" smart list: tasks due from the start of the current day
/// to the end of the sixth day after it.
pub struct Next7DaysModel {
    pub tasks: Vec<Task>,
}

#[derive(Clone, Copy, Debug, PartialEq, Eq, Structural)]
pub enum Next7DaysInput {
    /// Recompute the list for the day that starts at the given moment.
    Refresh(i64),
}

#[derive(Clone, Copy, Debug, PartialEq, Eq, Structural)]
pub enum Next7DaysOutput {
    /// The list was recomputed and holds this many tasks.
    Refreshed(usize),
}

impl Next7DaysModel {
    pub fn new(aggregator: &Aggregator, day_start: i64) -> (r: Next7DaysModel)
        ensures
            task_models(r.tasks@) == aggregator@.smart_view(SmartList::Next7Days, day_start),
    {
        Next7DaysModel { tasks: aggregator.smart_view(SmartList::Next7Days, day_start) }
    }

    pub fn update(&mut self, aggregator: &Aggregator, message: Next7DaysInput) -> (r: Next7DaysOutput)
        ensures
            match message {
                Next7DaysInput::Refresh(day_start) => task_models(final(self).tasks@)
                    == aggregator@.smart_view(SmartList::Next7Days, day_start) && r
                    == Next7DaysOutput::Refreshed(final(self).tasks@.len() as usize),
            },
    {
        match message {
            Next7DaysInput::Refresh(day_start) => {
                self.tasks = aggregator.smart_view(SmartList::Next7Days, day_start);
                Next7DaysOutput::Refreshed(self.tasks.len())
            },
        }
    }
}

} // verus!
