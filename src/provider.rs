use vstd::prelude::*;

use crate::list::{List, ListModel};
use crate::task::{Task, TaskModel};

verus! {

/// The answer to every mutating call of the provider contract.
#[derive(Debug)]
pub struct ProviderResponse {
    pub successful: bool,
    pub message: String,
}

impl ProviderResponse {
    pub fn success(message: &str) -> (r: ProviderResponse)
        ensures
            r.successful,
            r.message@ == message@,
    {
        ProviderResponse { successful: true, message: String::from_str(message) }
    }

    pub fn failure(message: &str) -> (r: ProviderResponse)
        ensures
            !r.successful,
            r.message@ == message@,
    {
        ProviderResponse { successful: false, message: String::from_str(message) }
    }

    /// The explicit failure of an operation that a provider does not implement.
    pub fn unimplemented() -> (r: ProviderResponse)
        ensures
            !r.successful,
    {
        ProviderResponse::failure("operation not supported by this provider")
    }
}

pub open spec fn list_models(s: Seq<List>) -> Seq<ListModel> {
    s.map_values(|l: List| l@)
}

pub open spec fn task_models(s: Seq<Task>) -> Seq<TaskModel> {
    s.map_values(|t: Task| t@)
}

pub open spec fn list_ids_unique(s: Seq<ListModel>) -> bool {
    forall|i: int, j: int| 0 <= i < j < s.len() ==> #[trigger] s[i].id != #[trigger] s[j].id
}

pub open spec fn task_ids_unique(s: Seq<TaskModel>) -> bool {
    forall|i: int, j: int| 0 <= i < j < s.len() ==> #[trigger] s[i].id != #[trigger] s[j].id
}

pub open spec fn has_list(s: Seq<ListModel>, id: Seq<char>) -> bool {
    exists|i: int| 0 <= i < s.len() && #[trigger] s[i].id == id
}

pub open spec fn has_task(s: Seq<TaskModel>, id: Seq<char>) -> bool {
    exists|i: int| 0 <= i < s.len() && #[trigger] s[i].id == id
}

/// The tasks of `s` that belong to the list `list_id`, in stored order.
pub open spec fn tasks_of_list(s: Seq<TaskModel>, list_id: Seq<char>) -> Seq<TaskModel>
    decreases s.len(),
{
    if s.len() == 0 {
        s
    } else {
        let rest = tasks_of_list(s.drop_last(), list_id);
        if s.last().list_id == list_id {
            rest.push(s.last())
        } else {
            rest
        }
    }
}

/// A provider plugin that keeps its lists and tasks in memory and answers
/// reads in one batch (it does not stream).
pub struct MemoryProvider {
    id: String,
    name: String,
    description: String,
    icon_name: String,
    lists: Vec<List>,
    tasks: Vec<Task>,
}

fn find_list(lists: &Vec<List>, id: &String) -> (r: Option<usize>)
    ensures
        match r {
            Some(i) => i < lists@.len() && lists@[i as int].id@ == id@ && list_models(
                lists@,
            )[i as int].id == id@ && has_list(list_models(lists@), id@),
            None => !has_list(list_models(lists@), id@),
        },
{
    let mut i: usize = 0;
    while i < lists.len()
        invariant
            i <= lists@.len(),
            forall|k: int| 0 <= k < i ==> lists@[k].id@ != id@,
        decreases lists@.len() - i,
    {
        if lists[i].id == *id {
            proof {
                assert(list_models(lists@)[i as int] == lists@[i as int]@);
                assert(list_models(lists@)[i as int].id == id@);
            }
            return Some(i);
        }
        i = i + 1;
    }
    proof {
        let m = list_models(lists@);
        assert forall|k: int| 0 <= k < m.len() implies #[trigger] m[k].id != id@ by {
            assert(m[k] == lists@[k]@);
        }
    }
    None
}

fn find_task(tasks: &Vec<Task>, id: &String) -> (r: Option<usize>)
    ensures
        match r {
            Some(i) => i < tasks@.len() && tasks@[i as int].id@ == id@ && task_models(
                tasks@,
            )[i as int].id == id@ && has_task(task_models(tasks@), id@),
            None => !has_task(task_models(tasks@), id@),
        },
{
    let mut i: usize = 0;
    while i < tasks.len()
        invariant
            i <= tasks@.len(),
            forall|k: int| 0 <= k < i ==> tasks@[k].id@ != id@,
        decreases tasks@.len() - i,
    {
        if tasks[i].id == *id {
            proof {
                assert(task_models(tasks@)[i as int] == tasks@[i as int]@);
                assert(task_models(tasks@)[i as int].id == id@);
            }
            return Some(i);
        }
        i = i + 1;
    }
    proof {
        let m = task_models(tasks@);
        assert forall|k: int| 0 <= k < m.len() implies #[trigger] m[k].id != id@ by {
            assert(m[k] == tasks@[k]@);
        }
    }
    None
}

impl MemoryProvider {
    pub closed spec fn list_store(&self) -> Seq<ListModel> {
        list_models(self.lists@)
    }

    pub closed spec fn task_store(&self) -> Seq<TaskModel> {
        task_models(self.tasks@)
    }

    pub closed spec fn spec_id(&self) -> Seq<char> {
        self.id@
    }

    pub closed spec fn spec_name(&self) -> Seq<char> {
        self.name@
    }

    pub closed spec fn spec_description(&self) -> Seq<char> {
        self.description@
    }

    pub closed spec fn spec_icon_name(&self) -> Seq<char> {
        self.icon_name@
    }

    /// Ids are unique within each store.
    pub open spec fn wf(&self) -> bool {
        list_ids_unique(self.list_store()) && task_ids_unique(self.task_store())
    }

    pub fn new(id: &str, name: &str, description: &str, icon_name: &str) -> (r: MemoryProvider)
        ensures
            r.wf(),
            r.list_store().len() == 0,
            r.task_store().len() == 0,
            r.spec_id() == id@,
            r.spec_name() == name@,
            r.spec_description() == description@,
            r.spec_icon_name() == icon_name@,
    {
        MemoryProvider {
            id: String::from_str(id),
            name: String::from_str(name),
            description: String::from_str(description),
            icon_name: String::from_str(icon_name),
            lists: Vec::new(),
            tasks: Vec::new(),
        }
    }

    pub fn get_id(&self) -> (r: String)
        ensures
            r@ == self.spec_id(),
    {
        self.id.clone()
    }

    pub fn get_name(&self) -> (r: String)
        ensures
            r@ == self.spec_name(),
    {
        self.name.clone()
    }

    pub fn get_description(&self) -> (r: String)
        ensures
            r@ == self.spec_description(),
    {
        self.description.clone()
    }

    pub fn get_icon_name(&self) -> (r: String)
        ensures
            r@ == self.spec_icon_name(),
    {
        self.icon_name.clone()
    }

    /// Whether reads come as a stream of records; this provider answers in one batch.
    pub fn stream_support(&self) -> (r: bool)
        ensures
            !r,
    {
        false
    }

    /// Stores a new list; fails, storing nothing, when its id is taken.
    pub fn create_list(&mut self, list: List) -> (r: ProviderResponse)
        requires
            old(self).wf(),
        ensures
            final(self).wf(),
            r.successful == !has_list(old(self).list_store(), list@.id),
            r.successful ==> final(self).list_store() == old(self).list_store().push(list@),
            !r.successful ==> final(self).list_store() == old(self).list_store(),
            final(self).task_store() == old(self).task_store(),
    {
        match find_list(&self.lists, &list.id) {
            Some(_) => ProviderResponse::failure("a list with this id already exists"),
            None => {
                let ghost lv = list@;
                self.lists.push(list);
                proof {
                    assert(self.list_store() =~= old(self).list_store().push(lv));
                    let s = self.list_store();
                    assert forall|i: int, j: int| 0 <= i < j < s.len() implies #[trigger] s[i].id
                        != #[trigger] s[j].id by {
                        if j == s.len() - 1 {
                            assert(old(self).list_store()[i] == s[i]);
                        }
                    }
                }
                ProviderResponse::success("list created")
            },
        }
    }

    pub fn read_list(&self, id: &String) -> (r: Option<List>)
        ensures
            r is None <==> !has_list(self.list_store(), id@),
            r matches Some(l) ==> l@.id == id@ && self.list_store().contains(l@),
    {
        match find_list(&self.lists, id) {
            Some(i) => {
                proof {
                    assert(self.list_store()[i as int] == self.lists@[i as int]@);
                }
                Some(self.lists[i].clone())
            },
            None => None,
        }
    }

    /// Every stored list, in the order of creation.
    pub fn read_all_lists(&self) -> (r: Vec<List>)
        ensures
            list_models(r@) == self.list_store(),
    {
        let mut out: Vec<List> = Vec::new();
        let mut i: usize = 0;
        while i < self.lists.len()
            invariant
                i <= self.lists@.len(),
                list_models(out@) == list_models(self.lists@.take(i as int)),
            decreases self.lists@.len() - i,
        {
            let ghost before = out@;
            let l = self.lists[i].clone();
            assert(l@ == self.lists@[i as int]@);
            out.push(l);
            i = i + 1;
            proof {
                assert(out@ == before.push(l));
                assert(list_models(out@) =~= list_models(before).push(l@));
                assert(self.lists@.take(i as int) =~= self.lists@.take(i - 1).push(self.lists@[i - 1]));
                assert(list_models(out@) =~= list_models(self.lists@.take(i as int)));
            }
        }
        proof {
            assert(self.lists@.take(i as int) =~= self.lists@);
        }
        out
    }

    /// Replaces the stored list with the same id; fails when there is none.
    pub fn update_list(&mut self, list: List) -> (r: ProviderResponse)
        requires
            old(self).wf(),
        ensures
            final(self).wf(),
            r.successful == has_list(old(self).list_store(), list@.id),
            r.successful ==> exists|i: int|
                0 <= i < old(self).list_store().len() && old(self).list_store()[i].id == list@.id
                    && final(self).list_store() == old(self).list_store().update(i, list@),
            !r.successful ==> final(self).list_store() == old(self).list_store(),
            final(self).task_store() == old(self).task_store(),
    {
        match find_list(&self.lists, &list.id) {
            Some(i) => {
                let ghost lv = list@;
                proof {
                    assert(old(self).list_store()[i as int] == old(self).lists@[i as int]@);
                }
                self.lists.set(i, list);
                proof {
                    assert(self.list_store() =~= old(self).list_store().update(i as int, lv));
                    let s = self.list_store();
                    assert forall|a: int, b: int| 0 <= a < b < s.len() implies #[trigger] s[a].id
                        != #[trigger] s[b].id by {
                        assert(old(self).list_store()[a].id == s[a].id);
                        assert(old(self).list_store()[b].id == s[b].id);
                    }
                }
                ProviderResponse::success("list updated")
            },
            None => ProviderResponse::failure("no list has this id"),
        }
    }

    /// Removes the list with this id; fails, removing nothing, when there is none.
    pub fn delete_list(&mut self, id: &String) -> (r: ProviderResponse)
        requires
            old(self).wf(),
        ensures
            final(self).wf(),
            r.successful == has_list(old(self).list_store(), id@),
            r.successful ==> exists|i: int|
                0 <= i < old(self).list_store().len() && old(self).list_store()[i].id == id@
                    && final(self).list_store() == old(self).list_store().remove(i),
            !r.successful ==> final(self).list_store() == old(self).list_store(),
            final(self).task_store() == old(self).task_store(),
    {
        match find_list(&self.lists, id) {
            Some(i) => {
                proof {
                    assert(old(self).list_store()[i as int] == old(self).lists@[i as int]@);
                }
                self.lists.remove(i);
                proof {
                    assert(self.list_store() =~= old(self).list_store().remove(i as int));
                    let s = self.list_store();
                    let o = old(self).list_store();
                    assert forall|a: int, b: int| 0 <= a < b < s.len() implies #[trigger] s[a].id
                        != #[trigger] s[b].id by {
                        let a2 = if a < i { a } else { a + 1 };
                        let b2 = if b < i { b } else { b + 1 };
                        assert(s[a] == o[a2]);
                        assert(s[b] == o[b2]);
                    }
                }
                ProviderResponse::success("list deleted")
            },
            None => ProviderResponse::failure("no list has this id"),
        }
    }

    /// Stores a new task; fails, storing nothing, when its id is taken.
    pub fn create_task(&mut self, task: Task) -> (r: ProviderResponse)
        requires
            old(self).wf(),
        ensures
            final(self).wf(),
            r.successful == !has_task(old(self).task_store(), task@.id),
            r.successful ==> final(self).task_store() == old(self).task_store().push(task@),
            !r.successful ==> final(self).task_store() == old(self).task_store(),
            final(self).list_store() == old(self).list_store(),
    {
        match find_task(&self.tasks, &task.id) {
            Some(_) => ProviderResponse::failure("a task with this id already exists"),
            None => {
                let ghost tv = task@;
                self.tasks.push(task);
                proof {
                    assert(self.task_store() =~= old(self).task_store().push(tv));
                    let s = self.task_store();
                    assert forall|i: int, j: int| 0 <= i < j < s.len() implies #[trigger] s[i].id
                        != #[trigger] s[j].id by {
                        if j == s.len() - 1 {
                            assert(old(self).task_store()[i] == s[i]);
                        }
                    }
                }
                ProviderResponse::success("task created")
            },
        }
    }

    pub fn read_task(&self, id: &String) -> (r: Option<Task>)
        ensures
            r is None <==> !has_task(self.task_store(), id@),
            r matches Some(t) ==> t@.id == id@ && self.task_store().contains(t@),
    {
        match find_task(&self.tasks, id) {
            Some(i) => {
                proof {
                    assert(self.task_store()[i as int] == self.tasks@[i as int]@);
                }
                Some(self.tasks[i].clone())
            },
            None => None,
        }
    }

    /// The tasks of one list, in the order of creation.
    pub fn read_all_tasks(&self, list_id: &String) -> (r: Vec<Task>)
        ensures
            task_models(r@) == tasks_of_list(self.task_store(), list_id@),
    {
        let mut out: Vec<Task> = Vec::new();
        let mut i: usize = 0;
        while i < self.tasks.len()
            invariant
                i <= self.tasks@.len(),
                task_models(out@) == tasks_of_list(task_models(self.tasks@.take(i as int)), list_id@),
            decreases self.tasks@.len() - i,
        {
            let ghost before = out@;
            if self.tasks[i].list_id == *list_id {
                let t = self.tasks[i].clone();
                assert(t@ == self.tasks@[i as int]@);
                out.push(t);
                assert(task_models(out@) =~= task_models(before).push(t@));
            }
            i = i + 1;
            proof {
                let prev = task_models(self.tasks@.take(i - 1));
                let cur = task_models(self.tasks@.take(i as int));
                assert(cur.drop_last() =~= prev);
                assert(cur.last() == self.tasks@[i - 1]@);
                assert(task_models(out@) =~= tasks_of_list(cur, list_id@));
            }
        }
        proof {
            assert(self.tasks@.take(i as int) =~= self.tasks@);
        }
        out
    }

    /// Replaces the stored task with the same id; fails when there is none.
    pub fn update_task(&mut self, task: Task) -> (r: ProviderResponse)
        requires
            old(self).wf(),
        ensures
            final(self).wf(),
            r.successful == has_task(old(self).task_store(), task@.id),
            r.successful ==> exists|i: int|
                0 <= i < old(self).task_store().len() && old(self).task_store()[i].id == task@.id
                    && final(self).task_store() == old(self).task_store().update(i, task@),
            !r.successful ==> final(self).task_store() == old(self).task_store(),
            final(self).list_store() == old(self).list_store(),
    {
        match find_task(&self.tasks, &task.id) {
            Some(i) => {
                let ghost tv = task@;
                proof {
                    assert(old(self).task_store()[i as int] == old(self).tasks@[i as int]@);
                }
                self.tasks.set(i, task);
                proof {
                    assert(self.task_store() =~= old(self).task_store().update(i as int, tv));
                    let s = self.task_store();
                    assert forall|a: int, b: int| 0 <= a < b < s.len() implies #[trigger] s[a].id
                        != #[trigger] s[b].id by {
                        assert(old(self).task_store()[a].id == s[a].id);
                        assert(old(self).task_store()[b].id == s[b].id);
                    }
                }
                ProviderResponse::success("task updated")
            },
            None => ProviderResponse::failure("no task has this id"),
        }
    }

    /// Removes the task with this id; fails, removing nothing, when there is none.
    pub fn delete_task(&mut self, id: &String) -> (r: ProviderResponse)
        requires
            old(self).wf(),
        ensures
            final(self).wf(),
            r.successful == has_task(old(self).task_store(), id@),
            r.successful ==> exists|i: int|
                0 <= i < old(self).task_store().len() && old(self).task_store()[i].id == id@
                    && final(self).task_store() == old(self).task_store().remove(i),
            !r.successful ==> final(self).task_store() == old(self).task_store(),
            final(self).list_store() == old(self).list_store(),
    {
        match find_task(&self.tasks, id) {
            Some(i) => {
                proof {
                    assert(old(self).task_store()[i as int] == old(self).tasks@[i as int]@);
                }
                self.tasks.remove(i);
                proof {
                    assert(self.task_store() =~= old(self).task_store().remove(i as int));
                    let s = self.task_store();
                    let o = old(self).task_store();
                    assert forall|a: int, b: int| 0 <= a < b < s.len() implies #[trigger] s[a].id
                        != #[trigger] s[b].id by {
                        let a2 = if a < i { a } else { a + 1 };
                        let b2 = if b < i { b } else { b + 1 };
                        assert(s[a] == o[a2]);
                        assert(s[b] == o[b2]);
                    }
                }
                ProviderResponse::success("task deleted")
            },
            None => ProviderResponse::failure("no task has this id"),
        }
    }
}

} // verus!
