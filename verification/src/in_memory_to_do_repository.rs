use vstd::prelude::*;

use crate::stream::{new_broadcast, send_snapshot, sent};
use crate::to_do::{ToDo, ToDoView};
use crate::to_do_repository::{lemma_without_id_push, without_id, ToDoRepository};

verus! {

/// A to-do repository which writes into and reads from memory.
pub struct InMemoryToDoRepository {
    /// Broadcast by which the updated to-dos are emitted.
    broadcast: reactive_rs::SimpleBroadcast<'static, Vec<ToDo>>,
    /// Currently added to-dos.
    to_dos: Vec<ToDo>,
}

impl View for InMemoryToDoRepository {
    type V = Seq<ToDoView>;

    closed spec fn view(&self) -> Seq<ToDoView> {
        self.to_dos.deep_view()
    }
}

impl InMemoryToDoRepository {
    /// Creates an in-memory repository for to-dos: it holds no tasks, and
    /// nothing has been published on its stream.
    pub fn _new() -> (r: InMemoryToDoRepository)
        ensures
            r.tasks() == Seq::<ToDoView>::empty(),
            r.published() == Seq::<Seq<ToDoView>>::empty(),
    {
        let r = InMemoryToDoRepository { broadcast: new_broadcast(), to_dos: Vec::new() };
        proof {
            assert(r.to_dos.deep_view() =~= Seq::<ToDoView>::empty());
        }
        r
    }
}

/// Copies the tasks whose identifier differs from `id`, keeping their order.
fn tasks_without_id(tasks: &Vec<ToDo>, id: u128) -> (kept: Vec<ToDo>)
    ensures
        kept.deep_view() == without_id(tasks.deep_view(), id),
{
    let ghost all = tasks.deep_view();
    let mut kept: Vec<ToDo> = Vec::new();
    let mut i: usize = 0;
    proof {
        assert(all.subrange(0, 0) =~= Seq::<ToDoView>::empty());
        reveal_with_fuel(Seq::filter, 1);
    }
    while i < tasks.len()
        invariant
            i <= tasks.len(),
            all == tasks.deep_view(),
            kept.deep_view() == without_id(all.subrange(0, i as int), id),
        decreases tasks.len() - i,
    {
        let ghost pre_kept = kept.deep_view();
        let t = &tasks[i];
        if t.id != id {
            kept.push(t.clone());
            proof {
                assert(kept.deep_view() =~= pre_kept.push(t@));
            }
        }
        proof {
            assert(all.subrange(0, i + 1) =~= all.subrange(0, i as int).push(all[i as int]));
            lemma_without_id_push(all.subrange(0, i as int), all[i as int], id);
        }
        i = i + 1;
    }
    proof {
        assert(all.subrange(0, all.len() as int) =~= all);
    }
    kept
}

/// Copies the task sequence, so that a published snapshot stays what it was
/// whatever is later done to the repository.
fn snapshot_of(tasks: &Vec<ToDo>) -> (snapshot: Vec<ToDo>)
    ensures
        snapshot.deep_view() == tasks.deep_view(),
{
    let snapshot = tasks.clone();
    proof {
        assert forall|i: int| 0 <= i < tasks@.len() implies snapshot@[i] == tasks@[i] by {}
        assert(snapshot@ =~= tasks@);
        assert(snapshot.deep_view() =~= tasks.deep_view());
    }
    snapshot
}

impl ToDoRepository for InMemoryToDoRepository {
    closed spec fn tasks(&self) -> Seq<ToDoView> {
        self.to_dos.deep_view()
    }

    closed spec fn published(&self) -> Seq<Seq<ToDoView>> {
        sent(self.broadcast)
    }

    fn _get(&self) -> (stream: &reactive_rs::SimpleBroadcast<'static, Vec<ToDo>>) {
        &self.broadcast
    }

    fn _add(&mut self, to_do: ToDo) {
        let ghost pre_tasks = self.to_dos.deep_view();
        let ghost added = to_do@;
        self.to_dos.push(to_do);
        proof {
            assert(self.to_dos.deep_view() =~= pre_tasks.push(added));
        }
        let snapshot = snapshot_of(&self.to_dos);
        send_snapshot(&mut self.broadcast, snapshot);
    }

    fn _remove(&mut self, id: u128) {
        self.to_dos = tasks_without_id(&self.to_dos, id);
        let snapshot = snapshot_of(&self.to_dos);
        send_snapshot(&mut self.broadcast, snapshot);
    }
}

} // verus!
