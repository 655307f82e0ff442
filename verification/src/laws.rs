use vstd::prelude::*;

use crate::to_do::ToDoView;
use crate::to_do_repository::{lemma_without_id_push, reflects_latest, without_id};

verus! {

/// A freshly constructed repository reflects the empty sequence: nothing has
/// been published, and an observer of the current state sees no tasks.
pub proof fn lemma_fresh_repository_reflects_empty()
    ensures
        reflects_latest(Seq::<ToDoView>::empty(), Seq::<Seq<ToDoView>>::empty()),
{
}

/// A mutation that publishes the updated task sequence leaves the stream's
/// latest snapshot equal to the repository's tasks, so a subscriber never
/// observes a state the repository was not in.
pub proof fn lemma_publish_reflects_latest(tasks: Seq<ToDoView>, published: Seq<Seq<ToDoView>>)
    ensures
        reflects_latest(tasks, published.push(tasks)),
{
}

/// Adding a task to an empty repository publishes exactly that one task.
pub proof fn lemma_add_to_empty_publishes_singleton(pre: Seq<ToDoView>, t: ToDoView)
    requires
        pre == Seq::<ToDoView>::empty(),
    ensures
        pre.push(t) == seq![t],
{
    assert(pre.push(t) =~= seq![t]);
}

/// Adding two tasks in turn keeps their order: the second stands after the
/// first in the published sequence.
pub proof fn lemma_add_preserves_order(pre: Seq<ToDoView>, t1: ToDoView, t2: ToDoView)
    requires
        pre == Seq::<ToDoView>::empty(),
    ensures
        pre.push(t1).push(t2) == seq![t1, t2],
{
    assert(pre.push(t1).push(t2) =~= seq![t1, t2]);
}

/// Removing the middle task's identifier from three tasks keeps the outer two,
/// in their order.
pub proof fn lemma_remove_filters_by_id(t1: ToDoView, t2: ToDoView, t3: ToDoView)
    requires
        t1.id != t2.id,
        t3.id != t2.id,
    ensures
        without_id(seq![t1, t2, t3], t2.id) == seq![t1, t3],
{
    reveal_with_fuel(Seq::filter, 1);
    let empty = Seq::<ToDoView>::empty();
    assert(seq![t1] =~= empty.push(t1));
    assert(seq![t1, t2] =~= seq![t1].push(t2));
    assert(seq![t1, t2, t3] =~= seq![t1, t2].push(t3));
    assert(empty.filter(|t: ToDoView| t.id != t2.id) =~= empty);
    lemma_without_id_push(empty, t1, t2.id);
    lemma_without_id_push(seq![t1], t2, t2.id);
    lemma_without_id_push(seq![t1, t2], t3, t2.id);
    assert(without_id(seq![t1, t2, t3], t2.id) =~= seq![t1, t3]);
}

/// Removing an identifier that no task carries leaves the task sequence
/// unchanged; the mutation still completes and still publishes.
pub proof fn lemma_remove_absent_id_is_noop(tasks: Seq<ToDoView>, id: u128)
    requires
        forall|i: int| 0 <= i < tasks.len() ==> tasks[i].id != id,
    ensures
        without_id(tasks, id) == tasks,
    decreases tasks.len(),
{
    reveal_with_fuel(Seq::filter, 1);
    if tasks.len() == 0 {
        assert(without_id(tasks, id) =~= tasks);
    } else {
        let front = tasks.drop_last();
        lemma_remove_absent_id_is_noop(front, id);
        lemma_without_id_push(front, tasks.last(), id);
        assert(front.push(tasks.last()) =~= tasks);
    }
}

/// A snapshot already published is not altered by a later publish: the earlier
/// entries of the history stay what they were.
pub proof fn lemma_snapshots_immutable(published: Seq<Seq<ToDoView>>, next: Seq<ToDoView>, i: int)
    requires
        0 <= i < published.len(),
    ensures
        published.push(next)[i] == published[i],
{
}

} // verus!
