use vstd::prelude::*;

use crate::stream::sent;
use crate::to_do::{ToDo, ToDoView};

verus! {

/// What remains of a task sequence after removing every task whose identifier
/// equals `id`, keeping the relative order of the rest.
pub open spec fn without_id(tasks: Seq<ToDoView>, id: u128) -> Seq<ToDoView> {
    tasks.filter(|t: ToDoView| t.id != id)
}

/// One step of `without_id`: a task appended at the end stays exactly when its
/// identifier differs from the removed one, and the rest is untouched.
pub proof fn lemma_without_id_push(tasks: Seq<ToDoView>, t: ToDoView, id: u128)
    ensures
        t.id != id ==> without_id(tasks.push(t), id) == without_id(tasks, id).push(t),
        t.id == id ==> without_id(tasks.push(t), id) == without_id(tasks, id),
{
    reveal_with_fuel(Seq::filter, 1);
    assert(tasks.push(t).drop_last() =~= tasks);
    assert(tasks.push(t).last() == t);
}

/// The stream's latest snapshot shows the repository's current tasks: the
/// empty sequence while nothing has been published, and the last published
/// snapshot afterwards.
pub open spec fn reflects_latest(tasks: Seq<ToDoView>, published: Seq<Seq<ToDoView>>) -> bool {
    if published.len() == 0 {
        tasks == Seq::<ToDoView>::empty()
    } else {
        published.last() == tasks
    }
}

/// Repository by which read and write operations on to-dos are performed.
///
/// Every mutation appends the full updated task sequence to the stream's
/// published history, so a subscriber only ever receives a snapshot of an
/// actual repository state, never a partial one.
pub trait ToDoRepository: Sized {
    /// The current task sequence, insertion-ordered.
    spec fn tasks(&self) -> Seq<ToDoView>;

    /// Every snapshot published so far on the repository's stream, oldest
    /// first.
    spec fn published(&self) -> Seq<Seq<ToDoView>>;

    /// Obtains the stream by which all to-dos are sent.
    fn _get(&self) -> (stream: &reactive_rs::SimpleBroadcast<'static, Vec<ToDo>>)
        ensures
            sent(*stream) == self.published(),
    ;

    /// Adds the to-do at the end of the task sequence and publishes the whole
    /// updated sequence. Always succeeds.
    fn _add(&mut self, to_do: ToDo)
        ensures
            final(self).tasks() == old(self).tasks().push(to_do@),
            final(self).published() == old(self).published().push(final(self).tasks()),
    ;

    /// Removes every to-do identified with the given identifier, keeping the
    /// order of the rest, and publishes the whole updated sequence. Always
    /// succeeds, also when no task carries the identifier.
    fn _remove(&mut self, id: u128)
        ensures
            final(self).tasks() == without_id(old(self).tasks(), id),
            final(self).published() == old(self).published().push(final(self).tasks()),
    ;
}

} // verus!
