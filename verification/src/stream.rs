use vstd::prelude::*;

use crate::to_do::{ToDo, ToDoView};

verus! {

/// `reactive_rs::Broadcast`, the publish/subscribe channel on which the
/// repository publishes its task snapshots, declared so that it can stand in
/// fields and signatures. Verus sees nothing of its inside; what it holds is
/// spoken of through `sent`.
#[verifier::external_type_specification]
#[verifier::external_body]
#[verifier::reject_recursive_types(C)]
#[verifier::reject_recursive_types(T)]
pub struct ExBroadcast<'a, C: ?Sized, T: ?Sized>(reactive_rs::Broadcast<'a, C, T>);

/// The history of task snapshots published on the channel, oldest first.
pub uninterp spec fn sent(b: reactive_rs::SimpleBroadcast<'static, Vec<ToDo>>) -> Seq<Seq<ToDoView>>;

/// Relies on `reactive_rs::Broadcast::new`: a fresh channel has no
/// subscribers, and nothing has ever been sent on it.
#[verifier::external_body]
pub(crate) fn new_broadcast() -> (b: reactive_rs::SimpleBroadcast<'static, Vec<ToDo>>)
    ensures
        sent(b) == Seq::<Seq<ToDoView>>::empty(),
{
    reactive_rs::SimpleBroadcast::new()
}

/// Relies on `reactive_rs::Broadcast::send`: it hands the snapshot, by
/// reference, to every currently subscribed observer, synchronously, and
/// returns once all of them have run.
#[verifier::external_body]
pub(crate) fn send_snapshot(
    b: &mut reactive_rs::SimpleBroadcast<'static, Vec<ToDo>>,
    snapshot: Vec<ToDo>,
)
    ensures
        sent(*final(b)) == sent(*old(b)).push(snapshot.deep_view()),
{
    b.send(snapshot);
}

} // verus!
