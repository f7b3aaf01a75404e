use crossbeam_queue::ArrayQueue;
use vstd::prelude::*;

verus! {

/// Where an item stands in the pipeline.
pub enum State {
    Submitted,
    Processed,
}

/// A bounded handoff between the producer and the consumer. Both operations
/// take `&self` and never block; what the queue holds is shared with the other
/// side, so only what holds of every outcome is stated.
pub trait Broker<T> {
    /// Offers `value`; a queue with no room hands the same value back.
    fn submit(&self, value: T) -> (r: Result<(), T>)
        ensures
            r matches Err(v) ==> v == value,
    ;

    /// Takes an item if one is there.
    fn claim(&self) -> (r: Option<T>);
}

#[verifier::external_type_specification]
#[verifier::external_body]
#[verifier::reject_recursive_types(T)]
pub struct ExArrayQueue<T>(ArrayQueue<T>);

/// Relies on crossbeam_queue's ArrayQueue::push: it never blocks, and when the
/// queue is full it returns the pushed value back as the error.
pub assume_specification<T>[ ArrayQueue::<T>::push ](q: &ArrayQueue<T>, value: T) -> (r: Result<
    (),
    T,
>)
    ensures
        r matches Err(v) ==> v == value,
;

/// Relies on crossbeam_queue's ArrayQueue::pop: it never blocks and returns an
/// item if one is present.
pub assume_specification<T>[ ArrayQueue::<T>::pop ](q: &ArrayQueue<T>) -> (r: Option<T>);

impl<T> Broker<T> for ArrayQueue<T> {
    fn submit(&self, value: T) -> (r: Result<(), T>) {
        self.push(value)
    }

    fn claim(&self) -> (r: Option<T>) {
        self.pop()
    }
}

} // verus!
