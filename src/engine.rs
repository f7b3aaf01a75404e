use crate::error::RunError;
use crate::processor::Processor;
use vstd::prelude::*;

verus! {

/// What the producer loop learned since its last decision.
pub enum ProducerEvent<O, E> {
    /// The source gave this: an item, an error, or `None` at its end.
    Pulled(Option<Result<O, E>>),
    /// The broker took the item offered.
    Accepted,
    /// The broker was full and handed the item back.
    Rejected(O),
}

/// What the producer loop does next.
pub enum ProducerAction<O, E> {
    /// Await the next item of the source.
    Pull,
    /// Offer the item to the broker.
    Submit(O),
    /// Leave the loop and cancel the token; `Err` carries the source's error.
    Stop(Result<(), E>),
}

/// What the consumer loop does next.
pub enum ConsumerAction<T, E> {
    /// Write the processed item to the sink.
    Send(T),
    /// The queue was empty and the run goes on: claim again.
    Poll,
    /// Leave the loop; `Err` carries the stage's error, and the token is then
    /// cancelled.
    Stop(Result<(), E>),
}

/// The producer's decision. Once the token is cancelled it stops at once,
/// whatever it pulled. While the run is active it submits each item, offers an
/// item that the broker handed back again (the broker pushes back, nothing is
/// dropped), pulls again after an accepted item, and stops when the source
/// ends or fails.
pub open spec fn producer_decision<O, E>(active: bool, event: ProducerEvent<O, E>) -> ProducerAction<
    O,
    E,
> {
    if !active {
        ProducerAction::Stop(Ok(()))
    } else {
        match event {
            ProducerEvent::Pulled(Some(Ok(item))) => ProducerAction::Submit(item),
            ProducerEvent::Pulled(Some(Err(e))) => ProducerAction::Stop(Err(e)),
            ProducerEvent::Pulled(None) => ProducerAction::Stop(Ok(())),
            ProducerEvent::Accepted => ProducerAction::Pull,
            ProducerEvent::Rejected(item) => ProducerAction::Submit(item),
        }
    }
}

/// The consumer's decision on what a claim gave. A claimed item is processed:
/// its output goes to the sink, or the stage's error ends the loop. An empty
/// claim polls again while the run is active and ends the loop once it is
/// cancelled, so that the items already queued are drained first.
pub open spec fn consumer_decision<P: Processor>(p: P, active: bool, claimed: Option<P::Input>) -> ConsumerAction<
    P::Output,
    P::Error,
> {
    match claimed {
        Some(x) => match p.outcome(x) {
            Ok(out) => ConsumerAction::Send(out),
            Err(e) => ConsumerAction::Stop(Err(e)),
        },
        None => if active {
            ConsumerAction::Poll
        } else {
            ConsumerAction::Stop(Ok(()))
        },
    }
}

/// The producer loop's step: given whether the token is still active and what
/// happened last, what to do next.
pub fn producer_step<O, E>(active: bool, event: ProducerEvent<O, E>) -> (r: ProducerAction<O, E>)
    ensures
        r == producer_decision(active, event),
{
    if !active {
        return ProducerAction::Stop(Ok(()));
    }
    match event {
        ProducerEvent::Pulled(Some(Ok(item))) => ProducerAction::Submit(item),
        ProducerEvent::Pulled(Some(Err(e))) => ProducerAction::Stop(Err(e)),
        ProducerEvent::Pulled(None) => ProducerAction::Stop(Ok(())),
        ProducerEvent::Accepted => ProducerAction::Pull,
        ProducerEvent::Rejected(item) => ProducerAction::Submit(item),
    }
}

/// The consumer loop's step: processes what the claim gave, if anything, with
/// the composed stage `p`.
pub fn consumer_step<P: Processor>(p: &P, active: bool, claimed: Option<P::Input>) -> (r:
    ConsumerAction<P::Output, P::Error>)
    requires
        p.valid(),
    ensures
        r == consumer_decision(*p, active, claimed),
{
    match claimed {
        Some(x) => match p.process(x) {
            Ok(out) => ConsumerAction::Send(out),
            Err(e) => ConsumerAction::Stop(Err(e)),
        },
        None => if active {
            ConsumerAction::Poll
        } else {
            ConsumerAction::Stop(Ok(()))
        },
    }
}

/// What a run reports once both loops have stopped, from how each ended: the
/// source's error first, then the stage's, and success when neither failed.
pub open spec fn run_outcome<E>(producer: Result<(), E>, consumer: Result<(), E>) -> Result<
    (),
    RunError<E>,
> {
    match producer {
        Err(e) => Err(RunError::Source(e)),
        Ok(()) => match consumer {
            Err(e) => Err(RunError::Processor(e)),
            Ok(()) => Ok(()),
        },
    }
}

/// Joins the ends of the two loops into the run's result.
pub fn run_result<E>(producer: Result<(), E>, consumer: Result<(), E>) -> (r: Result<
    (),
    RunError<E>,
>)
    ensures
        r == run_outcome(producer, consumer),
{
    match producer {
        Err(e) => Err(RunError::Source(e)),
        Ok(()) => match consumer {
            Err(e) => Err(RunError::Processor(e)),
            Ok(()) => Ok(()),
        },
    }
}

/// After cancellation, whichever loop did not cancel stops at its next step:
/// the producer whatever its last pull or offer gave, the consumer at the first
/// claim that finds the queue empty.
pub proof fn lemma_cancellation_stops<P: Processor>(event: ProducerEvent<P::Input, P::Error>, p: P)
    ensures
        producer_decision(false, event) is Stop,
        consumer_decision(p, false, None) is Stop,
{
}

/// While the run is active the producer loses no item: a pulled item is
/// offered to the broker, and an item that the broker handed back is offered
/// again, unchanged. An error from the source stops the producer whether or not
/// the run is still active, so nothing the source yields after it is taken.
pub proof fn lemma_producer_keeps_items<O, E>(item: O, e: E, active: bool)
    ensures
        producer_decision(true, ProducerEvent::<O, E>::Pulled(Some(Ok(item))))
            == ProducerAction::<O, E>::Submit(item),
        producer_decision(true, ProducerEvent::<O, E>::Rejected(item)) == ProducerAction::<
            O,
            E,
        >::Submit(item),
        producer_decision(active, ProducerEvent::<O, E>::Pulled(Some(Err(e)))) is Stop,
{
}

/// A loop that reaches `Stop` with an error hands that error to the run's
/// result, so a failure in either loop is never lost.
pub proof fn lemma_failures_are_reported<E>(producer: Result<(), E>, consumer: Result<(), E>)
    ensures
        producer is Err <==> run_outcome(producer, consumer) matches Err(RunError::Source(_)),
        producer is Ok && consumer is Err <==> run_outcome(producer, consumer) matches Err(
            RunError::Processor(_),
        ),
        run_outcome(producer, consumer) is Ok <==> producer is Ok && consumer is Ok,
{
}

} // verus!
