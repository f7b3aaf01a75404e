use crossbeam_queue::ArrayQueue;
use reactor_pipeline::broker::Broker;
use reactor_pipeline::engine::{consumer_step, producer_step, run_result, ConsumerAction, ProducerAction, ProducerEvent};
use reactor_pipeline::error::{Er, RunError};
use reactor_pipeline::log::Entry;
use reactor_pipeline::output::Output;
use reactor_pipeline::processor::{restore_own_state, FnContainer, Processor};
use reactor_pipeline::reactor::{Reactor, ReactorBuilder};

#[test]
fn pipe_applies_inner_then_outer() {
    let first: FnContainer<_, i32, i64, Er> = FnContainer::new(|x: i32| (x as i64) * 3);
    let second: FnContainer<_, i64, String, Er> = FnContainer::new(|x: i64| format!("v{}", x));
    let both = first.pipe(second);
    assert_eq!(both.process(4), Ok("v12".to_string()));
    assert_eq!(both.process(-1), Ok("v-3".to_string()));
}

#[test]
fn builder_chains_stages_in_order() {
    let first: FnContainer<_, i32, i32, Er> = FnContainer::new(|x: i32| x + 1);
    let reactor = ReactorBuilder::new()
        .with_source(())
        .pipe(first)
        .map(|x: i32| x * 2)
        .pipe(FnContainer::<_, i32, i32, Er>::new(|x: i32| x - 3))
        .with_broker(ArrayQueue::<i32>::new(1))
        .build();
    let (_, stage, _) = reactor.into_parts();
    assert_eq!(stage.process(5), Ok(9));
    let built = Reactor::new((), FnContainer::<_, i32, i32, Er>::new(|x: i32| x), ArrayQueue::new(1));
    let (_, same, _) = built.into_parts();
    assert_eq!(same.process(8), Ok(8));
}

#[test]
fn restoring_own_state_keeps_outputs() {
    let first: FnContainer<_, i32, i32, Er> = FnContainer::new(|x: i32| x + 7);
    let mut stage = first.map(|x: i32| x % 5);
    let before: Vec<Result<i32, Er>> = (-4..9).map(|x| stage.process(x)).collect();
    restore_own_state(&mut stage);
    let snapshot = stage.state();
    stage.set_state(snapshot);
    let after: Vec<Result<i32, Er>> = (-4..9).map(|x| stage.process(x)).collect();
    assert_eq!(before, after);
    assert_eq!(after[0], Ok(3));
}

#[test]
fn bounded_queue_refuses_beyond_capacity() {
    for n in 1..6usize {
        let queue: ArrayQueue<String> = ArrayQueue::new(n);
        for i in 0..n {
            assert_eq!(queue.submit(format!("item{}", i)), Ok(()));
        }
        assert_eq!(queue.submit("extra".to_string()), Err("extra".to_string()));
        assert_eq!(queue.claim(), Some("item0".to_string()));
        assert_eq!(queue.submit("late".to_string()), Ok(()));
    }
}

#[test]
fn claim_on_empty_queue_is_empty() {
    let queue: ArrayQueue<u8> = ArrayQueue::new(2);
    assert_eq!(queue.claim(), None);
    assert_eq!(queue.submit(9), Ok(()));
    assert_eq!(queue.claim(), Some(9));
    assert_eq!(queue.claim(), None);
}

#[test]
fn cancelled_producer_stops_whatever_it_pulled() {
    match producer_step::<i32, Er>(false, ProducerEvent::Pulled(Some(Ok(3)))) {
        ProducerAction::Stop(end) => assert_eq!(end, Ok(())),
        _ => panic!("producer kept going after cancellation"),
    }
    match producer_step::<i32, Er>(false, ProducerEvent::Rejected(3)) {
        ProducerAction::Stop(end) => assert_eq!(end, Ok(())),
        _ => panic!("producer retried after cancellation"),
    }
}

#[test]
fn producer_decisions_while_active() {
    assert!(matches!(producer_step::<i32, Er>(true, ProducerEvent::Accepted), ProducerAction::Pull));
    assert!(matches!(
        producer_step::<i32, Er>(true, ProducerEvent::Pulled(Some(Ok(4)))),
        ProducerAction::Submit(4)
    ));
    assert!(matches!(
        producer_step::<i32, Er>(true, ProducerEvent::Rejected(6)),
        ProducerAction::Submit(6)
    ));
    assert!(matches!(
        producer_step::<i32, Er>(true, ProducerEvent::Pulled(Some(Err(Er::E)))),
        ProducerAction::Stop(Err(Er::E))
    ));
    assert!(matches!(
        producer_step::<i32, Er>(true, ProducerEvent::Pulled(None)),
        ProducerAction::Stop(Ok(()))
    ));
}

#[test]
fn consumer_drains_then_stops_after_cancellation() {
    let stage: FnContainer<_, i32, i32, Er> = FnContainer::new(|x: i32| x + 1);
    assert!(matches!(consumer_step(&stage, false, Some(1)), ConsumerAction::Send(2)));
    assert!(matches!(consumer_step(&stage, false, None), ConsumerAction::Stop(Ok(()))));
    assert!(matches!(consumer_step(&stage, true, None), ConsumerAction::Poll));
}

#[test]
fn run_result_prefers_source_error() {
    assert_eq!(run_result::<Er>(Ok(()), Ok(())), Ok(()));
    assert_eq!(run_result(Err(Er::E), Ok(())), Err(RunError::Source(Er::E)));
    assert_eq!(run_result(Ok(()), Err(Er::E)), Err(RunError::Processor(Er::E)));
    assert_eq!(run_result(Err(1u8), Err(2u8)), Err(RunError::Source(1u8)));
}

#[test]
fn entry_keeps_its_text() {
    let a = Entry::new("started");
    assert_eq!(a, Entry::new("started"));
    assert_ne!(a, Entry::new("stopped"));
    let out = Output { result: 3, log: vec![a] };
    assert_eq!(out.result, 3);
    assert_eq!(out.log.len(), 1);
}
