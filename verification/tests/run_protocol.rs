use brownian_motion::aggregator::{process_events, Action, Aggregator, Event};
use brownian_motion::coordinator::{TickBarrier, TickNotifier};
use brownian_motion::driver::{Driver, Phase, PollDecision};

#[test]
fn aggregator_counts_moves() {
    let mut agg = Aggregator::new();
    assert_eq!(agg.handle(Event::AskForTotalTransitions), Action::Respond(0));
    assert_eq!(agg.handle(Event::ParticleMoved), Action::Continue);
    assert_eq!(agg.handle(Event::ParticleMoved), Action::Continue);
    assert_eq!(agg.handle(Event::AskForTotalTransitions), Action::Respond(2));
    assert_eq!(agg.handle(Event::Quit), Action::Stop(2));
    assert_eq!(agg.into_total(), 2);
}

#[test]
fn aggregator_queries_never_decrease() {
    let mut agg = Aggregator::new();
    let mut last = 0u64;
    let script = [0usize, 1, 0, 3, 0, 0, 2, 0];
    for &moves in script.iter() {
        for _ in 0..moves {
            assert_eq!(agg.handle(Event::ParticleMoved), Action::Continue);
        }
        match agg.handle(Event::AskForTotalTransitions) {
            Action::Respond(v) => {
                assert!(v >= last);
                last = v;
            }
            other => panic!("expected a response, got {:?}", other),
        }
    }
    assert_eq!(last, 6);
}

#[test]
fn process_events_stops_at_quit() {
    let events = vec![
        Event::ParticleMoved,
        Event::AskForTotalTransitions,
        Event::ParticleMoved,
        Event::Quit,
        Event::ParticleMoved,
    ];
    // Only the moves that arrive strictly before the quit are counted, and
    // the one query is answered with the single move enqueued before it.
    assert_eq!(process_events(&events), (2, vec![1]));
}

#[test]
fn process_events_without_quit_counts_all() {
    let events = vec![Event::ParticleMoved; 5];
    assert_eq!(process_events(&events), (5, vec![]));
    assert_eq!(process_events(&Vec::new()), (0, vec![]));
}

#[test]
fn query_answers_reflect_prior_moves_only() {
    let events = vec![
        Event::AskForTotalTransitions,
        Event::ParticleMoved,
        Event::AskForTotalTransitions,
        Event::ParticleMoved,
        Event::ParticleMoved,
        Event::AskForTotalTransitions,
        Event::Quit,
        Event::ParticleMoved,
        Event::AskForTotalTransitions,
    ];
    let (total, answers) = process_events(&events);
    assert_eq!(total, 3);
    // One answer per query before the quit, each counting exactly the moves
    // enqueued strictly before it — a non-decreasing sequence.
    assert_eq!(answers, vec![0, 1, 3]);
}

#[test]
fn shutdown_count_covers_last_query() {
    // Scenario: the final total returned after draining is at least the
    // value of the last periodic query issued before shutdown.
    let events = vec![
        Event::ParticleMoved,
        Event::ParticleMoved,
        Event::AskForTotalTransitions,
        Event::ParticleMoved,
        Event::Quit,
    ];
    let (final_total, answers) = process_events(&events);
    assert_eq!(final_total, 3);
    assert_eq!(answers, vec![2]);
    assert!(final_total >= *answers.last().unwrap());
}

#[test]
fn barrier_releases_on_last_arrival() {
    let mut barrier = TickBarrier::new(3);
    assert!(!barrier.arrive());
    assert!(!barrier.arrive());
    // The third walker's arrival crosses the tick boundary ...
    assert!(barrier.arrive());
    // ... and the barrier is cyclic: the next round counts afresh.
    assert!(!barrier.arrive());
    assert!(!barrier.arrive());
    assert!(barrier.arrive());
}

#[test]
fn barrier_of_one_releases_every_arrival() {
    let mut barrier = TickBarrier::new(1);
    for _ in 0..4 {
        assert!(barrier.arrive());
    }
}

#[test]
fn notifier_signals_each_walker_once_per_tick() {
    let mut notifier = TickNotifier::new(3);
    for _tick in 0..3 {
        let mut signalled = Vec::new();
        while !notifier.tick_done() {
            signalled.push(notifier.signal_next());
        }
        assert_eq!(signalled, vec![0, 1, 2]);
        notifier.start_tick();
    }
}

#[test]
fn driver_walks_phases_in_order() {
    let mut driver = Driver::new(60_000, 5_000);
    driver.start(0);
    driver.begin_draining();
    driver.on_joined(0);
    assert_eq!(driver.finish(), 0);
}

#[test]
fn driver_poll_decisions() {
    let mut driver = Driver::new(60_000, 5_000);
    driver.start(0);
    // No interval elapsed yet: wait.
    assert_eq!(driver.on_poll(0), PollDecision::Wait);
    assert_eq!(driver.on_poll(4_999), PollDecision::Wait);
    // A full logging interval since the last report: report.
    assert_eq!(driver.on_poll(5_000), PollDecision::Report);
    driver.record_report(5_000, 17);
    assert_eq!(driver.on_poll(5_001), PollDecision::Wait);
    assert_eq!(driver.on_poll(9_999), PollDecision::Wait);
    assert_eq!(driver.on_poll(10_000), PollDecision::Report);
    // Duration expiry wins over a due report.
    assert_eq!(driver.on_poll(60_000), PollDecision::Shutdown);
}

#[test]
fn driver_final_report_uses_joined_count() {
    let mut driver = Driver::new(60_000, 5_000);
    driver.start(0);
    driver.record_report(5_000, 12);
    driver.record_report(10_000, 30);
    driver.begin_draining();
    driver.on_joined(41);
    let final_count = driver.finish();
    assert_eq!(final_count, 41);
    assert!(final_count >= 30);
}

#[test]
fn phase_values_are_distinct() {
    let phases = [
        Phase::Init,
        Phase::Running,
        Phase::Draining,
        Phase::Joined,
        Phase::Terminated,
    ];
    for (i, a) in phases.iter().enumerate() {
        for (j, b) in phases.iter().enumerate() {
            assert_eq!(a == b, i == j);
        }
    }
}
