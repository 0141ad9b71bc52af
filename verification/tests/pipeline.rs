use catbox_cli::{Pipeline, TaskState, CEILING};

#[test]
fn ceiling_is_five() {
    assert_eq!(CEILING, 5);
}

#[test]
fn new_pipeline_has_every_task_pending() {
    let pipeline = Pipeline::new(3);
    assert_eq!(pipeline.len(), 3);
    assert_eq!(pipeline.in_flight(), 0);
    assert_eq!(pipeline.state(0), Some(TaskState::Pending));
    assert_eq!(pipeline.state(2), Some(TaskState::Pending));
    assert_eq!(pipeline.state(3), None);
}

#[test]
fn dispatch_hands_out_tasks_in_input_order() {
    let pipeline = Pipeline::new(3);
    let (pipeline, first) = pipeline.dispatch();
    let (pipeline, second) = pipeline.dispatch();
    let (pipeline, third) = pipeline.dispatch();
    let (pipeline, fourth) = pipeline.dispatch();
    assert_eq!(first, Some(0));
    assert_eq!(second, Some(1));
    assert_eq!(third, Some(2));
    assert_eq!(fourth, None);
    assert_eq!(pipeline.in_flight(), 3);
    assert_eq!(pipeline.state(1), Some(TaskState::InFlight));
}

#[test]
fn dispatch_stops_at_the_ceiling() {
    let mut pipeline = Pipeline::new(8);
    for expected in 0..5 {
        let (next, started) = pipeline.dispatch();
        pipeline = next;
        assert_eq!(started, Some(expected));
    }
    let (pipeline, sixth) = pipeline.dispatch();
    assert_eq!(sixth, None);
    assert_eq!(pipeline.in_flight(), 5);
    assert_eq!(pipeline.state(5), Some(TaskState::Pending));
}

#[test]
fn completing_a_task_frees_its_slot() {
    let mut pipeline = Pipeline::new(7);
    for _ in 0..5 {
        pipeline = pipeline.dispatch().0;
    }
    let (pipeline, was_in_flight) = pipeline.complete(3, true);
    assert!(was_in_flight);
    assert_eq!(pipeline.in_flight(), 4);
    assert_eq!(pipeline.state(3), Some(TaskState::Done));
    let (pipeline, started) = pipeline.dispatch();
    assert_eq!(started, Some(5));
    assert_eq!(pipeline.in_flight(), 5);
}

#[test]
fn completing_a_task_that_is_not_in_flight_changes_nothing() {
    let pipeline = Pipeline::new(2).dispatch().0;
    let (pipeline, pending) = pipeline.complete(1, true);
    assert!(!pending);
    assert_eq!(pipeline.state(1), Some(TaskState::Pending));
    let (pipeline, unknown) = pipeline.complete(9, true);
    assert!(!unknown);
    let (pipeline, first) = pipeline.complete(0, true);
    assert!(first);
    let (pipeline, again) = pipeline.complete(0, false);
    assert!(!again);
    assert_eq!(pipeline.state(0), Some(TaskState::Done));
    assert_eq!(pipeline.in_flight(), 0);
}

#[test]
fn a_failure_halts_the_batch() {
    let pipeline = Pipeline::new(3).dispatch().0;
    let (pipeline, was_in_flight) = pipeline.complete(0, false);
    assert!(was_in_flight);
    assert_eq!(pipeline.state(0), Some(TaskState::Failed));
    let (pipeline, started) = pipeline.dispatch();
    assert_eq!(started, None);
    assert_eq!(pipeline.state(1), Some(TaskState::Pending));
}

#[test]
fn halt_stops_dispatch_and_keeps_what_is_in_flight() {
    let pipeline = Pipeline::new(4).dispatch().0.dispatch().0;
    let pipeline = pipeline.halt();
    let (pipeline, started) = pipeline.dispatch();
    assert_eq!(started, None);
    assert_eq!(pipeline.in_flight(), 2);
    let (pipeline, was_in_flight) = pipeline.complete(1, true);
    assert!(was_in_flight);
    assert_eq!(pipeline.in_flight(), 1);
}

#[test]
fn empty_pipeline_has_nothing_to_dispatch() {
    let (pipeline, started) = Pipeline::new(0).dispatch();
    assert_eq!(started, None);
    assert_eq!(pipeline.len(), 0);
    assert_eq!(pipeline.in_flight(), 0);
}

#[test]
fn in_flight_never_exceeds_the_ceiling_over_a_long_batch() {
    let total = 23;
    let mut pipeline = Pipeline::new(total);
    let mut running: Vec<usize> = Vec::new();
    let mut settled = 0;
    let mut peak = 0;
    while settled < total {
        loop {
            let (next, started) = pipeline.dispatch();
            pipeline = next;
            match started {
                Some(task) => running.push(task),
                None => break,
            }
        }
        assert!(pipeline.in_flight() <= CEILING);
        assert_eq!(pipeline.in_flight(), running.len());
        peak = peak.max(pipeline.in_flight());
        let task = running.remove(running.len() / 2);
        let (next, was_in_flight) = pipeline.complete(task, true);
        pipeline = next;
        assert!(was_in_flight);
        settled += 1;
    }
    assert_eq!(peak, CEILING);
    assert_eq!(pipeline.in_flight(), 0);
    assert_eq!(pipeline.state(total - 1), Some(TaskState::Done));
}
