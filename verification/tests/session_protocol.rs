use turt::registry::Mutation;
use turt::rendezvous::WaitStep;
use turt::session::{Session, TickStep};
use turt::turtle::Turtle;
use turt::TurtError;

#[test]
fn create_assigns_dense_handles() {
    // 100 creations yield the distinct, dense handles 0..=99 with no
    // duplicates and no gaps (the registry serializes concurrent callers,
    // so every interleaving reduces to this sequence of creations).
    let mut session = Session::new();
    let mut handles: Vec<usize> = Vec::new();
    for _ in 0..100 {
        let turtle = Turtle::new(&mut session);
        handles.push(turtle.id());
    }
    let expected: Vec<usize> = (0..100).collect();
    assert_eq!(handles, expected);
    assert_eq!(session.registry.agents.len(), 100);
}

#[test]
fn unknown_handle_is_reported() {
    let mut session = Session::new();
    Turtle::new(&mut session);
    let outcome = session.mutate(7, Mutation::SetSize { width: 1, height: 1 });
    assert_eq!(outcome, Err(TurtError::UnknownHandle));
}

#[test]
fn mutation_is_acknowledged_by_the_next_tick() {
    // The ticket handed out at mutation time is the current tick counter;
    // before a tick completes the waiter keeps waiting, after the next
    // completed tick it is released.
    let mut session = Session::new();
    let turtle = Turtle::new(&mut session);
    let ticket = turtle.set_pos(&mut session, 1_000, 2_000).unwrap();
    assert_eq!(ticket, 0);
    assert_eq!(session.wait_step(ticket), WaitStep::KeepWaiting);
    let step = session.run_tick(2_000_000);
    assert!(matches!(step, TickStep::Frame { .. }));
    assert_eq!(session.ticks, 1);
    assert_eq!(session.wait_step(ticket), WaitStep::Released);
}

#[test]
fn all_waiters_of_one_tick_are_released() {
    // Two mutations complete before the same tick; both waiters hold the
    // same ticket and both observe the release, in either order — the
    // counter is never reset, so no waiter can miss the notification.
    let mut session = Session::new();
    let a = Turtle::new(&mut session);
    let b = Turtle::new(&mut session);
    let ticket_a = a.set_pos(&mut session, 1, 1).unwrap();
    let ticket_b = b.set_pos(&mut session, 2, 2).unwrap();
    assert_eq!(ticket_a, 0);
    assert_eq!(ticket_b, 0);
    session.run_tick(2_000_000);
    assert_eq!(session.wait_step(ticket_b), WaitStep::Released);
    assert_eq!(session.wait_step(ticket_a), WaitStep::Released);
    // The release survives further ticks.
    session.run_tick(4_000_000);
    assert_eq!(session.wait_step(ticket_a), WaitStep::Released);
}

#[test]
fn no_release_before_a_strictly_later_tick() {
    // A mutation issued after a tick completed waits for the *next* tick:
    // its ticket equals the current counter, and release needs a strictly
    // greater one.
    let mut session = Session::new();
    let turtle = Turtle::new(&mut session);
    session.run_tick(2_000_000);
    assert_eq!(session.ticks, 1);
    let ticket = turtle.set_pos(&mut session, 5, 5).unwrap();
    assert_eq!(ticket, 1);
    assert_eq!(session.wait_step(ticket), WaitStep::KeepWaiting);
    session.run_tick(4_000_000);
    assert_eq!(session.wait_step(ticket), WaitStep::Released);
}

#[test]
fn stopped_scheduler_fails_waiters_and_mutators() {
    let mut session = Session::new();
    let turtle = Turtle::new(&mut session);
    let ticket = turtle.set_pos(&mut session, 1, 1).unwrap();
    session.mark_scheduler_stopped();
    assert_eq!(session.wait_step(ticket), WaitStep::Terminated);
    assert_eq!(
        turtle.set_pos(&mut session, 2, 2),
        Err(TurtError::SchedulerTerminated)
    );
}

#[test]
fn a_release_observed_before_the_stop_still_counts() {
    let mut session = Session::new();
    let turtle = Turtle::new(&mut session);
    let ticket = turtle.set_pos(&mut session, 1, 1).unwrap();
    session.run_tick(2_000_000);
    session.mark_scheduler_stopped();
    // The tick that acknowledged the mutation completed before the stop.
    assert_eq!(session.wait_step(ticket), WaitStep::Released);
}

#[test]
fn tick_drains_each_trail_exactly_once() {
    let mut session = Session::new();
    let turtle = Turtle::new(&mut session);
    turtle.set_pos(&mut session, 1_000, 0).unwrap();
    turtle.set_pos(&mut session, 2_000, 0).unwrap();
    let step = session.run_tick(2_000_000);
    match step {
        TickStep::Frame { snapshot } => {
            // The snapshot carries the two pending segments, oldest first.
            assert_eq!(snapshot.len(), 1);
            let ops = &snapshot[0].history.ops;
            assert_eq!(ops.len(), 2);
            assert_eq!((ops[0].from_x, ops[0].to_x), (0, 1_000));
            assert_eq!((ops[1].from_x, ops[1].to_x), (1_000, 2_000));
        }
        TickStep::Sleep { .. } => panic!("the tick was eligible"),
    }
    // The registry's own buffer is now empty: the operations were consumed
    // exactly once and the next tick replays nothing.
    assert!(session.registry.agents[0].history.ops.is_empty());
    match session.run_tick(4_000_000) {
        TickStep::Frame { snapshot } => assert!(snapshot[0].history.ops.is_empty()),
        TickStep::Sleep { .. } => panic!("the tick was eligible"),
    }
}

#[test]
fn snapshot_is_a_point_in_time_copy() {
    let mut session = Session::new();
    let turtle = Turtle::new(&mut session);
    turtle.set_pos(&mut session, 3_000, 4_000).unwrap();
    let snap = session.registry.snapshot();
    // Later mutations do not reach into the copy.
    turtle.set_pos(&mut session, 9_000, 9_000).unwrap();
    assert_eq!(snap[0].x, 3_000);
    assert_eq!(snap[0].y, 4_000);
    assert_eq!(session.registry.agents[0].x, 9_000);
}
