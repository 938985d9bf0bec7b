use pomodoro::event::SessionEvent;
use pomodoro::gradient::{make_gradients, Angle, Gradient, GradientDirection, GradientType};
use pomodoro::session::{Session, Status, TICK_MS};

/// A stand-in for a colour space: the whole degrees of the angle, split over
/// two channels.
fn degrees(a: Angle) -> (u8, u8, u8) {
    let whole = a.numer / a.denom as i64;
    ((whole / 256) as u8, (whole % 256) as u8, 0)
}

fn colours_of(session: &mut Session, wall_ms: u64) -> usize {
    let frame = session.tick(SessionEvent::Null, wall_ms, &degrees).unwrap();
    assert_eq!(frame.cells.len() + frame.padding as usize, 100);
    frame.cells.len()
}

#[test]
fn the_tick_is_a_fifth_of_a_second() {
    assert_eq!(TICK_MS, 200);
}

#[test]
fn a_new_session_runs_with_an_empty_bar() {
    let (work, _) = make_gradients();
    let session = Session::new(1500, &work);
    assert_eq!(session.status(), Status::Running);
    assert_eq!(session.filled(), 0);
    assert_eq!(session.pause_length(), 0);
}

#[test]
fn a_session_starts_its_gradient_afresh() {
    let used = Gradient {
        scheme: GradientType::Cycle { start: 0 },
        direction: GradientDirection::CounterClockwise,
        length: 100,
        current: 40,
    };
    let mut session = Session::new(100, &used);
    let seen = std::cell::RefCell::new(Vec::new());
    let record = |a: Angle| {
        seen.borrow_mut().push(a);
        (0, 0, 0)
    };
    let frame = session.tick(SessionEvent::Null, 2_000, &record).unwrap();
    assert_eq!(frame.cells.len(), 2);
    assert_eq!(
        *seen.borrow(),
        vec![Angle { numer: 0, denom: 100 }, Angle { numer: 360, denom: 100 }]
    );
    assert_eq!(session.filled(), 2);
}

#[test]
fn half_way_through_work_half_the_bar_is_filled() {
    let (work, _) = make_gradients();
    let mut session = Session::new(1500, &work);
    assert_eq!(colours_of(&mut session, 750_000), 50);
    assert_eq!(session.filled(), 50);
    assert_eq!(session.status(), Status::Running);
}

#[test]
fn each_cell_takes_the_next_angle_once() {
    let (work, _) = make_gradients();
    let mut session = Session::new(100, &work);
    let calls = std::cell::RefCell::new(Vec::new());
    let record = |a: Angle| {
        calls.borrow_mut().push(a);
        (0, 0, 0)
    };
    session.tick(SessionEvent::Null, 2_500, &record);
    session.tick(SessionEvent::Null, 2_900, &record);
    session.tick(SessionEvent::Null, 5_000, &record);
    let expected: Vec<Angle> =
        (0..5).map(|k| Angle { numer: 33000 - 210 * k, denom: 100 }).collect();
    assert_eq!(*calls.borrow(), expected);
    assert_eq!(session.filled(), 5);
}

#[test]
fn a_tick_shows_the_whole_seconds_run() {
    colored::control::set_override(false);
    let (_, rest) = make_gradients();
    let mut session = Session::new(600, &rest);
    let frame = session.tick(SessionEvent::Null, 61_999, &degrees).unwrap();
    assert_eq!(frame.clock, "(01:01)");
    assert_eq!(frame.cells.len(), 10);
    assert_eq!(frame.padding, 90);
}

#[test]
fn the_session_is_done_when_the_bar_is_full() {
    let (work, _) = make_gradients();
    let mut session = Session::new(60, &work);
    assert_eq!(colours_of(&mut session, 59_999), 99);
    assert_eq!(session.status(), Status::Running);
    assert_eq!(colours_of(&mut session, 60_000), 100);
    assert_eq!(session.status(), Status::Done);
}

#[test]
fn a_late_tick_fills_the_bar_and_no_more() {
    let (work, _) = make_gradients();
    let mut session = Session::new(60, &work);
    assert_eq!(colours_of(&mut session, 1_000_000), 100);
    assert_eq!(session.filled(), 100);
    assert_eq!(session.status(), Status::Done);
}

#[test]
fn a_session_that_is_done_stays_as_it_is() {
    let (work, _) = make_gradients();
    let mut session = Session::new(1, &work);
    session.tick(SessionEvent::Null, 1_000, &degrees);
    assert_eq!(session.status(), Status::Done);
    assert!(session.tick(SessionEvent::Null, 2_000, &degrees).is_none());
    assert!(session.tick(SessionEvent::Quit, 3_000, &degrees).is_none());
    assert!(session.tick(SessionEvent::Resume(5), 4_000, &degrees).is_none());
    assert_eq!(session.status(), Status::Done);
    assert_eq!(session.filled(), 100);
    assert_eq!(session.pause_length(), 0);
}

#[test]
fn quit_ends_the_session_at_once() {
    let (work, _) = make_gradients();
    let mut session = Session::new(60, &work);
    session.tick(SessionEvent::Null, 30_000, &degrees);
    assert!(session.tick(SessionEvent::Quit, 45_000, &degrees).is_none());
    assert_eq!(session.status(), Status::Quit);
    assert_eq!(session.filled(), 50);
    assert!(session.tick(SessionEvent::Null, 60_000, &degrees).is_none());
    assert_eq!(session.status(), Status::Quit);
    assert_eq!(session.filled(), 50);
}

#[test]
fn the_outcome_is_quit_only_after_a_quit() {
    let (work, _) = make_gradients();
    let mut session = Session::new(60, &work);
    assert_eq!(session.outcome(), SessionEvent::Null);
    session.tick(SessionEvent::Null, 60_000, &degrees);
    assert_eq!(session.status(), Status::Done);
    assert_eq!(session.outcome(), SessionEvent::Null);
    let mut session = Session::new(60, &work);
    session.tick(SessionEvent::Quit, 1_000, &degrees);
    assert_eq!(session.outcome(), SessionEvent::Quit);
}

#[test]
fn a_pause_does_not_count_as_time_run() {
    colored::control::set_override(false);
    let (work, _) = make_gradients();
    let mut session = Session::new(100, &work);
    assert_eq!(colours_of(&mut session, 5_000), 5);
    // paused from 5 s to 15 s on the clock
    let frame = session.tick(SessionEvent::Resume(10), 15_200, &degrees).unwrap();
    assert_eq!(session.pause_length(), 10);
    assert_eq!(frame.cells.len(), 5);
    assert_eq!(frame.clock, "(00:05)");
    assert_eq!(colours_of(&mut session, 16_000), 6);
    let frame = session.tick(SessionEvent::Resume(4), 30_000, &degrees).unwrap();
    assert_eq!(session.pause_length(), 14);
    assert_eq!(frame.cells.len(), 16);
}

#[test]
fn the_bar_never_shrinks() {
    let (work, _) = make_gradients();
    let mut session = Session::new(100, &work);
    assert_eq!(colours_of(&mut session, 20_000), 20);
    // a clock gone backwards
    assert_eq!(colours_of(&mut session, 10_000), 20);
    // more pause reported than time on the clock
    session.tick(SessionEvent::Resume(50), 30_000, &degrees);
    assert_eq!(session.filled(), 20);
    assert_eq!(session.status(), Status::Running);
}

#[test]
fn other_events_leave_the_session_running() {
    let (work, _) = make_gradients();
    let mut session = Session::new(100, &work);
    for (i, event) in [SessionEvent::Help, SessionEvent::Pause, SessionEvent::Refresh, SessionEvent::Null]
        .into_iter()
        .enumerate()
    {
        let frame = session.tick(event, 1_000 * (i as u64 + 1), &degrees).unwrap();
        assert_eq!(frame.cells.len(), i + 1);
        assert_eq!(session.status(), Status::Running);
        assert_eq!(session.pause_length(), 0);
    }
}

#[test]
fn an_interval_of_no_length_is_done_at_the_first_tick() {
    let (_, rest) = make_gradients();
    let mut session = Session::new(0, &rest);
    assert_eq!(colours_of(&mut session, 0), 100);
    assert_eq!(session.status(), Status::Done);
}
