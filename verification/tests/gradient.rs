use pomodoro::gradient::{
    make_gradients, Angle, Gradient, GradientDirection, GradientType, LUMINOSITY, RADIUS, U_MAX,
    U_MIN, V_MAX, V_MIN,
};

fn bounded(start: u16, end: u16, direction: GradientDirection, length: u16) -> Gradient {
    Gradient::new(GradientType::Bounded { start, end }, direction, length)
}

/// A stand-in for a colour space: it keeps what it can of the angle.
fn echo(a: Angle) -> (u8, u8, u8) {
    ((a.numer / 1000) as u8, (a.numer % 256) as u8, (a.denom % 256) as u8)
}

#[test]
fn the_circle_of_hues() {
    assert_eq!(LUMINOSITY, 50);
    assert_eq!(RADIUS, 150);
    assert_eq!((U_MIN, U_MAX), (-84, 176));
    assert_eq!((V_MIN, V_MAX), (-135, 108));
    // the centre, doubled to stay in whole numbers
    assert_eq!((U_MIN + U_MAX, V_MIN + V_MAX), (92, -27));
}

#[test]
fn new_starts_at_step_zero() {
    let g = Gradient::new(GradientType::Cycle { start: 5 }, GradientDirection::CounterClockwise, 100);
    assert_eq!(g.scheme, GradientType::Cycle { start: 5 });
    assert_eq!(g.direction, GradientDirection::CounterClockwise);
    assert_eq!(g.length, 100);
    assert_eq!(g.current, 0);
}

#[test]
fn sweep_of_a_cycle_is_one_turn() {
    let cw = Gradient::new(GradientType::Cycle { start: 120 }, GradientDirection::Clockwise, 200);
    let ccw = Gradient::new(GradientType::Cycle { start: 120 }, GradientDirection::CounterClockwise, 200);
    assert_eq!(cw.sweep(), -360);
    assert_eq!(ccw.sweep(), 360);
}

#[test]
fn sweep_of_a_bounded_arc_follows_the_direction() {
    assert_eq!(bounded(330, 120, GradientDirection::Clockwise, 100).sweep(), -210);
    assert_eq!(bounded(120, 330, GradientDirection::Clockwise, 100).sweep(), -150);
    assert_eq!(bounded(120, 330, GradientDirection::CounterClockwise, 100).sweep(), 210);
    assert_eq!(bounded(330, 120, GradientDirection::CounterClockwise, 100).sweep(), 150);
}

#[test]
fn sweep_of_an_arc_without_extent_is_a_full_turn() {
    assert_eq!(bounded(90, 90, GradientDirection::Clockwise, 10).sweep(), -360);
    assert_eq!(bounded(90, 90, GradientDirection::CounterClockwise, 10).sweep(), 360);
}

#[test]
fn sweep_with_ends_a_turn_apart_does_not_move_clockwise() {
    assert_eq!(bounded(0, 360, GradientDirection::Clockwise, 10).sweep(), 0);
    assert_eq!(bounded(0, 400, GradientDirection::Clockwise, 10).sweep(), 40);
    assert_eq!(bounded(360, 0, GradientDirection::CounterClockwise, 10).sweep(), 0);
}

#[test]
fn work_gradient_starts_at_330_degrees_and_turns_clockwise() {
    let mut g = bounded(330, 120, GradientDirection::Clockwise, 100);
    let first = g.angle();
    assert_eq!(first, Angle { numer: 33000, denom: 100 });
    assert_eq!(first.numer / first.denom as i64, 330);
    g.next(&echo);
    let second = g.angle();
    // clockwise from 330 down to 120: 210 degrees in 100 steps, 2.1 a step
    assert_eq!(g.sweep(), -210);
    assert_eq!(second, Angle { numer: 32790, denom: 100 });
    assert_eq!(second.numer - first.numer, -210);
    // the arc of 150 degrees, from 330 up through 360 to 120 at 1.5 a step,
    // is the one taken counter-clockwise
    let mut up = bounded(330, 120, GradientDirection::CounterClockwise, 100);
    assert_eq!(up.sweep(), 150);
    assert_eq!(up.angle(), Angle { numer: 33000, denom: 100 });
    up.next(&echo);
    assert_eq!(up.angle(), Angle { numer: 33150, denom: 100 });
    for _ in 1..100 {
        up.next(&echo);
    }
    assert_eq!(up.angle(), Angle { numer: 480 * 100, denom: 100 });
}

#[test]
fn bounded_angles_move_one_way_only() {
    let mut cw = bounded(330, 120, GradientDirection::Clockwise, 100);
    let mut ccw = bounded(120, 330, GradientDirection::CounterClockwise, 100);
    let mut last_cw = cw.angle().numer;
    let mut last_ccw = ccw.angle().numer;
    for _ in 0..100 {
        cw.next(&echo);
        ccw.next(&echo);
        assert!(cw.angle().numer < last_cw);
        assert!(ccw.angle().numer > last_ccw);
        last_cw = cw.angle().numer;
        last_ccw = ccw.angle().numer;
    }
    // the arc ends where it was asked to
    assert_eq!(last_cw, 120 * 100);
    assert_eq!(last_ccw, 330 * 100);
}

#[test]
fn cycle_comes_back_after_length_steps() {
    let mut cw = Gradient::new(GradientType::Cycle { start: 120 }, GradientDirection::Clockwise, 200);
    let mut ccw = Gradient::new(GradientType::Cycle { start: 120 }, GradientDirection::CounterClockwise, 200);
    for _ in 0..200 {
        cw.next(&echo);
        ccw.next(&echo);
    }
    assert_eq!(cw.angle(), Angle { numer: (120 - 360) * 200, denom: 200 });
    assert_eq!(ccw.angle(), Angle { numer: (120 + 360) * 200, denom: 200 });
    assert_eq!((cw.angle().numer - 120 * 200) % (360 * 200), 0);
    assert_eq!((ccw.angle().numer - 120 * 200) % (360 * 200), 0);
}

#[test]
fn next_gives_the_colour_of_the_angle_at_the_cursor() {
    let mut g = bounded(330, 120, GradientDirection::Clockwise, 100);
    let c0 = g.next(&echo);
    assert_eq!(c0, echo(Angle { numer: 33000, denom: 100 }));
    assert_eq!(g.current, 1);
    let c1 = g.next(&echo);
    assert_eq!(c1, echo(Angle { numer: 32790, denom: 100 }));
    assert_eq!(g.current, 2);
    assert_eq!(g.length, 100);
    assert_eq!(g.scheme, GradientType::Bounded { start: 330, end: 120 });
}

#[test]
fn next_carries_on_past_the_length() {
    let mut g = Gradient::new(GradientType::Cycle { start: 0 }, GradientDirection::CounterClockwise, 4);
    let mut seen = Vec::new();
    for _ in 0..6 {
        seen.push(g.next(&|a: Angle| (a.numer as u8, 0, 0)).0 as i64);
    }
    assert_eq!(g.current, 6);
    // 0, 90, 180, 270, 360 and 450 degrees, times four, kept modulo 256
    assert_eq!(seen, vec![0, 360 % 256, 720 % 256, 1080 % 256, 1440 % 256, 1800 % 256]);
    assert_eq!(g.angle(), Angle { numer: 6 * 360, denom: 4 });
}

#[test]
fn angle_with_the_widest_values_fits() {
    let g = Gradient {
        scheme: GradientType::Bounded { start: 65535, end: 0 },
        direction: GradientDirection::Clockwise,
        length: 65535,
        current: 65535,
    };
    assert_eq!(g.sweep(), -65535);
    assert_eq!(g.angle(), Angle { numer: 0, denom: 65535 });
    let h = Gradient {
        scheme: GradientType::Bounded { start: 65535, end: 65535 },
        direction: GradientDirection::CounterClockwise,
        length: 65535,
        current: 65535,
    };
    assert_eq!(h.angle().numer, 65535 * 65535 + 65535 * 360);
}

#[test]
fn a_gradient_without_steps_has_no_angle_to_divide() {
    let g = bounded(10, 20, GradientDirection::CounterClockwise, 0);
    assert_eq!(g.angle(), Angle { numer: 0, denom: 0 });
}

#[test]
fn make_gradients_gives_work_and_rest() {
    let (work, rest) = make_gradients();
    assert_eq!(work, bounded(330, 120, GradientDirection::Clockwise, 100));
    assert_eq!(rest, bounded(120, 330, GradientDirection::CounterClockwise, 100));
}
