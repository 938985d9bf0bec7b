//! Hue gradients: a cursor that walks an arc of the colour wheel in a fixed
//! number of equal steps.
//!
//! Angles are kept exact, as a whole number of degrees over the number of
//! steps. Turning an angle into a colour takes trigonometry and is left to the
//! caller, who hands in the mapping; the circle that the angle is measured on
//! is laid down here.

use vstd::prelude::*;

use crate::paint::Rgb;
use crate::progress::LENGTH;

verus! {

/// The lightness of every colour of a gradient, on a scale of 0 to 100.
pub const LUMINOSITY: u8 = 50;

/// The radius of the circle of hues in the plane of the two chromaticity
/// coordinates.
pub const RADIUS: u16 = 150;

/// The least and the greatest first chromaticity coordinate. The circle of
/// hues is centred halfway between them.
pub const U_MIN: i16 = -84;

pub const U_MAX: i16 = 176;

/// The least and the greatest second chromaticity coordinate. The circle of
/// hues is centred halfway between them.
pub const V_MIN: i16 = -135;

pub const V_MAX: i16 = 108;

/// Which arc a gradient walks.
#[derive(Clone, Copy, Debug, PartialEq, Eq, Structural)]
pub enum GradientType {
    /// One full turn from `start` degrees, and on past it if advanced further.
    Cycle { start: u16 },
    /// The arc from `start` degrees to `end` degrees.
    Bounded { start: u16, end: u16 },
}

/// The sense of rotation. Clockwise angles decrease.
#[derive(Clone, Copy, Debug, PartialEq, Eq, Structural)]
pub enum GradientDirection {
    Clockwise,
    CounterClockwise,
}

/// An angle of `numer / denom` degrees.
#[derive(Clone, Copy, Debug, PartialEq, Eq, Structural)]
pub struct Angle {
    pub numer: i64,
    pub denom: u16,
}

/// A colour sequence: the arc, the sense of rotation, the number of steps the
/// arc is cut into, and how many steps have been taken.
#[derive(Clone, Copy, Debug, PartialEq, Eq, Structural)]
pub struct Gradient {
    pub scheme: GradientType,
    pub direction: GradientDirection,
    pub length: u16,
    pub current: u16,
}

impl Gradient {
    /// The angle of the first colour, in degrees.
    pub open spec fn start_degrees(self) -> int {
        match self.scheme {
            GradientType::Cycle { start } => start as int,
            GradientType::Bounded { start, .. } => start as int,
        }
    }

    /// The signed arc walked in `length` steps, in degrees: negative when
    /// turning clockwise.
    ///
    /// A cycle spans one full turn. A bounded arc that would run against the
    /// direction asked for, or that has no extent, goes the long way round.
    pub open spec fn sweep_degrees(self) -> int {
        match self.scheme {
            GradientType::Cycle { .. } => match self.direction {
                GradientDirection::Clockwise => -360,
                GradientDirection::CounterClockwise => 360,
            },
            GradientType::Bounded { start, end } => match self.direction {
                GradientDirection::Clockwise => if start > end {
                    end - start
                } else {
                    end - start - 360
                },
                GradientDirection::CounterClockwise => if start < end {
                    end - start
                } else {
                    end + 360 - start
                },
            },
        }
    }

    /// The angle after `k` steps, times `length`: the angle itself is
    /// `start + k * sweep / length` degrees.
    pub open spec fn numer_at(self, k: int) -> int {
        self.start_degrees() * self.length + k * self.sweep_degrees()
    }

    /// The angle after `k` steps.
    pub open spec fn angle_at(self, k: int) -> Angle {
        Angle { numer: self.numer_at(k) as i64, denom: self.length }
    }

    /// The same gradient with its cursor `n` steps further.
    pub open spec fn advanced(self, n: int) -> Gradient {
        Gradient { current: (self.current + n) as u16, ..self }
    }

    /// A gradient at its first step.
    pub fn new(p_type: GradientType, p_direction: GradientDirection, p_length: u16) -> (g: Gradient)
        ensures
            g == (Gradient { scheme: p_type, direction: p_direction, length: p_length, current: 0 }),
    {
        Gradient { scheme: p_type, direction: p_direction, length: p_length, current: 0 }
    }

    /// The signed arc of the whole gradient in degrees.
    pub fn sweep(&self) -> (degrees: i32)
        ensures
            degrees == self.sweep_degrees(),
    {
        match self.scheme {
            GradientType::Cycle { .. } => match self.direction {
                GradientDirection::Clockwise => -360,
                GradientDirection::CounterClockwise => 360,
            },
            GradientType::Bounded { start, end } => {
                let s: i32 = start as i32;
                let e: i32 = end as i32;
                match self.direction {
                    GradientDirection::Clockwise => if s > e {
                        e - s
                    } else {
                        e - s - 360
                    },
                    GradientDirection::CounterClockwise => if s < e {
                        e - s
                    } else {
                        e + 360 - s
                    },
                }
            },
        }
    }

    /// The angle at the cursor.
    pub fn angle(&self) -> (a: Angle)
        ensures
            a == self.angle_at(self.current as int),
            a.numer == self.numer_at(self.current as int),
            a.denom == self.length,
    {
        let start: i64 = match self.scheme {
            GradientType::Cycle { start } => start as i64,
            GradientType::Bounded { start, .. } => start as i64,
        };
        let sweep: i64 = self.sweep() as i64;
        let length: i64 = self.length as i64;
        let current: i64 = self.current as i64;
        assert(0 <= start * length <= 65535 * 65535) by (nonlinear_arith)
            requires
                0 <= start <= 65535,
                0 <= length <= 65535,
        ;
        assert(-65535 * 65895 <= current * sweep <= 65535 * 65895) by (nonlinear_arith)
            requires
                0 <= current <= 65535,
                -65895 <= sweep <= 65895,
        ;
        Angle { numer: start * length + current * sweep, denom: self.length }
    }

    /// The colour at the cursor, then one step on.
    ///
    /// The colour is what `to_rgb` makes of the exact angle at the cursor.
    /// Stepping past `length` is allowed and carries the arc on.
    pub fn next<F: Fn(Angle) -> Rgb>(&mut self, to_rgb: &F) -> (rgb: Rgb)
        requires
            old(self).current < u16::MAX,
            call_requires(to_rgb, (old(self).angle_at(old(self).current as int),)),
        ensures
            *final(self) == old(self).advanced(1),
            call_ensures(to_rgb, (old(self).angle_at(old(self).current as int),), rgb),
    {
        let a: Angle = self.angle();
        self.current = self.current + 1;
        to_rgb(a)
    }
}

/// The gradients of the timer, each with one step per cell of the progress
/// bar: for work, clockwise from 330 to 120 degrees; for rest, the same arc
/// walked back.
pub fn make_gradients() -> (pair: (Gradient, Gradient))
    ensures
        pair.0 == (Gradient {
            scheme: GradientType::Bounded { start: 330, end: 120 },
            direction: GradientDirection::Clockwise,
            length: LENGTH,
            current: 0,
        }),
        pair.1 == (Gradient {
            scheme: GradientType::Bounded { start: 120, end: 330 },
            direction: GradientDirection::CounterClockwise,
            length: LENGTH,
            current: 0,
        }),
{
    let work_gradient: Gradient = Gradient::new(
        GradientType::Bounded { start: 330, end: 120 },
        GradientDirection::Clockwise,
        LENGTH,
    );
    let rest_gradient: Gradient = Gradient::new(
        GradientType::Bounded { start: 120, end: 330 },
        GradientDirection::CounterClockwise,
        LENGTH,
    );
    (work_gradient, rest_gradient)
}

/// A bounded gradient turns the way it was asked to at every step: clockwise
/// the angle strictly decreases, counter-clockwise it strictly increases.
///
/// Both angles are over the same `length`, so comparing their numerators
/// compares the angles. The two ends must lie less than a full turn apart
/// where the arc goes the long way round; with a full turn or more between
/// them the long way has no extent or runs backwards.
pub proof fn lemma_bounded_turns_as_asked(g: Gradient, k: int)
    requires
        g.length > 0,
        g.scheme matches GradientType::Bounded { start, end } && match g.direction {
            GradientDirection::Clockwise => end - start < 360,
            GradientDirection::CounterClockwise => start - end < 360,
        },
    ensures
        g.direction == GradientDirection::Clockwise ==> g.numer_at(k + 1) < g.numer_at(k),
        g.direction == GradientDirection::CounterClockwise ==> g.numer_at(k + 1) > g.numer_at(k),
{
    let sweep = g.sweep_degrees();
    assert((k + 1) * sweep == k * sweep + sweep) by (nonlinear_arith);
}

/// A bounded gradient ends where it was asked to: `length` steps from the
/// start the angle is `end` degrees, or a full turn away from it where the
/// arc went the long way round.
pub proof fn lemma_bounded_reaches_end(g: Gradient)
    requires
        g.scheme is Bounded,
    ensures
        g.numer_at(g.length as int) == (g.start_degrees() + g.sweep_degrees()) * g.length,
        g.scheme matches GradientType::Bounded { start, end } && {
            let last = g.start_degrees() + g.sweep_degrees();
            match g.direction {
                GradientDirection::Clockwise => last == if start > end {
                    end as int
                } else {
                    end - 360
                },
                GradientDirection::CounterClockwise => last == if start < end {
                    end as int
                } else {
                    end + 360
                },
            }
        },
{
    let sweep = g.sweep_degrees();
    let n = g.length as int;
    assert((g.start_degrees() + sweep) * n == g.start_degrees() * n + n * sweep)
        by (nonlinear_arith);
}

/// A cycle comes round: `length` steps on, the angle is exactly one full
/// turn from where it was, in the direction of the gradient.
pub proof fn lemma_cycle_comes_round(g: Gradient, k: int)
    requires
        g.scheme is Cycle,
    ensures
        g.direction == GradientDirection::Clockwise ==> g.numer_at(k + g.length) == g.numer_at(k)
            - 360 * g.length,
        g.direction == GradientDirection::CounterClockwise ==> g.numer_at(k + g.length)
            == g.numer_at(k) + 360 * g.length,
        g.numer_at(g.length as int) == (g.start_degrees() + g.sweep_degrees()) * g.length,
{
    let sweep = g.sweep_degrees();
    let n = g.length as int;
    assert((k + n) * sweep == k * sweep + n * sweep) by (nonlinear_arith);
    assert((g.start_degrees() + sweep) * n == g.start_degrees() * n + n * sweep)
        by (nonlinear_arith);
    assert(n * sweep == sweep * n) by (nonlinear_arith);
}

} // verus!
