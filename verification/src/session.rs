//! One timed interval: the decisions of its render loop.
//!
//! The caller runs the loop. Every tick it waits for an event, reads its
//! clock, and hands both to [`Session::tick`], which accounts for pauses,
//! fills the cells that are due, and gives back the frame to draw.

use vstd::prelude::*;

use crate::event::SessionEvent;
use crate::gradient::{Angle, Gradient};
use crate::paint::Rgb;
use crate::progress::{cells_at, filled_cells, render, Frame, LENGTH};

verus! {

/// The time between two redraws, in milliseconds.
pub const TICK_MS: u64 = 200;

/// Where an interval stands.
#[derive(Clone, Copy, Debug, PartialEq, Eq, Structural)]
pub enum Status {
    Running,
    /// The user quit before the end.
    Quit,
    /// The bar is full.
    Done,
}

/// One interval in progress.
pub struct Session {
    duration: u64,
    gradient: Gradient,
    pause_length: u64,
    colors: Vec<Rgb>,
    status: Status,
}

/// An interval as contracts see it.
pub struct SessionView {
    /// The length of the interval in seconds.
    pub duration: nat,
    /// The gradient, its cursor on the next cell to fill.
    pub gradient: Gradient,
    /// The seconds spent paused so far.
    pub paused: nat,
    /// The colours of the filled cells, first cell first.
    pub colors: Seq<Rgb>,
    pub status: Status,
}

impl View for Session {
    type V = SessionView;

    closed spec fn view(&self) -> SessionView {
        SessionView {
            duration: self.duration as nat,
            gradient: self.gradient,
            paused: self.pause_length as nat,
            colors: self.colors@,
            status: self.status,
        }
    }
}

/// The seconds of pause that an event reports.
pub open spec fn pause_reported(event: SessionEvent) -> nat {
    match event {
        SessionEvent::Resume(seconds) => seconds as nat,
        _ => 0,
    }
}

/// The time an interval has run: the time on the clock less the time spent
/// paused, and nothing if the pauses exceed the clock.
pub open spec fn running_ms(wall_ms: nat, paused_s: nat) -> nat {
    if wall_ms >= paused_s * 1000 {
        (wall_ms - paused_s * 1000) as nat
    } else {
        0
    }
}

impl SessionView {
    /// The cells filled after a tick at `wall_ms` with `paused_s` seconds of
    /// pause: those that are due by then, and never fewer than are filled
    /// already.
    pub open spec fn filled_after(self, wall_ms: nat, paused_s: nat) -> nat {
        let due = cells_at(running_ms(wall_ms, paused_s), self.duration);
        if due >= self.colors.len() {
            due
        } else {
            self.colors.len()
        }
    }
}

impl Session {
    /// What holds of every session: the bar is never over-full, the gradient
    /// has taken one step per filled cell, and the session is done exactly
    /// when the bar is full.
    pub open spec fn wf(&self) -> bool {
        &&& self@.colors.len() <= LENGTH
        &&& self@.gradient.current == self@.colors.len()
        &&& (self@.status == Status::Done ==> self@.colors.len() == LENGTH)
        &&& (self@.status == Status::Running ==> self@.colors.len() < LENGTH)
    }

    /// A running interval of `duration` seconds with an empty bar, coloured
    /// by `gradient` from its first step.
    pub fn new(duration: u64, gradient: &Gradient) -> (session: Session)
        ensures
            session.wf(),
            session@ == (SessionView {
                duration: duration as nat,
                gradient: Gradient { current: 0, ..*gradient },
                paused: 0,
                colors: Seq::empty(),
                status: Status::Running,
            }),
    {
        Session {
            duration,
            gradient: Gradient::new(gradient.scheme, gradient.direction, gradient.length),
            pause_length: 0,
            colors: Vec::new(),
            status: Status::Running,
        }
    }

    /// Where the interval stands.
    pub fn status(&self) -> (status: Status)
        ensures
            status == self@.status,
    {
        self.status
    }

    /// The number of filled cells.
    pub fn filled(&self) -> (cells: usize)
        ensures
            cells == self@.colors.len(),
    {
        self.colors.len()
    }

    /// The seconds spent paused so far.
    pub fn pause_length(&self) -> (seconds: u64)
        ensures
            seconds == self@.paused,
    {
        self.pause_length
    }

    /// What the interval hands to the round it is part of: quit if the user
    /// quit, the no-op event otherwise.
    pub fn outcome(&self) -> (event: SessionEvent)
        ensures
            event == if self@.status == Status::Quit {
                SessionEvent::Quit
            } else {
                SessionEvent::Null
            },
    {
        match self.status {
            Status::Quit => SessionEvent::Quit,
            _ => SessionEvent::Null,
        }
    }

    /// One tick of the interval: `event` is what the wait for a key ended
    /// with, `wall_ms` the time since the interval began, pauses included.
    ///
    /// A session that is over stays as it is. Quit ends a running session at
    /// once, with nothing to draw. Any other event leaves it running: a
    /// reported pause is added to the time paused, the cells due by now are
    /// filled, each new one in the colour that `to_rgb` gives for the next
    /// angle of the gradient, and the session is done once the bar is full.
    /// The frame shows the bar and the whole seconds run.
    pub fn tick<F: Fn(Angle) -> Rgb>(
        &mut self,
        event: SessionEvent,
        wall_ms: u64,
        to_rgb: &F,
    ) -> (out: Option<Frame>)
        requires
            old(self).wf(),
            old(self)@.paused + pause_reported(event) <= u64::MAX,
            forall|a: Angle| call_requires(to_rgb, (a,)),
        ensures
            final(self).wf(),
            old(self)@.status != Status::Running ==> final(self)@ == old(self)@ && out is None,
            old(self)@.status == Status::Running && event == SessionEvent::Quit ==> final(self)@
                == (SessionView { status: Status::Quit, ..old(self)@ }) && out is None,
            old(self)@.status == Status::Running && event != SessionEvent::Quit ==> {
                let paused = old(self)@.paused + pause_reported(event);
                let filled = old(self)@.filled_after(wall_ms as nat, paused);
                let before = old(self)@.colors;
                &&& final(self)@.duration == old(self)@.duration
                &&& final(self)@.paused == paused
                &&& final(self)@.gradient == old(self)@.gradient.advanced(filled - before.len())
                &&& final(self)@.colors.len() == filled
                &&& final(self)@.colors.take(before.len() as int) == before
                &&& forall|k: int|
                    before.len() <= k < filled ==> call_ensures(
                        to_rgb,
                        (old(self)@.gradient.angle_at(k),),
                        #[trigger] final(self)@.colors[k],
                    )
                &&& final(self)@.status == if filled == LENGTH {
                    Status::Done
                } else {
                    Status::Running
                }
                &&& out matches Some(frame) && frame.shows(
                    final(self)@.colors,
                    running_ms(wall_ms as nat, paused) / 1000,
                )
            },
    {
        match self.status {
            Status::Running => {},
            _ => {
                return None;
            },
        }
        match event {
            SessionEvent::Quit => {
                self.status = Status::Quit;
                return None;
            },
            SessionEvent::Resume(seconds) => {
                self.pause_length = self.pause_length + seconds;
            },
            _ => {},
        }
        let paused_ms: u128 = self.pause_length as u128 * 1000;
        let wall: u128 = wall_ms as u128;
        let elapsed_ms: u64 = if wall >= paused_ms {
            (wall - paused_ms) as u64
        } else {
            0
        };
        let due: u16 = filled_cells(elapsed_ms, self.duration);
        let ghost before = self.colors@;
        let ghost palette = self.gradient;
        let ghost entry = *self;
        while self.colors.len() < due as usize
            invariant
                due <= LENGTH,
                self.duration == entry.duration,
                self.pause_length == entry.pause_length,
                self.status == entry.status,
                before.len() <= self.colors@.len() <= LENGTH,
                self.colors@.len() <= due || self.colors@.len() == before.len(),
                self.colors@.take(before.len() as int) == before,
                self.gradient == palette.advanced(self.colors@.len() - before.len()),
                palette.current == before.len(),
                forall|a: Angle| call_requires(to_rgb, (a,)),
                forall|k: int|
                    before.len() <= k < self.colors@.len() ==> call_ensures(
                        to_rgb,
                        (palette.angle_at(k),),
                        #[trigger] self.colors@[k],
                    ),
            decreases due - self.colors@.len(),
        {
            let rgb: Rgb = self.gradient.next(to_rgb);
            self.colors.push(rgb);
            assert(self.colors@.take(before.len() as int) =~= before);
        }
        if self.colors.len() == LENGTH as usize {
            self.status = Status::Done;
        }
        let frame: Frame = render(&self.colors, elapsed_ms / 1000);
        Some(frame)
    }
}

} // verus!
