//! The round of intervals: which kind comes when, how long it lasts, what is
//! said at its start and at its end.

use vstd::prelude::*;
use vstd::string::*;

use crate::event::SessionEvent;
use crate::gradient::Gradient;
use crate::paint::{escape, grey, painted, truecolor};
use crate::session::{Session, SessionView, Status};
use crate::text::{decimal, push_decimal};

verus! {

/// The kinds of interval.
#[derive(Clone, Copy, Debug, PartialEq, Eq, Structural)]
pub enum IntervalKind {
    Work,
    ShortRest,
    LongRest,
}

/// The length of each kind of interval, in minutes.
#[derive(Clone, Copy, Debug, PartialEq, Eq, Structural)]
pub struct Settings {
    pub work: u8,
    pub short_rest: u8,
    pub long_rest: u8,
}

impl Default for Settings {
    /// Twenty-five minutes of work, ten of short rest, twenty-five of long
    /// rest.
    fn default() -> (settings: Settings)
        ensures
            settings == (Settings { work: 25, short_rest: 10, long_rest: 25 }),
    {
        Settings { work: 25, short_rest: 10, long_rest: 25 }
    }
}

/// The kind of the `i`-th interval, counted from one: every eighth is a long
/// rest, every other even one a short rest, every odd one work.
pub open spec fn kind_of(i: nat) -> IntervalKind {
    if i % 8 == 0 {
        IntervalKind::LongRest
    } else if i % 2 == 0 {
        IntervalKind::ShortRest
    } else {
        IntervalKind::Work
    }
}

/// The kind of the `i`-th interval.
pub fn interval_kind(i: u32) -> (kind: IntervalKind)
    ensures
        kind == kind_of(i as nat),
{
    if i % 8 == 0 {
        IntervalKind::LongRest
    } else if i % 2 == 0 {
        IntervalKind::ShortRest
    } else {
        IntervalKind::Work
    }
}

/// The round repeats after eight intervals: work and short rest in turn, with
/// a long rest in place of the fourth short one.
pub proof fn lemma_round_of_eight(i: nat)
    ensures
        kind_of(i + 8) == kind_of(i),
        i % 2 == 1 ==> kind_of(i) == IntervalKind::Work,
        i % 8 == 2 || i % 8 == 4 || i % 8 == 6 ==> kind_of(i) == IntervalKind::ShortRest,
        i % 8 == 0 ==> kind_of(i) == IntervalKind::LongRest,
{
}

impl IntervalKind {
    /// The minutes that an interval of this kind lasts.
    pub open spec fn minutes_of(self, settings: Settings) -> u8 {
        match self {
            IntervalKind::Work => settings.work,
            IntervalKind::ShortRest => settings.short_rest,
            IntervalKind::LongRest => settings.long_rest,
        }
    }

    /// The body of the notification shown when an interval of this kind
    /// begins.
    pub open spec fn notification_text(self) -> Seq<char> {
        match self {
            IntervalKind::Work => "We are now working"@,
            IntervalKind::ShortRest => "Let's take a break."@,
            IntervalKind::LongRest => "Time for a long rest!"@,
        }
    }

    /// What is said when an interval of this kind has run its `minutes`.
    pub open spec fn completion_text(self, minutes: u8) -> Seq<char> {
        match self {
            IntervalKind::Work => "We worked for "@ + decimal(minutes as nat)
                + " minutes, let’s rest for a bit.\n"@,
            _ => "We rested for "@ + decimal(minutes as nat) + " minutes, back to work!\n"@,
        }
    }

    /// The minutes that an interval of this kind lasts.
    pub fn minutes(self, settings: &Settings) -> (minutes: u8)
        ensures
            minutes == self.minutes_of(*settings),
    {
        match self {
            IntervalKind::Work => settings.work,
            IntervalKind::ShortRest => settings.short_rest,
            IntervalKind::LongRest => settings.long_rest,
        }
    }

    /// The seconds that an interval of this kind lasts.
    pub fn duration(self, settings: &Settings) -> (seconds: u64)
        ensures
            seconds == self.minutes_of(*settings) * 60,
    {
        self.minutes(settings) as u64 * 60
    }

    /// The body of the notification shown when an interval of this kind
    /// begins.
    pub fn notification(self) -> (body: &'static str)
        ensures
            body@ == self.notification_text(),
    {
        match self {
            IntervalKind::Work => "We are now working",
            IntervalKind::ShortRest => "Let's take a break.",
            IntervalKind::LongRest => "Time for a long rest!",
        }
    }

    /// The gradient of an interval of this kind: the first of the pair for
    /// work, the second for either rest.
    pub fn gradient(self, gradients: &(Gradient, Gradient)) -> (gradient: Gradient)
        ensures
            gradient == if self == IntervalKind::Work {
                gradients.0
            } else {
                gradients.1
            },
    {
        match self {
            IntervalKind::Work => gradients.0,
            _ => gradients.1,
        }
    }

    /// What is said when an interval of this kind is over.
    pub fn completion_message(self, settings: &Settings) -> (message: String)
        ensures
            message@ == self.completion_text(self.minutes_of(*settings)),
    {
        let minutes: u64 = self.minutes(settings) as u64;
        match self {
            IntervalKind::Work => {
                let mut message: String = String::from_str("We worked for ");
                push_decimal(&mut message, minutes);
                message.append(" minutes, let’s rest for a bit.\n");
                message
            },
            _ => {
                let mut message: String = String::from_str("We rested for ");
                push_decimal(&mut message, minutes);
                message.append(" minutes, back to work!\n");
                message
            },
        }
    }
}

/// What the timer announces before its first interval.
pub open spec fn plan_text(profile: Seq<char>, settings: Settings) -> Seq<char> {
    if profile.len() != 0 {
        "I’m going to work according to the '"@ + profile + "' profile."@
    } else {
        "I’m going to work "@ + decimal(settings.work as nat)
            + " minutes at a time, with normal rest periods of "@ + decimal(
            settings.short_rest as nat,
        ) + " minutes and long ones of "@ + decimal(settings.long_rest as nat) + " minutes."@
    }
}

/// What the timer announces before its first interval: the profile if one is
/// named, the three lengths if not.
pub fn plan_message(profile: &str, settings: &Settings) -> (message: String)
    ensures
        message@ == plan_text(profile@, *settings),
{
    if !profile.is_empty() {
        let mut message: String = String::from_str("I’m going to work according to the '");
        message.append(profile);
        message.append("' profile.");
        message
    } else {
        let mut message: String = String::from_str("I’m going to work ");
        push_decimal(&mut message, settings.work as u64);
        message.append(" minutes at a time, with normal rest periods of ");
        push_decimal(&mut message, settings.short_rest as u64);
        message.append(" minutes and long ones of ");
        push_decimal(&mut message, settings.long_rest as u64);
        message.append(" minutes.");
        message
    }
}

/// What the timer says when the user quits.
pub fn farewell() -> (text: &'static str)
    ensures
        text@ == "\nWe’re done for now, bye bye!\n"@,
{
    "\nWe’re done for now, bye bye!\n"
}

/// How the timer goes on after an interval.
#[derive(Clone, Debug, PartialEq, Eq)]
pub enum Closing {
    /// The user quit: say goodbye and stop.
    Stop,
    /// The interval ran to its end: show the message and start the next one.
    Continue(String),
}

/// The round of intervals: the number of the current one, counted from one.
#[derive(Clone, Copy, Debug, PartialEq, Eq, Structural)]
pub struct Timer {
    pub counter: u32,
}

impl Timer {
    /// A timer on its first interval.
    pub fn new() -> (timer: Timer)
        ensures
            timer.counter == 1,
    {
        Timer { counter: 1 }
    }

    /// The kind of the current interval.
    pub fn kind(&self) -> (kind: IntervalKind)
        ensures
            kind == kind_of(self.counter as nat),
    {
        interval_kind(self.counter)
    }

    /// The current interval, ready to run: as long as the settings say for
    /// its kind, with the gradient of its kind at its first step.
    pub fn start(&self, settings: &Settings, gradients: &(Gradient, Gradient)) -> (session: Session)
        ensures
            session.wf(),
            session@ == ({
                let kind = kind_of(self.counter as nat);
                let gradient = if kind == IntervalKind::Work {
                    gradients.0
                } else {
                    gradients.1
                };
                SessionView {
                    duration: (kind.minutes_of(*settings) * 60) as nat,
                    gradient: Gradient { current: 0, ..gradient },
                    paused: 0,
                    colors: Seq::empty(),
                    status: Status::Running,
                }
            }),
    {
        let kind: IntervalKind = self.kind();
        let gradient: Gradient = kind.gradient(gradients);
        Session::new(kind.duration(settings), &gradient)
    }

    /// Closes the current interval with the event its loop ended on. On quit
    /// the timer stops where it is. On anything else it moves to the next
    /// interval and gives the message for the one that is over.
    pub fn close(&mut self, event: SessionEvent, settings: &Settings) -> (closing: Closing)
        requires
            event != SessionEvent::Quit ==> old(self).counter < u32::MAX,
        ensures
            event == SessionEvent::Quit ==> closing is Stop && *final(self) == *old(self),
            event != SessionEvent::Quit ==> final(self).counter == old(self).counter + 1 && (
            closing matches Closing::Continue(message) && message@ == kind_of(
                old(self).counter as nat,
            ).completion_text(kind_of(old(self).counter as nat).minutes_of(*settings))),
    {
        match event {
            SessionEvent::Quit => Closing::Stop,
            _ => {
                let message: String = self.kind().completion_message(settings);
                self.counter = self.counter + 1;
                Closing::Continue(message)
            },
        }
    }
}

/// The hint printed after the banner's greeting.
pub open spec fn hint_text() -> Seq<char> {
    "(q to quit, p to pause, r to resume, R to refresh)"@
}

/// True when `out` is the banner: the greeting, the hint painted grey, and
/// two line feeds.
pub open spec fn is_banner(out: Seq<char>) -> bool {
    let greeting = "Pomodoro is running! "@;
    let tail = "\n\n"@;
    &&& out.len() >= greeting.len() + tail.len()
    &&& out.subrange(0, greeting.len() as int) == greeting
    &&& painted(hint_text(), grey(), out.subrange(greeting.len() as int, out.len() - tail.len()))
    &&& out.subrange(out.len() - tail.len(), out.len() as int) == tail
}

/// The banner shown at the top of the screen.
pub fn welcome_banner() -> (out: String)
    ensures
        is_banner(out@),
{
    let hint: &str = "(q to quit, p to pause, r to resume, R to refresh)";
    proof {
        reveal_strlit("(q to quit, p to pause, r to resume, R to refresh)");
        assert forall|i: int| 0 <= i < hint@.len() implies hint@[i] != escape() by {}
    }
    let painted_hint: String = truecolor(hint, 127, 127, 127);
    let mut out: String = String::from_str("Pomodoro is running! ");
    out.append(painted_hint.as_str());
    out.append("\n\n");
    proof {
        let greeting = "Pomodoro is running! "@;
        let tail = "\n\n"@;
        assert(out@ == greeting + painted_hint@ + tail);
        assert(out@.subrange(0, greeting.len() as int) =~= greeting);
        assert(out@.subrange(greeting.len() as int, out@.len() - tail.len()) =~= painted_hint@);
        assert(out@.subrange(out@.len() - tail.len(), out@.len() as int) =~= tail);
    }
    out
}

} // verus!
