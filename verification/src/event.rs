//! Keys and the events they lead to.
//!
//! Reading the keyboard is the caller's business. What was read goes through
//! [`classify`], and the command through [`Poller::on_key`], which says
//! whether the wait is over and with which event. A pause is a state of the
//! poller: while it lasts, every key but resume and quit only prolongs the
//! wait.

use vstd::prelude::*;

verus! {

/// How long one wait for a key lasts while an interval is paused, in
/// milliseconds: a day.
pub const PAUSE_WAIT_MS: u64 = 86_400_000;

/// The modifier keys held with a key: shift, control, alt, and `other` for
/// any further one.
#[derive(Clone, Copy, Debug, PartialEq, Eq, Structural)]
pub struct Modifiers {
    pub shift: bool,
    pub control: bool,
    pub alt: bool,
    pub other: bool,
}

impl Modifiers {
    /// True when shift is held and nothing else.
    pub open spec fn shift_alone(self) -> bool {
        self.shift && !self.control && !self.alt && !self.other
    }
}

/// What the keyboard gave within one wait.
#[derive(Clone, Copy, Debug, PartialEq, Eq, Structural)]
pub enum Key {
    /// A character key, with the modifiers held.
    Char { c: char, modifiers: Modifiers },
    /// Any other key or terminal event.
    Other,
    /// The wait ran out.
    Nothing,
}

/// What a key asks for.
#[derive(Clone, Copy, Debug, PartialEq, Eq, Structural)]
pub enum Command {
    Quit,
    Pause,
    Resume,
    Refresh,
    Nothing,
}

/// What happened to the running interval, as its loop is told.
#[derive(Clone, Copy, Debug, PartialEq, Eq, Structural)]
pub enum SessionEvent {
    Quit,
    Help,
    Pause,
    /// The interval goes on after a pause of that many whole seconds.
    Resume(u64),
    Refresh,
    Null,
}

/// The command behind a key: `q` quits and `p` pauses whatever the modifiers,
/// `R` refreshes when shift alone is held, `r` resumes; nothing else counts.
pub open spec fn command_of(key: Key) -> Command {
    match key {
        Key::Char { c, modifiers } => if c == 'q' {
            Command::Quit
        } else if c == 'p' {
            Command::Pause
        } else if c == 'R' && modifiers.shift_alone() {
            Command::Refresh
        } else if c == 'r' {
            Command::Resume
        } else {
            Command::Nothing
        },
        _ => Command::Nothing,
    }
}

/// The command behind what was read.
pub fn classify(key: Key) -> (command: Command)
    ensures
        command == command_of(key),
{
    match key {
        Key::Char { c, modifiers } => if c == 'q' {
            Command::Quit
        } else if c == 'p' {
            Command::Pause
        } else if c == 'R' && modifiers.shift && !modifiers.control && !modifiers.alt
            && !modifiers.other {
            Command::Refresh
        } else if c == 'r' {
            Command::Resume
        } else {
            Command::Nothing
        },
        _ => Command::Nothing,
    }
}

/// Whether the wait for an event goes on.
#[derive(Clone, Copy, Debug, PartialEq, Eq, Structural)]
pub enum PollStep {
    /// The wait is over with this event.
    Report(SessionEvent),
    /// Nothing to report yet: wait for the next key.
    KeepWaiting,
}

/// What to do after a key.
#[derive(Clone, Copy, Debug, PartialEq, Eq, Structural)]
pub struct Reaction {
    pub step: PollStep,
    /// The key was one of the four that count: wipe its echo off the screen.
    pub clear_echo: bool,
    /// Clear the screen and print the banner again.
    pub redraw_banner: bool,
}

/// The state of the wait for an event: listening, or paused since some
/// moment, given in milliseconds on the caller's clock.
#[derive(Clone, Copy, Debug, PartialEq, Eq, Structural)]
pub struct Poller {
    pub paused_since: Option<u64>,
}

/// The whole seconds between two moments given in milliseconds, and none if
/// the clock went backwards.
pub open spec fn whole_seconds_between(since_ms: u64, now_ms: u64) -> u64 {
    if now_ms >= since_ms {
        ((now_ms - since_ms) / 1000) as u64
    } else {
        0
    }
}

impl Poller {
    /// The poller after `command` arrives at `now_ms`.
    pub open spec fn after(self, command: Command, now_ms: u64) -> Poller {
        match self.paused_since {
            None => if command == Command::Pause {
                Poller { paused_since: Some(now_ms) }
            } else {
                self
            },
            Some(_) => if command == Command::Resume || command == Command::Quit {
                Poller { paused_since: None }
            } else {
                self
            },
        }
    }

    /// What `command`, arriving at `now_ms`, makes of the wait.
    ///
    /// While listening, quit is reported, pause starts a pause, and anything
    /// else ends the wait with the no-op event. While paused, resume reports
    /// how long the pause lasted, quit is reported, and anything else is
    /// passed over.
    pub open spec fn step_on(self, command: Command, now_ms: u64) -> PollStep {
        match self.paused_since {
            None => match command {
                Command::Quit => PollStep::Report(SessionEvent::Quit),
                Command::Pause => PollStep::KeepWaiting,
                _ => PollStep::Report(SessionEvent::Null),
            },
            Some(since) => match command {
                Command::Resume => PollStep::Report(
                    SessionEvent::Resume(whole_seconds_between(since, now_ms)),
                ),
                Command::Quit => PollStep::Report(SessionEvent::Quit),
                _ => PollStep::KeepWaiting,
            },
        }
    }

    /// What to do when `command` arrives at `now_ms`: the step, with the echo
    /// wiped for every key that counts, and the banner printed again for a
    /// refresh that is not passed over.
    pub open spec fn reaction_to(self, command: Command, now_ms: u64) -> Reaction {
        Reaction {
            step: self.step_on(command, now_ms),
            clear_echo: command != Command::Nothing,
            redraw_banner: self.paused_since is None && command == Command::Refresh,
        }
    }

    /// A poller that listens.
    pub fn new() -> (poller: Poller)
        ensures
            poller.paused_since is None,
    {
        Poller { paused_since: None }
    }

    /// How long to wait for the next key, in milliseconds: `tick_ms` while
    /// listening, a day while paused.
    pub fn timeout(&self, tick_ms: u64) -> (wait_ms: u64)
        ensures
            wait_ms == if self.paused_since is Some {
                PAUSE_WAIT_MS
            } else {
                tick_ms
            },
    {
        match self.paused_since {
            Some(_) => PAUSE_WAIT_MS,
            None => tick_ms,
        }
    }

    /// Takes in the command that arrived at `now_ms` and says what to do.
    pub fn on_key(&mut self, command: Command, now_ms: u64) -> (reaction: Reaction)
        ensures
            *final(self) == old(self).after(command, now_ms),
            reaction == old(self).reaction_to(command, now_ms),
    {
        let clear_echo: bool = match command {
            Command::Nothing => false,
            _ => true,
        };
        match self.paused_since {
            None => match command {
                Command::Quit => Reaction {
                    step: PollStep::Report(SessionEvent::Quit),
                    clear_echo,
                    redraw_banner: false,
                },
                Command::Pause => {
                    self.paused_since = Some(now_ms);
                    Reaction { step: PollStep::KeepWaiting, clear_echo, redraw_banner: false }
                },
                Command::Refresh => Reaction {
                    step: PollStep::Report(SessionEvent::Null),
                    clear_echo,
                    redraw_banner: true,
                },
                _ => Reaction {
                    step: PollStep::Report(SessionEvent::Null),
                    clear_echo,
                    redraw_banner: false,
                },
            },
            Some(since) => match command {
                Command::Resume => {
                    let paused: u64 = if now_ms >= since {
                        (now_ms - since) / 1000
                    } else {
                        0
                    };
                    self.paused_since = None;
                    Reaction {
                        step: PollStep::Report(SessionEvent::Resume(paused)),
                        clear_echo,
                        redraw_banner: false,
                    }
                },
                Command::Quit => {
                    self.paused_since = None;
                    Reaction {
                        step: PollStep::Report(SessionEvent::Quit),
                        clear_echo,
                        redraw_banner: false,
                    }
                },
                _ => Reaction { step: PollStep::KeepWaiting, clear_echo, redraw_banner: false },
            },
        }
    }
}

} // verus!
