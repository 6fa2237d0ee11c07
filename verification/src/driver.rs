//! The frame driver: the animation loop's state machine.
//!
//! The loop has two states, running and terminated. On each poll the
//! embedding program reports whether the display surface is still open
//! and whether the exit key is down; the driver decides whether the
//! tick renders and presents a frame or the loop stops, and counts the
//! completed ticks. The animation clock advances by exactly 0.05 —
//! one twentieth — per tick and is the only state retained between
//! frames besides the tick count itself; the embedding program feeds
//! it to the orbiting light's sine and cosine.

use vstd::prelude::*;
use crate::coords::{Frac, frac_wf};

verus! {

/// The two states of the frame loop.
#[derive(Clone, Copy, PartialEq, Eq, Structural, Debug)]
pub enum DriverState {
    Running,
    Terminated,
}

/// What the embedding program does with the tick.
#[derive(Clone, Copy, PartialEq, Eq, Structural, Debug)]
pub enum FrameAction {
    /// Render every pixel at the current clock, present the buffer,
    /// and poll again.
    RenderPresent,
    /// The loop is over: no further pixel writes, no presentation.
    Stop,
}

/// The frame driver's whole retained state: the loop state and the
/// number of completed ticks. Each frame is otherwise recomputed from
/// scratch.
#[derive(Clone, Copy, PartialEq, Eq, Structural, Debug)]
pub struct FrameDriver {
    pub state: DriverState,
    pub ticks: u64,
}

/// A poll keeps the loop running only while the surface is open and
/// the exit key is up.
pub open spec fn keeps_running(open: bool, exit_key: bool) -> bool {
    open && !exit_key
}

/// The state after one poll: a running loop ticks on while the
/// surface is open and the exit key is up, and terminates for good
/// otherwise; termination freezes the tick count.
pub open spec fn next_state(s: FrameDriver, open: bool, exit_key: bool) -> FrameDriver {
    if s.state is Running && keeps_running(open, exit_key) {
        FrameDriver { state: DriverState::Running, ticks: (s.ticks + 1) as u64 }
    } else {
        FrameDriver { state: DriverState::Terminated, ticks: s.ticks }
    }
}

/// The action for one poll: render and present exactly when the loop
/// keeps running.
pub open spec fn next_action(s: FrameDriver, open: bool, exit_key: bool) -> FrameAction {
    if s.state is Running && keeps_running(open, exit_key) {
        FrameAction::RenderPresent
    } else {
        FrameAction::Stop
    }
}

/// The state after a whole sequence of polls, first poll first.
pub open spec fn run(s: FrameDriver, polls: Seq<(bool, bool)>) -> FrameDriver
    decreases polls.len(),
{
    if polls.len() == 0 {
        s
    } else {
        run(next_state(s, polls[0].0, polls[0].1), polls.subrange(1, polls.len() as int))
    }
}

impl FrameDriver {
    /// A fresh driver: running, with the clock at zero.
    pub fn new() -> (d: FrameDriver)
        ensures
            d.state is Running,
            d.ticks == 0,
    {
        FrameDriver { state: DriverState::Running, ticks: 0 }
    }

    /// One poll of the loop. Reports whether this tick renders and
    /// presents a frame (and the clock advances) or the loop stops.
    pub fn step(&mut self, open: bool, exit_key: bool) -> (a: FrameAction)
        requires
            old(self).ticks < u64::MAX,
        ensures
            *final(self) == next_state(*old(self), open, exit_key),
            a == next_action(*old(self), open, exit_key),
            a is RenderPresent <==> final(self).state is Running,
    {
        match self.state {
            DriverState::Running => {
                if open && !exit_key {
                    self.ticks = self.ticks + 1;
                    FrameAction::RenderPresent
                } else {
                    self.state = DriverState::Terminated;
                    FrameAction::Stop
                }
            },
            DriverState::Terminated => FrameAction::Stop,
        }
    }

    /// The animation clock: exactly `ticks * 0.05`, that is
    /// `ticks / 20`, as an exact fraction.
    pub fn current_time(&self) -> (t: Frac)
        requires
            self.ticks < 0x8000_0000_0000_0000,
        ensures
            t.num == self.ticks,
            t.den == 20,
            frac_wf(t),
    {
        Frac { num: self.ticks as i64, den: 20 }
    }
}

/// Law: once the surface has reported closed or the exit key has been
/// pressed, the poll terminates the loop, performs no render or
/// presentation, and leaves the clock alone.
pub proof fn lemma_closed_surface_stops(s: FrameDriver, open: bool, exit_key: bool)
    requires
        !keeps_running(open, exit_key),
    ensures
        next_state(s, open, exit_key).state is Terminated,
        next_state(s, open, exit_key).ticks == s.ticks,
        next_action(s, open, exit_key) is Stop,
{
}

/// Law: termination is final — a terminated driver never renders or
/// presents again and its clock never moves, over any sequence of
/// further polls.
pub proof fn lemma_terminated_is_final(s: FrameDriver, polls: Seq<(bool, bool)>)
    requires
        s.state is Terminated,
    ensures
        run(s, polls) == s,
        forall|open: bool, exit_key: bool| next_action(s, open, exit_key) is Stop,
    decreases polls.len(),
{
    if polls.len() > 0 {
        lemma_terminated_is_final(s, polls.subrange(1, polls.len() as int));
    }
}

/// Law: while every poll keeps the loop running, the clock counts the
/// polls — after `n` such ticks the tick count has grown by exactly
/// `n`, so the animation clock reads exactly `n * 0.05` more.
pub proof fn lemma_clock_counts_ticks(s: FrameDriver, polls: Seq<(bool, bool)>)
    requires
        s.state is Running,
        s.ticks + polls.len() <= u64::MAX,
        forall|i: int| 0 <= i < polls.len() ==> keeps_running(polls[i].0, polls[i].1),
    ensures
        run(s, polls).state is Running,
        run(s, polls).ticks == s.ticks + polls.len(),
    decreases polls.len(),
{
    if polls.len() > 0 {
        let s1 = next_state(s, polls[0].0, polls[0].1);
        let rest = polls.subrange(1, polls.len() as int);
        assert(keeps_running(polls[0].0, polls[0].1));
        assert(forall|i: int| 0 <= i < rest.len() ==> keeps_running(rest[i].0, rest[i].1));
        lemma_clock_counts_ticks(s1, rest);
    }
}

} // verus!
