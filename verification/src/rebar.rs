//! The bar: its state and the channel on which the window manager's events
//! arrive.
use vstd::prelude::*;

use crate::clock::{chrono_format, format_reading, read_local_clock, LocalReading};
use crate::fuzzydate::{fuzzy_date_of_reading, fuzzy_date_text, reading_fields};
use crate::ipc::IPCEvent;
use crate::state::{initial_time_text, initial_workspaces, model_apply_all, RebarState, StateModel};

verus! {

#[verifier::external_type_specification]
#[verifier::external_body]
#[verifier::reject_recursive_types(T)]
pub struct ExReceiver<T>(std::sync::mpsc::Receiver<T>);

/// Takes every event waiting on the channel, with `Receiver::try_iter`,
/// without blocking. Which events they are depends on the sending thread and
/// is not stated.
#[verifier::external_body]
fn drain_pending(rx: &std::sync::mpsc::Receiver<IPCEvent>) -> Vec<IPCEvent> {
    rx.try_iter().collect()
}

/// The text of the clock for a reading of the local clock: the fuzzy date
/// when `fuzzy_time` holds, else the reading formatted by `pattern`, or the
/// `current` text where chrono cannot format with it.
pub open spec fn clock_text_spec(reading: LocalReading, fuzzy_time: bool, pattern: Seq<char>, current: Seq<char>) -> Seq<char> {
    if fuzzy_time {
        fuzzy_date_text(reading_fields(reading))
    } else {
        match chrono_format(reading, pattern) {
            Some(t) => t,
            None => current,
        }
    }
}

/// The text of the clock for a reading of the local clock.
pub fn clock_text(reading: &LocalReading, fuzzy_time: bool, pattern: &str, current: &str) -> (r: String)
    requires
        reading.in_range(),
    ensures
        r@ == clock_text_spec(*reading, fuzzy_time, pattern@, current@),
{
    if fuzzy_time {
        fuzzy_date_of_reading(reading)
    } else {
        match format_reading(reading, pattern) {
            Some(t) => t,
            None => String::from_str(current),
        }
    }
}

/// The bar.
pub struct Rebar {
    state: RebarState,
    rx: std::sync::mpsc::Receiver<IPCEvent>,
}

/// Nanoseconds between two readings of the clock: a minute.
pub const TICK_NANOS: u128 = 60_000_000_000;

/// The time from reading `last` to reading `now` of the monotonic clock, as
/// `Instant::duration_since` gives it: zero where `now` is the earlier one.
pub open spec fn elapsed_nanos(last: u128, now: u128) -> u128 {
    if now >= last {
        (now - last) as u128
    } else {
        0
    }
}

/// The state with a new clock text; everything else as in `s`.
pub open spec fn with_time(s: StateModel, time: Seq<char>) -> StateModel {
    StateModel { time, ..s }
}

impl Rebar {
    /// Every icon of the bar matches its workspace's flags, and at most one
    /// workspace holds the focus.
    #[verifier::type_invariant]
    spec fn consistent_state(self) -> bool {
        self.state@.consistent()
    }

    /// A bar in its fresh state that listens on `rx`.
    pub fn new(rx: std::sync::mpsc::Receiver<IPCEvent>) -> (r: Rebar)
        ensures
            r.state()@.workspaces == initial_workspaces(),
            r.state()@.focused_title == "GlazeWM - Rebar"@,
            !r.state()@.paused,
            r.state()@.horizontal,
            r.state()@.consistent(),
            exists|reading: LocalReading| reading.in_range() && r.state()@.time == initial_time_text(reading),
            r.state().last_tick() == 0,
    {
        Rebar { state: RebarState::default(), rx }
    }

    pub closed spec fn state(&self) -> &RebarState {
        &self.state
    }

    /// What the bar shows.
    pub fn view_state(&self) -> (r: &RebarState)
        ensures
            r == self.state(),
            r@.well_formed(),
            r@.consistent(),
    {
        proof {
            use_type_invariant(self);
            use_type_invariant(&self.state);
        }
        &self.state
    }

    /// Applies, in order, every event waiting on the channel. Which events
    /// arrived is not known here; whatever they were, the state is the one
    /// they lead to: the nine workspaces stay numbered 1 to 9, every icon in
    /// step with its flags, at most one workspace focused, and the clock's
    /// text and last reading stay as they were.
    pub fn handle_ipc(&mut self)
        ensures
            exists|events: Seq<crate::ipc::EventModel>|
                final(self).state()@ == model_apply_all(old(self).state()@, events),
            final(self).state()@.well_formed(),
            final(self).state()@.consistent(),
            final(self).state()@.time == old(self).state()@.time,
            final(self).state().last_tick() == old(self).state().last_tick(),
            final(self).state().clock_anchor() == old(self).state().clock_anchor(),
    {
        proof {
            use_type_invariant(&*self);
            use_type_invariant(&self.state);
        }
        let events = drain_pending(&self.rx);
        let ghost before = self.state@;
        let ghost models = crate::ipc::events_view(events@);
        let mut state = RebarState::blank(self.state.anchor(), self.state.tick());
        std::mem::swap(&mut state, &mut self.state);
        state.apply_events(&events);
        proof {
            crate::state::lemma_apply_all_keeps_consistent(before, models);
            crate::state::lemma_apply_all_keeps_time(before, models);
        }
        self.state = state;
        proof {
            assert(self.state()@ == model_apply_all(old(self).state()@, models));
        }
    }

    /// Reads the monotonic clock and, once a minute has passed since the
    /// last reading, the local clock. What the monotonic clock reads is not
    /// known here; whatever it read, the bar is the one that `advance_clock`
    /// gives for that reading.
    pub fn update_time(&mut self, fuzzy_time: bool, datetime_format: &str)
        ensures
            exists|now: u128| Self::advanced(*old(self), *final(self), now, fuzzy_time, datetime_format@),
    {
        let now = self.state.clock_nanos();
        self.advance_clock(now, fuzzy_time, datetime_format);
    }

    /// What `advance_clock` does to the bar for the reading `now` of the
    /// monotonic clock: before a minute has passed since the last reading
    /// nothing changes; after, `now` becomes the last reading and the clock's
    /// text that of a fresh reading of the local clock.
    pub open spec fn advanced(before: Rebar, after: Rebar, now: u128, fuzzy_time: bool, pattern: Seq<char>) -> bool {
        &&& after.state().clock_anchor() == before.state().clock_anchor()
        &&& if elapsed_nanos(before.state().last_tick(), now) < TICK_NANOS {
            &&& after.state()@ == before.state()@
            &&& after.state().last_tick() == before.state().last_tick()
        } else {
            &&& after.state().last_tick() == now
            &&& exists|reading: LocalReading|
                reading.in_range() && after.state()@ == with_time(
                    before.state()@,
                    clock_text_spec(reading, fuzzy_time, pattern, before.state()@.time),
                )
        }
    }

    /// Given the reading `now` of the monotonic clock (nanoseconds from the
    /// state's anchor): before a minute has passed since the last reading
    /// nothing changes; after, the clock's text becomes that of a fresh
    /// reading of the local clock (the fuzzy date when `fuzzy_time` holds,
    /// else the reading formatted by `datetime_format`, the text being kept
    /// where chrono cannot format with it), and `now` becomes the last
    /// reading.
    pub fn advance_clock(&mut self, now: u128, fuzzy_time: bool, datetime_format: &str)
        ensures
            Self::advanced(*old(self), *final(self), now, fuzzy_time, datetime_format@),
    {
        proof {
            use_type_invariant(&*self);
        }
        let last = self.state.tick();
        let elapsed: u128 = if now >= last { now - last } else { 0 };
        if elapsed >= TICK_NANOS {
            let reading = read_local_clock();
            let text = clock_text(&reading, fuzzy_time, datetime_format, self.state.time());
            let mut state = RebarState::blank(self.state.anchor(), now);
            std::mem::swap(&mut state, &mut self.state);
            state.set_time(text, now);
            self.state = state;
            assert(self.state()@ == with_time(
                old(self).state()@,
                clock_text_spec(reading, fuzzy_time, datetime_format@, old(self).state()@.time),
            ));
        }
    }
}

} // verus!
