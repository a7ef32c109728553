use vstd::prelude::*;

use crate::wheel::{default_catalog, lists_catalog, Wheel, WheelItem};

verus! {

/// The decision state of one wheel window: whether a spin is running,
/// which segment won the last spin, and the auto-run bookkeeping.  The
/// animation itself (angles and elapsed time) is kept by the window.
#[derive(Clone, Copy, Debug)]
pub struct SpinState {
    pub spinning: bool,
    pub show_message: bool,
    pub winner: Option<usize>,
    pub auto_run: bool,
    pub auto_run_started: bool,
}

/// The state at the start of a spin: running, no winner, no message.
pub open spec fn started(s: SpinState) -> SpinState {
    SpinState { spinning: true, show_message: false, winner: None, ..s }
}

/// A click on the spin button: starts a spin unless one is running.
/// The flag says whether a spin was started.
pub open spec fn after_click(s: SpinState) -> (SpinState, bool) {
    if s.spinning {
        (s, false)
    } else {
        (started(s), true)
    }
}

/// The check at the start of each frame: in auto-run mode the first frame
/// with no spin running starts one, once.  The flag says whether a spin was
/// started.
pub open spec fn after_auto_start(s: SpinState) -> (SpinState, bool) {
    if s.auto_run && !s.auto_run_started && !s.spinning {
        (SpinState { auto_run_started: true, ..started(s) }, true)
    } else {
        (s, false)
    }
}

/// The end of a spin whose pointer stands on `segment`.
pub open spec fn after_finish(s: SpinState, segment: usize) -> SpinState {
    SpinState { spinning: false, winner: Some(segment), ..s }
}

/// An event that the window hands to its session.
pub enum SpinEvent {
    /// A new frame begins.
    Frame,
    /// The spin button was clicked.
    Click,
    /// The animation ended with the pointer this many segments past the start.
    Finish(usize),
}

/// One event applied to a state of a session on a wheel of `len` segments;
/// the flag says whether the event started a spin by itself (auto-run).
/// A finish while no spin runs does nothing.
pub open spec fn step(s: SpinState, e: SpinEvent, len: nat) -> (SpinState, bool) {
    match e {
        SpinEvent::Frame => after_auto_start(s),
        SpinEvent::Click => (after_click(s).0, false),
        SpinEvent::Finish(offset) => if s.spinning {
            (after_finish(s, (offset as nat % len) as usize), false)
        } else {
            (s, false)
        },
    }
}

/// The state after the events, in order.
pub open spec fn run(s: SpinState, events: Seq<SpinEvent>, len: nat) -> SpinState
    decreases events.len(),
{
    if events.len() == 0 {
        s
    } else {
        run(step(s, events[0], len).0, events.drop_first(), len)
    }
}

/// How many of the events started a spin by themselves.
pub open spec fn auto_starts(s: SpinState, events: Seq<SpinEvent>, len: nat) -> nat
    decreases events.len(),
{
    if events.len() == 0 {
        0
    } else {
        let (t, fired) = step(s, events[0], len);
        (if fired { 1nat } else { 0nat }) + auto_starts(t, events.drop_first(), len)
    }
}

/// A click while a spin is running changes nothing and starts nothing.
pub proof fn lemma_click_ignored_while_spinning(s: SpinState)
    requires
        s.spinning,
    ensures
        after_click(s) == (s, false),
{
}

/// A click on an idle wheel followed by the end of the animation makes the
/// segment under the pointer the winner, whatever was shown before; the
/// mode and the auto-run bookkeeping are untouched.
pub proof fn lemma_click_then_finish(s: SpinState, offset: usize, len: nat)
    requires
        !s.spinning,
        len > 0,
    ensures
        ({
            let t = run(s, seq![SpinEvent::Click, SpinEvent::Finish(offset)], len);
            &&& !t.spinning
            &&& t.winner == Some((offset as nat % len) as usize)
            &&& !t.show_message
            &&& t.auto_run == s.auto_run
            &&& t.auto_run_started == s.auto_run_started
        }),
{
    let events = seq![SpinEvent::Click, SpinEvent::Finish(offset)];
    let s1 = step(s, events[0], len).0;
    assert(events.drop_first() =~= seq![SpinEvent::Finish(offset)]);
    assert(events.drop_first().drop_first() =~= Seq::<SpinEvent>::empty());
    assert(s1.spinning);
    let s2 = step(s1, SpinEvent::Finish(offset), len).0;
    assert(run(s1, events.drop_first(), len) == run(s2, events.drop_first().drop_first(), len));
    assert(run(s, events, len) == run(s1, events.drop_first(), len));
}

/// No event changes the mode, and once the auto-run spin has started it
/// stays recorded.
pub proof fn lemma_step_keeps_mode(s: SpinState, e: SpinEvent, len: nat)
    ensures
        step(s, e, len).0.auto_run == s.auto_run,
        s.auto_run_started ==> step(s, e, len).0.auto_run_started,
        step(s, e, len).1 ==> s.auto_run && !s.auto_run_started && step(s, e, len).0.auto_run_started,
{
}

/// A session that is not in auto-run mode, or whose auto-run spin already
/// started, never starts a spin by itself.
pub proof fn lemma_no_auto_start_after_first(s: SpinState, events: Seq<SpinEvent>, len: nat)
    requires
        !s.auto_run || s.auto_run_started,
    ensures
        auto_starts(s, events, len) == 0,
    decreases events.len(),
{
    if events.len() > 0 {
        lemma_step_keeps_mode(s, events[0], len);
        lemma_no_auto_start_after_first(step(s, events[0], len).0, events.drop_first(), len);
    }
}

/// Whatever the events, a session starts at most one spin by itself, and
/// none unless it is in auto-run mode and has not started one yet.
pub proof fn lemma_auto_start_at_most_once(s: SpinState, events: Seq<SpinEvent>, len: nat)
    ensures
        auto_starts(s, events, len) <= (if s.auto_run && !s.auto_run_started { 1nat } else { 0nat }),
    decreases events.len(),
{
    if !s.auto_run || s.auto_run_started {
        lemma_no_auto_start_after_first(s, events, len);
    } else if events.len() > 0 {
        let (t, fired) = step(s, events[0], len);
        lemma_step_keeps_mode(s, events[0], len);
        if fired {
            lemma_no_auto_start_after_first(t, events.drop_first(), len);
        } else {
            lemma_auto_start_at_most_once(t, events.drop_first(), len);
        }
    }
}

/// What the window does when a spin ends.
pub struct SpinOutcome {
    /// The winning segment.
    pub segment: usize,
    /// The executable of the winning item, to be launched.
    pub launch: String,
    /// Whether the window closes itself (auto-run mode).
    pub close_window: bool,
}

/// A wheel window's session: the wheel and the decision state.
pub struct SpinSession {
    wheel: Wheel,
    state: SpinState,
}

impl SpinSession {
    /// The session is consistent: the wheel is not empty, a winner is one of
    /// its segments, a running spin shows no winner, and auto-run bookkeeping
    /// happens only in auto-run mode.
    pub closed spec fn wf(self) -> bool {
        &&& self.wheel@.len() > 0
        &&& (self.state.winner matches Some(w) ==> w < self.wheel@.len())
        &&& (self.state.spinning ==> self.state.winner is None)
        &&& (self.state.auto_run_started ==> self.state.auto_run)
    }

    pub closed spec fn spec_state(self) -> SpinState {
        self.state
    }

    pub closed spec fn spec_wheel(self) -> Seq<WheelItem> {
        self.wheel@
    }

    /// A fresh session on the default wheel, idle, with auto-run mode as given.
    pub fn new(auto_run: bool) -> (session: SpinSession)
        ensures
            session.wf(),
            lists_catalog(session.spec_wheel(), default_catalog()),
            session.spec_state() == (SpinState {
                spinning: false,
                show_message: false,
                winner: None,
                auto_run,
                auto_run_started: false,
            }),
    {
        let wheel = Wheel::new();
        proof {
            assert(default_catalog().len() == 17);
        }
        SpinSession {
            wheel,
            state: SpinState {
                spinning: false,
                show_message: false,
                winner: None,
                auto_run,
                auto_run_started: false,
            },
        }
    }

    /// The wheel of this session.
    pub fn wheel(&self) -> (wheel: &Wheel)
        ensures
            wheel@ == self.spec_wheel(),
    {
        &self.wheel
    }

    /// The decision state.
    pub fn state(&self) -> (state: SpinState)
        ensures
            state == self.spec_state(),
    {
        self.state
    }

    /// Whether a spin is running.
    pub fn is_spinning(&self) -> (spinning: bool)
        ensures
            spinning == self.spec_state().spinning,
    {
        self.state.spinning
    }

    /// Whether the window runs in auto-run mode.
    pub fn is_auto_run(&self) -> (auto_run: bool)
        ensures
            auto_run == self.spec_state().auto_run,
    {
        self.state.auto_run
    }

    /// The item that won the last finished spin, if any.
    pub fn winning_item(&self) -> (item: Option<&WheelItem>)
        requires
            self.wf(),
        ensures
            match self.spec_state().winner {
                Some(w) => item == Some(&self.spec_wheel()[w as int]),
                None => item is None,
            },
    {
        match self.state.winner {
            Some(w) => Some(self.wheel.pick(w)),
            None => None,
        }
    }

    fn start_spin(&mut self)
        requires
            old(self).wf(),
            !old(self).state.spinning,
        ensures
            final(self).state == started(old(self).state),
            final(self).wheel == old(self).wheel,
            final(self).wf(),
    {
        self.state.winner = None;
        self.state.show_message = false;
        self.state.spinning = true;
    }

    /// A click on the spin button: starts a spin unless one is running.
    /// Returns whether a spin started; the window then restarts its animation.
    pub fn click_spin(&mut self) -> (started: bool)
        requires
            old(self).wf(),
        ensures
            final(self).wf(),
            final(self).spec_wheel() == old(self).spec_wheel(),
            (final(self).spec_state(), started) == after_click(old(self).spec_state()),
    {
        if self.state.spinning {
            false
        } else {
            self.start_spin();
            true
        }
    }

    /// The check at the start of each frame: in auto-run mode the first
    /// frame with no spin running starts one.  Returns whether a spin started.
    pub fn auto_start(&mut self) -> (started: bool)
        requires
            old(self).wf(),
        ensures
            final(self).wf(),
            final(self).spec_wheel() == old(self).spec_wheel(),
            (final(self).spec_state(), started) == after_auto_start(old(self).spec_state()),
    {
        if self.state.auto_run && !self.state.auto_run_started && !self.state.spinning {
            self.start_spin();
            self.state.auto_run_started = true;
            true
        } else {
            false
        }
    }

    /// Ends the running spin with the pointer `offset` whole segments past
    /// the wheel's start: the segment there wins, its executable is to be
    /// launched, and in auto-run mode the window closes.
    pub fn finish_spin(&mut self, offset: usize) -> (outcome: SpinOutcome)
        requires
            old(self).wf(),
            old(self).spec_state().spinning,
        ensures
            final(self).wf(),
            final(self).spec_wheel() == old(self).spec_wheel(),
            outcome.segment == offset % (old(self).spec_wheel().len() as usize),
            final(self).spec_state() == after_finish(old(self).spec_state(), outcome.segment),
            outcome.launch@ == old(self).spec_wheel()[outcome.segment as int].executable@,
            outcome.close_window == old(self).spec_state().auto_run,
    {
        let segment = self.wheel.segment_for_offset(offset);
        self.state.spinning = false;
        self.state.winner = Some(segment);
        let launch = self.wheel.pick(segment).executable.clone();
        SpinOutcome { segment, launch, close_window: self.state.auto_run }
    }
}

} // verus!
