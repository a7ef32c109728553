use vstd::prelude::*;

use crate::wheel::WheelItem;

verus! {

/// The number of progress steps after the first report of a roulette spin;
/// reports are made for steps `0..=PROGRESS_STEPS`.
pub const PROGRESS_STEPS: u32 = 16;

/// How long a roulette spin takes, in milliseconds.
pub const SPIN_DURATION_MILLIS: u64 = 8000;

/// The pause between two consecutive progress reports, in milliseconds: the
/// spin's duration divided evenly among the steps.
pub const STEP_PAUSE_MILLIS: u64 = 500;

/// One thing for the roulette tool to do next.
pub enum ProgressAction {
    /// Report progress for `step` (of `PROGRESS_STEPS`).
    Report { step: u32 },
    /// Wait this many milliseconds.
    Pause { millis: u64 },
    /// Spin the wheel and answer with the winner.
    Spin,
}

/// The number of actions before the spin: a report for each step and a
/// pause between consecutive reports.
pub open spec fn schedule_len() -> nat {
    2 * PROGRESS_STEPS as nat + 1
}

/// The `k`-th action of a roulette run: reports for steps 0 to 16 with a
/// pause between each two of them, and then the spin, which repeats.
pub open spec fn action_at(k: nat) -> ProgressAction {
    if k < schedule_len() {
        if k % 2 == 0 {
            ProgressAction::Report { step: (k / 2) as u32 }
        } else {
            ProgressAction::Pause { millis: STEP_PAUSE_MILLIS }
        }
    } else {
        ProgressAction::Spin
    }
}

/// The total time paused during the first `n` actions.
pub open spec fn paused_millis(n: nat) -> nat
    decreases n,
{
    if n == 0 {
        0
    } else {
        paused_millis((n - 1) as nat) + match action_at((n - 1) as nat) {
            ProgressAction::Pause { millis } => millis as nat,
            _ => 0nat,
        }
    }
}

/// The number of progress reports among the first `n` actions.
pub open spec fn reports(n: nat) -> nat
    decreases n,
{
    if n == 0 {
        0
    } else {
        reports((n - 1) as nat) + if action_at((n - 1) as nat) is Report { 1nat } else { 0nat }
    }
}

/// A run of the roulette tool, which hands out its actions one by one.
pub struct ProgressRun {
    emitted: u32,
}

impl ProgressRun {
    /// How many actions this run has handed out (the spin counted once).
    pub closed spec fn position(self) -> nat {
        self.emitted as nat
    }

    /// A run that has handed out nothing yet.
    pub fn new() -> (run: ProgressRun)
        ensures
            run.position() == 0,
    {
        ProgressRun { emitted: 0 }
    }

    /// The next action; once the spin is reached it is repeated.
    pub fn next_action(&mut self) -> (action: ProgressAction)
        requires
            old(self).position() <= schedule_len(),
        ensures
            action == action_at(old(self).position()),
            final(self).position() == if old(self).position() < schedule_len() {
                old(self).position() + 1
            } else {
                old(self).position()
            },
            final(self).position() <= schedule_len(),
    {
        let k = self.emitted;
        if k < 2 * PROGRESS_STEPS + 1 {
            self.emitted = k + 1;
            if k % 2 == 0 {
                ProgressAction::Report { step: k / 2 }
            } else {
                ProgressAction::Pause { millis: STEP_PAUSE_MILLIS }
            }
        } else {
            ProgressAction::Spin
        }
    }
}

/// The roulette run makes one report for each of the 17 steps, pauses in
/// all for the spin's whole duration, never pauses after the last report,
/// and then spins.
pub proof fn lemma_schedule_covers_duration()
    ensures
        reports(schedule_len()) == PROGRESS_STEPS + 1,
        paused_millis(schedule_len()) == SPIN_DURATION_MILLIS,
        action_at((schedule_len() - 1) as nat) == (ProgressAction::Report { step: PROGRESS_STEPS }),
        forall|k: nat| k >= schedule_len() ==> action_at(k) == ProgressAction::Spin,
{
    reveal_with_fuel(reports, 34);
    reveal_with_fuel(paused_millis, 34);
}

/// A run opens with the report of step 0.
pub proof fn lemma_run_starts_with_first_report()
    ensures
        action_at(0) == (ProgressAction::Report { step: 0 }),
{
}

/// Until the spin, reports and pauses alternate: after a report comes a
/// pause of the step's length, and after a pause comes a report; so every two
/// consecutive reports are separated by exactly one pause.
pub proof fn lemma_reports_and_pauses_alternate(k: nat)
    requires
        k + 1 < schedule_len(),
    ensures
        action_at(k) is Report ==> action_at(k + 1) == (ProgressAction::Pause {
            millis: STEP_PAUSE_MILLIS,
        }),
        action_at(k) is Pause ==> action_at(k + 1) is Report,
        !(action_at(k) is Spin),
{
}

/// Each report is for the step after the previous report's: the reports
/// count the steps up one by one.
pub proof fn lemma_report_steps_count_up(k: nat, step: u32)
    requires
        k + 2 < schedule_len(),
        action_at(k) == (ProgressAction::Report { step }),
    ensures
        action_at(k + 2) == (ProgressAction::Report { step: (step + 1) as u32 }),
{
}

/// The spinner glyph shown at a step: `|`, `/`, `─`, `\` in turn.
pub open spec fn spinner_glyph(step: u32) -> Seq<char> {
    if step % 4 == 0 {
        "|"@
    } else if step % 4 == 1 {
        "/"@
    } else if step % 4 == 2 {
        "─"@
    } else {
        "\\"@
    }
}

/// The spinner glyph shown at `step`.
pub fn spinner(step: u32) -> (glyph: &'static str)
    ensures
        glyph@ == spinner_glyph(step),
{
    if step % 4 == 0 {
        "|"
    } else if step % 4 == 1 {
        "/"
    } else if step % 4 == 2 {
        "─"
    } else {
        "\\"
    }
}

/// The progress message at `step`: the spinner glyph and a line of text.
pub fn progress_message(step: u32) -> (message: String)
    ensures
        message@ == spinner_glyph(step) + " Spinning the PowerToys wheel..."@,
{
    String::from_str(spinner(step)).concat(" Spinning the PowerToys wheel...")
}

/// The tool's answer once the wheel landed on `winner`: its name, and the
/// executable to run for the user.
pub fn result_message(winner: &WheelItem) -> (message: String)
    ensures
        message@ == "Wheel has finished and has landed on: "@ + winner.name@
            + "\nPlease run this executable for the user: "@ + winner.executable@,
{
    String::from_str("Wheel has finished and has landed on: ")
        .concat(winner.name.as_str())
        .concat("\nPlease run this executable for the user: ")
        .concat(winner.executable.as_str())
}

} // verus!
