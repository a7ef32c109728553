use powertoys_roulette::mode::{choose_mode, RunMode};
use powertoys_roulette::roulette::{
    progress_message, result_message, spinner, ProgressAction, ProgressRun, PROGRESS_STEPS,
    SPIN_DURATION_MILLIS, STEP_PAUSE_MILLIS,
};
use powertoys_roulette::wheel::WheelItem;

#[test]
fn spinner_cycles_through_four_glyphs() {
    assert_eq!(spinner(0), "|");
    assert_eq!(spinner(1), "/");
    assert_eq!(spinner(2), "─");
    assert_eq!(spinner(3), "\\");
    assert_eq!(spinner(4), "|");
    assert_eq!(spinner(16), "|");
}

#[test]
fn progress_messages_carry_the_spinner() {
    assert_eq!(progress_message(0), "| Spinning the PowerToys wheel...");
    assert_eq!(progress_message(6), "─ Spinning the PowerToys wheel...");
    assert_eq!(progress_message(7), "\\ Spinning the PowerToys wheel...");
}

#[test]
fn result_message_names_winner_and_executable() {
    let item = WheelItem::new("Paint", "mspaint.exe", 2, 17);
    assert_eq!(
        result_message(&item),
        "Wheel has finished and has landed on: Paint\nPlease run this executable for the user: mspaint.exe"
    );
}

#[test]
fn progress_run_reports_every_step_then_spins() {
    let mut run = ProgressRun::new();
    let mut reports = Vec::new();
    let mut paused: u64 = 0;
    let mut last_was_pause = false;
    loop {
        match run.next_action() {
            ProgressAction::Report { step } => {
                reports.push(step);
                last_was_pause = false;
            }
            ProgressAction::Pause { millis } => {
                assert_eq!(millis, STEP_PAUSE_MILLIS);
                paused += millis;
                last_was_pause = true;
            }
            ProgressAction::Spin => break,
        }
    }
    assert!(!last_was_pause);
    assert_eq!(reports, (0..=PROGRESS_STEPS).collect::<Vec<u32>>());
    assert_eq!(paused, SPIN_DURATION_MILLIS);
    assert!(matches!(run.next_action(), ProgressAction::Spin));
    assert!(matches!(run.next_action(), ProgressAction::Spin));
}

#[test]
fn run_mode_follows_command_line() {
    assert_eq!(choose_mode(false, false, false), RunMode::Gui);
    assert_eq!(choose_mode(false, false, true), RunMode::GuiAutoRun);
    assert_eq!(choose_mode(false, true, false), RunMode::Mcp);
    assert_eq!(choose_mode(false, true, true), RunMode::Mcp);
    assert_eq!(choose_mode(true, true, true), RunMode::Gui);
    assert_eq!(choose_mode(true, false, true), RunMode::Gui);
}
