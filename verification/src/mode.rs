use vstd::prelude::*;

verus! {

/// What the program runs as.
#[derive(Clone, Copy, Debug, PartialEq, Eq, Structural)]
pub enum RunMode {
    /// The wheel window, spun by the user.
    Gui,
    /// The wheel window, transparent, spinning once by itself and closing
    /// after the launch.
    GuiAutoRun,
    /// A Model Context Protocol server on standard input and output.
    Mcp,
}

/// The run mode for the command line: a wheel file opens the window (the
/// file is not read yet); otherwise the `mcp` command runs the server, and
/// without a command `--auto-run` selects the auto-run window.
pub open spec fn spec_choose_mode(file_given: bool, mcp_command: bool, auto_run: bool) -> RunMode {
    if file_given {
        RunMode::Gui
    } else if mcp_command {
        RunMode::Mcp
    } else if auto_run {
        RunMode::GuiAutoRun
    } else {
        RunMode::Gui
    }
}

/// Chooses the run mode from the parsed command line.
pub fn choose_mode(file_given: bool, mcp_command: bool, auto_run: bool) -> (mode: RunMode)
    ensures
        mode == spec_choose_mode(file_given, mcp_command, auto_run),
{
    if file_given {
        RunMode::Gui
    } else if mcp_command {
        RunMode::Mcp
    } else if auto_run {
        RunMode::GuiAutoRun
    } else {
        RunMode::Gui
    }
}

} // verus!

verus! {

/// A wheel file always opens the ordinary wheel window, whatever the
/// command and the `--auto-run` flag say.
pub proof fn lemma_file_opens_window(mcp_command: bool, auto_run: bool)
    ensures
        spec_choose_mode(true, mcp_command, auto_run) == RunMode::Gui,
{
}

/// Without a file, the server runs exactly when the `mcp` command is given,
/// and the auto-run window opens exactly when `--auto-run` is given without
/// the command; each mode is only ever chosen when it was asked for.
pub proof fn lemma_mode_is_what_was_asked(file_given: bool, mcp_command: bool, auto_run: bool)
    ensures
        (spec_choose_mode(file_given, mcp_command, auto_run) == RunMode::Mcp) <==> (!file_given
            && mcp_command),
        (spec_choose_mode(file_given, mcp_command, auto_run) == RunMode::GuiAutoRun) <==> (
        !file_given && !mcp_command && auto_run),
        (spec_choose_mode(file_given, mcp_command, auto_run) == RunMode::Gui) <==> (file_given || (
        !mcp_command && !auto_run)),
{
}

} // verus!
