use powertoys_roulette::launcher::{is_console_app, is_console_name, plan_launch, LaunchPlan};

#[test]
fn console_programs_are_recognised() {
    assert!(is_console_app("powershell.exe"));
    assert!(is_console_app("cmd.exe"));
    assert!(is_console_app("pwsh"));
    assert!(is_console_app("C:\\tools\\mycmd"));
    assert!(!is_console_app("notepad.exe"));
    assert!(!is_console_app("calc.exe"));
    assert!(!is_console_app(""));
}

#[test]
fn console_check_ignores_case() {
    assert!(is_console_app("C:\\Windows\\System32\\WindowsPowerShell\\PowerShell.EXE"));
    assert!(is_console_app("CMD.EXE"));
    assert!(is_console_app("PwSh.exe"));
    assert!(!is_console_name("CMD.EXE"));
    assert!(is_console_name("cmd.exe"));
}

#[test]
fn cmd_must_end_the_path_unless_it_has_exe() {
    assert!(!is_console_app("cmdtool.bat"));
    assert!(is_console_app("run-cmd"));
}

#[test]
fn console_programs_open_in_a_new_window() {
    match plan_launch("cmd.exe", true) {
        LaunchPlan::ConsoleWindow { shell, args } => {
            assert_eq!(shell, "cmd.exe");
            assert_eq!(args, vec!["/C", "start", "", "cmd.exe"]);
        }
        _ => panic!("expected a console window"),
    }
    match plan_launch("PowerShell.exe", false) {
        LaunchPlan::ConsoleWindow { shell, args } => {
            assert_eq!(shell, "cmd");
            assert_eq!(args, vec!["/C", "start", "", "PowerShell.exe"]);
        }
        _ => panic!("expected a console window"),
    }
}

#[test]
fn other_programs_start_directly_or_after_translation() {
    match plan_launch("notepad.exe", true) {
        LaunchPlan::TranslatePath { program } => assert_eq!(program, "notepad.exe"),
        _ => panic!("expected a path translation"),
    }
    match plan_launch("notepad.exe", false) {
        LaunchPlan::Direct { program } => assert_eq!(program, "notepad.exe"),
        _ => panic!("expected a direct start"),
    }
}
