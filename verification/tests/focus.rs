use codex_usage_dock::focus::{
    focus_for, focus_of, is_codex_names, is_codex_window, is_own_names, is_own_window, ForegroundWindow,
};
use codex_usage_dock::layout::Focus;

fn active(app_name: &str, process: &str) -> ForegroundWindow {
    ForegroundWindow { app_name: app_name.into(), process_path: process.to_string() }
}

#[test]
fn recognizes_current_and_future_codex_process_names() {
    assert!(is_codex_window(&active("ChatGPT", "/Applications/ChatGPT")));
    assert!(is_codex_window(&active("Codex", "C:\\Program Files\\Codex.exe")));
    assert!(!is_codex_window(&active("Safari", "/Applications/Safari")));
}

#[test]
fn does_not_misclassify_the_dock_as_codex() {
    let dock = active("Codex Usage Dock", "/Applications/Codex Usage Dock");
    assert!(is_own_window(&dock));
    assert!(!is_codex_window(&dock));
}

#[test]
fn app_names_are_trimmed_and_lowercased() {
    assert!(is_codex_names("  CODEX\t\n", ""));
    assert!(is_codex_names("\u{a0}ChatGPT\u{3000}", ""));
    assert!(!is_codex_names("Codex Helper", ""));
    assert!(is_own_names(" codex USAGE dock ", ""));
}

#[test]
fn process_stems_are_lowercased_but_not_trimmed() {
    assert!(is_codex_names("Terminal", "ChatGPT"));
    assert!(is_codex_names("", "CODEX"));
    assert!(!is_codex_names("", " codex"));
    assert!(is_own_names("", "Codex-Usage-Dock"));
    assert!(is_own_names("", "codex_usage_dock"));
    assert!(!is_own_names("", "codex usage dock"));
}

#[test]
fn the_process_path_stem_decides_when_the_name_does_not() {
    assert!(is_codex_window(&active("Electron", "/Applications/Codex.app/Contents/MacOS/Codex")));
    assert!(is_codex_window(&active("", "/opt/openai/chatgpt.bin")));
    assert!(is_own_window(&active("", "/usr/local/bin/codex-usage-dock")));
    assert!(!is_own_window(&active("Codex", "/usr/bin/codex")));
    assert!(!is_codex_window(&active("", "/")));
}

#[test]
fn the_dock_is_recognized_before_codex() {
    let bounds = (1, 2, 3, 4);
    assert_eq!(focus_of(&active("Codex Usage Dock", "/usr/bin/codex"), bounds), Focus::OwnPanel);
    assert_eq!(focus_of(&active("Codex", "/usr/bin/codex"), bounds), Focus::Codex(bounds));
    assert_eq!(focus_of(&active("Safari", "/Applications/Safari"), bounds), Focus::Elsewhere);
}

#[test]
fn the_dock_process_wins_over_a_codex_app_name() {
    let bounds = (5, 6, 7, 8);
    assert_eq!(focus_for("Codex", "codex-usage-dock", bounds), Focus::OwnPanel);
    assert_eq!(focus_for("ChatGPT", "Codex_Usage_Dock", bounds), Focus::OwnPanel);
    assert_eq!(focus_for("Codex", "codex", bounds), Focus::Codex(bounds));
    assert_eq!(focus_for("Finder", "finder", bounds), Focus::Elsewhere);
    assert_eq!(
        focus_of(&active("Codex", "/Applications/Codex Usage Dock.app/Contents/MacOS/codex-usage-dock"), bounds),
        Focus::OwnPanel
    );
}

#[test]
fn the_stem_follows_path_rules() {
    assert!(is_codex_window(&active("", "/usr/bin/codex.")));
    assert!(is_codex_window(&active("", "/usr/bin/codex/")));
    assert!(is_codex_window(&active("", "/usr/bin/codex/.")));
    assert!(is_codex_window(&active("", "/usr//bin//chatgpt.exe")));
    assert!(is_codex_window(&active("", "codex")));
    assert!(!is_codex_window(&active("", "/usr/bin/codex/..")));
    assert!(!is_codex_window(&active("", "/usr/bin/.codex")));
    assert!(!is_codex_window(&active("", "/usr/bin/codex.tar.gz")));
    assert!(!is_codex_window(&active("", "")));
    assert!(is_own_window(&active("", "/Applications/x.app/codex_usage_dock.bin")));
}
