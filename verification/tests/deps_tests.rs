use radio_tui::deps::{install_command, install_confirmed, package_managers};

/// Whether `name` is installed in one of the usual program directories.
fn on_path(name: &str) -> bool {
    ["/usr/local/sbin", "/usr/local/bin", "/usr/sbin", "/usr/bin", "/sbin", "/bin"]
        .iter()
        .any(|dir| std::path::Path::new(dir).join(name).is_file())
}

#[test]
fn install_command_is_detected_on_this_machine() {
    let found: Vec<bool> = package_managers().iter().map(|name| on_path(name)).collect();
    assert!(install_command(&found).is_some());
}

#[test]
fn install_command_prefers_the_first_manager_found() {
    let cmd = install_command(&vec![false, true, true, false, false]).unwrap();
    assert_eq!(cmd.0, "sudo");
    assert_eq!(cmd.1, vec!["apt", "install", "mpv"]);
    let cmd = install_command(&vec![false, false, false, false, true]).unwrap();
    assert_eq!(cmd.1, vec!["apk", "add", "mpv"]);
    assert!(install_command(&vec![false; 5]).is_none());
    assert!(install_command(&vec![]).is_none());
}

#[test]
fn install_answer_defaults_to_yes() {
    assert!(install_confirmed(""));
    assert!(install_confirmed("\n"));
    assert!(install_confirmed("  \t"));
    assert!(install_confirmed("y"));
    assert!(install_confirmed("Y\n"));
    assert!(install_confirmed("yes"));
    assert!(install_confirmed(" YeS "));
    assert!(!install_confirmed("n"));
    assert!(!install_confirmed("no"));
    assert!(!install_confirmed("yess"));
    assert!(!install_confirmed("ye"));
    assert!(!install_confirmed("ja"));
}
