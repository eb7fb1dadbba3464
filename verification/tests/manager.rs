use extension_installer::manager::{detect_manager, install_command, manager_name,
    PackageManager};

#[test]
fn detection_prefers_apt_over_dnf() {
    assert_eq!(detect_manager(true, true, false), PackageManager::Apt);
}

#[test]
fn detection_prefers_apt_over_all() {
    assert_eq!(detect_manager(true, true, true), PackageManager::Apt);
}

#[test]
fn detection_falls_back_to_dnf() {
    assert_eq!(detect_manager(false, true, true), PackageManager::Dnf);
}

#[test]
fn detection_falls_back_to_yum_last() {
    assert_eq!(detect_manager(false, false, true), PackageManager::Yum);
}

#[test]
fn detection_unknown_when_none_launchable() {
    assert_eq!(detect_manager(false, false, false), PackageManager::Unknown);
}

#[test]
fn manager_names_are_the_command_names() {
    assert_eq!(manager_name(PackageManager::Apt), "apt");
    assert_eq!(manager_name(PackageManager::Dnf), "dnf");
    assert_eq!(manager_name(PackageManager::Yum), "yum");
    assert_eq!(manager_name(PackageManager::Unknown), "unknown");
}

#[test]
fn install_command_single_missing_tool() {
    let missing = vec!["ninja-build".to_string()];
    let cmd = install_command(PackageManager::Apt, &missing);
    assert_eq!(
        cmd,
        Some(vec![
            "sudo".to_string(),
            "apt".to_string(),
            "install".to_string(),
            "ninja-build".to_string(),
        ])
    );
}

#[test]
fn install_command_keeps_order_no_extras() {
    let missing = vec!["git".to_string(), "meson".to_string(), "ninja-build".to_string()];
    let cmd = install_command(PackageManager::Dnf, &missing).unwrap();
    assert_eq!(cmd.len(), 3 + missing.len());
    assert_eq!(&cmd[..3], &["sudo".to_string(), "dnf".to_string(), "install".to_string()]);
    assert_eq!(&cmd[3..], &missing[..]);
}

#[test]
fn install_command_yum_variant() {
    let missing = vec!["gnome-extensions".to_string()];
    let cmd = install_command(PackageManager::Yum, &missing).unwrap();
    assert_eq!(
        cmd,
        vec![
            "sudo".to_string(),
            "yum".to_string(),
            "install".to_string(),
            "gnome-extensions".to_string(),
        ]
    );
}

#[test]
fn install_command_none_for_unknown_manager() {
    let missing = vec!["ninja-build".to_string()];
    assert_eq!(install_command(PackageManager::Unknown, &missing), None);
}
