use ashpd::flatpak::CreateMonitorOptions;
use ashpd::flatpak::FlatpakMethod;
use ashpd::flatpak::SpawnOptions;
use ashpd::flatpak::SANDBOX_FLAG_A11Y_BUS;
use ashpd::flatpak::SANDBOX_FLAG_SESSION_BUS;
use ashpd::flatpak::SANDBOX_FLAG_SHARE_DISPLAY;
use ashpd::flatpak::SANDBOX_FLAG_SHARE_GPU;
use ashpd::flatpak::SANDBOX_FLAG_SHARE_SOUND;
use ashpd::flatpak::SUPPORTS_EXPOSE_PIDS;

#[test]
fn sandbox_flag_bits_match_the_published_specification() {
    assert_eq!(SANDBOX_FLAG_SHARE_DISPLAY, 1);
    assert_eq!(SANDBOX_FLAG_SHARE_SOUND, 2);
    assert_eq!(SANDBOX_FLAG_SHARE_GPU, 4);
    assert_eq!(SANDBOX_FLAG_SESSION_BUS, 8);
    assert_eq!(SANDBOX_FLAG_A11Y_BUS, 16);
    assert_eq!(SUPPORTS_EXPOSE_PIDS, 1);
}

#[test]
fn spawn_options_carry_their_fields() {
    let options = SpawnOptions {
        sandbox_expose_fd: vec![3, 4],
        sandbox_expose_fd_ro: vec![5],
        sandbox_flags: Some(SANDBOX_FLAG_SHARE_DISPLAY | SANDBOX_FLAG_SHARE_GPU),
    };
    assert_eq!(options.sandbox_expose_fd, vec![3, 4]);
    assert_eq!(options.sandbox_expose_fd_ro, vec![5]);
    assert_eq!(options.sandbox_flags, Some(5));
}

#[test]
fn create_monitor_options_declare_no_fields() {
    let options = CreateMonitorOptions {};
    assert_eq!(format!("{:?}", options), "CreateMonitorOptions");
}

#[test]
fn flatpak_interface_names_match_the_published_specification() {
    assert_eq!(
        FlatpakMethod::interface_name(),
        "org.freedesktop.portal.Flatpak"
    );
    assert_eq!(
        FlatpakMethod::service_name(),
        "org.freedesktop.portal.Flatpak"
    );
    assert_eq!(
        FlatpakMethod::object_path(),
        "/org/freedesktop/portal/Flatpak"
    );
}

#[test]
fn flatpak_method_names_and_signatures_match_the_published_specification() {
    assert_eq!(
        FlatpakMethod::CreateUpdateMonitor.wire_name(),
        "CreateUpdateMonitor"
    );
    assert_eq!(FlatpakMethod::Spawn.wire_name(), "Spawn");
    assert_eq!(FlatpakMethod::SpawnSignal.wire_name(), "SpawnSignal");
    assert_eq!(FlatpakMethod::CreateUpdateMonitor.args_signature(), "a{sv}");
    assert_eq!(
        FlatpakMethod::Spawn.args_signature(),
        "ayaaya{uh}a{ss}ua{sv}"
    );
    assert_eq!(FlatpakMethod::SpawnSignal.args_signature(), "uub");
    assert_eq!(FlatpakMethod::CreateUpdateMonitor.reply_signature(), "o");
    assert_eq!(FlatpakMethod::Spawn.reply_signature(), "u");
    assert_eq!(FlatpakMethod::SpawnSignal.reply_signature(), "");
}
