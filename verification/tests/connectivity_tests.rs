use pika_first_setup::connectivity::{
    network_settings_command, probe_command, InternetPage, InternetStatus,
};

#[test]
fn internet_page_starts_checking() {
    let p = InternetPage::new();
    assert_eq!(p.status, InternetStatus::Checking);
    assert!(!p.skip_enabled);
    assert!(!p.next_enabled);
    assert!(!p.connected);
}

#[test]
fn probe_results_switch_buttons() {
    let mut p = InternetPage::new();
    p.record_probe(false);
    assert_eq!(p.status, InternetStatus::Offline);
    assert!(p.skip_enabled && !p.next_enabled && !p.connected);
    p.record_probe(true);
    assert_eq!(p.status, InternetStatus::Connected);
    assert!(!p.skip_enabled && p.next_enabled && p.connected);
}

#[test]
fn probe_pings_package_host_once() {
    assert_eq!(probe_command(), vec!["ping", "ppa.pika-os.com", "-c 1"]);
}

#[test]
fn network_settings_follow_session() {
    assert_eq!(network_settings_command("gnome"), vec!["gnome-control-center", "network"]);
    assert_eq!(network_settings_command("ubuntu-xorg"), vec!["gnome-control-center", "network"]);
    assert_eq!(network_settings_command("KDE"), vec!["nm-connection-editor"]);
    assert_eq!(network_settings_command("GNOME"), vec!["nm-connection-editor"]);
}
