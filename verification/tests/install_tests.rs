use pika_first_setup::install::{
    action_command, reboot_command, ActionKind, ActionLabel, ActionPage, DialogBody, SkipLabel,
    APT_UPDATE_PROG, CODEC_INSTALL_PROG, REBOOT_PROG,
};
use pika_first_setup::navigation::Page;

#[test]
fn action_page_starts_waiting() {
    let p = ActionPage::new(ActionKind::Codecs);
    assert!(!p.action_enabled);
    assert_eq!(p.action_label, ActionLabel::Offer);
    assert!(p.action_suggested);
    assert!(!p.skip_suggested);
    assert_eq!(p.skip_label, SkipLabel::SkipStep);
    assert_eq!(p.dialog_body, DialogBody::Empty);
    assert_eq!(p.log, "");
}

#[test]
fn tick_follows_network_flag() {
    let mut p = ActionPage::new(ActionKind::SystemUpdate);
    p.record_tick(true);
    assert!(p.action_enabled);
    assert_eq!(p.action_label, ActionLabel::Offer);
    p.record_tick(false);
    assert!(!p.action_enabled);
    assert_eq!(p.action_label, ActionLabel::NetworkDisabled);
}

#[test]
fn run_collects_log_and_succeeds() {
    let mut p = ActionPage::new(ActionKind::SystemUpdate);
    p.record_log_line("stale");
    p.record_run_started();
    assert_eq!(p.log, "");
    assert!(!p.dialog_ok_enabled);
    p.record_log_line("Reading package lists...");
    p.record_log_line("Done");
    assert_eq!(p.log, "\nReading package lists...\nDone");
    p.record_run_finished(true);
    assert!(p.dialog_ok_enabled);
    assert_eq!(p.dialog_body, DialogBody::Succeeded);
    assert_eq!(p.skip_label, SkipLabel::Next);
    assert!(p.skip_suggested && !p.action_suggested);
}

#[test]
fn failed_run_suggests_retry() {
    let mut u = ActionPage::new(ActionKind::SystemUpdate);
    u.record_run_started();
    u.record_run_finished(false);
    assert_eq!(u.dialog_body, DialogBody::Failed);
    assert_eq!(u.skip_label, SkipLabel::Skip);
    assert!(u.action_suggested && !u.skip_suggested);
    let mut c = ActionPage::new(ActionKind::Codecs);
    c.record_run_started();
    c.record_run_finished(true);
    c.record_run_started();
    c.record_run_finished(false);
    assert_eq!(c.skip_label, SkipLabel::SkipStep);
    assert!(c.action_suggested);
}

#[test]
fn driver_launch_offers_next() {
    let mut d = ActionPage::new(ActionKind::Drivers);
    d.record_launched();
    assert_eq!(d.skip_label, SkipLabel::Next);
    assert!(d.skip_suggested && !d.action_suggested);
}

#[test]
fn leave_goes_to_following_page() {
    assert_eq!(ActionPage::new(ActionKind::SystemUpdate).leave_target(), Page::Drivers);
    assert_eq!(ActionPage::new(ActionKind::Drivers).leave_target(), Page::Codecs);
    assert_eq!(ActionPage::new(ActionKind::Codecs).leave_target(), Page::GameUtils);
}

#[test]
fn commands_run_the_right_scripts() {
    assert_eq!(action_command(ActionKind::SystemUpdate), vec!["bash", "-c", APT_UPDATE_PROG]);
    assert_eq!(action_command(ActionKind::Codecs), vec!["bash", "-c", CODEC_INSTALL_PROG]);
    assert_eq!(action_command(ActionKind::Drivers), vec!["pika-drivers"]);
    assert_eq!(reboot_command(), vec!["sudo", "bash", "-c", REBOOT_PROG]);
    assert!(APT_UPDATE_PROG.contains("full-upgrade"));
    assert!(CODEC_INSTALL_PROG.contains("pika-codecs-meta"));
}
