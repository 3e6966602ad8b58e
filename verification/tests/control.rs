use gestro::control::{
    autostart_change, keeps_running, menu_action, replay_poll, replay_waits, ReplayPoll,
    TrayAction, REPLAYED_EVENTS, REPLAY_POLLS,
};

#[test]
fn tray_menu_entries() {
    assert_eq!(menu_action("settings"), Some(TrayAction::OpenSettings));
    assert_eq!(menu_action("quit"), Some(TrayAction::Quit));
    assert_eq!(menu_action("Quit"), None);
    assert_eq!(menu_action(""), None);
}

#[test]
fn autostart_changes_only_when_the_setting_changes() {
    assert_eq!(autostart_change(false, true), Some(true));
    assert_eq!(autostart_change(true, false), Some(false));
    assert_eq!(autostart_change(true, true), None);
    assert_eq!(autostart_change(false, false), None);
}

#[test]
fn window_close_keeps_the_app_running() {
    assert!(keeps_running(None));
    assert!(!keeps_running(Some(0)));
}

#[test]
fn replay_waits_for_its_events_a_bounded_time() {
    assert_eq!(REPLAYED_EVENTS, 2);
    assert_eq!(REPLAY_POLLS, 20);
    assert!(replay_waits(true, true));
    assert!(!replay_waits(false, true));
    assert!(!replay_waits(true, false));
    assert_eq!(replay_poll(0, 0), ReplayPoll::Finished);
    assert_eq!(replay_poll(0, 2), ReplayPoll::WaitAgain);
    assert_eq!(replay_poll(19, 1), ReplayPoll::WaitAgain);
    assert_eq!(replay_poll(20, 1), ReplayPoll::GiveUp);
    assert_eq!(replay_poll(20, 0), ReplayPoll::Finished);
}
