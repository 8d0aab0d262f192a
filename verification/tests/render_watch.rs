use tephrite_rs::render_watch::{camera_setting_step, deferred_step, WatchAction, WatchStep};

fn step(action: WatchAction, enabled: bool) -> WatchStep {
    WatchStep { action, enabled }
}

#[test]
fn camera_settings_follow_the_resource() {
    // appears (changed): applied
    assert_eq!(camera_setting_step(false, true, true), step(WatchAction::Apply, true));
    // unchanged: nothing
    assert_eq!(camera_setting_step(true, true, false), step(WatchAction::Nothing, true));
    assert_eq!(camera_setting_step(false, true, false), step(WatchAction::Nothing, false));
    // goes away: removed once
    assert_eq!(camera_setting_step(true, false, false), step(WatchAction::Remove, false));
    assert_eq!(camera_setting_step(false, false, true), step(WatchAction::Nothing, false));
}

#[test]
fn deferred_rendering_switches_on_while_present() {
    assert_eq!(deferred_step(false, true, false), step(WatchAction::Apply, true));
    assert_eq!(deferred_step(true, true, false), step(WatchAction::Nothing, true));
    assert_eq!(deferred_step(true, true, true), step(WatchAction::Apply, true));
    assert_eq!(deferred_step(true, false, false), step(WatchAction::Remove, false));
    assert_eq!(deferred_step(false, false, false), step(WatchAction::Nothing, false));
}

#[test]
fn removal_is_not_repeated() {
    let first = camera_setting_step(true, false, false);
    assert_eq!(first.action, WatchAction::Remove);
    assert_eq!(camera_setting_step(first.enabled, false, false).action, WatchAction::Nothing);
    let first = deferred_step(true, false, true);
    assert_eq!(first.action, WatchAction::Remove);
    assert_eq!(deferred_step(first.enabled, false, true).action, WatchAction::Nothing);
}
