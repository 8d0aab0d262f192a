//! How a render process follows the optional settings resources that the
//! logic process mirrors (reflections, ambient occlusion, deferred
//! rendering): each frame it looks at whether the resource is there and
//! whether it changed, applies or removes the matching camera settings, and
//! remembers whether they are applied.
use vstd::prelude::*;

verus! {

/// What a frame does with the settings.
#[derive(PartialEq, Eq, Structural, Debug, Clone, Copy)]
pub enum WatchAction {
    Nothing,
    /// Apply the resource's settings.
    Apply,
    /// Take the settings away again.
    Remove,
}

/// The action of one frame and whether the settings are applied after it.
#[derive(PartialEq, Eq, Structural, Debug, Clone, Copy)]
pub struct WatchStep {
    pub action: WatchAction,
    pub enabled: bool,
}

/// Camera settings follow the resource: applied when it is there and
/// changed, removed once when it goes away.
pub open spec fn camera_setting_spec(was_enabled: bool, present: bool, changed: bool) -> WatchStep {
    if !present {
        if was_enabled {
            WatchStep { action: WatchAction::Remove, enabled: false }
        } else {
            WatchStep { action: WatchAction::Nothing, enabled: false }
        }
    } else if changed {
        WatchStep { action: WatchAction::Apply, enabled: true }
    } else {
        WatchStep { action: WatchAction::Nothing, enabled: was_enabled }
    }
}

/// One frame of a camera setting (screen-space reflections, ambient
/// occlusion).
pub fn camera_setting_step(was_enabled: bool, present: bool, changed: bool) -> (s: WatchStep)
    ensures
        s == camera_setting_spec(was_enabled, present, changed),
{
    if !present {
        if was_enabled {
            return WatchStep { action: WatchAction::Remove, enabled: false };
        }
        return WatchStep { action: WatchAction::Nothing, enabled: false };
    }
    if !changed {
        return WatchStep { action: WatchAction::Nothing, enabled: was_enabled };
    }
    WatchStep { action: WatchAction::Apply, enabled: true }
}

/// Deferred rendering follows the resource: switched on whenever it is
/// there and either changed or not yet on, switched back to forward
/// rendering once when it goes away.
pub open spec fn deferred_spec(was_enabled: bool, present: bool, changed: bool) -> WatchStep {
    if !present {
        if was_enabled {
            WatchStep { action: WatchAction::Remove, enabled: false }
        } else {
            WatchStep { action: WatchAction::Nothing, enabled: false }
        }
    } else if !changed && was_enabled {
        WatchStep { action: WatchAction::Nothing, enabled: true }
    } else {
        WatchStep { action: WatchAction::Apply, enabled: true }
    }
}

/// One frame of the deferred rendering switch.
pub fn deferred_step(was_enabled: bool, present: bool, changed: bool) -> (s: WatchStep)
    ensures
        s == deferred_spec(was_enabled, present, changed),
{
    if !present {
        if was_enabled {
            return WatchStep { action: WatchAction::Remove, enabled: false };
        }
        return WatchStep { action: WatchAction::Nothing, enabled: false };
    }
    if !changed && was_enabled {
        return WatchStep { action: WatchAction::Nothing, enabled: true };
    }
    WatchStep { action: WatchAction::Apply, enabled: true }
}

/// Removal is never repeated: once a frame has taken the settings away,
/// a following frame without the resource does nothing, for camera
/// settings and for deferred rendering alike.
pub proof fn lemma_remove_once(was_enabled: bool, changed1: bool, changed2: bool)
    ensures
        camera_setting_spec(was_enabled, false, changed1).action == WatchAction::Remove
            ==> camera_setting_spec(
            camera_setting_spec(was_enabled, false, changed1).enabled,
            false,
            changed2,
        ).action == WatchAction::Nothing,
        deferred_spec(was_enabled, false, changed1).action == WatchAction::Remove
            ==> deferred_spec(deferred_spec(was_enabled, false, changed1).enabled, false, changed2).action
            == WatchAction::Nothing,
{
}

/// Deferred rendering is on exactly while the resource is there.
pub proof fn lemma_deferred_tracks_presence(was_enabled: bool, present: bool, changed: bool)
    ensures
        deferred_spec(was_enabled, present, changed).enabled == present,
{
}

/// A camera setting is only ever applied while its resource is there.
pub proof fn lemma_camera_setting_needs_resource(was_enabled: bool, present: bool, changed: bool)
    ensures
        camera_setting_spec(was_enabled, present, changed).enabled ==> present,
        camera_setting_spec(was_enabled, present, changed).action == WatchAction::Apply ==> present,
{
}

/// A change is always applied: whenever the resource is there and changed,
/// the frame applies its settings and they are applied afterwards, whether
/// or not they were applied before, for camera settings and for deferred
/// rendering alike.
pub proof fn lemma_changes_are_applied(was_enabled: bool)
    ensures
        camera_setting_spec(was_enabled, true, true) == (WatchStep {
            action: WatchAction::Apply,
            enabled: true,
        }),
        deferred_spec(was_enabled, true, true) == (WatchStep {
            action: WatchAction::Apply,
            enabled: true,
        }),
{
}

} // verus!
