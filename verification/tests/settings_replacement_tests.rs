use lumicontrol::ipc::IpcErrorCode;
use lumicontrol::runtime::{
    begin_settings_replacement, next_settings_step, SettingsAction, SettingsEvent,
    SettingsReplacement, SystemEvent, system_event_of_message,
};

fn failure(action: SettingsAction) -> (IpcErrorCode, String) {
    match action {
        SettingsAction::Fail(error) => (error.code, error.message),
        other => panic!("expected a refusal, got {:?}", other),
    }
}

#[test]
fn unchanged_startup_goes_straight_to_saving() {
    let (state, action) = begin_settings_replacement(true, true);
    assert_eq!(state, SettingsReplacement::Saving { changed: false, previous: true });
    assert!(matches!(action, SettingsAction::Save));
    let (state, action) = next_settings_step(state, SettingsEvent::Saved(Ok(())));
    assert_eq!(state, SettingsReplacement::Finished);
    assert!(matches!(action, SettingsAction::Apply));
}

#[test]
fn changed_startup_is_registered_then_saved() {
    let (state, action) = begin_settings_replacement(false, true);
    assert!(matches!(action, SettingsAction::SetStartup(true)));
    let (state, action) = next_settings_step(state, SettingsEvent::StartupSet(Ok(())));
    assert_eq!(state, SettingsReplacement::Saving { changed: true, previous: false });
    assert!(matches!(action, SettingsAction::Save));
}

#[test]
fn a_failed_save_rolls_startup_back() {
    let state = SettingsReplacement::Saving { changed: true, previous: false };
    let (state, action) = next_settings_step(state, SettingsEvent::Saved(Err("disk full".to_string())));
    assert!(matches!(action, SettingsAction::SetStartup(false)));
    let (_, action) = next_settings_step(state.clone(), SettingsEvent::RolledBack(Ok(())));
    assert_eq!(failure(action), (IpcErrorCode::Internal, "disk full".to_string()));
    let (_, action) = next_settings_step(state, SettingsEvent::RolledBack(Err("denied".to_string())));
    assert_eq!(
        failure(action),
        (IpcErrorCode::Internal, "disk full; startup rollback also failed: denied".to_string())
    );
}

#[test]
fn failed_registration_and_unswitched_saves_are_refused() {
    let (_, action) = next_settings_step(
        SettingsReplacement::Registering { previous: false },
        SettingsEvent::StartupSet(Err("access denied".to_string())),
    );
    assert_eq!(
        failure(action),
        (IpcErrorCode::Internal, "Could not update start at login: access denied".to_string())
    );
    let (_, action) = next_settings_step(
        SettingsReplacement::Saving { changed: false, previous: true },
        SettingsEvent::Saved(Err("disk full".to_string())),
    );
    assert_eq!(failure(action), (IpcErrorCode::Internal, "disk full".to_string()));
}

#[test]
fn window_messages_map_to_system_events() {
    use_system_events();
}

fn use_system_events() {
    assert_eq!(system_event_of_message(0x007e, 9), Some((SystemEvent::DisplayChanged, 0)));
    assert_eq!(system_event_of_message(0x0218, 0x0004), Some((SystemEvent::Suspend, 1)));
    assert_eq!(system_event_of_message(0x0218, 0x0006), Some((SystemEvent::Resume, 1)));
    assert_eq!(system_event_of_message(0x0218, 0x0007), Some((SystemEvent::Resume, 1)));
    assert_eq!(system_event_of_message(0x0218, 0x0012), Some((SystemEvent::Resume, 1)));
    assert_eq!(system_event_of_message(0x0218, 0x000a), None);
    assert_eq!(system_event_of_message(0x0010, 0x0004), None);
}
