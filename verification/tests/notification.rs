use win_acapture_rs::event_args::{
    DeviceState, DeviceStateChangedEventArgs, SessionDisconnectReason, SessionDisconnectedArgs,
    SessionState, StateChangedArgs, DEVICE_STATEMASK_ALL, DEVICE_STATE_UNPLUGGED,
};
use win_acapture_rs::manager::PlatformError;
use win_acapture_rs::notifications::{
    interpret_register_response, interpret_unregister_response, NotificationError, Notifications,
};
use win_acapture_rs::session_notification::{
    session_notification_thread, thread_inner, LoopResult, NotificationRegistry, SessionCreated,
    SessionNotificationCommand, SessionNotificationMessage,
};

#[test]
fn session_event_registered_once_only() {
    let mut n = Notifications::new();
    assert_eq!(n.register_session_event(String::from("session-a"), Ok(())), Ok(()));
    // The same session id again: refused, and the boundary is never
    // asked to duplicate the underlying registration.
    assert_eq!(
        n.register_session_event(String::from("session-a"), Ok(())),
        Err(NotificationError::NotificationAlreadyRegistered)
    );
    assert!(n.session_event_is_registered(&String::from("session-a")));
    assert_eq!(n.register_session_event(String::from("session-b"), Ok(())), Ok(()));
}

#[test]
fn session_event_setup_failure_records_nothing() {
    let mut n = Notifications::new();
    let e = PlatformError { code: -7 };
    assert_eq!(
        n.register_session_event(String::from("session-a"), Err(e)),
        Err(NotificationError::FailedSettingUpNotification(e))
    );
    assert!(!n.session_event_is_registered(&String::from("session-a")));
}

#[test]
fn session_event_unregister_paths() {
    let mut n = Notifications::new();
    n.register_session_event(String::from("session-a"), Ok(())).unwrap();
    // Unknown id: a quiet success.
    assert_eq!(n.unregister_session_event(&String::from("unknown"), Ok(())), Ok(()));
    // Known id with failing platform teardown: the record is gone and
    // the failure reported.
    let e = PlatformError { code: -3 };
    assert_eq!(
        n.unregister_session_event(&String::from("session-a"), Err(e)),
        Err(NotificationError::NotificationUnregisterError(e))
    );
    assert!(!n.session_event_is_registered(&String::from("session-a")));
    // Registering again afterwards works.
    assert_eq!(n.register_session_event(String::from("session-a"), Ok(())), Ok(()));
}

#[test]
fn device_notification_registered_once_only() {
    let mut n = Notifications::new();
    assert_eq!(n.register_device_notification(Ok(()), Ok(())), Ok(()));
    assert_eq!(
        n.register_device_notification(Ok(()), Ok(())),
        Err(NotificationError::NotificationAlreadyRegistered)
    );
    assert_eq!(n.unregister_device_notification(Ok(())), Ok(()));
    assert_eq!(n.register_device_notification(Ok(()), Ok(())), Ok(()));
}

#[test]
fn device_notification_setup_failures() {
    let mut n = Notifications::new();
    let e = PlatformError { code: -5 };
    assert_eq!(
        n.register_device_notification(Err(e), Ok(())),
        Err(NotificationError::InstanceCreationError(e))
    );
    assert_eq!(
        n.register_device_notification(Ok(()), Err(e)),
        Err(NotificationError::NotificationRegisterError(e))
    );
    assert_eq!(n.unregister_device_notification(Ok(())), Ok(()));
}

#[test]
fn worker_lifecycle_flag() {
    let mut n = Notifications::new();
    assert!(!n.worker_is_running());
    assert_eq!(
        n.note_worker_started(false),
        Err(NotificationError::FailedStartingNotificationThread)
    );
    assert_eq!(n.note_worker_started(true), Ok(()));
    assert!(n.worker_is_running());
    n.note_worker_stopped();
    assert!(!n.worker_is_running());
}

#[test]
fn worker_register_and_lookup() {
    let mut registry = NotificationRegistry::new();
    let cmd = SessionNotificationCommand::RegisterNotification {
        device_id: String::from("dev-1"),
        token: 11,
    };
    let step = thread_inner(&mut registry, cmd, Ok(()));
    assert!(matches!(
        step.response,
        Some(SessionNotificationMessage::NotificationRegistered)
    ));
    assert_eq!(step.result, LoopResult::Continue);
    assert_eq!(registry.lookup(&String::from("dev-1")), Some(11));
    assert_eq!(registry.len(), 1);
    // Registering the same device again replaces the stored token.
    let again = SessionNotificationCommand::RegisterNotification {
        device_id: String::from("dev-1"),
        token: 12,
    };
    let step = thread_inner(&mut registry, again, Ok(()));
    assert!(matches!(
        step.response,
        Some(SessionNotificationMessage::NotificationRegistered)
    ));
    assert_eq!(registry.len(), 1);
    assert_eq!(registry.lookup(&String::from("dev-1")), Some(12));
}

#[test]
fn worker_register_failure_is_fail_stop() {
    let mut registry = NotificationRegistry::new();
    let cmd = SessionNotificationCommand::RegisterNotification {
        device_id: String::from("dev-1"),
        token: 11,
    };
    let e = NotificationError::FailedActivatingSessionManager(PlatformError { code: -9 });
    let step = thread_inner(&mut registry, cmd, Err(e.clone()));
    match step.response {
        Some(SessionNotificationMessage::Error(got)) => assert_eq!(got, e),
        other => panic!("unexpected worker response: {:?}", other),
    }
    assert_eq!(step.result, LoopResult::Stop);
    assert_eq!(registry.len(), 0);
}

#[test]
fn worker_unregister_unknown_is_silent() {
    let mut registry = NotificationRegistry::new();
    let cmd = SessionNotificationCommand::UnregisterNotification {
        device_id: String::from("never-registered"),
    };
    let step = thread_inner(&mut registry, cmd, Ok(()));
    assert!(step.response.is_none());
    assert_eq!(step.result, LoopResult::Continue);
}

#[test]
fn worker_unregister_known_device() {
    let mut registry = NotificationRegistry::new();
    let reg = SessionNotificationCommand::RegisterNotification {
        device_id: String::from("dev-1"),
        token: 11,
    };
    thread_inner(&mut registry, reg, Ok(()));
    let unreg = SessionNotificationCommand::UnregisterNotification {
        device_id: String::from("dev-1"),
    };
    let step = thread_inner(&mut registry, unreg, Ok(()));
    assert!(matches!(
        step.response,
        Some(SessionNotificationMessage::NotificationUnregistered)
    ));
    assert_eq!(step.result, LoopResult::Continue);
    assert_eq!(registry.lookup(&String::from("dev-1")), None);
    assert_eq!(registry.len(), 0);
}

#[test]
fn worker_stop_unregisters_everything_and_exits() {
    let mut registry = NotificationRegistry::new();
    for (id, token) in [("dev-1", 1u64), ("dev-2", 2), ("dev-3", 3)] {
        let cmd = SessionNotificationCommand::RegisterNotification {
            device_id: String::from(id),
            token,
        };
        thread_inner(&mut registry, cmd, Ok(()));
    }
    assert_eq!(registry.len(), 3);
    assert_eq!(registry.tokens(), vec![1, 2, 3]);
    let step = thread_inner(&mut registry, SessionNotificationCommand::Stop, Ok(()));
    assert!(matches!(step.response, Some(SessionNotificationMessage::Stopped)));
    assert_eq!(step.result, LoopResult::Stop);
    assert_eq!(registry.len(), 0);
}

#[test]
fn worker_thread_script_run() {
    let script = vec![
        (
            SessionNotificationCommand::RegisterNotification {
                device_id: String::from("dev-1"),
                token: 1,
            },
            Ok(()),
        ),
        (
            SessionNotificationCommand::RegisterNotification {
                device_id: String::from("dev-2"),
                token: 2,
            },
            Ok(()),
        ),
        (SessionNotificationCommand::Stop, Ok(())),
        (
            // Never looked at: the worker exited on Stop.
            SessionNotificationCommand::UnregisterNotification {
                device_id: String::from("dev-1"),
            },
            Ok(()),
        ),
    ];
    let (responses, registry) = session_notification_thread(script);
    assert_eq!(responses.len(), 4);
    assert!(matches!(responses[0], SessionNotificationMessage::Ready));
    assert!(matches!(responses[1], SessionNotificationMessage::NotificationRegistered));
    assert!(matches!(responses[2], SessionNotificationMessage::NotificationRegistered));
    assert!(matches!(responses[3], SessionNotificationMessage::Stopped));
    assert_eq!(registry.len(), 0);
}

#[test]
fn register_response_reading() {
    assert_eq!(
        interpret_register_response(Some(SessionNotificationMessage::NotificationRegistered)),
        Ok(())
    );
    assert_eq!(
        interpret_register_response(Some(SessionNotificationMessage::Stopped)),
        Err(NotificationError::FailedRegisteringSessionNotification)
    );
    assert_eq!(
        interpret_register_response(None),
        Err(NotificationError::FailedRegisteringSessionNotification)
    );
    assert_eq!(
        interpret_unregister_response(Some(
            SessionNotificationMessage::NotificationUnregistered
        )),
        Ok(())
    );
    assert_eq!(
        interpret_unregister_response(None),
        Err(NotificationError::FailedUnregisteringSessionNotification)
    );
}

#[test]
fn session_created_carries_name() {
    let created = SessionCreated(String::from("session-id"));
    assert_eq!(created.get_name(), "session-id");
}

#[test]
fn session_state_from_discriminant() {
    let args = StateChangedArgs { new_state: 1 };
    assert_eq!(args.get_state(), SessionState::AudioSessionStateActive);
    let args = StateChangedArgs { new_state: 0 };
    assert_eq!(args.get_state(), SessionState::AudioSessionStateInactive);
    let args = StateChangedArgs { new_state: 2 };
    assert_eq!(args.get_state(), SessionState::AudioSessionStateExpired);
}

#[test]
fn disconnect_reason_from_discriminant() {
    let args = SessionDisconnectedArgs { disconnect_reason: 0 };
    assert_eq!(args.get_reason(), SessionDisconnectReason::DisconnectReasonDeviceRemoval);
    let args = SessionDisconnectedArgs { disconnect_reason: 5 };
    assert_eq!(
        args.get_reason(),
        SessionDisconnectReason::DisconnectReasonExclusiveModeOverride
    );
}

#[test]
fn device_state_from_mask() {
    let args = DeviceStateChangedEventArgs {
        device_id: String::from("dev"),
        new_state: DEVICE_STATE_UNPLUGGED,
    };
    assert_eq!(args.get_state(), DeviceState::Unplugged);
    assert_eq!(args.get_device_id().unwrap(), "dev");
    assert_eq!(DeviceState::from_raw(DEVICE_STATEMASK_ALL), DeviceState::All);
    assert_eq!(DeviceState::from_raw(1), DeviceState::Active);
}
