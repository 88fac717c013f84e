//! Registration state for session and device notifications: which
//! session ids have an event sink, whether the process-wide device
//! notification client is installed, and how the answers of the
//! session-notification worker are read.
//!
//! The platform sink objects, the COM registration calls and the
//! worker thread's channels live at the operating-system boundary.
//! The boundary consults this state before it touches the platform —
//! a sink is set up only for a session not yet registered — and hands
//! each platform outcome in, so that every decision about the state
//! is verified here.

use vstd::prelude::*;

use crate::manager::{AudioError, PlatformError};
use crate::session_notification::{MessageKind, SessionNotificationMessage};
use crate::strutil;

verus! {

/// What went wrong while registering or unregistering
/// notifications.
#[derive(Clone, Debug, PartialEq, Eq, Structural)]
pub enum NotificationError {
    InstanceCreationError(PlatformError),
    NotificationAlreadyRegistered,
    NotificationRegisterError(PlatformError),
    NotificationUnregisterError(PlatformError),
    PCWSTRConversionError,
    SessionManagerActivationError(PlatformError),
    FailedSettingUpNotification(PlatformError),
    FailedEnumeratingDevices(AudioError),
    FailedActivatingSessionManager(PlatformError),
    FailedGettingDeviceId(PlatformError),
    FailedStartingNotificationThread,
    FailedRegisteringSessionNotification,
    FailedUnregisteringSessionNotification,
    SessionNotificationThreadNotRunning,
}

/// The registration state one `Notifications` value owns: the ids of
/// the sessions with an event sink, and whether the device
/// notification client is installed. The worker thread's own table
/// is the worker's; this only remembers whether the worker was
/// started.
#[derive(Debug)]
pub struct Notifications {
    session_event_ids: Vec<String>,
    device_notification_registered: bool,
    worker_running: bool,
}

/// What a `Notifications` holds, as mathematical values.
pub struct NotificationsView {
    pub session_event_ids: Seq<Seq<char>>,
    pub device_notification_registered: bool,
    pub worker_running: bool,
}

impl View for Notifications {
    type V = NotificationsView;

    closed spec fn view(&self) -> NotificationsView {
        NotificationsView {
            session_event_ids: self.session_event_ids.deep_view(),
            device_notification_registered: self.device_notification_registered,
            worker_running: self.worker_running,
        }
    }
}

impl Notifications {
    /// A session id is registered when it occurs in the list.
    pub open spec fn spec_session_event_registered(self, name: Seq<char>) -> bool {
        exists|i: int|
            0 <= i < self@.session_event_ids.len() && #[trigger] self@.session_event_ids[i]
                == name
    }

    /// Each session id is recorded at most once.
    pub open spec fn wf(self) -> bool {
        forall|i: int, j: int|
            0 <= i < j < self@.session_event_ids.len() ==> #[trigger] self@.session_event_ids[i]
                != #[trigger] self@.session_event_ids[j]
    }

    /// No sinks installed, no worker started.
    pub fn new() -> (r: Notifications)
        ensures
            r@.session_event_ids =~= Seq::<Seq<char>>::empty(),
            !r@.device_notification_registered,
            !r@.worker_running,
            r.wf(),
    {
        Notifications {
            session_event_ids: Vec::new(),
            device_notification_registered: false,
            worker_running: false,
        }
    }

    /// Whether a session id already has an event sink: the guard the
    /// boundary consults before building one.
    pub fn session_event_is_registered(&self, name: &String) -> (r: bool)
        ensures
            r == self.spec_session_event_registered(name@),
    {
        proof {
            assert forall|k: int| 0 <= k < self@.session_event_ids.len() implies #[trigger] self@.session_event_ids[k] == self.session_event_ids@[k]@ by {}
        }
        match strutil::vec_find_string(&self.session_event_ids, name) {
            Some(i) => {
                proof {
                    assert(self@.session_event_ids[i as int] == name@);
                }
                true
            },
            None => false,
        }
    }

    /// Records a session event sink. A session id already registered
    /// is answered `NotificationAlreadyRegistered` and nothing
    /// changes — the underlying registration is never duplicated.
    /// Otherwise `setup` is the platform's answer to registering the
    /// sink: a failure is passed on unchanged, success adds the id.
    pub fn register_session_event(&mut self, session_name: String, setup: Result<
        (),
        PlatformError,
    >) -> (r: Result<(), NotificationError>)
        requires
            old(self).wf(),
        ensures
            final(self).wf(),
            final(self)@.device_notification_registered == old(self)@.device_notification_registered,
            final(self)@.worker_running == old(self)@.worker_running,
            if old(self).spec_session_event_registered(session_name@) {
                &&& r == Err::<(), NotificationError>(
                    NotificationError::NotificationAlreadyRegistered,
                )
                &&& final(self)@.session_event_ids =~= old(self)@.session_event_ids
            } else {
                match setup {
                    Ok(_) => r == Ok::<(), NotificationError>(()) && final(self)@.session_event_ids =~= old(self)@.session_event_ids.push(session_name@),
                    Err(e) => r == Err::<(), NotificationError>(
                        NotificationError::FailedSettingUpNotification(e),
                    ) && final(self)@.session_event_ids =~= old(self)@.session_event_ids,
                }
            },
    {
        if self.session_event_is_registered(&session_name) {
            return Err(NotificationError::NotificationAlreadyRegistered);
        }
        match setup {
            Ok(_) => {
                let ghost name_view = session_name@;
                self.session_event_ids.push(session_name);
                proof {
                    let oldd = old(self)@.session_event_ids;
                    let newd = self@.session_event_ids;
                    assert forall|k: int| 0 <= k < newd.len() implies #[trigger] newd[k] == oldd.push(name_view)[k] by {
                        assert(newd[k] == self.session_event_ids@[k]@);
                        if k < oldd.len() {
                            assert(self.session_event_ids@[k] == old(self).session_event_ids@[k]);
                            assert(oldd[k] == old(self).session_event_ids@[k]@);
                        }
                    }
                    assert(newd =~= oldd.push(name_view));
                    assert forall|a: int, b: int|
                        0 <= a < b < newd.len() implies #[trigger] newd[a] != #[trigger] newd[b] by {
                        if b == oldd.len() {
                            assert(newd[b] == name_view);
                        }
                    }
                }
                Ok(())
            },
            Err(e) => Err(NotificationError::FailedSettingUpNotification(e)),
        }
    }

    /// Removes a session event sink's record. An id never registered
    /// is a quiet success; for a registered one, `teardown` is the
    /// platform's answer to unregistering the sink — the record is
    /// dropped first either way, so a failing teardown is reported
    /// with the entry already gone.
    pub fn unregister_session_event(&mut self, name: &String, teardown: Result<
        (),
        PlatformError,
    >) -> (r: Result<(), NotificationError>)
        requires
            old(self).wf(),
        ensures
            final(self).wf(),
            final(self)@.device_notification_registered == old(self)@.device_notification_registered,
            final(self)@.worker_running == old(self)@.worker_running,
            !final(self).spec_session_event_registered(name@),
            if !old(self).spec_session_event_registered(name@) {
                r == Ok::<(), NotificationError>(()) && final(self)@.session_event_ids =~= old(self)@.session_event_ids
            } else {
                &&& (exists|i: int|
                    0 <= i < old(self)@.session_event_ids.len() && #[trigger] old(self)@.session_event_ids[i] == name@ && final(self)@.session_event_ids =~= old(self)@.session_event_ids.remove(i))
                &&& match teardown {
                    Ok(_) => r == Ok::<(), NotificationError>(()),
                    Err(e) => r == Err::<(), NotificationError>(
                        NotificationError::NotificationUnregisterError(e),
                    ),
                }
            },
    {
        match strutil::vec_find_string(&self.session_event_ids, name) {
            None => Ok(()),
            Some(i) => {
                self.session_event_ids.remove(i);
                proof {
                    let oldd = old(self)@.session_event_ids;
                    let newd = self@.session_event_ids;
                    assert forall|k: int| 0 <= k < newd.len() implies #[trigger] newd[k] == oldd.remove(i as int)[k] by {
                        assert(newd[k] == self.session_event_ids@[k]@);
                        if k < i {
                            assert(self.session_event_ids@[k] == old(self).session_event_ids@[k]);
                            assert(oldd[k] == old(self).session_event_ids@[k]@);
                        } else {
                            assert(self.session_event_ids@[k] == old(self).session_event_ids@[k + 1]);
                            assert(oldd[k + 1] == old(self).session_event_ids@[k + 1]@);
                        }
                    }
                    assert(newd =~= oldd.remove(i as int));
                    assert forall|k: int| 0 <= k < oldd.len() implies #[trigger] oldd[k] == old(self).session_event_ids@[k]@ by {}
                    assert(oldd[i as int] == name@);
                    assert forall|a: int, b: int|
                        0 <= a < b < newd.len() implies #[trigger] newd[a] != #[trigger] newd[b] by {
                        if b < i {
                        } else if a < i {
                            assert(newd[b] == oldd[b + 1]);
                        } else {
                            assert(newd[a] == oldd[a + 1]);
                            assert(newd[b] == oldd[b + 1]);
                        }
                    }
                    assert forall|a: int|
                        0 <= a < newd.len() implies #[trigger] newd[a] != name@ by {
                        if a < i {
                            assert(newd[a] == oldd[a]);
                        } else {
                            assert(newd[a] == oldd[a + 1]);
                            assert(oldd[a + 1] != oldd[i as int]);
                        }
                    }
                }
                match teardown {
                    Ok(_) => Ok(()),
                    Err(e) => Err(NotificationError::NotificationUnregisterError(e)),
                }
            },
        }
    }

    /// Records the process-wide device notification client. A second
    /// registration is answered `NotificationAlreadyRegistered`;
    /// `instance` and `setup` are the platform's answers to creating
    /// the enumerator and installing the callback, in that order.
    pub fn register_device_notification(&mut self, instance: Result<(), PlatformError>, setup:
        Result<(), PlatformError>) -> (r: Result<(), NotificationError>)
        ensures
            final(self)@.session_event_ids =~= old(self)@.session_event_ids,
            final(self)@.worker_running == old(self)@.worker_running,
            if old(self)@.device_notification_registered {
                r == Err::<(), NotificationError>(
                    NotificationError::NotificationAlreadyRegistered,
                ) && final(self)@.device_notification_registered
            } else {
                match (instance, setup) {
                    (Err(e), _) => r == Err::<(), NotificationError>(
                        NotificationError::InstanceCreationError(e),
                    ) && !final(self)@.device_notification_registered,
                    (Ok(_), Err(e)) => r == Err::<(), NotificationError>(
                        NotificationError::NotificationRegisterError(e),
                    ) && !final(self)@.device_notification_registered,
                    (Ok(_), Ok(_)) => r == Ok::<(), NotificationError>(()) && final(self)@.device_notification_registered,
                }
            },
    {
        if self.device_notification_registered {
            return Err(NotificationError::NotificationAlreadyRegistered);
        }
        match instance {
            Err(e) => Err(NotificationError::InstanceCreationError(e)),
            Ok(_) => match setup {
                Err(e) => Err(NotificationError::NotificationRegisterError(e)),
                Ok(_) => {
                    self.device_notification_registered = true;
                    Ok(())
                },
            },
        }
    }

    /// Drops the device notification client's record. With none
    /// installed this is a quiet success; else `teardown` is the
    /// platform's answer to removing the callback, and the record is
    /// dropped either way.
    pub fn unregister_device_notification(&mut self, teardown: Result<(), PlatformError>) -> (r:
        Result<(), NotificationError>)
        ensures
            final(self)@.session_event_ids =~= old(self)@.session_event_ids,
            final(self)@.worker_running == old(self)@.worker_running,
            !final(self)@.device_notification_registered,
            if !old(self)@.device_notification_registered {
                r == Ok::<(), NotificationError>(())
            } else {
                match teardown {
                    Ok(_) => r == Ok::<(), NotificationError>(()),
                    Err(e) => r == Err::<(), NotificationError>(
                        NotificationError::NotificationUnregisterError(e),
                    ),
                }
            },
    {
        if !self.device_notification_registered {
            return Ok(());
        }
        self.device_notification_registered = false;
        match teardown {
            Ok(_) => Ok(()),
            Err(e) => Err(NotificationError::NotificationUnregisterError(e)),
        }
    }

    /// Whether the worker thread was started.
    pub fn worker_is_running(&self) -> (r: bool)
        ensures
            r == self@.worker_running,
    {
        self.worker_running
    }

    /// Records the worker thread's start, from the boundary's answer:
    /// whether the spawned thread announced `Ready`. Already running
    /// is a quiet success; a worker that never announced itself is
    /// `FailedStartingNotificationThread` and stays unrecorded.
    pub fn note_worker_started(&mut self, ready: bool) -> (r: Result<(), NotificationError>)
        ensures
            final(self)@.session_event_ids =~= old(self)@.session_event_ids,
            final(self)@.device_notification_registered == old(self)@.device_notification_registered,
            if old(self)@.worker_running {
                r == Ok::<(), NotificationError>(()) && final(self)@.worker_running
            } else if ready {
                r == Ok::<(), NotificationError>(()) && final(self)@.worker_running
            } else {
                r == Err::<(), NotificationError>(
                    NotificationError::FailedStartingNotificationThread,
                ) && !final(self)@.worker_running
            },
    {
        if self.worker_running {
            return Ok(());
        }
        if ready {
            self.worker_running = true;
            Ok(())
        } else {
            Err(NotificationError::FailedStartingNotificationThread)
        }
    }

    /// Records that the worker thread exited: after `Stop` was
    /// answered, or after a fail-stop error.
    pub fn note_worker_stopped(&mut self)
        ensures
            final(self)@.session_event_ids =~= old(self)@.session_event_ids,
            final(self)@.device_notification_registered == old(self)@.device_notification_registered,
            !final(self)@.worker_running,
    {
        self.worker_running = false;
    }
}

/// Reads the worker's answer to a registration command: exactly
/// `NotificationRegistered` is success; anything else — an error
/// report, a closed channel — is a failed registration.
pub fn interpret_register_response(response: Option<SessionNotificationMessage>) -> (r: Result<
    (),
    NotificationError,
>)
    ensures
        match response {
            Some(m) => if m.spec_kind() == MessageKind::Registered {
                r == Ok::<(), NotificationError>(())
            } else {
                r == Err::<(), NotificationError>(
                    NotificationError::FailedRegisteringSessionNotification,
                )
            },
            None => r == Err::<(), NotificationError>(
                NotificationError::FailedRegisteringSessionNotification,
            ),
        },
{
    match response {
        Some(SessionNotificationMessage::NotificationRegistered) => Ok(()),
        _ => Err(NotificationError::FailedRegisteringSessionNotification),
    }
}

/// Reads the worker's answer to an unregistration command: exactly
/// `NotificationUnregistered` is success; anything else is a failed
/// unregistration.
pub fn interpret_unregister_response(response: Option<SessionNotificationMessage>) -> (r: Result<
    (),
    NotificationError,
>)
    ensures
        match response {
            Some(m) => if m.spec_kind() == MessageKind::Unregistered {
                r == Ok::<(), NotificationError>(())
            } else {
                r == Err::<(), NotificationError>(
                    NotificationError::FailedUnregisteringSessionNotification,
                )
            },
            None => r == Err::<(), NotificationError>(
                NotificationError::FailedUnregisteringSessionNotification,
            ),
        },
{
    match response {
        Some(SessionNotificationMessage::NotificationUnregistered) => Ok(()),
        _ => Err(NotificationError::FailedUnregisteringSessionNotification),
    }
}

} // verus!
