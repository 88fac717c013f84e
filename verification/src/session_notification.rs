//! The session-notification worker: a single dedicated thread that
//! owns the table of per-device session-creation registrations and
//! serializes every change to it through a command channel.
//!
//! The thread, the channels and the platform sink objects live at the
//! operating-system boundary. The worker's state and decisions live
//! here: the registration table keyed by device id, and the step
//! function that takes one command — together with the outcome of the
//! platform work the boundary performed for it — to the table's next
//! state, the response owed to the caller, and whether the worker
//! thread goes on or exits. Every platform failure inside the worker
//! is fail-stop: it is reported once and the worker exits.

use vstd::prelude::*;

use crate::notifications::NotificationError;

verus! {

/// A new session appeared; carries the session's instance identifier.
#[derive(Debug)]
pub struct SessionCreated(pub String);

impl SessionCreated {
    pub fn get_name(&self) -> (r: &String)
        ensures
            r@ == self.0@,
    {
        &self.0
    }
}

/// What the worker sends back over the response channel.
#[derive(Debug)]
pub enum SessionNotificationMessage {
    Ready,
    Error(NotificationError),
    NotificationRegistered,
    NotificationUnregistered,
    Stopped,
}

impl SessionNotificationMessage {
    /// The value of this response as mathematical data, so contracts
    /// can compare responses without an equality on the exec type.
    pub open spec fn spec_kind(self) -> MessageKind {
        match self {
            SessionNotificationMessage::Ready => MessageKind::Ready,
            SessionNotificationMessage::Error(_) => MessageKind::Error,
            SessionNotificationMessage::NotificationRegistered => MessageKind::Registered,
            SessionNotificationMessage::NotificationUnregistered => MessageKind::Unregistered,
            SessionNotificationMessage::Stopped => MessageKind::Stopped,
        }
    }
}

/// The shape of a worker response.
#[derive(Debug, Clone, Copy, PartialEq, Eq, Structural)]
pub enum MessageKind {
    Ready,
    Error,
    Registered,
    Unregistered,
    Stopped,
}

/// One command to the worker. The boundary resolves the target
/// device to its identifier string before building the command, and
/// for a registration it picks the slot token under which it stored
/// the platform session-manager and sink pair.
#[derive(Debug)]
pub enum SessionNotificationCommand {
    RegisterNotification { device_id: String, token: u64 },
    UnregisterNotification { device_id: String },
    Stop,
}

/// Whether the worker loop goes on after a step.
#[derive(Debug, Clone, Copy, PartialEq, Eq, Structural)]
pub enum LoopResult {
    Continue,
    Stop,
}

/// What one worker step decided: the response owed over the response
/// channel — none for the silent branch — and whether the worker
/// exits.
#[derive(Debug)]
pub struct WorkerStep {
    pub response: Option<SessionNotificationMessage>,
    pub result: LoopResult,
}

/// The worker's registration table: for each device id, the token of
/// the boundary slot holding that device's platform session-manager
/// and notification sink. Owned by the worker thread alone; ids are
/// unique.
#[derive(Debug)]
pub struct NotificationRegistry {
    entries: Vec<(String, u64)>,
}

impl View for NotificationRegistry {
    type V = Seq<(Seq<char>, u64)>;

    closed spec fn view(&self) -> Seq<(Seq<char>, u64)> {
        self.entries.deep_view()
    }
}

impl NotificationRegistry {
    /// Ids occur at most once.
    pub open spec fn wf(self) -> bool {
        forall|i: int, j: int|
            0 <= i < j < self@.len() ==> (#[trigger] self@[i]).0 != (#[trigger] self@[j]).0
    }

    pub open spec fn spec_contains_id(self, id: Seq<char>) -> bool {
        exists|i: int| 0 <= i < self@.len() && (#[trigger] self@[i]).0 == id
    }

    pub fn new() -> (r: NotificationRegistry)
        ensures
            r@ =~= Seq::<(Seq<char>, u64)>::empty(),
            r.wf(),
    {
        NotificationRegistry { entries: Vec::new() }
    }

    pub fn len(&self) -> (n: usize)
        ensures
            n == self@.len(),
    {
        self.entries.len()
    }

    fn find_index(&self, device_id: &String) -> (r: Option<usize>)
        ensures
            match r {
                Some(i) => i < self@.len() && self@[i as int].0 == device_id@ && (forall|j: int|
                    0 <= j < i ==> (#[trigger] self@[j]).0 != device_id@),
                None => !self.spec_contains_id(device_id@),
            },
    {
        let mut i: usize = 0;
        while i < self.entries.len()
            invariant
                i <= self@.len(),
                self@.len() == self.entries@.len(),
                forall|k: int| 0 <= k < self@.len() ==> (#[trigger] self@[k]).0
                    == self.entries@[k].0@ && self@[k].1 == self.entries@[k].1,
                forall|j: int| 0 <= j < i ==> (#[trigger] self@[j]).0 != device_id@,
            decreases self@.len() - i,
        {
            if self.entries[i].0.eq(device_id) {
                return Some(i);
            }
            i = i + 1;
        }
        None
    }

    /// The token stored under a device id, if any: what the boundary
    /// must look up before it can tear a registration's platform sink
    /// down.
    pub fn lookup(&self, device_id: &String) -> (r: Option<u64>)
        ensures
            match r {
                Some(t) => exists|i: int|
                    0 <= i < self@.len() && #[trigger] self@[i] == (device_id@, t),
                None => !self.spec_contains_id(device_id@),
            },
    {
        match self.find_index(device_id) {
            Some(i) => Some(self.entries[i].1),
            None => None,
        }
    }

    /// Every token in the table, in table order: what the boundary
    /// must tear down when the worker stops.
    pub fn tokens(&self) -> (r: Vec<u64>)
        ensures
            r@.len() == self@.len(),
            forall|i: int| 0 <= i < self@.len() ==> r@[i] == (#[trigger] self@[i]).1,
    {
        let mut out: Vec<u64> = Vec::new();
        let mut i: usize = 0;
        while i < self.entries.len()
            invariant
                i <= self@.len(),
                self@.len() == self.entries@.len(),
                forall|k: int| 0 <= k < self@.len() ==> (#[trigger] self@[k]).0
                    == self.entries@[k].0@ && self@[k].1 == self.entries@[k].1,
                out@.len() == i,
                forall|j: int| 0 <= j < i ==> out@[j] == (#[trigger] self@[j]).1,
            decreases self@.len() - i,
        {
            out.push(self.entries[i].1);
            i = i + 1;
        }
        out
    }

    /// Stores a token under a device id: a fresh id is appended, a
    /// known id has its token replaced.
    fn insert(&mut self, device_id: String, token: u64)
        requires
            old(self).wf(),
        ensures
            final(self).wf(),
            if old(self).spec_contains_id(device_id@) {
                exists|i: int|
                    0 <= i < old(self)@.len() && old(self)@[i].0 == device_id@ && final(self)@
                        =~= old(self)@.update(i, (device_id@, token))
            } else {
                final(self)@ =~= old(self)@.push((device_id@, token))
            },
    {
        let ghost id_view = device_id@;
        match self.find_index(&device_id) {
            Some(i) => {
                self.entries.remove(i);
                self.entries.insert(i, (device_id, token));
                proof {
                    let oldd = old(self)@;
                    let newd = self@;
                    assert(self.entries@ =~= old(self).entries@.remove(i as int).insert(i as int, self.entries@[i as int]));
                    assert forall|k: int| 0 <= k < newd.len() implies #[trigger] newd[k] == oldd.update(i as int, (id_view, token))[k] by {
                        assert(newd[k] == (self.entries@[k].0@, self.entries@[k].1));
                        if k == i {
                            assert(self.entries@[k].0@ == id_view);
                        } else {
                            assert(self.entries@[k] == old(self).entries@[k]);
                            assert(oldd[k] == (old(self).entries@[k].0@, old(self).entries@[k].1));
                        }
                    }
                    assert(newd =~= oldd.update(i as int, (id_view, token)));
                }
            },
            None => {
                self.entries.push((device_id, token));
                proof {
                    let oldd = old(self)@;
                    let newd = self@;
                    assert forall|k: int| 0 <= k < newd.len() implies #[trigger] newd[k] == oldd.push((id_view, token))[k] by {
                        assert(newd[k] == (self.entries@[k].0@, self.entries@[k].1));
                        if k < oldd.len() {
                            assert(self.entries@[k] == old(self).entries@[k]);
                            assert(oldd[k] == (old(self).entries@[k].0@, old(self).entries@[k].1));
                        }
                    }
                    assert(newd =~= oldd.push((id_view, token)));
                }
            },
        }
    }

    /// Removes a device id's entry if one exists, handing back its
    /// token.
    fn remove(&mut self, device_id: &String) -> (r: Option<u64>)
        requires
            old(self).wf(),
        ensures
            final(self).wf(),
            match r {
                Some(t) => exists|i: int|
                    0 <= i < old(self)@.len() && #[trigger] old(self)@[i] == (device_id@, t)
                        && final(self)@ =~= old(self)@.remove(i),
                None => !old(self).spec_contains_id(device_id@) && final(self)@ =~= old(self)@,
            },
            !final(self).spec_contains_id(device_id@),
    {
        match self.find_index(device_id) {
            Some(i) => {
                let (_, t) = self.entries.remove(i);
                proof {
                    let oldd = old(self)@;
                    let newd = self@;
                    assert forall|k: int| 0 <= k < newd.len() implies #[trigger] newd[k] == oldd.remove(i as int)[k] by {
                        assert(newd[k] == (self.entries@[k].0@, self.entries@[k].1));
                        if k < i {
                            assert(self.entries@[k] == old(self).entries@[k]);
                            assert(oldd[k] == (old(self).entries@[k].0@, old(self).entries@[k].1));
                        } else {
                            assert(self.entries@[k] == old(self).entries@[k + 1]);
                            assert(oldd[k + 1] == (old(self).entries@[k + 1].0@, old(self).entries@[k + 1].1));
                        }
                    }
                    assert(newd =~= oldd.remove(i as int));
                    assert forall|a: int, b: int|
                        0 <= a < b < newd.len() implies (#[trigger] newd[a]).0 != (
                    #[trigger] newd[b]).0 by {
                        if b < i {
                        } else if a < i {
                            assert(newd[b] == oldd[b + 1]);
                        } else {
                            assert(newd[a] == oldd[a + 1]);
                            assert(newd[b] == oldd[b + 1]);
                        }
                    }
                    assert forall|a: int| 0 <= a < newd.len() implies (#[trigger] newd[a]).0
                        != device_id@ by {
                        if a < i {
                        } else {
                            assert(newd[a] == oldd[a + 1]);
                        }
                    }
                }
                Some(t)
            },
            None => None,
        }
    }

    /// Empties the table.
    fn clear(&mut self)
        ensures
            final(self)@ =~= Seq::<(Seq<char>, u64)>::empty(),
            final(self).wf(),
    {
        self.entries = Vec::new();
    }
}

/// The position of `id` in a table, or the table's length when it
/// is absent.
pub open spec fn spec_index_of_id(reg: Seq<(Seq<char>, u64)>, id: Seq<char>) -> int
    decreases reg.len(),
{
    if reg.len() == 0 {
        0
    } else if reg[0].0 == id {
        0
    } else {
        1 + spec_index_of_id(reg.skip(1), id)
    }
}

/// `spec_index_of_id` names the first position holding `id`:
/// everything before it carries another id, and it lands on `id`
/// whenever the table holds it.
pub proof fn lemma_spec_index_of_id(reg: Seq<(Seq<char>, u64)>, id: Seq<char>)
    ensures
        0 <= spec_index_of_id(reg, id) <= reg.len(),
        spec_index_of_id(reg, id) < reg.len() ==> reg[spec_index_of_id(reg, id)].0 == id,
        forall|j: int| 0 <= j < spec_index_of_id(reg, id) ==> reg[j].0 != id,
    decreases reg.len(),
{
    if reg.len() != 0 && reg[0].0 != id {
        lemma_spec_index_of_id(reg.skip(1), id);
        let i = spec_index_of_id(reg, id);
        assert forall|j: int| 0 <= j < i implies reg[j].0 != id by {
            if j > 0 {
                assert(reg.skip(1)[j - 1] == reg[j]);
            }
        }
        if i < reg.len() {
            assert(reg.skip(1)[i - 1] == reg[i]);
        }
    }
}

/// What one worker step leaves, at the level of views: the table
/// after the command, the kind of response owed — none for the
/// silent branch — and whether the worker exits.
pub open spec fn spec_step(
    reg: Seq<(Seq<char>, u64)>,
    command: SessionNotificationCommand,
    platform_ok: bool,
) -> (Seq<(Seq<char>, u64)>, Option<MessageKind>, bool) {
    match command {
        SessionNotificationCommand::RegisterNotification { device_id, token } => {
            if platform_ok {
                let i = spec_index_of_id(reg, device_id@);
                let reg2 = if i == reg.len() {
                    reg.push((device_id@, token))
                } else {
                    reg.update(i, (device_id@, token))
                };
                (reg2, Some(MessageKind::Registered), false)
            } else {
                (reg, Some(MessageKind::Error), true)
            }
        },
        SessionNotificationCommand::UnregisterNotification { device_id } => {
            let i = spec_index_of_id(reg, device_id@);
            if i == reg.len() {
                (reg, None::<MessageKind>, false)
            } else if platform_ok {
                (reg.remove(i), Some(MessageKind::Unregistered), false)
            } else {
                (reg.remove(i), Some(MessageKind::Error), true)
            }
        },
        SessionNotificationCommand::Stop => {
            (
                Seq::empty(),
                Some(
                    if platform_ok {
                        MessageKind::Stopped
                    } else {
                        MessageKind::Error
                    },
                ),
                true,
            )
        },
    }
}

/// One step of the worker loop: takes the received command and the
/// outcome of the platform work the boundary performed for it, and
/// decides the table's next state, the response, and whether the
/// worker exits.
///
/// - Registration stores the token under the device id and answers
///   `NotificationRegistered`; a platform failure on the way —
///   activating the session manager, registering the sink, reading
///   the device id, or the enumeration-count call that actually
///   starts delivery — is reported as `Error` and stops the worker.
/// - Unregistration removes the entry and answers
///   `NotificationUnregistered`; for an id never registered it
///   answers nothing at all, so a caller waiting synchronously on the
///   response channel is left hanging — a known sharp edge of this
///   contract. A failing platform teardown is reported and stops the
///   worker, with the entry already gone.
/// - `Stop` empties the table — the boundary tears every sink down —
///   and answers `Stopped`, or reports the first teardown failure;
///   either way the worker exits.
pub fn thread_inner(
    notifications: &mut NotificationRegistry,
    command: SessionNotificationCommand,
    platform: Result<(), NotificationError>,
) -> (step: WorkerStep)
    requires
        old(notifications).wf(),
    ensures
        final(notifications).wf(),
        ({
            let decided = spec_step(old(notifications)@, command, platform is Ok);
            &&& final(notifications)@ =~= decided.0
            &&& (match step.response {
                Some(m) => decided.1 == Some(m.spec_kind()),
                None => decided.1 is None,
            })
            &&& ((step.result == LoopResult::Stop) <==> decided.2)
        }),
        match command {
            SessionNotificationCommand::RegisterNotification { device_id, token } => {
                match platform {
                    Ok(_) => {
                        &&& final(notifications).spec_contains_id(device_id@)
                        &&& (step.response matches Some(m) && m.spec_kind()
                            == MessageKind::Registered)
                        &&& step.result == LoopResult::Continue
                        &&& if old(notifications).spec_contains_id(device_id@) {
                            exists|i: int|
                                0 <= i < old(notifications)@.len() && old(notifications)@[i].0
                                    == device_id@ && final(notifications)@ =~= old(notifications)@.update(i, (device_id@, token))
                        } else {
                            final(notifications)@ =~= old(notifications)@.push(
                                (device_id@, token),
                            )
                        }
                    },
                    Err(e) => {
                        &&& final(notifications)@ =~= old(notifications)@
                        &&& (step.response matches Some(m) && m
                            == SessionNotificationMessage::Error(e))
                        &&& step.result == LoopResult::Stop
                    },
                }
            },
            SessionNotificationCommand::UnregisterNotification { device_id } => {
                &&& !final(notifications).spec_contains_id(device_id@)
                &&& if !old(notifications).spec_contains_id(device_id@) {
                    &&& final(notifications)@ =~= old(notifications)@
                    &&& step.response is None
                    &&& step.result == LoopResult::Continue
                } else {
                    &&& (exists|i: int|
                        0 <= i < old(notifications)@.len() && (#[trigger] old(notifications)@[i]).0 == device_id@ && final(notifications)@ =~= old(notifications)@.remove(i))
                    &&& match platform {
                        Ok(_) => (step.response matches Some(m) && m.spec_kind()
                            == MessageKind::Unregistered) && step.result == LoopResult::Continue,
                        Err(_) => (step.response matches Some(m) && m
                            == SessionNotificationMessage::Error(
                            NotificationError::FailedUnregisteringSessionNotification,
                        )) && step.result == LoopResult::Stop,
                    }
                }
            },
            SessionNotificationCommand::Stop => {
                &&& final(notifications)@.len() == 0
                &&& step.result == LoopResult::Stop
                &&& match platform {
                    Ok(_) => step.response matches Some(m) && m.spec_kind()
                        == MessageKind::Stopped,
                    Err(_) => step.response matches Some(m) && m
                        == SessionNotificationMessage::Error(
                        NotificationError::FailedUnregisteringSessionNotification,
                    ),
                }
            },
        },
{
    match command {
        SessionNotificationCommand::RegisterNotification { device_id, token } => {
            match platform {
                Ok(_) => {
                    let ghost id_view = device_id@;
                    notifications.insert(device_id, token);
                    proof {
                        lemma_spec_index_of_id(old(notifications)@, id_view);
                        let fi = spec_index_of_id(old(notifications)@, id_view);
                        if old(notifications).spec_contains_id(id_view) {
                            let i = choose|i: int|
                                0 <= i < old(notifications)@.len() && old(notifications)@[i].0
                                    == id_view && notifications@ =~= old(notifications)@.update(
                                    i,
                                    (id_view, token),
                                );
                            assert((notifications@[i]).0 == id_view);
                            assert(fi < old(notifications)@.len());
                            assert(i == fi);
                        } else {
                            assert((notifications@[old(notifications)@.len() as int]).0
                                == id_view);
                            assert(fi == old(notifications)@.len());
                        }
                    }
                    WorkerStep {
                        response: Some(SessionNotificationMessage::NotificationRegistered),
                        result: LoopResult::Continue,
                    }
                },
                Err(e) => WorkerStep {
                    response: Some(SessionNotificationMessage::Error(e)),
                    result: LoopResult::Stop,
                },
            }
        },
        SessionNotificationCommand::UnregisterNotification { device_id } => {
            let removed = notifications.remove(&device_id);
            proof {
                lemma_spec_index_of_id(old(notifications)@, device_id@);
                let fi = spec_index_of_id(old(notifications)@, device_id@);
                match removed {
                    None => {
                        if fi < old(notifications)@.len() {
                            assert(old(notifications)@[fi].0 == device_id@);
                            assert(old(notifications).spec_contains_id(device_id@));
                        }
                    },
                    Some(t) => {
                        let i = choose|i: int|
                            0 <= i < old(notifications)@.len() && #[trigger] old(
                                notifications,
                            )@[i] == (device_id@, t) && notifications@ =~= old(
                                notifications,
                            )@.remove(i);
                        assert((old(notifications)@[i]).0 == device_id@);
                        assert(fi < old(notifications)@.len());
                        assert(i == fi);
                    },
                }
            }
            match removed {
                None => WorkerStep { response: None, result: LoopResult::Continue },
                Some(_) => {
                    match platform {
                        Ok(_) => WorkerStep {
                            response: Some(
                                SessionNotificationMessage::NotificationUnregistered,
                            ),
                            result: LoopResult::Continue,
                        },
                        Err(_) => WorkerStep {
                            response: Some(
                                SessionNotificationMessage::Error(
                                    NotificationError::FailedUnregisteringSessionNotification,
                                ),
                            ),
                            result: LoopResult::Stop,
                        },
                    }
                },
            }
        },
        SessionNotificationCommand::Stop => {
            notifications.clear();
            match platform {
                Ok(_) => WorkerStep {
                    response: Some(SessionNotificationMessage::Stopped),
                    result: LoopResult::Stop,
                },
                Err(_) => WorkerStep {
                    response: Some(
                        SessionNotificationMessage::Error(
                            NotificationError::FailedUnregisteringSessionNotification,
                        ),
                    ),
                    result: LoopResult::Stop,
                },
            }
        },
    }
}

/// The kinds of a sequence of responses, in order.
pub open spec fn spec_kinds(s: Seq<SessionNotificationMessage>) -> Seq<MessageKind> {
    s.map_values(|m: SessionNotificationMessage| m.spec_kind())
}

/// The worker's whole trace over a script: the kinds of the
/// responses sent after `Ready`, and the table left behind.
/// Processing ends with the script, or at the first step that
/// exits; later commands are never looked at.
pub open spec fn spec_run(
    script: Seq<(SessionNotificationCommand, Result<(), NotificationError>)>,
    reg: Seq<(Seq<char>, u64)>,
) -> (Seq<MessageKind>, Seq<(Seq<char>, u64)>)
    decreases script.len(),
{
    if script.len() == 0 {
        (Seq::empty(), reg)
    } else {
        let decided = spec_step(reg, script[0].0, script[0].1 is Ok);
        let head = match decided.1 {
            Some(k) => seq![k],
            None => Seq::<MessageKind>::empty(),
        };
        if decided.2 {
            (head, decided.0)
        } else {
            let rest = spec_run(script.skip(1), decided.0);
            (head + rest.0, rest.1)
        }
    }
}

/// The worker thread's whole life over a prerecorded script of
/// commands, each paired with the platform outcome the boundary saw
/// for it: announces `Ready`, then steps through commands until one
/// ends the loop. The responses sent and the table left behind are
/// exactly what `spec_run` names for the script.
pub fn session_notification_thread(
    script: Vec<(SessionNotificationCommand, Result<(), NotificationError>)>,
) -> (r: (Vec<SessionNotificationMessage>, NotificationRegistry))
    ensures
        r.0@.len() >= 1,
        r.0@[0].spec_kind() == MessageKind::Ready,
        r.1.wf(),
        ({
            let run = spec_run(script@, Seq::empty());
            &&& spec_kinds(r.0@.skip(1)) =~= run.0
            &&& r.1@ =~= run.1
        }),
{
    let ghost orig = script@;
    let mut script = script;
    let mut registry = NotificationRegistry::new();
    let mut responses: Vec<SessionNotificationMessage> = Vec::new();
    responses.push(SessionNotificationMessage::Ready);
    let mut running = true;
    while running && script.len() > 0
        invariant
            script@.len() <= orig.len(),
            script@ =~= orig.skip(orig.len() - script@.len()),
            registry.wf(),
            responses@.len() >= 1,
            responses@[0].spec_kind() == MessageKind::Ready,
            running ==> ({
                let rest = spec_run(script@, registry@);
                let full = spec_run(orig, Seq::empty());
                &&& full.0 =~= spec_kinds(responses@.skip(1)) + rest.0
                &&& full.1 =~= rest.1
            }),
            !running ==> ({
                let full = spec_run(orig, Seq::empty());
                &&& full.0 =~= spec_kinds(responses@.skip(1))
                &&& full.1 =~= registry@
            }),
        decreases script@.len(),
    {
        let ghost s_pre = script@;
        let ghost reg_pre = registry@;
        let ghost resp_pre = responses@;
        let (command, platform) = script.remove(0);
        proof {
            assert(s_pre[0] == (command, platform));
            assert(script@ =~= s_pre.skip(1));
            assert(script@ =~= orig.skip(orig.len() - script@.len()));
        }
        let step = thread_inner(&mut registry, command, platform);
        let stop_now = match step.result {
            LoopResult::Continue => false,
            LoopResult::Stop => true,
        };
        match step.response {
            Some(m) => responses.push(m),
            None => (),
        }
        if stop_now {
            running = false;
        }
        proof {
            let decided = spec_step(reg_pre, command, platform is Ok);
            let head = match decided.1 {
                Some(k) => seq![k],
                None => Seq::<MessageKind>::empty(),
            };
            let full = spec_run(orig, Seq::empty());
            assert(spec_kinds(responses@.skip(1)) =~= spec_kinds(resp_pre.skip(1)) + head);
            if stop_now {
                assert(spec_run(s_pre, reg_pre).0 =~= head);
                assert(spec_run(s_pre, reg_pre).1 =~= decided.0);
                assert(full.0 =~= spec_kinds(resp_pre.skip(1)) + spec_run(s_pre, reg_pre).0);
                assert(full.0 =~= spec_kinds(responses@.skip(1)));
            } else {
                let rest = spec_run(s_pre.skip(1), decided.0);
                assert(spec_run(s_pre, reg_pre).0 =~= head + rest.0);
                assert(spec_run(s_pre, reg_pre).1 =~= rest.1);
                assert(spec_run(script@, registry@).0 =~= rest.0);
                assert(spec_run(script@, registry@).1 =~= rest.1);
                assert(full.0 =~= spec_kinds(resp_pre.skip(1)) + (head + rest.0));
                assert(full.0 =~= (spec_kinds(resp_pre.skip(1)) + head) + rest.0);
            }
        }
    }
    proof {
        if running {
            assert(script@.len() == 0);
            assert(spec_run(script@, registry@).0 =~= Seq::<MessageKind>::empty());
            assert(spec_run(script@, registry@).1 =~= registry@);
            assert(spec_run(orig, Seq::empty()).0 =~= spec_kinds(responses@.skip(1)) + Seq::<
                MessageKind,
            >::empty());
        }
    }
    (responses, registry)
}

} // verus!
