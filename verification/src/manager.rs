//! The device and session data model: sessions with their identity
//! and process metadata, devices with their direction flag, the
//! format-support verdict, and the path translations between DOS
//! drive paths and the platform's device paths.
//!
//! Devices and sessions are opaque platform objects; the model holds
//! what the engine's logic reads of them — the stable identifier
//! string, the direction flag, the session identity and process id.
//! Enumeration, activation and property-store reads are platform
//! calls and stay at the operating-system boundary, which builds these
//! values and consumes the verdicts computed here.

use vstd::prelude::*;

use crate::sample_format::SampleFormat;
use crate::strutil;

verus! {

/// An error value the platform reported: its result code, held as a
/// plain value.
#[derive(Clone, Copy, Debug, PartialEq, Eq, Structural)]
pub struct PlatformError {
    pub code: i32,
}

/// The platform's result code for plain success.
pub const S_OK: i32 = 0;

/// The platform's result code for a successful call that answers no.
pub const S_FALSE: i32 = 1;

/// The platform's result code for a rejected stream format. The
/// hexadecimal spelling is 0x88890008.
pub const AUDCLNT_E_UNSUPPORTED_FORMAT: i32 = -2004287480;

/// Property-store value tag of a wide-character string.
pub const VT_LPWSTR: u32 = 31;

/// What went wrong while reading devices, sessions or paths.
#[derive(Clone, Debug, PartialEq, Eq, Structural)]
pub enum AudioError {
    DeviceEnumError(DeviceEnumError),
    DeviceError(PlatformError),
    DeviceActivationError(PlatformError),
    SessionEnumeratorError(PlatformError),
    SessionCountError(PlatformError),
    SessionError(PlatformError),
    SessionCastError(PlatformError),
    ProcessIdError(PlatformError),
    DisplayNameError(PlatformError),
    GetStateError(PlatformError),
    IconPathError(PlatformError),
    RawStringParseError,
    GetSessionError(PlatformError),
    SessionNotFound,
    PropertyStoreError(PlatformError),
    InvalidPropVariant,
    FailedGettingMixFormat(PlatformError),
    FailedReadingClosestFormatMatch,
    FailedGettingVolumePathName(PlatformError),
    InvalidPath,
    FailedGettingDosPath(u32),
    FailedGettingNtPath(u32),
}

/// What went wrong while enumerating endpoints.
#[derive(Clone, Debug, PartialEq, Eq, Structural)]
pub enum DeviceEnumError {
    InstanceCreation(PlatformError),
    EndpointEnumeration(PlatformError),
    DeviceCountError(PlatformError),
    DefaultDeviceError(PlatformError),
}

/// The process name read out of a session instance identifier: the
/// text between the first `|` and the first `%` after it. The
/// identifier's layout is a platform habit, not a promise, so this is
/// best-effort metadata; the identifier itself stays the key.
pub open spec fn spec_parse_process_name(s: Seq<char>) -> Option<Seq<char>> {
    let i = strutil::spec_find(s, '|');
    if i == s.len() {
        None
    } else {
        let rest = s.skip(i + 1);
        let k = strutil::spec_find(rest, '%');
        if k == rest.len() {
            None
        } else {
            Some(rest.take(k))
        }
    }
}

/// One audio session: its platform identity string, the process it
/// belongs to, and whether it carries the system sounds.
#[derive(Debug)]
pub struct Session {
    name: String,
    process_name: Option<String>,
    pid: u32,
    is_system: bool,
}

/// What a `Session` holds, as mathematical values.
pub struct SessionView {
    pub name: Seq<char>,
    pub process_name: Option<Seq<char>>,
    pub pid: u32,
    pub is_system: bool,
}

impl View for Session {
    type V = SessionView;

    closed spec fn view(&self) -> SessionView {
        SessionView {
            name: self.name@,
            process_name: self.process_name.deep_view(),
            pid: self.pid,
            is_system: self.is_system,
        }
    }
}

impl DeepView for Session {
    type V = SessionView;

    open spec fn deep_view(&self) -> SessionView {
        self.view()
    }
}

impl Session {
    /// Builds the session model from what the platform reported: the
    /// instance identifier, the owning process id, and the
    /// system-sounds verdict. The process name is parsed out of the
    /// identifier.
    pub fn from_parts(name: String, pid: u32, is_system: bool) -> (s: Session)
        ensures
            s@ == (SessionView {
                name: name@,
                process_name: spec_parse_process_name(name@),
                pid,
                is_system,
            }),
    {
        let process_name = Session::parse_process_name(&name);
        Session { name, process_name, pid, is_system }
    }

    /// Try to parse the process name from the session identifier:
    /// the text between the first `|` and the first `%` after it.
    pub fn parse_process_name(name_string: &String) -> (r: Option<String>)
        ensures
            r.deep_view() == spec_parse_process_name(name_string@),
    {
        let s: &str = name_string.as_str();
        proof {
            strutil::lemma_spec_find(s@, '|');
        }
        let n = s.unicode_len();
        match strutil::find_char_from(s, '|', 0) {
            None => {
                proof {
                    let i = strutil::spec_find(s@, '|');
                    if i < s@.len() {
                        assert(s@[i] == '|');
                    }
                }
                None
            },
            Some(i) => {
                proof {
                    let fi = strutil::spec_find(s@, '|');
                    if fi < i {
                        assert(s@[fi] == '|');
                    }
                    strutil::lemma_spec_find(s@.skip(i + 1), '%');
                }
                match strutil::find_char_from(s, '%', i + 1) {
                    None => {
                        proof {
                            let rest = s@.skip(i as int + 1);
                            let k = strutil::spec_find(rest, '%');
                            if k < rest.len() {
                                assert(s@[i + 1 + k] == rest[k]);
                            }
                        }
                        None
                    },
                    Some(k) => {
                        let out = strutil::substring(s, i + 1, k);
                        proof {
                            let rest = s@.skip(i as int + 1);
                            let fk = strutil::spec_find(rest, '%');
                            if fk < k - i - 1 {
                                assert(s@[i + 1 + fk] == rest[fk]);
                            }
                            if fk > k - i - 1 {
                                assert(rest[k - i - 1] == s@[k as int]);
                            }
                            assert(out@ =~= rest.take(fk));
                        }
                        Some(out)
                    },
                }
            },
        }
    }

    pub fn get_name(&self) -> (r: &String)
        ensures
            r@ == self@.name,
    {
        &self.name
    }

    pub fn get_process_name(&self) -> (r: &Option<String>)
        ensures
            r.deep_view() == self@.process_name,
    {
        &self.process_name
    }

    pub fn get_pid(&self) -> (r: &u32)
        ensures
            *r == self@.pid,
    {
        &self.pid
    }

    pub fn is_system(&self) -> (r: &bool)
        ensures
            *r == self@.is_system,
    {
        &self.is_system
    }
}

impl Clone for Session {
    /// An equal copy, field for field.
    fn clone(&self) -> (r: Self)
        ensures
            r@ == self@,
    {
        let process_name = match &self.process_name {
            Some(p) => Some(p.clone()),
            None => None,
        };
        Session { name: self.name.clone(), process_name, pid: self.pid, is_system: self.is_system }
    }
}

impl PartialEq for Session {
    /// Sessions are the same session when their platform identity
    /// strings are equal.
    fn eq(&self, other: &Self) -> (r: bool) {
        self.name.eq(&other.name)
    }
}

impl vstd::std_specs::cmp::PartialEqSpecImpl for Session {
    open spec fn obeys_eq_spec() -> bool {
        true
    }

    open spec fn eq_spec(&self, other: &Self) -> bool {
        self@.name == other@.name
    }
}

/// A session's activity state as the platform reports it.
#[derive(Debug, Clone, PartialEq, Eq, Structural)]
pub enum AudioSessionState {
    AudioSessionStateInactive,
    AudioSessionStateActive,
    AudioSessionStateExpired,
}

impl AudioSessionState {
    /// The state a raw platform discriminant names. A value outside
    /// the documented range is a contract violation at the platform
    /// boundary.
    pub fn from_raw(state: i32) -> (r: AudioSessionState)
        requires
            0 <= state <= 2,
        ensures
            state == 0 ==> r == AudioSessionState::AudioSessionStateInactive,
            state == 1 ==> r == AudioSessionState::AudioSessionStateActive,
            state == 2 ==> r == AudioSessionState::AudioSessionStateExpired,
    {
        if state == 0 {
            AudioSessionState::AudioSessionStateInactive
        } else if state == 1 {
            AudioSessionState::AudioSessionStateActive
        } else {
            AudioSessionState::AudioSessionStateExpired
        }
    }
}

/// The verdict on a stream format offered to a device.
#[derive(Debug, Clone, PartialEq, Eq, Structural)]
pub enum FormatSupport {
    Supported,
    Unsupported,
    ClosestMatch(SampleFormat),
}

/// The verdict a format-support query's result code carries: plain
/// success means supported, the dedicated failure code means
/// unsupported, and a no-answer means the platform proposed the
/// closest match it handed back — which it then must actually have
/// handed back. Any other code is a contract violation at the
/// platform boundary.
pub fn classify_format_support(hr: i32, closest_match: Option<SampleFormat>) -> (r: Result<
    FormatSupport,
    AudioError,
>)
    requires
        hr == S_OK || hr == S_FALSE || hr == AUDCLNT_E_UNSUPPORTED_FORMAT,
    ensures
        hr == S_OK ==> r == Ok::<FormatSupport, AudioError>(FormatSupport::Supported),
        hr == AUDCLNT_E_UNSUPPORTED_FORMAT ==> r == Ok::<FormatSupport, AudioError>(
            FormatSupport::Unsupported,
        ),
        hr == S_FALSE ==> match closest_match {
            Some(f) => r == Ok::<FormatSupport, AudioError>(FormatSupport::ClosestMatch(f)),
            None => r == Err::<FormatSupport, AudioError>(
                AudioError::FailedReadingClosestFormatMatch,
            ),
        },
{
    if hr == S_OK {
        Ok(FormatSupport::Supported)
    } else if hr == AUDCLNT_E_UNSUPPORTED_FORMAT {
        Ok(FormatSupport::Unsupported)
    } else {
        match closest_match {
            Some(f) => Ok(FormatSupport::ClosestMatch(f)),
            None => Err(AudioError::FailedReadingClosestFormatMatch),
        }
    }
}

/// The verdict on a property-store value offered as a string: a
/// value of any other type is rejected, and a wide string that did
/// not decode is a parse failure.
pub fn check_string_property(vt: u32, decoded: Option<String>) -> (r: Result<String, AudioError>)
    ensures
        vt != VT_LPWSTR ==> r == Err::<String, AudioError>(AudioError::InvalidPropVariant),
        vt == VT_LPWSTR ==> match decoded {
            Some(s) => r is Ok && r.unwrap()@ == s@,
            None => r == Err::<String, AudioError>(AudioError::RawStringParseError),
        },
{
    if vt != VT_LPWSTR {
        Err(AudioError::InvalidPropVariant)
    } else {
        match decoded {
            Some(s) => Ok(s),
            None => Err(AudioError::RawStringParseError),
        }
    }
}

/// One audio endpoint: its stable platform identifier and the fixed
/// direction it works in.
#[derive(Debug)]
pub struct Device {
    id: String,
    is_playback: bool,
}

/// What a `Device` holds, as mathematical values.
pub struct DeviceView {
    pub id: Seq<char>,
    pub is_playback: bool,
}

impl View for Device {
    type V = DeviceView;

    closed spec fn view(&self) -> DeviceView {
        DeviceView { id: self.id@, is_playback: self.is_playback }
    }
}

impl DeepView for Device {
    type V = DeviceView;

    open spec fn deep_view(&self) -> DeviceView {
        self.view()
    }
}

impl Device {
    /// Builds the device model from the identifier the platform
    /// reported and the direction the endpoint was enumerated under.
    pub fn from(id: String, is_playback: bool) -> (d: Device)
        ensures
            d@ == (DeviceView { id: id@, is_playback }),
    {
        Device { id, is_playback }
    }

    /// The endpoint's stable identifier string.
    pub fn get_id(&self) -> (r: Result<String, AudioError>)
        ensures
            r is Ok,
            r.unwrap()@ == self@.id,
    {
        Ok(self.id.clone())
    }

    /// Whether this endpoint renders audio (else it captures).
    pub fn is_playback(&self) -> (r: bool)
        ensures
            r == self@.is_playback,
    {
        self.is_playback
    }
}

impl Clone for Device {
    /// An equal copy, field for field.
    fn clone(&self) -> (r: Self)
        ensures
            r@ == self@,
    {
        Device { id: self.id.clone(), is_playback: self.is_playback }
    }
}

impl PartialEq for Device {
    /// Devices are the same endpoint when their identifier strings
    /// are equal.
    fn eq(&self, other: &Self) -> (r: bool) {
        self.id.eq(&other.id)
    }
}

impl vstd::std_specs::cmp::PartialEqSpecImpl for Device {
    open spec fn obeys_eq_spec() -> bool {
        true
    }

    open spec fn eq_spec(&self, other: &Self) -> bool {
        self@.id == other@.id
    }
}

/// Queries over the set of live sessions. Enumerating them is a
/// platform walk; the selection rules live here.
pub struct SessionManager {}

impl SessionManager {
    /// Keeps every session that does not carry the system sounds, in
    /// order: the sessions a caller is shown.
    pub fn retain_non_system(sessions: Vec<Session>) -> (r: Vec<Session>)
        ensures
            r.deep_view() == sessions.deep_view().filter(
                |s: SessionView| !s.is_system,
            ),
    {
        let mut out: Vec<Session> = Vec::new();
        let mut i: usize = 0;
        while i < sessions.len()
            invariant
                i <= sessions@.len(),
                out.deep_view() =~= sessions.deep_view().take(i as int).filter(
                    |s: SessionView| !s.is_system,
                ),
            decreases sessions@.len() - i,
        {
            proof {
                let pred = |s: SessionView| !s.is_system;
                let prefix = sessions.deep_view().take(i as int);
                let next = sessions.deep_view().take(i + 1);
                assert(next =~= prefix + seq![sessions.deep_view()[i as int]]);
                Seq::filter_distributes_over_add(
                    prefix,
                    seq![sessions.deep_view()[i as int]],
                    pred,
                );
                reveal_with_fuel(Seq::filter, 2);
                assert(seq![sessions.deep_view()[i as int]].drop_last() =~= Seq::<
                    SessionView,
                >::empty());
            }
            if !*sessions[i].is_system() {
                out.push(sessions[i].clone());
            }
            i = i + 1;
        }
        proof {
            assert(sessions.deep_view().take(sessions@.len() as int) =~= sessions.deep_view());
        }
        out
    }

    /// The position of the session whose identity string equals
    /// `searched_id`; `SessionNotFound` exactly when no session
    /// carries it.
    pub fn session_index_by_id(sessions: &Vec<Session>, searched_id: &String) -> (r: Result<
        usize,
        AudioError,
    >)
        ensures
            match r {
                Ok(i) => i < sessions@.len() && sessions@[i as int]@.name == searched_id@
                    && (forall|j: int|
                    0 <= j < i ==> sessions@[j]@.name != searched_id@),
                Err(e) => e == AudioError::SessionNotFound && (forall|j: int|
                    0 <= j < sessions@.len() ==> sessions@[j]@.name != searched_id@),
            },
    {
        let mut i: usize = 0;
        while i < sessions.len()
            invariant
                i <= sessions@.len(),
                forall|j: int| 0 <= j < i ==> sessions@[j]@.name != searched_id@,
            decreases sessions@.len() - i,
        {
            if sessions[i].get_name().eq(searched_id) {
                return Ok(i);
            }
            i = i + 1;
        }
        Err(AudioError::SessionNotFound)
    }
}

/// Enumerates endpoints by direction. The walks themselves are
/// platform calls at the operating-system boundary; they tag each
/// endpoint with its direction through `Device::from`.
pub struct DeviceManager {}

/// Splits a DOS path into its drive prefix and the rest: the text
/// before the first `:\` and the text after it. `InvalidPath` when no
/// such separator occurs.
pub fn split_drive_prefix(path: &str) -> (r: Result<(String, String), AudioError>)
    ensures
        match r {
            Ok(parts) => exists|i: int|
                {
                    &&& 0 <= i && i + 1 < path@.len()
                    &&& path@[i] == ':' && #[trigger] path@[i + 1] == '\\'
                    &&& (forall|j: int|
                        0 <= j < i ==> !(#[trigger] path@[j] == ':' && path@[j + 1] == '\\'))
                    &&& parts.0@ =~= path@.take(i)
                    &&& parts.1@ =~= path@.skip(i + 2)
                },
            Err(e) => e == AudioError::InvalidPath && (forall|j: int|
                0 <= j && j + 1 < path@.len() ==> !(#[trigger] path@[j] == ':' && path@[j + 1]
                    == '\\')),
        },
{
    let n = path.unicode_len();
    match strutil::find_two_from(path, ':', '\\', 0) {
        None => Err(AudioError::InvalidPath),
        Some(i) => {
            let drive = strutil::substring(path, 0, i);
            let rest = strutil::substring(path, i + 2, n);
            Ok((drive, rest))
        },
    }
}

/// The prefix of `buf` before its first zero: the platform fills a
/// fixed buffer with a zero-terminated string.
pub fn truncate_at_nul(buf: &Vec<u16>) -> (r: Vec<u16>)
    ensures
        r@.len() <= buf@.len(),
        r@ =~= buf@.take(r@.len() as int),
        forall|j: int| 0 <= j < r@.len() ==> buf@[j] != 0,
        r@.len() < buf@.len() ==> buf@[r@.len() as int] == 0,
{
    let mut out: Vec<u16> = Vec::new();
    let mut i: usize = 0;
    while i < buf.len()
        invariant
            i <= buf@.len(),
            out@ =~= buf@.take(i as int),
            forall|j: int| 0 <= j < i ==> buf@[j] != 0,
        decreases buf@.len() - i,
    {
        if buf[i] == 0 {
            return out;
        }
        out.push(buf[i]);
        i = i + 1;
    }
    out
}

/// Joins a device root and the path below it with a single
/// backslash.
pub fn join_nt_path(device_root: &str, rest: &str) -> (r: String)
    ensures
        r@ == device_root@ + seq!['\\'] + rest@,
{
    let out = strutil::concat3(device_root, "\\", rest);
    proof {
        reveal_strlit("\\");
        assert("\\"@ =~= seq!['\\']);
    }
    out
}

/// Splits a platform device path `\Device\<name>\<rest>` into the
/// device name and the rest. `InvalidPath` when the path does not
/// begin with the device prefix; a path ending at the device name has
/// an empty rest.
pub fn parse_device_path(path: &str) -> (r: Result<(String, String), AudioError>)
    ensures
        match r {
            Ok(parts) => {
                &&& path@.len() >= 8
                &&& path@.take(8) =~= seq!['\\', 'D', 'e', 'v', 'i', 'c', 'e', '\\']
                &&& {
                    let k = 8 + strutil::spec_find(path@.skip(8), '\\');
                    &&& parts.0@ =~= path@.subrange(8, k)
                    &&& if k < path@.len() {
                        parts.1@ =~= path@.skip(k + 1)
                    } else {
                        parts.1@.len() == 0
                    }
                }
            },
            Err(e) => e == AudioError::InvalidPath && !(path@.len() >= 8 && path@.take(8) =~= seq![
                '\\',
                'D',
                'e',
                'v',
                'i',
                'c',
                'e',
                '\\',
            ]),
        },
{
    proof {
        reveal_strlit("\\Device\\");
        assert("\\Device\\"@ =~= seq!['\\', 'D', 'e', 'v', 'i', 'c', 'e', '\\']);
    }
    if !strutil::str_starts_with(path, "\\Device\\") {
        return Err(AudioError::InvalidPath);
    }
    let n = path.unicode_len();
    proof {
        strutil::lemma_spec_find(path@.skip(8), '\\');
    }
    match strutil::find_char_from(path, '\\', 8) {
        Some(k) => {
            proof {
                let rest = path@.skip(8);
                let fk = strutil::spec_find(rest, '\\');
                if fk < k - 8 {
                    assert(path@[8 + fk] == rest[fk]);
                }
                if fk > k - 8 {
                    assert(rest[k - 8] == path@[k as int]);
                }
            }
            let device = strutil::substring(path, 8, k);
            let rest = strutil::substring(path, k + 1, n);
            Ok((device, rest))
        },
        None => {
            proof {
                let rest = path@.skip(8);
                let fk = strutil::spec_find(rest, '\\');
                if fk < rest.len() {
                    assert(path@[8 + fk] == rest[fk]);
                }
            }
            let device = strutil::substring(path, 8, n);
            Ok((device, String::new()))
        },
    }
}

/// The DOS spelling of a path on the given drive: the drive name,
/// `:\`, and the path below it.
pub fn dos_path_for_drive(drive: &str, rest: &str) -> (r: String)
    ensures
        r@ == drive@ + seq![':', '\\'] + rest@,
{
    let out = strutil::concat3(drive, ":\\", rest);
    proof {
        reveal_strlit(":\\");
        assert(":\\"@ =~= seq![':', '\\']);
    }
    out
}

/// Whether the platform's mapping for a drive mentions the device
/// name a path was parsed from: the test that picks the drive a
/// device path is spelled with.
pub fn device_path_matches(device_mapping: &str, device_name: &str) -> (r: bool)
    ensures
        r == strutil::spec_contains(device_mapping@, device_name@),
{
    strutil::str_contains(device_mapping, device_name)
}

} // verus!
