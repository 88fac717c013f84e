//! Setting a stream up: the direction checks, the stream flags and
//! buffer latency each entry point initializes the client with, the
//! format each one resolves, and the reading of the asynchronous
//! activation handshake's outcome.
//!
//! The activation itself — creating the completion event, issuing the
//! asynchronous request, blocking on the event, querying the returned
//! interface — is platform work at the operating-system boundary; it
//! hands the outcome of each step in and follows the plans computed
//! here.

use vstd::prelude::*;

use crate::manager::{Device, DeviceEnumError, PlatformError};
use crate::sample_format::SampleFormat;

verus! {

/// Stream flag asking for loopback capture.
pub const AUDCLNT_STREAMFLAGS_LOOPBACK: u32 = 0x20000;

/// Stream flag asking for event-driven buffer callbacks.
pub const AUDCLNT_STREAMFLAGS_EVENTCALLBACK: u32 = 0x40000;

/// The wait-result value the platform reports when the wait itself
/// failed.
pub const WAIT_FAILED: u32 = 0xFFFFFFFF;

/// The wait-result value of the first handle in a multi-handle wait.
pub const WAIT_OBJECT_0: u32 = 0;

/// Buffer latency, in milliseconds, asked of capture and recording
/// streams.
pub const BUFFER_DURATION_MS: u32 = 20;

/// Platform reference-time units (100 ns) in one millisecond.
pub const REFTIME_PER_MS: i64 = 10_000;

/// What went wrong while setting a stream up or pumping it.
#[derive(Clone, Debug, PartialEq, Eq, Structural)]
pub enum AudioClientError {
    FailedToCreateStopEvent(PlatformError),
    FailedToSetupEventHandle(PlatformError),
    FailedToStartAudioClient(PlatformError),
    WaitFailed(u32),
    FailedGettingBuffer(PlatformError),
    FailedReleasingBuffer(PlatformError),
    FailedStoppingAudioClient(PlatformError),
    FailedResettingAudioClient(PlatformError),
    NotInputDevice,
    NotPlaybackDevice,
    RecordingAlreadyStarted,
    FailedGettingActivationResult,
    EventCreationError(PlatformError),
    DeviceEnumError(DeviceEnumError),
    FailedToGetMixFormat(PlatformError),
    FailedToCreateThread,
    StreamAlreadyStarted,
    FailedToGetAudioClock(PlatformError),
}

/// How an entry point initializes the platform client: the stream
/// flags, the asked-for buffer latency, and the format the client is
/// initialized with — an explicit one, or `None` for the device's
/// own mix format.
#[derive(Debug, Clone, Copy)]
pub struct StreamSetupPlan {
    pub stream_flags: u32,
    pub buffer_duration_ms: u32,
    pub init_format: Option<SampleFormat>,
}

/// The buffer latency in the platform's reference-time unit.
pub fn buffer_duration_reftime(ms: u32) -> (r: i64)
    ensures
        r == ms * REFTIME_PER_MS,
{
    proof {
        assert(ms * REFTIME_PER_MS <= u32::MAX * REFTIME_PER_MS) by (nonlinear_arith)
            requires ms <= u32::MAX;
    }
    REFTIME_PER_MS * ms as i64
}

/// Reads a wait's result: the failure value carries the platform's
/// last error out as `WaitFailed`, any other result is handed
/// through.
pub fn get_wait_error(wait_event: u32, last_error: u32) -> (r: Result<u32, AudioClientError>)
    ensures
        wait_event == WAIT_FAILED ==> r == Err::<u32, AudioClientError>(
            AudioClientError::WaitFailed(last_error),
        ),
        wait_event != WAIT_FAILED ==> r == Ok::<u32, AudioClientError>(wait_event),
{
    if wait_event == WAIT_FAILED {
        return Err(AudioClientError::WaitFailed(last_error));
    }
    Ok(wait_event)
}

/// What the platform's activation-result query reported: whether the
/// reported result code is a success code, and whether an activated
/// interface was handed back at all.
#[derive(Debug, Clone, Copy, PartialEq, Eq, Structural)]
pub struct ActivationOutcome {
    pub result_ok: bool,
    pub has_interface: bool,
}

/// Reads the asynchronous activation handshake's outcome, in the
/// order the handshake runs:
///
/// - `wait` is the blocking wait on the completion event; its
///   failure is passed through, and in that case nothing further was
///   attempted — in particular no pump thread exists yet.
/// - `activation` is the platform's answer to fetching the
///   activation result: an error querying it, else what it reported.
///   An error result code, and equally a missing interface, is a
///   failed activation.
/// - `cast` is the platform's answer to casting the interface to the
///   audio client interface.
pub fn classify_activation(wait: Result<u32, AudioClientError>, activation: Result<
    ActivationOutcome,
    PlatformError,
>, cast: Result<(), PlatformError>) -> (r: Result<(), AudioClientError>)
    ensures
        match wait {
            Err(e) => r == Err::<(), AudioClientError>(e),
            Ok(_) => match activation {
                Err(e) => r == Err::<(), AudioClientError>(
                    AudioClientError::FailedToStartAudioClient(e),
                ),
                Ok(outcome) => if !outcome.result_ok || !outcome.has_interface {
                    r == Err::<(), AudioClientError>(
                        AudioClientError::FailedGettingActivationResult,
                    )
                } else {
                    match cast {
                        Err(e) => r == Err::<(), AudioClientError>(
                            AudioClientError::FailedToStartAudioClient(e),
                        ),
                        Ok(_) => r == Ok::<(), AudioClientError>(()),
                    }
                },
            },
        },
{
    match wait {
        Err(e) => Err(e),
        Ok(_) => match activation {
            Err(e) => Err(AudioClientError::FailedToStartAudioClient(e)),
            Ok(outcome) => {
                if !outcome.result_ok || !outcome.has_interface {
                    Err(AudioClientError::FailedGettingActivationResult)
                } else {
                    match cast {
                        Err(e) => Err(AudioClientError::FailedToStartAudioClient(e)),
                        Ok(_) => Ok(()),
                    }
                }
            },
        },
    }
}

/// A client with an optional caller-chosen format; each
/// `start_*` entry point turns it into one stream-setup plan.
#[derive(Debug)]
pub struct AudioClient {
    format: Option<SampleFormat>,
}

/// What an `AudioClient` holds, as mathematical values.
pub struct AudioClientView {
    pub format: Option<SampleFormat>,
}

impl View for AudioClient {
    type V = AudioClientView;

    closed spec fn view(&self) -> AudioClientView {
        AudioClientView { format: self.format }
    }
}

impl AudioClient {
    pub fn new() -> (r: AudioClient)
        ensures
            r@.format is None,
    {
        AudioClient { format: None }
    }

    /// Chooses the stream format explicitly.
    pub fn set_format(&mut self, format: SampleFormat) -> (r: Result<(), AudioClientError>)
        ensures
            final(self)@.format == Some(format),
            r == Ok::<(), AudioClientError>(()),
    {
        self.format = Some(format);
        Ok(())
    }

    pub fn get_format(&self) -> (r: Option<SampleFormat>)
        ensures
            r == self@.format,
    {
        self.format
    }

    /// The format a capture stream runs with when the caller chose
    /// none: the chosen format, else the stereo-float default.
    pub fn capture_format_or_default(&self) -> (f: SampleFormat)
        ensures
            match self@.format {
                Some(g) => f == g,
                None => f == SampleFormat::spec_default(),
            },
            self@.format is None ==> f.wf(),
    {
        match self.format {
            Some(f) => f,
            None => SampleFormat::default(),
        }
    }

    /// The plan for capturing one process's output: loopback capture
    /// with event-driven callbacks at the recording latency,
    /// initialized with the chosen format or the default.
    pub fn plan_recording_process(&self) -> (p: StreamSetupPlan)
        ensures
            p.stream_flags == AUDCLNT_STREAMFLAGS_LOOPBACK | AUDCLNT_STREAMFLAGS_EVENTCALLBACK,
            p.buffer_duration_ms == BUFFER_DURATION_MS,
            p.init_format == Some(
                match self@.format {
                    Some(g) => g,
                    None => SampleFormat::spec_default(),
                },
            ),
    {
        StreamSetupPlan {
            stream_flags: AUDCLNT_STREAMFLAGS_LOOPBACK | AUDCLNT_STREAMFLAGS_EVENTCALLBACK,
            buffer_duration_ms: BUFFER_DURATION_MS,
            init_format: Some(self.capture_format_or_default()),
        }
    }

    /// The plan for recording from an input device. A device fixed to
    /// playback is refused as `NotInputDevice` — and with that
    /// refusal setup ends before any thread exists. With no explicit
    /// device the default input device is meant; the client is
    /// initialized with the chosen format, else the device's mix
    /// format.
    pub fn plan_recording_device(&self, dev: Option<&Device>) -> (r: Result<
        StreamSetupPlan,
        AudioClientError,
    >)
        ensures
            match dev {
                Some(d) => d@.is_playback ==> r == Err::<StreamSetupPlan, AudioClientError>(
                    AudioClientError::NotInputDevice,
                ),
                None => true,
            },
            (match dev {
                Some(d) => !d@.is_playback,
                None => true,
            }) ==> (r matches Ok(p) && p.stream_flags == AUDCLNT_STREAMFLAGS_EVENTCALLBACK
                && p.buffer_duration_ms == BUFFER_DURATION_MS && p.init_format == self@.format),
    {
        match dev {
            Some(d) => {
                if d.is_playback() {
                    return Err(AudioClientError::NotInputDevice);
                }
            },
            None => (),
        }
        Ok(
            StreamSetupPlan {
                stream_flags: AUDCLNT_STREAMFLAGS_EVENTCALLBACK,
                buffer_duration_ms: BUFFER_DURATION_MS,
                init_format: self.format,
            },
        )
    }

    /// The plan for capturing what a render device plays. A device
    /// not fixed to playback is refused as `NotPlaybackDevice`, and
    /// setup ends before any thread exists. The client is always
    /// initialized with the device's mix format; the stream itself
    /// reports the chosen format or the default.
    pub fn plan_recording_loopback_device(&self, dev: Option<&Device>) -> (r: Result<
        StreamSetupPlan,
        AudioClientError,
    >)
        ensures
            match dev {
                Some(d) => !d@.is_playback ==> r == Err::<StreamSetupPlan, AudioClientError>(
                    AudioClientError::NotPlaybackDevice,
                ),
                None => true,
            },
            (match dev {
                Some(d) => d@.is_playback,
                None => true,
            }) ==> (r matches Ok(p) && p.stream_flags == (AUDCLNT_STREAMFLAGS_EVENTCALLBACK
                | AUDCLNT_STREAMFLAGS_LOOPBACK) && p.buffer_duration_ms == BUFFER_DURATION_MS
                && p.init_format is None),
    {
        match dev {
            Some(d) => {
                if !d.is_playback() {
                    return Err(AudioClientError::NotPlaybackDevice);
                }
            },
            None => (),
        }
        Ok(
            StreamSetupPlan {
                stream_flags: AUDCLNT_STREAMFLAGS_EVENTCALLBACK | AUDCLNT_STREAMFLAGS_LOOPBACK,
                buffer_duration_ms: BUFFER_DURATION_MS,
                init_format: None,
            },
        )
    }

    /// The plan for playing to a render device. A device not fixed
    /// to playback is refused as `NotPlaybackDevice`, and setup ends
    /// before any thread exists. Playback asks for the platform's
    /// default buffering (zero latency requested) and the device's
    /// mix format.
    pub fn plan_playback_device(&self, dev: Option<&Device>) -> (r: Result<
        StreamSetupPlan,
        AudioClientError,
    >)
        ensures
            match dev {
                Some(d) => !d@.is_playback ==> r == Err::<StreamSetupPlan, AudioClientError>(
                    AudioClientError::NotPlaybackDevice,
                ),
                None => true,
            },
            (match dev {
                Some(d) => d@.is_playback,
                None => true,
            }) ==> (r matches Ok(p) && p.stream_flags == AUDCLNT_STREAMFLAGS_EVENTCALLBACK
                && p.buffer_duration_ms == 0 && p.init_format is None),
    {
        match dev {
            Some(d) => {
                if !d.is_playback() {
                    return Err(AudioClientError::NotPlaybackDevice);
                }
            },
            None => (),
        }
        Ok(
            StreamSetupPlan {
                stream_flags: AUDCLNT_STREAMFLAGS_EVENTCALLBACK,
                buffer_duration_ms: 0,
                init_format: None,
            },
        )
    }
}

} // verus!
