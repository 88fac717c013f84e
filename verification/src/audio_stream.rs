//! The buffer pump and the stream lifecycle: what each iteration of
//! the capture and playback loops decides, the packets handed to the
//! data callback, and the shutdown path every running stream takes.
//!
//! The loops' platform work — waiting on the event pair, acquiring
//! and releasing hardware buffers, starting and stopping the client,
//! the pump thread itself — runs at the operating-system boundary.
//! Each iteration hands its wait result and frame counts in and acts
//! on the decision computed here, so that what the callback may see
//! is fixed by these contracts: never an empty packet, never more
//! than the frames times the frame size.

use vstd::prelude::*;

use crate::audio_client::{AudioClientError, WAIT_OBJECT_0};
use crate::sample_format::SampleFormat;
use crate::stream_instant::StreamInstant;

verus! {

/// Buffer-release flag telling the platform mixer the segment is
/// silence.
pub const AUDCLNT_BUFFERFLAGS_SILENT: u32 = 2;

/// One captured buffer, lent to the data callback for the duration
/// of a single invocation: the bytes, and the capture-time
/// timestamp.
pub struct CapturePacket<'a> {
    data: &'a [u8],
    timestamp: StreamInstant,
}

impl<'a> CapturePacket<'a> {
    pub closed spec fn spec_data(self) -> Seq<u8> {
        self.data@
    }

    pub closed spec fn spec_timestamp(self) -> StreamInstant {
        self.timestamp
    }

    /// Lends `data` out as one packet stamped `timestamp`.
    pub fn new(data: &'a [u8], timestamp: StreamInstant) -> (p: CapturePacket<'a>)
        ensures
            p.spec_data() == data@,
            p.spec_timestamp() == timestamp,
    {
        CapturePacket { data, timestamp }
    }

    pub fn data(&self) -> (r: &'a [u8])
        ensures
            r@ == self.spec_data(),
    {
        self.data
    }

    pub fn timestamp(&self) -> (r: &StreamInstant)
        ensures
            *r == self.spec_timestamp(),
    {
        &self.timestamp
    }
}

/// The platform timestamps buffers in 100-nanosecond performance
/// counter ticks; a stream instant counts nanoseconds.
pub fn convert_instant(buffer_qpc_position: u64) -> (r: StreamInstant)
    ensures
        r.spec_as_nanos() == buffer_qpc_position * 100,
{
    proof {
        let n = buffer_qpc_position * 100;
        vstd::arithmetic::div_mod::lemma_div_is_ordered(
            n as int,
            u64::MAX * 100,
            1_000_000_000,
        );
        StreamInstant::lemma_from_nanos_exact(n as int);
    }
    let qpc_nanos = buffer_qpc_position as i128 * 100;
    StreamInstant::from_nanos_i128(qpc_nanos).unwrap()
}

/// What one capture iteration does once its wait returned.
#[derive(Debug, Clone, Copy, PartialEq, Eq, Structural)]
pub enum CaptureIterationAction {
    /// The stop handle was signaled: leave the loop without touching
    /// the pending packet.
    StopRequested,
    /// A spurious wake with no frames: the data callback is not
    /// invoked this iteration.
    SkipEmpty,
    /// Acquire the buffer and invoke the data callback with exactly
    /// `byte_len` bytes.
    Deliver { byte_len: usize },
}

/// Decides one capture iteration from the wait's result and the
/// pending packet size. The data callback is invoked only through
/// `Deliver`, never for an empty packet, and always with exactly
/// `frames_available * block_align` bytes — whole frames only.
pub fn capture_iteration(wait_res: u32, frames_available: u32, block_align: u16) -> (a:
    CaptureIterationAction)
    requires
        frames_available * block_align <= usize::MAX,
    ensures
        wait_res == WAIT_OBJECT_0 + 1 ==> a == CaptureIterationAction::StopRequested,
        wait_res != WAIT_OBJECT_0 + 1 && frames_available == 0 ==> a
            == CaptureIterationAction::SkipEmpty,
        wait_res != WAIT_OBJECT_0 + 1 && frames_available > 0 ==> a
            == (CaptureIterationAction::Deliver {
            byte_len: (frames_available * block_align) as usize,
        }),
        a is Deliver ==> frames_available > 0,
{
    if wait_res == WAIT_OBJECT_0 + 1 {
        CaptureIterationAction::StopRequested
    } else if frames_available == 0 {
        CaptureIterationAction::SkipEmpty
    } else {
        CaptureIterationAction::Deliver {
            byte_len: frames_available as usize * block_align as usize,
        }
    }
}

/// What one playback iteration does once its wait returned.
#[derive(Debug, Clone, Copy, PartialEq, Eq, Structural)]
pub enum PlaybackIterationAction {
    /// The stop handle was signaled: leave the loop.
    StopRequested,
    /// The ring buffer is full: nothing to fill this iteration.
    SkipFull,
    /// Acquire `frames` frames and invoke the data callback with a
    /// writable view of exactly `byte_len` bytes.
    Fill { frames: u32, byte_len: usize },
}

/// Decides one playback iteration from the wait's result, the fixed
/// buffer size and the current padding: the free room is filled
/// whenever there is any, so the ring buffer keeps being fed while
/// the stream runs.
pub fn playback_iteration(wait_res: u32, buffer_size: u32, padding: u32, block_align: u16) -> (a:
    PlaybackIterationAction)
    requires
        padding <= buffer_size,
        (buffer_size - padding) * block_align <= usize::MAX,
    ensures
        wait_res == WAIT_OBJECT_0 + 1 ==> a == PlaybackIterationAction::StopRequested,
        wait_res != WAIT_OBJECT_0 + 1 && buffer_size == padding ==> a
            == PlaybackIterationAction::SkipFull,
        wait_res != WAIT_OBJECT_0 + 1 && padding < buffer_size ==> a
            == (PlaybackIterationAction::Fill {
            frames: (buffer_size - padding) as u32,
            byte_len: ((buffer_size - padding) * block_align) as usize,
        }),
        a matches PlaybackIterationAction::Fill { frames, .. } ==> frames > 0,
{
    if wait_res == WAIT_OBJECT_0 + 1 {
        return PlaybackIterationAction::StopRequested;
    }
    let available_frames = buffer_size - padding;
    if available_frames == 0 {
        PlaybackIterationAction::SkipFull
    } else {
        PlaybackIterationAction::Fill {
            frames: available_frames,
            byte_len: available_frames as usize * block_align as usize,
        }
    }
}

/// The flags a filled playback buffer is released with: a callback
/// that reported itself inactive has its segment marked silent, so
/// the mixer plays silence rather than stale bytes; an active
/// callback's segment carries no flags.
pub fn release_flags(is_active: bool) -> (f: u32)
    ensures
        is_active ==> f == 0,
        !is_active ==> f == AUDCLNT_BUFFERFLAGS_SILENT,
{
    if is_active {
        0
    } else {
        AUDCLNT_BUFFERFLAGS_SILENT
    }
}

/// A stream not yet running: the resolved format, waiting for
/// `start` to commit a pump thread. Starting consumes the
/// configuration, so no stream is started twice.
#[derive(Debug)]
pub struct AudioStreamConfig {
    format: SampleFormat,
}

impl AudioStreamConfig {
    pub closed spec fn spec_format(self) -> SampleFormat {
        self.format
    }

    /// A configured stream that will run with `format`.
    pub fn new(format: SampleFormat) -> (c: AudioStreamConfig)
        ensures
            c.spec_format() == format,
    {
        AudioStreamConfig { format }
    }

    /// The format the stream will run with — fixed from here on.
    pub fn format(&self) -> (f: &SampleFormat)
        ensures
            *f == self.spec_format(),
    {
        &self.format
    }

    /// Commits the stream: `spawned` is the boundary's answer to
    /// creating the pump thread. Success hands a running stream
    /// over; failure is `FailedToCreateThread`. Either way the
    /// configuration is consumed.
    pub fn start(self, spawned: bool) -> (r: Result<AudioStream, AudioClientError>)
        ensures
            spawned ==> (r matches Ok(s) && s@.running && !s@.stop_handle_released),
            !spawned ==> r == Err::<AudioStream, AudioClientError>(
                AudioClientError::FailedToCreateThread,
            ),
    {
        if spawned {
            Ok(AudioStream { running: true, stop_handle_released: false })
        } else {
            Err(AudioClientError::FailedToCreateThread)
        }
    }
}

/// A running stream: a pump thread to join and a stop-event handle
/// to release. Dropping it and stopping it take the same shutdown
/// path.
#[derive(Debug)]
pub struct AudioStream {
    running: bool,
    stop_handle_released: bool,
}

/// What an `AudioStream` holds, as mathematical values.
pub struct AudioStreamView {
    pub running: bool,
    pub stop_handle_released: bool,
}

impl View for AudioStream {
    type V = AudioStreamView;

    closed spec fn view(&self) -> AudioStreamView {
        AudioStreamView {
            running: self.running,
            stop_handle_released: self.stop_handle_released,
        }
    }
}

/// Where shutdown always lands, and whether this particular call
/// released the stop-event handle.
pub open spec fn spec_shutdown(s: AudioStreamView) -> (AudioStreamView, bool) {
    (AudioStreamView { running: false, stop_handle_released: true }, !s.stop_handle_released)
}

impl AudioStream {
    /// Signals the stop event, joins the pump thread and releases
    /// the stop-event handle — the one path both an explicit stop
    /// and dropping the stream take. After it the pump thread is
    /// gone and the handle is released; a stream already shut down
    /// is left alone, so nothing is released twice.
    pub fn shutdown(&mut self) -> (did_release: bool)
        ensures
            (final(self)@, did_release) == spec_shutdown(old(self)@),
    {
        let did_release = !self.stop_handle_released;
        self.running = false;
        self.stop_handle_released = true;
        did_release
    }

    /// Stops the stream. Consuming it here or dropping it later is
    /// the same shutdown.
    pub fn stop_recording(self) {
        let mut stream = self;
        let _ = stream.shutdown();
    }
}

/// Shutting a stream down always ends it — not running, handle
/// released — and shutting it down again changes nothing and
/// releases nothing: no double release.
pub proof fn lemma_shutdown_idempotent(s0: AudioStreamView)
    ensures
        ({
            let (s1, first) = spec_shutdown(s0);
            let (s2, second) = spec_shutdown(s1);
            &&& !s1.running && s1.stop_handle_released
            &&& s2 == s1
            &&& !second
        }),
{
}

} // verus!
