use win_acapture_rs::activation_params::{
    SafeActivationParams, AUDIOCLIENT_ACTIVATION_TYPE_PROCESS_LOOPBACK,
    PROCESS_LOOPBACK_MODE_INCLUDE_TARGET_PROCESS_TREE,
};
use win_acapture_rs::audio_client::{
    buffer_duration_reftime, classify_activation, get_wait_error, ActivationOutcome, AudioClient,
    AudioClientError, AUDCLNT_STREAMFLAGS_EVENTCALLBACK, AUDCLNT_STREAMFLAGS_LOOPBACK,
    BUFFER_DURATION_MS, WAIT_FAILED, WAIT_OBJECT_0,
};
use win_acapture_rs::audio_stream::{
    capture_iteration, convert_instant, playback_iteration, release_flags, AudioStreamConfig,
    CaptureIterationAction, CapturePacket, PlaybackIterationAction, AUDCLNT_BUFFERFLAGS_SILENT,
};
use win_acapture_rs::manager::{Device, PlatformError};
use win_acapture_rs::sample_format::{FormatTag, SampleFormat};

fn playback_device() -> Device {
    Device::from(String::from("render-endpoint"), true)
}

fn capture_device() -> Device {
    Device::from(String::from("capture-endpoint"), false)
}

#[test]
fn recording_refuses_playback_device() {
    let client = AudioClient::new();
    let dev = playback_device();
    let r = client.plan_recording_device(Some(&dev));
    assert!(matches!(r, Err(AudioClientError::NotInputDevice)));
}

#[test]
fn playback_refuses_capture_device() {
    let client = AudioClient::new();
    let dev = capture_device();
    let r = client.plan_playback_device(Some(&dev));
    assert!(matches!(r, Err(AudioClientError::NotPlaybackDevice)));
    let l = client.plan_recording_loopback_device(Some(&dev));
    assert!(matches!(l, Err(AudioClientError::NotPlaybackDevice)));
}

#[test]
fn recording_device_plan_uses_event_callbacks() {
    let mut client = AudioClient::new();
    let f = SampleFormat::new(FormatTag::WaveFormatPcm, 2, 48000, 16);
    client.set_format(f).unwrap();
    let dev = capture_device();
    let p = client.plan_recording_device(Some(&dev)).unwrap();
    assert_eq!(p.stream_flags, AUDCLNT_STREAMFLAGS_EVENTCALLBACK);
    assert_eq!(p.buffer_duration_ms, BUFFER_DURATION_MS);
    assert_eq!(p.init_format, Some(f));
    let q = client.plan_recording_device(None).unwrap();
    assert_eq!(q.init_format, Some(f));
}

#[test]
fn process_plan_is_loopback_with_default_format() {
    let client = AudioClient::new();
    let p = client.plan_recording_process();
    assert_eq!(p.stream_flags, AUDCLNT_STREAMFLAGS_LOOPBACK | AUDCLNT_STREAMFLAGS_EVENTCALLBACK);
    assert_eq!(p.buffer_duration_ms, BUFFER_DURATION_MS);
    assert_eq!(p.init_format, Some(SampleFormat::default()));
}

#[test]
fn loopback_plan_takes_mix_format() {
    let client = AudioClient::new();
    let dev = playback_device();
    let p = client.plan_recording_loopback_device(Some(&dev)).unwrap();
    assert_eq!(
        p.stream_flags,
        AUDCLNT_STREAMFLAGS_EVENTCALLBACK | AUDCLNT_STREAMFLAGS_LOOPBACK
    );
    assert!(p.init_format.is_none());
}

#[test]
fn playback_plan_asks_for_platform_default_buffering() {
    let client = AudioClient::new();
    let p = client.plan_playback_device(None).unwrap();
    assert_eq!(p.stream_flags, AUDCLNT_STREAMFLAGS_EVENTCALLBACK);
    assert_eq!(p.buffer_duration_ms, 0);
    assert!(p.init_format.is_none());
}

#[test]
fn client_format_is_sticky() {
    let mut client = AudioClient::new();
    assert!(client.get_format().is_none());
    let f = SampleFormat::default();
    client.set_format(f).unwrap();
    assert_eq!(client.get_format(), Some(f));
    assert_eq!(client.capture_format_or_default(), f);
}

#[test]
fn buffer_duration_in_reference_time() {
    assert_eq!(buffer_duration_reftime(BUFFER_DURATION_MS), 200_000);
    assert_eq!(buffer_duration_reftime(0), 0);
}

#[test]
fn capture_skips_empty_packets() {
    let a = capture_iteration(WAIT_OBJECT_0, 0, 4);
    assert_eq!(a, CaptureIterationAction::SkipEmpty);
    assert!(!matches!(a, CaptureIterationAction::Deliver { .. }));
}

#[test]
fn capture_stops_on_stop_handle() {
    let a = capture_iteration(WAIT_OBJECT_0 + 1, 480, 4);
    assert_eq!(a, CaptureIterationAction::StopRequested);
}

#[test]
fn capture_delivers_whole_frames() {
    let a = capture_iteration(WAIT_OBJECT_0, 480, 4);
    assert_eq!(a, CaptureIterationAction::Deliver { byte_len: 1920 });
}

#[test]
fn recorded_bytes_are_multiples_of_block_align() {
    // A capture run on an input device with {PCM, 2 ch, 48 kHz,
    // 16 bit}: every delivered packet is whole frames of 4 bytes, so
    // whatever the callback accumulates is a multiple of 4.
    let client = AudioClient::new();
    let dev = capture_device();
    let f = SampleFormat::new(FormatTag::WaveFormatPcm, 2, 48000, 16);
    assert!(client.plan_recording_device(Some(&dev)).is_ok());
    let block_align = f.block_align();
    assert_eq!(block_align, 4);

    let mut accumulated: Vec<u8> = Vec::new();
    let packet_frames: [u32; 5] = [480, 123, 0, 57, 480];
    for frames in packet_frames {
        match capture_iteration(WAIT_OBJECT_0, frames, block_align) {
            CaptureIterationAction::Deliver { byte_len } => {
                let data = vec![0u8; byte_len];
                let packet = CapturePacket::new(&data, convert_instant(0));
                accumulated.extend_from_slice(packet.data());
            }
            CaptureIterationAction::SkipEmpty => {}
            CaptureIterationAction::StopRequested => break,
        }
    }
    assert_eq!(
        capture_iteration(WAIT_OBJECT_0 + 1, 480, block_align),
        CaptureIterationAction::StopRequested
    );
    assert!(accumulated.len() > 0);
    assert_eq!(accumulated.len() % block_align as usize, 0);
}

#[test]
fn activation_wait_failure_reports_wait_failed() {
    // The completion signal never fires and the wait itself fails:
    // the handshake reports WaitFailed and no stream exists to spawn
    // a thread for.
    let wait = get_wait_error(WAIT_FAILED, 87);
    assert_eq!(wait, Err(AudioClientError::WaitFailed(87)));
    let reported = ActivationOutcome { result_ok: true, has_interface: true };
    let outcome = classify_activation(wait, Ok(reported), Ok(()));
    assert_eq!(outcome, Err(AudioClientError::WaitFailed(87)));
}

#[test]
fn activation_without_interface_fails() {
    let wait = get_wait_error(WAIT_OBJECT_0, 0);
    assert_eq!(wait, Ok(WAIT_OBJECT_0));
    let no_interface = ActivationOutcome { result_ok: true, has_interface: false };
    let outcome = classify_activation(wait, Ok(no_interface), Ok(()));
    assert_eq!(outcome, Err(AudioClientError::FailedGettingActivationResult));
    let error_code = ActivationOutcome { result_ok: false, has_interface: true };
    let outcome = classify_activation(Ok(0), Ok(error_code), Ok(()));
    assert_eq!(outcome, Err(AudioClientError::FailedGettingActivationResult));
    let failed = classify_activation(
        Ok(0),
        Err(PlatformError { code: -1 }),
        Ok(()),
    );
    assert_eq!(
        failed,
        Err(AudioClientError::FailedToStartAudioClient(PlatformError { code: -1 }))
    );
    let good = ActivationOutcome { result_ok: true, has_interface: true };
    let cast_failed = classify_activation(Ok(0), Ok(good), Err(PlatformError { code: -2 }));
    assert_eq!(
        cast_failed,
        Err(AudioClientError::FailedToStartAudioClient(PlatformError { code: -2 }))
    );
    let fine = classify_activation(Ok(0), Ok(good), Ok(()));
    assert_eq!(fine, Ok(()));
}

#[test]
fn playback_fills_free_room() {
    let a = playback_iteration(WAIT_OBJECT_0, 960, 480, 8);
    assert_eq!(a, PlaybackIterationAction::Fill { frames: 480, byte_len: 3840 });
}

#[test]
fn playback_skips_full_buffer() {
    let a = playback_iteration(WAIT_OBJECT_0, 960, 960, 8);
    assert_eq!(a, PlaybackIterationAction::SkipFull);
}

#[test]
fn playback_stops_on_stop_handle() {
    let a = playback_iteration(WAIT_OBJECT_0 + 1, 960, 0, 8);
    assert_eq!(a, PlaybackIterationAction::StopRequested);
}

#[test]
fn inactive_playback_releases_silence() {
    // The callback reports inactive on every invocation: every
    // released buffer carries the silence flag.
    let mut flags_seen: Vec<u32> = Vec::new();
    for _ in 0..5 {
        let is_active = false;
        flags_seen.push(release_flags(is_active));
    }
    assert!(flags_seen.iter().all(|&f| f == AUDCLNT_BUFFERFLAGS_SILENT));
    assert_eq!(release_flags(true), 0);
}

#[test]
fn stream_config_reports_its_format() {
    let f = SampleFormat::new(FormatTag::WaveFormatPcm, 2, 48000, 16);
    let config = AudioStreamConfig::new(f);
    assert_eq!(*config.format(), f);
}

#[test]
fn start_failure_is_failed_to_create_thread() {
    let config = AudioStreamConfig::new(SampleFormat::default());
    let r = config.start(false);
    assert!(matches!(r, Err(AudioClientError::FailedToCreateThread)));
}

#[test]
fn shutdown_releases_exactly_once() {
    let config = AudioStreamConfig::new(SampleFormat::default());
    let mut stream = config.start(true).unwrap();
    assert!(stream.shutdown());
    assert!(!stream.shutdown());
    assert!(!stream.shutdown());
}

#[test]
fn stop_recording_consumes_the_stream() {
    let config = AudioStreamConfig::new(SampleFormat::default());
    let stream = config.start(true).unwrap();
    stream.stop_recording();
}

#[test]
fn capture_packet_lends_data_and_timestamp() {
    let data: Vec<u8> = vec![1, 2, 3, 4];
    let ts = convert_instant(20_000_000);
    let packet = CapturePacket::new(&data, ts);
    assert_eq!(packet.data(), &[1, 2, 3, 4]);
    assert_eq!(*packet.timestamp(), ts);
}

#[test]
fn activation_params_target_the_process_tree() {
    let p = SafeActivationParams::new(4242);
    assert_eq!(p.activation_type, AUDIOCLIENT_ACTIVATION_TYPE_PROCESS_LOOPBACK);
    assert_eq!(p.process_loopback_mode, PROCESS_LOOPBACK_MODE_INCLUDE_TARGET_PROCESS_TREE);
    assert_eq!(p.target_process_id, 4242);
}
