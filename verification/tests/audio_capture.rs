use crossbeam_channel::bounded;
use std::collections::VecDeque;
use voicedown::audio_capture::{
    check_samples, deliver_chunk, packet_step, read_step, settle, take_frames, AudioCaptureError,
    AudioCapturer, CaptureState, ChunkFeeder, Delivery, PacketStep, CHUNK_SAMPLES,
};
use voicedown::wav_render::{render_wav, wav_header, HEADER_LEN};

#[test]
fn deliver_chunk_empty_channel_sends() {
    let (tx, rx) = bounded::<Vec<f32>>(1);
    let mut dropped = 0;
    assert!(deliver_chunk(&tx, vec![0.0], &mut dropped));
    assert_eq!(dropped, 0);
    assert_eq!(rx.try_recv(), Ok(vec![0.0]));
}

#[test]
fn deliver_chunk_full_counts_drop() {
    let (tx, _rx) = bounded::<Vec<f32>>(1);
    let mut dropped = 0;
    let _ = tx.try_send(vec![0.0]);
    assert!(!deliver_chunk(&tx, vec![1.0], &mut dropped));
    assert!(!deliver_chunk(&tx, vec![2.0], &mut dropped));
    assert_eq!(dropped, 2);
}

#[test]
fn deliver_chunk_disconnected_not_counted() {
    let (tx, rx) = bounded::<Vec<f32>>(1);
    let mut dropped = 0;
    drop(rx);
    assert!(!deliver_chunk(&tx, vec![0.0], &mut dropped));
    assert_eq!(dropped, 0);
}

#[test]
fn deliveries_are_settled() {
    let mut dropped = u64::MAX;
    assert!(settle(&Delivery::Sent, &mut dropped));
    assert!(!settle(&Delivery::Disconnected, &mut dropped));
    assert_eq!(dropped, u64::MAX);
    assert!(!settle(&Delivery::Full, &mut dropped));
    assert_eq!(dropped, 0);
}

#[test]
fn save_to_wav_empty_returns_error_without_file() {
    let cap: AudioCapturer<f32> = AudioCapturer::new_with_asr(0, true);
    let path = "voicedown_render_wav_test_should_not_exist.wav";
    let err = check_samples(cap.get_sample_count()).unwrap_err();
    assert!(matches!(err, AudioCaptureError::WavWriteFailed(_)));
    assert!(!std::path::Path::new(path).exists());
    assert_eq!(err.message(), "WAV 文件写入失败: 没有音频数据");
    assert!(check_samples(1).is_ok());
}

#[test]
fn capture_errors_have_messages() {
    assert_eq!(AudioCaptureError::ComInitFailed.message(), "COM 初始化失败");
    assert_eq!(
        AudioCaptureError::ActivationFailed("x".into()).message(),
        "进程 Loopback 激活失败: x"
    );
    assert_eq!(AudioCaptureError::InitFailed("x".into()).message(), "初始化音频客户端失败: x");
    assert_eq!(AudioCaptureError::StartFailed("x".into()).message(), "启动音频流失败: x");
    assert_eq!(AudioCaptureError::CaptureError("x".into()).message(), "捕获错误: x");
}

#[test]
fn recordings_start_and_end() {
    let mut s = CaptureState::Idle;
    s.stop();
    assert_eq!(s, CaptureState::Idle);
    assert!(s.has_ended());
    assert!(s.start());
    assert!(!s.start());
    assert_eq!(s, CaptureState::Capturing);
    assert!(!s.has_ended());
    s.stop();
    assert!(s.is_stopping());
    s.stop();
    assert_eq!(s, CaptureState::Stopping);
    s.end(Ok(()));
    assert_eq!(s, CaptureState::Idle);
    s.end(Err(AudioCaptureError::ComInitFailed));
    assert_eq!(s, CaptureState::Error("COM 初始化失败".into()));
    assert_ne!(s, CaptureState::Error("x".into()));
    s.end(Ok(()));
    assert_eq!(s, CaptureState::Error("COM 初始化失败".into()));
    assert!(s.has_ended());
    assert!(s.start());
}

#[test]
fn packets_are_read_where_there_are_some() {
    assert!(matches!(packet_step(Ok(Some(3))), PacketStep::Read));
    assert!(matches!(packet_step(Ok(Some(0))), PacketStep::Skip));
    assert!(matches!(packet_step(Ok(None)), PacketStep::Skip));
    match packet_step(Err("gone".into())) {
        PacketStep::Leave(e) => assert_eq!(e.message(), "捕获错误: gone"),
        _ => panic!("an error"),
    }
}

#[test]
fn a_failed_read_ends_with_its_message() {
    assert!(read_step(Ok(())).is_ok());
    assert_eq!(read_step(Err("lost".into())).unwrap_err().message(), "捕获错误: lost");
}

#[test]
fn every_way_out_hands_on_the_rest_and_stops_the_stream() {
    let mut c: AudioCapturer<f32> = AudioCapturer::new_with_asr(1, true);
    c.sample(1.0);
    c.sample(2.0);
    let end = c.end_step(read_step(Err("lost".into())).err());
    assert_eq!(end.tail, Some(vec![1.0, 2.0]));
    assert!(end.stop_stream);
    assert_eq!(end.outcome.unwrap_err().message(), "捕获错误: lost");
    assert_eq!(c.samples(), &vec![1.0, 2.0]);
    let end = c.end_step(None);
    assert!(end.tail.is_none());
    assert!(end.stop_stream);
    assert!(end.outcome.is_ok());
}

#[test]
fn frames_are_taken_from_bytes() {
    let mut q: VecDeque<u8> = VecDeque::new();
    for s in [1.5f32, -2.0, 0.25] {
        q.extend(s.to_le_bytes());
    }
    let frames = take_frames(&mut q);
    assert_eq!(frames, vec![(1.5f32.to_bits(), (-2.0f32).to_bits())]);
    assert_eq!(q.len(), 4);
    q.extend(9.0f32.to_le_bytes());
    q.push_back(1);
    assert_eq!(take_frames(&mut q), vec![(0.25f32.to_bits(), 9.0f32.to_bits())]);
    assert_eq!(q, VecDeque::from(vec![1u8]));
    assert!(take_frames(&mut q).is_empty());
}

#[test]
fn chunks_hold_all_the_samples() {
    let mut f: ChunkFeeder<f32> = ChunkFeeder::new();
    for i in 0..CHUNK_SAMPLES - 1 {
        f.push(i as f32);
    }
    assert!(f.take_chunk().is_none());
    f.push(-1.0);
    f.push(-2.0);
    let chunk = f.take_chunk().unwrap();
    assert_eq!(chunk.len(), CHUNK_SAMPLES + 1);
    assert_eq!(chunk[0], 0.0);
    assert_eq!(chunk[CHUNK_SAMPLES], -2.0);
    assert!(f.take_tail().is_none());
    f.push(3.0);
    assert_eq!(f.take_tail(), Some(vec![3.0]));
    assert!(f.take_tail().is_none());
}

#[test]
fn silent_chunks_are_thinned() {
    let mut f: ChunkFeeder<u8> = ChunkFeeder::new();
    let fed: Vec<bool> = (0..11).map(|_| f.should_feed(true)).collect();
    let expected: Vec<bool> = (1..12).map(|n| n % 5 == 0).collect();
    assert_eq!(fed, expected);
    assert!(f.should_feed(false));
    for _ in 0..4 {
        assert!(!f.should_feed(true));
    }
    assert!(f.should_feed(true));
}

#[test]
fn render_wav_full_layout_three_samples() {
    let buf = render_wav(&[0, 32767, -32767], 48000);
    assert_eq!(buf.len(), 50);
    assert_eq!(&buf[0..4], b"RIFF");
    assert_eq!(&buf[8..12], b"WAVE");
    assert_eq!(&buf[12..16], b"fmt ");
    assert_eq!(&buf[36..40], b"data");
    assert_eq!(u32::from_le_bytes([buf[40], buf[41], buf[42], buf[43]]), 6);
    assert_eq!(&buf[44..46], &[0x00, 0x00]);
    assert_eq!(&buf[46..48], &[0xFF, 0x7F]);
    assert_eq!(&buf[48..50], &[0x01, 0x80]);
}

#[test]
fn render_wav_sample_conversion() {
    let hi = render_wav(&[32767], 48000);
    assert_eq!(&hi[44..46], &[0xFF, 0x7F]);
    let lo = render_wav(&[-32767], 48000);
    assert_eq!(&lo[44..46], &[0x01, 0x80]);
    let min = render_wav(&[-32768, -1, 256], 48000);
    assert_eq!(&min[44..50], &[0x00, 0x80, 0xFF, 0xFF, 0x00, 0x01]);
}

#[test]
fn render_wav_writes_parametric_rate() {
    let buf = render_wav(&[0], 16000);
    assert_eq!(u32::from_le_bytes([buf[24], buf[25], buf[26], buf[27]]), 16000);
    assert_eq!(u32::from_le_bytes([buf[28], buf[29], buf[30], buf[31]]), 32000);
}

#[test]
fn render_wav_empty_samples_valid_header() {
    let buf = render_wav(&[], 48000);
    assert_eq!(buf.len(), 44);
    assert_eq!(&buf[0..4], b"RIFF");
    assert_eq!(&buf[36..40], b"data");
    assert_eq!(u32::from_le_bytes([buf[40], buf[41], buf[42], buf[43]]), 0);
    assert_eq!(u32::from_le_bytes([buf[4], buf[5], buf[6], buf[7]]), 36);
}

#[test]
fn wav_headers_are_exact() {
    let h = wav_header(3, 48000);
    assert_eq!(h.len(), HEADER_LEN);
    let mut expected = Vec::new();
    expected.extend(b"RIFF");
    expected.extend(42u32.to_le_bytes());
    expected.extend(b"WAVEfmt ");
    expected.extend(16u32.to_le_bytes());
    expected.extend(1u16.to_le_bytes());
    expected.extend(1u16.to_le_bytes());
    expected.extend(48000u32.to_le_bytes());
    expected.extend(96000u32.to_le_bytes());
    expected.extend(2u16.to_le_bytes());
    expected.extend(16u16.to_le_bytes());
    expected.extend(b"data");
    expected.extend(6u32.to_le_bytes());
    assert_eq!(h, expected);
}

#[test]
fn samples_are_read_back() {
    let samples: Vec<i16> = (-300..300).map(|n: i16| n * 109).collect();
    let buf = render_wav(&samples, 48000);
    let back: Vec<i16> =
        buf[44..].chunks(2).map(|b| i16::from_le_bytes([b[0], b[1]])).collect();
    assert_eq!(back, samples);
}

#[test]
fn lost_chunks_leave_the_recording_whole() {
    let (tx, rx) = bounded::<Vec<f32>>(1);
    let mut c: AudioCapturer<f32> = AudioCapturer::new_with_asr(42, false);
    assert_eq!(c.target(), (42, false));
    assert_eq!(c.get_sample_rate(), 48000);
    assert!(c.start_capturing());
    assert!(!c.start_capturing());
    let mut chunks = Vec::new();
    for i in 0..3 * CHUNK_SAMPLES + 5 {
        c.sample(i as f32);
        if let Some(chunk) = c.take_chunk() {
            chunks.extend(chunk.clone());
            let sent = c.deliver(&tx, chunk);
            assert_eq!(sent, chunks.len() == CHUNK_SAMPLES);
        }
    }
    assert_eq!(c.get_dropped_count(), 2);
    chunks.extend(c.take_tail().unwrap());
    assert!(c.take_tail().is_none());
    assert_eq!(&chunks, c.samples());
    assert_eq!(c.get_sample_count(), 3 * CHUNK_SAMPLES + 5);
    assert_eq!(rx.try_recv().unwrap().len(), CHUNK_SAMPLES);
    drop(rx);
    assert!(!c.deliver(&tx, vec![]));
    assert!(!c.settle(&Delivery::Full));
    assert_eq!(c.get_dropped_count(), 3);
    assert!((0..4).all(|_| !c.should_feed(true)));
    assert!(c.should_feed(true));
    c.stop_capturing();
    c.end_capturing(Err(AudioCaptureError::ComInitFailed));
    assert_eq!(c.get_state(), CaptureState::Error("COM 初始化失败".into()));
    assert_eq!(c.get_sample_count(), 3 * CHUNK_SAMPLES + 5);
}
