use voicedown::audio_capture::CaptureState;
use voicedown::capture_finalizer::{
    capture_has_ended, dir_refused, drain_is_over, not_enabled, save_capture_artifacts,
    ExportPhase, SaveTask, Saving, WriteFacts, WriteOutcome, DRAIN_TIMEOUT_MS,
};
use voicedown::export_config::{ExportConfig, ExportPathError, TextFormat};

fn config(enabled: bool) -> ExportConfig {
    ExportConfig { enabled, text_format: TextFormat::Txt, export_dir: "d".into() }
}

fn written(path: &str, samples: u64) -> WriteOutcome {
    WriteOutcome::Written { path: path.into(), samples }
}

fn all_written() -> WriteFacts {
    WriteFacts { audio: written("w", 9), text: written("t", 0), optimized: written("o", 0) }
}

#[test]
fn the_end_is_waited_for() {
    assert!(capture_has_ended(None));
    assert!(capture_has_ended(Some(&CaptureState::Idle)));
    assert!(capture_has_ended(Some(&CaptureState::Error("e".into()))));
    assert!(!capture_has_ended(Some(&CaptureState::Stopping)));
    assert!(!capture_has_ended(Some(&CaptureState::Capturing)));
    assert!(drain_is_over(false, false, false, 0));
    assert!(!drain_is_over(true, false, false, DRAIN_TIMEOUT_MS - 1));
    assert!(!drain_is_over(false, true, false, 0));
    assert!(!drain_is_over(false, false, true, 0));
    assert!(drain_is_over(true, true, true, DRAIN_TIMEOUT_MS));
}

#[test]
fn phases_have_names() {
    assert_eq!(ExportPhase::Draining.name(), "draining");
    assert_eq!(ExportPhase::WritingAudio.name(), "writing-audio");
    assert_eq!(ExportPhase::WritingText.name(), "writing-text");
}

#[test]
fn nothing_is_written_where_it_cannot_be() {
    let d = not_enabled();
    assert_eq!(d.skipped.as_deref(), Some("导出未启用"));
    assert!(d.error.is_none() && d.wav_path.is_none());
    let d = dir_refused(&ExportPathError::NotADirectory);
    assert_eq!(d.error.as_deref(), Some("导出路径无效: 路径指向的是文件，不是目录"));
    assert!(d.skipped.is_none());
    let ok = Ok("d".to_string());
    let d = save_capture_artifacts(&config(false), &ok, "b", true, "t", "o", all_written());
    assert_eq!(d.skipped.as_deref(), Some("导出未启用"));
    let err = Err(ExportPathError::InvalidChars);
    let d = save_capture_artifacts(&config(true), &err, "b", true, "t", "o", all_written());
    assert!(d.error.unwrap().starts_with("导出路径无效: "));
}

#[test]
fn all_files_are_written() {
    let ok = Ok("d".to_string());
    let d = save_capture_artifacts(&config(true), &ok, "b", true, "t", "o", all_written());
    assert_eq!(d.wav_path.as_deref(), Some("w"));
    assert_eq!(d.txt_path.as_deref(), Some("t"));
    assert_eq!(d.optimized_path.as_deref(), Some("o"));
    assert_eq!(d.samples, 9);
    assert!(d.skipped.is_none());
    assert!(d.error.is_none());
}

#[test]
fn a_failure_does_not_stop_the_others() {
    let ok = Ok("d".to_string());
    let facts = WriteFacts {
        audio: WriteOutcome::Failed("满".into()),
        text: written("t", 0),
        optimized: WriteOutcome::Failed("坏".into()),
    };
    let d = save_capture_artifacts(&config(true), &ok, "b", true, "t", "o", facts);
    assert!(d.wav_path.is_none());
    assert_eq!(d.txt_path.as_deref(), Some("t"));
    assert!(d.optimized_path.is_none());
    assert_eq!(d.samples, 0);
    assert_eq!(d.error.as_deref(), Some("音频: 满; 优化文本: 坏"));
    assert!(d.skipped.is_none());
    let facts = WriteFacts {
        audio: WriteOutcome::NoCapturer,
        text: WriteOutcome::Failed("x".into()),
        optimized: written("o", 0),
    };
    let d = save_capture_artifacts(&config(true), &ok, "b", true, "t", "o", facts);
    assert_eq!(d.error.as_deref(), Some("无捕获器; 文本: x"));
    assert_eq!(d.optimized_path.as_deref(), Some("o"));
}

#[test]
fn there_may_be_nothing_to_write() {
    let ok = Ok("d".to_string());
    let d = save_capture_artifacts(&config(true), &ok, "b", false, "", "", all_written());
    assert_eq!(d.skipped.as_deref(), Some("无可导出内容"));
    assert!(d.error.is_none());
}

#[test]
fn files_are_written_one_by_one() {
    let mut s = Saving::new(&config(true), "b", true, "原文", "优化");
    assert_eq!(s.phase(), Some(ExportPhase::WritingAudio));
    match s.task() {
        SaveTask::Audio { name } => assert_eq!(name, "b.wav"),
        _ => panic!("the sound comes first"),
    }
    s.report(written("w", 5));
    assert_eq!(s.phase(), Some(ExportPhase::WritingText));
    match s.task() {
        SaveTask::Text { name, content } => {
            assert_eq!(name, "b.txt");
            assert_eq!(content, "原文");
        }
        _ => panic!("the transcript comes next"),
    }
    s.report(WriteOutcome::Failed("e".into()));
    assert_eq!(s.phase(), None);
    match s.task() {
        SaveTask::Text { name, content } => {
            assert_eq!(name, "b_optimized.txt");
            assert_eq!(content, "优化");
        }
        _ => panic!("the improved text comes last"),
    }
    s.report(written("o", 77));
    assert!(matches!(s.task(), SaveTask::End));
    assert_eq!(s.phase(), None);
    s.report(written("again", 1));
    let d = s.finish();
    assert_eq!(d.samples, 5);
    assert_eq!(d.error.as_deref(), Some("文本: e"));
    assert_eq!(d.optimized_path.as_deref(), Some("o"));
}

#[test]
fn the_text_phase_is_told_once() {
    let s = Saving::new(&config(true), "b", false, "", "优化");
    assert_eq!(s.phase(), Some(ExportPhase::WritingText));
    assert!(matches!(s.task(), SaveTask::Text { .. }));
}
