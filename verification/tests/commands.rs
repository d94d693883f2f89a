use voicedown::asr_supervisor::Phase;
use voicedown::audio_capture::{AudioCapturer, CaptureState};
use voicedown::commands::{
    asr_state, begin_finalize, end_finalize, final_path, finish_finalize, no_backend, no_bridge,
    plain_path, script_path, script_places, start_gate, start_message, stop_gate, FinalizeStep,
    ScriptPlace,
};
use voicedown::json_config_store::{JsonConfigStore, Loaded};
use voicedown::window_selector::{
    arrange_windows, is_choosable, process_name, ProcessQuery, WindowInfo,
};

#[test]
fn states_have_names() {
    assert_eq!(asr_state(Some(&Phase::Loading), false), "loading");
    assert_eq!(asr_state(Some(&Phase::Ready), false), "ready");
    assert_eq!(asr_state(Some(&Phase::Ready), true), "respawning");
    assert_eq!(asr_state(Some(&Phase::Respawning { attempts: 1 }), false), "respawning");
    assert_eq!(asr_state(Some(&Phase::Error("x".into())), false), "error:x");
    assert_eq!(asr_state(None, false), "unavailable");
    assert_eq!(asr_state(None, true), "unavailable");
}

#[test]
fn recordings_need_the_recognition() {
    assert!(start_gate(&Phase::Ready, false).is_ok());
    assert_eq!(
        start_gate(&Phase::Ready, true),
        Err("ASR 进程已退出，正在自动重启，请稍后重试".to_string())
    );
    assert_eq!(
        start_gate(&Phase::Loading, false),
        Err("ASR 正在加载中，请稍候（就绪后自动启用「开始」）".to_string())
    );
    assert_eq!(
        start_gate(&Phase::Respawning { attempts: 0 }, false),
        Err("ASR 正在自动重启，请稍后重试".to_string())
    );
    assert_eq!(
        start_gate(&Phase::Error("e".into()), false),
        Err("ASR 加载失败，无法转录: e".to_string())
    );
    assert_eq!(no_bridge(), "ASR 未就绪（bridge 不可用，可能刚触发重生），请稍后重试");
    assert_eq!(
        start_message(42, true),
        "进程级音频捕获已启动 (PID=42)\n将只捕获该进程及其子进程的音频输出。\n语音转文字 (ParaformerStreaming) 已同步启动。"
    );
    assert_eq!(
        start_message(42, false),
        "进程级音频捕获已启动 (PID=42)\n将只捕获该进程及其子进程的音频输出。"
    );
}

#[test]
fn only_a_running_recording_is_stopped() {
    assert_eq!(stop_gate::<f32>(None), Err("当前没有进行的捕获".to_string()));
    let mut c: AudioCapturer<f32> = AudioCapturer::new_with_asr(1, true);
    assert_eq!(stop_gate(Some(&mut c)), Err("当前未在捕获".to_string()));
    assert_eq!(c.get_state(), CaptureState::Idle);
    assert!(c.start_capturing());
    assert_eq!(stop_gate(Some(&mut c)), Ok(()));
    assert_eq!(c.get_state(), CaptureState::Stopping);
    assert_eq!(stop_gate(Some(&mut c)), Err("当前未在捕获".to_string()));
    assert_eq!(c.get_state(), CaptureState::Stopping);
}

#[test]
fn one_document_is_made_at_a_time() {
    let mut f = false;
    assert_eq!(begin_finalize(&mut f, true, "o", "t"), Err("捕获中无法定稿，请先停止".to_string()));
    assert!(!f);
    assert_eq!(begin_finalize(&mut f, false, " ", ""), Err("无文本可定稿".to_string()));
    assert!(!f);
    assert_eq!(begin_finalize(&mut f, false, " o ", "t"), Ok("o".to_string()));
    assert!(f);
    assert_eq!(begin_finalize(&mut f, false, "o", "t"), Err("定稿进行中，请等待完成".to_string()));
    assert!(f);
    finish_finalize(&mut f);
    assert!(!f);
    assert_eq!(begin_finalize(&mut f, false, "o", "t"), Ok("o".to_string()));
    finish_finalize(&mut f);
    finish_finalize(&mut f);
    assert!(!f);
    assert_eq!(no_backend(), "LLM 未启用或后端不可用");
}

#[test]
fn documents_stand_beside_recordings() {
    assert_eq!(final_path("C:\\d\\capture_1.wav"), "C:\\d\\capture_1_final.md");
    assert_eq!(final_path("D:/a.wav_old/capture_1.wav"), "D:/a.wav_old/capture_1_final.md");
    assert_eq!(final_path(".\\first.last\\b.wav.wav"), ".\\first.last\\b.wav_final.md");
    assert_eq!(final_path("a.wave"), "a.wave");
    assert_eq!(final_path(".wav"), "_final.md");
    assert_eq!(final_path("av"), "av");
    match end_finalize(Ok("# 文".into()), Some("x.wav")) {
        FinalizeStep::Write { document, path } => {
            assert_eq!(document, "# 文");
            assert_eq!(path.as_deref(), Some("x_final.md"));
        }
        _ => panic!("a document"),
    }
    assert!(matches!(
        end_finalize(Ok("d".into()), None),
        FinalizeStep::Write { path: None, .. }
    ));
    match end_finalize(Err("e".into()), Some("x.wav")) {
        FinalizeStep::Warn(m) => assert_eq!(m, "定稿失败: e"),
        _ => panic!("a warning"),
    }
}

#[test]
fn the_script_is_looked_for_in_order() {
    let fixed = [ScriptPlace::Here, ScriptPlace::Parent, ScriptPlace::Source];
    assert_eq!(script_places(false, false, false), fixed.to_vec());
    let all = script_places(true, true, true);
    assert_eq!(
        all[..3],
        [ScriptPlace::ExeDir, ScriptPlace::WorkDir, ScriptPlace::ManifestDir]
    );
    assert_eq!(all[3..], fixed);
    assert_eq!(script_places(false, true, false)[0], ScriptPlace::WorkDir);
    assert_eq!(script_path(ScriptPlace::ExeDir), "python_asr/asr_server.py");
    assert_eq!(script_path(ScriptPlace::Here), "python_asr/asr_server.py");
    assert_eq!(script_path(ScriptPlace::Parent), "../python_asr/asr_server.py");
    assert_eq!(script_path(ScriptPlace::Source), "src-tauri/python_asr/asr_server.py");
}

#[test]
fn extended_paths_are_made_plain() {
    assert_eq!(plain_path(r"\\?\C:\a"), r"C:\a");
    assert_eq!(plain_path(r"C:\a"), r"C:\a");
    assert_eq!(plain_path(r"\\?"), r"\\?");
    assert_eq!(plain_path(""), "");
}

#[test]
fn load_missing_returns_default() {
    let (v, note) = JsonConfigStore::load("never_saved", Loaded::Missing, 5);
    assert_eq!(v, 5);
    assert!(note.is_none());
}

#[test]
fn load_corrupt_returns_default() {
    let (v, note) = JsonConfigStore::load("bad", Loaded::Broken("e".into()), 5);
    assert_eq!(v, 5);
    assert_eq!(note.unwrap(), "[config:bad] JSON 解析失败: e，使用默认");
}

#[test]
fn configurations_are_read_where_they_can_be() {
    assert_eq!(JsonConfigStore::load("c", Loaded::Parsed(7), 5), (7, None));
    let (v, note) = JsonConfigStore::load("c", Loaded::Unreadable("e".into()), 5);
    assert_eq!(v, 5);
    assert_eq!(note.unwrap(), "[config:c] 文件读取失败: e，使用默认");
    assert_eq!(JsonConfigStore::file_name("llm_config"), "llm_config.json");
    assert_eq!(JsonConfigStore::new("d".into()).base_dir(), "d");
    assert_eq!(JsonConfigStore::default().base_dir(), ".\\Documents\\VoiceDown");
    assert_eq!(
        JsonConfigStore::for_profile(Some("P")).base_dir(),
        "P\\Documents\\VoiceDown"
    );
}

fn window(hwnd: usize, title: &str, process: &str) -> WindowInfo {
    WindowInfo { hwnd, title: title.into(), process_name: process.into(), pid: 1 }
}

#[test]
fn windows_are_arranged() {
    let found = vec![
        window(1, "b", "Zeta.exe"),
        window(2, "b", "Zeta.exe"),
        window(3, "x", "alpha.exe"),
        window(4, "b", "Zeta.exe"),
        window(5, "y", "ALPHA.EXE"),
        window(6, "y", "beta"),
        window(7, "z", "alpha"),
    ];
    let ids: Vec<usize> = arrange_windows(found).iter().map(|w| w.hwnd).collect();
    assert_eq!(ids, vec![7, 3, 5, 6, 1]);
    assert!(arrange_windows(vec![]).is_empty());
}

#[test]
fn windows_are_ordered_as_a_stable_sort_does() {
    let names = ["b", "A", "a", "Ä", "", "B", "ab", "Z", "中", "aB"];
    let found: Vec<WindowInfo> =
        names.iter().enumerate().map(|(i, n)| window(i, &i.to_string(), n)).collect();
    let mut expected: Vec<usize> = (0..names.len()).collect();
    expected.sort_by(|a, b| names[*a].to_lowercase().cmp(&names[*b].to_lowercase()));
    let ids: Vec<usize> = arrange_windows(found).iter().map(|w| w.hwnd).collect();
    assert_eq!(ids, expected);
}

#[test]
fn windows_to_choose_from() {
    assert!(is_choosable(true, true, "t"));
    assert!(!is_choosable(false, true, "t"));
    assert!(!is_choosable(true, false, "t"));
    assert!(!is_choosable(true, true, ""));
    assert_eq!(process_name(0, ProcessQuery::Unknown), "System");
    assert_eq!(process_name(12, ProcessQuery::Refused), "pid_12");
    assert_eq!(process_name(12, ProcessQuery::Name("a.exe".into())), "a.exe");
    assert_eq!(process_name(12, ProcessQuery::Path(r"C:\x\b.exe".into())), "b.exe");
    assert_eq!(process_name(12, ProcessQuery::Path("c.exe".into())), "c.exe");
    assert_eq!(process_name(12, ProcessQuery::Path(r"C:\".into())), "");
    assert_eq!(process_name(12, ProcessQuery::Unknown), "unknown");
}
