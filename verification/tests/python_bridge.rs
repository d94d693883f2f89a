use voicedown::python_bridge::{
    check_script, closing_result, drain_stderr, exit_line, feed_line, flush_line, is_alive, log_step,
    message_of, parse_stdout_line, punc_line, python_candidate, ready_step, ready_timeout,
    shutdown_step, stderr_log_path, stderr_log_path_at, stdout_step, BridgeError, ChildStatus,
    PipeRead, ReadyStep, ShutdownStep, StdoutAction, StdoutMsg, READY_TIMEOUT_SECS,
    SHUTDOWN_TIMEOUT_MS,
};

fn line(s: &str) -> PipeRead {
    PipeRead::Line(s.to_string())
}

#[test]
fn parse_punc_ready_true() {
    assert!(matches!(
        parse_stdout_line(r#"{"type":"punc_ready","ready":true}"#),
        StdoutMsg::PuncReady(true)
    ));
}

#[test]
fn parse_punc_ready_false_error_not_leaked() {
    assert!(matches!(
        parse_stdout_line(r#"{"type":"punc_ready","ready":false,"error":"boom"}"#),
        StdoutMsg::PuncReady(false)
    ));
}

#[test]
fn parse_punc_response() {
    match parse_stdout_line(r#"{"type":"punc","text":"你好，世界。","error":null}"#) {
        StdoutMsg::Punc(r) => assert_eq!(r.text, "你好，世界。"),
        other => panic!("{:?}", other),
    }
}

#[test]
fn parse_result_line() {
    match parse_stdout_line(r#"{"text":"hi","is_final":false,"error":null}"#) {
        StdoutMsg::Result(r) => assert_eq!(r.text, "hi"),
        other => panic!("{:?}", other),
    }
}

#[test]
fn parse_ready_control_skip() {
    assert!(matches!(
        parse_stdout_line(r#"{"status":"ready","models_loaded":true,"punc_loaded":false}"#),
        StdoutMsg::Skip
    ));
}

#[test]
fn parse_non_json_skip() {
    assert!(matches!(parse_stdout_line("not json {{{"), StdoutMsg::Skip));
}

#[test]
fn parse_empty_skip() {
    assert!(matches!(parse_stdout_line("   "), StdoutMsg::Skip));
}

#[test]
fn parse_takes_each_field_of_a_result() {
    match parse_stdout_line(r#"{"text":"末","is_final":true,"error":"boom"}"#) {
        StdoutMsg::Result(r) => {
            assert_eq!(r.text, "末");
            assert!(r.is_final);
            assert_eq!(r.error.as_deref(), Some("boom"));
        }
        other => panic!("{:?}", other),
    }
    match parse_stdout_line(r#"{"error":"null"}"#) {
        StdoutMsg::Result(r) => {
            assert_eq!(r.text, "");
            assert!(!r.is_final);
            assert!(r.error.is_none());
        }
        other => panic!("{:?}", other),
    }
    match parse_stdout_line(r#"{"text":3,"error":""}"#) {
        StdoutMsg::Result(r) => {
            assert_eq!(r.text, "");
            assert!(r.error.is_none());
        }
        other => panic!("{:?}", other),
    }
    match parse_stdout_line(r#"{"type":"punc","error":"e"}"#) {
        StdoutMsg::Punc(r) => {
            assert_eq!(r.text, "");
            assert_eq!(r.error.as_deref(), Some("e"));
        }
        other => panic!("{:?}", other),
    }
    assert!(matches!(parse_stdout_line("[1]"), StdoutMsg::Skip));
}

#[test]
fn objects_and_lines_say_the_same() {
    let v: serde_json::Value = serde_json::from_str(r#"{"type":"punc_ready"}"#).unwrap();
    assert!(matches!(message_of(&v), StdoutMsg::PuncReady(false)));
}

#[test]
fn stderr_log_path_format() {
    let s = stderr_log_path(r"C:\Users\me\Documents\VoiceDown");
    assert!(s.ends_with(".log"), "{}", s);
    assert!(s.contains(r"logs\asr_"), "{}", s);
}

#[test]
fn log_path_of_a_moment() {
    assert_eq!(stderr_log_path_at(r"C:\d", 1700000000), r"C:\d\logs\asr_1700000000.log");
    assert_eq!(stderr_log_path_at("", 0), r"\logs\asr_0.log");
}

#[test]
fn drain_stderr_consumes_all_even_without_file() {
    let reads =
        vec![line("[ASR] line1\n"), line("modelscope info\n"), line("jieba debug\n"), PipeRead::End];
    let mut log: Option<String> = None;
    assert_eq!(drain_stderr(&reads, &mut log), 3);
    assert!(log.is_none());
}

#[test]
fn drain_stderr_writes_to_file_when_present() {
    let reads = vec![line("hello\n"), line("world\n"), PipeRead::End];
    let mut log = Some(String::new());
    assert_eq!(drain_stderr(&reads, &mut log), 2);
    assert_eq!(log.unwrap(), "hello\nworld\n");
}

#[test]
fn draining_stops_at_an_error() {
    let reads = vec![line("a\n"), PipeRead::Failed("e".into()), line("b\n")];
    let mut log = Some("0".to_string());
    assert_eq!(drain_stderr(&reads, &mut log), 1);
    assert_eq!(log.unwrap(), "0a\n");
    let mut none: Option<String> = None;
    assert!(log_step(&line("x"), &mut none));
    assert!(!log_step(&PipeRead::End, &mut none));
}

#[test]
fn lines_are_routed_by_what_they_say() {
    assert!(matches!(stdout_step(&line("  \n")), StdoutAction::Nothing));
    assert!(matches!(stdout_step(&line("log text\n")), StdoutAction::Nothing));
    assert!(matches!(
        stdout_step(&line("{\"type\":\"punc_ready\",\"ready\":true}\n")),
        StdoutAction::SetPuncReady(true)
    ));
    match stdout_step(&line(" {\"type\":\"punc\",\"text\":\"好。\"}\n")) {
        StdoutAction::SendPunc(p) => assert_eq!(p.text, "好。"),
        _ => panic!("a text with punctuation"),
    }
    match stdout_step(&line("{\"text\":\"好\"}")) {
        StdoutAction::SendResult(r) => assert_eq!(r.text, "好"),
        _ => panic!("a result"),
    }
    assert!(matches!(stdout_step(&PipeRead::End), StdoutAction::Stop { forget_punc: true }));
    assert!(matches!(
        stdout_step(&PipeRead::Failed("e".into())),
        StdoutAction::Stop { forget_punc: false }
    ));
    let last = closing_result();
    assert_eq!(last.text, "");
    assert!(!last.is_final);
    assert_eq!(last.error.as_deref(), Some("Python 进程退出（stdout 关闭）"));
}

#[test]
fn the_start_is_waited_for() {
    assert!(matches!(ready_step(&line("\n")), ReadyStep::Wait));
    assert!(matches!(ready_step(&line("loading…\n")), ReadyStep::Wait));
    assert!(matches!(ready_step(&line("{\"status\":\"loading\"}")), ReadyStep::Wait));
    assert!(matches!(
        ready_step(&line("{\"status\":\"ready\",\"models_loaded\":true,\"punc_loaded\":false}")),
        ReadyStep::Ready(false)
    ));
    assert!(matches!(
        ready_step(&line("{\"models_loaded\":true,\"punc_loaded\":true}")),
        ReadyStep::Ready(true)
    ));
    assert!(matches!(ready_step(&line("{\"status\":\"ready\"}")), ReadyStep::Ready(false)));
    match ready_step(&line(" {\"status\":\"error\"}\n")) {
        ReadyStep::Failed(e) => {
            assert!(matches!(e, BridgeError::AsrError(_)));
            assert_eq!(e.message(), "ASR 错误: Python 端模型加载失败: {\"status\":\"error\"}");
        }
        _ => panic!("an error"),
    }
    match ready_step(&PipeRead::End) {
        ReadyStep::Failed(e) => {
            assert_eq!(e.message(), "子进程异常退出: Python 进程在 ready 前关闭 stdout")
        }
        _ => panic!("an error"),
    }
    match ready_step(&PipeRead::Failed("x".into())) {
        ReadyStep::Failed(e) => assert_eq!(e.message(), "IO 错误: 读取 ready 失败: x"),
        _ => panic!("an error"),
    }
}

#[test]
fn the_start_has_its_time() {
    assert!(ready_timeout(180_000, READY_TIMEOUT_SECS).is_none());
    let e = ready_timeout(180_001, READY_TIMEOUT_SECS).unwrap();
    assert_eq!(e.message(), "模型加载超时: 等待 ready 超时 (180s)");
    assert!(ready_timeout(u64::MAX, u64::MAX).is_none());
}

#[test]
fn scripts_and_interpreters_may_be_missing() {
    assert!(check_script("a.py", true).is_ok());
    assert_eq!(
        check_script("a.py", false).unwrap_err().message(),
        "子进程启动失败: Python 脚本不存在: a.py"
    );
    assert_eq!(python_candidate(0).unwrap(), "python");
    assert_eq!(python_candidate(1).unwrap(), "python3");
    assert_eq!(
        python_candidate(2).unwrap_err().message(),
        "Python 未找到: 未找到 Python。请安装 Python 3.10+ 并添加到 PATH。"
    );
    assert_eq!(BridgeError::JsonError("x".into()).message(), "JSON 错误: x");
}

#[test]
fn requests_are_lines_that_read_back() {
    assert_eq!(flush_line(), "{\"action\":\"flush\"}");
    assert_eq!(exit_line(), "{\"action\":\"exit\"}");
    let l = punc_line("一\n\"二\"\t\\");
    assert!(!l.contains('\n'));
    let v: serde_json::Value = serde_json::from_str(&l).unwrap();
    assert_eq!(v["action"], "punc");
    assert_eq!(v["text"], "一\n\"二\"\t\\");
}

#[test]
fn processes_are_let_go_of_in_time() {
    assert!(is_alive(&ChildStatus::Running));
    assert!(is_alive(&ChildStatus::Unknown));
    assert!(!is_alive(&ChildStatus::Exited));
    assert_eq!(shutdown_step(&ChildStatus::Exited, 0), ShutdownStep::Done);
    assert_eq!(shutdown_step(&ChildStatus::Unknown, 0), ShutdownStep::Kill);
    assert_eq!(shutdown_step(&ChildStatus::Running, SHUTDOWN_TIMEOUT_MS), ShutdownStep::Wait);
    assert_eq!(shutdown_step(&ChildStatus::Running, SHUTDOWN_TIMEOUT_MS + 1), ShutdownStep::Kill);
}

#[test]
fn sound_is_sent_as_numbers() {
    let audio = serde_json::Value::from(vec![0.5f32, -1.0]);
    assert_eq!(
        feed_line(audio, 16000),
        "{\"action\":\"feed_audio\",\"audio_data\":[0.5,-1.0],\"sample_rate\":16000}"
    );
}
