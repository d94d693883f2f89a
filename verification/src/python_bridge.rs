//! The protocol of the recognition process.
//!
//! The process reads one JSON object per line and answers with one JSON object per line. This module
//! makes the lines that it is sent, reads the lines that come back, and decides what to do as it
//! starts, speaks and ends.

use vstd::prelude::*;
use crate::clock;
use crate::json;
use crate::json::Json;
use crate::text;
use crate::text::{append_decimal, same_text, trimmed};

verus! {

// ── Errors ─────────────────────────────────────────────

/// What can go wrong with the recognition process.
#[derive(Debug)]
pub enum BridgeError {
    PythonNotFound(String),
    SpawnFailed(String),
    ProcessExited(String),
    JsonError(String),
    IoError(String),
    AsrError(String),
    LoadTimeout(String),
}

impl BridgeError {
    /// What the message says before the detail.
    pub open spec fn label(self) -> Seq<char> {
        match self {
            BridgeError::PythonNotFound(_) => "Python 未找到: "@,
            BridgeError::SpawnFailed(_) => "子进程启动失败: "@,
            BridgeError::ProcessExited(_) => "子进程异常退出: "@,
            BridgeError::JsonError(_) => "JSON 错误: "@,
            BridgeError::IoError(_) => "IO 错误: "@,
            BridgeError::AsrError(_) => "ASR 错误: "@,
            BridgeError::LoadTimeout(_) => "模型加载超时: "@,
        }
    }

    /// The detail.
    pub open spec fn detail(self) -> Seq<char> {
        match self {
            BridgeError::PythonNotFound(e) => e@,
            BridgeError::SpawnFailed(e) => e@,
            BridgeError::ProcessExited(e) => e@,
            BridgeError::JsonError(e) => e@,
            BridgeError::IoError(e) => e@,
            BridgeError::AsrError(e) => e@,
            BridgeError::LoadTimeout(e) => e@,
        }
    }

    /// The message for the user.
    pub fn message(&self) -> (r: String)
        ensures
            r@ == self.label() + self.detail(),
    {
        let (label, e) = match self {
            BridgeError::PythonNotFound(e) => ("Python 未找到: ", e),
            BridgeError::SpawnFailed(e) => ("子进程启动失败: ", e),
            BridgeError::ProcessExited(e) => ("子进程异常退出: ", e),
            BridgeError::JsonError(e) => ("JSON 错误: ", e),
            BridgeError::IoError(e) => ("IO 错误: ", e),
            BridgeError::AsrError(e) => ("ASR 错误: ", e),
            BridgeError::LoadTimeout(e) => ("模型加载超时: ", e),
        };
        let mut r = label.to_string();
        r.append(e.as_str());
        r
    }
}

// ── What the process says ──────────────────────────────

/// A piece of recognized text, or an error.
#[derive(Debug, Clone)]
pub struct AsrResult {
    pub text: String,
    pub is_final: bool,
    pub error: Option<String>,
}

/// A text with punctuation, or an error.
#[derive(Debug, Clone)]
pub struct PuncResult {
    pub text: String,
    pub error: Option<String>,
}

/// What one line of the process says.
#[derive(Debug, Clone)]
pub enum StdoutMsg {
    /// A piece of recognized text.
    Result(AsrResult),
    /// A text with punctuation.
    Punc(PuncResult),
    /// Whether the punctuation model is ready. Why it failed is not passed on: recognition does not
    /// depend on it.
    PuncReady(bool),
    /// Nothing that matters here.
    Skip,
}

/// What a [`StdoutMsg`] holds.
pub enum Said {
    Result(Seq<char>, bool, Option<Seq<char>>),
    Punc(Seq<char>, Option<Seq<char>>),
    PuncReady(bool),
    Skip,
}

impl View for StdoutMsg {
    type V = Said;

    open spec fn view(&self) -> Said {
        match *self {
            StdoutMsg::Result(r) => Said::Result(r.text@, r.is_final, text::opt(r.error)),
            StdoutMsg::Punc(r) => Said::Punc(r.text@, text::opt(r.error)),
            StdoutMsg::PuncReady(b) => Said::PuncReady(b),
            StdoutMsg::Skip => Said::Skip,
        }
    }
}

/// The text of the member `key`; empty where there is none.
pub open spec fn text_at(v: Json, key: Seq<char>) -> Seq<char> {
    match v.member(key) {
        Some(j) => match j.as_text() {
            Some(s) => s,
            None => Seq::empty(),
        },
        None => Seq::empty(),
    }
}

/// The truth value of the member `key`; false where there is none.
pub open spec fn flag_at(v: Json, key: Seq<char>) -> bool {
    match v.member(key) {
        Some(j) => j.as_flag() == Some(true),
        None => false,
    }
}

/// The error that a line reports. No error is also written as an empty text or as the text `null`.
pub open spec fn error_at(v: Json) -> Option<Seq<char>> {
    let e = text_at(v, "error"@);
    if e.len() == 0 || e == "null"@ {
        None
    } else {
        Some(e)
    }
}

/// What an object says, by its `type`. An object without a known type is a result if it has a member
/// that only results have.
pub open spec fn said(v: Json) -> Said {
    let ty = text_at(v, "type"@);
    if ty == "punc_ready"@ {
        Said::PuncReady(flag_at(v, "ready"@))
    } else if ty == "punc"@ {
        Said::Punc(text_at(v, "text"@), error_at(v))
    } else if v.member("text"@) is Some || v.member("is_final"@) is Some || v.member(
        "error"@,
    ) is Some {
        Said::Result(text_at(v, "text"@), flag_at(v, "is_final"@), error_at(v))
    } else {
        Said::Skip
    }
}

/// What a line says. A line that is no JSON says nothing.
pub open spec fn line_said(line: Seq<char>) -> Said {
    match json::json_read(line) {
        Some(v) => said(v),
        None => Said::Skip,
    }
}

fn text_or_empty(v: &serde_json::Value, key: &str) -> (r: String)
    ensures
        r@ == text_at(json::json_of(*v), key@),
{
    match json::text_member(v, key) {
        Some(s) => s,
        None => String::new(),
    }
}

fn flag_or_false(v: &serde_json::Value, key: &str) -> (r: bool)
    ensures
        r == flag_at(json::json_of(*v), key@),
{
    match json::flag_member(v, key) {
        Some(b) => b,
        None => false,
    }
}

fn reported_error(v: &serde_json::Value) -> (r: Option<String>)
    ensures
        text::opt(r) == error_at(json::json_of(*v)),
{
    let e = text_or_empty(v, "error");
    if e.as_str().is_empty() || same_text(e.as_str(), "null") {
        None
    } else {
        Some(e)
    }
}

/// What an object of the process says.
pub fn message_of(v: &serde_json::Value) -> (r: StdoutMsg)
    ensures
        r@ == said(json::json_of(*v)),
{
    let ty = text_or_empty(v, "type");
    if same_text(ty.as_str(), "punc_ready") {
        StdoutMsg::PuncReady(flag_or_false(v, "ready"))
    } else if same_text(ty.as_str(), "punc") {
        StdoutMsg::Punc(PuncResult { text: text_or_empty(v, "text"), error: reported_error(v) })
    } else if json::member(v, "text").is_some() || json::member(v, "is_final").is_some()
        || json::member(v, "error").is_some() {
        StdoutMsg::Result(
            AsrResult {
                text: text_or_empty(v, "text"),
                is_final: flag_or_false(v, "is_final"),
                error: reported_error(v),
            },
        )
    } else {
        StdoutMsg::Skip
    }
}

/// What a line of the process says.
pub fn parse_stdout_line(line: &str) -> (r: StdoutMsg)
    ensures
        r@ == line_said(line@),
{
    match json::read(line) {
        Ok(v) => message_of(&v),
        Err(_) => StdoutMsg::Skip,
    }
}

/// What the program does about one thing that came from the process.
pub enum StdoutAction {
    /// Goes on reading.
    Nothing,
    /// Notes whether the punctuation model is ready.
    SetPuncReady(bool),
    /// Hands a text with punctuation to the one who asked for it.
    SendPunc(PuncResult),
    /// Hands on a piece of recognized text.
    SendResult(AsrResult),
    /// Stops reading. The process is gone, and with it the punctuation model where `forget_punc`.
    Stop { forget_punc: bool },
}

/// What came from the process: a line, its end, or an error while reading.
pub enum PipeRead {
    Line(String),
    End,
    Failed(String),
}

/// What the program does about one thing that came from the process once it is ready.
pub fn stdout_step(read: &PipeRead) -> (r: StdoutAction)
    ensures
        match *read {
            PipeRead::End => r == (StdoutAction::Stop { forget_punc: true }),
            PipeRead::Failed(_) => r == (StdoutAction::Stop { forget_punc: false }),
            PipeRead::Line(s) => {
                let t = text::trim(s@);
                if t.len() == 0 {
                    r is Nothing
                } else {
                    match line_said(t) {
                        Said::Result(text, is_final, error) => r matches StdoutAction::SendResult(
                            a,
                        ) && a.text@ == text && a.is_final == is_final && text::opt(a.error) == error,
                        Said::Punc(text, error) => r matches StdoutAction::SendPunc(p) && p.text@
                            == text && text::opt(p.error) == error,
                        Said::PuncReady(b) => r == StdoutAction::SetPuncReady(b),
                        Said::Skip => r is Nothing,
                    }
                }
            },
        },
{
    match read {
        PipeRead::End => StdoutAction::Stop { forget_punc: true },
        PipeRead::Failed(_) => StdoutAction::Stop { forget_punc: false },
        PipeRead::Line(s) => {
            let t = trimmed(s.as_str());
            if t.as_str().is_empty() {
                return StdoutAction::Nothing;
            }
            match parse_stdout_line(t.as_str()) {
                StdoutMsg::Result(a) => StdoutAction::SendResult(a),
                StdoutMsg::Punc(p) => StdoutAction::SendPunc(p),
                StdoutMsg::PuncReady(b) => StdoutAction::SetPuncReady(b),
                StdoutMsg::Skip => StdoutAction::Nothing,
            }
        },
    }
}

/// The result that is handed on when reading has stopped, so that the end of the process shows at
/// once.
pub fn closing_result() -> (r: AsrResult)
    ensures
        r.text@.len() == 0,
        !r.is_final,
        text::opt(r.error) == Some("Python 进程退出（stdout 关闭）"@),
{
    AsrResult {
        text: String::new(),
        is_final: false,
        error: Some("Python 进程退出（stdout 关闭）".to_string()),
    }
}

// ── The start of the process ───────────────────────────

/// How many seconds the process has for loading its models.
pub const READY_TIMEOUT_SECS: u64 = 180;

/// What waiting for the process has come to.
pub enum ReadyStep {
    /// It is still loading.
    Wait,
    /// It is ready; the flag says whether the punctuation model is, too.
    Ready(bool),
    /// It will not become ready.
    Failed(BridgeError),
}

/// Whether an object says that the models are loaded.
pub open spec fn says_ready(v: Json) -> bool {
    flag_at(v, "models_loaded"@) || text_at(v, "status"@) == "ready"@
}

/// Whether an object says that loading the models has failed.
pub open spec fn says_broken(v: Json) -> bool {
    !says_ready(v) && text_at(v, "status"@) == "error"@
}

/// What an object says of the start of the process; `line` is the line that it was read from.
pub fn ready_message(v: &serde_json::Value, line: &str) -> (r: ReadyStep)
    ensures
        ({
            let j = json::json_of(*v);
            &&& says_ready(j) ==> r == ReadyStep::Ready(flag_at(j, "punc_loaded"@))
            &&& says_broken(j) ==> (r matches ReadyStep::Failed(BridgeError::AsrError(m)) && m@
                == "Python 端模型加载失败: "@ + line@)
            &&& !says_ready(j) && !says_broken(j) ==> r is Wait
        }),
{
    let status = text_or_empty(v, "status");
    if flag_or_false(v, "models_loaded") || same_text(status.as_str(), "ready") {
        ReadyStep::Ready(flag_or_false(v, "punc_loaded"))
    } else if same_text(status.as_str(), "error") {
        let mut m = "Python 端模型加载失败: ".to_string();
        m.append(line);
        ReadyStep::Failed(BridgeError::AsrError(m))
    } else {
        ReadyStep::Wait
    }
}

/// What one thing that came from the process says of its start. Blank lines and lines that are no
/// JSON say nothing.
pub fn ready_step(read: &PipeRead) -> (r: ReadyStep)
    ensures
        match *read {
            PipeRead::End => r matches ReadyStep::Failed(BridgeError::ProcessExited(m)) && m@
                == "Python 进程在 ready 前关闭 stdout"@,
            PipeRead::Failed(e) => r matches ReadyStep::Failed(BridgeError::IoError(m)) && m@
                == "读取 ready 失败: "@ + e@,
            PipeRead::Line(s) => {
                let t = text::trim(s@);
                if t.len() == 0 {
                    r is Wait
                } else {
                    match json::json_read(t) {
                        None => r is Wait,
                        Some(j) => {
                            &&& says_ready(j) ==> r == ReadyStep::Ready(
                                flag_at(j, "punc_loaded"@),
                            )
                            &&& says_broken(j) ==> (r matches ReadyStep::Failed(
                                BridgeError::AsrError(m),
                            ) && m@ == "Python 端模型加载失败: "@ + t)
                            &&& !says_ready(j) && !says_broken(j) ==> r is Wait
                        },
                    }
                }
            },
        },
{
    match read {
        PipeRead::End => ReadyStep::Failed(
            BridgeError::ProcessExited("Python 进程在 ready 前关闭 stdout".to_string()),
        ),
        PipeRead::Failed(e) => {
            let mut m = "读取 ready 失败: ".to_string();
            m.append(e.as_str());
            ReadyStep::Failed(BridgeError::IoError(m))
        },
        PipeRead::Line(s) => {
            let t = trimmed(s.as_str());
            if t.as_str().is_empty() {
                return ReadyStep::Wait;
            }
            match json::read(t.as_str()) {
                Ok(v) => ready_message(&v, t.as_str()),
                Err(_) => ReadyStep::Wait,
            }
        },
    }
}

/// The error once the process has taken longer than `timeout_secs`; none before that.
pub fn ready_timeout(elapsed_ms: u64, timeout_secs: u64) -> (r: Option<BridgeError>)
    ensures
        r is Some <==> elapsed_ms > timeout_secs * 1000,
        r is Some ==> r->Some_0 is LoadTimeout && r->Some_0.detail() == "等待 ready 超时 ("@
            + text::decimal(timeout_secs as nat) + "s)"@,
{
    if elapsed_ms as u128 <= timeout_secs as u128 * 1000 {
        return None;
    }
    let mut m = "等待 ready 超时 (".to_string();
    append_decimal(&mut m, timeout_secs);
    m.append("s)");
    Some(BridgeError::LoadTimeout(m))
}

/// The error where the script of the process is not there; none where it is.
pub fn check_script(script: &str, present: bool) -> (r: Result<(), BridgeError>)
    ensures
        present ==> r is Ok,
        !present ==> (r matches Err(BridgeError::SpawnFailed(m)) && m@ == "Python 脚本不存在: "@
            + script@),
{
    if present {
        return Ok(());
    }
    let mut m = "Python 脚本不存在: ".to_string();
    m.append(script);
    Err(BridgeError::SpawnFailed(m))
}

/// The name of the interpreter to try next, when `failed` of them did not work; the error when none
/// is left.
pub fn python_candidate(failed: usize) -> (r: Result<String, BridgeError>)
    ensures
        failed == 0 ==> (r matches Ok(s) && s@ == "python"@),
        failed == 1 ==> (r matches Ok(s) && s@ == "python3"@),
        failed > 1 ==> (r matches Err(BridgeError::PythonNotFound(m)) && m@
            == "未找到 Python。请安装 Python 3.10+ 并添加到 PATH。"@),
{
    if failed == 0 {
        Ok("python".to_string())
    } else if failed == 1 {
        Ok("python3".to_string())
    } else {
        Err(
            BridgeError::PythonNotFound(
                "未找到 Python。请安装 Python 3.10+ 并添加到 PATH。".to_string(),
            ),
        )
    }
}

// ── What the process is sent ───────────────────────────

/// The object that asks for an action.
pub open spec fn action_object(action: Seq<char>) -> Json {
    Json::Object(map!["action"@ => Json::Text(action)])
}

/// The object that asks for punctuation.
pub open spec fn punc_object(text: Seq<char>) -> Json {
    Json::Object(map!["action"@ => Json::Text("punc"@), "text"@ => Json::Text(text)])
}

/// A line that the process reads as the object `v`: it is the JSON of `v`, and no line break stands
/// in it.
pub open spec fn is_request(line: Seq<char>, v: Json) -> bool {
    &&& line == json::json_written(v)
    &&& json::json_read(line) == Some(v)
    &&& forall|i: int| 0 <= i < line.len() ==> #[trigger] line[i] != '\n' && line[i] != '\r'
}

/// The object that brings sound: the samples and how many of them make a second.
pub open spec fn feed_object(audio: Json, rate: nat) -> Json {
    Json::Object(
        map![
            "action"@ => Json::Text("feed_audio"@),
            "audio_data"@ => audio,
            "sample_rate"@ => Json::Number(text::decimal(rate)),
        ],
    )
}

/// The line that brings the samples `audio`. That it is read back as it was is not said: the
/// samples are fractions, and reading one may round it.
pub fn feed_line(audio: serde_json::Value, rate: u32) -> (r: String)
    ensures
        r@ == json::json_written(feed_object(json::json_of(audio), rate as nat)),
        forall|i: int| 0 <= i < r@.len() ==> #[trigger] r@[i] != '\n' && r@[i] != '\r',
{
    let mut members: Vec<(String, serde_json::Value)> = Vec::new();
    members.push(("action".to_string(), json::text_value("feed_audio")));
    members.push(("audio_data".to_string(), audio));
    members.push(("sample_rate".to_string(), json::number_value(rate)));
    proof {
        json::lemma_collected_3(members@);
    }
    let v = json::object_value(members);
    json::written(&v)
}

/// The line that asks for what is left of the recognized text.
pub fn flush_line() -> (r: String)
    ensures
        is_request(r@, action_object("flush"@)),
{
    let mut members: Vec<(String, serde_json::Value)> = Vec::new();
    members.push(("action".to_string(), json::text_value("flush")));
    proof {
        json::lemma_collected_1(members@);
    }
    let v = json::object_value(members);
    json::written(&v)
}

/// The line that asks for `text` with punctuation.
pub fn punc_line(text: &str) -> (r: String)
    ensures
        is_request(r@, punc_object(text@)),
{
    let mut members: Vec<(String, serde_json::Value)> = Vec::new();
    members.push(("action".to_string(), json::text_value("punc")));
    members.push(("text".to_string(), json::text_value(text)));
    proof {
        json::lemma_collected_2(members@);
    }
    let v = json::object_value(members);
    json::written(&v)
}

/// The line that ends the process.
pub fn exit_line() -> (r: String)
    ensures
        r@ == "{\"action\":\"exit\"}"@,
{
    "{\"action\":\"exit\"}".to_string()
}

// ── The end of the process ─────────────────────────────

/// What the system says of the process.
pub enum ChildStatus {
    Running,
    Exited,
    /// It could not be found out.
    Unknown,
}

/// Whether the process is taken for alive: unless it is known to have ended.
pub fn is_alive(status: &ChildStatus) -> (r: bool)
    ensures
        r <==> !(*status is Exited),
{
    match status {
        ChildStatus::Exited => false,
        _ => true,
    }
}

/// How many milliseconds the process has to end by itself.
pub const SHUTDOWN_TIMEOUT_MS: u64 = 5000;

/// What to do with a process that was asked to end.
#[derive(Debug, PartialEq, Eq, Structural)]
pub enum ShutdownStep {
    /// Nothing: it has ended.
    Done,
    /// End it by force.
    Kill,
    /// Look again a little later.
    Wait,
}

/// What to do with a process `elapsed_ms` after it was asked to end.
pub open spec fn shutdown_decision(status: ChildStatus, elapsed_ms: int) -> ShutdownStep {
    match status {
        ChildStatus::Exited => ShutdownStep::Done,
        ChildStatus::Unknown => ShutdownStep::Kill,
        ChildStatus::Running => if elapsed_ms > SHUTDOWN_TIMEOUT_MS {
            ShutdownStep::Kill
        } else {
            ShutdownStep::Wait
        },
    }
}

/// What to do with a process `elapsed_ms` after it was asked to end.
pub fn shutdown_step(status: &ChildStatus, elapsed_ms: u64) -> (r: ShutdownStep)
    ensures
        r == shutdown_decision(*status, elapsed_ms as int),
{
    match status {
        ChildStatus::Exited => ShutdownStep::Done,
        ChildStatus::Unknown => ShutdownStep::Kill,
        ChildStatus::Running => if elapsed_ms > SHUTDOWN_TIMEOUT_MS {
            ShutdownStep::Kill
        } else {
            ShutdownStep::Wait
        },
    }
}

// ── The log of the process ─────────────────────────────

/// The path of the log of a process that was started `secs` after the epoch.
pub open spec fn log_path(dir: Seq<char>, secs: nat) -> Seq<char> {
    dir + "\\logs\\asr_"@ + text::decimal(secs) + ".log"@
}

/// The path of the log of a process that was started `secs` after the epoch.
pub fn stderr_log_path_at(log_dir: &str, secs: u64) -> (r: String)
    ensures
        r@ == log_path(log_dir@, secs as nat),
{
    let mut r = log_dir.to_string();
    r.append("\\logs\\asr_");
    append_decimal(&mut r, secs);
    r.append(".log");
    r
}

/// The path of the log of a process that is started now.
pub fn stderr_log_path(log_dir: &str) -> (r: String)
    ensures
        exists|secs: int| #[trigger]
            clock::wall_shows(secs) && secs >= 0 && r@ == log_path(log_dir@, secs as nat),
{
    let secs = clock::epoch_seconds();
    assert(clock::wall_shows(secs as int));
    stderr_log_path_at(log_dir, secs)
}

/// The lines up to the end of what came from the process.
pub open spec fn logged(reads: Seq<PipeRead>) -> Seq<char>
    decreases reads.len(),
{
    if reads.len() > 0 {
        match reads.first() {
            PipeRead::Line(s) => s@ + logged(reads.drop_first()),
            _ => Seq::empty(),
        }
    } else {
        Seq::empty()
    }
}

/// How many of the reads come before the end of what came from the process.
pub open spec fn lines_read(reads: Seq<PipeRead>) -> nat
    decreases reads.len(),
{
    if reads.len() > 0 && reads.first() is Line {
        1 + lines_read(reads.drop_first())
    } else {
        0
    }
}

/// Takes in one thing that the process wrote to its log: a line goes behind the log, where there is
/// one. Says whether to go on reading, which does not depend on whether there is a log: a process
/// whose lines nobody reads fails.
pub fn log_step(read: &PipeRead, log: &mut Option<String>) -> (r: bool)
    ensures
        r <==> *read is Line,
        *final(log) is Some <==> *old(log) is Some,
        *old(log) is Some ==> final(log)->Some_0@ == old(log)->Some_0@ + (match *read {
            PipeRead::Line(s) => s@,
            _ => Seq::empty(),
        }),
{
    match read {
        PipeRead::Line(s) => {
            if let Some(l) = log {
                l.append(s.as_str());
            }
            true
        },
        _ => {
            if let Some(l) = log {
                assert(l@ + Seq::<char>::empty() == l@);
            }
            false
        },
    }
}

/// Takes in all that the process writes to its log, and says how many lines that were.
pub fn drain_stderr(reads: &Vec<PipeRead>, log: &mut Option<String>) -> (r: usize)
    ensures
        r == lines_read(reads@),
        *final(log) is Some <==> *old(log) is Some,
        *old(log) is Some ==> final(log)->Some_0@ == old(log)->Some_0@ + logged(reads@),
{
    let mut i: usize = 0;
    assert(reads@.skip(0) == reads@);
    while i < reads.len()
        invariant
            i <= reads.len(),
            i + lines_read(reads@.skip(i as int)) == lines_read(reads@),
            *log is Some <==> *old(log) is Some,
            *old(log) is Some ==> log->Some_0@ + logged(reads@.skip(i as int)) == old(
                log,
            )->Some_0@ + logged(reads@),
        decreases reads.len() - i,
    {
        let ghost rest = reads@.skip(i as int);
        let ghost before = *log;
        assert(rest.first() == reads@[i as int]);
        assert(rest.drop_first() == reads@.skip(i + 1));
        if !log_step(&reads[i], log) {
            assert(lines_read(rest) == 0);
            assert(logged(rest) == Seq::<char>::empty());
            return i;
        }
        assert(before is Some ==> before->Some_0@ + logged(rest) =~= log->Some_0@ + logged(
            reads@.skip(i + 1),
        ));
        i = i + 1;
    }
    assert(lines_read(reads@.skip(i as int)) == 0);
    assert(*log is Some ==> log->Some_0@ + logged(reads@.skip(i as int)) =~= log->Some_0@);
    i
}

// ── Laws ───────────────────────────────────────────────

/// What the punctuation model reports never reaches the recognized text: an object of its types says
/// neither a piece of text nor an error of the recognition.
pub proof fn punctuation_is_no_result(v: Json)
    requires
        text_at(v, "type"@) == "punc_ready"@ || text_at(v, "type"@) == "punc"@,
    ensures
        !(said(v) is Result),
{
}

/// The error that a line reports is never empty.
pub proof fn errors_are_not_empty(v: Json)
    ensures
        match said(v) {
            Said::Result(_, _, Some(e)) => e.len() > 0,
            Said::Punc(_, Some(e)) => e.len() > 0,
            _ => true,
        },
{
}

/// The line with which the process reports that it is ready says nothing to the reader of results,
/// whatever else it holds but a text, an error or a mark of an end.
pub proof fn readiness_is_no_result(v: Json)
    requires
        says_ready(v),
        v.member("type"@) is None,
        v.member("text"@) is None,
        v.member("is_final"@) is None,
        v.member("error"@) is None,
    ensures
        said(v) is Skip,
{
    reveal_strlit("punc_ready");
    reveal_strlit("punc");
}

/// A process that was asked to end is let go of once its time is over, whatever is known of it.
pub proof fn shutdown_ends(status: ChildStatus, elapsed_ms: int)
    requires
        elapsed_ms > SHUTDOWN_TIMEOUT_MS,
    ensures
        shutdown_decision(status, elapsed_ms) != ShutdownStep::Wait,
{
}

/// Which kind of message an object is: it tells whether the punctuation model is ready, or brings a
/// text with punctuation, exactly where its type is the text for that; any other object that has a
/// text, an error or a mark of an end is a result, and the rest says nothing.
pub proof fn kinds_of_messages(v: &serde_json::Value, r: StdoutMsg)
    requires
        call_ensures(message_of, (v,), r),
    ensures
        ({
            let j = json::json_of(*v);
            let ty = j.member("type"@);
            &&& r is PuncReady <==> ty == Some(Json::Text("punc_ready"@))
            &&& r is Punc <==> ty == Some(Json::Text("punc"@))
            &&& r is Result <==> ty != Some(Json::Text("punc_ready"@)) && ty != Some(
                Json::Text("punc"@),
            ) && !(j.member("text"@) is None && j.member("is_final"@) is None && j.member(
                "error"@,
            ) is None)
        }),
{
    reveal_strlit("punc_ready");
    reveal_strlit("punc");
    assert("punc_ready"@.len() != "punc"@.len());
}

/// A result is the last one of a text exactly where its object says so: where its mark is the value
/// `true`, and not where it is `false`, missing or anything else.
pub proof fn only_true_marks_an_end(v: &serde_json::Value, r: StdoutMsg)
    requires
        call_ensures(message_of, (v,), r),
    ensures
        r matches StdoutMsg::Result(a) ==> (a.is_final <==> json::json_of(*v).member("is_final"@)
            == Some(Json::Bool(true))),
        r matches StdoutMsg::PuncReady(b) ==> (b <==> json::json_of(*v).member("ready"@) == Some(
            Json::Bool(true),
        )),
{
}

/// The text of a message is the one that its object has, and empty where it has none.
pub proof fn texts_are_passed_on(v: &serde_json::Value, r: StdoutMsg, s: Seq<char>)
    requires
        call_ensures(message_of, (v,), r),
        match json::json_of(*v).member("text"@) {
            Some(Json::Text(t)) => s == t,
            _ => s.len() == 0,
        },
    ensures
        r matches StdoutMsg::Result(a) ==> a.text@ == s,
        r matches StdoutMsg::Punc(p) ==> p.text@ == s,
{
    assert(s.len() == 0 ==> s =~= Seq::<char>::empty());
}

/// A message reports an error exactly where its object has a text for it that is neither empty nor the
/// text `null`, and reports that text.
pub proof fn errors_are_passed_on(v: &serde_json::Value, r: StdoutMsg, e: Seq<char>)
    requires
        call_ensures(message_of, (v,), r),
    ensures
        ({
            let reported = json::json_of(*v).member("error"@) == Some(Json::Text(e)) && e.len() > 0
                && e != "null"@;
            &&& r matches StdoutMsg::Result(a) ==> (text::opt(a.error) == Some(e) <==> reported)
            &&& r matches StdoutMsg::Punc(p) ==> (text::opt(p.error) == Some(e) <==> reported)
        }),
{
}

/// A line says what the object that it is the JSON of says, and nothing where it is no JSON.
pub proof fn lines_are_read_as_objects(
    line: &str,
    v: &serde_json::Value,
    m: StdoutMsg,
    r: StdoutMsg,
)
    requires
        call_ensures(parse_stdout_line, (line,), r),
        call_ensures(message_of, (v,), m),
    ensures
        json::json_read(line@) is None ==> r is Skip,
        json::json_read(line@) == Some(json::json_of(*v)) ==> r@ == m@,
{
}

/// Every message of the process reaches the one it is for: a result, a text with punctuation and a
/// note on the model are handed on as they are, and a line that says nothing changes nothing. White
/// space round a line does not count.
pub proof fn messages_are_handed_on(s: String, line: &str, m: StdoutMsg, r: StdoutAction)
    requires
        line@ == text::trim(s@),
        line@.len() > 0,
        call_ensures(parse_stdout_line, (line,), m),
        call_ensures(stdout_step, (&PipeRead::Line(s),), r),
    ensures
        r is SendResult <==> m is Result,
        r is SendPunc <==> m is Punc,
        r is SetPuncReady <==> m is PuncReady,
        r is Nothing <==> m is Skip,
        r matches StdoutAction::SendResult(a) ==> m@ == Said::Result(
            a.text@,
            a.is_final,
            text::opt(a.error),
        ),
        r matches StdoutAction::SendPunc(p) ==> m@ == Said::Punc(p.text@, text::opt(p.error)),
        r matches StdoutAction::SetPuncReady(b) ==> m@ == Said::PuncReady(b),
{
}

/// Reading stops where the output ends or fails, and nowhere else. Where it ends, the process is gone,
/// and the punctuation model with it.
pub proof fn reading_stops_at_the_end(read: &PipeRead, r: StdoutAction)
    requires
        call_ensures(stdout_step, (read,), r),
    ensures
        r is Stop <==> !(*read is Line),
        r == (StdoutAction::Stop { forget_punc: true }) <==> *read is End,
{
}

/// The process is ready exactly where it says that its models are loaded, by a mark or as its status.
/// It has failed where its status is an error and it is not ready. Any other object changes nothing.
pub proof fn readiness_is_what_the_process_says(v: &serde_json::Value, line: &str, r: ReadyStep)
    requires
        call_ensures(ready_message, (v, line), r),
    ensures
        ({
            let j = json::json_of(*v);
            let loaded = j.member("models_loaded"@) == Some(Json::Bool(true));
            let status = j.member("status"@);
            &&& r is Ready <==> loaded || status == Some(Json::Text("ready"@))
            &&& r is Failed <==> !loaded && status == Some(Json::Text("error"@))
            &&& r matches ReadyStep::Ready(punc) ==> (punc <==> j.member("punc_loaded"@) == Some(
                Json::Bool(true),
            ))
        }),
{
    reveal_strlit("ready");
    reveal_strlit("error");
    assert("ready"@[0] != "error"@[0]);
    assert("ready"@.len() == 5 && "error"@.len() == 5);
}

/// Before the process is ready, a blank line and one that is no JSON change nothing, any other line
/// says what its object says, and the end of the output is a failure.
pub proof fn waiting_goes_by_the_lines(
    s: String,
    line: &str,
    v: &serde_json::Value,
    m: ReadyStep,
    r: ReadyStep,
)
    requires
        line@ == text::trim(s@),
        call_ensures(ready_message, (v, line), m),
        call_ensures(ready_step, (&PipeRead::Line(s),), r),
    ensures
        line@.len() == 0 || json::json_read(line@) is None ==> r is Wait,
        line@.len() > 0 && json::json_read(line@) == Some(json::json_of(*v)) ==> (r is Ready <==> m
            is Ready) && (r is Failed <==> m is Failed),
        line@.len() > 0 && json::json_read(line@) == Some(json::json_of(*v)) && r is Ready ==> r
            == m,
{
}

/// The process is never ready once its output has ended or cannot be read.
pub proof fn a_process_that_ends_is_not_ready(read: &PipeRead, r: ReadyStep)
    requires
        !(*read is Line),
        call_ensures(ready_step, (read,), r),
    ensures
        r is Failed,
{
}

/// The time for loading the models is over when more milliseconds have passed than it has.
pub proof fn loading_has_its_time(elapsed_ms: u64, timeout_secs: u64, r: Option<BridgeError>)
    requires
        call_ensures(ready_timeout, (elapsed_ms, timeout_secs), r),
    ensures
        r is None <==> elapsed_ms <= 1000 * timeout_secs,
        r matches Some(e) ==> e is LoadTimeout,
        READY_TIMEOUT_SECS == 180,
{
}

/// A missing script is an error that names it, and a script that is there is none.
pub proof fn a_missing_script_is_named(script: &str, present: bool, r: Result<(), BridgeError>)
    requires
        call_ensures(check_script, (script, present), r),
    ensures
        r is Ok <==> present,
        r matches Err(e) ==> e.detail().len() >= script@.len() && e.detail().skip(
            e.detail().len() - script@.len(),
        ) == script@,
{
    if !present {
        let label = "Python 脚本不存在: "@;
        let e = r->Err_0;
        assert(e.detail() =~= label + script@);
        assert((label + script@).skip(label.len() as int) =~= script@);
    }
}

/// Two interpreters are tried, one after the other.
pub proof fn two_interpreters_are_tried(failed: usize, r: Result<String, BridgeError>)
    requires
        call_ensures(python_candidate, (failed,), r),
    ensures
        r is Ok <==> failed < 2,
        failed == 0 ==> r->Ok_0@ == "python"@,
        failed == 1 ==> r->Ok_0@ == "python"@.push('3'),
{
    reveal_strlit("python");
    reveal_strlit("python3");
    assert("python"@.push('3') =~= "python3"@);
}

/// What the process is sent is one line that it reads as the object with the action, and with the text
/// that is to be punctuated.
pub proof fn requests_name_their_action(text: &str, flush: String, punc: String)
    requires
        call_ensures(flush_line, (), flush),
        call_ensures(punc_line, (text,), punc),
    ensures
        json::json_read(flush@) matches Some(j) && j.member("action"@) == Some(
            Json::Text("flush"@),
        ) && j.member("text"@) is None,
        json::json_read(punc@) matches Some(j) && j.member("action"@) == Some(Json::Text("punc"@))
            && j.member("text"@) == Some(Json::Text(text@)),
        !flush@.contains('\n') && !flush@.contains('\r'),
        !punc@.contains('\n') && !punc@.contains('\r'),
{
    reveal_strlit("action");
    reveal_strlit("text");
    assert("action"@.len() != "text"@.len());
}

/// The line that brings sound is the JSON of an object with the action, the samples as they are and
/// their rate, and it is one line.
pub proof fn sound_is_sent_as_it_is(audio: serde_json::Value, rate: u32, r: String)
    requires
        call_ensures(feed_line, (audio, rate), r),
    ensures
        !r@.contains('\n') && !r@.contains('\r'),
        exists|j: Json, digits: Seq<char>|
            {
                &&& r@ == #[trigger] json::json_written(j)
                &&& j.member("action"@) == Some(Json::Text("feed_audio"@))
                &&& j.member("audio_data"@) == Some(json::json_of(audio))
                &&& j.member("sample_rate"@) == Some(Json::Number(digits))
                &&& #[trigger] text::number_of(digits) == rate
                &&& text::all_digits(digits)
            },
{
    reveal_strlit("action");
    reveal_strlit("audio_data");
    reveal_strlit("sample_rate");
    assert("action"@.len() == 6 && "audio_data"@.len() == 10 && "sample_rate"@.len() == 11);
    let j = feed_object(json::json_of(audio), rate as nat);
    let digits = text::decimal(rate as nat);
    text::digits_read_back(rate as nat);
    assert(j.member("action"@) == Some(Json::Text("feed_audio"@)));
    assert(r@ == json::json_written(j));
}

/// A process is taken for dead only where it is known to have ended. One that was asked to end is
/// waited for while it runs and no more than five seconds have passed; after that, and where nothing
/// is known of it, it is ended by force.
pub proof fn the_end_of_the_process(
    status: &ChildStatus,
    elapsed_ms: u64,
    alive: bool,
    r: ShutdownStep,
)
    requires
        call_ensures(is_alive, (status,), alive),
        call_ensures(shutdown_step, (status, elapsed_ms), r),
    ensures
        alive <==> !(*status is Exited),
        r is Done <==> !alive,
        r is Wait <==> *status is Running && elapsed_ms <= 5000,
{
}

/// The log of a process stands in the directory of logs, under the second at which it was started: two
/// processes of different seconds have different logs.
pub proof fn logs_are_told_apart(dir: &str, a: u64, b: u64, p: String, q: String)
    requires
        call_ensures(stderr_log_path_at, (dir, a), p),
        call_ensures(stderr_log_path_at, (dir, b), q),
        p@ == q@,
    ensures
        a == b,
{
    let head = dir@ + "\\logs\\asr_"@;
    let tail = ".log"@;
    let (x, y) = (text::decimal(a as nat), text::decimal(b as nat));
    text::digits_read_back(a as nat);
    text::digits_read_back(b as nat);
    assert(p@ =~= head + x + tail);
    assert(q@ =~= head + y + tail);
    assert(x.len() == y.len());
    assert(x =~= p@.subrange(head.len() as int, head.len() as int + x.len()));
    assert(y =~= q@.subrange(head.len() as int, head.len() as int + x.len()));
}

/// The lines one after the other.
pub open spec fn all_lines(lines: Seq<String>) -> Seq<char>
    decreases lines.len(),
{
    if lines.len() == 0 {
        Seq::empty()
    } else {
        lines[0]@ + all_lines(lines.drop_first())
    }
}

/// What comes from a process that writes the lines.
pub open spec fn line_reads(lines: Seq<String>) -> Seq<PipeRead> {
    Seq::new(lines.len(), |i: int| PipeRead::Line(lines[i]))
}

proof fn lemma_logged(lines: Seq<String>, rest: Seq<PipeRead>)
    requires
        rest.len() == 0 || !(rest[0] is Line),
    ensures
        logged(line_reads(lines) + rest) == all_lines(lines),
        lines_read(line_reads(lines) + rest) == lines.len(),
    decreases lines.len(),
{
    let reads = line_reads(lines) + rest;
    if lines.len() > 0 {
        lemma_logged(lines.drop_first(), rest);
        assert(reads.drop_first() =~= line_reads(lines.drop_first()) + rest);
        assert(reads.first() == PipeRead::Line(lines[0]));
    } else {
        assert(reads =~= rest);
    }
}

/// The log takes every line up to the end, each once and in order, and nothing behind the end.
pub proof fn the_log_is_whole(
    lines: Seq<String>,
    rest: Seq<PipeRead>,
    reads: &Vec<PipeRead>,
    log: &mut Option<String>,
    r: usize,
)
    requires
        rest.len() == 0 || !(rest[0] is Line),
        reads@ == line_reads(lines) + rest,
        call_ensures(drain_stderr, (reads, log), r),
    ensures
        r == lines.len(),
        *old(log) is Some ==> *final(log) is Some && final(log)->Some_0@ == old(log)->Some_0@
            + all_lines(lines),
{
    lemma_logged(lines, rest);
}

/// What an error says begins with its kind and ends with its detail.
pub proof fn errors_name_their_kind(e: &BridgeError, r: String)
    requires
        call_ensures(BridgeError::message, (e,), r),
    ensures
        *e matches BridgeError::PythonNotFound(d) ==> r@ == "Python 未找到: "@ + d@,
        *e matches BridgeError::SpawnFailed(d) ==> r@ == "子进程启动失败: "@ + d@,
        *e matches BridgeError::ProcessExited(d) ==> r@ == "子进程异常退出: "@ + d@,
        *e matches BridgeError::JsonError(d) ==> r@ == "JSON 错误: "@ + d@,
        *e matches BridgeError::IoError(d) ==> r@ == "IO 错误: "@ + d@,
        *e matches BridgeError::AsrError(d) ==> r@ == "ASR 错误: "@ + d@,
        *e matches BridgeError::LoadTimeout(d) ==> r@ == "模型加载超时: "@ + d@,
{
}

/// When the process is gone, an error is handed on in place of a text, and it ends no text.
pub proof fn the_end_of_the_process_is_an_error(r: AsrResult)
    requires
        call_ensures(closing_result, (), r),
    ensures
        r.error is Some,
        r.text@.len() == 0,
        !r.is_final,
{
}

/// The log of a process is a file of logs below the directory, named by the second.
pub proof fn where_logs_stand(dir: &str, secs: u64, p: String)
    requires
        call_ensures(stderr_log_path_at, (dir, secs), p),
    ensures
        exists|digits: Seq<char>|
            p@ == dir@ + "\\logs\\asr_"@ + digits + seq!['.', 'l', 'o', 'g'] && text::all_digits(
                digits,
            ) && #[trigger] text::number_of(digits) == secs,
{
    reveal_strlit(".log");
    assert(".log"@ =~= seq!['.', 'l', 'o', 'g']);
    text::digits_read_back(secs as nat);
    assert(p@ == dir@ + "\\logs\\asr_"@ + text::decimal(secs as nat) + seq!['.', 'l', 'o', 'g']);
}

/// Every line that the process writes is read, whether there is a log for it or not, and goes behind
/// the log where there is one.
pub proof fn lines_are_read_without_a_log(read: &PipeRead, log: &mut Option<String>, r: bool)
    requires
        call_ensures(log_step, (read, log), r),
    ensures
        r <==> *read is Line,
        *final(log) is Some <==> *old(log) is Some,
        *read matches PipeRead::Line(s) ==> (*old(log) is Some ==> final(log)->Some_0@ == old(
            log)->Some_0@ + s@),
{
}

/// The line that ends the process is the JSON of an object with the action, without a line break.
pub proof fn the_process_is_asked_to_end(r: String)
    requires
        call_ensures(exit_line, (), r),
    ensures
        r@ == seq!['{', '"', 'a', 'c', 't', 'i', 'o', 'n', '"', ':', '"', 'e', 'x', 'i', 't', '"', '}'],
{
    reveal_strlit("{\"action\":\"exit\"}");
    assert(r@ =~= seq!['{', '"', 'a', 'c', 't', 'i', 'o', 'n', '"', ':', '"', 'e', 'x', 'i', 't', '"', '}']);
}

/// A blank line of the process changes nothing.
pub proof fn blank_lines_change_nothing(s: String, r: StdoutAction, ready: ReadyStep)
    requires
        text::blank(s@),
        call_ensures(stdout_step, (&PipeRead::Line(s),), r),
        call_ensures(ready_step, (&PipeRead::Line(s),), ready),
    ensures
        r is Nothing,
        ready is Wait,
{
    text::lemma_blank_trimmed(s@);
}

/// What is said where the process does not become ready: that its output has ended or cannot be read,
/// that its time is over, or the line in which it reports the failure.
pub proof fn why_the_process_is_not_ready(
    ended: ReadyStep,
    e: String,
    failed: ReadyStep,
    v: &serde_json::Value,
    line: &str,
    reported: ReadyStep,
    elapsed_ms: u64,
    timeout_secs: u64,
    late: Option<BridgeError>,
)
    requires
        call_ensures(ready_step, (&PipeRead::End,), ended),
        call_ensures(ready_step, (&PipeRead::Failed(e),), failed),
        call_ensures(ready_message, (v, line), reported),
        call_ensures(ready_timeout, (elapsed_ms, timeout_secs), late),
    ensures
        ended matches ReadyStep::Failed(BridgeError::ProcessExited(m)) && m@
            == "Python 进程在 ready 前关闭 stdout"@,
        failed matches ReadyStep::Failed(BridgeError::IoError(m)) && m@ == "读取 ready 失败: "@ + e@,
        reported is Failed ==> (reported matches ReadyStep::Failed(BridgeError::AsrError(m)) && m@
            == "Python 端模型加载失败: "@ + line@),
        late is Some ==> (late matches Some(BridgeError::LoadTimeout(m)) && exists|digits: Seq<char>|
            m@ == "等待 ready 超时 ("@ + digits + "s)"@ && text::all_digits(digits) && #[trigger]
            text::number_of(digits) == timeout_secs),
{
    text::digits_read_back(timeout_secs as nat);
    if let Some(BridgeError::LoadTimeout(m)) = late {
        assert(m@ == "等待 ready 超时 ("@ + text::decimal(timeout_secs as nat) + "s)"@);
    }
}

} // verus!
