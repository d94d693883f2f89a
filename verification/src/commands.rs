//! What the user asks for, and what is answered.

use vstd::prelude::*;
use crate::asr_supervisor::Phase;
use crate::asr_supervisor::Standing;
use crate::audio_capture::{AudioCapturer, CaptureState, Recording, Stage};
use crate::text;
use crate::text::{append_decimal, chars_of};
use crate::text_optimizer;
use crate::text_optimizer::pick_finalize_input;

verus! {

// ── The script of the recognition process ──────────────

/// A place where the script may be.
#[derive(Debug, Clone, Copy, PartialEq, Eq, Structural)]
pub enum ScriptPlace {
    /// In the directory of the program.
    ExeDir,
    /// In the working directory.
    WorkDir,
    /// In the directory that the program was built from.
    ManifestDir,
    /// At one of three fixed places, seen from the working directory.
    Here,
    Parent,
    Source,
}

/// The directories that are known, of the first three places.
pub open spec fn known_places(exe: bool, work: bool, manifest: bool) -> Seq<ScriptPlace> {
    (if exe {
        seq![ScriptPlace::ExeDir]
    } else {
        Seq::empty()
    }) + (if work {
        seq![ScriptPlace::WorkDir]
    } else {
        Seq::empty()
    }) + (if manifest {
        seq![ScriptPlace::ManifestDir]
    } else {
        Seq::empty()
    })
}

/// The places to look for the script, in order; those whose directory is not known are left out.
pub fn script_places(exe: bool, work: bool, manifest: bool) -> (r: Vec<ScriptPlace>)
    ensures
        r@ == known_places(exe, work, manifest) + seq![
            ScriptPlace::Here,
            ScriptPlace::Parent,
            ScriptPlace::Source,
        ],
{
    let mut r: Vec<ScriptPlace> = Vec::new();
    if exe {
        r.push(ScriptPlace::ExeDir);
    }
    if work {
        r.push(ScriptPlace::WorkDir);
    }
    if manifest {
        r.push(ScriptPlace::ManifestDir);
    }
    r.push(ScriptPlace::Here);
    r.push(ScriptPlace::Parent);
    r.push(ScriptPlace::Source);
    assert(r@ =~= known_places(exe, work, manifest) + seq![
        ScriptPlace::Here,
        ScriptPlace::Parent,
        ScriptPlace::Source,
    ]);
    r
}

/// The path of the script at a place, below the directory of the place.
pub fn script_path(place: ScriptPlace) -> (r: &'static str)
    ensures
        r@ == (match place {
            ScriptPlace::Parent => "../python_asr/asr_server.py"@,
            ScriptPlace::Source => "src-tauri/python_asr/asr_server.py"@,
            _ => "python_asr/asr_server.py"@,
        }),
{
    match place {
        ScriptPlace::Parent => "../python_asr/asr_server.py",
        ScriptPlace::Source => "src-tauri/python_asr/asr_server.py",
        _ => "python_asr/asr_server.py",
    }
}

/// Whether a path begins with the mark of an extended path.
pub open spec fn is_extended(s: Seq<char>) -> bool {
    s.len() >= 4 && s[0] == '\\' && s[1] == '\\' && s[2] == '?' && s[3] == '\\'
}

/// The path without the mark of an extended path, which Python does not always understand.
pub fn plain_path(path: &str) -> (r: String)
    ensures
        r@ == (if is_extended(path@) {
            path@.skip(4)
        } else {
            path@
        }),
{
    let v = chars_of(path);
    if v.len() >= 4 && v[0] == '\\' && v[1] == '\\' && v[2] == '?' && v[3] == '\\' {
        let r = text::string_range(&v, 4, v.len());
        assert(r@ =~= path@.skip(4));
        r
    } else {
        path.to_string()
    }
}

// ── The recognition ────────────────────────────────────

/// How it stands with the recognition, as the user interface names it. A program that only records
/// has none, and so no phase. `respawning` says whether the process was just found dead.
pub fn asr_state(phase: Option<&Phase>, respawning: bool) -> (r: String)
    ensures
        r@ == (match phase {
            None => "unavailable"@,
            Some(p) => if respawning {
                "respawning"@
            } else {
                match p@ {
                    Standing::Loading => "loading"@,
                    Standing::Ready => "ready"@,
                    Standing::Respawning(_) => "respawning"@,
                    Standing::Error(e) => "error:"@ + e,
                }
            },
        }),
{
    let phase = match phase {
        None => {
            return "unavailable".to_string();
        },
        Some(p) => p,
    };
    if respawning {
        return "respawning".to_string();
    }
    match phase {
        Phase::Loading => "loading".to_string(),
        Phase::Ready => "ready".to_string(),
        Phase::Respawning { .. } => "respawning".to_string(),
        Phase::Error(e) => {
            let mut r = "error:".to_string();
            r.append(e.as_str());
            r
        },
    }
}

/// Whether a recording can be started: the recognition has to run. `respawning` says whether the
/// process was just found dead.
pub fn start_gate(phase: &Phase, respawning: bool) -> (r: Result<(), String>)
    ensures
        r is Ok <==> phase@ is Ready && !respawning,
        r is Err ==> r->Err_0@ == (match phase@ {
            Standing::Loading => "ASR 正在加载中，请稍候（就绪后自动启用「开始」）"@,
            Standing::Respawning(_) => "ASR 正在自动重启，请稍后重试"@,
            Standing::Error(e) => "ASR 加载失败，无法转录: "@ + e,
            Standing::Ready => "ASR 进程已退出，正在自动重启，请稍后重试"@,
        }),
{
    match phase {
        Phase::Loading => Err(
            "ASR 正在加载中，请稍候（就绪后自动启用「开始」）".to_string(),
        ),
        Phase::Respawning { .. } => Err("ASR 正在自动重启，请稍后重试".to_string()),
        Phase::Error(e) => {
            let mut m = "ASR 加载失败，无法转录: ".to_string();
            m.append(e.as_str());
            Err(m)
        },
        Phase::Ready => if respawning {
            Err("ASR 进程已退出，正在自动重启，请稍后重试".to_string())
        } else {
            Ok(())
        },
    }
}

/// What is answered where the process has gone after the recording was started.
pub fn no_bridge() -> (r: String)
    ensures
        r@ == "ASR 未就绪（bridge 不可用，可能刚触发重生），请稍后重试"@,
{
    "ASR 未就绪（bridge 不可用，可能刚触发重生），请稍后重试".to_string()
}

/// What is answered when a recording was started, with the recognition or without.
pub fn start_message(pid: u32, with_asr: bool) -> (r: String)
    ensures
        r@ == "进程级音频捕获已启动 (PID="@ + text::decimal(pid as nat)
            + ")\n将只捕获该进程及其子进程的音频输出。"@ + (if with_asr {
            "\n语音转文字 (ParaformerStreaming) 已同步启动。"@
        } else {
            Seq::empty()
        }),
{
    let mut r = "进程级音频捕获已启动 (PID=".to_string();
    append_decimal(&mut r, pid as u64);
    r.append(")\n将只捕获该进程及其子进程的音频输出。");
    if with_asr {
        r.append("\n语音转文字 (ParaformerStreaming) 已同步启动。");
    } else {
        assert(r@ + Seq::<char>::empty() =~= r@);
    }
    r
}

// ── The end of a recording ─────────────────────────────

/// Asks a recording to end; there has to be one that runs.
pub fn stop_gate<T>(capturer: Option<&mut AudioCapturer<T>>) -> (r: Result<(), String>)
    ensures
        match capturer {
            None => r matches Err(m) && m@ == "当前没有进行的捕获"@,
            Some(c) => if c@.stage is Capturing {
                r is Ok && final(c)@ == (Recording { stage: Stage::Stopping, ..c@ })
            } else {
                (r matches Err(m) && m@ == "当前未在捕获"@) && final(c)@ == c@
            },
        },
{
    match capturer {
        None => Err("当前没有进行的捕获".to_string()),
        Some(c) => {
            if let CaptureState::Capturing = c.get_state() {
                c.stop_capturing();
                Ok(())
            } else {
                Err("当前未在捕获".to_string())
            }
        },
    }
}

// ── The final document ─────────────────────────────────

/// Begins the final document: the text that it is made of, or why it cannot be made. Only one is made
/// at a time, and none while a recording runs. `finalizing` is set while one is made.
pub fn begin_finalize(
    finalizing: &mut bool,
    capturing: bool,
    optimized: &str,
    transcription: &str,
) -> (r: Result<String, String>)
    ensures
        ({
            let input = text_optimizer::finalize_input(optimized@, transcription@);
            &&& r is Ok <==> !*old(finalizing) && !capturing && input is Some
            &&& r is Ok ==> Some(r->Ok_0@) == input
            &&& r is Err ==> r->Err_0@ == (if *old(finalizing) {
                "定稿进行中，请等待完成"@
            } else if capturing {
                "捕获中无法定稿，请先停止"@
            } else {
                "无文本可定稿"@
            })
            &&& *final(finalizing) == (*old(finalizing) || r is Ok)
        }),
{
    if *finalizing {
        return Err("定稿进行中，请等待完成".to_string());
    }
    if capturing {
        return Err("捕获中无法定稿，请先停止".to_string());
    }
    match pick_finalize_input(optimized, transcription) {
        Some(s) => {
            *finalizing = true;
            Ok(s)
        },
        None => Err("无文本可定稿".to_string()),
    }
}

/// Ends the final document, whatever came of it, also where it could not be started: another one can
/// begin.
pub fn finish_finalize(finalizing: &mut bool)
    ensures
        !*final(finalizing),
{
    *finalizing = false;
}

/// The warning where no model can be used.
pub fn no_backend() -> (r: String)
    ensures
        r@ == "LLM 未启用或后端不可用"@,
{
    "LLM 未启用或后端不可用".to_string()
}

/// What is done with what the model made of the text.
pub enum FinalizeStep {
    /// The document, and the path it is to be written to, where there is one.
    Write { document: String, path: Option<String> },
    /// A warning.
    Warn(String),
}

/// Whether a path ends in `.wav`.
pub open spec fn is_wav(s: Seq<char>) -> bool {
    let n = s.len() as int;
    n >= 4 && s[n - 4] == '.' && s[n - 3] == 'w' && s[n - 2] == 'a' && s[n - 1] == 'v'
}

/// A path with `_final.md` in place of the `.wav` that it ends in.
pub open spec fn final_name(s: Seq<char>) -> Seq<char> {
    if is_wav(s) {
        s.take(s.len() - 4) + "_final.md"@
    } else {
        s
    }
}

/// The path of the document that belongs to a recording.
pub fn final_path(wav: &str) -> (r: String)
    ensures
        r@ == final_name(wav@),
{
    let v = chars_of(wav);
    let n = v.len();
    if n >= 4 && v[n - 4] == '.' && v[n - 3] == 'w' && v[n - 2] == 'a' && v[n - 1] == 'v' {
        let mut r = text::string_range(&v, 0, n - 4);
        assert(r@ =~= wav@.take(n - 4));
        r.append("_final.md");
        r
    } else {
        wav.to_string()
    }
}

/// Decides what is done with what the model made of the text: the document is written beside the last
/// recording, where there is one.
pub fn end_finalize(outcome: Result<String, String>, last_saved: Option<&str>) -> (r: FinalizeStep)
    ensures
        match outcome {
            Ok(md) => r matches FinalizeStep::Write { document, path } && document@ == md@
                && text::opt(path) == (match last_saved {
                Some(w) => Some(final_name(w@)),
                None => None,
            }),
            Err(e) => r matches FinalizeStep::Warn(m) && m@ == "定稿失败: "@ + e@,
        },
{
    match outcome {
        Ok(document) => {
            let path = match last_saved {
                Some(w) => Some(final_path(w)),
                None => None,
            };
            FinalizeStep::Write { document, path }
        },
        Err(e) => {
            let mut m = "定稿失败: ".to_string();
            m.append(e.as_str());
            FinalizeStep::Warn(m)
        },
    }
}

// ── Laws ───────────────────────────────────────────────

/// The document of a recording stands beside it under a name of its own: whatever the path is, only
/// its ending changes.
pub proof fn documents_have_their_own_name(base: Seq<char>)
    ensures
        final_name(base + ".wav"@) == base + "_final.md"@,
        final_name(base + ".wav"@) != base + ".wav"@,
{
    reveal_strlit(".wav");
    reveal_strlit("_final.md");
    let s = base + ".wav"@;
    assert(is_wav(s));
    assert(s.take(s.len() - 4) =~= base);
    assert(final_name(s).len() != s.len());
}

/// The script is looked for in the directory of the program, the working directory and that of the
/// sources, where they are known, in this order, and then at three fixed places.
pub proof fn places_are_tried_in_order(exe: bool, work: bool, manifest: bool, r: Vec<ScriptPlace>)
    requires
        call_ensures(script_places, (exe, work, manifest), r),
    ensures
        r@.contains(ScriptPlace::ExeDir) <==> exe,
        r@.contains(ScriptPlace::WorkDir) <==> work,
        r@.contains(ScriptPlace::ManifestDir) <==> manifest,
        r@.len() >= 3,
        r@.skip(r@.len() - 3) == seq![ScriptPlace::Here, ScriptPlace::Parent, ScriptPlace::Source],
        exe ==> r@[0] == ScriptPlace::ExeDir,
        work ==> r@[if exe { 1int } else { 0int }] == ScriptPlace::WorkDir,
        manifest ==> r@[r@.len() - 4] == ScriptPlace::ManifestDir,
{
    let head = known_places(exe, work, manifest);
    let tail = seq![ScriptPlace::Here, ScriptPlace::Parent, ScriptPlace::Source];
    assert(r@.skip(r@.len() - 3) =~= tail);
    if exe {
        assert(r@[0] == ScriptPlace::ExeDir);
    }
    if work {
        assert(r@[if exe {
            1int
        } else {
            0int
        }] == ScriptPlace::WorkDir);
    }
    if manifest {
        assert(r@[r@.len() - 4] == ScriptPlace::ManifestDir);
    }
}

/// A path loses the mark of an extended path that it begins with, and nothing else; a path without the
/// mark stays as it is.
pub proof fn extended_paths_lose_their_mark(path: &str, rest: Seq<char>, r: String)
    requires
        call_ensures(plain_path, (path,), r),
    ensures
        path@ == seq!['\\', '\\', '?', '\\'] + rest ==> r@ == rest,
        !seq!['\\', '\\', '?', '\\'].is_prefix_of(path@) ==> r@ == path@,
{
    let mark = seq!['\\', '\\', '?', '\\'];
    if path@ == mark + rest {
        assert(path@.skip(4) =~= rest);
        assert(path@[0] == mark[0] && path@[1] == mark[1] && path@[2] == mark[2] && path@[3]
            == mark[3]);
    }
    if is_extended(path@) {
        assert(mark =~= path@.subrange(0, 4));
    }
}

/// What the user interface is told of the recognition: that there is none, that it is being started
/// again, wherever it is or was just found dead, that it loads or is ready, or the error.
pub proof fn the_state_of_the_recognition(phase: &Phase, respawning: bool, r: String, none: String)
    requires
        call_ensures(asr_state, (Some(phase), respawning), r),
        call_ensures(asr_state, (None, respawning), none),
    ensures
        none@ == "unavailable"@,
        r@ == "respawning"@ <== respawning || *phase is Respawning,
        !respawning && *phase is Loading ==> r@ == "loading"@,
        r@ == "ready"@ <==> !respawning && *phase is Ready,
        !respawning ==> (*phase matches Phase::Error(e) ==> e@.is_suffix_of(r@)),
{
    reveal_strlit("respawning");
    reveal_strlit("ready");
    reveal_strlit("loading");
    reveal_strlit("error:");
    assert("respawning"@.len() == 10 && "ready"@.len() == 5 && "loading"@.len() == 7
        && "error:"@.len() == 6);
    if let Phase::Error(e) = *phase {
        let label = "error:"@;
        assert((label + e@).subrange(label.len() as int, (label + e@).len() as int) =~= e@);
    }
}

/// A recording can be started exactly where the recognition is ready and its process was not just
/// found dead.
pub proof fn recordings_wait_for_the_recognition(
    phase: &Phase,
    respawning: bool,
    r: Result<(), String>,
)
    requires
        call_ensures(start_gate, (phase, respawning), r),
    ensures
        r is Ok <==> *phase is Ready && !respawning,
        *phase matches Phase::Error(e) ==> (r matches Err(m) && e@.is_suffix_of(m@)),
{
    if let Phase::Error(e) = *phase {
        let label = "ASR 加载失败，无法转录: "@;
        assert((label + e@).subrange(label.len() as int, (label + e@).len() as int) =~= e@);
    }
}

/// A recording is asked to end exactly where there is one that runs; else nothing changes, and that is
/// an error.
pub proof fn only_running_recordings_are_stopped<T>(
    c: &mut AudioCapturer<T>,
    r: Result<(), String>,
    none: Result<(), String>,
)
    requires
        call_ensures(stop_gate::<T>, (Some(c),), r),
        call_ensures(stop_gate::<T>, (None,), none),
    ensures
        none is Err,
        r is Ok <==> old(c)@.stage is Capturing,
        r is Ok ==> final(c)@.stage is Stopping && final(c)@.samples == old(c)@.samples
            && final(c)@.waiting == old(c)@.waiting,
        r is Err ==> final(c)@ == old(c)@,
{
}

/// A document can be begun exactly where none is being made, no recording runs and there is a text
/// that is not blank; it is made of what is picked for it. From then on no other can be begun, until
/// it is finished.
pub proof fn one_document_at_a_time(
    finalizing: &mut bool,
    capturing: bool,
    optimized: &str,
    transcription: &str,
    picked: Option<String>,
    r: Result<String, String>,
)
    requires
        call_ensures(pick_finalize_input, (optimized, transcription), picked),
        call_ensures(begin_finalize, (finalizing, capturing, optimized, transcription), r),
    ensures
        r is Ok <==> !*old(finalizing) && !capturing && !(text::blank(optimized@) && text::blank(
            transcription@,
        )),
        r matches Ok(s) ==> text::opt(picked) == Some(s@) && *final(finalizing),
        r is Err ==> *final(finalizing) == *old(finalizing),
{
    text::lemma_blank_trimmed(optimized@);
    text::lemma_blank_trimmed(transcription@);
}

/// Once a document is finished, another one can be begun, whatever came of it.
pub proof fn finished_documents_make_room(finalizing: &mut bool)
    requires
        call_ensures(finish_finalize, (finalizing,), ()),
    ensures
        !*final(finalizing),
{
}

/// What the model made of the text is the document as it is, to be written beside the last recording
/// where there is one; where the model failed, nothing is written, and a warning says what went wrong.
pub proof fn documents_are_written_as_they_are(
    outcome: Result<String, String>,
    base: Seq<char>,
    last_saved: &str,
    r: FinalizeStep,
    unsaved: FinalizeStep,
)
    requires
        last_saved@ == base + seq!['.', 'w', 'a', 'v'],
        call_ensures(end_finalize, (outcome, Some(last_saved)), r),
        call_ensures(end_finalize, (outcome, None), unsaved),
    ensures
        outcome matches Ok(md) ==> (r matches FinalizeStep::Write { document, path } && document@
            == md@ && text::opt(path) == Some(base + "_final.md"@)),
        outcome matches Ok(md) ==> (unsaved matches FinalizeStep::Write { document, path }
            && document@ == md@ && path is None),
        outcome matches Err(e) ==> (r matches FinalizeStep::Warn(m) && e@.is_suffix_of(m@)) && (
        unsaved is Warn),
{
    reveal_strlit(".wav");
    assert(".wav"@ =~= seq!['.', 'w', 'a', 'v']);
    documents_have_their_own_name(base);
    if let Err(e) = outcome {
        let label = "定稿失败: "@;
        assert((label + e@).subrange(label.len() as int, (label + e@).len() as int) =~= e@);
    }
}

/// The answer to a start names the process by its number, and speaks of the recognition exactly where
/// there is one.
pub proof fn the_start_is_confirmed(pid: u32, with: String, without: String)
    requires
        call_ensures(start_message, (pid, true), with),
        call_ensures(start_message, (pid, false), without),
    ensures
        without@.is_prefix_of(with@),
        with@.len() > without@.len(),
        exists|a: Seq<char>, digits: Seq<char>, b: Seq<char>|
            without@ == #[trigger] (a + digits + b) && text::all_digits(digits) && text::number_of(
                digits,
            ) == pid && a == "进程级音频捕获已启动 (PID="@,
{
    reveal_strlit("\n语音转文字 (ParaformerStreaming) 已同步启动。");
    let a = "进程级音频捕获已启动 (PID="@;
    let b = ")\n将只捕获该进程及其子进程的音频输出。"@;
    let digits = text::decimal(pid as nat);
    text::digits_read_back(pid as nat);
    assert(without@ =~= a + digits + b);
    assert(without@ =~= with@.subrange(0, without@.len() as int));
}

/// The script has one path below the directories that are known and below the working directory; the
/// other two fixed places are the directory above and that of the sources.
pub proof fn where_the_script_is(
    place: ScriptPlace,
    here: &'static str,
    r: &'static str,
)
    requires
        call_ensures(script_path, (ScriptPlace::Here,), here),
        call_ensures(script_path, (place,), r),
    ensures
        here@ == "python_asr/asr_server.py"@,
        place == ScriptPlace::Parent ==> r@ == seq!['.', '.', '/'] + here@,
        place == ScriptPlace::Source ==> r@ == "src-tauri/"@ + here@,
        place != ScriptPlace::Parent && place != ScriptPlace::Source ==> r@ == here@,
{
    reveal_strlit("python_asr/asr_server.py");
    reveal_strlit("../python_asr/asr_server.py");
    reveal_strlit("src-tauri/python_asr/asr_server.py");
    reveal_strlit("src-tauri/");
    assert("../python_asr/asr_server.py"@ =~= seq!['.', '.', '/'] + "python_asr/asr_server.py"@);
    assert("src-tauri/python_asr/asr_server.py"@ =~= "src-tauri/"@ + "python_asr/asr_server.py"@);
}

/// What the user is told where a recording cannot be started tells the reasons apart.
pub proof fn reasons_are_told_apart(
    loading: Result<(), String>,
    respawning: Result<(), String>,
    dead: Result<(), String>,
    attempts: u32,
)
    requires
        call_ensures(start_gate, (&Phase::Loading, false), loading),
        call_ensures(start_gate, (&Phase::Respawning { attempts }, false), respawning),
        call_ensures(start_gate, (&Phase::Ready, true), dead),
    ensures
        loading matches Err(m) && m@ == "ASR 正在加载中，请稍候（就绪后自动启用「开始」）"@,
        respawning matches Err(m) && m@ == "ASR 正在自动重启，请稍后重试"@,
        dead matches Err(m) && m@ == "ASR 进程已退出，正在自动重启，请稍后重试"@,
{
}

/// Why a document cannot be begun: another one is being made, a recording runs, or there is no text,
/// in this order.
pub proof fn why_a_document_cannot_be_begun(
    finalizing: &mut bool,
    capturing: bool,
    optimized: &str,
    transcription: &str,
    r: Result<String, String>,
)
    requires
        call_ensures(begin_finalize, (finalizing, capturing, optimized, transcription), r),
    ensures
        *old(finalizing) ==> (r matches Err(m) && m@ == "定稿进行中，请等待完成"@),
        !*old(finalizing) && capturing ==> (r matches Err(m) && m@ == "捕获中无法定稿，请先停止"@),
        !*old(finalizing) && !capturing && text::blank(optimized@) && text::blank(
            transcription@,
        ) ==> (r matches Err(m) && m@ == "无文本可定稿"@),
{
    text::lemma_blank_trimmed(optimized@);
    text::lemma_blank_trimmed(transcription@);
}

/// The path of a document is that of the recording with another ending; a path without the ending of a
/// recording stays as it is.
pub proof fn only_the_ending_changes(wav: &str, base: Seq<char>, r: String)
    requires
        call_ensures(final_path, (wav,), r),
    ensures
        wav@ == base + seq!['.', 'w', 'a', 'v'] ==> r@ == base + "_final.md"@,
        !seq!['.', 'w', 'a', 'v'].is_suffix_of(wav@) ==> r@ == wav@,
{
    reveal_strlit(".wav");
    let end = seq!['.', 'w', 'a', 'v'];
    assert(".wav"@ =~= end);
    documents_have_their_own_name(base);
    if is_wav(wav@) {
        assert(end =~= wav@.subrange(wav@.len() - 4, wav@.len() as int));
    }
}

/// What is said where the process is gone, and where no model can be used.
pub proof fn what_is_said_of_what_is_missing(bridge: String, backend: String)
    requires
        call_ensures(no_bridge, (), bridge),
        call_ensures(no_backend, (), backend),
    ensures
        bridge@ == "ASR 未就绪（bridge 不可用，可能刚触发重生），请稍后重试"@,
        backend@ == "LLM 未启用或后端不可用"@,
{
}

/// Why a recording cannot be stopped: there is none, or it does not run.
pub proof fn why_a_recording_cannot_be_stopped<T>(
    none: Result<(), String>,
    c: &mut AudioCapturer<T>,
    r: Result<(), String>,
)
    requires
        call_ensures(stop_gate::<T>, (None,), none),
        call_ensures(stop_gate::<T>, (Some(c),), r),
    ensures
        none matches Err(m) && m@ == "当前没有进行的捕获"@,
        r matches Err(m) ==> m@ == "当前未在捕获"@,
{
}

} // verus!
