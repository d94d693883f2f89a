//! What is left to do when a recording was asked to end.
//!
//! First the recording and the threads that work on its text come to an end. Then the files are
//! written, one after the other: a file that cannot be written does not keep the others from being
//! written, and every failure is reported.

use vstd::prelude::*;
use crate::audio_capture::CaptureState;
use crate::export_config;
use crate::export_config::{export_plan, ArtifactsPlan, ExportConfig, ExportPathError, Plan};
use crate::text;
use crate::text::join;

verus! {

// ── Waiting ────────────────────────────────────────────

/// How many milliseconds the threads have to finish the text.
pub const DRAIN_TIMEOUT_MS: u64 = 30000;

/// Whether the recording has ended; where there is none, nothing has to.
pub fn capture_has_ended(state: Option<&CaptureState>) -> (r: bool)
    ensures
        r <==> match state {
            Some(s) => s@ is Idle || s@ is Error,
            None => true,
        },
{
    match state {
        Some(s) => s.has_ended(),
        None => true,
    }
}

/// Whether to wait no longer for the threads: none of them runs, or their time is over.
pub fn drain_is_over(
    asr_running: bool,
    optimizer_running: bool,
    punc_running: bool,
    elapsed_ms: u64,
) -> (r: bool)
    ensures
        r <==> (!asr_running && !optimizer_running && !punc_running) || elapsed_ms
            >= DRAIN_TIMEOUT_MS,
{
    (!asr_running && !optimizer_running && !punc_running) || elapsed_ms >= DRAIN_TIMEOUT_MS
}

// ── Writing ────────────────────────────────────────────

/// What the user is told about the progress.
#[derive(Debug, PartialEq, Eq, Structural)]
pub enum ExportPhase {
    Draining,
    WritingAudio,
    WritingText,
}

impl ExportPhase {
    /// The name of the phase.
    pub fn name(&self) -> (r: &'static str)
        ensures
            r@ == (match *self {
                ExportPhase::Draining => "draining"@,
                ExportPhase::WritingAudio => "writing-audio"@,
                ExportPhase::WritingText => "writing-text"@,
            }),
    {
        match self {
            ExportPhase::Draining => "draining",
            ExportPhase::WritingAudio => "writing-audio",
            ExportPhase::WritingText => "writing-text",
        }
    }
}

/// What the user is told at the end: the files that were written, how many samples the sound has,
/// why nothing was written, and what went wrong.
#[derive(Debug, Clone)]
pub struct ExportDone {
    pub wav_path: Option<String>,
    pub txt_path: Option<String>,
    pub optimized_path: Option<String>,
    pub samples: u64,
    pub skipped: Option<String>,
    pub error: Option<String>,
}

/// What an [`ExportDone`] holds.
#[verifier::ext_equal]
pub struct Done {
    pub wav: Option<Seq<char>>,
    pub txt: Option<Seq<char>>,
    pub optimized: Option<Seq<char>>,
    pub samples: int,
    pub skipped: Option<Seq<char>>,
    pub error: Option<Seq<char>>,
}

impl View for ExportDone {
    type V = Done;

    open spec fn view(&self) -> Done {
        Done {
            wav: text::opt(self.wav_path),
            txt: text::opt(self.txt_path),
            optimized: text::opt(self.optimized_path),
            samples: self.samples as int,
            skipped: text::opt(self.skipped),
            error: text::opt(self.error),
        }
    }
}

/// The end where nothing was written.
pub open spec fn nothing_done(skipped: Option<Seq<char>>, error: Option<Seq<char>>) -> Done {
    Done { wav: None, txt: None, optimized: None, samples: 0, skipped, error }
}

/// The end where writing is switched off.
pub fn not_enabled() -> (r: ExportDone)
    ensures
        r@ == nothing_done(Some("导出未启用"@), None),
{
    ExportDone {
        wav_path: None,
        txt_path: None,
        optimized_path: None,
        samples: 0,
        skipped: Some("导出未启用".to_string()),
        error: None,
    }
}

/// The end where the directory cannot be written to.
pub fn dir_refused(e: &ExportPathError) -> (r: ExportDone)
    ensures
        r@ == nothing_done(None, Some("导出路径无效: "@ + e.says())),
{
    let mut m = "导出路径无效: ".to_string();
    m.append(e.message().as_str());
    ExportDone {
        wav_path: None,
        txt_path: None,
        optimized_path: None,
        samples: 0,
        skipped: None,
        error: Some(m),
    }
}

/// What came of writing a file: the path it has, with the number of samples where it is the sound;
/// what the system said; or there was no recording to write.
#[derive(Debug, Clone)]
pub enum WriteOutcome {
    Written { path: String, samples: u64 },
    Failed(String),
    NoCapturer,
}

/// What a [`WriteOutcome`] holds.
pub enum Outcome {
    Written(Seq<char>, int),
    Failed(Seq<char>),
    NoCapturer,
}

impl View for WriteOutcome {
    type V = Outcome;

    open spec fn view(&self) -> Outcome {
        match *self {
            WriteOutcome::Written { path, samples } => Outcome::Written(path@, samples as int),
            WriteOutcome::Failed(e) => Outcome::Failed(e@),
            WriteOutcome::NoCapturer => Outcome::NoCapturer,
        }
    }
}

impl Outcome {
    /// The path of the file, where it was written.
    pub open spec fn path(self) -> Option<Seq<char>> {
        match self {
            Outcome::Written(p, _) => Some(p),
            _ => None,
        }
    }

    /// What is reported, where the file was not written.
    pub open spec fn complaint(self, label: Seq<char>) -> Option<Seq<char>> {
        match self {
            Outcome::Written(_, _) => None,
            Outcome::Failed(e) => Some(label + e),
            Outcome::NoCapturer => Some("无捕获器"@),
        }
    }
}

/// The files that are still to be written, from the one that is next; what has come of the others.
#[verifier::ext_equal]
pub struct SavingState {
    pub plan: Plan,
    pub stage: int,
    pub wav: Option<Seq<char>>,
    pub txt: Option<Seq<char>>,
    pub optimized: Option<Seq<char>>,
    pub samples: int,
    pub errors: Seq<Seq<char>>,
}

/// The first file of a plan from `from` on: 0 for the sound, 1 for the transcript, 2 for the improved
/// text, 3 where none is left.
pub open spec fn stage_from(plan: Plan, from: int) -> int {
    if from <= 0 && plan.wav is Some {
        0
    } else if from <= 1 && plan.text is Some {
        1
    } else if from <= 2 && plan.optimized is Some {
        2
    } else {
        3
    }
}

/// What the report on a file of a stage begins with.
pub open spec fn stage_label(stage: int) -> Seq<char> {
    if stage == 0 {
        "音频: "@
    } else if stage == 1 {
        "文本: "@
    } else {
        "优化文本: "@
    }
}

impl SavingState {
    /// Before the first file.
    pub open spec fn start(plan: Plan) -> SavingState {
        SavingState {
            plan,
            stage: stage_from(plan, 0),
            wav: None,
            txt: None,
            optimized: None,
            samples: 0,
            errors: Seq::empty(),
        }
    }

    /// After the next file: its path or a complaint is noted, and the one behind it is next.
    pub open spec fn reported(self, outcome: Outcome) -> SavingState {
        if self.stage >= 3 {
            self
        } else {
            SavingState {
                plan: self.plan,
                stage: stage_from(self.plan, self.stage + 1),
                wav: if self.stage == 0 {
                    outcome.path()
                } else {
                    self.wav
                },
                txt: if self.stage == 1 {
                    outcome.path()
                } else {
                    self.txt
                },
                optimized: if self.stage == 2 {
                    outcome.path()
                } else {
                    self.optimized
                },
                samples: match outcome {
                    Outcome::Written(_, n) => if self.stage == 0 {
                        n
                    } else {
                        self.samples
                    },
                    _ => self.samples,
                },
                errors: match outcome.complaint(stage_label(self.stage)) {
                    Some(e) => self.errors.push(e),
                    None => self.errors,
                },
            }
        }
    }

    /// What the user is told.
    pub open spec fn done(self) -> Done {
        Done {
            wav: self.wav,
            txt: self.txt,
            optimized: self.optimized,
            samples: self.samples,
            skipped: if self.wav is None && self.txt is None && self.optimized is None
                && self.errors.len() == 0 {
                Some("无可导出内容"@)
            } else {
                None
            },
            error: if self.errors.len() == 0 {
                None
            } else {
                Some(text::joined(self.errors, "; "@))
            },
        }
    }
}

/// Writes the files of a plan one after the other.
pub struct Saving {
    plan: ArtifactsPlan,
    stage: u8,
    wav: Option<String>,
    txt: Option<String>,
    optimized: Option<String>,
    samples: u64,
    errors: Vec<String>,
}

impl View for Saving {
    type V = SavingState;

    closed spec fn view(&self) -> SavingState {
        SavingState {
            plan: self.plan@,
            stage: self.stage as int,
            wav: text::opt(self.wav),
            txt: text::opt(self.txt),
            optimized: text::opt(self.optimized),
            samples: self.samples as int,
            errors: text::texts(self.errors@),
        }
    }
}

/// A file to be written: the sound under a name, or a text under a name.
pub enum SaveTask {
    Audio { name: String },
    Text { name: String, content: String },
    /// Nothing is left to be written.
    End,
}

/// What a [`SaveTask`] holds.
pub enum Task {
    Audio(Seq<char>),
    Text(Seq<char>, Seq<char>),
    End,
}

impl View for SaveTask {
    type V = Task;

    open spec fn view(&self) -> Task {
        match *self {
            SaveTask::Audio { name } => Task::Audio(name@),
            SaveTask::Text { name, content } => Task::Text(name@, content@),
            SaveTask::End => Task::End,
        }
    }
}

impl SavingState {
    /// Nothing is left to be written but files of the plan.
    pub open spec fn wf(self) -> bool {
        &&& 0 <= self.stage <= 3
        &&& stage_from(self.plan, self.stage) == self.stage
    }

    /// The file that is next.
    pub open spec fn task(self) -> Task {
        if self.stage == 0 {
            Task::Audio(self.plan.wav->Some_0)
        } else if self.stage == 1 {
            Task::Text(self.plan.text->Some_0.0, self.plan.text->Some_0.1)
        } else if self.stage == 2 {
            Task::Text(self.plan.optimized->Some_0.0, self.plan.optimized->Some_0.1)
        } else {
            Task::End
        }
    }

    /// What the user is told before the file that is next. The texts are one phase.
    pub open spec fn phase(self) -> Option<ExportPhase> {
        if self.stage == 0 {
            Some(ExportPhase::WritingAudio)
        } else if self.stage == 1 || (self.stage == 2 && self.plan.text is None) {
            Some(ExportPhase::WritingText)
        } else {
            None
        }
    }
}

fn first_stage(plan: &ArtifactsPlan, from: u8) -> (r: u8)
    ensures
        r == stage_from(plan@, from as int),
{
    if from == 0 && plan.wav.is_some() {
        0
    } else if from <= 1 && plan.text.is_some() {
        1
    } else if from <= 2 && plan.optimized.is_some() {
        2
    } else {
        3
    }
}

/// The text, unless it is empty.
pub open spec fn if_any(s: Seq<char>) -> Option<Seq<char>> {
    if s.len() == 0 {
        None
    } else {
        Some(s)
    }
}

fn nonempty<'a>(s: &'a str) -> (r: Option<&'a str>)
    ensures
        export_config::chars(r) == if_any(s@),
{
    if s.is_empty() {
        None
    } else {
        Some(s)
    }
}

impl Saving {
    /// Starts with what there is to be written: the sound where there is some, the texts that are
    /// not empty.
    pub fn new(
        cfg: &ExportConfig,
        base: &str,
        has_audio: bool,
        transcription: &str,
        optimized: &str,
    ) -> (r: Self)
        ensures
            r@ == SavingState::start(
                export_config::planned(
                    cfg.enabled,
                    cfg.text_format,
                    base@,
                    has_audio,
                    if_any(transcription@),
                    if_any(optimized@),
                ),
            ),
            r@.wf(),
    {
        let plan = export_plan(cfg, base, has_audio, nonempty(transcription), nonempty(optimized));
        let stage = first_stage(&plan, 0);
        let r = Saving {
            plan,
            stage,
            wav: None,
            txt: None,
            optimized: None,
            samples: 0,
            errors: Vec::new(),
        };
        assert(r@ =~= SavingState::start(plan@));
        r
    }

    /// The file that is next.
    pub fn task(&self) -> (r: SaveTask)
        requires
            self@.wf(),
        ensures
            r@ == self@.task(),
    {
        if self.stage == 0 {
            if let Some(name) = &self.plan.wav {
                return SaveTask::Audio { name: name.clone() };
            }
        } else if self.stage == 1 {
            if let Some(a) = &self.plan.text {
                return SaveTask::Text { name: a.filename.clone(), content: a.content.clone() };
            }
        } else if self.stage == 2 {
            if let Some(a) = &self.plan.optimized {
                return SaveTask::Text { name: a.filename.clone(), content: a.content.clone() };
            }
        }
        SaveTask::End
    }

    /// What the user is told before the file that is next.
    pub fn phase(&self) -> (r: Option<ExportPhase>)
        ensures
            r == self@.phase(),
    {
        if self.stage == 0 {
            Some(ExportPhase::WritingAudio)
        } else if self.stage == 1 || (self.stage == 2 && self.plan.text.is_none()) {
            Some(ExportPhase::WritingText)
        } else {
            None
        }
    }

    /// Notes what came of the file that was next, and goes on to the one behind it.
    pub fn report(&mut self, outcome: WriteOutcome)
        requires
            old(self)@.wf(),
        ensures
            final(self)@ == old(self)@.reported(outcome@),
            final(self)@.wf(),
    {
        let ghost was = self@;
        if self.stage >= 3 {
            return;
        }
        let stage = self.stage;
        self.stage = first_stage(&self.plan, stage + 1);
        let path = match outcome {
            WriteOutcome::Written { path, samples } => {
                if stage == 0 {
                    self.samples = samples;
                }
                Some(path)
            },
            WriteOutcome::Failed(e) => {
                let mut m = if stage == 0 {
                    "音频: ".to_string()
                } else if stage == 1 {
                    "文本: ".to_string()
                } else {
                    "优化文本: ".to_string()
                };
                m.append(e.as_str());
                self.errors.push(m);
                assert(text::texts(self.errors@) =~= was.errors.push(m@));
                None
            },
            WriteOutcome::NoCapturer => {
                let m = "无捕获器".to_string();
                self.errors.push(m);
                assert(text::texts(self.errors@) =~= was.errors.push(m@));
                None
            },
        };
        if stage == 0 {
            self.wav = path;
        } else if stage == 1 {
            self.txt = path;
        } else {
            self.optimized = path;
        }
        assert(self@ =~= was.reported(outcome@));
    }

    /// What the user is told at the end.
    pub fn finish(self) -> (r: ExportDone)
        ensures
            r@ == self@.done(),
    {
        let none = self.wav.is_none() && self.txt.is_none() && self.optimized.is_none();
        let n = self.errors.len();
        let error = if n == 0 {
            None
        } else {
            let m = join(&self.errors, 0, n, "; ");
            assert(text::texts(self.errors@).subrange(0, n as int) =~= text::texts(self.errors@));
            Some(m)
        };
        let skipped = if none && n == 0 {
            Some("无可导出内容".to_string())
        } else {
            None
        };
        let r = ExportDone {
            wav_path: self.wav,
            txt_path: self.txt,
            optimized_path: self.optimized,
            samples: self.samples,
            skipped,
            error,
        };
        assert(r@ =~= self@.done());
        r
    }
}

/// What comes of writing each file, where it is written.
pub struct WriteFacts {
    pub audio: WriteOutcome,
    pub text: WriteOutcome,
    pub optimized: WriteOutcome,
}

/// The state after all the files of a plan, with what comes of writing each.
pub open spec fn saved(plan: Plan, audio: Outcome, text: Outcome, optimized: Outcome) -> SavingState {
    let s0 = SavingState::start(plan);
    let s1 = if s0.stage == 0 {
        s0.reported(audio)
    } else {
        s0
    };
    let s2 = if s1.stage == 1 {
        s1.reported(text)
    } else {
        s1
    };
    if s2.stage == 2 {
        s2.reported(optimized)
    } else {
        s2
    }
}

/// Writes all there is to be written, with the answers of the system: nothing where that is switched
/// off or where the directory cannot be written to.
pub fn save_capture_artifacts(
    cfg: &ExportConfig,
    dir: &Result<String, ExportPathError>,
    base: &str,
    has_audio: bool,
    transcription: &str,
    optimized: &str,
    facts: WriteFacts,
) -> (r: ExportDone)
    ensures
        !cfg.enabled ==> r@ == nothing_done(Some("导出未启用"@), None),
        cfg.enabled && *dir is Err ==> r@ == nothing_done(
            None,
            Some("导出路径无效: "@ + dir->Err_0.says()),
        ),
        cfg.enabled && *dir is Ok ==> r@ == saved(
            export_config::planned(
                true,
                cfg.text_format,
                base@,
                has_audio,
                if_any(transcription@),
                if_any(optimized@),
            ),
            facts.audio@,
            facts.text@,
            facts.optimized@,
        ).done(),
{
    if !cfg.enabled {
        return not_enabled();
    }
    if let Err(e) = dir {
        return dir_refused(e);
    }
    let mut saving = Saving::new(cfg, base, has_audio, transcription, optimized);
    if saving.stage == 0 {
        saving.report(facts.audio);
    }
    if saving.stage == 1 {
        saving.report(facts.text);
    }
    if saving.stage == 2 {
        saving.report(facts.optimized);
    }
    saving.finish()
}

// ── Laws ───────────────────────────────────────────────

/// Every file of the plan is tried, whatever comes of the others: which ones are written depends on
/// the plan and on what comes of writing each, and on nothing else.
pub proof fn files_do_not_depend_on_each_other(
    plan: Plan,
    audio: Outcome,
    text: Outcome,
    optimized: Outcome,
)
    ensures
        ({
            let end = saved(plan, audio, text, optimized);
            &&& end.stage == 3
            &&& end.wav == (if plan.wav is Some {
                audio.path()
            } else {
                None
            })
            &&& end.txt == (if plan.text is Some {
                text.path()
            } else {
                None
            })
            &&& end.optimized == (if plan.optimized is Some {
                optimized.path()
            } else {
                None
            })
        }),
{
}

/// An error is reported exactly where a file of the plan could not be written.
pub proof fn every_failure_is_reported(
    plan: Plan,
    audio: Outcome,
    text: Outcome,
    optimized: Outcome,
)
    ensures
        saved(plan, audio, text, optimized).done().error is Some <==> (plan.wav is Some
            && audio.path() is None) || (plan.text is Some && text.path() is None) || (
        plan.optimized is Some && optimized.path() is None),
{
}

/// The user is told one of three things: which files were written, what went wrong, or why there was
/// nothing to write; and the last only where neither of the others is told.
pub proof fn something_is_always_told(plan: Plan, audio: Outcome, text: Outcome, optimized: Outcome)
    ensures
        ({
            let d = saved(plan, audio, text, optimized).done();
            d.skipped is Some <==> d.wav is None && d.txt is None && d.optimized is None
                && d.error is None
        }),
{
}

/// The threads are waited for while any of them runs, but no longer than thirty seconds; the recording
/// has ended where there is none, or where it has come to its end or to an error.
pub proof fn what_is_waited_for(
    asr: bool,
    optimizer: bool,
    punc: bool,
    elapsed_ms: u64,
    over: bool,
    state: Option<&CaptureState>,
    ended: bool,
)
    requires
        call_ensures(drain_is_over, (asr, optimizer, punc, elapsed_ms), over),
        call_ensures(capture_has_ended, (state,), ended),
    ensures
        elapsed_ms >= 30000 ==> over,
        elapsed_ms < 30000 && (asr || optimizer || punc) ==> !over,
        !asr && !optimizer && !punc ==> over,
        state is None ==> ended,
        state matches Some(s) ==> (!ended <==> s@ is Capturing || s@ is Stopping),
{
}

/// Nothing is written where that is switched off, which is no error, or where the directory cannot be
/// used, which is one that says why.
pub proof fn why_nothing_is_written(
    cfg: &ExportConfig,
    dir: &Result<String, ExportPathError>,
    base: &str,
    has_audio: bool,
    transcription: &str,
    optimized: &str,
    facts: WriteFacts,
    r: ExportDone,
)
    requires
        !cfg.enabled || *dir is Err,
        call_ensures(
            save_capture_artifacts,
            (cfg, dir, base, has_audio, transcription, optimized, facts),
            r,
        ),
    ensures
        r.wav_path is None && r.txt_path is None && r.optimized_path is None && r.samples == 0,
        !cfg.enabled ==> r.error is None && r.skipped is Some,
        cfg.enabled ==> r.skipped is None && (r.error matches Some(m)
            && dir->Err_0.says().is_suffix_of(m@)),
{
    if cfg.enabled {
        let label = "导出路径无效: "@;
        let e = dir->Err_0.says();
        assert((label + e).subrange(label.len() as int, (label + e).len() as int) =~= e);
    }
}

/// Each file there is something for is written whatever becomes of the others, and its path is told
/// where it was: the sound where there is some, with the number of its samples, and each text that is
/// not empty.
pub proof fn each_file_is_written_by_itself(
    cfg: &ExportConfig,
    dir: &Result<String, ExportPathError>,
    base: &str,
    has_audio: bool,
    transcription: &str,
    optimized: &str,
    facts: WriteFacts,
    r: ExportDone,
)
    requires
        cfg.enabled,
        *dir is Ok,
        call_ensures(
            save_capture_artifacts,
            (cfg, dir, base, has_audio, transcription, optimized, facts),
            r,
        ),
    ensures
        text::opt(r.wav_path) == (match facts.audio {
            WriteOutcome::Written { path, samples } => if has_audio {
                Some(path@)
            } else {
                None
            },
            _ => None,
        }),
        facts.audio matches WriteOutcome::Written { path, samples } ==> has_audio ==> r.samples
            == samples,
        text::opt(r.txt_path) == (match facts.text {
            WriteOutcome::Written { path, samples } => if transcription@.len() > 0 {
                Some(path@)
            } else {
                None
            },
            _ => None,
        }),
        text::opt(r.optimized_path) == (match facts.optimized {
            WriteOutcome::Written { path, samples } => if optimized@.len() > 0 {
                Some(path@)
            } else {
                None
            },
            _ => None,
        }),
        r.error is Some <==> has_audio && !(facts.audio is Written) || transcription@.len() > 0
            && !(facts.text is Written) || optimized@.len() > 0 && !(facts.optimized is Written),
        !has_audio && transcription@.len() == 0 && optimized@.len() == 0 <==> r.skipped is Some,
{
    let plan = export_config::planned(
        true,
        cfg.text_format,
        base@,
        has_audio,
        if_any(transcription@),
        if_any(optimized@),
    );
    files_do_not_depend_on_each_other(plan, facts.audio@, facts.text@, facts.optimized@);
    every_failure_is_reported(plan, facts.audio@, facts.text@, facts.optimized@);
    let end = saved(plan, facts.audio@, facts.text@, facts.optimized@);
    assert(r@ == end.done());
    assert(r@.wav == text::opt(r.wav_path) && r@.txt == text::opt(r.txt_path) && r@.optimized
        == text::opt(r.optimized_path) && r@.samples == r.samples);
    assert(r@.error == text::opt(r.error) && r@.skipped == text::opt(r.skipped));
}

/// Where no file of a plan can be written, the report says of each of them what the system said, in the
/// order in which they were tried, and of which file it speaks.
pub proof fn failures_are_listed(plan: Plan, a: Seq<char>, t: Seq<char>, o: Seq<char>)
    requires
        plan.wav is Some && plan.text is Some && plan.optimized is Some,
    ensures
        saved(plan, Outcome::Failed(a), Outcome::Failed(t), Outcome::Failed(o)).done().error == Some(
            "音频: "@ + a + "; "@ + ("文本: "@ + t) + "; "@ + ("优化文本: "@ + o),
        ),
{
    let end = saved(plan, Outcome::Failed(a), Outcome::Failed(t), Outcome::Failed(o));
    let (x, y, z) = ("音频: "@ + a, "文本: "@ + t, "优化文本: "@ + o);
    assert(end.errors =~= seq![x, y, z]);
    assert(end.errors.drop_last() =~= seq![x, y]);
    text::joining_separates(x, y, "; "@);
}

/// The files are written in order: the sound first, then the transcript, then the improved text, each
/// with the name and the text of the plan, and those that are not in the plan are left out.
pub proof fn files_are_written_in_order(s: &Saving, r: SaveTask)
    requires
        s@.wf(),
        call_ensures(Saving::task, (s,), r),
    ensures
        s@.stage == 0 ==> (r matches SaveTask::Audio { name } && s@.plan.wav == Some(name@)),
        s@.stage == 1 ==> (r matches SaveTask::Text { name, content } && s@.plan.text == Some(
            (name@, content@),
        )),
        s@.stage == 2 ==> (r matches SaveTask::Text { name, content } && s@.plan.optimized == Some(
            (name@, content@),
        )),
        s@.stage == 3 ==> r is End,
{
}

/// After each file comes the next one of the plan; none of them is left out, and none comes twice. A
/// file that was written is noted under its path, and one that was not is complained of.
pub proof fn no_file_is_left_out(s: &mut Saving, outcome: WriteOutcome)
    requires
        old(s)@.wf(),
        old(s)@.stage < 3,
        call_ensures(Saving::report, (s, outcome), ()),
    ensures
        final(s)@.plan == old(s)@.plan,
        final(s)@.stage > old(s)@.stage,
        old(s)@.stage == 0 && old(s)@.plan.text is Some ==> final(s)@.stage == 1,
        old(s)@.stage <= 1 && final(s)@.stage != 1 && old(s)@.plan.optimized is Some ==> final(
            s)@.stage == 2,
        ({
            let written = match outcome {
                WriteOutcome::Written { path, samples } => Some(path@),
                _ => None,
            };
            &&& final(s)@.wav == if old(s)@.stage == 0 { written } else { old(s)@.wav }
            &&& final(s)@.txt == if old(s)@.stage == 1 { written } else { old(s)@.txt }
            &&& final(s)@.optimized == if old(s)@.stage == 2 { written } else { old(s)@.optimized }
            &&& final(s)@.errors.len() == old(s)@.errors.len() + if written is None { 1int } else { 0int }
        }),
{
}

/// What is to be written is what the plan has for the recording: the texts that are empty count as
/// missing. It begins with the first file of the plan, and nothing is noted yet.
pub proof fn saving_begins_with_the_plan(
    cfg: &ExportConfig,
    base: &str,
    has_audio: bool,
    transcription: &str,
    optimized: &str,
    t: Option<&str>,
    o: Option<&str>,
    plan: ArtifactsPlan,
    s: Saving,
)
    requires
        t matches Some(x) ==> x@ == transcription@ && x@.len() > 0,
        t is None ==> transcription@.len() == 0,
        o matches Some(x) ==> x@ == optimized@ && x@.len() > 0,
        o is None ==> optimized@.len() == 0,
        call_ensures(export_plan, (cfg, base, has_audio, t, o), plan),
        call_ensures(Saving::new, (cfg, base, has_audio, transcription, optimized), s),
    ensures
        s@.plan == plan@,
        s@.stage == 0 <==> plan.wav is Some,
        s@.stage == 1 <==> plan.wav is None && plan.text is Some,
        s@.stage == 2 <==> plan.wav is None && plan.text is None && plan.optimized is Some,
        s@.wav is None && s@.txt is None && s@.optimized is None && s@.errors.len() == 0,
{
    assert(plan@.wav is Some <==> plan.wav is Some);
    assert(plan@.text is Some <==> plan.text is Some);
    assert(plan@.optimized is Some <==> plan.optimized is Some);
}

/// The user is told what was noted: the paths of the files, an error where there was any, and that
/// there was nothing to write exactly where neither is told.
pub proof fn what_was_noted_is_told(s: Saving, r: ExportDone)
    requires
        call_ensures(Saving::finish, (s,), r),
    ensures
        text::opt(r.wav_path) == s@.wav,
        text::opt(r.txt_path) == s@.txt,
        text::opt(r.optimized_path) == s@.optimized,
        r.samples == s@.samples,
        r.error is None <==> s@.errors.len() == 0,
        r.skipped is Some <==> s@.wav is None && s@.txt is None && s@.optimized is None
            && s@.errors.len() == 0,
{
    assert(r@.wav == text::opt(r.wav_path) && r@.txt == text::opt(r.txt_path) && r@.optimized
        == text::opt(r.optimized_path) && r@.samples == r.samples && r@.error == text::opt(r.error)
        && r@.skipped == text::opt(r.skipped));
}

/// The user is told before the sound is written and once before the texts are, and at no other time.
pub proof fn what_is_told_before_a_file(s: &Saving, r: Option<ExportPhase>)
    requires
        s@.wf(),
        call_ensures(Saving::phase, (s,), r),
    ensures
        s@.stage == 0 ==> r == Some(ExportPhase::WritingAudio),
        s@.stage == 1 ==> r == Some(ExportPhase::WritingText),
        s@.stage == 2 && s@.plan.text is None ==> r == Some(ExportPhase::WritingText),
        s@.stage == 2 && s@.plan.text is Some ==> r is None,
        s@.stage == 3 ==> r is None,
{
}

/// The names of the phases, as the user interface knows them.
pub proof fn the_names_of_the_phases(p: &ExportPhase, r: &'static str)
    requires
        call_ensures(ExportPhase::name, (p,), r),
    ensures
        *p is Draining ==> r@ == "draining"@,
        *p is WritingAudio ==> r@ == "writing-audio"@,
        *p is WritingText ==> r@ == "writing-text"@,
{
}

/// Where writing is switched off, that is said and is no error; where the directory is refused, the
/// reason is said.
pub proof fn what_is_told_where_nothing_is_written(off: ExportDone, e: &ExportPathError, r: ExportDone)
    requires
        call_ensures(not_enabled, (), off),
        call_ensures(dir_refused, (e,), r),
    ensures
        text::opt(off.skipped) == Some("导出未启用"@) && off.error is None,
        text::opt(r.error) == Some("导出路径无效: "@ + e.says()) && r.skipped is None,
        off.wav_path is None && off.txt_path is None && off.optimized_path is None,
        r.wav_path is None && r.txt_path is None && r.optimized_path is None,
{
    assert(off@.skipped == text::opt(off.skipped) && off@.error == text::opt(off.error)
        && off@.wav == text::opt(off.wav_path) && off@.txt == text::opt(off.txt_path)
        && off@.optimized == text::opt(off.optimized_path));
    assert(r@.skipped == text::opt(r.skipped) && r@.error == text::opt(r.error) && r@.wav
        == text::opt(r.wav_path) && r@.txt == text::opt(r.txt_path) && r@.optimized == text::opt(
        r.optimized_path,
    ));
}

/// Where there is no recording to write, that is what is reported.
pub proof fn a_missing_recording_is_reported(plan: Plan)
    requires
        plan.wav is Some,
        plan.text is None,
        plan.optimized is None,
    ensures
        saved(plan, Outcome::NoCapturer, Outcome::NoCapturer, Outcome::NoCapturer).done().error == Some(
            "无捕获器"@,
        ),
{
    let end = saved(plan, Outcome::NoCapturer, Outcome::NoCapturer, Outcome::NoCapturer);
    assert(end.errors =~= seq!["无捕获器"@]);
    text::joining_separates("无捕获器"@, Seq::empty(), "; "@);
}

} // verus!
