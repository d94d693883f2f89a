//! The recognition of one recording.
//!
//! One thread feeds chunks of sound to the recognition process, another takes its results. When the
//! recording was ended, the process is asked for what it has left, and its last result ends the
//! session.

use vstd::prelude::*;
use crate::dictionary::Dictionary;
use crate::punc_session::TranscriptionEvent;
use crate::python_bridge::AsrResult;
use crate::text;
use crate::text_postprocess;
use crate::text_postprocess::postprocess;

verus! {

// ── Lost chunks ────────────────────────────────────────

/// How many milliseconds lie at least between two warnings about lost chunks.
pub const DROP_WARN_INTERVAL_MS: u64 = 5000;

/// Whether to warn: chunks were lost since the last warning, and it was long enough ago.
pub fn should_warn(elapsed_ms: u64, dropped_delta: u64) -> (r: bool)
    ensures
        r <==> dropped_delta > 0 && elapsed_ms >= DROP_WARN_INTERVAL_MS,
{
    dropped_delta > 0 && elapsed_ms >= DROP_WARN_INTERVAL_MS
}

/// Warns about lost chunks, but not too often.
#[derive(Debug, Clone, Copy)]
pub struct DropWarner {
    /// When it last warned.
    pub last_ms: Option<u64>,
    /// How many chunks it then spoke of.
    pub reported: u64,
}

impl DropWarner {
    /// A warner that has not warned yet.
    pub fn new() -> (r: Self)
        ensures
            r.last_ms is None,
            r.reported == 0,
    {
        DropWarner { last_ms: None, reported: 0 }
    }

    /// Whether a warning is due when `total` chunks have been lost. The first loss is worth one at
    /// once.
    pub open spec fn warns(self, total: int, now: int) -> bool {
        total > self.reported && match self.last_ms {
            Some(then) => now - then >= DROP_WARN_INTERVAL_MS,
            None => true,
        }
    }

    /// Warns of all the chunks that were lost, where a warning is due at the time `now_ms`.
    pub fn check(&mut self, total: u64, now_ms: u64) -> (r: Option<u64>)
        ensures
            old(self).warns(total as int, now_ms as int) ==> r == Some(total) && *final(self) == (
            DropWarner { last_ms: Some(now_ms), reported: total }),
            !old(self).warns(total as int, now_ms as int) ==> r is None && *final(self) == *old(
                self),
    {
        let delta = total.saturating_sub(self.reported);
        let elapsed: u64 = match self.last_ms {
            Some(then) => now_ms.saturating_sub(then),
            None => u64::MAX,
        };
        if should_warn(elapsed, delta) {
            self.last_ms = Some(now_ms);
            self.reported = total;
            Some(total)
        } else {
            None
        }
    }
}

// ── Results ────────────────────────────────────────────

/// What the program does about a result.
pub struct ResultActions {
    /// A sentence for the one who improves the text.
    pub to_optimizer: Option<String>,
    /// A piece for the one who punctuates the text.
    pub to_punc: Option<String>,
    /// What the user is told about the transcript.
    pub show: Option<TranscriptionEvent>,
    /// What the user is told about an error.
    pub error: Option<String>,
}

/// Decides what the program does about a result. Its text is processed with the words of the user,
/// and goes to the one who improves the text, if there is one, and to the one who punctuates it; where
/// there is none of the latter, it is shown at once, behind the transcript.
pub fn result_actions(
    r: AsrResult,
    words: &Dictionary,
    has_optimizer: bool,
    has_punc: bool,
    transcript: &mut String,
) -> (a: ResultActions)
    requires
        words.wf(),
    ensures
        text::opt(a.error) == text::opt(r.error),
        r.text@.len() == 0 ==> a.to_optimizer is None && a.to_punc is None && a.show is None
            && final(transcript)@ == old(transcript)@,
        r.text@.len() > 0 ==> ({
            let t = text_postprocess::processed(words@, r.text@);
            &&& text::opt(a.to_optimizer) == (if has_optimizer {
                Some(t)
            } else {
                None
            })
            &&& text::opt(a.to_punc) == (if has_punc {
                Some(t)
            } else {
                None
            })
            &&& final(transcript)@ == (if has_punc {
                old(transcript)@
            } else {
                old(transcript)@ + t
            })
            &&& a.show is Some <==> !has_punc
            &&& a.show is Some ==> a.show->Some_0.text@ == t && a.show->Some_0.full_text@ == final(
                transcript)@ && a.show->Some_0.language@ == "auto"@ && a.show->Some_0.is_final
                == r.is_final
        }),
{
    let mut a = ResultActions { to_optimizer: None, to_punc: None, show: None, error: r.error };
    if r.text.as_str().is_empty() {
        return a;
    }
    let t = postprocess(r.text.as_str(), words);
    if has_optimizer {
        a.to_optimizer = Some(t.clone());
    }
    if has_punc {
        a.to_punc = Some(t);
    } else {
        transcript.append(t.as_str());
        a.show = Some(
            TranscriptionEvent {
                text: t,
                full_text: transcript.clone(),
                language: "auto".to_string(),
                is_final: r.is_final,
            },
        );
    }
    a
}

/// What the user is told at the end: the transcript, where there is one and nobody else tells.
pub fn closing_event(has_punc: bool, transcript: &str) -> (r: Option<TranscriptionEvent>)
    ensures
        r is Some <==> !has_punc && transcript@.len() > 0,
        r is Some ==> r->Some_0.text@.len() == 0 && r->Some_0.full_text@ == transcript@
            && r->Some_0.language@.len() == 0 && r->Some_0.is_final,
{
    if has_punc || transcript.is_empty() {
        None
    } else {
        Some(
            TranscriptionEvent {
                text: String::new(),
                full_text: transcript.to_string(),
                language: String::new(),
                is_final: true,
            },
        )
    }
}

// ── The course of a session ────────────────────────────

/// How many milliseconds the thread that feeds the process has to end.
pub const FEED_TIMEOUT_MS: u64 = 3000;

/// How many milliseconds the process has for what it has left.
pub const FLUSH_TIMEOUT_MS: u64 = 25000;

/// Where a session is.
#[derive(Debug, Clone, Copy, PartialEq, Eq, Structural)]
pub enum AsrMode {
    /// Results come in.
    Listening,
    /// The recording was ended: the thread that feeds the process is to end, and the process is to
    /// be asked for what it has left.
    Ending,
    /// The process was asked at the given time.
    Flushing { since_ms: u64 },
    /// The session has ended.
    Ended,
}

/// What comes to a session.
#[derive(Debug, Clone, Copy, PartialEq, Eq, Structural)]
pub enum AsrInput {
    /// A result, and whether it is the last one of a text.
    Result { is_final: bool },
    /// No result for a while.
    Silence,
    /// No result can come any more.
    Closed,
    /// The process was asked for what it has left.
    FlushSent,
}

impl AsrMode {
    /// Where a session is after an input at the time `now`; `running` says whether the recording
    /// runs. Results that come while it runs change nothing, even where they are final.
    pub open spec fn after(self, input: AsrInput, running: bool, now: u64) -> AsrMode {
        match self {
            AsrMode::Listening => match input {
                AsrInput::Silence => if running {
                    AsrMode::Listening
                } else {
                    AsrMode::Ending
                },
                AsrInput::Closed => AsrMode::Ending,
                _ => AsrMode::Listening,
            },
            AsrMode::Ending => match input {
                AsrInput::FlushSent => AsrMode::Flushing { since_ms: now },
                _ => AsrMode::Ending,
            },
            AsrMode::Flushing { since_ms } => match input {
                AsrInput::Closed => AsrMode::Ended,
                AsrInput::Result { is_final } => if is_final || now - since_ms >= FLUSH_TIMEOUT_MS {
                    AsrMode::Ended
                } else {
                    self
                },
                _ => if now - since_ms >= FLUSH_TIMEOUT_MS {
                    AsrMode::Ended
                } else {
                    self
                },
            },
            AsrMode::Ended => AsrMode::Ended,
        }
    }

    /// Goes on with an input.
    pub fn next(self, input: AsrInput, running: bool, now_ms: u64) -> (r: AsrMode)
        ensures
            r == self.after(input, running, now_ms),
    {
        match self {
            AsrMode::Listening => match input {
                AsrInput::Silence => if running {
                    AsrMode::Listening
                } else {
                    AsrMode::Ending
                },
                AsrInput::Closed => AsrMode::Ending,
                _ => AsrMode::Listening,
            },
            AsrMode::Ending => match input {
                AsrInput::FlushSent => AsrMode::Flushing { since_ms: now_ms },
                _ => AsrMode::Ending,
            },
            AsrMode::Flushing { since_ms } => {
                let over = now_ms >= since_ms && now_ms - since_ms >= FLUSH_TIMEOUT_MS;
                match input {
                    AsrInput::Closed => AsrMode::Ended,
                    AsrInput::Result { is_final } => if is_final || over {
                        AsrMode::Ended
                    } else {
                        self
                    },
                    _ => if over {
                        AsrMode::Ended
                    } else {
                        self
                    },
                }
            },
            AsrMode::Ended => AsrMode::Ended,
        }
    }
}

/// What comes to the thread that feeds the process.
#[derive(Debug, Clone, Copy, PartialEq, Eq, Structural)]
pub enum FeedInput {
    /// A chunk, and whether feeding it went well.
    Chunk { fed: bool },
    /// No chunk for a while.
    Silence,
    /// No chunk can come any more.
    Closed,
}

/// Whether the thread that feeds the process goes on: while chunks can come and the process takes
/// them, and the recording runs.
pub fn feed_goes_on(input: FeedInput, running: bool) -> (r: bool)
    ensures
        r <==> running && input != FeedInput::Closed && input != (FeedInput::Chunk { fed: false }),
{
    match input {
        FeedInput::Chunk { fed } => running && fed,
        FeedInput::Silence => running,
        FeedInput::Closed => false,
    }
}

// ── Laws ───────────────────────────────────────────────

/// A session does not end while the recording runs and results can come.
pub proof fn a_running_session_listens(input: AsrInput, now: u64)
    requires
        input != AsrInput::Closed,
    ensures
        AsrMode::Listening.after(input, true, now) == AsrMode::Listening,
{
}

/// Once the process was asked for what it has left, the session ends with the last result, and at the
/// latest when the time is over, whatever comes.
pub proof fn flushing_ends(since_ms: u64, input: AsrInput, running: bool, now: u64)
    requires
        input == (AsrInput::Result { is_final: true }) || now - since_ms >= FLUSH_TIMEOUT_MS,
    ensures
        (AsrMode::Flushing { since_ms }).after(input, running, now) == AsrMode::Ended,
{
}

/// Two warnings are never closer together than the interval, and each speaks of more lost chunks than
/// the one before.
pub proof fn warnings_are_spaced(w: DropWarner, total: int, now: int)
    requires
        w.warns(total, now),
    ensures
        total > w.reported,
        w.last_ms matches Some(then) ==> now - then >= DROP_WARN_INTERVAL_MS,
{
}

/// The first loss is warned of at once.
pub proof fn the_first_loss_is_warned_of(total: int, now: int)
    requires
        total > 0,
    ensures
        (DropWarner { last_ms: None, reported: 0 }).warns(total, now),
{
}

/// Lost chunks are warned of when there are more than at the last warning and five seconds have passed
/// since it, and the first ones at once. A warning speaks of all of them.
pub proof fn when_losses_are_warned_of(
    w: &mut DropWarner,
    total: u64,
    now_ms: u64,
    r: Option<u64>,
)
    requires
        call_ensures(DropWarner::check, (w, total, now_ms), r),
    ensures
        r is Some <==> total > old(w).reported && (match old(w).last_ms {
            None => true,
            Some(then) => now_ms - then >= 5000,
        }),
        r matches Some(n) ==> n == total && final(w).reported == total && final(w).last_ms == Some(
            now_ms,
        ),
        r is None ==> *final(w) == *old(w),
{
}

/// A result with a text reaches everybody it is for: the one who improves the text and the one who
/// punctuates it get the same text, which is the recognized one with the words of the user replaced
/// and simplified. Where nobody punctuates, it is shown behind the transcript.
pub proof fn results_reach_everybody(
    r: AsrResult,
    words: &Dictionary,
    has_optimizer: bool,
    has_punc: bool,
    transcript: &mut String,
    a: ResultActions,
    recognized: &str,
    t: String,
)
    requires
        r.text@.len() > 0,
        recognized@ == r.text@,
        call_ensures(postprocess, (recognized, words), t),
        call_ensures(result_actions, (r, words, has_optimizer, has_punc, transcript), a),
    ensures
        has_optimizer ==> text::opt(a.to_optimizer) == Some(t@),
        !has_optimizer ==> a.to_optimizer is None,
        has_punc ==> text::opt(a.to_punc) == Some(t@) && a.show is None && final(transcript)@
            == old(transcript)@,
        !has_punc ==> a.to_punc is None && final(transcript)@ == old(transcript)@ + t@ && (
        a.show matches Some(e) && e.text@ == t@ && e.full_text@ == old(transcript)@ + t@
            && e.language@ == "auto"@ && e.is_final == r.is_final),
        text::opt(a.error) == text::opt(r.error),
{
}

/// A result without a text changes nothing and is handed to nobody, but its error is still told.
pub proof fn empty_results_change_nothing(
    r: AsrResult,
    words: &Dictionary,
    has_optimizer: bool,
    has_punc: bool,
    transcript: &mut String,
    a: ResultActions,
)
    requires
        r.text@.len() == 0,
        call_ensures(result_actions, (r, words, has_optimizer, has_punc, transcript), a),
    ensures
        a.to_optimizer is None && a.to_punc is None && a.show is None,
        final(transcript)@ == old(transcript)@,
        text::opt(a.error) == text::opt(r.error),
{
}

/// The transcript is told at the end exactly where there is one and nobody punctuates it.
pub proof fn the_transcript_is_told_at_the_end(
    has_punc: bool,
    transcript: &str,
    r: Option<TranscriptionEvent>,
)
    requires
        call_ensures(closing_event, (has_punc, transcript), r),
    ensures
        r is None <==> has_punc || transcript@.len() == 0,
        r matches Some(e) ==> e.full_text@ == transcript@ && e.text@.len() == 0
            && e.language@.len() == 0 && e.is_final,
{
}

/// A session goes through its modes in one direction: it listens until the recording was ended and no
/// result comes, or until none can come; then it ends the feeding, and asks the process for what it
/// has left; and it is over only after that.
pub proof fn sessions_go_one_way(
    mode: AsrMode,
    input: AsrInput,
    running: bool,
    now_ms: u64,
    r: AsrMode,
)
    requires
        call_ensures(AsrMode::next, (mode, input, running, now_ms), r),
    ensures
        mode is Listening ==> (r is Ending <==> input is Closed || input is Silence && !running),
        mode is Listening ==> r is Ending || r is Listening,
        mode is Ending ==> (r is Flushing <==> input is FlushSent),
        mode is Ending ==> r is Ending || r == (AsrMode::Flushing { since_ms: now_ms }),
        mode is Flushing ==> r is Ended || r == mode,
        mode is Ended ==> r is Ended,
{
}

/// After the process was asked for what it has left, the session is over with the last result, when no
/// result can come, or after twenty-five seconds; a result that is not the last one does not end it
/// before that.
pub proof fn the_last_result_ends_a_session(
    since_ms: u64,
    input: AsrInput,
    running: bool,
    now_ms: u64,
    r: AsrMode,
)
    requires
        call_ensures(AsrMode::next, (AsrMode::Flushing { since_ms }, input, running, now_ms), r),
    ensures
        r is Ended <==> input == (AsrInput::Result { is_final: true }) || input is Closed || now_ms
            - since_ms >= 25000,
{
}

/// The process is fed while the recording runs, chunks can come and it takes them.
pub proof fn feeding_goes_on(input: FeedInput, running: bool, r: bool)
    requires
        call_ensures(feed_goes_on, (input, running), r),
    ensures
        !running ==> !r,
        running ==> (r <==> input is Silence || input == (FeedInput::Chunk { fed: true })),
        FEED_TIMEOUT_MS == 3000,
{
}

/// A warning needs a loss and five seconds, and a warner that has not warned yet knows of no loss.
pub proof fn a_warning_needs_a_loss(elapsed_ms: u64, dropped_delta: u64, r: bool, w: DropWarner)
    requires
        call_ensures(should_warn, (elapsed_ms, dropped_delta), r),
        call_ensures(DropWarner::new, (), w),
    ensures
        r <==> dropped_delta != 0 && elapsed_ms >= 5000,
        w.last_ms is None && w.reported == 0,
{
}

} // verus!
