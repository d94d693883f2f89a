//! The transcript of one recording, with punctuation where that can be had.
//!
//! Pieces of recognized text come in. While the punctuation model is ready, the whole text is
//! punctuated from time to time, and the outcome is shown in place of what was shown. While it is
//! not, and wherever it fails, the text is shown as it was recognized: nothing of it is lost.

use vstd::prelude::*;
use crate::punc_pipeline;
use crate::punc_pipeline::{Collected, PuncAction, PuncPipeline};
use crate::python_bridge::PuncResult;
use crate::text;

verus! {

/// How many milliseconds the session waits for the last pieces after the recording was ended.
pub const GRACE_MS: u64 = 5000;

/// What the user is told about the transcript: the new text, all the text, its language, and whether
/// it is final.
#[derive(Debug, Clone)]
pub struct TranscriptionEvent {
    pub text: String,
    pub full_text: String,
    pub language: String,
    pub is_final: bool,
}

/// Where a session is.
#[derive(Debug, Clone, Copy, PartialEq, Eq, Structural)]
pub enum PuncMode {
    /// Pieces come in.
    Listening,
    /// The recording was ended; the last pieces come in, no longer than until the given time.
    Draining { until_ms: u64 },
    /// No more pieces come in.
    Closed,
}

/// What a session holds: the pieces, when punctuation was last asked for, where it is, and the text
/// that the model has.
#[verifier::ext_equal]
pub struct Talk {
    pub collected: Collected,
    pub last_ms: int,
    pub mode: PuncMode,
    pub asked: Option<Seq<char>>,
    pub shown: Seq<char>,
}

/// The milliseconds from `then` to `now`; none where `now` is not later.
pub open spec fn since(now: int, then: int) -> int {
    if now > then {
        now - then
    } else {
        0
    }
}

impl Talk {
    /// With a request for punctuation, where it is due.
    pub open spec fn flushed(self, ready: bool, now: int) -> Talk {
        if ready && punc_pipeline::due(since(now, self.last_ms), self.collected.pending) {
            Talk {
                collected: self.collected.requested(),
                asked: Some(self.collected.raw),
                ..self
            }
        } else {
            self
        }
    }

    /// With a piece. It is shown as it is where the model is not ready; where it is, punctuation may
    /// be due, while the recording runs.
    pub open spec fn with_piece(self, s: Seq<char>, ready: bool, now: int) -> Talk {
        let t = Talk { collected: self.collected.pushed(s, ready), ..self };
        if !ready {
            Talk { shown: self.shown + s, ..t }
        } else if self.mode is Listening {
            t.flushed(ready, now)
        } else {
            t
        }
    }

    /// When no piece came for a while.
    pub open spec fn with_silence(self, running: bool, ready: bool, now: int) -> Talk {
        match self.mode {
            PuncMode::Listening => if running {
                self.flushed(ready, now)
            } else {
                Talk { mode: PuncMode::Draining { until_ms: deadline(now) }, ..self }
            },
            PuncMode::Draining { until_ms } => if now > until_ms {
                self.closed(ready)
            } else {
                self
            },
            PuncMode::Closed => self,
        }
    }

    /// When no more pieces can come: the whole text is punctuated once more where the model is ready.
    /// Where it is not, pieces that were kept for it are shown with the rest as they are.
    pub open spec fn closed(self, ready: bool) -> Talk {
        if ready && self.collected.raw.len() > 0 {
            Talk {
                collected: self.collected.requested(),
                mode: PuncMode::Closed,
                asked: Some(self.collected.raw),
                ..self
            }
        } else if self.collected.pending > 0 {
            Talk { mode: PuncMode::Closed, shown: self.collected.raw, ..self }
        } else {
            Talk { mode: PuncMode::Closed, ..self }
        }
    }

    /// With what came of a request for punctuation: the text with punctuation, or the text as it was.
    pub open spec fn with_reply(self, punctuated: Option<Seq<char>>, now: int) -> Talk {
        match self.asked {
            Some(raw) => Talk {
                asked: None,
                last_ms: now,
                shown: match punctuated {
                    Some(p) => p,
                    None => raw,
                },
                ..self
            },
            None => self,
        }
    }
}

/// The end of the grace that begins at `now`.
pub open spec fn deadline(now: int) -> u64 {
    if now + GRACE_MS > u64::MAX {
        u64::MAX
    } else {
        (now + GRACE_MS) as u64
    }
}

/// What came of a request for punctuation.
#[derive(Debug, Clone)]
pub enum PuncReply {
    /// The model was not ready any more.
    NotReady,
    /// The request could not be sent.
    Unsent,
    /// No answer came in time.
    Late,
    Answer(PuncResult),
}

/// The text with punctuation, where there is one: an answer without an error that is not empty.
pub open spec fn punctuated(reply: PuncReply) -> Option<Seq<char>> {
    match reply {
        PuncReply::Answer(r) => if r.error is None && r.text@.len() > 0 {
            Some(r.text@)
        } else {
            None
        },
        _ => None,
    }
}

/// What the program does next.
pub enum PuncStep {
    /// Waits for the next piece.
    Wait,
    /// Has a text punctuated, and reports what came of it.
    Ask { text: String },
    /// Is done.
    Finished,
}

/// The transcript of one recording.
pub struct PuncSession {
    pipeline: PuncPipeline,
    last_ms: u64,
    mode: PuncMode,
    asked: Option<String>,
    shown: String,
}

impl View for PuncSession {
    type V = Talk;

    closed spec fn view(&self) -> Talk {
        Talk {
            collected: self.pipeline@,
            last_ms: self.last_ms as int,
            mode: self.mode,
            asked: text::opt(self.asked),
            shown: self.shown@,
        }
    }
}

impl PuncSession {
    /// A session without text, at the time `now_ms`.
    pub fn new(now_ms: u64) -> (r: Self)
        ensures
            r@ == (Talk {
                collected: Collected { raw: Seq::empty(), pending: 0 },
                last_ms: now_ms as int,
                mode: PuncMode::Listening,
                asked: None,
                shown: Seq::empty(),
            }),
    {
        let r = PuncSession {
            pipeline: PuncPipeline::new(),
            last_ms: now_ms,
            mode: PuncMode::Listening,
            asked: None,
            shown: String::new(),
        };
        assert(r@ =~= Talk {
            collected: Collected { raw: Seq::empty(), pending: 0 },
            last_ms: now_ms as int,
            mode: PuncMode::Listening,
            asked: None,
            shown: Seq::empty(),
        });
        r
    }

    /// The transcript as it is shown.
    pub fn shown(&self) -> (r: &str)
        ensures
            r@ == self@.shown,
    {
        self.shown.as_str()
    }

    fn flush(&mut self, ready: bool, now_ms: u64)
        requires
            old(self)@.asked is None,
        ensures
            final(self)@ == old(self)@.flushed(ready, now_ms as int),
    {
        let ghost was = self@;
        let elapsed = now_ms.saturating_sub(self.last_ms);
        if let PuncAction::RequestPunc { text } = self.pipeline.decide_flush(elapsed, ready) {
            self.asked = Some(text);
        }
        assert(self@ =~= was.flushed(ready, now_ms as int));
    }

    /// Takes in a piece of text, at the time `now_ms`. Says what the user is told about it, if
    /// anything.
    pub fn piece(&mut self, s: &str, ready: bool, now_ms: u64) -> (r: Option<TranscriptionEvent>)
        requires
            old(self)@.asked is None,
        ensures
            final(self)@ == old(self)@.with_piece(s@, ready, now_ms as int),
            r is Some <==> !ready,
            r is Some ==> r->Some_0.text@ == s@ && r->Some_0.full_text@ == final(self)@.shown
                && r->Some_0.language@ == "auto"@ && !r->Some_0.is_final,
    {
        let ghost was = self@;
        match self.pipeline.push(s, ready) {
            PuncAction::PassThrough { sentence } => {
                self.shown.append(sentence.as_str());
                assert(self@ =~= was.with_piece(s@, ready, now_ms as int));
                Some(
                    TranscriptionEvent {
                        text: sentence,
                        full_text: self.shown.clone(),
                        language: "auto".to_string(),
                        is_final: false,
                    },
                )
            },
            _ => {
                assert(self@ =~= Talk { collected: was.collected.pushed(s@, ready), ..was });
                if let PuncMode::Listening = self.mode {
                    self.flush(ready, now_ms);
                }
                None
            },
        }
    }

    /// Goes on when no piece came for a while, at the time `now_ms`.
    pub fn silence(&mut self, running: bool, ready: bool, now_ms: u64)
        requires
            old(self)@.asked is None,
        ensures
            final(self)@ == old(self)@.with_silence(running, ready, now_ms as int),
    {
        let ghost was = self@;
        match self.mode {
            PuncMode::Listening => {
                if running {
                    self.flush(ready, now_ms);
                } else {
                    self.mode = PuncMode::Draining { until_ms: now_ms.saturating_add(GRACE_MS) };
                    assert(self@ =~= was.with_silence(running, ready, now_ms as int));
                }
            },
            PuncMode::Draining { until_ms } => {
                if now_ms > until_ms {
                    self.close(ready);
                }
            },
            PuncMode::Closed => {},
        }
    }

    /// Goes on when no more pieces can come.
    pub fn close(&mut self, ready: bool)
        requires
            old(self)@.asked is None,
        ensures
            final(self)@ == old(self)@.closed(ready),
    {
        let ghost was = self@;
        self.mode = PuncMode::Closed;
        let unshown = self.pipeline.has_pending();
        match self.pipeline.finalize(ready) {
            PuncAction::RequestPunc { text } => {
                self.asked = Some(text);
            },
            _ => {
                if unshown {
                    self.shown = self.pipeline.raw_text();
                }
            },
        }
        assert(self@ =~= was.closed(ready));
    }

    /// Takes over what came of a request for punctuation, at the time `now_ms`. Says what the user is
    /// told about it.
    pub fn reply(&mut self, reply: PuncReply, now_ms: u64) -> (r: TranscriptionEvent)
        requires
            old(self)@.asked is Some,
        ensures
            final(self)@ == old(self)@.with_reply(punctuated(reply), now_ms as int),
            r.text@.len() == 0,
            r.full_text@ == final(self)@.shown,
            r.language@ == "auto"@,
            !r.is_final,
    {
        let ghost was = self@;
        if let Some(raw) = self.asked.take() {
            self.last_ms = now_ms;
            self.shown = match reply {
                PuncReply::Answer(p) => if p.error.is_none() && !p.text.as_str().is_empty() {
                    p.text
                } else {
                    raw
                },
                _ => raw,
            };
        }
        assert(self@ =~= was.with_reply(punctuated(reply), now_ms as int));
        TranscriptionEvent {
            text: String::new(),
            full_text: self.shown.clone(),
            language: "auto".to_string(),
            is_final: false,
        }
    }

    /// What the program does next.
    pub fn next(&self) -> (r: PuncStep)
        ensures
            match self@.asked {
                Some(raw) => r matches PuncStep::Ask { text } && text@ == raw,
                None => if self@.mode is Closed {
                    r is Finished
                } else {
                    r is Wait
                },
            },
    {
        match &self.asked {
            Some(raw) => PuncStep::Ask { text: raw.clone() },
            None => match self.mode {
                PuncMode::Closed => PuncStep::Finished,
                _ => PuncStep::Wait,
            },
        }
    }

    /// What the user is told at the end.
    pub fn final_event(&self) -> (r: TranscriptionEvent)
        ensures
            r.text@.len() == 0,
            r.full_text@ == self@.shown,
            r.language@.len() == 0,
            r.is_final,
    {
        TranscriptionEvent {
            text: String::new(),
            full_text: self.shown.clone(),
            language: String::new(),
            is_final: true,
        }
    }
}

// ── Laws ───────────────────────────────────────────────

/// What comes to a session.
pub enum TalkEvent {
    Piece { s: Seq<char>, ready: bool, now: int },
    Silence { running: bool, ready: bool, now: int },
    Close { ready: bool },
}

/// What comes to a session; where punctuation is asked for on that account, what came of it, and
/// when.
pub struct TalkInput {
    pub event: TalkEvent,
    pub reply: Option<Seq<char>>,
    pub at: int,
}

/// A session after something came to it, before punctuation is answered.
pub open spec fn heard(t: Talk, event: TalkEvent) -> Talk {
    match event {
        TalkEvent::Piece { s, ready, now } => t.with_piece(s, ready, now),
        TalkEvent::Silence { running, ready, now } => t.with_silence(running, ready, now),
        TalkEvent::Close { ready } => t.closed(ready),
    }
}

/// A session after one input.
pub open spec fn talked(t: Talk, input: TalkInput) -> Talk {
    heard(t, input.event).with_reply(input.reply, input.at)
}

/// A session that was empty at the time `start` after all the inputs.
pub open spec fn talk_after(start: int, inputs: Seq<TalkInput>) -> Talk
    decreases inputs.len(),
{
    if inputs.len() == 0 {
        Talk {
            collected: Collected { raw: Seq::empty(), pending: 0 },
            last_ms: start,
            mode: PuncMode::Listening,
            asked: None,
            shown: Seq::empty(),
        }
    } else {
        talked(talk_after(start, inputs.drop_last()), inputs.last())
    }
}

/// The piece in an input; empty where there is none.
pub open spec fn piece_of(input: TalkInput) -> Seq<char> {
    match input.event {
        TalkEvent::Piece { s, .. } => s,
        _ => Seq::empty(),
    }
}

/// All the pieces among the inputs, one after the other.
pub open spec fn pieces(inputs: Seq<TalkInput>) -> Seq<char>
    decreases inputs.len(),
{
    if inputs.len() == 0 {
        Seq::empty()
    } else {
        pieces(inputs.drop_last()) + piece_of(inputs.last())
    }
}

/// Whether punctuation was asked for at the `k`-th input, for all the pieces up to it, and answered.
pub open spec fn answered(start: int, inputs: Seq<TalkInput>, k: int) -> bool {
    &&& 0 < k <= inputs.len()
    &&& heard(talk_after(start, inputs.take(k - 1)), inputs[k - 1].event).asked == Some(
        pieces(inputs.take(k)),
    )
    &&& inputs[k - 1].reply is Some
}

/// The answer at the `k`-th input, and behind it every later piece as it was.
pub open spec fn shown_since(inputs: Seq<TalkInput>, k: int) -> Seq<char> {
    inputs[k - 1].reply->Some_0 + pieces(inputs.skip(k))
}

/// What is shown is all the pieces as they were, or an answer to the pieces up to some input and
/// behind it every later piece as it was.
pub open spec fn holds_every_piece(shown: Seq<char>, start: int, inputs: Seq<TalkInput>) -> bool {
    shown == pieces(inputs) || exists|k: int| #[trigger]
        answered(start, inputs, k) && shown == shown_since(inputs, k)
}

proof fn lemma_answered_before(start: int, inputs: Seq<TalkInput>, k: int)
    requires
        inputs.len() > 0,
        answered(start, inputs.drop_last(), k),
    ensures
        answered(start, inputs, k),
        shown_since(inputs, k) == shown_since(inputs.drop_last(), k) + piece_of(inputs.last()),
{
    let before = inputs.drop_last();
    assert(before.take(k - 1) =~= inputs.take(k - 1));
    assert(before.take(k) =~= inputs.take(k));
    assert(before[k - 1] == inputs[k - 1]);
    assert(inputs.skip(k).drop_last() =~= before.skip(k));
    assert(inputs.skip(k).last() == inputs.last());
    assert(shown_since(inputs, k) =~= shown_since(before, k) + piece_of(inputs.last()));
}

proof fn lemma_talk(start: int, inputs: Seq<TalkInput>)
    ensures
        ({
            let t = talk_after(start, inputs);
            &&& t.asked is None
            &&& t.collected.raw == pieces(inputs)
            &&& t.collected.pending == 0 ==> holds_every_piece(t.shown, start, inputs)
        }),
    decreases inputs.len(),
{
    if inputs.len() > 0 {
        let rest = inputs.drop_last();
        let input = inputs.last();
        let before = talk_after(start, rest);
        let after = heard(before, input.event);
        let t = talk_after(start, inputs);
        let n = inputs.len() as int;
        lemma_talk(start, rest);
        assert(after.collected.raw =~= pieces(inputs));
        if after.asked is Some {
            assert(inputs.take(n - 1) =~= rest);
            assert(inputs.take(n) =~= inputs);
            assert(inputs.skip(n) =~= Seq::empty());
            if let Some(p) = input.reply {
                assert(answered(start, inputs, n));
                assert(t.shown =~= shown_since(inputs, n));
            }
        } else if t.collected.pending == 0 {
            assert(before.collected.pending == 0);
            assert(t.shown =~= before.shown + piece_of(input));
            if before.shown == pieces(rest) {
                assert(t.shown =~= pieces(inputs));
            } else {
                let k = choose|k: int| #[trigger]
                    answered(start, rest, k) && before.shown == shown_since(rest, k);
                lemma_answered_before(start, inputs, k);
                assert(t.shown == shown_since(inputs, k));
            }
        }
    }
}

/// Whatever the model answers and however often it is ready or not: with the input that closes the
/// session, the transcript is all the pieces that came in, each once and in order, or an answer to all
/// the pieces up to some moment and behind it every later piece as it was.
pub proof fn no_piece_is_lost(start: int, inputs: Seq<TalkInput>)
    requires
        inputs.len() > 0,
        talk_after(start, inputs).mode is Closed,
        talk_after(start, inputs.drop_last()).mode !is Closed,
    ensures
        talk_after(start, inputs).asked is None,
        holds_every_piece(talk_after(start, inputs).shown, start, inputs),
{
    lemma_talk(start, inputs);
    lemma_talk(start, inputs.drop_last());
    let before = talk_after(start, inputs.drop_last());
    let after = heard(before, inputs.last().event);
    assert(after.collected.raw =~= pieces(inputs));
    if after.asked is Some && inputs.last().reply is None {
        assert(talk_after(start, inputs).shown == pieces(inputs));
    }
}

/// Where the model never answers, the transcript at the end is all the pieces that came in, each once
/// and in order, however often the model was ready or not.
pub proof fn without_punctuation_the_text_is_kept(start: int, inputs: Seq<TalkInput>)
    requires
        inputs.len() > 0,
        talk_after(start, inputs).mode is Closed,
        talk_after(start, inputs.drop_last()).mode !is Closed,
        forall|i: int| 0 <= i < inputs.len() ==> (#[trigger] inputs[i]).reply is None,
    ensures
        talk_after(start, inputs).shown == pieces(inputs),
{
    no_piece_is_lost(start, inputs);
    if talk_after(start, inputs).shown != pieces(inputs) {
        let k = choose|k: int| #[trigger]
            answered(start, inputs, k) && talk_after(start, inputs).shown == shown_since(inputs, k);
        assert(inputs[k - 1].reply is None);
    }
}

/// What is asked for is always the whole text as it was recognized.
pub proof fn the_whole_text_is_punctuated(t: Talk, s: Seq<char>, ready: bool, now: int)
    requires
        t.asked is None,
    ensures
        t.with_piece(s, ready, now).asked is Some ==> t.with_piece(s, ready, now).asked->Some_0
            == t.collected.raw + s,
        t.closed(ready).asked is Some ==> t.closed(ready).asked->Some_0 == t.collected.raw,
        t.with_silence(true, ready, now).asked is Some ==> t.with_silence(
            true,
            ready,
            now,
        ).asked->Some_0 == t.collected.raw,
{
}

/// After the recording was ended the session ends by itself, at the latest when the grace is over.
pub proof fn the_end_is_not_waited_for_forever(t: Talk, ready: bool, now: int, later: int)
    requires
        t.mode is Listening,
        0 <= now,
        later > deadline(now),
    ensures
        t.with_silence(false, ready, now).with_silence(false, ready, later).mode is Closed,
{
}


/// Once the model has a text, the program has it punctuated; else it waits for the next piece until
/// the session is closed, and then it is done.
pub proof fn what_the_program_does_next(s: &PuncSession, r: PuncStep)
    requires
        call_ensures(PuncSession::next, (s,), r),
    ensures
        r is Ask <==> s@.asked is Some,
        r matches PuncStep::Ask { text } ==> s@.asked == Some(text@),
        r is Finished <==> s@.asked is None && s@.mode is Closed,
{
}

/// When a session closes, all the pieces are punctuated once more where the model is ready and there
/// are any, whatever was shown or asked for before. Where the model is not ready, or nothing came in,
/// the session is done at once.
pub proof fn closing_asks_for_the_whole_text(
    s: &mut PuncSession,
    ready: bool,
    after: &PuncSession,
    r: PuncStep,
)
    requires
        old(s)@.asked is None,
        call_ensures(PuncSession::close, (s, ready), ()),
        after@ == final(s)@,
        call_ensures(PuncSession::next, (after,), r),
    ensures
        ready && old(s)@.collected.raw.len() > 0 ==> (r matches PuncStep::Ask { text } && text@
            == old(s)@.collected.raw),
        !ready || old(s)@.collected.raw.len() == 0 ==> r is Finished,
        final(s)@.collected.raw == old(s)@.collected.raw,
{
}

/// A piece that comes while the model is not ready is shown at once behind what is shown, and the
/// program waits on.
pub proof fn pieces_are_shown_at_once_without_the_model(
    s: &mut PuncSession,
    t: &str,
    now_ms: u64,
    r: Option<TranscriptionEvent>,
)
    requires
        old(s)@.asked is None,
        call_ensures(PuncSession::piece, (s, t, false, now_ms), r),
    ensures
        final(s)@.shown == old(s)@.shown + t@,
        final(s)@.collected.raw == old(s)@.collected.raw + t@,
        final(s)@.asked is None,
        final(s)@.mode == old(s)@.mode,
        r matches Some(e) && e.text@ == t@ && e.full_text@ == old(s)@.shown + t@ && e.language@
            == "auto"@ && !e.is_final,
{
}

/// A piece that comes while the model is ready and the recording runs has the whole text punctuated
/// exactly where thirty new characters have come in, or any and a second and a half has passed since
/// the last time. What is shown stays until the answer is there.
pub proof fn pieces_are_punctuated_from_time_to_time(
    s: &mut PuncSession,
    t: &str,
    now_ms: u64,
    r: Option<TranscriptionEvent>,
)
    requires
        old(s)@.asked is None,
        old(s)@.mode is Listening,
        old(s)@.collected.pending + t@.len() <= usize::MAX,
        call_ensures(PuncSession::piece, (s, t, true, now_ms), r),
    ensures
        ({
            let new = old(s)@.collected.pending + t@.len();
            final(s)@.asked == (if new >= 30 || new > 0 && now_ms - old(s)@.last_ms >= 1500 {
                Some(old(s)@.collected.raw + t@)
            } else {
                None
            })
        }),
        final(s)@.collected.raw == old(s)@.collected.raw + t@,
        final(s)@.shown == old(s)@.shown,
        r is None,
{
}

/// While no piece comes and the recording runs, the whole text is punctuated exactly where the model
/// is ready and new text is due. Once the recording was ended, five seconds are waited for the last
/// pieces, no longer; then the session closes.
pub proof fn silence_punctuates_and_closes(
    s: &mut PuncSession,
    running: bool,
    ready: bool,
    now_ms: u64,
)
    requires
        old(s)@.asked is None,
        now_ms + 5000 <= u64::MAX,
        call_ensures(PuncSession::silence, (s, running, ready, now_ms), ()),
    ensures
        ({
            let new = old(s)@.collected.pending;
            old(s)@.mode is Listening && running ==> final(s)@.mode is Listening
                && final(s)@.asked == (if ready && (new >= 30 || new > 0 && now_ms
                - old(s)@.last_ms >= 1500) {
                Some(old(s)@.collected.raw)
            } else {
                None
            })
        }),
        old(s)@.mode is Listening && !running ==> final(s)@.asked is None
            && (final(s)@.mode matches PuncMode::Draining { until_ms } && until_ms == now_ms + 5000),
        old(s)@.mode matches PuncMode::Draining { until_ms } ==> (final(s)@.mode is Closed <==> now_ms
            > until_ms),
        old(s)@.mode matches PuncMode::Draining { until_ms } ==> now_ms <= until_ms ==> final(s)@
            == old(s)@,
        old(s)@.mode is Draining && final(s)@.mode is Closed && ready
            && old(s)@.collected.raw.len() > 0 ==> final(s)@.asked == Some(old(s)@.collected.raw),
        final(s)@.collected.raw == old(s)@.collected.raw,
{
}

/// An answer without an error that is not empty is shown in place of what was shown; in any other case
/// the text that was to be punctuated is, as it was.
pub proof fn answers_are_shown(
    s: &mut PuncSession,
    reply: PuncReply,
    now_ms: u64,
    r: TranscriptionEvent,
)
    requires
        old(s)@.asked is Some,
        call_ensures(PuncSession::reply, (s, reply, now_ms), r),
    ensures
        final(s)@.shown == (match reply {
            PuncReply::Answer(PuncResult { text, error: None }) => if text@.len() > 0 {
                text@
            } else {
                old(s)@.asked->Some_0
            },
            _ => old(s)@.asked->Some_0,
        }),
        final(s)@.asked is None,
        final(s)@.last_ms == now_ms,
        final(s)@.mode == old(s)@.mode,
        final(s)@.collected == old(s)@.collected,
        r.full_text@ == final(s)@.shown,
        r.text@.len() == 0,
        r.language@ == "auto"@,
        !r.is_final,
{
}

/// What is told at the end is the transcript as it is shown, and that it is final.
pub proof fn the_shown_text_is_final(s: &PuncSession, shown: &str, r: TranscriptionEvent)
    requires
        call_ensures(PuncSession::shown, (s,), shown),
        call_ensures(PuncSession::final_event, (s,), r),
    ensures
        r.full_text@ == shown@,
        r.text@.len() == 0 && r.language@.len() == 0,
        r.is_final,
{
}

/// A session begins without text, and waits for the first piece.
pub proof fn sessions_begin_empty(now_ms: u64, s: PuncSession, shown: &str, r: PuncStep)
    requires
        call_ensures(PuncSession::new, (now_ms,), s),
        call_ensures(PuncSession::shown, (&s,), shown),
        call_ensures(PuncSession::next, (&s,), r),
    ensures
        shown@.len() == 0,
        s@.collected.raw.len() == 0,
        s@.last_ms == now_ms,
        r is Wait,
{
}

/// After the recording was ended, pieces that come while the model is ready wait for the end, where the
/// whole text is punctuated; none is asked for before.
pub proof fn late_pieces_wait_for_the_end(
    s: &mut PuncSession,
    t: &str,
    now_ms: u64,
    r: Option<TranscriptionEvent>,
)
    requires
        old(s)@.asked is None,
        !(old(s)@.mode is Listening),
        call_ensures(PuncSession::piece, (s, t, true, now_ms), r),
    ensures
        final(s)@.asked is None,
        final(s)@.collected.raw == old(s)@.collected.raw + t@,
        final(s)@.shown == old(s)@.shown,
        final(s)@.mode == old(s)@.mode,
        r is None,
{
}

/// A session that closes while the model is not ready shows every piece that came in since the last
/// answer, also those that waited for the model.
pub proof fn closing_shows_what_waits(s: &mut PuncSession)
    requires
        old(s)@.asked is None,
        call_ensures(PuncSession::close, (s, false), ()),
    ensures
        old(s)@.collected.pending > 0 ==> final(s)@.shown == old(s)@.collected.raw,
        old(s)@.collected.pending == 0 ==> final(s)@.shown == old(s)@.shown,
        final(s)@.mode is Closed,
{
}

} // verus!
