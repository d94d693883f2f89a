//! Improving the transcript of one recording.
//!
//! Sentences come in and are sent to the language model in batches. Where the model fails, the
//! sentences of a batch stand as they are: nothing of the transcript is lost.

use vstd::prelude::*;
use crate::clock;
use crate::text;
use crate::text::trimmed;
use crate::text_optimizer;
use crate::text_optimizer::{OptimizerBuffer, OverlapRewriter, Rewriting};

verus! {

/// What the program does next.
pub enum OptimizerStep {
    /// Waits for the next sentence.
    Wait,
    /// Has the model improve a text, and reports what came of it.
    Ask { input: String },
    /// Is done.
    Finished,
}

/// What an [`OptimizerStep`] holds.
pub enum Next {
    Wait,
    Ask(Seq<char>),
    Finished,
}

impl View for OptimizerStep {
    type V = Next;

    open spec fn view(&self) -> Next {
        match *self {
            OptimizerStep::Wait => Next::Wait,
            OptimizerStep::Ask { input } => Next::Ask(input@),
            OptimizerStep::Finished => Next::Finished,
        }
    }
}

/// What a session holds: the sentences that wait, the text so far, the sentence that waits for a
/// batch to be answered, the batch that the model has, and whether the recording has ended.
#[verifier::ext_equal]
pub struct Optimizing {
    pub pending: Seq<Seq<char>>,
    pub rewriting: Rewriting,
    pub held: Option<Seq<char>>,
    pub asked: Option<Seq<char>>,
    pub ending: bool,
}

impl Optimizing {
    /// A sentence is held back only while a batch is with the model, and once the recording has
    /// ended, none is held back and none waits.
    pub open spec fn wf(self) -> bool {
        &&& self.held is Some ==> self.asked is Some
        &&& self.ending ==> self.held is None && self.pending.len() == 0
    }

    /// No batch is with the model, and no sentence waits for one.
    pub open spec fn idle(self) -> bool {
        self.asked is None && self.held is None && !self.ending
    }

    /// The batch that waits, as one text.
    pub open spec fn batch(self) -> Seq<char> {
        text::joined(self.pending, "\n"@)
    }

    /// With the batch given to the model; a blank one is dropped.
    pub open spec fn flushed(self) -> Optimizing {
        Optimizing {
            pending: Seq::empty(),
            asked: if text::trim(self.batch()).len() == 0 {
                None
            } else {
                Some(self.batch())
            },
            ..self
        }
    }

    /// What the model is given.
    pub open spec fn input(self) -> Seq<char> {
        text_optimizer::batch_input(self.rewriting.overlap, self.asked->Some_0)
    }

    /// With the sentence that was held back.
    pub open spec fn unheld(self) -> Optimizing {
        match self.held {
            Some(s) => {
                let o = Optimizing { pending: self.pending.push(s), held: None, ..self };
                if text_optimizer::batch_is_full(o.pending) {
                    o.flushed()
                } else {
                    o
                }
            },
            None => self,
        }
    }

    /// Whether the sentence that was held back makes the batch full.
    pub open spec fn unholding_flushes(self) -> bool {
        self.held matches Some(s) && text_optimizer::batch_is_full(self.pending.push(s))
    }

    /// With the text ended: what was kept back stands too.
    pub open spec fn finished(self) -> Optimizing {
        Optimizing { rewriting: self.rewriting.finished(), ..self }
    }

    /// What the program does next.
    pub open spec fn next(self) -> Next {
        if self.asked is Some {
            Next::Ask(self.input())
        } else if self.ending {
            Next::Finished
        } else {
            Next::Wait
        }
    }

    /// With a sentence. A batch that it would make too large is sent without it.
    pub open spec fn with_sentence(self, s: Seq<char>) -> Optimizing {
        let o = Optimizing { held: Some(s), ..self };
        let f = if text_optimizer::batch_would_exceed(self.pending, s) {
            o.flushed()
        } else {
            o
        };
        if f.asked is Some {
            f
        } else {
            f.unheld()
        }
    }

    /// When `elapsed_secs` have passed since the last batch.
    pub open spec fn with_time(self, elapsed_secs: int) -> Optimizing {
        if text_optimizer::batch_is_old(self.pending, elapsed_secs) {
            self.flushed()
        } else {
            self
        }
    }

    /// At the end of the recording, with the sentences that were left.
    pub open spec fn with_end(self, rest: Seq<Seq<char>>) -> Optimizing {
        let o = Optimizing { pending: self.pending + rest, ending: true, ..self };
        if o.pending.len() > 0 {
            o.flushed()
        } else {
            o
        }
    }

    /// With what the model made of its batch; nothing where it failed.
    pub open spec fn with_reply(self, out: Seq<char>) -> Optimizing {
        let o = Optimizing {
            rewriting: self.rewriting.after(
                text_optimizer::batch_text(self.rewriting.overlap, out, self.asked->Some_0),
            ),
            asked: None,
            ..self
        };
        o.unheld()
    }
}

/// What the user is told about the improved text.
#[derive(Debug, Clone)]
pub struct OptimizeEvent {
    pub optimized: String,
    pub full_optimized: String,
    pub is_final: bool,
}

/// Improves the transcript of one recording.
pub struct OptimizerSession {
    buffer: OptimizerBuffer,
    rewriter: OverlapRewriter,
    held: Option<String>,
    asked: Option<String>,
    ending: bool,
}

impl View for OptimizerSession {
    type V = Optimizing;

    closed spec fn view(&self) -> Optimizing {
        Optimizing {
            pending: self.buffer@,
            rewriting: self.rewriter@,
            held: text::opt(self.held),
            asked: text::opt(self.asked),
            ending: self.ending,
        }
    }
}

impl OptimizerSession {
    /// What the clock showed when the last batch was taken together, or, before the first one, when
    /// the session began.
    pub closed spec fn since(self) -> std::time::Instant {
        self.buffer.since()
    }

    /// A session without text; its time begins now.
    pub fn new() -> (r: Self)
        ensures
            clock::shows(r.since()),
            r@.wf(),
            r@.idle(),
            r@.pending.len() == 0,
            r@.rewriting == (Rewriting { committed: Seq::empty(), overlap: Seq::empty() }),
    {
        OptimizerSession {
            buffer: OptimizerBuffer::new(),
            rewriter: OverlapRewriter::new(),
            held: None,
            asked: None,
            ending: false,
        }
    }

    fn flush(&mut self)
        requires
            old(self)@.asked is None,
        ensures
            final(self)@ == old(self)@.flushed(),
            clock::shows(final(self).since()),
    {
        let ghost was = self@;
        let raw = self.buffer.drain_new_sentences();
        if !trimmed(raw.as_str()).as_str().is_empty() {
            self.asked = Some(raw);
        }
        assert(self@ =~= was.flushed());
    }

    fn unhold(&mut self)
        requires
            old(self)@.asked is None,
        ensures
            final(self)@ == old(self)@.unheld(),
            clock::taken_anew(old(self)@.unholding_flushes(), old(self).since(), final(self).since()),
    {
        let ghost was = self@;
        if let Some(s) = self.held.take() {
            self.buffer.push(s);
            assert(self@ =~= Optimizing { pending: was.pending.push(s@), held: None, ..was });
            if self.buffer.should_flush_size() {
                self.flush();
            }
        }
    }

    /// What the program does next.
    pub fn next(&self) -> (r: OptimizerStep)
        ensures
            r@ == self@.next(),
    {
        match &self.asked {
            Some(raw) => OptimizerStep::Ask { input: self.rewriter.build_input(raw.as_str()) },
            None => if self.ending {
                OptimizerStep::Finished
            } else {
                OptimizerStep::Wait
            },
        }
    }

    /// Takes in a sentence.
    pub fn sentence(&mut self, s: String)
        requires
            old(self)@.idle(),
        ensures
            final(self)@ == old(self)@.with_sentence(s@),
            final(self)@.wf(),
            clock::taken_anew(
                final(self)@.pending != old(self)@.pending.push(s@),
                old(self).since(),
                final(self).since(),
            ),
    {
        let ghost was = self@;
        let exceeds = self.buffer.would_exceed(s.as_str());
        self.held = Some(s);
        assert(self@ =~= Optimizing { held: Some(s@), ..was });
        if exceeds {
            self.flush();
        }
        if self.asked.is_none() {
            self.unhold();
        }
    }

    /// Sends the batch where `elapsed_secs` since the last one are enough.
    pub fn time_passed(&mut self, elapsed_secs: u64)
        requires
            old(self)@.idle(),
        ensures
            final(self)@ == old(self)@.with_time(elapsed_secs as int),
            final(self)@.wf(),
            clock::taken_anew(
                text_optimizer::batch_is_old(old(self)@.pending, elapsed_secs as int),
                old(self).since(),
                final(self).since(),
            ),
    {
        if self.buffer.should_flush_after(elapsed_secs) {
            self.flush();
        }
    }

    /// Sends the batch where the time since the last one is enough, as the clock has it; see
    /// [`OptimizerSession::time_passed`].
    pub fn silence(&mut self)
        requires
            old(self)@.idle(),
        ensures
            final(self)@.wf(),
            exists|secs: int| #[trigger]
                clock::passed(old(self).since(), secs) && final(self)@ == old(self)@.with_time(secs)
                    && clock::taken_anew(
                    text_optimizer::batch_is_old(old(self)@.pending, secs),
                    old(self).since(),
                    final(self).since(),
                ),
    {
        let due = self.buffer.should_flush_time();
        proof {
            let secs = choose|secs: int| #[trigger]
                clock::passed(self.buffer.since(), secs) && due == text_optimizer::batch_is_old(
                    self.buffer@,
                    secs,
                );
            assert(clock::passed(self.since(), secs));
        }
        if due {
            self.flush();
        }
    }

    /// Ends the session, with the sentences that were left.
    pub fn end(&mut self, rest: Vec<String>)
        requires
            old(self)@.idle(),
        ensures
            final(self)@ == old(self)@.with_end(text::texts(rest@)),
            final(self)@.wf(),
            clock::taken_anew(
                old(self)@.pending.len() + rest@.len() > 0,
                old(self).since(),
                final(self).since(),
            ),
    {
        let ghost was = self@;
        let ghost all = text::texts(rest@);
        let mut i: usize = 0;
        assert(was.pending + all.take(0) =~= was.pending);
        while i < rest.len()
            invariant
                i <= rest.len(),
                all == text::texts(rest@),
                was.idle(),
                self@ == (Optimizing { pending: was.pending + all.take(i as int), ..was }),
                self.since() == old(self).since(),
            decreases rest.len() - i,
        {
            self.buffer.push(rest[i].clone());
            assert(was.pending + all.take(i + 1) =~= (was.pending + all.take(i as int)).push(
                rest@[i as int]@,
            ));
            assert(self@ =~= Optimizing { pending: was.pending + all.take(i + 1), ..was });
            i = i + 1;
        }
        assert(all.take(i as int) =~= all);
        self.ending = true;
        assert(self@ =~= Optimizing { pending: was.pending + all, ending: true, ..was });
        if !self.buffer.is_empty() {
            self.flush();
        }
    }

    /// Takes over what the model made of its batch. Where it failed, the batch stands as it is.
    pub fn reply(&mut self, outcome: &Result<String, String>)
        requires
            old(self)@.wf(),
            old(self)@.asked is Some,
        ensures
            final(self)@.wf(),
            final(self)@ == old(self)@.with_reply(
                match *outcome {
                    Ok(s) => s@,
                    Err(_) => Seq::empty(),
                },
            ),
            clock::taken_anew(
                old(self)@.unholding_flushes(),
                old(self).since(),
                final(self).since(),
            ),
    {
        let ghost was = self@;
        if let Some(raw) = self.asked.take() {
            match outcome {
                Ok(s) => self.rewriter.apply_output(s.as_str(), raw.as_str()),
                Err(_) => {
                    proof {
                        reveal_strlit("");
                        assert(""@ =~= Seq::<char>::empty());
                    }
                    self.rewriter.apply_output("", raw.as_str())
                },
            }
            self.unhold();
        }
    }

    /// What the user is told after a batch: the text that stands. The paragraph that is kept back is
    /// no part of it, and it is not final.
    pub fn event(&self) -> (r: OptimizeEvent)
        ensures
            r.optimized@.len() == 0,
            r.full_optimized@ == text::trim_end(self@.rewriting.committed),
            !r.is_final,
    {
        OptimizeEvent {
            optimized: String::new(),
            full_optimized: self.rewriter.full_text(),
            is_final: false,
        }
    }

    /// Ends the text, once nothing is left to be done, and says what the user is told: all the text,
    /// and that it is final.
    pub fn finish(&mut self) -> (r: OptimizeEvent)
        requires
            old(self)@.wf(),
            old(self)@.next() is Finished,
        ensures
            final(self)@ == old(self)@.finished(),
            final(self)@.wf(),
            final(self).since() == old(self).since(),
            r.optimized@.len() == 0,
            r.full_optimized@ == text::trim_end(final(self)@.rewriting.committed),
            r.is_final,
    {
        let ghost was = self@;
        self.rewriter.finalize();
        assert(self@ =~= was.finished());
        OptimizeEvent {
            optimized: String::new(),
            full_optimized: self.rewriter.full_text(),
            is_final: true,
        }
    }
}

// ── Laws ───────────────────────────────────────────────

/// All the text that a session has, in order: what stands, what is kept back, what the model has, and
/// what waits. White space aside.
pub open spec fn kept(o: Optimizing) -> Seq<char> {
    text::visible(o.rewriting.committed) + text::visible(o.rewriting.overlap) + (match o.asked {
        Some(raw) => text::visible(raw),
        None => Seq::empty(),
    }) + text::visible_all(o.pending) + (match o.held {
        Some(s) => text::visible(s),
        None => Seq::empty(),
    })
}

proof fn lemma_flushed_keeps(o: Optimizing)
    requires
        o.asked is None,
    ensures
        kept(o.flushed()) == kept(o),
        o.flushed().asked is None ==> text::visible_all(o.pending).len() == 0,
{
    text_optimizer::lemma_blank_separators();
    text::lemma_visible_joined(o.pending, "\n"@);
    text::lemma_visible_nonblank(o.batch());
    assert(kept(o.flushed()) =~= kept(o));
}

proof fn lemma_unheld_keeps(o: Optimizing)
    requires
        o.asked is None,
    ensures
        kept(o.unheld()) == kept(o),
{
    if let Some(s) = o.held {
        let p = Optimizing { pending: o.pending.push(s), held: None, ..o };
        text::lemma_visible_all_push(o.pending, s);
        assert(kept(p) =~= kept(o));
        lemma_flushed_keeps(p);
    }
}

/// A session that waits takes in what comes next: nothing is with the model, nothing is held back,
/// and it has not ended.
pub proof fn waiting_is_idle(o: Optimizing)
    requires
        o.wf(),
    ensures
        o.next() is Wait <==> o.idle(),
{
}

/// Whatever comes, a sentence is held back only while a batch is with the model, and nothing waits
/// once the recording has ended.
pub proof fn sessions_stay_well_formed(
    o: Optimizing,
    s: Seq<char>,
    elapsed_secs: int,
    rest: Seq<Seq<char>>,
    out: Seq<char>,
)
    requires
        o.wf(),
    ensures
        o.idle() ==> o.with_sentence(s).wf() && o.with_time(elapsed_secs).wf() && o.with_end(
            rest,
        ).wf(),
        o.asked is Some ==> o.with_reply(out).wf(),
{
}

/// A sentence that comes in is added to the text, and nothing else changes.
pub proof fn sentences_are_kept(o: Optimizing, s: Seq<char>)
    requires
        o.idle(),
    ensures
        kept(o.with_sentence(s)) == kept(o) + text::visible(s),
{
    let h = Optimizing { held: Some(s), ..o };
    assert(kept(h) =~= kept(o) + text::visible(s));
    lemma_flushed_keeps(h);
    let f = if text_optimizer::batch_would_exceed(o.pending, s) {
        h.flushed()
    } else {
        h
    };
    if f.asked is None {
        lemma_unheld_keeps(f);
    }
}

/// Sending a batch because of the time keeps the text.
pub proof fn waiting_keeps_the_text(o: Optimizing, elapsed_secs: int)
    requires
        o.idle(),
    ensures
        kept(o.with_time(elapsed_secs)) == kept(o),
{
    lemma_flushed_keeps(o);
}

/// The sentences that are left at the end are added to the text.
pub proof fn the_end_keeps_the_text(o: Optimizing, rest: Seq<Seq<char>>)
    requires
        o.idle(),
    ensures
        kept(o.with_end(rest)) == kept(o) + text::visible_all(rest),
{
    let e = Optimizing { pending: o.pending + rest, ending: true, ..o };
    text::lemma_visible_all_add(o.pending, rest);
    assert(kept(e) =~= kept(o) + text::visible_all(rest));
    lemma_flushed_keeps(e);
}

/// A batch for which the model fails stands as it is: a failure loses nothing.
pub proof fn failures_keep_the_text(o: Optimizing)
    requires
        o.asked is Some,
    ensures
        kept(o.with_reply(Seq::empty())) == kept(o),
{
    let raw = o.asked->Some_0;
    text_optimizer::failed_batch_loses_nothing(o.rewriting, Seq::empty(), raw);
    let a = Optimizing {
        rewriting: o.rewriting.after(
            text_optimizer::batch_text(o.rewriting.overlap, Seq::empty(), raw),
        ),
        asked: None,
        ..o
    };
    assert(kept(a) =~= kept(o));
    lemma_unheld_keeps(a);
}

/// At the end the text that the user gets is all the text that there is.
pub proof fn the_finished_text_is_everything(o: Optimizing)
    requires
        o.wf(),
        o.next() is Finished,
    ensures
        text::visible(text::trim_end(o.finished().rewriting.committed)) == kept(o),
{
    text::lemma_visible_trim_end(o.finished().rewriting.committed);
    text_optimizer::finishing_loses_nothing(o.rewriting);
    assert(kept(o) =~= text::visible(o.rewriting.committed) + text::visible(o.rewriting.overlap));
}

/// A batch that is not due yet.
pub open spec fn is_small(pending: Seq<Seq<char>>) -> bool {
    text_optimizer::total_chars(pending) < text_optimizer::TARGET_CHARS && pending.len()
        < text_optimizer::MAX_SENTENCES_HARD
}

/// A batch of the largest size: only a single sentence makes it longer.
pub open spec fn is_bounded(pending: Seq<Seq<char>>) -> bool {
    &&& pending.len() <= text_optimizer::MAX_SENTENCES_HARD
    &&& pending.len() <= 1 || text_optimizer::total_chars(pending) <= text_optimizer::TARGET_CHARS
}

/// No batch grows beyond its size: what waits is always less than a batch, and a sentence is only
/// added to a batch that has room for it.
pub proof fn batches_stay_small(o: Optimizing, s: Seq<char>)
    requires
        o.idle(),
        is_small(o.pending),
    ensures
        is_small(o.with_sentence(s).pending),
        is_bounded(o.pending),
        !text_optimizer::batch_would_exceed(o.pending, s) ==> is_bounded(o.pending.push(s)),
{
    assert(o.pending.push(s).drop_last() =~= o.pending);
    assert(Seq::<Seq<char>>::empty().push(s).drop_last() =~= Seq::empty());
    assert(text_optimizer::total_chars(Seq::<Seq<char>>::empty()) == 0);
}

/// A session after all its batches have been given to a model that fails each time.
pub open spec fn all_failed(o: Optimizing) -> Optimizing {
    let once = if o.asked is Some {
        o.with_reply(Seq::empty())
    } else {
        o
    };
    if once.asked is Some {
        once.with_reply(Seq::empty())
    } else {
        once
    }
}

/// What comes to a session while the recording runs: a sentence, or a moment without one, so many
/// seconds after the last batch.
pub enum SessionInput {
    Sentence(Seq<char>),
    Time(int),
}

/// A session that was empty after all the inputs, with a model that fails each time.
pub open spec fn heard(inputs: Seq<SessionInput>) -> Optimizing
    decreases inputs.len(),
{
    if inputs.len() == 0 {
        Optimizing {
            pending: Seq::empty(),
            rewriting: Rewriting { committed: Seq::empty(), overlap: Seq::empty() },
            held: None,
            asked: None,
            ending: false,
        }
    } else {
        let before = heard(inputs.drop_last());
        all_failed(
            match inputs.last() {
                SessionInput::Sentence(s) => before.with_sentence(s),
                SessionInput::Time(secs) => before.with_time(secs),
            },
        )
    }
}

/// The sentences among the inputs.
pub open spec fn sentences_of(inputs: Seq<SessionInput>) -> Seq<Seq<char>>
    decreases inputs.len(),
{
    if inputs.len() == 0 {
        Seq::empty()
    } else {
        let before = sentences_of(inputs.drop_last());
        match inputs.last() {
            SessionInput::Sentence(s) => before.push(s),
            SessionInput::Time(_) => before,
        }
    }
}

proof fn lemma_all_failed(o: Optimizing)
    requires
        o.wf(),
    ensures
        all_failed(o).wf(),
        all_failed(o).asked is None,
        all_failed(o).ending == o.ending,
        kept(all_failed(o)) == kept(o),
{
    if o.asked is Some {
        failures_keep_the_text(o);
        let once = o.with_reply(Seq::empty());
        if once.asked is Some {
            failures_keep_the_text(once);
        }
    }
}

proof fn lemma_heard(inputs: Seq<SessionInput>)
    ensures
        heard(inputs).idle(),
        kept(heard(inputs)) == text::visible_all(sentences_of(inputs)),
    decreases inputs.len(),
{
    if inputs.len() > 0 {
        let before = heard(inputs.drop_last());
        lemma_heard(inputs.drop_last());
        match inputs.last() {
            SessionInput::Sentence(s) => {
                sentences_are_kept(before, s);
                text::lemma_visible_all_push(sentences_of(inputs.drop_last()), s);
                lemma_all_failed(before.with_sentence(s));
            },
            SessionInput::Time(secs) => {
                waiting_keeps_the_text(before, secs);
                lemma_all_failed(before.with_time(secs));
            },
        }
    } else {
        assert(kept(heard(inputs)) =~= Seq::empty());
    }
}

/// Where the model fails each time, the finished text is the whole transcript: the sentences that
/// came in, whenever batches were sent, and those that were left at the end.
pub proof fn without_answers_the_transcript_is_kept(
    inputs: Seq<SessionInput>,
    rest: Seq<Seq<char>>,
)
    ensures
        ({
            let end = all_failed(heard(inputs).with_end(rest));
            &&& end.wf()
            &&& end.next() is Finished
            &&& text::visible(text::trim_end(end.finished().rewriting.committed))
                == text::visible_all(sentences_of(inputs) + rest)
        }),
{
    let o = heard(inputs);
    lemma_heard(inputs);
    the_end_keeps_the_text(o, rest);
    text::lemma_visible_all_add(sentences_of(inputs), rest);
    lemma_all_failed(o.with_end(rest));
    the_finished_text_is_everything(all_failed(o.with_end(rest)));
}

/// Whether any of the sentences shows something.
pub open spec fn any_text(sentences: Seq<Seq<char>>) -> bool {
    text::visible_all(sentences).len() > 0
}

proof fn lemma_batch_asked(o: Optimizing)
    ensures
        o.flushed().asked == (if any_text(o.pending) {
            Some(text::joined(o.pending, "\n"@))
        } else {
            None
        }),
        o.flushed().pending.len() == 0,
{
    text_optimizer::lemma_blank_separators();
    text::lemma_visible_joined(o.pending, "\n"@);
    text::lemma_visible_nonblank(o.batch());
}

/// The sentences that wait go to the model, each on its line, when the next one would bring them above
/// six hundred characters, and that one waits for the next batch.
pub proof fn a_batch_goes_before_a_sentence_that_is_too_much(s: &mut OptimizerSession, t: String)
    requires
        old(s)@.idle(),
        any_text(old(s)@.pending),
        text_optimizer::total_chars(old(s)@.pending) + t@.len() > 600,
        call_ensures(OptimizerSession::sentence, (s, t), ()),
    ensures
        final(s)@.asked == Some(text::joined(old(s)@.pending, "\n"@)),
        final(s)@.held == Some(t@),
        final(s)@.pending.len() == 0,
        final(s)@.rewriting == old(s)@.rewriting,
{
    let h = Optimizing { held: Some(t@), ..old(s)@ };
    lemma_batch_asked(h);
    assert(old(s)@.pending.len() > 0);
}

/// A sentence that is not too much joins those that wait. With it they go to the model once there are
/// six hundred characters or twenty-four sentences, and not before.
pub proof fn sentences_wait_until_there_are_enough(s: &mut OptimizerSession, t: String)
    requires
        old(s)@.idle(),
        old(s)@.pending.len() == 0 || text_optimizer::total_chars(old(s)@.pending) + t@.len()
            <= 600,
        call_ensures(OptimizerSession::sentence, (s, t), ()),
    ensures
        ({
            let all = old(s)@.pending.push(t@);
            let enough = text_optimizer::total_chars(all) >= 600 || all.len() >= 24;
            &&& !enough ==> final(s)@.pending == all && final(s)@.asked is None
            &&& enough ==> final(s)@.pending.len() == 0 && final(s)@.asked == (if any_text(all) {
                Some(text::joined(all, "\n"@))
            } else {
                None
            })
        }),
        final(s)@.held is None,
        final(s)@.rewriting == old(s)@.rewriting,
{
    let all = Optimizing { pending: old(s)@.pending.push(t@), held: None, ..old(s)@ };
    lemma_batch_asked(all);
}

/// The sentences that wait go to the model when thirty seconds have passed since the last batch, and
/// not before.
pub proof fn thirty_seconds_send_a_batch(s: &mut OptimizerSession, elapsed_secs: u64)
    requires
        old(s)@.idle(),
        call_ensures(OptimizerSession::time_passed, (s, elapsed_secs), ()),
    ensures
        elapsed_secs < 30 ==> final(s)@ == old(s)@,
        elapsed_secs >= 30 && any_text(old(s)@.pending) ==> final(s)@.asked == Some(
            text::joined(old(s)@.pending, "\n"@),
        ) && final(s)@.pending.len() == 0,
        final(s)@.rewriting == old(s)@.rewriting,
{
    lemma_batch_asked(old(s)@);
}

/// At the end of the recording all the sentences that wait or were left go to the model; where there
/// are none, the session is done.
pub proof fn the_end_sends_the_rest(
    s: &mut OptimizerSession,
    rest: Vec<String>,
    after: &OptimizerSession,
    r: OptimizerStep,
)
    requires
        old(s)@.idle(),
        call_ensures(OptimizerSession::end, (s, rest), ()),
        after@ == final(s)@,
        call_ensures(OptimizerSession::next, (after,), r),
    ensures
        ({
            let all = old(s)@.pending + text::texts(rest@);
            &&& any_text(all) ==> r is Ask && final(s)@.asked == Some(text::joined(all, "\n"@))
            &&& !any_text(all) ==> r is Finished
        }),
        final(s)@.pending.len() == 0,
        final(s)@.rewriting == old(s)@.rewriting,
{
    let all = Optimizing {
        pending: old(s)@.pending + text::texts(rest@),
        ending: true,
        ..old(s)@
    };
    lemma_batch_asked(all);
    if all.pending.len() == 0 {
        assert(!any_text(all.pending));
    }
}

/// While a batch is with the model, the model is asked for it, together with the paragraph that was
/// kept back; else the program waits for sentences until the recording has ended.
pub proof fn the_model_is_asked_for_the_batch(s: &OptimizerSession, r: OptimizerStep)
    requires
        call_ensures(OptimizerSession::next, (s,), r),
    ensures
        r is Ask <==> s@.asked is Some,
        r is Finished <==> s@.asked is None && s@.ending,
        r matches OptimizerStep::Ask { input } ==> text::visible(input@) == text::visible(
            s@.rewriting.overlap,
        ) + text::visible(s@.asked->Some_0),
{
    if s@.asked is Some {
        text_optimizer::input_holds_everything(s@.rewriting, s@.asked->Some_0);
    }
}

/// What the model answers is put together with the text as a rewriter does it, with the sentences of
/// the batch to fall back on, and a failure counts as a blank answer.
pub proof fn answers_reach_the_text(
    s: &mut OptimizerSession,
    outcome: &Result<String, String>,
    r: &mut OverlapRewriter,
    out: &str,
    fallback: &str,
)
    requires
        old(s)@.asked == Some(fallback@),
        old(r)@ == old(s)@.rewriting,
        match *outcome {
            Ok(t) => out@ == t@,
            Err(_) => out@.len() == 0,
        },
        call_ensures(OverlapRewriter::apply_output, (r, out, fallback), ()),
        call_ensures(OptimizerSession::reply, (s, outcome), ()),
    ensures
        final(s)@.rewriting == final(r)@,
        final(s)@.held is None,
{
    assert(*outcome is Err ==> out@ =~= Seq::<char>::empty());
}

/// A sentence that was held back waits for the next batch once the model has answered, and goes to the
/// model at once where it is enough by itself.
pub proof fn held_sentences_go_on(s: &mut OptimizerSession, outcome: &Result<String, String>)
    requires
        old(s)@.asked is Some,
        call_ensures(OptimizerSession::reply, (s, outcome), ()),
    ensures
        old(s)@.held is None ==> final(s)@.pending == old(s)@.pending && final(s)@.asked is None,
        old(s)@.held matches Some(t) ==> ({
            let all = old(s)@.pending.push(t);
            let enough = text_optimizer::total_chars(all) >= 600 || all.len() >= 24;
            &&& !enough ==> final(s)@.pending == all && final(s)@.asked is None
            &&& enough && any_text(all) ==> final(s)@.pending.len() == 0 && final(s)@.asked == Some(
                text::joined(all, "\n"@),
            )
        }),
        final(s)@.ending == old(s)@.ending,
{
    if let Some(t) = old(s)@.held {
        lemma_batch_asked(
            Optimizing {
                rewriting: old(s)@.with_reply(
                    match *outcome {
                        Ok(s) => s@,
                        Err(_) => Seq::empty(),
                    },
                ).rewriting,
                pending: old(s)@.pending.push(t),
                held: None,
                asked: None,
                ..old(s)@
            },
        );
    }
}

/// The user is shown the text that stands after each batch, and all the text at the end, which alone
/// is final.
pub proof fn the_text_is_final_at_the_end(
    s: &OptimizerSession,
    e: OptimizeEvent,
    ended: &mut OptimizerSession,
    last: OptimizeEvent,
)
    requires
        call_ensures(OptimizerSession::event, (s,), e),
        old(ended)@ == s@,
        s@.wf(),
        s@.next() is Finished,
        call_ensures(OptimizerSession::finish, (ended,), last),
    ensures
        !e.is_final,
        last.is_final,
        e.optimized@.len() == 0 && last.optimized@.len() == 0,
        text::visible(e.full_optimized@) == text::visible(s@.rewriting.committed),
        text::visible(last.full_optimized@) == text::visible(s@.rewriting.committed)
            + text::visible(s@.rewriting.overlap),
{
    text::lemma_visible_trim_end(s@.rewriting.committed);
    text::lemma_visible_trim_end(s@.finished().rewriting.committed);
    text_optimizer::finishing_loses_nothing(s@.rewriting);
}

/// When no sentence comes for a while, the sentences that wait go to the model where the clock shows
/// that thirty seconds have passed since the last batch.
pub proof fn the_clock_sends_a_batch(s: &mut OptimizerSession)
    requires
        old(s)@.idle(),
        call_ensures(OptimizerSession::silence, (s,), ()),
    ensures
        exists|secs: int|
            #![trigger clock::passed(old(s).since(), secs)]
            {
                &&& clock::passed(old(s).since(), secs)
                &&& secs < 30 ==> final(s)@ == old(s)@
                &&& secs >= 30 && any_text(old(s)@.pending) ==> final(s)@.asked == Some(
                    text::joined(old(s)@.pending, "\n"@),
                ) && final(s)@.pending.len() == 0
            },
        final(s)@.rewriting == old(s)@.rewriting,
{
    lemma_batch_asked(old(s)@);
    let secs = choose|secs: int| #[trigger]
        clock::passed(old(s).since(), secs) && final(s)@ == old(s)@.with_time(secs)
            && clock::taken_anew(
            text_optimizer::batch_is_old(old(s)@.pending, secs),
            old(s).since(),
            final(s).since(),
        );
    assert(clock::passed(old(s).since(), secs));
}

/// A session begins without text: nothing waits, stands or is with the model.
pub proof fn sessions_begin_empty(s: OptimizerSession, r: OptimizerStep)
    requires
        call_ensures(OptimizerSession::new, (), s),
        call_ensures(OptimizerSession::next, (&s,), r),
    ensures
        r is Wait,
        kept(s@).len() == 0,
{
    assert(kept(s@) =~= Seq::<char>::empty());
}

} // verus!
