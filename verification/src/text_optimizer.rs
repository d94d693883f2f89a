//! Improving the transcript batch by batch.
//!
//! Sentences are collected in an [`OptimizerBuffer`] until there are enough of them for one batch.
//! A language model rewrites each batch, and an [`OverlapRewriter`] puts the rewritten batches
//! together: the last paragraph of each batch is kept back and rewritten with the next one, so that
//! no paragraph is torn where two batches meet.

use vstd::prelude::*;
use crate::clock;
use crate::segmentation;
use crate::text;
use crate::text::{end_trimmed, join, trimmed};

pub use crate::segmentation::{split_paragraphs, split_sentences, split_single_paragraph};

verus! {

// ── Collecting a batch ─────────────────────────────────

/// After how many seconds a batch is sent even where it is small.
pub const MAX_INTERVAL_SECS: u64 = 30;

/// How many characters make a batch.
pub const TARGET_CHARS: usize = 600;

/// How many sentences make a batch, however short they are.
pub const MAX_SENTENCES_HARD: usize = 24;

/// The number of characters of all the parts.
pub open spec fn total_chars(parts: Seq<Seq<char>>) -> nat
    decreases parts.len(),
{
    if parts.len() == 0 {
        0
    } else {
        total_chars(parts.drop_last()) + parts.last().len()
    }
}

/// Whether a batch would grow beyond its size with `s`. An empty one takes a sentence of any length.
pub open spec fn batch_would_exceed(pending: Seq<Seq<char>>, s: Seq<char>) -> bool {
    pending.len() > 0 && total_chars(pending) + s.len() > TARGET_CHARS
}

/// Whether a batch is large enough to be sent.
pub open spec fn batch_is_full(pending: Seq<Seq<char>>) -> bool {
    pending.len() > 0 && (total_chars(pending) >= TARGET_CHARS || pending.len()
        >= MAX_SENTENCES_HARD)
}

/// Whether a batch is to be sent when so many seconds have passed since the last one.
pub open spec fn batch_is_old(pending: Seq<Seq<char>>, elapsed_secs: int) -> bool {
    pending.len() > 0 && elapsed_secs >= MAX_INTERVAL_SECS
}

/// The sentences that wait for the next batch. Its view is their characters, in order.
pub struct OptimizerBuffer {
    pending: Vec<String>,
    last_flush: std::time::Instant,
}

impl View for OptimizerBuffer {
    type V = Seq<Seq<char>>;

    closed spec fn view(&self) -> Seq<Seq<char>> {
        text::texts(self.pending@)
    }
}

impl OptimizerBuffer {
    /// What the clock showed when the last batch was taken out, or, before the first one, when the
    /// buffer was made.
    pub closed spec fn since(self) -> std::time::Instant {
        self.last_flush
    }

    /// A buffer in which no sentence waits; its time begins now.
    pub fn new() -> (r: Self)
        ensures
            r@.len() == 0,
            clock::shows(r.since()),
    {
        OptimizerBuffer { pending: Vec::new(), last_flush: std::time::Instant::now() }
    }

    /// The number of characters that wait, or the greatest `usize` where it is beyond that.
    fn chars(&self) -> (r: usize)
        ensures
            total_chars(self@) <= usize::MAX ==> r == total_chars(self@),
            total_chars(self@) > usize::MAX ==> r == usize::MAX,
    {
        let mut n: usize = 0;
        let mut i: usize = 0;
        while i < self.pending.len()
            invariant
                i <= self.pending.len(),
                total_chars(self@.take(i as int)) <= usize::MAX ==> n == total_chars(
                    self@.take(i as int),
                ),
                total_chars(self@.take(i as int)) > usize::MAX ==> n == usize::MAX,
            decreases self.pending.len() - i,
        {
            assert(self@.take(i + 1).drop_last() == self@.take(i as int));
            n = n.saturating_add(self.pending[i].as_str().unicode_len());
            i = i + 1;
        }
        assert(self@.take(i as int) == self@);
        n
    }

    /// Whether the batch would grow beyond its size with `s`, so that it is to be sent before `s`
    /// is added. An empty batch takes a sentence of any length.
    pub fn would_exceed(&self, s: &str) -> (r: bool)
        ensures
            r == batch_would_exceed(self@, s@),
    {
        !self.pending.is_empty() && self.chars().saturating_add(s.unicode_len()) > TARGET_CHARS
    }

    /// Whether the batch is large enough to be sent.
    pub fn should_flush_size(&self) -> (r: bool)
        ensures
            r == batch_is_full(self@),
    {
        !self.pending.is_empty() && (self.chars() >= TARGET_CHARS || self.pending.len()
            >= MAX_SENTENCES_HARD)
    }

    /// Whether the batch is to be sent when `elapsed_secs` have passed since the last one.
    pub fn should_flush_after(&self, elapsed_secs: u64) -> (r: bool)
        ensures
            r == batch_is_old(self@, elapsed_secs as int),
    {
        !self.pending.is_empty() && elapsed_secs >= MAX_INTERVAL_SECS
    }

    /// Whether the batch is to be sent because of the time that has passed since the last one, as
    /// [`OptimizerBuffer::should_flush_after`] has it. The clock decides for any batch that is not
    /// empty.
    pub fn should_flush_time(&self) -> (r: bool)
        ensures
            exists|secs: int| #[trigger]
                clock::passed(self.since(), secs) && r == batch_is_old(self@, secs),
    {
        let secs = clock::seconds_since(&self.last_flush);
        assert(clock::passed(self.since(), secs as int));
        self.should_flush_after(secs)
    }

    /// Takes the batch out: its sentences, one per line. The time of the next one begins now.
    pub fn drain_new_sentences(&mut self) -> (r: String)
        ensures
            r@ == text::joined(old(self)@, "\n"@),
            final(self)@.len() == 0,
            clock::shows(final(self).since()),
    {
        let r = join(&self.pending, 0, self.pending.len(), "\n");
        assert(text::texts(self.pending@).subrange(0, self.pending@.len() as int) == self@);
        self.pending.clear();
        self.last_flush = std::time::Instant::now();
        r
    }

    /// Adds a sentence to the batch.
    pub fn push(&mut self, s: String)
        ensures
            final(self)@ == old(self)@.push(s@),
            final(self).since() == old(self).since(),
    {
        self.pending.push(s);
        assert(self@ =~= old(self)@.push(s@));
    }

    /// Whether no sentence waits.
    pub fn is_empty(&self) -> (r: bool)
        ensures
            r <==> self@.len() == 0,
    {
        self.pending.is_empty()
    }
}

impl Default for OptimizerBuffer {
    fn default() -> (r: Self)
        ensures
            r@.len() == 0,
            clock::shows(r.since()),
    {
        OptimizerBuffer::new()
    }
}

// ── Putting the batches together ───────────────────────

/// What a rewriter holds: the text that stands, and the paragraph that is kept back.
#[verifier::ext_equal]
pub struct Rewriting {
    pub committed: Seq<char>,
    pub overlap: Seq<char>,
}

/// Puts rewritten batches together.
pub struct OverlapRewriter {
    committed: String,
    overlap: String,
}

impl View for OverlapRewriter {
    type V = Rewriting;

    closed spec fn view(&self) -> Rewriting {
        Rewriting { committed: self.committed@, overlap: self.overlap@ }
    }
}

/// `s` behind the text that stands, as a paragraph of its own; nothing changes where `s` is blank.
pub open spec fn with_paragraph(committed: Seq<char>, s: Seq<char>) -> Seq<char> {
    let t = text::trim(s);
    if t.len() == 0 {
        committed
    } else if committed.len() == 0 {
        t
    } else {
        committed + "\n\n"@ + t
    }
}

/// The input for the language model: the paragraph that was kept back, then the new sentences.
pub open spec fn batch_input(overlap: Seq<char>, new: Seq<char>) -> Seq<char> {
    if overlap.len() == 0 {
        text::trim(new)
    } else {
        text::trim(overlap) + "\n"@ + text::trim(new)
    }
}

/// The text that a batch contributes: what the model made of it, or, where that is blank, the
/// paragraph that was kept back and the sentences as they were.
pub open spec fn batch_text(overlap: Seq<char>, out: Seq<char>, fallback: Seq<char>) -> Seq<char> {
    if text::trim(out).len() > 0 {
        text::trim(out)
    } else if text::trim(fallback).len() == 0 {
        text::trim(overlap)
    } else {
        batch_input(overlap, fallback)
    }
}

/// A text that is its own paragraphs with one blank line between each two of them.
pub open spec fn in_paragraphs(s: Seq<char>) -> bool {
    s == text::joined(segmentation::paragraphs(s), "\n\n"@)
}

impl Rewriting {
    /// What stands is in paragraphs, and what is kept back is one, if anything is.
    pub open spec fn orderly(self) -> bool {
        &&& in_paragraphs(self.committed)
        &&& self.overlap.len() == 0 || segmentation::paragraph_like(self.overlap)
    }

    /// Neither text has white space at an end.
    pub open spec fn tidy(self) -> bool {
        &&& text::trim(self.committed) == self.committed
        &&& text::trim(self.overlap) == self.overlap
    }

    /// After a batch with the text `batch`: all its paragraphs but the last one stand, the last one
    /// is kept back. A single paragraph is cut in two halves for that; one that has no two
    /// sentences stands as a whole.
    pub open spec fn after(self, batch: Seq<char>) -> Rewriting {
        let ps = segmentation::paragraphs(batch);
        if ps.len() == 0 {
            self
        } else if ps.len() == 1 {
            match segmentation::halves(ps[0]) {
                Some((head, tail)) => Rewriting {
                    committed: with_paragraph(self.committed, head),
                    overlap: tail,
                },
                None => Rewriting {
                    committed: with_paragraph(self.committed, ps[0]),
                    overlap: Seq::empty(),
                },
            }
        } else {
            Rewriting {
                committed: with_paragraph(
                    self.committed,
                    text::joined(ps.drop_last(), "\n\n"@),
                ),
                overlap: ps.last(),
            }
        }
    }

    /// After the last batch: what was kept back stands too.
    pub open spec fn finished(self) -> Rewriting {
        if text::trim(self.overlap).len() == 0 {
            self
        } else {
            Rewriting {
                committed: with_paragraph(self.committed, self.overlap),
                overlap: Seq::empty(),
            }
        }
    }
}

impl OverlapRewriter {
    /// A rewriter that holds no text.
    pub fn new() -> (r: Self)
        ensures
            r@ == (Rewriting { committed: Seq::empty(), overlap: Seq::empty() }),
            r@.tidy(),
            r@.orderly(),
    {
        proof {
            lemma_empty_orderly();
        }
        let r = OverlapRewriter { committed: String::new(), overlap: String::new() };
        assert(r@ =~= Rewriting { committed: Seq::empty(), overlap: Seq::empty() });
        r
    }

    /// The text that stands.
    pub fn committed(&self) -> (r: &str)
        ensures
            r@ == self@.committed,
    {
        self.committed.as_str()
    }

    /// The paragraph that is kept back.
    pub fn overlap(&self) -> (r: &str)
        ensures
            r@ == self@.overlap,
    {
        self.overlap.as_str()
    }

    /// The input for the language model.
    pub fn build_input(&self, new_sentences: &str) -> (r: String)
        ensures
            r@ == batch_input(self@.overlap, new_sentences@),
    {
        let n = trimmed(new_sentences);
        if self.overlap.as_str().is_empty() {
            n
        } else {
            let mut r = trimmed(self.overlap.as_str());
            r.append("\n");
            r.append(n.as_str());
            r
        }
    }

    /// Takes over what the model made of a batch. Where that is blank, the sentences of the batch
    /// take its place, so that no text is lost.
    pub fn apply_output(&mut self, out: &str, fallback_new: &str)
        ensures
            final(self)@ == old(self)@.after(
                batch_text(old(self)@.overlap, out@, fallback_new@),
            ),
            old(self)@.tidy() ==> final(self)@.tidy(),
            old(self)@.orderly() ==> final(self)@.orderly(),
    {
        let o = trimmed(out);
        let batch = if !o.as_str().is_empty() {
            o
        } else {
            let fb = trimmed(fallback_new);
            if fb.as_str().is_empty() {
                trimmed(self.overlap.as_str())
            } else {
                self.build_input(fallback_new)
            }
        };
        let ghost was = self@;
        proof {
            lemma_after_tidy(was, batch@);
            lemma_after_orderly(was, batch@);
        }
        let paras = split_paragraphs(batch.as_str());
        let ghost ps = segmentation::paragraphs(batch@);
        let n = paras.len();
        if n == 0 {
        } else if n == 1 {
            assert(paras@[0]@ == ps[0]);
            match split_single_paragraph(paras[0].as_str()) {
                Some((head, tail)) => {
                    self.append_to_committed(head.as_str());
                    self.overlap = tail;
                },
                None => {
                    self.append_to_committed(paras[0].as_str());
                    self.overlap = String::new();
                },
            }
        } else {
            let head = join(&paras, 0, n - 1, "\n\n");
            assert(text::texts(paras@).subrange(0, n - 1) == ps.drop_last());
            assert(paras@[n - 1]@ == ps.last());
            self.append_to_committed(head.as_str());
            self.overlap = paras[n - 1].clone();
        }
        assert(self@ =~= was.after(batch@));
    }

    /// The text to show: the paragraph that is kept back is not part of it.
    pub fn full_text(&self) -> (r: String)
        ensures
            r@ == text::trim_end(self@.committed),
            self@.tidy() ==> r@ == self@.committed,
            self@.orderly() ==> r@ == self@.committed && in_paragraphs(r@),
    {
        proof {
            if self@.orderly() {
                lemma_orderly_tidy(self@);
            }
            if self@.tidy() {
                text::lemma_trim_fixed(self@.committed);
            }
        }
        end_trimmed(self.committed.as_str())
    }

    /// Ends the rewriting: what was kept back stands too.
    pub fn finalize(&mut self)
        ensures
            final(self)@ == old(self)@.finished(),
            old(self)@.tidy() ==> final(self)@.tidy(),
            old(self)@.tidy() ==> final(self)@.overlap.len() == 0,
            old(self)@.orderly() ==> final(self)@.orderly(),
    {
        let o = trimmed(self.overlap.as_str());
        let ghost was = self@;
        proof {
            text::lemma_trim_twice(was.overlap);
            lemma_with_paragraph_tidy(was.committed, was.overlap);
            lemma_finished_orderly(was);
        }
        if !o.as_str().is_empty() {
            self.append_to_committed(o.as_str());
            self.overlap = String::new();
        }
        assert(self@ =~= was.finished());
    }

    fn append_to_committed(&mut self, s: &str)
        ensures
            final(self)@.committed == with_paragraph(old(self)@.committed, s@),
            final(self)@.overlap == old(self)@.overlap,
    {
        let t = trimmed(s);
        if t.as_str().is_empty() {
            return;
        }
        if !self.committed.as_str().is_empty() {
            self.committed.append("\n\n");
        }
        self.committed.append(t.as_str());
        assert(Seq::<char>::empty() + t@ == t@);
    }
}

impl Default for OverlapRewriter {
    fn default() -> (r: Self)
        ensures
            r@ == (Rewriting { committed: Seq::empty(), overlap: Seq::empty() }),
            r@.tidy(),
            r@.orderly(),
    {
        OverlapRewriter::new()
    }
}

proof fn lemma_empty_orderly()
    ensures
        (Rewriting { committed: Seq::empty(), overlap: Seq::empty() }).orderly(),
{
    segmentation::joined_paragraphs_are_cut_again(Seq::empty());
}

proof fn lemma_orderly_tidy(r: Rewriting)
    requires
        r.orderly(),
    ensures
        r.tidy(),
{
    let ps = segmentation::paragraphs(r.committed);
    segmentation::paragraphs_are_lines(r.committed);
    if ps.len() > 0 {
        segmentation::lemma_joined_tidy(ps, "\n\n"@);
    } else {
        text::lemma_trim_fixed_by_ends(r.committed);
    }
    if r.overlap.len() == 0 {
        text::lemma_trim_fixed_by_ends(r.overlap);
    }
}

proof fn lemma_with_paragraphs(committed: Seq<char>, more: Seq<Seq<char>>)
    requires
        in_paragraphs(committed),
        segmentation::all_paragraphs(more),
    ensures
        in_paragraphs(with_paragraph(committed, text::joined(more, "\n\n"@))),
{
    let sep = "\n\n"@;
    let ps = segmentation::paragraphs(committed);
    let t = text::joined(more, sep);
    segmentation::paragraphs_are_lines(committed);
    segmentation::joined_paragraphs_are_cut_again(more);
    if more.len() == 0 {
        text::lemma_trim_fixed_by_ends(t);
    } else {
        segmentation::lemma_joined_tidy(more, sep);
        if committed.len() > 0 {
            text::lemma_joined_add(ps, more, sep);
            let all = ps + more;
            assert forall|i: int| 0 <= i < all.len() implies segmentation::paragraph_like(
                #[trigger] all[i],
            ) by {
                if i < ps.len() {
                    assert(all[i] == ps[i]);
                } else {
                    assert(all[i] == more[i - ps.len()]);
                }
            }
            segmentation::joined_paragraphs_are_cut_again(all);
        }
    }
}

proof fn lemma_with_one_paragraph(committed: Seq<char>, s: Seq<char>)
    requires
        in_paragraphs(committed),
        segmentation::paragraph_like(s),
    ensures
        in_paragraphs(with_paragraph(committed, s)),
{
    assert(segmentation::all_paragraphs(seq![s]));
    lemma_with_paragraphs(committed, seq![s]);
}

proof fn lemma_after_orderly(r: Rewriting, batch: Seq<char>)
    ensures
        r.orderly() ==> r.after(batch).orderly(),
{
    let ps = segmentation::paragraphs(batch);
    segmentation::paragraphs_are_lines(batch);
    if r.orderly() && ps.len() == 1 {
        assert(segmentation::paragraph_like(ps[0]));
        lemma_with_one_paragraph(r.committed, ps[0]);
        segmentation::lemma_halves_are_paragraphs(ps[0]);
        if let Some((head, tail)) = segmentation::halves(ps[0]) {
            lemma_with_one_paragraph(r.committed, head);
        }
    } else if r.orderly() && ps.len() > 1 {
        let most = ps.drop_last();
        assert forall|i: int| 0 <= i < most.len() implies segmentation::paragraph_like(
            #[trigger] most[i],
        ) by {
            assert(most[i] == ps[i]);
        }
        lemma_with_paragraphs(r.committed, most);
        assert(segmentation::paragraph_like(ps[ps.len() - 1]));
    }
}

proof fn lemma_finished_orderly(r: Rewriting)
    ensures
        r.orderly() ==> r.finished().orderly(),
{
    if r.orderly() && r.overlap.len() > 0 {
        lemma_with_one_paragraph(r.committed, r.overlap);
    }
}

proof fn lemma_with_paragraph_tidy(committed: Seq<char>, s: Seq<char>)
    ensures
        text::trim(committed) == committed ==> text::trim(with_paragraph(committed, s))
            == with_paragraph(committed, s),
{
    text::lemma_trim_twice(s);
    if text::trim(committed) == committed && committed.len() > 0 && text::trim(s).len() > 0 {
        text::lemma_trim_fixed(committed);
        text::lemma_trim_fixed(text::trim(s));
        text::lemma_trim_fixed_by_ends(committed + "\n\n"@ + text::trim(s));
    }
}

proof fn lemma_after_tidy(r: Rewriting, batch: Seq<char>)
    ensures
        r.tidy() ==> r.after(batch).tidy(),
{
    let ps = segmentation::paragraphs(batch);
    if r.tidy() && ps.len() == 1 {
        segmentation::paragraphs_are_tidy(batch, 0);
        lemma_with_paragraph_tidy(r.committed, ps[0]);
        let all = segmentation::sentences(ps[0]);
        let mid = all.len() as int / 2;
        if all.len() >= 2 {
            lemma_with_paragraph_tidy(
                r.committed,
                text::joined(all.take(mid), Seq::empty()),
            );
            let tail = all.skip(mid);
            assert forall|i: int| 0 <= i < tail.len() implies (#[trigger] tail[i]).len() > 0
                && text::trim(tail[i]) == tail[i] by {
                segmentation::sentences_are_tidy(ps[0], i + mid);
            }
            segmentation::lemma_joined_tidy(tail, Seq::empty());
        }
    } else if r.tidy() && ps.len() > 1 {
        segmentation::paragraphs_are_tidy(batch, ps.len() - 1);
        lemma_with_paragraph_tidy(r.committed, text::joined(ps.drop_last(), "\n\n"@));
    }
}

// ── The input for the final document ───────────────────

/// The text that the final document is made of: the improved text, or the transcript where that is
/// blank. None where both are.
pub open spec fn finalize_input(optimized: Seq<char>, transcription: Seq<char>) -> Option<
    Seq<char>,
> {
    if text::trim(optimized).len() > 0 {
        Some(text::trim(optimized))
    } else if text::trim(transcription).len() > 0 {
        Some(text::trim(transcription))
    } else {
        None
    }
}

/// Picks the text that the final document is made of.
pub fn pick_finalize_input(optimized: &str, transcription: &str) -> (r: Option<String>)
    ensures
        match r {
            Some(s) => finalize_input(optimized@, transcription@) == Some(s@),
            None => finalize_input(optimized@, transcription@) is None,
        },
{
    let o = trimmed(optimized);
    if !o.as_str().is_empty() {
        return Some(o);
    }
    let t = trimmed(transcription);
    if !t.as_str().is_empty() {
        return Some(t);
    }
    None
}

// ── Laws ───────────────────────────────────────────────

/// Line breaks show nothing.
pub proof fn lemma_blank_separators()
    ensures
        text::visible("\n\n"@).len() == 0,
        text::visible("\n"@).len() == 0,
{
    reveal_strlit("\n\n");
    reveal_strlit("\n");
    reveal_with_fuel(text::visible, 3);
}

proof fn lemma_with_paragraph_visible(committed: Seq<char>, s: Seq<char>)
    ensures
        text::visible(with_paragraph(committed, s)) == text::visible(committed) + text::visible(s),
{
    lemma_blank_separators();
    text::lemma_visible_trim(s);
    let t = text::trim(s);
    text::lemma_visible_add(committed, "\n\n"@);
    text::lemma_visible_add(committed + "\n\n"@, t);
    assert(text::visible(with_paragraph(committed, s)) =~= text::visible(committed)
        + text::visible(s));
}

proof fn lemma_after_visible(r: Rewriting, batch: Seq<char>)
    requires
        segmentation::paragraphs(batch).len() > 0,
    ensures
        text::visible(r.after(batch).committed) + text::visible(r.after(batch).overlap)
            == text::visible(r.committed) + text::visible(batch),
{
    lemma_blank_separators();
    let ps = segmentation::paragraphs(batch);
    segmentation::paragraphs_keep_text(batch);
    if ps.len() == 1 {
        text::lemma_visible_all_push(Seq::empty(), ps[0]);
        assert(ps == Seq::<Seq<char>>::empty().push(ps[0]));
        assert(text::visible(batch) =~= text::visible(ps[0]));
        segmentation::halves_keep_text(ps[0]);
        lemma_with_paragraph_visible(r.committed, ps[0]);
        if let Some((head, tail)) = segmentation::halves(ps[0]) {
            lemma_with_paragraph_visible(r.committed, head);
        }
    } else {
        let head = text::joined(ps.drop_last(), "\n\n"@);
        text::lemma_visible_joined(ps.drop_last(), "\n\n"@);
        lemma_with_paragraph_visible(r.committed, head);
    }
    assert(text::visible(r.after(batch).committed) + text::visible(r.after(batch).overlap)
        =~= text::visible(r.committed) + text::visible(batch));
}

proof fn lemma_batch_input_visible(overlap: Seq<char>, new: Seq<char>)
    ensures
        text::visible(batch_input(overlap, new)) == text::visible(overlap) + text::visible(new),
{
    lemma_blank_separators();
    text::lemma_visible_trim(overlap);
    text::lemma_visible_trim(new);
    text::lemma_visible_add(text::trim(overlap), "\n"@);
    text::lemma_visible_add(text::trim(overlap) + "\n"@, text::trim(new));
    assert(text::visible(batch_input(overlap, new)) =~= text::visible(overlap) + text::visible(
        new,
    ));
}

/// The model is given what was kept back and the new sentences, white space aside.
pub proof fn input_holds_everything(r: Rewriting, new: Seq<char>)
    ensures
        text::visible(batch_input(r.overlap, new)) == text::visible(r.overlap) + text::visible(new),
{
    lemma_batch_input_visible(r.overlap, new);
}

/// Where the model answers, what stands and what is kept back is what stood before and the answer:
/// nothing of either is lost, doubled or reordered, white space aside.
pub proof fn rewritten_batch_loses_nothing(r: Rewriting, out: Seq<char>, fallback: Seq<char>)
    requires
        text::trim(out).len() > 0,
    ensures
        ({
            let next = r.after(batch_text(r.overlap, out, fallback));
            text::visible(next.committed) + text::visible(next.overlap) == text::visible(
                r.committed,
            ) + text::visible(out)
        }),
{
    let batch = batch_text(r.overlap, out, fallback);
    text::lemma_visible_trim(out);
    text::lemma_visible_nonblank(out);
    segmentation::paragraphs_keep_text(batch);
    lemma_after_visible(r, batch);
}

/// Where the model fails, what stands and what is kept back is what stood, what was kept back and
/// the sentences of the batch as they were: nothing is lost, doubled or reordered, white space
/// aside.
pub proof fn failed_batch_loses_nothing(r: Rewriting, out: Seq<char>, fallback: Seq<char>)
    requires
        text::trim(out).len() == 0,
    ensures
        ({
            let next = r.after(batch_text(r.overlap, out, fallback));
            text::visible(next.committed) + text::visible(next.overlap) == text::visible(
                r.committed,
            ) + text::visible(r.overlap) + text::visible(fallback)
        }),
{
    let batch = batch_text(r.overlap, out, fallback);
    let kept = text::visible(r.overlap) + text::visible(fallback);
    text::lemma_visible_trim(r.overlap);
    text::lemma_visible_trim(fallback);
    lemma_batch_input_visible(r.overlap, fallback);
    assert(text::visible(batch) =~= kept);
    segmentation::paragraphs_keep_text(batch);
    if segmentation::paragraphs(batch).len() > 0 {
        lemma_after_visible(r, batch);
    } else {
        assert(kept.len() == 0);
    }
    let next = r.after(batch);
    assert(text::visible(next.committed) + text::visible(next.overlap) =~= text::visible(
        r.committed,
    ) + text::visible(r.overlap) + text::visible(fallback));
}

/// The text that stands only grows: a batch never changes what earlier batches put there.
pub proof fn committed_only_grows(r: Rewriting, batch: Seq<char>)
    ensures
        r.committed.is_prefix_of(r.after(batch).committed),
        r.committed.is_prefix_of(r.finished().committed),
{
    lemma_with_paragraph_grows(r.committed, r.overlap);
    let ps = segmentation::paragraphs(batch);
    if ps.len() == 1 {
        lemma_with_paragraph_grows(r.committed, ps[0]);
        if let Some((head, tail)) = segmentation::halves(ps[0]) {
            lemma_with_paragraph_grows(r.committed, head);
        }
    } else {
        lemma_with_paragraph_grows(r.committed, text::joined(ps.drop_last(), "\n\n"@));
    }
}

proof fn lemma_with_paragraph_grows(committed: Seq<char>, s: Seq<char>)
    ensures
        committed.is_prefix_of(with_paragraph(committed, s)),
{
}

/// Finishing adds what was kept back to what stands, white space aside.
pub proof fn finishing_loses_nothing(r: Rewriting)
    ensures
        text::visible(r.finished().committed) == text::visible(r.committed) + text::visible(
            r.overlap,
        ),
        text::visible(r.finished().overlap).len() == 0,
{
    text::lemma_visible_trim(r.overlap);
    lemma_with_paragraph_visible(r.committed, r.overlap);
    if text::trim(r.overlap).len() == 0 {
        assert(text::visible(r.committed) =~= text::visible(r.committed) + text::visible(r.overlap));
    }
}

/// The rewriting after batches for all of which the model failed.
pub open spec fn after_failures(r: Rewriting, batches: Seq<Seq<char>>) -> Rewriting
    decreases batches.len(),
{
    if batches.len() == 0 {
        r
    } else {
        let before = after_failures(r, batches.drop_last());
        before.after(batch_text(before.overlap, Seq::empty(), batches.last()))
    }
}

proof fn lemma_after_failures(batches: Seq<Seq<char>>)
    ensures
        ({
            let start = Rewriting { committed: Seq::empty(), overlap: Seq::empty() };
            let r = after_failures(start, batches);
            text::visible(r.committed) + text::visible(r.overlap) == text::visible_all(batches)
        }),
    decreases batches.len(),
{
    let start = Rewriting { committed: Seq::empty(), overlap: Seq::empty() };
    if batches.len() > 0 {
        let before = after_failures(start, batches.drop_last());
        lemma_after_failures(batches.drop_last());
        failed_batch_loses_nothing(before, Seq::empty(), batches.last());
    } else {
        assert(text::visible(start.committed) + text::visible(start.overlap) =~= Seq::empty());
    }
}

/// Where the model never answers, the finished text is the sentences of all the batches, white
/// space aside.
pub proof fn without_a_model_the_text_is_kept(batches: Seq<Seq<char>>)
    ensures
        ({
            let start = Rewriting { committed: Seq::empty(), overlap: Seq::empty() };
            text::visible(after_failures(start, batches).finished().committed)
                == text::visible_all(batches)
        }),
{
    let start = Rewriting { committed: Seq::empty(), overlap: Seq::empty() };
    lemma_after_failures(batches);
    finishing_loses_nothing(after_failures(start, batches));
}

/// What happens to a rewriting: a batch comes back, with the sentences to fall back on, or it is
/// finished.
pub enum RewriteInput {
    Batch { out: Seq<char>, fallback: Seq<char> },
    Finish,
}

/// A rewriting that was empty after all the inputs.
pub open spec fn rewritten(inputs: Seq<RewriteInput>) -> Rewriting
    decreases inputs.len(),
{
    if inputs.len() == 0 {
        Rewriting { committed: Seq::empty(), overlap: Seq::empty() }
    } else {
        let before = rewritten(inputs.drop_last());
        match inputs.last() {
            RewriteInput::Batch { out, fallback } => before.after(
                batch_text(before.overlap, out, fallback),
            ),
            RewriteInput::Finish => before.finished(),
        }
    }
}

/// Whatever the model answers, the text that is shown is its own paragraphs, each on one line and
/// with one blank line between each two of them.
pub proof fn shown_text_is_in_paragraphs(inputs: Seq<RewriteInput>)
    ensures
        rewritten(inputs).orderly(),
        text::trim_end(rewritten(inputs).committed) == rewritten(inputs).committed,
        in_paragraphs(text::trim_end(rewritten(inputs).committed)),
    decreases inputs.len(),
{
    if inputs.len() > 0 {
        let before = rewritten(inputs.drop_last());
        shown_text_is_in_paragraphs(inputs.drop_last());
        match inputs.last() {
            RewriteInput::Batch { out, fallback } => {
                lemma_after_orderly(before, batch_text(before.overlap, out, fallback));
            },
            RewriteInput::Finish => {
                lemma_finished_orderly(before);
            },
        }
    } else {
        lemma_empty_orderly();
    }
    lemma_orderly_tidy(rewritten(inputs));
    text::lemma_trim_fixed(rewritten(inputs).committed);
}

/// The number of characters of some parts is that of each of them together.
pub proof fn characters_are_counted(a: Seq<Seq<char>>, b: Seq<Seq<char>>, s: Seq<char>)
    ensures
        total_chars(Seq::empty()) == 0,
        total_chars(seq![s]) == s.len(),
        total_chars(a + b) == total_chars(a) + total_chars(b),
    decreases b.len(),
{
    assert(total_chars(Seq::empty()) == 0);
    assert(seq![s].drop_last() =~= Seq::<Seq<char>>::empty());
    if b.len() == 0 {
        assert(a + b =~= a);
    } else {
        assert((a + b).drop_last() =~= a + b.drop_last());
        characters_are_counted(a, b.drop_last(), s);
    }
}

/// A batch is sent before a sentence that would bring it above six hundred characters, unless nothing
/// waits; it is sent once it has six hundred characters or twenty-four sentences, and after thirty
/// seconds. An empty one is never sent.
pub proof fn when_a_batch_is_sent(
    b: &OptimizerBuffer,
    s: &str,
    elapsed_secs: u64,
    exceeds: bool,
    full: bool,
    old_enough: bool,
)
    requires
        call_ensures(OptimizerBuffer::would_exceed, (b, s), exceeds),
        call_ensures(OptimizerBuffer::should_flush_size, (b,), full),
        call_ensures(OptimizerBuffer::should_flush_after, (b, elapsed_secs), old_enough),
    ensures
        b@.len() == 0 ==> !exceeds && !full && !old_enough,
        b@.len() > 0 ==> (exceeds <==> total_chars(b@) + s@.len() >= 601),
        b@.len() > 0 ==> (full <==> total_chars(b@) >= 600 || b@.len() >= 24),
        b@.len() > 0 ==> (old_enough <==> elapsed_secs >= 30),
{
}

/// A batch that is taken out holds its sentences, each on its line and in order, and none of them
/// waits any longer.
pub proof fn batches_hold_their_sentences(b: &mut OptimizerBuffer, r: String)
    requires
        segmentation::all_paragraphs(old(b)@),
        call_ensures(OptimizerBuffer::drain_new_sentences, (b,), r),
    ensures
        segmentation::paragraphs(r@) == old(b)@,
        final(b)@ == Seq::<Seq<char>>::empty(),
{
    segmentation::joined_paragraphs_are_cut_again(old(b)@);
    assert(final(b)@ =~= Seq::empty());
}

/// The model is given the paragraph that was kept back and then the new sentences, on lines of their
/// own, and nothing else.
pub proof fn the_input_is_what_was_kept_and_what_is_new(r: &OverlapRewriter, new: &str, input: String)
    requires
        call_ensures(OverlapRewriter::build_input, (r, new), input),
    ensures
        segmentation::paragraphs(input@) == segmentation::paragraphs(r@.overlap)
            + segmentation::paragraphs(new@),
        r@.overlap.len() > 0 ==> input@ == text::trim(r@.overlap) + seq!['\n'] + text::trim(new@),
        r@.overlap.len() == 0 ==> input@ == text::trim(new@),
{
    lemma_batch_input_paragraphs(r@.overlap, new@);
    reveal_strlit("\n");
    assert("\n"@ =~= seq!['\n']);
}

proof fn lemma_trim_keeps_paragraphs(s: Seq<char>)
    ensures
        segmentation::paragraphs(text::trim(s)) == segmentation::paragraphs(s),
{
    segmentation::lemma_paragraphs_of_trimmed(s);
}

proof fn lemma_batch_input_paragraphs(overlap: Seq<char>, new: Seq<char>)
    ensures
        segmentation::paragraphs(batch_input(overlap, new)) == segmentation::paragraphs(overlap)
            + segmentation::paragraphs(new),
{
    lemma_trim_keeps_paragraphs(overlap);
    lemma_trim_keeps_paragraphs(new);
    if overlap.len() == 0 {
        assert(overlap =~= Seq::empty());
        segmentation::joined_paragraphs_are_cut_again(Seq::empty());
        assert(text::joined(Seq::empty(), "\n"@) =~= Seq::<char>::empty());
        assert(segmentation::paragraphs(overlap) + segmentation::paragraphs(new)
            =~= segmentation::paragraphs(new));
    } else {
        segmentation::lemma_paragraphs_add(text::trim(overlap), text::trim(new));
    }
}

proof fn lemma_batch_paragraphs(overlap: Seq<char>, out: Seq<char>, fallback: Seq<char>)
    ensures
        segmentation::paragraphs(batch_text(overlap, out, fallback)) == if text::trim(out).len()
            > 0 {
            segmentation::paragraphs(out)
        } else {
            segmentation::paragraphs(overlap) + segmentation::paragraphs(fallback)
        },
{
    lemma_trim_keeps_paragraphs(out);
    lemma_trim_keeps_paragraphs(overlap);
    lemma_trim_keeps_paragraphs(fallback);
    lemma_batch_input_paragraphs(overlap, fallback);
    if text::trim(fallback).len() == 0 {
        text::lemma_visible_nonblank(fallback);
        segmentation::paragraphs_keep_text(fallback);
        let ps = segmentation::paragraphs(fallback);
        if ps.len() > 0 {
            segmentation::paragraphs_are_tidy(fallback, ps.len() - 1);
            text::lemma_visible_nonblank(ps.last());
        }
        assert(segmentation::paragraphs(overlap) + ps =~= segmentation::paragraphs(overlap));
    }
}

proof fn lemma_with_paragraph_cut(committed: Seq<char>, s: Seq<char>)
    ensures
        segmentation::paragraphs(with_paragraph(committed, s)) == segmentation::paragraphs(
            committed,
        ) + segmentation::paragraphs(s),
{
    lemma_trim_keeps_paragraphs(s);
    let t = text::trim(s);
    let none = Seq::<Seq<char>>::empty();
    segmentation::joined_paragraphs_are_cut_again(none);
    assert(text::joined(none, "\n"@) =~= Seq::<char>::empty());
    if t.len() == 0 {
        assert(t =~= Seq::empty());
        assert(segmentation::paragraphs(committed) + none =~= segmentation::paragraphs(committed));
    } else if committed.len() == 0 {
        assert(committed =~= Seq::empty());
        assert(none + segmentation::paragraphs(t) =~= segmentation::paragraphs(t));
    } else {
        segmentation::lemma_paragraphs_add(committed, t);
    }
}

/// The paragraphs that a batch contributes: those of the answer of the model, or, where it is blank,
/// that which was kept back and those of the sentences themselves.
pub open spec fn contributed(
    kept_back: Seq<char>,
    out: Seq<char>,
    fallback: Seq<char>,
) -> Seq<Seq<char>> {
    if segmentation::paragraphs(out).len() > 0 {
        segmentation::paragraphs(out)
    } else {
        segmentation::paragraphs(kept_back) + segmentation::paragraphs(fallback)
    }
}

/// Of the paragraphs of a batch all but the last one stand from then on, behind those that stood, and
/// the last one is kept back. Of a single paragraph the first half of its sentences stands, and the
/// second half is kept back; where it is one sentence, it stands, and nothing is kept back.
pub proof fn the_last_paragraph_is_kept_back(r: &mut OverlapRewriter, out: &str, fallback: &str)
    requires
        call_ensures(OverlapRewriter::apply_output, (r, out, fallback), ()),
    ensures
        ({
            let ps = contributed(old(r)@.overlap, out@, fallback@);
            let stood = segmentation::paragraphs(old(r)@.committed);
            let stands = segmentation::paragraphs(final(r)@.committed);
            let kept = final(r)@.overlap;
            &&& ps.len() > 1 ==> stands == stood + ps.drop_last() && kept == ps.last()
            &&& ps.len() == 1 && segmentation::sentences(ps[0]).len() < 2 ==> stands == stood.push(
                ps[0],
            ) && kept.len() == 0
            &&& ps.len() == 1 && segmentation::sentences(ps[0]).len() >= 2 ==> ({
                let all = segmentation::sentences(ps[0]);
                let half = all.len() as int / 2;
                &&& stands.len() == stood.len() + 1
                &&& stands.drop_last() == stood
                &&& segmentation::sentences(stands.last()) == all.take(half)
                &&& segmentation::sentences(kept) == all.skip(half)
            })
            &&& ps.len() == 0 ==> final(r)@ == old(r)@
        }),
{
    let was = old(r)@;
    let batch = batch_text(was.overlap, out@, fallback@);
    let ps = segmentation::paragraphs(batch);
    lemma_batch_paragraphs(was.overlap, out@, fallback@);
    text::lemma_visible_nonblank(out@);
    segmentation::paragraphs_keep_text(out@);
    let answer = segmentation::paragraphs(out@);
    if answer.len() > 0 {
        segmentation::paragraphs_are_tidy(out@, answer.len() - 1);
        text::lemma_visible_nonblank(answer.last());
    }
    assert(ps == contributed(was.overlap, out@, fallback@));
    segmentation::paragraphs_are_lines(batch);
    let stood = segmentation::paragraphs(was.committed);
    if ps.len() == 1 {
        assert(segmentation::paragraph_like(ps[0]));
        segmentation::halves_are_cut_again(ps[0]);
        segmentation::lemma_halves_are_paragraphs(ps[0]);
        segmentation::lemma_paragraph_is_one(ps[0]);
        lemma_with_paragraph_cut(was.committed, ps[0]);
        assert(stood + seq![ps[0]] =~= stood.push(ps[0]));
        if let Some((head, tail)) = segmentation::halves(ps[0]) {
            segmentation::lemma_paragraph_is_one(head);
            lemma_with_paragraph_cut(was.committed, head);
            assert((stood + seq![head]).drop_last() =~= stood);
        }
    } else if ps.len() > 1 {
        let most = ps.drop_last();
        assert forall|i: int| 0 <= i < most.len() implies segmentation::paragraph_like(
            #[trigger] most[i],
        ) by {
            assert(most[i] == ps[i]);
        }
        segmentation::joined_paragraphs_are_cut_again(most);
        lemma_with_paragraph_cut(was.committed, text::joined(most, "\n\n"@));
    }
}

/// At the end the paragraph that was kept back stands behind the others, and nothing is kept back.
pub proof fn the_end_takes_over_what_was_kept_back(r: &mut OverlapRewriter)
    requires
        call_ensures(OverlapRewriter::finalize, (r,), ()),
    ensures
        segmentation::paragraphs(final(r)@.committed) == segmentation::paragraphs(old(r)@.committed)
            + segmentation::paragraphs(old(r)@.overlap),
        text::trim(final(r)@.overlap).len() == 0,
{
    let was = old(r)@;
    lemma_with_paragraph_cut(was.committed, was.overlap);
    text::lemma_trim_fixed_by_ends(Seq::<char>::empty());
    if text::trim(was.overlap).len() == 0 {
        let ps = segmentation::paragraphs(was.overlap);
        text::lemma_visible_nonblank(was.overlap);
        segmentation::paragraphs_keep_text(was.overlap);
        if ps.len() > 0 {
            segmentation::paragraphs_are_tidy(was.overlap, ps.len() - 1);
            text::lemma_visible_nonblank(ps.last());
        }
        assert(segmentation::paragraphs(was.committed) + ps =~= segmentation::paragraphs(
            was.committed,
        ));
    }
}

/// The text that is shown is what stands, and not what is kept back.
pub proof fn only_what_stands_is_shown(r: &OverlapRewriter, shown: String)
    requires
        call_ensures(OverlapRewriter::full_text, (r,), shown),
    ensures
        segmentation::paragraphs(shown@) == segmentation::paragraphs(r@.committed),
        shown@.is_prefix_of(r@.committed),
{
    text::trimming_is_exact(r@.committed);
    let to = choose|to: int|
        0 <= to <= r@.committed.len() && text::trim_end(r@.committed) == #[trigger] r@.committed.take(
            to,
        ) && text::blank(r@.committed.skip(to));
    segmentation::lemma_paragraphs_round(Seq::empty(), shown@, r@.committed.skip(to));
    assert(Seq::<char>::empty() + shown@ + r@.committed.skip(to) =~= r@.committed);
}

/// The document is made of the improved text where that is not blank, else of the transcript where
/// that is not, without the white space round it; where both are blank there is nothing to make it of.
pub proof fn the_improved_text_comes_first(optimized: &str, transcription: &str, r: Option<String>)
    requires
        call_ensures(pick_finalize_input, (optimized, transcription), r),
    ensures
        !text::blank(optimized@) ==> (r matches Some(s) && s@ == text::trim(optimized@)),
        text::blank(optimized@) && !text::blank(transcription@) ==> (r matches Some(s) && s@
            == text::trim(transcription@)),
        text::blank(optimized@) && text::blank(transcription@) ==> r is None,
{
    text::lemma_blank_trimmed(optimized@);
    text::lemma_blank_trimmed(transcription@);
}

/// A buffer begins without sentences, and a sentence waits behind the others.
pub proof fn sentences_wait_in_order(
    new: OptimizerBuffer,
    b: &mut OptimizerBuffer,
    s: String,
    c: &OptimizerBuffer,
    empty: bool,
)
    requires
        call_ensures(OptimizerBuffer::new, (), new),
        call_ensures(OptimizerBuffer::push, (b, s), ()),
        call_ensures(OptimizerBuffer::is_empty, (c,), empty),
    ensures
        new@.len() == 0,
        final(b)@ == old(b)@.push(s@),
        empty <==> c@.len() == 0,
{
}

/// Sentences that wait are sent where the clock shows that thirty seconds have passed since the last
/// batch, and an empty batch never is.
pub proof fn the_clock_decides(b: &OptimizerBuffer, r: bool)
    requires
        call_ensures(OptimizerBuffer::should_flush_time, (b,), r),
    ensures
        b@.len() == 0 ==> !r,
        exists|secs: int| #[trigger]
            clock::passed(b.since(), secs) && (b@.len() > 0 ==> (r <==> secs >= 30)),
{
    let secs = choose|secs: int| #[trigger]
        clock::passed(b.since(), secs) && r == batch_is_old(b@, secs);
    assert(clock::passed(b.since(), secs));
}

/// A rewriter begins without text, and shows what stands and what is kept back.
pub proof fn what_a_rewriter_holds(
    new: OverlapRewriter,
    r: &OverlapRewriter,
    stands: &str,
    kept: &str,
)
    requires
        call_ensures(OverlapRewriter::new, (), new),
        call_ensures(OverlapRewriter::committed, (r,), stands),
        call_ensures(OverlapRewriter::overlap, (r,), kept),
    ensures
        new@.committed.len() == 0 && new@.overlap.len() == 0,
        stands@ == r@.committed,
        kept@ == r@.overlap,
{
}

} // verus!
