//! When to ask for punctuation, and for which text.
//!
//! The pipeline takes in the recognized text piece by piece. While the punctuation model is ready, it
//! asks from time to time for the whole text with punctuation, so that sentences that span pieces
//! come out right. While it is not, each piece is shown as it is.

use vstd::prelude::*;

verus! {

/// After how many milliseconds new text is punctuated even where there is little of it.
pub const PUNC_INTERVAL_MS: u64 = 1500;

/// How many new characters are punctuated at once.
pub const PUNC_CHAR_THRESHOLD: usize = 30;

/// What the program does next.
#[derive(Debug, Clone)]
pub enum PuncAction {
    /// Nothing.
    Nothing,
    /// Shows the piece as it is, behind what is shown.
    PassThrough { sentence: String },
    /// Has the whole text punctuated and shows the outcome in place of what is shown; the text
    /// itself where that fails.
    RequestPunc { text: String },
    /// Says that what is shown is final.
    EmitFinal,
}

/// What a [`PuncAction`] holds.
pub enum Todo {
    Nothing,
    PassThrough(Seq<char>),
    RequestPunc(Seq<char>),
    EmitFinal,
}

impl View for PuncAction {
    type V = Todo;

    open spec fn view(&self) -> Todo {
        match *self {
            PuncAction::Nothing => Todo::Nothing,
            PuncAction::PassThrough { sentence } => Todo::PassThrough(sentence@),
            PuncAction::RequestPunc { text } => Todo::RequestPunc(text@),
            PuncAction::EmitFinal => Todo::EmitFinal,
        }
    }
}

impl PartialEq for PuncAction {
    fn eq(&self, other: &Self) -> (r: bool) {
        match (self, other) {
            (PuncAction::Nothing, PuncAction::Nothing) => true,
            (PuncAction::EmitFinal, PuncAction::EmitFinal) => true,
            (
                PuncAction::PassThrough { sentence: a },
                PuncAction::PassThrough { sentence: b },
            ) => *a == *b,
            (PuncAction::RequestPunc { text: a }, PuncAction::RequestPunc { text: b }) => *a == *b,
            _ => false,
        }
    }
}

impl vstd::std_specs::cmp::PartialEqSpecImpl for PuncAction {
    open spec fn obeys_eq_spec() -> bool {
        true
    }

    open spec fn eq_spec(&self, other: &Self) -> bool {
        self@ == other@
    }
}

impl Eq for PuncAction {

}

/// What a pipeline holds: the text so far, and how many of its characters came in since punctuation
/// was last asked for, while the model was ready.
#[verifier::ext_equal]
pub struct Collected {
    pub raw: Seq<char>,
    pub pending: nat,
}

/// Decides when to ask for punctuation.
#[derive(Debug)]
pub struct PuncPipeline {
    raw_full: String,
    pending_chars: usize,
}

impl View for PuncPipeline {
    type V = Collected;

    closed spec fn view(&self) -> Collected {
        Collected { raw: self.raw_full@, pending: self.pending_chars as nat }
    }
}

/// The sum of two numbers, no more than the greatest `usize`.
pub open spec fn capped(a: nat, b: nat) -> nat {
    if a + b > usize::MAX {
        usize::MAX as nat
    } else {
        a + b
    }
}

/// Whether there is enough new text, or old enough, to be punctuated.
pub open spec fn due(elapsed_ms: int, pending: nat) -> bool {
    pending > 0 && (elapsed_ms >= PUNC_INTERVAL_MS || pending >= PUNC_CHAR_THRESHOLD)
}

impl Collected {
    /// With one more piece.
    pub open spec fn pushed(self, s: Seq<char>, ready: bool) -> Collected {
        Collected {
            raw: self.raw + s,
            pending: if ready {
                capped(self.pending, s.len())
            } else {
                self.pending
            },
        }
    }

    /// After punctuation was asked for.
    pub open spec fn requested(self) -> Collected {
        Collected { raw: self.raw, pending: 0 }
    }
}

impl PuncPipeline {
    /// A pipeline without text.
    pub fn new() -> (r: Self)
        ensures
            r@ == (Collected { raw: Seq::empty(), pending: 0 }),
    {
        let r = PuncPipeline { raw_full: String::new(), pending_chars: 0 };
        assert(r@ =~= Collected { raw: Seq::empty(), pending: 0 });
        r
    }

    /// Takes in a piece of text.
    pub fn push(&mut self, s: &str, ready: bool) -> (r: PuncAction)
        ensures
            final(self)@ == old(self)@.pushed(s@, ready),
            r@ == if ready {
                Todo::Nothing
            } else {
                Todo::PassThrough(s@)
            },
    {
        self.raw_full.append(s);
        if ready {
            self.pending_chars = self.pending_chars.saturating_add(s.unicode_len());
            PuncAction::Nothing
        } else {
            PuncAction::PassThrough { sentence: s.to_string() }
        }
    }

    /// Asks for punctuation where it is due, `elapsed_ms` after it was last asked for.
    pub fn decide_flush(&mut self, elapsed_ms: u64, ready: bool) -> (r: PuncAction)
        ensures
            ready && due(elapsed_ms as int, old(self)@.pending) ==> r@ == Todo::RequestPunc(
                old(self)@.raw,
            ) && final(self)@ == old(self)@.requested(),
            !(ready && due(elapsed_ms as int, old(self)@.pending)) ==> r@ == Todo::Nothing
                && final(self)@ == old(self)@,
    {
        if ready && should_punc_flush(elapsed_ms, self.pending_chars) {
            self.pending_chars = 0;
            PuncAction::RequestPunc { text: self.raw_full.clone() }
        } else {
            PuncAction::Nothing
        }
    }

    /// The text so far.
    pub fn raw_text(&self) -> (r: String)
        ensures
            r@ == self@.raw,
    {
        self.raw_full.clone()
    }

    /// Whether text has come in since punctuation was last asked for, while the model was ready.
    pub fn has_pending(&self) -> (r: bool)
        ensures
            r <==> self@.pending > 0,
    {
        self.pending_chars > 0
    }

    /// Ends the text: it is punctuated once more where the model is ready, and final where it is
    /// not or where there is no text.
    pub fn finalize(&mut self, ready: bool) -> (r: PuncAction)
        ensures
            ready && old(self)@.raw.len() > 0 ==> r@ == Todo::RequestPunc(old(self)@.raw)
                && final(self)@ == old(self)@.requested(),
            !(ready && old(self)@.raw.len() > 0) ==> r@ == Todo::EmitFinal
                && final(self)@ == old(self)@,
    {
        if ready && !self.raw_full.as_str().is_empty() {
            self.pending_chars = 0;
            PuncAction::RequestPunc { text: self.raw_full.clone() }
        } else {
            PuncAction::EmitFinal
        }
    }
}

impl Default for PuncPipeline {
    fn default() -> (r: Self)
        ensures
            r@ == (Collected { raw: Seq::empty(), pending: 0 }),
    {
        PuncPipeline::new()
    }
}

/// Whether there is enough new text, or old enough, to be punctuated.
pub fn should_punc_flush(elapsed_ms: u64, pending_chars: usize) -> (r: bool)
    ensures
        r == due(elapsed_ms as int, pending_chars as nat),
{
    pending_chars > 0 && (elapsed_ms >= PUNC_INTERVAL_MS || pending_chars >= PUNC_CHAR_THRESHOLD)
}

// ── Laws ───────────────────────────────────────────────

/// What comes to a pipeline: a piece of text, a moment to ask for punctuation, or the end.
pub enum PuncInput {
    Push { s: Seq<char>, ready: bool },
    Flush { elapsed_ms: int, ready: bool },
    Finalize { ready: bool },
}

/// What a pipeline holds after one input, as its methods have it.
pub open spec fn stepped(c: Collected, input: PuncInput) -> Collected {
    match input {
        PuncInput::Push { s, ready } => c.pushed(s, ready),
        PuncInput::Flush { elapsed_ms, ready } => if ready && due(elapsed_ms, c.pending) {
            c.requested()
        } else {
            c
        },
        PuncInput::Finalize { ready } => if ready && c.raw.len() > 0 {
            c.requested()
        } else {
            c
        },
    }
}

/// What a pipeline that was empty holds after all the inputs.
pub open spec fn ran(inputs: Seq<PuncInput>) -> Collected
    decreases inputs.len(),
{
    if inputs.len() == 0 {
        Collected { raw: Seq::empty(), pending: 0 }
    } else {
        stepped(ran(inputs.drop_last()), inputs.last())
    }
}

/// All the pieces of text among the inputs, one after the other.
pub open spec fn pushed_text(inputs: Seq<PuncInput>) -> Seq<char>
    decreases inputs.len(),
{
    if inputs.len() == 0 {
        Seq::empty()
    } else {
        let before = pushed_text(inputs.drop_last());
        match inputs.last() {
            PuncInput::Push { s, .. } => before + s,
            _ => before,
        }
    }
}

/// The text of a pipeline is all the pieces that came in, whatever else happened and whether the
/// model was ready or not: what punctuation is asked for is always the whole text as it was
/// recognized.
pub proof fn text_is_all_pieces(inputs: Seq<PuncInput>)
    ensures
        ran(inputs).raw == pushed_text(inputs),
    decreases inputs.len(),
{
    if inputs.len() > 0 {
        text_is_all_pieces(inputs.drop_last());
    }
}

/// Once punctuation has been asked for, it is not asked for again before there is new text.
pub proof fn no_second_request_without_text(c: Collected, elapsed_ms: int)
    ensures
        !due(elapsed_ms, c.requested().pending),
{
}

/// New text that came in while the model was ready is punctuated at the latest when the interval has
/// passed.
pub proof fn new_text_is_punctuated(c: Collected, s: Seq<char>, elapsed_ms: int)
    requires
        s.len() > 0,
        elapsed_ms >= PUNC_INTERVAL_MS,
    ensures
        due(elapsed_ms, c.pushed(s, true).pending),
{
}

/// New text is punctuated where there are thirty characters of it, or where there is any and a second
/// and a half has passed.
pub proof fn when_text_is_punctuated(elapsed_ms: u64, pending_chars: usize, r: bool)
    requires
        call_ensures(should_punc_flush, (elapsed_ms, pending_chars), r),
    ensures
        pending_chars >= 30 ==> r,
        pending_chars > 0 && elapsed_ms >= 1500 ==> r,
        pending_chars == 0 ==> !r,
        pending_chars < 30 && elapsed_ms < 1500 ==> !r,
{
}

/// A piece goes behind the text. While the model is ready it waits for punctuation, and is counted;
/// while it is not, it is shown as it is, and does not count as waiting.
pub proof fn pieces_are_taken_in(p: &mut PuncPipeline, s: &str, ready: bool, r: PuncAction)
    requires
        old(p)@.pending + s@.len() <= usize::MAX,
        call_ensures(PuncPipeline::push, (p, s, ready), r),
    ensures
        final(p)@.raw == old(p)@.raw + s@,
        ready ==> r is Nothing && final(p)@.pending == old(p)@.pending + s@.len(),
        !ready ==> (r matches PuncAction::PassThrough { sentence } && sentence@ == s@)
            && final(p)@.pending == old(p)@.pending,
{
}

/// Punctuation is asked for the whole text exactly where the model is ready and new text is due, and
/// nothing waits then; in any other case nothing happens.
pub proof fn the_whole_text_is_asked_for(
    p: &mut PuncPipeline,
    elapsed_ms: u64,
    ready: bool,
    r: PuncAction,
)
    requires
        call_ensures(PuncPipeline::decide_flush, (p, elapsed_ms, ready), r),
    ensures
        final(p)@.raw == old(p)@.raw,
        r is RequestPunc || r is Nothing,
        r is RequestPunc <==> ready && (old(p)@.pending >= 30 || old(p)@.pending > 0 && elapsed_ms
            >= 1500),
        r matches PuncAction::RequestPunc { text } ==> text@ == old(p)@.raw && final(p)@.pending
            == 0,
        r is Nothing ==> final(p)@ == old(p)@,
{
}

/// At the end punctuation is asked for the whole text exactly where the model is ready and there is a
/// text, whether some of it waits or not; otherwise the text is final as it is.
pub proof fn the_end_asks_once_more(p: &mut PuncPipeline, ready: bool, r: PuncAction)
    requires
        call_ensures(PuncPipeline::finalize, (p, ready), r),
    ensures
        final(p)@.raw == old(p)@.raw,
        r is RequestPunc || r is EmitFinal,
        r is RequestPunc <==> ready && old(p)@.raw.len() > 0,
        r matches PuncAction::RequestPunc { text } ==> text@ == old(p)@.raw,
{
}

/// Two actions are the same where they are of one kind, with the same text.
pub proof fn which_actions_are_the_same(a: &PuncAction, b: &PuncAction, r: bool)
    requires
        call_ensures(<PuncAction as PartialEq>::eq, (a, b), r),
    ensures
        r <==> match (*a, *b) {
            (PuncAction::Nothing, PuncAction::Nothing) => true,
            (PuncAction::EmitFinal, PuncAction::EmitFinal) => true,
            (
                PuncAction::PassThrough { sentence: x },
                PuncAction::PassThrough { sentence: y },
            ) => x@ == y@,
            (PuncAction::RequestPunc { text: x }, PuncAction::RequestPunc { text: y }) => x@ == y@,
            _ => false,
        },
{
}

/// A pipeline begins without text; its text is what came in, and text waits exactly where some came in
/// that has not been punctuated.
pub proof fn what_a_pipeline_holds(new: PuncPipeline, p: &PuncPipeline, raw: String, waits: bool)
    requires
        call_ensures(PuncPipeline::new, (), new),
        call_ensures(PuncPipeline::raw_text, (p,), raw),
        call_ensures(PuncPipeline::has_pending, (p,), waits),
    ensures
        new@.raw.len() == 0 && new@.pending == 0,
        raw@ == p@.raw,
        waits <==> p@.pending != 0,
{
}

} // verus!
