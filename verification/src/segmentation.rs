//! Cutting text into paragraphs and sentences.

use vstd::prelude::*;
use crate::text;
use crate::text::{chars_of, join, trimmed};

verus! {

// ── Cutting ────────────────────────────────────────────

/// The lines of `s`: what stands between its newlines, empty lines included.
pub open spec fn lines(s: Seq<char>) -> Seq<Seq<char>>
    decreases s.len(),
{
    if s.len() == 0 {
        seq![Seq::empty()]
    } else {
        let before = lines(s.drop_last());
        if s.last() == '\n' {
            before.push(Seq::empty())
        } else {
            before.drop_last().push(before.last().push(s.last()))
        }
    }
}

/// The characters that end a sentence.
pub open spec fn sentence_end(c: char) -> bool {
    c == '。' || c == '！' || c == '？' || c == '!' || c == '?'
}

/// `s` cut behind each character that ends a sentence.
pub open spec fn cut_behind_ends(s: Seq<char>) -> Seq<Seq<char>>
    decreases s.len(),
{
    if s.len() == 0 {
        seq![Seq::empty()]
    } else {
        let before = cut_behind_ends(s.drop_last());
        let grown = before.drop_last().push(before.last().push(s.last()));
        if sentence_end(s.last()) {
            grown.push(Seq::empty())
        } else {
            grown
        }
    }
}

/// The parts without the white space round them, those left out of which nothing remains.
pub open spec fn tidy(parts: Seq<Seq<char>>) -> Seq<Seq<char>>
    decreases parts.len(),
{
    if parts.len() == 0 {
        Seq::empty()
    } else {
        let before = tidy(parts.drop_last());
        let last = text::trim(parts.last());
        if last.len() == 0 {
            before
        } else {
            before.push(last)
        }
    }
}

/// The paragraphs of a text: its lines, tidied.
pub open spec fn paragraphs(s: Seq<char>) -> Seq<Seq<char>> {
    tidy(lines(s))
}

/// The sentences of a text: its pieces up to each character that ends one, tidied.
pub open spec fn sentences(s: Seq<char>) -> Seq<Seq<char>> {
    tidy(cut_behind_ends(text::trim(s)))
}

/// The two halves of a paragraph of two sentences or more, cut between two sentences; the first
/// half is the shorter one where their number is odd.
pub open spec fn halves(s: Seq<char>) -> Option<(Seq<char>, Seq<char>)> {
    let all = sentences(s);
    let mid = all.len() as int / 2;
    if all.len() < 2 {
        None
    } else {
        Some(
            (
                text::joined(all.take(mid), Seq::empty()),
                text::joined(all.skip(mid), Seq::empty()),
            ),
        )
    }
}

/// Appends the trimmed `part` to `out`, unless nothing is left of it.
fn push_tidy(out: &mut Vec<String>, part: &str)
    ensures
        text::texts(final(out)@) == ({
            let t = text::trim(part@);
            if t.len() == 0 {
                text::texts(old(out)@)
            } else {
                text::texts(old(out)@).push(t)
            }
        }),
{
    let t = trimmed(part);
    if !t.as_str().is_empty() {
        out.push(t);
        assert(text::texts(out@) =~= text::texts(old(out)@).push(t@));
    }
}

/// The paragraphs of `text`.
pub fn split_paragraphs(text: &str) -> (r: Vec<String>)
    ensures
        text::texts(r@) == paragraphs(text@),
{
    let v = chars_of(text);
    let mut out: Vec<String> = Vec::new();
    let mut cur = String::new();
    let mut i: usize = 0;
    while i < v.len()
        invariant
            i <= v.len(),
            lines(v@.take(i as int)).len() > 0,
            lines(v@.take(i as int)).last() == cur@,
            text::texts(out@) == tidy(lines(v@.take(i as int)).drop_last()),
        decreases v.len() - i,
    {
        let ghost before = lines(v@.take(i as int));
        assert(v@.take(i + 1).drop_last() == v@.take(i as int));
        let c = v[i];
        if c == '\n' {
            push_tidy(&mut out, cur.as_str());
            cur = String::new();
            assert(lines(v@.take(i + 1)).drop_last() == before);
        } else {
            cur.push(c);
            assert(lines(v@.take(i + 1)).drop_last() == before.drop_last());
        }
        i = i + 1;
    }
    push_tidy(&mut out, cur.as_str());
    assert(v@.take(v.len() as int) == v@);
    out
}

fn ends_sentence(c: char) -> (r: bool)
    ensures
        r == sentence_end(c),
{
    c == '。' || c == '！' || c == '？' || c == '!' || c == '?'
}

/// The sentences of `text`, each with the character that ends it; a text without such a character
/// is one sentence.
pub fn split_sentences(text: &str) -> (r: Vec<String>)
    ensures
        text::texts(r@) == sentences(text@),
{
    let t = trimmed(text);
    let v = chars_of(t.as_str());
    let mut out: Vec<String> = Vec::new();
    let mut cur = String::new();
    let mut i: usize = 0;
    while i < v.len()
        invariant
            i <= v.len(),
            cut_behind_ends(v@.take(i as int)).len() > 0,
            cut_behind_ends(v@.take(i as int)).last() == cur@,
            text::texts(out@) == tidy(cut_behind_ends(v@.take(i as int)).drop_last()),
        decreases v.len() - i,
    {
        let ghost before = cut_behind_ends(v@.take(i as int));
        assert(v@.take(i + 1).drop_last() == v@.take(i as int));
        let c = v[i];
        cur.push(c);
        let ghost grown = before.drop_last().push(cur@);
        if ends_sentence(c) {
            push_tidy(&mut out, cur.as_str());
            cur = String::new();
            assert(grown.drop_last() == before.drop_last());
            assert(cut_behind_ends(v@.take(i + 1)).drop_last() == grown);
        } else {
            assert(cut_behind_ends(v@.take(i + 1)).drop_last() == before.drop_last());
        }
        i = i + 1;
    }
    push_tidy(&mut out, cur.as_str());
    assert(v@.take(v.len() as int) == v@);
    out
}

/// The two halves of `text`, or nothing where it holds fewer than two sentences.
pub fn split_single_paragraph(text: &str) -> (r: Option<(String, String)>)
    ensures
        match r {
            Some((head, tail)) => halves(text@) == Some((head@, tail@)),
            None => halves(text@) is None,
        },
{
    let all = split_sentences(text);
    if all.len() < 2 {
        return None;
    }
    let mid: usize = all.len() / 2;
    let head = join(&all, 0, mid, "");
    let tail = join(&all, mid, all.len(), "");
    proof {
        reveal_strlit("");
        assert(""@ == Seq::<char>::empty());
        assert(text::texts(all@).subrange(0, mid as int) == text::texts(all@).take(mid as int));
        assert(text::texts(all@).subrange(mid as int, all.len() as int) == text::texts(all@).skip(mid as int));
    }
    Some((head, tail))
}

// ── Laws ───────────────────────────────────────────────

proof fn lemma_lines_keep(s: Seq<char>)
    ensures
        lines(s).len() > 0,
        text::visible_all(lines(s)) == text::visible(s),
    decreases s.len(),
{
    if s.len() > 0 {
        let before = lines(s.drop_last());
        lemma_lines_keep(s.drop_last());
        text::lemma_visible_all_push(before, Seq::empty());
        text::lemma_visible_all_push(before.drop_last(), before.last().push(s.last()));
        text::lemma_visible_push(before.last(), s.last());
        assert(text::visible_all(lines(s)) =~= text::visible(s));
    } else {
        text::lemma_visible_all_push(Seq::empty(), Seq::empty());
        assert(lines(s) == Seq::<Seq<char>>::empty().push(Seq::empty()));
    }
}

proof fn lemma_cut_keeps(s: Seq<char>)
    ensures
        cut_behind_ends(s).len() > 0,
        text::visible_all(cut_behind_ends(s)) == text::visible(s),
    decreases s.len(),
{
    if s.len() > 0 {
        let before = cut_behind_ends(s.drop_last());
        lemma_cut_keeps(s.drop_last());
        let grown = before.drop_last().push(before.last().push(s.last()));
        text::lemma_visible_all_push(before.drop_last(), before.last().push(s.last()));
        text::lemma_visible_push(before.last(), s.last());
        text::lemma_visible_all_push(grown, Seq::empty());
        assert(text::visible_all(cut_behind_ends(s)) =~= text::visible(s));
    } else {
        text::lemma_visible_all_push(Seq::empty(), Seq::empty());
        assert(cut_behind_ends(s) == Seq::<Seq<char>>::empty().push(Seq::empty()));
    }
}

proof fn lemma_tidy_keeps(parts: Seq<Seq<char>>)
    ensures
        text::visible_all(tidy(parts)) == text::visible_all(parts),
    decreases parts.len(),
{
    if parts.len() > 0 {
        lemma_tidy_keeps(parts.drop_last());
        text::lemma_visible_trim(parts.last());
        let before = tidy(parts.drop_last());
        let last = text::trim(parts.last());
        assert(before.push(last).drop_last() == before);
    }
}

/// Cutting a text into paragraphs loses, adds and reorders nothing but white space.
pub proof fn paragraphs_keep_text(s: Seq<char>)
    ensures
        text::visible_all(paragraphs(s)) == text::visible(s),
{
    lemma_lines_keep(s);
    lemma_tidy_keeps(lines(s));
}

/// Cutting a text into sentences loses, adds and reorders nothing but white space.
pub proof fn sentences_keep_text(s: Seq<char>)
    ensures
        text::visible_all(sentences(s)) == text::visible(s),
{
    text::lemma_visible_trim(s);
    lemma_cut_keeps(text::trim(s));
    lemma_tidy_keeps(cut_behind_ends(text::trim(s)));
}

/// The two halves of a paragraph hold together what the paragraph holds, white space aside.
pub proof fn halves_keep_text(s: Seq<char>)
    ensures
        halves(s) matches Some((head, tail)) ==> text::visible(head) + text::visible(tail)
            == text::visible(s),
{
    let all = sentences(s);
    let mid = all.len() as int / 2;
    sentences_keep_text(s);
    text::lemma_visible_joined(all.take(mid), Seq::empty());
    text::lemma_visible_joined(all.skip(mid), Seq::empty());
    text::lemma_visible_all_add(all.take(mid), all.skip(mid));
    assert(all.take(mid) + all.skip(mid) == all);
}

proof fn lemma_tidy_trimmed(parts: Seq<Seq<char>>)
    ensures
        forall|i: int|
            0 <= i < tidy(parts).len() ==> (#[trigger] tidy(parts)[i]).len() > 0 && text::trim(
                tidy(parts)[i],
            ) == tidy(parts)[i],
    decreases parts.len(),
{
    if parts.len() > 0 {
        let before = tidy(parts.drop_last());
        lemma_tidy_trimmed(parts.drop_last());
        text::lemma_trim_twice(parts.last());
        assert forall|i: int| 0 <= i < tidy(parts).len() implies (#[trigger] tidy(parts)[i]).len()
            > 0 && text::trim(tidy(parts)[i]) == tidy(parts)[i] by {
            if i < before.len() {
                assert(tidy(parts)[i] == before[i]);
            }
        }
    }
}

/// No paragraph is blank, and none has white space at either end.
pub proof fn paragraphs_are_tidy(s: Seq<char>, i: int)
    requires
        0 <= i < paragraphs(s).len(),
    ensures
        paragraphs(s)[i].len() > 0,
        text::trim(paragraphs(s)[i]) == paragraphs(s)[i],
{
    lemma_tidy_trimmed(lines(s));
}

/// No sentence is blank, and none has white space at either end.
pub proof fn sentences_are_tidy(s: Seq<char>, i: int)
    requires
        0 <= i < sentences(s).len(),
    ensures
        sentences(s)[i].len() > 0,
        text::trim(sentences(s)[i]) == sentences(s)[i],
{
    lemma_tidy_trimmed(cut_behind_ends(text::trim(s)));
}

/// Whether `s` ends with a character that ends a sentence.
pub open spec fn closed_sentence(s: Seq<char>) -> bool {
    s.len() > 0 && sentence_end(s.last())
}

proof fn lemma_cut_closed(s: Seq<char>)
    ensures
        cut_behind_ends(s).len() > 0,
        forall|i: int|
            0 <= i < cut_behind_ends(s).len() - 1 ==> closed_sentence(
                #[trigger] cut_behind_ends(s)[i],
            ),
    decreases s.len(),
{
    if s.len() > 0 {
        let before = cut_behind_ends(s.drop_last());
        lemma_cut_closed(s.drop_last());
        let cut = cut_behind_ends(s);
        assert forall|i: int| 0 <= i < cut.len() - 1 implies closed_sentence(#[trigger] cut[i]) by {
            if i < before.len() - 1 {
                assert(cut[i] == before[i]);
            }
        }
    }
}

proof fn lemma_tidy_closed(parts: Seq<Seq<char>>)
    requires
        forall|i: int| 0 <= i < parts.len() ==> closed_sentence(#[trigger] parts[i]),
    ensures
        forall|i: int| 0 <= i < tidy(parts).len() ==> closed_sentence(#[trigger] tidy(parts)[i]),
    decreases parts.len(),
{
    if parts.len() > 0 {
        let before = parts.drop_last();
        assert forall|i: int| 0 <= i < before.len() implies closed_sentence(#[trigger] before[i]) by {
            assert(before[i] == parts[i]);
        }
        lemma_tidy_closed(before);
        assert(closed_sentence(parts[parts.len() - 1]));
        text::lemma_trim_keeps_last(parts.last());
        assert forall|i: int| 0 <= i < tidy(parts).len() implies closed_sentence(
            #[trigger] tidy(parts)[i],
        ) by {
            if i < tidy(before).len() {
                assert(tidy(parts)[i] == tidy(before)[i]);
            }
        }
    }
}

/// Every sentence but the last one ends with the character that ends it.
pub proof fn sentences_keep_their_ends(s: Seq<char>, i: int)
    requires
        0 <= i < sentences(s).len() - 1,
    ensures
        closed_sentence(sentences(s)[i]),
{
    let cut = cut_behind_ends(text::trim(s));
    lemma_cut_closed(text::trim(s));
    assert forall|k: int| 0 <= k < cut.drop_last().len() implies closed_sentence(
        #[trigger] cut.drop_last()[k],
    ) by {
        assert(cut.drop_last()[k] == cut[k]);
    }
    lemma_tidy_closed(cut.drop_last());
    assert(sentences(s)[i] == tidy(cut.drop_last())[i]);
}

// ── Cutting again what was put together ────────────────

/// What a paragraph is: not blank, no white space at an end, and all on one line.
pub open spec fn paragraph_like(s: Seq<char>) -> bool {
    s.len() > 0 && text::trim(s) == s && !s.contains('\n')
}

/// All the parts are paragraphs.
pub open spec fn all_paragraphs(parts: Seq<Seq<char>>) -> bool {
    forall|i: int| 0 <= i < parts.len() ==> paragraph_like(#[trigger] parts[i])
}

proof fn lemma_tidy_add(a: Seq<Seq<char>>, b: Seq<Seq<char>>)
    ensures
        tidy(a + b) == tidy(a) + tidy(b),
    decreases b.len(),
{
    if b.len() == 0 {
        assert(a + b =~= a);
        assert(tidy(a) + tidy(b) =~= tidy(a));
    } else {
        assert((a + b).drop_last() =~= a + b.drop_last());
        lemma_tidy_add(a, b.drop_last());
        assert(tidy(a + b) =~= tidy(a) + tidy(b));
    }
}

proof fn lemma_tidy_fixed(parts: Seq<Seq<char>>)
    requires
        forall|i: int|
            0 <= i < parts.len() ==> (#[trigger] parts[i]).len() > 0 && text::trim(parts[i])
                == parts[i],
    ensures
        tidy(parts) == parts,
    decreases parts.len(),
{
    if parts.len() > 0 {
        let before = parts.drop_last();
        assert forall|i: int| 0 <= i < before.len() implies (#[trigger] before[i]).len() > 0
            && text::trim(before[i]) == before[i] by {
            assert(before[i] == parts[i]);
        }
        lemma_tidy_fixed(before);
        assert(parts[parts.len() - 1].len() > 0);
        assert(before.push(parts.last()) =~= parts);
    } else {
        assert(tidy(parts) =~= parts);
    }
}

proof fn lemma_tidy_empty_line()
    ensures
        tidy(seq![Seq::<char>::empty()]) == Seq::<Seq<char>>::empty(),
{
    let one = seq![Seq::<char>::empty()];
    text::lemma_trim_fixed_by_ends(one.last());
    assert(one.drop_last() =~= Seq::empty());
    assert(tidy(one.drop_last()) == Seq::<Seq<char>>::empty());
    assert(text::trim(one.last()).len() == 0);
}

proof fn lemma_lines_add(a: Seq<char>, b: Seq<char>)
    ensures
        lines(a.push('\n') + b) == lines(a) + lines(b),
        lines(b).len() > 0,
    decreases b.len(),
{
    let all = a.push('\n') + b;
    if b.len() == 0 {
        assert(all =~= a.push('\n'));
        assert(a.push('\n').drop_last() =~= a);
        assert(lines(all) =~= lines(a) + lines(b));
    } else {
        assert(all.drop_last() =~= a.push('\n') + b.drop_last());
        lemma_lines_add(a, b.drop_last());
        assert(lines(all) =~= lines(a) + lines(b));
    }
}

proof fn lemma_one_line(s: Seq<char>)
    requires
        !s.contains('\n'),
    ensures
        lines(s) == seq![s],
    decreases s.len(),
{
    if s.len() > 0 {
        let before = s.drop_last();
        assert(!before.contains('\n')) by {
            if before.contains('\n') {
                let i = choose|i: int| 0 <= i < before.len() && before[i] == '\n';
                assert(s[i] == '\n');
            }
        }
        lemma_one_line(before);
        assert(s[s.len() - 1] != '\n');
        assert(before.push(s.last()) =~= s);
        assert(lines(s) =~= seq![s]);
    } else {
        assert(s =~= Seq::empty());
    }
}

/// The paragraphs of two texts on lines of their own are those of the one and those of the other.
pub proof fn lemma_paragraphs_add(a: Seq<char>, b: Seq<char>)
    ensures
        paragraphs(a + "\n"@ + b) == paragraphs(a) + paragraphs(b),
        paragraphs(a + "\n\n"@ + b) == paragraphs(a) + paragraphs(b),
{
    reveal_strlit("\n");
    reveal_strlit("\n\n");
    lemma_lines_add(a, b);
    lemma_tidy_add(lines(a), lines(b));
    assert(a + "\n"@ + b =~= a.push('\n') + b);
    let empty = Seq::<char>::empty();
    lemma_lines_add(a.push('\n'), b);
    lemma_lines_add(a, empty);
    assert(a.push('\n') + empty =~= a.push('\n'));
    assert(a + "\n\n"@ + b =~= a.push('\n').push('\n') + b);
    lemma_tidy_add(lines(a.push('\n')), lines(b));
    lemma_tidy_add(lines(a), lines(empty));
    lemma_tidy_empty_line();
    assert(tidy(lines(a)) + Seq::empty() =~= tidy(lines(a)));
}

/// A paragraph is cut into itself.
pub proof fn lemma_paragraph_is_one(s: Seq<char>)
    requires
        paragraph_like(s),
    ensures
        paragraphs(s) == seq![s],
{
    lemma_one_line(s);
    assert forall|i: int| 0 <= i < seq![s].len() implies (#[trigger] seq![s][i]).len() > 0
        && text::trim(seq![s][i]) == seq![s][i] by {}
    lemma_tidy_fixed(seq![s]);
}

/// Paragraphs that are put together with one or two newlines between them are cut into the same
/// paragraphs.
pub proof fn joined_paragraphs_are_cut_again(parts: Seq<Seq<char>>)
    requires
        all_paragraphs(parts),
    ensures
        paragraphs(text::joined(parts, "\n"@)) == parts,
        paragraphs(text::joined(parts, "\n\n"@)) == parts,
    decreases parts.len(),
{
    if parts.len() == 0 {
        lemma_tidy_empty_line();
        assert(parts =~= Seq::empty());
    } else if parts.len() == 1 {
        lemma_paragraph_is_one(parts[0]);
        assert(parts =~= seq![parts[0]]);
    } else {
        let before = parts.drop_last();
        assert forall|i: int| 0 <= i < before.len() implies paragraph_like(
            #[trigger] before[i],
        ) by {
            assert(before[i] == parts[i]);
        }
        joined_paragraphs_are_cut_again(before);
        assert(paragraph_like(parts[parts.len() - 1]));
        lemma_paragraph_is_one(parts.last());
        lemma_paragraphs_add(text::joined(before, "\n"@), parts.last());
        lemma_paragraphs_add(text::joined(before, "\n\n"@), parts.last());
        assert(before + seq![parts.last()] =~= parts);
    }
}

proof fn lemma_lines_have_no_newline(s: Seq<char>)
    ensures
        lines(s).len() > 0,
        forall|i: int| 0 <= i < lines(s).len() ==> !(#[trigger] lines(s)[i]).contains('\n'),
    decreases s.len(),
{
    if s.len() > 0 {
        let before = lines(s.drop_last());
        lemma_lines_have_no_newline(s.drop_last());
        let all = lines(s);
        assert forall|i: int| 0 <= i < all.len() implies !(#[trigger] all[i]).contains('\n') by {
            if i < before.len() - 1 || s.last() == '\n' && i < before.len() {
                assert(all[i] == before[i]);
            } else if s.last() != '\n' {
                let last = before[before.len() - 1];
                assert(all[i] == last.push(s.last()));
                if all[i].contains('\n') {
                    let k = choose|k: int| 0 <= k < all[i].len() && all[i][k] == '\n';
                    assert(last[k] == '\n');
                }
            }
        }
    }
}

proof fn lemma_tidy_no_newline(parts: Seq<Seq<char>>)
    requires
        forall|i: int| 0 <= i < parts.len() ==> !(#[trigger] parts[i]).contains('\n'),
    ensures
        forall|i: int| 0 <= i < tidy(parts).len() ==> !(#[trigger] tidy(parts)[i]).contains('\n'),
    decreases parts.len(),
{
    if parts.len() > 0 {
        let before = parts.drop_last();
        assert forall|i: int| 0 <= i < before.len() implies !(#[trigger] before[i]).contains(
            '\n',
        ) by {
            assert(before[i] == parts[i]);
        }
        lemma_tidy_no_newline(before);
        assert(!parts[parts.len() - 1].contains('\n'));
        text::lemma_trim_within(parts.last(), '\n');
        assert forall|i: int| 0 <= i < tidy(parts).len() implies !(#[trigger] tidy(
            parts,
        )[i]).contains('\n') by {
            if i < tidy(before).len() {
                assert(tidy(parts)[i] == tidy(before)[i]);
            }
        }
    }
}

/// Each paragraph stands on one line, is not blank and has no white space at an end.
pub proof fn paragraphs_are_lines(s: Seq<char>)
    ensures
        all_paragraphs(paragraphs(s)),
{
    lemma_lines_have_no_newline(s);
    lemma_tidy_no_newline(lines(s));
    lemma_tidy_trimmed(lines(s));
}

/// The paragraphs of a text, put together with one or two newlines between them, are cut into the
/// same paragraphs.
pub proof fn paragraphs_are_cut_again(s: Seq<char>)
    ensures
        paragraphs(text::joined(paragraphs(s), "\n"@)) == paragraphs(s),
        paragraphs(text::joined(paragraphs(s), "\n\n"@)) == paragraphs(s),
{
    paragraphs_are_lines(s);
    joined_paragraphs_are_cut_again(paragraphs(s));
}

/// No character before the last one ends a sentence.
pub open spec fn one_sentence(s: Seq<char>) -> bool {
    forall|i: int| 0 <= i < s.len() - 1 ==> !sentence_end(#[trigger] s[i])
}

/// What sentences in a row are: none is blank, none has white space at an end, and each ends with its
/// only character that ends a sentence, except that the last one need not have one.
pub open spec fn sentence_row(parts: Seq<Seq<char>>) -> bool {
    &&& forall|i: int|
        0 <= i < parts.len() ==> (#[trigger] parts[i]).len() > 0 && text::trim(parts[i]) == parts[i]
            && one_sentence(parts[i])
    &&& forall|i: int| 0 <= i < parts.len() - 1 ==> closed_sentence(#[trigger] parts[i])
}

proof fn lemma_cut_nonempty(s: Seq<char>)
    ensures
        cut_behind_ends(s).len() > 0,
        s.len() == 0 || closed_sentence(s) ==> cut_behind_ends(s).last().len() == 0,
    decreases s.len(),
{
    if s.len() > 0 {
        lemma_cut_nonempty(s.drop_last());
    }
}

proof fn lemma_cut_add(a: Seq<char>, b: Seq<char>)
    requires
        a.len() == 0 || closed_sentence(a),
    ensures
        cut_behind_ends(a + b) == cut_behind_ends(a).drop_last() + cut_behind_ends(b),
        cut_behind_ends(b).len() > 0,
    decreases b.len(),
{
    lemma_cut_nonempty(a);
    if b.len() == 0 {
        assert(a + b =~= a);
        assert(cut_behind_ends(a).last() =~= Seq::<char>::empty());
        assert(cut_behind_ends(a) =~= cut_behind_ends(a).drop_last() + cut_behind_ends(b));
    } else {
        assert((a + b).drop_last() =~= a + b.drop_last());
        lemma_cut_add(a, b.drop_last());
        assert(cut_behind_ends(a + b) =~= cut_behind_ends(a).drop_last() + cut_behind_ends(b));
    }
}

proof fn lemma_cut_open(s: Seq<char>)
    requires
        forall|i: int| 0 <= i < s.len() ==> !sentence_end(#[trigger] s[i]),
    ensures
        cut_behind_ends(s) == seq![s],
    decreases s.len(),
{
    if s.len() > 0 {
        let before = s.drop_last();
        assert forall|i: int| 0 <= i < before.len() implies !sentence_end(#[trigger] before[i]) by {
            assert(before[i] == s[i]);
        }
        lemma_cut_open(before);
        assert(!sentence_end(s[s.len() - 1]));
        assert(before.push(s.last()) =~= s);
        assert(cut_behind_ends(s) =~= seq![s]);
    } else {
        assert(s =~= Seq::empty());
    }
}

proof fn lemma_cut_one(s: Seq<char>)
    requires
        s.len() > 0,
        one_sentence(s),
    ensures
        closed_sentence(s) ==> cut_behind_ends(s) == seq![s, Seq::empty()],
        !closed_sentence(s) ==> cut_behind_ends(s) == seq![s],
{
    let before = s.drop_last();
    assert forall|i: int| 0 <= i < before.len() implies !sentence_end(#[trigger] before[i]) by {
        assert(before[i] == s[i]);
    }
    lemma_cut_open(before);
    assert(before.push(s.last()) =~= s);
    if closed_sentence(s) {
        assert(cut_behind_ends(s) =~= seq![s, Seq::empty()]);
    } else {
        assert(cut_behind_ends(s) =~= seq![s]);
    }
}

#[verifier::spinoff_prover]
#[verifier::rlimit(40)]
proof fn lemma_row_cut(parts: Seq<Seq<char>>)
    requires
        parts.len() > 0,
        sentence_row(parts),
    ensures
        ({
            let s = text::joined(parts, Seq::empty());
            &&& s.len() > 0
            &&& s.last() == parts.last().last()
            &&& cut_behind_ends(s) == (if closed_sentence(s) {
                parts.push(Seq::empty())
            } else {
                parts
            })
        }),
    decreases parts.len(),
{
    let empty = Seq::<char>::empty();
    let s = text::joined(parts, empty);
    assert(parts[parts.len() - 1].len() > 0 && one_sentence(parts[parts.len() - 1]));
    lemma_cut_one(parts.last());
    if parts.len() == 1 {
        assert(parts =~= seq![parts[0]]);
        assert(parts.push(empty) =~= seq![parts[0], empty]);
    } else {
        let before = parts.drop_last();
        lemma_row_sub(parts, 0, parts.len() - 1);
        assert(parts.subrange(0, parts.len() - 1) =~= before);
        lemma_row_cut(before);
        let head = text::joined(before, empty);
        assert(closed_sentence(parts[parts.len() - 2]));
        assert(before.last() == parts[parts.len() - 2]);
        assert(s =~= head + parts.last());
        lemma_cut_add(head, parts.last());
        assert(before.push(empty).drop_last() =~= before);
        if closed_sentence(s) {
            assert(before + seq![parts.last(), empty] =~= parts.push(empty));
        } else {
            assert(before + seq![parts.last()] =~= parts);
        }
    }
}

proof fn lemma_row_sub(parts: Seq<Seq<char>>, from: int, to: int)
    requires
        sentence_row(parts),
        0 <= from <= to <= parts.len(),
    ensures
        sentence_row(parts.subrange(from, to)),
{
    let sub = parts.subrange(from, to);
    assert forall|i: int| 0 <= i < sub.len() implies (#[trigger] sub[i]).len() > 0 && text::trim(
        sub[i],
    ) == sub[i] && one_sentence(sub[i]) by {
        assert(sub[i] == parts[from + i]);
    }
    assert forall|i: int| 0 <= i < sub.len() - 1 implies closed_sentence(#[trigger] sub[i]) by {
        assert(sub[i] == parts[from + i]);
    }
}

/// Parts without white space at their ends, put together, have none at theirs.
pub proof fn lemma_joined_tidy(parts: Seq<Seq<char>>, sep: Seq<char>)
    requires
        parts.len() > 0,
        forall|i: int|
            0 <= i < parts.len() ==> (#[trigger] parts[i]).len() > 0 && text::trim(parts[i])
                == parts[i],
    ensures
        text::joined(parts, sep).len() > 0,
        text::trim(text::joined(parts, sep)) == text::joined(parts, sep),
    decreases parts.len(),
{
    if parts.len() > 1 {
        let before = parts.drop_last();
        assert forall|i: int| 0 <= i < before.len() implies (#[trigger] before[i]).len() > 0
            && text::trim(before[i]) == before[i] by {
            assert(before[i] == parts[i]);
        }
        lemma_joined_tidy(before, sep);
        text::lemma_trim_fixed(text::joined(before, sep));
        assert(parts[parts.len() - 1].len() > 0);
        text::lemma_trim_fixed(parts.last());
        text::lemma_trim_fixed_by_ends(text::joined(parts, sep));
    }
}

/// Sentences that are put together are cut into the same sentences.
pub proof fn joined_sentences_are_cut_again(parts: Seq<Seq<char>>)
    requires
        sentence_row(parts),
    ensures
        sentences(text::joined(parts, Seq::empty())) == parts,
{
    let empty = Seq::<char>::empty();
    let s = text::joined(parts, empty);
    if parts.len() == 0 {
        text::lemma_trim_fixed_by_ends(empty);
        lemma_tidy_empty_line();
        assert(parts =~= Seq::empty());
    } else {
        lemma_joined_tidy(parts, empty);
        lemma_row_cut(parts);
        lemma_tidy_fixed(parts);
        lemma_tidy_add(parts, seq![empty]);
        lemma_tidy_empty_line();
        assert(parts.push(empty) =~= parts + seq![empty]);
        assert(parts + Seq::<Seq<char>>::empty() =~= parts);
    }
}

proof fn lemma_cut_ones(s: Seq<char>)
    ensures
        cut_behind_ends(s).len() > 0,
        forall|i: int| 0 <= i < cut_behind_ends(s).len() ==> one_sentence(
            #[trigger] cut_behind_ends(s)[i],
        ),
        forall|k: int|
            0 <= k < cut_behind_ends(s).last().len() ==> !sentence_end(
                #[trigger] cut_behind_ends(s).last()[k],
            ),
    decreases s.len(),
{
    if s.len() > 0 {
        let before = cut_behind_ends(s.drop_last());
        lemma_cut_ones(s.drop_last());
        let all = cut_behind_ends(s);
        let grown = before.last().push(s.last());
        assert(one_sentence(grown)) by {
            assert forall|k: int| 0 <= k < grown.len() - 1 implies !sentence_end(
                #[trigger] grown[k],
            ) by {
                assert(grown[k] == before.last()[k]);
            }
        }
        assert forall|i: int| 0 <= i < all.len() implies one_sentence(#[trigger] all[i]) by {
            if i < before.len() - 1 {
                assert(all[i] == before[i]);
            } else if i == before.len() - 1 {
                assert(all[i] == grown);
            }
        }
        assert forall|k: int| 0 <= k < all.last().len() implies !sentence_end(
            #[trigger] all.last()[k],
        ) by {
            if k < grown.len() - 1 {
                assert(grown[k] == before.last()[k]);
            }
        }
    }
}

proof fn lemma_tidy_ones(parts: Seq<Seq<char>>)
    requires
        forall|i: int| 0 <= i < parts.len() ==> one_sentence(#[trigger] parts[i]),
    ensures
        forall|i: int| 0 <= i < tidy(parts).len() ==> one_sentence(#[trigger] tidy(parts)[i]),
    decreases parts.len(),
{
    if parts.len() > 0 {
        let before = parts.drop_last();
        assert forall|i: int| 0 <= i < before.len() implies one_sentence(#[trigger] before[i]) by {
            assert(before[i] == parts[i]);
        }
        lemma_tidy_ones(before);
        let last = parts[parts.len() - 1];
        assert(one_sentence(last));
        let (from, to) = text::lemma_trim_is_part(last);
        let t = text::trim(last);
        assert(one_sentence(t)) by {
            assert forall|k: int| 0 <= k < t.len() - 1 implies !sentence_end(#[trigger] t[k]) by {
                assert(t[k] == last[from + k]);
            }
        }
        assert forall|i: int| 0 <= i < tidy(parts).len() implies one_sentence(
            #[trigger] tidy(parts)[i],
        ) by {
            if i < tidy(before).len() {
                assert(tidy(parts)[i] == tidy(before)[i]);
            }
        }
    }
}

/// The sentences of a text are sentences in a row.
pub proof fn sentences_are_a_row(s: Seq<char>)
    ensures
        sentence_row(sentences(s)),
{
    let cut = cut_behind_ends(text::trim(s));
    lemma_cut_ones(text::trim(s));
    lemma_tidy_ones(cut);
    lemma_tidy_trimmed(cut);
    assert forall|i: int| 0 <= i < sentences(s).len() - 1 implies closed_sentence(
        #[trigger] sentences(s)[i],
    ) by {
        sentences_keep_their_ends(s, i);
    }
}

/// Each half of a paragraph is cut into the sentences that it was put together from.
pub proof fn halves_are_cut_again(s: Seq<char>)
    ensures
        halves(s) is None <==> sentences(s).len() < 2,
        halves(s) matches Some((head, tail)) ==> ({
            let mid = sentences(s).len() as int / 2;
            sentences(head) == sentences(s).take(mid) && sentences(tail) == sentences(s).skip(mid)
        }),
{
    let all = sentences(s);
    let mid = all.len() as int / 2;
    sentences_are_a_row(s);
    lemma_row_sub(all, 0, mid);
    lemma_row_sub(all, mid, all.len() as int);
    assert(all.subrange(0, mid) =~= all.take(mid));
    assert(all.subrange(mid, all.len() as int) =~= all.skip(mid));
    joined_sentences_are_cut_again(all.take(mid));
    joined_sentences_are_cut_again(all.skip(mid));
}

proof fn lemma_cut_no_newline(s: Seq<char>)
    requires
        !s.contains('\n'),
    ensures
        cut_behind_ends(s).len() > 0,
        forall|i: int|
            0 <= i < cut_behind_ends(s).len() ==> !(#[trigger] cut_behind_ends(s)[i]).contains('\n'),
    decreases s.len(),
{
    if s.len() > 0 {
        let rest = s.drop_last();
        assert(!rest.contains('\n')) by {
            if rest.contains('\n') {
                let i = choose|i: int| 0 <= i < rest.len() && rest[i] == '\n';
                assert(s[i] == '\n');
            }
        }
        lemma_cut_no_newline(rest);
        assert(s[s.len() - 1] != '\n');
        let before = cut_behind_ends(rest);
        let all = cut_behind_ends(s);
        let last = before[before.len() - 1];
        assert forall|i: int| 0 <= i < all.len() implies !(#[trigger] all[i]).contains('\n') by {
            if i < before.len() - 1 {
                assert(all[i] == before[i]);
            } else if i == before.len() - 1 {
                assert(all[i] == last.push(s.last()));
                if all[i].contains('\n') {
                    let k = choose|k: int| 0 <= k < all[i].len() && all[i][k] == '\n';
                    assert(last[k] == '\n');
                }
            }
        }
    }
}

proof fn lemma_joined_no_newline(parts: Seq<Seq<char>>)
    requires
        forall|i: int| 0 <= i < parts.len() ==> !(#[trigger] parts[i]).contains('\n'),
    ensures
        !text::joined(parts, Seq::empty()).contains('\n'),
    decreases parts.len(),
{
    let empty = Seq::<char>::empty();
    let all = text::joined(parts, empty);
    if parts.len() > 1 {
        let before = parts.drop_last();
        assert forall|i: int| 0 <= i < before.len() implies !(#[trigger] before[i]).contains(
            '\n',
        ) by {
            assert(before[i] == parts[i]);
        }
        lemma_joined_no_newline(before);
        let head = text::joined(before, empty);
        let last = parts[parts.len() - 1];
        assert(!last.contains('\n'));
        if all.contains('\n') {
            let k = choose|k: int| 0 <= k < all.len() && all[k] == '\n';
            if k < head.len() {
                assert(head[k] == '\n');
            } else {
                assert(last[k - head.len()] == '\n');
            }
        }
    }
}

/// The halves of a paragraph are paragraphs.
pub proof fn lemma_halves_are_paragraphs(s: Seq<char>)
    requires
        paragraph_like(s),
    ensures
        halves(s) matches Some((head, tail)) ==> paragraph_like(head) && paragraph_like(tail),
{
    let all = sentences(s);
    let mid = all.len() as int / 2;
    if all.len() >= 2 {
        lemma_cut_no_newline(text::trim(s));
        lemma_tidy_no_newline(cut_behind_ends(text::trim(s)));
        lemma_tidy_trimmed(cut_behind_ends(text::trim(s)));
        let a = all.take(mid);
        let b = all.skip(mid);
        assert forall|i: int| 0 <= i < a.len() implies (#[trigger] a[i]).len() > 0 && text::trim(
            a[i],
        ) == a[i] && !a[i].contains('\n') by {
            assert(a[i] == all[i]);
        }
        assert forall|i: int| 0 <= i < b.len() implies (#[trigger] b[i]).len() > 0 && text::trim(
            b[i],
        ) == b[i] && !b[i].contains('\n') by {
            assert(b[i] == all[mid + i]);
        }
        lemma_joined_tidy(a, Seq::empty());
        lemma_joined_tidy(b, Seq::empty());
        lemma_joined_no_newline(a);
        lemma_joined_no_newline(b);
    }
}

// ── What a cut is ──────────────────────────────────────

/// Five characters end a sentence: the full stop, the exclamation mark and the question mark of
/// Chinese, and the exclamation mark and the question mark of ASCII.
pub proof fn sentence_ends_are_known(c: char)
    ensures
        sentence_end(c) <==> seq![0x3002int, 0xff01, 0xff1f, 0x21, 0x3f].contains(c as int),
{
    let all = seq![0x3002int, 0xff01, 0xff1f, 0x21, 0x3f];
    let n = c as int;
    assert(all[0] == 0x3002 && all[1] == 0xff01 && all[2] == 0xff1f && all[3] == 0x21 && all[4]
        == 0x3f);
    if all.contains(n) {
        let i = choose|i: int| 0 <= i < all.len() && all[i] == n;
    }
}

/// Whether none of the five characters stands in a text.
pub open spec fn without_ends(s: Seq<char>) -> bool {
    forall|i: int|
        0 <= i < s.len() ==> (#[trigger] s[i]) != '\u{3002}' && s[i] != '\u{ff01}' && s[i]
            != '\u{ff1f}' && s[i] != '\u{21}' && s[i] != '\u{3f}'
}

/// A text without a character that ends a sentence is one sentence, and so is one whose last character
/// is the only such one; a blank text has none.
pub proof fn a_sentence_is_not_torn(s: Seq<char>, t: &str, r: Vec<String>)
    requires
        t@ == s,
        call_ensures(split_sentences, (t,), r),
        without_ends(s) || s.len() > 0 && without_ends(s.drop_last()),
    ensures
        text::texts(r@) == (if text::trim(s).len() == 0 {
            Seq::empty()
        } else {
            seq![text::trim(s)]
        }),
{
    lemma_single_sentence(s);
}

proof fn lemma_single_sentence(s: Seq<char>)
    requires
        without_ends(s) || s.len() > 0 && without_ends(s.drop_last()),
    ensures
        sentences(s) == (if text::trim(s).len() == 0 {
            Seq::empty()
        } else {
            seq![text::trim(s)]
        }),
{
    let t = text::trim(s);
    let (from, to) = text::lemma_trim_is_part(s);
    if t.len() == 0 {
        assert(t =~= Seq::empty());
        lemma_tidy_empty_line();
    } else {
        assert forall|k: int| 0 <= k < t.len() - 1 implies !sentence_end(#[trigger] t[k]) by {
            assert(t[k] == s[from + k]);
            if !without_ends(s) {
                assert(s.drop_last()[from + k] == s[from + k]);
            }
        }
        text::lemma_trim_twice(s);
        lemma_cut_one(t);
        lemma_tidy_fixed(seq![t]);
        lemma_tidy_add(seq![t], seq![Seq::empty()]);
        lemma_tidy_empty_line();
        assert(seq![t, Seq::empty()] =~= seq![t] + seq![Seq::empty()]);
        assert(seq![t] + Seq::<Seq<char>>::empty() =~= seq![t]);
    }
}

proof fn lemma_tidy_last(parts: Seq<Seq<char>>, a: Seq<char>, b: Seq<char>)
    requires
        text::trim(a) == text::trim(b),
    ensures
        tidy(parts.push(a)) == tidy(parts.push(b)),
{
    assert(parts.push(a).drop_last() =~= parts);
    assert(parts.push(b).drop_last() =~= parts);
}

proof fn lemma_tidy_first(a: Seq<char>, b: Seq<char>, parts: Seq<Seq<char>>)
    requires
        text::trim(a) == text::trim(b),
    ensures
        tidy(seq![a] + parts) == tidy(seq![b] + parts),
{
    lemma_tidy_add(seq![a], parts);
    lemma_tidy_add(seq![b], parts);
    lemma_tidy_last(Seq::empty(), a, b);
    assert(Seq::<Seq<char>>::empty().push(a) =~= seq![a]);
    assert(Seq::<Seq<char>>::empty().push(b) =~= seq![b]);
}

proof fn lemma_cut_white_behind(s: Seq<char>, w: char)
    requires
        text::white_space(w),
    ensures
        tidy(cut_behind_ends(s.push(w))) == tidy(cut_behind_ends(s)),
{
    let before = cut_behind_ends(s);
    lemma_cut_nonempty(s);
    assert(s.push(w).drop_last() =~= s);
    text::lemma_trim_padding(before.last(), w);
    lemma_tidy_last(before.drop_last(), before.last().push(w), before.last());
    assert(before.drop_last().push(before.last()) =~= before);
}

proof fn lemma_cut_in_front(c: char, s: Seq<char>)
    requires
        !sentence_end(c),
    ensures
        cut_behind_ends(s).len() > 0,
        cut_behind_ends(seq![c] + s) == seq![seq![c] + cut_behind_ends(s)[0]]
            + cut_behind_ends(s).drop_first(),
    decreases s.len(),
{
    let all = seq![c] + s;
    lemma_cut_nonempty(s);
    if s.len() == 0 {
        assert(all =~= Seq::<char>::empty().push(c));
        assert(all.drop_last() =~= Seq::<char>::empty());
        let one = cut_behind_ends(Seq::<char>::empty());
        assert(one =~= seq![Seq::<char>::empty()]);
        assert(cut_behind_ends(all) =~= seq![seq![c] + Seq::<char>::empty()]
            + Seq::<Seq<char>>::empty());
        assert(s =~= Seq::<char>::empty());
        assert(one.drop_first() =~= Seq::<Seq<char>>::empty());
    } else {
        let rest = s.drop_last();
        let before = cut_behind_ends(rest);
        lemma_cut_in_front(c, rest);
        assert(all.drop_last() =~= seq![c] + rest);
        let front = seq![seq![c] + before[0]] + before.drop_first();
        assert((seq![c] + before[0]).push(s.last()) =~= seq![c] + before[0].push(s.last()));
        assert(cut_behind_ends(all) =~= seq![seq![c] + cut_behind_ends(s)[0]] + cut_behind_ends(
            s,
        ).drop_first());
    }
}

proof fn lemma_cut_white_in_front(w: char, s: Seq<char>)
    requires
        text::white_space(w),
    ensures
        tidy(cut_behind_ends(seq![w] + s)) == tidy(cut_behind_ends(s)),
{
    let cut = cut_behind_ends(s);
    lemma_cut_in_front(w, s);
    text::lemma_trim_padding(cut[0], w);
    lemma_tidy_first(seq![w] + cut[0], cut[0], cut.drop_first());
    assert(seq![cut[0]] + cut.drop_first() =~= cut);
}

proof fn lemma_cut_round(before: Seq<char>, s: Seq<char>, behind: Seq<char>)
    requires
        text::blank(before),
        text::blank(behind),
    ensures
        tidy(cut_behind_ends(before + s + behind)) == tidy(cut_behind_ends(s)),
    decreases before.len() + behind.len(),
{
    let all = before + s + behind;
    if before.len() > 0 {
        let rest = before.drop_first();
        assert(text::white_space(before[0]));
        assert forall|i: int| 0 <= i < rest.len() implies text::white_space(#[trigger] rest[i]) by {
            assert(rest[i] == before[i + 1]);
        }
        lemma_cut_round(rest, s, behind);
        lemma_cut_white_in_front(before[0], rest + s + behind);
        assert(all =~= seq![before[0]] + (rest + s + behind));
    } else if behind.len() > 0 {
        let rest = behind.drop_last();
        assert(text::white_space(behind[behind.len() - 1]));
        assert forall|i: int| 0 <= i < rest.len() implies text::white_space(#[trigger] rest[i]) by {
            assert(rest[i] == behind[i]);
        }
        lemma_cut_round(before, s, rest);
        lemma_cut_white_behind(before + s + rest, behind.last());
        assert(all =~= (before + s + rest).push(behind.last()));
    } else {
        assert(all =~= s);
    }
}

proof fn lemma_sentences_untrimmed(s: Seq<char>)
    ensures
        sentences(s) == tidy(cut_behind_ends(s)),
{
    text::trimming_is_exact(s);
    let (from, to) = choose|from: int, to: int|
        0 <= from <= to <= s.len() && text::trim(s) == #[trigger] s.subrange(from, to)
            && text::blank(s.take(from)) && text::blank(s.skip(to));
    lemma_cut_round(s.take(from), s.subrange(from, to), s.skip(to));
    assert(s =~= s.take(from) + s.subrange(from, to) + s.skip(to));
}

/// A text is cut behind each character that ends a sentence: the sentences of what stands up to such a
/// character and those of what stands behind it are all its sentences.
pub proof fn a_text_is_cut_behind_each_end(a: Seq<char>, e: char, b: Seq<char>)
    requires
        e == '\u{3002}' || e == '\u{ff01}' || e == '\u{ff1f}' || e == '\u{21}' || e == '\u{3f}',
    ensures
        sentences(a.push(e) + b) == sentences(a.push(e)) + sentences(b),
{
    let head = a.push(e);
    lemma_sentences_untrimmed(head + b);
    lemma_sentences_untrimmed(head);
    lemma_sentences_untrimmed(b);
    lemma_cut_add(head, b);
    lemma_cut_nonempty(head);
    let cut = cut_behind_ends(head);
    let empty = Seq::<char>::empty();
    lemma_tidy_add(cut.drop_last(), cut_behind_ends(b));
    lemma_tidy_add(cut.drop_last(), seq![empty]);
    lemma_tidy_empty_line();
    assert(cut.last() =~= empty);
    assert(cut =~= cut.drop_last() + seq![empty]);
    assert(tidy(cut.drop_last()) + Seq::<Seq<char>>::empty() =~= tidy(cut.drop_last()));
}

/// A text on one line is one paragraph, without the white space round it; a blank one is none.
pub proof fn a_line_is_a_paragraph(s: Seq<char>, t: &str, r: Vec<String>)
    requires
        t@ == s,
        call_ensures(split_paragraphs, (t,), r),
        !s.contains('\n'),
    ensures
        text::texts(r@) == (if text::trim(s).len() == 0 {
            Seq::empty()
        } else {
            seq![text::trim(s)]
        }),
{
    lemma_one_line(s);
    assert(seq![s].drop_last() =~= Seq::<Seq<char>>::empty());
    assert(tidy(seq![s].drop_last()) =~= Seq::<Seq<char>>::empty());
    assert(tidy(seq![s]) =~= if text::trim(s).len() == 0 {
        Seq::empty()
    } else {
        seq![text::trim(s)]
    });
}

/// A paragraph of two sentences or more is halved between two sentences, and any other is not. The
/// halves are the sentences one after the other; the first half has as many as the second one, or one
/// fewer.
pub proof fn paragraphs_are_halved(t: &str, all: Vec<String>, r: Option<(String, String)>)
    requires
        call_ensures(split_sentences, (t,), all),
        call_ensures(split_single_paragraph, (t,), r),
    ensures
        r is Some <==> all@.len() >= 2,
        r matches Some((head, tail)) ==> ({
            let n = sentences(head@).len();
            &&& head@ + tail@ == text::joined(text::texts(all@), Seq::empty())
            &&& text::texts(all@) == sentences(head@) + sentences(tail@)
            &&& n == sentences(tail@).len() || n + 1 == sentences(tail@).len()
        }),
{
    let s = sentences(t@);
    let mid = s.len() as int / 2;
    assert(text::texts(all@) == s);
    assert(all@.len() == s.len());
    halves_are_cut_again(t@);
    if s.len() >= 2 {
        assert(s.take(mid) + s.skip(mid) =~= s);
        text::lemma_joined_add(s.take(mid), s.skip(mid), Seq::empty());
        let (head, tail) = r->Some_0;
        assert(head@ + Seq::<char>::empty() + tail@ =~= head@ + tail@);
    }
}

proof fn lemma_lines_within(s: Seq<char>, i: int, c: char)
    requires
        0 <= i < lines(s).len(),
        lines(s)[i].contains(c),
    ensures
        s.contains(c),
    decreases s.len(),
{
    if s.len() > 0 {
        let rest = s.drop_last();
        let before = lines(rest);
        lemma_lines_keep(rest);
        let line = lines(s)[i];
        let k = choose|k: int| 0 <= k < line.len() && line[k] == c;
        let j = if i < before.len() {
            i
        } else {
            before.len() - 1
        };
        if s.last() == c {
            assert(s[s.len() - 1] == c);
        } else {
            if i < before.len() - 1 || s.last() == '\n' && i < before.len() {
                assert(line == before[i]);
            } else if s.last() != '\n' {
                assert(line == before[before.len() - 1].push(s.last()));
                assert(before[before.len() - 1][k] == c);
            }
            assert(before[j].contains(c));
            lemma_lines_within(rest, j, c);
            let m = choose|m: int| 0 <= m < rest.len() && rest[m] == c;
            assert(s[m] == c);
        }
    }
}

proof fn lemma_tidy_from(parts: Seq<Seq<char>>, i: int) -> (j: int)
    requires
        0 <= i < tidy(parts).len(),
    ensures
        0 <= j < parts.len(),
        tidy(parts)[i] == text::trim(parts[j]),
    decreases parts.len(),
{
    let before = tidy(parts.drop_last());
    if i < before.len() {
        assert(tidy(parts)[i] == before[i]);
        let j = lemma_tidy_from(parts.drop_last(), i);
        assert(parts.drop_last()[j] == parts[j]);
        j
    } else {
        parts.len() - 1
    }
}

/// The characters of a paragraph are those of the text.
pub proof fn lemma_paragraphs_within(s: Seq<char>, i: int, c: char)
    requires
        0 <= i < paragraphs(s).len(),
    ensures
        paragraphs(s)[i].contains(c) ==> s.contains(c),
{
    let j = lemma_tidy_from(lines(s), i);
    text::lemma_trim_within(lines(s)[j], c);
    if paragraphs(s)[i].contains(c) {
        lemma_lines_within(s, j, c);
    }
}

proof fn lemma_lines_white_behind(s: Seq<char>, w: char)
    requires
        text::white_space(w),
    ensures
        tidy(lines(s.push(w))) == tidy(lines(s)),
{
    let before = lines(s);
    lemma_lines_keep(s);
    assert(s.push(w).drop_last() =~= s);
    if w == '\n' {
        lemma_tidy_add(before, seq![Seq::empty()]);
        lemma_tidy_empty_line();
        assert(before.push(Seq::empty()) =~= before + seq![Seq::empty()]);
        assert(tidy(before) + Seq::<Seq<char>>::empty() =~= tidy(before));
    } else {
        text::lemma_trim_padding(before.last(), w);
        lemma_tidy_last(before.drop_last(), before.last().push(w), before.last());
        assert(before.drop_last().push(before.last()) =~= before);
    }
}

proof fn lemma_lines_in_front(c: char, s: Seq<char>)
    requires
        c != '\n',
    ensures
        lines(s).len() > 0,
        lines(seq![c] + s) == seq![seq![c] + lines(s)[0]] + lines(s).drop_first(),
    decreases s.len(),
{
    let all = seq![c] + s;
    lemma_lines_keep(s);
    if s.len() == 0 {
        assert(all.drop_last() =~= Seq::<char>::empty());
        assert(s =~= Seq::<char>::empty());
        let one = lines(Seq::<char>::empty());
        assert(one =~= seq![Seq::<char>::empty()]);
        assert(lines(all) =~= seq![seq![c] + Seq::<char>::empty()] + Seq::<Seq<char>>::empty());
        assert(one.drop_first() =~= Seq::<Seq<char>>::empty());
    } else {
        let rest = s.drop_last();
        let before = lines(rest);
        lemma_lines_in_front(c, rest);
        assert(all.drop_last() =~= seq![c] + rest);
        assert((seq![c] + before[0]).push(s.last()) =~= seq![c] + before[0].push(s.last()));
        assert(lines(all) =~= seq![seq![c] + lines(s)[0]] + lines(s).drop_first());
    }
}

proof fn lemma_lines_white_in_front(w: char, s: Seq<char>)
    requires
        text::white_space(w),
    ensures
        tidy(lines(seq![w] + s)) == tidy(lines(s)),
{
    if w == '\n' {
        lemma_lines_add(Seq::empty(), s);
        assert(Seq::<char>::empty().push('\n') + s =~= seq![w] + s);
        let one = seq![Seq::<char>::empty()];
        assert(lines(Seq::<char>::empty()) =~= one);
        lemma_tidy_add(one, lines(s));
        lemma_tidy_empty_line();
        assert(Seq::<Seq<char>>::empty() + tidy(lines(s)) =~= tidy(lines(s)));
    } else {
        let all = lines(s);
        lemma_lines_in_front(w, s);
        text::lemma_trim_padding(all[0], w);
        lemma_tidy_first(seq![w] + all[0], all[0], all.drop_first());
        assert(seq![all[0]] + all.drop_first() =~= all);
    }
}

/// White space round a text makes no difference to its paragraphs.
pub proof fn lemma_paragraphs_round(before: Seq<char>, s: Seq<char>, behind: Seq<char>)
    requires
        text::blank(before),
        text::blank(behind),
    ensures
        paragraphs(before + s + behind) == paragraphs(s),
    decreases before.len() + behind.len(),
{
    let all = before + s + behind;
    if before.len() > 0 {
        let rest = before.drop_first();
        assert(text::white_space(before[0]));
        assert forall|i: int| 0 <= i < rest.len() implies text::white_space(#[trigger] rest[i]) by {
            assert(rest[i] == before[i + 1]);
        }
        lemma_paragraphs_round(rest, s, behind);
        lemma_lines_white_in_front(before[0], rest + s + behind);
        assert(all =~= seq![before[0]] + (rest + s + behind));
    } else if behind.len() > 0 {
        let rest = behind.drop_last();
        assert(text::white_space(behind[behind.len() - 1]));
        assert forall|i: int| 0 <= i < rest.len() implies text::white_space(#[trigger] rest[i]) by {
            assert(rest[i] == behind[i]);
        }
        lemma_paragraphs_round(before, s, rest);
        lemma_lines_white_behind(before + s + rest, behind.last());
        assert(all =~= (before + s + rest).push(behind.last()));
    } else {
        assert(all =~= s);
    }
}

/// Trimming a text keeps its paragraphs.
pub proof fn lemma_paragraphs_of_trimmed(s: Seq<char>)
    ensures
        paragraphs(text::trim(s)) == paragraphs(s),
{
    text::trimming_is_exact(s);
    let (from, to) = choose|from: int, to: int|
        0 <= from <= to <= s.len() && text::trim(s) == #[trigger] s.subrange(from, to)
            && text::blank(s.take(from)) && text::blank(s.skip(to));
    lemma_paragraphs_round(s.take(from), s.subrange(from, to), s.skip(to));
    assert(s =~= s.take(from) + s.subrange(from, to) + s.skip(to));
}

} // verus!
