//! What is done to the recognized text: the user's replacements, then simplified characters.

use vstd::prelude::*;
use crate::dictionary;
use crate::dictionary::Dictionary;
use crate::segmentation;
use crate::segmentation::split_paragraphs;
use crate::t2s_data::T2S_DATA;
use crate::text;
use crate::text::chars_of;
use std::collections::HashMap;

verus! {

// ── Simplified characters ──────────────────────────────

/// Where the first tab of a line is; the length of the line where it has none.
pub open spec fn tab_at(line: Seq<char>) -> int
    decreases line.len(),
{
    if line.len() == 0 || line.first() == '\t' {
        0
    } else {
        1 + tab_at(line.drop_first())
    }
}

/// The pair of characters in a line: the first ones of its first two fields, which tabs part.
pub open spec fn pair(line: Seq<char>) -> Option<(char, char)> {
    let t = tab_at(line);
    if 0 < t && t + 1 < line.len() && line[t + 1] != '\t' {
        Some((line[0], line[t + 1]))
    } else {
        None
    }
}

/// The pairs of the lines; of two pairs for one character the later one counts.
pub open spec fn pairs(lines: Seq<Seq<char>>) -> Map<char, char>
    decreases lines.len(),
{
    if lines.len() == 0 {
        Map::empty()
    } else {
        let before = pairs(lines.drop_last());
        match pair(lines.last()) {
            Some((from, to)) => before.insert(from, to),
            None => before,
        }
    }
}

/// The table that a text holds, one pair per line. Blank lines do not count, nor does white space at
/// the ends of a line.
pub open spec fn table_of(data: Seq<char>) -> Map<char, char> {
    pairs(segmentation::paragraphs(data))
}

/// A character replaced as the table has it.
pub open spec fn looked_up(table: Map<char, char>, c: char) -> char {
    if table.contains_key(c) {
        table[c]
    } else {
        c
    }
}

/// Each character replaced as the table has it.
pub open spec fn replaced(table: Map<char, char>, s: Seq<char>) -> Seq<char> {
    Seq::new(s.len(), |i: int| looked_up(table, s[i]))
}

/// The characters of `s`, simplified.
pub open spec fn simplified(s: Seq<char>) -> Seq<char> {
    replaced(table_of(T2S_DATA@), s)
}

/// A table of characters. Its view is the characters it replaces, each with what it becomes.
pub struct CharTable {
    map: HashMap<u32, char>,
}

impl View for CharTable {
    type V = Map<char, char>;

    closed spec fn view(&self) -> Map<char, char> {
        Map::new(|c: char| self.map@.contains_key(c as u32), |c: char| self.map@[c as u32])
    }
}

proof fn lemma_code_point(a: char, b: char)
    ensures
        a as u32 == b as u32 ==> a == b,
{
}

/// The pair of characters in a line.
fn pair_of(line: &str) -> (r: Option<(char, char)>)
    ensures
        r == pair(line@),
{
    let v = chars_of(line);
    let mut t: usize = 0;
    assert(v@.skip(0) == v@);
    while t < v.len() && v[t] != '\t'
        invariant
            t <= v.len(),
            t + tab_at(v@.skip(t as int)) == tab_at(v@),
        decreases v.len() - t,
    {
        assert(v@.skip(t as int).drop_first() == v@.skip(t + 1));
        t = t + 1;
    }
    if 0 < t && t < v.len() && t + 1 < v.len() && v[t + 1] != '\t' {
        Some((v[0], v[t + 1]))
    } else {
        None
    }
}

impl CharTable {
    /// The table that a text holds.
    pub fn parse(data: &str) -> (r: Self)
        ensures
            r@ == table_of(data@),
    {
        broadcast use vstd::std_specs::hash::group_hash_axioms;

        let lines = split_paragraphs(data);
        let ghost all = segmentation::paragraphs(data@);
        let mut r = CharTable { map: HashMap::new() };
        let mut i: usize = 0;
        assert(r@ =~= pairs(all.take(0)));
        while i < lines.len()
            invariant
                i <= lines.len(),
                all == text::texts(lines@),
                r@ == pairs(all.take(i as int)),
            decreases lines.len() - i,
        {
            let ghost was = r@;
            assert(all.take(i + 1).drop_last() == all.take(i as int));
            assert(all[i as int] == lines@[i as int]@);
            if let Some((from, to)) = pair_of(lines[i].as_str()) {
                let n: u32 = from as u32;
                let ghost before = r.map@;
                r.map.insert(n, to);
                assert(r.map@ == before.insert(n, to));
                assert forall|c: char| #[trigger]
                    r@.contains_key(c) == was.insert(from, to).contains_key(c) && (r@.contains_key(
                        c,
                    ) ==> r@[c] == was.insert(from, to)[c]) by {
                    lemma_code_point(c, from);
                }
                assert(r@ =~= was.insert(from, to));
            }
            i = i + 1;
        }
        assert(all.take(i as int) == all);
        r
    }

    /// Replaces each character as the table has it.
    pub fn replace(&self, s: &str) -> (r: String)
        ensures
            r@ == replaced(self@, s@),
    {
        broadcast use vstd::std_specs::hash::group_hash_axioms;

        let mut r = String::new();
        for c in it: s.chars()
            invariant
                it.seq() == s@,
                r@ == replaced(self@, s@.take(it.index() as int)),
        {
            let ghost i = it.index() as int;
            let d = match self.map.get(&(c as u32)) {
                Some(d) => *d,
                None => c,
            };
            assert(d == looked_up(self@, c));
            r.push(d);
            assert(replaced(self@, s@.take(i + 1)) =~= replaced(self@, s@.take(i)).push(d));
        }
        assert(s@.take(s@.len() as int) == s@);
        r
    }
}

/// The characters of `text`, simplified.
pub fn t2s(text: &str) -> (r: String)
    ensures
        r@ == simplified(text@),
{
    CharTable::parse(T2S_DATA).replace(text)
}

// ── The user's replacements ────────────────────────────

/// `s` from `i` on with the words of the dictionary replaced: where words match, the longest of them
/// is replaced, and reading goes on behind it, so that what was put in is not looked at again.
pub open spec fn with_words(d: Map<Seq<char>, Seq<char>>, s: Seq<char>, i: int) -> Seq<char>
    decreases s.len() - i,
{
    if i >= s.len() || i < 0 {
        Seq::empty()
    } else {
        let l = dictionary::match_len(d, s, i);
        if l > 0 {
            proof {
                dictionary::lemma_match_fits(d, s, i);
            }
            d[s.subrange(i, i + l)] + with_words(d, s, i + l)
        } else {
            seq![s[i]] + with_words(d, s, i + 1)
        }
    }
}

/// `text` with the words of the dictionary replaced.
pub fn apply_dictionary(text: &str, dict: &Dictionary) -> (r: String)
    requires
        dict.wf(),
    ensures
        r@ == with_words(dict@, text@, 0),
{
    let s = chars_of(text);
    let mut out = String::new();
    let mut i: usize = 0;
    assert(out@ + with_words(dict@, s@, 0) =~= with_words(dict@, s@, 0));
    while i < s.len()
        invariant
            dict.wf(),
            i <= s.len(),
            out@ + with_words(dict@, s@, i as int) == with_words(dict@, s@, 0),
        decreases s.len() - i,
    {
        let ghost before = out@;
        let ghost rest = with_words(dict@, s@, i as int);
        match dict.longest_match(&s, i) {
            Some((l, value)) => {
                proof {
                    dictionary::lemma_match_fits(dict@, s@, i as int);
                }
                out.append(value);
                i = i + l;
            },
            None => {
                out.push(s[i]);
                i = i + 1;
            },
        }
        assert(out@ + with_words(dict@, s@, i as int) =~= before + rest);
    }
    assert(out@ + with_words(dict@, s@, i as int) =~= out@);
    out
}

/// What becomes of a recognized text: the words of the dictionary are replaced, then the characters
/// are simplified.
pub open spec fn processed(d: Map<Seq<char>, Seq<char>>, s: Seq<char>) -> Seq<char> {
    simplified(with_words(d, s, 0))
}

/// What becomes of a recognized text.
pub fn postprocess(text: &str, dict: &Dictionary) -> (r: String)
    requires
        dict.wf(),
    ensures
        r@ == processed(dict@, text@),
{
    t2s(apply_dictionary(text, dict).as_str())
}

// ── Laws ───────────────────────────────────────────────

/// Simplifying keeps the number of characters.
pub proof fn simplifying_keeps_the_length(s: Seq<char>)
    ensures
        simplified(s).len() == s.len(),
{
}

/// Simplifying goes character by character: it may be done piece by piece.
pub proof fn simplifying_goes_piece_by_piece(a: Seq<char>, b: Seq<char>)
    ensures
        simplified(a + b) == simplified(a) + simplified(b),
{
    assert(simplified(a + b) =~= simplified(a) + simplified(b));
}

/// What a table makes of a text is left as it is by the table, where no character that it puts in is
/// one that it replaces by another.
pub proof fn replacing_twice_changes_nothing(table: Map<char, char>, s: Seq<char>)
    requires
        forall|c: char| #[trigger] table.contains_key(c) ==> looked_up(table, table[c]) == table[c],
    ensures
        replaced(table, replaced(table, s)) == replaced(table, s),
{
    assert(replaced(table, replaced(table, s)) =~= replaced(table, s));
}

proof fn lemma_empty_dictionary(d: Map<Seq<char>, Seq<char>>, s: Seq<char>, i: int)
    requires
        d == Map::<Seq<char>, Seq<char>>::empty(),
        0 <= i <= s.len(),
    ensures
        with_words(d, s, i) == s.skip(i),
    decreases s.len() - i,
{
    if i < s.len() {
        dictionary::lemma_match_fits(d, s, i);
        lemma_empty_dictionary(d, s, i + 1);
        assert(seq![s[i]] + s.skip(i + 1) =~= s.skip(i));
    }
}

/// A dictionary without words leaves every text as it is.
pub proof fn empty_dictionary_changes_nothing(s: Seq<char>)
    ensures
        with_words(Map::empty(), s, 0) == s,
{
    lemma_empty_dictionary(Map::empty(), s, 0);
    assert(s.skip(0) == s);
}

/// A key with an ASCII letter or digit is never replaced inside a longer word.
pub proof fn words_are_not_torn(d: Map<Seq<char>, Seq<char>>, s: Seq<char>, i: int)
    requires
        0 <= i < s.len(),
        dictionary::match_len(d, s, i) > 0,
        dictionary::needs_boundary(s.subrange(i, i + dictionary::match_len(d, s, i))),
    ensures
        dictionary::stands_alone(s, i, dictionary::match_len(d, s, i)),
{
    dictionary::lemma_match_fits(d, s, i);
}

/// Replacing goes on directly behind a word that was replaced, with the next character where no word
/// stands, and ends with the text.
pub proof fn replacing_goes_on_behind_a_word(
    d: Map<Seq<char>, Seq<char>>,
    s: Seq<char>,
    i: int,
    k: Seq<char>,
)
    requires
        dictionary::stands_at(d, s, i, k),
        forall|other: Seq<char>| #[trigger]
            dictionary::stands_at(d, s, i, other) ==> other.len() <= k.len(),
    ensures
        with_words(d, s, i) == d[k] + with_words(d, s, i + k.len()),
{
    dictionary::lemma_match_is_longest(d, s, i);
    let l = dictionary::match_len(d, s, i);
    assert(dictionary::stands_at(d, s, i, s.subrange(i, i + l)));
    assert(s.subrange(i, i + l).len() == l);
    assert(k =~= s.subrange(i, i + l));
}

/// A character at which no word of the dictionary stands is kept, and replacing goes on behind it.
pub proof fn other_characters_are_kept(d: Map<Seq<char>, Seq<char>>, s: Seq<char>, i: int)
    requires
        0 <= i < s.len(),
        forall|k: Seq<char>| !#[trigger] dictionary::stands_at(d, s, i, k),
    ensures
        with_words(d, s, i) == seq![s[i]] + with_words(d, s, i + 1),
        with_words(d, s, s.len() as int) == Seq::<char>::empty(),
{
    dictionary::lemma_match_is_longest(d, s, i);
    let l = dictionary::match_len(d, s, i);
    assert(l > 0 ==> dictionary::stands_at(d, s, i, s.subrange(i, i + l)));
}

proof fn lemma_stands_later(
    d: Map<Seq<char>, Seq<char>>,
    a: Seq<char>,
    b: Seq<char>,
    i: int,
    k: Seq<char>,
)
    requires
        0 <= i < b.len(),
        i > 0 || a.len() == 0 || dictionary::parts_words(a.last()),
    ensures
        dictionary::stands_at(d, a + b, a.len() + i, k) <==> dictionary::stands_at(d, b, i, k),
{
    let s = a + b;
    let n = a.len() as int;
    assert(i > 0 ==> s[n + i - 1] == b[i - 1]);
    assert(i == 0 && n > 0 ==> s[n + i - 1] == a.last());
    assert(i + k.len() < b.len() ==> s[n + i + k.len()] == b[i + k.len() as int]);
    if dictionary::stands_at(d, s, n + i, k) {
        assert forall|j: int| 0 <= j < k.len() implies #[trigger] k[j] == b[i + j] by {
            assert(s[n + i + j] == b[i + j]);
        }
    }
    if dictionary::stands_at(d, b, i, k) {
        assert forall|j: int| 0 <= j < k.len() implies #[trigger] k[j] == s[n + i + j] by {
            assert(s[n + i + j] == b[i + j]);
        }
    }
}

proof fn lemma_replaced_later(d: Map<Seq<char>, Seq<char>>, a: Seq<char>, b: Seq<char>, i: int)
    requires
        0 <= i <= b.len(),
        i > 0 || a.len() == 0 || dictionary::parts_words(a.last()),
    ensures
        with_words(d, a + b, a.len() + i) == with_words(d, b, i),
    decreases b.len() - i,
{
    if i < b.len() {
        let s = a + b;
        let n = a.len() as int;
        dictionary::lemma_match_is_longest(d, b, i);
        dictionary::lemma_match_is_longest(d, s, n + i);
        let l = dictionary::match_len(d, b, i);
        let m = dictionary::match_len(d, s, n + i);
        assert(s.subrange(n + i, n + i + l) =~= b.subrange(i, i + l));
        assert(s.subrange(n + i, n + i + m) =~= b.subrange(i, i + m));
        assert(b.subrange(i, i + l).len() == l);
        assert(s.subrange(n + i, n + i + m).len() == m);
        lemma_stands_later(d, a, b, i, b.subrange(i, i + l));
        lemma_stands_later(d, a, b, i, s.subrange(n + i, n + i + m));
        assert(l == m);
        if l > 0 {
            lemma_replaced_later(d, a, b, i + l);
        } else {
            lemma_replaced_later(d, a, b, i + 1);
            assert(s[n + i] == b[i]);
        }
    }
}

/// A text that begins with a word of the dictionary becomes the replacement of the word, with what the
/// rest of the text becomes behind it. The word is the longest one there, and its last character is
/// none that could go on into the rest.
pub proof fn each_word_is_replaced(
    dict: &Dictionary,
    whole: &str,
    rest: &str,
    k: Seq<char>,
    r: String,
    q: String,
)
    requires
        whole@ == k + rest@,
        dictionary::stands_at(dict@, whole@, 0, k),
        forall|other: Seq<char>| #[trigger]
            dictionary::stands_at(dict@, whole@, 0, other) ==> other.len() <= k.len(),
        dictionary::parts_words(k.last()),
        call_ensures(apply_dictionary, (whole, dict), r),
        call_ensures(apply_dictionary, (rest, dict), q),
    ensures
        r@ == dict@[k] + q@,
{
    replacing_goes_on_behind_a_word(dict@, whole@, 0, k);
    lemma_replaced_later(dict@, k, rest@, 0);
}

/// A text that begins with a character at which no word stands keeps it, with what the rest of the
/// text becomes behind it. The character is none that could go on into the rest.
pub proof fn each_other_character_is_kept(
    dict: &Dictionary,
    whole: &str,
    rest: &str,
    c: char,
    r: String,
    q: String,
)
    requires
        whole@ == seq![c] + rest@,
        forall|k: Seq<char>| !#[trigger] dictionary::stands_at(dict@, whole@, 0, k),
        dictionary::parts_words(c),
        call_ensures(apply_dictionary, (whole, dict), r),
        call_ensures(apply_dictionary, (rest, dict), q),
    ensures
        r@ == seq![c] + q@,
{
    other_characters_are_kept(dict@, whole@, 0);
    lemma_replaced_later(dict@, seq![c], rest@, 0);
}

proof fn lemma_no_words(d: Map<Seq<char>, Seq<char>>, s: Seq<char>, i: int)
    requires
        0 <= i <= s.len(),
        forall|j: int, k: Seq<char>| !#[trigger] dictionary::stands_at(d, s, j, k),
    ensures
        with_words(d, s, i) == s.skip(i),
    decreases s.len() - i,
{
    if i < s.len() {
        other_characters_are_kept(d, s, i);
        lemma_no_words(d, s, i + 1);
        assert(seq![s[i]] + s.skip(i + 1) =~= s.skip(i));
    }
}

/// A text in which no word of the dictionary stands is left as it is.
pub proof fn texts_without_words_stay(dict: &Dictionary, t: &str, r: String)
    requires
        call_ensures(apply_dictionary, (t, dict), r),
        forall|j: int, k: Seq<char>| !#[trigger] dictionary::stands_at(dict@, t@, j, k),
    ensures
        r@ == t@,
{
    lemma_no_words(dict@, t@, 0);
    assert(t@.skip(0) =~= t@);
}

/// Each character of a text becomes what the table has for it, or stays where the table has nothing.
pub proof fn each_character_is_looked_up(table: &CharTable, t: &str, r: String, i: int)
    requires
        call_ensures(CharTable::replace, (table, t), r),
        0 <= i < t@.len(),
    ensures
        r@.len() == t@.len(),
        table@.contains_key(t@[i]) ==> r@[i] == table@[t@[i]],
        !table@.contains_key(t@[i]) ==> r@[i] == t@[i],
{
}

proof fn lemma_pairs_add(a: Seq<Seq<char>>, b: Seq<Seq<char>>)
    ensures
        pairs(a + b) == pairs(a).union_prefer_right(pairs(b)),
    decreases b.len(),
{
    if b.len() == 0 {
        assert(a + b =~= a);
        assert(pairs(a).union_prefer_right(pairs(b)) =~= pairs(a));
    } else {
        assert((a + b).drop_last() =~= a + b.drop_last());
        lemma_pairs_add(a, b.drop_last());
        assert(pairs(a + b) =~= pairs(a).union_prefer_right(pairs(b)));
    }
}

/// A table may be read part by part: the pairs of later lines count before those of earlier ones.
pub proof fn tables_are_read_line_by_line(a: Seq<char>, b: Seq<char>)
    ensures
        table_of(a + "\n"@ + b) == table_of(a).union_prefer_right(table_of(b)),
{
    segmentation::lemma_paragraphs_add(a, b);
    lemma_pairs_add(segmentation::paragraphs(a), segmentation::paragraphs(b));
}

proof fn lemma_no_tab(s: Seq<char>)
    requires
        !s.contains('\t'),
    ensures
        tab_at(s) == s.len(),
    decreases s.len(),
{
    if s.len() > 0 {
        assert(s[0] != '\t');
        assert(!s.drop_first().contains('\t')) by {
            if s.drop_first().contains('\t') {
                let i = choose|i: int| 0 <= i < s.drop_first().len() && s.drop_first()[i] == '\t';
                assert(s[i + 1] == '\t');
            }
        }
        lemma_no_tab(s.drop_first());
    }
}

/// A line with two fields that a tab parts has the first character of the one replaced by the first
/// character of the other, and no other character, whatever else stands in the fields and behind them.
pub proof fn a_line_is_a_pair(
    from: char,
    more: Seq<char>,
    to: char,
    behind: Seq<char>,
    t: &str,
    table: CharTable,
)
    requires
        !text::white_space(from),
        !text::white_space(to),
        !more.contains('\t') && !more.contains('\n'),
        !behind.contains('\n'),
        t@ == seq![from] + more + seq!['\t', to] + behind,
        call_ensures(CharTable::parse, (t,), table),
    ensures
        table@ == Map::<char, char>::empty().insert(from, to),
{
    let s = t@;
    let n = more.len() as int;
    assert(s[0] == from && s[n + 1] == '\t' && s[n + 2] == to);
    assert(!s.contains('\n')) by {
        if s.contains('\n') {
            let i = choose|i: int| 0 <= i < s.len() && s[i] == '\n';
            if 1 <= i <= n {
                assert(more[i - 1] == '\n');
            } else if i >= n + 3 {
                assert(behind[i - n - 3] == '\n');
            }
        }
    }
    let line = text::trim(s);
    text::trimming_is_exact(s);
    let (a, b) = choose|a: int, b: int|
        0 <= a <= b <= s.len() && text::trim(s) == #[trigger] s.subrange(a, b) && text::blank(
            s.take(a),
        ) && text::blank(s.skip(b));
    assert(a == 0) by {
        if a > 0 {
            assert(text::white_space(s.take(a)[0]));
        }
    }
    assert(b >= n + 3) by {
        if b < n + 3 {
            assert(text::white_space(s.skip(b)[n + 2 - b]));
        }
    }
    assert(line[0] == from && line[n + 1] == '\t' && line[n + 2] == to);
    assert(segmentation::paragraph_like(line)) by {
        text::lemma_trim_twice(s);
        text::lemma_trim_within(s, '\n');
    }
    segmentation::lemma_paragraph_is_one(line);
    segmentation::lemma_paragraphs_of_trimmed(s);
    let head = seq![from] + more;
    assert(!head.contains('\t')) by {
        if head.contains('\t') {
            let i = choose|i: int| 0 <= i < head.len() && head[i] == '\t';
            assert(more[i - 1] == '\t');
        }
    }
    lemma_first_tab(head, line.skip(n + 1));
    assert(head + line.skip(n + 1) =~= line);
    let one = seq![line];
    assert(one.drop_last() =~= Seq::<Seq<char>>::empty());
    assert(pairs(one.drop_last()) =~= Map::<char, char>::empty());
    assert(pairs(one) =~= Map::<char, char>::empty().insert(from, to));
}

proof fn lemma_first_tab(head: Seq<char>, rest: Seq<char>)
    requires
        !head.contains('\t'),
        rest.len() > 0,
        rest[0] == '\t',
    ensures
        tab_at(head + rest) == head.len(),
    decreases head.len(),
{
    let s = head + rest;
    if head.len() > 0 {
        assert(head[0] != '\t');
        assert(!head.drop_first().contains('\t')) by {
            if head.drop_first().contains('\t') {
                let i = choose|i: int|
                    0 <= i < head.drop_first().len() && head.drop_first()[i] == '\t';
                assert(head[i + 1] == '\t');
            }
        }
        lemma_first_tab(head.drop_first(), rest);
        assert(s.drop_first() =~= head.drop_first() + rest);
    } else {
        assert(s =~= rest);
    }
}

/// A text without a tab is an empty table.
pub proof fn lines_without_a_tab_do_not_count(t: &str, table: CharTable)
    requires
        !t@.contains('\t'),
        call_ensures(CharTable::parse, (t,), table),
    ensures
        table@ == Map::<char, char>::empty(),
{
    let ps = segmentation::paragraphs(t@);
    assert forall|i: int| 0 <= i < ps.len() implies !(#[trigger] ps[i]).contains('\t') by {
        segmentation::lemma_paragraphs_within(t@, i, '\t');
    }
    lemma_no_pairs(ps);
}

proof fn lemma_no_pairs(lines: Seq<Seq<char>>)
    requires
        forall|i: int| 0 <= i < lines.len() ==> !(#[trigger] lines[i]).contains('\t'),
    ensures
        pairs(lines) == Map::<char, char>::empty(),
    decreases lines.len(),
{
    if lines.len() > 0 {
        let before = lines.drop_last();
        assert forall|i: int| 0 <= i < before.len() implies !(#[trigger] before[i]).contains(
            '\t',
        ) by {
            assert(before[i] == lines[i]);
        }
        lemma_no_pairs(before);
        assert(!lines[lines.len() - 1].contains('\t'));
        lemma_no_tab(lines.last());
    }
}

/// A recognized text has its words replaced first, and what comes of that is simplified, by the table
/// of the program.
pub proof fn words_come_before_characters(
    t: &str,
    dict: &Dictionary,
    worded: String,
    again: &str,
    table: CharTable,
    plain: String,
    r: String,
)
    requires
        call_ensures(apply_dictionary, (t, dict), worded),
        again@ == worded@,
        call_ensures(CharTable::parse, (T2S_DATA,), table),
        call_ensures(CharTable::replace, (&table, again), plain),
        call_ensures(postprocess, (t, dict), r),
    ensures
        r@ == plain@,
{
}

/// Simplifying is replacing by the table of the program.
pub proof fn simplifying_is_by_the_table(t: &str, table: CharTable, plain: String, r: String)
    requires
        call_ensures(CharTable::parse, (T2S_DATA,), table),
        call_ensures(CharTable::replace, (&table, t), plain),
        call_ensures(t2s, (t,), r),
    ensures
        r@ == plain@,
{
}

} // verus!
