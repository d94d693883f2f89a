//! The user's replacements.

use vstd::prelude::*;
use crate::text;
use crate::text::{chars_of, is_ascii_alphanumeric, same_text};

verus! {

/// Words and what they are to be replaced by. Its view is the words, each with its replacement.
pub struct Dictionary {
    entries: Vec<(String, String)>,
}

/// Whether the word `k` stands at index `i`.
spec fn key_at(entries: Seq<(String, String)>, k: Seq<char>, i: int) -> bool {
    0 <= i < entries.len() && entries[i].0@ == k
}

spec fn map_of(entries: Seq<(String, String)>) -> Map<Seq<char>, Seq<char>> {
    Map::new(
        |k: Seq<char>| exists|i: int| key_at(entries, k, i),
        |k: Seq<char>| entries[choose|i: int| key_at(entries, k, i)].1@,
    )
}

spec fn distinct(entries: Seq<(String, String)>) -> bool {
    forall|i: int, j: int| 0 <= i < j < entries.len() ==> entries[i].0@ != entries[j].0@
}

impl View for Dictionary {
    type V = Map<Seq<char>, Seq<char>>;

    closed spec fn view(&self) -> Map<Seq<char>, Seq<char>> {
        map_of(self.entries@)
    }
}

proof fn lemma_map_of(entries: Seq<(String, String)>, i: int)
    requires
        distinct(entries),
        0 <= i < entries.len(),
    ensures
        map_of(entries).contains_key(entries[i].0@),
        map_of(entries)[entries[i].0@] == entries[i].1@,
{
    assert(key_at(entries, entries[i].0@, i));
}

proof fn lemma_map_push(entries: Seq<(String, String)>, e: (String, String))
    requires
        distinct(entries),
        !map_of(entries).contains_key(e.0@),
    ensures
        distinct(entries.push(e)),
        map_of(entries.push(e)) == map_of(entries).insert(e.0@, e.1@),
{
    let next = entries.push(e);
    assert forall|i: int| 0 <= i < entries.len() implies next[i].0@ != e.0@ by {
        lemma_map_of(entries, i);
    }
    assert(distinct(next));
    lemma_map_of(next, entries.len() as int);
    assert forall|k: Seq<char>| #[trigger] map_of(next).contains_key(k) <==> map_of(entries).insert(
        e.0@,
        e.1@,
    ).contains_key(k) by {
        if map_of(next).contains_key(k) {
            let i = choose|i: int| key_at(next, k, i);
            if i < entries.len() {
                lemma_map_of(entries, i);
            }
        }
        if map_of(entries).contains_key(k) {
            let i = choose|i: int| key_at(entries, k, i);
            lemma_map_of(next, i);
        }
    }
    assert forall|k: Seq<char>| #[trigger] map_of(next).contains_key(k) implies map_of(next)[k]
        == map_of(entries).insert(e.0@, e.1@)[k] by {
        let i = choose|i: int| key_at(next, k, i);
        lemma_map_of(next, i);
        if i < entries.len() {
            lemma_map_of(entries, i);
        }
    }
    assert(map_of(next) =~= map_of(entries).insert(e.0@, e.1@));
}

proof fn lemma_map_set(entries: Seq<(String, String)>, at: int, e: (String, String))
    requires
        distinct(entries),
        key_at(entries, e.0@, at),
    ensures
        distinct(entries.update(at, e)),
        map_of(entries.update(at, e)) == map_of(entries).insert(e.0@, e.1@),
{
    let next = entries.update(at, e);
    assert(distinct(next)) by {
        assert forall|i: int, j: int| 0 <= i < j < next.len() implies next[i].0@
            != next[j].0@ by {
            assert(entries[i].0@ == next[i].0@);
            assert(entries[j].0@ == next[j].0@);
        }
    }
    lemma_map_of(next, at);
    assert forall|k: Seq<char>| #[trigger] map_of(next).contains_key(k) <==> map_of(entries).insert(
        e.0@,
        e.1@,
    ).contains_key(k) by {
        if map_of(next).contains_key(k) {
            let i = choose|i: int| key_at(next, k, i);
            lemma_map_of(entries, i);
        }
        if map_of(entries).contains_key(k) {
            let i = choose|i: int| key_at(entries, k, i);
            lemma_map_of(next, i);
        }
    }
    assert forall|k: Seq<char>| #[trigger] map_of(next).contains_key(k) implies map_of(next)[k]
        == map_of(entries).insert(e.0@, e.1@)[k] by {
        let i = choose|i: int| key_at(next, k, i);
        lemma_map_of(next, i);
        lemma_map_of(entries, i);
    }
    assert(map_of(next) =~= map_of(entries).insert(e.0@, e.1@));
}

impl Dictionary {
    /// No word stands in it twice.
    pub closed spec fn wf(self) -> bool {
        distinct(self.entries@)
    }

    /// A dictionary without words.
    pub fn new() -> (r: Self)
        ensures
            r.wf(),
            r@ == Map::<Seq<char>, Seq<char>>::empty(),
    {
        let r = Dictionary { entries: Vec::new() };
        assert(r@ =~= Map::empty());
        r
    }

    /// Where the word `key` stands.
    fn position(&self, key: &str) -> (r: Option<usize>)
        ensures
            match r {
                Some(i) => key_at(self.entries@, key@, i as int),
                None => !self@.contains_key(key@),
            },
    {
        let mut i: usize = 0;
        while i < self.entries.len()
            invariant
                i <= self.entries.len(),
                forall|j: int| key_at(self.entries@, key@, j) ==> j >= i,
            decreases self.entries.len() - i,
        {
            if same_text(self.entries[i].0.as_str(), key) {
                assert(key_at(self.entries@, key@, i as int));
                return Some(i);
            }
            i = i + 1;
        }
        None
    }

    /// Has `key` replaced by `value` from now on.
    pub fn insert(&mut self, key: String, value: String)
        requires
            old(self).wf(),
        ensures
            final(self).wf(),
            final(self)@ == old(self)@.insert(key@, value@),
    {
        let ghost was = self.entries@;
        match self.position(key.as_str()) {
            Some(i) => {
                self.entries.set(i, (key, value));
                proof {
                    lemma_map_set(was, i as int, (key, value));
                }
            },
            None => {
                self.entries.push((key, value));
                proof {
                    lemma_map_push(was, (key, value));
                }
            },
        }
    }

    /// The dictionary of the pairs; of two pairs for one word the later one counts.
    pub fn from_pairs(pairs: Vec<(String, String)>) -> (r: Self)
        ensures
            r.wf(),
            r@ == collected(pairs@),
    {
        let mut r = Dictionary::new();
        let mut i: usize = 0;
        while i < pairs.len()
            invariant
                i <= pairs.len(),
                r.wf(),
                r@ == collected(pairs@.take(i as int)),
            decreases pairs.len() - i,
        {
            assert(pairs@.take(i + 1).drop_last() == pairs@.take(i as int));
            r.insert(pairs[i].0.clone(), pairs[i].1.clone());
            i = i + 1;
        }
        assert(pairs@.take(i as int) == pairs@);
        r
    }

    /// The words and their replacements.
    pub fn to_pairs(&self) -> (r: Vec<(String, String)>)
        requires
            self.wf(),
        ensures
            collected(r@) == self@,
            forall|i: int, j: int| 0 <= i < j < r@.len() ==> r@[i].0@ != r@[j].0@,
    {
        let mut r: Vec<(String, String)> = Vec::new();
        let mut i: usize = 0;
        while i < self.entries.len()
            invariant
                i <= self.entries.len(),
                r.len() == i,
                forall|j: int|
                    0 <= j < i ==> (#[trigger] r@[j]).0@ == self.entries@[j].0@ && r@[j].1@
                        == self.entries@[j].1@,
            decreases self.entries.len() - i,
        {
            let key = self.entries[i].0.clone();
            let value = self.entries[i].1.clone();
            r.push((key, value));
            i = i + 1;
        }
        assert forall|i: int, j: int| 0 <= i < j < r@.len() implies r@[i].0@ != r@[j].0@ by {
            assert(self.entries@[i].0@ != self.entries@[j].0@);
        }
        proof {
            lemma_collected(r@);
            lemma_map_of_same(r@, self.entries@);
        }
        r
    }

    /// The word that matches at `i`, as how many characters it has and what it is replaced by: the
    /// longest one, where several do.
    pub fn longest_match(&self, s: &Vec<char>, i: usize) -> (r: Option<(usize, &str)>)
        requires
            self.wf(),
            i < s.len(),
        ensures
            match r {
                Some((l, v)) => l > 0 && l == match_len(self@, s@, i as int) && v@
                    == self@[s@.subrange(i as int, i + l)],
                None => match_len(self@, s@, i as int) == 0,
            },
    {
        let mut best: usize = 0;
        let mut at: usize = 0;
        let mut j: usize = 0;
        while j < self.entries.len()
            invariant
                self.wf(),
                i < s.len(),
                j <= self.entries.len(),
                best > 0 ==> at < j && fits(self@, s@, i as int, best as int)
                    && self.entries@[at as int].0@ == s@.subrange(i as int, i + best),
                forall|l: int, m: int|
                    0 <= m < j && #[trigger] key_at(self.entries@, s@.subrange(i as int, i + l), m)
                        && fits(self@, s@, i as int, l) ==> l <= best,
            decreases self.entries.len() - j,
        {
            let key = chars_of(self.entries[j].0.as_str());
            let l = key.len();
            proof {
                lemma_map_of(self.entries@, j as int);
            }
            assert forall|l2: int| #[trigger]
                key_at(self.entries@, s@.subrange(i as int, i + l2), j as int) && fits(
                    self@,
                    s@,
                    i as int,
                    l2,
                ) implies l2 == l by {
                assert(s@.subrange(i as int, i + l2).len() == l2);
            }
            if l > best && matches_at(s, i, &key) {
                best = l;
                at = j;
            }
            j = j + 1;
        }
        proof {
            lemma_longest(self@, s@, i as int, s@.len() - i);
            let l = match_len(self@, s@, i as int);
            if l > 0 {
                let k = s@.subrange(i as int, i + l);
                let m = choose|m: int| key_at(self.entries@, k, m);
                assert(key_at(self.entries@, s@.subrange(i as int, i + l), m));
            }
            if best > 0 {
                lemma_map_of(self.entries@, at as int);
            }
        }
        if best > 0 {
            Some((best, self.entries[at].1.as_str()))
        } else {
            None
        }
    }
}

/// The pairs in order, each one replacing an earlier one for the same word.
pub open spec fn collected(pairs: Seq<(String, String)>) -> Map<Seq<char>, Seq<char>>
    decreases pairs.len(),
{
    if pairs.len() == 0 {
        Map::empty()
    } else {
        collected(pairs.drop_last()).insert(pairs.last().0@, pairs.last().1@)
    }
}

proof fn lemma_collected(entries: Seq<(String, String)>)
    requires
        distinct(entries),
    ensures
        collected(entries) == map_of(entries),
    decreases entries.len(),
{
    if entries.len() == 0 {
        assert(map_of(entries) =~= Map::empty());
    } else {
        let before = entries.drop_last();
        lemma_collected(before);
        assert(before.push(entries.last()) == entries);
        if map_of(before).contains_key(entries.last().0@) {
            let i = choose|i: int| key_at(before, entries.last().0@, i);
            assert(entries[i].0@ == entries[entries.len() - 1].0@);
        }
        lemma_map_push(before, entries.last());
    }
}

proof fn lemma_map_of_same(a: Seq<(String, String)>, b: Seq<(String, String)>)
    requires
        a.len() == b.len(),
        distinct(a),
        distinct(b),
        forall|j: int|
            0 <= j < a.len() ==> (#[trigger] a[j]).0@ == b[j].0@ && a[j].1@ == b[j].1@,
    ensures
        map_of(a) == map_of(b),
{
    assert forall|k: Seq<char>| #[trigger]
        map_of(a).contains_key(k) <==> map_of(b).contains_key(k) by {
        if map_of(a).contains_key(k) {
            let i = choose|i: int| key_at(a, k, i);
            lemma_map_of(b, i);
        }
        if map_of(b).contains_key(k) {
            let i = choose|i: int| key_at(b, k, i);
            assert(a[i].0@ == b[i].0@);
            lemma_map_of(a, i);
        }
    }
    assert forall|k: Seq<char>| #[trigger] map_of(a).contains_key(k) implies map_of(a)[k]
        == map_of(b)[k] by {
        let i = choose|i: int| key_at(a, k, i);
        lemma_map_of(a, i);
        lemma_map_of(b, i);
    }
    assert(map_of(a) =~= map_of(b));
}

// ── Matching ───────────────────────────────────────────

/// The characters of words: ASCII letters and digits, and the underscore.
pub open spec fn word_char(c: char) -> bool {
    text::ascii_alphanumeric(c) || c == '_'
}

/// Whether `c` is a character of words.
pub fn is_word_char(c: char) -> (r: bool)
    ensures
        r == word_char(c),
{
    is_ascii_alphanumeric(c) || c == '_'
}

/// Whether a key only matches whole words: it has an ASCII letter or digit. In Chinese, words have
/// no boundaries to see.
pub open spec fn needs_boundary(k: Seq<char>) -> bool {
    exists|j: int| 0 <= j < k.len() && text::ascii_alphanumeric(#[trigger] k[j])
}

/// Whether the `l` characters of `s` from `i` on have no character of words on either side.
pub open spec fn stands_alone(s: Seq<char>, i: int, l: int) -> bool {
    &&& i == 0 || !word_char(s[i - 1])
    &&& i + l >= s.len() || !word_char(s[i + l])
}

/// Whether the `l` characters of `s` from `i` on are a key that matches there.
pub open spec fn fits(d: Map<Seq<char>, Seq<char>>, s: Seq<char>, i: int, l: int) -> bool {
    &&& 0 < l
    &&& i + l <= s.len()
    &&& d.contains_key(s.subrange(i, i + l))
    &&& needs_boundary(s.subrange(i, i + l)) ==> stands_alone(s, i, l)
}

/// The length of the longest key of at most `limit` characters that matches at `i`; 0 where none
/// does.
pub open spec fn longest(d: Map<Seq<char>, Seq<char>>, s: Seq<char>, i: int, limit: int) -> int
    decreases limit,
{
    if limit <= 0 {
        0
    } else if fits(d, s, i, limit) {
        limit
    } else {
        longest(d, s, i, limit - 1)
    }
}

/// The length of the longest key that matches at `i`; 0 where none does.
pub open spec fn match_len(d: Map<Seq<char>, Seq<char>>, s: Seq<char>, i: int) -> int {
    longest(d, s, i, s.len() - i)
}

proof fn lemma_longest(d: Map<Seq<char>, Seq<char>>, s: Seq<char>, i: int, limit: int)
    ensures
        0 <= longest(d, s, i, limit),
        longest(d, s, i, limit) > 0 ==> fits(d, s, i, longest(d, s, i, limit)),
        forall|l: int| longest(d, s, i, limit) < l <= limit ==> !fits(d, s, i, l),
    decreases limit,
{
    if limit > 0 && !fits(d, s, i, limit) {
        lemma_longest(d, s, i, limit - 1);
    }
}

/// What matches at a place is a key that fits there.
pub proof fn lemma_match_fits(d: Map<Seq<char>, Seq<char>>, s: Seq<char>, i: int)
    ensures
        0 <= match_len(d, s, i),
        match_len(d, s, i) > 0 ==> fits(d, s, i, match_len(d, s, i)),
{
    lemma_longest(d, s, i, s.len() - i);
}

/// Of the keys that match at a place, the longest one counts.
pub proof fn longest_key_wins(d: Map<Seq<char>, Seq<char>>, s: Seq<char>, i: int, l: int)
    requires
        0 <= i,
        fits(d, s, i, l),
    ensures
        l <= match_len(d, s, i),
        fits(d, s, i, match_len(d, s, i)),
{
    lemma_longest(d, s, i, s.len() - i);
}

/// Whether the key stands in `s` at `i`, as a whole word where it has to.
fn matches_at(s: &Vec<char>, i: usize, key: &Vec<char>) -> (r: bool)
    requires
        i < s.len(),
    ensures
        r <==> {
            &&& 0 < key.len()
            &&& i + key.len() <= s.len()
            &&& s@.subrange(i as int, i + key.len()) == key@
            &&& needs_boundary(key@) ==> stands_alone(s@, i as int, key.len() as int)
        },
{
    let n = key.len();
    if n == 0 || n > s.len() - i {
        return false;
    }
    let mut bounded = false;
    let mut j: usize = 0;
    while j < n
        invariant
            i < s.len(),
            n == key.len(),
            0 < n <= s.len() - i,
            j <= n,
            forall|m: int| 0 <= m < j ==> s@[i + m] == #[trigger] key@[m],
            bounded <==> needs_boundary(key@.take(j as int)),
        decreases n - j,
    {
        if s[i + j] != key[j] {
            assert(s@.subrange(i as int, i + n)[j as int] != key@[j as int]);
            return false;
        }
        proof {
            lemma_needs_boundary_push(key@, j as int);
        }
        if is_ascii_alphanumeric(key[j]) {
            bounded = true;
        }
        j = j + 1;
    }
    assert(s@.subrange(i as int, i + n) =~= key@);
    assert(key@.take(n as int) == key@);
    if bounded {
        (i == 0 || !is_word_char(s[i - 1])) && (n == s.len() - i || !is_word_char(s[i + n]))
    } else {
        true
    }
}

proof fn lemma_needs_boundary_push(k: Seq<char>, j: int)
    requires
        0 <= j < k.len(),
    ensures
        needs_boundary(k.take(j + 1)) <==> needs_boundary(k.take(j)) || text::ascii_alphanumeric(
            k[j],
        ),
{
    let a = k.take(j);
    let b = k.take(j + 1);
    if needs_boundary(a) {
        let m = choose|m: int| 0 <= m < a.len() && text::ascii_alphanumeric(#[trigger] a[m]);
        assert(b[m] == a[m]);
    }
    assert(b[j] == k[j]);
    if needs_boundary(b) {
        let m = choose|m: int| 0 <= m < b.len() && text::ascii_alphanumeric(#[trigger] b[m]);
        if m < j {
            assert(a[m] == b[m]);
        }
    }
}

// ── The dictionary in use ──────────────────────────────

/// The dictionary in use. It is read from its file when it is first needed.
pub struct UserDictionary {
    words: Dictionary,
    loaded: bool,
}

/// What the program does before the dictionary is first used.
#[derive(Debug, PartialEq, Eq, Structural)]
pub enum LoadPlan {
    /// Nothing: it has been read.
    Ready,
    /// Reads the file.
    Read,
    /// Writes a file without words, for the user to edit, and reads it.
    CreateAndRead,
}

impl View for UserDictionary {
    type V = Map<Seq<char>, Seq<char>>;

    closed spec fn view(&self) -> Map<Seq<char>, Seq<char>> {
        self.words@
    }
}

impl UserDictionary {
    /// No word stands in it twice.
    pub closed spec fn wf(self) -> bool {
        self.words.wf()
    }

    /// Whether it has been read from its file.
    pub closed spec fn is_loaded(self) -> bool {
        self.loaded
    }

    /// A dictionary that has not been read yet.
    pub fn new() -> (r: Self)
        ensures
            r.wf(),
            !r.is_loaded(),
            r@ == Map::<Seq<char>, Seq<char>>::empty(),
    {
        UserDictionary { words: Dictionary::new(), loaded: false }
    }

    /// What to do before the dictionary is used; `present` says whether its file is there.
    pub fn load_plan(&self, present: bool) -> (r: LoadPlan)
        ensures
            r == if self.is_loaded() {
                LoadPlan::Ready
            } else if present {
                LoadPlan::Read
            } else {
                LoadPlan::CreateAndRead
            },
    {
        if self.loaded {
            LoadPlan::Ready
        } else if present {
            LoadPlan::Read
        } else {
            LoadPlan::CreateAndRead
        }
    }

    /// Takes over what the file holds. Only the first reading counts.
    pub fn load(&mut self, words: Dictionary)
        requires
            old(self).wf(),
            words.wf(),
        ensures
            final(self).wf(),
            final(self).is_loaded(),
            final(self)@ == if old(self).is_loaded() {
                old(self)@
            } else {
                words@
            },
    {
        if !self.loaded {
            self.words = words;
            self.loaded = true;
        }
    }

    /// Puts other words into use, once they have been written to the file; `saved` says whether that
    /// went well. Where it did not, nothing changes.
    pub fn store(&mut self, words: Dictionary, saved: Result<(), String>) -> (r: Result<
        (),
        String,
    >)
        requires
            old(self).wf(),
            words.wf(),
        ensures
            final(self).wf(),
            final(self).is_loaded() == old(self).is_loaded(),
            r == saved,
            final(self)@ == if saved is Ok {
                words@
            } else {
                old(self)@
            },
    {
        if saved.is_ok() {
            self.words = words;
        }
        saved
    }

    /// The words in use.
    pub fn words(&self) -> (r: &Dictionary)
        requires
            self.wf(),
        ensures
            r.wf(),
            r@ == self@,
    {
        &self.words
    }
}

// ── Laws ───────────────────────────────────────────────

/// The characters of words are the ASCII letters and digits, and the underscore.
pub proof fn word_characters_are_known(c: char)
    ensures
        word_char(c) <==> 48 <= c as int <= 57 || 65 <= c as int <= 90 || c as int == 95 || 97 <= c
            as int <= 122,
{
}

/// Whether an ASCII letter or digit stands in a text.
pub open spec fn has_ascii(k: Seq<char>) -> bool {
    exists|j: int| #![trigger k[j]]
        0 <= j < k.len() && (48 <= k[j] as int <= 57 || 65 <= k[j] as int <= 90 || 97 <= k[j] as int
            <= 122)
}

/// Whether a character may stand beside a word with an ASCII letter or digit.
pub open spec fn parts_words(c: char) -> bool {
    !(48 <= c as int <= 57 || 65 <= c as int <= 90 || c as int == 95 || 97 <= c as int <= 122)
}

/// Whether the word `k` of a dictionary stands in `s` at `i`: the characters are the same, and where
/// the word has an ASCII letter or digit, it is no part of a longer one.
pub open spec fn stands_at(
    d: Map<Seq<char>, Seq<char>>,
    s: Seq<char>,
    i: int,
    k: Seq<char>,
) -> bool {
    &&& d.contains_key(k)
    &&& 0 < k.len()
    &&& 0 <= i
    &&& i + k.len() <= s.len()
    &&& forall|j: int| 0 <= j < k.len() ==> #[trigger] k[j] == s[i + j]
    &&& has_ascii(k) ==> (i == 0 || parts_words(s[i - 1])) && (i + k.len() == s.len()
        || parts_words(s[i + k.len()]))
}

proof fn lemma_has_ascii(k: Seq<char>)
    ensures
        has_ascii(k) <==> needs_boundary(k),
{
    if has_ascii(k) {
        let j = choose|j: int| #![trigger k[j]]
            0 <= j < k.len() && (48 <= k[j] as int <= 57 || 65 <= k[j] as int <= 90 || 97 <= k[j]
                as int <= 122);
        assert(text::ascii_alphanumeric(k[j]));
    }
    if needs_boundary(k) {
        let j = choose|j: int| 0 <= j < k.len() && text::ascii_alphanumeric(#[trigger] k[j]);
        assert(48 <= k[j] as int <= 57 || 65 <= k[j] as int <= 90 || 97 <= k[j] as int <= 122);
    }
}

proof fn lemma_stands_fits(d: Map<Seq<char>, Seq<char>>, s: Seq<char>, i: int, k: Seq<char>)
    requires
        0 <= i,
        i + k.len() <= s.len(),
    ensures
        stands_at(d, s, i, k) <==> fits(d, s, i, k.len() as int) && k == s.subrange(
            i,
            i + k.len(),
        ),
{
    lemma_has_ascii(k);
    let sub = s.subrange(i, i + k.len());
    if stands_at(d, s, i, k) {
        assert(k =~= sub);
    }
    if k == sub {
        assert forall|j: int| 0 <= j < k.len() implies #[trigger] k[j] == s[i + j] by {
            assert(sub[j] == s[i + j]);
        }
    }
}

/// What matches at a place is a word that stands there, and no longer one does; nothing matches where
/// none stands there.
pub proof fn lemma_match_is_longest(d: Map<Seq<char>, Seq<char>>, s: Seq<char>, i: int)
    requires
        0 <= i < s.len(),
    ensures
        ({
            let l = match_len(d, s, i);
            &&& 0 <= l <= s.len() - i
            &&& l > 0 ==> stands_at(d, s, i, s.subrange(i, i + l))
            &&& forall|k: Seq<char>| #[trigger] stands_at(d, s, i, k) ==> k.len() <= l
        }),
{
    lemma_longest(d, s, i, s.len() - i);
    let l = match_len(d, s, i);
    if l > 0 {
        assert(s.subrange(i, i + l).len() == l);
        lemma_stands_fits(d, s, i, s.subrange(i, i + l));
    }
    assert forall|k: Seq<char>| #[trigger] stands_at(d, s, i, k) implies k.len() <= l by {
        lemma_stands_fits(d, s, i, k);
        longest_key_wins(d, s, i, k.len() as int);
    }
}

/// A match is a word that stands at the place, together with what it is replaced by; no longer word
/// stands there, and where there is no match, none does.
pub proof fn the_longest_word_matches(
    words: &Dictionary,
    s: &Vec<char>,
    i: usize,
    r: Option<(usize, &str)>,
)
    requires
        i < s@.len(),
        call_ensures(Dictionary::longest_match, (words, s, i), r),
    ensures
        match r {
            None => forall|k: Seq<char>| !#[trigger] stands_at(words@, s@, i as int, k),
            Some((l, v)) => {
                let k = s@.subrange(i as int, i + l);
                &&& stands_at(words@, s@, i as int, k)
                &&& v@ == words@[k]
                &&& forall|other: Seq<char>| #[trigger]
                    stands_at(words@, s@, i as int, other) ==> other.len() <= l
            },
        },
{
    lemma_match_is_longest(words@, s@, i as int);
}

proof fn lemma_collected_last(pairs: Seq<(String, String)>, i: int)
    requires
        0 <= i < pairs.len(),
        forall|j: int| i < j < pairs.len() ==> (#[trigger] pairs[j]).0@ != pairs[i].0@,
    ensures
        collected(pairs).contains_key(pairs[i].0@),
        collected(pairs)[pairs[i].0@] == pairs[i].1@,
    decreases pairs.len(),
{
    if i < pairs.len() - 1 {
        let before = pairs.drop_last();
        assert(pairs[pairs.len() - 1].0@ != pairs[i].0@);
        assert forall|j: int| i < j < before.len() implies (#[trigger] before[j]).0@
            != before[i].0@ by {
            assert(before[j] == pairs[j]);
        }
        lemma_collected_last(before, i);
        assert(before[i] == pairs[i]);
    }
}

proof fn lemma_collected_only(pairs: Seq<(String, String)>, k: Seq<char>)
    ensures
        collected(pairs).contains_key(k) ==> exists|i: int|
            0 <= i < pairs.len() && (#[trigger] pairs[i]).0@ == k,
    decreases pairs.len(),
{
    if pairs.len() > 0 && collected(pairs).contains_key(k) {
        lemma_collected_only(pairs.drop_last(), k);
        if collected(pairs.drop_last()).contains_key(k) {
            let i = choose|i: int|
                0 <= i < pairs.drop_last().len() && (#[trigger] pairs.drop_last()[i]).0@ == k;
            assert(pairs[i].0@ == k);
        } else {
            assert(pairs[pairs.len() - 1].0@ == k);
        }
    }
}

/// A dictionary holds the words of the pairs that it is made of and no others, and each word is
/// replaced as the last of its pairs has it.
pub proof fn the_last_pair_counts(pairs: Vec<(String, String)>, r: Dictionary, i: int)
    requires
        call_ensures(Dictionary::from_pairs, (pairs,), r),
        0 <= i < pairs@.len(),
        forall|j: int| i < j < pairs@.len() ==> (#[trigger] pairs@[j]).0@ != pairs@[i].0@,
    ensures
        r@.contains_key(pairs@[i].0@),
        r@[pairs@[i].0@] == pairs@[i].1@,
        forall|k: Seq<char>| #[trigger] r@.contains_key(k) ==> exists|j: int|
            0 <= j < pairs@.len() && (#[trigger] pairs@[j]).0@ == k,
{
    lemma_collected_last(pairs@, i);
    assert forall|k: Seq<char>| #[trigger] r@.contains_key(k) implies exists|j: int|
        0 <= j < pairs@.len() && (#[trigger] pairs@[j]).0@ == k by {
        lemma_collected_only(pairs@, k);
    }
}

/// Where words cannot be written to the file, those in use stay in use.
pub proof fn failed_storing_changes_nothing(
    u: &mut UserDictionary,
    words: Dictionary,
    e: String,
    r: Result<(), String>,
)
    requires
        call_ensures(UserDictionary::store, (u, words, Err(e)), r),
    ensures
        r == Err::<(), String>(e),
        final(u)@ == old(u)@,
        final(u).is_loaded() == old(u).is_loaded(),
{
}

/// What was stored is in use.
pub proof fn stored_words_are_used(
    u: &mut UserDictionary,
    words: Dictionary,
    r: Result<(), String>,
)
    requires
        call_ensures(UserDictionary::store, (u, words, Ok(())), r),
    ensures
        r is Ok,
        final(u)@ == words@,
{
}

/// The file is read once: its words are used where none were read before, and words that were read
/// before stay.
pub proof fn the_first_reading_counts(u: &mut UserDictionary, words: Dictionary)
    requires
        call_ensures(UserDictionary::load, (u, words), ()),
    ensures
        final(u).is_loaded(),
        !old(u).is_loaded() ==> final(u)@ == words@,
        old(u).is_loaded() ==> final(u)@ == old(u)@,
{
}

/// Before the first use the file is read, and made where it is not there; later nothing is done.
pub proof fn the_file_is_read_before_use(u: &UserDictionary, present: bool, r: LoadPlan)
    requires
        call_ensures(UserDictionary::load_plan, (u, present), r),
    ensures
        r is Ready <==> u.is_loaded(),
        r is CreateAndRead <==> !u.is_loaded() && !present,
{
}

/// A word that is put in is replaced as it was last put in, and the others stay as they are; a new
/// dictionary has no words.
pub proof fn words_are_put_in(
    new: Dictionary,
    d: &mut Dictionary,
    key: String,
    value: String,
    other: Seq<char>,
)
    requires
        call_ensures(Dictionary::new, (), new),
        call_ensures(Dictionary::insert, (d, key, value), ()),
        other != key@,
    ensures
        !new@.contains_key(other) && !new@.contains_key(key@),
        final(d)@.contains_key(key@) && final(d)@[key@] == value@,
        final(d)@.contains_key(other) <==> old(d)@.contains_key(other),
        old(d)@.contains_key(other) ==> final(d)@[other] == old(d)@[other],
{
}

/// The pairs that a dictionary is taken apart into make the same dictionary again.
pub proof fn pairs_make_the_dictionary_again(
    d: &Dictionary,
    pairs: Vec<(String, String)>,
    again: Dictionary,
)
    requires
        call_ensures(Dictionary::to_pairs, (d,), pairs),
        call_ensures(Dictionary::from_pairs, (pairs,), again),
    ensures
        again@ == d@,
{
}

/// Before its file is read, the dictionary in use has no words; the words that are handed out are those
/// in use.
pub proof fn the_words_in_use(new: UserDictionary, u: &UserDictionary, r: &Dictionary)
    requires
        call_ensures(UserDictionary::new, (), new),
        call_ensures(UserDictionary::words, (u,), r),
    ensures
        !new.is_loaded() && new@ == Map::<Seq<char>, Seq<char>>::empty(),
        r@ == u@,
{
}

} // verus!
