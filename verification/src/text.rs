//! Characters and strings.
//!
//! A string is modelled by the sequence of its characters. The functions below are the string
//! operations that the other modules are written with, each with its meaning on such sequences.

use vstd::prelude::*;

verus! {

/// `String::push` puts one character behind the characters that the string holds.
pub assume_specification[ String::push ](s: &mut String, c: char)
    ensures
        final(s)@ == old(s)@.push(c),
;

// ── Characters ─────────────────────────────────────────

/// The characters with the Unicode property `White_Space`.
pub open spec fn white_space(c: char) -> bool {
    let n = c as int;
    ||| 0x09 <= n <= 0x0d
    ||| n == 0x20
    ||| n == 0x85
    ||| n == 0xa0
    ||| n == 0x1680
    ||| 0x2000 <= n <= 0x200a
    ||| n == 0x2028
    ||| n == 0x2029
    ||| n == 0x202f
    ||| n == 0x205f
    ||| n == 0x3000
}

/// Whether `c` is white space.
pub fn is_white_space(c: char) -> (r: bool)
    ensures
        r == white_space(c),
{
    let n: u32 = c as u32;
    (0x09 <= n && n <= 0x0d) || n == 0x20 || n == 0x85 || n == 0xa0 || n == 0x1680 || (0x2000 <= n
        && n <= 0x200a) || n == 0x2028 || n == 0x2029 || n == 0x202f || n == 0x205f || n == 0x3000
}

/// The ASCII letters and digits.
pub open spec fn ascii_alphanumeric(c: char) -> bool {
    ||| '0' <= c <= '9'
    ||| 'A' <= c <= 'Z'
    ||| 'a' <= c <= 'z'
}

/// Whether `c` is an ASCII letter or digit.
pub fn is_ascii_alphanumeric(c: char) -> (r: bool)
    ensures
        r == ascii_alphanumeric(c),
{
    ('0' <= c && c <= '9') || ('A' <= c && c <= 'Z') || ('a' <= c && c <= 'z')
}

// ── Conversions ────────────────────────────────────────

/// The characters of each of the strings.
pub open spec fn texts(v: Seq<String>) -> Seq<Seq<char>> {
    Seq::new(v.len(), |i: int| v[i]@)
}

/// The characters of a string, where there is one.
pub open spec fn opt(s: Option<String>) -> Option<Seq<char>> {
    match s {
        Some(s) => Some(s@),
        None => None,
    }
}

/// The characters of `s`, in order.
pub fn chars_of(s: &str) -> (v: Vec<char>)
    ensures
        v@ == s@,
{
    let mut v: Vec<char> = Vec::new();
    for c in it: s.chars()
        invariant
            v@ == s@.take(it.index() as int),
            it.seq() == s@,
    {
        v.push(c);
    }
    v
}

/// The string of the characters of `v` from index `from` up to, not including, `to`.
pub fn string_range(v: &Vec<char>, from: usize, to: usize) -> (s: String)
    requires
        from <= to <= v.len(),
    ensures
        s@ == v@.subrange(from as int, to as int),
{
    let mut s = String::new();
    let mut i: usize = from;
    while i < to
        invariant
            from <= i <= to <= v.len(),
            s@ == v@.subrange(from as int, i as int),
        decreases to - i,
    {
        s.push(v[i]);
        i = i + 1;
    }
    s
}

/// Whether two strings hold the same characters.
pub fn same_text(a: &str, b: &str) -> (r: bool)
    ensures
        r == (a@ == b@),
{
    a.to_owned() == b.to_owned()
}

// ── Trimming ───────────────────────────────────────────

/// `s` without the white space that it begins with.
pub open spec fn trim_start(s: Seq<char>) -> Seq<char>
    decreases s.len(),
{
    if s.len() > 0 && white_space(s.first()) {
        trim_start(s.drop_first())
    } else {
        s
    }
}

/// `s` without the white space that it ends with.
pub open spec fn trim_end(s: Seq<char>) -> Seq<char>
    decreases s.len(),
{
    if s.len() > 0 && white_space(s.last()) {
        trim_end(s.drop_last())
    } else {
        s
    }
}

/// `s` without the white space at either end.
pub open spec fn trim(s: Seq<char>) -> Seq<char> {
    trim_end(trim_start(s))
}

/// Where the characters of `v` from `from` on end once the white space behind them is left out.
fn trimmed_end(v: &Vec<char>, from: usize) -> (to: usize)
    requires
        from <= v.len(),
    ensures
        from <= to <= v.len(),
        v@.subrange(from as int, to as int) == trim_end(v@.skip(from as int)),
{
    let mut to: usize = v.len();
    assert(v@.skip(from as int) == v@.subrange(from as int, to as int));
    while to > from && is_white_space(v[to - 1])
        invariant
            from <= to <= v.len(),
            trim_end(v@.skip(from as int)) == trim_end(v@.subrange(from as int, to as int)),
        decreases to,
    {
        let ghost cut = v@.subrange(from as int, to as int);
        assert(cut.drop_last() == v@.subrange(from as int, to - 1));
        to = to - 1;
    }
    let ghost cut = v@.subrange(from as int, to as int);
    assert(cut.len() > 0 ==> cut.last() == v@[to - 1]);
    to
}

/// A copy of `s` without the white space at either end.
pub fn trimmed(s: &str) -> (r: String)
    ensures
        r@ == trim(s@),
{
    let v = chars_of(s);
    let mut from: usize = 0;
    assert(v@ == v@.skip(0));
    while from < v.len() && is_white_space(v[from])
        invariant
            from <= v.len(),
            trim_start(v@) == trim_start(v@.skip(from as int)),
        decreases v.len() - from,
    {
        assert(v@.skip(from as int).drop_first() == v@.skip(from + 1));
        from = from + 1;
    }
    let to = trimmed_end(&v, from);
    string_range(&v, from, to)
}

/// A copy of `s` without the white space that it ends with.
pub fn end_trimmed(s: &str) -> (r: String)
    ensures
        r@ == trim_end(s@),
{
    let v = chars_of(s);
    assert(v@.skip(0) == v@);
    let to = trimmed_end(&v, 0);
    string_range(&v, 0, to)
}

// ── Joining ────────────────────────────────────────────

/// The parts one after the other, with `sep` between each two of them.
pub open spec fn joined(parts: Seq<Seq<char>>, sep: Seq<char>) -> Seq<char>
    decreases parts.len(),
{
    if parts.len() == 0 {
        Seq::empty()
    } else if parts.len() == 1 {
        parts[0]
    } else {
        joined(parts.drop_last(), sep) + sep + parts.last()
    }
}

/// Joins the strings of `parts` from index `from` up to, not including, `to`.
pub fn join(parts: &Vec<String>, from: usize, to: usize, sep: &str) -> (r: String)
    requires
        from <= to <= parts.len(),
    ensures
        r@ == joined(texts(parts@).subrange(from as int, to as int), sep@),
{
    let mut r = String::new();
    let mut i: usize = from;
    while i < to
        invariant
            from <= i <= to <= parts.len(),
            r@ == joined(texts(parts@).subrange(from as int, i as int), sep@),
        decreases to - i,
    {
        let ghost before = texts(parts@).subrange(from as int, i as int);
        let ghost after = texts(parts@).subrange(from as int, i + 1);
        assert(after.drop_last() == before);
        assert(after.last() == parts@[i as int]@);
        if i > from {
            r.append(sep);
        }
        r.append(parts[i].as_str());
        i = i + 1;
    }
    r
}

/// Joining goes through concatenation.
pub proof fn lemma_joined_add(a: Seq<Seq<char>>, b: Seq<Seq<char>>, sep: Seq<char>)
    requires
        a.len() > 0,
        b.len() > 0,
    ensures
        joined(a + b, sep) == joined(a, sep) + sep + joined(b, sep),
    decreases b.len(),
{
    assert((a + b).drop_last() =~= a + b.drop_last());
    if b.len() == 1 {
        assert(a + b.drop_last() =~= a);
    } else {
        lemma_joined_add(a, b.drop_last(), sep);
        assert(joined(a + b, sep) =~= joined(a, sep) + sep + joined(b, sep));
    }
}

// ── What is left without white space ───────────────────

/// The characters of `s` that are not white space, in order.
pub open spec fn visible(s: Seq<char>) -> Seq<char>
    decreases s.len(),
{
    if s.len() == 0 {
        Seq::empty()
    } else if white_space(s.last()) {
        visible(s.drop_last())
    } else {
        visible(s.drop_last()).push(s.last())
    }
}

/// The characters of all the parts that are not white space, in order.
pub open spec fn visible_all(parts: Seq<Seq<char>>) -> Seq<char>
    decreases parts.len(),
{
    if parts.len() == 0 {
        Seq::empty()
    } else {
        visible_all(parts.drop_last()) + visible(parts.last())
    }
}

/// One more character.
pub proof fn lemma_visible_push(s: Seq<char>, c: char)
    ensures
        visible(s.push(c)) == if white_space(c) {
            visible(s)
        } else {
            visible(s).push(c)
        },
{
    assert(s.push(c).drop_last() == s);
}

/// One more part.
pub proof fn lemma_visible_all_push(parts: Seq<Seq<char>>, last: Seq<char>)
    ensures
        visible_all(parts.push(last)) == visible_all(parts) + visible(last),
{
    assert(parts.push(last).drop_last() == parts);
}

/// `visible` goes through concatenation.
pub proof fn lemma_visible_add(a: Seq<char>, b: Seq<char>)
    ensures
        visible(a + b) == visible(a) + visible(b),
    decreases b.len(),
{
    if b.len() == 0 {
        assert(a + b == a);
    } else {
        assert((a + b).drop_last() == a + b.drop_last());
        lemma_visible_add(a, b.drop_last());
    }
}

/// `visible_all` goes through concatenation.
pub proof fn lemma_visible_all_add(a: Seq<Seq<char>>, b: Seq<Seq<char>>)
    ensures
        visible_all(a + b) == visible_all(a) + visible_all(b),
    decreases b.len(),
{
    if b.len() == 0 {
        assert(a + b == a);
    } else {
        assert((a + b).drop_last() == a + b.drop_last());
        lemma_visible_all_add(a, b.drop_last());
    }
}

/// Trimming the end takes away white space only.
pub proof fn lemma_visible_trim_end(s: Seq<char>)
    ensures
        visible(trim_end(s)) == visible(s),
    decreases s.len(),
{
    if s.len() > 0 && white_space(s.last()) {
        lemma_visible_trim_end(s.drop_last());
    }
}

proof fn lemma_visible_trim_start(s: Seq<char>)
    ensures
        visible(trim_start(s)) == visible(s),
    decreases s.len(),
{
    if s.len() > 0 && white_space(s.first()) {
        lemma_visible_trim_start(s.drop_first());
        lemma_visible_add(s.take(1), s.drop_first());
        lemma_visible_push(Seq::empty(), s.first());
        assert(s.take(1) == Seq::<char>::empty().push(s.first()));
        assert(s.take(1) + s.drop_first() == s);
        assert(visible(s) =~= visible(s.drop_first()));
    }
}

/// Trimming takes away white space only.
pub proof fn lemma_visible_trim(s: Seq<char>)
    ensures
        visible(trim(s)) == visible(s),
{
    lemma_visible_trim_start(s);
    lemma_visible_trim_end(trim_start(s));
}

/// A text that is not blank shows something.
pub proof fn lemma_visible_nonblank(s: Seq<char>)
    ensures
        trim(s).len() > 0 <==> visible(s).len() > 0,
{
    lemma_visible_trim(s);
    lemma_trim_end_done(trim_start(s));
}

/// Joining with a blank separator keeps what the parts show.
pub proof fn lemma_visible_joined(parts: Seq<Seq<char>>, sep: Seq<char>)
    requires
        visible(sep).len() == 0,
    ensures
        visible(joined(parts, sep)) == visible_all(parts),
    decreases parts.len(),
{
    if parts.len() == 1 {
        assert(visible_all(parts.drop_last()) == Seq::<char>::empty());
        assert(visible_all(parts) == visible(parts[0]));
    } else if parts.len() > 1 {
        lemma_visible_joined(parts.drop_last(), sep);
        lemma_visible_add(joined(parts.drop_last(), sep), sep);
        lemma_visible_add(joined(parts.drop_last(), sep) + sep, parts.last());
    }
}

proof fn lemma_trim_end_first(s: Seq<char>)
    requires
        s.len() > 0,
        !white_space(s.first()),
    ensures
        trim_end(s).len() > 0,
        trim_end(s).first() == s.first(),
    decreases s.len(),
{
    if white_space(s.last()) {
        assert(s.drop_last().first() == s.first());
        lemma_trim_end_first(s.drop_last());
    }
}

proof fn lemma_trim_start_done(s: Seq<char>)
    ensures
        trim_start(s).len() > 0 ==> !white_space(trim_start(s).first()),
    decreases s.len(),
{
    if s.len() > 0 && white_space(s.first()) {
        lemma_trim_start_done(s.drop_first());
    }
}

proof fn lemma_trim_end_done(s: Seq<char>)
    ensures
        trim_end(s).len() > 0 ==> !white_space(trim_end(s).last()),
        trim_end(trim_end(s)) == trim_end(s),
    decreases s.len(),
{
    if s.len() > 0 && white_space(s.last()) {
        lemma_trim_end_done(s.drop_last());
    }
}

/// What is trimmed stays as it is when trimmed again.
pub proof fn lemma_trim_twice(s: Seq<char>)
    ensures
        trim(trim(s)) == trim(s),
{
    lemma_trim_start_done(s);
    lemma_trim_end_done(trim_start(s));
    if trim_start(s).len() > 0 {
        lemma_trim_end_first(trim_start(s));
    }
}

/// A text that trimming leaves as it is has no white space at an end.
pub proof fn lemma_trim_fixed(s: Seq<char>)
    requires
        trim(s) == s,
    ensures
        s.len() > 0 ==> !white_space(s.first()) && !white_space(s.last()),
        trim_end(s) == s,
{
    lemma_trim_start_done(s);
    lemma_trim_end_done(trim_start(s));
    if trim_start(s).len() > 0 {
        lemma_trim_end_first(trim_start(s));
    }
}

/// A text with no white space at an end is left as it is by trimming.
pub proof fn lemma_trim_fixed_by_ends(s: Seq<char>)
    requires
        s.len() > 0 ==> !white_space(s.first()) && !white_space(s.last()),
    ensures
        trim(s) == s,
{
}

/// What trimming leaves is a part of the text.
pub proof fn lemma_trim_is_part(s: Seq<char>) -> (r: (int, int))
    ensures
        0 <= r.0 <= r.1 <= s.len(),
        trim(s) == s.subrange(r.0, r.1),
{
    let from = lemma_trim_start_is_part(s);
    let to = lemma_trim_end_is_part(s.skip(from));
    assert(s.skip(from).take(to) =~= s.subrange(from, from + to));
    (from, from + to)
}

proof fn lemma_trim_start_is_part(s: Seq<char>) -> (from: int)
    ensures
        0 <= from <= s.len(),
        trim_start(s) == s.skip(from),
    decreases s.len(),
{
    if s.len() > 0 && white_space(s.first()) {
        let rest = lemma_trim_start_is_part(s.drop_first());
        assert(s.drop_first().skip(rest) =~= s.skip(rest + 1));
        rest + 1
    } else {
        assert(s.skip(0) =~= s);
        0
    }
}

proof fn lemma_trim_end_is_part(s: Seq<char>) -> (to: int)
    ensures
        0 <= to <= s.len(),
        trim_end(s) == s.take(to),
    decreases s.len(),
{
    if s.len() > 0 && white_space(s.last()) {
        let to = lemma_trim_end_is_part(s.drop_last());
        assert(s.drop_last().take(to) =~= s.take(to));
        to
    } else {
        assert(s.take(s.len() as int) =~= s);
        s.len() as int
    }
}

/// Trimming puts no character in.
pub proof fn lemma_trim_within(s: Seq<char>, c: char)
    ensures
        trim(s).contains(c) ==> s.contains(c),
{
    let (from, to) = lemma_trim_is_part(s);
    if trim(s).contains(c) {
        let i = choose|i: int| 0 <= i < trim(s).len() && trim(s)[i] == c;
        assert(s[from + i] == c);
    }
}

proof fn lemma_trim_start_last(s: Seq<char>)
    requires
        s.len() > 0,
        !white_space(s.last()),
    ensures
        trim_start(s).len() > 0,
        trim_start(s).last() == s.last(),
    decreases s.len(),
{
    if white_space(s.first()) {
        assert(s.drop_first().last() == s.last());
        lemma_trim_start_last(s.drop_first());
    }
}

/// Trimming keeps a last character that is not white space.
pub proof fn lemma_trim_keeps_last(s: Seq<char>)
    requires
        s.len() > 0,
        !white_space(s.last()),
    ensures
        trim(s).len() > 0,
        trim(s).last() == s.last(),
{
    lemma_trim_start_last(s);
}

// ── Decimal numbers ────────────────────────────────────

/// The character of the digit `d`.
pub open spec fn digit(d: int) -> char {
    seq!['0', '1', '2', '3', '4', '5', '6', '7', '8', '9'][d]
}

/// The decimal digits of `n`, with no zeros in front.
pub open spec fn decimal(n: nat) -> Seq<char>
    decreases n,
{
    if n < 10 {
        seq![digit(n as int)]
    } else {
        decimal(n / 10).push(digit((n % 10) as int))
    }
}

/// `decimal(n)` behind as many zeros as it takes to be at least `width` long.
pub open spec fn padded(n: nat, width: nat) -> Seq<char> {
    let d = decimal(n);
    if d.len() >= width {
        d
    } else {
        Seq::new((width - d.len()) as nat, |i: int| '0') + d
    }
}

fn digit_char(d: u64) -> (c: char)
    requires
        d < 10,
    ensures
        c == digit(d as int),
{
    match d {
        0 => '0',
        1 => '1',
        2 => '2',
        3 => '3',
        4 => '4',
        5 => '5',
        6 => '6',
        7 => '7',
        8 => '8',
        _ => '9',
    }
}

/// Appends the decimal digits of `n`.
pub fn append_decimal(s: &mut String, n: u64)
    ensures
        final(s)@ == old(s)@ + decimal(n as nat),
    decreases n,
{
    if n >= 10 {
        append_decimal(s, n / 10);
    }
    s.push(digit_char(n % 10));
}

/// Appends the decimal digits of `n`, with zeros in front up to `width`.
pub fn append_padded(s: &mut String, n: u64, width: usize)
    ensures
        final(s)@ == old(s)@ + padded(n as nat, width as nat),
{
    let mut d = String::new();
    append_decimal(&mut d, n);
    let len = d.as_str().unicode_len();
    let mut i: usize = len;
    while i < width
        invariant
            i <= width || i == len,
            len <= i,
            s@ == old(s)@ + Seq::new((i - len) as nat, |k: int| '0'),
        decreases width - i,
    {
        s.push('0');
        i = i + 1;
    }
    s.append(d.as_str());
}

// ── Laws ───────────────────────────────────────────────

/// White space is the twenty-five characters that Unicode counts as such.
pub proof fn white_space_is_known(c: char)
    ensures
        white_space(c) <==> seq![
            0x09int, 0x0a, 0x0b, 0x0c, 0x0d, 0x20, 0x85, 0xa0, 0x1680, 0x2000, 0x2001, 0x2002, 0x2003,
            0x2004, 0x2005, 0x2006, 0x2007, 0x2008, 0x2009, 0x200a, 0x2028, 0x2029, 0x202f, 0x205f,
            0x3000,
        ].contains(c as int),
{
    let n = c as int;
    let all = seq![
        0x09int, 0x0a, 0x0b, 0x0c, 0x0d, 0x20, 0x85, 0xa0, 0x1680, 0x2000, 0x2001, 0x2002, 0x2003,
        0x2004, 0x2005, 0x2006, 0x2007, 0x2008, 0x2009, 0x200a, 0x2028, 0x2029, 0x202f, 0x205f,
        0x3000,
    ];
    let at = if n <= 0x0d {
        n - 0x09
    } else if n == 0x20 {
        5
    } else if n == 0x85 {
        6
    } else if n == 0xa0 {
        7
    } else if n == 0x1680 {
        8
    } else if n <= 0x200a {
        9 + n - 0x2000
    } else if n == 0x2028 {
        20
    } else if n == 0x2029 {
        21
    } else if n == 0x202f {
        22
    } else if n == 0x205f {
        23
    } else {
        24
    };
    if white_space(c) {
        assert(all[at] == n);
    }
}

/// The ASCII letters and digits are those between 0 and 9, A and Z, a and z.
pub proof fn ascii_is_known(c: char)
    ensures
        ascii_alphanumeric(c) <==> 48 <= c as int <= 57 || 65 <= c as int <= 90 || 97 <= c as int
            <= 122,
{
}

/// Nothing but white space.
pub open spec fn blank(s: Seq<char>) -> bool {
    forall|i: int| 0 <= i < s.len() ==> white_space(#[trigger] s[i])
}

proof fn lemma_trim_start_blank(s: Seq<char>) -> (from: int)
    ensures
        0 <= from <= s.len(),
        trim_start(s) == s.skip(from),
        blank(s.take(from)),
    decreases s.len(),
{
    if s.len() > 0 && white_space(s.first()) {
        let rest = lemma_trim_start_blank(s.drop_first());
        assert(s.drop_first().skip(rest) =~= s.skip(rest + 1));
        assert forall|i: int| 0 <= i < rest + 1 implies white_space(
            #[trigger] s.take(rest + 1)[i],
        ) by {
            if i > 0 {
                assert(s.drop_first().take(rest)[i - 1] == s[i]);
            }
        }
        rest + 1
    } else {
        assert(s.skip(0) =~= s);
        0
    }
}

proof fn lemma_trim_end_blank(s: Seq<char>) -> (to: int)
    ensures
        0 <= to <= s.len(),
        trim_end(s) == s.take(to),
        blank(s.skip(to)),
    decreases s.len(),
{
    if s.len() > 0 && white_space(s.last()) {
        let to = lemma_trim_end_blank(s.drop_last());
        assert(s.drop_last().take(to) =~= s.take(to));
        assert forall|i: int| 0 <= i < s.len() - to implies white_space(
            #[trigger] s.skip(to)[i],
        ) by {
            if to + i < s.len() - 1 {
                assert(s.drop_last().skip(to)[i] == s[to + i]);
            }
        }
        to
    } else {
        assert(s.take(s.len() as int) =~= s);
        s.len() as int
    }
}

/// Trimming takes away white space at the ends, all of it, and nothing else.
pub proof fn trimming_is_exact(s: Seq<char>)
    ensures
        exists|from: int, to: int|
            0 <= from <= to <= s.len() && trim(s) == #[trigger] s.subrange(from, to) && blank(
                s.take(from),
            ) && blank(s.skip(to)),
        trim(s).len() > 0 ==> !white_space(trim(s).first()) && !white_space(trim(s).last()),
        exists|to: int|
            0 <= to <= s.len() && trim_end(s) == #[trigger] s.take(to) && blank(s.skip(to)),
        trim_end(s).len() > 0 ==> !white_space(trim_end(s).last()),
{
    let from = lemma_trim_start_blank(s);
    let t = s.skip(from);
    let n = lemma_trim_end_blank(t);
    assert(t.take(n) =~= s.subrange(from, from + n));
    assert(t.skip(n) =~= s.skip(from + n));
    lemma_trim_twice(s);
    lemma_trim_fixed(trim(s));
    let to = lemma_trim_end_blank(s);
    lemma_trim_end_done(s);
}

/// What trimming leaves of a text, by how it is put together: white space round a text without any at
/// its ends is taken away.
pub proof fn trimming_finds_the_text(before: Seq<char>, s: Seq<char>, behind: Seq<char>)
    requires
        blank(before),
        blank(behind),
        s.len() > 0 ==> !white_space(s.first()) && !white_space(s.last()),
    ensures
        trim(before + s + behind) == s,
    decreases before.len() + behind.len(),
{
    let all = before + s + behind;
    if before.len() > 0 {
        assert(white_space(before[0]));
        let rest = before.drop_first();
        assert forall|i: int| 0 <= i < rest.len() implies white_space(#[trigger] rest[i]) by {
            assert(rest[i] == before[i + 1]);
        }
        trimming_finds_the_text(rest, s, behind);
        assert(all.drop_first() =~= rest + s + behind);
    } else if behind.len() > 0 {
        let rest = behind.drop_last();
        assert(white_space(behind[behind.len() - 1]));
        assert forall|i: int| 0 <= i < rest.len() implies white_space(#[trigger] rest[i]) by {
            assert(rest[i] == behind[i]);
        }
        trimming_finds_the_text(before, s, rest);
        if s.len() > 0 {
            assert(all.first() == s.first());
            assert(all.drop_last() =~= before + s + rest);
            assert(all.drop_last().first() == s.first());
        } else {
            lemma_trim_blank(all);
        }
    } else {
        assert(all =~= s);
        lemma_trim_fixed_by_ends(s);
    }
}

proof fn lemma_trim_blank(s: Seq<char>)
    requires
        blank(s),
    ensures
        trim(s) == Seq::<char>::empty(),
    decreases s.len(),
{
    if s.len() > 0 {
        assert(white_space(s[0]));
        assert forall|i: int| 0 <= i < s.drop_first().len() implies white_space(
            #[trigger] s.drop_first()[i],
        ) by {
            assert(s.drop_first()[i] == s[i + 1]);
        }
        lemma_trim_blank(s.drop_first());
    } else {
        assert(trim(s) =~= Seq::<char>::empty());
    }
}

/// White space in front of a text and behind it makes no difference to what trimming leaves.
pub proof fn lemma_trim_padding(s: Seq<char>, w: char)
    requires
        white_space(w),
    ensures
        trim(s.push(w)) == trim(s),
        trim(seq![w] + s) == trim(s),
{
    let from = lemma_trim_start_blank(s);
    let n = lemma_trim_end_blank(s.skip(from));
    let t = trim(s);
    let before = s.take(from);
    let behind = s.skip(from + n);
    assert(s.skip(from).skip(n) =~= behind);
    assert(s =~= before + t + behind);
    lemma_trim_twice(s);
    lemma_trim_fixed(t);
    assert forall|i: int| 0 <= i < behind.push(w).len() implies white_space(
        #[trigger] behind.push(w)[i],
    ) by {
        if i < behind.len() {
            assert(behind[i] == behind.push(w)[i]);
        }
    }
    trimming_finds_the_text(before, t, behind.push(w));
    assert(s.push(w) =~= before + t + behind.push(w));
    assert((seq![w] + s).drop_first() =~= s);
}

/// What a text shows is its characters but for white space.
pub proof fn visible_is_the_rest(s: Seq<char>)
    ensures
        visible(s) == s.filter(|c: char| !white_space(c)),
    decreases s.len(),
{
    reveal(Seq::filter);
    if s.len() > 0 {
        visible_is_the_rest(s.drop_last());
    }
}

/// Joining puts the separator between the parts and nowhere else.
pub proof fn joining_separates(a: Seq<char>, b: Seq<char>, sep: Seq<char>)
    ensures
        joined(Seq::empty(), sep) == Seq::<char>::empty(),
        joined(seq![a], sep) == a,
        joined(seq![a, b], sep) == a + sep + b,
{
    assert(seq![a, b].drop_last() =~= seq![a]);
    assert(joined(seq![a], sep) == a);
}

/// The number that decimal digits are read as.
pub open spec fn number_of(digits: Seq<char>) -> int
    decreases digits.len(),
{
    if digits.len() == 0 {
        0
    } else {
        10 * number_of(digits.drop_last()) + (digits.last() as int - 48)
    }
}

/// Nothing but decimal digits.
pub open spec fn all_digits(s: Seq<char>) -> bool {
    forall|i: int| 0 <= i < s.len() ==> 48 <= (#[trigger] s[i]) as int <= 57
}

/// The digits of a number are read back as the number, and the first one is no zero, but for that of
/// zero itself.
pub proof fn digits_read_back(n: nat)
    ensures
        decimal(n).len() > 0,
        all_digits(decimal(n)),
        number_of(decimal(n)) == n,
        decimal(n).len() > 1 ==> decimal(n)[0] != '0',
    decreases n,
{
    assert(number_of(Seq::<char>::empty()) == 0);
    if n < 10 {
        assert(decimal(n).drop_last() =~= Seq::<char>::empty());
    } else {
        let before = decimal(n / 10);
        digits_read_back(n / 10);
        assert(decimal(n).drop_last() =~= before);
        assert(decimal(n)[0] == before[0]);
        assert forall|i: int| 0 <= i < decimal(n).len() implies 48 <= (
        #[trigger] decimal(n)[i]) as int <= 57 by {
            if i < before.len() {
                assert(decimal(n)[i] == before[i]);
            }
        }
        if before.len() == 1 {
            assert(before.drop_last() =~= Seq::<char>::empty());
            assert(number_of(before) == before[0] as int - 48);
        }
    }
}

proof fn lemma_zeros_in_front(k: nat, d: Seq<char>)
    ensures
        number_of(Seq::new(k, |i: int| '0') + d) == number_of(d),
    decreases d.len() + k,
{
    let zeros = Seq::new(k, |i: int| '0');
    if d.len() > 0 {
        lemma_zeros_in_front(k, d.drop_last());
        assert((zeros + d).drop_last() =~= zeros + d.drop_last());
    } else if k > 0 {
        lemma_zeros_in_front((k - 1) as nat, d);
        assert((zeros + d).drop_last() =~= Seq::new((k - 1) as nat, |i: int| '0') + d);
    } else {
        assert(zeros + d =~= d);
    }
}

/// Zeros in front do not change the number, and there are just enough of them.
pub proof fn padding_keeps_the_number(n: nat, width: nat)
    ensures
        all_digits(padded(n, width)),
        number_of(padded(n, width)) == n,
        padded(n, width).len() >= width,
        padded(n, width).len() > width ==> padded(n, width) == decimal(n),
{
    digits_read_back(n);
    let d = decimal(n);
    if d.len() < width {
        lemma_zeros_in_front((width - d.len()) as nat, d);
    }
}

/// Trimming leaves nothing of a text exactly where it is blank.
pub proof fn lemma_blank_trimmed(s: Seq<char>)
    ensures
        blank(s) <==> trim(s).len() == 0,
{
    if blank(s) {
        lemma_trim_blank(s);
    } else {
        let i = choose|i: int| 0 <= i < s.len() && !white_space(#[trigger] s[i]);
        trimming_is_exact(s);
        let (from, to) = choose|from: int, to: int|
            0 <= from <= to <= s.len() && trim(s) == #[trigger] s.subrange(from, to) && blank(
                s.take(from),
            ) && blank(s.skip(to));
        if i < from {
            assert(white_space(s.take(from)[i]));
        }
        if i >= to {
            assert(white_space(s.skip(to)[i - to]));
        }
    }
}

/// The characters of a string are handed out in order, a range of them makes the string that stands
/// there, and two strings are the same where all their characters are.
pub proof fn strings_are_their_characters(
    s: &str,
    v: Vec<char>,
    from: usize,
    to: usize,
    part: String,
    t: &str,
    same: bool,
)
    requires
        from <= to <= v@.len(),
        call_ensures(chars_of, (s,), v),
        call_ensures(string_range, (&v, from, to), part),
        call_ensures(same_text, (s, t), same),
    ensures
        v@ == s@,
        part@ == s@.subrange(from as int, to as int),
        same <==> s@ == t@,
{
}

/// A number goes behind a string in its digits, with zeros in front where a width is asked for.
pub proof fn numbers_are_appended(
    s: &mut String,
    t: &mut String,
    n: u64,
    width: usize,
)
    requires
        call_ensures(append_decimal, (s, n), ()),
        call_ensures(append_padded, (t, n, width), ()),
    ensures
        old(s)@.is_prefix_of(final(s)@),
        number_of(final(s)@.skip(old(s)@.len() as int)) == n,
        old(t)@.is_prefix_of(final(t)@),
        number_of(final(t)@.skip(old(t)@.len() as int)) == n,
        final(t)@.len() >= old(t)@.len() + width,
{
    digits_read_back(n as nat);
    padding_keeps_the_number(n as nat, width as nat);
    assert(final(s)@.skip(old(s)@.len() as int) =~= decimal(n as nat));
    assert(final(t)@.skip(old(t)@.len() as int) =~= padded(n as nat, width as nat));
    assert(old(s)@ =~= final(s)@.subrange(0, old(s)@.len() as int));
    assert(old(t)@ =~= final(t)@.subrange(0, old(t)@.len() as int));
}

} // verus!
