//! The windows to choose from.

use vstd::prelude::*;
use crate::text;
use crate::text::{append_decimal, chars_of, string_range};

verus! {

/// A window: its handle, its title, and the name and number of its process.
#[derive(Debug, Clone)]
pub struct WindowInfo {
    pub hwnd: usize,
    pub title: String,
    pub process_name: String,
    pub pid: u32,
}

/// What a [`WindowInfo`] holds.
#[verifier::ext_equal]
pub struct Window {
    pub hwnd: usize,
    pub title: Seq<char>,
    pub process: Seq<char>,
    pub pid: u32,
}

impl View for WindowInfo {
    type V = Window;

    open spec fn view(&self) -> Window {
        Window {
            hwnd: self.hwnd,
            title: self.title@,
            process: self.process_name@,
            pid: self.pid,
        }
    }
}

/// What each of the windows holds.
pub open spec fn views(v: Seq<WindowInfo>) -> Seq<Window> {
    Seq::new(v.len(), |i: int| v[i]@)
}

// ── Which windows ──────────────────────────────────────

/// Whether a window is one to choose from: it can be seen, it is no part of another, and it has a
/// title.
pub fn is_choosable(visible: bool, is_root: bool, title: &str) -> (r: bool)
    ensures
        r <==> visible && is_root && title@.len() > 0,
{
    visible && is_root && !title.is_empty()
}

/// What the system says of the name of a process.
pub enum ProcessQuery {
    /// The process may not be asked.
    Refused,
    /// The name of its program.
    Name(String),
    /// The path of its program.
    Path(String),
    /// Nothing.
    Unknown,
}

/// Where the last component of a path begins: behind the last backslash.
pub open spec fn component_start(s: Seq<char>) -> int
    decreases s.len(),
{
    if s.len() == 0 || s.last() == '\\' {
        s.len() as int
    } else {
        component_start(s.drop_last())
    }
}

/// The last component of a path.
pub open spec fn last_component(s: Seq<char>) -> Seq<char> {
    s.skip(component_start(s))
}

fn component_of(path: &str) -> (r: String)
    ensures
        r@ == last_component(path@),
{
    let v = chars_of(path);
    let mut i: usize = v.len();
    assert(v@.take(i as int) =~= v@);
    while i > 0 && v[i - 1] != '\\'
        invariant
            i <= v.len(),
            component_start(v@) == component_start(v@.take(i as int)),
        decreases i,
    {
        assert(v@.take(i as int).drop_last() =~= v@.take(i - 1));
        i = i - 1;
    }
    let r = string_range(&v, i, v.len());
    assert(r@ =~= v@.skip(i as int));
    r
}

/// The name of a process: that of its program as far as it is known. The process with the number 0 is
/// the system; one that may not be asked goes by its number.
pub fn process_name(pid: u32, query: ProcessQuery) -> (r: String)
    ensures
        r@ == (if pid == 0 {
            "System"@
        } else {
            match query {
                ProcessQuery::Refused => "pid_"@ + text::decimal(pid as nat),
                ProcessQuery::Name(n) => n@,
                ProcessQuery::Path(p) => last_component(p@),
                ProcessQuery::Unknown => "unknown"@,
            }
        }),
{
    if pid == 0 {
        return "System".to_string();
    }
    match query {
        ProcessQuery::Refused => {
            let mut r = "pid_".to_string();
            append_decimal(&mut r, pid as u64);
            r
        },
        ProcessQuery::Name(n) => n,
        ProcessQuery::Path(p) => component_of(p.as_str()),
        ProcessQuery::Unknown => "unknown".to_string(),
    }
}

// ── In which order ─────────────────────────────────────

/// `str::to_lowercase` of a text.
pub uninterp spec fn lowercase(s: Seq<char>) -> Seq<char>;

/// `str::to_lowercase` gives the lower case form of a text by the tables of Unicode. It goes by the
/// text alone.
#[verifier::external_body]
fn to_lower(s: &str) -> (r: String)
    ensures
        r@ == lowercase(s@),
{
    s.to_lowercase()
}

/// Whether `a` comes before `b` in the order of characters.
pub open spec fn before(a: Seq<char>, b: Seq<char>) -> bool
    decreases a.len(),
{
    if b.len() == 0 {
        false
    } else if a.len() == 0 {
        true
    } else if a[0] != b[0] {
        a[0] < b[0]
    } else {
        before(a.drop_first(), b.drop_first())
    }
}

fn comes_before(a: &str, b: &str) -> (r: bool)
    ensures
        r == before(a@, b@),
{
    let x = chars_of(a);
    let y = chars_of(b);
    let mut i: usize = 0;
    assert(x@.skip(0) =~= x@);
    assert(y@.skip(0) =~= y@);
    while i < x.len() && i < y.len() && x[i] == y[i]
        invariant
            i <= x.len(),
            i <= y.len(),
            before(x@, y@) == before(x@.skip(i as int), y@.skip(i as int)),
        decreases x.len() - i,
    {
        assert(x@.skip(i as int).drop_first() =~= x@.skip(i + 1));
        assert(y@.skip(i as int).drop_first() =~= y@.skip(i + 1));
        i = i + 1;
    }
    if i >= y.len() {
        false
    } else if i >= x.len() {
        true
    } else {
        x[i] < y[i]
    }
}

/// Whether two windows are taken for one: they have the same title and the same name of a process.
pub open spec fn alike(a: Window, b: Window) -> bool {
    a.title == b.title && a.process == b.process
}

/// Whether one of the windows is alike `w`.
pub open spec fn occurs(v: Seq<Window>, w: Window) -> bool {
    exists|i: int| 0 <= i < v.len() && alike(#[trigger] v[i], w)
}

/// The windows without those that are alike one before them.
pub open spec fn without_repeats(v: Seq<Window>) -> Seq<Window>
    decreases v.len(),
{
    if v.len() == 0 {
        Seq::empty()
    } else {
        let kept = without_repeats(v.drop_last());
        if occurs(kept, v.last()) {
            kept
        } else {
            kept.push(v.last())
        }
    }
}

/// Where a window belongs among windows in order: before the first one whose key comes behind its
/// own.
pub open spec fn slot(keys: Seq<Seq<char>>, key: Seq<char>) -> int
    decreases keys.len(),
{
    if keys.len() == 0 || before(key, keys[0]) {
        0
    } else {
        1 + slot(keys.drop_first(), key)
    }
}

/// The keys that windows are ordered by: the names of their processes in lower case.
pub open spec fn keys_of(v: Seq<Window>) -> Seq<Seq<char>> {
    Seq::new(v.len(), |i: int| lowercase(v[i].process))
}

/// The windows in order. Windows with the same key stay as they are among themselves.
pub open spec fn in_order(v: Seq<Window>) -> Seq<Window>
    decreases v.len(),
{
    if v.len() == 0 {
        Seq::empty()
    } else {
        let rest = in_order(v.drop_last());
        rest.insert(slot(keys_of(rest), lowercase(v.last().process)), v.last())
    }
}

fn same(a: &String, b: &String) -> (r: bool)
    ensures
        r == (a@ == b@),
{
    *a == *b
}

/// The windows from the last to the first.
fn reversed(found: Vec<WindowInfo>) -> (r: Vec<WindowInfo>)
    ensures
        r@.len() == found@.len(),
        forall|i: int|
            0 <= i < r@.len() ==> (#[trigger] r@[i])@ == views(found@)[found@.len() - 1 - i],
{
    let ghost all = views(found@);
    let mut found = found;
    let mut r: Vec<WindowInfo> = Vec::new();
    while found.len() > 0
        invariant
            found@.len() + r@.len() == all.len(),
            forall|i: int| 0 <= i < found@.len() ==> (#[trigger] found@[i])@ == all[i],
            forall|i: int|
                0 <= i < r@.len() ==> (#[trigger] r@[i])@ == all[all.len() - 1 - i],
        decreases found@.len(),
    {
        let w = found.pop().unwrap();
        r.push(w);
    }
    r
}

/// Whether one of the windows is alike `w`.
fn holds(v: &Vec<WindowInfo>, w: &WindowInfo) -> (r: bool)
    ensures
        r == occurs(views(v@), w@),
{
    let mut i: usize = 0;
    while i < v.len()
        invariant
            i <= v.len(),
            forall|k: int| 0 <= k < i ==> !alike(#[trigger] views(v@)[k], w@),
        decreases v.len() - i,
    {
        assert(views(v@)[i as int] == v@[i as int]@);
        if same(&v[i].title, &w.title) && same(&v[i].process_name, &w.process_name) {
            return true;
        }
        i = i + 1;
    }
    false
}

fn dedup(found: Vec<WindowInfo>) -> (r: Vec<WindowInfo>)
    ensures
        views(r@) == without_repeats(views(found@)),
{
    let ghost all = views(found@);
    let mut rest = reversed(found);
    let mut r: Vec<WindowInfo> = Vec::new();
    assert(views(r@) =~= without_repeats(all.take(0)));
    while rest.len() > 0
        invariant
            rest@.len() <= all.len(),
            forall|i: int|
                0 <= i < rest@.len() ==> (#[trigger] rest@[i])@ == all[all.len() - 1 - i],
            views(r@) == without_repeats(all.take(all.len() - rest@.len())),
        decreases rest@.len(),
    {
        let ghost n = all.len() - rest@.len();
        let ghost kept = views(r@);
        let w = rest.pop().unwrap();
        assert(w@ == all[n]);
        assert(all.take(n + 1).drop_last() =~= all.take(n));
        if !holds(&r, &w) {
            r.push(w);
            assert(views(r@) =~= kept.push(w@));
        }
    }
    assert(all.take(all.len() as int) =~= all);
    r
}

fn sort(found: Vec<WindowInfo>) -> (r: Vec<WindowInfo>)
    ensures
        views(r@) == in_order(views(found@)),
{
    let ghost all = views(found@);
    let mut rest = reversed(found);
    let mut r: Vec<WindowInfo> = Vec::new();
    let mut keys: Vec<String> = Vec::new();
    assert(views(r@) =~= in_order(all.take(0)));
    assert(text::texts(keys@) =~= keys_of(views(r@)));
    while rest.len() > 0
        invariant
            rest@.len() <= all.len(),
            forall|i: int|
                0 <= i < rest@.len() ==> (#[trigger] rest@[i])@ == all[all.len() - 1 - i],
            views(r@) == in_order(all.take(all.len() - rest@.len())),
            text::texts(keys@) == keys_of(views(r@)),
        decreases rest@.len(),
    {
        let ghost n = all.len() - rest@.len();
        let ghost before_r = views(r@);
        let ghost before_k = text::texts(keys@);
        assert(before_k.len() == keys@.len());
        assert(before_r.len() == r@.len());
        let w = rest.pop().unwrap();
        assert(w@ == all[n]);
        assert(all.take(n + 1).drop_last() =~= all.take(n));
        let key = to_lower(w.process_name.as_str());
        let mut i: usize = 0;
        assert(before_k.skip(0) =~= before_k);
        while i < keys.len() && !comes_before(key.as_str(), keys[i].as_str())
            invariant
                i <= keys.len(),
                before_k == text::texts(keys@),
                i + slot(before_k.skip(i as int), key@) == slot(before_k, key@),
            decreases keys.len() - i,
        {
            assert(before_k.skip(i as int)[0] == keys@[i as int]@);
            assert(before_k.skip(i as int).drop_first() =~= before_k.skip(i + 1));
            i = i + 1;
        }
        assert(i < keys@.len() ==> before_k.skip(i as int)[0] == keys@[i as int]@);
        assert(i == slot(before_k, key@));
        r.insert(i, w);
        keys.insert(i, key);
        assert(views(r@) =~= before_r.insert(i as int, w@));
        assert(text::texts(keys@) =~= before_k.insert(i as int, key@));
        assert(keys_of(views(r@)) =~= before_k.insert(i as int, key@));
    }
    assert(all.take(all.len() as int) =~= all);
    r
}

/// The windows as they are offered: of those that are alike the first one, in the order of the names
/// of their processes.
pub open spec fn arranged(v: Seq<Window>) -> Seq<Window> {
    in_order(without_repeats(v))
}

/// The windows as they are offered.
pub fn arrange_windows(found: Vec<WindowInfo>) -> (r: Vec<WindowInfo>)
    ensures
        views(r@) == arranged(views(found@)),
        forall|i: int, j: int|
            0 <= i < j < r@.len() ==> !alike((#[trigger] r@[i])@, (#[trigger] r@[j])@),
{
    let ghost all = views(found@);
    let r = sort(dedup(found));
    assert forall|i: int, j: int| 0 <= i < j < r@.len() implies !alike(
        (#[trigger] r@[i])@,
        (#[trigger] r@[j])@,
    ) by {
        repeats_are_left_out(all, i, j);
        assert(views(r@)[i] == r@[i]@);
        assert(views(r@)[j] == r@[j]@);
    }
    r
}

// ── Laws ───────────────────────────────────────────────

proof fn lemma_before_irreflexive(a: Seq<char>)
    ensures
        !before(a, a),
    decreases a.len(),
{
    if a.len() > 0 {
        lemma_before_irreflexive(a.drop_first());
    }
}

proof fn lemma_before_transitive(a: Seq<char>, b: Seq<char>, c: Seq<char>)
    requires
        before(a, b),
        before(b, c),
    ensures
        before(a, c),
    decreases a.len(),
{
    if a.len() > 0 && b.len() > 0 && c.len() > 0 && a[0] == b[0] && b[0] == c[0] {
        lemma_before_transitive(a.drop_first(), b.drop_first(), c.drop_first());
    }
}

proof fn lemma_before_total(a: Seq<char>, b: Seq<char>)
    ensures
        before(a, b) || before(b, a) || a == b,
    decreases a.len(),
{
    if a.len() > 0 && b.len() > 0 && a[0] == b[0] {
        lemma_before_total(a.drop_first(), b.drop_first());
        if a.drop_first() == b.drop_first() {
            assert(a =~= seq![a[0]] + a.drop_first());
            assert(b =~= seq![b[0]] + b.drop_first());
        }
    } else if a.len() == 0 && b.len() == 0 {
        assert(a =~= b);
    }
}

/// No key comes before one that stands before it.
pub open spec fn ascending(keys: Seq<Seq<char>>) -> bool {
    forall|i: int, j: int| 0 <= i < j < keys.len() ==> !before(#[trigger] keys[j], #[trigger] keys[i])
}

proof fn lemma_slot(keys: Seq<Seq<char>>, key: Seq<char>)
    ensures
        0 <= slot(keys, key) <= keys.len(),
        forall|i: int| 0 <= i < slot(keys, key) ==> !before(key, #[trigger] keys[i]),
        slot(keys, key) < keys.len() ==> before(key, keys[slot(keys, key)]),
    decreases keys.len(),
{
    if keys.len() > 0 && !before(key, keys[0]) {
        let rest = keys.drop_first();
        lemma_slot(rest, key);
        assert forall|i: int| 0 <= i < slot(keys, key) implies !before(key, #[trigger] keys[i]) by {
            if i > 0 {
                assert(rest[i - 1] == keys[i]);
            }
        }
    }
}

proof fn lemma_behind_slot(keys: Seq<Seq<char>>, key: Seq<char>, j: int)
    requires
        ascending(keys),
        slot(keys, key) <= j < keys.len(),
    ensures
        before(key, keys[j]),
{
    lemma_slot(keys, key);
    let at = slot(keys, key);
    if j > at {
        assert(!before(keys[j], keys[at]));
        lemma_before_total(keys[at], keys[j]);
        if before(keys[at], keys[j]) {
            lemma_before_transitive(key, keys[at], keys[j]);
        }
    }
}

proof fn lemma_insert_ascending(keys: Seq<Seq<char>>, key: Seq<char>)
    requires
        ascending(keys),
    ensures
        ascending(keys.insert(slot(keys, key), key)),
{
    let at = slot(keys, key);
    lemma_slot(keys, key);
    let next = keys.insert(at, key);
    assert forall|i: int, j: int| 0 <= i < j < next.len() implies !before(
        #[trigger] next[j],
        #[trigger] next[i],
    ) by {
        if i == at {
            lemma_behind_slot(keys, key, j - 1);
            if before(next[j], key) {
                lemma_before_transitive(next[j], key, next[j]);
                lemma_before_irreflexive(next[j]);
            }
        } else if j == at {
            assert(next[i] == keys[i]);
        } else {
            let a = if i < at {
                i
            } else {
                i - 1
            };
            let b = if j < at {
                j
            } else {
                j - 1
            };
            assert(next[i] == keys[a]);
            assert(next[j] == keys[b]);
        }
    }
}

/// The windows are offered in the order of the names of their processes.
pub proof fn windows_are_in_order(v: Seq<Window>)
    ensures
        ascending(keys_of(in_order(v))),
    decreases v.len(),
{
    if v.len() > 0 {
        let rest = in_order(v.drop_last());
        windows_are_in_order(v.drop_last());
        let key = lowercase(v.last().process);
        lemma_insert_ascending(keys_of(rest), key);
        lemma_slot(keys_of(rest), key);
        assert(keys_of(in_order(v)) =~= keys_of(rest).insert(slot(keys_of(rest), key), key));
    }
}

/// Ordering the windows neither loses nor adds one.
pub proof fn ordering_keeps_the_windows(v: Seq<Window>)
    ensures
        in_order(v).to_multiset() == v.to_multiset(),
    decreases v.len(),
{
    if v.len() > 0 {
        let before_v = v.drop_last();
        let rest = in_order(before_v);
        ordering_keeps_the_windows(before_v);
        let w = v.last();
        let at = slot(keys_of(rest), lowercase(w.process));
        lemma_slot(keys_of(rest), lowercase(w.process));
        vstd::seq_lib::to_multiset_insert(rest, at, w);
        vstd::seq_lib::to_multiset_build(before_v, w);
        assert(v =~= before_v.push(w));
    } else {
        assert(in_order(v) =~= v);
    }
}

/// The windows with a key, in order.
pub open spec fn with_key(v: Seq<Window>, key: Seq<char>) -> Seq<Window>
    decreases v.len(),
{
    if v.len() == 0 {
        Seq::empty()
    } else if lowercase(v.last().process) == key {
        with_key(v.drop_last(), key).push(v.last())
    } else {
        with_key(v.drop_last(), key)
    }
}

proof fn lemma_with_key_add(a: Seq<Window>, b: Seq<Window>, key: Seq<char>)
    ensures
        with_key(a + b, key) == with_key(a, key) + with_key(b, key),
    decreases b.len(),
{
    if b.len() == 0 {
        assert(a + b =~= a);
        assert(with_key(a, key) + with_key(b, key) =~= with_key(a, key));
    } else {
        assert((a + b).drop_last() =~= a + b.drop_last());
        lemma_with_key_add(a, b.drop_last(), key);
        assert(with_key(a + b, key) =~= with_key(a, key) + with_key(b, key));
    }
}

proof fn lemma_with_key_none(v: Seq<Window>, key: Seq<char>)
    requires
        forall|i: int| 0 <= i < v.len() ==> lowercase((#[trigger] v[i]).process) != key,
    ensures
        with_key(v, key) == Seq::<Window>::empty(),
    decreases v.len(),
{
    if v.len() > 0 {
        assert(lowercase(v[v.len() - 1].process) != key);
        assert forall|i: int| 0 <= i < v.drop_last().len() implies lowercase(
            (#[trigger] v.drop_last()[i]).process,
        ) != key by {
            assert(v.drop_last()[i] == v[i]);
        }
        lemma_with_key_none(v.drop_last(), key);
    }
}

/// Windows of one process stay in the order in which they were found.
pub proof fn ordering_is_stable(v: Seq<Window>, key: Seq<char>)
    ensures
        with_key(in_order(v), key) == with_key(v, key),
    decreases v.len(),
{
    if v.len() > 0 {
        let rest = in_order(v.drop_last());
        ordering_is_stable(v.drop_last(), key);
        windows_are_in_order(v.drop_last());
        let w = v.last();
        let own = lowercase(w.process);
        let keys = keys_of(rest);
        let at = slot(keys, own);
        lemma_slot(keys, own);
        let head = rest.take(at);
        let tail = rest.skip(at);
        assert(in_order(v) =~= (head + seq![w]) + tail);
        assert(rest =~= head + tail);
        lemma_with_key_add(head + seq![w], tail, key);
        lemma_with_key_add(head, tail, key);
        assert((head + seq![w]).drop_last() =~= head);
        if own == key {
            assert forall|i: int| 0 <= i < tail.len() implies lowercase(
                (#[trigger] tail[i]).process,
            ) != key by {
                lemma_behind_slot(keys, own, at + i);
                lemma_before_irreflexive(own);
                assert(keys[at + i] == lowercase(tail[i].process));
            }
            lemma_with_key_none(tail, key);
            assert(with_key(in_order(v), key) =~= with_key(v, key));
        }
    }
}

/// No two of the windows are alike.
pub open spec fn all_differ(v: Seq<Window>) -> bool {
    forall|i: int, j: int|
        0 <= i < v.len() && 0 <= j < v.len() && i != j ==> !alike(#[trigger] v[i], #[trigger] v[j])
}

proof fn lemma_kept(v: Seq<Window>)
    ensures
        all_differ(without_repeats(v)),
        forall|w: Window| occurs(v, w) ==> #[trigger] occurs(without_repeats(v), w),
    decreases v.len(),
{
    if v.len() > 0 {
        let rest = v.drop_last();
        let kept = without_repeats(rest);
        let all = without_repeats(v);
        let last = v.last();
        lemma_kept(rest);
        assert forall|i: int, j: int|
            0 <= i < all.len() && 0 <= j < all.len() && i != j implies !alike(
            #[trigger] all[i],
            #[trigger] all[j],
        ) by {
            if i < kept.len() && j < kept.len() {
                assert(all[i] == kept[i] && all[j] == kept[j]);
            } else if i < kept.len() {
                assert(!alike(kept[i], last));
            } else {
                assert(!alike(kept[j], last));
            }
        }
        assert forall|w: Window| occurs(v, w) implies #[trigger] occurs(all, w) by {
            let i = choose|i: int| 0 <= i < v.len() && alike(#[trigger] v[i], w);
            if i < rest.len() {
                assert(alike(rest[i], w));
                assert(occurs(kept, w));
                let j = choose|j: int| 0 <= j < kept.len() && alike(#[trigger] kept[j], w);
                assert(alike(all[j], w));
            } else if occurs(kept, last) {
                let j = choose|j: int| 0 <= j < kept.len() && alike(#[trigger] kept[j], last);
                assert(alike(all[j], w));
            } else {
                assert(alike(all[kept.len() as int], w));
            }
        }
    }
}

proof fn lemma_in_order_differ(v: Seq<Window>)
    requires
        all_differ(v),
    ensures
        all_differ(in_order(v)),
        in_order(v).len() == v.len(),
        forall|w: Window| v.contains(w) ==> #[trigger] in_order(v).contains(w),
        forall|w: Window| in_order(v).contains(w) ==> #[trigger] v.contains(w),
    decreases v.len(),
{
    if v.len() > 0 {
        let rest = v.drop_last();
        let w = v.last();
        assert forall|i: int, j: int|
            0 <= i < rest.len() && 0 <= j < rest.len() && i != j implies !alike(
            #[trigger] rest[i],
            #[trigger] rest[j],
        ) by {
            assert(rest[i] == v[i] && rest[j] == v[j]);
        }
        lemma_in_order_differ(rest);
        let sorted = in_order(rest);
        let at = slot(keys_of(sorted), lowercase(w.process));
        lemma_slot(keys_of(sorted), lowercase(w.process));
        let next = sorted.insert(at, w);
        assert forall|i: int| 0 <= i < sorted.len() implies !alike(#[trigger] sorted[i], w) by {
            assert(sorted.contains(sorted[i]));
            assert(rest.contains(sorted[i]));
            let k = choose|k: int| 0 <= k < rest.len() && rest[k] == sorted[i];
            assert(!alike(v[k], v[v.len() - 1]));
        }
        assert forall|i: int, j: int|
            0 <= i < next.len() && 0 <= j < next.len() && i != j implies !alike(
            #[trigger] next[i],
            #[trigger] next[j],
        ) by {
            let a = if i < at {
                i
            } else {
                i - 1
            };
            let b = if j < at {
                j
            } else {
                j - 1
            };
            if i == at {
                assert(next[j] == sorted[b]);
            } else if j == at {
                assert(next[i] == sorted[a]);
            } else {
                assert(next[i] == sorted[a] && next[j] == sorted[b]);
            }
        }
        assert forall|x: Window| v.contains(x) implies #[trigger] next.contains(x) by {
            let i = choose|i: int| 0 <= i < v.len() && v[i] == x;
            if i < rest.len() {
                assert(rest[i] == x);
                assert(rest.contains(x));
                assert(sorted.contains(x));
                let k = choose|k: int| 0 <= k < sorted.len() && sorted[k] == x;
                assert(next[if k < at {
                    k
                } else {
                    k + 1
                }] == x);
            } else {
                assert(next[at] == x);
            }
        }
        assert forall|x: Window| next.contains(x) implies #[trigger] v.contains(x) by {
            let i = choose|i: int| 0 <= i < next.len() && next[i] == x;
            if i == at {
                assert(v[v.len() - 1] == x);
            } else {
                let a = if i < at {
                    i
                } else {
                    i - 1
                };
                assert(sorted[a] == x);
                assert(sorted.contains(x));
                assert(rest.contains(x));
                let k = choose|k: int| 0 <= k < rest.len() && rest[k] == x;
                assert(v[k] == x);
            }
        }
    }
}

/// No two windows that are offered are alike.
pub proof fn repeats_are_left_out(v: Seq<Window>, i: int, j: int)
    requires
        0 <= i < j < arranged(v).len(),
    ensures
        !alike(arranged(v)[i], arranged(v)[j]),
{
    lemma_kept(v);
    lemma_in_order_differ(without_repeats(v));
}

/// A window is left out only where one that is alike is offered.
pub proof fn every_window_is_offered(v: Seq<Window>, i: int)
    requires
        0 <= i < v.len(),
    ensures
        occurs(arranged(v), v[i]),
{
    lemma_kept(v);
    assert(alike(v[i], v[i]));
    assert(occurs(v, v[i]));
    let kept = without_repeats(v);
    assert(occurs(kept, v[i]));
    let k = choose|k: int| 0 <= k < kept.len() && alike(#[trigger] kept[k], v[i]);
    lemma_in_order_differ(kept);
    assert(kept.contains(kept[k]));
    assert(arranged(v).contains(kept[k]));
    let j = choose|j: int| 0 <= j < arranged(v).len() && arranged(v)[j] == kept[k];
    assert(alike(arranged(v)[j], v[i]));
}

proof fn lemma_first_kept(v: Seq<Window>, i: int)
    requires
        0 <= i < v.len(),
        forall|k: int| 0 <= k < i ==> !alike(#[trigger] v[k], v[i]),
    ensures
        without_repeats(v).contains(v[i]),
    decreases v.len(),
{
    let rest = v.drop_last();
    let kept = without_repeats(rest);
    let all = without_repeats(v);
    if i < rest.len() {
        assert forall|k: int| 0 <= k < i implies !alike(#[trigger] rest[k], rest[i]) by {
            assert(rest[k] == v[k]);
        }
        lemma_first_kept(rest, i);
        let j = choose|j: int| 0 <= j < kept.len() && kept[j] == v[i];
        assert(all[j] == v[i]);
    } else {
        lemma_kept_found(rest);
        if occurs(kept, v[i]) {
            let j = choose|j: int| 0 <= j < kept.len() && alike(#[trigger] kept[j], v[i]);
            assert(rest.contains(kept[j]));
            let k = choose|k: int| 0 <= k < rest.len() && rest[k] == kept[j];
            assert(!alike(v[k], v[i]));
        }
        assert(all[kept.len() as int] == v[i]);
    }
}

proof fn lemma_kept_found(v: Seq<Window>)
    ensures
        forall|j: int|
            0 <= j < without_repeats(v).len() ==> v.contains(#[trigger] without_repeats(v)[j]),
    decreases v.len(),
{
    if v.len() > 0 {
        let rest = v.drop_last();
        let kept = without_repeats(rest);
        lemma_kept_found(rest);
        assert forall|j: int| 0 <= j < without_repeats(v).len() implies v.contains(
            #[trigger] without_repeats(v)[j],
        ) by {
            if j < kept.len() {
                assert(without_repeats(v)[j] == kept[j]);
                assert(rest.contains(kept[j]));
                let k = choose|k: int| 0 <= k < rest.len() && rest[k] == kept[j];
                assert(v[k] == kept[j]);
            } else {
                assert(v[v.len() - 1] == without_repeats(v)[j]);
            }
        }
    }
}

/// Of windows that are alike the one that was found first is offered.
pub proof fn the_first_one_is_offered(v: Seq<Window>, i: int)
    requires
        0 <= i < v.len(),
        forall|k: int| 0 <= k < i ==> !alike(#[trigger] v[k], v[i]),
    ensures
        arranged(v).contains(v[i]),
{
    lemma_first_kept(v, i);
    lemma_kept(v);
    lemma_in_order_differ(without_repeats(v));
}

/// A window can be chosen exactly where it can be seen, is no part of another and has a title.
pub proof fn windows_to_choose_from(visible: bool, is_root: bool, title: &str, r: bool)
    requires
        call_ensures(is_choosable, (visible, is_root, title), r),
    ensures
        r <==> visible && is_root && title@.len() != 0,
{
}

proof fn lemma_component(name: Seq<char>, dir: Seq<char>)
    requires
        !name.contains('\\'),
        dir.len() == 0 || dir.last() == '\\',
    ensures
        component_start(dir + name) == dir.len(),
    decreases name.len(),
{
    let s = dir + name;
    if name.len() > 0 {
        let rest = name.drop_last();
        assert(!rest.contains('\\')) by {
            if rest.contains('\\') {
                let i = choose|i: int| 0 <= i < rest.len() && rest[i] == '\\';
                assert(name[i] == '\\');
            }
        }
        lemma_component(rest, dir);
        assert(name[name.len() - 1] != '\\');
        assert(s.drop_last() =~= dir + rest);
    } else {
        assert(s =~= dir);
    }
}

/// A process goes by the name of its program: the one that the system gives, or what stands behind the
/// last backslash of its path. The system itself has a name of its own, and a process that may not be
/// asked goes by its number.
pub proof fn processes_have_names(
    pid: u32,
    name: String,
    path: String,
    dir: Seq<char>,
    by_name: String,
    by_path: String,
    by_number: String,
)
    requires
        pid > 0,
        !name@.contains('\\'),
        dir.len() == 0 || dir.last() == '\\',
        path@ == dir + name@,
        call_ensures(process_name, (pid, ProcessQuery::Name(name)), by_name),
        call_ensures(process_name, (pid, ProcessQuery::Path(path)), by_path),
        call_ensures(process_name, (pid, ProcessQuery::Refused), by_number),
    ensures
        by_name@ == name@,
        by_path@ == name@,
        exists|digits: Seq<char>|
            by_number@ == seq!['p', 'i', 'd', '_'] + digits && text::all_digits(digits)
                && #[trigger] text::number_of(digits) == pid,
{
    lemma_component(name@, dir);
    assert(path@.skip(dir.len() as int) =~= name@);
    reveal_strlit("pid_");
    assert("pid_"@ =~= seq!['p', 'i', 'd', '_']);
    text::digits_read_back(pid as nat);
    assert(by_number@ == seq!['p', 'i', 'd', '_'] + text::decimal(pid as nat));
}

/// The first character in which two texts differ decides which comes first, and a text comes before
/// those that it is the beginning of.
pub proof fn the_order_of_texts(p: Seq<char>, x: char, a: Seq<char>, y: char, b: Seq<char>)
    ensures
        (x as int) < (y as int) ==> before(p + seq![x] + a, p + seq![y] + b) && !before(
            p + seq![y] + b,
            p + seq![x] + a,
        ),
        before(p, p + seq![x] + a),
        !before(p + seq![x] + a, p),
        !before(p, p),
    decreases p.len(),
{
    lemma_before_irreflexive(p);
    let (s, t) = (p + seq![x] + a, p + seq![y] + b);
    if p.len() > 0 {
        let rest = p.drop_first();
        the_order_of_texts(rest, x, a, y, b);
        assert(s.drop_first() =~= rest + seq![x] + a);
        assert(t.drop_first() =~= rest + seq![y] + b);
        assert(s[0] == p[0] && t[0] == p[0]);
    } else {
        assert(s[0] == x && t[0] == y);
    }
}

/// The windows that are offered were all found; no two of them have both the same title and the same
/// process; they are in the order of the names of their processes in lower case; and each window that
/// was found is offered, or one with its title and its process is.
pub proof fn windows_are_offered_once_and_in_order(
    found: Vec<WindowInfo>,
    r: Vec<WindowInfo>,
    i: int,
    j: int,
    k: int,
)
    requires
        call_ensures(arrange_windows, (found,), r),
        0 <= i < j < r@.len(),
        0 <= k < found@.len(),
    ensures
        r@[i].title@ != r@[j].title@ || r@[i].process_name@ != r@[j].process_name@,
        !before(lowercase(r@[j].process_name@), lowercase(r@[i].process_name@)),
        exists|m: int| 0 <= m < found@.len() && (#[trigger] found@[m])@ == r@[i]@,
        exists|m: int|
            0 <= m < r@.len() && (#[trigger] r@[m]).title@ == found@[k].title@
                && r@[m].process_name@ == found@[k].process_name@,
{
    let all = views(found@);
    let kept = without_repeats(all);
    assert(views(r@)[i] == r@[i]@ && views(r@)[j] == r@[j]@);
    windows_are_in_order(kept);
    let keys = keys_of(arranged(all));
    assert(keys[i] == lowercase(r@[i].process_name@) && keys[j] == lowercase(r@[j].process_name@));
    lemma_kept(all);
    lemma_in_order_differ(kept);
    assert(arranged(all).contains(arranged(all)[i]));
    assert(kept.contains(r@[i]@));
    lemma_kept_found(all);
    let n = choose|n: int| 0 <= n < kept.len() && kept[n] == r@[i]@;
    assert(all.contains(kept[n]));
    let m = choose|m: int| 0 <= m < all.len() && all[m] == r@[i]@;
    assert(found@[m]@ == r@[i]@);
    every_window_is_offered(all, k);
    assert(all[k] == found@[k]@);
    let q = choose|q: int| 0 <= q < arranged(all).len() && alike(#[trigger] arranged(all)[q], all[k]);
    assert(views(r@)[q] == r@[q]@);
    assert(r@[q].title@ == found@[k].title@);
}

/// Of windows with the same title and process the one that was found first is offered, with its handle
/// and its number.
pub proof fn the_first_window_is_offered(found: Vec<WindowInfo>, r: Vec<WindowInfo>, k: int)
    requires
        call_ensures(arrange_windows, (found,), r),
        0 <= k < found@.len(),
        forall|m: int|
            0 <= m < k ==> (#[trigger] found@[m]).title@ != found@[k].title@
                || found@[m].process_name@ != found@[k].process_name@,
    ensures
        exists|m: int| 0 <= m < r@.len() && (#[trigger] r@[m])@ == found@[k]@,
{
    let all = views(found@);
    assert forall|m: int| 0 <= m < k implies !alike(#[trigger] all[m], all[k]) by {
        assert(all[m] == found@[m]@);
    }
    the_first_one_is_offered(all, k);
    let m = choose|m: int| 0 <= m < arranged(all).len() && arranged(all)[m] == all[k];
    assert(views(r@)[m] == r@[m]@);
}

/// The process with the number zero is the system, and one of which nothing is known has no name.
pub proof fn processes_without_names(
    query: ProcessQuery,
    system: String,
    pid: u32,
    unknown: String,
)
    requires
        pid > 0,
        call_ensures(process_name, (0, query), system),
        call_ensures(process_name, (pid, ProcessQuery::Unknown), unknown),
    ensures
        system@ == "System"@,
        unknown@ == "unknown"@,
{
}

/// Windows that are found later do not change which of the earlier ones are kept, nor their order.
pub proof fn later_windows_change_nothing(a: Seq<Window>, b: Seq<Window>)
    ensures
        without_repeats(a).is_prefix_of(without_repeats(a + b)),
    decreases b.len(),
{
    if b.len() > 0 {
        later_windows_change_nothing(a, b.drop_last());
        assert((a + b).drop_last() =~= a + b.drop_last());
        let (x, y) = (without_repeats(a), without_repeats(a + b.drop_last()));
        assert(x =~= without_repeats(a + b).subrange(0, x.len() as int));
    } else {
        assert(a + b =~= a);
        assert(without_repeats(a) =~= without_repeats(a + b).subrange(
            0,
            without_repeats(a).len() as int,
        ));
    }
}

/// Of the windows that are kept, those with one name of a process are offered in the order in which
/// they were found.
pub proof fn windows_of_a_process_stay_in_order(
    found: Vec<WindowInfo>,
    r: Vec<WindowInfo>,
    key: Seq<char>,
)
    requires
        call_ensures(arrange_windows, (found,), r),
    ensures
        with_key(views(r@), key) == with_key(without_repeats(views(found@)), key),
{
    ordering_is_stable(without_repeats(views(found@)), key);
}

} // verus!
