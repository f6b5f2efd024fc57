//! Text as sequences of characters: whitespace, trimming, searching and
//! splitting, each with a mathematical definition and a verified routine.

use vstd::prelude::*;
use vstd::string::*;

verus! {

/// The characters that carry the Unicode `White_Space` property.
pub open spec fn is_whitespace(c: char) -> bool {
    ||| '\u{0009}' <= c <= '\u{000D}'
    ||| c == ' '
    ||| c == '\u{0085}'
    ||| c == '\u{00A0}'
    ||| c == '\u{1680}'
    ||| '\u{2000}' <= c <= '\u{200A}'
    ||| c == '\u{2028}'
    ||| c == '\u{2029}'
    ||| c == '\u{202F}'
    ||| c == '\u{205F}'
    ||| c == '\u{3000}'
}

/// `s` without its leading whitespace.
pub open spec fn trim_start(s: Seq<char>) -> Seq<char>
    decreases s.len(),
{
    if s.len() > 0 && is_whitespace(s.first()) {
        trim_start(s.drop_first())
    } else {
        s
    }
}

/// `s` without its trailing whitespace.
pub open spec fn trim_end(s: Seq<char>) -> Seq<char>
    decreases s.len(),
{
    if s.len() > 0 && is_whitespace(s.last()) {
        trim_end(s.drop_last())
    } else {
        s
    }
}

/// `s` without leading and trailing whitespace.
pub open spec fn trim(s: Seq<char>) -> Seq<char> {
    trim_end(trim_start(s))
}

/// Whether `s` ends with `suffix`.
pub open spec fn ends_with(s: Seq<char>, suffix: Seq<char>) -> bool {
    suffix.len() <= s.len() && s.skip(s.len() - suffix.len()) == suffix
}

/// `s` without one trailing occurrence of `suffix`, or `s` itself where it
/// does not end with `suffix`.
pub open spec fn strip_suffix(s: Seq<char>, suffix: Seq<char>) -> Seq<char> {
    if ends_with(s, suffix) {
        s.take(s.len() - suffix.len())
    } else {
        s
    }
}

/// The pieces of `s` between separators, in order. There is always one piece
/// more than there are separators in `s`, so the empty text has one empty
/// piece.
pub open spec fn split(s: Seq<char>, seps: Set<char>) -> Seq<Seq<char>>
    decreases s.len(),
{
    if s.len() == 0 {
        seq![Seq::<char>::empty()]
    } else {
        let before = split(s.drop_last(), seps);
        if seps.contains(s.last()) {
            before.push(Seq::<char>::empty())
        } else {
            before.drop_last().push(before.last().push(s.last()))
        }
    }
}

/// The items of a comma separated list. The empty text is the empty list.
pub open spec fn split_list(s: Seq<char>) -> Seq<Seq<char>> {
    if s.len() == 0 {
        Seq::<Seq<char>>::empty()
    } else {
        split(s, set![','])
    }
}

/// The texts that a sequence of strings holds.
pub open spec fn views(v: Seq<String>) -> Seq<Seq<char>> {
    v.map_values(|s: String| s@)
}

/// The pieces that are not empty.
pub open spec fn non_empty(parts: Seq<Seq<char>>) -> Seq<Seq<char>> {
    parts.filter(|p: Seq<char>| p.len() > 0)
}

/// Whether `s` holds none of the characters in `chars`.
pub open spec fn free_of(s: Seq<char>, chars: Set<char>) -> bool {
    forall|j: int| 0 <= j < s.len() ==> !chars.contains(#[trigger] s[j])
}

/// `s` with every occurrence of `from` turned into `to`.
pub open spec fn replace_char(s: Seq<char>, from: char, to: char) -> Seq<char> {
    s.map_values(|c: char| if c == from { to } else { c })
}

pub proof fn lemma_trim_start_is_skip(s: Seq<char>, k: int)
    requires
        0 <= k <= s.len(),
        forall|i: int| 0 <= i < k ==> is_whitespace(s[i]),
        k == s.len() || !is_whitespace(s[k]),
    ensures
        trim_start(s) == s.skip(k),
    decreases k,
{
    if k == 0 {
        assert(s.skip(0) =~= s);
    } else {
        let t = s.drop_first();
        assert forall|i: int| 0 <= i < k - 1 implies is_whitespace(t[i]) by {
            assert(t[i] == s[i + 1]);
        }
        lemma_trim_start_is_skip(t, k - 1);
        assert(t.skip(k - 1) =~= s.skip(k));
    }
}

pub proof fn lemma_trim_end_is_take(s: Seq<char>, k: int)
    requires
        0 <= k <= s.len(),
        forall|i: int| k <= i < s.len() ==> is_whitespace(s[i]),
        k == 0 || !is_whitespace(s[k - 1]),
    ensures
        trim_end(s) == s.take(k),
    decreases s.len(),
{
    if k == s.len() {
        assert(s.take(k) =~= s);
    } else {
        let t = s.drop_last();
        lemma_trim_end_is_take(t, k);
        assert(t.take(k) =~= s.take(k));
    }
}

/// Trimming cuts a window out of the text: whitespace lies before and after
/// it, and neither of the window's ends is whitespace.
pub proof fn lemma_trim_is_window(s: Seq<char>, a: int, b: int)
    requires
        0 <= a <= b <= s.len(),
        forall|i: int| 0 <= i < a ==> is_whitespace(s[i]),
        forall|i: int| b <= i < s.len() ==> is_whitespace(s[i]),
        a == b || (!is_whitespace(s[a]) && !is_whitespace(s[b - 1])),
    ensures
        trim(s) == s.subrange(a, b),
{
    if a == b {
        // every character is whitespace
        lemma_trim_start_is_skip(s, s.len() as int);
        assert(s.skip(s.len() as int) =~= Seq::<char>::empty());
        assert(s.subrange(a, b) =~= Seq::<char>::empty());
    } else {
        lemma_trim_start_is_skip(s, a);
        let t = s.skip(a);
        assert forall|i: int| b - a <= i < t.len() implies is_whitespace(t[i]) by {
            assert(t[i] == s[i + a]);
        }
        lemma_trim_end_is_take(t, b - a);
        assert(t.take(b - a) =~= s.subrange(a, b));
    }
}

/// A text whose ends are not whitespace is its own trimmed form.
pub proof fn lemma_trim_fixed(s: Seq<char>)
    requires
        s.len() == 0 || (!is_whitespace(s.first()) && !is_whitespace(s.last())),
    ensures
        trim(s) == s,
{
    lemma_trim_is_window(s, 0, s.len() as int);
    assert(s.subrange(0, s.len() as int) =~= s);
}

/// The window that trimming cuts out.
pub proof fn lemma_trim_window_exists(s: Seq<char>) -> (w: (int, int))
    ensures
        0 <= w.0 <= w.1 <= s.len(),
        forall|i: int| 0 <= i < w.0 ==> is_whitespace(s[i]),
        forall|i: int| w.1 <= i < s.len() ==> is_whitespace(s[i]),
        w.0 == w.1 || (!is_whitespace(s[w.0]) && !is_whitespace(s[w.1 - 1])),
        trim(s) == s.subrange(w.0, w.1),
    decreases s.len(),
{
    let w = if s.len() == 0 {
        (0int, 0int)
    } else if is_whitespace(s.first()) {
        let t = s.drop_first();
        let v = lemma_trim_window_exists(t);
        assert forall|i: int| 0 <= i < v.0 + 1 implies is_whitespace(s[i]) by {
            if i > 0 {
                assert(s[i] == t[i - 1]);
            }
        }
        assert forall|i: int| v.1 + 1 <= i < s.len() implies is_whitespace(s[i]) by {
            assert(s[i] == t[i - 1]);
        }
        (v.0 + 1, v.1 + 1)
    } else if is_whitespace(s.last()) {
        let t = s.drop_last();
        let v = lemma_trim_window_exists(t);
        if v.0 == v.1 {
            // all of `t` is whitespace, yet its first character is not
            assert(t.len() > 0);
            assert(t[0] == s[0]);
            assert(false);
        }
        assert forall|i: int| v.1 <= i < s.len() implies is_whitespace(s[i]) by {
            if i < t.len() {
                assert(s[i] == t[i]);
            }
        }
        assert(s[v.0] == t[v.0] && s[v.1 - 1] == t[v.1 - 1]);
        v
    } else {
        (0int, s.len() as int)
    };
    lemma_trim_is_window(s, w.0, w.1);
    w
}

/// Trimming twice is trimming once.
pub proof fn lemma_trim_idempotent(s: Seq<char>)
    ensures
        trim(trim(s)) == trim(s),
{
    let w = lemma_trim_window_exists(s);
    lemma_trim_fixed(s.subrange(w.0, w.1));
}

/// The trimmed text holds no character that the text does not hold, and it
/// keeps every character of the text that is not whitespace.
pub proof fn lemma_trim_contains(s: Seq<char>, c: char)
    ensures
        trim(s).contains(c) ==> s.contains(c),
        s.contains(c) && !is_whitespace(c) ==> trim(s).contains(c),
{
    let w = lemma_trim_window_exists(s);
    let t = s.subrange(w.0, w.1);
    if t.contains(c) {
        let i = choose|i: int| 0 <= i < t.len() && t[i] == c;
        assert(s[i + w.0] == c);
    }
    if s.contains(c) && !is_whitespace(c) {
        let i = choose|i: int| 0 <= i < s.len() && s[i] == c;
        assert(w.0 <= i < w.1);
        assert(t[i - w.0] == c);
    }
}

/// A split has at least one piece, and no piece holds a separator.
pub proof fn lemma_split_pieces(s: Seq<char>, seps: Set<char>)
    ensures
        split(s, seps).len() >= 1,
        forall|i: int| 0 <= i < split(s, seps).len() ==> free_of(#[trigger] split(s, seps)[i], seps),
    decreases s.len(),
{
    if s.len() > 0 {
        lemma_split_pieces(s.drop_last(), seps);
        let before = split(s.drop_last(), seps);
        let now = split(s, seps);
        assert forall|i: int| 0 <= i < now.len() implies free_of(#[trigger] now[i], seps) by {
            if seps.contains(s.last()) {
                if i < before.len() {
                    assert(now[i] == before[i]);
                }
            } else {
                if i < before.len() - 1 {
                    assert(now[i] == before[i]);
                } else {
                    assert(free_of(before[before.len() - 1], seps));
                }
            }
        }
    }
}

/// The text of a string, character by character.
pub fn to_chars(s: &str) -> (v: Vec<char>)
    ensures
        v@ == s@,
{
    let mut v: Vec<char> = Vec::new();
    for c in it: s.chars()
        invariant
            v@ == it.seq().take(it.index() as int),
    {
        v.push(c);
    }
    v
}

/// `String::push` appends one character to the string.
pub assume_specification[ std::string::String::push ](s: &mut std::string::String, c: char)
    ensures
        final(s)@ == old(s)@.push(c),
;

/// The string made of the characters `cs[from..to]`.
pub(crate) fn from_range(cs: &[char], from: usize, to: usize) -> (s: String)
    requires
        from <= to <= cs@.len(),
    ensures
        s@ == cs@.subrange(from as int, to as int),
{
    let mut s = String::new();
    let mut i: usize = from;
    while i < to
        invariant
            from <= i <= to <= cs@.len(),
            s@ == cs@.subrange(from as int, i as int),
        decreases to - i,
    {
        s.push(cs[i]);
        i += 1;
    }
    s
}

pub fn char_is_whitespace(c: char) -> (b: bool)
    ensures
        b == is_whitespace(c),
{
    ('\u{0009}' <= c && c <= '\u{000D}') || c == ' ' || c == '\u{0085}' || c == '\u{00A0}' || c
        == '\u{1680}' || ('\u{2000}' <= c && c <= '\u{200A}') || c == '\u{2028}' || c
        == '\u{2029}' || c == '\u{202F}' || c == '\u{205F}' || c == '\u{3000}'
}

/// Where the trimmed text starts and ends.
pub fn trim_bounds(cs: &[char]) -> (w: (usize, usize))
    ensures
        w.0 <= w.1 <= cs@.len(),
        cs@.subrange(w.0 as int, w.1 as int) == trim(cs@),
{
    let mut a: usize = 0;
    while a < cs.len() && char_is_whitespace(cs[a])
        invariant
            a <= cs@.len(),
            forall|i: int| 0 <= i < a ==> is_whitespace(cs@[i]),
        decreases cs@.len() - a,
    {
        a += 1;
    }
    let mut b: usize = cs.len();
    while b > a && char_is_whitespace(cs[b - 1])
        invariant
            a <= b <= cs@.len(),
            forall|i: int| b <= i < cs@.len() ==> is_whitespace(cs@[i]),
        decreases b,
    {
        b -= 1;
    }
    proof {
        lemma_trim_is_window(cs@, a as int, b as int);
    }
    (a, b)
}

/// The text without leading and trailing whitespace.
pub fn trim_str(s: &str) -> (r: &str)
    ensures
        r@ == trim(s@),
{
    let cs = to_chars(s);
    let (a, b) = trim_bounds(cs.as_slice());
    s.substring_char(a, b)
}

pub fn contains_char(cs: &[char], c: char) -> (b: bool)
    ensures
        b == cs@.contains(c),
{
    let mut i: usize = 0;
    while i < cs.len()
        invariant
            i <= cs@.len(),
            forall|j: int| 0 <= j < i ==> cs@[j] != c,
        decreases cs@.len() - i,
    {
        if cs[i] == c {
            return true;
        }
        i += 1;
    }
    false
}

/// Whether two texts hold the same characters.
pub fn same_text(a: &str, b: &str) -> (r: bool)
    ensures
        r == (a@ == b@),
{
    let x = to_chars(a);
    let y = to_chars(b);
    if x.len() != y.len() {
        return false;
    }
    let mut i: usize = 0;
    while i < x.len()
        invariant
            i <= x@.len(),
            x@ == a@,
            y@ == b@,
            x@.len() == y@.len(),
            forall|j: int| 0 <= j < i ==> x@[j] == y@[j],
        decreases x@.len() - i,
    {
        if x[i] != y[i] {
            assert(x@[i as int] != y@[i as int]);
            return false;
        }
        i += 1;
    }
    assert(x@ =~= y@);
    true
}

/// Whether `cs` ends with `suffix`.
pub fn ends_with_chars(cs: &[char], suffix: &[char]) -> (b: bool)
    ensures
        b == ends_with(cs@, suffix@),
{
    if suffix.len() > cs.len() {
        return false;
    }
    let start: usize = cs.len() - suffix.len();
    let ghost window = cs@.skip(start as int);
    let mut i: usize = 0;
    while i < suffix.len()
        invariant
            i <= suffix@.len(),
            start + suffix@.len() == cs@.len() <= usize::MAX,
            window == cs@.skip(start as int),
            forall|j: int| 0 <= j < i ==> window[j] == suffix@[j],
        decreases suffix@.len() - i,
    {
        if cs[start + i] != suffix[i] {
            assert(window[i as int] != suffix@[i as int]);
            return false;
        }
        i += 1;
    }
    assert(window =~= suffix@);
    true
}

/// The pieces of `cs` between the separators `a` and `b`.
pub fn split_chars(cs: &[char], a: char, b: char) -> (parts: Vec<String>)
    ensures
        views(parts@) == split(cs@, set![a, b]),
{
    let ghost seps = set![a, b];
    let mut parts: Vec<String> = Vec::new();
    let mut piece = String::new();
    let mut i: usize = 0;
    assert(cs@.take(0) =~= Seq::<char>::empty());
    assert(views(parts@) =~= Seq::<Seq<char>>::empty());
    assert(views(parts@).push(piece@) =~= split(cs@.take(0), seps));
    while i < cs.len()
        invariant
            i <= cs@.len(),
            seps == set![a, b],
            views(parts@).push(piece@) == split(cs@.take(i as int), seps),
        decreases cs@.len() - i,
    {
        let c = cs[i];
        let ghost before = split(cs@.take(i as int), seps);
        let ghost old_parts = views(parts@);
        proof {
            let next = cs@.take(i + 1);
            assert(next.drop_last() =~= cs@.take(i as int));
            assert(next.last() == c);
            assert(before.last() == piece@);
            assert(before.drop_last() =~= old_parts);
        }
        if c == a || c == b {
            parts.push(piece);
            piece = String::new();
            assert(views(parts@) =~= before);
        } else {
            piece.push(c);
        }
        i += 1;
    }
    assert(cs@.take(cs@.len() as int) =~= cs@);
    let ghost old_parts = views(parts@);
    let ghost last = piece@;
    parts.push(piece);
    assert(views(parts@) =~= old_parts.push(last));
    parts
}

/// `s` with every occurrence of `from` turned into `to`.
pub fn replace_in(s: &str, from: char, to: char) -> (r: String)
    ensures
        r@ == replace_char(s@, from, to),
{
    let cs = to_chars(s);
    let mut r = String::new();
    let mut i: usize = 0;
    while i < cs.len()
        invariant
            i <= cs@.len(),
            cs@ == s@,
            r@ == replace_char(s@.take(i as int), from, to),
        decreases cs@.len() - i,
    {
        let c = cs[i];
        r.push(if c == from { to } else { c });
        assert(r@ =~= replace_char(s@.take(i + 1), from, to));
        i += 1;
    }
    assert(s@.take(s@.len() as int) =~= s@);
    r
}

/// The place of the first `c` in `cs`, if there is one.
pub fn find_char(cs: &[char], c: char) -> (r: Option<usize>)
    ensures
        match r {
            Some(i) => i < cs@.len() && cs@[i as int] == c && forall|j: int|
                0 <= j < i ==> cs@[j] != c,
            None => !cs@.contains(c),
        },
{
    let mut i: usize = 0;
    while i < cs.len()
        invariant
            i <= cs@.len(),
            forall|j: int| 0 <= j < i ==> cs@[j] != c,
        decreases cs@.len() - i,
    {
        if cs[i] == c {
            return Some(i);
        }
        i += 1;
    }
    None
}

/// The items of a comma separated list.
pub fn split_list_text(s: &str) -> (r: Vec<String>)
    ensures
        views(r@) == split_list(s@),
{
    let cs = to_chars(s);
    if cs.len() == 0 {
        let r: Vec<String> = Vec::new();
        assert(views(r@) =~= Seq::<Seq<char>>::empty());
        r
    } else {
        assert(set![',', ','] =~= set![',']);
        split_chars(cs.as_slice(), ',', ',')
    }
}

/// A copy of a list of strings.
pub fn copy_texts(list: &[String]) -> (r: Vec<String>)
    ensures
        r@ == list@,
        views(r@) == views(list@),
{
    let mut r: Vec<String> = Vec::new();
    let mut i: usize = 0;
    while i < list.len()
        invariant
            i <= list@.len(),
            r@ == list@.take(i as int),
        decreases list@.len() - i,
    {
        r.push(list[i].clone());
        assert(r@ =~= list@.take(i + 1));
        i += 1;
    }
    assert(list@.take(list@.len() as int) =~= list@);
    r
}

} // verus!
