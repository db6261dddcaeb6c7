//! Character-level text handling: whitespace, trimming, splitting, prefixes.
use vstd::prelude::*;

verus! {

/// Whitespace in the sense of the Unicode `White_Space` property.
pub open spec fn is_space(c: char) -> bool {
    ('\u{9}' <= c && c <= '\u{d}') || c == ' ' || c == '\u{85}' || c == '\u{a0}'
        || c == '\u{1680}' || ('\u{2000}' <= c && c <= '\u{200a}') || c == '\u{2028}'
        || c == '\u{2029}' || c == '\u{202f}' || c == '\u{205f}' || c == '\u{3000}'
}

/// ASCII whitespace: space, tab, line feed, form feed, carriage return.
pub open spec fn is_ascii_space(c: char) -> bool {
    c == ' ' || c == '\t' || c == '\n' || c == '\u{c}' || c == '\r'
}

pub fn char_is_space(c: char) -> (r: bool)
    ensures
        r == is_space(c),
{
    ('\u{9}' <= c && c <= '\u{d}') || c == ' ' || c == '\u{85}' || c == '\u{a0}'
        || c == '\u{1680}' || ('\u{2000}' <= c && c <= '\u{200a}') || c == '\u{2028}'
        || c == '\u{2029}' || c == '\u{202f}' || c == '\u{205f}' || c == '\u{3000}'
}

pub fn char_is_ascii_space(c: char) -> (r: bool)
    ensures
        r == is_ascii_space(c),
{
    c == ' ' || c == '\t' || c == '\n' || c == '\u{c}' || c == '\r'
}

/// The characters of `s`, in order.
pub fn chars_of(s: &str) -> (r: Vec<char>)
    ensures
        r@ == s@,
{
    let mut r: Vec<char> = Vec::new();
    for c in it: s.chars()
        invariant
            it.seq() == s@,
            r@ == it.seq().subrange(0, it.index() as int),
    {
        r.push(c);
    }
    r
}

/// Relies on `String::push`: appends one character.
#[verifier::external_body]
fn push_char(s: &mut String, c: char)
    ensures
        final(s)@ == old(s)@.push(c),
{
    s.push(c)
}

/// A `String` holding the characters of `v`.
pub fn string_of(v: &Vec<char>) -> (r: String)
    ensures
        r@ == v@,
{
    let mut r = String::new();
    let mut i: usize = 0;
    while i < v.len()
        invariant
            i <= v.len(),
            r@ == v@.subrange(0, i as int),
        decreases v.len() - i,
    {
        push_char(&mut r, v[i]);
        i += 1;
    }
    r
}


/// The views of a sequence of character vectors.
pub open spec fn views(v: Seq<Vec<char>>) -> Seq<Seq<char>> {
    v.map_values(|x: Vec<char>| x@)
}

/// The views of a sequence of strings.
pub open spec fn string_views(v: Seq<String>) -> Seq<Seq<char>> {
    v.map_values(|x: String| x@)
}

/// `s` without its leading whitespace.
pub open spec fn trim_start(s: Seq<char>) -> Seq<char>
    decreases s.len(),
{
    if s.len() > 0 && is_space(s[0]) {
        trim_start(s.drop_first())
    } else {
        s
    }
}

/// `s` without its trailing whitespace.
pub open spec fn trim_end(s: Seq<char>) -> Seq<char>
    decreases s.len(),
{
    if s.len() > 0 && is_space(s.last()) {
        trim_end(s.drop_last())
    } else {
        s
    }
}

/// `s` without leading and trailing whitespace.
pub open spec fn trim(s: Seq<char>) -> Seq<char> {
    trim_end(trim_start(s))
}

pub open spec fn starts_with(s: Seq<char>, p: Seq<char>) -> bool {
    p.len() <= s.len() && s.subrange(0, p.len() as int) == p
}

pub open spec fn ends_with(s: Seq<char>, p: Seq<char>) -> bool {
    p.len() <= s.len() && s.subrange(s.len() - p.len(), s.len() as int) == p
}

/// What follows the first `n` characters of `s`.
pub open spec fn skip(s: Seq<char>, n: nat) -> Seq<char> {
    s.subrange(n as int, s.len() as int)
}

/// Splitting at `sep`, left to right: the pieces closed so far and the open one.
pub open spec fn split_scan(s: Seq<char>, sep: char) -> (Seq<Seq<char>>, Seq<char>)
    decreases s.len(),
{
    if s.len() == 0 {
        (Seq::empty(), Seq::empty())
    } else {
        let p = split_scan(s.drop_last(), sep);
        if s.last() == sep {
            (p.0.push(p.1), Seq::empty())
        } else {
            (p.0, p.1.push(s.last()))
        }
    }
}

/// The pieces of `s` between occurrences of `sep` (one more than there are `sep`s).
pub open spec fn split_on(s: Seq<char>, sep: char) -> Seq<Seq<char>> {
    split_scan(s, sep).0.push(split_scan(s, sep).1)
}

/// A line without the carriage return that ends it, if one does.
pub open spec fn without_cr(l: Seq<char>) -> Seq<char> {
    if l.len() > 0 && l.last() == '\r' {
        l.drop_last()
    } else {
        l
    }
}

/// The lines of `s`: the pieces between line feeds, where a final line feed
/// ends the last line rather than opening an empty one, and a carriage return
/// before a line feed belongs to the line ending.
pub open spec fn lines_of(s: Seq<char>) -> Seq<Seq<char>> {
    let closed = split_scan(s, '\n').0.map_values(|l: Seq<char>| without_cr(l));
    if split_scan(s, '\n').1.len() > 0 {
        closed.push(split_scan(s, '\n').1)
    } else {
        closed
    }
}

/// Splitting at ASCII whitespace, left to right: the words closed so far and the open one.
pub open spec fn word_scan(s: Seq<char>) -> (Seq<Seq<char>>, Seq<char>)
    decreases s.len(),
{
    if s.len() == 0 {
        (Seq::empty(), Seq::empty())
    } else {
        let p = word_scan(s.drop_last());
        if is_ascii_space(s.last()) {
            if p.1.len() > 0 {
                (p.0.push(p.1), Seq::empty())
            } else {
                p
            }
        } else {
            (p.0, p.1.push(s.last()))
        }
    }
}

/// The non-empty runs of non-whitespace characters of `s`, in order.
pub open spec fn words(s: Seq<char>) -> Seq<Seq<char>> {
    if word_scan(s).1.len() > 0 {
        word_scan(s).0.push(word_scan(s).1)
    } else {
        word_scan(s).0
    }
}

/// What comes before and after the first `c` of `s`, if `s` holds one.
pub open spec fn split_once(s: Seq<char>, c: char) -> Option<(Seq<char>, Seq<char>)>
    decreases s.len(),
{
    if s.len() == 0 {
        None
    } else {
        match split_once(s.drop_last(), c) {
            Some(p) => Some((p.0, p.1.push(s.last()))),
            None => if s.last() == c {
                Some((s.drop_last(), Seq::empty()))
            } else {
                None
            },
        }
    }
}

/// What comes before and after the last `c` of `s`, if `s` holds one.
pub open spec fn rsplit_once(s: Seq<char>, c: char) -> Option<(Seq<char>, Seq<char>)>
    decreases s.len(),
{
    if s.len() == 0 {
        None
    } else if s.last() == c {
        Some((s.drop_last(), Seq::empty()))
    } else {
        match rsplit_once(s.drop_last(), c) {
            Some(p) => Some((p.0, p.1.push(s.last()))),
            None => None,
        }
    }
}

/// `s` up to its first `c`, or all of `s` if it holds none.
pub open spec fn before_first(s: Seq<char>, c: char) -> Seq<char> {
    match split_once(s, c) {
        Some(p) => p.0,
        None => s,
    }
}

/// `s` without any parenthesis.
pub open spec fn without_parens(s: Seq<char>) -> Seq<char>
    decreases s.len(),
{
    if s.len() == 0 {
        s
    } else if s.last() == '(' || s.last() == ')' {
        without_parens(s.drop_last())
    } else {
        without_parens(s.drop_last()).push(s.last())
    }
}

/// The items one after another, with `sep` between each two.
pub open spec fn joined(items: Seq<Seq<char>>, sep: Seq<char>) -> Seq<char>
    decreases items.len(),
{
    if items.len() == 0 {
        Seq::empty()
    } else if items.len() == 1 {
        items[0]
    } else {
        joined(items.drop_last(), sep) + sep + items.last()
    }
}

/// The characters of `v` from `lo` up to `hi`.
pub fn slice_of(v: &Vec<char>, lo: usize, hi: usize) -> (r: Vec<char>)
    requires
        lo <= hi <= v.len(),
    ensures
        r@ == v@.subrange(lo as int, hi as int),
{
    let mut r: Vec<char> = Vec::new();
    let mut i: usize = lo;
    while i < hi
        invariant
            lo <= i <= hi <= v.len(),
            r@ == v@.subrange(lo as int, i as int),
        decreases hi - i,
    {
        r.push(v[i]);
        i += 1;
    }
    r
}

pub fn trim_start_of(v: &Vec<char>) -> (r: Vec<char>)
    ensures
        r@ == trim_start(v@),
{
    let mut i: usize = 0;
    assert(v@.subrange(0, v.len() as int) =~= v@);
    while i < v.len() && char_is_space(v[i])
        invariant
            i <= v.len(),
            trim_start(v@) == trim_start(v@.subrange(i as int, v.len() as int)),
        decreases v.len() - i,
    {
        assert(v@.subrange(i as int, v.len() as int).drop_first() =~= v@.subrange(
            i + 1,
            v.len() as int,
        ));
        i += 1;
    }
    slice_of(v, i, v.len())
}

pub fn trim_end_of(v: &Vec<char>) -> (r: Vec<char>)
    ensures
        r@ == trim_end(v@),
{
    let mut j: usize = v.len();
    assert(v@.subrange(0, j as int) =~= v@);
    while j > 0 && char_is_space(v[j - 1])
        invariant
            j <= v.len(),
            trim_end(v@) == trim_end(v@.subrange(0, j as int)),
        decreases j,
    {
        assert(v@.subrange(0, j as int).drop_last() =~= v@.subrange(0, j - 1));
        j -= 1;
    }
    slice_of(v, 0, j)
}

pub fn trim_of(v: &Vec<char>) -> (r: Vec<char>)
    ensures
        r@ == trim(v@),
{
    let t = trim_start_of(v);
    trim_end_of(&t)
}

/// Whether `v` begins with the characters of `p`.
pub fn has_prefix(v: &Vec<char>, p: &str) -> (r: bool)
    ensures
        r == starts_with(v@, p@),
{
    let pc = chars_of(p);
    if pc.len() > v.len() {
        return false;
    }
    let mut i: usize = 0;
    while i < pc.len()
        invariant
            pc@ == p@,
            pc.len() <= v.len(),
            i <= pc.len(),
            forall|j: int| 0 <= j < i ==> v@[j] == pc@[j],
        decreases pc.len() - i,
    {
        if v[i] != pc[i] {
            assert(v@.subrange(0, pc.len() as int)[i as int] != pc@[i as int]);
            return false;
        }
        i += 1;
    }
    assert(v@.subrange(0, pc.len() as int) =~= pc@);
    true
}

/// Whether `v` ends with the characters of `p`.
pub fn has_suffix(v: &Vec<char>, p: &str) -> (r: bool)
    ensures
        r == ends_with(v@, p@),
{
    let pc = chars_of(p);
    if pc.len() > v.len() {
        return false;
    }
    let off = v.len() - pc.len();
    let mut i: usize = 0;
    while i < pc.len()
        invariant
            pc@ == p@,
            off + pc.len() == v.len(),
            i <= pc.len(),
            forall|j: int| 0 <= j < i ==> v@[off + j] == pc@[j],
        decreases pc.len() - i,
    {
        if v[off + i] != pc[i] {
            assert(v@.subrange(off as int, v.len() as int)[i as int] != pc@[i as int]);
            return false;
        }
        i += 1;
    }
    assert(v@.subrange(off as int, v.len() as int) =~= pc@);
    true
}

/// Whether `v` holds exactly the characters of `p`.
pub fn same_as(v: &Vec<char>, p: &str) -> (r: bool)
    ensures
        r == (v@ == p@),
{
    let pc = chars_of(p);
    if pc.len() != v.len() {
        return false;
    }
    let mut i: usize = 0;
    while i < pc.len()
        invariant
            pc@ == p@,
            pc.len() == v.len(),
            i <= pc.len(),
            forall|j: int| 0 <= j < i ==> v@[j] == pc@[j],
        decreases pc.len() - i,
    {
        if v[i] != pc[i] {
            return false;
        }
        i += 1;
    }
    assert(v@ =~= pc@);
    true
}

/// What follows `p` in `v`, if `v` begins with `p`.
pub fn strip_prefix(v: &Vec<char>, p: &str) -> (r: Option<Vec<char>>)
    ensures
        r is Some <==> starts_with(v@, p@),
        r is Some ==> r->0@ == skip(v@, p@.len()),
{
    if has_prefix(v, p) {
        let n = chars_of(p).len();
        Some(slice_of(v, n, v.len()))
    } else {
        None
    }
}

/// Whether `v` holds `c`.
pub fn has_char(v: &Vec<char>, c: char) -> (r: bool)
    ensures
        r == v@.contains(c),
{
    let mut i: usize = 0;
    while i < v.len()
        invariant
            i <= v.len(),
            forall|j: int| 0 <= j < i ==> v@[j] != c,
        decreases v.len() - i,
    {
        if v[i] == c {
            return true;
        }
        i += 1;
    }
    false
}


/// Splits `v` at `sep`, left to right; `done` gets the closed pieces.
fn split_run(v: &Vec<char>, sep: char) -> (r: (Vec<Vec<char>>, Vec<char>))
    ensures
        views(r.0@) == split_scan(v@, sep).0,
        r.1@ == split_scan(v@, sep).1,
{
    let mut done: Vec<Vec<char>> = Vec::new();
    let mut cur: Vec<char> = Vec::new();
    let mut i: usize = 0;
    while i < v.len()
        invariant
            i <= v.len(),
            views(done@) == split_scan(v@.subrange(0, i as int), sep).0,
            cur@ == split_scan(v@.subrange(0, i as int), sep).1,
        decreases v.len() - i,
    {
        assert(v@.subrange(0, i + 1).drop_last() =~= v@.subrange(0, i as int));
        let c = v[i];
        if c == sep {
            let ghost d = done@;
            done.push(cur);
            assert(views(done@) =~= views(d).push(cur@));
            cur = Vec::new();
        } else {
            cur.push(c);
        }
        i += 1;
    }
    assert(v@.subrange(0, v.len() as int) =~= v@);
    (done, cur)
}

/// The pieces of `v` between occurrences of `sep`.
pub fn split_pieces(v: &Vec<char>, sep: char) -> (r: Vec<Vec<char>>)
    ensures
        views(r@) == split_on(v@, sep),
{
    let (mut done, cur) = split_run(v, sep);
    let ghost d = done@;
    done.push(cur);
    assert(views(done@) =~= views(d).push(split_scan(v@, sep).1));
    done
}

/// The lines of `v`.
pub fn lines(v: &Vec<char>) -> (r: Vec<Vec<char>>)
    ensures
        views(r@) == lines_of(v@),
{
    let (done, cur) = split_run(v, '\n');
    let ghost closed = split_scan(v@, '\n').0;
    let mut r: Vec<Vec<char>> = Vec::new();
    let mut i: usize = 0;
    while i < done.len()
        invariant
            i <= done.len(),
            views(done@) == closed,
            views(r@) == closed.subrange(0, i as int).map_values(|l: Seq<char>| without_cr(l)),
        decreases done.len() - i,
    {
        let l = &done[i];
        assert(views(done@)[i as int] == l@);
        let n = if l.len() > 0 && l[l.len() - 1] == '\r' {
            l.len() - 1
        } else {
            l.len()
        };
        let t = slice_of(l, 0, n);
        assert(t@ =~= without_cr(l@));
        let ghost before = r@;
        r.push(t);
        assert(views(r@) =~= views(before).push(without_cr(l@)));
        assert(closed.subrange(0, i + 1).map_values(|l: Seq<char>| without_cr(l))
            =~= closed.subrange(0, i as int).map_values(|l: Seq<char>| without_cr(l)).push(
            without_cr(closed[i as int]),
        ));
        i += 1;
    }
    assert(closed.subrange(0, i as int) =~= closed);
    if cur.len() > 0 {
        let ghost d = r@;
        r.push(cur);
        assert(views(r@) =~= views(d).push(split_scan(v@, '\n').1));
    }
    r
}

/// The whitespace-separated words of `v`.
pub fn words_of(v: &Vec<char>) -> (r: Vec<Vec<char>>)
    ensures
        views(r@) == words(v@),
{
    let mut done: Vec<Vec<char>> = Vec::new();
    let mut cur: Vec<char> = Vec::new();
    let mut i: usize = 0;
    while i < v.len()
        invariant
            i <= v.len(),
            views(done@) == word_scan(v@.subrange(0, i as int)).0,
            cur@ == word_scan(v@.subrange(0, i as int)).1,
        decreases v.len() - i,
    {
        assert(v@.subrange(0, i + 1).drop_last() =~= v@.subrange(0, i as int));
        let c = v[i];
        if char_is_ascii_space(c) {
            if cur.len() > 0 {
                let ghost d = done@;
                done.push(cur);
                assert(views(done@) =~= views(d).push(cur@));
                cur = Vec::new();
            }
        } else {
            cur.push(c);
        }
        i += 1;
    }
    assert(v@.subrange(0, v.len() as int) =~= v@);
    if cur.len() > 0 {
        let ghost d = done@;
        done.push(cur);
        assert(views(done@) =~= views(d).push(word_scan(v@).1));
    }
    done
}

/// What comes before and after the first `c` of `v`.
pub fn split_once_at(v: &Vec<char>, c: char) -> (r: Option<(Vec<char>, Vec<char>)>)
    ensures
        match r {
            Some(p) => split_once(v@, c) == Some((p.0@, p.1@)),
            None => split_once(v@, c) is None,
        },
{
    let mut i: usize = 0;
    while i < v.len()
        invariant
            i <= v.len(),
            forall|j: int| 0 <= j < i ==> v@[j] != c,
            split_once(v@.subrange(0, i as int), c) is None,
        decreases v.len() - i,
    {
        assert(v@.subrange(0, i + 1).drop_last() =~= v@.subrange(0, i as int));
        if v[i] == c {
            let mut k: usize = i + 1;
            assert(split_once(v@.subrange(0, k as int), c) == Some(
                (v@.subrange(0, i as int), v@.subrange(i + 1, k as int)),
            ));
            while k < v.len()
                invariant
                    i < k <= v.len(),
                    split_once(v@.subrange(0, k as int), c) == Some(
                        (v@.subrange(0, i as int), v@.subrange(i + 1, k as int)),
                    ),
                decreases v.len() - k,
            {
                assert(v@.subrange(0, k + 1).drop_last() =~= v@.subrange(0, k as int));
                assert(v@.subrange(i + 1, k as int).push(v@[k as int]) =~= v@.subrange(
                    i + 1,
                    k + 1,
                ));
                k += 1;
            }
            assert(v@.subrange(0, v.len() as int) =~= v@);
            return Some((slice_of(v, 0, i), slice_of(v, i + 1, v.len())));
        }
        i += 1;
    }
    assert(v@.subrange(0, v.len() as int) =~= v@);
    None
}

/// What comes before and after the last `c` of `v`.
pub fn rsplit_once_at(v: &Vec<char>, c: char) -> (r: Option<(Vec<char>, Vec<char>)>)
    ensures
        match r {
            Some(p) => rsplit_once(v@, c) == Some((p.0@, p.1@)),
            None => rsplit_once(v@, c) is None,
        },
{
    let mut found: Option<usize> = None;
    let mut i: usize = 0;
    while i < v.len()
        invariant
            i <= v.len(),
            match found {
                Some(k) => k < i && rsplit_once(v@.subrange(0, i as int), c) == Some(
                    (v@.subrange(0, k as int), v@.subrange(k + 1, i as int)),
                ),
                None => rsplit_once(v@.subrange(0, i as int), c) is None,
            },
        decreases v.len() - i,
    {
        assert(v@.subrange(0, i + 1).drop_last() =~= v@.subrange(0, i as int));
        if v[i] == c {
            found = Some(i);
        } else {
            if let Some(k) = found {
                assert(v@.subrange(k + 1, i as int).push(v@[i as int]) =~= v@.subrange(
                    k + 1,
                    i + 1,
                ));
            }
        }
        i += 1;
    }
    assert(v@.subrange(0, v.len() as int) =~= v@);
    match found {
        Some(k) => Some((slice_of(v, 0, k), slice_of(v, k + 1, v.len()))),
        None => None,
    }
}

/// `v` up to its first `c`.
pub fn before_first_of(v: &Vec<char>, c: char) -> (r: Vec<char>)
    ensures
        r@ == before_first(v@, c),
{
    match split_once_at(v, c) {
        Some((a, _b)) => a,
        None => slice_of(v, 0, v.len()),
    }
}

/// `v` without its parentheses.
pub fn strip_parens(v: &Vec<char>) -> (r: Vec<char>)
    ensures
        r@ == without_parens(v@),
{
    let mut r: Vec<char> = Vec::new();
    let mut i: usize = 0;
    while i < v.len()
        invariant
            i <= v.len(),
            r@ == without_parens(v@.subrange(0, i as int)),
        decreases v.len() - i,
    {
        assert(v@.subrange(0, i + 1).drop_last() =~= v@.subrange(0, i as int));
        if v[i] != '(' && v[i] != ')' {
            r.push(v[i]);
        }
        i += 1;
    }
    assert(v@.subrange(0, v.len() as int) =~= v@);
    r
}

/// Relies on `itertools::join`: the items written one after another, `sep` between each two.
#[verifier::external_body]
fn join_strings(items: &Vec<String>, sep: &str) -> (r: String)
    ensures
        r@ == joined(string_views(items@), sep@),
{
    itertools::join(items, sep)
}

/// The words joined by single spaces.
pub fn join_words(items: &Vec<Vec<char>>) -> (r: String)
    ensures
        r@ == joined(views(items@), " "@),
{
    let mut strs: Vec<String> = Vec::new();
    let mut i: usize = 0;
    while i < items.len()
        invariant
            i <= items.len(),
            string_views(strs@) == views(items@.subrange(0, i as int)),
        decreases items.len() - i,
    {
        let ghost before = strs@;
        strs.push(string_of(&items[i]));
        assert(string_views(strs@) =~= string_views(before).push(items@[i as int]@));
        assert(views(items@.subrange(0, i + 1)) =~= views(items@.subrange(0, i as int)).push(
            items@[i as int]@,
        ));
        i += 1;
    }
    assert(items@.subrange(0, items.len() as int) =~= items@);
    join_strings(&strs, " ")
}


/// Appending text without `sep` extends the open piece.
pub proof fn lemma_split_scan_append(s: Seq<char>, t: Seq<char>, sep: char)
    requires
        !t.contains(sep),
    ensures
        split_scan(s + t, sep) == (split_scan(s, sep).0, split_scan(s, sep).1 + t),
    decreases t.len(),
{
    if t.len() == 0 {
        assert(s + t =~= s);
        assert(split_scan(s, sep).1 + t =~= split_scan(s, sep).1);
    } else {
        assert(!t.drop_last().contains(sep)) by {
            if t.drop_last().contains(sep) {
                let i = choose|i: int| 0 <= i < t.drop_last().len() && t.drop_last()[i] == sep;
                assert(t[i] == sep);
            }
        }
        lemma_split_scan_append(s, t.drop_last(), sep);
        assert((s + t).drop_last() =~= s + t.drop_last());
        assert(t.last() == t[t.len() - 1]);
        assert((s + t).last() == t.last());
        assert(split_scan(s, sep).1 + t.drop_last() + seq![t.last()] =~= split_scan(s, sep).1 + t);
        assert((split_scan(s, sep).1 + t.drop_last()).push(t.last()) =~= split_scan(s, sep).1 + t);
    }
}

/// A piece without `sep` followed by `sep` closes that piece.
pub proof fn lemma_split_scan_close(s: Seq<char>, t: Seq<char>, sep: char)
    requires
        !t.contains(sep),
    ensures
        split_scan(s + t + seq![sep], sep) == (
            split_scan(s, sep).0.push(split_scan(s, sep).1 + t),
            Seq::<char>::empty(),
        ),
{
    lemma_split_scan_append(s, t, sep);
    assert((s + t + seq![sep]).drop_last() =~= s + t);
}

/// Three pieces without `sep`, joined by `sep`, split back into those pieces.
pub proof fn lemma_split_on_three(a: Seq<char>, b: Seq<char>, d: Seq<char>, sep: char)
    requires
        !a.contains(sep),
        !b.contains(sep),
        !d.contains(sep),
    ensures
        split_on(a + seq![sep] + b + seq![sep] + d, sep) == seq![a, b, d],
{
    let e = Seq::<char>::empty();
    lemma_split_scan_close(e, a, sep);
    assert(e + a + seq![sep] =~= a + seq![sep]);
    lemma_split_scan_close(a + seq![sep], b, sep);
    assert(split_scan(a + seq![sep], sep).1 + b =~= b);
    lemma_split_scan_append(a + seq![sep] + b + seq![sep], d, sep);
    assert(Seq::<char>::empty() + d =~= d);
    assert(Seq::<Seq<char>>::empty().push(a).push(b).push(d) =~= seq![a, b, d]);
    assert(split_scan(e, sep).1 + a =~= a);
}

/// Text without `c` holds no first `c`.
pub proof fn lemma_split_once_none(s: Seq<char>, c: char)
    requires
        !s.contains(c),
    ensures
        split_once(s, c) is None,
    decreases s.len(),
{
    if s.len() > 0 {
        assert(!s.drop_last().contains(c)) by {
            if s.drop_last().contains(c) {
                let i = choose|i: int| 0 <= i < s.drop_last().len() && s.drop_last()[i] == c;
                assert(s[i] == c);
            }
        }
        lemma_split_once_none(s.drop_last(), c);
        assert(s.last() == s[s.len() - 1]);
    }
}

/// The first `c` of `p + c + a`, where `p` holds none, is the one after `p`.
pub proof fn lemma_split_once_after(p: Seq<char>, a: Seq<char>, c: char)
    requires
        !p.contains(c),
    ensures
        split_once(p + seq![c] + a, c) == Some((p, a)),
    decreases a.len(),
{
    if a.len() == 0 {
        lemma_split_once_none(p, c);
        assert(p + seq![c] + a =~= p.push(c));
        assert(p.push(c).drop_last() =~= p);
    } else {
        lemma_split_once_after(p, a.drop_last(), c);
        assert((p + seq![c] + a).drop_last() =~= p + seq![c] + a.drop_last());
        assert(a.drop_last().push(a.last()) =~= a);
    }
}

} // verus!
