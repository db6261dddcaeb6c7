//! The status-text parser: turns what the status query prints into a unit record.
use vstd::prelude::*;

use crate::doc::{doc_from, Doc};
use crate::text::{
    chars_of, ends_with, has_prefix, has_suffix, joined, join_words, lines, lines_of,
    lemma_split_on_three, rsplit_once, rsplit_once_at, same_as, skip, slice_of, split_on, split_once, split_once_at,
    split_pieces, starts_with, strip_parens, strip_prefix, string_of, trim, trim_of, trim_start,
    trim_start_of, views, without_parens, words, words_of,
};
use crate::types::{
    auto_start_named, type_named, AutoStartStatus, CtlError, State, Type,
};
use crate::unit::{append_doc, appended, empty_unit, Unit, UnitModel};

verus! {

/// Whether the lines that follow are read as further documentation references.
#[derive(Clone, Copy, Debug, PartialEq, Eq, Structural)]
pub enum DocMode {
    /// Only lines with a known prefix carry information.
    AwaitingPrefix,
    /// A `Docs:` line was the last line with a known prefix.
    InDocs,
}

pub open spec fn is_digit(c: char) -> bool {
    '0' <= c && c <= '9'
}

/// The number that a run of decimal digits denotes.
pub open spec fn digits_value(s: Seq<char>) -> nat
    decreases s.len(),
{
    if s.len() == 0 {
        0
    } else {
        10 * digits_value(s.drop_last()) + ((s.last() as u32 - '0' as u32) as nat)
    }
}

/// `s` without one leading `+`.
pub open spec fn unsigned_digits(s: Seq<char>) -> Seq<char> {
    if s.len() > 0 && s[0] == '+' {
        s.drop_first()
    } else {
        s
    }
}

/// The unsigned 64-bit number that `s` spells: decimal digits, at least one,
/// after an optional `+`, with a value that fits.
pub open spec fn parse_u64(s: Seq<char>) -> Option<u64> {
    let d = unsigned_digits(s);
    if d.len() > 0 && (forall|i: int| 0 <= i < d.len() ==> is_digit(#[trigger] d[i]))
        && digits_value(d) <= u64::MAX {
        Some(digits_value(d) as u64)
    } else {
        None
    }
}

proof fn lemma_digits_value_grows(s: Seq<char>, c: char)
    requires
        is_digit(c),
    ensures
        digits_value(s.push(c)) >= digits_value(s),
        digits_value(s.push(c)) == 10 * digits_value(s) + ((c as u32 - '0' as u32) as nat),
{
    assert(s.push(c).drop_last() =~= s);
}

/// Reads a process identifier; anything that is not a number reads as 0.
pub fn parse_pid(v: &Vec<char>) -> (r: u64)
    ensures
        r == match parse_u64(v@) {
            Some(n) => n,
            None => 0u64,
        },
{
    let start: usize = if v.len() > 0 && v[0] == '+' {
        1
    } else {
        0
    };
    let ghost d = unsigned_digits(v@);
    assert(d =~= v@.subrange(start as int, v.len() as int));
    if start == v.len() {
        return 0;
    }
    let mut acc: u64 = 0;
    let mut i: usize = start;
    while i < v.len()
        invariant
            start <= i <= v.len(),
            d == v@.subrange(start as int, v.len() as int),
            d == unsigned_digits(v@),
            forall|j: int| start <= j < i ==> is_digit(#[trigger] v@[j]),
            acc as nat == digits_value(v@.subrange(start as int, i as int)),
        decreases v.len() - i,
    {
        let c = v[i];
        if !('0' <= c && c <= '9') {
            assert(!is_digit(d[i - start]));
            return 0;
        }
        let digit = (c as u32 - '0' as u32) as u64;
        proof {
            lemma_digits_value_grows(v@.subrange(start as int, i as int), c);
            assert(v@.subrange(start as int, i as int).push(c) =~= v@.subrange(
                start as int,
                i + 1,
            ));
        }
        if acc > (u64::MAX - digit) / 10 {
            proof {
                let k = i + 1;
                assert(10 * (acc as int) + (digit as int) > u64::MAX) by (nonlinear_arith)
                    requires
                        acc > (u64::MAX - digit) / 10,
                        digit <= 9,
                ;
                assert forall|m: int| k <= m <= v.len() implies digits_value(
                    v@.subrange(start as int, m),
                ) > u64::MAX by {
                    lemma_value_exceeds(v@, start as int, k, m);
                }
                assert(digits_value(d) > u64::MAX);
            }
            return 0;
        }
        acc = acc * 10 + digit;
        i += 1;
    }
    assert forall|j: int| 0 <= j < d.len() implies is_digit(#[trigger] d[j]) by {
        assert(d[j] == v@[start + j]);
    }
    acc
}

proof fn lemma_value_exceeds(v: Seq<char>, start: int, k: int, m: int)
    requires
        0 <= start < k <= m <= v.len(),
        digits_value(v.subrange(start, k)) > u64::MAX,
    ensures
        digits_value(v.subrange(start, m)) > u64::MAX,
    decreases m - k,
{
    if m > k {
        lemma_value_exceeds(v, start, k, m - 1);
        assert(v.subrange(start, m).drop_last() =~= v.subrange(start, m - 1));
    }
}


/// How many bytes `c` takes in UTF-8.
pub open spec fn utf8_width(c: char) -> nat {
    if (c as u32) < 0x80 {
        1
    } else if (c as u32) < 0x800 {
        2
    } else if (c as u32) < 0x10000 {
        3
    } else {
        4
    }
}

/// What follows the first `n` bytes of the UTF-8 encoding of `s`, where `s`
/// is that long and a character ends there.
pub open spec fn skip_bytes(s: Seq<char>, n: nat) -> Option<Seq<char>>
    decreases s.len(),
{
    if n == 0 {
        Some(s)
    } else if s.len() == 0 || utf8_width(s[0]) > n {
        None
    } else {
        skip_bytes(s.drop_first(), (n - utf8_width(s[0])) as nat)
    }
}

/// The description that the header's words give: what follows a lone `-`.
pub open spec fn description_of(toks: Seq<Seq<char>>) -> Option<Seq<char>> {
    if toks.len() > 1 && toks[1] == "-"@ {
        Some(joined(toks.subrange(2, toks.len() as int), " "@))
    } else {
        None
    }
}

/// The record that the first status line starts: a three-byte marker, then
/// `name.type`, then optionally `-` and a description.
pub open spec fn header_of(first: Seq<char>) -> Result<UnitModel, CtlError> {
    match skip_bytes(first, 3) {
        None => Err(CtlError::MalformedRecord),
        Some(rem) => {
            let toks = words(rem);
            if toks.len() == 0 {
                Err(CtlError::MalformedRecord)
            } else {
                match rsplit_once(toks[0], '.') {
                    None => Err(CtlError::MalformedRecord),
                    Some(p) => match type_named(p.1) {
                        None => Err(CtlError::UnknownUnitType),
                        Some(t) => Ok(
                            UnitModel {
                                name: p.0,
                                utype: t,
                                description: description_of(toks),
                                ..empty_unit()
                            },
                        ),
                    },
                }
            }
        }
    }
}

/// `s` without one leading `(` and one trailing `)`, where they are.
pub open spec fn unparen(s: Seq<char>) -> Seq<char> {
    let a = if starts_with(s, "("@) {
        skip(s, "("@.len())
    } else {
        s
    };
    if ends_with(a, ")"@) {
        a.subrange(0, a.len() - ")"@.len())
    } else {
        a
    }
}

/// The policy that a word names, with `Disabled` for any other word.
pub open spec fn auto_start_or_disabled(s: Seq<char>) -> AutoStartStatus {
    match auto_start_named(s) {
        Some(a) => a,
        None => AutoStartStatus::Disabled,
    }
}

/// The record after a `Loaded: loaded (path; policy; preset)` line, given what
/// stands inside the parentheses.
pub open spec fn loaded_fields(m: UnitModel, inner: Seq<char>) -> UnitModel {
    let items = split_on(inner, ';');
    UnitModel {
        state: State::Loaded,
        script: trim(items[0]),
        auto_start: if items.len() > 1 {
            auto_start_or_disabled(trim(items[1]))
        } else {
            AutoStartStatus::Disabled
        },
        preset: if items.len() > 2 {
            ends_with(trim(items[2]), "enabled"@)
        } else {
            m.preset
        },
        ..m
    }
}

/// A process identifier read leniently: 0 where `s` is not a number.
pub open spec fn pid_or_zero(s: Seq<char>) -> u64 {
    match parse_u64(s) {
        Some(n) => n,
        None => 0,
    }
}

/// The record after a `Main PID:` or `Cntrl PID:` line, given what follows the prefix.
pub open spec fn pid_fields(m: UnitModel, rest: Seq<char>) -> UnitModel {
    match split_once(rest, ' ') {
        Some(p) => UnitModel {
            pid: Some(pid_or_zero(p.0)),
            process: Some(without_parens(p.1)),
            ..m
        },
        None => m,
    }
}

/// The record with the reference that `s` describes appended, if it describes one.
pub open spec fn with_doc(m: UnitModel, s: Seq<char>) -> UnitModel {
    match doc_from(s) {
        Ok(d) => UnitModel { docs: appended(m.docs, d), ..m },
        Err(_) => m,
    }
}

/// One step of the status scan: the record and mode after reading `raw`.
pub open spec fn status_line(m: UnitModel, mode: DocMode, raw: Seq<char>) -> (UnitModel, DocMode) {
    let line = trim_start(raw);
    if starts_with(line, "Loaded: "@) {
        let rest = skip(line, "Loaded: "@.len());
        if starts_with(rest, "loaded "@) {
            (loaded_fields(m, unparen(skip(rest, "loaded "@.len()))), DocMode::AwaitingPrefix)
        } else if starts_with(rest, "masked"@) {
            (UnitModel { state: State::Masked, ..m }, DocMode::AwaitingPrefix)
        } else {
            (m, DocMode::AwaitingPrefix)
        }
    } else if starts_with(line, "Transient: "@) {
        if skip(line, "Transient: "@.len()) == "yes"@ {
            (UnitModel { transient: true, ..m }, DocMode::AwaitingPrefix)
        } else {
            (m, DocMode::AwaitingPrefix)
        }
    } else if starts_with(line, "Active: "@) {
        (m, DocMode::AwaitingPrefix)
    } else if starts_with(line, "Docs: "@) {
        (with_doc(m, skip(line, "Docs: "@.len())), DocMode::InDocs)
    } else if starts_with(line, "What: "@) {
        (UnitModel { mounted: Some(skip(line, "What: "@.len())), ..m }, DocMode::AwaitingPrefix)
    } else if starts_with(line, "Where: "@) {
        (
            UnitModel { mountpoint: Some(skip(line, "Where: "@.len())), ..m },
            DocMode::AwaitingPrefix,
        )
    } else if starts_with(line, "Main PID: "@) {
        (pid_fields(m, skip(line, "Main PID: "@.len())), DocMode::AwaitingPrefix)
    } else if starts_with(line, "Cntrl PID: "@) {
        (pid_fields(m, skip(line, "Cntrl PID: "@.len())), DocMode::AwaitingPrefix)
    } else if starts_with(line, "Process: "@) || starts_with(line, "CGroup: "@) || starts_with(
        line,
        "Tasks: "@,
    ) {
        (m, DocMode::AwaitingPrefix)
    } else if starts_with(line, "Memory: "@) {
        (
            UnitModel { memory: Some(trim(skip(line, "Memory: "@.len()))), ..m },
            DocMode::AwaitingPrefix,
        )
    } else if starts_with(line, "CPU: "@) {
        (UnitModel { cpu: Some(trim(skip(line, "CPU: "@.len()))), ..m }, DocMode::AwaitingPrefix)
    } else if mode == DocMode::InDocs {
        (with_doc(m, line), mode)
    } else {
        (m, mode)
    }
}

/// The record and mode after reading `ls` in order, from `m0`.
pub open spec fn status_scan(ls: Seq<Seq<char>>, m0: UnitModel) -> (UnitModel, DocMode)
    decreases ls.len(),
{
    if ls.len() == 0 {
        (m0, DocMode::AwaitingPrefix)
    } else {
        let p = status_scan(ls.drop_last(), m0);
        status_line(p.0, p.1, ls.last())
    }
}

/// The record that a status text describes: the header line starts it, and
/// each later line adds to it.
pub open spec fn status_record(text: Seq<char>) -> Result<UnitModel, CtlError> {
    let ls = lines_of(text);
    if ls.len() == 0 {
        Err(CtlError::MalformedRecord)
    } else {
        match header_of(ls[0]) {
            Err(e) => Err(e),
            Ok(m0) => Ok(status_scan(ls.subrange(1, ls.len() as int), m0).0),
        }
    }
}

/// What follows the first three bytes of `v`.
fn skip_marker(v: &Vec<char>) -> (r: Option<Vec<char>>)
    ensures
        match r {
            Some(x) => skip_bytes(v@, 3) == Some(x@),
            None => skip_bytes(v@, 3) is None,
        },
{
    let mut n: u32 = 3;
    let mut i: usize = 0;
    assert(v@.subrange(0, v.len() as int) =~= v@);
    while n > 0
        invariant
            i <= v.len(),
            n <= 3,
            skip_bytes(v@, 3) == skip_bytes(v@.subrange(i as int, v.len() as int), n as nat),
        decreases n,
    {
        if i == v.len() {
            return None;
        }
        let c = v[i];
        let w: u32 = if (c as u32) < 0x80 {
            1
        } else if (c as u32) < 0x800 {
            2
        } else if (c as u32) < 0x10000 {
            3
        } else {
            4
        };
        if w > n {
            return None;
        }
        assert(v@.subrange(i as int, v.len() as int).drop_first() =~= v@.subrange(
            i + 1,
            v.len() as int,
        ));
        n = n - w;
        i += 1;
    }
    Some(slice_of(v, i, v.len()))
}

/// The record that the first status line starts.
pub fn header_unit(first: &Vec<char>) -> (r: Result<Unit, CtlError>)
    ensures
        match r {
            Ok(u) => header_of(first@) == Ok::<UnitModel, CtlError>(u@),
            Err(e) => header_of(first@) == Err::<UnitModel, CtlError>(e),
        },
{
    let rem = match skip_marker(first) {
        Some(x) => x,
        None => return Err(CtlError::MalformedRecord),
    };
    let toks = words_of(&rem);
    assert(views(toks@).len() == toks.len());
    if toks.len() == 0 {
        return Err(CtlError::MalformedRecord);
    }
    assert(views(toks@)[0] == toks@[0]@);
    let (name, suffix) = match rsplit_once_at(&toks[0], '.') {
        Some(p) => p,
        None => return Err(CtlError::MalformedRecord),
    };
    let utype = match Type::from_chars(&suffix) {
        Some(t) => t,
        None => return Err(CtlError::UnknownUnitType),
    };
    let mut u = Unit::default();
    u.name = string_of(&name);
    u.utype = utype;
    if toks.len() > 1 && same_as(&toks[1], "-") {
        assert(views(toks@)[1] == toks@[1]@);
        let rest = toks_after(&toks, 2);
        u.description = Some(join_words(&rest));
    } else {
        assert(toks.len() > 1 ==> views(toks@)[1] == toks@[1]@);
    }
    Ok(u)
}

/// The items of `toks` from index `k` on.
fn toks_after(toks: &Vec<Vec<char>>, k: usize) -> (r: Vec<Vec<char>>)
    requires
        k <= toks.len(),
    ensures
        views(r@) == views(toks@).subrange(k as int, toks.len() as int),
{
    let mut r: Vec<Vec<char>> = Vec::new();
    let mut i: usize = k;
    while i < toks.len()
        invariant
            k <= i <= toks.len(),
            views(r@) == views(toks@).subrange(k as int, i as int),
        decreases toks.len() - i,
    {
        let ghost before = r@;
        let t = slice_of(&toks[i], 0, toks[i].len());
        assert(t@ =~= toks@[i as int]@);
        r.push(t);
        assert(views(r@) =~= views(before).push(toks@[i as int]@));
        assert(views(toks@).subrange(k as int, i + 1) =~= views(toks@).subrange(
            k as int,
            i as int,
        ).push(toks@[i as int]@));
        i += 1;
    }
    r
}


/// `v` without one leading `(` and one trailing `)`.
fn unparen_of(v: &Vec<char>) -> (r: Vec<char>)
    ensures
        r@ == unparen(v@),
{
    let a = match strip_prefix(v, "(") {
        Some(x) => x,
        None => slice_of(v, 0, v.len()),
    };
    assert(!starts_with(v@, "("@) ==> a@ =~= v@);
    if has_suffix(&a, ")") {
        let n = chars_of(")").len();
        slice_of(&a, 0, a.len() - n)
    } else {
        a
    }
}

/// Reads what stands inside the parentheses of a `Loaded: loaded` line.
fn apply_loaded(u: &mut Unit, inner: &Vec<char>)
    ensures
        final(u)@ == loaded_fields(old(u)@, inner@),
{
    let items = split_pieces(inner, ';');
    assert(views(items@).len() == items.len());
    assert(views(items@)[0] == items@[0]@);
    u.state = State::Loaded;
    u.script = string_of(&trim_of(&items[0]));
    if items.len() > 1 {
        assert(views(items@)[1] == items@[1]@);
        u.auto_start = match AutoStartStatus::from_chars(&trim_of(&items[1])) {
            Some(a) => a,
            None => AutoStartStatus::Disabled,
        };
    } else {
        u.auto_start = AutoStartStatus::Disabled;
    }
    if items.len() > 2 {
        assert(views(items@)[2] == items@[2]@);
        u.preset = has_suffix(&trim_of(&items[2]), "enabled");
    }
}

/// Reads what follows a `Main PID:` or `Cntrl PID:` prefix.
fn apply_pid(u: &mut Unit, rest: &Vec<char>)
    ensures
        final(u)@ == pid_fields(old(u)@, rest@),
{
    if let Some((num, name)) = split_once_at(rest, ' ') {
        u.pid = Some(parse_pid(&num));
        u.process = Some(string_of(&strip_parens(&name)));
    }
}

/// Appends the reference that `s` describes, if it describes one.
fn apply_doc(u: &mut Unit, s: &Vec<char>)
    ensures
        final(u)@ == with_doc(old(u)@, s@),
{
    if let Ok(d) = Doc::from_chars(s) {
        append_doc(&mut u.docs, d);
    }
}

/// Reads one line of the status text after the header.
pub fn apply_status_line(u: &mut Unit, mode: DocMode, raw: &Vec<char>) -> (r: DocMode)
    ensures
        (final(u)@, r) == status_line(old(u)@, mode, raw@),
{
    let line = trim_start_of(raw);
    if let Some(rest) = strip_prefix(&line, "Loaded: ") {
        if let Some(r2) = strip_prefix(&rest, "loaded ") {
            apply_loaded(u, &unparen_of(&r2));
        } else if has_prefix(&rest, "masked") {
            u.state = State::Masked;
        }
        return DocMode::AwaitingPrefix;
    }
    if let Some(rest) = strip_prefix(&line, "Transient: ") {
        if same_as(&rest, "yes") {
            u.transient = true;
        }
        return DocMode::AwaitingPrefix;
    }
    if has_prefix(&line, "Active: ") {
        return DocMode::AwaitingPrefix;
    }
    if let Some(rest) = strip_prefix(&line, "Docs: ") {
        apply_doc(u, &rest);
        return DocMode::InDocs;
    }
    if let Some(rest) = strip_prefix(&line, "What: ") {
        u.mounted = Some(string_of(&rest));
        return DocMode::AwaitingPrefix;
    }
    if let Some(rest) = strip_prefix(&line, "Where: ") {
        u.mountpoint = Some(string_of(&rest));
        return DocMode::AwaitingPrefix;
    }
    if let Some(rest) = strip_prefix(&line, "Main PID: ") {
        apply_pid(u, &rest);
        return DocMode::AwaitingPrefix;
    }
    if let Some(rest) = strip_prefix(&line, "Cntrl PID: ") {
        apply_pid(u, &rest);
        return DocMode::AwaitingPrefix;
    }
    if has_prefix(&line, "Process: ") || has_prefix(&line, "CGroup: ") || has_prefix(
        &line,
        "Tasks: ",
    ) {
        return DocMode::AwaitingPrefix;
    }
    if let Some(rest) = strip_prefix(&line, "Memory: ") {
        u.memory = Some(string_of(&trim_of(&rest)));
        return DocMode::AwaitingPrefix;
    }
    if let Some(rest) = strip_prefix(&line, "CPU: ") {
        u.cpu = Some(string_of(&trim_of(&rest)));
        return DocMode::AwaitingPrefix;
    }
    if mode == DocMode::InDocs {
        apply_doc(u, &line);
    }
    mode
}

/// Parses the text that the status query printed for one unit.
pub fn parse_status(text: &str) -> (r: Result<Unit, CtlError>)
    ensures
        match r {
            Ok(u) => status_record(text@) == Ok::<UnitModel, CtlError>(u@),
            Err(e) => status_record(text@) == Err::<UnitModel, CtlError>(e),
        },
{
    let v = chars_of(text);
    let ls = lines(&v);
    assert(views(ls@).len() == ls.len());
    if ls.len() == 0 {
        return Err(CtlError::MalformedRecord);
    }
    assert(views(ls@)[0] == ls@[0]@);
    let mut u = match header_unit(&ls[0]) {
        Ok(u) => u,
        Err(e) => return Err(e),
    };
    let ghost m0 = u@;
    let mut mode = DocMode::AwaitingPrefix;
    let mut i: usize = 1;
    assert(views(ls@).subrange(1, 1) =~= Seq::<Seq<char>>::empty());
    while i < ls.len()
        invariant
            1 <= i <= ls.len(),
            views(ls@) == lines_of(v@),
            (u@, mode) == status_scan(views(ls@).subrange(1, i as int), m0),
        decreases ls.len() - i,
    {
        assert(views(ls@).subrange(1, i + 1).drop_last() =~= views(ls@).subrange(1, i as int));
        assert(views(ls@)[i as int] == ls@[i as int]@);
        mode = apply_status_line(&mut u, mode, &ls[i]);
        i += 1;
    }
    Ok(u)
}


/// A line `Loaded: loaded (path;token;annotation)`.
pub open spec fn loaded_line(path: Seq<char>, token: Seq<char>, ann: Seq<char>) -> Seq<char> {
    "Loaded: "@ + "loaded "@ + "("@ + (path + seq![';'] + token + seq![';'] + ann) + ")"@
}

/// After a line `Loaded: loaded (path;token;annotation)` whose fields hold no
/// `;`, the unit is loaded, its script is the trimmed path, its policy is the
/// one the trimmed token names (`Disabled` for any other token), and its
/// preset is whether the trimmed annotation ends with `enabled`.
pub proof fn lemma_loaded_triple(
    m: UnitModel,
    mode: DocMode,
    path: Seq<char>,
    token: Seq<char>,
    ann: Seq<char>,
)
    requires
        !path.contains(';'),
        !token.contains(';'),
        !ann.contains(';'),
    ensures
        status_line(m, mode, loaded_line(path, token, ann)).0.state == State::Loaded,
        status_line(m, mode, loaded_line(path, token, ann)).0.script == trim(path),
        status_line(m, mode, loaded_line(path, token, ann)).0.auto_start
            == auto_start_or_disabled(trim(token)),
        status_line(m, mode, loaded_line(path, token, ann)).0.preset == ends_with(
            trim(ann),
            "enabled"@,
        ),
{
    reveal_strlit("Loaded: ");
    reveal_strlit("loaded ");
    reveal_strlit("(");
    reveal_strlit(")");
    let inner = path + seq![';'] + token + seq![';'] + ann;
    let l = loaded_line(path, token, ann);
    assert(l[0] == 'L');
    assert(trim_start(l) == l);
    assert(l.subrange(0, 8) =~= "Loaded: "@);
    let rest = skip(l, 8);
    assert(rest =~= "loaded "@ + "("@ + inner + ")"@);
    assert(rest.subrange(0, 7) =~= "loaded "@);
    let r2 = skip(rest, 7);
    assert(r2 =~= "("@ + inner + ")"@);
    assert(r2.subrange(0, 1) =~= "("@);
    let a = skip(r2, 1);
    assert(a =~= inner + ")"@);
    assert(a.subrange(a.len() - 1, a.len() as int) =~= ")"@);
    assert(a.subrange(0, a.len() - 1) =~= inner);
    assert(unparen(r2) == inner);
    lemma_split_on_three(path, token, ann, ';');
}

/// A `Loaded:` line whose policy token names none of the seven policies
/// yields `Disabled`; reading it never fails.
pub proof fn lemma_unknown_policy_disabled(
    m: UnitModel,
    mode: DocMode,
    path: Seq<char>,
    token: Seq<char>,
    ann: Seq<char>,
)
    requires
        !path.contains(';'),
        !token.contains(';'),
        !ann.contains(';'),
        auto_start_named(trim(token)) is None,
    ensures
        status_line(m, mode, loaded_line(path, token, ann)).0.auto_start
            == AutoStartStatus::Disabled,
{
    lemma_loaded_triple(m, mode, path, token, ann);
}


/// A line that does not begin, after leading whitespace, with `Loaded: `
/// leaves the load state, script, policy and preset as they were.
pub proof fn lemma_other_line_keeps_load_fields(m: UnitModel, mode: DocMode, l: Seq<char>)
    requires
        !starts_with(trim_start(l), "Loaded: "@),
    ensures
        status_line(m, mode, l).0.state == m.state,
        status_line(m, mode, l).0.script == m.script,
        status_line(m, mode, l).0.auto_start == m.auto_start,
        status_line(m, mode, l).0.preset == m.preset,
{
}

proof fn lemma_scan_keeps_load_fields(ls: Seq<Seq<char>>, m0: UnitModel, k: int)
    requires
        0 <= k <= ls.len(),
        forall|j: int| k <= j < ls.len() ==> !starts_with(trim_start(#[trigger] ls[j]), "Loaded: "@),
    ensures
        status_scan(ls, m0).0.state == status_scan(ls.subrange(0, k), m0).0.state,
        status_scan(ls, m0).0.script == status_scan(ls.subrange(0, k), m0).0.script,
        status_scan(ls, m0).0.auto_start == status_scan(ls.subrange(0, k), m0).0.auto_start,
        status_scan(ls, m0).0.preset == status_scan(ls.subrange(0, k), m0).0.preset,
    decreases ls.len(),
{
    if ls.len() == k {
        assert(ls.subrange(0, k) =~= ls);
    } else {
        let prev = ls.drop_last();
        assert(prev.subrange(0, k) =~= ls.subrange(0, k));
        assert forall|j: int| k <= j < prev.len() implies !starts_with(
            trim_start(#[trigger] prev[j]),
            "Loaded: "@,
        ) by {
            assert(prev[j] == ls[j]);
        }
        lemma_scan_keeps_load_fields(prev, m0, k);
        let p = status_scan(prev, m0);
        assert(ls.last() == ls[ls.len() - 1]);
        lemma_other_line_keeps_load_fields(p.0, p.1, ls.last());
    }
}

/// In a status text whose line `k` after the header is
/// `Loaded: loaded (path;token;annotation)`, with no `;` in the three fields,
/// and where no later line begins with `Loaded: `, the record is loaded, its
/// script is the trimmed path, its policy is the one the trimmed token names
/// (`Disabled` for any other token), and its preset is whether the trimmed
/// annotation ends with `enabled`.
pub proof fn lemma_status_loaded_fields(
    text: Seq<char>,
    k: int,
    path: Seq<char>,
    token: Seq<char>,
    ann: Seq<char>,
)
    requires
        1 <= k < lines_of(text).len(),
        header_of(lines_of(text)[0]) is Ok,
        lines_of(text)[k] == loaded_line(path, token, ann),
        !path.contains(';'),
        !token.contains(';'),
        !ann.contains(';'),
        forall|j: int|
            k < j < lines_of(text).len() ==> !starts_with(
                trim_start(#[trigger] lines_of(text)[j]),
                "Loaded: "@,
            ),
    ensures
        status_record(text) is Ok,
        status_record(text)->Ok_0.state == State::Loaded,
        status_record(text)->Ok_0.script == trim(path),
        status_record(text)->Ok_0.auto_start == auto_start_or_disabled(trim(token)),
        status_record(text)->Ok_0.preset == ends_with(trim(ann), "enabled"@),
{
    let all = lines_of(text);
    let ls = all.subrange(1, all.len() as int);
    let m0 = header_of(all[0])->Ok_0;
    assert forall|j: int| k <= j < ls.len() implies !starts_with(
        trim_start(#[trigger] ls[j]),
        "Loaded: "@,
    ) by {
        assert(ls[j] == all[j + 1]);
    }
    lemma_scan_keeps_load_fields(ls, m0, k);
    let upto = ls.subrange(0, k);
    assert(upto.drop_last() =~= ls.subrange(0, k - 1));
    assert(upto.last() == all[k]);
    let p = status_scan(ls.subrange(0, k - 1), m0);
    lemma_loaded_triple(p.0, p.1, path, token, ann);
}

/// In such a status text, a policy token that names none of the seven
/// policies gives `Disabled`, and the text still reads as a record.
pub proof fn lemma_status_unknown_policy(
    text: Seq<char>,
    k: int,
    path: Seq<char>,
    token: Seq<char>,
    ann: Seq<char>,
)
    requires
        1 <= k < lines_of(text).len(),
        header_of(lines_of(text)[0]) is Ok,
        lines_of(text)[k] == loaded_line(path, token, ann),
        !path.contains(';'),
        !token.contains(';'),
        !ann.contains(';'),
        forall|j: int|
            k < j < lines_of(text).len() ==> !starts_with(
                trim_start(#[trigger] lines_of(text)[j]),
                "Loaded: "@,
            ),
        auto_start_named(trim(token)) is None,
    ensures
        status_record(text) is Ok,
        status_record(text)->Ok_0.auto_start == AutoStartStatus::Disabled,
{
    lemma_status_loaded_fields(text, k, path, token, ann);
}

} // verus!
