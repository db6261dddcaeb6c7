//! The directive-dump parser: `Key=Value` lines that add dependency and
//! command fields to a unit record.
use vstd::prelude::*;

use crate::text::{chars_of, lemma_split_once_after, lines, lines_of, same_as, split_once, split_once_at, string_of, trim, trim_of, views};
use crate::unit::{append_string, appended, Unit, UnitModel};

verus! {

/// The record after one line of a directive dump. A line is split at its first
/// `=`; the trimmed value is appended to a list directive or replaces a
/// single-valued one; other keys and lines without `=` change nothing.
pub open spec fn directive_line(m: UnitModel, line: Seq<char>) -> UnitModel {
    match split_once(line, '=') {
        None => m,
        Some(p) => {
            let k = p.0;
            let v = trim(p.1);
            if k == "Wants"@ {
                UnitModel { wants: appended(m.wants, v), ..m }
            } else if k == "WantedBy"@ {
                UnitModel { wanted_by: appended(m.wanted_by, v), ..m }
            } else if k == "Also"@ {
                UnitModel { also: appended(m.also, v), ..m }
            } else if k == "Before"@ {
                UnitModel { before: appended(m.before, v), ..m }
            } else if k == "After"@ {
                UnitModel { after: appended(m.after, v), ..m }
            } else if k == "ExecStart"@ {
                UnitModel { exec_start: Some(v), ..m }
            } else if k == "ExecReload"@ {
                UnitModel { exec_reload: Some(v), ..m }
            } else if k == "Restart"@ {
                UnitModel { restart_policy: Some(v), ..m }
            } else if k == "KillMode"@ {
                UnitModel { kill_mode: Some(v), ..m }
            } else {
                m
            }
        },
    }
}

/// The record after the lines `ls`, in order.
pub open spec fn directives_scan(ls: Seq<Seq<char>>, m: UnitModel) -> UnitModel
    decreases ls.len(),
{
    if ls.len() == 0 {
        m
    } else {
        directive_line(directives_scan(ls.drop_last(), m), ls.last())
    }
}

/// The record after reading the directive dump `text`.
pub open spec fn with_directives(m: UnitModel, text: Seq<char>) -> UnitModel {
    directives_scan(lines_of(text), m)
}

/// Reads one line of a directive dump into `u`.
pub fn apply_directive_line(u: &mut Unit, line: &Vec<char>)
    ensures
        final(u)@ == directive_line(old(u)@, line@),
{
    if let Some((k, raw)) = split_once_at(line, '=') {
        let v = string_of(&trim_of(&raw));
        if same_as(&k, "Wants") {
            append_string(&mut u.wants, v);
        } else if same_as(&k, "WantedBy") {
            append_string(&mut u.wanted_by, v);
        } else if same_as(&k, "Also") {
            append_string(&mut u.also, v);
        } else if same_as(&k, "Before") {
            append_string(&mut u.before, v);
        } else if same_as(&k, "After") {
            append_string(&mut u.after, v);
        } else if same_as(&k, "ExecStart") {
            u.exec_start = Some(v);
        } else if same_as(&k, "ExecReload") {
            u.exec_reload = Some(v);
        } else if same_as(&k, "Restart") {
            u.restart_policy = Some(v);
        } else if same_as(&k, "KillMode") {
            u.kill_mode = Some(v);
        }
    }
}

/// Reads a directive dump into `u`.
pub fn apply_directives(u: &mut Unit, text: &str)
    ensures
        final(u)@ == with_directives(old(u)@, text@),
{
    let v = chars_of(text);
    let ls = lines(&v);
    let ghost m0 = u@;
    let mut i: usize = 0;
    assert(views(ls@).subrange(0, 0) =~= Seq::<Seq<char>>::empty());
    while i < ls.len()
        invariant
            i <= ls.len(),
            views(ls@) == lines_of(v@),
            v@ == text@,
            u@ == directives_scan(views(ls@).subrange(0, i as int), m0),
        decreases ls.len() - i,
    {
        assert(views(ls@).subrange(0, i + 1).drop_last() =~= views(ls@).subrange(0, i as int));
        assert(views(ls@)[i as int] == ls@[i as int]@);
        apply_directive_line(u, &ls[i]);
        i += 1;
    }
    assert(views(ls@).subrange(0, ls.len() as int) =~= views(ls@));
}


/// `Wants=a` then `Wants=b` on a record without wants gives the wants `a`, `b`
/// (trimmed), in that order.
pub proof fn lemma_list_directive_order(m: UnitModel, a: Seq<char>, b: Seq<char>)
    requires
        m.wants is None,
    ensures
        directive_line(directive_line(m, "Wants="@ + a), "Wants="@ + b).wants == Some(
            seq![trim(a), trim(b)],
        ),
{
    reveal_strlit("Wants=");
    reveal_strlit("Wants");
    assert("Wants="@ =~= "Wants"@ + seq!['=']);
    assert(!"Wants"@.contains('='));
    lemma_split_once_after("Wants"@, a, '=');
    lemma_split_once_after("Wants"@, b, '=');
    assert("Wants="@ + a =~= "Wants"@ + seq!['='] + a);
    assert("Wants="@ + b =~= "Wants"@ + seq!['='] + b);
    assert(seq![trim(a)].push(trim(b)) =~= seq![trim(a), trim(b)]);
}

/// `ExecStart=x` then `ExecStart=y` keeps the last value, `y` (trimmed).
pub proof fn lemma_last_directive_wins(m: UnitModel, x: Seq<char>, y: Seq<char>)
    ensures
        directive_line(directive_line(m, "ExecStart="@ + x), "ExecStart="@ + y).exec_start == Some(
            trim(y),
        ),
{
    reveal_strlit("ExecStart=");
    reveal_strlit("ExecStart");
    reveal_strlit("Wants");
    reveal_strlit("WantedBy");
    reveal_strlit("Also");
    reveal_strlit("Before");
    reveal_strlit("After");
    assert("ExecStart="@ =~= "ExecStart"@ + seq!['=']);
    assert(!"ExecStart"@.contains('='));
    lemma_split_once_after("ExecStart"@, x, '=');
    lemma_split_once_after("ExecStart"@, y, '=');
    assert("ExecStart="@ + x =~= "ExecStart"@ + seq!['='] + x);
    assert("ExecStart="@ + y =~= "ExecStart"@ + seq!['='] + y);
}


/// The trimmed values of the lines whose key (the text before the first `=`)
/// is `key`, in order.
pub open spec fn key_values(ls: Seq<Seq<char>>, key: Seq<char>) -> Seq<Seq<char>>
    decreases ls.len(),
{
    if ls.len() == 0 {
        Seq::empty()
    } else {
        let prev = key_values(ls.drop_last(), key);
        match split_once(ls.last(), '=') {
            Some(p) => if p.0 == key {
                prev.push(trim(p.1))
            } else {
                prev
            },
            None => prev,
        }
    }
}

/// `items` extended by `vs`; a list is started only where `vs` is not empty.
pub open spec fn appended_all(items: Option<Seq<Seq<char>>>, vs: Seq<Seq<char>>) -> Option<
    Seq<Seq<char>>,
> {
    if vs.len() == 0 {
        items
    } else {
        match items {
            Some(s) => Some(s + vs),
            None => Some(vs),
        }
    }
}

/// The last of `vs`, or `d` where there is none.
pub open spec fn last_or(vs: Seq<Seq<char>>, d: Option<Seq<char>>) -> Option<Seq<char>> {
    if vs.len() == 0 {
        d
    } else {
        Some(vs.last())
    }
}

/// Over a whole dump, `Wants` collects every `Wants=` value in the order
/// seen (and stays unset where there is none), `ExecStart` is the last
/// `ExecStart=` value, and the fields that the status text gives are kept.
pub proof fn lemma_directives_scan_fields(ls: Seq<Seq<char>>, m: UnitModel)
    ensures
        directives_scan(ls, m).wants == appended_all(m.wants, key_values(ls, "Wants"@)),
        directives_scan(ls, m).exec_start == last_or(key_values(ls, "ExecStart"@), m.exec_start),
        directives_scan(ls, m).name == m.name,
        directives_scan(ls, m).state == m.state,
        directives_scan(ls, m).script == m.script,
        directives_scan(ls, m).auto_start == m.auto_start,
        directives_scan(ls, m).preset == m.preset,
    decreases ls.len(),
{
    reveal_strlit("ExecStart");
    reveal_strlit("Wants");
    reveal_strlit("WantedBy");
    reveal_strlit("Also");
    reveal_strlit("Before");
    reveal_strlit("After");
    assert("ExecStart"@.len() == 9 && "Wants"@.len() == 5 && "WantedBy"@.len() == 8);
    assert("Also"@.len() == 4 && "Before"@.len() == 6 && "After"@.len() == 5);
    assert("Wants"@[1] == 'a' && "After"@[1] == 'f');
    if ls.len() > 0 {
        let prev = ls.drop_last();
        lemma_directives_scan_fields(prev, m);
        let w = key_values(prev, "Wants"@);
        match split_once(ls.last(), '=') {
            Some(p) => {
                if p.0 == "Wants"@ {
                    let v = trim(p.1);
                    match m.wants {
                        Some(s0) => {
                            if w.len() > 0 {
                                assert(s0 + w.push(v) =~= (s0 + w).push(v));
                            } else {
                                assert(s0 + w.push(v) =~= s0.push(v));
                            }
                        },
                        None => {
                            if w.len() == 0 {
                                assert(w.push(v) =~= seq![v]);
                            }
                        },
                    }
                }
            },
            None => {},
        }
    }
}

/// A dump whose `Wants=` lines carry `a` and then `b`, and a record from the
/// status text (no wants yet), give the wants `a`, `b` in that order.
pub proof fn lemma_dump_wants_in_order(m: UnitModel, text: Seq<char>, a: Seq<char>, b: Seq<char>)
    requires
        m.wants is None,
        key_values(lines_of(text), "Wants"@) == seq![a, b],
    ensures
        with_directives(m, text).wants == Some(seq![a, b]),
{
    lemma_directives_scan_fields(lines_of(text), m);
}

/// A dump whose `ExecStart=` lines carry `x` and then `y` gives `y`.
pub proof fn lemma_dump_last_exec_start(m: UnitModel, text: Seq<char>, x: Seq<char>, y: Seq<char>)
    requires
        key_values(lines_of(text), "ExecStart"@) == seq![x, y],
    ensures
        with_directives(m, text).exec_start == Some(y),
{
    lemma_directives_scan_fields(lines_of(text), m);
}

} // verus!
