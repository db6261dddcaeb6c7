//! The listing parsers: one whitespace-separated record per line.
use vstd::prelude::*;

use crate::text::{
    chars_of, ends_with, has_char, has_suffix, lines, lines_of, same_as, string_of,
    views, words, words_of,
};
use crate::types::CtlError;
use crate::unit::{UnitList, UnitService};

verus! {

/// What a `UnitList` holds.
pub struct UnitListModel {
    pub unit_file: Seq<char>,
    pub state: Seq<char>,
    pub vendor_preset: Option<bool>,
}

impl View for UnitList {
    type V = UnitListModel;

    open spec fn view(&self) -> UnitListModel {
        UnitListModel {
            unit_file: self.unit_file@,
            state: self.state@,
            vendor_preset: self.vendor_preset,
        }
    }
}

/// What a `UnitService` holds.
pub struct UnitServiceModel {
    pub unit_name: Seq<char>,
    pub loaded: Seq<char>,
    pub state: Seq<char>,
    pub sub_state: Seq<char>,
    pub description: Seq<char>,
}

impl View for UnitService {
    type V = UnitServiceModel;

    open spec fn view(&self) -> UnitServiceModel {
        UnitServiceModel {
            unit_name: self.unit_name@,
            loaded: self.loaded@,
            state: self.state@,
            sub_state: self.sub_state@,
            description: self.description@,
        }
    }
}

pub open spec fn unit_list_views(v: Seq<UnitList>) -> Seq<UnitListModel> {
    v.map_values(|x: UnitList| x@)
}

pub open spec fn unit_service_views(v: Seq<UnitService>) -> Seq<UnitServiceModel> {
    v.map_values(|x: UnitService| x@)
}

/// Whether a listing line holds a record: it has a dot and does not end in
/// one, which leaves out headers and the closing count.
pub open spec fn is_record_line(l: Seq<char>) -> bool {
    l.contains('.') && !ends_with(l, "."@)
}

/// The vendor preset that a listing column shows.
pub open spec fn preset_of(s: Seq<char>) -> Option<bool> {
    if s == "enabled"@ {
        Some(true)
    } else if s == "disabled"@ {
        Some(false)
    } else {
        None
    }
}

/// The record of a unit-file listing line: name, state, vendor preset.
pub open spec fn unit_file_entry(l: Seq<char>) -> Result<UnitListModel, CtlError> {
    let w = words(l);
    if w.len() < 3 {
        Err(CtlError::MalformedRecord)
    } else {
        Ok(UnitListModel { unit_file: w[0], state: w[1], vendor_preset: preset_of(w[2]) })
    }
}

/// Each word preceded by a space.
pub open spec fn spaced(ws: Seq<Seq<char>>) -> Seq<char>
    decreases ws.len(),
{
    if ws.len() == 0 {
        Seq::empty()
    } else {
        spaced(ws.drop_last()) + " "@ + ws.last()
    }
}

/// The record of a loaded-unit listing line: name, load state, state,
/// sub-state, and the remaining words as description.
pub open spec fn unit_entry(l: Seq<char>) -> Result<UnitServiceModel, CtlError> {
    let w = words(l);
    if w.len() < 4 {
        Err(CtlError::MalformedRecord)
    } else {
        Ok(
            UnitServiceModel {
                unit_name: w[0],
                loaded: w[1],
                state: w[2],
                sub_state: w[3],
                description: spaced(w.subrange(4, w.len() as int)),
            },
        )
    }
}

/// The records of the unit-file listing lines `ls`, in order; the first
/// record line that is too short fails the whole listing.
pub open spec fn unit_file_scan(ls: Seq<Seq<char>>) -> Result<Seq<UnitListModel>, CtlError>
    decreases ls.len(),
{
    if ls.len() == 0 {
        Ok(Seq::empty())
    } else {
        match unit_file_scan(ls.drop_last()) {
            Err(e) => Err(e),
            Ok(s) => if is_record_line(ls.last()) {
                match unit_file_entry(ls.last()) {
                    Ok(x) => Ok(s.push(x)),
                    Err(e) => Err(e),
                }
            } else {
                Ok(s)
            },
        }
    }
}

/// The records of the loaded-unit listing lines `ls`, in order.
pub open spec fn unit_scan(ls: Seq<Seq<char>>) -> Result<Seq<UnitServiceModel>, CtlError>
    decreases ls.len(),
{
    if ls.len() == 0 {
        Ok(Seq::empty())
    } else {
        match unit_scan(ls.drop_last()) {
            Err(e) => Err(e),
            Ok(s) => if is_record_line(ls.last()) {
                match unit_entry(ls.last()) {
                    Ok(x) => Ok(s.push(x)),
                    Err(e) => Err(e),
                }
            } else {
                Ok(s)
            },
        }
    }
}

pub open spec fn unit_files_of(text: Seq<char>) -> Result<Seq<UnitListModel>, CtlError> {
    unit_file_scan(lines_of(text))
}

pub open spec fn units_of(text: Seq<char>) -> Result<Seq<UnitServiceModel>, CtlError> {
    unit_scan(lines_of(text))
}

fn record_line(l: &Vec<char>) -> (r: bool)
    ensures
        r == is_record_line(l@),
{
    has_char(l, '.') && !has_suffix(l, ".")
}

/// Reads one unit-file listing line.
pub fn parse_unit_file_line(l: &Vec<char>) -> (r: Result<UnitList, CtlError>)
    ensures
        match r {
            Ok(x) => unit_file_entry(l@) == Ok::<UnitListModel, CtlError>(x@),
            Err(e) => unit_file_entry(l@) == Err::<UnitListModel, CtlError>(e),
        },
{
    let w = words_of(l);
    assert(views(w@).len() == w.len());
    if w.len() < 3 {
        return Err(CtlError::MalformedRecord);
    }
    assert(views(w@)[0] == w@[0]@ && views(w@)[1] == w@[1]@ && views(w@)[2] == w@[2]@);
    let preset = if same_as(&w[2], "enabled") {
        Some(true)
    } else if same_as(&w[2], "disabled") {
        Some(false)
    } else {
        None
    };
    Ok(UnitList { unit_file: string_of(&w[0]), state: string_of(&w[1]), vendor_preset: preset })
}

/// Appends a space and then `word`.
fn push_spaced(desc: &mut Vec<char>, word: &Vec<char>)
    ensures
        final(desc)@ == old(desc)@ + " "@ + word@,
{
    let mut sp = chars_of(" ");
    desc.append(&mut sp);
    let mut j: usize = 0;
    let ghost base = desc@;
    assert(base =~= old(desc)@ + " "@);
    while j < word.len()
        invariant
            j <= word.len(),
            desc@ == base + word@.subrange(0, j as int),
        decreases word.len() - j,
    {
        desc.push(word[j]);
        j += 1;
        assert(desc@ =~= base + word@.subrange(0, j as int));
    }
    assert(word@.subrange(0, j as int) =~= word@);
}

/// Reads one loaded-unit listing line.
pub fn parse_unit_line(l: &Vec<char>) -> (r: Result<UnitService, CtlError>)
    ensures
        match r {
            Ok(x) => unit_entry(l@) == Ok::<UnitServiceModel, CtlError>(x@),
            Err(e) => unit_entry(l@) == Err::<UnitServiceModel, CtlError>(e),
        },
{
    let w = words_of(l);
    assert(views(w@).len() == w.len());
    if w.len() < 4 {
        return Err(CtlError::MalformedRecord);
    }
    assert(views(w@)[0] == w@[0]@ && views(w@)[1] == w@[1]@ && views(w@)[2] == w@[2]@);
    assert(views(w@)[3] == w@[3]@);
    let mut desc: Vec<char> = Vec::new();
    let mut i: usize = 4;
    assert(views(w@).subrange(4, 4) =~= Seq::<Seq<char>>::empty());
    while i < w.len()
        invariant
            4 <= i <= w.len(),
            views(w@) == words(l@),
            desc@ == spaced(views(w@).subrange(4, i as int)),
        decreases w.len() - i,
    {
        assert(views(w@).subrange(4, i + 1).drop_last() =~= views(w@).subrange(4, i as int));
        assert(views(w@)[i as int] == w@[i as int]@);
        push_spaced(&mut desc, &w[i]);
        i += 1;
    }
    Ok(
        UnitService {
            unit_name: string_of(&w[0]),
            loaded: string_of(&w[1]),
            state: string_of(&w[2]),
            sub_state: string_of(&w[3]),
            description: string_of(&desc),
        },
    )
}

/// Parses a unit-file listing.
pub fn parse_unit_files(text: &str) -> (r: Result<Vec<UnitList>, CtlError>)
    ensures
        match r {
            Ok(v) => unit_files_of(text@) == Ok::<Seq<UnitListModel>, CtlError>(
                unit_list_views(v@),
            ),
            Err(e) => unit_files_of(text@) == Err::<Seq<UnitListModel>, CtlError>(e),
        },
{
    let v = chars_of(text);
    let ls = lines(&v);
    let mut out: Vec<UnitList> = Vec::new();
    let mut i: usize = 0;
    assert(unit_list_views(out@) =~= Seq::<UnitListModel>::empty());
    assert(views(ls@).subrange(0, 0) =~= Seq::<Seq<char>>::empty());
    while i < ls.len()
        invariant
            i <= ls.len(),
            views(ls@) == lines_of(v@),
            v@ == text@,
            unit_file_scan(views(ls@).subrange(0, i as int)) == Ok::<
                Seq<UnitListModel>,
                CtlError,
            >(unit_list_views(out@)),
        decreases ls.len() - i,
    {
        assert(views(ls@).subrange(0, i + 1).drop_last() =~= views(ls@).subrange(0, i as int));
        assert(views(ls@)[i as int] == ls@[i as int]@);
        if record_line(&ls[i]) {
            match parse_unit_file_line(&ls[i]) {
                Ok(x) => {
                    let ghost before = out@;
                    out.push(x);
                    assert(unit_list_views(out@) =~= unit_list_views(before).push(x@));
                },
                Err(e) => {
                    proof {
                        lemma_unit_file_scan_fails(views(ls@), i as int + 1);
                    }
                    return Err(e);
                },
            }
        }
        i += 1;
    }
    assert(views(ls@).subrange(0, ls.len() as int) =~= views(ls@));
    Ok(out)
}

proof fn lemma_unit_file_scan_fails(ls: Seq<Seq<char>>, k: int)
    requires
        0 <= k <= ls.len(),
        unit_file_scan(ls.subrange(0, k)) is Err,
    ensures
        unit_file_scan(ls) == unit_file_scan(ls.subrange(0, k)),
    decreases ls.len() - k,
{
    if k < ls.len() {
        assert(ls.subrange(0, k + 1).drop_last() =~= ls.subrange(0, k));
        lemma_unit_file_scan_fails(ls, k + 1);
    } else {
        assert(ls.subrange(0, k) =~= ls);
    }
}

proof fn lemma_unit_scan_fails(ls: Seq<Seq<char>>, k: int)
    requires
        0 <= k <= ls.len(),
        unit_scan(ls.subrange(0, k)) is Err,
    ensures
        unit_scan(ls) == unit_scan(ls.subrange(0, k)),
    decreases ls.len() - k,
{
    if k < ls.len() {
        assert(ls.subrange(0, k + 1).drop_last() =~= ls.subrange(0, k));
        lemma_unit_scan_fails(ls, k + 1);
    } else {
        assert(ls.subrange(0, k) =~= ls);
    }
}

/// Parses a loaded-unit listing.
pub fn parse_units(text: &str) -> (r: Result<Vec<UnitService>, CtlError>)
    ensures
        match r {
            Ok(v) => units_of(text@) == Ok::<Seq<UnitServiceModel>, CtlError>(
                unit_service_views(v@),
            ),
            Err(e) => units_of(text@) == Err::<Seq<UnitServiceModel>, CtlError>(e),
        },
{
    let v = chars_of(text);
    let ls = lines(&v);
    let mut out: Vec<UnitService> = Vec::new();
    let mut i: usize = 0;
    assert(unit_service_views(out@) =~= Seq::<UnitServiceModel>::empty());
    assert(views(ls@).subrange(0, 0) =~= Seq::<Seq<char>>::empty());
    while i < ls.len()
        invariant
            i <= ls.len(),
            views(ls@) == lines_of(v@),
            v@ == text@,
            unit_scan(views(ls@).subrange(0, i as int)) == Ok::<
                Seq<UnitServiceModel>,
                CtlError,
            >(unit_service_views(out@)),
        decreases ls.len() - i,
    {
        assert(views(ls@).subrange(0, i + 1).drop_last() =~= views(ls@).subrange(0, i as int));
        assert(views(ls@)[i as int] == ls@[i as int]@);
        if record_line(&ls[i]) {
            match parse_unit_line(&ls[i]) {
                Ok(x) => {
                    let ghost before = out@;
                    out.push(x);
                    assert(unit_service_views(out@) =~= unit_service_views(before).push(x@));
                },
                Err(e) => {
                    proof {
                        lemma_unit_scan_fails(views(ls@), i as int + 1);
                    }
                    return Err(e);
                },
            }
        }
        i += 1;
    }
    assert(views(ls@).subrange(0, ls.len() as int) =~= views(ls@));
    Ok(out)
}


/// In a unit-file listing line of exactly three words, the words give name,
/// state and vendor preset, where `-` gives no preset, `enabled` gives true
/// and `disabled` gives false.
pub proof fn lemma_vendor_preset_column(l: Seq<char>)
    requires
        words(l).len() == 3,
    ensures
        unit_file_entry(l) is Ok,
        unit_file_entry(l)->Ok_0.unit_file == words(l)[0],
        unit_file_entry(l)->Ok_0.state == words(l)[1],
        words(l)[2] == "-"@ ==> unit_file_entry(l)->Ok_0.vendor_preset is None,
        words(l)[2] == "enabled"@ ==> unit_file_entry(l)->Ok_0.vendor_preset == Some(true),
        words(l)[2] == "disabled"@ ==> unit_file_entry(l)->Ok_0.vendor_preset == Some(false),
{
    reveal_strlit("-");
    reveal_strlit("enabled");
    reveal_strlit("disabled");
    assert("-"@.len() == 1 && "enabled"@.len() == 7 && "disabled"@.len() == 8);
}

} // verus!
