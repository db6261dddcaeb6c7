//! Building a unit record from four runs of the control program, as a state
//! machine: each state names the run it waits for, and each answer moves it on.
use vstd::prelude::*;

use crate::ctl::{
    active_from, capture_text, captured_text, found_from, listing_args, Captured, Invocation,
    SystemCtl,
};
use crate::directives::{
    appended_all, apply_directives, key_values, last_or, lemma_directives_scan_fields, with_directives,
};
use crate::listing::parse_unit_files;
use crate::status::{parse_status, status_record};
use crate::text::{chars_of, lines_of, same_as, string_of, string_views, trim_of};
use crate::types::CtlError;
use crate::unit::{Unit, UnitModel};

verus! {

/// Where the construction of a unit record stands.
pub enum UnitBuild {
    /// Waiting for the unit-file listing filtered by the name, which shows whether the unit exists.
    Listing(String),
    /// Waiting for the status text.
    Status(String),
    /// Waiting for the directive dump.
    Directives(Unit),
    /// Waiting for the activity query.
    Activity(Unit),
    /// Finished, with the record or the failure.
    Done(Result<Unit, CtlError>),
}

/// What a `UnitBuild` holds.
pub enum BuildModel {
    Listing(Seq<char>),
    Status(Seq<char>),
    Directives(UnitModel),
    Activity(UnitModel),
    Done(Result<UnitModel, CtlError>),
}

pub open spec fn unit_result(r: Result<Unit, CtlError>) -> Result<UnitModel, CtlError> {
    match r {
        Ok(u) => Ok(u@),
        Err(e) => Err(e),
    }
}

impl View for UnitBuild {
    type V = BuildModel;

    open spec fn view(&self) -> BuildModel {
        match self {
            UnitBuild::Listing(n) => BuildModel::Listing(n@),
            UnitBuild::Status(n) => BuildModel::Status(n@),
            UnitBuild::Directives(u) => BuildModel::Directives(u@),
            UnitBuild::Activity(u) => BuildModel::Activity(u@),
            UnitBuild::Done(r) => BuildModel::Done(unit_result(*r)),
        }
    }
}

/// The arguments of the run that the build waits for; none once it is done.
/// The directive dump and the activity query name the unit without its type suffix.
pub open spec fn build_request(b: BuildModel) -> Option<Seq<Seq<char>>> {
    match b {
        BuildModel::Listing(n) => Some(listing_args("list-unit-files"@, None, None, Some(n))),
        BuildModel::Status(n) => Some(seq!["status"@, n]),
        BuildModel::Directives(m) => Some(seq!["cat"@, m.name]),
        BuildModel::Activity(m) => Some(seq!["is-active"@, m.name]),
        BuildModel::Done(_) => None,
    }
}

/// The record that a run's status text gives.
pub open spec fn status_from(t: Result<Seq<char>, CtlError>) -> Result<UnitModel, CtlError> {
    match t {
        Ok(x) => status_record(x),
        Err(e) => Err(e),
    }
}

/// The build after the awaited run answered `out`. A unit that the listing
/// does not show ends the build with `NotFound`; a failed directive dump
/// leaves the directive fields unset; every other failure ends the build.
pub open spec fn build_step(b: BuildModel, out: Result<Captured, CtlError>) -> BuildModel {
    match b {
        BuildModel::Listing(n) => match found_from(captured_text(out)) {
            Err(e) => BuildModel::Done(Err(e)),
            Ok(found) => if found {
                BuildModel::Status(n)
            } else {
                BuildModel::Done(Err(CtlError::NotFound))
            },
        },
        BuildModel::Status(_) => match status_from(captured_text(out)) {
            Err(e) => BuildModel::Done(Err(e)),
            Ok(m) => BuildModel::Directives(m),
        },
        BuildModel::Directives(m) => match captured_text(out) {
            Ok(t) => BuildModel::Activity(with_directives(m, t)),
            Err(_) => BuildModel::Activity(m),
        },
        BuildModel::Activity(m) => match active_from(captured_text(out)) {
            Ok(a) => BuildModel::Done(Ok(UnitModel { active: a, ..m })),
            Err(e) => BuildModel::Done(Err(e)),
        },
        BuildModel::Done(r) => BuildModel::Done(r),
    }
}

/// The build after the answers `outs`, one per step.
pub open spec fn build_steps(b: BuildModel, outs: Seq<Result<Captured, CtlError>>) -> BuildModel
    decreases outs.len(),
{
    if outs.len() == 0 {
        b
    } else {
        build_step(build_steps(b, outs.drop_last()), outs.last())
    }
}

/// How many runs the build still waits for at most.
pub open spec fn build_rank(b: BuildModel) -> nat {
    match b {
        BuildModel::Listing(_) => 4,
        BuildModel::Status(_) => 3,
        BuildModel::Directives(_) => 2,
        BuildModel::Activity(_) => 1,
        BuildModel::Done(_) => 0,
    }
}

impl SystemCtl {
    /// Each answer in `outs` came from `run`, for the run that the build
    /// awaited at that step.
    pub open spec fn answered<F: Fn(Invocation) -> Result<Captured, CtlError>>(
        &self,
        run: &F,
        b: BuildModel,
        outs: Seq<Result<Captured, CtlError>>,
    ) -> bool {
        forall|k: int|
            0 <= k < outs.len() ==> match #[trigger] build_request(
                build_steps(b, outs.subrange(0, k)),
            ) {
                Some(args) => self.ran(run, args, outs[k]),
                None => true,
            }
    }
}

impl UnitBuild {
    /// The build of the record of `name`, before any run.
    pub fn start(name: &str) -> (r: UnitBuild)
        ensures
            r@ == BuildModel::Listing(name@),
    {
        UnitBuild::Listing(string_of(&chars_of(name)))
    }

    /// The run that the build waits for, if it is not done.
    pub fn request(&self, ctl: &SystemCtl) -> (r: Option<Invocation>)
        ensures
            match r {
                Some(i) => build_request(self@) is Some && i.program@ == ctl.program()
                    && string_views(i.args@) == ctl.global_args() + build_request(self@)->0,
                None => build_request(self@) is None,
            },
    {
        match self {
            UnitBuild::Listing(n) => {
                let mut a: Vec<String> = Vec::new();
                a.push(string_of(&chars_of("list-unit-files")));
                a.push(n.clone());
                assert(string_views(a@) =~= listing_args("list-unit-files"@, None, None, Some(n@)));
                Some(ctl.invocation(&a))
            },
            UnitBuild::Status(n) => {
                let mut a: Vec<String> = Vec::new();
                a.push(string_of(&chars_of("status")));
                a.push(n.clone());
                assert(string_views(a@) =~= seq!["status"@, n@]);
                Some(ctl.invocation(&a))
            },
            UnitBuild::Directives(u) => {
                let mut a: Vec<String> = Vec::new();
                a.push(string_of(&chars_of("cat")));
                a.push(u.name.clone());
                assert(string_views(a@) =~= seq!["cat"@, u.name@]);
                Some(ctl.invocation(&a))
            },
            UnitBuild::Activity(u) => {
                let mut a: Vec<String> = Vec::new();
                a.push(string_of(&chars_of("is-active")));
                a.push(u.name.clone());
                assert(string_views(a@) =~= seq!["is-active"@, u.name@]);
                Some(ctl.invocation(&a))
            },
            UnitBuild::Done(_) => None,
        }
    }

    /// The build after the awaited run answered `out`.
    pub fn advance(self, out: Result<Captured, CtlError>) -> (r: UnitBuild)
        ensures
            r@ == build_step(self@, out),
    {
        match self {
            UnitBuild::Listing(n) => {
                let listed = match capture_text(out) {
                    Ok(s) => parse_unit_files(s.as_str()),
                    Err(e) => Err(e),
                };
                match listed {
                    Err(e) => UnitBuild::Done(Err(e)),
                    Ok(v) => if v.len() > 0 {
                        UnitBuild::Status(n)
                    } else {
                        UnitBuild::Done(Err(CtlError::NotFound))
                    },
                }
            },
            UnitBuild::Status(_) => {
                let parsed = match capture_text(out) {
                    Ok(s) => parse_status(s.as_str()),
                    Err(e) => Err(e),
                };
                match parsed {
                    Err(e) => UnitBuild::Done(Err(e)),
                    Ok(u) => UnitBuild::Directives(u),
                }
            },
            UnitBuild::Directives(u) => {
                let mut u = u;
                if let Ok(s) = capture_text(out) {
                    apply_directives(&mut u, s.as_str());
                }
                UnitBuild::Activity(u)
            },
            UnitBuild::Activity(u) => {
                let mut u = u;
                match capture_text(out) {
                    Ok(s) => {
                        let t = trim_of(&chars_of(s.as_str()));
                        u.active = same_as(&t, "active");
                        UnitBuild::Done(Ok(u))
                    },
                    Err(e) => UnitBuild::Done(Err(e)),
                }
            },
            UnitBuild::Done(r) => UnitBuild::Done(r),
        }
    }

    /// The outcome, once the build is done.
    pub fn outcome(self) -> (r: Option<Result<Unit, CtlError>>)
        ensures
            match self@ {
                BuildModel::Done(x) => r is Some && unit_result(r->0) == x,
                _ => r is None,
            },
    {
        match self {
            UnitBuild::Done(r) => Some(r),
            _ => None,
        }
    }
}


impl SystemCtl {
    /// Builds the record of unit `name`: checks by a filtered listing that it
    /// exists, parses its status text, adds what its directive dump gives,
    /// and asks whether it is active. Every run goes through `run`.
    pub fn create_unit<F: Fn(Invocation) -> Result<Captured, CtlError>>(
        &self,
        name: &str,
        run: &F,
    ) -> (r: Result<Unit, CtlError>)
        requires
            forall|i: Invocation| run.requires((i,)),
        ensures
            exists|outs: Seq<Result<Captured, CtlError>>|
                self.answered(run, BuildModel::Listing(name@), outs) && build_steps(
                    BuildModel::Listing(name@),
                    outs,
                ) == BuildModel::Done(unit_result(r)),
    {
        let mut b = UnitBuild::start(name);
        let ghost start = b@;
        let ghost mut outs: Seq<Result<Captured, CtlError>> = Seq::empty();
        loop
            invariant
                forall|i: Invocation| run.requires((i,)),
                b@ == build_steps(start, outs),
                self.answered(run, start, outs),
            ensures
                b@ == build_steps(start, outs),
                self.answered(run, start, outs),
                build_request(b@) is None,
            decreases build_rank(b@),
        {
            match b.request(self) {
                Some(inv) => {
                    let ghost args = build_request(b@)->0;
                    let ghost before = b@;
                    let out = run(inv);
                    let ghost o = out;
                    proof {
                        assert(self.ran(run, args, o));
                        let next = outs.push(o);
                        assert(next.drop_last() =~= outs);
                        assert forall|k: int| 0 <= k < next.len() implies match #[trigger] build_request(
                            build_steps(start, next.subrange(0, k)),
                        ) {
                            Some(a) => self.ran(run, a, next[k]),
                            None => true,
                        } by {
                            assert(next.subrange(0, k) =~= outs.subrange(0, k) || k == outs.len());
                            if k < outs.len() {
                                assert(next.subrange(0, k) =~= outs.subrange(0, k));
                                assert(next[k] == outs[k]);
                            } else {
                                assert(next.subrange(0, k) =~= outs);
                            }
                        }
                        outs = next;
                    }
                    b = b.advance(out);
                },
                None => break,
            }
        }
        match b.outcome() {
            Some(r) => r,
            None => Err(CtlError::NotFound),
        }
    }
}


/// The build from `b` after one answer and then `rest`.
proof fn lemma_steps_prepend(
    b: BuildModel,
    o: Result<Captured, CtlError>,
    rest: Seq<Result<Captured, CtlError>>,
)
    ensures
        build_steps(b, seq![o] + rest) == build_steps(build_step(b, o), rest),
    decreases rest.len(),
{
    if rest.len() == 0 {
        assert(seq![o] + rest =~= seq![o]);
        assert(seq![o].drop_last() =~= Seq::<Result<Captured, CtlError>>::empty());
        assert(seq![o].last() == o);
        assert(build_steps(b, Seq::<Result<Captured, CtlError>>::empty()) == b);
    } else {
        lemma_steps_prepend(b, o, rest.drop_last());
        assert((seq![o] + rest).drop_last() =~= seq![o] + rest.drop_last());
        assert((seq![o] + rest).last() == rest.last());
    }
}

/// A finished build stays as it is.
proof fn lemma_done_stays(x: Result<UnitModel, CtlError>, outs: Seq<Result<Captured, CtlError>>)
    ensures
        build_steps(BuildModel::Done(x), outs) == BuildModel::Done(x),
    decreases outs.len(),
{
    if outs.len() > 0 {
        lemma_done_stays(x, outs.drop_last());
    }
}

/// When the listing filtered by the name shows no unit, the build ends with
/// `NotFound` and, whatever follows, asks for no further run: the status text
/// is never queried.
pub proof fn lemma_missing_unit_stops(
    name: Seq<char>,
    out: Result<Captured, CtlError>,
    later: Seq<Result<Captured, CtlError>>,
)
    requires
        found_from(captured_text(out)) == Ok::<bool, CtlError>(false),
    ensures
        build_step(BuildModel::Listing(name), out) == BuildModel::Done(
            Err::<UnitModel, CtlError>(CtlError::NotFound),
        ),
        build_steps(BuildModel::Listing(name), seq![out] + later) == BuildModel::Done(
            Err::<UnitModel, CtlError>(CtlError::NotFound),
        ),
        build_request(build_steps(BuildModel::Listing(name), seq![out] + later)) is None,
{
    lemma_steps_prepend(BuildModel::Listing(name), out, later);
    lemma_done_stays(Err(CtlError::NotFound), later);
}


/// The record after the directive-dump run: what its text adds, or the
/// record unchanged where that run failed.
pub open spec fn after_dump(m: UnitModel, od: Result<Captured, CtlError>) -> UnitModel {
    match captured_text(od) {
        Ok(t) => with_directives(m, t),
        Err(_) => m,
    }
}

/// A build whose listing shows the unit, whose status text reads as `m` and
/// whose activity query answers `a` ends with `m`, completed by the directive
/// dump and marked active as answered.
pub proof fn lemma_build_completes(
    name: Seq<char>,
    ol: Result<Captured, CtlError>,
    os: Result<Captured, CtlError>,
    od: Result<Captured, CtlError>,
    oa: Result<Captured, CtlError>,
    m: UnitModel,
    a: bool,
)
    requires
        found_from(captured_text(ol)) == Ok::<bool, CtlError>(true),
        status_from(captured_text(os)) == Ok::<UnitModel, CtlError>(m),
        active_from(captured_text(oa)) == Ok::<bool, CtlError>(a),
    ensures
        build_steps(BuildModel::Listing(name), seq![ol, os, od, oa]) == BuildModel::Done(
            Ok::<UnitModel, CtlError>(UnitModel { active: a, ..after_dump(m, od) }),
        ),
{
    let outs = seq![ol, os, od, oa];
    assert(outs.drop_last() =~= seq![ol, os, od]);
    assert(seq![ol, os, od].drop_last() =~= seq![ol, os]);
    assert(seq![ol, os].drop_last() =~= seq![ol]);
    assert(seq![ol].drop_last() =~= Seq::<Result<Captured, CtlError>>::empty());
    assert(outs.last() == oa && seq![ol, os, od].last() == od);
    assert(seq![ol, os].last() == os && seq![ol].last() == ol);
    let b = BuildModel::Listing(name);
    assert(build_steps(b, Seq::<Result<Captured, CtlError>>::empty()) == b);
    assert(build_steps(b, seq![ol]) == BuildModel::Status(name));
    assert(build_steps(b, seq![ol, os]) == BuildModel::Directives(m));
    assert(build_steps(b, seq![ol, os, od]) == BuildModel::Activity(after_dump(m, od)));
}

/// Through a complete build, the load fields come from the status text, the
/// `Wants` list gathers the dump's `Wants=` values in order (unset where there
/// are none) and `ExecStart` is the dump's last `ExecStart=` value.
pub proof fn lemma_build_fields(
    name: Seq<char>,
    ol: Result<Captured, CtlError>,
    os: Result<Captured, CtlError>,
    od: Result<Captured, CtlError>,
    oa: Result<Captured, CtlError>,
    m: UnitModel,
    dump: Seq<char>,
    a: bool,
)
    requires
        found_from(captured_text(ol)) == Ok::<bool, CtlError>(true),
        status_from(captured_text(os)) == Ok::<UnitModel, CtlError>(m),
        captured_text(od) == Ok::<Seq<char>, CtlError>(dump),
        active_from(captured_text(oa)) == Ok::<bool, CtlError>(a),
    ensures
        build_steps(BuildModel::Listing(name), seq![ol, os, od, oa]) is Done,
        ({
            let u = build_steps(BuildModel::Listing(name), seq![ol, os, od, oa])->Done_0;
            &&& u is Ok
            &&& u->Ok_0.state == m.state
            &&& u->Ok_0.script == m.script
            &&& u->Ok_0.auto_start == m.auto_start
            &&& u->Ok_0.preset == m.preset
            &&& u->Ok_0.wants == appended_all(m.wants, key_values(lines_of(dump), "Wants"@))
            &&& u->Ok_0.exec_start == last_or(
                key_values(lines_of(dump), "ExecStart"@),
                m.exec_start,
            )
            &&& u->Ok_0.active == a
        }),
{
    lemma_build_completes(name, ol, os, od, oa, m, a);
    lemma_directives_scan_fields(lines_of(dump), m);
}


proof fn lemma_steps_concat(
    b: BuildModel,
    p: Seq<Result<Captured, CtlError>>,
    q: Seq<Result<Captured, CtlError>>,
)
    ensures
        build_steps(b, p + q) == build_steps(build_steps(b, p), q),
    decreases q.len(),
{
    if q.len() == 0 {
        assert(p + q =~= p);
    } else {
        lemma_steps_concat(b, p, q.drop_last());
        assert((p + q).drop_last() =~= p + q.drop_last());
        assert((p + q).last() == q.last());
    }
}

/// What `run` answered at step `k` of an answered trace, for a runner whose
/// answer depends on the arguments alone.
proof fn lemma_answer_at<F: Fn(Invocation) -> Result<Captured, CtlError>>(
    ctl: &SystemCtl,
    run: &F,
    answer: spec_fn(Seq<Seq<char>>) -> Result<Captured, CtlError>,
    b0: BuildModel,
    outs: Seq<Result<Captured, CtlError>>,
    k: int,
)
    requires
        0 <= k < outs.len(),
        ctl.answered(run, b0, outs),
        forall|i: Invocation, o: Result<Captured, CtlError>|
            #[trigger] run.ensures((i,), o) ==> o == answer(string_views(i.args@)),
        build_request(build_steps(b0, outs.subrange(0, k))) is Some,
    ensures
        outs[k] == answer(
            ctl.global_args() + build_request(build_steps(b0, outs.subrange(0, k)))->0,
        ),
{
    let args = build_request(build_steps(b0, outs.subrange(0, k)))->0;
    assert(ctl.ran(run, args, outs[k]));
    let i = choose|i: Invocation|
        i.program@ == ctl.program() && string_views(i.args@) == ctl.global_args() + args
            && #[trigger] run.ensures((i,), outs[k]);
}

/// For a runner whose answer depends on the arguments alone, a record that
/// `create_unit` may return (the end of an answered build) is the one that
/// these answers give: load fields from the status text, `Wants` gathered in
/// order from the dump, the dump's last `ExecStart`, and the activity answer.
pub proof fn lemma_create_unit_fields<F: Fn(Invocation) -> Result<Captured, CtlError>>(
    ctl: &SystemCtl,
    run: &F,
    answer: spec_fn(Seq<Seq<char>>) -> Result<Captured, CtlError>,
    name: Seq<char>,
    m: UnitModel,
    dump: Seq<char>,
    a: bool,
    outs: Seq<Result<Captured, CtlError>>,
    x: Result<UnitModel, CtlError>,
)
    requires
        forall|i: Invocation, o: Result<Captured, CtlError>|
            #[trigger] run.ensures((i,), o) ==> o == answer(string_views(i.args@)),
        found_from(
            captured_text(
                answer(ctl.global_args() + listing_args("list-unit-files"@, None, None, Some(name))),
            ),
        ) == Ok::<bool, CtlError>(true),
        status_from(captured_text(answer(ctl.global_args() + seq!["status"@, name])))
            == Ok::<UnitModel, CtlError>(m),
        captured_text(answer(ctl.global_args() + seq!["cat"@, m.name])) == Ok::<
            Seq<char>,
            CtlError,
        >(dump),
        active_from(captured_text(answer(ctl.global_args() + seq!["is-active"@, m.name])))
            == Ok::<bool, CtlError>(a),
        ctl.answered(run, BuildModel::Listing(name), outs),
        build_steps(BuildModel::Listing(name), outs) == BuildModel::Done(x),
    ensures
        x is Ok,
        x->Ok_0.state == m.state,
        x->Ok_0.script == m.script,
        x->Ok_0.auto_start == m.auto_start,
        x->Ok_0.preset == m.preset,
        x->Ok_0.wants == appended_all(m.wants, key_values(lines_of(dump), "Wants"@)),
        x->Ok_0.exec_start == last_or(key_values(lines_of(dump), "ExecStart"@), m.exec_start),
        x->Ok_0.active == a,
{
    let b0 = BuildModel::Listing(name);
    let g = ctl.global_args();
    let ol = answer(g + listing_args("list-unit-files"@, None, None, Some(name)));
    let os = answer(g + seq!["status"@, name]);
    let od = answer(g + seq!["cat"@, m.name]);
    let oa = answer(g + seq!["is-active"@, m.name]);
    lemma_directives_scan_fields(lines_of(dump), m);
    let e = Seq::<Result<Captured, CtlError>>::empty();
    if outs.len() == 0 {
        assert(build_steps(b0, outs) == b0);
    } else {
        assert(outs.subrange(0, 0) =~= e);
        assert(build_steps(b0, e) == b0);
        lemma_answer_at(ctl, run, answer, b0, outs, 0);
        assert(outs.subrange(0, 1) =~= seq![ol]);
        assert(seq![ol].drop_last() =~= e);
        assert(build_steps(b0, seq![ol]) == BuildModel::Status(name));
        if outs.len() == 1 {
            assert(outs =~= seq![ol]);
        } else {
            lemma_answer_at(ctl, run, answer, b0, outs, 1);
            assert(outs.subrange(0, 2) =~= seq![ol, os]);
            assert(seq![ol, os].drop_last() =~= seq![ol]);
            assert(build_steps(b0, seq![ol, os]) == BuildModel::Directives(m));
            if outs.len() == 2 {
                assert(outs =~= seq![ol, os]);
            } else {
                lemma_answer_at(ctl, run, answer, b0, outs, 2);
                assert(outs.subrange(0, 3) =~= seq![ol, os, od]);
                assert(seq![ol, os, od].drop_last() =~= seq![ol, os]);
                assert(build_steps(b0, seq![ol, os, od]) == BuildModel::Activity(
                    after_dump(m, od),
                ));
                if outs.len() == 3 {
                    assert(outs =~= seq![ol, os, od]);
                } else {
                    lemma_answer_at(ctl, run, answer, b0, outs, 3);
                    let first = seq![ol, os, od, oa];
                    assert(outs.subrange(0, 4) =~= first);
                    lemma_build_fields(name, ol, os, od, oa, m, dump, a);
                    let rest = outs.subrange(4, outs.len() as int);
                    assert(outs =~= first + rest);
                    lemma_steps_concat(b0, first, rest);
                    lemma_done_stays(build_steps(b0, first)->Done_0, rest);
                }
            }
        }
    }
}

} // verus!
