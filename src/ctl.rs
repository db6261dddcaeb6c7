//! Invocations of the control program, how a run ended, and the queries that
//! read its output. The program itself is run by a caller-supplied runner, so
//! every query here is verified for whatever the runner hands back.
use vstd::prelude::*;
use vstd::utf8::{decode_utf8, valid_utf8};

use crate::listing::{
    parse_unit_files, parse_units, unit_files_of, unit_list_views, unit_service_views, units_of,
    UnitListModel, UnitServiceModel,
};
use crate::text::{chars_of, same_as, string_of, string_views, trim, trim_of};
use crate::types::CtlError;
use crate::unit::{UnitList, UnitService};

verus! {

/// Where the control program is found unless another path is configured.
pub const SYSTEMCTL_PATH: &'static str = "/usr/bin/systemctl";

/// One run of the control program: what to start, with which arguments.
pub struct Invocation {
    pub program: String,
    pub args: Vec<String>,
}

/// How a run of the control program ended.
pub struct Captured {
    /// The exit code; `None` where a signal ended the program.
    pub code: Option<i32>,
    /// All that the program wrote to standard output.
    pub stdout: Vec<u8>,
}

/// The failure that an exit code stands for. Codes 0, 1 and 3 all mean that
/// the call went through; 4 means missing privileges or no such unit.
pub open spec fn exit_error(code: Option<i32>) -> Option<CtlError> {
    match code {
        Some(c) => if c == 0 || c == 1 || c == 3 {
            None
        } else if c == 4 {
            Some(CtlError::PermissionDenied)
        } else {
            Some(CtlError::ProcessFailed(c))
        },
        None => Some(CtlError::ProcessInterrupted),
    }
}

/// The text that a run yields: its standard output, where the exit code means
/// success and the output is non-empty valid UTF-8.
pub open spec fn captured_text(out: Result<Captured, CtlError>) -> Result<Seq<char>, CtlError> {
    match out {
        Err(e) => Err(e),
        Ok(c) => match exit_error(c.code) {
            Some(e) => Err(e),
            None => if c.stdout@.len() == 0 {
                Err(CtlError::EmptyOutput)
            } else if valid_utf8(c.stdout@) {
                Ok(decode_utf8(c.stdout@))
            } else {
                Err(CtlError::InvalidOutputEncoding)
            },
        },
    }
}

pub open spec fn text_result(r: Result<String, CtlError>) -> Result<Seq<char>, CtlError> {
    match r {
        Ok(s) => Ok(s@),
        Err(e) => Err(e),
    }
}

/// Relies on `String::from_utf8`: succeeds exactly on valid UTF-8, with the
/// characters that the bytes encode.
#[verifier::external_body]
fn decode_stdout(b: Vec<u8>) -> (r: Option<String>)
    ensures
        match r {
            Some(s) => valid_utf8(b@) && s@ == decode_utf8(b@),
            None => !valid_utf8(b@),
        },
{
    match String::from_utf8(b) {
        Ok(s) => Some(s),
        Err(_) => None,
    }
}

/// The text of a run, or the failure that its ending stands for.
pub fn capture_text(out: Result<Captured, CtlError>) -> (r: Result<String, CtlError>)
    ensures
        text_result(r) == captured_text(out),
{
    let c = match out {
        Err(e) => return Err(e),
        Ok(c) => c,
    };
    match c.code {
        Some(code) => {
            if code == 4 {
                return Err(CtlError::PermissionDenied);
            } else if code != 0 && code != 1 && code != 3 {
                return Err(CtlError::ProcessFailed(code));
            }
        },
        None => return Err(CtlError::ProcessInterrupted),
    }
    if c.stdout.len() == 0 {
        return Err(CtlError::EmptyOutput);
    }
    match decode_stdout(c.stdout) {
        Some(s) => Ok(s),
        None => Err(CtlError::InvalidOutputEncoding),
    }
}

/// A `String` with the characters of `s`.
fn owned(s: &str) -> (r: String)
    ensures
        r@ == s@,
{
    string_of(&chars_of(s))
}

pub open spec fn opt_str(o: Option<&str>) -> Option<Seq<char>> {
    match o {
        Some(s) => Some(s@),
        None => None,
    }
}

/// The arguments of a listing command with its optional filters.
pub open spec fn listing_args(
    cmd: Seq<char>,
    type_filter: Option<Seq<char>>,
    state_filter: Option<Seq<char>>,
    glob: Option<Seq<char>>,
) -> Seq<Seq<char>> {
    seq![cmd] + match type_filter {
        Some(t) => seq!["--type"@, t],
        None => Seq::empty(),
    } + match state_filter {
        Some(s) => seq!["--state"@, s],
        None => Seq::empty(),
    } + match glob {
        Some(g) => seq![g],
        None => Seq::empty(),
    }
}

fn push_owned(v: &mut Vec<String>, s: &str)
    ensures
        string_views(final(v)@) == string_views(old(v)@).push(s@),
{
    let ghost before = v@;
    v.push(owned(s));
    assert(string_views(v@) =~= string_views(before).push(s@));
}

fn listing_args_of(
    cmd: &str,
    type_filter: Option<&str>,
    state_filter: Option<&str>,
    glob: Option<&str>,
) -> (r: Vec<String>)
    ensures
        string_views(r@) == listing_args(
            cmd@,
            opt_str(type_filter),
            opt_str(state_filter),
            opt_str(glob),
        ),
{
    let mut a: Vec<String> = Vec::new();
    assert(string_views(a@) =~= Seq::<Seq<char>>::empty());
    push_owned(&mut a, cmd);
    if let Some(t) = type_filter {
        push_owned(&mut a, "--type");
        push_owned(&mut a, t);
    }
    if let Some(s) = state_filter {
        push_owned(&mut a, "--state");
        push_owned(&mut a, s);
    }
    if let Some(g) = glob {
        push_owned(&mut a, g);
    }
    assert(string_views(a@) =~= listing_args(
        cmd@,
        opt_str(type_filter),
        opt_str(state_filter),
        opt_str(glob),
    ));
    a
}

fn pair_args(a: &str, b: &str) -> (r: Vec<String>)
    ensures
        string_views(r@) == seq![a@, b@],
{
    let mut v: Vec<String> = Vec::new();
    assert(string_views(v@) =~= Seq::<Seq<char>>::empty());
    push_owned(&mut v, a);
    push_owned(&mut v, b);
    assert(string_views(v@) =~= seq![a@, b@]);
    v
}

/// The unit-file records that a run's text gives.
pub open spec fn unit_files_from(t: Result<Seq<char>, CtlError>) -> Result<Seq<UnitListModel>, CtlError> {
    match t {
        Ok(x) => unit_files_of(x),
        Err(e) => Err(e),
    }
}

/// The loaded-unit records that a run's text gives.
pub open spec fn units_from(t: Result<Seq<char>, CtlError>) -> Result<Seq<UnitServiceModel>, CtlError> {
    match t {
        Ok(x) => units_of(x),
        Err(e) => Err(e),
    }
}

/// Whether the activity query's text says the unit is active.
pub open spec fn active_from(t: Result<Seq<char>, CtlError>) -> Result<bool, CtlError> {
    match t {
        Ok(x) => Ok(trim(x) == "active"@),
        Err(e) => Err(e),
    }
}

/// Whether a filtered unit-file listing found anything.
pub open spec fn found_from(t: Result<Seq<char>, CtlError>) -> Result<bool, CtlError> {
    match unit_files_from(t) {
        Ok(s) => Ok(s.len() > 0),
        Err(e) => Err(e),
    }
}

pub open spec fn file_names(r: Result<Seq<UnitListModel>, CtlError>) -> Result<Seq<Seq<char>>, CtlError> {
    match r {
        Ok(s) => Ok(s.map_values(|x: UnitListModel| x.unit_file)),
        Err(e) => Err(e),
    }
}

pub open spec fn unit_names(r: Result<Seq<UnitServiceModel>, CtlError>) -> Result<Seq<Seq<char>>, CtlError> {
    match r {
        Ok(s) => Ok(s.map_values(|x: UnitServiceModel| x.unit_name)),
        Err(e) => Err(e),
    }
}

pub open spec fn names_result(r: Result<Vec<String>, CtlError>) -> Result<Seq<Seq<char>>, CtlError> {
    match r {
        Ok(v) => Ok(string_views(v@)),
        Err(e) => Err(e),
    }
}

pub open spec fn unit_list_result(r: Result<Vec<UnitList>, CtlError>) -> Result<Seq<UnitListModel>, CtlError> {
    match r {
        Ok(v) => Ok(unit_list_views(v@)),
        Err(e) => Err(e),
    }
}

pub open spec fn unit_service_result(r: Result<Vec<UnitService>, CtlError>) -> Result<Seq<UnitServiceModel>, CtlError> {
    match r {
        Ok(v) => Ok(unit_service_views(v@)),
        Err(e) => Err(e),
    }
}

/// Calls into the control program: where it is, and the global arguments
/// (such as `--user`) that go before every command.
#[derive(Clone, Debug)]
pub struct SystemCtl {
    pub additional_args: Vec<String>,
    pub path: Option<String>,
}

impl Default for SystemCtl {
    fn default() -> (r: SystemCtl)
        ensures
            r.additional_args@.len() == 0,
            r.path is None,
    {
        SystemCtl { additional_args: Vec::new(), path: None }
    }
}

impl SystemCtl {
    /// The program that runs: the configured path, or the standard one.
    pub open spec fn program(&self) -> Seq<char> {
        match self.path {
            Some(p) => p@,
            None => SYSTEMCTL_PATH@,
        }
    }

    pub open spec fn global_args(&self) -> Seq<Seq<char>> {
        string_views(self.additional_args@)
    }

    /// `run` may have answered `out` to a run of the program with the global
    /// arguments followed by `args`.
    pub open spec fn ran<F: Fn(Invocation) -> Result<Captured, CtlError>>(
        &self,
        run: &F,
        args: Seq<Seq<char>>,
        out: Result<Captured, CtlError>,
    ) -> bool {
        exists|i: Invocation|
            i.program@ == self.program() && string_views(i.args@) == self.global_args() + args
                && #[trigger] run.ensures((i,), out)
    }

    pub fn new(additional_args: Vec<String>, path: Option<String>) -> (r: SystemCtl)
        ensures
            r.additional_args == additional_args,
            r.path == path,
    {
        SystemCtl { additional_args, path }
    }

    /// The path of the program that runs.
    pub fn get_path(&self) -> (r: &str)
        ensures
            r@ == self.program(),
    {
        match &self.path {
            Some(p) => p.as_str(),
            None => SYSTEMCTL_PATH,
        }
    }

    /// The run of the program with the global arguments followed by `args`.
    pub fn invocation(&self, args: &Vec<String>) -> (r: Invocation)
        ensures
            r.program@ == self.program(),
            string_views(r.args@) == self.global_args() + string_views(args@),
    {
        let mut all: Vec<String> = Vec::new();
        let mut i: usize = 0;
        assert(string_views(all@) =~= Seq::<Seq<char>>::empty());
        while i < self.additional_args.len()
            invariant
                i <= self.additional_args.len(),
                string_views(all@) == self.global_args().subrange(0, i as int),
            decreases self.additional_args.len() - i,
        {
            let ghost before = all@;
            all.push(self.additional_args[i].clone());
            assert(string_views(all@) =~= string_views(before).push(self.global_args()[i as int]));
            assert(self.global_args().subrange(0, i + 1) =~= self.global_args().subrange(
                0,
                i as int,
            ).push(self.global_args()[i as int]));
            i += 1;
        }
        let mut j: usize = 0;
        let ghost base = string_views(all@);
        assert(base =~= self.global_args());
        assert(string_views(args@).subrange(0, 0) =~= Seq::<Seq<char>>::empty());
        while j < args.len()
            invariant
                j <= args.len(),
                base == self.global_args(),
                string_views(all@) == base + string_views(args@).subrange(0, j as int),
            decreases args.len() - j,
        {
            let ghost before = all@;
            all.push(args[j].clone());
            assert(string_views(all@) =~= string_views(before).push(string_views(args@)[j as int]));
            assert(base + string_views(args@).subrange(0, j + 1) =~= (base + string_views(
                args@,
            ).subrange(0, j as int)).push(string_views(args@)[j as int]));
            j += 1;
        }
        assert(string_views(args@).subrange(0, j as int) =~= string_views(args@));
        Invocation { program: owned(self.get_path()), args: all }
    }

    /// Runs the program with `args` through `run` and returns the text it printed.
    pub fn capture<F: Fn(Invocation) -> Result<Captured, CtlError>>(
        &self,
        args: &Vec<String>,
        run: &F,
    ) -> (r: Result<String, CtlError>)
        requires
            forall|i: Invocation| run.requires((i,)),
        ensures
            exists|out| self.ran(run, string_views(args@), out) && text_result(r) == captured_text(out),
    {
        let inv = self.invocation(args);
        let out = run(inv);
        capture_text(out)
    }

    /// The status text of `unit`.
    pub fn status<F: Fn(Invocation) -> Result<Captured, CtlError>>(&self, unit: &str, run: &F) -> (r:
        Result<String, CtlError>)
        requires
            forall|i: Invocation| run.requires((i,)),
        ensures
            exists|out| self.ran(run, seq!["status"@, unit@], out) && text_result(r) == captured_text(out),
    {
        self.capture(&pair_args("status", unit), run)
    }

    /// The directive dump of `unit`.
    pub fn cat<F: Fn(Invocation) -> Result<Captured, CtlError>>(&self, unit: &str, run: &F) -> (r:
        Result<String, CtlError>)
        requires
            forall|i: Invocation| run.requires((i,)),
        ensures
            exists|out| self.ran(run, seq!["cat"@, unit@], out) && text_result(r) == captured_text(out),
    {
        self.capture(&pair_args("cat", unit), run)
    }

    /// Whether `unit` is active: the activity query prints `active`.
    pub fn is_active<F: Fn(Invocation) -> Result<Captured, CtlError>>(&self, unit: &str, run: &F) -> (r:
        Result<bool, CtlError>)
        requires
            forall|i: Invocation| run.requires((i,)),
        ensures
            exists|out| self.ran(run, seq!["is-active"@, unit@], out) && r == active_from(captured_text(out)),
    {
        match self.capture(&pair_args("is-active", unit), run) {
            Ok(s) => {
                let t = trim_of(&chars_of(s.as_str()));
                Ok(same_as(&t, "active"))
            },
            Err(e) => Err(e),
        }
    }

    /// The unit-file listing, with optional type, state and name filters.
    pub fn list_unit_files_full<F: Fn(Invocation) -> Result<Captured, CtlError>>(
        &self,
        type_filter: Option<&str>,
        state_filter: Option<&str>,
        glob: Option<&str>,
        run: &F,
    ) -> (r: Result<Vec<UnitList>, CtlError>)
        requires
            forall|i: Invocation| run.requires((i,)),
        ensures
            exists|out|
                self.ran(
                    run,
                    listing_args(
                        "list-unit-files"@,
                        opt_str(type_filter),
                        opt_str(state_filter),
                        opt_str(glob),
                    ),
                    out,
                ) && unit_list_result(r) == unit_files_from(captured_text(out)),
    {
        let args = listing_args_of("list-unit-files", type_filter, state_filter, glob);
        match self.capture(&args, run) {
            Ok(s) => parse_unit_files(s.as_str()),
            Err(e) => Err(e),
        }
    }

    /// The loaded-unit listing, with optional type, state and name filters.
    pub fn list_units_full<F: Fn(Invocation) -> Result<Captured, CtlError>>(
        &self,
        type_filter: Option<&str>,
        state_filter: Option<&str>,
        glob: Option<&str>,
        run: &F,
    ) -> (r: Result<Vec<UnitService>, CtlError>)
        requires
            forall|i: Invocation| run.requires((i,)),
        ensures
            exists|out|
                self.ran(
                    run,
                    listing_args(
                        "list-units"@,
                        opt_str(type_filter),
                        opt_str(state_filter),
                        opt_str(glob),
                    ),
                    out,
                ) && unit_service_result(r) == units_from(captured_text(out)),
    {
        let args = listing_args_of("list-units", type_filter, state_filter, glob);
        match self.capture(&args, run) {
            Ok(s) => parse_units(s.as_str()),
            Err(e) => Err(e),
        }
    }

    /// The names in the unit-file listing.
    pub fn list_unit_files<F: Fn(Invocation) -> Result<Captured, CtlError>>(
        &self,
        type_filter: Option<&str>,
        state_filter: Option<&str>,
        glob: Option<&str>,
        run: &F,
    ) -> (r: Result<Vec<String>, CtlError>)
        requires
            forall|i: Invocation| run.requires((i,)),
        ensures
            exists|out|
                self.ran(
                    run,
                    listing_args(
                        "list-unit-files"@,
                        opt_str(type_filter),
                        opt_str(state_filter),
                        opt_str(glob),
                    ),
                    out,
                ) && names_result(r) == file_names(unit_files_from(captured_text(out))),
    {
        match self.list_unit_files_full(type_filter, state_filter, glob, run) {
            Ok(list) => {
                let mut names: Vec<String> = Vec::new();
                let mut i: usize = 0;
                while i < list.len()
                    invariant
                        i <= list.len(),
                        string_views(names@) == unit_list_views(list@).subrange(0, i as int).map_values(
                            |x: UnitListModel| x.unit_file,
                        ),
                    decreases list.len() - i,
                {
                    let ghost before = names@;
                    names.push(list[i].unit_file.clone());
                    assert(string_views(names@) =~= string_views(before).push(list@[i as int].unit_file@));
                    assert(unit_list_views(list@).subrange(0, i + 1).map_values(
                        |x: UnitListModel| x.unit_file,
                    ) =~= unit_list_views(list@).subrange(0, i as int).map_values(
                        |x: UnitListModel| x.unit_file,
                    ).push(list@[i as int].unit_file@));
                    i += 1;
                }
                assert(unit_list_views(list@).subrange(0, i as int) =~= unit_list_views(list@));
                Ok(names)
            },
            Err(e) => Err(e),
        }
    }

    /// The names in the loaded-unit listing.
    pub fn list_units<F: Fn(Invocation) -> Result<Captured, CtlError>>(
        &self,
        type_filter: Option<&str>,
        state_filter: Option<&str>,
        glob: Option<&str>,
        run: &F,
    ) -> (r: Result<Vec<String>, CtlError>)
        requires
            forall|i: Invocation| run.requires((i,)),
        ensures
            exists|out|
                self.ran(
                    run,
                    listing_args(
                        "list-units"@,
                        opt_str(type_filter),
                        opt_str(state_filter),
                        opt_str(glob),
                    ),
                    out,
                ) && names_result(r) == unit_names(units_from(captured_text(out))),
    {
        match self.list_units_full(type_filter, state_filter, glob, run) {
            Ok(list) => {
                let mut names: Vec<String> = Vec::new();
                let mut i: usize = 0;
                while i < list.len()
                    invariant
                        i <= list.len(),
                        string_views(names@) == unit_service_views(list@).subrange(
                            0,
                            i as int,
                        ).map_values(|x: UnitServiceModel| x.unit_name),
                    decreases list.len() - i,
                {
                    let ghost before = names@;
                    names.push(list[i].unit_name.clone());
                    assert(string_views(names@) =~= string_views(before).push(list@[i as int].unit_name@));
                    assert(unit_service_views(list@).subrange(0, i + 1).map_values(
                        |x: UnitServiceModel| x.unit_name,
                    ) =~= unit_service_views(list@).subrange(0, i as int).map_values(
                        |x: UnitServiceModel| x.unit_name,
                    ).push(list@[i as int].unit_name@));
                    i += 1;
                }
                assert(unit_service_views(list@).subrange(0, i as int) =~= unit_service_views(list@));
                Ok(names)
            },
            Err(e) => Err(e),
        }
    }

    /// The services that are running.
    pub fn list_running_services<F: Fn(Invocation) -> Result<Captured, CtlError>>(&self, run: &F) -> (r:
        Result<Vec<String>, CtlError>)
        requires
            forall|i: Invocation| run.requires((i,)),
        ensures
            exists|out|
                self.ran(
                    run,
                    listing_args("list-units"@, Some("service"@), Some("running"@), None),
                    out,
                ) && names_result(r) == unit_names(units_from(captured_text(out))),
    {
        self.list_units(Some("service"), Some("running"), None, run)
    }

    /// The services that have failed.
    pub fn list_failed_services<F: Fn(Invocation) -> Result<Captured, CtlError>>(&self, run: &F) -> (r:
        Result<Vec<String>, CtlError>)
        requires
            forall|i: Invocation| run.requires((i,)),
        ensures
            exists|out|
                self.ran(
                    run,
                    listing_args("list-units"@, Some("service"@), Some("failed"@), None),
                    out,
                ) && names_result(r) == unit_names(units_from(captured_text(out))),
    {
        self.list_units(Some("service"), Some("failed"), None, run)
    }

    /// The service files that are disabled.
    pub fn list_disabled_services<F: Fn(Invocation) -> Result<Captured, CtlError>>(&self, run: &F) -> (r:
        Result<Vec<String>, CtlError>)
        requires
            forall|i: Invocation| run.requires((i,)),
        ensures
            exists|out|
                self.ran(
                    run,
                    listing_args("list-unit-files"@, Some("service"@), Some("disabled"@), None),
                    out,
                ) && names_result(r) == file_names(unit_files_from(captured_text(out))),
    {
        self.list_unit_files(Some("service"), Some("disabled"), None, run)
    }

    /// The service files that are enabled.
    pub fn list_enabled_services<F: Fn(Invocation) -> Result<Captured, CtlError>>(&self, run: &F) -> (r:
        Result<Vec<String>, CtlError>)
        requires
            forall|i: Invocation| run.requires((i,)),
        ensures
            exists|out|
                self.ran(
                    run,
                    listing_args("list-unit-files"@, Some("service"@), Some("enabled"@), None),
                    out,
                ) && names_result(r) == file_names(unit_files_from(captured_text(out))),
    {
        self.list_unit_files(Some("service"), Some("enabled"), None, run)
    }

    /// Whether `unit` exists: the unit-file listing filtered by its name is not empty.
    pub fn unit_exists<F: Fn(Invocation) -> Result<Captured, CtlError>>(&self, unit: &str, run: &F) -> (r:
        Result<bool, CtlError>)
        requires
            forall|i: Invocation| run.requires((i,)),
        ensures
            exists|out|
                self.ran(run, listing_args("list-unit-files"@, None, None, Some(unit@)), out)
                    && r == found_from(captured_text(out)),
    {
        match self.list_unit_files_full(None, None, Some(unit), run) {
            Ok(list) => Ok(list.len() > 0),
            Err(e) => Err(e),
        }
    }
}


/// Exit code 4 fails with `PermissionDenied`, and any code but 0, 1, 3 and 4
/// fails with `ProcessFailed` carrying that code, whatever was printed.
pub proof fn lemma_exit_codes(stdout: Vec<u8>, c: i32)
    ensures
        captured_text(Ok(Captured { code: Some(4), stdout })) == Err::<Seq<char>, CtlError>(
            CtlError::PermissionDenied,
        ),
        c != 0 && c != 1 && c != 3 && c != 4 ==> captured_text(
            Ok(Captured { code: Some(c), stdout }),
        ) == Err::<Seq<char>, CtlError>(CtlError::ProcessFailed(c)),
{
}

} // verus!
