//! The unit record and the summaries that listings give.
use vstd::prelude::*;

use crate::doc::{doc_views, Doc, DocModel};
use crate::text::string_views;
use crate::types::{AutoStartStatus, State, Type};

verus! {

/// One line of a unit-file listing.
#[derive(Clone, Debug, PartialEq)]
pub struct UnitList {
    /// Unit file name: `name.type`.
    pub unit_file: String,
    /// Unit file state.
    pub state: String,
    /// Vendor preset: `None` where the listing shows none.
    pub vendor_preset: Option<bool>,
}

/// One line of a loaded-unit listing.
#[derive(Clone, Debug, PartialEq)]
pub struct UnitService {
    /// Unit name: `name.type`.
    pub unit_name: String,
    /// Load state.
    pub loaded: String,
    /// Activation state.
    pub state: String,
    /// Activation sub-state.
    pub sub_state: String,
    /// Description: each remaining word preceded by a space.
    pub description: String,
}

impl Default for UnitList {
    fn default() -> (r: UnitList)
        ensures
            r.unit_file@.len() == 0,
            r.state@.len() == 0,
            r.vendor_preset is None,
    {
        UnitList { unit_file: String::new(), state: String::new(), vendor_preset: None }
    }
}

impl Default for UnitService {
    fn default() -> (r: UnitService)
        ensures
            r.unit_name@.len() == 0,
            r.loaded@.len() == 0,
            r.state@.len() == 0,
            r.sub_state@.len() == 0,
            r.description@.len() == 0,
    {
        UnitService {
            unit_name: String::new(),
            loaded: String::new(),
            state: String::new(),
            sub_state: String::new(),
            description: String::new(),
        }
    }
}

/// A unit of the service manager, as its status and configuration describe it.
#[derive(Clone, Debug, PartialEq)]
pub struct Unit {
    /// Unit name, without its type suffix.
    pub name: String,
    /// Unit type.
    pub utype: Type,
    /// Description, where the status header gives one.
    pub description: Option<String>,
    /// Load state.
    pub state: State,
    /// Auto-start policy.
    pub auto_start: AutoStartStatus,
    /// Whether the unit is active, by the activity query.
    pub active: bool,
    /// Whether the vendor preset enables the unit.
    pub preset: bool,
    /// Configuration file the unit was loaded from.
    pub script: String,
    /// `Restart=` directive.
    pub restart_policy: Option<String>,
    /// `KillMode=` directive.
    pub kill_mode: Option<String>,
    /// Name of the main or control process.
    pub process: Option<String>,
    /// Identifier of the main or control process.
    pub pid: Option<u64>,
    /// Number of running tasks.
    pub tasks: Option<u64>,
    /// CPU time used, as reported.
    pub cpu: Option<String>,
    /// Memory used, as reported.
    pub memory: Option<String>,
    /// What is mounted, for mount units.
    pub mounted: Option<String>,
    /// Where it is mounted, for mount units.
    pub mountpoint: Option<String>,
    /// Documentation references.
    pub docs: Option<Vec<Doc>>,
    /// `Wants=` directives.
    pub wants: Option<Vec<String>>,
    /// `WantedBy=` directives.
    pub wanted_by: Option<Vec<String>>,
    /// `Also=` directives.
    pub also: Option<Vec<String>>,
    /// `Before=` directives.
    pub before: Option<Vec<String>>,
    /// `After=` directives.
    pub after: Option<Vec<String>>,
    /// `ExecStart=` directive.
    pub exec_start: Option<String>,
    /// `ExecReload=` directive.
    pub exec_reload: Option<String>,
    /// Whether the unit is transient.
    pub transient: bool,
}

/// What a `Unit` holds, with text as character sequences.
pub struct UnitModel {
    pub name: Seq<char>,
    pub utype: Type,
    pub description: Option<Seq<char>>,
    pub state: State,
    pub auto_start: AutoStartStatus,
    pub active: bool,
    pub preset: bool,
    pub script: Seq<char>,
    pub restart_policy: Option<Seq<char>>,
    pub kill_mode: Option<Seq<char>>,
    pub process: Option<Seq<char>>,
    pub pid: Option<u64>,
    pub tasks: Option<u64>,
    pub cpu: Option<Seq<char>>,
    pub memory: Option<Seq<char>>,
    pub mounted: Option<Seq<char>>,
    pub mountpoint: Option<Seq<char>>,
    pub docs: Option<Seq<DocModel>>,
    pub wants: Option<Seq<Seq<char>>>,
    pub wanted_by: Option<Seq<Seq<char>>>,
    pub also: Option<Seq<Seq<char>>>,
    pub before: Option<Seq<Seq<char>>>,
    pub after: Option<Seq<Seq<char>>>,
    pub exec_start: Option<Seq<char>>,
    pub exec_reload: Option<Seq<char>>,
    pub transient: bool,
}

pub open spec fn opt_view(o: Option<String>) -> Option<Seq<char>> {
    match o {
        Some(s) => Some(s@),
        None => None,
    }
}

pub open spec fn opt_list_view(o: Option<Vec<String>>) -> Option<Seq<Seq<char>>> {
    match o {
        Some(v) => Some(string_views(v@)),
        None => None,
    }
}

pub open spec fn opt_docs_view(o: Option<Vec<Doc>>) -> Option<Seq<DocModel>> {
    match o {
        Some(v) => Some(doc_views(v@)),
        None => None,
    }
}

impl View for Unit {
    type V = UnitModel;

    open spec fn view(&self) -> UnitModel {
        UnitModel {
            name: self.name@,
            utype: self.utype,
            description: opt_view(self.description),
            state: self.state,
            auto_start: self.auto_start,
            active: self.active,
            preset: self.preset,
            script: self.script@,
            restart_policy: opt_view(self.restart_policy),
            kill_mode: opt_view(self.kill_mode),
            process: opt_view(self.process),
            pid: self.pid,
            tasks: self.tasks,
            cpu: opt_view(self.cpu),
            memory: opt_view(self.memory),
            mounted: opt_view(self.mounted),
            mountpoint: opt_view(self.mountpoint),
            docs: opt_docs_view(self.docs),
            wants: opt_list_view(self.wants),
            wanted_by: opt_list_view(self.wanted_by),
            also: opt_list_view(self.also),
            before: opt_list_view(self.before),
            after: opt_list_view(self.after),
            exec_start: opt_view(self.exec_start),
            exec_reload: opt_view(self.exec_reload),
            transient: self.transient,
        }
    }
}

/// The record before anything is known of the unit.
pub open spec fn empty_unit() -> UnitModel {
    UnitModel {
        name: Seq::empty(),
        utype: Type::Service,
        description: None,
        state: State::Masked,
        auto_start: AutoStartStatus::Disabled,
        active: false,
        preset: false,
        script: Seq::empty(),
        restart_policy: None,
        kill_mode: None,
        process: None,
        pid: None,
        tasks: None,
        cpu: None,
        memory: None,
        mounted: None,
        mountpoint: None,
        docs: None,
        wants: None,
        wanted_by: None,
        also: None,
        before: None,
        after: None,
        exec_start: None,
        exec_reload: None,
        transient: false,
    }
}

impl Default for Unit {
    fn default() -> (r: Unit)
        ensures
            r@ == empty_unit(),
    {
        Unit {
            name: String::new(),
            utype: Type::Service,
            description: None,
            state: State::Masked,
            auto_start: AutoStartStatus::Disabled,
            active: false,
            preset: false,
            script: String::new(),
            restart_policy: None,
            kill_mode: None,
            process: None,
            pid: None,
            tasks: None,
            cpu: None,
            memory: None,
            mounted: None,
            mountpoint: None,
            docs: None,
            wants: None,
            wanted_by: None,
            also: None,
            before: None,
            after: None,
            exec_start: None,
            exec_reload: None,
            transient: false,
        }
    }
}

/// `items` with `x` appended, starting a list where there was none.
pub open spec fn appended<T>(items: Option<Seq<T>>, x: T) -> Option<Seq<T>> {
    match items {
        Some(s) => Some(s.push(x)),
        None => Some(seq![x]),
    }
}

/// Appends `x` to the list in `items`, starting one where there was none.
pub fn append_string(items: &mut Option<Vec<String>>, x: String)
    ensures
        opt_list_view(*final(items)) == appended(opt_list_view(*old(items)), x@),
{
    let mut v = match items.take() {
        Some(v) => v,
        None => Vec::new(),
    };
    let ghost before = v@;
    v.push(x);
    assert(string_views(v@) =~= string_views(before).push(x@));
    *items = Some(v);
}

/// Appends `d` to the list in `items`, starting one where there was none.
pub fn append_doc(items: &mut Option<Vec<Doc>>, d: Doc)
    ensures
        opt_docs_view(*final(items)) == appended(opt_docs_view(*old(items)), d@),
{
    let mut v = match items.take() {
        Some(v) => v,
        None => Vec::new(),
    };
    let ghost before = v@;
    v.push(d);
    assert(doc_views(v@) =~= doc_views(before).push(d@));
    *items = Some(v);
}

} // verus!
