//! The records and closed vocabularies of the service manager.
use vstd::prelude::*;

use crate::text::{chars_of, same_as};

verus! {

/// How a query to the control program, or the reading of its output, failed.
#[derive(Clone, Copy, Debug, PartialEq, Eq, Structural)]
pub enum CtlError {
    /// The unit does not exist.
    NotFound,
    /// The control program refused: missing privileges, or no such unit.
    PermissionDenied,
    /// The control program was ended by a signal.
    ProcessInterrupted,
    /// The control program exited with a code that means failure.
    ProcessFailed(i32),
    /// The control program could not be started.
    SpawnFailed,
    /// Standard output was not valid UTF-8.
    InvalidOutputEncoding,
    /// The run succeeded but printed nothing.
    EmptyOutput,
    /// The status text or a listing line lacks a part that its layout requires.
    MalformedRecord,
    /// The unit name ends in a suffix that names no unit type.
    UnknownUnitType,
    /// A documentation descriptor does not have exactly one colon.
    MalformedDescriptor,
    /// A documentation descriptor names neither a manual page nor a web address.
    UnknownDocKind,
}

/// The kind of a unit, given by the suffix of its name.
#[derive(Clone, Copy, Debug, PartialEq, Eq, Structural)]
pub enum Type {
    AutoMount,
    Mount,
    Service,
    Scope,
    Socket,
    Slice,
    Timer,
    Path,
    Target,
}

/// Whether the unit's definition is loaded into the manager.
#[derive(Clone, Copy, Debug, PartialEq, Eq, Structural)]
pub enum State {
    Masked,
    Loaded,
}

/// The unit's policy for being started automatically.
#[derive(Clone, Copy, Debug, PartialEq, Eq, Structural)]
pub enum AutoStartStatus {
    Static,
    Enabled,
    EnabledRuntime,
    Disabled,
    Generated,
    Indirect,
    Transient,
}

/// The unit type that a name suffix denotes.
pub open spec fn type_named(s: Seq<char>) -> Option<Type> {
    if s == "automount"@ {
        Some(Type::AutoMount)
    } else if s == "mount"@ {
        Some(Type::Mount)
    } else if s == "service"@ {
        Some(Type::Service)
    } else if s == "scope"@ {
        Some(Type::Scope)
    } else if s == "socket"@ {
        Some(Type::Socket)
    } else if s == "slice"@ {
        Some(Type::Slice)
    } else if s == "timer"@ {
        Some(Type::Timer)
    } else if s == "path"@ {
        Some(Type::Path)
    } else if s == "target"@ {
        Some(Type::Target)
    } else {
        None
    }
}

/// The load state that a word denotes.
pub open spec fn state_named(s: Seq<char>) -> Option<State> {
    if s == "masked"@ {
        Some(State::Masked)
    } else if s == "loaded"@ {
        Some(State::Loaded)
    } else {
        None
    }
}

/// The auto-start policy that a word denotes.
pub open spec fn auto_start_named(s: Seq<char>) -> Option<AutoStartStatus> {
    if s == "static"@ {
        Some(AutoStartStatus::Static)
    } else if s == "enabled"@ {
        Some(AutoStartStatus::Enabled)
    } else if s == "enabled-runtime"@ {
        Some(AutoStartStatus::EnabledRuntime)
    } else if s == "disabled"@ {
        Some(AutoStartStatus::Disabled)
    } else if s == "generated"@ {
        Some(AutoStartStatus::Generated)
    } else if s == "indirect"@ {
        Some(AutoStartStatus::Indirect)
    } else if s == "transient"@ {
        Some(AutoStartStatus::Transient)
    } else {
        None
    }
}

/// The name suffix of a unit type.
pub open spec fn unit_type_name(t: Type) -> Seq<char> {
    match t {
        Type::AutoMount => "automount"@,
        Type::Mount => "mount"@,
        Type::Service => "service"@,
        Type::Scope => "scope"@,
        Type::Socket => "socket"@,
        Type::Slice => "slice"@,
        Type::Timer => "timer"@,
        Type::Path => "path"@,
        Type::Target => "target"@,
    }
}

/// The word for a load state.
pub open spec fn state_name(t: State) -> Seq<char> {
    match t {
        State::Masked => "masked"@,
        State::Loaded => "loaded"@,
    }
}

/// The word for an auto-start policy.
pub open spec fn auto_start_name(t: AutoStartStatus) -> Seq<char> {
    match t {
        AutoStartStatus::Static => "static"@,
        AutoStartStatus::Enabled => "enabled"@,
        AutoStartStatus::EnabledRuntime => "enabled-runtime"@,
        AutoStartStatus::Disabled => "disabled"@,
        AutoStartStatus::Generated => "generated"@,
        AutoStartStatus::Indirect => "indirect"@,
        AutoStartStatus::Transient => "transient"@,
    }
}

/// Each unit type is read back from its own name suffix.
pub proof fn lemma_type_name_round_trip(t: Type)
    ensures
        type_named(unit_type_name(t)) == Some(t),
{
    reveal_strlit("automount");
    assert("automount"@.len() == 9 && "automount"@[0] == 'a' && "automount"@[1] == 'u');
    reveal_strlit("mount");
    assert("mount"@.len() == 5 && "mount"@[0] == 'm' && "mount"@[1] == 'o');
    reveal_strlit("service");
    assert("service"@.len() == 7 && "service"@[0] == 's' && "service"@[1] == 'e');
    reveal_strlit("scope");
    assert("scope"@.len() == 5 && "scope"@[0] == 's' && "scope"@[1] == 'c');
    reveal_strlit("socket");
    assert("socket"@.len() == 6 && "socket"@[0] == 's' && "socket"@[1] == 'o');
    reveal_strlit("slice");
    assert("slice"@.len() == 5 && "slice"@[0] == 's' && "slice"@[1] == 'l');
    reveal_strlit("timer");
    assert("timer"@.len() == 5 && "timer"@[0] == 't' && "timer"@[1] == 'i');
    reveal_strlit("path");
    assert("path"@.len() == 4 && "path"@[0] == 'p' && "path"@[1] == 'a');
    reveal_strlit("target");
    assert("target"@.len() == 6 && "target"@[0] == 't' && "target"@[1] == 'a');
}

/// Each load state is read back from its own word.
pub proof fn lemma_state_name_round_trip(t: State)
    ensures
        state_named(state_name(t)) == Some(t),
{
    reveal_strlit("masked");
    assert("masked"@.len() == 6 && "masked"@[0] == 'm' && "masked"@[1] == 'a');
    reveal_strlit("loaded");
    assert("loaded"@.len() == 6 && "loaded"@[0] == 'l' && "loaded"@[1] == 'o');
}

/// Each auto-start policy is read back from its own word.
pub proof fn lemma_auto_start_name_round_trip(t: AutoStartStatus)
    ensures
        auto_start_named(auto_start_name(t)) == Some(t),
{
    reveal_strlit("static");
    assert("static"@.len() == 6 && "static"@[0] == 's' && "static"@[1] == 't');
    reveal_strlit("enabled");
    assert("enabled"@.len() == 7 && "enabled"@[0] == 'e' && "enabled"@[1] == 'n');
    reveal_strlit("enabled-runtime");
    assert("enabled-runtime"@.len() == 15 && "enabled-runtime"@[0] == 'e' && "enabled-runtime"@[1] == 'n');
    reveal_strlit("disabled");
    assert("disabled"@.len() == 8 && "disabled"@[0] == 'd' && "disabled"@[1] == 'i');
    reveal_strlit("generated");
    assert("generated"@.len() == 9 && "generated"@[0] == 'g' && "generated"@[1] == 'e');
    reveal_strlit("indirect");
    assert("indirect"@.len() == 8 && "indirect"@[0] == 'i' && "indirect"@[1] == 'n');
    reveal_strlit("transient");
    assert("transient"@.len() == 9 && "transient"@[0] == 't' && "transient"@[1] == 'r');
}

impl Type {
    /// The unit type whose name suffix is `s`, matched exactly.
    pub fn from_chars(s: &Vec<char>) -> (r: Option<Type>)
        ensures
            r == type_named(s@),
    {
        if same_as(s, "automount") {
            Some(Type::AutoMount)
        } else if same_as(s, "mount") {
            Some(Type::Mount)
        } else if same_as(s, "service") {
            Some(Type::Service)
        } else if same_as(s, "scope") {
            Some(Type::Scope)
        } else if same_as(s, "socket") {
            Some(Type::Socket)
        } else if same_as(s, "slice") {
            Some(Type::Slice)
        } else if same_as(s, "timer") {
            Some(Type::Timer)
        } else if same_as(s, "path") {
            Some(Type::Path)
        } else if same_as(s, "target") {
            Some(Type::Target)
        } else {
            None
        }
    }

    /// The unit type whose name suffix is `s`.
    pub fn from_name(s: &str) -> (r: Option<Type>)
        ensures
            r == type_named(s@),
    {
        Type::from_chars(&chars_of(s))
    }

    /// The name suffix of this unit type.
    pub fn as_str(&self) -> (r: &'static str)
        ensures
            r@ == unit_type_name(*self),
    {
        match self {
            Type::AutoMount => "automount",
            Type::Mount => "mount",
            Type::Service => "service",
            Type::Scope => "scope",
            Type::Socket => "socket",
            Type::Slice => "slice",
            Type::Timer => "timer",
            Type::Path => "path",
            Type::Target => "target",
        }
    }
}

impl Default for Type {
    fn default() -> (r: Type)
        ensures
            r == Type::Service,
    {
        Type::Service
    }
}

impl State {
    /// The load state named by `s`, matched exactly.
    pub fn from_name(s: &str) -> (r: Option<State>)
        ensures
            r == state_named(s@),
    {
        let v = chars_of(s);
        if same_as(&v, "masked") {
            Some(State::Masked)
        } else if same_as(&v, "loaded") {
            Some(State::Loaded)
        } else {
            None
        }
    }

    /// The word for this load state.
    pub fn as_str(&self) -> (r: &'static str)
        ensures
            r@ == state_name(*self),
    {
        match self {
            State::Masked => "masked",
            State::Loaded => "loaded",
        }
    }
}

impl Default for State {
    fn default() -> (r: State)
        ensures
            r == State::Masked,
    {
        State::Masked
    }
}

impl AutoStartStatus {
    /// The policy named by `s`, matched exactly.
    pub fn from_chars(s: &Vec<char>) -> (r: Option<AutoStartStatus>)
        ensures
            r == auto_start_named(s@),
    {
        if same_as(s, "static") {
            Some(AutoStartStatus::Static)
        } else if same_as(s, "enabled") {
            Some(AutoStartStatus::Enabled)
        } else if same_as(s, "enabled-runtime") {
            Some(AutoStartStatus::EnabledRuntime)
        } else if same_as(s, "disabled") {
            Some(AutoStartStatus::Disabled)
        } else if same_as(s, "generated") {
            Some(AutoStartStatus::Generated)
        } else if same_as(s, "indirect") {
            Some(AutoStartStatus::Indirect)
        } else if same_as(s, "transient") {
            Some(AutoStartStatus::Transient)
        } else {
            None
        }
    }

    /// The policy named by `s`.
    pub fn from_name(s: &str) -> (r: Option<AutoStartStatus>)
        ensures
            r == auto_start_named(s@),
    {
        AutoStartStatus::from_chars(&chars_of(s))
    }

    /// The word for this policy.
    pub fn as_str(&self) -> (r: &'static str)
        ensures
            r@ == auto_start_name(*self),
    {
        match self {
            AutoStartStatus::Static => "static",
            AutoStartStatus::Enabled => "enabled",
            AutoStartStatus::EnabledRuntime => "enabled-runtime",
            AutoStartStatus::Disabled => "disabled",
            AutoStartStatus::Generated => "generated",
            AutoStartStatus::Indirect => "indirect",
            AutoStartStatus::Transient => "transient",
        }
    }
}

impl Default for AutoStartStatus {
    fn default() -> (r: AutoStartStatus)
        ensures
            r == AutoStartStatus::Disabled,
    {
        AutoStartStatus::Disabled
    }
}

} // verus!
