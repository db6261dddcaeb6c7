//! Typed access to the service manager's control program: builds its command
//! lines, classifies how a run ended, and parses what it printed into records.
//!
//! The program itself is started by a runner that the caller supplies, a
//! function from an [`Invocation`] to its [`Captured`] outcome; every query is
//! verified for whatever the runner hands back.
use vstd::prelude::*;

pub mod text;
pub mod types;
pub mod doc;
pub mod unit;
pub mod status;
pub mod directives;
pub mod listing;
pub mod ctl;
pub mod construct;
pub mod service_property;

pub use construct::UnitBuild;
pub use ctl::{capture_text, Captured, Invocation, SystemCtl, SYSTEMCTL_PATH};
pub use directives::apply_directives;
pub use doc::Doc;
pub use listing::{parse_unit_files, parse_units};
pub use service_property::ServiceProperty;
pub use status::parse_status;
pub use types::{AutoStartStatus, CtlError, State, Type};
pub use unit::{Unit, UnitList, UnitService};

verus! {

} // verus!
