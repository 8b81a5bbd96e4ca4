//! A metrics probe for SNMP agents: resolves a metric group or a custom OID list into
//! targets, and turns each agent reply into one timestamped metric line.
use vstd::prelude::*;

pub mod oid;
pub mod probe;
pub mod target;
pub mod text;
pub mod value;

pub use oid::parse_oid;
pub use probe::{Probe, ProbeError, Reply};
pub use target::{create_targets, get_targets_from_nickname, Target, TargetError, ValueType};
pub use value::{render_value, Scalar};

verus! {

} // verus!
