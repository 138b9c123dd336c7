//! Scheduling of machine wake-ups through a privileged helper daemon: the shared
//! schedule record, the wake-time arithmetic, the helper's status snapshot and the
//! classification of its install and uninstall runs.
use vstd::prelude::*;

pub mod installer;
pub mod paths;
pub mod schedule;
pub mod status;
pub mod text;
pub mod timestamp;

verus! {

} // verus!
