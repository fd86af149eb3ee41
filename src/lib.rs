use vstd::prelude::*;

pub mod actuator;
pub mod channel;
pub mod executor;
pub mod level;
pub mod timer;
pub mod watcher;

verus! {

} // verus!
