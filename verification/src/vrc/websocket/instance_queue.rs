//! Messages about the queue of an instance.
use vstd::prelude::*;

verus! {

/// The user joined the queue of an instance.
#[derive(Debug, Clone)]
pub struct InstanceQueueJoined {
    pub instance_location: super::location::Location,
    pub position: i32,
}

} // verus!
