//! Script triggers: what fires a script, and the queue of fired triggers.
use vstd::prelude::*;
use crate::enums::TriggerType;

verus! {

/// A single trigger definition.
#[derive(Debug)]
pub struct Trigger {
    pub script: String,
    pub trigger_type: TriggerType,
    pub triggered: bool,
    pub chance: u8,
    pub once: bool,
    pub values: [i32; 2],
}

/// The triggers (per-girl and global) and the queue of those that fired, by position.
#[derive(Debug)]
pub struct TriggerSystem {
    pub triggers: Vec<Trigger>,
    pub queue: Vec<usize>,
}

impl TriggerSystem {
    /// No triggers, nothing queued.
    pub fn new() -> (t: TriggerSystem)
        ensures
            t.triggers@.len() == 0,
            t.queue@.len() == 0,
    {
        TriggerSystem { triggers: Vec::new(), queue: Vec::new() }
    }
}

impl Default for TriggerSystem {
    fn default() -> (t: TriggerSystem)
        ensures
            t.triggers@.len() == 0,
            t.queue@.len() == 0,
    {
        TriggerSystem::new()
    }
}

} // verus!
