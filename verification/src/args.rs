//! Configuration consumed by the pipeline, with its documented defaults.
//!
//! Parsing a command line into these values is the caller's concern; the
//! defaults themselves are part of the core's contract.

use vstd::prelude::*;

verus! {

/// The configuration the streaming pipeline runs under.
#[derive(Debug)]
pub struct ProgramArguments {
    /// Directory holding the ring buffer shared memory files.
    pub directory: String,
    /// Name of the ring buffer file inside that directory.
    pub ring_name: String,
    /// TCP port the local discovery service (port manager) listens on.
    pub portman: u16,
    /// Optional descriptive comment; display-only, never protocol-bearing.
    pub comment: String,
}

impl ProgramArguments {
    /// Build the configuration with its defaults: ring directory
    /// `/dev/shm`, no ring name, discovery port 30000, no comment.
    pub fn new() -> (r: ProgramArguments)
        ensures
            r.directory@ == "/dev/shm"@,
            r.ring_name@ == Seq::<char>::empty(),
            r.portman == 30000u16,
            r.comment@ == Seq::<char>::empty(),
    {
        ProgramArguments {
            directory: String::from_str("/dev/shm"),
            ring_name: String::new(),
            portman: 30000,
            comment: String::new(),
        }
    }
}

} // verus!
