//! Self-update core for the `unvenv` command-line tool, together with the
//! pure parts of its working-tree scan: platform resolution, version
//! normalization, release-tag extraction, checksum verification, the update
//! state machine, and the `pyvenv.cfg` parser.

pub mod checksum;
pub mod platform;
pub mod pyvenv;
pub mod release;
pub mod report;
pub mod text;
pub mod update;
pub mod version;

use vstd::prelude::*;

verus! {

/// The version of the tool this library is built into, already normalized.
pub fn current_version() -> (v: &'static str)
    ensures
        v@ == "0.1.0"@,
{
    "0.1.0"
}

} // verus!
