//! Platform resolution: maps an operating-system identifier and a CPU
//! architecture identifier to the canonical target triple used in artifact
//! file names.

use crate::text::str_eq;
use vstd::prelude::*;

verus! {

/// The canonical target triple for a platform, or "unknown" for any pair
/// outside the supported mapping.
pub open spec fn spec_platform_triple(os: Seq<char>, arch: Seq<char>) -> Seq<char> {
    if os == "macos"@ && arch == "x86_64"@ {
        "x86_64-apple-darwin"@
    } else if os == "macos"@ && arch == "aarch64"@ {
        "aarch64-apple-darwin"@
    } else if os == "linux"@ && arch == "x86_64"@ {
        "x86_64-unknown-linux-gnu"@
    } else if os == "linux"@ && arch == "aarch64"@ {
        "aarch64-unknown-linux-gnu"@
    } else if os == "windows"@ && arch == "x86_64"@ {
        "x86_64-pc-windows-msvc"@
    } else {
        "unknown"@
    }
}

/// Resolves the operating system and architecture the binary runs on to the
/// target triple naming its release artifacts. Unsupported pairs resolve to
/// "unknown" rather than an error; later stages fail naturally when no such
/// artifact exists.
pub fn get_platform_string(os: &str, arch: &str) -> (t: &'static str)
    ensures
        t@ == spec_platform_triple(os@, arch@),
{
    proof {
        reveal_strlit("macos");
        reveal_strlit("linux");
        reveal_strlit("windows");
    }
    if str_eq(os, "macos") {
        if str_eq(arch, "x86_64") {
            "x86_64-apple-darwin"
        } else if str_eq(arch, "aarch64") {
            "aarch64-apple-darwin"
        } else {
            "unknown"
        }
    } else if str_eq(os, "linux") {
        if str_eq(arch, "x86_64") {
            "x86_64-unknown-linux-gnu"
        } else if str_eq(arch, "aarch64") {
            "aarch64-unknown-linux-gnu"
        } else {
            "unknown"
        }
    } else if str_eq(os, "windows") {
        if str_eq(arch, "x86_64") {
            "x86_64-pc-windows-msvc"
        } else {
            "unknown"
        }
    } else {
        "unknown"
    }
}

} // verus!
