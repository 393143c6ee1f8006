//! Tests for platform resolution and version normalization.

use unvenv::platform::get_platform_string;
use unvenv::version::normalize_version;

#[test]
fn test_version_constant() {
    let version = unvenv::current_version();
    assert!(version.len() > 0); // Check the version has content
    assert!(version.chars().next().unwrap().is_ascii_digit());
}

#[test]
fn test_get_platform_string() {
    let platform = get_platform_string("linux", "x86_64");
    // Verify it returns a non-empty string
    assert!(!platform.is_empty());
    // Verify it's one of the expected platforms or "unknown"
    assert!(matches!(
        platform,
        "x86_64-apple-darwin"
            | "aarch64-apple-darwin"
            | "x86_64-unknown-linux-gnu"
            | "aarch64-unknown-linux-gnu"
            | "x86_64-pc-windows-msvc"
            | "unknown"
    ));
}

#[test]
fn test_get_platform_string_exhaustive() {
    assert_eq!(get_platform_string("macos", "x86_64"), "x86_64-apple-darwin");
    assert_eq!(get_platform_string("macos", "aarch64"), "aarch64-apple-darwin");
    assert_eq!(get_platform_string("linux", "x86_64"), "x86_64-unknown-linux-gnu");
    assert_eq!(get_platform_string("linux", "aarch64"), "aarch64-unknown-linux-gnu");
    assert_eq!(get_platform_string("windows", "x86_64"), "x86_64-pc-windows-msvc");
}

#[test]
fn test_unix_platform_detection() {
    // Unix platforms never resolve to a Windows triple
    let platform = get_platform_string("linux", "aarch64");
    assert!(!platform.contains("windows"));
    assert!(!platform.contains("msvc"));
    let platform = get_platform_string("macos", "x86_64");
    assert!(!platform.contains("windows"));
    assert!(!platform.contains("msvc"));
}

#[test]
fn test_windows_platform_detection() {
    let platform = get_platform_string("windows", "x86_64");
    assert!(platform.contains("windows"));
}

#[test]
fn test_unknown_platforms() {
    assert_eq!(get_platform_string("windows", "aarch64"), "unknown");
    assert_eq!(get_platform_string("freebsd", "x86_64"), "unknown");
    assert_eq!(get_platform_string("linux", "riscv64"), "unknown");
    assert_eq!(get_platform_string("", ""), "unknown");
}

#[test]
fn test_normalize_version_strips_tag_prefix() {
    assert_eq!(normalize_version("unvenv-v1.2.3"), "1.2.3");
    assert_eq!(normalize_version("v1.2.3"), "1.2.3");
    assert_eq!(normalize_version("1.2.3"), "1.2.3");
}

#[test]
fn test_normalize_version_idempotent() {
    let once = normalize_version("unvenv-v2.0.1");
    let twice = normalize_version(&once);
    assert_eq!(once, twice);
    let once = normalize_version("v0.9.9");
    let twice = normalize_version(&once);
    assert_eq!(once, twice);
    let once = normalize_version("3.4.5");
    let twice = normalize_version(&once);
    assert_eq!(once, twice);
}

#[test]
fn test_normalize_version_repeated_prefixes() {
    // every leading occurrence of the prefix is stripped, then leading 'v's
    assert_eq!(normalize_version("unvenv-vunvenv-v1.0.0"), "1.0.0");
    assert_eq!(normalize_version("vv1.0.0"), "1.0.0");
    // a 'v' before the tag prefix shields it from the first pass
    assert_eq!(normalize_version("vunvenv-v1.0.0"), "unvenv-v1.0.0");
}
