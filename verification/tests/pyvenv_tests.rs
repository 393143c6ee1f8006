//! Tests for the pyvenv.cfg parser and the violation-report computations.

use unvenv::pyvenv::{parse_pyvenv_cfg, VenvInfo};
use unvenv::report::{
    ignore_entry, normalized_display_path, scan_exit_code, suggested_ignore_entries,
};

#[test]
fn test_parse_pyvenv_cfg() {
    let content = "home = /usr/bin\ninclude-system-site-packages = false\nversion = 3.9.7\n";
    let info = parse_pyvenv_cfg("test/pyvenv.cfg", content);

    assert_eq!(info.home, Some("/usr/bin".to_string()));
    assert_eq!(info.version, Some("3.9.7".to_string()));
    assert_eq!(info.include_system_site_packages, Some("false".to_string()));
}

#[test]
fn test_parse_empty_pyvenv_cfg() {
    let info = parse_pyvenv_cfg("test/pyvenv.cfg", "");

    assert_eq!(info.home, None);
    assert_eq!(info.version, None);
    assert_eq!(info.include_system_site_packages, None);
}

#[test]
fn test_parse_pyvenv_cfg_with_comments() {
    let content = "# This is a comment\nhome = /opt/python\n# Another comment\nversion = 3.10.1\n# Trailing comment\n";
    let info = parse_pyvenv_cfg("test/pyvenv.cfg", content);

    assert_eq!(info.home, Some("/opt/python".to_string()));
    assert_eq!(info.version, Some("3.10.1".to_string()));
}

#[test]
fn test_parse_pyvenv_cfg_with_whitespace() {
    let content = "  home   =   /usr/local/bin\n  version  =  3.11.0\n";
    let info = parse_pyvenv_cfg("test/pyvenv.cfg", content);

    assert_eq!(info.home, Some("/usr/local/bin".to_string()));
    assert_eq!(info.version, Some("3.11.0".to_string()));
}

#[test]
fn test_parse_pyvenv_cfg_malformed_lines() {
    // lines without an = separator are skipped
    let content =
        "home = /usr/bin\nthis line has no equals sign\nversion = 3.9.0\nanother malformed line\n";
    let info = parse_pyvenv_cfg("test/pyvenv.cfg", content);

    assert_eq!(info.home, Some("/usr/bin".to_string()));
    assert_eq!(info.version, Some("3.9.0".to_string()));
}

#[test]
fn test_parse_pyvenv_cfg_with_special_characters() {
    let content = "home = /usr/bin/python🐍\nversion = 3.9.0\n";
    let info = parse_pyvenv_cfg("test/pyvenv.cfg", content);

    assert_eq!(info.home, Some("/usr/bin/python🐍".to_string()));
    assert_eq!(info.version, Some("3.9.0".to_string()));
}

#[test]
fn test_parse_pyvenv_cfg_only_equals() {
    let content = "=\nhome = /usr/bin\n";
    let info = parse_pyvenv_cfg("test/pyvenv.cfg", content);

    assert_eq!(info.home, Some("/usr/bin".to_string()));
}

#[test]
fn test_parse_pyvenv_cfg_multiple_equals() {
    // only the first = separates the key from the value
    let content = "home = /usr/bin = something\nversion = 3.9.0\n";
    let info = parse_pyvenv_cfg("test/pyvenv.cfg", content);

    assert_eq!(info.home, Some("/usr/bin = something".to_string()));
    assert_eq!(info.version, Some("3.9.0".to_string()));
}

#[test]
fn test_parse_pyvenv_cfg_blank_lines_only() {
    let info = parse_pyvenv_cfg("test/pyvenv.cfg", "\n\n\n\n");

    assert_eq!(info.home, None);
    assert_eq!(info.version, None);
    assert_eq!(info.include_system_site_packages, None);
}

#[test]
fn test_parse_pyvenv_cfg_last_occurrence_wins() {
    let content = "home = /first\nhome = /second\n";
    let info = parse_pyvenv_cfg("test/pyvenv.cfg", content);

    assert_eq!(info.home, Some("/second".to_string()));
}

#[test]
fn test_parse_pyvenv_cfg_crlf_lines() {
    let content = "home = /usr/bin\r\nversion = 3.9.0\r\n";
    let info = parse_pyvenv_cfg("test/pyvenv.cfg", content);

    assert_eq!(info.home, Some("/usr/bin".to_string()));
    assert_eq!(info.version, Some("3.9.0".to_string()));
}

#[test]
fn test_venv_info_creation() {
    let venv = VenvInfo {
        path: "test/pyvenv.cfg".to_string(),
        home: Some("/usr/bin".to_string()),
        version: Some("3.9.0".to_string()),
        include_system_site_packages: Some("false".to_string()),
    };

    assert_eq!(venv.path, "test/pyvenv.cfg".to_string());
    assert_eq!(venv.home, Some("/usr/bin".to_string()));
    assert_eq!(venv.version, Some("3.9.0".to_string()));
    assert_eq!(venv.include_system_site_packages, Some("false".to_string()));
}

#[test]
fn test_venv_info_with_none_values() {
    let venv = VenvInfo {
        path: "test/pyvenv.cfg".to_string(),
        home: None,
        version: None,
        include_system_site_packages: None,
    };

    assert_eq!(venv.path, "test/pyvenv.cfg".to_string());
    assert_eq!(venv.home, None);
    assert_eq!(venv.version, None);
    assert_eq!(venv.include_system_site_packages, None);
}

#[test]
fn test_normalized_display_path() {
    assert_eq!(normalized_display_path("venv\\pyvenv.cfg"), "venv/pyvenv.cfg");
    assert_eq!(normalized_display_path("venv/pyvenv.cfg"), "venv/pyvenv.cfg");
    assert_eq!(normalized_display_path(""), "");
}

#[test]
fn test_ignore_entry_for_path() {
    assert_eq!(ignore_entry("venv/pyvenv.cfg"), Some("venv/".to_string()));
    assert_eq!(ignore_entry("a/b/pyvenv.cfg"), Some("b/".to_string()));
    assert_eq!(ignore_entry("pyvenv.cfg"), None);
    assert_eq!(ignore_entry("/pyvenv.cfg"), None);
}

fn venv_at(path: &str) -> VenvInfo {
    VenvInfo {
        path: path.to_string(),
        home: None,
        version: None,
        include_system_site_packages: None,
    }
}

#[test]
fn test_suggested_ignore_entries_deduplicates() {
    let venvs = vec![
        venv_at("venv/pyvenv.cfg"),
        venv_at("other/venv/pyvenv.cfg"),
        venv_at("venv/pyvenv.cfg"),
        venv_at("pyvenv.cfg"),
    ];
    let entries = suggested_ignore_entries(&venvs);
    assert_eq!(entries, vec!["venv/".to_string()]);
}

#[test]
fn test_suggested_ignore_entries_multiple() {
    let venvs = vec![
        venv_at("venv/pyvenv.cfg"),
        venv_at(".env/pyvenv.cfg"),
        venv_at("myenv/pyvenv.cfg"),
    ];
    let entries = suggested_ignore_entries(&venvs);
    assert_eq!(
        entries,
        vec!["venv/".to_string(), ".env/".to_string(), "myenv/".to_string()]
    );
}

#[test]
fn test_scan_exit_code() {
    assert_eq!(scan_exit_code(0), 0);
    assert_eq!(scan_exit_code(1), 2);
    assert_eq!(scan_exit_code(17), 2);
}
