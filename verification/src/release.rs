//! Release location: resolving the target version from the remote release
//! index's JSON body, and constructing the deterministic download URLs for a
//! resolved version and platform.

use crate::text::str_eq;
use crate::version::{normalize_version, spec_normalize_version};
use vstd::prelude::*;
use vstd::string::StringExecFns;

verus! {

/// The "tag_name" string field of the release index body, when the body is a
/// JSON document carrying one; None when the body does not parse as JSON or
/// the field is absent or not a string. A pure function of the text.
pub uninterp spec fn json_tag_name(body: Seq<char>) -> Option<Seq<char>>;

/// Relies on serde_json::from_str, Value::get and Value::as_str: parses the
/// body as JSON and reads its "tag_name" string field, a pure function of
/// the text alone.
#[verifier::external_body]
fn extract_tag_name(body: &str) -> (t: Option<String>)
    ensures
        match t {
            Some(s) => json_tag_name(body@) == Some(s@),
            None => json_tag_name(body@) is None,
        },
{
    match serde_json::from_str::<serde_json::Value>(body) {
        Ok(v) => match v.get("tag_name") {
            Some(f) => f.as_str().map(|s| s.to_string()),
            None => None,
        },
        Err(_) => None,
    }
}

/// The release-index endpoint naming the latest published version.
pub fn release_index_url() -> (u: &'static str)
    ensures
        u@ == "https://api.github.com/repos/workhelix/unvenv/releases/latest"@,
{
    "https://api.github.com/repos/workhelix/unvenv/releases/latest"
}

/// Resolves the latest published version from the body of the release index:
/// the normalized "tag_name" field, or an error when the body carries none.
pub fn get_latest_version(body: &str) -> (r: Result<String, String>)
    ensures
        match r {
            Ok(v) => json_tag_name(body@) matches Some(t) && v@ == spec_normalize_version(t),
            Err(m) => json_tag_name(body@) is None && m@ == "No tag_name in response"@,
        },
{
    match extract_tag_name(body) {
        Some(tag) => Ok(normalize_version(tag.as_str())),
        None => Err(("No tag_name in response").to_owned()),
    }
}

/// The health check's update probe: given the release index body and the
/// running version, reports the latest version when it differs, None when
/// the tool is current, and an error when the body names no release.
pub fn check_for_updates(body: &str, current: &str) -> (r: Result<Option<String>, String>)
    ensures
        match r {
            Ok(Some(v)) => json_tag_name(body@) matches Some(t) && v@ == spec_normalize_version(t)
                && v@ != current@,
            Ok(None) => json_tag_name(body@) matches Some(t)
                && spec_normalize_version(t) == current@,
            Err(m) => json_tag_name(body@) is None && m@ == "No tag_name in response"@,
        },
{
    match get_latest_version(body) {
        Ok(latest) => {
            if str_eq(latest.as_str(), current) {
                Ok(None)
            } else {
                Ok(Some(latest))
            }
        },
        Err(m) => Err(m),
    }
}

/// The archive file name for a platform: "unvenv-<triple>.zip" on Windows,
/// "unvenv-<triple>.tar.gz" elsewhere.
pub open spec fn spec_artifact_filename(platform: Seq<char>, windows: bool) -> Seq<char> {
    "unvenv-"@ + platform + (if windows {
        ".zip"@
    } else {
        ".tar.gz"@
    })
}

pub fn artifact_filename(platform: &str, windows: bool) -> (f: String)
    ensures
        f@ == spec_artifact_filename(platform@, windows),
{
    let mut f = ("unvenv-").to_owned();
    f.append(platform);
    if windows {
        f.append(".zip");
    } else {
        f.append(".tar.gz");
    }
    proof {
        assert(f@ =~= spec_artifact_filename(platform@, windows));
    }
    f
}

/// The deterministic download URL for a version's platform artifact.
pub open spec fn spec_download_url(version: Seq<char>, platform: Seq<char>, windows: bool) -> Seq<
    char,
> {
    "https://github.com/workhelix/unvenv/releases/download/unvenv-v"@ + version + "/"@
        + spec_artifact_filename(platform, windows)
}

pub fn download_url(version: &str, platform: &str, windows: bool) -> (u: String)
    ensures
        u@ == spec_download_url(version@, platform@, windows),
{
    let mut u = ("https://github.com/workhelix/unvenv/releases/download/unvenv-v").to_owned();
    u.append(version);
    u.append("/");
    let f = artifact_filename(platform, windows);
    u.append(f.as_str());
    proof {
        assert(u@ =~= spec_download_url(version@, platform@, windows));
    }
    u
}

/// The companion checksum resource: the artifact URL with ".sha256" appended.
pub open spec fn spec_checksum_url(url: Seq<char>) -> Seq<char> {
    url + ".sha256"@
}

pub fn checksum_url(url: &str) -> (u: String)
    ensures
        u@ == spec_checksum_url(url@),
{
    let mut u = url.to_owned();
    u.append(".sha256");
    u
}

} // verus!
