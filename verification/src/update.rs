//! The update orchestrator as an explicit state machine. Each phase waits on
//! one outside action (a network fetch, a prompt, a filesystem step) that the
//! surrounding program performs; the machine consumes the action's outcome as
//! an event and decides the next action or the final outcome. Every outcome
//! maps to one of three exit codes: 0 for an installed update or a user
//! cancellation, 1 for any failure, 2 when already up to date.

use crate::checksum::{
    checksum_accepts, first_token, hex_of, sha256_of, spec_mismatch_msg, verify_checksum,
};
use crate::release::{
    checksum_url, download_url, get_latest_version, spec_checksum_url, spec_download_url,
};
use crate::text::{dec_of, push_char, str_eq, trim, trim_ws, u16_to_string};
use crate::version::spec_normalize_version;
use vstd::prelude::*;
use vstd::string::{StrSliceExecFns, StringExecFns};

verus! {

/// The per-invocation configuration, computed once at startup: the running
/// (already normalized) version, the force flag, the resolved platform
/// triple, and which family of operating system the binary targets.
pub struct UpdateConfig {
    pub current_version: String,
    pub force: bool,
    pub platform: String,
    pub windows: bool,
    pub unix: bool,
}

/// How an update run can end.
#[derive(Debug)]
pub enum Outcome {
    Updated,
    UpToDate,
    Cancelled,
    Failed(String),
}

/// The exit code of each outcome: 0 for an installed update or a
/// cancellation, 1 for a failure, 2 when already current.
pub open spec fn spec_exit_code(o: Outcome) -> int {
    match o {
        Outcome::Updated => 0,
        Outcome::Cancelled => 0,
        Outcome::UpToDate => 2,
        Outcome::Failed(_) => 1,
    }
}

pub fn exit_code(o: &Outcome) -> (c: i32)
    ensures
        c as int == spec_exit_code(*o),
{
    match o {
        Outcome::Updated => 0,
        Outcome::Cancelled => 0,
        Outcome::UpToDate => 2,
        Outcome::Failed(_) => 1,
    }
}

/// The phases in which the machine waits on the outcome of an outside
/// action. The resolved target version travels with the phase; the fetched
/// archive bytes wait with it between download and verification.
#[derive(Debug)]
pub enum Phase {
    FetchingIndex,
    ResolvingPath { target: String },
    Confirming { target: String },
    Downloading { target: String },
    FetchingChecksum { target: String, bytes: Vec<u8> },
    Extracting { target: String },
    Locating { target: String },
    SettingPermissions { target: String },
    Installing { target: String },
}

/// The outside work the driving program must perform next.
#[derive(Debug)]
pub enum Action {
    /// One GET of the release index, short timeout.
    FetchReleaseIndex,
    /// Resolve the install target path, before any network transfer.
    ResolveInstallPath,
    /// Print the confirmation prompt and read one line.
    PromptUser,
    /// One GET of the archive, long timeout.
    DownloadArchive { url: String },
    /// One GET of the companion checksum resource.
    FetchChecksum { url: String },
    /// Unpack the archive into a fresh scratch directory; when
    /// `checksum_missing` is set, first warn that verification was skipped.
    ExtractArchive { bytes: Vec<u8>, checksum_missing: bool },
    /// Check that the named binary exists in the scratch directory.
    LocateBinary { name: String },
    /// Set the extracted binary's permission bits to 0o755.
    SetExecutable,
    /// Copy the extracted binary over the install target.
    InstallBinary,
}

/// Why the final copy failed, as the driving program classified it.
#[derive(Debug)]
pub struct InstallError {
    pub permission_denied: bool,
    pub message: String,
}

/// The outcome of the pending action, handed back by the driving program.
#[derive(Debug)]
pub enum Event {
    /// The release index body, or a transport error.
    IndexFetched(Result<String, String>),
    /// Whether the install target path could be determined.
    InstallPathResolved(Result<(), String>),
    /// The line the user answered to the prompt.
    PromptAnswered(String),
    /// The archive response's status and body, or a transport error.
    ArchiveFetched(Result<(u16, Vec<u8>), String>),
    /// The checksum response's status and text, or a transport error.
    ChecksumFetched(Result<(u16, String), String>),
    /// Whether unpacking into the scratch directory succeeded.
    Extracted(Result<(), String>),
    /// Whether the expected binary was found in the scratch directory.
    BinaryLocated(bool),
    /// Whether the permission bits could be set.
    PermissionsSet(Result<(), String>),
    /// Whether the final copy succeeded.
    Installed(Result<(), InstallError>),
}

/// What the machine says after consuming an event: the next phase and the
/// action to perform, or the final outcome.
#[derive(Debug)]
pub enum Step {
    Continue(Phase, Action),
    Finished(Outcome),
}

/// The event each phase waits for.
pub open spec fn phase_expects(p: Phase, e: Event) -> bool {
    match (p, e) {
        (Phase::FetchingIndex, Event::IndexFetched(_)) => true,
        (Phase::ResolvingPath { .. }, Event::InstallPathResolved(_)) => true,
        (Phase::Confirming { .. }, Event::PromptAnswered(_)) => true,
        (Phase::Downloading { .. }, Event::ArchiveFetched(_)) => true,
        (Phase::FetchingChecksum { .. }, Event::ChecksumFetched(_)) => true,
        (Phase::Extracting { .. }, Event::Extracted(_)) => true,
        (Phase::Locating { .. }, Event::BinaryLocated(_)) => true,
        (Phase::SettingPermissions { .. }, Event::PermissionsSet(_)) => true,
        (Phase::Installing { .. }, Event::Installed(_)) => true,
        _ => false,
    }
}

/// Lowercases the ASCII uppercase letters and leaves every other character
/// unchanged.
pub open spec fn ascii_lower(c: char) -> char {
    if c == 'A' {
        'a'
    } else if c == 'B' {
        'b'
    } else if c == 'C' {
        'c'
    } else if c == 'D' {
        'd'
    } else if c == 'E' {
        'e'
    } else if c == 'F' {
        'f'
    } else if c == 'G' {
        'g'
    } else if c == 'H' {
        'h'
    } else if c == 'I' {
        'i'
    } else if c == 'J' {
        'j'
    } else if c == 'K' {
        'k'
    } else if c == 'L' {
        'l'
    } else if c == 'M' {
        'm'
    } else if c == 'N' {
        'n'
    } else if c == 'O' {
        'o'
    } else if c == 'P' {
        'p'
    } else if c == 'Q' {
        'q'
    } else if c == 'R' {
        'r'
    } else if c == 'S' {
        's'
    } else if c == 'T' {
        't'
    } else if c == 'U' {
        'u'
    } else if c == 'V' {
        'v'
    } else if c == 'W' {
        'w'
    } else if c == 'X' {
        'x'
    } else if c == 'Y' {
        'y'
    } else if c == 'Z' {
        'z'
    } else {
        c
    }
}

fn ascii_lower_exec(c: char) -> (r: char)
    ensures
        r == ascii_lower(c),
{
    if c >= 'A' && c <= 'Z' {
        if c == 'A' {
            'a'
        } else if c == 'B' {
            'b'
        } else if c == 'C' {
            'c'
        } else if c == 'D' {
            'd'
        } else if c == 'E' {
            'e'
        } else if c == 'F' {
            'f'
        } else if c == 'G' {
            'g'
        } else if c == 'H' {
            'h'
        } else if c == 'I' {
            'i'
        } else if c == 'J' {
            'j'
        } else if c == 'K' {
            'k'
        } else if c == 'L' {
            'l'
        } else if c == 'M' {
            'm'
        } else if c == 'N' {
            'n'
        } else if c == 'O' {
            'o'
        } else if c == 'P' {
            'p'
        } else if c == 'Q' {
            'q'
        } else if c == 'R' {
            'r'
        } else if c == 'S' {
            's'
        } else if c == 'T' {
            't'
        } else if c == 'U' {
            'u'
        } else if c == 'V' {
            'v'
        } else if c == 'W' {
            'w'
        } else if c == 'X' {
            'x'
        } else if c == 'Y' {
            'y'
        } else {
            'z'
        }
    } else {
        c
    }
}

/// An affirmative answer to the confirmation prompt: "y" or "yes" once
/// trimmed and lowercased.
pub open spec fn spec_affirmative(resp: Seq<char>) -> bool {
    let t = trim_ws(resp).map_values(|c: char| ascii_lower(c));
    t == "y"@ || t == "yes"@
}

pub fn is_affirmative(resp: &str) -> (b: bool)
    ensures
        b == spec_affirmative(resp@),
{
    let t = trim(resp);
    let ts = t.as_str();
    let n = ts.unicode_len();
    let mut low = String::new();
    let mut i: usize = 0;
    while i < n
        invariant
            ts@ == t@,
            n == t@.len(),
            i <= n,
            low@ == t@.map_values(|c: char| ascii_lower(c)).take(i as int),
        decreases n - i,
    {
        let c = ascii_lower_exec(ts.get_char(i));
        push_char(&mut low, c);
        proof {
            assert(low@ =~= t@.map_values(|c: char| ascii_lower(c)).take(i + 1 as int));
        }
        i = i + 1;
    }
    proof {
        assert(t@.map_values(|c: char| ascii_lower(c)).take(n as int) =~= t@.map_values(
            |c: char| ascii_lower(c),
        ));
    }
    let ls = low.as_str();
    str_eq(ls, "y") || str_eq(ls, "yes")
}

pub open spec fn spec_status_ok(st: u16) -> bool {
    200 <= st < 300
}

fn status_ok(st: u16) -> (b: bool)
    ensures
        b == spec_status_ok(st),
{
    200 <= st && st < 300
}

/// The name of the binary payload inside the archive.
pub open spec fn spec_binary_name(windows: bool) -> Seq<char> {
    if windows {
        "unvenv.exe"@
    } else {
        "unvenv"@
    }
}

pub fn binary_name(windows: bool) -> (n: &'static str)
    ensures
        n@ == spec_binary_name(windows),
{
    if windows {
        "unvenv.exe"
    } else {
        "unvenv"
    }
}

/// The failure reported for a non-success archive response.
pub open spec fn spec_http_fail_msg(st: u16) -> Seq<char> {
    "Download failed: HTTP "@ + dec_of(st as int)
}

/// The failure reported when the expected binary is missing from the
/// archive.
pub open spec fn spec_missing_binary_msg(name: Seq<char>) -> Seq<char> {
    "Binary not found in archive: "@ + name
}

/// The actionable message wrapped around a permission-denied copy failure.
pub open spec fn spec_permission_msg(io_msg: Seq<char>) -> Seq<char> {
    "Permission denied. Try running with sudo or use --install-dir to specify a writable location:\n  "@
        + io_msg
}

/// The error `verify_checksum` reports for a record that does not accept
/// the bytes.
pub open spec fn spec_checksum_error(bytes: Seq<u8>, text: Seq<char>) -> Seq<char> {
    match first_token(text) {
        None => "Invalid checksum format"@,
        Some(t) => spec_mismatch_msg(t, hex_of(sha256_of(bytes))),
    }
}

/// A step that finishes as Failed with the given message.
pub open spec fn failed_with(s: Step, m: Seq<char>) -> bool {
    &&& s matches Step::Finished(Outcome::Failed(msg))
    &&& msg@ == m
}

/// The version check: with force set, or a target differing from the
/// current version, the update proceeds.
pub open spec fn spec_proceed(target: Seq<char>, current: Seq<char>, force: bool) -> bool {
    force || target != current
}

/// What the version check yields: the up-to-date finish, or the move to
/// resolving the install path.
pub open spec fn spec_version_checked(cfg: UpdateConfig, target: Seq<char>, s: Step) -> bool {
    if spec_proceed(target, cfg.current_version@, cfg.force) {
        &&& s matches Step::Continue(p, a)
        &&& p matches Phase::ResolvingPath { target: t }
        &&& t@ == target
        &&& a == Action::ResolveInstallPath
    } else {
        s == Step::Finished(Outcome::UpToDate)
    }
}

/// The move to downloading: the next action is a GET of the deterministic
/// artifact URL for the target version and platform.
pub open spec fn spec_download_step(cfg: UpdateConfig, target: Seq<char>, s: Step) -> bool {
    &&& s matches Step::Continue(p, a)
    &&& p matches Phase::Downloading { target: t }
    &&& t@ == target
    &&& a matches Action::DownloadArchive { url }
    &&& url@ == spec_download_url(target, cfg.platform@, cfg.windows)
}

/// The move to extraction: on Windows the zip format is refused outright;
/// elsewhere the bytes are handed out for unpacking, with the warning flag
/// set exactly when no checksum record was available.
pub open spec fn spec_install_begin(
    cfg: UpdateConfig,
    target: Seq<char>,
    bytes: Seq<u8>,
    missing: bool,
    s: Step,
) -> bool {
    if cfg.windows {
        failed_with(s, "Windows update not yet implemented"@)
    } else {
        &&& s matches Step::Continue(p, a)
        &&& p matches Phase::Extracting { target: t }
        &&& t@ == target
        &&& a matches Action::ExtractArchive { bytes: b, checksum_missing }
        &&& b@ == bytes
        &&& checksum_missing == missing
    }
}

/// The whole transition relation: what `step_update` yields for each phase
/// and the event it waits for.
pub open spec fn spec_step(cfg: UpdateConfig, phase: Phase, event: Event, s: Step) -> bool {
    match (phase, event) {
        (Phase::FetchingIndex, Event::IndexFetched(r)) => match r {
            Ok(body) => match crate::release::json_tag_name(body@) {
                Some(tag) => spec_version_checked(cfg, spec_normalize_version(tag), s),
                None => failed_with(s, "No tag_name in response"@),
            },
            Err(m0) => failed_with(s, m0@),
        },
        (Phase::ResolvingPath { target }, Event::InstallPathResolved(r)) => match r {
            Ok(_) => if cfg.force {
                spec_download_step(cfg, target@, s)
            } else {
                &&& s matches Step::Continue(p, a)
                &&& p matches Phase::Confirming { target: t }
                &&& t@ == target@
                &&& a == Action::PromptUser
            },
            Err(m0) => failed_with(s, m0@),
        },
        (Phase::Confirming { target }, Event::PromptAnswered(resp)) => if spec_affirmative(
            resp@,
        ) {
            spec_download_step(cfg, target@, s)
        } else {
            s == Step::Finished(Outcome::Cancelled)
        },
        (Phase::Downloading { target }, Event::ArchiveFetched(r)) => match r {
            Ok((st, bytes)) => if spec_status_ok(st) {
                &&& s matches Step::Continue(p, a)
                &&& p matches Phase::FetchingChecksum { target: t, bytes: b }
                &&& t@ == target@
                &&& b@ == bytes@
                &&& a matches Action::FetchChecksum { url }
                &&& url@ == spec_checksum_url(
                    spec_download_url(target@, cfg.platform@, cfg.windows),
                )
            } else {
                failed_with(s, spec_http_fail_msg(st))
            },
            Err(m0) => failed_with(s, m0@),
        },
        (Phase::FetchingChecksum { target, bytes }, Event::ChecksumFetched(r)) => match r {
            Ok((st, text)) => if spec_status_ok(st) {
                if checksum_accepts(bytes@, text@) {
                    spec_install_begin(cfg, target@, bytes@, false, s)
                } else {
                    failed_with(s, spec_checksum_error(bytes@, text@))
                }
            } else {
                spec_install_begin(cfg, target@, bytes@, true, s)
            },
            Err(m0) => failed_with(s, m0@),
        },
        (Phase::Extracting { target }, Event::Extracted(r)) => match r {
            Ok(_) => {
                &&& s matches Step::Continue(p, a)
                &&& p matches Phase::Locating { target: t }
                &&& t@ == target@
                &&& a matches Action::LocateBinary { name }
                &&& name@ == spec_binary_name(cfg.windows)
            },
            Err(m0) => failed_with(s, m0@),
        },
        (Phase::Locating { target }, Event::BinaryLocated(found)) => if found {
            if cfg.unix {
                &&& s matches Step::Continue(p, a)
                &&& p matches Phase::SettingPermissions { target: t }
                &&& t@ == target@
                &&& a == Action::SetExecutable
            } else {
                &&& s matches Step::Continue(p, a)
                &&& p matches Phase::Installing { target: t }
                &&& t@ == target@
                &&& a == Action::InstallBinary
            }
        } else {
            failed_with(s, spec_missing_binary_msg(spec_binary_name(cfg.windows)))
        },
        (Phase::SettingPermissions { target }, Event::PermissionsSet(r)) => match r {
            Ok(_) => {
                &&& s matches Step::Continue(p, a)
                &&& p matches Phase::Installing { target: t }
                &&& t@ == target@
                &&& a == Action::InstallBinary
            },
            Err(m0) => failed_with(s, m0@),
        },
        (Phase::Installing { target: _ }, Event::Installed(r)) => match r {
            Ok(_) => s == Step::Finished(Outcome::Updated),
            Err(ie) => failed_with(
                s,
                if ie.permission_denied {
                    spec_permission_msg(ie.message@)
                } else {
                    ie.message@
                },
            ),
        },
        _ => false,
    }
}

/// Compares the resolved target version to the current one and either
/// finishes up to date or moves on to resolving the install path.
fn check_version(cfg: &UpdateConfig, target: String) -> (s: Step)
    ensures
        spec_version_checked(*cfg, target@, s),
{
    if !cfg.force && str_eq(target.as_str(), cfg.current_version.as_str()) {
        Step::Finished(Outcome::UpToDate)
    } else {
        Step::Continue(Phase::ResolvingPath { target }, Action::ResolveInstallPath)
    }
}

fn begin_download(cfg: &UpdateConfig, target: String) -> (s: Step)
    ensures
        spec_download_step(*cfg, target@, s),
{
    let url = download_url(target.as_str(), cfg.platform.as_str(), cfg.windows);
    Step::Continue(Phase::Downloading { target }, Action::DownloadArchive { url })
}

fn begin_install(cfg: &UpdateConfig, target: String, bytes: Vec<u8>, checksum_missing: bool) -> (s:
    Step)
    ensures
        spec_install_begin(*cfg, target@, bytes@, checksum_missing, s),
{
    if cfg.windows {
        Step::Finished(Outcome::Failed(("Windows update not yet implemented").to_owned()))
    } else {
        Step::Continue(
            Phase::Extracting { target },
            Action::ExtractArchive { bytes, checksum_missing },
        )
    }
}

/// Starts an update run: an explicitly requested version is taken verbatim
/// to the version check; otherwise the release index must be fetched first.
pub fn start_update(cfg: &UpdateConfig, explicit_version: Option<&str>) -> (s: Step)
    ensures
        match explicit_version {
            Some(v) => spec_version_checked(*cfg, v@, s),
            None => s == Step::Continue(Phase::FetchingIndex, Action::FetchReleaseIndex),
        },
{
    match explicit_version {
        Some(v) => check_version(cfg, v.to_owned()),
        None => Step::Continue(Phase::FetchingIndex, Action::FetchReleaseIndex),
    }
}

/// Consumes the outcome of the pending action and yields the next step, as
/// the transition relation `spec_step` describes.
pub fn step_update(cfg: &UpdateConfig, phase: Phase, event: Event) -> (s: Step)
    requires
        phase_expects(phase, event),
    ensures
        spec_step(*cfg, phase, event, s),
{
    match (phase, event) {
        (Phase::FetchingIndex, Event::IndexFetched(r)) => match r {
            Ok(body) => match get_latest_version(body.as_str()) {
                Ok(v) => check_version(cfg, v),
                Err(m) => Step::Finished(Outcome::Failed(m)),
            },
            Err(m) => Step::Finished(Outcome::Failed(m)),
        },
        (Phase::ResolvingPath { target }, Event::InstallPathResolved(r)) => match r {
            Ok(_) => if cfg.force {
                begin_download(cfg, target)
            } else {
                Step::Continue(Phase::Confirming { target }, Action::PromptUser)
            },
            Err(m) => Step::Finished(Outcome::Failed(m)),
        },
        (Phase::Confirming { target }, Event::PromptAnswered(resp)) => {
            if is_affirmative(resp.as_str()) {
                begin_download(cfg, target)
            } else {
                Step::Finished(Outcome::Cancelled)
            }
        },
        (Phase::Downloading { target }, Event::ArchiveFetched(r)) => match r {
            Ok((st, bytes)) => if status_ok(st) {
                let url = download_url(target.as_str(), cfg.platform.as_str(), cfg.windows);
                let curl = checksum_url(url.as_str());
                Step::Continue(
                    Phase::FetchingChecksum { target, bytes },
                    Action::FetchChecksum { url: curl },
                )
            } else {
                let mut m = ("Download failed: HTTP ").to_owned();
                let st_str = u16_to_string(st);
                m.append(st_str.as_str());
                Step::Finished(Outcome::Failed(m))
            },
            Err(m) => Step::Finished(Outcome::Failed(m)),
        },
        (Phase::FetchingChecksum { target, bytes }, Event::ChecksumFetched(r)) => match r {
            Ok((st, text)) => if status_ok(st) {
                match verify_checksum(bytes.as_slice(), text.as_str()) {
                    Ok(_) => begin_install(cfg, target, bytes, false),
                    Err(m) => Step::Finished(Outcome::Failed(m)),
                }
            } else {
                begin_install(cfg, target, bytes, true)
            },
            Err(m) => Step::Finished(Outcome::Failed(m)),
        },
        (Phase::Extracting { target }, Event::Extracted(r)) => match r {
            Ok(_) => {
                let name = binary_name(cfg.windows).to_owned();
                Step::Continue(Phase::Locating { target }, Action::LocateBinary { name })
            },
            Err(m) => Step::Finished(Outcome::Failed(m)),
        },
        (Phase::Locating { target }, Event::BinaryLocated(found)) => if found {
            if cfg.unix {
                Step::Continue(Phase::SettingPermissions { target }, Action::SetExecutable)
            } else {
                Step::Continue(Phase::Installing { target }, Action::InstallBinary)
            }
        } else {
            let mut m = ("Binary not found in archive: ").to_owned();
            m.append(binary_name(cfg.windows));
            Step::Finished(Outcome::Failed(m))
        },
        (Phase::SettingPermissions { target }, Event::PermissionsSet(r)) => match r {
            Ok(_) => Step::Continue(Phase::Installing { target }, Action::InstallBinary),
            Err(m) => Step::Finished(Outcome::Failed(m)),
        },
        (Phase::Installing { target: _ }, Event::Installed(r)) => match r {
            Ok(_) => Step::Finished(Outcome::Updated),
            Err(ie) => if ie.permission_denied {
                let mut m = (
                "Permission denied. Try running with sudo or use --install-dir to specify a writable location:\n  ").to_owned();
                m.append(ie.message.as_str());
                Step::Finished(Outcome::Failed(m))
            } else {
                Step::Finished(Outcome::Failed(ie.message))
            },
        },
        _ => {
            proof {
                assert(false);
            }
            Step::Finished(Outcome::Cancelled)
        },
    }
}

/// Law: when the resolved target version equals the current version and
/// force is not set, the version check finishes the run with the up-to-date
/// outcome, whose exit code is 2; no further step and in particular no
/// download action is issued.
pub proof fn lemma_up_to_date_stops(cfg: UpdateConfig, target: Seq<char>, s: Step)
    requires
        target == cfg.current_version@,
        !cfg.force,
        spec_version_checked(cfg, target, s),
    ensures
        s == Step::Finished(Outcome::UpToDate),
        spec_exit_code(Outcome::UpToDate) == 2,
{
}

/// Law: with force set, the version check always proceeds past the
/// up-to-date comparison, even when the target equals the current version.
pub proof fn lemma_force_proceeds(cfg: UpdateConfig, target: Seq<char>, s: Step)
    requires
        cfg.force,
        spec_version_checked(cfg, target, s),
    ensures
        s matches Step::Continue(p, a) && a == Action::ResolveInstallPath && (p
            matches Phase::ResolvingPath { target: t } && t@ == target),
        s != Step::Finished(Outcome::UpToDate),
{
}

/// Law: a checksum record whose digest does not accept the fetched bytes
/// finishes the run as Failed with the mismatch report; extraction and
/// installation are never reached with mismatched bytes.
pub proof fn lemma_mismatch_never_installs(
    cfg: UpdateConfig,
    target: String,
    bytes: Vec<u8>,
    st: u16,
    text: String,
    s: Step,
)
    requires
        spec_step(
            cfg,
            Phase::FetchingChecksum { target, bytes },
            Event::ChecksumFetched(Ok((st, text))),
            s,
        ),
        spec_status_ok(st),
        !checksum_accepts(bytes@, text@),
    ensures
        failed_with(s, spec_checksum_error(bytes@, text@)),
        s matches Step::Finished(o) && spec_exit_code(o) == 1,
{
}

/// Law: when no checksum record is available (a non-success status on the
/// companion resource), the pipeline still proceeds to extraction, but the
/// hand-off carries the warning flag so the reduced assurance is surfaced.
pub proof fn lemma_absent_checksum_warns(
    cfg: UpdateConfig,
    target: String,
    bytes: Vec<u8>,
    st: u16,
    text: String,
    s: Step,
)
    requires
        spec_step(
            cfg,
            Phase::FetchingChecksum { target, bytes },
            Event::ChecksumFetched(Ok((st, text))),
            s,
        ),
        !spec_status_ok(st),
        !cfg.windows,
    ensures
        s matches Step::Continue(p, a) && (a matches Action::ExtractArchive {
            bytes: b,
            checksum_missing,
        } && b@ == bytes@ && checksum_missing),
{
}

/// Law: a failed final copy finishes the run as Failed, whose exit code is
/// 1; a permission-denied failure carries the actionable advice around the
/// underlying error.
pub proof fn lemma_install_failure_exits_one(
    cfg: UpdateConfig,
    target: String,
    ie: InstallError,
    s: Step,
)
    requires
        spec_step(cfg, Phase::Installing { target }, Event::Installed(Err(ie)), s),
    ensures
        s matches Step::Finished(Outcome::Failed(m)) && spec_exit_code(Outcome::Failed(m)) == 1,
        ie.permission_denied ==> failed_with(s, spec_permission_msg(ie.message@)),
        !ie.permission_denied ==> failed_with(s, ie.message@),
{
}

} // verus!
