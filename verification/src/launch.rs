//! What the command line asked for and how the process acts on it: which
//! modes open a window or use the configured Git executable, what a finished
//! mode writes to the standard streams, and the labels of a focused
//! mergetool window.
use vstd::prelude::*;
use crate::apply_update::ApplyUpdateRequest;
use crate::exit_code;
use crate::text::{last_char_pos, owned, plain_path, push_str, str_eq, trim, trim_spec, trim_path_end};
use crate::view_config::StartupCrashReport;

verus! {

/// Marker size of conflict hunks when none is configured.
pub const DEFAULT_MARKER_SIZE: usize = 7;

/// How conflicts are written into the merged file.
#[derive(Clone, Copy, Debug, PartialEq, Eq, Structural)]
pub enum ConflictStyle {
    Merge,
    Diff3,
    Zdiff3,
}

/// The diff algorithm a merge uses.
#[derive(Clone, Copy, Debug, PartialEq, Eq, Structural)]
pub enum DiffAlgorithm {
    Myers,
    Histogram,
}

/// Arguments of the difftool mode.
#[derive(Clone, Debug, PartialEq, Eq)]
pub struct DifftoolConfig {
    pub local: String,
    pub remote: String,
    pub display_path: Option<String>,
    pub label_left: Option<String>,
    pub label_right: Option<String>,
    pub gui: bool,
}

/// Arguments of the mergetool mode.
#[derive(Clone, Debug, PartialEq, Eq)]
pub struct MergetoolConfig {
    pub merged: String,
    pub local: String,
    pub remote: String,
    pub base: Option<String>,
    pub label_base: Option<String>,
    pub label_local: Option<String>,
    pub label_remote: Option<String>,
    pub conflict_style: ConflictStyle,
    pub diff_algorithm: DiffAlgorithm,
    pub marker_size: usize,
    pub auto: bool,
    pub gui: bool,
}

/// Arguments of the merge fixture extraction mode.
#[derive(Clone, Debug, PartialEq, Eq)]
pub struct ExtractMergeFixturesConfig {
    pub repo: String,
    pub output_dir: String,
    pub max_merges: usize,
    pub max_files_per_merge: usize,
}

/// The command-line arguments of the merge fixture extraction mode.
#[derive(Clone, Debug, PartialEq, Eq)]
pub struct ExtractMergeFixturesArgs {
    pub repo: String,
    pub out: String,
    pub max_merges: usize,
    pub max_files_per_merge: usize,
}

/// The extraction settings the arguments ask for: both limits must be at
/// least 1, the maximum number of merges being checked first.
pub fn resolve_extract_merge_fixtures(args: ExtractMergeFixturesArgs) -> (r: Result<
    ExtractMergeFixturesConfig,
    String,
>)
    ensures
        match r {
            Err(e) => if args.max_merges == 0 {
                e@ == "--max-merges must be at least 1"@
            } else {
                args.max_files_per_merge == 0 && e@ == "--max-files-per-merge must be at least 1"@
            },
            Ok(c) => args.max_merges > 0 && args.max_files_per_merge > 0 && c
                == ExtractMergeFixturesConfig {
                repo: args.repo,
                output_dir: args.out,
                max_merges: args.max_merges,
                max_files_per_merge: args.max_files_per_merge,
            },
        },
{
    if args.max_merges == 0 {
        return Err(owned("--max-merges must be at least 1"));
    }
    if args.max_files_per_merge == 0 {
        return Err(owned("--max-files-per-merge must be at least 1"));
    }
    Ok(
        ExtractMergeFixturesConfig {
            repo: args.repo,
            output_dir: args.out,
            max_merges: args.max_merges,
            max_files_per_merge: args.max_files_per_merge,
        },
    )
}

/// What the process was started to do.
#[derive(Clone, Debug, PartialEq, Eq)]
pub enum AppMode {
    Browser { path: Option<String> },
    Difftool(DifftoolConfig),
    Mergetool(MergetoolConfig),
    Setup { dry_run: bool, local: bool },
    Uninstall { dry_run: bool, local: bool },
    ExtractMergeFixtures(ExtractMergeFixturesConfig),
    ApplyUpdate(ApplyUpdateRequest),
}

/// Whether a mode applies the Git executable chosen in the settings. Only the
/// repository browser does: the modes Git itself invokes keep using `git` from
/// `PATH`, so that they follow the invoking Git installation.
pub fn mode_uses_configured_git_executable_preference(mode: &AppMode) -> (r: bool)
    ensures
        r == (mode is Browser),
{
    match mode {
        AppMode::Browser { .. } => true,
        _ => false,
    }
}

/// Whether a mode opens a window.
pub open spec fn uses_gpui_spec(mode: AppMode) -> bool {
    match mode {
        AppMode::Browser { .. } => true,
        AppMode::Difftool(c) => c.gui,
        AppMode::Mergetool(c) => c.gui,
        _ => false,
    }
}

/// Whether a mode opens a window: the browser always, the diff and merge
/// tools when asked for their GUI, the other modes never.
pub fn app_mode_uses_gpui(mode: &AppMode) -> (r: bool)
    ensures
        r == uses_gpui_spec(*mode),
{
    match mode {
        AppMode::Browser { .. } => true,
        AppMode::Difftool(config) => config.gui,
        AppMode::Mergetool(config) => config.gui,
        AppMode::Setup { .. } | AppMode::Uninstall { .. } | AppMode::ExtractMergeFixtures(_) => false,
        AppMode::ApplyUpdate(_) => false,
    }
}

/// What a finished command-line mode produced.
#[derive(Clone, Debug, PartialEq, Eq)]
pub struct RunResult {
    pub stdout: String,
    pub stderr: String,
    pub exit_code: i32,
}

/// What the difftool mode produced.
pub type DifftoolRunResult = RunResult;

/// Whether a finished difftool run opens the focused diff window: when the
/// GUI was asked for and the diff succeeded, even with an empty diff.
pub fn should_launch_focused_diff_gui(config: &DifftoolConfig, result: &DifftoolRunResult) -> (r:
    bool)
    ensures
        r == (config.gui && result.exit_code == exit_code::SUCCESS),
{
    config.gui && result.exit_code == exit_code::SUCCESS
}

/// What to write to the standard streams for a finished mode, and the exit code.
#[derive(Clone, Debug, PartialEq, Eq)]
pub struct EmittedOutput {
    /// Text for standard output, if any.
    pub stdout: Option<String>,
    /// Text for standard error, if any.
    pub stderr: Option<String>,
    /// Whether both streams are flushed afterwards.
    pub flush: bool,
    pub exit_code: i32,
}

/// A finished mode writes its non-empty output and error text, flushes both
/// streams and exits with its code; a mode that could not run writes its
/// message and a newline to standard error and exits with the error code.
pub fn emit_result(result: Result<RunResult, String>) -> (r: EmittedOutput)
    ensures
        match result {
            Ok(res) => {
                &&& (r.stdout matches Some(s) ==> s == res.stdout)
                &&& (r.stdout is Some <==> res.stdout@.len() > 0)
                &&& (r.stderr matches Some(s) ==> s == res.stderr)
                &&& (r.stderr is Some <==> res.stderr@.len() > 0)
                &&& r.flush
                &&& r.exit_code == res.exit_code
            },
            Err(msg) => {
                &&& r.stdout is None
                &&& r.stderr matches Some(s) && s@ == msg@ + "\n"@
                &&& !r.flush
                &&& r.exit_code == exit_code::ERROR
            },
        },
{
    match result {
        Ok(res) => {
            let code = res.exit_code;
            let stdout = if res.stdout.as_str().unicode_len() > 0 {
                Some(res.stdout)
            } else {
                None
            };
            let stderr = if res.stderr.as_str().unicode_len() > 0 {
                Some(res.stderr)
            } else {
                None
            };
            EmittedOutput { stdout, stderr, flush: true, exit_code: code }
        },
        Err(msg) => {
            let mut line = msg;
            push_str(&mut line, "\n");
            EmittedOutput { stdout: None, stderr: Some(line), flush: false, exit_code: exit_code::ERROR }
        },
    }
}

/// The lower-case hexadecimal digit for `d`.
pub open spec fn hex_digit(d: int) -> char {
    if d < 10 {
        (d + 48) as char
    } else {
        (d + 87) as char
    }
}

/// Two lower-case hexadecimal digits per byte, high half first.
pub open spec fn hex_spec(bytes: Seq<u8>) -> Seq<char>
    decreases bytes.len(),
{
    if bytes.len() == 0 {
        Seq::empty()
    } else {
        let b = bytes.last();
        hex_spec(bytes.drop_last()).push(hex_digit((b / 16) as int)).push(hex_digit((b % 16) as int))
    }
}

/// Hexadecimal text has two characters per byte, each a lower-case hex digit.
pub proof fn lemma_hex_two_digits_per_byte(bytes: Seq<u8>)
    ensures
        hex_spec(bytes).len() == 2 * bytes.len(),
        forall|i: int|
            0 <= i < bytes.len() ==> hex_spec(bytes)[2 * i] == hex_digit((bytes[i] / 16) as int)
                && hex_spec(bytes)[2 * i + 1] == hex_digit((bytes[i] % 16) as int),
    decreases bytes.len(),
{
    if bytes.len() > 0 {
        let init = bytes.drop_last();
        lemma_hex_two_digits_per_byte(init);
        assert forall|i: int| 0 <= i < bytes.len() implies hex_spec(bytes)[2 * i] == hex_digit(
            (bytes[i] / 16) as int,
        ) && hex_spec(bytes)[2 * i + 1] == hex_digit((bytes[i] % 16) as int) by {
            if i < init.len() {
                assert(init[i] == bytes[i]);
            }
        }
    }
}

/// The character for a hexadecimal digit value.
fn hex_char(d: u8) -> (r: char)
    requires
        d < 16,
    ensures
        r == hex_digit(d as int),
{
    if d < 10 {
        (d + 48) as char
    } else {
        (d + 87) as char
    }
}

/// Lower-case hexadecimal text of `bytes`.
pub fn hex_encode(bytes: &[u8]) -> (r: String)
    ensures
        r@ == hex_spec(bytes@),
{
    let mut out = String::new();
    let mut i: usize = 0;
    while i < bytes.len()
        invariant
            i <= bytes@.len(),
            out@ == hex_spec(bytes@.subrange(0, i as int)),
        decreases bytes.len() - i,
    {
        let byte = bytes[i];
        proof {
            assert(bytes@.subrange(0, i + 1).drop_last() =~= bytes@.subrange(0, i as int));
        }
        out.push(hex_char(byte / 16));
        out.push(hex_char(byte % 16));
        i = i + 1;
    }
    proof {
        assert(bytes@.subrange(0, bytes@.len() as int) =~= bytes@);
    }
    out
}

/// The lines printed when a crash of an earlier run was found but no window
/// can offer to report it.
pub fn startup_crash_report_hint(report: &StartupCrashReport) -> (r: Vec<String>)
    ensures
        r@.len() == 3,
        r@[0]@ == "GitComet detected a crash from a previous run."@,
        r@[1]@ == "Open this URL to file a prefilled crash report:\n"@ + report.issue_url@,
        r@[2]@ == "Crash log: "@ + report.crash_log_path@,
{
    let mut lines: Vec<String> = Vec::new();
    lines.push(owned("GitComet detected a crash from a previous run."));
    let mut url_line = owned("Open this URL to file a prefilled crash report:\n");
    push_str(&mut url_line, report.issue_url.as_str());
    lines.push(url_line);
    let mut log_line = owned("Crash log: ");
    push_str(&mut log_line, report.crash_log_path.as_str());
    lines.push(log_line);
    lines
}

/// The final component of a plain path (see `plain_path`): with what a
/// path ignores at its end dropped (`/`s, and `.` after a `/`), the text
/// after its last `/`, when that is neither empty, `.` nor `..`.
pub open spec fn plain_file_name(path: Seq<char>) -> Option<Seq<char>> {
    let t = trim_path_end(path);
    let name = match last_char_pos(t, '/') {
        Some(i) => t.subrange(i as int + 1, t.len() as int),
        None => t,
    };
    if plain_path(path) && name.len() > 0 && name != seq!['.'] && name != seq!['.', '.'] {
        Some(name)
    } else {
        None
    }
}

/// `Path::file_name` of a path, as text: its final component, unless that is
/// `..` or there is none. Stated: a name is not empty, and a plain path's
/// name is `plain_file_name` (there components are split at `/` on every
/// platform, and trailing `/`s and `.`s are ignored). Where other paths are split
/// depends on the platform (a `\` separates on Windows only) and is not
/// stated.
#[verifier::external_body]
fn path_file_name(path: &str) -> (r: Option<String>)
    ensures
        r matches Some(n) ==> n@.len() > 0,
        plain_file_name(path@) is Some ==> r is Some && r.unwrap()@ == plain_file_name(path@).unwrap(),
{
    std::path::Path::new(path).file_name().and_then(|n| n.to_str()).map(|n| n.to_string())
}

/// The `Debug` text of a path (the path quoted, with escapes); nothing about
/// it is stated.
#[verifier::external_body]
fn path_debug_text(path: &str) -> (r: String) {
    format!("{:?}", std::path::Path::new(path))
}

/// The label of a path in a diff or merge window: its file name, or its
/// quoted text when it has none. A plain path with a final name is labelled
/// by that name.
fn path_label(path: &str) -> (r: String)
    ensures
        plain_file_name(path@) is Some ==> r@ == plain_file_name(path@).unwrap(),
{
    match path_file_name(path) {
        Some(name) => name,
        None => path_debug_text(path),
    }
}

/// What a focused mergetool window is opened with.
#[derive(Clone, Debug, PartialEq, Eq)]
pub struct FocusedMergetoolConfig {
    pub repo_path: String,
    pub conflicted_file_path: String,
    pub label_local: String,
    pub label_remote: String,
    pub label_base: String,
}

/// The focused mergetool window for a merge, given the repository root found
/// above the merged file (none when there is no repository around it).
/// Labels that were not given are the file names of the inputs; without a
/// base, the base is labelled "empty tree".
pub fn build_focused_mergetool_gui_config(config: &MergetoolConfig, repo_root: Option<String>) -> (r:
    Result<FocusedMergetoolConfig, String>)
    ensures
        match repo_root {
            None => r matches Err(m) && m@ == "Failed to locate repository root for merged path "@
                + config.merged@,
            Some(root) => r matches Ok(c) && {
                &&& c.repo_path == root
                &&& c.conflicted_file_path == config.merged
                &&& (config.label_local matches Some(l) ==> c.label_local == l)
                &&& (config.label_remote matches Some(l) ==> c.label_remote == l)
                &&& (config.label_base matches Some(l) ==> c.label_base == l)
                &&& (config.label_base is None && config.base is None ==> c.label_base@
                    == "empty tree"@)
                &&& (config.label_local is None && plain_file_name(config.local@) is Some
                    ==> c.label_local@ == plain_file_name(config.local@).unwrap())
                &&& (config.label_remote is None && plain_file_name(config.remote@) is Some
                    ==> c.label_remote@ == plain_file_name(config.remote@).unwrap())
                &&& (config.label_base is None ==> (config.base matches Some(b)
                    ==> (plain_file_name(b@) is Some ==> c.label_base@ == plain_file_name(
                    b@,
                ).unwrap())))
            },
        },
{
    let repo_path = match repo_root {
        Some(root) => root,
        None => {
            let mut m = owned("Failed to locate repository root for merged path ");
            push_str(&mut m, config.merged.as_str());
            return Err(m);
        },
    };
    let label_local = match &config.label_local {
        Some(l) => l.clone(),
        None => path_label(config.local.as_str()),
    };
    let label_remote = match &config.label_remote {
        Some(l) => l.clone(),
        None => path_label(config.remote.as_str()),
    };
    let label_base = match &config.label_base {
        Some(l) => l.clone(),
        None => match &config.base {
            Some(b) => path_label(b.as_str()),
            None => owned("empty tree"),
        },
    };
    Ok(
        FocusedMergetoolConfig {
            repo_path,
            conflicted_file_path: config.merged.clone(),
            label_local,
            label_remote,
            label_base,
        },
    )
}

/// The labels of a focused diff window: the given ones, else the file names
/// of the two inputs.
pub fn focused_diff_labels(config: &DifftoolConfig) -> (r: (String, String))
    ensures
        config.label_left matches Some(l) ==> r.0 == l,
        config.label_right matches Some(l) ==> r.1 == l,
        config.label_left is None && plain_file_name(config.local@) is Some ==> r.0@
            == plain_file_name(config.local@).unwrap(),
        config.label_right is None && plain_file_name(config.remote@) is Some ==> r.1@
            == plain_file_name(config.remote@).unwrap(),
{
    let left = match &config.label_left {
        Some(l) => l.clone(),
        None => path_label(config.local.as_str()),
    };
    let right = match &config.label_right {
        Some(l) => l.clone(),
        None => path_label(config.remote.as_str()),
    };
    (left, right)
}

/// What a failed helper command printed, as appended to its error message:
/// nothing, `: <output>` when only one stream has text, or both streams
/// labelled. Each stream is trimmed first.
pub open spec fn failure_details_spec(stdout: Seq<char>, stderr: Seq<char>) -> Seq<char> {
    let out = trim_spec(stdout);
    let err = trim_spec(stderr);
    if out.len() == 0 && err.len() == 0 {
        Seq::empty()
    } else if err.len() == 0 {
        ": "@ + out
    } else if out.len() == 0 {
        ": "@ + err
    } else {
        ": stdout="@ + out + "; stderr="@ + err
    }
}

/// The details of a failed helper command (`codesign`, `sips`) from its output.
pub fn command_failure_details(stdout: &str, stderr: &str) -> (r: String)
    ensures
        r@ == failure_details_spec(stdout@, stderr@),
{
    let out = trim(stdout);
    let err = trim(stderr);
    let out_empty = out.as_str().unicode_len() == 0;
    let err_empty = err.as_str().unicode_len() == 0;
    if out_empty && err_empty {
        String::new()
    } else if err_empty {
        let mut s = owned(": ");
        push_str(&mut s, out.as_str());
        s
    } else if out_empty {
        let mut s = owned(": ");
        push_str(&mut s, err.as_str());
        s
    } else {
        let mut s = owned(": stdout=");
        push_str(&mut s, out.as_str());
        push_str(&mut s, "; stderr=");
        push_str(&mut s, err.as_str());
        s
    }
}

/// The error when `codesign` fails on `path`.
pub fn codesign_failure_message(path: &str, stdout: &str, stderr: &str) -> (r: String)
    ensures
        r@ == "codesign returned non-zero exit status while signing "@ + path@
            + failure_details_spec(stdout@, stderr@),
{
    let mut s = owned("codesign returned non-zero exit status while signing ");
    push_str(&mut s, path);
    push_str(&mut s, command_failure_details(stdout, stderr).as_str());
    s
}

/// The error when `sips` fails to make the icon file `icns_path`.
pub fn sips_failure_message(icns_path: &str, stdout: &str, stderr: &str) -> (r: String)
    ensures
        r@ == "sips returned non-zero exit status while generating "@ + icns_path@
            + failure_details_spec(stdout@, stderr@),
{
    let mut s = owned("sips returned non-zero exit status while generating ");
    push_str(&mut s, icns_path);
    push_str(&mut s, command_failure_details(stdout, stderr).as_str());
    s
}

/// Messages joined with "; ".
pub open spec fn join_semicolon(items: Seq<Seq<char>>) -> Seq<char>
    decreases items.len(),
{
    if items.len() == 0 {
        Seq::empty()
    } else if items.len() == 1 {
        items[0]
    } else {
        join_semicolon(items.drop_last()) + "; "@ + items.last()
    }
}

/// Why no development application bundle could be prepared: each candidate's
/// error, joined by "; ", or a note that there was no candidate.
pub fn bundle_preparation_failure_details(errors: &[String]) -> (r: String)
    ensures
        errors@.len() == 0 ==> r@ == "no app bundle destination available"@,
        errors@.len() > 0 ==> r@ == join_semicolon(errors@.map_values(|e: String| e@)),
{
    if errors.len() == 0 {
        return owned("no app bundle destination available");
    }
    let mut s = owned(errors[0].as_str());
    let mut i: usize = 1;
    while i < errors.len()
        invariant
            1 <= i <= errors@.len(),
            s@ == join_semicolon(errors@.subrange(0, i as int).map_values(|e: String| e@)),
        decreases errors.len() - i,
    {
        proof {
            let v = errors@.subrange(0, i + 1).map_values(|e: String| e@);
            assert(v.drop_last() =~= errors@.subrange(0, i as int).map_values(|e: String| e@));
        }
        push_str(&mut s, "; ");
        push_str(&mut s, errors[i].as_str());
        i = i + 1;
    }
    proof {
        assert(errors@.subrange(0, errors@.len() as int) =~= errors@);
    }
    s
}

/// Where a development application bundle may be made: next to the
/// executable when it has a directory, then the fallback location unless it is
/// the same place.
pub fn candidate_macos_app_bundle_paths(next_to_executable: Option<String>, fallback: String) -> (r:
    Vec<String>)
    ensures
        match next_to_executable {
            Some(c) => if c@ == fallback@ {
                r@ == seq![c]
            } else {
                r@ == seq![c, fallback]
            },
            None => r@ == seq![fallback],
        },
{
    let mut candidates: Vec<String> = Vec::new();
    match next_to_executable {
        Some(c) => {
            let same = str_eq(c.as_str(), fallback.as_str());
            candidates.push(c);
            if !same {
                candidates.push(fallback);
            }
        },
        None => candidates.push(fallback),
    }
    candidates
}

/// The start of the development bundle's `Info.plist`, before the version.
pub open spec fn plist_head() -> Seq<char> {
    "<?xml version=\"1.0\" encoding=\"UTF-8\"?>\n<!DOCTYPE plist PUBLIC \"-//Apple//DTD PLIST 1.0//EN\" \"https://www.apple.com/DTDs/PropertyList-1.0.dtd\">\n<plist version=\"1.0\">\n<dict>\n  <key>CFBundleDevelopmentRegion</key>\n  <string>en</string>\n  <key>CFBundleDisplayName</key>\n  <string>GitComet</string>\n  <key>CFBundleExecutable</key>\n  <string>gitcomet</string>\n  <key>CFBundleIdentifier</key>\n  <string>ai.autoexplore.gitcomet.dev</string>\n  <key>CFBundleIconFile</key>\n  <string>GitComet.icns</string>\n  <key>CFBundleInfoDictionaryVersion</key>\n  <string>6.0</string>\n  <key>CFBundleName</key>\n  <string>GitComet</string>\n  <key>CFBundlePackageType</key>\n  <string>APPL</string>\n  <key>CFBundleShortVersionString</key>\n  <string>"@
}

/// The part of the `Info.plist` between the two version strings.
pub open spec fn plist_middle() -> Seq<char> {
    "</string>\n  <key>CFBundleVersion</key>\n  <string>"@
}

/// The end of the `Info.plist`, after the second version string.
pub open spec fn plist_tail() -> Seq<char> {
    "</string>\n  <key>LSMinimumSystemVersion</key>\n  <string>13.0</string>\n  <key>NSHighResolutionCapable</key>\n  <true/>\n</dict>\n</plist>\n"@
}

/// The `Info.plist` of the development application bundle for `version`.
pub fn macos_dev_bundle_info_plist(version: &str) -> (r: String)
    ensures
        r@ == plist_head() + version@ + plist_middle() + version@ + plist_tail(),
{
    let mut s = owned("<?xml version=\"1.0\" encoding=\"UTF-8\"?>\n<!DOCTYPE plist PUBLIC \"-//Apple//DTD PLIST 1.0//EN\" \"https://www.apple.com/DTDs/PropertyList-1.0.dtd\">\n<plist version=\"1.0\">\n<dict>\n  <key>CFBundleDevelopmentRegion</key>\n  <string>en</string>\n  <key>CFBundleDisplayName</key>\n  <string>GitComet</string>\n  <key>CFBundleExecutable</key>\n  <string>gitcomet</string>\n  <key>CFBundleIdentifier</key>\n  <string>ai.autoexplore.gitcomet.dev</string>\n  <key>CFBundleIconFile</key>\n  <string>GitComet.icns</string>\n  <key>CFBundleInfoDictionaryVersion</key>\n  <string>6.0</string>\n  <key>CFBundleName</key>\n  <string>GitComet</string>\n  <key>CFBundlePackageType</key>\n  <string>APPL</string>\n  <key>CFBundleShortVersionString</key>\n  <string>");
    push_str(&mut s, version);
    push_str(&mut s, "</string>\n  <key>CFBundleVersion</key>\n  <string>");
    push_str(&mut s, version);
    push_str(&mut s, "</string>\n  <key>LSMinimumSystemVersion</key>\n  <string>13.0</string>\n  <key>NSHighResolutionCapable</key>\n  <true/>\n</dict>\n</plist>\n");
    s
}

/// Environment variable set on a browser relaunched from the bundle.
pub const MACOS_BUNDLE_RELAUNCH_ENV: &'static str = "GITCOMET_SKIP_APP_BUNDLE_RELAUNCH";

} // verus!
