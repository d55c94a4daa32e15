//! Applying a downloaded update: the updater's command line, the steps it
//! performs, and how it waits for the running application to exit.
use vstd::prelude::*;
use crate::text::{
    chars_of, contains, trim_path_end, lemma_trim_path_end, contains_seq, decimal, has_suffix, last_char_pos, lemma_last_char_pos, occurs_at, owned,
    plain_path, push_str, u32_to_decimal,
};

verus! {

/// Environment variable marking an updater that already re-executed itself
/// from a temporary copy.
pub const WINDOWS_REEXEC_ENV: &'static str = "GITCOMET_UPDATER_REEXEC";

/// How long the updater waits for the application to exit, in milliseconds.
pub const WAIT_PID_TIMEOUT_MS: u64 = 3600000;

/// Pause between checks whether the application still runs, in milliseconds.
pub const WAIT_POLL_INTERVAL_MS: u64 = 500;

/// Marker that an executable lives inside a macOS application bundle.
pub open spec fn bundle_marker() -> Seq<char> {
    ".app/Contents/MacOS/"@
}

/// What the updater needs: the process to wait for, the executable to
/// replace, the new binary, the staging directory, and the new application
/// bundle when a bundle is replaced.
#[derive(Clone, Debug, PartialEq, Eq)]
pub struct ApplyUpdateRequest {
    pub wait_pid: u32,
    pub target_exe: String,
    pub new_binary: String,
    pub staging_dir: String,
    pub app_bundle: Option<String>,
}

/// Why applying an update failed.
#[derive(Clone, Debug, PartialEq, Eq)]
pub enum ApplyUpdateError {
    WaitPid(u32, String),
    Io(String),
    Apply(String),
}

/// The text shown for an apply error.
pub open spec fn apply_error_message(e: ApplyUpdateError) -> Seq<char> {
    match e {
        ApplyUpdateError::WaitPid(pid, msg) => "failed waiting for process "@ + decimal(pid as nat)
            + ": "@ + msg@,
        ApplyUpdateError::Io(msg) => "io error: "@ + msg@,
        ApplyUpdateError::Apply(msg) => "apply update failed: "@ + msg@,
    }
}

impl ApplyUpdateError {
    /// The text shown for this error.
    pub fn message(&self) -> (r: String)
        ensures
            r@ == apply_error_message(*self),
    {
        match self {
            ApplyUpdateError::WaitPid(pid, msg) => {
                let mut s = owned("failed waiting for process ");
                push_str(&mut s, u32_to_decimal(*pid).as_str());
                push_str(&mut s, ": ");
                push_str(&mut s, msg.as_str());
                s
            },
            ApplyUpdateError::Io(msg) => {
                let mut s = owned("io error: ");
                push_str(&mut s, msg.as_str());
                s
            },
            ApplyUpdateError::Apply(msg) => {
                let mut s = owned("apply update failed: ");
                push_str(&mut s, msg.as_str());
                s
            },
        }
    }
}

/// The arguments that start the updater for a request.
pub open spec fn cli_args_spec(r: ApplyUpdateRequest) -> Seq<Seq<char>> {
    let base = seq![
        "apply-update"@,
        "--wait-pid"@,
        decimal(r.wait_pid as nat),
        "--target-exe"@,
        r.target_exe@,
        "--new-binary"@,
        r.new_binary@,
        "--staging-dir"@,
        r.staging_dir@,
    ];
    match r.app_bundle {
        Some(b) => base.push("--app-bundle"@).push(b@),
        None => base,
    }
}

/// A copy of a string.
fn dup(s: &String) -> (r: String)
    ensures
        r == *s,
{
    s.clone()
}

/// Step the updater performs.
#[derive(Clone, Debug, PartialEq, Eq)]
pub enum ApplyStep {
    /// Copy the updater to a temporary place and run it from there.
    ReexecFromTemp,
    /// Wait until the application process exits.
    WaitForExit { pid: u32 },
    /// Replace the application bundle `current_bundle` by `new_bundle`.
    ReplaceAppBundle { current_bundle: String, new_bundle: String },
    /// Replace the executable `target` by `new_binary`.
    ReplaceBinary { target: String, new_binary: String },
    /// Start the application again.
    Restart { target_exe: String, used_bundle_replace: bool },
    /// Remove the staging directory.
    CleanupStaging { staging_dir: String },
    /// Stop with this error.
    Fail { error: ApplyUpdateError },
}

/// What `macos_app_bundle_root` promises of the bundle `root` it finds for
/// the executable `exe` (see there).
pub open spec fn bundle_root_fits(exe: Seq<char>, root: Option<String>) -> bool {
    &&& (contains_seq(exe, bundle_marker()) && plain_third_parent(exe) is Some ==> root is Some
        && root.unwrap()@ == plain_third_parent(exe).unwrap())
    &&& (plain_bundle_root(exe) is Some ==> root is Some && root.unwrap()@ == plain_bundle_root(
        exe,
    ).unwrap())
    &&& (!contains_seq(exe, bundle_marker()) ==> root is None)
    &&& (plain_path(exe) ==> (root is Some <==> contains_seq(exe, bundle_marker())))
    &&& (root matches Some(b) ==> contains_seq(exe, bundle_marker()) && b@.len() + 3 <= exe.len()
        && exe.subrange(0, b@.len() as int) == b@)
}

/// Whether `steps` are those of applying the update for `r` with a bundle
/// to put in place, where `bundle_root` is the bundle found around the
/// executable to replace: wait, replace that bundle, restart, clean up; or,
/// with no bundle found, wait and then stop with the not-in-bundle error.
pub open spec fn bundle_plan_fits(steps: Seq<ApplyStep>, r: ApplyUpdateRequest, bundle_root: Option<
    String,
>) -> bool {
    let wait = ApplyStep::WaitForExit { pid: r.wait_pid };
    match r.app_bundle {
        Some(b) => match bundle_root {
            Some(current) => steps == seq![
                wait,
                ApplyStep::ReplaceAppBundle { current_bundle: current, new_bundle: b },
                ApplyStep::Restart { target_exe: r.target_exe, used_bundle_replace: true },
                ApplyStep::CleanupStaging { staging_dir: r.staging_dir },
            ],
            None => {
                &&& steps.len() == 2
                &&& steps[0] == wait
                &&& steps[1] matches ApplyStep::Fail { error: ApplyUpdateError::Apply(m) }
                &&& m@ == "target executable is not inside a macOS app bundle"@
            },
        },
        None => false,
    }
}

impl ApplyUpdateRequest {
    /// Command-line arguments that run the updater for this request.
    pub fn apply_update_cli_args(&self) -> (r: Vec<String>)
        ensures
            r@.len() == cli_args_spec(*self).len(),
            forall|i: int| 0 <= i < r@.len() ==> #[trigger] r@[i]@ == cli_args_spec(*self)[i],
    {
        let mut args: Vec<String> = Vec::new();
        args.push(owned("apply-update"));
        args.push(owned("--wait-pid"));
        args.push(u32_to_decimal(self.wait_pid));
        args.push(owned("--target-exe"));
        args.push(dup(&self.target_exe));
        args.push(owned("--new-binary"));
        args.push(dup(&self.new_binary));
        args.push(owned("--staging-dir"));
        args.push(dup(&self.staging_dir));
        if let Some(bundle) = &self.app_bundle {
            args.push(owned("--app-bundle"));
            args.push(dup(bundle));
        }
        args
    }

    /// The steps of applying the update. When the updater must first leave
    /// its own executable (Windows, before re-execution) that is the only
    /// step; otherwise: wait for exit, replace the bundle or the binary,
    /// restart, clean up. A bundle is replaced as a whole: when the
    /// executable to replace lies in no bundle, the update stops after the
    /// wait with the error `not_in_bundle_error`.
    pub fn plan(&self, reexec_first: bool) -> (r: Vec<ApplyStep>)
        ensures
            reexec_first ==> r@ == seq![ApplyStep::ReexecFromTemp],
            !reexec_first && self.app_bundle is None ==> r@ == seq![
                ApplyStep::WaitForExit { pid: self.wait_pid },
                ApplyStep::ReplaceBinary { target: self.target_exe, new_binary: self.new_binary },
                ApplyStep::Restart { target_exe: self.target_exe, used_bundle_replace: false },
                ApplyStep::CleanupStaging { staging_dir: self.staging_dir },
            ],
            !reexec_first && self.app_bundle is Some ==> exists|root: Option<String>|
                #[trigger] bundle_root_fits(self.target_exe@, root) && bundle_plan_fits(
                    r@,
                    *self,
                    root,
                ),
    {
        let mut steps: Vec<ApplyStep> = Vec::new();
        if reexec_first {
            steps.push(ApplyStep::ReexecFromTemp);
            return steps;
        }
        steps.push(ApplyStep::WaitForExit { pid: self.wait_pid });
        let used_bundle_replace = self.app_bundle.is_some();
        match &self.app_bundle {
            Some(b) => {
                let root = macos_app_bundle_root(self.target_exe.as_str());
                let ghost found = root;
                match root {
                    Some(current) => steps.push(
                        ApplyStep::ReplaceAppBundle { current_bundle: current, new_bundle: dup(b) },
                    ),
                    None => {
                        steps.push(ApplyStep::Fail { error: not_in_bundle_error() });
                        assert(bundle_plan_fits(steps@, *self, found));
                        return steps;
                    },
                }
                steps.push(ApplyStep::Restart { target_exe: dup(&self.target_exe), used_bundle_replace });
                steps.push(ApplyStep::CleanupStaging { staging_dir: dup(&self.staging_dir) });
                assert(steps@ =~= seq![
                    ApplyStep::WaitForExit { pid: self.wait_pid },
                    ApplyStep::ReplaceAppBundle { current_bundle: found.unwrap(), new_bundle: *b },
                    ApplyStep::Restart { target_exe: self.target_exe, used_bundle_replace: true },
                    ApplyStep::CleanupStaging { staging_dir: self.staging_dir },
                ]);
                assert(bundle_plan_fits(steps@, *self, found));
                return steps;
            },
            None => steps.push(
                ApplyStep::ReplaceBinary {
                    target: dup(&self.target_exe),
                    new_binary: dup(&self.new_binary),
                },
            ),
        }
        steps.push(ApplyStep::Restart { target_exe: dup(&self.target_exe), used_bundle_replace });
        steps.push(ApplyStep::CleanupStaging { staging_dir: dup(&self.staging_dir) });
        steps
    }
}

/// The parent of a plain path (see `plain_path`), read the same way on
/// every platform: with what a path ignores at its end dropped (`/`s, and
/// `.` after a `/`), the text before the last `/` with that end dropped
/// again; `/` when that `/` is the root; the empty path for a single
/// component other than `.`; nothing for the root or the empty path.
pub open spec fn plain_parent(path: Seq<char>) -> Option<Seq<char>> {
    let t = trim_path_end(path);
    if !plain_path(path) {
        None
    } else {
        match last_char_pos(t, '/') {
            Some(i) => if i == 0 {
                if t.len() > 1 {
                    Some(seq!['/'])
                } else {
                    None
                }
            } else {
                Some(trim_path_end(t.subrange(0, i as int)))
            },
            None => if t.len() > 0 && t != seq!['.'] {
                Some(Seq::empty())
            } else {
                None
            },
        }
    }
}

/// `Path::parent`: the path without its final component; nothing for the
/// empty path or a path that ends in a root or prefix. Stated: a parent is
/// shorter than the path and begins it, the empty path has none, and a plain
/// path's parent is `plain_parent` (there components are split at `/` on
/// every platform, repeated `/`s and `.` components after a `/` are ignored,
/// the last component is dropped with what stands between it and the one
/// before, and, as std documents, `foo` has the parent `` and `/foo` the
/// parent `/`). How other paths
/// are split into components depends on the platform (a `\` separates on
/// Windows only, and a Windows verbatim path does not split at `/`), so
/// their parents are not stated.
#[verifier::external_body]
fn path_parent(path: &str) -> (r: Option<String>)
    ensures
        path@.len() == 0 ==> r is None,
        r matches Some(p) ==> p@.len() < path@.len() && path@.subrange(0, p@.len() as int) == p@,
        plain_parent(path@) is Some ==> r is Some && r.unwrap()@ == plain_parent(path@).unwrap(),
{
    std::path::Path::new(path).parent().map(|p| p.to_string_lossy().into_owned())
}

/// The bundle around an executable that lies directly in the bundle's
/// `Contents/MacOS` directory, for a plain path (see `plain_path`): the text
/// before `/Contents/MacOS/`, when the executable's name is neither empty nor
/// `.`.
pub open spec fn plain_bundle_root(exe: Seq<char>) -> Option<Seq<char>> {
    match last_char_pos(exe, '/') {
        Some(i) => {
            let dir = exe.subrange(0, i as int + 1);
            let name = exe.subrange(i as int + 1, exe.len() as int);
            if plain_path(exe) && name.len() > 0 && name != seq!['.'] && has_suffix(dir, bundle_marker()) {
                Some(exe.subrange(0, i as int + 1 - 16))
            } else {
                None
            }
        },
        None => None,
    }
}

/// Three levels up from a plain path, each step by `plain_parent`, where
/// every step is defined.
pub open spec fn plain_third_parent(path: Seq<char>) -> Option<Seq<char>> {
    match plain_parent(path) {
        Some(p1) => match plain_parent(p1) {
            Some(p2) => plain_parent(p2),
            None => None,
        },
        None => None,
    }
}

/// A prefix of a plain path is plain.
proof fn lemma_plain_prefix(s: Seq<char>, n: int)
    requires
        plain_path(s),
        0 <= n <= s.len(),
    ensures
        plain_path(s.subrange(0, n)),
{
    let t = s.subrange(0, n);
    assert forall|k: int| 0 <= k < t.len() implies t[k] == s[k] by {}
    if t.contains('\\') {
        let k = choose|k: int| 0 <= k < t.len() && t[k] == '\\';
        assert(s[k] == '\\');
    }
}

/// The last `/` of `s` is at `k` when `s[k]` is `/` and no later one is.
proof fn lemma_last_slash_at(s: Seq<char>, k: int)
    requires
        0 <= k < s.len(),
        s[k] == '/',
        forall|j: int| k < j < s.len() ==> s[j] != '/',
    ensures
        last_char_pos(s, '/') == Some(k as nat),
{
    lemma_last_char_pos(s, '/');
}

/// Whether `c` is neither `/` nor `.`.
pub open spec fn name_char(c: char) -> bool {
    c != '/' && c != '.'
}

/// A plain path with a character other than `/` and `.` has a parent.
proof fn lemma_plain_parent_exists(p: Seq<char>, x: int)
    requires
        plain_path(p),
        0 <= x < p.len(),
        name_char(p[x]),
    ensures
        plain_parent(p) is Some,
{
    let k = lemma_trim_path_end(p);
    let t = p.subrange(0, k);
    assert(x < k);
    assert(t[x] == p[x]);
    lemma_last_char_pos(t, '/');
    if t == seq!['.'] {
        assert(t[0] == '.');
    }
}

/// Going up from a plain path keeps the characters before a `/` that has a
/// character other than `/` and `.` before it (at `x`) and one after it (at
/// `z`): the parent is the path up to some point past `x`.
proof fn lemma_plain_parent_keeps(p: Seq<char>, x: int, y: int, z: int) -> (kq: int)
    requires
        plain_path(p),
        0 <= x < y < z < p.len(),
        name_char(p[x]),
        p[y] == '/',
        name_char(p[z]),
    ensures
        x < kq < p.len(),
        plain_parent(p) == Some(p.subrange(0, kq)),
{
    let k = lemma_trim_path_end(p);
    let t = p.subrange(0, k);
    assert(z < k);
    assert(t[y] == '/');
    lemma_last_char_pos(t, '/');
    let l = last_char_pos(t, '/').unwrap() as int;
    assert(l >= y);
    let q = t.subrange(0, l);
    let kq = lemma_trim_path_end(q);
    assert(q[x] == p[x]);
    assert(x < kq);
    assert(q.subrange(0, kq) =~= p.subrange(0, kq));
    kq
}

/// In a plain path where `.app/Contents/MacOS/` occurs, three steps up by
/// `plain_parent` are all defined.
proof fn lemma_plain_bundle_parents(e: Seq<char>, m: int)
    requires
        plain_path(e),
        occurs_at(e, bundle_marker(), m),
    ensures
        plain_third_parent(e) is Some,
{
    reveal_strlit(".app/Contents/MacOS/");
    let mk = bundle_marker();
    assert forall|i: int| 0 <= i < 20 implies e[m + i] == mk[i] by {
        assert(e.subrange(m, m + 20)[i] == e[m + i]);
    }
    assert(mk[3] == 'p' && mk[4] == '/' && mk[5] == 'C' && mk[12] == 's' && mk[13] == '/');
    assert(mk[18] == 'S');
    assert(e[m + 3] == 'p' && e[m + 4] == '/' && e[m + 5] == 'C' && e[m + 12] == 's');
    assert(e[m + 13] == '/' && e[m + 18] == 'S');
    let k1 = lemma_plain_parent_keeps(e, m + 12, m + 13, m + 18);
    let p1 = e.subrange(0, k1);
    lemma_plain_prefix(e, k1);
    assert(p1[m + 3] == e[m + 3] && p1[m + 4] == e[m + 4] && p1[m + 5] == e[m + 5]);
    let k2 = lemma_plain_parent_keeps(p1, m + 3, m + 4, m + 5);
    let p2 = p1.subrange(0, k2);
    lemma_plain_prefix(p1, k2);
    assert(p2[m + 3] == e[m + 3]);
    lemma_plain_parent_exists(p2, m + 3);
}

/// Going up three times from an executable directly in `Contents/MacOS` of a
/// plain path reaches the bundle, each step dropping one component.
proof fn lemma_bundle_parents(e: Seq<char>)
    requires
        plain_bundle_root(e) is Some,
    ensures
        contains_seq(e, bundle_marker()),
        plain_parent(e) is Some,
        plain_parent(plain_parent(e).unwrap()) is Some,
        plain_parent(plain_parent(plain_parent(e).unwrap()).unwrap()) == plain_bundle_root(e),
{
    reveal_strlit(".app/Contents/MacOS/");
    let mk = bundle_marker();
    lemma_last_char_pos(e, '/');
    let i = last_char_pos(e, '/').unwrap() as int;
    let m = i - 19;
    let dir = e.subrange(0, i + 1);
    assert(dir.subrange(dir.len() - 20, dir.len() as int) == mk);
    assert forall|j: int| 0 <= j < 20 implies e[m + j] == mk[j] by {
        assert(dir.subrange(dir.len() - 20, dir.len() as int)[j] == dir[m + j]);
    }
    assert(e.subrange(m, m + 20) =~= mk);
    assert(occurs_at(e, mk, m));
    assert(mk[3] == 'p' && mk[4] == '/' && mk[12] == 's' && mk[13] == '/' && mk[18] == 'S');
    assert(e[m + 3] == mk[3] && e[m + 4] == mk[4] && e[m + 12] == mk[12] && e[m + 13] == mk[13]
        && e[m + 18] == mk[18]);
    // First step: drop the executable's name.
    let e1 = e.subrange(0, i);
    assert(e[i - 1] == 'S');
    let name = e.subrange(i + 1, e.len() as int);
    assert(name.len() > 0 && e.last() == name.last());
    if e.last() == '.' && e[e.len() - 2] == '/' {
        assert(i == e.len() - 2);
        assert(name =~= seq!['.']);
    }
    assert(trim_path_end(e) == e);
    assert(e1.last() == 'S');
    assert(trim_path_end(e1) == e1);
    assert(plain_parent(e) == Some(e1));
    // Second step: drop `MacOS`.
    lemma_plain_prefix(e, i);
    assert(e1[m + 13] == e[m + 13] && e1[m + 12] == e[m + 12]);
    assert forall|j: int| m + 13 < j < e1.len() implies e1[j] != '/' by {
        assert(e1[j] == mk[j - m]);
    }
    lemma_last_slash_at(e1, m + 13);
    let e2 = e1.subrange(0, m + 13);
    assert(e1[m + 12] == 's');
    assert(e2.last() == 's');
    assert(trim_path_end(e2) == e2);
    assert(e1.subrange(m + 14, e1.len() as int).len() == 5);
    assert(e1.subrange(m + 14, e1.len() as int) != seq!['.']);
    assert(plain_parent(e1) == Some(e2));
    // Third step: drop `Contents`.
    lemma_plain_prefix(e1, m + 13);
    assert(e2[m + 4] == e[m + 4] && e2[m + 3] == e[m + 3]);
    assert forall|j: int| m + 4 < j < e2.len() implies e2[j] != '/' by {
        assert(e2[j] == mk[j - m]);
    }
    lemma_last_slash_at(e2, m + 4);
    let e3 = e2.subrange(0, m + 4);
    assert(e2[m + 3] == 'p');
    assert(e3.last() == 'p');
    assert(trim_path_end(e3) == e3);
    assert(e2.subrange(m + 5, e2.len() as int).len() == 8);
    assert(e2.subrange(m + 5, e2.len() as int) != seq!['.']);
    assert(plain_parent(e2) == Some(e3));
    assert(e3 =~= e.subrange(0, i + 1 - 16));
}

/// Whether a path names an executable inside a macOS application bundle.
pub fn is_macos_app_bundle_executable(path: &str) -> (r: bool)
    ensures
        r == contains_seq(path@, bundle_marker()),
{
    let cs = chars_of(path);
    let marker = chars_of(".app/Contents/MacOS/");
    contains(cs.as_slice(), marker.as_slice())
}

/// The `.app` bundle directory around an executable in `Contents/MacOS/`:
/// three levels up from the executable, wherever in the path the marker
/// `.app/Contents/MacOS/` occurs. For a plain path the three steps up are
/// those of `plain_parent`, and a bundle is found exactly when the marker
/// occurs; the bundle of an executable directly in `Contents/MacOS` is the
/// text before `/Contents/MacOS/`.
pub fn macos_app_bundle_root(exe: &str) -> (r: Option<String>)
    ensures
        bundle_root_fits(exe@, r),
{
    proof {
        if plain_bundle_root(exe@) is Some {
            lemma_bundle_parents(exe@);
        }
        if plain_path(exe@) && contains_seq(exe@, bundle_marker()) {
            let m = choose|m: int| occurs_at(exe@, bundle_marker(), m);
            lemma_plain_bundle_parents(exe@, m);
        }
    }
    if !is_macos_app_bundle_executable(exe) {
        return None;
    }
    let macos_dir = path_parent(exe)?;
    let contents = path_parent(macos_dir.as_str())?;
    let bundle = path_parent(contents.as_str())?;
    proof {
        assert(exe@.subrange(0, contents@.len() as int) =~= macos_dir@.subrange(
            0,
            contents@.len() as int,
        ));
        assert(exe@.subrange(0, bundle@.len() as int) =~= contents@.subrange(
            0,
            bundle@.len() as int,
        ));
    }
    Some(bundle)
}

/// The error when the executable to replace is not inside a bundle.
pub fn not_in_bundle_error() -> (r: ApplyUpdateError)
    ensures
        r matches ApplyUpdateError::Apply(m) && m@
            == "target executable is not inside a macOS app bundle"@,
{
    ApplyUpdateError::Apply(owned("target executable is not inside a macOS app bundle"))
}

/// What waiting for the application does next.
#[derive(Clone, Copy, Debug, PartialEq, Eq, Structural)]
pub enum WaitDecision {
    /// The process is gone.
    Exited,
    /// The deadline passed while the process still runs.
    TimedOut,
    /// Check again after the poll interval.
    KeepWaiting,
}

/// One round of waiting for the process to exit, at time `now_ms` with the
/// given deadline.
pub fn wait_decision(process_alive: bool, now_ms: u64, deadline_ms: u64) -> (r: WaitDecision)
    ensures
        !process_alive ==> r == WaitDecision::Exited,
        process_alive && now_ms >= deadline_ms ==> r == WaitDecision::TimedOut,
        process_alive && now_ms < deadline_ms ==> r == WaitDecision::KeepWaiting,
{
    if !process_alive {
        WaitDecision::Exited
    } else if now_ms >= deadline_ms {
        WaitDecision::TimedOut
    } else {
        WaitDecision::KeepWaiting
    }
}

/// The error when the application did not exit in time.
pub fn wait_timeout_error(pid: u32) -> (r: ApplyUpdateError)
    ensures
        r matches ApplyUpdateError::WaitPid(p, m) && p == pid && m@
            == "timed out waiting for main process to exit"@,
{
    ApplyUpdateError::WaitPid(pid, owned("timed out waiting for main process to exit"))
}

/// Whether a Windows task list mentions the process id.
pub fn task_list_mentions_pid(task_list: &str, pid: u32) -> (r: bool)
    ensures
        r == contains_seq(task_list@, decimal(pid as nat)),
{
    let text = chars_of(task_list);
    let digits = u32_to_decimal(pid);
    let d = chars_of(digits.as_str());
    contains(text.as_slice(), d.as_slice())
}

/// File name of the temporary updater copy for a process.
pub fn updater_temp_exe_name(pid: u32) -> (r: String)
    ensures
        r@ == "gitcomet-updater-"@ + decimal(pid as nat) + ".exe"@,
{
    let mut s = owned("gitcomet-updater-");
    push_str(&mut s, u32_to_decimal(pid).as_str());
    push_str(&mut s, ".exe");
    s
}

/// How the updater starts the application again.
#[derive(Clone, Debug, PartialEq, Eq)]
pub enum RestartCommand {
    /// Open the application bundle at this path (macOS).
    OpenBundle(String),
    /// Run this executable.
    RunExecutable(String),
}

/// How to start the application again after the update: a replaced bundle
/// on macOS is opened as a bundle; otherwise the executable is run.
pub fn restart_command(target_exe: &str, used_bundle_replace: bool, on_macos: bool) -> (r:
    RestartCommand)
    ensures
        !(used_bundle_replace && on_macos) ==> r is RunExecutable,
        used_bundle_replace && on_macos ==> exists|root: Option<String>|
            #[trigger] bundle_root_fits(target_exe@, root) && match root {
                Some(b) => r == RestartCommand::OpenBundle(b),
                None => r is RunExecutable,
            },
        !contains_seq(target_exe@, bundle_marker()) ==> r is RunExecutable,
        r matches RestartCommand::RunExecutable(p) ==> p@ == target_exe@,
        r matches RestartCommand::OpenBundle(b) ==> used_bundle_replace && on_macos
            && contains_seq(target_exe@, bundle_marker()) && b@.len() + 3 <= target_exe@.len()
            && target_exe@.subrange(0, b@.len() as int) == b@,
{
    if used_bundle_replace && on_macos {
        let root = macos_app_bundle_root(target_exe);
        let ghost found = root;
        match root {
            Some(bundle) => {
                let r = RestartCommand::OpenBundle(bundle);
                assert(bundle_root_fits(target_exe@, found));
                return r;
            },
            None => {
                let r = RestartCommand::RunExecutable(owned(target_exe));
                assert(bundle_root_fits(target_exe@, found));
                return r;
            },
        }
    }
    RestartCommand::RunExecutable(owned(target_exe))
}

} // verus!
