//! The Git executable the browser uses: which one is configured, whether it
//! runs, which version it reports and whether that version is supported.
use vstd::prelude::*;
use crate::text::{
    char_pos, chars_of, digit_value, digits_value, find_char, is_ascii_digit, is_ws, is_whitespace, lemma_char_pos_bounds,
    owned, push_str, slice_subrange,
};

verus! {

/// Oldest Git major version the application was tested with.
pub const MIN_GIT_MAJOR: u32 = 2;

/// Oldest Git minor version (of `MIN_GIT_MAJOR`) the application was tested with.
pub const MIN_GIT_MINOR: u32 = 50;

/// Which Git executable the user chose.
#[derive(Clone, Debug, PartialEq, Eq)]
pub enum GitExecutablePreference {
    /// `git` as found on `PATH`.
    SystemPath,
    /// The executable at this path.
    Custom(String),
}

/// Whether the chosen Git executable runs, with its `--version` output or why not.
#[derive(Clone, Debug, PartialEq, Eq)]
pub enum GitExecutableAvailability {
    Available { version_output: String },
    Unavailable { detail: String },
}

/// The chosen Git executable and whether it runs.
#[derive(Clone, Debug, PartialEq, Eq)]
pub struct GitRuntimeState {
    pub preference: GitExecutablePreference,
    pub availability: GitExecutableAvailability,
}

impl GitRuntimeState {
    /// Whether the executable runs.
    pub fn is_available(&self) -> (r: bool)
        ensures
            r == (self.availability is Available),
    {
        match &self.availability {
            GitExecutableAvailability::Available { .. } => true,
            GitExecutableAvailability::Unavailable { .. } => false,
        }
    }

    /// The executable's `--version` output, when it runs.
    pub fn version_output(&self) -> (r: Option<&str>)
        ensures
            match self.availability {
                GitExecutableAvailability::Available { version_output } => r matches Some(s) && s@
                    == version_output@,
                GitExecutableAvailability::Unavailable { .. } => r is None,
            },
    {
        match &self.availability {
            GitExecutableAvailability::Available { version_output } => Some(version_output.as_str()),
            GitExecutableAvailability::Unavailable { .. } => None,
        }
    }

    /// Why the executable does not run, when it does not.
    pub fn unavailable_detail(&self) -> (r: Option<&str>)
        ensures
            match self.availability {
                GitExecutableAvailability::Unavailable { detail } => r matches Some(s) && s@
                    == detail@,
                GitExecutableAvailability::Available { .. } => r is None,
            },
    {
        match &self.availability {
            GitExecutableAvailability::Unavailable { detail } => Some(detail.as_str()),
            GitExecutableAvailability::Available { .. } => None,
        }
    }
}

/// The two choices the settings window offers.
#[derive(Clone, Copy, Debug, PartialEq, Eq, Structural)]
pub enum GitExecutableMode {
    SystemPath,
    Custom,
}

impl GitExecutableMode {
    /// The choice a preference corresponds to.
    pub fn from_preference(preference: &GitExecutablePreference) -> (r: Self)
        ensures
            r == (if preference is SystemPath {
                GitExecutableMode::SystemPath
            } else {
                GitExecutableMode::Custom
            }),
    {
        match preference {
            GitExecutablePreference::SystemPath => GitExecutableMode::SystemPath,
            GitExecutablePreference::Custom(_) => GitExecutableMode::Custom,
        }
    }
}

/// The custom executable path the browser applies, if a custom one is chosen.
pub fn applied_git_executable_path(runtime: &GitRuntimeState) -> (r: Option<String>)
    ensures
        match runtime.preference {
            GitExecutablePreference::SystemPath => r is None,
            GitExecutablePreference::Custom(p) => r == Some(p),
        },
{
    match &runtime.preference {
        GitExecutablePreference::SystemPath => None,
        GitExecutablePreference::Custom(path) => Some(path.clone()),
    }
}

/// The note under the Git executable setting on where it applies.
pub fn git_executable_scope_note() -> (r: &'static str)
    ensures
        r@ == "Applies to the main GitComet browser window. Git-invoked command modes keep using git from System PATH. Helper tools such as gpg are resolved by Git from the app environment unless configured in Git."@,
{
    "Applies to the main GitComet browser window. Git-invoked command modes keep using git from System PATH. Helper tools such as gpg are resolved by Git from the app environment unless configured in Git."
}

/// A Git version, by its first two numbers.
#[derive(Clone, Copy, Debug, PartialEq, Eq, Structural)]
pub struct GitVersion {
    pub major: u32,
    pub minor: u32,
}

/// How the installed Git relates to the versions the application was tested with.
#[derive(Clone, Copy, Debug, PartialEq, Eq, Structural)]
pub enum GitCompatibility {
    Supported,
    TooOld,
    Unknown,
    Unavailable,
}

/// Whether a version is at least `MIN_GIT_MAJOR.MIN_GIT_MINOR`.
pub open spec fn supported_spec(v: GitVersion) -> bool {
    v.major > MIN_GIT_MAJOR || (v.major == MIN_GIT_MAJOR && v.minor >= MIN_GIT_MINOR)
}

/// Support rises with the version: Git 2.50 is supported and 2.49 is not,
/// and a version at or after a supported one is supported too.
pub proof fn lemma_supported_from_2_50(v: GitVersion, w: GitVersion)
    ensures
        supported_spec(v) <==> (v.major > 2 || (v.major == 2 && v.minor >= 50)),
        supported_spec(v) && (w.major > v.major || (w.major == v.major && w.minor >= v.minor))
            ==> supported_spec(w),
{
}

/// Whether a version is one the application was tested with (2.50 or newer).
pub fn is_supported_git_version(version: GitVersion) -> (r: bool)
    ensures
        r == supported_spec(version),
{
    version.major > MIN_GIT_MAJOR || (version.major == MIN_GIT_MAJOR && version.minor >= MIN_GIT_MINOR)
}

/// Number of ASCII digits at the start of `s`.
pub open spec fn digit_run(s: Seq<char>) -> nat
    decreases s.len(),
{
    if s.len() > 0 && is_ascii_digit(s[0]) {
        1 + digit_run(s.subrange(1, s.len() as int))
    } else {
        0
    }
}

/// The number the leading ASCII digits of `s` spell, when there is at least
/// one and the number fits in a `u32`.
pub open spec fn u32_prefix_spec(s: Seq<char>) -> Option<u32> {
    let n = digit_run(s);
    if n == 0 {
        None
    } else {
        let v = digits_value(s.subrange(0, n as int));
        if v <= u32::MAX {
            Some(v as u32)
        } else {
            None
        }
    }
}

/// The leading digits of `s` are exactly its first `digit_run(s)` characters.
proof fn lemma_digit_run(s: Seq<char>)
    ensures
        digit_run(s) <= s.len(),
        forall|j: int| 0 <= j < digit_run(s) ==> is_ascii_digit(#[trigger] s[j]),
        digit_run(s) < s.len() ==> !is_ascii_digit(s[digit_run(s) as int]),
    decreases s.len(),
{
    if s.len() > 0 && is_ascii_digit(s[0]) {
        let t = s.subrange(1, s.len() as int);
        lemma_digit_run(t);
        assert forall|j: int| 0 <= j < digit_run(s) implies is_ascii_digit(#[trigger] s[j]) by {
            if j > 0 {
                assert(s[j] == t[j - 1]);
            }
        }
        if digit_run(s) < s.len() {
            assert(s[digit_run(s) as int] == t[digit_run(t) as int]);
        }
    }
}

/// A run of digits that starts a string ends at the first non-digit.
proof fn lemma_digit_run_is(s: Seq<char>, k: int)
    requires
        0 <= k <= s.len(),
        forall|j: int| 0 <= j < k ==> is_ascii_digit(#[trigger] s[j]),
        k == s.len() || !is_ascii_digit(s[k]),
    ensures
        digit_run(s) == k,
    decreases k,
{
    if k > 0 {
        let t = s.subrange(1, s.len() as int);
        assert forall|j: int| 0 <= j < k - 1 implies is_ascii_digit(#[trigger] t[j]) by {
            assert(t[j] == s[j + 1]);
        }
        if k < s.len() {
            assert(t[k - 1] == s[k]);
        }
        lemma_digit_run_is(t, k - 1);
    }
}

/// More digits never spell a smaller number.
proof fn lemma_digits_value_grows(s: Seq<char>, k: int)
    requires
        0 <= k <= s.len(),
    ensures
        digits_value(s.subrange(0, k)) <= digits_value(s),
    decreases s.len() - k,
{
    if k < s.len() {
        lemma_digits_value_grows(s.drop_last(), k);
        assert(s.drop_last().subrange(0, k) =~= s.subrange(0, k));
        assert(digits_value(s) == digits_value(s.drop_last()) * 10 + digit_value(s.last()));
    } else {
        assert(s.subrange(0, k) =~= s);
    }
}

/// `parse_u32_prefix` on a character slice.
fn u32_prefix_chars(part: &[char]) -> (r: Option<u32>)
    ensures
        r == u32_prefix_spec(part@),
{
    let mut end: usize = 0;
    while end < part.len() && '0' <= part[end] && part[end] <= '9'
        invariant
            end <= part@.len(),
            forall|j: int| 0 <= j < end ==> is_ascii_digit(#[trigger] part@[j]),
        decreases part.len() - end,
    {
        end = end + 1;
    }
    proof {
        lemma_digit_run_is(part@, end as int);
    }
    if end == 0 {
        return None;
    }
    let mut value: u64 = 0;
    let mut i: usize = 0;
    while i < end
        invariant
            i <= end <= part@.len(),
            digit_run(part@) == end,
            forall|j: int| 0 <= j < end ==> is_ascii_digit(#[trigger] part@[j]),
            value == digits_value(part@.subrange(0, i as int)),
            value <= u32::MAX,
        decreases end - i,
    {
        let d = part[i];
        proof {
            assert(part@.subrange(0, i + 1).drop_last() =~= part@.subrange(0, i as int));
        }
        let next = value * 10 + ((d as u32) - ('0' as u32)) as u64;
        if next > 4294967295u64 {
            proof {
                let full = part@.subrange(0, end as int);
                assert(full.subrange(0, i + 1) =~= part@.subrange(0, i + 1));
                lemma_digits_value_grows(full, i + 1);
            }
            return None;
        }
        value = next;
        i = i + 1;
    }
    Some(value as u32)
}

/// The version a token such as `2.45.1.windows.1` names: its first two
/// dot-separated parts, each read by its leading digits.
pub open spec fn version_token_spec(t: Seq<char>) -> Option<GitVersion> {
    let i = char_pos(t, '.');
    if i >= t.len() {
        None
    } else {
        let rest = t.subrange(i + 1int, t.len() as int);
        let first = t.subrange(0, i as int);
        let second = rest.subrange(0, char_pos(rest, '.') as int);
        match (u32_prefix_spec(first), u32_prefix_spec(second)) {
            (Some(major), Some(minor)) => Some(GitVersion { major, minor }),
            _ => None,
        }
    }
}

/// `parse_git_version_token` on a character slice.
fn version_token_chars(token: &[char]) -> (r: Option<GitVersion>)
    ensures
        r == version_token_spec(token@),
{
    let n = token.len();
    let i = find_char(token, '.');
    proof {
        lemma_char_pos_bounds(token@, '.');
    }
    if i >= n {
        return None;
    }
    let first = slice_subrange(token, 0, i);
    let rest = slice_subrange(token, i + 1, n);
    let j = find_char(rest, '.');
    proof {
        lemma_char_pos_bounds(rest@, '.');
    }
    let second = slice_subrange(rest, 0, j);
    let major = match u32_prefix_chars(first) {
        Some(v) => v,
        None => return None,
    };
    let minor = match u32_prefix_chars(second) {
        Some(v) => v,
        None => return None,
    };
    Some(GitVersion { major, minor })
}

/// The number spelled by the digits at the start of `part`, as `str::parse`
/// reads them: `None` when `part` does not start with a digit or the number
/// does not fit in a `u32`.
pub fn parse_u32_prefix(part: &str) -> (r: Option<u32>)
    ensures
        r == u32_prefix_spec(part@),
{
    let cs = chars_of(part);
    u32_prefix_chars(cs.as_slice())
}

/// The version a single token names, if it names one.
pub fn parse_git_version_token(token: &str) -> (r: Option<GitVersion>)
    ensures
        r == version_token_spec(token@),
{
    let cs = chars_of(token);
    version_token_chars(cs.as_slice())
}

/// Where the token that starts at `i` ends: at the next whitespace character
/// or the end of `s`.
pub open spec fn token_end(s: Seq<char>, i: int) -> int
    decreases s.len() - i,
{
    if i < 0 || i >= s.len() || is_ws(s[i]) {
        i
    } else {
        token_end(s, i + 1)
    }
}

/// A token ends after it starts, within the string, at whitespace or the end,
/// and holds no whitespace.
pub proof fn lemma_token_end(s: Seq<char>, i: int)
    requires
        0 <= i <= s.len(),
    ensures
        i <= token_end(s, i) <= s.len(),
        i < s.len() && !is_ws(s[i]) ==> token_end(s, i) > i,
        token_end(s, i) < s.len() ==> is_ws(s[token_end(s, i)]),
        forall|j: int| i <= j < token_end(s, i) ==> !is_ws(#[trigger] s[j]),
    decreases s.len() - i,
{
    if i < s.len() && !is_ws(s[i]) {
        lemma_token_end(s, i + 1);
    }
}

/// The version named by the first whitespace-separated token, from position
/// `i` on, that names one (`split_whitespace` followed by `find_map`).
pub open spec fn version_from(s: Seq<char>, i: int) -> Option<GitVersion>
    decreases s.len() - i,
{
    if i < 0 || i >= s.len() {
        None
    } else if is_ws(s[i]) {
        version_from(s, i + 1)
    } else {
        let e = token_end(s, i);
        proof {
            lemma_token_end(s, i);
        }
        match version_token_spec(s.subrange(i, e)) {
            Some(v) => Some(v),
            None => version_from(s, e),
        }
    }
}

/// The version in `git --version` output: the first whitespace-separated
/// token that names one.
pub fn parse_git_version(raw: &str) -> (r: Option<GitVersion>)
    ensures
        r == version_from(raw@, 0),
{
    let s = chars_of(raw);
    let n = s.len();
    let mut i: usize = 0;
    while i < n
        invariant
            n == s@.len(),
            s@ == raw@,
            i <= n,
            version_from(s@, 0) == version_from(s@, i as int),
        decreases n - i,
    {
        if is_whitespace(s[i]) {
            i = i + 1;
        } else {
            let mut e: usize = i;
            while e < n && !is_whitespace(s[e])
                invariant
                    n == s@.len(),
                    i <= e <= n,
                    token_end(s@, i as int) == token_end(s@, e as int),
                decreases n - e,
            {
                e = e + 1;
            }
            proof {
                lemma_token_end(s@, i as int);
            }
            let token = slice_subrange(s.as_slice(), i, e);
            match version_token_chars(token) {
                Some(v) => return Some(v),
                None => {},
            }
            i = e;
        }
    }
    None
}

/// What the settings window shows about the Git executable.
#[derive(Clone, Debug, PartialEq, Eq)]
pub struct GitRuntimeInfo {
    pub runtime: GitRuntimeState,
    pub version_display: String,
    pub compatibility: GitCompatibility,
    pub detail: Option<String>,
}

/// How a runtime state relates to the supported versions.
pub open spec fn compatibility_spec(runtime: GitRuntimeState) -> GitCompatibility {
    match runtime.availability {
        GitExecutableAvailability::Unavailable { .. } => GitCompatibility::Unavailable,
        GitExecutableAvailability::Available { version_output } => match version_from(
            version_output@,
            0,
        ) {
            Some(v) => if supported_spec(v) {
                GitCompatibility::Supported
            } else {
                GitCompatibility::TooOld
            },
            None => GitCompatibility::Unknown,
        },
    }
}

/// The warning shown under an old or unrecognised Git version.
pub open spec fn compatibility_message() -> Seq<char> {
    "GitComet has been tested only with Git 2.50 or newer."@
}

/// Whether `r` is the settings window's view of `runtime`: the version
/// output (or "Unavailable"), the compatibility, and a detail line: none for
/// a supported version, the compatibility warning for an old or unrecognised
/// one, and the reason for an executable that does not run.
pub open spec fn runtime_info_for(runtime: GitRuntimeState, r: GitRuntimeInfo) -> bool {
    &&& r.runtime == runtime
    &&& r.compatibility == compatibility_spec(runtime)
    &&& r.version_display@ == match runtime.availability {
        GitExecutableAvailability::Available { version_output } => version_output@,
        GitExecutableAvailability::Unavailable { .. } => "Unavailable"@,
    }
    &&& match r.compatibility {
        GitCompatibility::Supported => r.detail is None,
        GitCompatibility::TooOld | GitCompatibility::Unknown => r.detail matches Some(d) && d@
            == compatibility_message(),
        GitCompatibility::Unavailable => match runtime.availability {
            GitExecutableAvailability::Unavailable { detail } => r.detail matches Some(d) && d@
                == detail@,
            GitExecutableAvailability::Available { .. } => r.detail is None,
        },
    }
}

/// The settings window's view of a runtime state (see `runtime_info_for`).
pub fn git_runtime_info_from_state(runtime: GitRuntimeState) -> (r: GitRuntimeInfo)
    ensures
        runtime_info_for(runtime, r),
{
    let compatibility = if !runtime.is_available() {
        GitCompatibility::Unavailable
    } else {
        match runtime.version_output() {
            Some(out) => match parse_git_version(out) {
                Some(version) => if is_supported_git_version(version) {
                    GitCompatibility::Supported
                } else {
                    GitCompatibility::TooOld
                },
                None => GitCompatibility::Unknown,
            },
            None => GitCompatibility::Unknown,
        }
    };
    let version_display = match runtime.version_output() {
        Some(out) => owned(out),
        None => owned("Unavailable"),
    };
    let detail = match compatibility {
        GitCompatibility::Supported => None,
        GitCompatibility::TooOld | GitCompatibility::Unknown => Some(
            owned("GitComet has been tested only with Git 2.50 or newer."),
        ),
        GitCompatibility::Unavailable => match runtime.unavailable_detail() {
            Some(d) => Some(owned(d)),
            None => None,
        },
    };
    GitRuntimeInfo { runtime, version_display, compatibility, detail }
}

/// What the settings window shows about the application and its runtime.
#[derive(Clone, Debug, PartialEq, Eq)]
pub struct SettingsRuntimeInfo {
    pub git: GitRuntimeInfo,
    pub app_version_display: String,
    pub operating_system: String,
}

impl SettingsRuntimeInfo {
    /// The runtime information for `runtime`, an application at
    /// `app_version`, on the operating system `os` of family `family` on the
    /// architecture `arch`: "GitComet v{app_version}" and
    /// "{os} ({family}, {arch})".
    pub fn from_runtime(
        runtime: GitRuntimeState,
        app_version: &str,
        os: &str,
        family: &str,
        arch: &str,
    ) -> (r: Self)
        ensures
            runtime_info_for(runtime, r.git),
            r.app_version_display@ == "GitComet v"@ + app_version@,
            r.operating_system@ == os@ + " ("@ + family@ + ", "@ + arch@ + ")"@,
    {
        let git = git_runtime_info_from_state(runtime);
        let mut app_version_display = owned("GitComet v");
        push_str(&mut app_version_display, app_version);
        let mut operating_system = owned(os);
        push_str(&mut operating_system, " (");
        push_str(&mut operating_system, family);
        push_str(&mut operating_system, ", ");
        push_str(&mut operating_system, arch);
        push_str(&mut operating_system, ")");
        SettingsRuntimeInfo { git, app_version_display, operating_system }
    }
}

/// How a Git status line is drawn.
#[derive(Clone, Copy, Debug, PartialEq, Eq, Structural)]
pub enum GitStatusTone {
    Success,
    Warning,
    Danger,
}

/// The status line of the Git executable in the settings window: its icon,
/// its tone and its text.
pub open spec fn git_status_spec(c: GitCompatibility) -> (Seq<char>, GitStatusTone, Seq<char>) {
    match c {
        GitCompatibility::Supported => ("icons/check.svg"@, GitStatusTone::Success, "Git >= 2.50"@),
        GitCompatibility::TooOld => ("icons/warning.svg"@, GitStatusTone::Warning, "Git < 2.50"@),
        GitCompatibility::Unknown => (
            "icons/warning.svg"@,
            GitStatusTone::Warning,
            "Git version unknown"@,
        ),
        GitCompatibility::Unavailable => (
            "icons/warning.svg"@,
            GitStatusTone::Danger,
            "Unavailable"@,
        ),
    }
}

/// The status line of the Git executable in the settings window (see
/// `git_status_spec`): a check for a supported version, a warning for an old
/// or unknown one, and a danger sign when Git does not run.
pub fn git_runtime_status(c: GitCompatibility) -> (r: (&'static str, GitStatusTone, &'static str))
    ensures
        (r.0@, r.1, r.2@) == git_status_spec(c),
{
    match c {
        GitCompatibility::Supported => ("icons/check.svg", GitStatusTone::Success, "Git >= 2.50"),
        GitCompatibility::TooOld => ("icons/warning.svg", GitStatusTone::Warning, "Git < 2.50"),
        GitCompatibility::Unknown => ("icons/warning.svg", GitStatusTone::Warning, "Git version unknown"),
        GitCompatibility::Unavailable => ("icons/warning.svg", GitStatusTone::Danger, "Unavailable"),
    }
}

} // verus!
