//! Deciding whether a published release is an update for the running build,
//! and where its release notes and download live.
use vstd::prelude::*;
use crate::semver_tag::{numbers_lt, parse_semver_tag, semver_display, semver_le, semver_tag_spec, SemVer};
use crate::text::{
    char_pos, chars_of, contains, contains_seq, count_char, count_occurrences, ends_with,
    find_char, has_prefix, has_suffix, owned, push_str, slice_subrange,
    starts_with, string_from_chars, trim, trim_end_char, trim_end_char_len, trim_spec,
};

verus! {

/// Environment variable whose presence disables update checks.
pub const UPDATE_CHECK_DISABLE_ENV: &'static str = "GITCOMET_NO_UPDATE_CHECK";

/// Environment variable naming the repository to check for releases.
pub const UPDATE_CHECK_REPO_ENV: &'static str = "GITCOMET_UPDATE_REPO";

/// Repository checked when nothing else names one.
pub const DEFAULT_UPDATE_REPO: &'static str = "GitComet/gitcomet";

/// A newer release that the running build can be updated to.
#[derive(Clone, Debug, PartialEq, Eq)]
pub struct UpdateNotice {
    pub latest_version: String,
    pub current_version: String,
    pub releases_url: String,
    pub download_url: Option<String>,
}

/// A release as the GitHub releases API describes it.
#[derive(Clone, Debug, PartialEq, Eq)]
pub struct GitHubRelease {
    pub tag_name: String,
    pub html_url: Option<String>,
    pub assets: Vec<GitHubReleaseAsset>,
}

/// One downloadable file of a release.
#[derive(Clone, Debug, PartialEq, Eq)]
pub struct GitHubReleaseAsset {
    pub name: String,
    pub browser_download_url: String,
    pub size: u64,
}

/// A GitHub repository, by owner and name.
#[derive(Clone, Debug, PartialEq, Eq)]
pub struct GitHubRepo {
    pub owner: String,
    pub repo: String,
}

/// Operating system a build runs on.
#[derive(Clone, Copy, Debug, PartialEq, Eq, Structural)]
pub enum TargetOs {
    Macos,
    Linux,
    Windows,
    Other,
}

/// Processor architecture a build runs on.
#[derive(Clone, Copy, Debug, PartialEq, Eq, Structural)]
pub enum TargetArch {
    X86_64,
    Aarch64,
    Other,
}

/// The platform a build runs on.
#[derive(Clone, Copy, Debug, PartialEq, Eq, Structural)]
pub struct Platform {
    pub os: TargetOs,
    pub arch: TargetArch,
}

/// Lower-case form of a string by Unicode case mapping (`str::to_lowercase`).
pub uninterp spec fn unicode_lowercase(s: Seq<char>) -> Seq<char>;

/// `str::to_lowercase`: the Unicode lower-case form of `s`.
#[verifier::external_body]
fn to_lowercase(s: &str) -> (r: String)
    ensures
        r@ == unicode_lowercase(s@),
{
    s.to_lowercase()
}

/// The name part that identifies the operating system in asset names.
pub open spec fn os_part_spec(os: TargetOs) -> Seq<char> {
    match os {
        TargetOs::Macos => "macos"@,
        TargetOs::Linux => "linux"@,
        TargetOs::Windows => "windows"@,
        TargetOs::Other => ""@,
    }
}

/// The name part that identifies the architecture in asset names.
pub open spec fn arch_part_spec(arch: TargetArch) -> Seq<char> {
    match arch {
        TargetArch::X86_64 => "x86_64"@,
        TargetArch::Aarch64 => "arm64"@,
        TargetArch::Other => ""@,
    }
}

/// The file ending of the release archive for an operating system.
pub open spec fn extension_spec(os: TargetOs) -> Seq<char> {
    match os {
        TargetOs::Windows => "-portable.zip"@,
        _ => ".tar.gz"@,
    }
}

/// Name parts `(os, arch, extension)` that a platform's release asset carries.
pub fn platform_asset_identifiers(platform: Platform) -> (r: (&'static str, &'static str, &'static str))
    ensures
        r.0@ == os_part_spec(platform.os),
        r.1@ == arch_part_spec(platform.arch),
        r.2@ == extension_spec(platform.os),
{
    let os_part = match platform.os {
        TargetOs::Macos => "macos",
        TargetOs::Linux => "linux",
        TargetOs::Windows => "windows",
        TargetOs::Other => "",
    };
    let arch_part = match platform.arch {
        TargetArch::X86_64 => "x86_64",
        TargetArch::Aarch64 => "arm64",
        TargetArch::Other => "",
    };
    let extension = match platform.os {
        TargetOs::Windows => "-portable.zip",
        _ => ".tar.gz",
    };
    (os_part, arch_part, extension)
}

/// A lower-cased asset name belongs to the platform when it mentions the
/// operating system and architecture and ends with the archive extension.
pub open spec fn lowercase_name_matches(lower: Seq<char>, platform: Platform) -> bool {
    &&& contains_seq(lower, os_part_spec(platform.os))
    &&& contains_seq(lower, arch_part_spec(platform.arch))
    &&& has_suffix(lower, extension_spec(platform.os))
}

/// An asset belongs to the platform when its lower-cased name does.
pub open spec fn asset_matches(name: Seq<char>, platform: Platform) -> bool {
    lowercase_name_matches(unicode_lowercase(name), platform)
}

/// Whether an asset name, already in lower case, belongs to the platform.
pub fn lowercase_asset_name_matches(lower: &str, platform: Platform) -> (r: bool)
    ensures
        r == lowercase_name_matches(lower@, platform),
        r == (contains_seq(lower@, os_part_spec(platform.os)) && contains_seq(
            lower@,
            arch_part_spec(platform.arch),
        ) && has_suffix(lower@, extension_spec(platform.os))),
{
    let (os_part, arch_part, extension) = platform_asset_identifiers(platform);
    let name = chars_of(lower);
    let os = chars_of(os_part);
    let arch = chars_of(arch_part);
    let ext = chars_of(extension);
    contains(name.as_slice(), os.as_slice()) && contains(name.as_slice(), arch.as_slice())
        && ends_with(name.as_slice(), ext.as_slice())
}

/// Index of the first asset from position `i` on that belongs to the platform.
pub open spec fn first_matching_asset(
    assets: Seq<GitHubReleaseAsset>,
    platform: Platform,
    i: int,
) -> Option<int>
    decreases assets.len() - i,
{
    if i < 0 || i >= assets.len() {
        None
    } else if asset_matches(assets[i].name@, platform) {
        Some(i)
    } else {
        first_matching_asset(assets, platform, i + 1)
    }
}

/// Where the platform's asset is searched from position `i` on: the first
/// asset there whose name fits the platform, or none when no asset fits.
proof fn lemma_first_matching_asset(assets: Seq<GitHubReleaseAsset>, platform: Platform, i: int)
    requires
        0 <= i,
    ensures
        match first_matching_asset(assets, platform, i) {
            Some(k) => i <= k < assets.len() && asset_matches(assets[k].name@, platform) && forall|j: int|
                i <= j < k ==> !asset_matches(#[trigger] assets[j].name@, platform),
            None => forall|j: int| i <= j < assets.len() ==> !asset_matches(#[trigger] assets[j].name@, platform),
        },
    decreases assets.len() - i,
{
    if i < assets.len() && !asset_matches(assets[i].name@, platform) {
        lemma_first_matching_asset(assets, platform, i + 1);
    }
}

/// Whether a lower-cased asset name is the release archive built for the
/// platform, as release assets are named: it names the operating system
/// (`macos`, `linux`, `windows`) and the architecture (`x86_64`, `arm64`),
/// and ends in `.tar.gz`, or in `-portable.zip` for Windows.
pub open spec fn named_for_platform(lower: Seq<char>, platform: Platform) -> bool {
    &&& (platform.os == TargetOs::Macos ==> contains_seq(lower, "macos"@))
    &&& (platform.os == TargetOs::Linux ==> contains_seq(lower, "linux"@))
    &&& (platform.os == TargetOs::Windows ==> contains_seq(lower, "windows"@))
    &&& (platform.arch == TargetArch::X86_64 ==> contains_seq(lower, "x86_64"@))
    &&& (platform.arch == TargetArch::Aarch64 ==> contains_seq(lower, "arm64"@))
    &&& (platform.os == TargetOs::Windows ==> has_suffix(lower, "-portable.zip"@))
    &&& (platform.os != TargetOs::Windows ==> has_suffix(lower, ".tar.gz"@))
}

/// The asset chosen for a platform is the archive built for it: its
/// lower-cased name names the platform's operating system and architecture
/// and has the platform's archive ending. On a known operating system and
/// architecture, an asset is chosen whenever one is so named, and none
/// before the chosen one is.
pub proof fn lemma_chosen_asset_is_built_for_platform(assets: Seq<GitHubReleaseAsset>, platform: Platform)
    ensures
        first_matching_asset(assets, platform, 0) matches Some(k) ==> 0 <= k < assets.len()
            && named_for_platform(unicode_lowercase(assets[k].name@), platform),
        platform.os != TargetOs::Other && platform.arch != TargetArch::Other ==> forall|j: int|
            0 <= j < assets.len() && named_for_platform(unicode_lowercase(#[trigger] assets[j].name@), platform)
                ==> (first_matching_asset(assets, platform, 0) matches Some(k) && k <= j),
{
    lemma_first_matching_asset(assets, platform, 0);
}

/// Whether one asset belongs to the platform.
fn asset_matches_platform(asset: &GitHubReleaseAsset, platform: Platform) -> (r: bool)
    ensures
        r == asset_matches(asset.name@, platform),
{
    let lower = to_lowercase(asset.name.as_str());
    lowercase_asset_name_matches(lower.as_str(), platform)
}

/// The first release asset built for the platform.
pub fn resolve_platform_asset(assets: &[GitHubReleaseAsset], platform: Platform) -> (r: Option<
    &GitHubReleaseAsset,
>)
    ensures
        match first_matching_asset(assets@, platform, 0) {
            Some(i) => r == Some(&assets@[i]),
            None => r is None,
        },
        r matches Some(a) ==> named_for_platform(unicode_lowercase(a.name@), platform),
{
    proof {
        lemma_chosen_asset_is_built_for_platform(assets@, platform);
    }
    let mut i: usize = 0;
    while i < assets.len()
        invariant
            i <= assets@.len(),
            first_matching_asset(assets@, platform, 0) == first_matching_asset(
                assets@,
                platform,
                i as int,
            ),
        decreases assets.len() - i,
    {
        if asset_matches_platform(&assets[i], platform) {
            return Some(&assets[i]);
        }
        i = i + 1;
    }
    None
}

/// `s` without one trailing `.git`.
pub open spec fn strip_git_suffix(s: Seq<char>) -> Seq<char> {
    if has_suffix(s, ".git"@) {
        s.subrange(0, s.len() - 4)
    } else {
        s
    }
}

/// The slug with surrounding whitespace, trailing slashes and one `.git`
/// ending removed.
pub open spec fn normalized_slug(raw: Seq<char>) -> Seq<char> {
    strip_git_suffix(trim_end_char(trim_spec(raw), '/'))
}

/// Owner part of a slug: the text before the first `/`, trimmed.
pub open spec fn slug_owner(raw: Seq<char>) -> Seq<char> {
    let n = normalized_slug(raw);
    trim_spec(n.subrange(0, char_pos(n, '/') as int))
}

/// Repository part of a slug: the text after the first `/`, trimmed, or
/// nothing when there is no `/`.
pub open spec fn slug_repo(raw: Seq<char>) -> Seq<char> {
    let n = normalized_slug(raw);
    let k = char_pos(n, '/');
    if k < n.len() {
        trim_spec(n.subrange(k + 1int, n.len() as int))
    } else {
        Seq::empty()
    }
}

impl GitHubRepo {
    /// Reads an `owner/repo` slug, tolerating whitespace, trailing slashes
    /// and a `.git` ending.
    pub fn from_slug(raw: &str) -> (r: Self)
        ensures
            r.owner@ == slug_owner(raw@),
            r.repo@ == slug_repo(raw@),
    {
        let trimmed = trim(raw);
        let cs = chars_of(trimmed.as_str());
        let end = trim_end_char_len(cs.as_slice(), '/');
        let no_slash = slice_subrange(cs.as_slice(), 0, end);
        let git = chars_of(".git");
        proof {
            reveal_strlit(".git");
        }
        let n = if ends_with(no_slash, git.as_slice()) {
            slice_subrange(no_slash, 0, no_slash.len() - 4)
        } else {
            no_slash
        };
        assert(n@ == normalized_slug(raw@));
        let k = find_char(n, '/');
        let owner_raw = string_from_chars(slice_subrange(n, 0, k));
        let owner = trim(owner_raw.as_str());
        let repo = if k < n.len() {
            let repo_raw = string_from_chars(slice_subrange(n, k + 1, n.len()));
            trim(repo_raw.as_str())
        } else {
            String::new()
        };
        GitHubRepo { owner, repo }
    }

    /// The API address of the repository's latest release.
    pub fn releases_latest_api_url(&self) -> (r: String)
        ensures
            r@ == "https://api.github.com/repos/"@ + self.owner@ + "/"@ + self.repo@
                + "/releases/latest"@,
    {
        let mut s = owned("https://api.github.com/repos/");
        push_str(&mut s, self.owner.as_str());
        push_str(&mut s, "/");
        push_str(&mut s, self.repo.as_str());
        push_str(&mut s, "/releases/latest");
        s
    }

    /// The repository's release list page.
    pub fn releases_page_url(&self) -> (r: String)
        ensures
            r@ == releases_page_spec(self.owner@, self.repo@),
    {
        let mut s = owned("https://github.com/");
        push_str(&mut s, self.owner.as_str());
        push_str(&mut s, "/");
        push_str(&mut s, self.repo.as_str());
        push_str(&mut s, "/releases");
        s
    }
}

/// Address of a repository's release list page.
pub open spec fn releases_page_spec(owner: Seq<char>, repo: Seq<char>) -> Seq<char> {
    "https://github.com/"@ + owner + "/"@ + repo + "/releases"@
}

/// The GitHub address forms from which a slug is read, in the order tried.
pub open spec fn github_url_prefix(i: int) -> Seq<char> {
    if i == 0 {
        "https://github.com/"@
    } else if i == 1 {
        "http://github.com/"@
    } else if i == 2 {
        "git@github.com:"@
    } else {
        "ssh://git@github.com/"@
    }
}

/// The text after the first GitHub address form that `raw` starts with.
pub open spec fn github_url_rest(raw: Seq<char>) -> Option<Seq<char>> {
    if has_prefix(raw, github_url_prefix(0)) {
        Some(raw.subrange(github_url_prefix(0).len() as int, raw.len() as int))
    } else if has_prefix(raw, github_url_prefix(1)) {
        Some(raw.subrange(github_url_prefix(1).len() as int, raw.len() as int))
    } else if has_prefix(raw, github_url_prefix(2)) {
        Some(raw.subrange(github_url_prefix(2).len() as int, raw.len() as int))
    } else if has_prefix(raw, github_url_prefix(3)) {
        Some(raw.subrange(github_url_prefix(3).len() as int, raw.len() as int))
    } else {
        None
    }
}

/// The characters after `prefix` when `s` starts with it.
fn strip_prefix_chars(s: &[char], prefix: &str) -> (r: Option<String>)
    ensures
        match r {
            Some(rest) => has_prefix(s@, prefix@) && rest@ == s@.subrange(
                prefix@.len() as int,
                s@.len() as int,
            ),
            None => !has_prefix(s@, prefix@),
        },
{
    let p = chars_of(prefix);
    if starts_with(s, p.as_slice()) {
        Some(string_from_chars(slice_subrange(s, p.len(), s.len())))
    } else {
        None
    }
}

/// Reads the repository from a GitHub https, http, scp-like or ssh address.
pub fn parse_github_repo_from_url(raw: &str) -> (r: Option<GitHubRepo>)
    ensures
        match github_url_rest(raw@) {
            Some(rest) => r matches Some(repo) && repo.owner@ == slug_owner(rest) && repo.repo@
                == slug_repo(rest),
            None => r is None,
        },
{
    let cs = chars_of(raw);
    let rest = if let Some(rest) = strip_prefix_chars(cs.as_slice(), "https://github.com/") {
        rest
    } else if let Some(rest) = strip_prefix_chars(cs.as_slice(), "http://github.com/") {
        rest
    } else if let Some(rest) = strip_prefix_chars(cs.as_slice(), "git@github.com:") {
        rest
    } else if let Some(rest) = strip_prefix_chars(cs.as_slice(), "ssh://git@github.com/") {
        rest
    } else {
        return None;
    };
    Some(GitHubRepo::from_slug(rest.as_str()))
}

/// Repository named by a configured value: a GitHub address, or an
/// `owner/repo` slug with exactly one `/`; nothing for a blank value.
pub open spec fn repo_slug_source(raw: Seq<char>) -> Option<Seq<char>> {
    let t = trim_spec(raw);
    if t.len() == 0 {
        None
    } else if github_url_rest(t) is Some {
        github_url_rest(t)
    } else if count_char(t, '/') == 1 {
        Some(t)
    } else {
        None
    }
}

/// Reads a repository from a configured value (see [`repo_slug_source`]).
pub fn parse_repo_slug(raw: &str) -> (r: Option<GitHubRepo>)
    ensures
        match repo_slug_source(raw@) {
            Some(src) => r matches Some(repo) && repo.owner@ == slug_owner(src) && repo.repo@
                == slug_repo(src),
            None => r is None,
        },
{
    let trimmed = trim(raw);
    let cs = chars_of(trimmed.as_str());
    if cs.len() == 0 {
        return None;
    }
    if let Some(repo) = parse_github_repo_from_url(trimmed.as_str()) {
        return Some(repo);
    }
    if count_occurrences(cs.as_slice(), '/') == 1 {
        return Some(GitHubRepo::from_slug(trimmed.as_str()));
    }
    None
}

/// The repository to check: the environment's choice, else the package's
/// repository address, else the default repository.
pub open spec fn update_repo_source(env_value: Option<Seq<char>>, package_repository: Seq<
    char,
>) -> Seq<char> {
    match env_value {
        Some(v) if repo_slug_source(v) is Some => repo_slug_source(v)->Some_0,
        _ => if repo_slug_source(package_repository) is Some {
            repo_slug_source(package_repository)->Some_0
        } else {
            DEFAULT_UPDATE_REPO@
        },
    }
}

/// Picks the repository to check for releases from the environment value of
/// [`UPDATE_CHECK_REPO_ENV`] and the package's repository address.
pub fn resolve_update_repo(env_value: Option<&str>, package_repository: &str) -> (r: GitHubRepo)
    ensures
        r.owner@ == slug_owner(
            update_repo_source(
                match env_value {
                    Some(v) => Some(v@),
                    None => None,
                },
                package_repository@,
            ),
        ),
        r.repo@ == slug_repo(
            update_repo_source(
                match env_value {
                    Some(v) => Some(v@),
                    None => None,
                },
                package_repository@,
            ),
        ),
{
    if let Some(v) = env_value {
        if let Some(repo) = parse_repo_slug(v) {
            return repo;
        }
    }
    if let Some(repo) = parse_repo_slug(package_repository) {
        return repo;
    }
    GitHubRepo::from_slug(DEFAULT_UPDATE_REPO)
}

/// The release notes address: the release's own page when it names one,
/// else the repository's release list.
pub open spec fn release_notes_url(html_url: Option<String>, repo: GitHubRepo) -> Seq<char> {
    match html_url {
        Some(u) if trim_spec(u@).len() > 0 => trim_spec(u@),
        _ => releases_page_spec(repo.owner@, repo.repo@),
    }
}

/// A release is an update when both versions read, the release is no
/// pre-release, and it orders after the running version.
pub open spec fn is_update(current_version: Seq<char>, tag_name: Seq<char>) -> bool {
    &&& semver_tag_spec(current_version) is Some
    &&& semver_tag_spec(tag_name) is Some
    &&& semver_tag_spec(tag_name)->Some_0.0.3.len() == 0
    &&& !semver_le(semver_tag_spec(tag_name)->Some_0.1, semver_tag_spec(current_version)->Some_0.1)
}

/// The release numbers `(major, minor, patch)` of parsed version fields.
pub open spec fn release_numbers(f: (u64, u64, u64, Seq<char>, Seq<char>)) -> (u64, u64, u64) {
    (f.0, f.1, f.2)
}

/// A release counts as an update only when both versions read, the release
/// is no pre-release, and it does not order at or before the running
/// version (`<=` on `semver::Version`).
pub proof fn lemma_update_is_strictly_newer(current_version: Seq<char>, tag_name: Seq<char>)
    ensures
        is_update(current_version, tag_name) ==> {
            &&& semver_tag_spec(current_version) is Some
            &&& semver_tag_spec(tag_name) is Some
            &&& semver_tag_spec(tag_name)->Some_0.0.3.len() == 0
            &&& !semver_le(semver_tag_spec(tag_name)->Some_0.1, semver_tag_spec(current_version)->Some_0.1)
        },
{
}

/// The notice for a release, given the running version, the release's
/// version and whether the release orders at or before the running one: none
/// for a pre-release or a release that is not newer.
pub fn update_notice_for_versions(
    current: &SemVer,
    latest: &SemVer,
    latest_precedes_or_equals_current: bool,
    release: &GitHubRelease,
    repo: &GitHubRepo,
    platform: Platform,
) -> (r: Option<UpdateNotice>)
    ensures
        r is Some <==> (latest.pre@.len() == 0 && !latest_precedes_or_equals_current),
        r matches Some(n) ==> {
            &&& n.current_version@ == semver_display(current.fields())
            &&& n.latest_version@ == semver_display(latest.fields())
            &&& n.releases_url@ == release_notes_url(release.html_url, *repo)
            &&& match first_matching_asset(release.assets@, platform, 0) {
                Some(i) => n.download_url == Some(release.assets@[i].browser_download_url),
                None => n.download_url is None,
            }
        },
{
    if chars_of(latest.pre.as_str()).len() != 0 || latest_precedes_or_equals_current {
        return None;
    }
    let download_url = match resolve_platform_asset(release.assets.as_slice(), platform) {
        Some(asset) => Some(asset.browser_download_url.clone()),
        None => None,
    };
    Some(
        UpdateNotice {
            latest_version: latest.display(),
            current_version: current.display(),
            releases_url: release_url_or_page(&release.html_url, repo),
            download_url,
        },
    )
}

/// Builds the notice for a release when it is newer than `current_version`.
pub fn build_update_notice(
    current_version: &str,
    release: &GitHubRelease,
    repo: &GitHubRepo,
    platform: Platform,
) -> (r: Option<UpdateNotice>)
    ensures
        r is Some <==> is_update(current_version@, release.tag_name@),
        r is Some ==> {
            let current = semver_tag_spec(current_version@)->Some_0;
            let latest = semver_tag_spec(release.tag_name@)->Some_0;
            &&& semver_tag_spec(current_version@) is Some
            &&& semver_tag_spec(release.tag_name@) is Some
            &&& latest.0.3.len() == 0
            &&& !semver_le(latest.1, current.1)
            &&& !numbers_lt(release_numbers(latest.0), release_numbers(current.0))
            &&& latest.0 != current.0
        },
        ({
            let current = semver_tag_spec(current_version@);
            let latest = semver_tag_spec(release.tag_name@);
            current is Some && latest is Some && latest->Some_0.0.3.len() == 0 && numbers_lt(
                release_numbers(current->Some_0.0),
                release_numbers(latest->Some_0.0),
            ) ==> r is Some
        }),
        r matches Some(n) ==> {
            &&& n.current_version@ == semver_display(
                semver_tag_spec(current_version@)->Some_0.0,
            )
            &&& n.latest_version@ == semver_display(semver_tag_spec(release.tag_name@)->Some_0.0)
            &&& n.releases_url@ == release_notes_url(release.html_url, *repo)
            &&& match first_matching_asset(release.assets@, platform, 0) {
                Some(i) => n.download_url == Some(
                    release.assets@[i].browser_download_url,
                ),
                None => n.download_url is None,
            }
        },
{
    let current = match parse_semver_tag(current_version) {
        Some(v) => v,
        None => return None,
    };
    let latest = match parse_semver_tag(release.tag_name.as_str()) {
        Some(v) => v,
        None => return None,
    };
    let not_newer = latest.precedes_or_equals(&current);
    update_notice_for_versions(&current, &latest, not_newer, release, repo, platform)
}

/// The trimmed release page address, or the repository's release list when
/// the release names none.
fn release_url_or_page(html_url: &Option<String>, repo: &GitHubRepo) -> (r: String)
    ensures
        r@ == release_notes_url(*html_url, *repo),
{
    if let Some(u) = html_url {
        let t = trim(u.as_str());
        if chars_of(t.as_str()).len() > 0 {
            return t;
        }
    }
    repo.releases_page_url()
}

/// The `User-Agent` sent with update requests.
pub fn update_check_user_agent(current_version: &str, package_repository: &str) -> (r: String)
    ensures
        r@ == "GitComet/"@ + current_version@ + " (+"@ + package_repository@ + ")"@,
{
    let mut s = owned("GitComet/");
    push_str(&mut s, current_version);
    push_str(&mut s, " (+");
    push_str(&mut s, package_repository);
    push_str(&mut s, ")");
    s
}

} // verus!
