//! Downloading and unpacking an update: error messages, the staging lock,
//! download progress, archive kinds and locating the new binary.
use vstd::prelude::*;
use crate::text::{
    chars_of, decimal, has_suffix, last_char_pos, lemma_last_char_pos, ends_with, owned, push_str, rfind_char,
    slice_subrange, str_eq, string_from_chars, u64_to_decimal,
};
use crate::update_check::TargetOs;

verus! {

/// Name of the staging directory under the user cache directory.
pub const UPDATE_STAGING_DIR: &'static str = "gitcomet-update-staging";

/// Name of the lock file inside the staging directory.
pub const UPDATE_LOCK_FILE: &'static str = ".update-in-progress";

/// How long a staging lock stays valid, in seconds.
pub const UPDATE_LOCK_TTL_SECS: u64 = 600;

/// Bytes in one mebibyte, the unit of download progress.
pub const BYTES_PER_MB: u64 = 1048576;

/// Why downloading or unpacking an update failed.
#[derive(Clone, Debug, PartialEq, Eq)]
pub enum UpdateError {
    Http(String),
    Io(String),
    Zip(String),
    UnsupportedArchive(String),
    BinaryNotFound,
    UpdateInProgress,
}

/// The text shown for an update error.
pub open spec fn update_error_message(e: UpdateError) -> Seq<char> {
    match e {
        UpdateError::Http(msg) => "HTTP error: "@ + msg@,
        UpdateError::Io(msg) => "IO error: "@ + msg@,
        UpdateError::Zip(msg) => "ZIP error: "@ + msg@,
        UpdateError::UnsupportedArchive(name) => "Unsupported archive format: "@ + name@,
        UpdateError::BinaryNotFound => "Binary not found in archive"@,
        UpdateError::UpdateInProgress => "An update is already in progress"@,
    }
}

impl UpdateError {
    /// The text shown for this error.
    pub fn message(&self) -> (r: String)
        ensures
            r@ == update_error_message(*self),
    {
        match self {
            UpdateError::Http(msg) => {
                let mut s = owned("HTTP error: ");
                push_str(&mut s, msg.as_str());
                s
            },
            UpdateError::Io(msg) => {
                let mut s = owned("IO error: ");
                push_str(&mut s, msg.as_str());
                s
            },
            UpdateError::Zip(msg) => {
                let mut s = owned("ZIP error: ");
                push_str(&mut s, msg.as_str());
                s
            },
            UpdateError::UnsupportedArchive(name) => {
                let mut s = owned("Unsupported archive format: ");
                push_str(&mut s, name.as_str());
                s
            },
            UpdateError::BinaryNotFound => owned("Binary not found in archive"),
            UpdateError::UpdateInProgress => owned("An update is already in progress"),
        }
    }
}

/// The lock an updating process writes into the staging directory.
#[derive(Clone, Copy, Debug, PartialEq, Eq, Structural)]
pub struct UpdateLock {
    pub pid: u32,
    pub started_at: u64,
}

/// A lock is active while less than the lock lifetime has passed since it
/// was taken (a lock from the future counts as fresh).
pub open spec fn lock_active(started_at: u64, now: u64) -> bool {
    if now >= started_at {
        now - started_at <= UPDATE_LOCK_TTL_SECS
    } else {
        true
    }
}

/// A staging lock holds from when it is taken for the whole lock lifetime,
/// and once it has lapsed it stays lapsed; a lock taken later than `now`
/// holds.
pub proof fn lemma_lock_lifetime(started_at: u64, now: u64, later: u64)
    ensures
        lock_active(started_at, started_at),
        now >= started_at && now - started_at <= UPDATE_LOCK_TTL_SECS ==> lock_active(started_at, now),
        now >= started_at && now - started_at > UPDATE_LOCK_TTL_SECS ==> !lock_active(started_at, now),
        now < started_at ==> lock_active(started_at, now),
        now <= later && !lock_active(started_at, now) ==> !lock_active(started_at, later),
{
}

/// Whether a staging lock taken at `started_at` still holds at `now`.
pub fn is_lock_active(started_at: u64, now: u64) -> (r: bool)
    ensures
        r == lock_active(started_at, now),
{
    now.saturating_sub(started_at) <= UPDATE_LOCK_TTL_SECS
}

/// Whether the staging directory is locked: a readable lock that is still
/// active. A missing or unreadable lock does not lock.
pub fn is_staging_locked(lock: Option<UpdateLock>, now: u64) -> (r: bool)
    ensures
        r == (lock matches Some(l) && lock_active(l.started_at, now)),
{
    match lock {
        Some(l) => is_lock_active(l.started_at, now),
        None => false,
    }
}

/// Preparing a staging directory is refused while another update holds it.
pub fn check_staging_available(lock: Option<UpdateLock>, now: u64) -> (r: Result<(), UpdateError>)
    ensures
        r is Err <==> (lock matches Some(l) && lock_active(l.started_at, now)),
        r matches Err(e) ==> e == UpdateError::UpdateInProgress,
{
    if is_staging_locked(lock, now) {
        Err(UpdateError::UpdateInProgress)
    } else {
        Ok(())
    }
}

/// Whether a staging directory left behind may be removed at time `now`:
/// only when it exists and no update holds it (its lock, when there is one,
/// is not active).
pub fn staging_cleanup_allowed(exists: bool, lock: Option<UpdateLock>, now: u64) -> (r: bool)
    ensures
        r == (exists && !(lock matches Some(l) && lock_active(l.started_at, now))),
{
    if !exists {
        return false;
    }
    !is_staging_locked(lock, now)
}

/// What adding a chunk of `n` bytes does: the count grows by `n`, and the
/// mebibytes downloaded so far are reported, as `r`, when that count passed
/// the last reported one.
pub open spec fn records_chunk(before: DownloadProgress, after: DownloadProgress, n: u64, r: Option<u64>) -> bool {
    let mb = after.downloaded / BYTES_PER_MB;
    &&& after.downloaded == before.downloaded + n
    &&& if mb > before.last_reported_mb {
        r == Some(mb) && after.last_reported_mb == mb
    } else {
        r is None && after.last_reported_mb == before.last_reported_mb
    }
}

/// The bytes in the chunks of a download.
pub open spec fn total_bytes(chunks: Seq<u64>) -> int
    decreases chunks.len(),
{
    if chunks.len() == 0 {
        0
    } else {
        total_bytes(chunks.drop_last()) + chunks.last()
    }
}

/// The last report of a download so far, or 0 before the first.
pub open spec fn last_report(reports: Seq<int>) -> int {
    if reports.len() == 0 {
        0
    } else {
        reports.last()
    }
}

/// The progress reports of a download whose chunks are `chunks`, in order:
/// after each chunk, the mebibytes downloaded so far when that count passed
/// the last report.
pub open spec fn download_reports(chunks: Seq<u64>) -> Seq<int>
    decreases chunks.len(),
{
    if chunks.len() == 0 {
        seq![]
    } else {
        let before = download_reports(chunks.drop_last());
        let mb = total_bytes(chunks) / BYTES_PER_MB as int;
        if mb > last_report(before) {
            before.push(mb)
        } else {
            before
        }
    }
}

/// Whether `p` is the progress of a download after the chunks `chunks`.
pub open spec fn progress_after(p: DownloadProgress, chunks: Seq<u64>) -> bool {
    &&& p.downloaded == total_bytes(chunks)
    &&& p.last_reported_mb == last_report(download_reports(chunks))
}

/// Recording one more chunk on the progress after `chunks` gives the progress
/// after `chunks` and that chunk, and reports exactly the report that chunk
/// adds to the download's reports.
pub proof fn lemma_record_chunk_step(
    chunks: Seq<u64>,
    before: DownloadProgress,
    after: DownloadProgress,
    n: u64,
    r: Option<u64>,
)
    requires
        progress_after(before, chunks),
        records_chunk(before, after, n, r),
    ensures
        progress_after(after, chunks.push(n)),
        match r {
            Some(mb) => download_reports(chunks.push(n)) == download_reports(chunks).push(mb as int),
            None => download_reports(chunks.push(n)) == download_reports(chunks),
        },
{
    assert(chunks.push(n).drop_last() =~= chunks);
}

/// Over a whole download: the reports rise strictly, each is at least one
/// mebibyte, there are none when less than one mebibyte came in, and
/// otherwise the last one is the whole mebibytes of the download.
pub proof fn lemma_download_reports(chunks: Seq<u64>)
    ensures
        forall|i: int, j: int|
            0 <= i < j < download_reports(chunks).len() ==> download_reports(chunks)[i]
                < download_reports(chunks)[j],
        forall|i: int| 0 <= i < download_reports(chunks).len() ==> download_reports(chunks)[i] >= 1,
        download_reports(chunks).len() == 0 <==> total_bytes(chunks) < BYTES_PER_MB,
        download_reports(chunks).len() > 0 ==> download_reports(chunks).last() == total_bytes(chunks)
            / BYTES_PER_MB as int,
        last_report(download_reports(chunks)) == total_bytes(chunks) / BYTES_PER_MB as int,
    decreases chunks.len(),
{
    if chunks.len() > 0 {
        let prefix = chunks.drop_last();
        lemma_download_reports(prefix);
        lemma_total_bytes_nonnegative(prefix);
        vstd::arithmetic::div_mod::lemma_div_is_ordered(
            total_bytes(prefix),
            total_bytes(chunks),
            BYTES_PER_MB as int,
        );
    }
}

/// A download's byte count is never negative.
proof fn lemma_total_bytes_nonnegative(chunks: Seq<u64>)
    ensures
        total_bytes(chunks) >= 0,
    decreases chunks.len(),
{
    if chunks.len() > 0 {
        lemma_total_bytes_nonnegative(chunks.drop_last());
    }
}

/// Counts downloaded bytes and reports each new whole mebibyte reached.
pub struct DownloadProgress {
    pub downloaded: u64,
    pub last_reported_mb: u64,
}

impl DownloadProgress {
    /// Nothing downloaded yet.
    pub fn new() -> (r: Self)
        ensures
            r.downloaded == 0,
            r.last_reported_mb == 0,
            progress_after(r, Seq::empty()),
    {
        DownloadProgress { downloaded: 0, last_reported_mb: 0 }
    }

    /// Adds a chunk of `n` bytes. Returns the mebibytes downloaded so far when
    /// that count passed the last reported one.
    pub fn record_chunk(&mut self, n: u64) -> (r: Option<u64>)
        requires
            old(self).downloaded + n <= u64::MAX,
        ensures
            records_chunk(*old(self), *final(self), n, r),
    {
        self.downloaded = self.downloaded + n;
        let current_mb = self.downloaded / BYTES_PER_MB;
        if current_mb > self.last_reported_mb {
            self.last_reported_mb = current_mb;
            Some(current_mb)
        } else {
            None
        }
    }
}

/// How an update archive is unpacked.
#[derive(Clone, Copy, Debug, PartialEq, Eq, Structural)]
pub enum ArchiveKind {
    TarGz,
    Zip,
}

/// The unpacking that an archive name calls for on an operating system:
/// gzip tarballs everywhere, zip archives on Windows only.
pub open spec fn archive_kind_spec(name: Seq<char>, os: TargetOs) -> Result<ArchiveKind, Seq<char>> {
    if has_suffix(name, ".tar.gz"@) || has_suffix(name, ".tgz"@) {
        Ok(ArchiveKind::TarGz)
    } else if has_suffix(name, ".zip"@) {
        if os == TargetOs::Windows {
            Ok(ArchiveKind::Zip)
        } else {
            Err("zip not supported on this platform"@)
        }
    } else {
        Err(name)
    }
}

/// How an archive is unpacked follows from the ending of its name: names
/// ending in `.tar.gz` or `.tgz` are gzip tarballs on every system, a zip
/// archive is accepted only on Windows, and a name with neither ending is
/// refused and reported by that name.
pub proof fn lemma_archive_kind_by_ending(name: Seq<char>, os: TargetOs, other_os: TargetOs)
    ensures
        has_suffix(name, ".tar.gz"@) || has_suffix(name, ".tgz"@) ==> archive_kind_spec(name, os)
            == Ok::<ArchiveKind, Seq<char>>(ArchiveKind::TarGz),
        archive_kind_spec(name, os) == Ok::<ArchiveKind, Seq<char>>(ArchiveKind::TarGz)
            ==> archive_kind_spec(name, other_os) == Ok::<ArchiveKind, Seq<char>>(ArchiveKind::TarGz),
        archive_kind_spec(name, os) == Ok::<ArchiveKind, Seq<char>>(ArchiveKind::Zip) ==> os
            == TargetOs::Windows && has_suffix(name, ".zip"@),
        archive_kind_spec(name, os) is Ok ==> has_suffix(name, ".tar.gz"@) || has_suffix(name, ".tgz"@)
            || has_suffix(name, ".zip"@),
        !has_suffix(name, ".tar.gz"@) && !has_suffix(name, ".tgz"@) && !has_suffix(name, ".zip"@)
            ==> archive_kind_spec(name, os) == Err::<ArchiveKind, Seq<char>>(name),
{
}

/// Chooses how to unpack an archive from its file name.
pub fn archive_kind_for(name: &str, os: TargetOs) -> (r: Result<ArchiveKind, UpdateError>)
    ensures
        match archive_kind_spec(name@, os) {
            Ok(k) => r == Ok::<ArchiveKind, UpdateError>(k),
            Err(what) => r matches Err(UpdateError::UnsupportedArchive(w)) && w@ == what,
        },
{
    let cs = chars_of(name);
    let targz = chars_of(".tar.gz");
    let tgz = chars_of(".tgz");
    let zip = chars_of(".zip");
    if ends_with(cs.as_slice(), targz.as_slice()) || ends_with(cs.as_slice(), tgz.as_slice()) {
        Ok(ArchiveKind::TarGz)
    } else if ends_with(cs.as_slice(), zip.as_slice()) {
        match os {
            TargetOs::Windows => Ok(ArchiveKind::Zip),
            _ => Err(UpdateError::UnsupportedArchive(owned("zip not supported on this platform"))),
        }
    } else {
        Err(UpdateError::UnsupportedArchive(owned(name)))
    }
}

/// The part of a URL after its last `/` (all of it when there is none).
pub open spec fn url_last_segment(url: Seq<char>) -> Seq<char> {
    match last_char_pos(url, '/') {
        Some(k) => url.subrange(k + 1int, url.len() as int),
        None => url,
    }
}

/// The file name an archive is saved under is the end of its URL after the
/// last `/`: the URL ends with it, and it holds no `/`.
pub proof fn lemma_archive_filename_is_last_segment(url: Seq<char>)
    ensures
        has_suffix(url, url_last_segment(url)),
        !url_last_segment(url).contains('/'),
        !url.contains('/') ==> url_last_segment(url) == url,
{
    lemma_last_char_pos(url, '/');
    let seg = url_last_segment(url);
    assert(url.subrange(url.len() - seg.len(), url.len() as int) =~= seg);
    if seg.contains('/') {
        let j = choose|j: int| 0 <= j < seg.len() && seg[j] == '/';
        assert(url[url.len() - seg.len() + j] == '/');
    }
    if !url.contains('/') {
        if last_char_pos(url, '/') is Some {
            let k = last_char_pos(url, '/').unwrap() as int;
            assert(url[k] == '/');
        }
    }
}

/// File name under which a downloaded archive is saved.
pub fn archive_filename_from_url(url: &str) -> (r: String)
    ensures
        r@ == url_last_segment(url@),
        has_suffix(url@, r@),
        !r@.contains('/'),
{
    proof {
        lemma_archive_filename_is_last_segment(url@);
    }
    let cs = chars_of(url);
    let n = cs.len();
    proof {
        lemma_last_char_pos_bound(cs@, '/');
    }
    match rfind_char(cs.as_slice(), '/') {
        Some(k) => {
            assert(k < n);
            string_from_chars(slice_subrange(cs.as_slice(), k + 1, n))
        },
        None => owned(url),
    }
}

/// The last position of a character lies within the string.
proof fn lemma_last_char_pos_bound(s: Seq<char>, c: char)
    ensures
        last_char_pos(s, c) matches Some(k) ==> k < s.len(),
    decreases s.len(),
{
    if s.len() > 0 && s.last() != c {
        lemma_last_char_pos_bound(s.drop_last(), c);
    }
}

/// File name of the application binary inside a release.
pub open spec fn binary_name_spec(os: TargetOs) -> Seq<char> {
    if os == TargetOs::Windows {
        "gitcomet.exe"@
    } else {
        "gitcomet"@
    }
}

/// File name of the application binary inside a release.
pub fn update_binary_name(os: TargetOs) -> (r: &'static str)
    ensures
        r@ == binary_name_spec(os),
{
    match os {
        TargetOs::Windows => "gitcomet.exe",
        _ => "gitcomet",
    }
}

/// One entry of a directory listing, as the binary search reads it.
#[derive(Clone, Debug, PartialEq, Eq)]
pub struct DirEntryInfo {
    pub name: Option<String>,
    pub is_file: bool,
    pub is_dir: bool,
}

/// The entry is a file named `binary_name`.
pub open spec fn is_binary_entry(e: DirEntryInfo, binary_name: Seq<char>) -> bool {
    e.is_file && (e.name matches Some(n) && n@ == binary_name)
}

/// A directory entry with its full path, as the binary search reads it.
#[derive(Clone, Debug, PartialEq, Eq)]
pub struct ListedEntry {
    pub path: String,
    pub info: DirEntryInfo,
}

/// The subdirectories of a listing, in listing order.
pub open spec fn subdirs_of(listing: Seq<ListedEntry>) -> Seq<Seq<char>>
    decreases listing.len(),
{
    if listing.len() == 0 {
        seq![]
    } else {
        let rest = subdirs_of(listing.drop_last());
        if listing.last().info.is_dir {
            rest.push(listing.last().path@)
        } else {
            rest
        }
    }
}

/// The directories still to read after reading the first of `pending` and
/// finding nothing in its `listing`: the others, then its subdirectories.
pub open spec fn search_step(pending: Seq<Seq<char>>, listing: Seq<ListedEntry>) -> Seq<Seq<char>> {
    pending.drop_first() + subdirs_of(listing)
}

/// The directories still to read in a search from `root`, after the first
/// `k` of `listings` were read and none held the binary.
pub open spec fn search_state(root: Seq<char>, listings: Seq<Seq<ListedEntry>>, k: int) -> Seq<Seq<char>>
    decreases k,
{
    if k <= 0 {
        seq![root]
    } else {
        search_step(search_state(root, listings, k - 1), listings[k - 1])
    }
}

/// How far below the root each directory of `search_state` lies: the root
/// at depth 0, a subdirectory one deeper than the directory listing it.
pub open spec fn search_depths(listings: Seq<Seq<ListedEntry>>, k: int) -> Seq<int>
    decreases k,
{
    if k <= 0 {
        seq![0int]
    } else {
        let d = search_depths(listings, k - 1);
        d.drop_first() + Seq::new(subdirs_of(listings[k - 1]).len(), |i: int| d[0] + 1)
    }
}

/// The directory read in step `k` of a search from `root`.
pub open spec fn visited_at(root: Seq<char>, listings: Seq<Seq<ListedEntry>>, k: int) -> Seq<char> {
    search_state(root, listings, k)[0]
}

/// How far below the root the directory read in step `k` lies.
pub open spec fn depth_at(listings: Seq<Seq<ListedEntry>>, k: int) -> int {
    search_depths(listings, k)[0]
}

/// Whether a search from `root` had a directory to read in each of its
/// first `k` steps.
pub open spec fn search_runs(root: Seq<char>, listings: Seq<Seq<ListedEntry>>, k: int) -> bool {
    forall|j: int| 0 <= j < k ==> (#[trigger] search_state(root, listings, j)).len() > 0
}

/// The position of a directory entry of a listing among its subdirectories.
proof fn lemma_subdir_at(listing: Seq<ListedEntry>, i: int) -> (t: int)
    requires
        0 <= i < listing.len(),
        listing[i].info.is_dir,
    ensures
        0 <= t < subdirs_of(listing).len(),
        subdirs_of(listing)[t] == listing[i].path@,
    decreases listing.len(),
{
    if i == listing.len() - 1 {
        subdirs_of(listing.drop_last()).len() as int
    } else {
        assert(listing.drop_last()[i] == listing[i]);
        lemma_subdir_at(listing.drop_last(), i)
    }
}

/// While a search runs, the directories waiting are as many as their
/// depths, the depths rise along the queue, and none is more than one
/// deeper than the first.
proof fn lemma_queue_shape(root: Seq<char>, listings: Seq<Seq<ListedEntry>>, k: int)
    requires
        0 <= k <= listings.len(),
        search_runs(root, listings, k),
    ensures
        search_state(root, listings, k).len() == search_depths(listings, k).len(),
        forall|a: int, b: int|
            0 <= a <= b < search_depths(listings, k).len() ==> search_depths(listings, k)[a]
                <= search_depths(listings, k)[b],
        forall|a: int|
            0 <= a < search_depths(listings, k).len() ==> #[trigger] search_depths(listings, k)[a]
                <= search_depths(listings, k)[0] + 1,
    decreases k,
{
    if k > 0 {
        lemma_queue_shape(root, listings, k - 1);
        assert(search_state(root, listings, k - 1).len() > 0);
        let d = search_depths(listings, k - 1);
        let d1 = search_depths(listings, k);
        let n = d.len() - 1;
        assert forall|a: int| 0 <= a < d1.len() implies d1[a] == (if a < n {
            d[a + 1]
        } else {
            d[0] + 1
        }) by {}
    }
}

/// A directory waiting at position `q` before step `k` waits at position
/// `q - (m - k)` before step `m`, with the same depth, while it has not yet
/// been read.
proof fn lemma_queue_shift(root: Seq<char>, listings: Seq<Seq<ListedEntry>>, k: int, m: int, q: int)
    requires
        0 <= k <= m <= listings.len(),
        search_runs(root, listings, m),
        m - k <= q < search_state(root, listings, k).len(),
    ensures
        q - (m - k) < search_state(root, listings, m).len(),
        search_state(root, listings, m)[q - (m - k)] == search_state(root, listings, k)[q],
        search_depths(listings, m)[q - (m - k)] == search_depths(listings, k)[q],
    decreases m - k,
{
    if m > k {
        lemma_queue_shift(root, listings, k, m - 1, q);
        lemma_queue_shape(root, listings, m - 1);
        assert(search_state(root, listings, m - 1).len() > 0);
    }
}

/// The depth of the directory read never falls from one step to a later one.
proof fn lemma_depth_rises(root: Seq<char>, listings: Seq<Seq<ListedEntry>>, j: int, k: int)
    requires
        0 <= j <= k < listings.len(),
        search_runs(root, listings, k + 1),
    ensures
        depth_at(listings, j) <= depth_at(listings, k),
    decreases k - j,
{
    if j < k {
        lemma_depth_rises(root, listings, j, k - 1);
        lemma_queue_shape(root, listings, k - 1);
        lemma_queue_shape(root, listings, k);
        assert(search_state(root, listings, k - 1).len() > 0);
        assert(search_state(root, listings, k).len() > 0);
        let d = search_depths(listings, k - 1);
        if d.len() > 1 {
            assert(search_depths(listings, k)[0] == d[1]);
        } else {
            assert(search_depths(listings, k)[0] == d[0] + 1);
        }
    }
}

/// Where the subdirectory at entry `i` of the listing read in step `j` waits
/// before step `j + 1`, and at what depth.
proof fn lemma_subdir_queued(root: Seq<char>, listings: Seq<Seq<ListedEntry>>, j: int, i: int) -> (p: int)
    requires
        0 <= j < listings.len(),
        search_runs(root, listings, j + 1),
        0 <= i < listings[j].len(),
        listings[j][i].info.is_dir,
    ensures
        0 <= p < search_state(root, listings, j + 1).len(),
        search_state(root, listings, j + 1)[p] == listings[j][i].path@,
        search_depths(listings, j + 1)[p] == depth_at(listings, j) + 1,
{
    lemma_queue_shape(root, listings, j);
    assert(search_state(root, listings, j).len() > 0);
    let t = lemma_subdir_at(listings[j], i);
    search_state(root, listings, j).len() - 1 + t
}

/// A search from `root` that read one directory per listing in `listings`
/// and then ran out of directories, none of them holding the binary: it
/// read `root` first, every subdirectory of a directory it read was read in
/// a later step, and no directory it read held a file named `binary_name`.
/// So every directory the listings lead to from `root` was read, and none
/// of them held the binary.
pub proof fn lemma_exhausted_search(root: Seq<char>, listings: Seq<Seq<ListedEntry>>, binary_name: Seq<char>)
    requires
        search_runs(root, listings, listings.len() as int),
        forall|k: int| 0 <= k < listings.len() ==> (#[trigger] first_binary_in(listings[k], binary_name)) is None,
        search_state(root, listings, listings.len() as int).len() == 0,
    ensures
        listings.len() > 0,
        visited_at(root, listings, 0) == root,
        forall|k: int, i: int|
            0 <= k < listings.len() && 0 <= i < listings[k].len() && (#[trigger] listings[k][i]).info.is_dir
                ==> exists|j: int|
                k < j < listings.len() && #[trigger] visited_at(root, listings, j) == listings[k][i].path@,
        forall|k: int, i: int|
            0 <= k < listings.len() && 0 <= i < listings[k].len() ==> !is_binary_entry(
                #[trigger] listings[k][i].info,
                binary_name,
            ),
{
    let n = listings.len() as int;
    assert(search_state(root, listings, 0) == seq![root]);
    assert forall|k: int, i: int|
        0 <= k < n && 0 <= i < listings[k].len() && (#[trigger] listings[k][i]).info.is_dir implies exists|j: int|
        k < j < n && #[trigger] visited_at(root, listings, j) == listings[k][i].path@ by {
        let p = lemma_subdir_queued(root, listings, k, i);
        if k + 1 + p < n {
            lemma_queue_shift(root, listings, k + 1, k + 1 + p, p);
            assert(visited_at(root, listings, k + 1 + p) == listings[k][i].path@);
        } else {
            lemma_queue_shift(root, listings, k + 1, n, p);
        }
    }
    assert forall|k: int, i: int|
        0 <= k < n && 0 <= i < listings[k].len() implies !is_binary_entry(
        #[trigger] listings[k][i].info,
        binary_name,
    ) by {
        assert(first_binary_in(listings[k], binary_name) is None);
    }
}

/// A search from `root` that reads in step `k` after finding nothing in the
/// first `k` listings: it read `root` first, at depth 0; the depth of the
/// directory read never fell up to step `k`; every subdirectory of a
/// directory read before step `k` that lies shallower than the one read in
/// step `k` was itself read before step `k`; and no directory read before
/// step `k` held a file named `binary_name`. So a binary found in step `k`
/// is a shallowest one: every directory shallower than the one read in step
/// `k` that the listings lead to was read before, and none held the binary.
pub proof fn lemma_search_finds_shallowest(
    root: Seq<char>,
    listings: Seq<Seq<ListedEntry>>,
    k: int,
    binary_name: Seq<char>,
)
    requires
        0 <= k < listings.len(),
        search_runs(root, listings, k + 1),
        forall|j: int| 0 <= j < k ==> (#[trigger] first_binary_in(listings[j], binary_name)) is None,
    ensures
        visited_at(root, listings, 0) == root,
        depth_at(listings, 0) == 0,
        forall|j: int| 0 <= j <= k ==> #[trigger] depth_at(listings, j) <= depth_at(listings, k),
        forall|j: int, i: int|
            0 <= j < k && 0 <= i < listings[j].len() && (#[trigger] listings[j][i]).info.is_dir
                && depth_at(listings, j) + 1 < depth_at(listings, k) ==> exists|jj: int|
                j < jj < k && #[trigger] visited_at(root, listings, jj) == listings[j][i].path@
                    && depth_at(listings, jj) == depth_at(listings, j) + 1,
        forall|j: int, i: int|
            0 <= j < k && 0 <= i < listings[j].len() ==> !is_binary_entry(
                #[trigger] listings[j][i].info,
                binary_name,
            ),
{
    assert(search_state(root, listings, 0) == seq![root]);
    assert(search_depths(listings, 0) == seq![0int]);
    assert forall|j: int| 0 <= j <= k implies #[trigger] depth_at(listings, j) <= depth_at(listings, k) by {
        lemma_depth_rises(root, listings, j, k);
    }
    assert forall|j: int, i: int|
        0 <= j < k && 0 <= i < listings[j].len() && (#[trigger] listings[j][i]).info.is_dir
            && depth_at(listings, j) + 1 < depth_at(listings, k) implies exists|jj: int|
        j < jj < k && #[trigger] visited_at(root, listings, jj) == listings[j][i].path@ && depth_at(
            listings,
            jj,
        ) == depth_at(listings, j) + 1 by {
        let p = lemma_subdir_queued(root, listings, j, i);
        if j + 1 + p < k {
            lemma_queue_shift(root, listings, j + 1, j + 1 + p, p);
            assert(visited_at(root, listings, j + 1 + p) == listings[j][i].path@);
        } else {
            lemma_queue_shift(root, listings, j + 1, k, p);
            lemma_queue_shape(root, listings, k);
            assert(search_depths(listings, k)[p - (k - j - 1)] == depth_at(listings, j) + 1);
        }
    }
    assert forall|j: int, i: int|
        0 <= j < k && 0 <= i < listings[j].len() implies !is_binary_entry(
        #[trigger] listings[j][i].info,
        binary_name,
    ) by {
        assert(first_binary_in(listings[j], binary_name) is None);
    }
}

/// The position of the first file named `binary_name` in a listing.
pub open spec fn first_binary_in(listing: Seq<ListedEntry>, binary_name: Seq<char>) -> Option<int> {
    if exists|i: int| 0 <= i < listing.len() && is_binary_entry(listing[i].info, binary_name) {
        Some(
            choose|i: int|
                0 <= i < listing.len() && is_binary_entry(listing[i].info, binary_name) && forall|j: int|
                    0 <= j < i ==> !is_binary_entry(listing[j].info, binary_name),
        )
    } else {
        None
    }
}

/// When some entry of a listing is a file named `binary_name`, there is a
/// first one.
proof fn lemma_first_binary_exists(listing: Seq<ListedEntry>, binary_name: Seq<char>, i0: int)
    requires
        0 <= i0 < listing.len(),
        is_binary_entry(listing[i0].info, binary_name),
    ensures
        exists|i: int|
            0 <= i < listing.len() && is_binary_entry(listing[i].info, binary_name) && forall|j: int|
                0 <= j < i ==> !is_binary_entry(listing[j].info, binary_name),
    decreases i0,
{
    if exists|j: int| 0 <= j < i0 && is_binary_entry(listing[j].info, binary_name) {
        let j = choose|j: int| 0 <= j < i0 && is_binary_entry(listing[j].info, binary_name);
        lemma_first_binary_exists(listing, binary_name, j);
    } else {
        assert(forall|j: int| 0 <= j < i0 ==> !is_binary_entry(listing[j].info, binary_name));
    }
}

/// What the search looks for in a listing is a file, never a directory or
/// anything else, whose name is exactly `binary_name`: the entry chosen is
/// the first such file, and when none is chosen the listing holds no such
/// file.
pub proof fn lemma_found_binary_is_a_named_file(listing: Seq<ListedEntry>, binary_name: Seq<char>)
    ensures
        match first_binary_in(listing, binary_name) {
            Some(i) => {
                &&& 0 <= i < listing.len()
                &&& listing[i].info.is_file
                &&& (listing[i].info.name matches Some(n) && n@ == binary_name)
                &&& forall|j: int|
                    0 <= j < i ==> !(listing[j].info.is_file && (listing[j].info.name matches Some(n)
                        && n@ == binary_name))
            },
            None => forall|j: int|
                0 <= j < listing.len() ==> !(listing[j].info.is_file && (listing[j].info.name matches Some(
                    n,
                ) && n@ == binary_name)),
        },
{
    if exists|i: int| 0 <= i < listing.len() && is_binary_entry(listing[i].info, binary_name) {
        let i0 = choose|i: int| 0 <= i < listing.len() && is_binary_entry(listing[i].info, binary_name);
        lemma_first_binary_exists(listing, binary_name, i0);
    }
}

/// A breadth-first search for the release binary in an unpacked archive,
/// driven by directory listings, that prefers shallower matches: the files
/// of a directory are checked before anything below it, and directories are
/// read level by level, each level in listing order (see
/// `lemma_search_finds_shallowest` and `lemma_exhausted_search`).
pub struct BinarySearch {
    /// Directories still to read; the next one is first.
    pub pending: Vec<String>,
}

impl BinarySearch {
    /// A search that starts at `root`.
    pub fn new(root: String) -> (r: Self)
        ensures
            r.pending@.map_values(|p: String| p@) == search_state(root@, seq![], 0),
    {
        let mut pending: Vec<String> = Vec::new();
        pending.push(root);
        proof {
            assert(pending@.map_values(|p: String| p@) =~= seq![root@]);
        }
        BinarySearch { pending }
    }

    /// The directory to read next, if any is left.
    pub fn next_dir(&self) -> (r: Option<&str>)
        ensures
            match r {
                Some(d) => self.pending@.len() > 0 && d@ == self.pending@[0]@,
                None => self.pending@.len() == 0,
            },
    {
        if self.pending.len() == 0 {
            None
        } else {
            Some(self.pending[0].as_str())
        }
    }

    /// Takes in the listing of the directory `next_dir` named (an unreadable
    /// directory lists nothing). Returns the path of its first file named
    /// `binary_name` when there is one; otherwise that directory is done and
    /// its subdirectories, in listing order, wait after the directories
    /// already waiting.
    pub fn visit(&mut self, listing: &[ListedEntry], binary_name: &str) -> (r: Option<String>)
        requires
            old(self).pending@.len() > 0,
        ensures
            match first_binary_in(listing@, binary_name@) {
                Some(i) => r matches Some(p) && p@ == listing@[i].path@,
                None => r is None,
            },
            r matches Some(p) ==> exists|i: int|
                0 <= i < listing@.len() && p@ == listing@[i].path@ && listing@[i].info.is_file
                    && (listing@[i].info.name matches Some(n) && n@ == binary_name@),
            r is None ==> forall|i: int|
                0 <= i < listing@.len() ==> !(listing@[i].info.is_file && (listing@[i].info.name matches Some(
                    n,
                ) && n@ == binary_name@)),
            r is None ==> final(self).pending@.map_values(|p: String| p@) == search_step(
                old(self).pending@.map_values(|p: String| p@),
                listing@,
            ),
    {
        let ghost old_pending = self.pending@;
        proof {
            lemma_found_binary_is_a_named_file(listing@, binary_name@);
        }
        let mut i: usize = 0;
        while i < listing.len()
            invariant
                i <= listing@.len(),
                forall|j: int| 0 <= j < i ==> !is_binary_entry(listing@[j].info, binary_name@),
            decreases listing.len() - i,
        {
            let e = &listing[i].info;
            if e.is_file {
                if let Some(n) = &e.name {
                    if str_eq(n.as_str(), binary_name) {
                        proof {
                            assert(is_binary_entry(listing@[i as int].info, binary_name@));
                            let k = choose|k: int|
                                0 <= k < listing@.len() && is_binary_entry(
                                    listing@[k].info,
                                    binary_name@,
                                ) && forall|j: int|
                                    0 <= j < k ==> !is_binary_entry(listing@[j].info, binary_name@);
                            if k < i {
                            } else if k > i {
                                assert(is_binary_entry(listing@[i as int].info, binary_name@));
                            }
                        }
                        return Some(listing[i].path.clone());
                    }
                }
            }
            i = i + 1;
        }
        self.pending.remove(0);
        let ghost base = self.pending@.map_values(|p: String| p@);
        proof {
            assert(base =~= old_pending.map_values(|p: String| p@).drop_first());
        }
        let mut k: usize = 0;
        while k < listing.len()
            invariant
                k <= listing@.len(),
                self.pending@.map_values(|p: String| p@) == base + subdirs_of(listing@.subrange(0, k as int)),
                base == old_pending.map_values(|p: String| p@).drop_first(),
            decreases listing.len() - k,
        {
            proof {
                let head = listing@.subrange(0, k + 1);
                assert(head.drop_last() =~= listing@.subrange(0, k as int));
                assert(head.last() == listing@[k as int]);
            }
            if listing[k].info.is_dir {
                let ghost prev = self.pending@;
                let path = listing[k].path.clone();
                self.pending.push(path);
                proof {
                    assert(self.pending@.map_values(|p: String| p@) =~= prev.map_values(
                        |p: String| p@,
                    ).push(path@));
                }
            }
            k = k + 1;
        }
        proof {
            assert(listing@.subrange(0, listing@.len() as int) =~= listing@);
            assert(forall|j: int| 0 <= j < listing@.len() ==> !is_binary_entry(listing@[j].info, binary_name@));
        }
        None
    }
}

/// One entry of the staging directory, as the search for an application
/// bundle reads it.
#[derive(Clone, Debug, PartialEq, Eq)]
pub struct BundleProbe {
    /// Whether the entry could be read at all.
    pub readable: bool,
    pub is_dir: bool,
    pub name: Option<String>,
    /// Whether the entry holds a `GitComet.app` directory.
    pub nested_bundle_is_dir: bool,
}

/// Where the application bundle was found.
#[derive(Clone, Copy, Debug, PartialEq, Eq, Structural)]
pub enum BundleLocation {
    /// Entry `i` is the bundle.
    Entry(usize),
    /// Entry `i` holds the bundle.
    InsideEntry(usize),
}

/// What entry `e` says about the bundle, if it is a directory.
pub open spec fn probe_match(e: BundleProbe, i: usize) -> Option<BundleLocation> {
    if !e.is_dir {
        None
    } else if e.name matches Some(n) && n@ == "GitComet.app"@ {
        Some(BundleLocation::Entry(i))
    } else if e.nested_bundle_is_dir {
        Some(BundleLocation::InsideEntry(i))
    } else {
        None
    }
}

/// The search over the entries from `i` on: the first directory that is the
/// bundle or holds one; an unreadable entry ends the search with nothing.
pub open spec fn bundle_search(entries: Seq<BundleProbe>, i: int) -> Option<BundleLocation>
    decreases entries.len() - i,
{
    if i < 0 || i >= entries.len() {
        None
    } else if !entries[i].readable {
        None
    } else {
        match probe_match(entries[i], i as usize) {
            Some(m) => Some(m),
            None => bundle_search(entries, i + 1),
        }
    }
}

/// Finds the `GitComet.app` bundle among the staging directory's entries:
/// the first directory that is named so or holds one. Reading stops, finding
/// nothing, at the first entry that cannot be read.
pub fn find_app_bundle_in_dir(entries: &[BundleProbe]) -> (r: Option<BundleLocation>)
    ensures
        r == bundle_search(entries@, 0),
{
    let mut i: usize = 0;
    while i < entries.len()
        invariant
            i <= entries@.len(),
            bundle_search(entries@, 0) == bundle_search(entries@, i as int),
        decreases entries.len() - i,
    {
        let e = &entries[i];
        if !e.readable {
            return None;
        }
        if e.is_dir {
            let named = match &e.name {
                Some(n) => str_eq(n.as_str(), "GitComet.app"),
                None => false,
            };
            if named {
                return Some(BundleLocation::Entry(i));
            }
            if e.nested_bundle_is_dir {
                return Some(BundleLocation::InsideEntry(i));
            }
        }
        i = i + 1;
    }
    None
}

/// Text of the toast while a download starts.
pub fn download_started_message(target_version: &str) -> (r: String)
    ensures
        r@ == "Downloading update v"@ + target_version@ + "..."@,
{
    let mut s = owned("Downloading update v");
    push_str(&mut s, target_version);
    push_str(&mut s, "...");
    s
}

/// Text of the toast while a download is under way.
pub fn download_progress_message(version: &str, mb_downloaded: u64) -> (r: String)
    ensures
        r@ == "Downloading update v"@ + version@ + "... "@ + decimal(mb_downloaded as nat) + " MB"@,
{
    let mut s = owned("Downloading update v");
    push_str(&mut s, version);
    push_str(&mut s, "... ");
    push_str(&mut s, u64_to_decimal(mb_downloaded).as_str());
    push_str(&mut s, " MB");
    s
}

/// Text of the toast while an archive is unpacked.
pub fn extracting_message(version: &str) -> (r: String)
    ensures
        r@ == "Extracting update v"@ + version@ + "..."@,
{
    let mut s = owned("Extracting update v");
    push_str(&mut s, version);
    push_str(&mut s, "...");
    s
}

/// The `User-Agent` sent when downloading an update.
pub fn download_user_agent(package_version: &str) -> (r: String)
    ensures
        r@ == "GitComet/"@ + package_version@,
{
    let mut s = owned("GitComet/");
    push_str(&mut s, package_version);
    s
}

} // verus!
