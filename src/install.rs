//! Decisions of the tool auto-installer: what to download for which tool,
//! which release asset to take, when to report download progress, how to
//! judge an extraction, and where the extracted binary lies.

use vstd::prelude::*;
use crate::text::{chars_of, contains, occurs_at, occurs_at_exec, str_eq};

verus! {

/// Why an installation could not go on.
#[derive(Debug, Clone)]
pub enum InstallError {
    /// Auto-install is offered on Windows only.
    UnsupportedPlatform,
    /// The tool is not one that can be installed automatically.
    UnsupportedDependency(String),
    /// The release index lists no assets.
    NoAssets,
    /// No asset of the release fits this machine.
    NoCompatibleAsset,
    /// The archive could not be extracted; holds the first tool's error output.
    ExtractionFailed(String),
}

/// Where the artifact of a tool comes from.
#[derive(Debug, Clone)]
pub enum InstallSource {
    /// The latest release at this index; an archive asset is chosen from it.
    ReleaseIndex { api_url: String },
    /// An archive at a fixed address.
    Archive { url: String },
    /// The binary itself at a fixed address.
    Binary { url: String },
}

/// What to download for a tool, under which name to report it, and the file
/// name of the binary to place in the install directory.
#[derive(Debug, Clone)]
pub struct InstallPlan {
    pub display_name: String,
    pub source: InstallSource,
    pub target_bin: String,
}

pub open spec fn mpv_index_url() -> Seq<char> {
    "https://api.github.com/repos/mpv-player/mpv/releases/latest"@
}

pub open spec fn ffmpeg_url() -> Seq<char> {
    "https://www.gyan.dev/ffmpeg/builds/ffmpeg-release-essentials.zip"@
}

pub open spec fn ytdlp_url() -> Seq<char> {
    "https://github.com/yt-dlp/yt-dlp/releases/latest/download/yt-dlp.exe"@
}

/// The plan for installing tool `name` on `platform`. Off Windows this fails
/// with `UnsupportedPlatform` whatever the tool; an unknown tool fails with
/// `UnsupportedDependency`. Nothing is fetched before a plan exists.
pub fn auto_install_dependency(platform: &str, name: &str) -> (r: Result<InstallPlan, InstallError>)
    ensures
        platform@ != "windows"@ ==> r matches Err(InstallError::UnsupportedPlatform),
        platform@ == "windows"@ ==> {
            if name@ == "mpv"@ {
                r is Ok && r->Ok_0.display_name@ == "MPV Player"@ && r->Ok_0.target_bin@
                    == "mpv.exe"@ && r->Ok_0.source is ReleaseIndex
                    && r->Ok_0.source->api_url@ == mpv_index_url()
            } else if name@ == "ffmpeg"@ {
                r is Ok && r->Ok_0.display_name@ == "FFmpeg"@ && r->Ok_0.target_bin@
                    == "ffmpeg.exe"@ && r->Ok_0.source is Archive && r->Ok_0.source->Archive_url@
                    == ffmpeg_url()
            } else if name@ == "yt-dlp"@ {
                r is Ok && r->Ok_0.display_name@ == "yt-dlp"@ && r->Ok_0.target_bin@
                    == "yt-dlp.exe"@ && r->Ok_0.source is Binary && r->Ok_0.source->Binary_url@
                    == ytdlp_url()
            } else {
                r is Err && r->Err_0 is UnsupportedDependency && r->Err_0->UnsupportedDependency_0@
                    == name@
            }
        },
{
    if !str_eq(platform, "windows") {
        return Err(InstallError::UnsupportedPlatform);
    }
    if str_eq(name, "mpv") {
        Ok(
            InstallPlan {
                display_name: String::from_str("MPV Player"),
                source: InstallSource::ReleaseIndex {
                    api_url: String::from_str("https://api.github.com/repos/mpv-player/mpv/releases/latest"),
                },
                target_bin: String::from_str("mpv.exe"),
            },
        )
    } else if str_eq(name, "ffmpeg") {
        Ok(
            InstallPlan {
                display_name: String::from_str("FFmpeg"),
                source: InstallSource::Archive {
                    url: String::from_str("https://www.gyan.dev/ffmpeg/builds/ffmpeg-release-essentials.zip"),
                },
                target_bin: String::from_str("ffmpeg.exe"),
            },
        )
    } else if str_eq(name, "yt-dlp") {
        Ok(
            InstallPlan {
                display_name: String::from_str("yt-dlp"),
                source: InstallSource::Binary {
                    url: String::from_str("https://github.com/yt-dlp/yt-dlp/releases/latest/download/yt-dlp.exe"),
                },
                target_bin: String::from_str("yt-dlp.exe"),
            },
        )
    } else {
        Err(InstallError::UnsupportedDependency(String::from_str(name)))
    }
}

/// One downloadable file of a release, with the fields that are strings in
/// the release index.
#[derive(Debug, Clone)]
pub struct ReleaseAsset {
    pub name: Option<String>,
    pub browser_download_url: Option<String>,
}

/// The asset name marks a 64-bit x86 MinGW zip archive.
pub open spec fn fits_machine(name: Seq<char>) -> bool {
    contains(name, "x86_64"@) && contains(name, "mingw32"@) && name.len() >= 4 && name.subrange(
        name.len() - 4,
        name.len() as int,
    ) == ".zip"@
}

/// Asset `a` is taken: its name fits the machine and it has a download address.
pub open spec fn usable(a: ReleaseAsset) -> bool {
    match (a.name, a.browser_download_url) {
        (Some(n), Some(_)) => fits_machine(n@),
        _ => false,
    }
}

/// Index of the first usable asset of `s` at or after `i`.
pub open spec fn first_usable(s: Seq<ReleaseAsset>, i: int) -> Option<int>
    decreases s.len() - i,
{
    if i < 0 || i >= s.len() {
        None
    } else if usable(s[i]) {
        Some(i)
    } else {
        first_usable(s, i + 1)
    }
}

fn contains_exec(s: &Vec<char>, pat: &str) -> (r: bool)
    ensures
        r == contains(s@, pat@),
{
    let pv = chars_of(pat);
    let n = s.len();
    let mut i: usize = 0;
    while i < n
        invariant
            n == s@.len(),
            i <= n,
            pv@ == pat@,
            forall|k: int| 0 <= k < i ==> !occurs_at(s@, pat@, k),
        decreases n - i,
    {
        if occurs_at_exec(s, &pv, i) {
            return true;
        }
        i = i + 1;
    }
    occurs_at_exec(s, &pv, n)
}

fn fits_machine_exec(name: &str) -> (r: bool)
    ensures
        r == fits_machine(name@),
{
    let v = chars_of(name);
    let n = v.len();
    let zip = chars_of(".zip");
    proof {
        reveal_strlit(".zip");
    }
    contains_exec(&v, "x86_64") && contains_exec(&v, "mingw32") && n >= 4 && occurs_at_exec(
        &v,
        &zip,
        n - 4,
    )
}

/// The download address of the first asset whose name fits the machine;
/// `NoAssets` where the index listed no assets, `NoCompatibleAsset` where none fits.
pub fn select_asset(assets: Option<Vec<ReleaseAsset>>) -> (r: Result<String, InstallError>)
    ensures
        match assets {
            None => r matches Err(InstallError::NoAssets),
            Some(a) => match first_usable(a@, 0) {
                Some(i) => r == Ok::<String, InstallError>(a@[i].browser_download_url.unwrap()),
                None => r matches Err(InstallError::NoCompatibleAsset),
            },
        },
{
    let a = match assets {
        None => return Err(InstallError::NoAssets),
        Some(a) => a,
    };
    let mut i: usize = 0;
    while i < a.len()
        invariant
            assets == Some(a),
            i <= a@.len(),
            first_usable(a@, 0) == first_usable(a@, i as int),
        decreases a@.len() - i,
    {
        match (&a[i].name, &a[i].browser_download_url) {
            (Some(n), Some(u)) => {
                if fits_machine_exec(n.as_str()) {
                    return Ok(u.clone());
                }
            },
            _ => {},
        }
        i = i + 1;
    }
    Err(InstallError::NoCompatibleAsset)
}

} // verus!

verus! {

/// Download progress: the announced size (0 when unknown), the bytes received
/// so far, and the last percentage reported.
#[derive(Debug, Clone, Copy)]
pub struct DownloadProgress {
    pub total: u64,
    pub downloaded: u64,
    pub last_emit: u32,
}

/// The whole percentage of `total` that `downloaded` makes, at most 100.
pub open spec fn percent(downloaded: u64, total: u64) -> int {
    if total == 0 {
        0
    } else if downloaded as int * 100 / total as int > 100 {
        100
    } else {
        downloaded as int * 100 / total as int
    }
}

/// The byte count after a chunk of `len` bytes, saturating at the largest `u64`.
pub open spec fn add_bytes(downloaded: u64, len: u64) -> u64 {
    if downloaded as int + len as int > u64::MAX as int {
        u64::MAX
    } else {
        (downloaded + len) as u64
    }
}

/// The percentage reported after a chunk of `len` bytes: only with a known
/// size, and only when it exceeds the last one reported.
pub open spec fn emitted(p: DownloadProgress, len: u64) -> Option<u32> {
    let d = add_bytes(p.downloaded, len);
    if p.total != 0 && percent(d, p.total) > p.last_emit {
        Some(percent(d, p.total) as u32)
    } else {
        None
    }
}

/// The progress after a chunk of `len` bytes.
pub open spec fn advanced(p: DownloadProgress, len: u64) -> DownloadProgress {
    DownloadProgress {
        total: p.total,
        downloaded: add_bytes(p.downloaded, len),
        last_emit: match emitted(p, len) {
            Some(x) => x,
            None => p.last_emit,
        },
    }
}

/// The percentages reported over a run of chunks of the given sizes.
pub open spec fn emissions(p: DownloadProgress, chunks: Seq<u64>) -> Seq<u32>
    decreases chunks.len(),
{
    if chunks.len() == 0 {
        Seq::empty()
    } else {
        let rest = emissions(advanced(p, chunks[0]), chunks.skip(1));
        match emitted(p, chunks[0]) {
            Some(x) => seq![x] + rest,
            None => rest,
        }
    }
}

impl DownloadProgress {
    pub open spec fn wf(&self) -> bool {
        self.last_emit <= 100 && (self.total == 0 ==> self.last_emit == 0)
    }

    /// A download of `content_length` bytes, or of unknown size, with nothing received.
    pub fn new(content_length: Option<u64>) -> (r: DownloadProgress)
        ensures
            r.total == match content_length {
                Some(t) => t,
                None => 0,
            },
            r.downloaded == 0,
            r.last_emit == 0,
            r.wf(),
    {
        let total = match content_length {
            Some(t) => t,
            None => 0,
        };
        DownloadProgress { total, downloaded: 0, last_emit: 0 }
    }

    /// Account for a received chunk of `len` bytes; the percentage to report,
    /// if any.
    pub fn record_chunk(&mut self, len: u64) -> (r: Option<u32>)
        requires
            old(self).wf(),
        ensures
            r == emitted(*old(self), len),
            *final(self) == advanced(*old(self), len),
            final(self).wf(),
            (r is Some && final(self).downloaded <= final(self).total) ==> r->Some_0 as int
                == final(self).downloaded as int * 100 / final(self).total as int,
    {
        let d: u64 = if self.downloaded > u64::MAX - len {
            u64::MAX
        } else {
            self.downloaded + len
        };
        self.downloaded = d;
        if self.total == 0 {
            return None;
        }
        proof {
            assert(d as int * 100 <= u64::MAX as int * 100) by (nonlinear_arith)
                requires d as int <= u64::MAX as int;
        }
        let q: u128 = (d as u128) * 100 / (self.total as u128);
        proof {
            let t = self.total as int;
            if d as int <= t {
                assert(d as int * 100 / t <= 100) by (nonlinear_arith)
                    requires d as int <= t, t > 0, d as int >= 0;
            }
        }
        let pct: u32 = if q > 100 {
            100
        } else {
            q as u32
        };
        if pct > self.last_emit {
            self.last_emit = pct;
            Some(pct)
        } else {
            None
        }
    }
}

/// Over any run of chunks, the reported percentages rise strictly, stay
/// within 0..=100 and above the last one reported before; with an unknown
/// size none is reported.
pub proof fn lemma_emissions_rise(p: DownloadProgress, chunks: Seq<u64>)
    requires
        p.wf(),
    ensures
        forall|i: int|
            0 <= i < emissions(p, chunks).len() ==> p.last_emit < #[trigger] emissions(p, chunks)[i]
                <= 100,
        forall|i: int, j: int|
            0 <= i < j < emissions(p, chunks).len() ==> emissions(p, chunks)[i] < emissions(
                p,
                chunks,
            )[j],
        p.total == 0 ==> emissions(p, chunks).len() == 0,
    decreases chunks.len(),
{
    if chunks.len() > 0 {
        let q = advanced(p, chunks[0]);
        lemma_emissions_rise(q, chunks.skip(1));
        let rest = emissions(q, chunks.skip(1));
        match emitted(p, chunks[0]) {
            Some(x) => {
                let e = seq![x] + rest;
                assert(emissions(p, chunks) == e);
                assert forall|i: int| 0 <= i < e.len() implies p.last_emit < #[trigger] e[i] <= 100 by {
                    if i > 0 {
                        assert(e[i] == rest[i - 1]);
                    }
                }
                assert forall|i: int, j: int| 0 <= i < j < e.len() implies e[i] < e[j] by {
                    assert(e[j] == rest[j - 1]);
                    if i > 0 {
                        assert(e[i] == rest[i - 1]);
                    }
                }
            },
            None => {},
        }
    }
}

/// How the archive extraction went: the general archive tool's success, and
/// the shell fallback's where it was run.
pub fn extraction_outcome(tar_ok: bool, fallback_ok: Option<bool>, tar_stderr: &str) -> (r: Result<(), InstallError>)
    ensures
        (tar_ok || fallback_ok == Some(true)) ==> r is Ok,
        !(tar_ok || fallback_ok == Some(true)) ==> (r is Err && r->Err_0 is ExtractionFailed
            && r->Err_0->ExtractionFailed_0@ == tar_stderr@),
{
    if tar_ok {
        return Ok(());
    }
    match fallback_ok {
        Some(true) => Ok(()),
        _ => Err(InstallError::ExtractionFailed(String::from_str(tar_stderr))),
    }
}

/// A directory entry as listed in the install directory.
#[derive(Debug, Clone)]
pub struct FileEntry {
    pub path: String,
    pub file_name: String,
    pub is_file: bool,
}

/// A top-level entry of the install directory, with the entries inside it
/// when it is a directory.
#[derive(Debug, Clone)]
pub struct TopEntry {
    pub entry: FileEntry,
    pub is_dir: bool,
    pub children: Vec<FileEntry>,
}

pub open spec fn is_target(e: FileEntry, target: Seq<char>) -> bool {
    e.is_file && e.file_name@ == target
}

/// Index of the first entry of `s` at or after `i` that is the target file.
pub open spec fn first_target(s: Seq<FileEntry>, target: Seq<char>, i: int) -> Option<int>
    decreases s.len() - i,
{
    if i < 0 || i >= s.len() {
        None
    } else if is_target(s[i], target) {
        Some(i)
    } else {
        first_target(s, target, i + 1)
    }
}

/// The path of the target binary in the listing from top-level entry `i` on:
/// a top-level file wins over the files of a directory at the same place,
/// and entries are taken in listing order.
pub open spec fn find_in(s: Seq<TopEntry>, target: Seq<char>, i: int) -> Option<Seq<char>>
    decreases s.len() - i,
{
    if i < 0 || i >= s.len() {
        None
    } else if is_target(s[i].entry, target) {
        Some(s[i].entry.path@)
    } else if s[i].is_dir && first_target(s[i].children@, target, 0) is Some {
        Some(s[i].children@[first_target(s[i].children@, target, 0)->Some_0].path@)
    } else {
        find_in(s, target, i + 1)
    }
}

fn find_child(s: &Vec<FileEntry>, target: &str) -> (r: Option<usize>)
    ensures
        match r {
            Some(j) => first_target(s@, target@, 0) == Some(j as int) && j < s@.len(),
            None => first_target(s@, target@, 0) is None,
        },
{
    let mut j: usize = 0;
    while j < s.len()
        invariant
            j <= s@.len(),
            first_target(s@, target@, 0) == first_target(s@, target@, j as int),
        decreases s@.len() - j,
    {
        if s[j].is_file && str_eq(s[j].file_name.as_str(), target) {
            return Some(j);
        }
        j = j + 1;
    }
    None
}

/// The path of the binary named `target` in the install directory's listing,
/// looking one level into subdirectories.
pub fn find_binary(entries: &Vec<TopEntry>, target: &str) -> (r: Option<String>)
    ensures
        match r {
            Some(p) => find_in(entries@, target@, 0) == Some(p@),
            None => find_in(entries@, target@, 0) is None,
        },
{
    let mut i: usize = 0;
    while i < entries.len()
        invariant
            i <= entries@.len(),
            find_in(entries@, target@, 0) == find_in(entries@, target@, i as int),
        decreases entries@.len() - i,
    {
        let e = &entries[i];
        if e.entry.is_file && str_eq(e.entry.file_name.as_str(), target) {
            return Some(e.entry.path.clone());
        }
        if e.is_dir {
            match find_child(&e.children, target) {
                Some(j) => {
                    return Some(e.children[j].path.clone());
                },
                None => {},
            }
        }
        i = i + 1;
    }
    None
}

/// The found binary's path when it must still be moved to `dest`: it was
/// found, and not already at `dest`.
pub fn binary_to_move(found: Option<String>, dest: &str) -> (r: Option<String>)
    ensures
        match found {
            Some(p) => if p@ == dest@ {
                r is None
            } else {
                r == Some(p)
            },
            None => r is None,
        },
{
    match found {
        Some(p) => if str_eq(p.as_str(), dest) {
            None
        } else {
            Some(p)
        },
        None => None,
    }
}

} // verus!
