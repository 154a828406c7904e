//! Tools released on GitHub: which release asset serves which system.

use crate::text::{
    chars_contain, chars_end_with, chars_equal, chars_of, contains, ends_with, lowercase,
    push_str, split_on_any, split_on_any_chars, str_eq, string_from_chars, to_lowercase,
};
use crate::tool::download::{Cpu, DownloadDef, OperatingSystem, System};
use crate::tool::ToolType;
use vstd::prelude::*;

verus! {

/// How a release asset is packed.
#[derive(Debug, Clone, Copy, PartialEq, Eq, Structural)]
pub enum DownloadFileType {
    Executable,
    Targz,
    Tarxz,
    Gz,
    Zip,
}

/// How a tool is released on GitHub: its repository (`owner/name`), the
/// name of its executable, how its assets are packed, and how many leading
/// path components their entries lose.
#[derive(Debug)]
pub struct ReleaseDef {
    pub binary_name: Option<String>,
    pub github: String,
    pub download_type: DownloadFileType,
    pub strip_components: usize,
}

/// A release of a tool at a version.
#[derive(Debug)]
pub struct GitHubRelease {
    pub version: String,
    pub def: ReleaseDef,
}

/// A file attached to a GitHub release.
#[derive(Debug, Clone, PartialEq, Eq)]
pub struct GitHubReleaseAsset {
    pub name: String,
    pub content_type: String,
    pub browser_download_url: String,
}

/// The systems a release asset may serve.
#[derive(Debug, Clone, Copy, PartialEq, Eq, Structural)]
pub enum Platform {
    LinuxX86_64,
    LinuxAarch64,
    MacosX86_64,
    MacosAarch64,
    WindowsX86_64,
    WindowsAarch64,
}

/// Whether one of `pats` occurs in `s`.
pub open spec fn contains_any(s: Seq<char>, pats: Seq<Seq<char>>) -> bool {
    exists|i: int| 0 <= i < pats.len() && contains(s, #[trigger] pats[i])
}

/// Whether a file name names a 64-bit x86 build.
pub open spec fn x86_64_name(n: Seq<char>) -> bool {
    contains_any(lowercase(n), seq!["x86_64"@, "amd64"@, "x64"@, "64bit"@, "64-bit"@])
}

/// Whether a file name names an ARM build.
pub open spec fn aarch64_name(n: Seq<char>) -> bool {
    contains_any(
        lowercase(n),
        seq!["aarch64"@, "arm64"@, "armv8"@, "arm64e"@, "armv7"@, "armv6"@],
    )
}

/// Whether a file name names a 32-bit build: one of its parts between
/// `-`, `.` and `_` says so.
pub open spec fn bit32_name(n: Seq<char>) -> bool {
    let parts = split_on_any(lowercase(n), seq!['-', '.', '_']);
    exists|i: int|
        0 <= i < parts.len() && seq!["386"@, "i386"@, "32bit"@, "32-bit"@].contains(
            #[trigger] parts[i],
        )
}

/// Whether a file name names a Linux build.
pub open spec fn linux_name(n: Seq<char>) -> bool {
    contains(lowercase(n), "linux"@)
}

/// Whether a file name names a macOS build.
pub open spec fn macos_name(n: Seq<char>) -> bool {
    contains(lowercase(n), "macos"@) || contains(lowercase(n), "darwin"@)
}

/// The content types of Windows executables.
pub open spec fn windows_content_types() -> Seq<Seq<char>> {
    seq!["application/x-ms-dos-executable"@, "application/x-msdownload"@]
}

/// The content types of the assets that can be installed.
pub open spec fn allowed_content_types_spec() -> Seq<Seq<char>> {
    seq![
        "application/octet-stream"@,
        "application/gzip"@,
        "application/x-gtar"@,
        "application/x-xz"@,
        "application/zip"@,
    ] + windows_content_types()
}

/// Whether an asset is for Windows: by its name, its content type, or as
/// a zip archive that names neither macOS nor Linux.
pub open spec fn windows_asset(a: GitHubReleaseAsset) -> bool {
    contains(lowercase(a.name@), "windows"@) || windows_content_types().contains(a.content_type@)
        || (ends_with(a.name@, ".zip"@) && !macos_name(a.name@) && !linux_name(a.name@))
}

/// Whether an asset serves the systems of `p` (for macOS on ARM, only a
/// build that says so).
pub open spec fn asset_fits(a: GitHubReleaseAsset, p: Platform) -> bool {
    let n = a.name@;
    match p {
        Platform::LinuxX86_64 => x86_64_name(n) && linux_name(n),
        Platform::LinuxAarch64 => aarch64_name(n) && linux_name(n),
        Platform::MacosX86_64 => x86_64_name(n) && macos_name(n),
        Platform::MacosAarch64 => aarch64_name(n) && macos_name(n),
        Platform::WindowsX86_64 => !aarch64_name(n) && !bit32_name(n) && windows_asset(a),
        Platform::WindowsAarch64 => aarch64_name(n) && windows_asset(a),
    }
}

/// The index of the first asset of `cands` that serves `p`.
pub open spec fn first_fit(cands: Seq<GitHubReleaseAsset>, p: Platform) -> Option<int>
    decreases cands.len(),
{
    if cands.len() == 0 {
        None
    } else if asset_fits(cands[0], p) {
        Some(0)
    } else {
        match first_fit(cands.drop_first(), p) {
            Some(i) => Some(i + 1),
            None => None,
        }
    }
}

/// The asset chosen for `p`: the first that serves it; for macOS on ARM,
/// failing that, the one chosen for macOS on x86-64.
pub open spec fn chosen_asset(cands: Seq<GitHubReleaseAsset>, p: Platform) -> Option<int> {
    match p {
        Platform::MacosAarch64 => match first_fit(cands, p) {
            Some(i) => Some(i),
            None => first_fit(cands, Platform::MacosX86_64),
        },
        _ => first_fit(cands, p),
    }
}

/// The assets of `assets` whose content type can be installed, in order.
pub open spec fn candidates_of(assets: Seq<GitHubReleaseAsset>) -> Seq<GitHubReleaseAsset>
    decreases assets.len(),
{
    if assets.len() == 0 {
        seq![]
    } else {
        let rest = candidates_of(assets.drop_last());
        if allowed_content_types_spec().contains(assets.last().content_type@) {
            rest.push(assets.last())
        } else {
            rest
        }
    }
}

/// Whether a system is the download of `a` for `p`.
pub open spec fn system_for(s: System, a: GitHubReleaseAsset, p: Platform) -> bool {
    &&& s.url@ == a.browser_download_url@
    &&& s.cpu == match p {
        Platform::LinuxX86_64 | Platform::MacosX86_64 | Platform::WindowsX86_64 => Cpu::X86_64,
        _ => Cpu::Aarch64,
    }
    &&& s.os == match p {
        Platform::LinuxX86_64 | Platform::LinuxAarch64 => OperatingSystem::Linux,
        Platform::MacosX86_64 | Platform::MacosAarch64 => OperatingSystem::MacOS,
        _ => OperatingSystem::Windows,
    }
}

/// The platforms, in the order their systems are listed.
pub open spec fn platform_order() -> Seq<Platform> {
    seq![
        Platform::LinuxX86_64,
        Platform::LinuxAarch64,
        Platform::MacosX86_64,
        Platform::MacosAarch64,
        Platform::WindowsX86_64,
        Platform::WindowsAarch64,
    ]
}

/// The platforms among the first `n` of [`platform_order`] that have an
/// asset in `cands`.
pub open spec fn served_platforms(cands: Seq<GitHubReleaseAsset>, n: nat) -> Seq<Platform>
    decreases n,
{
    if n == 0 {
        seq![]
    } else {
        let rest = served_platforms(cands, (n - 1) as nat);
        let p = platform_order()[n - 1];
        if chosen_asset(cands, p) is Some {
            rest.push(p)
        } else {
            rest
        }
    }
}

/// The abstract value of an asset: its name, content type and URL.
pub open spec fn asset_view(a: GitHubReleaseAsset) -> (Seq<char>, Seq<char>, Seq<char>) {
    (a.name@, a.content_type@, a.browser_download_url@)
}

fn copy_asset(a: &GitHubReleaseAsset) -> (r: GitHubReleaseAsset)
    ensures
        asset_view(r) == asset_view(*a),
{
    GitHubReleaseAsset {
        name: a.name.clone(),
        content_type: a.content_type.clone(),
        browser_download_url: a.browser_download_url.clone(),
    }
}

fn contains_str(hay: &[char], needle: &str) -> (r: bool)
    ensures
        r == contains(hay@, needle@),
{
    let n = chars_of(needle);
    chars_contain(hay, n.as_slice())
}

impl GitHubRelease {
    /// A release of the tool at `version`.
    pub fn new(version: String, def: ReleaseDef) -> (r: Self)
        ensures
            r.version == version,
            r.def == def,
    {
        GitHubRelease { version, def }
    }

    /// Whether `filename` names a 64-bit x86 build.
    pub fn is_x86_64(&self, filename: &str) -> (r: bool)
        ensures
            r == x86_64_name(filename@),
            r == (contains(lowercase(filename@), "x86_64"@) || contains(lowercase(filename@), "amd64"@)
                || contains(lowercase(filename@), "x64"@) || contains(lowercase(filename@), "64bit"@)
                || contains(lowercase(filename@), "64-bit"@)),
    {
        let l = chars_of(to_lowercase(filename).as_str());
        let r = contains_str(l.as_slice(), "x86_64") || contains_str(l.as_slice(), "amd64")
            || contains_str(l.as_slice(), "x64") || contains_str(l.as_slice(), "64bit")
            || contains_str(l.as_slice(), "64-bit");
        proof {
            let pats = seq!["x86_64"@, "amd64"@, "x64"@, "64bit"@, "64-bit"@];
            if r {
                if contains(l@, "x86_64"@) {
                    assert(contains(l@, pats[0]));
                } else if contains(l@, "amd64"@) {
                    assert(contains(l@, pats[1]));
                } else if contains(l@, "x64"@) {
                    assert(contains(l@, pats[2]));
                } else if contains(l@, "64bit"@) {
                    assert(contains(l@, pats[3]));
                } else {
                    assert(contains(l@, pats[4]));
                }
            }
        }
        proof {
            law_x86_64_markers(filename@);
        }
        r
    }

    /// Whether `filename` names an ARM build.
    pub fn is_aarch64(&self, filename: &str) -> (r: bool)
        ensures
            r == aarch64_name(filename@),
            r == (contains(lowercase(filename@), "aarch64"@) || contains(lowercase(filename@), "arm64"@)
                || contains(lowercase(filename@), "armv8"@) || contains(lowercase(filename@), "arm64e"@)
                || contains(lowercase(filename@), "armv7"@) || contains(lowercase(filename@), "armv6"@)),
    {
        let l = chars_of(to_lowercase(filename).as_str());
        let r = contains_str(l.as_slice(), "aarch64") || contains_str(l.as_slice(), "arm64")
            || contains_str(l.as_slice(), "armv8") || contains_str(l.as_slice(), "arm64e")
            || contains_str(l.as_slice(), "armv7") || contains_str(l.as_slice(), "armv6");
        proof {
            let pats = seq!["aarch64"@, "arm64"@, "armv8"@, "arm64e"@, "armv7"@, "armv6"@];
            if r {
                if contains(l@, "aarch64"@) {
                    assert(contains(l@, pats[0]));
                } else if contains(l@, "arm64"@) {
                    assert(contains(l@, pats[1]));
                } else if contains(l@, "armv8"@) {
                    assert(contains(l@, pats[2]));
                } else if contains(l@, "arm64e"@) {
                    assert(contains(l@, pats[3]));
                } else if contains(l@, "armv7"@) {
                    assert(contains(l@, pats[4]));
                } else {
                    assert(contains(l@, pats[5]));
                }
            }
        }
        proof {
            law_aarch64_markers(filename@);
        }
        r
    }

    /// Whether `filename` names a 32-bit build.
    pub fn is_32bit(&self, filename: &str) -> (r: bool)
        ensures
            r == bit32_name(filename@),
    {
        let l = chars_of(to_lowercase(filename).as_str());
        let seps = vec!['-', '.', '_'];
        assert(seps@ == seq!['-', '.', '_']);
        let parts = split_on_any_chars(l.as_slice(), seps.as_slice());
        let ghost ps = split_on_any(l@, seq!['-', '.', '_']);
        let ghost names = seq!["386"@, "i386"@, "32bit"@, "32-bit"@];
        let a = chars_of("386");
        let b = chars_of("i386");
        let c = chars_of("32bit");
        let d = chars_of("32-bit");
        let mut i: usize = 0;
        while i < parts.len()
            invariant
                i <= parts@.len(),
                parts@.len() == ps.len(),
                ps == split_on_any(lowercase(filename@), seq!['-', '.', '_']),
                forall|k: int| 0 <= k < parts@.len() ==> #[trigger] parts@[k]@ == ps[k],
                names == seq!["386"@, "i386"@, "32bit"@, "32-bit"@],
                a@ == "386"@,
                b@ == "i386"@,
                c@ == "32bit"@,
                d@ == "32-bit"@,
                forall|k: int| 0 <= k < i ==> !names.contains(#[trigger] ps[k]),
            decreases parts@.len() - i,
        {
            let p = parts[i].as_slice();
            if chars_equal(p, a.as_slice()) || chars_equal(p, b.as_slice()) || chars_equal(
                p,
                c.as_slice(),
            ) || chars_equal(p, d.as_slice()) {
                proof {
                    if ps[i as int] == names[0] {
                        assert(names.contains(ps[i as int]));
                    } else if ps[i as int] == names[1] {
                        assert(names.contains(ps[i as int]));
                    } else if ps[i as int] == names[2] {
                        assert(names.contains(ps[i as int]));
                    } else {
                        assert(ps[i as int] == names[3]);
                        assert(names.contains(ps[i as int]));
                    }
                    assert(bit32_name(filename@));
                }
                return true;
            }
            proof {
                if names.contains(ps[i as int]) {
                    let j = choose|j: int| 0 <= j < names.len() && names[j] == ps[i as int];
                    assert(j == 0 || j == 1 || j == 2 || j == 3);
                }
            }
            i = i + 1;
        }
        false
    }

    /// Whether `filename` names a Linux build.
    pub fn is_linux(&self, filename: &str) -> (r: bool)
        ensures
            r == linux_name(filename@),
    {
        let l = chars_of(to_lowercase(filename).as_str());
        contains_str(l.as_slice(), "linux")
    }

    /// Whether `filename` names a macOS build.
    pub fn is_macos(&self, filename: &str) -> (r: bool)
        ensures
            r == macos_name(filename@),
    {
        let l = chars_of(to_lowercase(filename).as_str());
        contains_str(l.as_slice(), "macos") || contains_str(l.as_slice(), "darwin")
    }

    /// Whether an asset is for Windows.
    pub fn is_windows(&self, candidate: &GitHubReleaseAsset) -> (r: bool)
        ensures
            r == windows_asset(*candidate),
    {
        let l = chars_of(to_lowercase(candidate.name.as_str()).as_str());
        if contains_str(l.as_slice(), "windows") {
            return true;
        }
        let ct = candidate.content_type.as_str();
        if str_eq(ct, "application/x-ms-dos-executable") || str_eq(ct, "application/x-msdownload") {
            proof {
                let w = windows_content_types();
                if ct@ == "application/x-ms-dos-executable"@ {
                    assert(w[0] == ct@);
                } else {
                    assert(w[1] == ct@);
                }
            }
            return true;
        }
        proof {
            let w = windows_content_types();
            if w.contains(ct@) {
                let j = choose|j: int| 0 <= j < w.len() && w[j] == ct@;
                assert(j == 0 || j == 1);
            }
        }
        let n = chars_of(candidate.name.as_str());
        let zip = chars_of(".zip");
        chars_end_with(n.as_slice(), zip.as_slice()) && !self.is_macos(candidate.name.as_str())
            && !self.is_linux(candidate.name.as_str())
    }

    /// Whether an asset's content type is one that can be installed.
    fn is_allowed_content_type(&self, content_type: &str) -> (r: bool)
        ensures
            r == allowed_content_types_spec().contains(content_type@),
    {
        let all = self.allowed_content_types();
        let mut i: usize = 0;
        while i < all.len()
            invariant
                i <= all@.len(),
                all@.len() == allowed_content_types_spec().len(),
                forall|k: int| 0 <= k < all@.len() ==> #[trigger] all@[k]@ == allowed_content_types_spec()[k],
                forall|k: int| 0 <= k < i ==> allowed_content_types_spec()[k] != content_type@,
            decreases all@.len() - i,
        {
            if str_eq(all[i].as_str(), content_type) {
                return true;
            }
            i = i + 1;
        }
        false
    }

    /// The content types of the assets that can be installed.
    pub fn allowed_content_types(&self) -> (r: Vec<String>)
        ensures
            r@.len() == allowed_content_types_spec().len(),
            forall|k: int| 0 <= k < r@.len() ==> #[trigger] r@[k]@ == allowed_content_types_spec()[k],
    {
        let mut r: Vec<String> = Vec::new();
        r.push("application/octet-stream".to_string());
        r.push("application/gzip".to_string());
        r.push("application/x-gtar".to_string());
        r.push("application/x-xz".to_string());
        r.push("application/zip".to_string());
        let w = self.allowed_content_types_windows();
        r.push(w[0].clone());
        r.push(w[1].clone());
        r
    }

    /// The content types of Windows executables.
    pub fn allowed_content_types_windows(&self) -> (r: Vec<String>)
        ensures
            r@.len() == windows_content_types().len(),
            forall|k: int| 0 <= k < r@.len() ==> #[trigger] r@[k]@ == windows_content_types()[k],
    {
        let mut r: Vec<String> = Vec::new();
        r.push("application/x-ms-dos-executable".to_string());
        r.push("application/x-msdownload".to_string());
        r
    }

    /// Whether `a` serves the systems of `p`.
    pub fn fits(&self, a: &GitHubReleaseAsset, p: Platform) -> (r: bool)
        ensures
            r == asset_fits(*a, p),
    {
        let n = a.name.as_str();
        match p {
            Platform::LinuxX86_64 => self.is_x86_64(n) && self.is_linux(n),
            Platform::LinuxAarch64 => self.is_aarch64(n) && self.is_linux(n),
            Platform::MacosX86_64 => self.is_x86_64(n) && self.is_macos(n),
            Platform::MacosAarch64 => self.is_aarch64(n) && self.is_macos(n),
            Platform::WindowsX86_64 => !self.is_aarch64(n) && !self.is_32bit(n) && self.is_windows(a),
            Platform::WindowsAarch64 => self.is_aarch64(n) && self.is_windows(a),
        }
    }

    /// The index of the first candidate that serves `p`.
    fn find_fit(&self, candidates: &[GitHubReleaseAsset], p: Platform) -> (r: Option<usize>)
        ensures
            match r {
                Some(i) => i < candidates@.len() && first_fit(candidates@, p) == Some(i as int),
                None => first_fit(candidates@, p) is None,
            },
    {
        let mut i: usize = 0;
        assert(candidates@.skip(0) == candidates@);
        while i < candidates.len()
            invariant
                i <= candidates@.len(),
                forall|k: int| 0 <= k < i ==> !asset_fits(#[trigger] candidates@[k], p),
            decreases candidates@.len() - i,
        {
            if self.fits(&candidates[i], p) {
                proof {
                    lemma_first_fit_at(candidates@, p, i as int);
                }
                return Some(i);
            }
            i = i + 1;
        }
        proof {
            lemma_first_fit_none(candidates@, p);
        }
        None
    }

    /// The asset chosen for `p` among `candidates`.
    pub fn asset_for(&self, candidates: &[GitHubReleaseAsset], p: Platform) -> (r: Option<GitHubReleaseAsset>)
        ensures
            match r {
                Some(a) => chosen_asset(candidates@, p) matches Some(i) && 0 <= i < candidates@.len()
                    && asset_view(a) == asset_view(candidates@[i]),
                None => chosen_asset(candidates@, p) is None,
            },
    {
        let found = match p {
            Platform::MacosAarch64 => match self.find_fit(candidates, p) {
                Some(i) => Some(i),
                None => self.find_fit(candidates, Platform::MacosX86_64),
            },
            _ => self.find_fit(candidates, p),
        };
        match found {
            Some(i) => Some(copy_asset(&candidates[i])),
            None => None,
        }
    }

    /// The asset for Linux on x86-64.
    pub fn linux_x86_64_asset(&self, candidates: &[GitHubReleaseAsset]) -> (r: Option<GitHubReleaseAsset>)
        ensures
            match r {
                Some(a) => chosen_asset(candidates@, Platform::LinuxX86_64) matches Some(i) && 0 <= i < candidates@.len()
                    && asset_view(a) == asset_view(candidates@[i]),
                None => chosen_asset(candidates@, Platform::LinuxX86_64) is None,
            },
    {
        self.asset_for(candidates, Platform::LinuxX86_64)
    }

    /// The asset for Linux on ARM.
    pub fn linux_aarch64_asset(&self, candidates: &[GitHubReleaseAsset]) -> (r: Option<GitHubReleaseAsset>)
        ensures
            match r {
                Some(a) => chosen_asset(candidates@, Platform::LinuxAarch64) matches Some(i) && 0 <= i < candidates@.len()
                    && asset_view(a) == asset_view(candidates@[i]),
                None => chosen_asset(candidates@, Platform::LinuxAarch64) is None,
            },
    {
        self.asset_for(candidates, Platform::LinuxAarch64)
    }

    /// The asset for macOS on x86-64.
    pub fn macos_x86_64_asset(&self, candidates: &[GitHubReleaseAsset]) -> (r: Option<GitHubReleaseAsset>)
        ensures
            match r {
                Some(a) => chosen_asset(candidates@, Platform::MacosX86_64) matches Some(i) && 0 <= i < candidates@.len()
                    && asset_view(a) == asset_view(candidates@[i]),
                None => chosen_asset(candidates@, Platform::MacosX86_64) is None,
            },
    {
        self.asset_for(candidates, Platform::MacosX86_64)
    }

    /// The asset for macOS on ARM: an ARM build, or failing that the x86-64
    /// one.
    pub fn macos_aarch64_asset(&self, candidates: &[GitHubReleaseAsset]) -> (r: Option<GitHubReleaseAsset>)
        ensures
            match r {
                Some(a) => chosen_asset(candidates@, Platform::MacosAarch64) matches Some(i) && 0 <= i < candidates@.len()
                    && asset_view(a) == asset_view(candidates@[i]),
                None => chosen_asset(candidates@, Platform::MacosAarch64) is None,
            },
    {
        self.asset_for(candidates, Platform::MacosAarch64)
    }

    /// The asset for Windows on x86-64.
    pub fn windows_x86_64_asset(&self, candidates: &[GitHubReleaseAsset]) -> (r: Option<GitHubReleaseAsset>)
        ensures
            match r {
                Some(a) => chosen_asset(candidates@, Platform::WindowsX86_64) matches Some(i) && 0 <= i < candidates@.len()
                    && asset_view(a) == asset_view(candidates@[i]),
                None => chosen_asset(candidates@, Platform::WindowsX86_64) is None,
            },
    {
        self.asset_for(candidates, Platform::WindowsX86_64)
    }

    /// The asset for Windows on ARM.
    pub fn windows_aarch64_asset(&self, candidates: &[GitHubReleaseAsset]) -> (r: Option<GitHubReleaseAsset>)
        ensures
            match r {
                Some(a) => chosen_asset(candidates@, Platform::WindowsAarch64) matches Some(i) && 0 <= i < candidates@.len()
                    && asset_view(a) == asset_view(candidates@[i]),
                None => chosen_asset(candidates@, Platform::WindowsAarch64) is None,
            },
    {
        self.asset_for(candidates, Platform::WindowsAarch64)
    }

    /// The assets whose content type can be installed, in order.
    pub fn candidate_assets(&self, assets: &[GitHubReleaseAsset]) -> (r: Vec<GitHubReleaseAsset>)
        ensures
            r@.len() == candidates_of(assets@).len(),
            forall|k: int| 0 <= k < r@.len() ==> asset_view(#[trigger] r@[k]) == asset_view(candidates_of(assets@)[k]),
    {
        let mut r: Vec<GitHubReleaseAsset> = Vec::new();
        let mut i: usize = 0;
        while i < assets.len()
            invariant
                i <= assets@.len(),
                r@.len() == candidates_of(assets@.take(i as int)).len(),
                forall|k: int| 0 <= k < r@.len() ==> asset_view(#[trigger] r@[k]) == asset_view(candidates_of(assets@.take(i as int))[k]),
            decreases assets@.len() - i,
        {
            assert(assets@.take(i + 1).drop_last() == assets@.take(i as int));
            assert(assets@.take(i + 1).last() == assets@[i as int]);
            if self.is_allowed_content_type(assets[i].content_type.as_str()) {
                r.push(copy_asset(&assets[i]));
            }
            i = i + 1;
        }
        assert(assets@.take(i as int) == assets@);
        r
    }
}

proof fn lemma_first_fit_at(c: Seq<GitHubReleaseAsset>, p: Platform, i: int)
    requires
        0 <= i < c.len(),
        asset_fits(c[i], p),
        forall|k: int| 0 <= k < i ==> !asset_fits(#[trigger] c[k], p),
    ensures
        first_fit(c, p) == Some(i),
    decreases i,
{
    if i > 0 {
        assert forall|k: int| 0 <= k < i - 1 implies !asset_fits(#[trigger] c.drop_first()[k], p) by {
            assert(c.drop_first()[k] == c[k + 1]);
        }
        lemma_first_fit_at(c.drop_first(), p, i - 1);
    }
}

proof fn lemma_first_fit_none(c: Seq<GitHubReleaseAsset>, p: Platform)
    requires
        forall|k: int| 0 <= k < c.len() ==> !asset_fits(#[trigger] c[k], p),
    ensures
        first_fit(c, p) is None,
    decreases c.len(),
{
    if c.len() > 0 {
        assert forall|k: int| 0 <= k < c.len() - 1 implies !asset_fits(#[trigger] c.drop_first()[k], p) by {
            assert(c.drop_first()[k] == c[k + 1]);
        }
        lemma_first_fit_none(c.drop_first(), p);
    }
}

/// Whether `s` is the download chosen among `cands` for `p`.
pub open spec fn system_matches(s: System, cands: Seq<GitHubReleaseAsset>, p: Platform) -> bool {
    match chosen_asset(cands, p) {
        Some(i) => 0 <= i < cands.len() && system_for(s, cands[i], p),
        None => false,
    }
}

/// Whether `systems` are the downloads chosen among `cands` for the
/// platforms `ps`, in order.
pub open spec fn systems_match(systems: Seq<System>, cands: Seq<GitHubReleaseAsset>, ps: Seq<Platform>) -> bool {
    systems.len() == ps.len() && forall|k: int|
        0 <= k < systems.len() ==> #[trigger] system_matches(systems[k], cands, ps[k])
}

proof fn lemma_first_fit_views(c1: Seq<GitHubReleaseAsset>, c2: Seq<GitHubReleaseAsset>, p: Platform)
    requires
        c1.len() == c2.len(),
        forall|k: int| 0 <= k < c1.len() ==> asset_view(#[trigger] c1[k]) == asset_view(c2[k]),
    ensures
        first_fit(c1, p) == first_fit(c2, p),
    decreases c1.len(),
{
    if c1.len() > 0 {
        assert(asset_view(c1[0]) == asset_view(c2[0]));
        assert forall|k: int| 0 <= k < c1.len() - 1 implies asset_view(#[trigger] c1.drop_first()[k])
            == asset_view(c2.drop_first()[k]) by {
            assert(c1.drop_first()[k] == c1[k + 1]);
            assert(c2.drop_first()[k] == c2[k + 1]);
        }
        lemma_first_fit_views(c1.drop_first(), c2.drop_first(), p);
    }
}

impl GitHubRelease {
    /// The download of each platform that has an asset among the installable
    /// assets `assets`: Linux, then macOS, then Windows, each on x86-64 then
    /// ARM.
    pub fn systems(&self, assets: &[GitHubReleaseAsset]) -> (r: Vec<System>)
        ensures
            systems_match(r@, candidates_of(assets@), served_platforms(candidates_of(assets@), 6)),
    {
        let candidates = self.candidate_assets(assets);
        let ghost cands = candidates_of(assets@);
        proof {
            lemma_first_fit_views(candidates@, cands, Platform::LinuxX86_64);
            lemma_first_fit_views(candidates@, cands, Platform::LinuxAarch64);
            lemma_first_fit_views(candidates@, cands, Platform::MacosX86_64);
            lemma_first_fit_views(candidates@, cands, Platform::MacosAarch64);
            lemma_first_fit_views(candidates@, cands, Platform::WindowsX86_64);
            lemma_first_fit_views(candidates@, cands, Platform::WindowsAarch64);
        }
        let order = [
            Platform::LinuxX86_64,
            Platform::LinuxAarch64,
            Platform::MacosX86_64,
            Platform::MacosAarch64,
            Platform::WindowsX86_64,
            Platform::WindowsAarch64,
        ];
        assert(order@ == platform_order());
        let mut systems: Vec<System> = Vec::new();
        let mut n: usize = 0;
        while n < 6
            invariant
                n <= 6,
                order@ == platform_order(),
                cands == candidates_of(assets@),
                candidates@.len() == cands.len(),
                forall|k: int| 0 <= k < candidates@.len() ==> asset_view(#[trigger] candidates@[k]) == asset_view(cands[k]),
                forall|p: Platform| #[trigger] first_fit(candidates@, p) == first_fit(cands, p),
                systems_match(systems@, cands, served_platforms(cands, n as nat)),
            decreases 6 - n,
        {
            let p = order[n];
            let ghost before = served_platforms(cands, n as nat);
            match self.asset_for(candidates.as_slice(), p) {
                Some(a) => {
                    let cpu = match p {
                        Platform::LinuxX86_64 | Platform::MacosX86_64 | Platform::WindowsX86_64 => Cpu::X86_64,
                        _ => Cpu::Aarch64,
                    };
                    let os = match p {
                        Platform::LinuxX86_64 | Platform::LinuxAarch64 => OperatingSystem::Linux,
                        Platform::MacosX86_64 | Platform::MacosAarch64 => OperatingSystem::MacOS,
                        _ => OperatingSystem::Windows,
                    };
                    let ghost old_systems = systems@;
                    let sys = System { url: a.browser_download_url, cpu, os };
                    proof {
                        assert(chosen_asset(candidates@, p) == chosen_asset(cands, p));
                        assert(p == platform_order()[n as int]);
                        assert(served_platforms(cands, (n + 1) as nat) == before.push(p));
                        let i = chosen_asset(cands, p)->0;
                        assert(asset_view(candidates@[i]) == asset_view(cands[i]));
                        assert(system_for(sys, cands[i], p));
                    }
                    systems.push(sys);
                    proof {
                        let now = served_platforms(cands, (n + 1) as nat);
                        assert forall|k: int| 0 <= k < systems@.len() implies #[trigger] system_matches(systems@[k], cands, now[k]) by {
                            if k < old_systems.len() {
                                assert(systems@[k] == old_systems[k]);
                                assert(now[k] == before[k]);
                                assert(system_matches(old_systems[k], cands, before[k]));
                            } else {
                                assert(systems@[k] == sys);
                                assert(now[k] == p);
                            }
                        }
                    }
                },
                None => {
                    proof {
                        assert(chosen_asset(candidates@, p) == chosen_asset(cands, p));
                        assert(p == platform_order()[n as int]);
                        assert(served_platforms(cands, (n + 1) as nat) == before);
                        let now = served_platforms(cands, (n + 1) as nat);
                        assert forall|k: int| 0 <= k < systems@.len() implies #[trigger] system_matches(systems@[k], cands, now[k]) by {
                            assert(now[k] == before[k]);
                            assert(system_matches(systems@[k], cands, before[k]));
                        }
                    }
                },
            }
            n = n + 1;
        }
        systems
    }

    /// What to download the release from: its executable's name, the
    /// components to strip, and the downloads of [`GitHubRelease::systems`].
    pub fn download(&self, assets: &[GitHubReleaseAsset]) -> (r: DownloadDef)
        ensures
            match (r.binary_name, self.def.binary_name) {
                (Some(a), Some(b)) => a@ == b@,
                (None, None) => true,
                _ => false,
            },
            r.strip_components == self.def.strip_components,
            systems_match(r.systems@, candidates_of(assets@), served_platforms(candidates_of(assets@), 6)),
    {
        let systems = self.systems(assets);
        let binary_name = match &self.def.binary_name {
            Some(b) => Some(b.clone()),
            None => None,
        };
        DownloadDef { binary_name, strip_components: self.def.strip_components, systems }
    }

    /// The API addresses of the release's assets: by the tag `v` and the
    /// version, then by the version alone.
    pub fn tag_urls(&self) -> (r: (String, String))
        ensures
            r.0@ == "https://api.github.com/repos/"@ + self.def.github@ + "/releases/tags/v"@
                + self.version@,
            r.1@ == "https://api.github.com/repos/"@ + self.def.github@ + "/releases/tags/"@
                + self.version@,
    {
        let mut a = chars_of("https://api.github.com/repos/");
        push_str(&mut a, self.def.github.as_str());
        push_str(&mut a, "/releases/tags/v");
        push_str(&mut a, self.version.as_str());
        let mut b = chars_of("https://api.github.com/repos/");
        push_str(&mut b, self.def.github.as_str());
        push_str(&mut b, "/releases/tags/");
        push_str(&mut b, self.version.as_str());
        (string_from_chars(a.as_slice()), string_from_chars(b.as_slice()))
    }
}

/// A file name names a 64-bit x86 build exactly when its lower-case form
/// holds one of `x86_64`, `amd64`, `x64`, `64bit` or `64-bit`.
pub proof fn law_x86_64_markers(n: Seq<char>)
    ensures
        x86_64_name(n) <==> (contains(lowercase(n), "x86_64"@) || contains(lowercase(n), "amd64"@)
            || contains(lowercase(n), "x64"@) || contains(lowercase(n), "64bit"@) || contains(
            lowercase(n),
            "64-bit"@,
        )),
{
    let l = lowercase(n);
    let pats = seq!["x86_64"@, "amd64"@, "x64"@, "64bit"@, "64-bit"@];
    assert(pats[0] == "x86_64"@ && pats[1] == "amd64"@ && pats[2] == "x64"@ && pats[3] == "64bit"@
        && pats[4] == "64-bit"@);
    if x86_64_name(n) {
        let i = choose|i: int| 0 <= i < pats.len() && contains(l, #[trigger] pats[i]);
        assert(i == 0 || i == 1 || i == 2 || i == 3 || i == 4);
    }
    if contains(l, "x86_64"@) {
        assert(contains(l, pats[0]));
    }
    if contains(l, "amd64"@) {
        assert(contains(l, pats[1]));
    }
    if contains(l, "x64"@) {
        assert(contains(l, pats[2]));
    }
    if contains(l, "64bit"@) {
        assert(contains(l, pats[3]));
    }
    if contains(l, "64-bit"@) {
        assert(contains(l, pats[4]));
    }
}

/// A file name names an ARM build exactly when its lower-case form holds
/// one of `aarch64`, `arm64`, `armv8`, `arm64e`, `armv7` or `armv6`.
pub proof fn law_aarch64_markers(n: Seq<char>)
    ensures
        aarch64_name(n) <==> (contains(lowercase(n), "aarch64"@) || contains(lowercase(n), "arm64"@)
            || contains(lowercase(n), "armv8"@) || contains(lowercase(n), "arm64e"@) || contains(
            lowercase(n),
            "armv7"@,
        ) || contains(lowercase(n), "armv6"@)),
{
    let l = lowercase(n);
    let pats = seq!["aarch64"@, "arm64"@, "armv8"@, "arm64e"@, "armv7"@, "armv6"@];
    assert(pats[0] == "aarch64"@ && pats[1] == "arm64"@ && pats[2] == "armv8"@ && pats[3]
        == "arm64e"@ && pats[4] == "armv7"@ && pats[5] == "armv6"@);
    if aarch64_name(n) {
        let i = choose|i: int| 0 <= i < pats.len() && contains(l, #[trigger] pats[i]);
        assert(i == 0 || i == 1 || i == 2 || i == 3 || i == 4 || i == 5);
    }
    if contains(l, "aarch64"@) {
        assert(contains(l, pats[0]));
    }
    if contains(l, "arm64"@) {
        assert(contains(l, pats[1]));
    }
    if contains(l, "armv8"@) {
        assert(contains(l, pats[2]));
    }
    if contains(l, "arm64e"@) {
        assert(contains(l, pats[3]));
    }
    if contains(l, "armv7"@) {
        assert(contains(l, pats[4]));
    }
    if contains(l, "armv6"@) {
        assert(contains(l, pats[5]));
    }
}

/// An asset whose lower-case name holds `linux` and an x86-64 marker such
/// as `x64` serves Linux on x86-64; one whose name holds `macos` or
/// `darwin` and such a marker serves macOS on x86-64.
pub proof fn law_x86_64_assets_serve_their_system(a: GitHubReleaseAsset)
    ensures
        (contains(lowercase(a.name@), "linux"@) && (contains(lowercase(a.name@), "x86_64"@)
            || contains(lowercase(a.name@), "amd64"@) || contains(lowercase(a.name@), "x64"@)
            || contains(lowercase(a.name@), "64bit"@) || contains(lowercase(a.name@), "64-bit"@)))
            ==> asset_fits(a, Platform::LinuxX86_64),
        ((contains(lowercase(a.name@), "macos"@) || contains(lowercase(a.name@), "darwin"@)) && (
        contains(lowercase(a.name@), "x86_64"@) || contains(lowercase(a.name@), "amd64"@)
            || contains(lowercase(a.name@), "x64"@) || contains(lowercase(a.name@), "64bit"@)
            || contains(lowercase(a.name@), "64-bit"@))) ==> asset_fits(a, Platform::MacosX86_64),
{
    law_x86_64_markers(a.name@);
}

} // verus!
