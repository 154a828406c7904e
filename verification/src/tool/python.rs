use crate::pattern::texts;
use crate::text::{chars_of, join_path, joined_path, push_str, string_from_chars, subrange_chars};
use crate::tool::download::{Cpu, DownloadDef, OperatingSystem, System};
use crate::tool::{opt_view, PluginDef, ToolType};
use vstd::prelude::*;

verus! {

/// The Python runtime of a given version.
#[derive(Debug, Clone)]
pub struct Python {
    pub version: String,
}

/// The build of the standalone Python distribution a version comes from.
#[derive(Debug, Clone, Copy)]
pub struct PythonRelease {
    pub tag: &'static str,
    pub windows_suffix: &'static str,
}

/// The value of the decimal digits `s` (all of them ASCII digits).
pub open spec fn digits_value(s: Seq<char>) -> nat
    decreases s.len(),
{
    if s.len() == 0 {
        0
    } else {
        digits_value(s.drop_last()) * 10 + ((s.last() as u32) - ('0' as u32)) as nat
    }
}

/// Whether every character of `s` is an ASCII digit.
pub open spec fn all_digits(s: Seq<char>) -> bool {
    forall|i: int| 0 <= i < s.len() ==> '0' <= #[trigger] s[i] <= '9'
}

/// What `str::parse::<u32>` gives for `s`: an optional `+` followed by at
/// least one ASCII digit, the value fitting in 32 bits.
pub open spec fn parse_u32(s: Seq<char>) -> Option<u32> {
    let d = if s.len() > 0 && s[0] == '+' {
        s.drop_first()
    } else {
        s
    };
    if d.len() > 0 && all_digits(d) && digits_value(d) <= u32::MAX {
        Some(digits_value(d) as u32)
    } else {
        None
    }
}

/// The index of the first `.` in `s` at or after `i`, if there is one.
pub open spec fn first_dot_from(s: Seq<char>, i: int) -> Option<int>
    decreases s.len() - i,
{
    if i < 0 || i >= s.len() {
        None
    } else if s[i] == '.' {
        Some(i)
    } else {
        first_dot_from(s, i + 1)
    }
}

/// The index of the first `.` in `s`, if there is one.
pub open spec fn first_dot(s: Seq<char>) -> Option<int> {
    first_dot_from(s, 0)
}

/// The fields of `s` split at dots into at most three, the last holding the
/// rest: `str::splitn(3, '.')`.
pub open spec fn dot_fields(s: Seq<char>) -> Seq<Seq<char>> {
    match first_dot(s) {
        None => seq![s],
        Some(i) => {
            let rest = s.skip(i + 1);
            match first_dot(rest) {
                None => seq![s.take(i), rest],
                Some(k) => seq![s.take(i), rest.take(k), rest.skip(k + 1)],
            }
        },
    }
}

/// The longest prefix of `s` made of ASCII digits.
pub open spec fn leading_digits(s: Seq<char>) -> Seq<char>
    decreases s.len(),
{
    if s.len() > 0 && '0' <= s[0] <= '9' {
        seq![s[0]] + leading_digits(s.drop_first())
    } else {
        seq![]
    }
}

/// The major, minor and patch numbers of a version: each field parsed, the
/// patch from its leading digits, and zero for what is missing or invalid.
pub open spec fn version_triple(v: Seq<char>) -> (u32, u32, u32) {
    let f = dot_fields(v);
    let major = match parse_u32(f[0]) {
        Some(n) => n,
        None => 0,
    };
    let minor = if f.len() > 1 {
        match parse_u32(f[1]) {
            Some(n) => n,
            None => 0,
        }
    } else {
        0
    };
    let patch = if f.len() > 2 {
        match parse_u32(leading_digits(f[2])) {
            Some(n) => n,
            None => 0,
        }
    } else {
        0
    };
    (major, minor, patch)
}

/// Whether a version is one of those built in the older standalone release.
pub open spec fn is_old_release(t: (u32, u32, u32)) -> bool {
    t == (3u32, 8u32, 18u32) || t == (3u32, 9u32, 18u32) || t == (3u32, 10u32, 13u32) || t == (
        3u32,
        11u32,
        7u32,
    ) || t == (3u32, 12u32, 1u32)
}

proof fn lemma_digits_value_bound(s: Seq<char>)
    requires
        all_digits(s),
    ensures
        digits_value(s) < pow10(s.len()),
    decreases s.len(),
{
    if s.len() > 0 {
        lemma_digits_value_bound(s.drop_last());
    }
}

/// Ten to the power `n`.
pub open spec fn pow10(n: nat) -> nat
    decreases n,
{
    if n == 0 {
        1
    } else {
        10 * pow10((n - 1) as nat)
    }
}

/// Parses `s` as `str::parse::<u32>` does.
pub fn parse_u32_chars(s: &[char]) -> (r: Option<u32>)
    ensures
        r == parse_u32(s@),
{
    let start: usize = if s.len() > 0 && s[0] == '+' {
        1
    } else {
        0
    };
    let ghost d = if s@.len() > 0 && s@[0] == '+' {
        s@.drop_first()
    } else {
        s@
    };
    assert(d == s@.skip(start as int));
    assert(!all_digits(d) ==> parse_u32(s@) is None);
    if start >= s.len() {
        return None;
    }
    let mut value: u64 = 0;
    let mut i: usize = start;
    while i < s.len()
        invariant
            start <= i <= s@.len(),
            d == s@.skip(start as int),
            d == (if s@.len() > 0 && s@[0] == '+' {
                s@.drop_first()
            } else {
                s@
            }),
            d.len() > 0,
            all_digits(d.take(i - start)),
            value == digits_value(d.take(i - start)),
            value <= u32::MAX,
        decreases s@.len() - i,
    {
        let c = s[i];
        if !('0' <= c && c <= '9') {
            assert(d[i - start] == c);
            assert(!all_digits(d));
            assert(parse_u32(s@) is None);
            return None;
        }
        assert(d.take(i - start + 1).drop_last() == d.take(i - start));
        let digit = (c as u32 - '0' as u32) as u64;
        let next = value * 10 + digit;
        if next > u32::MAX as u64 {
            proof {
                assert(all_digits(d.take(i - start + 1)));
                assert(digits_value(d.take(i - start + 1)) == next);
                lemma_digits_prefix_le(d, i - start + 1);
                if all_digits(d) {
                    assert(digits_value(d) > u32::MAX);
                }
                assert(parse_u32(s@) is None);
            }
            return None;
        }
        value = next;
        i = i + 1;
    }
    assert(d.take(i - start) == d);
    Some(value as u32)
}

/// The value of a digit string is at least that of each of its prefixes.
proof fn lemma_digits_prefix_le(d: Seq<char>, k: int)
    requires
        0 <= k <= d.len(),
        all_digits(d.take(k)),
    ensures
        all_digits(d) ==> digits_value(d.take(k)) <= digits_value(d),
    decreases d.len() - k,
{
    if k < d.len() && all_digits(d) {
        assert(d.take(k + 1).drop_last() == d.take(k));
        lemma_digits_prefix_le(d, k + 1);
    } else if k == d.len() {
        assert(d.take(k) == d);
    }
}

/// The index of the first `.` in `s`, if there is one.
fn find_dot(s: &[char]) -> (r: Option<usize>)
    ensures
        match r {
            Some(i) => first_dot(s@) == Some(i as int) && i < s@.len(),
            None => first_dot(s@) is None,
        },
{
    let mut i: usize = 0;
    while i < s.len()
        invariant
            i <= s@.len(),
            first_dot(s@) == first_dot_from(s@, i as int),
        decreases s@.len() - i,
    {
        if s[i] == '.' {
            return Some(i);
        }
        i = i + 1;
    }
    None
}

fn leading_digits_of(s: &[char]) -> (r: Vec<char>)
    ensures
        r@ == leading_digits(s@),
{
    let mut i: usize = 0;
    assert(s@.take(0) == Seq::<char>::empty());
    assert(s@.skip(0) == s@);
    while i < s.len() && '0' <= s[i] && s[i] <= '9'
        invariant
            i <= s@.len(),
            leading_digits(s@) == s@.take(i as int) + leading_digits(s@.skip(i as int)),
        decreases s@.len() - i,
    {
        assert(s@.skip(i as int).drop_first() == s@.skip(i + 1));
        assert(s@.take(i + 1) == s@.take(i as int) + seq![s@[i as int]]);
        i = i + 1;
    }
    subrange_chars(s, 0, i)
}

/// The fields of `v` split at dots into at most three.
#[verifier::rlimit(30)]
fn dot_fields_of(v: &[char]) -> (f: Vec<Vec<char>>)
    ensures
        f@.map_values(|x: Vec<char>| x@) == dot_fields(v@),
{
    let mut f: Vec<Vec<char>> = Vec::new();
    match find_dot(v) {
        None => {
            f.push(subrange_chars(v, 0, v.len()));
            assert(v@.subrange(0, v@.len() as int) == v@);
        },
        Some(i) => {
            f.push(subrange_chars(v, 0, i));
            assert(i < v.len());
            let rest = subrange_chars(v, i + 1, v.len());
            assert(rest@ == v@.skip(i + 1));
            match find_dot(rest.as_slice()) {
                None => {
                    f.push(rest);
                },
                Some(k) => {
                    let a = subrange_chars(rest.as_slice(), 0, k);
                    let b = subrange_chars(rest.as_slice(), k + 1, rest.len());
                    assert(b@ == rest@.skip(k + 1));
                    assert(a@ == rest@.take(k as int));
                    f.push(a);
                    f.push(b);
                },
            }
        },
    }
    assert(f@.map_values(|x: Vec<char>| x@) =~= dot_fields(v@));
    f
}

/// The number a version field stands for, zero when it is not one.
fn field_number(x: &[char]) -> (n: u32)
    ensures
        n == match parse_u32(x@) {
            Some(m) => m,
            None => 0,
        },
{
    match parse_u32_chars(x) {
        Some(n) => n,
        None => 0,
    }
}

/// The major, minor and patch numbers of a version.
pub fn version_numbers(version: &str) -> (t: (u32, u32, u32))
    ensures
        t == version_triple(version@),
{
    let v = chars_of(version);
    let f = dot_fields_of(v.as_slice());
    let ghost fs = dot_fields(v@);
    assert(f@.len() == fs.len());
    assert(f@[0]@ == fs[0]);
    let major = field_number(f[0].as_slice());
    let minor = if f.len() > 1 {
        assert(f@[1]@ == fs[1]);
        field_number(f[1].as_slice())
    } else {
        0
    };
    let patch = if f.len() > 2 {
        assert(f@[2]@ == fs[2]);
        let d = leading_digits_of(f[2].as_slice());
        field_number(d.as_slice())
    } else {
        0
    };
    (major, minor, patch)
}

impl Python {
    /// The standalone build this version comes from: the older build for
    /// the versions released in it, the newer build for every other.
    pub fn release(&self) -> (r: PythonRelease)
        ensures
            is_old_release(version_triple(self.version@)) ==> r.tag@ == "20240107"@
                && r.windows_suffix@ == "msvc-shared-install_only"@,
            !is_old_release(version_triple(self.version@)) ==> r.tag@ == "20260211"@
                && r.windows_suffix@ == "msvc-install_only"@,
    {
        let (major, minor, patch) = version_numbers(self.version.as_str());
        if (major == 3 && minor == 8 && patch == 18) || (major == 3 && minor == 9 && patch == 18)
            || (major == 3 && minor == 10 && patch == 13) || (major == 3 && minor == 11 && patch
            == 7) || (major == 3 && minor == 12 && patch == 1) {
            PythonRelease { tag: "20240107", windows_suffix: "msvc-shared-install_only" }
        } else {
            PythonRelease { tag: "20260211", windows_suffix: "msvc-install_only" }
        }
    }
}


/// The command that runs Python.
pub const PYTHON_COMMAND: &'static str = "python3";

/// The directory of a Python installation that holds its commands.
pub const BIN_DIRECTORY: &'static str = "bin";

/// The standalone build that Python `version` comes from.
pub open spec fn release_tag(version: Seq<char>) -> Seq<char> {
    if is_old_release(version_triple(version)) {
        "20240107"@
    } else {
        "20260211"@
    }
}

/// How the Windows archives of the build of Python `version` end.
pub open spec fn release_windows_suffix(version: Seq<char>) -> Seq<char> {
    if is_old_release(version_triple(version)) {
        "msvc-shared-install_only"@
    } else {
        "msvc-install_only"@
    }
}

/// The base of the download URLs of the standalone Python build `tag`.
pub open spec fn python_url_base(tag: Seq<char>) -> Seq<char> {
    "https://github.com/indygreg/python-build-standalone/releases/download/"@ + tag
        + "/cpython-${version}+"@ + tag
}

/// The download URLs of the standalone Python build `tag`, whose Windows
/// archives end in `win`, with the system of each.
pub open spec fn python_download_systems(tag: Seq<char>, win: Seq<char>) -> Seq<
    (Seq<char>, Cpu, OperatingSystem),
> {
    let base = python_url_base(tag);
    seq![
        (base + "-x86_64-apple-darwin-install_only.tar.gz"@, Cpu::X86_64, OperatingSystem::MacOS),
        (base + "-aarch64-apple-darwin-install_only.tar.gz"@, Cpu::Aarch64, OperatingSystem::MacOS),
        (base + "-x86_64-unknown-linux-gnu-install_only.tar.gz"@, Cpu::X86_64, OperatingSystem::Linux),
        (base + "-aarch64-unknown-linux-gnu-install_only.tar.gz"@, Cpu::Aarch64, OperatingSystem::Linux),
        (base + "-x86_64-pc-windows-"@ + win + ".tar.gz"@, Cpu::X86_64, OperatingSystem::Windows),
        (base + "-aarch64-pc-windows-"@ + win + ".tar.gz"@, Cpu::Aarch64, OperatingSystem::Windows),
    ]
}

/// The download of the standalone Python build `tag` for one system: the
/// base URL followed by `middle` and `end`.
fn python_system(tag: &str, middle: &str, end: &str, cpu: Cpu, os: OperatingSystem) -> (s: System)
    ensures
        s.url@ == python_url_base(tag@) + middle@ + end@,
        s.cpu == cpu,
        s.os == os,
{
    let mut url: Vec<char> = Vec::new();
    push_str(&mut url, "https://github.com/indygreg/python-build-standalone/releases/download/");
    push_str(&mut url, tag);
    push_str(&mut url, "/cpython-${version}+");
    push_str(&mut url, tag);
    push_str(&mut url, middle);
    push_str(&mut url, end);
    System { url: string_from_chars(url.as_slice()), cpu, os }
}

impl Python {
    /// The runtime's name.
    pub fn name(&self) -> (r: String)
        ensures
            r@ == "python"@,
    {
        "python".to_string()
    }

    /// A runtime.
    pub fn tool_type(&self) -> (r: ToolType)
        ensures
            r == ToolType::Runtime,
    {
        ToolType::Runtime
    }

    /// The runtime's version.
    pub fn version(&self) -> (r: Option<String>)
        ensures
            r is Some && r->0@ == self.version@,
    {
        Some(self.version.clone())
    }

    /// The command that prints the installed version.
    pub fn version_command(&self) -> (r: Option<String>)
        ensures
            r is Some && r->0@ == PYTHON_COMMAND@ + " --version"@,
    {
        let mut c = chars_of(PYTHON_COMMAND);
        push_str(&mut c, " --version");
        Some(string_from_chars(c.as_slice()))
    }

    /// Where Python is downloaded from: an archive of the standalone build
    /// of this version for each of macOS, Linux and Windows on x86-64 and
    /// on ARM64.
    pub fn download(&self) -> (d: DownloadDef)
        ensures
            d.binary_name is None,
            d.strip_components == 0,
            ({
                let expected = python_download_systems(
                    release_tag(self.version@),
                    release_windows_suffix(self.version@),
                );
                &&& d.systems@.len() == expected.len()
                &&& forall|i: int|
                    0 <= i < d.systems@.len() ==> (#[trigger] d.systems@[i]).url@ == expected[i].0
                        && d.systems@[i].cpu == expected[i].1 && d.systems@[i].os == expected[i].2
            }),
    {
        let release = self.release();
        let tag = release.tag;
        let win = release.windows_suffix;
        let mut systems: Vec<System> = Vec::new();
        systems.push(
            python_system(tag, "-x86_64-apple-darwin-install_only.tar.gz", "", Cpu::X86_64, OperatingSystem::MacOS),
        );
        systems.push(
            python_system(tag, "-aarch64-apple-darwin-install_only.tar.gz", "", Cpu::Aarch64, OperatingSystem::MacOS),
        );
        systems.push(
            python_system(tag, "-x86_64-unknown-linux-gnu-install_only.tar.gz", "", Cpu::X86_64, OperatingSystem::Linux),
        );
        systems.push(
            python_system(tag, "-aarch64-unknown-linux-gnu-install_only.tar.gz", "", Cpu::Aarch64, OperatingSystem::Linux),
        );
        let mut x86 = chars_of(win);
        push_str(&mut x86, ".tar.gz");
        let end = string_from_chars(x86.as_slice());
        systems.push(python_system(tag, "-x86_64-pc-windows-", end.as_str(), Cpu::X86_64, OperatingSystem::Windows));
        systems.push(python_system(tag, "-aarch64-pc-windows-", end.as_str(), Cpu::Aarch64, OperatingSystem::Windows));
        proof {
            let base = python_url_base(tag@);
            reveal_strlit("");
            assert(base + "-x86_64-apple-darwin-install_only.tar.gz"@ + ""@ =~= base + "-x86_64-apple-darwin-install_only.tar.gz"@);
            assert(base + "-aarch64-apple-darwin-install_only.tar.gz"@ + ""@ =~= base + "-aarch64-apple-darwin-install_only.tar.gz"@);
            assert(base + "-x86_64-unknown-linux-gnu-install_only.tar.gz"@ + ""@ =~= base + "-x86_64-unknown-linux-gnu-install_only.tar.gz"@);
            assert(base + "-aarch64-unknown-linux-gnu-install_only.tar.gz"@ + ""@ =~= base + "-aarch64-unknown-linux-gnu-install_only.tar.gz"@);
            assert(base + "-x86_64-pc-windows-"@ + (win@ + ".tar.gz"@) =~= base + "-x86_64-pc-windows-"@ + win@ + ".tar.gz"@);
            assert(base + "-aarch64-pc-windows-"@ + (win@ + ".tar.gz"@) =~= base + "-aarch64-pc-windows-"@ + win@ + ".tar.gz"@);
        }
        DownloadDef { binary_name: None, strip_components: 0, systems }
    }
}

/// A pip package of a plugin, installed into a virtual environment made
/// with a Python runtime.
#[derive(Debug)]
pub struct PipVenvPackage {
    pub name: String,
    pub plugin: PluginDef,
    pub runtime: Python,
}

impl PipVenvPackage {
    /// The package's name.
    pub fn name(&self) -> (r: String)
        ensures
            r@ == self.name@,
    {
        self.name.clone()
    }

    /// A package of a runtime.
    pub fn tool_type(&self) -> (r: ToolType)
        ensures
            r == ToolType::RuntimePackage,
    {
        ToolType::RuntimePackage
    }

    /// The plugin's version.
    pub fn version(&self) -> (r: Option<String>)
        ensures
            opt_view(r) == opt_view(self.plugin.version),
    {
        match &self.plugin.version {
            Some(v) => Some(v.clone()),
            None => None,
        }
    }

    /// The plugin's version command.
    pub fn version_command(&self) -> (r: Option<String>)
        ensures
            opt_view(r) == opt_view(self.plugin.version_command),
    {
        match &self.plugin.version_command {
            Some(v) => Some(v.clone()),
            None => None,
        }
    }

    /// The plugin's version pattern.
    pub fn version_regex(&self) -> (r: String)
        ensures
            r@ == self.plugin.version_regex@,
    {
        self.plugin.version_regex.clone()
    }

    /// The command and arguments that make the virtual environment
    /// `directory` with the runtime installed in `runtime_directory`.
    pub fn venv_command(runtime_directory: &str, directory: &str) -> (r: (String, Vec<String>))
        ensures
            r.0@ == joined_path(joined_path(runtime_directory@, BIN_DIRECTORY@), PYTHON_COMMAND@),
            texts(r.1@) == seq!["-m"@, "venv"@, directory@],
    {
        let bin = join_path(runtime_directory, BIN_DIRECTORY);
        let command = join_path(bin.as_str(), PYTHON_COMMAND);
        let args = vec!["-m".to_string(), "venv".to_string(), directory.to_string()];
        assert(texts(args@) =~= seq!["-m"@, "venv"@, directory@]);
        (command, args)
    }

    /// The arguments of Python that install `name` at `version` into the
    /// environment `directory`.
    pub fn package_install_arguments(directory: &str, name: &str, version: &str) -> (r: Vec<String>)
        ensures
            texts(r@) == seq!["-m"@, "pip"@, "install"@, "--prefix"@, directory@, name@ + "=="@ + version@],
    {
        let mut spec = chars_of(name);
        push_str(&mut spec, "==");
        push_str(&mut spec, version);
        let args = vec![
            "-m".to_string(),
            "pip".to_string(),
            "install".to_string(),
            "--prefix".to_string(),
            directory.to_string(),
            string_from_chars(spec.as_slice()),
        ];
        assert(texts(args@) =~= seq!["-m"@, "pip"@, "install"@, "--prefix"@, directory@, name@ + "=="@ + version@]);
        args
    }

    /// The arguments of Python that install the plugin's package file (none
    /// named: an empty path) into the environment `directory`.
    pub fn package_file_install_arguments(&self, directory: &str) -> (r: Vec<String>)
        ensures
            texts(r@) == seq![
                "-m"@,
                "pip"@,
                "install"@,
                "--prefix"@,
                directory@,
                "-r"@,
                match self.plugin.package_file {
                    Some(f) => f@,
                    None => seq![],
                },
            ],
    {
        let file = match &self.plugin.package_file {
            Some(f) => f.clone(),
            None => String::new(),
        };
        let args = vec![
            "-m".to_string(),
            "pip".to_string(),
            "install".to_string(),
            "--prefix".to_string(),
            directory.to_string(),
            "-r".to_string(),
            file,
        ];
        assert(texts(args@) =~= seq![
            "-m"@,
            "pip"@,
            "install"@,
            "--prefix"@,
            directory@,
            "-r"@,
            match self.plugin.package_file {
                Some(f) => f@,
                None => seq![],
            },
        ]);
        args
    }

    /// The directories the package's commands are looked up in: the
    /// environment's commands directory.
    pub fn extra_env_paths(directory: &str) -> (r: Vec<String>)
        ensures
            texts(r@) == seq![joined_path(directory@, BIN_DIRECTORY@)],
    {
        let paths = vec![join_path(directory, BIN_DIRECTORY)];
        assert(texts(paths@) =~= seq![joined_path(directory@, BIN_DIRECTORY@)]);
        paths
    }

    /// The variable that points Python at the environment `directory`.
    pub fn virtual_env_var(directory: &str) -> (r: (String, String))
        ensures
            r.0@ == "VIRTUAL_ENV"@,
            r.1@ == directory@,
    {
        ("VIRTUAL_ENV".to_string(), directory.to_string())
    }
}

} // verus!
