//! The PHP runtime and its packages, installed with Composer.

use crate::text::{chars_of, join_path, joined_path, push_str, string_from_chars};
use crate::tool::{opt_view, PluginDef, ToolType};
use vstd::prelude::*;

verus! {

/// The PHP runtime, as installed on the machine.
#[derive(Debug, Clone)]
pub struct Php {
    pub version: String,
}

/// What stands for a missing PHP installation.
pub const PHP_MISSING: &'static str = "Ensure `php` is installed and in $PATH";

impl Php {
    /// The runtime's name.
    pub fn name(&self) -> (r: String)
        ensures
            r@ == "php"@,
    {
        "php".to_string()
    }

    /// A runtime.
    pub fn tool_type(&self) -> (r: ToolType)
        ensures
            r == ToolType::Runtime,
    {
        ToolType::Runtime
    }

    /// The runtime's version.
    pub fn version(&self) -> (r: Option<String>)
        ensures
            r is Some && r->0@ == self.version@,
    {
        Some(self.version.clone())
    }

    /// No version command: the installed version is not checked.
    pub fn version_command(&self) -> (r: Option<String>)
        ensures
            r is None,
    {
        None
    }

    /// The outcome of checking the installation with `php --version`: it
    /// must succeed.
    pub fn verify_installation(&self, version_command_succeeded: bool) -> (r: Result<(), String>)
        ensures
            version_command_succeeded ==> r is Ok,
            !version_command_succeeded ==> (r matches Err(e) && e@ == PHP_MISSING@),
    {
        if version_command_succeeded {
            Ok(())
        } else {
            Err(PHP_MISSING.to_string())
        }
    }
}

/// A PHP package of a plugin, installed in the tool cache.
#[derive(Debug)]
pub struct PhpPackage {
    pub name: String,
    pub plugin: PluginDef,
    pub runtime: Php,
}

/// Whether the strings `v` are the texts `t`.
pub open spec fn strings_are(v: Seq<String>, t: Seq<Seq<char>>) -> bool {
    v.len() == t.len() && forall|i: int| 0 <= i < v.len() ==> #[trigger] v[i]@ == t[i]
}

impl PhpPackage {
    /// The package's name.
    pub fn name(&self) -> (r: String)
        ensures
            r@ == self.name@,
    {
        self.name.clone()
    }

    /// A package of a runtime.
    pub fn tool_type(&self) -> (r: ToolType)
        ensures
            r == ToolType::RuntimePackage,
    {
        ToolType::RuntimePackage
    }

    /// The plugin's version.
    pub fn version(&self) -> (r: Option<String>)
        ensures
            opt_view(r) == opt_view(self.plugin.version),
    {
        match &self.plugin.version {
            Some(v) => Some(v.clone()),
            None => None,
        }
    }

    /// The plugin's version command, unless it installs from a package file.
    pub fn version_command(&self) -> (r: Option<String>)
        ensures
            self.plugin.package_file is Some ==> r is None,
            self.plugin.package_file is None ==> opt_view(r) == opt_view(self.plugin.version_command),
    {
        self.plugin.package_version_command()
    }

    /// The plugin's version pattern.
    pub fn version_regex(&self) -> (r: String)
        ensures
            r@ == self.plugin.version_regex@,
    {
        self.plugin.version_regex.clone()
    }

    /// The arguments of `php` that require `name` at `version` with the
    /// Composer archive `phar`.
    pub fn package_install_arguments(phar: &str, name: &str, version: &str) -> (r: Vec<String>)
        ensures
            strings_are(r@, seq![phar@, "require"@, "--no-interaction"@, name@ + ":"@ + version@]),
    {
        let mut spec = chars_of(name);
        push_str(&mut spec, ":");
        push_str(&mut spec, version);
        let r = vec![
            phar.to_string(),
            "require".to_string(),
            "--no-interaction".to_string(),
            string_from_chars(spec.as_slice()),
        ];
        assert(r@[3]@ == name@ + ":"@ + version@);
        r
    }

    /// The environment Composer runs in for a package installed in
    /// `directory`: its vendor, home and cache directories there.
    pub fn extra_env_vars(directory: &str) -> (r: Vec<(String, String)>)
        ensures
            r@.len() == 3,
            r@[0].0@ == "COMPOSER_VENDOR_DIR"@ && r@[0].1@ == directory@ + "/vendor"@,
            r@[1].0@ == "COMPOSER_HOME"@ && r@[1].1@ == directory@ + "/.composer"@,
            r@[2].0@ == "COMPOSER_CACHE_DIR"@ && r@[2].1@ == directory@ + "/.composer-cache"@,
    {
        let mut vendor = chars_of(directory);
        push_str(&mut vendor, "/vendor");
        let mut home = chars_of(directory);
        push_str(&mut home, "/.composer");
        let mut cache = chars_of(directory);
        push_str(&mut cache, "/.composer-cache");
        vec![
            ("COMPOSER_VENDOR_DIR".to_string(), string_from_chars(vendor.as_slice())),
            ("COMPOSER_HOME".to_string(), string_from_chars(home.as_slice())),
            ("COMPOSER_CACHE_DIR".to_string(), string_from_chars(cache.as_slice())),
        ]
    }
}

/// A PHP package installed in the project, from its package file.
#[derive(Debug)]
pub struct PhpProjectInstaller {
    package: PhpPackage,
}

impl PhpProjectInstaller {
    /// The installer of `package`.
    pub fn new(package: PhpPackage) -> (r: Self)
        ensures
            r.package() == package,
    {
        PhpProjectInstaller { package }
    }

    /// The package it installs.
    pub closed spec fn package(&self) -> PhpPackage {
        self.package
    }

    /// The package's name.
    pub fn name(&self) -> (r: String)
        ensures
            r@ == self.package().name@,
    {
        self.package.name()
    }

    /// The arguments of `php` that install the package file's dependencies
    /// with the Composer archive `phar`.
    pub fn install_arguments(phar: &str) -> (r: Vec<String>)
        ensures
            strings_are(
                r@,
                seq![phar@, "install"@, "--no-interaction"@, "--ignore-platform-reqs"@],
            ),
    {
        vec![
            phar.to_string(),
            "install".to_string(),
            "--no-interaction".to_string(),
            "--ignore-platform-reqs".to_string(),
        ]
    }

    /// Where the project's executables are: `vendor/bin` in `directory`.
    pub fn extra_env_paths(directory: &str) -> (r: Vec<String>)
        ensures
            r@.len() == 1,
            r@[0]@ == joined_path(joined_path(directory@, "vendor"@), "bin"@),
    {
        let v = join_path(directory, "vendor");
        vec![join_path(v.as_str(), "bin")]
    }
}

} // verus!
