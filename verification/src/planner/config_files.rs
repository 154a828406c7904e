//! The configuration files of the plugins of a check.

use crate::pattern::{
    config_globset, exclude_error_text, exclude_globset, glob_error_text, glob_is_match, globs_compile,
    globs_match, texts, GlobMatcher,
};
use crate::paths::{path_file_name, path_file_name_of};
use crate::workspace_entries::{relative_to, strip_root};
use crate::text::{chars_of, debug_str, debug_text, join_path, joined_path, push_str, string_from_chars, str_eq};
use vstd::prelude::*;

verus! {

/// A configuration file of a plugin: where it is and what it holds.
#[derive(Debug, Clone, PartialEq, Eq, Hash)]
pub struct PluginConfigFile {
    pub path: String,
    pub contents: String,
}

/// How a configuration file is put in place.
#[derive(Debug, Clone, Copy, PartialEq, Eq, Structural)]
pub enum ConfigCopyMode {
    Symlink,
    Copy,
}

/// A file a plugin fetches: from `url` to `path`.
#[derive(Debug, Clone)]
pub struct PluginFetch {
    pub url: String,
    pub path: String,
}

/// What a configuration file is put in place from.
#[derive(Debug)]
pub enum ConfigSource {
    File(String),
    Download(PluginFetch),
}

/// Putting a configuration file in place.
#[derive(Debug)]
pub struct ConfigOperation {
    pub source: ConfigSource,
    pub destination: String,
    pub mode: ConfigCopyMode,
}

/// What planning needs of an enabled plugin: its name, the globs of its
/// configuration files, the configuration files it exports, the files that
/// affect its cached results, and the files it fetches.
#[derive(Debug)]
pub struct ActivePluginDef {
    pub name: String,
    pub config_files: Vec<String>,
    pub exported_config_paths: Vec<String>,
    pub affects_cache: Vec<String>,
    pub fetch: Vec<PluginFetch>,
}

/// A file met while walking the workspace: its path, its file name, and
/// its contents when they could be read.
#[derive(Debug)]
pub struct WalkedFile {
    pub path: String,
    pub file_name: String,
    pub contents: Option<String>,
}

/// The final component of the path `p`, as `std::path::Path::file_name`
/// gives it: none when the path ends in `..` or is a root.
pub open spec fn base_name(p: Seq<char>) -> Option<Seq<char>> {
    path_file_name_of(p)
}

/// The final component of `path`, if it has one.
pub fn file_name(path: &str) -> (r: Option<String>)
    ensures
        match r {
            Some(n) => base_name(path@) == Some(n@),
            None => base_name(path@) is None,
        },
{
    path_file_name(path)
}

/// The configuration paths of the plugins: for each, its configuration
/// file globs, then the files that affect its cached results.
pub open spec fn all_config_paths(plugins: Seq<ActivePluginDef>) -> Seq<Seq<char>>
    decreases plugins.len(),
{
    if plugins.len() == 0 {
        seq![]
    } else {
        let p = plugins.last();
        all_config_paths(plugins.drop_last()) + texts(p.config_files@) + texts(p.affects_cache@)
    }
}

/// The configuration paths of the plugins.
pub fn collect_all_config_paths(plugins: &[ActivePluginDef]) -> (r: Vec<String>)
    ensures
        texts(r@) == all_config_paths(plugins@),
{
    let mut paths: Vec<String> = Vec::new();
    let mut i: usize = 0;
    while i < plugins.len()
        invariant
            i <= plugins@.len(),
            texts(paths@) == all_config_paths(plugins@.take(i as int)),
        decreases plugins@.len() - i,
    {
        assert(plugins@.take(i + 1).drop_last() == plugins@.take(i as int));
        assert(plugins@.take(i + 1).last() == plugins@[i as int]);
        let p = &plugins[i];
        let ghost before = texts(paths@);
        append_strings(&mut paths, p.config_files.as_slice());
        append_strings(&mut paths, p.affects_cache.as_slice());
        assert(texts(paths@) =~= before + texts(p.config_files@) + texts(p.affects_cache@));
        i = i + 1;
    }
    assert(plugins@.take(i as int) == plugins@);
    paths
}

/// Appends copies of `more` to `v`.
fn append_strings(v: &mut Vec<String>, more: &[String])
    ensures
        texts(final(v)@) == texts(old(v)@) + texts(more@),
{
    let ghost start = texts(v@);
    let mut i: usize = 0;
    while i < more.len()
        invariant
            i <= more@.len(),
            start == texts(old(v)@),
            texts(v@) == start + texts(more@).take(i as int),
        decreases more@.len() - i,
    {
        let ghost before = v@;
        v.push(more[i].clone());
        assert(texts(v@) =~= texts(before).push(more@[i as int]@));
        assert(texts(more@).take(i + 1) =~= texts(more@).take(i as int).push(more@[i as int]@));
        i = i + 1;
    }
    assert(texts(more@).take(i as int) =~= texts(more@));
}

/// A configuration file found for a plugin: the plugin's name, and the
/// file's path and contents.
pub type ConfigPair = (Seq<char>, (Seq<char>, Seq<char>));

/// The configurations that the found files `pairs` make: for each plugin,
/// its files in the order they were found.
pub open spec fn configs_map(pairs: Seq<ConfigPair>) -> Map<Seq<char>, Seq<(Seq<char>, Seq<char>)>>
    decreases pairs.len(),
{
    if pairs.len() == 0 {
        Map::empty()
    } else {
        let m = configs_map(pairs.drop_last());
        let (k, f) = pairs.last();
        m.insert(
            k,
            (if m.contains_key(k) {
                m[k]
            } else {
                seq![]
            }).push(f),
        )
    }
}

/// The exported configuration files of plugin `p`, each an empty file of
/// the exported file's name in the workspace root.
pub open spec fn exported_of(p: ActivePluginDef, root: Seq<char>) -> Seq<ConfigPair> {
    Seq::new(
        p.exported_config_paths@.len(),
        |k: int|
            (
                p.name@,
                (joined_path(root, base_name(p.exported_config_paths@[k]@)->0), Seq::<char>::empty()),
            ),
    )
}

/// The exported configuration files of the plugins, plugin after plugin.
pub open spec fn exported_pairs(plugins: Seq<ActivePluginDef>, root: Seq<char>) -> Seq<ConfigPair>
    decreases plugins.len(),
{
    if plugins.len() == 0 {
        seq![]
    } else {
        exported_pairs(plugins.drop_last(), root) + exported_of(plugins.last(), root)
    }
}

/// The configuration files the walked file `w` is for each plugin in turn:
/// when its name matches the plugin's globs, its path matches no exclude
/// pattern, and it could be read.
pub open spec fn matches_of(w: WalkedFile, plugins: Seq<ActivePluginDef>, exclude: Seq<Seq<char>>) -> Seq<ConfigPair>
    decreases plugins.len(),
{
    if plugins.len() == 0 {
        seq![]
    } else {
        let p = plugins.last();
        let rest = matches_of(w, plugins.drop_last(), exclude);
        if globs_match(texts(p.config_files@), w.file_name@) && !globs_match(exclude, w.path@)
            && w.contents is Some {
            rest.push((p.name@, (w.path@, w.contents->0@)))
        } else {
            rest
        }
    }
}

/// The configuration files the walked files are, file after file.
pub open spec fn walked_pairs(walked: Seq<WalkedFile>, plugins: Seq<ActivePluginDef>, exclude: Seq<Seq<char>>) -> Seq<ConfigPair>
    decreases walked.len(),
{
    if walked.len() == 0 {
        seq![]
    } else {
        walked_pairs(walked.drop_last(), plugins, exclude) + matches_of(walked.last(), plugins, exclude)
    }
}

/// The error of the exported path `p` that names no file.
pub open spec fn invalid_export_text(p: Seq<char>) -> Seq<char> {
    "Invalid exported config path: "@ + debug_text(p)
}

/// The index of the first of `paths` that names no file.
pub open spec fn first_bad_export(paths: Seq<String>) -> Option<int>
    decreases paths.len(),
{
    if paths.len() == 0 {
        None
    } else if base_name(paths[0]@) is None {
        Some(0)
    } else {
        match first_bad_export(paths.drop_first()) {
            Some(i) => Some(i + 1),
            None => None,
        }
    }
}

/// The error of plugin `p`: globs that do not build, or an exported path
/// that names no file.
pub open spec fn plugin_error(p: ActivePluginDef) -> Option<Seq<char>> {
    if !globs_compile(texts(p.config_files@)) {
        Some(glob_error_text(texts(p.config_files@)))
    } else {
        match first_bad_export(p.exported_config_paths@) {
            Some(j) => Some(invalid_export_text(p.exported_config_paths@[j]@)),
            None => None,
        }
    }
}

/// The error of the first plugin that has one.
pub open spec fn first_plugin_error(plugins: Seq<ActivePluginDef>) -> Option<Seq<char>>
    decreases plugins.len(),
{
    if plugins.len() == 0 {
        None
    } else if plugin_error(plugins[0]) is Some {
        plugin_error(plugins[0])
    } else {
        first_plugin_error(plugins.drop_first())
    }
}

/// The abstract value of a plugin's configuration files.
pub open spec fn files_view(v: Seq<PluginConfigFile>) -> Seq<(Seq<char>, Seq<char>)> {
    v.map_values(|f: PluginConfigFile| (f.path@, f.contents@))
}

/// The configurations that pairs of a plugin's name and its files stand for.
pub open spec fn configs_of(r: Seq<(String, Vec<PluginConfigFile>)>) -> Map<Seq<char>, Seq<(Seq<char>, Seq<char>)>>
    decreases r.len(),
{
    if r.len() == 0 {
        Map::empty()
    } else {
        configs_of(r.drop_last()).insert(r.last().0@, files_view(r.last().1@))
    }
}

/// Whether no two plugins have the same name.
pub open spec fn distinct_plugins(r: Seq<(String, Vec<PluginConfigFile>)>) -> bool {
    forall|i: int, j: int| 0 <= i < j < r.len() ==> r[i].0@ != r[j].0@
}

proof fn lemma_configs_of_get(r: Seq<(String, Vec<PluginConfigFile>)>, j: int)
    requires
        distinct_plugins(r),
        0 <= j < r.len(),
    ensures
        configs_of(r).contains_key(r[j].0@),
        configs_of(r)[r[j].0@] == files_view(r[j].1@),
    decreases r.len(),
{
    if j < r.len() - 1 {
        lemma_configs_of_get(r.drop_last(), j);
    }
}

proof fn lemma_configs_of_absent(r: Seq<(String, Vec<PluginConfigFile>)>, k: Seq<char>)
    requires
        forall|i: int| 0 <= i < r.len() ==> #[trigger] r[i].0@ != k,
    ensures
        !configs_of(r).contains_key(k),
    decreases r.len(),
{
    if r.len() > 0 {
        lemma_configs_of_absent(r.drop_last(), k);
    }
}

proof fn lemma_configs_of_update(r: Seq<(String, Vec<PluginConfigFile>)>, j: int, e: (String, Vec<PluginConfigFile>))
    requires
        distinct_plugins(r),
        0 <= j < r.len(),
        e.0@ == r[j].0@,
    ensures
        configs_of(r.update(j, e)) == configs_of(r).insert(r[j].0@, files_view(e.1@)),
    decreases r.len(),
{
    let q = r.update(j, e);
    if j == r.len() - 1 {
        assert(q.drop_last() == r.drop_last());
        assert(configs_of(q) =~= configs_of(r).insert(r[j].0@, files_view(e.1@)));
    } else {
        assert(q.drop_last() == r.drop_last().update(j, e));
        lemma_configs_of_update(r.drop_last(), j, e);
        assert(r.last().0@ != r[j].0@);
        assert(configs_of(q) =~= configs_of(r).insert(r[j].0@, files_view(e.1@)));
    }
}

/// Adds `file` to the configurations of plugin `name`.
fn add_config(configs: &mut Vec<(String, Vec<PluginConfigFile>)>, name: &str, file: PluginConfigFile)
    requires
        distinct_plugins(old(configs)@),
    ensures
        distinct_plugins(final(configs)@),
        configs_of(final(configs)@) == configs_of(old(configs)@).insert(
            name@,
            (if configs_of(old(configs)@).contains_key(name@) {
                configs_of(old(configs)@)[name@]
            } else {
                seq![]
            }).push((file.path@, file.contents@)),
        ),
{
    let mut j: usize = 0;
    while j < configs.len()
        invariant
            j <= configs@.len(),
            configs@ == old(configs)@,
            distinct_plugins(old(configs)@),
            forall|i: int| 0 <= i < j ==> #[trigger] configs@[i].0@ != name@,
        decreases configs@.len() - j,
    {
        if str_eq(configs[j].0.as_str(), name) {
            let ghost before = configs@;
            proof {
                lemma_configs_of_get(before, j as int);
            }
            let (k, mut files) = configs.remove(j);
            let ghost old_files = files@;
            files.push(file);
            assert(files_view(files@) =~= files_view(old_files).push((file.path@, file.contents@)));
            configs.insert(j, (k, files));
            proof {
                assert(configs@ == before.update(j as int, (k, files)));
                lemma_configs_of_update(before, j as int, (k, files));
                assert forall|a: int, b: int| 0 <= a < b < configs@.len() implies configs@[a].0@ != configs@[b].0@ by {
                    assert(configs@[a].0@ == before[a].0@);
                    assert(configs@[b].0@ == before[b].0@);
                }
            }
            return;
        }
        j = j + 1;
    }
    proof {
        lemma_configs_of_absent(configs@, name@);
    }
    let ghost before = configs@;
    let mut files: Vec<PluginConfigFile> = Vec::new();
    files.push(file);
    configs.push((name.to_string(), files));
    proof {
        assert(configs@.drop_last() == before);
        assert(files_view(files@) =~= Seq::<(Seq<char>, Seq<char>)>::empty().push((file.path@, file.contents@)));
        assert forall|a: int, b: int| 0 <= a < b < configs@.len() implies configs@[a].0@ != configs@[b].0@ by {
            if b < before.len() {
                assert(configs@[a] == before[a] && configs@[b] == before[b]);
            } else {
                assert(configs@[a] == before[a]);
            }
        }
    }
}

/// The configuration files of each plugin: first the files it exports,
/// made empty in the workspace root `root`, then the files met walking the
/// workspace whose names match its globs, not excluded by
/// `exclude_patterns` and readable. A plugin whose globs do not build or
/// which exports a path naming no file is an error, as are exclude patterns
/// that do not build.
pub fn plugin_configs(
    plugins: &[ActivePluginDef],
    root: &str,
    exclude_patterns: &[String],
    walked: &[WalkedFile],
) -> (r: Result<Vec<(String, Vec<PluginConfigFile>)>, String>)
    ensures
        match first_plugin_error(plugins@) {
            Some(e) => r matches Err(x) && x@ == e,
            None => if !globs_compile(texts(exclude_patterns@)) {
                r matches Err(x) && x@ == exclude_error_text(texts(exclude_patterns@))
            } else {
                r matches Ok(c) && distinct_plugins(c@) && configs_of(c@) == configs_map(
                    exported_pairs(plugins@, root@) + walked_pairs(walked@, plugins@, texts(exclude_patterns@)),
                )
            },
        },
{
    let mut configs: Vec<(String, Vec<PluginConfigFile>)> = Vec::new();
    let mut matchers: Vec<GlobMatcher> = Vec::new();
    let ghost mut found: Seq<ConfigPair> = seq![];
    let mut i: usize = 0;
    assert(plugins@.skip(0) == plugins@);
    while i < plugins.len()
        invariant
            i <= plugins@.len(),
            first_plugin_error(plugins@) == first_plugin_error(plugins@.skip(i as int)),
            distinct_plugins(configs@),
            configs_of(configs@) == configs_map(found),
            found == exported_pairs(plugins@.take(i as int), root@),
            matchers@.len() == i,
            forall|k: int| 0 <= k < i ==> #[trigger] matchers@[k].globs() == texts(plugins@[k].config_files@),
        decreases plugins@.len() - i,
    {
        let p = &plugins[i];
        assert(plugins@.skip(i as int)[0] == plugins@[i as int]);
        assert(plugins@.skip(i as int).drop_first() == plugins@.skip(i + 1));
        assert(plugins@.take(i + 1).drop_last() == plugins@.take(i as int));
        assert(plugins@.take(i + 1).last() == plugins@[i as int]);
        let m = match config_globset(p.config_files.as_slice()) {
            Ok(m) => m,
            Err(e) => {
                return Err(e);
            },
        };
        matchers.push(m);
        let ghost before_export = found;
        let mut j: usize = 0;
        assert(p.exported_config_paths@.skip(0) == p.exported_config_paths@);
        while j < p.exported_config_paths.len()
            invariant
                j <= p.exported_config_paths@.len(),
                i < plugins@.len(),
                globs_compile(texts(p.config_files@)),
                p == plugins@[i as int],
                first_plugin_error(plugins@) == first_plugin_error(plugins@.skip(i as int)),
                plugins@.skip(i as int)[0] == plugins@[i as int],
                first_bad_export(p.exported_config_paths@) == match first_bad_export(p.exported_config_paths@.skip(j as int)) {
                    Some(x) => Some(x + j),
                    None => None,
                },
                forall|k: int| 0 <= k < j ==> base_name(#[trigger] p.exported_config_paths@[k]@) is Some,
                distinct_plugins(configs@),
                configs_of(configs@) == configs_map(found),
                found == before_export + exported_of(*p, root@).take(j as int),
            decreases p.exported_config_paths@.len() - j,
        {
            let ep = &p.exported_config_paths[j];
            assert(p.exported_config_paths@.skip(j as int)[0] == p.exported_config_paths@[j as int]);
            assert(p.exported_config_paths@.skip(j as int).drop_first() == p.exported_config_paths@.skip(j + 1));
            match file_name(ep.as_str()) {
                Some(name) => {
                    let path = join_path(root, name.as_str());
                    let ghost pair = (p.name@, (path@, Seq::<char>::empty()));
                    assert(exported_of(*p, root@)[j as int] == pair);
                    add_config(&mut configs, p.name.as_str(), PluginConfigFile { path, contents: String::new() });
                    proof {
                        assert(exported_of(*p, root@).take(j + 1) == exported_of(*p, root@).take(j as int).push(pair));
                        assert((found.push(pair)).drop_last() == found);
                        found = found.push(pair);
                        assert(found == before_export + exported_of(*p, root@).take(j + 1));
                    }
                },
                None => {
                    proof {
                        assert(first_bad_export(p.exported_config_paths@.skip(j as int)) == Some(0int));
                        assert(plugin_error(*p) == Some(invalid_export_text(ep@)));
                        assert(first_plugin_error(plugins@.skip(i as int)) == plugin_error(*p));
                    }
                    let mut msg = chars_of("Invalid exported config path: ");
                    push_str(&mut msg, debug_str(ep.as_str()).as_str());
                    return Err(string_from_chars(msg.as_slice()));
                },
            }
            j = j + 1;
        }
        proof {
            assert(exported_of(*p, root@).take(j as int) == exported_of(*p, root@));
            assert(first_bad_export(p.exported_config_paths@.skip(j as int)) is None);
            assert(plugin_error(plugins@[i as int]) is None);
        }
        i = i + 1;
    }
    assert(plugins@.take(i as int) == plugins@);
    let exclude = match exclude_globset(exclude_patterns) {
        Ok(m) => m,
        Err(e) => {
            return Err(e);
        },
    };
    let ghost exported = found;
    let mut w: usize = 0;
    while w < walked.len()
        invariant
            w <= walked@.len(),
            matchers@.len() == plugins@.len(),
            forall|k: int| 0 <= k < plugins@.len() ==> #[trigger] matchers@[k].globs() == texts(plugins@[k].config_files@),
            exclude.globs() == texts(exclude_patterns@),
            distinct_plugins(configs@),
            configs_of(configs@) == configs_map(found),
            found == exported + walked_pairs(walked@.take(w as int), plugins@, texts(exclude_patterns@)),
        decreases walked@.len() - w,
    {
        let file = &walked[w];
        assert(walked@.take(w + 1).drop_last() == walked@.take(w as int));
        assert(walked@.take(w + 1).last() == walked@[w as int]);
        let ghost before_file = found;
        let mut k: usize = 0;
        while k < plugins.len()
            invariant
                k <= plugins@.len(),
                w < walked@.len(),
                matchers@.len() == plugins@.len(),
                forall|x: int| 0 <= x < plugins@.len() ==> #[trigger] matchers@[x].globs() == texts(plugins@[x].config_files@),
                exclude.globs() == texts(exclude_patterns@),
                file == walked@[w as int],
                distinct_plugins(configs@),
                configs_of(configs@) == configs_map(found),
                found == before_file + matches_of(*file, plugins@.take(k as int), texts(exclude_patterns@)),
            decreases plugins@.len() - k,
        {
            assert(plugins@.take(k + 1).drop_last() == plugins@.take(k as int));
            assert(plugins@.take(k + 1).last() == plugins@[k as int]);
            let p = &plugins[k];
            if glob_is_match(&matchers[k], file.file_name.as_str()) && !glob_is_match(&exclude, file.path.as_str()) {
                match &file.contents {
                    Some(c) => {
                        let ghost pair = (p.name@, (file.path@, c@));
                        add_config(&mut configs, p.name.as_str(), PluginConfigFile { path: file.path.clone(), contents: c.clone() });
                        proof {
                            assert((found.push(pair)).drop_last() == found);
                            found = found.push(pair);
                        }
                    },
                    None => {},
                }
            }
            k = k + 1;
        }
        assert(plugins@.take(k as int) == plugins@);
        w = w + 1;
    }
    assert(walked@.take(w as int) == walked@);
    Ok(configs)
}

/// Where a check's files are: the workspace root, the staging area the
/// tools run in, and the directory of configuration files of the project's
/// settings when there is one.
#[derive(Debug)]
pub struct StagingPaths {
    pub root: String,
    pub staging: String,
    pub configs_dir: Option<String>,
}

/// The abstract value of a [`ConfigSource`].
pub enum ConfigSourceView {
    File(Seq<char>),
    Download(Seq<char>, Seq<char>),
}

/// The abstract value of a [`ConfigOperation`].
pub struct ConfigOperationView {
    pub source: ConfigSourceView,
    pub destination: Seq<char>,
    pub mode: ConfigCopyMode,
}

/// The abstract value of an operation.
pub open spec fn op_view(o: ConfigOperation) -> ConfigOperationView {
    ConfigOperationView {
        source: match o.source {
            ConfigSource::File(p) => ConfigSourceView::File(p@),
            ConfigSource::Download(f) => ConfigSourceView::Download(f.url@, f.path@),
        },
        destination: o.destination@,
        mode: o.mode,
    }
}

/// The abstract values of operations.
pub open spec fn ops_view(s: Seq<ConfigOperation>) -> Seq<ConfigOperationView> {
    s.map_values(|o: ConfigOperation| op_view(o))
}

/// A symbolic link from `source` to `destination`.
pub open spec fn link(source: Seq<char>, destination: Seq<char>) -> ConfigOperationView {
    ConfigOperationView {
        source: ConfigSourceView::File(source),
        destination,
        mode: ConfigCopyMode::Symlink,
    }
}

/// The links that put `source` in place as `name`: in the staging area
/// when it is not the workspace root, then in the root.
pub open spec fn links_to_root(source: Seq<char>, name: Seq<char>, paths: StagingPaths) -> Seq<ConfigOperationView> {
    (if paths.root@ != paths.staging@ {
        seq![link(source, joined_path(paths.staging@, name))]
    } else {
        seq![]
    }) + seq![link(source, joined_path(paths.root@, name))]
}

/// The texts of `s` without repetitions, each where it first occurs.
pub open spec fn unique_texts(s: Seq<Seq<char>>) -> Seq<Seq<char>>
    decreases s.len(),
{
    if s.len() == 0 {
        seq![]
    } else {
        let rest = unique_texts(s.drop_last());
        if s.drop_last().contains(s.last()) {
            rest
        } else {
            rest.push(s.last())
        }
    }
}

/// The exported configuration paths of the plugins, plugin after plugin.
pub open spec fn exported_paths(plugins: Seq<ActivePluginDef>) -> Seq<Seq<char>>
    decreases plugins.len(),
{
    if plugins.len() == 0 {
        seq![]
    } else {
        exported_paths(plugins.drop_last()) + texts(plugins.last().exported_config_paths@)
    }
}

/// The configuration file globs of the plugins, plugin after plugin.
pub open spec fn config_file_names(plugins: Seq<ActivePluginDef>) -> Seq<Seq<char>>
    decreases plugins.len(),
{
    if plugins.len() == 0 {
        seq![]
    } else {
        config_file_names(plugins.drop_last()) + texts(plugins.last().config_files@)
    }
}

/// The links of the exported files `paths`, each a file of its name.
pub open spec fn export_links(exported: Seq<Seq<char>>, paths: StagingPaths) -> Seq<ConfigOperationView>
    decreases exported.len(),
{
    if exported.len() == 0 {
        seq![]
    } else {
        export_links(exported.drop_last(), paths) + links_to_root(
            exported.last(),
            base_name(exported.last())->0,
            paths,
        )
    }
}

/// Whether one of the texts names no file.
pub open spec fn some_without_name(s: Seq<Seq<char>>) -> bool {
    exists|i: int| 0 <= i < s.len() && base_name(#[trigger] s[i]) is None
}

/// Collects the texts of `s` without repetitions, in order.
fn unique_strings(s: &Vec<String>) -> (r: Vec<String>)
    ensures
        texts(r@) == unique_texts(texts(s@)),
{
    let ghost t = texts(s@);
    let mut r: Vec<String> = Vec::new();
    let mut i: usize = 0;
    while i < s.len()
        invariant
            i <= s@.len(),
            t == texts(s@),
            texts(r@) == unique_texts(t.take(i as int)),
            forall|x: Seq<char>| t.take(i as int).contains(x) <==> texts(r@).contains(x),
        decreases s@.len() - i,
    {
        assert(t.take(i + 1).drop_last() == t.take(i as int));
        assert(t.take(i + 1).last() == t[i as int]);
        let mut seen = false;
        let mut j: usize = 0;
        while j < r.len()
            invariant
                j <= r@.len(),
                i < s@.len(),
                seen <==> exists|a: int| 0 <= a < j && #[trigger] r@[a]@ == s@[i as int]@,
            decreases r@.len() - j,
        {
            if str_eq(r[j].as_str(), s[i].as_str()) {
                seen = true;
            }
            j = j + 1;
        }
        proof {
            if seen {
                let a = choose|a: int| 0 <= a < j && #[trigger] r@[a]@ == s@[i as int]@;
                assert(texts(r@)[a] == t[i as int]);
                assert(texts(r@).contains(t[i as int]));
            } else {
                if texts(r@).contains(t[i as int]) {
                    let a = choose|a: int| 0 <= a < texts(r@).len() && texts(r@)[a] == t[i as int];
                    assert(r@[a]@ == s@[i as int]@);
                }
            }
        }
        let ghost before = texts(r@);
        if !seen {
            r.push(s[i].clone());
            assert(texts(r@) =~= before.push(t[i as int]));
        }
        proof {
            let ti1 = t.take(i + 1);
            let ti = t.take(i as int);
            let now = texts(r@);
            assert forall|x: Seq<char>| ti1.contains(x) <==> now.contains(x) by {
                if ti1.contains(x) {
                    let a = choose|a: int| 0 <= a < ti1.len() && ti1[a] == x;
                    if a < i {
                        assert(ti[a] == x);
                        assert(ti.contains(x));
                        assert(before.contains(x));
                        let b = choose|b: int| 0 <= b < before.len() && before[b] == x;
                        if !seen {
                            assert(now[b] == x);
                        } else {
                            assert(now == before);
                        }
                    } else {
                        assert(x == t[i as int]);
                        if !seen {
                            assert(now[before.len() as int] == x);
                        }
                    }
                }
                if now.contains(x) {
                    let b = choose|b: int| 0 <= b < now.len() && now[b] == x;
                    if b < before.len() {
                        assert(before[b] == x);
                        assert(before.contains(x));
                        assert(ti.contains(x));
                        let a = choose|a: int| 0 <= a < ti.len() && ti[a] == x;
                        assert(ti1[a] == x);
                    } else {
                        assert(x == t[i as int]);
                        assert(ti1[i as int] == x);
                    }
                }
            }
        }
        i = i + 1;
    }
    assert(t.take(i as int) == t);
    r
}

/// Pushes the links that put `source` in place as `name`.
fn push_links_to_root(ops: &mut Vec<ConfigOperation>, source: &str, name: &str, paths: &StagingPaths)
    ensures
        ops_view(final(ops)@) == ops_view(old(ops)@) + links_to_root(source@, name@, *paths),
{
    let ghost before = ops_view(ops@);
    if !str_eq(paths.root.as_str(), paths.staging.as_str()) {
        ops.push(ConfigOperation {
            source: ConfigSource::File(source.to_string()),
            destination: join_path(paths.staging.as_str(), name),
            mode: ConfigCopyMode::Symlink,
        });
    }
    ops.push(ConfigOperation {
        source: ConfigSource::File(source.to_string()),
        destination: join_path(paths.root.as_str(), name),
        mode: ConfigCopyMode::Symlink,
    });
    assert(ops_view(ops@) =~= before + links_to_root(source@, name@, *paths));
}

/// Every path the plugins export, once.
fn exported_config_paths(plugins: &[ActivePluginDef]) -> (r: Vec<String>)
    ensures
        texts(r@) == exported_paths(plugins@),
{
    let mut all: Vec<String> = Vec::new();
    let mut i: usize = 0;
    while i < plugins.len()
        invariant
            i <= plugins@.len(),
            texts(all@) == exported_paths(plugins@.take(i as int)),
        decreases plugins@.len() - i,
    {
        assert(plugins@.take(i + 1).drop_last() == plugins@.take(i as int));
        assert(plugins@.take(i + 1).last() == plugins@[i as int]);
        append_strings(&mut all, plugins[i].exported_config_paths.as_slice());
        i = i + 1;
    }
    assert(plugins@.take(i as int) == plugins@);
    all
}

/// The links that put each exported configuration file (once) in place in
/// the staging area and the workspace root. An exported path that names no
/// file is an error.
pub fn exported_config_operations(paths: &StagingPaths, plugins: &[ActivePluginDef]) -> (r: Result<
    Vec<ConfigOperation>,
    String,
>)
    ensures
        ({
            let u = unique_texts(exported_paths(plugins@));
            if some_without_name(u) {
                r is Err
            } else {
                r matches Ok(ops) && ops_view(ops@) == export_links(u, *paths)
            }
        }),
{
    let all = exported_config_paths(plugins);
    let unique = unique_strings(&all);
    let ghost u = texts(unique@);
    let mut ops: Vec<ConfigOperation> = Vec::new();
    let mut i: usize = 0;
    while i < unique.len()
        invariant
            i <= unique@.len(),
            u == texts(unique@),
            u == unique_texts(exported_paths(plugins@)),
            forall|k: int| 0 <= k < i ==> base_name(#[trigger] u[k]) is Some,
            ops_view(ops@) == export_links(u.take(i as int), *paths),
        decreases unique@.len() - i,
    {
        assert(u.take(i + 1).drop_last() == u.take(i as int));
        assert(u.take(i + 1).last() == u[i as int]);
        match file_name(unique[i].as_str()) {
            Some(name) => {
                push_links_to_root(&mut ops, unique[i].as_str(), name.as_str(), paths);
            },
            None => {
                let mut msg = chars_of("Invalid exported config path: ");
                push_str(&mut msg, debug_str(unique[i].as_str()).as_str());
                return Err(string_from_chars(msg.as_slice()));
            },
        }
        i = i + 1;
    }
    assert(u.take(i as int) == u);
    Ok(ops)
}

/// Where a configuration file of the project's settings named `name` is:
/// in the configs directory when there is one.
pub open spec fn settings_config_source(name: Seq<char>, paths: StagingPaths) -> Seq<char> {
    match paths.configs_dir {
        Some(d) => joined_path(d@, name),
        None => name,
    }
}

/// The links of the configuration files `names` of the project's settings.
pub open spec fn settings_links(names: Seq<Seq<char>>, paths: StagingPaths) -> Seq<ConfigOperationView>
    decreases names.len(),
{
    if names.len() == 0 {
        seq![]
    } else {
        settings_links(names.drop_last(), paths) + links_to_root(
            settings_config_source(names.last(), paths),
            names.last(),
            paths,
        )
    }
}

/// The links that put each configuration file of the plugins (once), as
/// the project's settings hold it, in place in the staging area and the
/// workspace root.
pub fn qlty_config_operations(paths: &StagingPaths, plugins: &[ActivePluginDef]) -> (r: Vec<ConfigOperation>)
    ensures
        ops_view(r@) == settings_links(unique_texts(config_file_names(plugins@)), *paths),
{
    let mut all: Vec<String> = Vec::new();
    let mut i: usize = 0;
    while i < plugins.len()
        invariant
            i <= plugins@.len(),
            texts(all@) == config_file_names(plugins@.take(i as int)),
        decreases plugins@.len() - i,
    {
        assert(plugins@.take(i + 1).drop_last() == plugins@.take(i as int));
        assert(plugins@.take(i + 1).last() == plugins@[i as int]);
        append_strings(&mut all, plugins[i].config_files.as_slice());
        i = i + 1;
    }
    assert(plugins@.take(i as int) == plugins@);
    let names = unique_strings(&all);
    let ghost u = texts(names@);
    let mut ops: Vec<ConfigOperation> = Vec::new();
    let mut k: usize = 0;
    while k < names.len()
        invariant
            k <= names@.len(),
            u == texts(names@),
            ops_view(ops@) == settings_links(u.take(k as int), *paths),
        decreases names@.len() - k,
    {
        assert(u.take(k + 1).drop_last() == u.take(k as int));
        assert(u.take(k + 1).last() == u[k as int]);
        let source = match &paths.configs_dir {
            Some(d) => join_path(d.as_str(), names[k].as_str()),
            None => names[k].clone(),
        };
        push_links_to_root(&mut ops, source.as_str(), names[k].as_str(), paths);
        k = k + 1;
    }
    assert(u.take(k as int) == u);
    ops
}

/// The download of the file `f` fetches into the directory `dir`.
pub open spec fn download_op(f: PluginFetch, dir: Seq<char>) -> ConfigOperationView {
    ConfigOperationView {
        source: ConfigSourceView::Download(f.url@, f.path@),
        destination: joined_path(dir, f.path@),
        mode: ConfigCopyMode::Copy,
    }
}

/// The downloads of the files the plugin fetches: to the workspace root,
/// then to the staging area when it is not the root.
pub open spec fn fetch_ops_of(fetch: Seq<PluginFetch>, paths: StagingPaths) -> Seq<ConfigOperationView>
    decreases fetch.len(),
{
    if fetch.len() == 0 {
        seq![]
    } else {
        let f = fetch.last();
        fetch_ops_of(fetch.drop_last(), paths) + seq![download_op(f, paths.root@)] + if paths.root@
            != paths.staging@ {
            seq![download_op(f, paths.staging@)]
        } else {
            seq![]
        }
    }
}

/// The downloads of the files the plugins fetch, plugin after plugin.
pub open spec fn fetch_ops(plugins: Seq<ActivePluginDef>, paths: StagingPaths) -> Seq<ConfigOperationView>
    decreases plugins.len(),
{
    if plugins.len() == 0 {
        seq![]
    } else {
        fetch_ops(plugins.drop_last(), paths) + fetch_ops_of(plugins.last().fetch@, paths)
    }
}

/// The downloads of the files the plugins fetch.
pub fn fetch_operations(paths: &StagingPaths, plugins: &[ActivePluginDef]) -> (r: Vec<ConfigOperation>)
    ensures
        ops_view(r@) == fetch_ops(plugins@, *paths),
{
    let mut ops: Vec<ConfigOperation> = Vec::new();
    let mut i: usize = 0;
    while i < plugins.len()
        invariant
            i <= plugins@.len(),
            ops_view(ops@) == fetch_ops(plugins@.take(i as int), *paths),
        decreases plugins@.len() - i,
    {
        assert(plugins@.take(i + 1).drop_last() == plugins@.take(i as int));
        assert(plugins@.take(i + 1).last() == plugins@[i as int]);
        let fs = &plugins[i].fetch;
        let ghost start = ops_view(ops@);
        let mut k: usize = 0;
        while k < fs.len()
            invariant
                k <= fs@.len(),
                ops_view(ops@) == start + fetch_ops_of(fs@.take(k as int), *paths),
            decreases fs@.len() - k,
        {
            assert(fs@.take(k + 1).drop_last() == fs@.take(k as int));
            assert(fs@.take(k + 1).last() == fs@[k as int]);
            let f = &fs[k];
            let ghost before = ops_view(ops@);
            let ghost fk = fs@[k as int];
            ops.push(ConfigOperation {
                source: ConfigSource::Download(PluginFetch { url: f.url.clone(), path: f.path.clone() }),
                destination: join_path(paths.root.as_str(), f.path.as_str()),
                mode: ConfigCopyMode::Copy,
            });
            assert(ops_view(ops@) =~= before.push(download_op(fk, paths.root@)));
            let ghost mid = ops_view(ops@);
            if !str_eq(paths.root.as_str(), paths.staging.as_str()) {
                ops.push(ConfigOperation {
                    source: ConfigSource::Download(PluginFetch { url: f.url.clone(), path: f.path.clone() }),
                    destination: join_path(paths.staging.as_str(), f.path.as_str()),
                    mode: ConfigCopyMode::Copy,
                });
                assert(ops_view(ops@) =~= mid.push(download_op(fk, paths.staging@)));
            }
            assert(fetch_ops_of(fs@.take(k + 1), *paths) == fetch_ops_of(fs@.take(k as int), *paths)
                + seq![download_op(fk, paths.root@)] + if paths.root@ != paths.staging@ {
                seq![download_op(fk, paths.staging@)]
            } else {
                Seq::<ConfigOperationView>::empty()
            });
            assert(ops_view(ops@) =~= start + fetch_ops_of(fs@.take(k + 1), *paths));
            k = k + 1;
        }
        assert(fs@.take(k as int) == fs@);
        i = i + 1;
    }
    assert(plugins@.take(i as int) == plugins@);
    ops
}

/// Where a configuration file met in the workspace goes in the staging
/// area: at its place relative to the root, or by its name when it lies
/// outside the root.
pub open spec fn repository_destination(w: WalkedFile, paths: StagingPaths) -> Seq<char> {
    match relative_to(w.path@, paths.root@) {
        Some(rel) => joined_path(paths.staging@, rel),
        None => joined_path(paths.staging@, w.file_name@),
    }
}

/// Whether a file lies in the configs directory of the project's settings.
pub open spec fn under_configs_dir(w: WalkedFile, paths: StagingPaths) -> bool {
    match paths.configs_dir {
        Some(d) => relative_to(w.path@, d@) is Some,
        None => false,
    }
}

/// The links of the configuration files met in the workspace: names
/// matching `globs`, paths matching no exclude pattern, outside the configs
/// directory.
pub open spec fn repository_links(
    walked: Seq<WalkedFile>,
    globs: Seq<Seq<char>>,
    exclude: Seq<Seq<char>>,
    paths: StagingPaths,
) -> Seq<ConfigOperationView>
    decreases walked.len(),
{
    if walked.len() == 0 {
        seq![]
    } else {
        let w = walked.last();
        repository_links(walked.drop_last(), globs, exclude, paths) + if globs_match(globs, w.file_name@)
            && !globs_match(exclude, w.path@) && !under_configs_dir(w, paths) {
            seq![link(w.path@, repository_destination(w, paths))]
        } else {
            seq![]
        }
    }
}

/// The links that put the configuration files met in the workspace into
/// the staging area: none without configuration paths; an error when the
/// paths or the exclude patterns do not build.
pub fn repository_config_operations(
    paths: &StagingPaths,
    all_config_paths: &[String],
    exclude_patterns: &[String],
    walked: &[WalkedFile],
) -> (r: Result<Vec<ConfigOperation>, String>)
    ensures
        all_config_paths@.len() == 0 ==> (r matches Ok(ops) && ops@.len() == 0),
        all_config_paths@.len() > 0 ==> if !globs_compile(texts(all_config_paths@)) {
            r matches Err(e) && e@ == glob_error_text(texts(all_config_paths@))
        } else if !globs_compile(texts(exclude_patterns@)) {
            r matches Err(e) && e@ == exclude_error_text(texts(exclude_patterns@))
        } else {
            r matches Ok(ops) && ops_view(ops@) == repository_links(
                walked@,
                texts(all_config_paths@),
                texts(exclude_patterns@),
                *paths,
            )
        },
{
    if all_config_paths.len() == 0 {
        return Ok(Vec::new());
    }
    let globs = config_globset(all_config_paths)?;
    let exclude = exclude_globset(exclude_patterns)?;
    let mut ops: Vec<ConfigOperation> = Vec::new();
    let mut i: usize = 0;
    while i < walked.len()
        invariant
            i <= walked@.len(),
            globs.globs() == texts(all_config_paths@),
            exclude.globs() == texts(exclude_patterns@),
            ops_view(ops@) == repository_links(
                walked@.take(i as int),
                texts(all_config_paths@),
                texts(exclude_patterns@),
                *paths,
            ),
        decreases walked@.len() - i,
    {
        assert(walked@.take(i + 1).drop_last() == walked@.take(i as int));
        assert(walked@.take(i + 1).last() == walked@[i as int]);
        let w = &walked[i];
        let ghost before = ops_view(ops@);
        if glob_is_match(&globs, w.file_name.as_str()) && !glob_is_match(&exclude, w.path.as_str()) {
            let in_configs = match &paths.configs_dir {
                Some(d) => strip_root(w.path.as_str(), d.as_str()).is_some(),
                None => false,
            };
            if !in_configs {
                let destination = match strip_root(w.path.as_str(), paths.root.as_str()) {
                    Some(rel) => join_path(paths.staging.as_str(), rel.as_str()),
                    None => join_path(paths.staging.as_str(), w.file_name.as_str()),
                };
                ops.push(ConfigOperation {
                    source: ConfigSource::File(w.path.clone()),
                    destination,
                    mode: ConfigCopyMode::Symlink,
                });
                assert(ops_view(ops@) =~= before.push(link(w.path@, repository_destination(*w, *paths))));
            }
        }
        assert(ops_view(ops@) =~= repository_links(
            walked@.take(i + 1),
            texts(all_config_paths@),
            texts(exclude_patterns@),
            *paths,
        ));
        i = i + 1;
    }
    assert(walked@.take(i as int) == walked@);
    Ok(ops)
}

/// What staging needs of an invocation: its plugin, whether the plugin's
/// configuration files are copied into the tool's installation, and the
/// tool's directory.
#[derive(Debug)]
pub struct InvocationConfigTarget {
    pub plugin_name: String,
    pub copy_configs_into_tool_install: bool,
    pub tool_directory: String,
}

/// The configuration files to copy into tools: for each invocation that
/// copies them, each file of its plugin with the tool's directory.
pub open spec fn tool_copy_candidates(
    invs: Seq<InvocationConfigTarget>,
    configs: Map<Seq<char>, Seq<(Seq<char>, Seq<char>)>>,
) -> Seq<(Seq<char>, Seq<char>)>
    decreases invs.len(),
{
    if invs.len() == 0 {
        seq![]
    } else {
        let inv = invs.last();
        tool_copy_candidates(invs.drop_last(), configs) + if inv.copy_configs_into_tool_install
            && configs.contains_key(inv.plugin_name@) {
            with_dir(configs[inv.plugin_name@], inv.tool_directory@)
        } else {
            seq![]
        }
    }
}

/// The paths of the files `files`, each with the directory `dir`.
pub open spec fn with_dir(files: Seq<(Seq<char>, Seq<char>)>, dir: Seq<char>) -> Seq<(Seq<char>, Seq<char>)> {
    files.map_values(|f: (Seq<char>, Seq<char>)| (f.0, dir))
}

proof fn lemma_candidates_prefix(
    invs: Seq<InvocationConfigTarget>,
    configs: Map<Seq<char>, Seq<(Seq<char>, Seq<char>)>>,
    i: int,
) -> (t: Seq<(Seq<char>, Seq<char>)>)
    requires
        0 <= i <= invs.len(),
    ensures
        tool_copy_candidates(invs, configs) == tool_copy_candidates(invs.take(i), configs) + t,
    decreases invs.len(),
{
    if i == invs.len() {
        assert(invs.take(i) == invs);
        Seq::<(Seq<char>, Seq<char>)>::empty()
    } else {
        let t = lemma_candidates_prefix(invs.drop_last(), configs, i);
        assert(invs.drop_last().take(i) == invs.take(i));
        let last_part = if invs.last().copy_configs_into_tool_install && configs.contains_key(
            invs.last().plugin_name@,
        ) {
            with_dir(configs[invs.last().plugin_name@], invs.last().tool_directory@)
        } else {
            Seq::<(Seq<char>, Seq<char>)>::empty()
        };
        assert(tool_copy_candidates(invs, configs) == tool_copy_candidates(invs.take(i), configs) + (t + last_part));
        t + last_part
    }
}

/// The position of the configurations of plugin `name`, if there are any.
fn find_plugin(configs: &Vec<(String, Vec<PluginConfigFile>)>, name: &str) -> (r: Option<usize>)
    ensures
        match r {
            Some(j) => j < configs@.len() && configs@[j as int].0@ == name@,
            None => forall|a: int| 0 <= a < configs@.len() ==> #[trigger] configs@[a].0@ != name@,
        },
{
    let mut j: usize = 0;
    while j < configs.len()
        invariant
            j <= configs@.len(),
            forall|a: int| 0 <= a < j ==> #[trigger] configs@[a].0@ != name@,
        decreases configs@.len() - j,
    {
        if str_eq(configs[j].0.as_str(), name) {
            return Some(j);
        }
        j = j + 1;
    }
    None
}

/// A copy of `source` to `destination`.
pub open spec fn copy_op(source: Seq<char>, destination: Seq<char>) -> ConfigOperationView {
    ConfigOperationView {
        source: ConfigSourceView::File(source),
        destination,
        mode: ConfigCopyMode::Copy,
    }
}

/// Whether one of `ops` goes to `destination`.
pub open spec fn has_destination(ops: Seq<ConfigOperationView>, destination: Seq<char>) -> bool {
    exists|i: int| 0 <= i < ops.len() && ops[i].destination == destination
}

/// The copies of the candidates, each to its file's name in the tool's
/// directory, the first copy to a destination winning.
pub open spec fn tool_copies(c: Seq<(Seq<char>, Seq<char>)>) -> Seq<ConfigOperationView>
    decreases c.len(),
{
    if c.len() == 0 {
        seq![]
    } else {
        let rest = tool_copies(c.drop_last());
        let (path, dir) = c.last();
        let destination = joined_path(dir, base_name(path)->0);
        if has_destination(rest, destination) {
            rest
        } else {
            rest.push(copy_op(path, destination))
        }
    }
}

/// Whether one of the candidates' paths names no file.
pub open spec fn candidate_without_name(c: Seq<(Seq<char>, Seq<char>)>) -> bool {
    exists|i: int| 0 <= i < c.len() && base_name(#[trigger] c[i].0) is None
}

/// The copies of the configuration files `configs` of each plugin into
/// the tools of the invocations that copy them, once per destination; a
/// configuration path that names no file is an error.
pub fn tool_install_config_operations(
    invocations: &[InvocationConfigTarget],
    configs: &Vec<(String, Vec<PluginConfigFile>)>,
) -> (r: Result<Vec<ConfigOperation>, String>)
    requires
        distinct_plugins(configs@),
    ensures
        ({
            let c = tool_copy_candidates(invocations@, configs_of(configs@));
            if candidate_without_name(c) {
                r is Err
            } else {
                r matches Ok(ops) && ops_view(ops@) == tool_copies(c)
            }
        }),
{
    let ghost cmap = configs_of(configs@);
    let ghost mut done: Seq<(Seq<char>, Seq<char>)> = seq![];
    let mut ops: Vec<ConfigOperation> = Vec::new();
    let mut i: usize = 0;
    while i < invocations.len()
        invariant
            i <= invocations@.len(),
            cmap == configs_of(configs@),
            distinct_plugins(configs@),
            done == tool_copy_candidates(invocations@.take(i as int), cmap),
            !candidate_without_name(done),
            ops_view(ops@) == tool_copies(done),
        decreases invocations@.len() - i,
    {
        assert(invocations@.take(i + 1).drop_last() == invocations@.take(i as int));
        assert(invocations@.take(i + 1).last() == invocations@[i as int]);
        let inv = &invocations[i];
        if inv.copy_configs_into_tool_install {
            match find_plugin(configs, inv.plugin_name.as_str()) {
                Some(j) => {
                    proof {
                        lemma_configs_of_get(configs@, j as int);
                    }
                    let files = &configs[j].1;
                    let ghost fv = files_view(files@);
                    let ghost start = done;
                    assert(cmap[inv.plugin_name@] == fv);
                    let mut k: usize = 0;
                    while k < files.len()
                        invariant
                            k <= files@.len(),
                            i < invocations@.len(),
                            inv == invocations@[i as int],
                            inv.copy_configs_into_tool_install,
                            cmap == configs_of(configs@),
                            cmap.contains_key(inv.plugin_name@),
                            cmap[inv.plugin_name@] == fv,
                            fv == files_view(files@),
                            start == tool_copy_candidates(invocations@.take(i as int), cmap),
                            invocations@.take(i + 1).drop_last() == invocations@.take(i as int),
                            invocations@.take(i + 1).last() == invocations@[i as int],
                            done == start + with_dir(fv.take(k as int), inv.tool_directory@),
                            !candidate_without_name(done),
                            ops_view(ops@) == tool_copies(done),
                        decreases files@.len() - k,
                    {
                        let f = &files[k];
                        let ghost pair = (f.path@, inv.tool_directory@);
                        assert(fv[k as int] == (f.path@, f.contents@));
                        assert(with_dir(fv.take(k + 1), inv.tool_directory@) =~= with_dir(fv.take(k as int), inv.tool_directory@).push(pair));
                        let name = match file_name(f.path.as_str()) {
                            Some(n) => n,
                            None => {
                                proof {
                                    let full = tool_copy_candidates(invocations@, cmap);
                                    let t = lemma_candidates_prefix(invocations@, cmap, i + 1);
                                    assert(tool_copy_candidates(invocations@.take(i + 1), cmap) == start + with_dir(fv, inv.tool_directory@));
                                    assert(with_dir(fv, inv.tool_directory@)[k as int] == pair);
                                    assert(full[done.len() as int] == pair);
                                    assert(base_name(full[done.len() as int].0) is None);
                                    assert(candidate_without_name(full));
                                }
                                let mut msg = chars_of("Invalid config path: ");
                                push_str(&mut msg, debug_str(f.path.as_str()).as_str());
                                return Err(string_from_chars(msg.as_slice()));
                            },
                        };
                        let destination = join_path(inv.tool_directory.as_str(), name.as_str());
                        let mut seen = false;
                        let mut x: usize = 0;
                        while x < ops.len()
                            invariant
                                x <= ops@.len(),
                                seen <==> exists|a: int| 0 <= a < x && ops_view(ops@)[a].destination == destination@,
                            decreases ops@.len() - x,
                        {
                            assert(ops_view(ops@)[x as int] == op_view(ops@[x as int]));
                            if str_eq(ops[x].destination.as_str(), destination.as_str()) {
                                seen = true;
                            }
                            x = x + 1;
                        }
                        let ghost before = ops_view(ops@);
                        if !seen {
                            ops.push(ConfigOperation {
                                source: ConfigSource::File(f.path.clone()),
                                destination,
                                mode: ConfigCopyMode::Copy,
                            });
                            assert(ops_view(ops@) =~= before.push(copy_op(f.path@, joined_path(inv.tool_directory@, name@))));
                        }
                        proof {
                            assert((done.push(pair)).drop_last() == done);
                            assert(tool_copies(done.push(pair)) == ops_view(ops@));
                            assert forall|a: int| 0 <= a < done.push(pair).len() implies base_name(#[trigger] done.push(pair)[a].0) is Some by {
                                if a < done.len() {
                                    assert(done.push(pair)[a] == done[a]);
                                }
                            }
                            done = done.push(pair);
                        }
                        k = k + 1;
                    }
                    proof {
                        assert(fv.take(k as int) == fv);
                    }
                },
                None => {
                    proof {
                        lemma_configs_of_absent(configs@, inv.plugin_name@);
                    }
                },
            }
        }
        proof {
            assert(done =~= tool_copy_candidates(invocations@.take(i + 1), cmap));
        }
        i = i + 1;
    }
    assert(invocations@.take(i as int) == invocations@);
    Ok(ops)
}

/// Whether staging the configuration files succeeds: the configuration
/// paths, the exclude patterns and every plugin's globs build, and every
/// exported and copied path names a file.
pub open spec fn staging_succeeds(
    paths: StagingPaths,
    plugins: Seq<ActivePluginDef>,
    exclude: Seq<Seq<char>>,
    walked: Seq<WalkedFile>,
    invocations: Seq<InvocationConfigTarget>,
) -> bool {
    let all = all_config_paths(plugins);
    &&& (all.len() > 0 ==> globs_compile(all))
    &&& globs_compile(exclude)
    &&& !some_without_name(unique_texts(exported_paths(plugins)))
    &&& first_plugin_error(plugins) is None
    &&& !candidate_without_name(
        tool_copy_candidates(
            invocations,
            configs_map(exported_pairs(plugins, paths.root@) + walked_pairs(walked, plugins, exclude)),
        ),
    )
}

/// The operations that stage the configuration files of a check, in
/// order: those met in the workspace, those the plugins export, those of
/// the project's settings, those the plugins fetch, and the copies into
/// tools.
pub open spec fn staging_operations(
    paths: StagingPaths,
    plugins: Seq<ActivePluginDef>,
    exclude: Seq<Seq<char>>,
    walked: Seq<WalkedFile>,
    invocations: Seq<InvocationConfigTarget>,
) -> Seq<ConfigOperationView> {
    let all = all_config_paths(plugins);
    (if all.len() == 0 {
        seq![]
    } else {
        repository_links(walked, all, exclude, paths)
    }) + export_links(unique_texts(exported_paths(plugins)), paths) + settings_links(
        unique_texts(config_file_names(plugins)),
        paths,
    ) + fetch_ops(plugins, paths) + tool_copies(
        tool_copy_candidates(
            invocations,
            configs_map(exported_pairs(plugins, paths.root@) + walked_pairs(walked, plugins, exclude)),
        ),
    )
}

/// The operations that stage the configuration files of a check: files
/// met walking the workspace (`walked`), the plugins' exports, settings and
/// fetches, and copies into the tools of `invocations`.
pub fn compute_config_staging_operations(
    paths: &StagingPaths,
    plugins: &[ActivePluginDef],
    exclude_patterns: &[String],
    walked: &[WalkedFile],
    invocations: &[InvocationConfigTarget],
) -> (r: Result<Vec<ConfigOperation>, String>)
    ensures
        r is Ok <==> staging_succeeds(*paths, plugins@, texts(exclude_patterns@), walked@, invocations@),
        r matches Ok(ops) ==> ops_view(ops@) == staging_operations(
            *paths,
            plugins@,
            texts(exclude_patterns@),
            walked@,
            invocations@,
        ),
{
    let all = collect_all_config_paths(plugins);
    let repository = repository_config_operations(paths, all.as_slice(), exclude_patterns, walked);
    let mut ops = match repository {
        Ok(o) => o,
        Err(e) => {
            return Err(e);
        },
    };
    let exported = match exported_config_operations(paths, plugins) {
        Ok(o) => o,
        Err(e) => {
            return Err(e);
        },
    };
    let settings = qlty_config_operations(paths, plugins);
    let fetches = fetch_operations(paths, plugins);
    let configs = match plugin_configs(plugins, paths.root.as_str(), exclude_patterns, walked) {
        Ok(c) => c,
        Err(e) => {
            return Err(e);
        },
    };
    let copies = match tool_install_config_operations(invocations, &configs) {
        Ok(o) => o,
        Err(e) => {
            return Err(e);
        },
    };
    let ghost a = ops_view(ops@);
    let ghost b = ops_view(exported@);
    let ghost c = ops_view(settings@);
    let ghost d = ops_view(fetches@);
    let ghost e = ops_view(copies@);
    let mut exported = exported;
    let mut settings = settings;
    let mut fetches = fetches;
    let mut copies = copies;
    ops.append(&mut exported);
    ops.append(&mut settings);
    ops.append(&mut fetches);
    ops.append(&mut copies);
    assert(ops_view(ops@) =~= a + b + c + d + e);
    Ok(ops)
}

} // verus!
