//! The environment a tool's commands run in: the directories searched for
//! commands, and the variables set.

use crate::pattern::texts;
use crate::text::{
    chars_of, join, join_chars, join_path, joined_path, push_str, split_on, split_on_char,
    string_from_chars, str_eq,
};
use crate::tool::{
    distinct_names, environment_vars, load_environment_vars, pairs_map, set_pair, Interpolation,
    PluginEnvironment,
};
use vstd::prelude::*;

verus! {

/// The directories always searched for commands, last.
pub open spec fn base_shell_path() -> Seq<Seq<char>> {
    seq!["/usr/local/bin"@, "/usr/bin"@, "/bin"@, "/usr/sbin"@, "/sbin"@]
}

/// The variables of the system that a tool's commands see.
pub open spec fn system_env_keys() -> Seq<Seq<char>> {
    seq!["HOME"@, "https_proxy"@, "HTTPS_PROXY"@, "http_proxy"@, "HTTP_PROXY"@]
}

/// The names of the variables of the system that a tool's commands see.
pub fn system_env_key_names() -> (r: Vec<&'static str>)
    ensures
        r@.map_values(|s: &'static str| s@) == system_env_keys(),
{
    let r = vec!["HOME", "https_proxy", "HTTPS_PROXY", "http_proxy", "HTTP_PROXY"];
    assert(r@.map_values(|s: &'static str| s@) =~= system_env_keys());
    r
}

/// The directories a `PATH` setting lists, as `std::env::split_paths`
/// reads it on Unix: the pieces between colons.
pub open spec fn path_list(s: Seq<char>) -> Seq<Seq<char>> {
    split_on(s, ':')
}

/// The directories of the entries `items` of a `PATH` setting, each
/// interpolated and split.
pub open spec fn list_paths(ctx: Interpolation, items: Seq<Seq<char>>) -> Seq<Seq<char>>
    decreases items.len(),
{
    if items.len() == 0 {
        seq![]
    } else {
        list_paths(ctx, items.drop_last()) + path_list(ctx.interpolated(items.last()))
    }
}

/// The directories a plugin's environment puts on `PATH`: for each `PATH`
/// setting, the directories of its list, then those of its value when it
/// has one.
pub open spec fn environment_paths(ctx: Interpolation, envs: Seq<PluginEnvironment>) -> Seq<Seq<char>>
    decreases envs.len(),
{
    if envs.len() == 0 {
        seq![]
    } else {
        let rest = environment_paths(ctx, envs.drop_last());
        let e = envs.last();
        if e.name@ == "PATH"@ {
            rest + list_paths(ctx, texts(e.list@)) + if e.value@.len() > 0 {
                path_list(ctx.interpolated(e.value@))
            } else {
                seq![]
            }
        } else {
            rest
        }
    }
}

/// Appends the directories a `PATH` setting `value` lists.
fn push_path_list(out: &mut Vec<String>, value: &str)
    ensures
        texts(final(out)@) == texts(old(out)@) + path_list(value@),
{
    let chars = chars_of(value);
    let pieces = split_on_char(chars.as_slice(), ':');
    let ghost start = texts(out@);
    let ghost p = split_on(value@, ':');
    let mut i: usize = 0;
    while i < pieces.len()
        invariant
            i <= pieces@.len(),
            pieces@.len() == p.len(),
            p == split_on(value@, ':'),
            chars@ == value@,
            forall|k: int| 0 <= k < pieces@.len() ==> #[trigger] pieces@[k]@ == p[k],
            texts(out@) == start + p.take(i as int),
        decreases pieces@.len() - i,
    {
        let ghost before = out@;
        out.push(string_from_chars(pieces[i].as_slice()));
        assert(texts(out@) =~= texts(before).push(p[i as int]));
        assert(p.take(i + 1) =~= p.take(i as int).push(p[i as int]));
        i = i + 1;
    }
    assert(p.take(i as int) =~= p);
}

/// The directories the plugin environment `envs` puts on `PATH`.
pub fn load_environment_paths(ctx: &Interpolation, envs: &[PluginEnvironment]) -> (r: Vec<String>)
    ensures
        texts(r@) == environment_paths(*ctx, envs@),
{
    proof {
        reveal_strlit("PATH");
    }
    let mut paths: Vec<String> = Vec::new();
    let mut i: usize = 0;
    while i < envs.len()
        invariant
            i <= envs@.len(),
            texts(paths@) == environment_paths(*ctx, envs@.take(i as int)),
        decreases envs@.len() - i,
    {
        assert(envs@.take(i + 1).drop_last() =~= envs@.take(i as int));
        assert(envs@.take(i + 1).last() == envs@[i as int]);
        let e = &envs[i];
        if str_eq(e.name.as_str(), "PATH") {
            let ghost before = texts(paths@);
            let mut k: usize = 0;
            while k < e.list.len()
                invariant
                    k <= e.list@.len(),
                    texts(paths@) == before + list_paths(*ctx, texts(e.list@).take(k as int)),
                decreases e.list@.len() - k,
            {
                assert(texts(e.list@).take(k + 1).drop_last() =~= texts(e.list@).take(k as int));
                assert(texts(e.list@).take(k + 1).last() == e.list@[k as int]@);
                let value = ctx.interpolate_variables(e.list[k].as_str());
                push_path_list(&mut paths, value.as_str());
                k = k + 1;
            }
            assert(texts(e.list@).take(k as int) =~= texts(e.list@));
            if e.value.as_str().is_empty() {
                assert(texts(paths@) =~= before + list_paths(*ctx, texts(e.list@)) + seq![]);
            } else {
                let value = ctx.interpolate_variables(e.value.as_str());
                push_path_list(&mut paths, value.as_str());
            }
        }
        i = i + 1;
    }
    assert(envs@.take(i as int) =~= envs@);
    paths
}

/// The directories a tool puts on `PATH` unless it says otherwise: its
/// installation directory's `bin`, then the directory itself.
pub fn default_extra_env_paths(directory: &str) -> (r: Vec<String>)
    ensures
        texts(r@) == seq![joined_path(directory@, "bin"@), directory@],
{
    let r = vec![join_path(directory, "bin"), directory.to_string()];
    assert(texts(r@) =~= seq![joined_path(directory@, "bin"@), directory@]);
    r
}

/// The directories searched for a tool's commands: those its plugin's
/// environment sets, if any; else the tool's own, its runtime's and the
/// base shell path.
pub open spec fn env_paths_of(
    plugin_paths: Seq<Seq<char>>,
    extra: Seq<Seq<char>>,
    runtime: Seq<Seq<char>>,
) -> Seq<Seq<char>> {
    if plugin_paths.len() > 0 {
        plugin_paths
    } else {
        extra + runtime + base_shell_path()
    }
}

/// The directories searched for the commands of a tool whose plugin's
/// environment is `envs`, whose own directories are `extra_paths` and
/// whose runtime's are `runtime_paths`.
pub fn env_paths(
    ctx: &Interpolation,
    envs: &[PluginEnvironment],
    extra_paths: Vec<String>,
    runtime_paths: Vec<String>,
) -> (r: Vec<String>)
    ensures
        texts(r@) == env_paths_of(environment_paths(*ctx, envs@), texts(extra_paths@), texts(runtime_paths@)),
{
    let plugin_paths = load_environment_paths(ctx, envs);
    if plugin_paths.len() > 0 {
        return plugin_paths;
    }
    let mut paths = extra_paths;
    let mut runtime = runtime_paths;
    let ghost a = texts(paths@);
    let ghost b = texts(runtime@);
    paths.append(&mut runtime);
    let ghost ab = texts(paths@);
    assert(ab =~= a + b);
    paths.push("/usr/local/bin".to_string());
    paths.push("/usr/bin".to_string());
    paths.push("/bin".to_string());
    paths.push("/usr/sbin".to_string());
    paths.push("/sbin".to_string());
    assert(texts(paths@) =~= ab + base_shell_path());
    paths
}

/// Whether one of the directories holds the path separator, which no
/// `PATH` can hold.
pub open spec fn has_separator(paths: Seq<Seq<char>>) -> bool {
    exists|i: int| 0 <= i < paths.len() && (#[trigger] paths[i]).contains(':')
}

/// The `PATH` of a tool named `name`, its directories joined with colons
/// as `std::env::join_paths` does on Unix; an error when a directory holds
/// a colon.
pub fn join_env_paths(paths: &[String], name: &str) -> (r: Result<String, String>)
    ensures
        has_separator(texts(paths@)) ==> (r matches Err(e) && e@ == "Failed to join paths for "@ + name@),
        !has_separator(texts(paths@)) ==> (r matches Ok(p) && p@ == join(texts(paths@), ":"@)),
{
    let mut pieces: Vec<Vec<char>> = Vec::new();
    let mut i: usize = 0;
    while i < paths.len()
        invariant
            i <= paths@.len(),
            pieces@.map_values(|v: Vec<char>| v@) == texts(paths@).take(i as int),
            forall|k: int| 0 <= k < i ==> !(#[trigger] texts(paths@)[k]).contains(':'),
        decreases paths@.len() - i,
    {
        let cs = chars_of(paths[i].as_str());
        let mut j: usize = 0;
        while j < cs.len()
            invariant
                i < paths@.len(),
                j <= cs@.len(),
                cs@ == paths@[i as int]@,
                forall|k: int| 0 <= k < j ==> cs@[k] != ':',
            decreases cs@.len() - j,
        {
            if cs[j] == ':' {
                assert(texts(paths@)[i as int][j as int] == ':');
                assert(has_separator(texts(paths@)));
                let mut out = chars_of("Failed to join paths for ");
                push_str(&mut out, name);
                return Err(string_from_chars(out.as_slice()));
            }
            j = j + 1;
        }
        assert(!texts(paths@)[i as int].contains(':'));
        let ghost before = pieces@.map_values(|v: Vec<char>| v@);
        pieces.push(cs);
        assert(pieces@.map_values(|v: Vec<char>| v@) =~= before.push(paths@[i as int]@));
        assert(texts(paths@).take(i + 1) =~= texts(paths@).take(i as int).push(paths@[i as int]@));
        i = i + 1;
    }
    assert(texts(paths@).take(i as int) =~= texts(paths@));
    let sep = chars_of(":");
    let joined = join_chars(pieces.as_slice(), sep.as_slice());
    Ok(string_from_chars(joined.as_slice()))
}

/// Sets each of `pairs` in `env`, in order.
fn set_pairs(env: &mut Vec<(String, String)>, pairs: &[(String, String)])
    requires
        distinct_names(old(env)@),
    ensures
        distinct_names(final(env)@),
        pairs_map(final(env)@) == pairs_map(old(env)@).union_prefer_right(pairs_map(pairs@)),
{
    let ghost start = pairs_map(env@);
    let mut i: usize = 0;
    while i < pairs.len()
        invariant
            i <= pairs@.len(),
            distinct_names(env@),
            pairs_map(env@) == start.union_prefer_right(pairs_map(pairs@.take(i as int))),
        decreases pairs@.len() - i,
    {
        assert(pairs@.take(i + 1).drop_last() =~= pairs@.take(i as int));
        assert(pairs@.take(i + 1).last() == pairs@[i as int]);
        set_pair(env, pairs[i].0.clone(), pairs[i].1.clone());
        assert(pairs_map(env@) =~= start.union_prefer_right(pairs_map(pairs@.take(i + 1))));
        i = i + 1;
    }
    assert(pairs@.take(i as int) =~= pairs@);
}

/// The variables of a tool: its own `extra`, then those its plugin's
/// environment `envs` sets, which win.
pub fn extra_env_vars_with_plugin_env(
    extra: &[(String, String)],
    ctx: &Interpolation,
    envs: &[PluginEnvironment],
) -> (r: Vec<(String, String)>)
    ensures
        distinct_names(r@),
        pairs_map(r@) == pairs_map(extra@).union_prefer_right(environment_vars(*ctx, envs@)),
{
    let mut env: Vec<(String, String)> = Vec::new();
    assert(pairs_map(env@) =~= Map::empty());
    set_pairs(&mut env, extra);
    assert(pairs_map(env@) =~= pairs_map(extra@));
    let plugin = load_environment_vars(ctx, envs);
    set_pairs(&mut env, plugin.as_slice());
    env
}

/// The environment a tool's commands run in: the system variables
/// `system` it sees, its `PATH`, then its own variables `vars`, which win.
pub fn tool_env(system: &[(String, String)], path: String, vars: &[(String, String)]) -> (r: Vec<
    (String, String),
>)
    ensures
        distinct_names(r@),
        pairs_map(r@) == pairs_map(system@).insert("PATH"@, path@).union_prefer_right(pairs_map(vars@)),
{
    let mut env: Vec<(String, String)> = Vec::new();
    assert(pairs_map(env@) =~= Map::empty());
    set_pairs(&mut env, system);
    assert(pairs_map(env@) =~= pairs_map(system@));
    set_pair(&mut env, "PATH".to_string(), path);
    set_pairs(&mut env, vars);
    env
}

} // verus!
