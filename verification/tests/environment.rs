use qlty::tool::environment::{
    default_extra_env_paths, env_paths, extra_env_vars_with_plugin_env, join_env_paths,
    load_environment_paths, system_env_key_names, tool_env,
};
use qlty::tool::{Interpolation, PluginEnvironment};

fn ctx() -> Interpolation {
    Interpolation {
        env: vec![("HOME".to_string(), "/home/me".to_string())],
        linter: "/tools/eslint".to_string(),
        cachedir: "/cache".to_string(),
        runtime: Some("/tools/node".to_string()),
    }
}

fn path_env(list: &[&str], value: &str) -> PluginEnvironment {
    PluginEnvironment {
        name: "PATH".to_string(),
        list: list.iter().map(|s| s.to_string()).collect(),
        value: value.to_string(),
    }
}

fn get<'a>(env: &'a [(String, String)], key: &str) -> Option<&'a str> {
    env.iter().find(|(k, _)| k == key).map(|(_, v)| v.as_str())
}

#[test]
fn test_tool_env() {
    let dir = "/tools/test/1.0.0-abc";
    let paths = env_paths(&ctx(), &[], default_extra_env_paths(dir), vec![]);
    let path = join_env_paths(&paths, "test").unwrap();
    assert_eq!(
        path,
        "/tools/test/1.0.0-abc/bin:/tools/test/1.0.0-abc:/usr/local/bin:/usr/bin:/bin:/usr/sbin:/sbin"
    );
    let system = vec![("HOME".to_string(), "/home/me".to_string())];
    let vars = vec![("TEST".to_string(), "test".to_string())];
    let env = tool_env(&system, path.clone(), &vars);
    assert_eq!(get(&env, "HOME"), Some("/home/me"));
    assert_eq!(get(&env, "PATH"), Some(path.as_str()));
    assert_eq!(get(&env, "TEST"), Some("test"));
    assert_eq!(env.len(), 3);
    assert_eq!(system_env_key_names(), vec!["HOME", "https_proxy", "HTTPS_PROXY", "http_proxy", "HTTP_PROXY"]);
}

#[test]
fn plugin_path_settings_replace_the_defaults() {
    let envs = vec![
        path_env(&["${linter}/bin", "${runtime}/bin:${cachedir}/x"], "${env.HOME}/.local/bin"),
        PluginEnvironment { name: "OTHER".to_string(), list: vec!["/ignored".to_string()], value: "v".to_string() },
    ];
    let expected = vec![
        "/tools/eslint/bin",
        "/tools/node/bin",
        "/cache/x",
        "/home/me/.local/bin",
    ];
    assert_eq!(load_environment_paths(&ctx(), &envs), expected);
    assert_eq!(
        env_paths(&ctx(), &envs, vec!["/own".to_string()], vec!["/runtime".to_string()]),
        expected
    );
    assert_eq!(
        env_paths(&ctx(), &[], vec!["/own".to_string()], vec!["/runtime".to_string()]),
        vec!["/own", "/runtime", "/usr/local/bin", "/usr/bin", "/bin", "/usr/sbin", "/sbin"]
    );
}

#[test]
fn a_directory_with_a_colon_cannot_join() {
    assert_eq!(
        join_env_paths(&["/a:b".to_string()], "ruff"),
        Err("Failed to join paths for ruff".to_string())
    );
    assert_eq!(join_env_paths(&[], "ruff"), Ok(String::new()));
}

#[test]
fn test_extra_env_vars() {
    let extra = vec![("TEST".to_string(), "value".to_string()), ("KEEP".to_string(), "1".to_string())];
    let envs = vec![PluginEnvironment {
        name: "TEST".to_string(),
        list: vec![],
        value: " ${linter} ".to_string(),
    }];
    let env = extra_env_vars_with_plugin_env(&extra, &ctx(), &envs);
    assert_eq!(get(&env, "TEST"), Some("/tools/eslint"));
    assert_eq!(get(&env, "KEEP"), Some("1"));
    let env = extra_env_vars_with_plugin_env(&extra, &ctx(), &[]);
    assert_eq!(get(&env, "TEST"), Some("value"));
}
