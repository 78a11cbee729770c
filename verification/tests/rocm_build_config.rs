use rocm_build::rocm_build::config::{
    AppConfigFile, Cli, Commands, Config, ConfigContext, ConfigError, DEFAULT_PROJECT_SEARCH_DEPTH,
};

fn s(x: &str) -> String {
    x.to_string()
}

fn ctx(cwd: &str, dirs: &[&str]) -> ConfigContext {
    ConfigContext {
        current_dir: s(cwd),
        config_file: None,
        rocm_cmake_env: None,
        existing_dirs: dirs.iter().map(|d| s(d)).collect(),
    }
}

fn file(rocm_cmake_path: Option<&str>, depth: Option<usize>, dirs: Option<Vec<&str>>) -> AppConfigFile {
    AppConfigFile {
        rocm_cmake_path: rocm_cmake_path.map(s),
        default_project_search_depth: depth,
        default_source_dirs: dirs.map(|v| v.into_iter().map(s).collect()),
    }
}

fn build_cli() -> Cli {
    Cli::new(Commands::Build)
}

fn rc_ctx(cwd: &str) -> ConfigContext {
    let rc = format!("{}/rocm-cmake", cwd);
    ctx(cwd, &[rc.as_str()])
}

fn eq_path(a: &str, b: &str) -> bool {
    std::path::Path::new(a) == std::path::Path::new(b)
}

#[test]
fn test_default_build_type() {
    let cli = build_cli();
    assert_eq!(cli.build_type, "Release");
    let config = Config::from_cli(cli, &rc_ctx("/p")).unwrap();
    assert_eq!(config.build_type, "Release");
}

#[test]
fn test_custom_build_type() {
    let mut cli = build_cli();
    cli.build_type = s("Debug");
    assert_eq!(cli.build_type, "Debug");
    let config = Config::from_cli(cli, &rc_ctx("/p")).unwrap();
    assert_eq!(config.build_type, "Debug");
}

#[test]
fn test_no_cmake_args() {
    let cli = build_cli();
    assert!(cli.cmake_args.is_empty());
    let config = Config::from_cli(cli, &rc_ctx("/p")).unwrap();
    assert!(config.cmake_args.is_empty());
}

#[test]
fn test_single_cmake_arg() {
    let mut cli = build_cli();
    cli.cmake_args = vec![s("-DVAR1=VAL1")];
    assert_eq!(cli.cmake_args, vec!["-DVAR1=VAL1"]);
    let config = Config::from_cli(cli, &rc_ctx("/p")).unwrap();
    assert_eq!(config.cmake_args, vec!["-DVAR1=VAL1"]);
}

#[test]
fn test_multiple_cmake_args() {
    let mut cli = build_cli();
    cli.cmake_args = vec![s("-DVAR1=VAL1"), s("-DVAR2=VAL2")];
    assert_eq!(cli.cmake_args, vec!["-DVAR1=VAL1", "-DVAR2=VAL2"]);
    let config = Config::from_cli(cli, &rc_ctx("/p")).unwrap();
    assert_eq!(config.cmake_args, vec!["-DVAR1=VAL1", "-DVAR2=VAL2"]);
}

#[test]
fn test_default_build_dir_resolution() {
    let config = Config::from_cli(build_cli(), &rc_ctx("/p")).unwrap();
    assert!(eq_path(&config.build_dir, "/p/build"));
}

#[test]
fn test_absolute_build_dir_resolution() {
    let mut cli = build_cli();
    cli.build_dir = s("/abs/out");
    let config = Config::from_cli(cli, &rc_ctx("/p")).unwrap();
    assert_eq!(config.build_dir, "/abs/out");
}

#[test]
fn test_relative_build_dir_resolution() {
    let mut cli = build_cli();
    cli.build_dir = s("my_custom_build");
    let config = Config::from_cli(cli, &rc_ctx("/p")).unwrap();
    assert_eq!(config.build_dir, "/p/my_custom_build");
}

#[test]
fn test_default_jobs_option() {
    let cli = build_cli();
    assert_eq!(cli.jobs, None);
    let config = Config::from_cli(cli, &rc_ctx("/t")).expect("Config from CLI failed");
    assert_eq!(config.jobs, None);
}

#[test]
fn test_custom_jobs_option() {
    let mut cli = build_cli();
    cli.jobs = Some(4);
    assert_eq!(cli.jobs, Some(4));
    let config = Config::from_cli(cli, &rc_ctx("/t")).expect("Config from CLI failed");
    assert_eq!(config.jobs, Some(4));
}

#[test]
fn test_rocm_cmake_path_from_env_valid() {
    let mut x = rc_ctx("/t");
    x.rocm_cmake_env = Some(s("/t/rocm-cmake"));
    let config = Config::from_cli(build_cli(), &x).expect("Config from CLI failed");
    assert_eq!(config.rocm_cmake_path, "/t/rocm-cmake");
    assert_eq!(config.source_dirs, vec![s("/t")]);
}

#[test]
fn test_rocm_cmake_path_from_env_invalid_name_falls_back() {
    let mut x = ctx("/t", &["/t/not_rocm_cmake_dir", "/t/rocm-cmake"]);
    x.rocm_cmake_env = Some(s("/t/not_rocm_cmake_dir"));
    let config = Config::from_cli(build_cli(), &x).expect("Config from CLI failed");
    assert_eq!(config.rocm_cmake_path, "/t/rocm-cmake");
    assert_eq!(config.source_dirs, vec![s("/t")]);
}

#[test]
fn test_rocm_cmake_path_from_env_valid_but_not_dir_falls_back() {
    // `/t/rocm-cmake` is a file; the search runs from `/t/discoverable_parent`.
    let mut x = ctx("/t/discoverable_parent", &["/t/discoverable_parent/rocm-cmake"]);
    x.rocm_cmake_env = Some(s("/t/rocm-cmake"));
    let config = Config::from_cli(build_cli(), &x).expect("Config from CLI failed");
    assert_eq!(config.rocm_cmake_path, "/t/discoverable_parent/rocm-cmake");
    assert_eq!(config.source_dirs, vec![s("/t/discoverable_parent")]);
}

#[test]
fn test_rocm_cmake_path_search_current_dir() {
    let config = Config::from_cli(build_cli(), &rc_ctx("/t")).expect("Config from CLI failed");
    assert_eq!(config.rocm_cmake_path, "/t/rocm-cmake");
    assert_eq!(config.source_dirs, vec![s("/t")]);
}

#[test]
fn test_rocm_cmake_path_search_parent_dir() {
    let x = ctx("/t/current_subdir", &["/t/rocm-cmake", "/t/current_subdir", "/t/current_subdir/build"]);
    let config = Config::from_cli(build_cli(), &x).expect("Config from CLI failed");
    assert_eq!(config.rocm_cmake_path, "/t/rocm-cmake");
    assert_eq!(config.source_dirs, vec![s("/t")]);
}

#[test]
fn test_rocm_cmake_path_not_found_returns_err() {
    let config_result = Config::from_cli(build_cli(), &ctx("/t", &[]));
    assert!(config_result.is_err());
    if let Err(e) = config_result {
        assert!(e.message().contains("'rocm-cmake' directory not found"));
    }
}

#[test]
fn test_default_project_search_depth() {
    let cli = build_cli();
    assert_eq!(cli.project_search_depth, None);
    let config = Config::from_cli(cli, &rc_ctx("/t")).expect("Config from CLI failed");
    assert_eq!(config.project_search_depth, DEFAULT_PROJECT_SEARCH_DEPTH);
}

#[test]
fn test_custom_project_search_depth() {
    let mut cli = build_cli();
    cli.project_search_depth = Some(3);
    assert_eq!(cli.project_search_depth, Some(3));
    let config = Config::from_cli(cli, &rc_ctx("/t")).expect("Config from CLI failed");
    assert_eq!(config.project_search_depth, 3);
}

#[test]
fn test_config_source_dirs_default() {
    let config = Config::from_cli(build_cli(), &rc_ctx("/t"))
        .expect("Config from CLI failed for default source_dirs");
    assert_eq!(config.source_dirs.len(), 1, "Default source_dirs should have one entry");
    assert_eq!(config.source_dirs[0], "/t", "Default source_dir should be parent of rocm-cmake");
    assert_eq!(config.rocm_cmake_path, "/t/rocm-cmake", "rocm_cmake_path should be correctly identified");
}

#[test]
fn test_config_source_dirs_one_absolute() {
    let mut cli = build_cli();
    cli.source_dirs = vec![s("/tmp/user_src")];
    let config = Config::from_cli(cli, &ctx("/t", &["/t/rocm-cmake", "/tmp/user_src"]))
        .expect("Config from CLI failed for one absolute source_dir");
    assert_eq!(config.source_dirs.len(), 1, "source_dirs should have one entry");
    assert_eq!(
        config.source_dirs[0], "/tmp/user_src",
        "source_dirs should contain the user-specified absolute path"
    );
}

#[test]
fn test_config_source_dirs_one_relative() {
    let mut cli = build_cli();
    cli.source_dirs = vec![s("my_projects_subdir")];
    let config = Config::from_cli(cli, &ctx("/t", &["/t/rocm-cmake", "/t/my_projects_subdir"]))
        .expect("Config from CLI failed for one relative source_dir");
    assert_eq!(config.source_dirs.len(), 1, "source_dirs should have one entry");
    assert_eq!(
        config.source_dirs[0], "/t/my_projects_subdir",
        "Relative source_dir should be resolved to absolute path"
    );
}

#[test]
fn test_config_source_dirs_multiple() {
    let mut cli = build_cli();
    cli.source_dirs = vec![s("/tmp/abs_src"), s("my_other_projects")];
    let config = Config::from_cli(cli, &ctx("/t", &["/t/rocm-cmake", "/tmp/abs_src", "/t/my_other_projects"]))
        .expect("Config from CLI failed for multiple source_dirs");
    assert_eq!(config.source_dirs.len(), 2, "source_dirs should have two entries");
    let mut sorted_dirs = config.source_dirs.clone();
    sorted_dirs.sort();
    let mut expected_dirs = vec![s("/tmp/abs_src"), s("/t/my_other_projects")];
    expected_dirs.sort();
    assert_eq!(sorted_dirs, expected_dirs, "Configured source_dirs do not match expected");
}

#[test]
fn test_config_source_dirs_user_specified_non_existent() {
    let mut cli = build_cli();
    cli.source_dirs = vec![s("/t/i_do_not_exist")];
    let config = Config::from_cli(cli, &rc_ctx("/t"))
        .expect("Config::from_cli failed even with non-existent source dir");
    assert_eq!(config.source_dirs.len(), 1);
    assert_eq!(config.source_dirs[0], "/t/i_do_not_exist");
}

#[test]
fn test_rocm_path_env_over_config_over_search() {
    let mut x = ctx(
        "/t",
        &[
            "/t/env_ver_parent/rocm-cmake",
            "/t/config_ver_parent/rocm-cmake",
            "/t/search_ver_parent/rocm-cmake",
            "/t/rocm-cmake",
        ],
    );
    x.rocm_cmake_env = Some(s("/t/env_ver_parent/rocm-cmake"));
    x.config_file = Some(file(Some("/t/config_ver_parent/rocm-cmake"), None, None));
    let config = Config::from_cli(build_cli(), &x).expect("Config from CLI failed");
    assert_eq!(config.rocm_cmake_path, "/t/env_ver_parent/rocm-cmake");
    assert_eq!(config.source_dirs[0], "/t/env_ver_parent");
}

#[test]
fn test_rocm_path_config_over_search() {
    let mut x = ctx("/t", &["/t/config_ver_parent/rocm-cmake", "/t/rocm-cmake"]);
    x.config_file = Some(file(Some("/t/config_ver_parent/rocm-cmake"), None, None));
    let config = Config::from_cli(build_cli(), &x).expect("Config from CLI failed");
    assert_eq!(config.rocm_cmake_path, "/t/config_ver_parent/rocm-cmake");
    assert_eq!(config.source_dirs[0], "/t/config_ver_parent");
}

#[test]
fn test_rocm_path_search_fallback() {
    let mut x = rc_ctx("/t");
    x.config_file = Some(AppConfigFile::empty());
    let config = Config::from_cli(build_cli(), &x).expect("Config from CLI failed");
    assert_eq!(config.rocm_cmake_path, "/t/rocm-cmake");
    assert_eq!(config.source_dirs[0], "/t");
}

#[test]
fn test_rocm_path_config_invalid_path_falls_back_to_search() {
    let mut x = rc_ctx("/t");
    x.config_file = Some(file(Some("/t/non_existent_rocm_cmake"), None, None));
    let config = Config::from_cli(build_cli(), &x).expect("Config from CLI failed");
    assert_eq!(config.rocm_cmake_path, "/t/rocm-cmake");
    assert_eq!(config.source_dirs[0], "/t");
}

#[test]
fn test_rocm_path_config_relative_path() {
    let mut x = ctx("/t", &["/t/my/relative/rocm-cmake"]);
    x.config_file = Some(file(Some("my/relative/rocm-cmake"), None, None));
    let config = Config::from_cli(build_cli(), &x).expect("Config from CLI failed");
    assert_eq!(config.rocm_cmake_path, "/t/my/relative/rocm-cmake");
    assert_eq!(config.source_dirs[0], "/t/my/relative");
}

#[test]
fn test_rocm_path_not_found_any_method() {
    let mut x = ctx("/t", &[]);
    x.config_file = Some(AppConfigFile::empty());
    let config_result = Config::from_cli(build_cli(), &x);
    assert!(
        config_result.is_err(),
        "Expected an error when rocm-cmake path is not found by any method"
    );
    if let Err(e) = config_result {
        assert!(e.message().contains("'rocm-cmake' directory not found"));
    }
}

#[test]
fn test_depth_cli_over_config_over_default() {
    let mut x = rc_ctx("/t");
    x.config_file = Some(file(None, Some(5), None));
    let mut cli = build_cli();
    cli.project_search_depth = Some(10);
    let config = Config::from_cli(cli, &x).expect("Config from CLI failed");
    assert_eq!(config.project_search_depth, 10, "CLI value should override config and default");
}

#[test]
fn test_depth_config_over_default() {
    let mut x = rc_ctx("/t");
    x.config_file = Some(file(None, Some(5), None));
    let config = Config::from_cli(build_cli(), &x).expect("Config from CLI failed");
    assert_eq!(config.project_search_depth, 5, "Config value should override default");
}

#[test]
fn test_depth_default_used() {
    let mut x = rc_ctx("/t");
    x.config_file = Some(AppConfigFile::empty());
    let config = Config::from_cli(build_cli(), &x).expect("Config from CLI failed");
    assert_eq!(config.project_search_depth, DEFAULT_PROJECT_SEARCH_DEPTH, "Default value should be used");
}

fn default_parent_ctx() -> ConfigContext {
    let mut x = ctx("/t", &["/t/rcm_default_parent/rocm-cmake"]);
    x.rocm_cmake_env = Some(s("/t/rcm_default_parent/rocm-cmake"));
    x
}

#[test]
fn test_src_dirs_cli_over_config_over_default() {
    let mut x = default_parent_ctx();
    x.config_file = Some(file(None, None, Some(vec!["config_src_relative"])));
    let mut cli = build_cli();
    cli.source_dirs = vec![s("/t/cli_src")];
    let config = Config::from_cli(cli, &x).expect("Config from CLI failed");
    assert_eq!(config.source_dirs.len(), 1);
    assert_eq!(config.source_dirs[0], "/t/cli_src", "CLI specified source_dir should be used");
}

#[test]
fn test_src_dirs_config_one_path_over_default() {
    let mut x = default_parent_ctx();
    x.config_file = Some(file(None, None, Some(vec!["config_src_dir"])));
    let config = Config::from_cli(build_cli(), &x).expect("Config from CLI failed");
    assert_eq!(config.source_dirs.len(), 1);
    assert_eq!(config.source_dirs[0], "/t/config_src_dir", "Config specified source_dir should be used");
}

#[test]
fn test_src_dirs_config_multiple_paths_over_default() {
    let mut x = default_parent_ctx();
    x.config_file = Some(file(None, None, Some(vec!["cfg_projects1", "/tmp/cfg_projects2"])));
    let config = Config::from_cli(build_cli(), &x).expect("Config from CLI failed");
    assert_eq!(config.source_dirs.len(), 2);
    let mut expected_dirs = vec![s("/t/cfg_projects1"), s("/tmp/cfg_projects2")];
    expected_dirs.sort();
    let mut actual_dirs = config.source_dirs.clone();
    actual_dirs.sort();
    assert_eq!(actual_dirs, expected_dirs, "Config specified source_dirs not matching");
}

#[test]
fn test_src_dirs_config_empty_list_falls_back_to_default() {
    let mut x = default_parent_ctx();
    x.config_file = Some(file(None, None, Some(vec![])));
    let config = Config::from_cli(build_cli(), &x).expect("Config from CLI failed");
    assert_eq!(config.source_dirs.len(), 1);
    assert_eq!(config.source_dirs[0], "/t/rcm_default_parent", "Should use default rocm-cmake parent");
}

#[test]
fn test_src_dirs_default_used() {
    let mut x = default_parent_ctx();
    x.config_file = Some(AppConfigFile::empty());
    let config = Config::from_cli(build_cli(), &x).expect("Config from CLI failed");
    assert_eq!(config.source_dirs.len(), 1);
    assert_eq!(config.source_dirs[0], "/t/rcm_default_parent", "Should use default rocm-cmake parent");
}

#[test]
fn rocm_cmake_empty_env_is_ignored() {
    let mut x = rc_ctx("/t");
    x.rocm_cmake_env = Some(s(""));
    let c = Config::from_cli(build_cli(), &x).unwrap();
    assert_eq!(c.rocm_cmake_path, "/t/rocm-cmake");
}

#[test]
fn rocm_cmake_search_stops_after_six_levels() {
    let found = Config::from_cli(build_cli(), &ctx("/a/b/c/d/e/f", &["/a/rocm-cmake"])).unwrap();
    assert_eq!(found.rocm_cmake_path, "/a/rocm-cmake");
    let r = Config::from_cli(build_cli(), &ctx("/a/b/c/d/e/f/g", &["/a/rocm-cmake"]));
    assert!(matches!(r, Err(ConfigError::RocmCmakeNotFound)));
}

#[test]
fn relative_install_dir_is_resolved() {
    let mut cli = build_cli();
    cli.install_dir = Some(s("inst"));
    let c = Config::from_cli(cli, &rc_ctx("/p")).unwrap();
    assert_eq!(c.install_dir, Some(s("/p/inst")));
}

#[test]
fn probe_paths_cover_env_file_and_search() {
    let mut x = ctx("/a/b", &[]);
    x.rocm_cmake_env = Some(s("/e/rocm-cmake"));
    x.config_file = Some(file(Some("rel/rocm-cmake"), None, None));
    assert_eq!(
        x.probe_paths(),
        vec![s("/e/rocm-cmake"), s("/a/b/rel/rocm-cmake"), s("/a/b/rocm-cmake"), s("/a/rocm-cmake"), s("/rocm-cmake")]
    );
}

#[test]
fn package_dirs() {
    let mut cli = build_cli();
    cli.install_dir = Some(s("/inst"));
    let c = Config::from_cli(cli, &rc_ctx("/p")).unwrap();
    assert_eq!(c.get_package_build_dir("hip"), "/p/./build/hip");
    assert_eq!(c.get_package_install_dir("hip"), Some(s("/inst/hip")));
    let c = Config::from_cli(build_cli(), &rc_ctx("/p")).unwrap();
    assert_eq!(c.get_package_install_dir("hip"), None);
}
