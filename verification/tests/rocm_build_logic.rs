use rocm_build::plan::{CommandSpec, Step};
use rocm_build::rocm_build::build_logic::run_build;
use rocm_build::rocm_build::clean_logic::{packages_to_clean, run_clean};
use rocm_build::rocm_build::config::Config;
use rocm_build::rocm_build::outdir_logic::{run_outdir, OutdirError};
use rocm_build::rocm_build::utils::{
    find_cmake_projects, is_package_selected, prepend_unique_path, ProjectDirEntry, SelectedPurpose,
};

fn s(x: &str) -> String {
    x.to_string()
}

fn sv(v: &[&str]) -> Vec<String> {
    v.iter().map(|x| s(x)).collect()
}

fn config(packages: &[&str], install_dir: Option<&str>) -> Config {
    Config {
        build_dir: s("/w/build"),
        install_dir: install_dir.map(s),
        packages: sv(packages),
        rocm_cmake_path: s("/w/rocm-cmake"),
        source_dirs: sv(&["/w"]),
        build_type: s("Release"),
        cmake_args: vec![],
        jobs: None,
        project_search_depth: 1,
    }
}

fn args(c: &CommandSpec) -> Vec<&str> {
    c.args.iter().map(|a| a.as_str()).collect()
}

// Splitting and joining `CMAKE_PREFIX_PATH` happens around the library; these
// check what the list becomes.

#[test]
fn test_generate_prefix_path_initial_none() {
    let result = prepend_unique_path(vec![], "/opt/rocm-cmake");
    assert_eq!(result, sv(&["/opt/rocm-cmake"]));
}

#[test]
fn test_generate_prefix_path_prepend_existing() {
    let result = prepend_unique_path(sv(&["/usr/local"]), "/opt/rocm-cmake");
    assert_eq!(result, sv(&["/opt/rocm-cmake", "/usr/local"]));
}

#[test]
fn test_generate_prefix_path_prepend_multiple_existing() {
    let result = prepend_unique_path(sv(&["/usr/local", "/opt/other"]), "/opt/rocm-cmake");
    assert_eq!(result, sv(&["/opt/rocm-cmake", "/usr/local", "/opt/other"]));
}

#[test]
fn test_generate_prefix_path_no_duplicate_prepend() {
    let existing = sv(&["/usr/local", "/opt/rocm-cmake"]);
    let result = prepend_unique_path(existing.clone(), "/opt/rocm-cmake");
    assert_eq!(result, existing);
}

#[test]
fn test_generate_prefix_path_empty_new_path_os_existing() {
    // An empty variable splits into one empty path.
    let result = prepend_unique_path(sv(&[""]), "/opt/rocm-cmake");
    assert_eq!(result, sv(&["/opt/rocm-cmake", ""]));
}

#[test]
fn test_generate_prefix_path_new_path_is_empty_string() {
    let result = prepend_unique_path(sv(&["/usr/local"]), "");
    assert_eq!(result, sv(&["", "/usr/local"]));
}

#[test]
fn prefix_path_equal_up_to_trailing_slash_is_not_repeated() {
    let existing = sv(&["/usr/local", "/opt/rocm-cmake/"]);
    assert_eq!(prepend_unique_path(existing.clone(), "/opt/rocm-cmake"), existing);
}

#[test]
fn package_selection() {
    assert!(is_package_selected(&[], "hip", SelectedPurpose::Build));
    let sel = sv(&["hip/", "rocm-cmake"]);
    assert!(is_package_selected(&sel, "hip", SelectedPurpose::Clean));
    assert!(is_package_selected(&sel, "hip//", SelectedPurpose::Outdir));
    assert!(!is_package_selected(&sel, "half", SelectedPurpose::Build));
    assert!(!is_package_selected(&sel, "hi", SelectedPurpose::Build));
}

fn entry(path: &str, is_dir: bool, top: bool, in_src: bool) -> ProjectDirEntry {
    ProjectDirEntry { path: s(path), is_dir, has_cmake_lists: top, has_src_cmake_lists: in_src }
}

#[test]
fn cmake_projects_are_found_in_listing_order() {
    let entries = vec![
        entry("/w/zeta", true, true, false),
        entry("/w/rocm-cmake", true, true, false),
        entry("/w/notes.txt", false, true, false),
        entry("/w/empty", true, false, false),
        entry("/w/alpha", true, false, true),
    ];
    assert_eq!(find_cmake_projects(&entries, Some("/w/rocm-cmake")), sv(&["/w/zeta", "/w/alpha"]));
    assert_eq!(
        find_cmake_projects(&entries, None),
        sv(&["/w/zeta", "/w/rocm-cmake", "/w/alpha"])
    );
    assert_eq!(find_cmake_projects(&entries, Some("/w/rocm-cmake/")), sv(&["/w/zeta", "/w/alpha"]));
}

#[test]
fn build_plan_without_install_dir() {
    let c = config(&[], None);
    let plan = run_build(&c, &sv(&["/w/hip"]));
    assert_eq!(plan.len(), 6);
    match &plan[0] {
        Step::CreateDirAll { path, context } => {
            assert_eq!(path, "/w/build/rocm-cmake");
            assert_eq!(context, "Failed to create build directory for rocm-cmake: /w/build/rocm-cmake");
        }
        _ => panic!("expected a directory creation"),
    }
    match &plan[1] {
        Step::Run { command, description, context, prepend_prefix, .. } => {
            assert_eq!(command.program, "cmake");
            assert_eq!(
                args(command),
                vec!["-S/w/rocm-cmake", "-B/w/build/rocm-cmake", "-DCMAKE_BUILD_TYPE=Release"]
            );
            assert_eq!(description, "CMake configuration");
            assert_eq!(
                context.as_deref(),
                Some("CMake configuration failed for rocm-cmake at /w/rocm-cmake")
            );
            assert_eq!(prepend_prefix, &None);
        }
        _ => panic!("expected a command"),
    }
    match &plan[2] {
        Step::Run { command, description, .. } => {
            assert_eq!(args(command), vec!["--build", "/w/build/rocm-cmake", "--config", "Release"]);
            assert_eq!(description, "CMake build");
        }
        _ => panic!("expected a command"),
    }
    match &plan[4] {
        Step::Run { command, prepend_prefix, .. } => {
            assert_eq!(args(command), vec!["-S/w/hip", "-B/w/build/hip", "-DCMAKE_BUILD_TYPE=Release"]);
            assert_eq!(prepend_prefix, &None);
        }
        _ => panic!("expected a command"),
    }
}

#[test]
fn build_plan_with_install_dir_jobs_and_args() {
    let mut c = config(&["hip"], Some("/inst"));
    c.jobs = Some(8);
    c.cmake_args = sv(&["-DX=1"]);
    let plan = run_build(&c, &sv(&["/w/hip", "/w/half"]));
    // rocm-cmake is not selected and half is skipped.
    assert_eq!(plan.len(), 4);
    match &plan[1] {
        Step::Run { command, prepend_prefix, .. } => {
            assert_eq!(
                args(command),
                vec![
                    "-S/w/hip",
                    "-B/w/build/hip",
                    "-DCMAKE_BUILD_TYPE=Release",
                    "-DCMAKE_INSTALL_PREFIX=/inst",
                    "-DX=1"
                ]
            );
            assert_eq!(prepend_prefix.as_deref(), Some("/inst/rocm-cmake"));
        }
        _ => panic!("expected a command"),
    }
    match &plan[2] {
        Step::Run { command, .. } => {
            assert_eq!(
                args(command),
                vec!["--build", "/w/build/hip", "--config", "Release", "--parallel", "8"]
            );
        }
        _ => panic!("expected a command"),
    }
    match &plan[3] {
        Step::Run { command, description, context, .. } => {
            assert_eq!(args(command), vec!["--install", "/w/build/hip", "--config", "Release"]);
            assert_eq!(description, "CMake install");
            assert_eq!(context.as_deref(), Some("CMake install failed for hip from /w/build/hip"));
        }
        _ => panic!("expected a command"),
    }
}

#[test]
fn rocm_cmake_is_installed_into_its_own_directory() {
    let c = config(&["rocm-cmake/"], Some("/inst"));
    let plan = run_build(&c, &sv(&["/w/hip"]));
    assert_eq!(plan.len(), 4);
    match &plan[3] {
        Step::Run { command, description, context, .. } => {
            assert_eq!(
                args(command),
                vec!["--install", "/w/build/rocm-cmake", "--config", "Release", "--prefix", "/inst/rocm-cmake"]
            );
            assert_eq!(description, "CMake install for rocm-cmake");
            assert!(context.is_none());
        }
        _ => panic!("expected a command"),
    }
}

#[test]
fn clean_everything() {
    let c = config(&[], Some("/inst"));
    let found = sv(&["/w/hip", "/w/rocm-cmake", "/w/hip/"]);
    assert_eq!(packages_to_clean(&c, &found), sv(&["hip", "rocm-cmake"]));
    let plan = run_clean(&c, &found);
    assert_eq!(plan.len(), 6);
    match &plan[0] {
        Step::RemoveDirAll { path, context } => {
            assert_eq!(path, "/w/build/hip");
            assert_eq!(context, "Failed to remove build directory for hip: /w/build/hip");
        }
        _ => panic!("expected a removal"),
    }
    match &plan[1] {
        Step::RemoveDirAll { path, .. } => assert_eq!(path, "/inst/hip"),
        _ => panic!("expected a removal"),
    }
    match &plan[4] {
        Step::RemoveDirIfEmpty { path, context } => {
            assert_eq!(path, "/w/build");
            assert_eq!(context, "Failed to remove top-level build directory /w/build");
        }
        _ => panic!("expected a removal"),
    }
    match &plan[5] {
        Step::RemoveDirIfEmpty { path, .. } => assert_eq!(path, "/inst"),
        _ => panic!("expected a removal"),
    }
}

#[test]
fn clean_selected_packages() {
    let c = config(&["hip/", "unknown", "rocm-cmake", "hip"], None);
    let found = sv(&["/w/hip", "/w/half"]);
    assert_eq!(packages_to_clean(&c, &found), sv(&["hip", "rocm-cmake"]));
    let plan = run_clean(&c, &found);
    assert_eq!(plan.len(), 2);
    let c = config(&["unknown"], None);
    assert!(run_clean(&c, &found).is_empty());
}

#[test]
fn clean_adds_rocm_cmake_when_not_found() {
    let c = config(&[], None);
    assert_eq!(packages_to_clean(&c, &sv(&["/w/hip"])), sv(&["hip", "rocm-cmake"]));
    assert_eq!(packages_to_clean(&c, &vec![]), sv(&["rocm-cmake"]));
}

#[test]
fn outdir_lines() {
    let c = config(&[], None);
    assert_eq!(
        run_outdir(&c, &sv(&["hip", "half/"])).unwrap(),
        sv(&["/w/build/hip", "/w/build/half"])
    );
    assert_eq!(run_outdir(&c, &vec![]), Err(OutdirError::NoPackages));
    assert_eq!(
        OutdirError::NoPackages.message(),
        "No packages specified for the 'outdir' command."
    );
}
