use rocm_build::plan::Step;
use rocm_build::{cmake_builder, half, rocm_build as tool, rocminfo};

fn s(x: &str) -> String {
    x.to_string()
}

fn created_dirs(plan: &[Step]) -> Vec<String> {
    plan.iter()
        .filter_map(|st| match st {
            Step::CreateDirAll { path, .. } => Some(path.clone()),
            Step::CopyPackages { dest_dir, .. } => Some(dest_dir.clone()),
            _ => None,
        })
        .collect()
}

fn removed_dirs(plan: &[Step]) -> Vec<String> {
    plan.iter()
        .filter_map(|st| match st {
            Step::RemoveDirAll { path, .. } => Some(path.clone()),
            _ => None,
        })
        .collect()
}

#[test]
fn rocm_build_clean_removes_what_build_creates() {
    let c = tool::config::Config {
        build_dir: s("/w/build"),
        install_dir: Some(s("/inst")),
        packages: vec![],
        rocm_cmake_path: s("/w/rocm-cmake"),
        source_dirs: vec![s("/w")],
        build_type: s("Release"),
        cmake_args: vec![],
        jobs: None,
        project_search_depth: 1,
    };
    let built = created_dirs(&tool::build_logic::run_build(&c, &vec![s("/w/hip"), s("/w/half")]));
    let removed = removed_dirs(&tool::clean_logic::run_clean(&c, &vec![s("/w/hip"), s("/w/half"), s("/w/rocm-cmake")]));
    assert_eq!(built, vec![s("/w/build/rocm-cmake"), s("/w/build/hip"), s("/w/build/half")]);
    for d in &built {
        assert!(removed.contains(d), "{} is not removed", d);
    }
}

#[test]
fn half_clean_removes_what_build_creates() {
    let c = half::config::HalfConfig {
        rocm_path: s("/opt/rocm"),
        half_src_dir: s("/src/half"),
        cpack_generator: s("DEB"),
        rocm_patch_version: s("0"),
        output_dir: s("/out"),
        build_dir_half: s("/out/build/half"),
        package_dir_half: s("/out/package/half"),
        proc: None,
    };
    let built = created_dirs(&half::build_half_logic::run_build_with_jobs(&c, true, false, false, &half::config::PackageTypeCopy::All, 2));
    assert_eq!(built, vec![s("/out/package/half"), s("/out/package/half")]);
    let removed = removed_dirs(&half::clean_half_logic::run_clean(&c));
    assert_eq!(removed, vec![s("/out/build/half"), s("/out/package/half")]);
}

#[test]
fn cmake_builder_clean_removes_what_build_creates() {
    let args = cmake_builder::CliArgs {
        rocm_cmake_root: s("/r"),
        build_dir: None,
        package_root: None,
        clean: false,
        release: true,
        static_libs: false,
        address_sanitizer: false,
        package_type: s("all"),
        outdir_target: None,
        wheel: true,
        verbose: false,
    };
    let canon = cmake_builder::CanonicalPaths { rocm_cmake_root: Some(s("/r")), build_dir: None, package_root: None };
    let c = cmake_builder::AppConfig::try_from_args(args, &canon).unwrap();
    let built = created_dirs(&cmake_builder::handle_build(&c, &Ok(s("cmake")), &Ok(s("python3"))));
    let removed = removed_dirs(&cmake_builder::handle_clean(&c));
    assert_eq!(
        built,
        vec![
            s("/r/build/rocm-cmake-builder"),
            s("/r/dist/deb/rocm-cmake"),
            s("/r/dist/deb/rocm-cmake"),
            s("/r/dist/rpm/rocm-cmake"),
            s("/r/dist/rpm/rocm-cmake"),
            s("/r/build/rocm-cmake-builder/wheelhouse"),
        ]
    );
    for d in &built {
        assert!(removed.contains(d), "{} is not removed", d);
    }
}

#[test]
fn rocminfo_clean_removes_build_dir_and_binary() {
    let args = rocminfo::CliArgs {
        source_root: s("src"),
        install_prefix: Some(s("/prefix")),
        build_dir: None,
        package_root: None,
        rocm_libpatch_version: s("0"),
        clean: false,
        release: false,
        static_libs: false,
        address_sanitizer: false,
        wheel: false,
        gpu_list: None,
        jobs: None,
        outdir_target: None,
        verbose: false,
    };
    let c = rocminfo::AppConfig::try_from_args(args, "/cwd", &Some(s("/cwd/src"))).unwrap();
    let build = rocminfo::handle_build(&c, &Ok(s("cmake")));
    assert_eq!(created_dirs(&build), vec![s("/cwd/src/build/rocminfo-builder")]);
    for st in &build[1..] {
        match st {
            Step::RunCaptured { command, .. } => {
                assert_eq!(command.current_dir.as_deref(), Some("/cwd/src/build/rocminfo-builder"))
            }
            _ => panic!("expected a captured command"),
        }
    }
    let clean = rocminfo::handle_clean(&c);
    assert!(removed_dirs(&clean).contains(&s("/cwd/src/build/rocminfo-builder")));
    match &clean[3] {
        Step::RemoveFile { path, .. } => assert_eq!(path, "/prefix/bin/rocminfo"),
        _ => panic!("expected a file removal"),
    }
}
