use rocm_build::plan::{CommandSpec, PackageFilter, Step};
use rocm_build::smi::build_smi_logic::{run_build, run_build_with_jobs};
use rocm_build::smi::clean_smi_logic::run_clean;
use rocm_build::smi::config_smi::{
    apply_env_overrides, PackageType, RocmSmiCli, RocmSmiCommands, RocmSmiConfig, SmiConfigError, SmiContext,
    DEFAULT_CPACK_GENERATOR, DEFAULT_OUTPUT_DIR, DEFAULT_ROCM_PATCH_VERSION, DEFAULT_ROCM_PATH,
    DEFAULT_SMI_SRC_DIR,
};
use rocm_build::smi::outdir_smi_logic::run_outdir;
use rocm_build::smi::utils_smi::{copy_packages_with_suffix, rocm_cmake_params, rocm_common_cmake_params, SmiEnv};

fn s(x: &str) -> String {
    x.to_string()
}

fn cli() -> RocmSmiCli {
    RocmSmiCli {
        rocm_path: s(DEFAULT_ROCM_PATH),
        smi_src_dir: s(DEFAULT_SMI_SRC_DIR),
        cpack_generator: s(DEFAULT_CPACK_GENERATOR),
        rocm_patch_version: s(DEFAULT_ROCM_PATCH_VERSION),
        output_dir: s(DEFAULT_OUTPUT_DIR),
        proc: None,
        build_32_bit: false,
        static_libs: false,
        enable_address_sanitizer: false,
        verbose: false,
        command: RocmSmiCommands::Build,
    }
}

fn eq_path(a: &str, b: &str) -> bool {
    std::path::Path::new(a) == std::path::Path::new(b)
}

fn config_from(c: RocmSmiCli) -> RocmSmiConfig {
    let probes = SmiContext::probe_paths("/w", &c);
    let ctx = SmiContext {
        current_dir: s("/w"),
        existing_dirs: vec![probes[0].clone()],
        existing_paths: probes.clone(),
    };
    RocmSmiConfig::from_cli(c, &ctx).unwrap()
}

fn no_env() -> SmiEnv {
    SmiEnv {
        cmake_build_type: None,
        cxxflags: None,
        cflags: None,
        python_executable: None,
        code_coverage: None,
        asan_options: None,
        lsan_options: None,
        asan_preload: None,
        python3_on_path: None,
        python_on_path: None,
    }
}

fn empty_command() -> CommandSpec {
    CommandSpec { program: s("cmake"), args: vec![], current_dir: None, envs: vec![] }
}

#[test]
fn configuration_defaults() {
    let c = config_from(cli());
    assert_eq!(c.rocm_path, "/opt/rocm");
    assert!(eq_path(&c.smi_src_dir, "/w"));
    assert!(eq_path(&c.build_dir_smi, "/w/output/build/rocm-smi-lib"));
    assert!(eq_path(&c.package_dir_smi, "/w/output/package/rocm-smi-lib"));
    assert_eq!(c.cmake_prefix_path, "/opt/rocm/lib/cmake/rocm-cmake");
    assert_eq!(c.package_name_suffix, "-rocm-smi-lib64");
    assert_eq!(c.lib_dir_suffix, "lib64");
    assert!(!c.is_32_bit_build);
}

#[test]
fn thirty_two_bit_configuration() {
    let mut x = cli();
    x.build_32_bit = true;
    let c = config_from(x);
    assert_eq!(c.package_name_suffix, "-rocm-smi-lib32");
    assert_eq!(c.lib_dir_suffix, "lib");
    let mut c = config_from(cli());
    c.enable_32bit_build();
    assert!(c.is_32_bit_build);
    assert_eq!(c.package_name_suffix, "-rocm-smi-lib32");
    assert_eq!(c.lib_dir_suffix, "lib");
}

#[test]
fn source_directory_errors() {
    let mut x = cli();
    x.smi_src_dir = s("/src");
    let ctx = SmiContext { current_dir: s("/w"), existing_dirs: vec![], existing_paths: vec![] };
    match RocmSmiConfig::from_cli(x, &ctx) {
        Err(e) => assert_eq!(
            e.message(),
            "'rocm-smi-lib' source directory does not exist or is not a directory: /src"
        ),
        Ok(_) => panic!("expected an error"),
    }
    let mut x = cli();
    x.smi_src_dir = s("/src");
    let ctx = SmiContext { current_dir: s("/w"), existing_dirs: vec![s("/src")], existing_paths: vec![] };
    match RocmSmiConfig::from_cli(x, &ctx) {
        Err(SmiConfigError::NoCMakeLists { path }) => assert_eq!(path, "/src"),
        _ => panic!("expected a missing CMakeLists.txt"),
    }
}

#[test]
fn environment_switches() {
    let mut x = cli();
    apply_env_overrides(&mut x, &Some(s("1")), &Some(s("0")));
    assert!(x.enable_address_sanitizer);
    assert!(!x.static_libs);
    let mut x = cli();
    apply_env_overrides(&mut x, &Some(s("")), &Some(s("yes")));
    assert!(!x.enable_address_sanitizer);
    assert!(x.static_libs);
    let mut x = cli();
    x.static_libs = true;
    apply_env_overrides(&mut x, &None, &Some(s("0")));
    assert!(x.static_libs);
}

#[test]
fn common_parameters() {
    let c = config_from(cli());
    let mut env = no_env();
    env.cmake_build_type = Some(s("DeBuG"));
    let mut cmd = empty_command();
    rocm_common_cmake_params(&c, &env, &mut cmd);
    assert_eq!(
        cmd.args,
        vec![
            s("-DCMAKE_INSTALL_PREFIX=/opt/rocm"),
            s("-DROCM_PATH=/opt/rocm"),
            s("-DCMAKE_PREFIX_PATH=/opt/rocm/lib/cmake/rocm-cmake"),
            s("-DCMAKE_BUILD_TYPE=Debug"),
            s("-DCPACK_GENERATOR=DEB;RPM"),
            s("-DCPACK_PACKAGE_VERSION_PATCH=0"),
            s("-DCMAKE_INSTALL_LIBDIR=lib64"),
            s("-DBUILD_SHARED_LIBS=ON"),
        ]
    );
}

#[test]
fn sanitizer_and_static_parameters() {
    let mut x = cli();
    x.enable_address_sanitizer = true;
    x.static_libs = true;
    let c = config_from(x);
    let mut env = no_env();
    env.cxxflags = Some(s("-O2"));
    let mut cmd = empty_command();
    rocm_common_cmake_params(&c, &env, &mut cmd);
    assert!(cmd.args.contains(&s("-DCMAKE_BUILD_TYPE=Release")));
    assert!(cmd.args.contains(&s("-DENABLE_ASAN=ON")));
    assert!(cmd.args.contains(&s("-DCMAKE_CXX_FLAGS=-O2 -fsanitize=address -fno-omit-frame-pointer")));
    assert!(cmd.args.contains(&s("-DCMAKE_C_FLAGS= -fsanitize=address -fno-omit-frame-pointer")));
    assert!(cmd.args.contains(&s("-DBUILD_SHARED_LIBS=OFF")));
    assert!(cmd.args.contains(&s("-DBUILD_STATIC_LIBS=ON")));
}

#[test]
fn python_and_coverage_parameters() {
    let c = config_from(cli());
    let mut env = no_env();
    env.python3_on_path = Some(s("/usr/bin/python3"));
    env.python_on_path = Some(s("/usr/bin/python"));
    let mut cmd = empty_command();
    rocm_cmake_params(&c, &env, &mut cmd);
    assert_eq!(cmd.args, vec![s("-DPYTHON_EXECUTABLE=/usr/bin/python3")]);

    env.python_executable = Some(s(""));
    let mut cmd = empty_command();
    rocm_cmake_params(&c, &env, &mut cmd);
    assert!(cmd.args.is_empty());

    env.python_executable = Some(s("/opt/py"));
    env.cmake_build_type = Some(s("debug"));
    env.code_coverage = Some(s("1"));
    let mut cmd = empty_command();
    rocm_cmake_params(&c, &env, &mut cmd);
    assert_eq!(
        cmd.args,
        vec![
            s("-DPYTHON_EXECUTABLE=/opt/py"),
            s("-DCMAKE_CXX_FLAGS= -fprofile-arcs -ftest-coverage"),
            s("-DCMAKE_C_FLAGS= -fprofile-arcs -ftest-coverage"),
        ]
    );
}

#[test]
fn build_plan() {
    let c = config_from(cli());
    let plan = run_build_with_jobs(&c, &no_env(), 3);
    assert_eq!(plan.len(), 6);
    match &plan[1] {
        Step::Run { command, description, .. } => {
            assert_eq!(command.args, vec![s("--build"), c.build_dir_smi.clone(), s("--"), s("-j"), s("3")]);
            assert!(command.envs.is_empty());
            assert_eq!(description, "CMake build for 'rocm-smi-lib'");
        }
        _ => panic!("expected a command"),
    }
    match &plan[3] {
        Step::Run { command, .. } => {
            assert_eq!(command.program, "cpack");
            assert!(command.args.is_empty());
            assert_eq!(command.current_dir.as_deref(), Some(c.build_dir_smi.as_str()));
        }
        _ => panic!("expected a command"),
    }
    match &plan[5] {
        Step::CopyPackages { pattern, filter, .. } => {
            assert!(pattern.ends_with("/*.rpm"));
            match filter {
                PackageFilter::StemContains(t) => assert_eq!(t, "-rocm-smi-lib64"),
                _ => panic!("expected a stem filter"),
            }
        }
        _ => panic!("expected a copy"),
    }
    let plan = run_build(&c, &no_env());
    assert_eq!(plan.len(), 6);
}

#[test]
fn smi_proc_sets_the_job_count() {
    let mut x = cli();
    x.proc = Some(5);
    let c = config_from(x);
    assert_eq!(c.proc, Some(5));
    let plan = run_build(&c, &no_env());
    match &plan[1] {
        Step::Run { command, .. } => assert_eq!(command.args[4], "5"),
        _ => panic!("expected a command"),
    }
}

#[test]
fn repeated_32bit_switches_change_nothing_more() {
    let mut c = config_from(cli());
    c.enable_32bit_build();
    let (suffix, lib) = (c.package_name_suffix.clone(), c.lib_dir_suffix.clone());
    c.enable_32bit_build();
    c.enable_32bit_build();
    assert!(c.is_32_bit_build);
    assert_eq!(c.package_name_suffix, suffix);
    assert_eq!(c.lib_dir_suffix, lib);
    assert_eq!(c.package_name_suffix, "-rocm-smi-lib32");
}

#[test]
fn sanitized_build_environment() {
    let mut x = cli();
    x.smi_src_dir = s("/src");
    x.enable_address_sanitizer = true;
    x.cpack_generator = s("NONE");
    let ctx = SmiContext {
        current_dir: s("/w"),
        existing_dirs: vec![s("/src")],
        existing_paths: vec![s("/src/CMakeLists.txt")],
    };
    let c = RocmSmiConfig::from_cli(x, &ctx).unwrap();
    let mut env = no_env();
    env.asan_options = Some(s("verbosity=1"));
    let plan = run_build_with_jobs(&c, &env, 2);
    assert_eq!(plan.len(), 3);
    match &plan[2] {
        Step::Run { command, .. } => {
            assert_eq!(
                command.envs,
                vec![
                    (s("ASAN_OPTIONS"), s("verbosity=1:detect_leaks=0")),
                    (s("LSAN_OPTIONS"), s(":suppressions=/src/asan_suppressions.txt")),
                    (s("LD_PRELOAD"), s("/usr/lib/x86_64-linux-gnu/libasan.so")),
                ]
            );
        }
        _ => panic!("expected a command"),
    }
}

#[test]
fn suffix_copies() {
    let steps = copy_packages_with_suffix("/b", "/p", "-x64");
    assert_eq!(steps.len(), 2);
    match &steps[0] {
        Step::CopyPackages { pattern, dest_dir, entry_errors_fatal, .. } => {
            assert_eq!(pattern, "/b/*.deb");
            assert_eq!(dest_dir, "/p");
            assert!(!*entry_errors_fatal);
        }
        _ => panic!("expected a copy"),
    }
}

#[test]
fn clean_plan() {
    let c = config_from(cli());
    let plan = run_clean(&c);
    assert_eq!(plan.len(), 6);
    match &plan[2] {
        Step::RemoveMatchingFiles { dir, pattern, description } => {
            assert_eq!(dir, "/opt/rocm/lib64");
            assert_eq!(pattern, "lib*rocm_smi*");
            assert_eq!(description, "rocm-smi-lib (64-bit)");
        }
        _ => panic!("expected a file removal"),
    }
    match &plan[3] {
        Step::RemoveMatchingFiles { dir, .. } => assert_eq!(dir, "/opt/rocm/lib"),
        _ => panic!("expected a file removal"),
    }
    match &plan[4] {
        Step::RemoveDirAll { path, .. } => assert_eq!(path, "/opt/rocm/include/rocm_smi"),
        _ => panic!("expected a removal"),
    }
    match &plan[5] {
        Step::RemoveMatchingEntries { base, pattern } => {
            assert_eq!(base, "/opt/rocm/.info");
            assert_eq!(pattern, "/opt/rocm/.info/rocm-smi*");
        }
        _ => panic!("expected an entry removal"),
    }
}

#[test]
fn outdir_line() {
    let c = config_from(cli());
    assert!(eq_path(&run_outdir(&c, &PackageType::Deb), "/w/output/package/rocm-smi-lib/deb"));
    assert_eq!(PackageType::Rpm.glob_suffix(), "*.rpm");
}
