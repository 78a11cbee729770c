//! What building and packaging rocm-smi-lib does, step by step.
use vstd::prelude::*;
use crate::text::{cat, cat3, owned, usize_to_string, decimal};
use crate::plan::{CommandSpec, CommandView, Step, StepView, command, push_arg, push_step, append_steps, available_cpus};
use crate::half::build_half_logic::{cpack_enabled, cpack_enabled_exec};
use super::config_smi::RocmSmiConfig;
use super::utils_smi::{
    SmiEnv, or_empty, common_params, component_params, suffix_copy_steps,
    rocm_common_cmake_params, rocm_cmake_params, copy_packages_with_suffix,
};

verus! {

/// The sanitizer environment given to every command of an address-sanitized build.
pub open spec fn asan_envs(c: &RocmSmiConfig, env: &SmiEnv) -> Seq<(Seq<char>, Seq<char>)> {
    seq![
        ("ASAN_OPTIONS"@, or_empty(env.asan_options) + ":detect_leaks=0"@),
        ("LSAN_OPTIONS"@, or_empty(env.lsan_options) + ":suppressions="@ + c.smi_src_dir@ + "/asan_suppressions.txt"@),
        ("LD_PRELOAD"@, match env.asan_preload {
            Some(p) => p@,
            None => "/usr/lib/x86_64-linux-gnu/libasan.so"@,
        }),
    ]
}

/// The extra environment of the build's commands.
pub open spec fn step_envs(c: &RocmSmiConfig, env: &SmiEnv) -> Seq<(Seq<char>, Seq<char>)> {
    if c.enable_address_sanitizer {
        asan_envs(c, env)
    } else {
        Seq::empty()
    }
}

/// Arguments of the CMake configure command for rocm-smi-lib.
pub open spec fn smi_configure_args(c: &RocmSmiConfig, env: &SmiEnv) -> Seq<Seq<char>> {
    seq!["-S"@ + c.smi_src_dir@, "-B"@ + c.build_dir_smi@] + common_params(c, env) + component_params(env)
        + seq!["-DPROJECT_NAME_SUFFIX="@ + c.package_name_suffix@, "-DCMAKE_INSTALL_LIBDIR="@ + c.lib_dir_suffix@]
        + (if c.static_libs {
        seq!["-DBUILD_SHARED_LIBS=OFF"@, "-DBUILD_STATIC_LIBS=ON"@]
    } else {
        seq!["-DBUILD_SHARED_LIBS=ON"@]
    }) + (if c.enable_address_sanitizer {
        seq!["-DENABLE_ASAN=ON"@]
    } else {
        Seq::empty()
    })
}

/// A checked run of a command for rocm-smi-lib.
pub open spec fn smi_run(command: CommandView, description: Seq<char>, context: Seq<char>) -> StepView {
    StepView::Run {
        command,
        description,
        show_status: true,
        context: Some(context),
        prepend_prefix: None,
    }
}

/// A command of the build with its environment.
pub open spec fn smi_command(c: &RocmSmiConfig, env: &SmiEnv, program: Seq<char>, args: Seq<Seq<char>>, cwd: Option<Seq<char>>) -> CommandView {
    CommandView { program, args, current_dir: cwd, envs: step_envs(c, env) }
}

/// Everything a build of rocm-smi-lib does, with `jobs` parallel build jobs:
/// configure, build, install, and, when packages are made, CPack and copying
/// the packages of this build's suffix into the package directory.
pub open spec fn smi_build_plan(c: &RocmSmiConfig, env: &SmiEnv, jobs: usize) -> Seq<StepView> {
    let b = c.build_dir_smi@;
    seq![
        smi_run(
            smi_command(c, env, "cmake"@, smi_configure_args(c, env), None),
            "CMake configuration for 'rocm-smi-lib'"@,
            "CMake configuration failed for 'rocm-smi-lib'"@,
        ),
        smi_run(
            smi_command(c, env, "cmake"@, seq!["--build"@, b, "--"@, "-j"@, decimal(jobs as nat)], None),
            "CMake build for 'rocm-smi-lib'"@,
            "CMake build failed for 'rocm-smi-lib'"@,
        ),
        smi_run(
            smi_command(c, env, "cmake"@, seq!["--install"@, b], None),
            "CMake install for 'rocm-smi-lib'"@,
            "CMake install failed for 'rocm-smi-lib'"@,
        ),
    ] + if cpack_enabled(c.cpack_generator@) {
        seq![
            smi_run(
                smi_command(c, env, "cpack"@, Seq::empty(), Some(b)),
                "CPack for 'rocm-smi-lib'"@,
                "CPack failed for 'rocm-smi-lib'"@,
            ),
        ] + suffix_copy_steps(b, c.package_dir_smi@, c.package_name_suffix@)
    } else {
        Seq::empty()
    }
}

fn push_env(envs: &mut Vec<(String, String)>, k: String, v: String)
    ensures
        final(envs).deep_view() == old(envs).deep_view().push((k@, v@)),
{
    envs.push((k, v));
    proof {
        assert(final(envs).deep_view() =~= old(envs).deep_view().push((k@, v@)));
    }
}

fn build_envs(c: &RocmSmiConfig, env: &SmiEnv) -> (r: Vec<(String, String)>)
    ensures
        r.deep_view() == step_envs(c, env),
{
    let mut r: Vec<(String, String)> = Vec::new();
    if c.enable_address_sanitizer {
        let asan = match &env.asan_options {
            Some(s) => cat(s.as_str(), ":detect_leaks=0"),
            None => owned(":detect_leaks=0"),
        };
        let lsan_prefix = match &env.lsan_options {
            Some(s) => cat(s.as_str(), ":suppressions="),
            None => owned(":suppressions="),
        };
        let lsan = cat3(lsan_prefix.as_str(), c.smi_src_dir.as_str(), "/asan_suppressions.txt");
        let preload = match &env.asan_preload {
            Some(p) => owned(p.as_str()),
            None => owned("/usr/lib/x86_64-linux-gnu/libasan.so"),
        };
        proof {
            reveal_strlit("");
            assert(Seq::<char>::empty() + ":detect_leaks=0"@ =~= ":detect_leaks=0"@);
            assert(Seq::<char>::empty() + ":suppressions="@ =~= ":suppressions="@);
        }
        push_env(&mut r, owned("ASAN_OPTIONS"), asan);
        push_env(&mut r, owned("LSAN_OPTIONS"), lsan);
        push_env(&mut r, owned("LD_PRELOAD"), preload);
        assert(r.deep_view() =~= asan_envs(c, env));
    } else {
        assert(r.deep_view() =~= Seq::<(Seq<char>, Seq<char>)>::empty());
    }
    r
}

fn smi_step(command: CommandSpec, description: &str, context: &str) -> (s: Step)
    ensures
        s.deep_view() == smi_run(command.deep_view(), description@, context@),
{
    Step::Run {
        command,
        description: owned(description),
        show_status: true,
        context: Some(owned(context)),
        prepend_prefix: None,
    }
}

fn smi_configure_command(c: &RocmSmiConfig, env: &SmiEnv) -> (r: CommandSpec)
    ensures
        r.deep_view() == smi_command(c, env, "cmake"@, smi_configure_args(c, env), None),
{
    let mut args: Vec<String> = Vec::new();
    push_arg(&mut args, cat("-S", c.smi_src_dir.as_str()));
    push_arg(&mut args, cat("-B", c.build_dir_smi.as_str()));
    let mut cmd = command("cmake", args);
    let ghost start = cmd.deep_view();
    rocm_common_cmake_params(c, env, &mut cmd);
    rocm_cmake_params(c, env, &mut cmd);
    push_arg(&mut cmd.args, cat("-DPROJECT_NAME_SUFFIX=", c.package_name_suffix.as_str()));
    push_arg(&mut cmd.args, cat("-DCMAKE_INSTALL_LIBDIR=", c.lib_dir_suffix.as_str()));
    if c.static_libs {
        push_arg(&mut cmd.args, owned("-DBUILD_SHARED_LIBS=OFF"));
        push_arg(&mut cmd.args, owned("-DBUILD_STATIC_LIBS=ON"));
    } else {
        push_arg(&mut cmd.args, owned("-DBUILD_SHARED_LIBS=ON"));
    }
    if c.enable_address_sanitizer {
        push_arg(&mut cmd.args, owned("-DENABLE_ASAN=ON"));
    }
    cmd.envs = build_envs(c, env);
    proof {
        assert(cmd.args.deep_view() =~= smi_configure_args(c, env));
    }
    cmd
}

/// The build of rocm-smi-lib with a given number of parallel build jobs (see `smi_build_plan`).
pub fn run_build_with_jobs(config: &RocmSmiConfig, env: &SmiEnv, jobs: usize) -> (plan: Vec<Step>)
    ensures
        plan.deep_view() == smi_build_plan(config, env, jobs),
{
    let b = config.build_dir_smi.as_str();
    let mut plan: Vec<Step> = Vec::new();
    push_step(&mut plan, smi_step(
        smi_configure_command(config, env),
        "CMake configuration for 'rocm-smi-lib'",
        "CMake configuration failed for 'rocm-smi-lib'",
    ));
    let mut build_args: Vec<String> = Vec::new();
    push_arg(&mut build_args, owned("--build"));
    push_arg(&mut build_args, owned(b));
    push_arg(&mut build_args, owned("--"));
    push_arg(&mut build_args, owned("-j"));
    push_arg(&mut build_args, usize_to_string(jobs));
    assert(build_args.deep_view() =~= seq!["--build"@, b@, "--"@, "-j"@, decimal(jobs as nat)]);
    let mut build = command("cmake", build_args);
    build.envs = build_envs(config, env);
    push_step(&mut plan, smi_step(build, "CMake build for 'rocm-smi-lib'", "CMake build failed for 'rocm-smi-lib'"));
    let mut install_args: Vec<String> = Vec::new();
    push_arg(&mut install_args, owned("--install"));
    push_arg(&mut install_args, owned(b));
    assert(install_args.deep_view() =~= seq!["--install"@, b@]);
    let mut install = command("cmake", install_args);
    install.envs = build_envs(config, env);
    push_step(&mut plan, smi_step(install, "CMake install for 'rocm-smi-lib'", "CMake install failed for 'rocm-smi-lib'"));
    let ghost three = plan.deep_view();
    if cpack_enabled_exec(config.cpack_generator.as_str()) {
        let no_args: Vec<String> = Vec::new();
        assert(no_args.deep_view() =~= Seq::<Seq<char>>::empty());
        let mut cpack = command("cpack", no_args);
        cpack.current_dir = Some(owned(b));
        cpack.envs = build_envs(config, env);
        push_step(&mut plan, smi_step(cpack, "CPack for 'rocm-smi-lib'", "CPack failed for 'rocm-smi-lib'"));
        let copies = copy_packages_with_suffix(b, config.package_dir_smi.as_str(), config.package_name_suffix.as_str());
        append_steps(&mut plan, copies);
    }
    proof {
        assert(plan.deep_view() =~= smi_build_plan(config, env, jobs));
    }
    plan
}

/// The build of rocm-smi-lib, with the configured number of parallel build
/// jobs, else as many as there are CPUs.
pub fn run_build(config: &RocmSmiConfig, env: &SmiEnv) -> (plan: Vec<Step>)
    ensures
        config.proc matches Some(n) ==> plan.deep_view() == smi_build_plan(config, env, n),
        config.proc is None ==> exists|jobs: usize|
            jobs >= 1 && plan.deep_view() == #[trigger] smi_build_plan(config, env, jobs),
{
    let jobs = match config.proc {
        Some(n) => n,
        None => available_cpus(),
    };
    run_build_with_jobs(config, env, jobs)
}

} // verus!
