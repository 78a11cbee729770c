//! What building and packaging `half` does, step by step.
use vstd::prelude::*;
use crate::text::{cat, owned, str_eq, usize_to_string, decimal, spec_to_uppercase, to_uppercase};
use crate::paths::{spec_path_join, path_join};
use crate::plan::{
    CommandSpec, CommandView, Step, StepView, PackageFilter, PackageFilterView, plain_command,
    command, push_arg, push_step, available_cpus,
};
use super::config::{HalfConfig, PackageTypeCopy};

verus! {

/// Packages are made unless the generator list is empty or `NONE` (in any case).
pub open spec fn cpack_enabled(generator: Seq<char>) -> bool {
    generator.len() > 0 && spec_to_uppercase(generator) != "NONE"@
}

/// Arguments of the CMake configure command for `half`. Address sanitizing
/// does not apply to the header-only library and changes none of them.
pub open spec fn half_configure_args(c: &HalfConfig, release: bool, static_libs: bool) -> Seq<Seq<char>> {
    seq![
        "-S"@ + c.half_src_dir@,
        "-B"@ + c.build_dir_half@,
        "-DCMAKE_BUILD_TYPE="@ + (if release { "Release"@ } else { "Debug"@ }),
        "-DCMAKE_INSTALL_PREFIX="@ + c.rocm_path@,
        "-DROCM_PATH="@ + c.rocm_path@,
    ] + (if static_libs {
        seq!["-DBUILD_SHARED_LIBS=OFF"@, "-DBUILD_STATIC_LIBS=ON"@]
    } else {
        seq!["-DBUILD_SHARED_LIBS=ON"@, "-DBUILD_STATIC_LIBS=OFF"@]
    }) + (if c.cpack_generator@.len() > 0 {
        seq!["-DCPACK_GENERATOR="@ + c.cpack_generator@]
    } else {
        Seq::empty()
    }) + seq!["-DCPACK_PACKAGE_VERSION_PATCH="@ + c.rocm_patch_version@]
}

/// A checked run of a command for `half`.
pub open spec fn half_run(command: CommandView, description: Seq<char>, context: Seq<char>) -> StepView {
    StepView::Run {
        command,
        description,
        show_status: true,
        context: Some(context),
        prepend_prefix: None,
    }
}

/// The glob patterns (relative to the build directory) that find the
/// package files to copy: `*.deb`, `*.rpm`, or both in that order.
pub open spec fn half_copy_patterns(copy: PackageTypeCopy) -> Seq<Seq<char>> {
    match copy {
        PackageTypeCopy::All => seq!["*.deb"@, "*.rpm"@],
        PackageTypeCopy::Deb => seq!["*.deb"@],
        PackageTypeCopy::Rpm => seq!["*.rpm"@],
    }
}

/// The step that copies the packages found by one pattern into the package directory.
pub open spec fn half_copy_step(c: &HalfConfig, copy: PackageTypeCopy, pattern: Seq<char>) -> StepView {
    StepView::CopyPackages {
        pattern: spec_path_join(c.build_dir_half@, pattern),
        dest_dir: c.package_dir_half@,
        filter: PackageFilterView::ByKind(copy),
        entry_errors_fatal: false,
        context: Some("Failed to copy generated packages for 'half'"@),
    }
}

/// Everything a build of `half` does, with `jobs` parallel build jobs:
/// configure, build, install, and, when packages are made, CPack and copying
/// the selected packages into the package directory.
pub open spec fn half_build_plan(
    c: &HalfConfig,
    release: bool,
    asan: bool,
    static_libs: bool,
    copy: PackageTypeCopy,
    jobs: usize,
) -> Seq<StepView> {
    let b = c.build_dir_half@;
    seq![
        half_run(
            plain_command("cmake"@, half_configure_args(c, release, static_libs)),
            "CMake configuration for 'half'"@,
            "CMake configuration failed for 'half'"@,
        ),
        half_run(
            plain_command("cmake"@, seq!["--build"@, b, "--"@, "-j"@, decimal(jobs as nat)]),
            "CMake build for 'half'"@,
            "CMake build failed for 'half'"@,
        ),
        half_run(
            plain_command("cmake"@, seq!["--install"@, b]),
            "CMake install for 'half'"@,
            "CMake install failed for 'half'"@,
        ),
    ] + if cpack_enabled(c.cpack_generator@) {
        seq![
            half_run(
                CommandView {
                    program: "cpack"@,
                    args: seq!["--config"@, "CPackConfig.cmake"@],
                    current_dir: Some(b),
                    envs: Seq::empty(),
                },
                "CPack for 'half'"@,
                "CPack failed for 'half'"@,
            ),
        ] + half_copy_patterns(copy).map_values(|p: Seq<char>| half_copy_step(c, copy, p))
    } else {
        Seq::empty()
    }
}

fn half_configure_command(c: &HalfConfig, release: bool, static_libs: bool) -> (r: CommandSpec)
    ensures
        r.deep_view() == plain_command("cmake"@, half_configure_args(c, release, static_libs)),
{
    let mut args: Vec<String> = Vec::new();
    push_arg(&mut args, cat("-S", c.half_src_dir.as_str()));
    push_arg(&mut args, cat("-B", c.build_dir_half.as_str()));
    let build_type = if release { "Release" } else { "Debug" };
    push_arg(&mut args, cat("-DCMAKE_BUILD_TYPE=", build_type));
    push_arg(&mut args, cat("-DCMAKE_INSTALL_PREFIX=", c.rocm_path.as_str()));
    push_arg(&mut args, cat("-DROCM_PATH=", c.rocm_path.as_str()));
    if static_libs {
        push_arg(&mut args, owned("-DBUILD_SHARED_LIBS=OFF"));
        push_arg(&mut args, owned("-DBUILD_STATIC_LIBS=ON"));
    } else {
        push_arg(&mut args, owned("-DBUILD_SHARED_LIBS=ON"));
        push_arg(&mut args, owned("-DBUILD_STATIC_LIBS=OFF"));
    }
    if c.cpack_generator.unicode_len() > 0 {
        push_arg(&mut args, cat("-DCPACK_GENERATOR=", c.cpack_generator.as_str()));
    }
    push_arg(&mut args, cat("-DCPACK_PACKAGE_VERSION_PATCH=", c.rocm_patch_version.as_str()));
    proof {
        assert(args.deep_view() =~= half_configure_args(c, release, static_libs));
    }
    command("cmake", args)
}

fn half_copy_step_exec(c: &HalfConfig, copy: &PackageTypeCopy, pattern: &str) -> (s: Step)
    ensures
        s.deep_view() == half_copy_step(c, *copy, pattern@),
{
    Step::CopyPackages {
        pattern: path_join(c.build_dir_half.as_str(), pattern),
        dest_dir: owned(c.package_dir_half.as_str()),
        filter: PackageFilter::ByKind(*copy),
        entry_errors_fatal: false,
        context: Some(owned("Failed to copy generated packages for 'half'")),
    }
}

fn half_step(command: CommandSpec, description: &str, context: &str) -> (s: Step)
    ensures
        s.deep_view() == half_run(command.deep_view(), description@, context@),
{
    Step::Run {
        command,
        description: owned(description),
        show_status: true,
        context: Some(owned(context)),
        prepend_prefix: None,
    }
}

/// Whether the configured generator list asks for packages.
pub fn cpack_enabled_exec(generator: &str) -> (r: bool)
    ensures
        r == cpack_enabled(generator@),
{
    generator.unicode_len() > 0 && !str_eq(to_uppercase(generator).as_str(), "NONE")
}

/// The build of `half` with a given number of parallel build jobs (see `half_build_plan`).
pub fn run_build_with_jobs(
    config: &HalfConfig,
    is_release: bool,
    enable_address_sanitizer: bool,
    build_static_libs: bool,
    package_type_copy: &PackageTypeCopy,
    jobs: usize,
) -> (plan: Vec<Step>)
    ensures
        plan.deep_view() == half_build_plan(
            config,
            is_release,
            enable_address_sanitizer,
            build_static_libs,
            *package_type_copy,
            jobs,
        ),
{
    let b = config.build_dir_half.as_str();
    let mut plan: Vec<Step> = Vec::new();
    push_step(&mut plan, half_step(
        half_configure_command(config, is_release, build_static_libs),
        "CMake configuration for 'half'",
        "CMake configuration failed for 'half'",
    ));
    let mut build_args: Vec<String> = Vec::new();
    push_arg(&mut build_args, owned("--build"));
    push_arg(&mut build_args, owned(b));
    push_arg(&mut build_args, owned("--"));
    push_arg(&mut build_args, owned("-j"));
    push_arg(&mut build_args, usize_to_string(jobs));
    assert(build_args.deep_view() =~= seq!["--build"@, b@, "--"@, "-j"@, decimal(jobs as nat)]);
    push_step(&mut plan, half_step(command("cmake", build_args), "CMake build for 'half'", "CMake build failed for 'half'"));
    let mut install_args: Vec<String> = Vec::new();
    push_arg(&mut install_args, owned("--install"));
    push_arg(&mut install_args, owned(b));
    assert(install_args.deep_view() =~= seq!["--install"@, b@]);
    push_step(&mut plan, half_step(command("cmake", install_args), "CMake install for 'half'", "CMake install failed for 'half'"));
    let ghost three = plan.deep_view();
    if cpack_enabled_exec(config.cpack_generator.as_str()) {
        let mut cpack_args: Vec<String> = Vec::new();
        push_arg(&mut cpack_args, owned("--config"));
        push_arg(&mut cpack_args, owned("CPackConfig.cmake"));
        assert(cpack_args.deep_view() =~= seq!["--config"@, "CPackConfig.cmake"@]);
        let mut cpack = command("cpack", cpack_args);
        cpack.current_dir = Some(owned(b));
        push_step(&mut plan, half_step(cpack, "CPack for 'half'", "CPack failed for 'half'"));
        let ghost four = plan.deep_view();
        match package_type_copy {
            PackageTypeCopy::All => {
                push_step(&mut plan, half_copy_step_exec(config, package_type_copy, "*.deb"));
                push_step(&mut plan, half_copy_step_exec(config, package_type_copy, "*.rpm"));
            },
            PackageTypeCopy::Deb => {
                push_step(&mut plan, half_copy_step_exec(config, package_type_copy, "*.deb"));
            },
            PackageTypeCopy::Rpm => {
                push_step(&mut plan, half_copy_step_exec(config, package_type_copy, "*.rpm"));
            },
        }
        proof {
            assert(plan.deep_view() =~= four + half_copy_patterns(*package_type_copy).map_values(
                |p: Seq<char>| half_copy_step(config, *package_type_copy, p),
            ));
        }
    }
    proof {
        assert(plan.deep_view() =~= half_build_plan(
            config,
            is_release,
            enable_address_sanitizer,
            build_static_libs,
            *package_type_copy,
            jobs,
        ));
    }
    plan
}

/// The build of `half`, with the configured number of parallel build jobs,
/// else as many as there are CPUs. `half` produces no wheels, so a wheel
/// request changes nothing.
pub fn run_build(
    config: &HalfConfig,
    is_release: bool,
    enable_address_sanitizer: bool,
    build_static_libs: bool,
    package_type_copy: &PackageTypeCopy,
    build_wheel: bool,
) -> (plan: Vec<Step>)
    ensures
        config.proc matches Some(n) ==> plan.deep_view() == half_build_plan(
            config,
            is_release,
            enable_address_sanitizer,
            build_static_libs,
            *package_type_copy,
            n,
        ),
        config.proc is None ==> exists|jobs: usize|
            jobs >= 1 && plan.deep_view() == #[trigger] half_build_plan(
                config,
                is_release,
                enable_address_sanitizer,
                build_static_libs,
                *package_type_copy,
                jobs,
            ),
{
    let jobs = match config.proc {
        Some(n) => n,
        None => available_cpus(),
    };
    run_build_with_jobs(config, is_release, enable_address_sanitizer, build_static_libs, package_type_copy, jobs)
}

} // verus!
