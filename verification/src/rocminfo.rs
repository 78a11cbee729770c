//! The rocminfo builder: configures, builds and installs the rocminfo utility.
use vstd::prelude::*;
use crate::text::{cat, owned, usize_to_string, decimal, result_view};
use crate::paths::{absolute_from, absolute_from_dir, spec_path_join, path_join};
use crate::plan::{Step, StepView, push_arg, push_step};
use crate::cmake_builder::{
    quoted, quoted_str, command_in, command_in_dir, captured, captured_step, outdir_choice,
    outdir_choice_exec,
};

verus! {

/// Default patch version for CPack.
pub const DEFAULT_ROCM_LIBPATCH_VERSION: &'static str = "0";

/// The command-line options of the rocminfo builder.
pub struct CliArgs {
    pub source_root: String,
    pub install_prefix: Option<String>,
    pub build_dir: Option<String>,
    pub package_root: Option<String>,
    pub rocm_libpatch_version: String,
    pub clean: bool,
    pub release: bool,
    pub static_libs: bool,
    pub address_sanitizer: bool,
    pub wheel: bool,
    pub gpu_list: Option<String>,
    pub jobs: Option<usize>,
    pub outdir_target: Option<String>,
    pub verbose: bool,
}

/// The resolved configuration of the rocminfo builder.
pub struct AppConfig {
    pub source_root: String,
    pub install_prefix: String,
    pub build_dir: String,
    pub package_root: String,
    pub deb_package_dir: String,
    pub rpm_package_dir: String,
    pub rocm_libpatch_version: String,
    pub clean: bool,
    pub build_type_cmake: String,
    pub rocrts_bld_type_cmake: String,
    pub build_shared_libs_cmake: String,
    pub address_sanitizer_enabled: bool,
    pub wheel: bool,
    pub gpu_list_cmake: Option<String>,
    pub jobs: Option<usize>,
    pub verbose: bool,
}

/// An optional path made absolute against `cwd`, else the default.
pub open spec fn absolute_or(cwd: Seq<char>, p: Option<String>, default: Seq<char>) -> Seq<char> {
    match p {
        Some(q) => absolute_from(cwd, q@),
        None => default,
    }
}

/// The configuration for the source root canonicalized to `root`: build
/// directory, package root and install prefix as given (made absolute), by
/// default `<root>/build/rocminfo-builder`, `<root>/dist` and
/// `<package_root>/rocm`; a release build is `RelWithDebInfo`/`rel`, else
/// `Debug`/`debug`.
pub open spec fn resolved_rocminfo_config(args: &CliArgs, cwd: Seq<char>, root: Seq<char>, c: &AppConfig) -> bool {
    let pr = absolute_or(cwd, args.package_root, spec_path_join(root, "dist"@));
    &&& c.source_root@ == root
    &&& c.build_dir@ == absolute_or(cwd, args.build_dir, spec_path_join(spec_path_join(root, "build"@), "rocminfo-builder"@))
    &&& c.package_root@ == pr
    &&& c.install_prefix@ == absolute_or(cwd, args.install_prefix, spec_path_join(pr, "rocm"@))
    &&& c.deb_package_dir@ == spec_path_join(spec_path_join(pr, "deb"@), "rocminfo"@)
    &&& c.rpm_package_dir@ == spec_path_join(spec_path_join(pr, "rpm"@), "rocminfo"@)
    &&& c.rocm_libpatch_version@ == args.rocm_libpatch_version@
    &&& c.clean == args.clean
    &&& c.build_type_cmake@ == (if args.release { "RelWithDebInfo"@ } else { "Debug"@ })
    &&& c.rocrts_bld_type_cmake@ == (if args.release { "rel"@ } else { "debug"@ })
    &&& c.build_shared_libs_cmake@ == (if args.static_libs { "OFF"@ } else { "ON"@ })
    &&& c.address_sanitizer_enabled == args.address_sanitizer
    &&& c.wheel == args.wheel
    &&& c.gpu_list_cmake.deep_view() == match args.gpu_list {
        Some(g) => Some("-DGPU_LIST="@ + g@),
        None => None,
    }
    &&& c.jobs == args.jobs
    &&& c.verbose == args.verbose
}

fn absolute_or_exec(cwd: &str, p: &Option<String>, default: String) -> (r: String)
    ensures
        r@ == absolute_or(cwd@, *p, default@),
{
    match p {
        Some(q) => absolute_from_dir(cwd, q.as_str()),
        None => default,
    }
}

impl AppConfig {
    /// Resolves the configuration in the current directory `cwd`, the source
    /// root canonicalized to `canonical_root` (`None` when that failed, which
    /// is an error naming the path).
    pub fn try_from_args(args: CliArgs, cwd: &str, canonical_root: &Option<String>) -> (r: Result<AppConfig, String>)
        ensures
            match *canonical_root {
                None => r == Err::<AppConfig, String>(args.source_root),
                Some(root) => r matches Ok(c) && resolved_rocminfo_config(&args, cwd@, root@, &c),
            },
    {
        let root = match canonical_root {
            Some(r) => owned(r.as_str()),
            None => {
                return Err(args.source_root);
            },
        };
        let build_dir = absolute_or_exec(
            cwd,
            &args.build_dir,
            path_join(path_join(root.as_str(), "build").as_str(), "rocminfo-builder"),
        );
        let package_root = absolute_or_exec(cwd, &args.package_root, path_join(root.as_str(), "dist"));
        let install_prefix = absolute_or_exec(cwd, &args.install_prefix, path_join(package_root.as_str(), "rocm"));
        let deb_package_dir = path_join(path_join(package_root.as_str(), "deb").as_str(), "rocminfo");
        let rpm_package_dir = path_join(path_join(package_root.as_str(), "rpm").as_str(), "rocminfo");
        let (build_type_cmake, rocrts_bld_type_cmake) = if args.release {
            (owned("RelWithDebInfo"), owned("rel"))
        } else {
            (owned("Debug"), owned("debug"))
        };
        let gpu_list_cmake = match &args.gpu_list {
            Some(g) => Some(cat("-DGPU_LIST=", g.as_str())),
            None => None,
        };
        Ok(AppConfig {
            source_root: root,
            install_prefix,
            build_dir,
            package_root,
            deb_package_dir,
            rpm_package_dir,
            rocm_libpatch_version: args.rocm_libpatch_version,
            clean: args.clean,
            build_type_cmake,
            rocrts_bld_type_cmake,
            build_shared_libs_cmake: if args.static_libs { owned("OFF") } else { owned("ON") },
            address_sanitizer_enabled: args.address_sanitizer,
            wheel: args.wheel,
            gpu_list_cmake,
            jobs: args.jobs,
            verbose: args.verbose,
        })
    }
}

/// Removing the build and package directories and the installed binary
/// `<install_prefix>/bin/rocminfo` (each when it exists).
pub open spec fn rocminfo_clean_plan(c: &AppConfig) -> Seq<StepView> {
    let bin = spec_path_join(spec_path_join(c.install_prefix@, "bin"@), "rocminfo"@);
    seq![
        StepView::RemoveDirAll { path: c.build_dir@, context: "Failed to remove directory: "@ + quoted(c.build_dir@) },
        StepView::RemoveDirAll {
            path: c.deb_package_dir@,
            context: "Failed to remove directory: "@ + quoted(c.deb_package_dir@),
        },
        StepView::RemoveDirAll {
            path: c.rpm_package_dir@,
            context: "Failed to remove directory: "@ + quoted(c.rpm_package_dir@),
        },
        StepView::RemoveFile { path: bin, context: "Failed to remove installed binary: "@ + quoted(bin) },
    ]
}

fn remove_dir_step(p: &str) -> (s: Step)
    ensures
        s.deep_view() == (StepView::RemoveDirAll { path: p@, context: "Failed to remove directory: "@ + quoted(p@) }),
{
    Step::RemoveDirAll { path: owned(p), context: cat("Failed to remove directory: ", quoted_str(p).as_str()) }
}

/// The clean (see `rocminfo_clean_plan`).
pub fn handle_clean(config: &AppConfig) -> (plan: Vec<Step>)
    ensures
        plan.deep_view() == rocminfo_clean_plan(config),
{
    let mut plan: Vec<Step> = Vec::new();
    push_step(&mut plan, remove_dir_step(config.build_dir.as_str()));
    push_step(&mut plan, remove_dir_step(config.deb_package_dir.as_str()));
    push_step(&mut plan, remove_dir_step(config.rpm_package_dir.as_str()));
    let bin = path_join(path_join(config.install_prefix.as_str(), "bin").as_str(), "rocminfo");
    let ctx = cat("Failed to remove installed binary: ", quoted_str(bin.as_str()).as_str());
    push_step(&mut plan, Step::RemoveFile { path: bin, context: ctx });
    assert(plan.deep_view() =~= rocminfo_clean_plan(config));
    plan
}

/// The extra component CMake parameters of rocminfo: none.
pub fn get_rocm_cmake_params(_config: &AppConfig) -> (r: Vec<String>)
    ensures
        r@.len() == 0,
{
    Vec::new()
}

/// The extra common CMake parameters of rocminfo: none.
pub fn get_rocm_common_cmake_params(_config: &AppConfig) -> (r: Vec<String>)
    ensures
        r@.len() == 0,
{
    Vec::new()
}

/// Arguments of the CMake configure command.
pub open spec fn rocminfo_configure_args(c: &AppConfig) -> Seq<Seq<char>> {
    seq![
        c.source_root@,
        "-DCMAKE_BUILD_TYPE="@ + c.build_type_cmake@,
        "-DBUILD_SHARED_LIBS="@ + c.build_shared_libs_cmake@,
        "-DCMAKE_INSTALL_PREFIX="@ + c.install_prefix@,
        "-DROCRTST_BLD_TYPE="@ + c.rocrts_bld_type_cmake@,
        "-DCPACK_PACKAGE_VERSION_MAJOR=1"@,
        "-DCPACK_PACKAGE_VERSION_MINOR="@ + c.rocm_libpatch_version@,
        "-DCPACK_PACKAGE_VERSION_PATCH=0"@,
        "-DCMAKE_SKIP_BUILD_RPATH=TRUE"@,
    ] + (match c.gpu_list_cmake {
        Some(g) => seq![g@],
        None => Seq::empty(),
    }) + (if c.address_sanitizer_enabled {
        seq!["-DENABLE_ADDRESS_SANITIZER=ON"@]
    } else {
        Seq::empty()
    })
}

/// The parallelism arguments: `--parallel <jobs>` when a job count is set.
pub open spec fn jobs_args(c: &AppConfig) -> Seq<Seq<char>> {
    match c.jobs {
        Some(j) => seq!["--parallel"@, decimal(j as nat)],
        None => Seq::empty(),
    }
}

/// Everything a build does, given where `cmake` was found on the path (or the
/// lookup error): create the build directory; then configure, build and install.
pub open spec fn rocminfo_build_plan(c: &AppConfig, cmake: Result<Seq<char>, Seq<char>>) -> Seq<StepView> {
    let b = c.build_dir@;
    seq![
        StepView::CreateDirAll { path: b, context: "Failed to create build directory: "@ + quoted(b) },
    ] + match cmake {
        Err(e) => seq![StepView::Fail { message: "cmake executable not found in PATH: "@ + e }],
        Ok(exe) => seq![
            captured(command_in(exe, rocminfo_configure_args(c), b), "CMake configure"@),
            captured(command_in(exe, seq!["--build"@, "."@] + jobs_args(c), b), "CMake build"@),
            captured(command_in(exe, seq!["--build"@, "."@, "--target"@, "install"@] + jobs_args(c), b), "CMake install"@),
        ],
    }
}

fn push_jobs(args: &mut Vec<String>, c: &AppConfig)
    ensures
        final(args).deep_view() == old(args).deep_view() + jobs_args(c),
{
    let ghost start = args.deep_view();
    match c.jobs {
        Some(j) => {
            push_arg(args, owned("--parallel"));
            push_arg(args, usize_to_string(j));
        },
        None => {},
    }
    assert(args.deep_view() =~= start + jobs_args(c));
}

/// The build (see `rocminfo_build_plan`), given the lookup of `cmake` on the path.
pub fn handle_build(config: &AppConfig, cmake: &Result<String, String>) -> (plan: Vec<Step>)
    ensures
        plan.deep_view() == rocminfo_build_plan(config, result_view(*cmake)),
{
    let b = config.build_dir.as_str();
    let mut plan: Vec<Step> = Vec::new();
    push_step(&mut plan, Step::CreateDirAll {
        path: owned(b),
        context: cat("Failed to create build directory: ", quoted_str(b).as_str()),
    });
    match cmake {
        Err(e) => {
            push_step(&mut plan, Step::Fail { message: cat("cmake executable not found in PATH: ", e.as_str()) });
        },
        Ok(exe) => {
            let mut args: Vec<String> = Vec::new();
            push_arg(&mut args, owned(config.source_root.as_str()));
            let p1 = get_rocm_cmake_params(config);
            let p2 = get_rocm_common_cmake_params(config);
            push_arg(&mut args, cat("-DCMAKE_BUILD_TYPE=", config.build_type_cmake.as_str()));
            push_arg(&mut args, cat("-DBUILD_SHARED_LIBS=", config.build_shared_libs_cmake.as_str()));
            push_arg(&mut args, cat("-DCMAKE_INSTALL_PREFIX=", config.install_prefix.as_str()));
            push_arg(&mut args, cat("-DROCRTST_BLD_TYPE=", config.rocrts_bld_type_cmake.as_str()));
            push_arg(&mut args, owned("-DCPACK_PACKAGE_VERSION_MAJOR=1"));
            push_arg(&mut args, cat("-DCPACK_PACKAGE_VERSION_MINOR=", config.rocm_libpatch_version.as_str()));
            push_arg(&mut args, owned("-DCPACK_PACKAGE_VERSION_PATCH=0"));
            push_arg(&mut args, owned("-DCMAKE_SKIP_BUILD_RPATH=TRUE"));
            match &config.gpu_list_cmake {
                Some(g) => push_arg(&mut args, owned(g.as_str())),
                None => {},
            }
            if config.address_sanitizer_enabled {
                push_arg(&mut args, owned("-DENABLE_ADDRESS_SANITIZER=ON"));
            }
            assert(args.deep_view() =~= rocminfo_configure_args(config));
            push_step(&mut plan, captured_step(command_in_dir(exe.as_str(), args, b), "CMake configure"));
            let mut build: Vec<String> = Vec::new();
            push_arg(&mut build, owned("--build"));
            push_arg(&mut build, owned("."));
            push_jobs(&mut build, config);
            assert(build.deep_view() =~= seq!["--build"@, "."@] + jobs_args(config));
            push_step(&mut plan, captured_step(command_in_dir(exe.as_str(), build, b), "CMake build"));
            let mut install: Vec<String> = Vec::new();
            push_arg(&mut install, owned("--build"));
            push_arg(&mut install, owned("."));
            push_arg(&mut install, owned("--target"));
            push_arg(&mut install, owned("install"));
            push_jobs(&mut install, config);
            assert(install.deep_view() =~= seq!["--build"@, "."@, "--target"@, "install"@] + jobs_args(config));
            push_step(&mut plan, captured_step(command_in_dir(exe.as_str(), install, b), "CMake install"));
        },
    }
    assert(plan.deep_view() =~= rocminfo_build_plan(config, result_view(*cmake)));
    plan
}

/// The line that `--outdir-target` prints (see `outdir_choice`).
pub fn handle_outdir(config: &AppConfig, pkg_to_print: &str) -> (r: Result<String, String>)
    ensures
        result_view(r) == outdir_choice(config.deb_package_dir@, config.rpm_package_dir@, pkg_to_print@),
{
    outdir_choice_exec(config.deb_package_dir.as_str(), config.rpm_package_dir.as_str(), pkg_to_print)
}

/// The build directory that a build creates and runs its commands in is the
/// one the clean removes; the clean also removes the binary that the install
/// puts under the install prefix.
pub proof fn law_clean_removes_build_outputs(c: &AppConfig, cmake: Result<Seq<char>, Seq<char>>)
    ensures
        rocminfo_build_plan(c, cmake)[0] matches StepView::CreateDirAll { path, .. } && path == c.build_dir@,
        rocminfo_clean_plan(c)[0] matches StepView::RemoveDirAll { path, .. } && path == c.build_dir@,
        rocminfo_clean_plan(c)[3] matches StepView::RemoveFile { path, .. } && path == spec_path_join(
            spec_path_join(c.install_prefix@, "bin"@),
            "rocminfo"@,
        ),
        forall|i: int|
            1 <= i < rocminfo_build_plan(c, cmake).len() ==> (#[trigger] rocminfo_build_plan(c, cmake)[i] matches StepView::RunCaptured { command, .. }
                ==> command.current_dir == Some(c.build_dir@)),
{
}

/// A GPU list given on the command line reaches the CMake configure command
/// of the build as `-DGPU_LIST=<list>`; without one, the configuration carries none.
pub proof fn law_gpu_list_reaches_configure(args: &CliArgs, cwd: Seq<char>, root: Seq<char>, c: &AppConfig, exe: Seq<char>)
    requires
        resolved_rocminfo_config(args, cwd, root, c),
    ensures
        rocminfo_build_plan(c, Ok(exe))[1] matches StepView::RunCaptured { command, .. } && (args.gpu_list matches Some(g)
            ==> command.args.contains("-DGPU_LIST="@ + g@)),
        args.gpu_list is None ==> c.gpu_list_cmake is None,
{
    let a = rocminfo_configure_args(c);
    match args.gpu_list {
        Some(g) => {
            assert(a[9] == c.gpu_list_cmake->0@);
        },
        None => {},
    }
}

} // verus!
