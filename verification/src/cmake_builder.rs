//! The rocm-cmake builder: configures, builds, installs and packages rocm-cmake.
use vstd::prelude::*;
use crate::text::{cat, cat3, owned, str_eq, spec_to_lowercase, to_lowercase, result_view};
use crate::paths::{absolute_from, absolute_from_dir, spec_path_join, path_join, spec_path_debug, path_debug};
use crate::plan::{
    CommandSpec, CommandView, Step, StepView, PackageFilter, PackageFilterView, command, push_arg,
    push_step,
};

verus! {

/// How the tools show a path in their messages: its `Debug` form, quoted and escaped.
pub open spec fn quoted(p: Seq<char>) -> Seq<char> {
    spec_path_debug(p)
}

/// A path as the tools show it in their messages (see `quoted`).
pub fn quoted_str(p: &str) -> (r: String)
    ensures
        r@ == quoted(p@),
{
    path_debug(p)
}

/// A command run in a working directory.
pub open spec fn command_in(program: Seq<char>, args: Seq<Seq<char>>, cwd: Seq<char>) -> CommandView {
    CommandView { program, args, current_dir: Some(cwd), envs: Seq::empty() }
}

pub fn command_in_dir(program: &str, args: Vec<String>, cwd: &str) -> (c: CommandSpec)
    ensures
        c.deep_view() == command_in(program@, args.deep_view(), cwd@),
{
    let mut c = command(program, args);
    c.current_dir = Some(owned(cwd));
    c
}

/// A captured run of a command.
pub open spec fn captured(command: CommandView, label: Seq<char>) -> StepView {
    StepView::RunCaptured {
        command,
        label,
        start_context: "Failed to execute "@ + label + " command"@,
    }
}

pub fn captured_step(command: CommandSpec, label: &str) -> (s: Step)
    ensures
        s.deep_view() == captured(command.deep_view(), label@),
{
    Step::RunCaptured { command, label: owned(label), start_context: cat3("Failed to execute ", label, " command") }
}

/// The message for an unknown package type given to `--outdir-target`.
pub open spec fn invalid_outdir_message(pkg: Seq<char>) -> Seq<char> {
    "Invalid package type \""@ + pkg + "\" provided for --outdir-target. Use 'deb' or 'rpm'."@
}

/// The directory that `--outdir-target` prints: the DEB or RPM package
/// directory, the type compared in lower case; other types are an error.
pub open spec fn outdir_choice(deb: Seq<char>, rpm: Seq<char>, pkg: Seq<char>) -> Result<Seq<char>, Seq<char>> {
    if spec_to_lowercase(pkg) == "deb"@ {
        Ok(deb)
    } else if spec_to_lowercase(pkg) == "rpm"@ {
        Ok(rpm)
    } else {
        Err(invalid_outdir_message(pkg))
    }
}

pub fn outdir_choice_exec(deb: &str, rpm: &str, pkg: &str) -> (r: Result<String, String>)
    ensures
        result_view(r) == outdir_choice(deb@, rpm@, pkg@),
{
    let lower = to_lowercase(pkg);
    if str_eq(lower.as_str(), "deb") {
        Ok(owned(deb))
    } else if str_eq(lower.as_str(), "rpm") {
        Ok(owned(rpm))
    } else {
        Err(cat3("Invalid package type \"", pkg, "\" provided for --outdir-target. Use 'deb' or 'rpm'."))
    }
}

/// The command-line options of the rocm-cmake builder.
pub struct CliArgs {
    pub rocm_cmake_root: String,
    pub build_dir: Option<String>,
    pub package_root: Option<String>,
    pub clean: bool,
    pub release: bool,
    pub static_libs: bool,
    pub address_sanitizer: bool,
    pub package_type: String,
    pub outdir_target: Option<String>,
    pub wheel: bool,
    pub verbose: bool,
}

/// The resolved configuration of the rocm-cmake builder.
pub struct AppConfig {
    pub rocm_cmake_root: String,
    pub build_dir: String,
    pub package_root: String,
    pub deb_package_dir: String,
    pub rpm_package_dir: String,
    pub clean: bool,
    pub build_type_cmake: String,
    pub build_shared_libs_cmake: String,
    pub package_type_to_build: String,
    pub wheel: bool,
    pub verbose: bool,
}

/// The canonical forms (`Path::canonicalize`) of the paths that
/// `AppConfig::paths_to_canonicalize` names, `None` where that failed.
pub struct CanonicalPaths {
    pub rocm_cmake_root: Option<String>,
    pub build_dir: Option<String>,
    pub package_root: Option<String>,
}

/// The configuration when rocm-cmake's root canonicalizes to `root`: an
/// explicit build directory or package root is used in canonical form where it
/// has one, else as given; by default they lie under the root.
pub open spec fn resolved_app_config(args: &CliArgs, canon: &CanonicalPaths, root: Seq<char>, c: &AppConfig) -> bool {
    let pr = match args.package_root {
        Some(p) => match canon.package_root {
            Some(q) => q@,
            None => p@,
        },
        None => spec_path_join(root, "dist"@),
    };
    &&& c.rocm_cmake_root@ == root
    &&& c.build_dir@ == match args.build_dir {
        Some(p) => match canon.build_dir {
            Some(q) => q@,
            None => p@,
        },
        None => spec_path_join(spec_path_join(root, "build"@), "rocm-cmake-builder"@),
    }
    &&& c.package_root@ == pr
    &&& c.deb_package_dir@ == spec_path_join(spec_path_join(pr, "deb"@), "rocm-cmake"@)
    &&& c.rpm_package_dir@ == spec_path_join(spec_path_join(pr, "rpm"@), "rocm-cmake"@)
    &&& c.clean == args.clean
    &&& c.build_type_cmake@ == (if args.release { "Release"@ } else { "Debug"@ })
    &&& c.build_shared_libs_cmake@ == (if args.static_libs { "OFF"@ } else { "ON"@ })
    &&& c.package_type_to_build@ == spec_to_lowercase(args.package_type@)
    &&& c.wheel == args.wheel
    &&& c.verbose == args.verbose
}

fn canonical_or_given(given: &Option<String>, canonical: &Option<String>, default: String) -> (r: String)
    ensures
        r@ == match *given {
            Some(p) => match *canonical {
                Some(q) => q@,
                None => p@,
            },
            None => default@,
        },
{
    match given {
        Some(p) => match canonical {
            Some(q) => owned(q.as_str()),
            None => owned(p.as_str()),
        },
        None => default,
    }
}

impl AppConfig {
    /// The paths to canonicalize before resolving: the root as given, and the
    /// explicit build directory and package root made absolute against `cwd`
    /// (the empty path when the current directory is unknown).
    pub fn paths_to_canonicalize(args: &CliArgs, cwd: &str) -> (r: (String, Option<String>, Option<String>))
        ensures
            r.0@ == args.rocm_cmake_root@,
            r.1.deep_view() == match args.build_dir {
                Some(p) => Some(absolute_from(cwd@, p@)),
                None => None,
            },
            r.2.deep_view() == match args.package_root {
                Some(p) => Some(absolute_from(cwd@, p@)),
                None => None,
            },
    {
        let b = match &args.build_dir {
            Some(p) => Some(absolute_from_dir(cwd, p.as_str())),
            None => None,
        };
        let p = match &args.package_root {
            Some(p) => Some(absolute_from_dir(cwd, p.as_str())),
            None => None,
        };
        (owned(args.rocm_cmake_root.as_str()), b, p)
    }

    /// Resolves the configuration; fails (naming the path) when the root
    /// cannot be canonicalized.
    pub fn try_from_args(args: CliArgs, canon: &CanonicalPaths) -> (r: Result<AppConfig, String>)
        ensures
            match canon.rocm_cmake_root {
                None => r == Err::<AppConfig, String>(args.rocm_cmake_root),
                Some(root) => r matches Ok(c) && resolved_app_config(&args, canon, root@, &c),
            },
    {
        let root = match &canon.rocm_cmake_root {
            Some(r) => owned(r.as_str()),
            None => {
                return Err(args.rocm_cmake_root);
            },
        };
        let build_default = path_join(path_join(root.as_str(), "build").as_str(), "rocm-cmake-builder");
        let build_dir = canonical_or_given(&args.build_dir, &canon.build_dir, build_default);
        let package_default = path_join(root.as_str(), "dist");
        let package_root = canonical_or_given(&args.package_root, &canon.package_root, package_default);
        let deb_package_dir = path_join(path_join(package_root.as_str(), "deb").as_str(), "rocm-cmake");
        let rpm_package_dir = path_join(path_join(package_root.as_str(), "rpm").as_str(), "rocm-cmake");
        Ok(AppConfig {
            rocm_cmake_root: root,
            build_dir,
            package_root,
            deb_package_dir,
            rpm_package_dir,
            clean: args.clean,
            build_type_cmake: if args.release { owned("Release") } else { owned("Debug") },
            build_shared_libs_cmake: if args.static_libs { owned("OFF") } else { owned("ON") },
            package_type_to_build: to_lowercase(args.package_type.as_str()),
            wheel: args.wheel,
            verbose: args.verbose,
        })
    }
}

/// Removing the build directory, the DEB and RPM package directories, and the
/// wheel directory inside the build directory (each when it exists).
pub open spec fn cmake_clean_plan(c: &AppConfig) -> Seq<StepView> {
    let w = spec_path_join(c.build_dir@, "wheelhouse"@);
    seq![
        StepView::RemoveDirAll {
            path: c.build_dir@,
            context: "Failed to remove build directory: "@ + quoted(c.build_dir@),
        },
        StepView::RemoveDirAll {
            path: c.deb_package_dir@,
            context: "Failed to remove DEB package directory: "@ + quoted(c.deb_package_dir@),
        },
        StepView::RemoveDirAll {
            path: c.rpm_package_dir@,
            context: "Failed to remove RPM package directory: "@ + quoted(c.rpm_package_dir@),
        },
        StepView::RemoveDirAll {
            path: w,
            context: "Failed to remove wheel distribution directory: "@ + quoted(w),
        },
    ]
}

/// The clean (see `cmake_clean_plan`).
pub fn handle_clean(config: &AppConfig) -> (plan: Vec<Step>)
    ensures
        plan.deep_view() == cmake_clean_plan(config),
{
    let mut plan: Vec<Step> = Vec::new();
    push_step(&mut plan, Step::RemoveDirAll {
        path: owned(config.build_dir.as_str()),
        context: cat("Failed to remove build directory: ", quoted_str(config.build_dir.as_str()).as_str()),
    });
    push_step(&mut plan, Step::RemoveDirAll {
        path: owned(config.deb_package_dir.as_str()),
        context: cat("Failed to remove DEB package directory: ", quoted_str(config.deb_package_dir.as_str()).as_str()),
    });
    push_step(&mut plan, Step::RemoveDirAll {
        path: owned(config.rpm_package_dir.as_str()),
        context: cat("Failed to remove RPM package directory: ", quoted_str(config.rpm_package_dir.as_str()).as_str()),
    });
    let w = path_join(config.build_dir.as_str(), "wheelhouse");
    let ctx = cat("Failed to remove wheel distribution directory: ", quoted_str(w.as_str()).as_str());
    push_step(&mut plan, Step::RemoveDirAll { path: w, context: ctx });
    assert(plan.deep_view() =~= cmake_clean_plan(config));
    plan
}

/// The extra CMake parameters of rocm-cmake: none.
pub fn get_rocm_cmake_params(_config: &AppConfig) -> (r: Vec<String>)
    ensures
        r@.len() == 0,
{
    Vec::new()
}

/// Arguments of the CMake configure command.
pub open spec fn cmake_configure_args(c: &AppConfig) -> Seq<Seq<char>> {
    seq![
        c.rocm_cmake_root@,
        "-DCMAKE_BUILD_TYPE="@ + c.build_type_cmake@,
        "-DBUILD_SHARED_LIBS="@ + c.build_shared_libs_cmake@,
        "-DCPACK_SET_DESTDIR=OFF"@,
        "-DROCM_DISABLE_LDCONFIG=ON"@,
    ]
}

/// Copying the packages of one format: create the directory, then copy every
/// `rocm-cmake*.<ext>` file of the build directory into it.
pub open spec fn format_copy_steps(c: &AppConfig, label: Seq<char>, ext: Seq<char>, dest: Seq<char>) -> Seq<StepView> {
    seq![
        StepView::CreateDirAll {
            path: dest,
            context: "Failed to create "@ + label + " package directory: "@ + quoted(dest),
        },
        StepView::CopyPackages {
            pattern: spec_path_join(c.build_dir@, "rocm-cmake*"@ + ext),
            dest_dir: dest,
            filter: PackageFilterView::Every,
            entry_errors_fatal: true,
            context: None,
        },
    ]
}

/// Copying the packages of the formats asked for (`all`, `deb` or `rpm`).
pub open spec fn cmake_copy_steps(c: &AppConfig) -> Seq<StepView> {
    let t = spec_to_lowercase(c.package_type_to_build@);
    (if t == "all"@ || t == "deb"@ {
        format_copy_steps(c, "DEB"@, ".deb"@, c.deb_package_dir@)
    } else {
        Seq::empty()
    }) + (if t == "all"@ || t == "rpm"@ {
        format_copy_steps(c, "RPM"@, ".rpm"@, c.rpm_package_dir@)
    } else {
        Seq::empty()
    })
}

/// Building the wheel with the Python interpreter `python` found on the path
/// (or the lookup error): in verbose mode `setup.py` must exist first.
pub open spec fn wheel_steps(c: &AppConfig, python: Result<Seq<char>, Seq<char>>) -> Seq<StepView> {
    let w = spec_path_join(c.build_dir@, "wheelhouse"@);
    let setup = spec_path_join(c.rocm_cmake_root@, "setup.py"@);
    match python {
        Err(e) => seq![
            StepView::Fail {
                message: "python3 or python executable not found in PATH: "@ + e
                    + ". Ensure Python is installed and in PATH."@,
            },
        ],
        Ok(py) => (if c.verbose {
            seq![
                StepView::RequireFile {
                    path: setup,
                    message: "setup.py not found at "@ + quoted(setup) + ". Cannot build wheel."@,
                },
            ]
        } else {
            Seq::empty()
        }) + seq![
            StepView::CreateDirAll {
                path: w,
                context: "Failed to create wheel distribution directory: "@ + quoted(w),
            },
            StepView::RunCaptured {
                command: command_in(py, seq!["setup.py"@, "bdist_wheel"@, "--dist-dir"@, w], c.rocm_cmake_root@),
                label: "Python wheel"@,
                start_context: "Failed to execute python setup.py bdist_wheel. Ensure python, setuptools, and wheel are installed and setup.py exists at "@
                    + quoted(c.rocm_cmake_root@),
            },
        ],
    }
}

/// Everything a build does, given where `cmake` and (for a wheel) Python were
/// found on the path, or the lookup errors: create the build directory; then,
/// with cmake found, configure, build and install, package, copy the packages,
/// and build the wheel when asked.
pub open spec fn cmake_build_plan(c: &AppConfig, cmake: Result<Seq<char>, Seq<char>>, python: Result<Seq<char>, Seq<char>>) -> Seq<StepView> {
    let b = c.build_dir@;
    seq![
        StepView::CreateDirAll { path: b, context: "Failed to create build directory: "@ + quoted(b) },
    ] + match cmake {
        Err(e) => seq![StepView::Fail { message: "cmake executable not found in PATH: "@ + e }],
        Ok(exe) => seq![
            captured(command_in(exe, cmake_configure_args(c), b), "CMake configure"@),
            captured(command_in(exe, seq!["--build"@, "."@, "--target"@, "install"@], b), "CMake build and install"@),
            captured(command_in(exe, seq!["--build"@, "."@, "--target"@, "package"@], b), "CMake package"@),
        ] + cmake_copy_steps(c) + if c.wheel {
            wheel_steps(c, python)
        } else {
            Seq::empty()
        },
    }
}

fn push_format_copy_steps(plan: &mut Vec<Step>, c: &AppConfig, label: &str, ext: &str, dest: &str)
    ensures
        final(plan).deep_view() == old(plan).deep_view() + format_copy_steps(c, label@, ext@, dest@),
{
    let ghost start = plan.deep_view();
    push_step(plan, Step::CreateDirAll {
        path: owned(dest),
        context: cat3(&cat3("Failed to create ", label, " package directory: "), quoted_str(dest).as_str(), ""),
    });
    proof {
        reveal_strlit("");
        assert(("Failed to create "@ + label@ + " package directory: "@) + quoted(dest@) + ""@ =~= "Failed to create "@ + label@ + " package directory: "@ + quoted(dest@));
    }
    push_step(plan, Step::CopyPackages {
        pattern: path_join(c.build_dir.as_str(), cat("rocm-cmake*", ext).as_str()),
        dest_dir: owned(dest),
        filter: PackageFilter::Every,
        entry_errors_fatal: true,
        context: None,
    });
    assert(plan.deep_view() =~= start + format_copy_steps(c, label@, ext@, dest@));
}

fn push_wheel_steps(plan: &mut Vec<Step>, c: &AppConfig, python: &Result<String, String>)
    ensures
        final(plan).deep_view() == old(plan).deep_view() + wheel_steps(c, result_view(*python)),
{
    let ghost start = plan.deep_view();
    match python {
        Err(e) => {
            push_step(plan, Step::Fail {
                message: cat3("python3 or python executable not found in PATH: ", e.as_str(), ". Ensure Python is installed and in PATH."),
            });
        },
        Ok(py) => {
            let w = path_join(c.build_dir.as_str(), "wheelhouse");
            if c.verbose {
                let setup = path_join(c.rocm_cmake_root.as_str(), "setup.py");
                let message = cat3("setup.py not found at ", quoted_str(setup.as_str()).as_str(), ". Cannot build wheel.");
                push_step(plan, Step::RequireFile { path: setup, message });
            }
            let ghost mid = plan.deep_view();
            push_step(plan, Step::CreateDirAll {
                path: owned(w.as_str()),
                context: cat("Failed to create wheel distribution directory: ", quoted_str(w.as_str()).as_str()),
            });
            let mut args: Vec<String> = Vec::new();
            push_arg(&mut args, owned("setup.py"));
            push_arg(&mut args, owned("bdist_wheel"));
            push_arg(&mut args, owned("--dist-dir"));
            push_arg(&mut args, owned(w.as_str()));
            assert(args.deep_view() =~= seq!["setup.py"@, "bdist_wheel"@, "--dist-dir"@, w@]);
            push_step(plan, Step::RunCaptured {
                command: command_in_dir(py.as_str(), args, c.rocm_cmake_root.as_str()),
                label: owned("Python wheel"),
                start_context: cat(
                    "Failed to execute python setup.py bdist_wheel. Ensure python, setuptools, and wheel are installed and setup.py exists at ",
                    quoted_str(c.rocm_cmake_root.as_str()).as_str(),
                ),
            });
        },
    }
    assert(plan.deep_view() =~= start + wheel_steps(c, result_view(*python)));
}

/// The build (see `cmake_build_plan`), given the lookups of `cmake` and of
/// `python3` (else `python`) on the path.
pub fn handle_build(config: &AppConfig, cmake: &Result<String, String>, python: &Result<String, String>) -> (plan: Vec<Step>)
    ensures
        plan.deep_view() == cmake_build_plan(config, result_view(*cmake), result_view(*python)),
{
    let b = config.build_dir.as_str();
    let mut plan: Vec<Step> = Vec::new();
    push_step(&mut plan, Step::CreateDirAll {
        path: owned(b),
        context: cat("Failed to create build directory: ", quoted_str(b).as_str()),
    });
    let ghost one = plan.deep_view();
    match cmake {
        Err(e) => {
            push_step(&mut plan, Step::Fail { message: cat("cmake executable not found in PATH: ", e.as_str()) });
        },
        Ok(exe) => {
            let mut args: Vec<String> = Vec::new();
            push_arg(&mut args, owned(config.rocm_cmake_root.as_str()));
            let params = get_rocm_cmake_params(config);
            assert(params.deep_view() =~= Seq::<Seq<char>>::empty());
            push_arg(&mut args, cat("-DCMAKE_BUILD_TYPE=", config.build_type_cmake.as_str()));
            push_arg(&mut args, cat("-DBUILD_SHARED_LIBS=", config.build_shared_libs_cmake.as_str()));
            push_arg(&mut args, owned("-DCPACK_SET_DESTDIR=OFF"));
            push_arg(&mut args, owned("-DROCM_DISABLE_LDCONFIG=ON"));
            assert(args.deep_view() =~= cmake_configure_args(config));
            push_step(&mut plan, captured_step(command_in_dir(exe.as_str(), args, b), "CMake configure"));
            let mut install: Vec<String> = Vec::new();
            push_arg(&mut install, owned("--build"));
            push_arg(&mut install, owned("."));
            push_arg(&mut install, owned("--target"));
            push_arg(&mut install, owned("install"));
            assert(install.deep_view() =~= seq!["--build"@, "."@, "--target"@, "install"@]);
            push_step(&mut plan, captured_step(command_in_dir(exe.as_str(), install, b), "CMake build and install"));
            let mut package: Vec<String> = Vec::new();
            push_arg(&mut package, owned("--build"));
            push_arg(&mut package, owned("."));
            push_arg(&mut package, owned("--target"));
            push_arg(&mut package, owned("package"));
            assert(package.deep_view() =~= seq!["--build"@, "."@, "--target"@, "package"@]);
            push_step(&mut plan, captured_step(command_in_dir(exe.as_str(), package, b), "CMake package"));
            let ghost four = plan.deep_view();
            let t = to_lowercase(config.package_type_to_build.as_str());
            if str_eq(t.as_str(), "all") || str_eq(t.as_str(), "deb") {
                push_format_copy_steps(&mut plan, config, "DEB", ".deb", config.deb_package_dir.as_str());
            }
            let ghost five = plan.deep_view();
            if str_eq(t.as_str(), "all") || str_eq(t.as_str(), "rpm") {
                push_format_copy_steps(&mut plan, config, "RPM", ".rpm", config.rpm_package_dir.as_str());
            }
            assert(plan.deep_view() =~= four + cmake_copy_steps(config));
            let ghost six = plan.deep_view();
            if config.wheel {
                push_wheel_steps(&mut plan, config, python);
            }
        },
    }
    assert(plan.deep_view() =~= cmake_build_plan(config, result_view(*cmake), result_view(*python)));
    plan
}

/// The line that `--outdir-target` prints (see `outdir_choice`).
pub fn handle_outdir(config: &AppConfig, pkg_to_print: &str) -> (r: Result<String, String>)
    ensures
        result_view(r) == outdir_choice(config.deb_package_dir@, config.rpm_package_dir@, pkg_to_print@),
{
    outdir_choice_exec(config.deb_package_dir.as_str(), config.rpm_package_dir.as_str(), pkg_to_print)
}

/// Every directory a build writes into is removed by the clean: the build
/// directory (holding the wheel directory) and the package directories the
/// packages are copied to.
pub proof fn law_clean_removes_build_outputs(c: &AppConfig, cmake: Result<Seq<char>, Seq<char>>, python: Result<Seq<char>, Seq<char>>)
    ensures
        cmake_build_plan(c, cmake, python)[0] matches StepView::CreateDirAll { path, .. } && path == c.build_dir@,
        cmake_clean_plan(c)[0] matches StepView::RemoveDirAll { path, .. } && path == c.build_dir@,
        cmake_clean_plan(c)[1] matches StepView::RemoveDirAll { path, .. } && path == c.deb_package_dir@,
        cmake_clean_plan(c)[2] matches StepView::RemoveDirAll { path, .. } && path == c.rpm_package_dir@,
        forall|i: int|
            0 <= i < cmake_build_plan(c, cmake, python).len() ==> (
            #[trigger] cmake_build_plan(c, cmake, python)[i] matches StepView::CopyPackages { dest_dir, .. }
                ==> dest_dir == c.deb_package_dir@ || dest_dir == c.rpm_package_dir@),
{
    let plan = cmake_build_plan(c, cmake, python);
    assert forall|i: int| 0 <= i < plan.len() implies (#[trigger] plan[i] matches StepView::CopyPackages { dest_dir, .. }
        ==> dest_dir == c.deb_package_dir@ || dest_dir == c.rpm_package_dir@) by {
        match cmake {
            Err(e) => {},
            Ok(exe) => {
                let head = seq![
                    StepView::CreateDirAll { path: c.build_dir@, context: "Failed to create build directory: "@ + quoted(c.build_dir@) },
                    captured(command_in(exe, cmake_configure_args(c), c.build_dir@), "CMake configure"@),
                    captured(command_in(exe, seq!["--build"@, "."@, "--target"@, "install"@], c.build_dir@), "CMake build and install"@),
                    captured(command_in(exe, seq!["--build"@, "."@, "--target"@, "package"@], c.build_dir@), "CMake package"@),
                ];
                let copies = cmake_copy_steps(c);
                let rest = if c.wheel { wheel_steps(c, python) } else { Seq::empty() };
                assert(plan =~= head + copies + rest);
                if i >= head.len() + copies.len() {
                    assert(plan[i] == rest[i - head.len() - copies.len()]);
                    match python {
                        Err(e) => {},
                        Ok(py) => {
                            if c.verbose {
                                let k = i - head.len() - copies.len();
                                assert(k < 3);
                            }
                        },
                    }
                } else if i >= head.len() {
                    assert(plan[i] == copies[i - head.len()]);
                }
            },
        }
    }
}

/// The step that copies the rocm-cmake packages with extension `ext` into `dest`.
pub open spec fn rocm_cmake_copy(c: &AppConfig, ext: Seq<char>, dest: Seq<char>) -> StepView {
    StepView::CopyPackages {
        pattern: spec_path_join(c.build_dir@, "rocm-cmake*"@ + ext),
        dest_dir: dest,
        filter: PackageFilterView::Every,
        entry_errors_fatal: true,
        context: None,
    }
}

/// With `cmake` found, the build copies the `.deb` packages into the DEB
/// package directory when the package type (in lower case) is `deb` or `all`,
/// and the `.rpm` packages into the RPM package directory when it is `rpm` or
/// `all`; no other package copy is made.
pub proof fn law_packages_copied_for_requested_types(c: &AppConfig, exe: Seq<char>, python: Result<Seq<char>, Seq<char>>)
    ensures
        (spec_to_lowercase(c.package_type_to_build@) == "all"@ || spec_to_lowercase(c.package_type_to_build@)
            == "deb"@) ==> exists|i: int|
            0 <= i < cmake_build_plan(c, Ok(exe), python).len() && #[trigger] cmake_build_plan(c, Ok(exe), python)[i]
                == rocm_cmake_copy(c, ".deb"@, c.deb_package_dir@),
        (spec_to_lowercase(c.package_type_to_build@) == "all"@ || spec_to_lowercase(c.package_type_to_build@)
            == "rpm"@) ==> exists|i: int|
            0 <= i < cmake_build_plan(c, Ok(exe), python).len() && #[trigger] cmake_build_plan(c, Ok(exe), python)[i]
                == rocm_cmake_copy(c, ".rpm"@, c.rpm_package_dir@),
        forall|i: int|
            0 <= i < cmake_build_plan(c, Ok(exe), python).len() && (#[trigger] cmake_build_plan(c, Ok(exe), python)[i] is CopyPackages)
                ==> {
                ||| cmake_build_plan(c, Ok(exe), python)[i] == rocm_cmake_copy(c, ".deb"@, c.deb_package_dir@)
                    && (spec_to_lowercase(c.package_type_to_build@) == "all"@ || spec_to_lowercase(c.package_type_to_build@) == "deb"@)
                ||| cmake_build_plan(c, Ok(exe), python)[i] == rocm_cmake_copy(c, ".rpm"@, c.rpm_package_dir@)
                    && (spec_to_lowercase(c.package_type_to_build@) == "all"@ || spec_to_lowercase(c.package_type_to_build@) == "rpm"@)
            },
{
    let t = spec_to_lowercase(c.package_type_to_build@);
    let plan = cmake_build_plan(c, Ok(exe), python);
    let head = seq![
        StepView::CreateDirAll { path: c.build_dir@, context: "Failed to create build directory: "@ + quoted(c.build_dir@) },
        captured(command_in(exe, cmake_configure_args(c), c.build_dir@), "CMake configure"@),
        captured(command_in(exe, seq!["--build"@, "."@, "--target"@, "install"@], c.build_dir@), "CMake build and install"@),
        captured(command_in(exe, seq!["--build"@, "."@, "--target"@, "package"@], c.build_dir@), "CMake package"@),
    ];
    let deb = if t == "all"@ || t == "deb"@ { format_copy_steps(c, "DEB"@, ".deb"@, c.deb_package_dir@) } else { Seq::empty() };
    let rpm = if t == "all"@ || t == "rpm"@ { format_copy_steps(c, "RPM"@, ".rpm"@, c.rpm_package_dir@) } else { Seq::empty() };
    let rest = if c.wheel { wheel_steps(c, python) } else { Seq::empty() };
    assert(cmake_copy_steps(c) == deb + rpm);
    assert(plan =~= head + deb + rpm + rest);
    if t == "all"@ || t == "deb"@ {
        assert(plan[5] == deb[1]);
    }
    if t == "all"@ || t == "rpm"@ {
        assert(plan[(head.len() + deb.len() + 1) as int] == rpm[1]);
    }
    assert forall|i: int|
        0 <= i < plan.len() && (#[trigger] plan[i] is CopyPackages) implies {
        ||| plan[i] == rocm_cmake_copy(c, ".deb"@, c.deb_package_dir@) && (t == "all"@ || t == "deb"@)
        ||| plan[i] == rocm_cmake_copy(c, ".rpm"@, c.rpm_package_dir@) && (t == "all"@ || t == "rpm"@)
    } by {
        if i >= head.len() + deb.len() + rpm.len() {
            assert(plan[i] == rest[i - head.len() - deb.len() - rpm.len()]);
            match python {
                Err(e) => {},
                Ok(py) => {
                    if c.verbose {
                        let k = i - head.len() - deb.len() - rpm.len();
                        assert(k < 3);
                    }
                },
            }
        } else if i >= head.len() + deb.len() {
            assert(plan[i] == rpm[i - head.len() - deb.len()]);
        } else if i >= head.len() {
            assert(plan[i] == deb[i - head.len()]);
        }
    }
}

} // verus!
