//! CMake parameters and package copying of the rocm-smi-lib builder.
use vstd::prelude::*;
use crate::text::{cat, cat3, owned, str_eq, spec_to_lowercase, to_lowercase};
use crate::paths::{spec_path_join, path_join};
use crate::plan::{CommandSpec, CommandView, Step, StepView, PackageFilter, PackageFilterView, push_arg, push_step};
use super::config_smi::RocmSmiConfig;

verus! {

/// The environment the CMake parameters depend on: the values of
/// `CMAKE_BUILD_TYPE`, `CXXFLAGS`, `CFLAGS`, `PYTHON_EXECUTABLE`,
/// `CODE_COVERAGE`, `ASAN_OPTIONS`, `LSAN_OPTIONS`, `ASAN_PRELOAD` (each `None`
/// when unset), and where `python3` and `python` are found on the `PATH`.
pub struct SmiEnv {
    pub cmake_build_type: Option<String>,
    pub cxxflags: Option<String>,
    pub cflags: Option<String>,
    pub python_executable: Option<String>,
    pub code_coverage: Option<String>,
    pub asan_options: Option<String>,
    pub lsan_options: Option<String>,
    pub asan_preload: Option<String>,
    pub python3_on_path: Option<String>,
    pub python_on_path: Option<String>,
}

/// The value of an optional variable, empty when unset.
pub open spec fn or_empty(v: Option<String>) -> Seq<char> {
    match v {
        Some(s) => s@,
        None => Seq::empty(),
    }
}

fn or_empty_str(v: &Option<String>) -> (r: &str)
    ensures
        r@ == or_empty(*v),
{
    match v {
        Some(s) => s.as_str(),
        None => {
            proof {
                reveal_strlit("");
            }
            ""
        },
    }
}

/// A debug build was asked for through `CMAKE_BUILD_TYPE` (in any case).
pub open spec fn is_debug_env(env: &SmiEnv) -> bool {
    spec_to_lowercase(or_empty(env.cmake_build_type)) == "debug"@
}

/// The parameters common to ROCm CMake builds.
pub open spec fn common_params(c: &RocmSmiConfig, env: &SmiEnv) -> Seq<Seq<char>> {
    seq![
        "-DCMAKE_INSTALL_PREFIX="@ + c.rocm_path@,
        "-DROCM_PATH="@ + c.rocm_path@,
        "-DCMAKE_PREFIX_PATH="@ + c.cmake_prefix_path@,
        "-DCMAKE_BUILD_TYPE="@ + (if is_debug_env(env) { "Debug"@ } else { "Release"@ }),
    ] + (if c.cpack_generator@.len() > 0 {
        seq!["-DCPACK_GENERATOR="@ + c.cpack_generator@]
    } else {
        Seq::empty()
    }) + seq![
        "-DCPACK_PACKAGE_VERSION_PATCH="@ + c.rocm_patch_version@,
        "-DCMAKE_INSTALL_LIBDIR="@ + c.lib_dir_suffix@,
    ] + (if c.enable_address_sanitizer {
        seq![
            "-DENABLE_ASAN=ON"@,
            "-DCMAKE_CXX_FLAGS="@ + or_empty(env.cxxflags) + " -fsanitize=address -fno-omit-frame-pointer"@,
            "-DCMAKE_C_FLAGS="@ + or_empty(env.cflags) + " -fsanitize=address -fno-omit-frame-pointer"@,
        ]
    } else {
        Seq::empty()
    }) + (if c.static_libs {
        seq!["-DBUILD_SHARED_LIBS=OFF"@, "-DBUILD_STATIC_LIBS=ON"@]
    } else {
        seq!["-DBUILD_SHARED_LIBS=ON"@]
    })
}

/// The Python interpreter parameter: `PYTHON_EXECUTABLE` when set (nothing when
/// it is set but empty), else `python3` on the path, else `python`, else none.
pub open spec fn python_params(env: &SmiEnv) -> Seq<Seq<char>> {
    match env.python_executable {
        Some(p) => if p@.len() > 0 {
            seq!["-DPYTHON_EXECUTABLE="@ + p@]
        } else {
            Seq::empty()
        },
        None => match env.python3_on_path {
            Some(p) => seq!["-DPYTHON_EXECUTABLE="@ + p@],
            None => match env.python_on_path {
                Some(p) => seq!["-DPYTHON_EXECUTABLE="@ + p@],
                None => Seq::empty(),
            },
        },
    }
}

/// Code coverage is asked for: a debug build with `CODE_COVERAGE` set, not empty, not `0`.
pub open spec fn coverage_on(env: &SmiEnv) -> bool {
    is_debug_env(env) && match env.code_coverage {
        Some(cc) => cc@.len() > 0 && cc@ != "0"@,
        None => false,
    }
}

/// The parameters specific to component builds: the Python interpreter and
/// the code coverage flags.
pub open spec fn component_params(env: &SmiEnv) -> Seq<Seq<char>> {
    python_params(env) + if coverage_on(env) {
        seq![
            "-DCMAKE_CXX_FLAGS="@ + or_empty(env.cxxflags) + " -fprofile-arcs -ftest-coverage"@,
            "-DCMAKE_C_FLAGS="@ + or_empty(env.cflags) + " -fprofile-arcs -ftest-coverage"@,
        ]
    } else {
        Seq::empty()
    }
}

/// The command with more arguments appended and nothing else changed.
pub open spec fn with_args(c: CommandView, more: Seq<Seq<char>>) -> CommandView {
    CommandView { args: c.args + more, ..c }
}

/// Adds the parameters common to ROCm CMake builds (see `common_params`).
pub fn rocm_common_cmake_params(config: &RocmSmiConfig, env: &SmiEnv, cmd: &mut CommandSpec)
    ensures
        final(cmd).deep_view() == with_args(old(cmd).deep_view(), common_params(config, env)),
{
    let ghost start = cmd.args.deep_view();
    push_arg(&mut cmd.args, cat("-DCMAKE_INSTALL_PREFIX=", config.rocm_path.as_str()));
    push_arg(&mut cmd.args, cat("-DROCM_PATH=", config.rocm_path.as_str()));
    push_arg(&mut cmd.args, cat("-DCMAKE_PREFIX_PATH=", config.cmake_prefix_path.as_str()));
    let lowered = to_lowercase(or_empty_str(&env.cmake_build_type));
    let build_type = if str_eq(lowered.as_str(), "debug") { "Debug" } else { "Release" };
    push_arg(&mut cmd.args, cat("-DCMAKE_BUILD_TYPE=", build_type));
    if config.cpack_generator.unicode_len() > 0 {
        push_arg(&mut cmd.args, cat("-DCPACK_GENERATOR=", config.cpack_generator.as_str()));
    }
    push_arg(&mut cmd.args, cat("-DCPACK_PACKAGE_VERSION_PATCH=", config.rocm_patch_version.as_str()));
    push_arg(&mut cmd.args, cat("-DCMAKE_INSTALL_LIBDIR=", config.lib_dir_suffix.as_str()));
    if config.enable_address_sanitizer {
        push_arg(&mut cmd.args, owned("-DENABLE_ASAN=ON"));
        push_arg(&mut cmd.args, cat3("-DCMAKE_CXX_FLAGS=", or_empty_str(&env.cxxflags), " -fsanitize=address -fno-omit-frame-pointer"));
        push_arg(&mut cmd.args, cat3("-DCMAKE_C_FLAGS=", or_empty_str(&env.cflags), " -fsanitize=address -fno-omit-frame-pointer"));
    }
    if config.static_libs {
        push_arg(&mut cmd.args, owned("-DBUILD_SHARED_LIBS=OFF"));
        push_arg(&mut cmd.args, owned("-DBUILD_STATIC_LIBS=ON"));
    } else {
        push_arg(&mut cmd.args, owned("-DBUILD_SHARED_LIBS=ON"));
    }
    proof {
        assert(cmd.args.deep_view() =~= start + common_params(config, env));
    }
}

/// Adds the parameters specific to component builds (see `component_params`).
pub fn rocm_cmake_params(config: &RocmSmiConfig, env: &SmiEnv, cmd: &mut CommandSpec)
    ensures
        final(cmd).deep_view() == with_args(old(cmd).deep_view(), component_params(env)),
{
    let ghost start = cmd.args.deep_view();
    match &env.python_executable {
        Some(p) => {
            if p.unicode_len() > 0 {
                push_arg(&mut cmd.args, cat("-DPYTHON_EXECUTABLE=", p.as_str()));
            }
        },
        None => match &env.python3_on_path {
            Some(p) => push_arg(&mut cmd.args, cat("-DPYTHON_EXECUTABLE=", p.as_str())),
            None => match &env.python_on_path {
                Some(p) => push_arg(&mut cmd.args, cat("-DPYTHON_EXECUTABLE=", p.as_str())),
                None => {},
            },
        },
    }
    let ghost mid = cmd.args.deep_view();
    assert(mid =~= start + python_params(env));
    let lowered = to_lowercase(or_empty_str(&env.cmake_build_type));
    if str_eq(lowered.as_str(), "debug") {
        match &env.code_coverage {
            Some(cc) => {
                if cc.unicode_len() > 0 && !str_eq(cc.as_str(), "0") {
                    push_arg(&mut cmd.args, cat3("-DCMAKE_CXX_FLAGS=", or_empty_str(&env.cxxflags), " -fprofile-arcs -ftest-coverage"));
                    push_arg(&mut cmd.args, cat3("-DCMAKE_C_FLAGS=", or_empty_str(&env.cflags), " -fprofile-arcs -ftest-coverage"));
                }
            },
            None => {},
        }
    }
    proof {
        assert(cmd.args.deep_view() =~= start + component_params(env));
    }
}

/// Copying the packages of a build directory whose file stem contains `suffix`:
/// first the `.deb` files, then the `.rpm` files.
pub open spec fn suffix_copy_steps(build_dir: Seq<char>, dest: Seq<char>, suffix: Seq<char>) -> Seq<StepView> {
    seq![
        StepView::CopyPackages {
            pattern: spec_path_join(build_dir, "*.deb"@),
            dest_dir: dest,
            filter: PackageFilterView::StemContains(suffix),
            entry_errors_fatal: false,
            context: Some("Failed to copy generated packages for 'rocm-smi-lib'"@),
        },
        StepView::CopyPackages {
            pattern: spec_path_join(build_dir, "*.rpm"@),
            dest_dir: dest,
            filter: PackageFilterView::StemContains(suffix),
            entry_errors_fatal: false,
            context: Some("Failed to copy generated packages for 'rocm-smi-lib'"@),
        },
    ]
}

/// The steps that copy generated packages from a build directory into
/// `package_dest_dir`, keeping only those whose stem contains `name_suffix`
/// (e.g. `-rocm-smi-lib64`).
pub fn copy_packages_with_suffix(build_dir: &str, package_dest_dir: &str, name_suffix: &str) -> (steps: Vec<Step>)
    ensures
        steps.deep_view() == suffix_copy_steps(build_dir@, package_dest_dir@, name_suffix@),
{
    let mut steps: Vec<Step> = Vec::new();
    push_step(&mut steps, Step::CopyPackages {
        pattern: path_join(build_dir, "*.deb"),
        dest_dir: owned(package_dest_dir),
        filter: PackageFilter::StemContains(owned(name_suffix)),
        entry_errors_fatal: false,
        context: Some(owned("Failed to copy generated packages for 'rocm-smi-lib'")),
    });
    push_step(&mut steps, Step::CopyPackages {
        pattern: path_join(build_dir, "*.rpm"),
        dest_dir: owned(package_dest_dir),
        filter: PackageFilter::StemContains(owned(name_suffix)),
        entry_errors_fatal: false,
        context: Some(owned("Failed to copy generated packages for 'rocm-smi-lib'")),
    });
    assert(steps.deep_view() =~= suffix_copy_steps(build_dir@, package_dest_dir@, name_suffix@));
    steps
}

} // verus!
