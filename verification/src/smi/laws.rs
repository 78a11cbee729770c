//! Properties of the rocm-smi-lib builder that hold across its operations.
use vstd::prelude::*;
use crate::plan::StepView;
use super::config_smi::{RocmSmiCli, RocmSmiConfig, resolved_smi_config, suffixes_match_mode, enable_32bit_step};
use super::utils_smi::{SmiEnv, component_params, python_params, or_empty};
use crate::text::{starts_with, spec_to_lowercase};
use super::build_smi_logic::smi_build_plan;
use super::clean_smi_logic::smi_clean_plan;

verus! {

/// Switching a configuration resolved without `--build-32-bit` to 32-bit mode
/// (as `enable_32bit_build` does) gives the configuration that the option
/// would have given.
pub proof fn law_enable_32bit_matches_option(cli: &RocmSmiCli, cli32: &RocmSmiCli, cwd: Seq<char>, c: &RocmSmiConfig, c2: &RocmSmiConfig)
    requires
        resolved_smi_config(cli, cwd, c),
        !cli.build_32_bit,
        cli32.build_32_bit,
        cli32.rocm_path == cli.rocm_path,
        cli32.smi_src_dir == cli.smi_src_dir,
        cli32.cpack_generator == cli.cpack_generator,
        cli32.rocm_patch_version == cli.rocm_patch_version,
        cli32.output_dir == cli.output_dir,
        cli32.proc == cli.proc,
        cli32.static_libs == cli.static_libs,
        cli32.enable_address_sanitizer == cli.enable_address_sanitizer,
        enable_32bit_step(*c, *c2),
    ensures
        resolved_smi_config(cli32, cwd, c2),
{
}

/// A resolved configuration has the suffix and library directory of its mode.
pub proof fn law_resolved_suffixes_match_mode(cli: &RocmSmiCli, cwd: Seq<char>, c: &RocmSmiConfig)
    requires
        resolved_smi_config(cli, cwd, c),
    ensures
        suffixes_match_mode(*c),
{
}

/// However many times 32-bit mode is switched on, the suffix and library
/// directory stay those of the mode, and after the first switch nothing
/// changes. `cs[0]` is the configuration before, `cs[i + 1]` the one after
/// the `i`-th switch.
pub proof fn law_32bit_switches_keep_suffixes(cs: Seq<RocmSmiConfig>)
    requires
        cs.len() > 0,
        suffixes_match_mode(cs[0]),
        forall|i: int, j: int| 0 <= i && j == i + 1 && j < cs.len() ==> enable_32bit_step(#[trigger] cs[i], #[trigger] cs[j]),
    ensures
        forall|i: int| 0 <= i < cs.len() ==> suffixes_match_mode(#[trigger] cs[i]),
        forall|i: int, j: int| 1 <= i && j == i + 1 && j < cs.len() ==> #[trigger] cs[j] == #[trigger] cs[i],
    decreases cs.len(),
{
    if cs.len() > 1 {
        let p = cs.drop_last();
        assert forall|i: int, j: int| 0 <= i && j == i + 1 && j < p.len() implies enable_32bit_step(#[trigger] p[i], #[trigger] p[j]) by {
            assert(p[i] == cs[i] && p[j] == cs[j]);
        }
        law_32bit_switches_keep_suffixes(p);
        let n = cs.len() - 1;
        assert(p[n - 1] == cs[n - 1]);
        assert(enable_32bit_step(cs[n - 1], cs[n]));
        if n >= 2 {
            assert(enable_32bit_step(cs[n - 2], cs[n - 1]));
            assert(cs[n - 1].is_32_bit_build);
        }
        assert forall|i: int| 0 <= i < cs.len() implies suffixes_match_mode(#[trigger] cs[i]) by {
            if i < n {
                assert(p[i] == cs[i]);
            }
        }
        assert forall|i: int, j: int| 1 <= i && j == i + 1 && j < cs.len() implies #[trigger] cs[j] == #[trigger] cs[i] by {
            if j < n {
                assert(p[i] == cs[i] && p[j] == cs[j]);
            }
        }
    }
}

/// Every directory a build writes into is one that the clean removes: CMake's
/// build directory and the directory the packages are copied to.
pub proof fn law_clean_removes_build_outputs(c: &RocmSmiConfig, env: &SmiEnv, jobs: usize)
    ensures
        smi_clean_plan(c)[0] matches StepView::RemoveDirAll { path, .. } && path == c.build_dir_smi@,
        smi_clean_plan(c)[1] matches StepView::RemoveDirAll { path, .. } && path == c.package_dir_smi@,
        smi_build_plan(c, env, jobs)[0] matches StepView::Run { command, .. }
            && command.args[1] == "-B"@ + c.build_dir_smi@,
        forall|i: int|
            0 <= i < smi_build_plan(c, env, jobs).len() ==> (
            #[trigger] smi_build_plan(c, env, jobs)[i] matches StepView::CopyPackages { dest_dir, .. }
                ==> dest_dir == c.package_dir_smi@),
{
}

/// The component parameters carry the coverage flags
/// (`-fprofile-arcs -ftest-coverage`) only when asked for: in a debug build
/// (`CMAKE_BUILD_TYPE` `debug` in any case) with `CODE_COVERAGE` set, not
/// empty and not `0`, they end with the two flag arguments; otherwise they
/// hold at most the Python interpreter argument.
pub proof fn law_coverage_flags_only_when_asked(env: &SmiEnv)
    ensures
        !(spec_to_lowercase(or_empty(env.cmake_build_type)) == "debug"@ && env.code_coverage is Some
            && env.code_coverage->0@.len() > 0 && env.code_coverage->0@ != "0"@) ==> {
            &&& component_params(env).len() <= 1
            &&& forall|i: int|
                0 <= i < component_params(env).len() ==> starts_with(
                    #[trigger] component_params(env)[i],
                    "-DPYTHON_EXECUTABLE="@,
                )
        },
        (spec_to_lowercase(or_empty(env.cmake_build_type)) == "debug"@ && env.code_coverage is Some
            && env.code_coverage->0@.len() > 0 && env.code_coverage->0@ != "0"@) ==> {
            let p = component_params(env);
            &&& p.len() >= 2
            &&& p[p.len() - 2] == "-DCMAKE_CXX_FLAGS="@ + or_empty(env.cxxflags) + " -fprofile-arcs -ftest-coverage"@
            &&& p[p.len() - 1] == "-DCMAKE_C_FLAGS="@ + or_empty(env.cflags) + " -fprofile-arcs -ftest-coverage"@
        },
{
    let py = python_params(env);
    let pre = "-DPYTHON_EXECUTABLE="@;
    assert(py.len() <= 1);
    if py.len() == 1 {
        let x = py[0];
        assert(x.subrange(0, pre.len() as int) =~= pre);
        assert(starts_with(x, pre));
    }
}

} // verus!
