//! Properties of the ROCm build tool that hold across its operations.
use vstd::prelude::*;
use crate::text::trim_end_slashes;
use crate::paths::spec_path_join;
use crate::plan::StepView;
use super::config::{
    Cli, ConfigContext, Config, resolve_rocm_cmake, rocm_cmake_from_env, rocm_cmake_from_file,
    rocm_cmake_search, resolved_search_depth, resolved_source_dirs, probe_paths_of, dir_exists,
    config_file_rocm_cmake, search_probes, ROCM_CMAKE_SEARCH_LEVELS,
};
use super::utils::package_selected;
use super::clean_logic::{clean_targets, found_project_names, chosen_packages, package_clean_steps};
use super::build_logic::{project_steps, build_plan};
use super::outdir_logic::outdir_line;

verus! {

/// A trailing slash added to a name is removed again by normalization.
pub proof fn lemma_trim_push_slash(s: Seq<char>)
    ensures
        trim_end_slashes(s.push('/')) == trim_end_slashes(s),
{
    assert(s.push('/').drop_last() =~= s);
}

/// With no packages selected, every package is selected.
pub proof fn law_empty_selection_selects_all(name: Seq<char>)
    ensures
        package_selected(Seq::empty(), name),
{
}

/// Whether a package is selected does not depend on a trailing slash of its name.
pub proof fn law_selection_ignores_trailing_slash(selected: Seq<Seq<char>>, name: Seq<char>)
    ensures
        package_selected(selected, name.push('/')) == package_selected(selected, name),
{
    lemma_trim_push_slash(name);
}

/// `outdir` prints the same directory for a package name with a trailing slash.
pub proof fn law_outdir_ignores_trailing_slash(c: &Config, name: Seq<char>)
    ensures
        outdir_line(c, name.push('/')) == outdir_line(c, name),
{
    lemma_trim_push_slash(name);
}

/// When no packages are selected, a clean always includes rocm-cmake.
pub proof fn law_clean_all_includes_rocm_cmake(found: Seq<Seq<char>>)
    ensures
        clean_targets(Seq::empty(), found).contains("rocm-cmake"@),
{
    let names = found_project_names(found);
    if !names.contains("rocm-cmake"@) {
        assert(names.push("rocm-cmake"@)[names.len() as int] == "rocm-cmake"@);
    }
}

proof fn lemma_chosen_known_and_distinct(packages: Seq<Seq<char>>, names: Seq<Seq<char>>)
    ensures
        forall|i: int| 0 <= i < chosen_packages(packages, names).len() ==> {
            let x = #[trigger] chosen_packages(packages, names)[i];
            x == "rocm-cmake"@ || names.contains(x)
        },
        forall|i: int, j: int|
            0 <= i < j < chosen_packages(packages, names).len() ==> chosen_packages(packages, names)[i]
                != chosen_packages(packages, names)[j],
    decreases packages.len(),
{
    if packages.len() > 0 {
        lemma_chosen_known_and_distinct(packages.drop_last(), names);
        let prev = chosen_packages(packages.drop_last(), names);
        let n = trim_end_slashes(packages.last());
        if (names.contains(n) || n == "rocm-cmake"@) && !prev.contains(n) {
            let cur = prev.push(n);
            assert forall|i: int, j: int| 0 <= i < j < cur.len() implies cur[i] != cur[j] by {
                if j == prev.len() {
                    assert(cur[i] == prev[i]);
                    if cur[i] == cur[j] {
                        assert(prev.contains(n));
                    }
                }
            }
        }
    }
}

/// Every package a clean removes is rocm-cmake or a project that was found.
pub proof fn law_clean_targets_are_known(packages: Seq<Seq<char>>, found: Seq<Seq<char>>)
    ensures
        forall|i: int| 0 <= i < clean_targets(packages, found).len() ==> {
            let x = #[trigger] clean_targets(packages, found)[i];
            x == "rocm-cmake"@ || found_project_names(found).contains(x)
        },
{
    let names = found_project_names(found);
    lemma_chosen_known_and_distinct(packages, names);
    if packages.len() == 0 {
        let t = clean_targets(packages, found);
        assert forall|i: int| 0 <= i < t.len() implies ({
            let x = #[trigger] t[i];
            x == "rocm-cmake"@ || names.contains(x)
        }) by {
            if i < names.len() {
                assert(t[i] == names[i]);
            }
        }
    }
}

/// When packages are selected, a clean handles each of them at most once.
pub proof fn law_clean_selected_targets_distinct(packages: Seq<Seq<char>>, found: Seq<Seq<char>>)
    requires
        packages.len() > 0,
    ensures
        forall|i: int, j: int|
            0 <= i < j < clean_targets(packages, found).len() ==> clean_targets(packages, found)[i]
                != clean_targets(packages, found)[j],
{
    lemma_chosen_known_and_distinct(packages, found_project_names(found));
}

/// Cleaning a package removes the build directory that building it creates.
pub proof fn law_clean_removes_build_dir_of_build(c: &Config, name: Seq<char>, project: Seq<char>)
    ensures
        project_steps(c, name, project)[0] matches StepView::CreateDirAll { path: created, .. }
            && package_clean_steps(c, name)[0] matches StepView::RemoveDirAll { path: removed, .. }
            && created == removed && created == spec_path_join(c.build_dir@, name),
{
}

/// A rocm-cmake directory named by the environment variable is used,
/// whatever the configuration file or the search would find.
pub proof fn law_env_rocm_cmake_first(ctx: &ConfigContext)
    requires
        rocm_cmake_from_env(ctx) is Some,
    ensures
        resolve_rocm_cmake(ctx) == rocm_cmake_from_env(ctx),
{
}

/// Without a usable environment variable, a rocm-cmake directory named by the
/// configuration file is used, whatever the search would find.
pub proof fn law_file_rocm_cmake_before_search(ctx: &ConfigContext)
    requires
        rocm_cmake_from_env(ctx) is None,
        rocm_cmake_from_file(ctx) is Some,
    ensures
        resolve_rocm_cmake(ctx) == rocm_cmake_from_file(ctx),
{
}

/// A search depth given on the command line is used, whatever the
/// configuration file says.
pub proof fn law_cli_search_depth_first(cli: &Cli, ctx: &ConfigContext)
    requires
        cli.project_search_depth is Some,
    ensures
        resolved_search_depth(cli, ctx) == cli.project_search_depth->0,
{
}

/// Source directories given on the command line are used, whatever the
/// configuration file says, whichever rocm-cmake was found.
pub proof fn law_cli_source_dirs_first(cli: &Cli, ctx1: &ConfigContext, ctx2: &ConfigContext, p1: Seq<char>, p2: Seq<char>)
    requires
        cli.source_dirs@.len() > 0,
        ctx1.current_dir@ == ctx2.current_dir@,
    ensures
        resolved_source_dirs(cli, ctx1, p1) == resolved_source_dirs(cli, ctx2, p2),
{
}

proof fn lemma_search_reads_only_probes(c1: &ConfigContext, c2: &ConfigContext, dir: Seq<char>, levels: nat)
    requires
        forall|p: Seq<char>| search_probes(dir, levels).contains(p) ==> (dir_exists(c1, p) <==> dir_exists(c2, p)),
    ensures
        rocm_cmake_search(c1, dir, levels) == rocm_cmake_search(c2, dir, levels),
    decreases levels,
{
    if levels > 0 {
        let cand = spec_path_join(dir, "rocm-cmake"@);
        assert(search_probes(dir, levels)[0] == cand);
        assert(search_probes(dir, levels).contains(cand));
        if levels > 1 {
            match crate::paths::spec_path_parent(dir) {
                Some(p) => {
                    let rest = search_probes(p, (levels - 1) as nat);
                    assert forall|q: Seq<char>| rest.contains(q) implies (dir_exists(c1, q) <==> dir_exists(c2, q)) by {
                        let k = choose|k: int| 0 <= k < rest.len() && rest[k] == q;
                        assert(search_probes(dir, levels)[k + 1] == q);
                    }
                    lemma_search_reads_only_probes(c1, c2, p, (levels - 1) as nat);
                },
                None => {},
            }
        }
    }
}

/// Where rocm-cmake is found depends only on which of the probe paths are
/// directories: surroundings that agree on those give the same result.
pub proof fn law_resolution_reads_only_probes(c1: &ConfigContext, c2: &ConfigContext)
    requires
        c1.current_dir@ == c2.current_dir@,
        c1.config_file == c2.config_file,
        c1.rocm_cmake_env == c2.rocm_cmake_env,
        forall|p: Seq<char>| probe_paths_of(c1).contains(p) ==> (dir_exists(c1, p) <==> dir_exists(c2, p)),
    ensures
        resolve_rocm_cmake(c1) == resolve_rocm_cmake(c2),
{
    let e = match c1.rocm_cmake_env {
        Some(v) => seq![v@],
        None => Seq::<Seq<char>>::empty(),
    };
    let f = match config_file_rocm_cmake(c1) {
        Some(c) => seq![c],
        None => Seq::<Seq<char>>::empty(),
    };
    let s = search_probes(c1.current_dir@, ROCM_CMAKE_SEARCH_LEVELS as nat);
    let all = probe_paths_of(c1);
    assert(all == e + f + s);
    assert(config_file_rocm_cmake(c1) == config_file_rocm_cmake(c2));
    match c1.rocm_cmake_env {
        Some(v) => {
            assert(all[0] == v@);
            assert(all.contains(v@));
        },
        None => {},
    }
    match config_file_rocm_cmake(c1) {
        Some(c) => {
            assert(all[e.len() as int] == c);
            assert(all.contains(c));
        },
        None => {},
    }
    assert forall|q: Seq<char>| s.contains(q) implies (dir_exists(c1, q) <==> dir_exists(c2, q)) by {
        let k = choose|k: int| 0 <= k < s.len() && s[k] == q;
        assert(all[e.len() + f.len() + k] == q);
    }
    lemma_search_reads_only_probes(c1, c2, c1.current_dir@, ROCM_CMAKE_SEARCH_LEVELS as nat);
    assert(rocm_cmake_from_env(c1) == rocm_cmake_from_env(c2));
    assert(rocm_cmake_from_file(c1) == rocm_cmake_from_file(c2));
}

/// rocm-cmake is built first when no package is selected or when any selected
/// name, wherever it stands in the list, is `rocm-cmake` (a trailing slash
/// allowed): the plan opens by creating `<build_dir>/rocm-cmake`, configuring
/// rocm-cmake from its source directory into it, and building it.
pub proof fn law_rocm_cmake_built_first_when_selected(c: &Config, projects: Seq<Seq<char>>)
    requires
        c.packages@.len() == 0 || exists|i: int|
            0 <= i < c.packages@.len() && (#[trigger] c.packages.deep_view()[i] == "rocm-cmake"@
                || c.packages.deep_view()[i] == "rocm-cmake/"@),
    ensures
        build_plan(c, projects).len() >= 3,
        build_plan(c, projects)[0] matches StepView::CreateDirAll { path, .. } && path == spec_path_join(
            c.build_dir@,
            "rocm-cmake"@,
        ),
        build_plan(c, projects)[1] matches StepView::Run { command, .. } && command.program == "cmake"@
            && command.args[0] == "-S"@ + c.rocm_cmake_path@ && command.args[1] == "-B"@ + spec_path_join(
            c.build_dir@,
            "rocm-cmake"@,
        ),
        build_plan(c, projects)[2] matches StepView::Run { command, .. } && command.args[0] == "--build"@
            && command.args[1] == spec_path_join(c.build_dir@, "rocm-cmake"@),
{
}

/// When packages are selected and none of them is `rocm-cmake` (with or
/// without a trailing slash), rocm-cmake is not built: with no projects found,
/// the build does nothing at all.
pub proof fn law_rocm_cmake_not_built_unless_selected(c: &Config)
    requires
        c.packages@.len() > 0,
        forall|i: int|
            0 <= i < c.packages@.len() ==> #[trigger] c.packages.deep_view()[i] != "rocm-cmake"@
                && c.packages.deep_view()[i] != "rocm-cmake/"@,
    ensures
        build_plan(c, Seq::empty()).len() == 0,
{
}

} // verus!
