//! What cleaning the build and install directories does.
use vstd::prelude::*;
use crate::text::{cat, cat3, owned, str_eq, trim_end_slashes, trim_end_slashes_str};
use crate::paths::{spec_path_join, file_name_or_empty, path_eq, file_name_or_empty_str};
use crate::plan::{Step, StepView, push_step};
use super::config::Config;
use super::utils::has_equal_path;

verus! {

/// The paths without repetitions: a path equal to an earlier one is dropped.
pub open spec fn dedup_paths(ps: Seq<Seq<char>>) -> Seq<Seq<char>>
    decreases ps.len(),
{
    if ps.len() == 0 {
        Seq::empty()
    } else {
        let prev = dedup_paths(ps.drop_last());
        if has_equal_path(prev, ps.last()) {
            prev
        } else {
            prev.push(ps.last())
        }
    }
}

/// The names of the projects found (each distinct path once).
pub open spec fn found_project_names(found: Seq<Seq<char>>) -> Seq<Seq<char>> {
    dedup_paths(found).map_values(|p: Seq<char>| file_name_or_empty(p))
}

/// The selected packages that can be cleaned, normalized, each once.
pub open spec fn chosen_packages(packages: Seq<Seq<char>>, names: Seq<Seq<char>>) -> Seq<Seq<char>>
    decreases packages.len(),
{
    if packages.len() == 0 {
        Seq::empty()
    } else {
        let prev = chosen_packages(packages.drop_last(), names);
        let n = trim_end_slashes(packages.last());
        if (names.contains(n) || n == "rocm-cmake"@) && !prev.contains(n) {
            prev.push(n)
        } else {
            prev
        }
    }
}

/// The packages to clean: with no packages selected, every project found and
/// rocm-cmake; otherwise the selected ones that were found or are rocm-cmake.
pub open spec fn clean_targets(packages: Seq<Seq<char>>, found: Seq<Seq<char>>) -> Seq<Seq<char>> {
    let names = found_project_names(found);
    if packages.len() == 0 {
        if names.contains("rocm-cmake"@) {
            names
        } else {
            names.push("rocm-cmake"@)
        }
    } else {
        chosen_packages(packages, names)
    }
}

/// Removing one package's build directory and, when configured, its install directory.
pub open spec fn package_clean_steps(c: &Config, pkg: Seq<char>) -> Seq<StepView> {
    let b = spec_path_join(c.build_dir@, pkg);
    seq![
        StepView::RemoveDirAll {
            path: b,
            context: "Failed to remove build directory for "@ + pkg + ": "@ + b,
        },
    ] + match c.install_dir {
        Some(d) => {
            let i = spec_path_join(d@, pkg);
            seq![
                StepView::RemoveDirAll {
                    path: i,
                    context: "Failed to remove install directory for "@ + pkg + ": "@ + i,
                },
            ]
        },
        None => Seq::empty(),
    }
}

/// The clean steps of the packages, in order.
pub open spec fn packages_clean_steps(c: &Config, pkgs: Seq<Seq<char>>) -> Seq<StepView>
    decreases pkgs.len(),
{
    if pkgs.len() == 0 {
        Seq::empty()
    } else {
        packages_clean_steps(c, pkgs.drop_last()) + package_clean_steps(c, pkgs.last())
    }
}

/// After cleaning everything, the top-level directories go too when empty.
pub open spec fn top_level_steps(c: &Config) -> Seq<StepView> {
    seq![
        StepView::RemoveDirIfEmpty {
            path: c.build_dir@,
            context: "Failed to remove top-level build directory "@ + c.build_dir@,
        },
    ] + match c.install_dir {
        Some(d) => seq![
            StepView::RemoveDirIfEmpty {
                path: d@,
                context: "Failed to remove top-level install directory "@ + d@,
            },
        ],
        None => Seq::empty(),
    }
}

/// Everything a clean does; nothing when there is nothing to clean.
pub open spec fn clean_plan(c: &Config, found: Seq<Seq<char>>) -> Seq<StepView> {
    let targets = clean_targets(c.packages.deep_view(), found);
    if targets.len() == 0 {
        Seq::empty()
    } else {
        packages_clean_steps(c, targets) + if c.packages@.len() == 0 {
            top_level_steps(c)
        } else {
            Seq::empty()
        }
    }
}

fn contains_str(v: &Vec<String>, p: &str) -> (r: bool)
    ensures
        r == v.deep_view().contains(p@),
{
    let mut i: usize = 0;
    while i < v.len()
        invariant
            i <= v@.len(),
            forall|j: int| 0 <= j < i ==> v.deep_view()[j] != p@,
        decreases v@.len() - i,
    {
        if str_eq(v[i].as_str(), p) {
            assert(v.deep_view()[i as int] == p@);
            return true;
        }
        i = i + 1;
    }
    false
}

fn has_equal_path_exec(v: &Vec<String>, p: &str) -> (r: bool)
    ensures
        r == has_equal_path(v.deep_view(), p@),
{
    let mut i: usize = 0;
    while i < v.len()
        invariant
            i <= v@.len(),
            forall|j: int| 0 <= j < i ==> !crate::paths::spec_path_eq(v.deep_view()[j], p@),
        decreases v@.len() - i,
    {
        if path_eq(v[i].as_str(), p) {
            assert(v.deep_view()[i as int] == v@[i as int]@);
            return true;
        }
        i = i + 1;
    }
    false
}

fn push_string(v: &mut Vec<String>, s: String)
    ensures
        final(v).deep_view() == old(v).deep_view().push(s@),
{
    v.push(s);
    proof {
        assert(final(v).deep_view() =~= old(v).deep_view().push(s@));
    }
}

/// The names of the projects found, each distinct project path once.
pub fn found_project_names_exec(found: &Vec<String>) -> (r: Vec<String>)
    ensures
        r.deep_view() == found_project_names(found.deep_view()),
{
    let mut set: Vec<String> = Vec::new();
    let mut i: usize = 0;
    while i < found.len()
        invariant
            i <= found@.len(),
            set.deep_view() == dedup_paths(found.deep_view().take(i as int)),
        decreases found@.len() - i,
    {
        let p = found[i].as_str();
        if !has_equal_path_exec(&set, p) {
            push_string(&mut set, owned(p));
        }
        proof {
            let t = found.deep_view().take(i + 1);
            assert(t.drop_last() =~= found.deep_view().take(i as int));
            assert(t.last() == p@);
        }
        i = i + 1;
    }
    assert(found.deep_view().take(found@.len() as int) =~= found.deep_view());
    let ghost d = set.deep_view();
    let mut names: Vec<String> = Vec::new();
    let mut k: usize = 0;
    while k < set.len()
        invariant
            k <= set@.len(),
            d == set.deep_view(),
            names.deep_view() == d.take(k as int).map_values(|p: Seq<char>| file_name_or_empty(p)),
        decreases set@.len() - k,
    {
        push_string(&mut names, file_name_or_empty_str(set[k].as_str()));
        proof {
            assert(d.take(k + 1) =~= d.take(k as int).push(d[k as int]));
            assert(names.deep_view() =~= d.take(k + 1).map_values(|p: Seq<char>| file_name_or_empty(p)));
        }
        k = k + 1;
    }
    assert(d.take(d.len() as int) =~= d);
    names
}

/// The packages that a clean removes (see `clean_targets`), given the project
/// directories found in the source directories.
pub fn packages_to_clean(config: &Config, found: &Vec<String>) -> (r: Vec<String>)
    ensures
        r.deep_view() == clean_targets(config.packages.deep_view(), found.deep_view()),
{
    let names = found_project_names_exec(found);
    if config.packages.len() == 0 {
        let mut r = names;
        if !contains_str(&r, "rocm-cmake") {
            push_string(&mut r, owned("rocm-cmake"));
        }
        return r;
    }
    let mut r: Vec<String> = Vec::new();
    let mut i: usize = 0;
    while i < config.packages.len()
        invariant
            i <= config.packages@.len(),
            names.deep_view() == found_project_names(found.deep_view()),
            r.deep_view() == chosen_packages(config.packages.deep_view().take(i as int), names.deep_view()),
        decreases config.packages@.len() - i,
    {
        let n = trim_end_slashes_str(config.packages[i].as_str());
        if (contains_str(&names, n) || str_eq(n, "rocm-cmake")) && !contains_str(&r, n) {
            push_string(&mut r, owned(n));
        }
        proof {
            let t = config.packages.deep_view().take(i + 1);
            assert(t.drop_last() =~= config.packages.deep_view().take(i as int));
            assert(t.last() == config.packages@[i as int]@);
        }
        i = i + 1;
    }
    assert(config.packages.deep_view().take(config.packages@.len() as int) =~= config.packages.deep_view());
    r
}

fn push_package_clean_steps(plan: &mut Vec<Step>, c: &Config, pkg: &str)
    ensures
        final(plan).deep_view() == old(plan).deep_view() + package_clean_steps(c, pkg@),
{
    let ghost start = plan.deep_view();
    let b = c.get_package_build_dir(pkg);
    let ctx = cat3(&cat("Failed to remove build directory for ", pkg), ": ", b.as_str());
    push_step(plan, Step::RemoveDirAll { path: b, context: ctx });
    match c.get_package_install_dir(pkg) {
        Some(i) => {
            let ctx = cat3(&cat("Failed to remove install directory for ", pkg), ": ", i.as_str());
            push_step(plan, Step::RemoveDirAll { path: i, context: ctx });
        },
        None => {},
    }
    proof {
        assert(plan.deep_view() =~= start + package_clean_steps(c, pkg@));
    }
}

/// The clean: for each package of `packages_to_clean`, remove its build
/// directory and its install directory (when they exist); when no packages
/// were selected, then remove the top-level build and install directories
/// if they are left empty. `found` lists the project directories found in the
/// source directories that exist (rocm-cmake included).
pub fn run_clean(config: &Config, found: &Vec<String>) -> (plan: Vec<Step>)
    ensures
        plan.deep_view() == clean_plan(config, found.deep_view()),
{
    let targets = packages_to_clean(config, found);
    let mut plan: Vec<Step> = Vec::new();
    if targets.len() == 0 {
        assert(plan.deep_view() =~= clean_plan(config, found.deep_view()));
        return plan;
    }
    let mut i: usize = 0;
    while i < targets.len()
        invariant
            i <= targets@.len(),
            plan.deep_view() == packages_clean_steps(config, targets.deep_view().take(i as int)),
        decreases targets@.len() - i,
    {
        push_package_clean_steps(&mut plan, config, targets[i].as_str());
        proof {
            let t = targets.deep_view().take(i + 1);
            assert(t.drop_last() =~= targets.deep_view().take(i as int));
            assert(t.last() == targets@[i as int]@);
        }
        i = i + 1;
    }
    assert(targets.deep_view().take(targets@.len() as int) =~= targets.deep_view());
    let ghost mid = plan.deep_view();
    if config.packages.len() == 0 {
        push_step(&mut plan, Step::RemoveDirIfEmpty {
            path: owned(config.build_dir.as_str()),
            context: cat("Failed to remove top-level build directory ", config.build_dir.as_str()),
        });
        match &config.install_dir {
            Some(d) => {
                push_step(&mut plan, Step::RemoveDirIfEmpty {
                    path: owned(d.as_str()),
                    context: cat("Failed to remove top-level install directory ", d.as_str()),
                });
            },
            None => {},
        }
        assert(plan.deep_view() =~= mid + top_level_steps(config));
    }
    assert(plan.deep_view() =~= clean_plan(config, found.deep_view()));
    plan
}

} // verus!
