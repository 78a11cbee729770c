//! Properties of the `half` builder that hold across its operations.
use vstd::prelude::*;
use crate::plan::StepView;
use super::config::{HalfConfig, PackageTypeCopy, copy_filter_matches};
use super::build_half_logic::{half_build_plan, cpack_enabled};
use crate::paths::spec_path_join;
use crate::plan::PackageFilterView;
use super::clean_half_logic::half_clean_plan;

verus! {

/// The `all` filter selects exactly the files that the `deb` or the `rpm` filter selects.
pub proof fn law_all_is_deb_or_rpm(name: Seq<char>)
    ensures
        copy_filter_matches(PackageTypeCopy::All, name) == (copy_filter_matches(PackageTypeCopy::Deb, name)
            || copy_filter_matches(PackageTypeCopy::Rpm, name)),
{
}

/// Address sanitizing changes nothing in a build of the header-only `half`.
pub proof fn law_asan_does_not_change_build(
    c: &HalfConfig,
    release: bool,
    static_libs: bool,
    copy: PackageTypeCopy,
    jobs: usize,
)
    ensures
        half_build_plan(c, release, true, static_libs, copy, jobs) == half_build_plan(
            c,
            release,
            false,
            static_libs,
            copy,
            jobs,
        ),
{
}

/// Every directory a build writes into is one that the clean removes: CMake's
/// build directory and the directory the packages are copied to.
pub proof fn law_clean_removes_build_outputs(
    c: &HalfConfig,
    release: bool,
    asan: bool,
    static_libs: bool,
    copy: PackageTypeCopy,
    jobs: usize,
)
    ensures
        half_clean_plan(c)[0] matches StepView::RemoveDirAll { path, .. } && path == c.build_dir_half@,
        half_clean_plan(c)[1] matches StepView::RemoveDirAll { path, .. } && path == c.package_dir_half@,
        half_build_plan(c, release, asan, static_libs, copy, jobs)[0] matches StepView::Run { command, .. }
            && command.args[1] == "-B"@ + c.build_dir_half@,
        forall|i: int|
            0 <= i < half_build_plan(c, release, asan, static_libs, copy, jobs).len() ==> (
            #[trigger] half_build_plan(c, release, asan, static_libs, copy, jobs)[i] matches StepView::CopyPackages { dest_dir, .. }
                ==> dest_dir == c.package_dir_half@),
{
}

/// Every package copy of a build searches the build directory for the
/// extension its filter selects: `*.deb` for `deb`, `*.rpm` for `rpm`, one of
/// the two for `all`, and copies into the package directory. When packages
/// are made, each selected extension is searched for.
pub proof fn law_copies_search_selected_extensions(
    c: &HalfConfig,
    release: bool,
    asan: bool,
    static_libs: bool,
    copy: PackageTypeCopy,
    jobs: usize,
)
    ensures
        forall|i: int|
            0 <= i < half_build_plan(c, release, asan, static_libs, copy, jobs).len() ==> (
            #[trigger] half_build_plan(c, release, asan, static_libs, copy, jobs)[i] matches StepView::CopyPackages {
                pattern,
                dest_dir,
                filter,
                ..
            } ==> {
                &&& dest_dir == c.package_dir_half@
                &&& filter == PackageFilterView::ByKind(copy)
                &&& (copy == PackageTypeCopy::Deb ==> pattern == spec_path_join(c.build_dir_half@, "*.deb"@))
                &&& (copy == PackageTypeCopy::Rpm ==> pattern == spec_path_join(c.build_dir_half@, "*.rpm"@))
                &&& (copy == PackageTypeCopy::All ==> pattern == spec_path_join(c.build_dir_half@, "*.deb"@)
                    || pattern == spec_path_join(c.build_dir_half@, "*.rpm"@))
            }),
        cpack_enabled(c.cpack_generator@) && copy != PackageTypeCopy::Rpm ==> exists|i: int|
            0 <= i < half_build_plan(c, release, asan, static_libs, copy, jobs).len()
                && (#[trigger] half_build_plan(c, release, asan, static_libs, copy, jobs)[i] matches StepView::CopyPackages {
                pattern,
                ..
            } && pattern == spec_path_join(c.build_dir_half@, "*.deb"@)),
        cpack_enabled(c.cpack_generator@) && copy != PackageTypeCopy::Deb ==> exists|i: int|
            0 <= i < half_build_plan(c, release, asan, static_libs, copy, jobs).len()
                && (#[trigger] half_build_plan(c, release, asan, static_libs, copy, jobs)[i] matches StepView::CopyPackages {
                pattern,
                ..
            } && pattern == spec_path_join(c.build_dir_half@, "*.rpm"@)),
{
    let plan = half_build_plan(c, release, asan, static_libs, copy, jobs);
    if cpack_enabled(c.cpack_generator@) {
        if copy != PackageTypeCopy::Rpm {
            assert(plan[4] matches StepView::CopyPackages { pattern, .. } && pattern == spec_path_join(c.build_dir_half@, "*.deb"@));
        }
        if copy == PackageTypeCopy::Rpm {
            assert(plan[4] matches StepView::CopyPackages { pattern, .. } && pattern == spec_path_join(c.build_dir_half@, "*.rpm"@));
        }
        if copy == PackageTypeCopy::All {
            assert(plan[5] matches StepView::CopyPackages { pattern, .. } && pattern == spec_path_join(c.build_dir_half@, "*.rpm"@));
        }
    }
}

} // verus!
