//! Package selection, project discovery and search-path handling.
use vstd::prelude::*;
use crate::text::{trim_end_slashes, trim_end_slashes_str, str_eq, owned};
use crate::paths::{spec_path_eq, path_eq};

verus! {

/// What a package selection is being checked for.
#[derive(PartialEq, Eq, Debug, Structural)]
pub enum SelectedPurpose {
    Build,
    Clean,
    Outdir,
}

/// A package is selected when nothing was selected, or when some selected
/// name equals it once trailing slashes are removed from both.
pub open spec fn package_selected(selected: Seq<Seq<char>>, name: Seq<char>) -> bool {
    selected.len() == 0 || exists|i: int|
        0 <= i < selected.len() && trim_end_slashes(selected[i]) == trim_end_slashes(name)
}

/// Checks if a package should be processed based on the user's selection.
/// If `selected_packages` is empty, all packages are selected; otherwise only
/// those listed (trailing slashes do not count).
pub fn is_package_selected(
    selected_packages: &[String],
    package_name: &str,
    purpose: SelectedPurpose,
) -> (r: bool)
    ensures
        r == package_selected(selected_packages.deep_view(), package_name@),
{
    if selected_packages.len() == 0 {
        return true;
    }
    let normalized = trim_end_slashes_str(package_name);
    let mut i: usize = 0;
    while i < selected_packages.len()
        invariant
            i <= selected_packages@.len(),
            normalized@ == trim_end_slashes(package_name@),
            forall|j: int|
                0 <= j < i ==> trim_end_slashes(selected_packages.deep_view()[j])
                    != trim_end_slashes(package_name@),
        decreases selected_packages@.len() - i,
    {
        let s = trim_end_slashes_str(selected_packages[i].as_str());
        if str_eq(s, normalized) {
            assert(selected_packages.deep_view()[i as int] == selected_packages@[i as int]@);
            return true;
        }
        i = i + 1;
    }
    false
}

/// One entry of a source directory, with what the project search looks at.
pub struct ProjectDirEntry {
    pub path: String,
    pub is_dir: bool,
    /// `path/CMakeLists.txt` is a file.
    pub has_cmake_lists: bool,
    /// `path/src/CMakeLists.txt` is a file.
    pub has_src_cmake_lists: bool,
}

/// An entry is a CMake project: a directory, not the excluded path, with a
/// `CMakeLists.txt` of its own or in `src/`.
pub open spec fn is_project_entry(e: ProjectDirEntry, exclude: Option<Seq<char>>) -> bool {
    &&& e.is_dir
    &&& !(exclude is Some && spec_path_eq(e.path@, exclude->0))
    &&& (e.has_cmake_lists || e.has_src_cmake_lists)
}

/// The paths of the project entries, in the order of the listing.
pub open spec fn projects_of(entries: Seq<ProjectDirEntry>, exclude: Option<Seq<char>>) -> Seq<Seq<char>>
    decreases entries.len(),
{
    if entries.len() == 0 {
        Seq::empty()
    } else {
        let prev = projects_of(entries.drop_last(), exclude);
        if is_project_entry(entries.last(), exclude) {
            prev.push(entries.last().path@)
        } else {
            prev
        }
    }
}

/// Identifies CMake-based project directories among the entries of a source
/// directory, in listing order, leaving out `exclude_path` (e.g. rocm-cmake itself).
pub fn find_cmake_projects(entries: &Vec<ProjectDirEntry>, exclude_path: Option<&str>) -> (r: Vec<String>)
    ensures
        r.deep_view() == projects_of(entries@, exclude_path.deep_view()),
{
    let mut projects: Vec<String> = Vec::new();
    let mut i: usize = 0;
    while i < entries.len()
        invariant
            i <= entries@.len(),
            projects.deep_view() == projects_of(entries@.take(i as int), exclude_path.deep_view()),
        decreases entries@.len() - i,
    {
        let e = &entries[i];
        let mut keep = e.is_dir;
        if keep {
            match exclude_path {
                Some(ex) => {
                    if path_eq(e.path.as_str(), ex) {
                        keep = false;
                    }
                },
                None => {},
            }
        }
        if keep && (e.has_cmake_lists || e.has_src_cmake_lists) {
            let p = owned(e.path.as_str());
            projects.push(p);
        }
        proof {
            assert(entries@.take(i + 1).drop_last() =~= entries@.take(i as int));
            assert(projects.deep_view() =~= projects_of(entries@.take(i + 1), exclude_path.deep_view()));
        }
        i = i + 1;
    }
    assert(entries@.take(entries@.len() as int) =~= entries@);
    projects
}

/// Whether some path of the list equals `p` (as paths).
pub open spec fn has_equal_path(paths: Seq<Seq<char>>, p: Seq<char>) -> bool {
    exists|i: int| 0 <= i < paths.len() && spec_path_eq(paths[i], p)
}

/// A search path list with `new` put in front, unless it is already in it.
pub open spec fn prepend_unique(paths: Seq<Seq<char>>, new: Seq<char>) -> Seq<Seq<char>> {
    if has_equal_path(paths, new) {
        paths
    } else {
        seq![new] + paths
    }
}

/// Puts `new_path` in front of a search path list (such as `CMAKE_PREFIX_PATH`
/// split at its separators), unless it is already in the list.
pub fn prepend_unique_path(paths: Vec<String>, new_path: &str) -> (r: Vec<String>)
    ensures
        r.deep_view() == prepend_unique(paths.deep_view(), new_path@),
{
    let mut i: usize = 0;
    while i < paths.len()
        invariant
            i <= paths@.len(),
            forall|j: int| 0 <= j < i ==> !spec_path_eq(paths.deep_view()[j], new_path@),
        decreases paths@.len() - i,
    {
        if path_eq(paths[i].as_str(), new_path) {
            assert(paths.deep_view()[i as int] == paths@[i as int]@);
            assert(spec_path_eq(paths.deep_view()[i as int], new_path@));
            return paths;
        }
        i = i + 1;
    }
    let mut r = paths;
    r.insert(0, owned(new_path));
    proof {
        assert(r.deep_view() =~= seq![new_path@] + paths.deep_view());
    }
    r
}

} // verus!
