//! The `outdir` command: where each package's build output goes.
use vstd::prelude::*;
use crate::text::{owned, trim_end_slashes, trim_end_slashes_str};
use crate::paths::spec_path_join;
use super::config::Config;

verus! {

/// Why `outdir` refused its arguments.
#[derive(Debug, PartialEq, Eq, Structural)]
pub enum OutdirError {
    NoPackages,
}

impl OutdirError {
    /// The error message.
    pub fn message(&self) -> (r: String)
        ensures
            r@ == "No packages specified for the 'outdir' command."@,
    {
        owned("No packages specified for the 'outdir' command.")
    }
}

/// The line printed for a package: its build directory, trailing slashes of
/// the name ignored.
pub open spec fn outdir_line(c: &Config, name: Seq<char>) -> Seq<char> {
    spec_path_join(c.build_dir@, trim_end_slashes(name))
}

/// The lines that `outdir` prints, one per package in order; an error when no
/// package is named.
pub fn run_outdir(config: &Config, package_names: &Vec<String>) -> (r: Result<Vec<String>, OutdirError>)
    ensures
        r is Err <==> package_names@.len() == 0,
        r matches Ok(lines) ==> lines.deep_view() == package_names.deep_view().map_values(
            |n: Seq<char>| outdir_line(config, n),
        ),
{
    if package_names.len() == 0 {
        return Err(OutdirError::NoPackages);
    }
    let mut lines: Vec<String> = Vec::new();
    let mut i: usize = 0;
    while i < package_names.len()
        invariant
            i <= package_names@.len(),
            lines.deep_view() == package_names.deep_view().take(i as int).map_values(
                |n: Seq<char>| outdir_line(config, n),
            ),
        decreases package_names@.len() - i,
    {
        let normalized = trim_end_slashes_str(package_names[i].as_str());
        let line = config.get_package_build_dir(normalized);
        let ghost before = lines.deep_view();
        lines.push(line);
        proof {
            assert(lines.deep_view() =~= before.push(line@));
            assert(package_names.deep_view().take(i + 1) =~= package_names.deep_view().take(i as int).push(
                package_names@[i as int]@,
            ));
            assert(lines.deep_view() =~= package_names.deep_view().take(i + 1).map_values(
                |n: Seq<char>| outdir_line(config, n),
            ));
        }
        i = i + 1;
    }
    assert(package_names.deep_view().take(package_names@.len() as int) =~= package_names.deep_view());
    Ok(lines)
}

} // verus!
