//! The `outdir` command of the rocm-smi-lib builder.
use vstd::prelude::*;
use crate::paths::spec_path_join;
use super::config_smi::{RocmSmiConfig, PackageType, package_type_name};

verus! {

/// The line that `outdir` prints: the package directory for the format.
pub fn run_outdir(config: &RocmSmiConfig, pkg_type: &PackageType) -> (line: String)
    ensures
        line@ == spec_path_join(config.package_dir_smi@, package_type_name(*pkg_type)),
{
    config.get_package_output_dir_for_type(pkg_type)
}

} // verus!
