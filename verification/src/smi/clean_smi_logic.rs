//! What cleaning rocm-smi-lib's build output and installed files does.
use vstd::prelude::*;
use crate::text::{cat, owned};
use crate::paths::{spec_path_join, spec_path_eq, path_join, path_eq};
use crate::plan::{Step, StepView, push_step};
use super::config_smi::RocmSmiConfig;

verus! {

/// Everything a clean of rocm-smi-lib does: remove its build and package
/// directories, the installed `lib*rocm_smi*` files of `lib64` and (when it
/// is another directory) `lib`, the `include/rocm_smi` directory, and the
/// `.info/rocm-smi*` entries of the ROCm installation.
pub open spec fn smi_clean_plan(c: &RocmSmiConfig) -> Seq<StepView> {
    let rocm = c.rocm_path@;
    let lib64 = spec_path_join(rocm, "lib64"@);
    let lib = spec_path_join(rocm, "lib"@);
    let headers = spec_path_join(rocm, "include/rocm_smi"@);
    seq![
        StepView::RemoveDirAll {
            path: c.build_dir_smi@,
            context: "Failed to remove build directory for 'rocm-smi-lib': "@ + c.build_dir_smi@,
        },
        StepView::RemoveDirAll {
            path: c.package_dir_smi@,
            context: "Failed to remove package directory for 'rocm-smi-lib': "@ + c.package_dir_smi@,
        },
        StepView::RemoveMatchingFiles {
            dir: lib64,
            pattern: "lib*rocm_smi*"@,
            description: "rocm-smi-lib (64-bit)"@,
        },
    ] + (if !spec_path_eq(lib, lib64) {
        seq![
            StepView::RemoveMatchingFiles {
                dir: lib,
                pattern: "lib*rocm_smi*"@,
                description: "rocm-smi-lib (32-bit/common)"@,
            },
        ]
    } else {
        Seq::empty()
    }) + seq![
        StepView::RemoveDirAll { path: headers, context: "Failed to remove include directory: "@ + headers },
        StepView::RemoveMatchingEntries {
            base: spec_path_join(rocm, ".info"@),
            pattern: spec_path_join(rocm, ".info/rocm-smi*"@),
        },
    ]
}

/// The clean of rocm-smi-lib (see `smi_clean_plan`).
pub fn run_clean(config: &RocmSmiConfig) -> (plan: Vec<Step>)
    ensures
        plan.deep_view() == smi_clean_plan(config),
{
    let rocm = config.rocm_path.as_str();
    let lib64 = path_join(rocm, "lib64");
    let lib = path_join(rocm, "lib");
    let headers = path_join(rocm, "include/rocm_smi");
    let mut plan: Vec<Step> = Vec::new();
    push_step(&mut plan, Step::RemoveDirAll {
        path: owned(config.build_dir_smi.as_str()),
        context: cat("Failed to remove build directory for 'rocm-smi-lib': ", config.build_dir_smi.as_str()),
    });
    push_step(&mut plan, Step::RemoveDirAll {
        path: owned(config.package_dir_smi.as_str()),
        context: cat("Failed to remove package directory for 'rocm-smi-lib': ", config.package_dir_smi.as_str()),
    });
    let distinct = !path_eq(lib.as_str(), lib64.as_str());
    push_step(&mut plan, Step::RemoveMatchingFiles {
        dir: lib64,
        pattern: owned("lib*rocm_smi*"),
        description: owned("rocm-smi-lib (64-bit)"),
    });
    if distinct {
        push_step(&mut plan, Step::RemoveMatchingFiles {
            dir: lib,
            pattern: owned("lib*rocm_smi*"),
            description: owned("rocm-smi-lib (32-bit/common)"),
        });
    }
    let ctx = cat("Failed to remove include directory: ", headers.as_str());
    push_step(&mut plan, Step::RemoveDirAll { path: headers, context: ctx });
    push_step(&mut plan, Step::RemoveMatchingEntries {
        base: path_join(rocm, ".info"),
        pattern: path_join(rocm, ".info/rocm-smi*"),
    });
    assert(plan.deep_view() =~= smi_clean_plan(config));
    plan
}

} // verus!
