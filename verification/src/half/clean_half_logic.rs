//! What cleaning `half`'s build output does.
use vstd::prelude::*;
use crate::text::{cat, owned};
use crate::plan::{Step, StepView, push_step};
use super::config::HalfConfig;

verus! {

/// Removing `half`'s build and package directories (when they exist).
/// Nothing under the ROCm installation is touched.
pub open spec fn half_clean_plan(c: &HalfConfig) -> Seq<StepView> {
    seq![
        StepView::RemoveDirAll {
            path: c.build_dir_half@,
            context: "Failed to remove build directory for 'half': "@ + c.build_dir_half@,
        },
        StepView::RemoveDirAll {
            path: c.package_dir_half@,
            context: "Failed to remove package directory for 'half': "@ + c.package_dir_half@,
        },
    ]
}

/// The clean of `half` (see `half_clean_plan`).
pub fn run_clean(config: &HalfConfig) -> (plan: Vec<Step>)
    ensures
        plan.deep_view() == half_clean_plan(config),
{
    let mut plan: Vec<Step> = Vec::new();
    push_step(&mut plan, Step::RemoveDirAll {
        path: owned(config.build_dir_half.as_str()),
        context: cat("Failed to remove build directory for 'half': ", config.build_dir_half.as_str()),
    });
    push_step(&mut plan, Step::RemoveDirAll {
        path: owned(config.package_dir_half.as_str()),
        context: cat("Failed to remove package directory for 'half': ", config.package_dir_half.as_str()),
    });
    assert(plan.deep_view() =~= half_clean_plan(config));
    plan
}

} // verus!
