//! Verified planning logic for a family of ROCm component build tools.
pub mod text;
pub mod paths;
pub mod plan;
pub mod rocm_build;
pub mod half;
pub mod smi;
pub mod cmake_builder;
pub mod rocminfo;
pub mod whl;
pub mod hip_info;
