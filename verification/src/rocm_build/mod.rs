//! The ROCm build tool: builds, cleans and locates the CMake projects of a source tree.
pub mod utils;
pub mod config;
pub mod build_logic;
pub mod clean_logic;
pub mod outdir_logic;
pub mod laws;
