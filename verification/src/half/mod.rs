//! The builder of the header-only `half` library.
pub mod config;
pub mod build_half_logic;
pub mod clean_half_logic;
pub mod outdir_half_logic;
pub use config::PackageTypeCopy;
pub mod laws;
