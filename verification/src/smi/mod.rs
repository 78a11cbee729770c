//! The builder of rocm-smi-lib.
pub mod config_smi;
pub mod utils_smi;
pub mod build_smi_logic;
pub mod clean_smi_logic;
pub mod outdir_smi_logic;
pub mod laws;
