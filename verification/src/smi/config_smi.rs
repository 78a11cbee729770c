//! Options and paths of the rocm-smi-lib builder.
use vstd::prelude::*;
use crate::text::{owned, cat, cat3, str_eq};
use crate::paths::{absolute_from, absolute_from_dir, spec_path_join, path_join};

verus! {

/// Default ROCm installation root.
pub const DEFAULT_ROCM_PATH: &'static str = "/opt/rocm";
/// Default source directory.
pub const DEFAULT_SMI_SRC_DIR: &'static str = ".";
/// Default CPack generator list.
pub const DEFAULT_CPACK_GENERATOR: &'static str = "DEB;RPM";
/// Default ROCm patch version for packaging.
pub const DEFAULT_ROCM_PATCH_VERSION: &'static str = "0";
/// Default base output directory.
pub const DEFAULT_OUTPUT_DIR: &'static str = "./output";

/// A package format.
#[derive(Clone, Copy, Debug, PartialEq, Eq, Structural)]
pub enum PackageType {
    Deb,
    Rpm,
}

/// The short name of a package format.
pub open spec fn package_type_name(t: PackageType) -> Seq<char> {
    match t {
        PackageType::Deb => "deb"@,
        PackageType::Rpm => "rpm"@,
    }
}

/// The glob pattern of a package format's files.
pub open spec fn package_type_glob(t: PackageType) -> Seq<char> {
    match t {
        PackageType::Deb => "*.deb"@,
        PackageType::Rpm => "*.rpm"@,
    }
}

impl PackageType {
    /// The format's short name: `deb` or `rpm`.
    pub fn as_str(&self) -> (r: &'static str)
        ensures
            r@ == package_type_name(*self),
    {
        match self {
            PackageType::Deb => "deb",
            PackageType::Rpm => "rpm",
        }
    }

    /// The glob pattern of the format's package files: `*.deb` or `*.rpm`.
    pub fn glob_suffix(&self) -> (r: &'static str)
        ensures
            r@ == package_type_glob(*self),
    {
        match self {
            PackageType::Deb => "*.deb",
            PackageType::Rpm => "*.rpm",
        }
    }
}

/// The subcommands of the rocm-smi-lib builder.
pub enum RocmSmiCommands {
    /// Builds the 'rocm-smi-lib' library.
    Build,
    /// Cleans the build and package directories for 'rocm-smi-lib'.
    Clean,
    /// Prints the package output directory for 'rocm-smi-lib'.
    Outdir { pkg_type: PackageType },
}

/// The command-line options of the rocm-smi-lib builder.
pub struct RocmSmiCli {
    pub rocm_path: String,
    pub smi_src_dir: String,
    pub cpack_generator: String,
    pub rocm_patch_version: String,
    pub output_dir: String,
    /// Number of parallel build jobs; the number of CPUs when not given.
    pub proc: Option<usize>,
    pub build_32_bit: bool,
    pub static_libs: bool,
    pub enable_address_sanitizer: bool,
    pub verbose: bool,
    pub command: RocmSmiCommands,
}

/// The resolved configuration of the rocm-smi-lib builder.
pub struct RocmSmiConfig {
    pub rocm_path: String,
    pub smi_src_dir: String,
    pub cpack_generator: String,
    pub rocm_patch_version: String,
    pub output_dir: String,
    pub build_dir_smi: String,
    pub package_dir_smi: String,
    pub is_32_bit_build: bool,
    pub static_libs: bool,
    pub enable_address_sanitizer: bool,
    /// Where dependencies such as rocm-cmake are found.
    pub cmake_prefix_path: String,
    /// `-rocm-smi-lib64` or `-rocm-smi-lib32`.
    pub package_name_suffix: String,
    /// `lib64` or `lib`.
    pub lib_dir_suffix: String,
    /// Number of parallel build jobs, when given.
    pub proc: Option<usize>,
}

/// What the surroundings tell the configuration: the current directory, and
/// which of the paths named by `probe_paths` are directories or exist at all.
pub struct SmiContext {
    pub current_dir: String,
    pub existing_dirs: Vec<String>,
    pub existing_paths: Vec<String>,
}

/// Why the configuration could not be resolved.
#[derive(Debug)]
pub enum SmiConfigError {
    /// The source directory does not exist or is not a directory.
    SourceNotADirectory { path: String },
    /// The source directory has no `CMakeLists.txt`.
    NoCMakeLists { path: String },
}

impl SmiConfigError {
    /// The error message.
    pub fn message(&self) -> (r: String)
        ensures
            r@ == match self {
                SmiConfigError::SourceNotADirectory { path } => "'rocm-smi-lib' source directory does not exist or is not a directory: "@ + path@,
                SmiConfigError::NoCMakeLists { path } => "CMakeLists.txt not found in 'rocm-smi-lib' source directory: "@ + path@ + ". Ensure --smi-src-dir points to the correct location."@,
            },
    {
        match self {
            SmiConfigError::SourceNotADirectory { path } => cat("'rocm-smi-lib' source directory does not exist or is not a directory: ", path.as_str()),
            SmiConfigError::NoCMakeLists { path } => cat3("CMakeLists.txt not found in 'rocm-smi-lib' source directory: ", path.as_str(), ". Ensure --smi-src-dir points to the correct location."),
        }
    }
}

/// Whether an environment variable's value turns a switch on: set, not empty, not `0`.
pub open spec fn env_flag_on(v: Option<Seq<char>>) -> bool {
    v is Some && v->0.len() > 0 && v->0 != "0"@
}

/// Turns address sanitizing and static libraries on where the environment
/// variables `ENABLE_ADDRESS_SANITIZER` and `ENABLE_STATIC_BUILDS` ask for it
/// (given as their values, if set); a switch already on stays on.
pub fn apply_env_overrides(cli: &mut RocmSmiCli, address_sanitizer_env: &Option<String>, static_builds_env: &Option<String>)
    ensures
        final(cli).enable_address_sanitizer == (old(cli).enable_address_sanitizer || env_flag_on(
            address_sanitizer_env.deep_view(),
        )),
        final(cli).static_libs == (old(cli).static_libs || env_flag_on(static_builds_env.deep_view())),
        final(cli).rocm_path == old(cli).rocm_path,
        final(cli).smi_src_dir == old(cli).smi_src_dir,
        final(cli).cpack_generator == old(cli).cpack_generator,
        final(cli).rocm_patch_version == old(cli).rocm_patch_version,
        final(cli).output_dir == old(cli).output_dir,
        final(cli).proc == old(cli).proc,
        final(cli).build_32_bit == old(cli).build_32_bit,
        final(cli).verbose == old(cli).verbose,
        final(cli).command == old(cli).command,
{
    match address_sanitizer_env {
        Some(v) => {
            if v.unicode_len() > 0 && !str_eq(v.as_str(), "0") && !cli.enable_address_sanitizer {
                cli.enable_address_sanitizer = true;
            }
        },
        None => {},
    }
    match static_builds_env {
        Some(v) => {
            if v.unicode_len() > 0 && !str_eq(v.as_str(), "0") && !cli.static_libs {
                cli.static_libs = true;
            }
        },
        None => {},
    }
}

pub open spec fn is_dir_in(ctx: &SmiContext, p: Seq<char>) -> bool {
    ctx.existing_dirs.deep_view().contains(p)
}

pub open spec fn exists_in(ctx: &SmiContext, p: Seq<char>) -> bool {
    ctx.existing_paths.deep_view().contains(p)
}

/// The package name suffix for a 32-bit or 64-bit build.
pub open spec fn package_suffix_for(is_32_bit: bool) -> Seq<char> {
    if is_32_bit { "-rocm-smi-lib32"@ } else { "-rocm-smi-lib64"@ }
}

/// The library directory for a 32-bit or 64-bit build.
pub open spec fn lib_dir_for(is_32_bit: bool) -> Seq<char> {
    if is_32_bit { "lib"@ } else { "lib64"@ }
}

/// The configuration resolved from `cli`, its source directory being valid.
pub open spec fn resolved_smi_config(cli: &RocmSmiCli, cwd: Seq<char>, c: &RocmSmiConfig) -> bool {
    let rocm = absolute_from(cwd, cli.rocm_path@);
    let out = absolute_from(cwd, cli.output_dir@);
    &&& c.rocm_path@ == rocm
    &&& c.smi_src_dir@ == absolute_from(cwd, cli.smi_src_dir@)
    &&& c.cpack_generator@ == cli.cpack_generator@
    &&& c.rocm_patch_version@ == cli.rocm_patch_version@
    &&& c.output_dir@ == out
    &&& c.build_dir_smi@ == spec_path_join(out, "build/rocm-smi-lib"@)
    &&& c.package_dir_smi@ == spec_path_join(out, "package/rocm-smi-lib"@)
    &&& c.is_32_bit_build == cli.build_32_bit
    &&& c.static_libs == cli.static_libs
    &&& c.enable_address_sanitizer == cli.enable_address_sanitizer
    &&& c.cmake_prefix_path@ == spec_path_join(rocm, "lib/cmake/rocm-cmake"@)
    &&& c.package_name_suffix@ == package_suffix_for(cli.build_32_bit)
    &&& c.lib_dir_suffix@ == lib_dir_for(cli.build_32_bit)
    &&& c.proc == cli.proc
}

/// The package name suffix and library directory are those of the build mode.
pub open spec fn suffixes_match_mode(c: RocmSmiConfig) -> bool {
    &&& c.package_name_suffix@ == package_suffix_for(c.is_32_bit_build)
    &&& c.lib_dir_suffix@ == lib_dir_for(c.is_32_bit_build)
}

/// What `enable_32bit_build` does to a configuration `old`, giving `new`:
/// 32-bit mode on; unchanged when it was on already, else the 32-bit suffix
/// and library directory; every other field kept.
pub open spec fn enable_32bit_step(old: RocmSmiConfig, new: RocmSmiConfig) -> bool {
    &&& new.is_32_bit_build
    &&& old.is_32_bit_build ==> new == old
    &&& !old.is_32_bit_build ==> {
        &&& new.package_name_suffix@ == package_suffix_for(true)
        &&& new.lib_dir_suffix@ == lib_dir_for(true)
    }
    &&& new.rocm_path == old.rocm_path
    &&& new.smi_src_dir == old.smi_src_dir
    &&& new.cpack_generator == old.cpack_generator
    &&& new.rocm_patch_version == old.rocm_patch_version
    &&& new.output_dir == old.output_dir
    &&& new.build_dir_smi == old.build_dir_smi
    &&& new.package_dir_smi == old.package_dir_smi
    &&& new.static_libs == old.static_libs
    &&& new.enable_address_sanitizer == old.enable_address_sanitizer
    &&& new.cmake_prefix_path == old.cmake_prefix_path
    &&& new.proc == old.proc
}

fn contains_str(v: &Vec<String>, p: &str) -> (r: bool)
    ensures
        r == v.deep_view().contains(p@),
{
    let mut i: usize = 0;
    while i < v.len()
        invariant
            i <= v@.len(),
            forall|j: int| 0 <= j < i ==> v.deep_view()[j] != p@,
        decreases v@.len() - i,
    {
        if str_eq(v[i].as_str(), p) {
            assert(v.deep_view()[i as int] == p@);
            return true;
        }
        i = i + 1;
    }
    false
}

impl SmiContext {
    /// The paths to examine before resolving `cli`: the source directory and
    /// its `CMakeLists.txt`.
    pub fn probe_paths(current_dir: &str, cli: &RocmSmiCli) -> (r: Vec<String>)
        ensures
            r.deep_view() == seq![
                absolute_from(current_dir@, cli.smi_src_dir@),
                spec_path_join(absolute_from(current_dir@, cli.smi_src_dir@), "CMakeLists.txt"@),
            ],
    {
        let s = absolute_from_dir(current_dir, cli.smi_src_dir.as_str());
        let l = path_join(s.as_str(), "CMakeLists.txt");
        let r = vec![s, l];
        assert(r.deep_view() =~= seq![
            absolute_from(current_dir@, cli.smi_src_dir@),
            spec_path_join(absolute_from(current_dir@, cli.smi_src_dir@), "CMakeLists.txt"@),
        ]);
        r
    }
}

impl RocmSmiConfig {
    /// Resolves the configuration: paths are made absolute against the
    /// current directory; the source directory must be a directory holding a
    /// `CMakeLists.txt`; build and package directories lie under
    /// `<output_dir>/build/rocm-smi-lib` and `<output_dir>/package/rocm-smi-lib`;
    /// a 32-bit build uses the `-rocm-smi-lib32` suffix and `lib`, else
    /// `-rocm-smi-lib64` and `lib64`.
    pub fn from_cli(cli: RocmSmiCli, ctx: &SmiContext) -> (r: Result<RocmSmiConfig, SmiConfigError>)
        ensures
            ({
                let s = absolute_from(ctx.current_dir@, cli.smi_src_dir@);
                if !is_dir_in(ctx, s) {
                    r matches Err(SmiConfigError::SourceNotADirectory { path }) && path@ == s
                } else if !exists_in(ctx, spec_path_join(s, "CMakeLists.txt"@)) {
                    r matches Err(SmiConfigError::NoCMakeLists { path }) && path@ == s
                } else {
                    r matches Ok(c) && resolved_smi_config(&cli, ctx.current_dir@, &c)
                }
            }),
    {
        let cwd = ctx.current_dir.as_str();
        let rocm_path = absolute_from_dir(cwd, cli.rocm_path.as_str());
        let smi_src_dir = absolute_from_dir(cwd, cli.smi_src_dir.as_str());
        if !contains_str(&ctx.existing_dirs, smi_src_dir.as_str()) {
            return Err(SmiConfigError::SourceNotADirectory { path: smi_src_dir });
        }
        let lists = path_join(smi_src_dir.as_str(), "CMakeLists.txt");
        if !contains_str(&ctx.existing_paths, lists.as_str()) {
            return Err(SmiConfigError::NoCMakeLists { path: smi_src_dir });
        }
        let output_dir = absolute_from_dir(cwd, cli.output_dir.as_str());
        let build_dir_smi = path_join(output_dir.as_str(), "build/rocm-smi-lib");
        let package_dir_smi = path_join(output_dir.as_str(), "package/rocm-smi-lib");
        let cmake_prefix_path = path_join(rocm_path.as_str(), "lib/cmake/rocm-cmake");
        let (package_name_suffix, lib_dir_suffix) = if cli.build_32_bit {
            (owned("-rocm-smi-lib32"), owned("lib"))
        } else {
            (owned("-rocm-smi-lib64"), owned("lib64"))
        };
        Ok(RocmSmiConfig {
            rocm_path,
            smi_src_dir,
            cpack_generator: cli.cpack_generator,
            rocm_patch_version: cli.rocm_patch_version,
            output_dir,
            build_dir_smi,
            package_dir_smi,
            is_32_bit_build: cli.build_32_bit,
            static_libs: cli.static_libs,
            enable_address_sanitizer: cli.enable_address_sanitizer,
            cmake_prefix_path,
            package_name_suffix,
            lib_dir_suffix,
            proc: cli.proc,
        })
    }

    /// Switches the configuration to 32-bit mode, unless it is in it already:
    /// the `-rocm-smi-lib32` suffix and the `lib` directory.
    pub fn enable_32bit_build(&mut self)
        ensures
            enable_32bit_step(*old(self), *final(self)),
    {
        if !self.is_32_bit_build {
            self.is_32_bit_build = true;
            self.package_name_suffix = owned("-rocm-smi-lib32");
            self.lib_dir_suffix = owned("lib");
        }
    }

    /// The package directory for one format: `<package_dir_smi>/<deb|rpm>`.
    pub fn get_package_output_dir_for_type(&self, pkg_type: &PackageType) -> (r: String)
        ensures
            r@ == spec_path_join(self.package_dir_smi@, package_type_name(*pkg_type)),
    {
        path_join(self.package_dir_smi.as_str(), pkg_type.as_str())
    }
}

} // verus!
