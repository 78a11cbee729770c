//! Options and paths of the `half` builder.
use vstd::prelude::*;
use crate::text::{ends_with, str_ends_with, owned, cat, cat3, str_eq};
use crate::paths::{absolute_from, absolute_from_dir, spec_path_join, path_join};

verus! {

/// Default ROCm installation root.
pub const DEFAULT_ROCM_PATH: &'static str = "/opt/rocm";
/// Default CPack generator list.
pub const DEFAULT_CPACK_GENERATOR: &'static str = "DEB;RPM";
/// Default ROCm patch version for packaging.
pub const DEFAULT_ROCM_PATCH_VERSION: &'static str = "0";
/// Default base output directory.
pub const DEFAULT_OUTPUT_DIR: &'static str = "./output";

/// A package format.
#[derive(Clone, Copy, Debug, PartialEq, Eq, Structural)]
pub enum PackageType {
    Deb,
    Rpm,
}

impl PackageType {
    /// The format's short name: `deb` or `rpm`.
    pub fn as_str(&self) -> (r: &'static str)
        ensures
            r@ == package_type_name(*self),
    {
        match self {
            PackageType::Deb => "deb",
            PackageType::Rpm => "rpm",
        }
    }
}

/// The short name of a package format.
pub open spec fn package_type_name(t: PackageType) -> Seq<char> {
    match t {
        PackageType::Deb => "deb"@,
        PackageType::Rpm => "rpm"@,
    }
}

/// Which package files to copy out of the build directory.
#[derive(Clone, Copy, Debug, PartialEq, Eq, Structural)]
pub enum PackageTypeCopy {
    Deb,
    Rpm,
    All,
}

/// Whether a file name has the extension that the filter selects.
pub open spec fn copy_filter_matches(t: PackageTypeCopy, name: Seq<char>) -> bool {
    match t {
        PackageTypeCopy::All => ends_with(name, ".deb"@) || ends_with(name, ".rpm"@),
        PackageTypeCopy::Deb => ends_with(name, ".deb"@),
        PackageTypeCopy::Rpm => ends_with(name, ".rpm"@),
    }
}

/// The glob pattern that finds the files a filter selects.
pub open spec fn copy_filter_glob(t: PackageTypeCopy) -> Seq<char> {
    match t {
        PackageTypeCopy::All => "*.{deb,rpm}"@,
        PackageTypeCopy::Deb => "*.deb"@,
        PackageTypeCopy::Rpm => "*.rpm"@,
    }
}

impl PackageTypeCopy {
    /// Whether a package file name ends in the selected extension(s).
    pub fn matches(&self, file_name: &str) -> (r: bool)
        ensures
            r == copy_filter_matches(*self, file_name@),
    {
        match self {
            PackageTypeCopy::All => str_ends_with(file_name, ".deb") || str_ends_with(file_name, ".rpm"),
            PackageTypeCopy::Deb => str_ends_with(file_name, ".deb"),
            PackageTypeCopy::Rpm => str_ends_with(file_name, ".rpm"),
        }
    }

    /// The glob pattern for the selected package files.
    pub fn as_str_for_glob(&self) -> (r: &'static str)
        ensures
            r@ == copy_filter_glob(*self),
    {
        match self {
            PackageTypeCopy::All => "*.{deb,rpm}",
            PackageTypeCopy::Deb => "*.deb",
            PackageTypeCopy::Rpm => "*.rpm",
        }
    }
}

/// The subcommands of the `half` builder.
pub enum HalfCommands {
    /// Builds the 'half' library.
    Build {
        release: bool,
        address_sanitizer: bool,
        static_libs: bool,
        package_type_copy: PackageTypeCopy,
        wheel: bool,
    },
    /// Cleans the build and package directories for 'half'.
    Clean,
    /// Prints the package output directory for 'half'.
    Outdir { pkg_type: PackageType },
}

/// The command-line options of the `half` builder.
pub struct HalfCli {
    pub rocm_path: String,
    pub half_src_dir: Option<String>,
    pub cpack_generator: String,
    pub rocm_patch_version: String,
    pub output_dir: String,
    /// Number of parallel build jobs; the number of CPUs when not given.
    pub proc: Option<usize>,
    pub verbose: bool,
    pub command: HalfCommands,
}

/// The resolved configuration of the `half` builder.
pub struct HalfConfig {
    pub rocm_path: String,
    pub half_src_dir: String,
    pub cpack_generator: String,
    pub rocm_patch_version: String,
    pub output_dir: String,
    /// Specific build directory for 'half'.
    pub build_dir_half: String,
    /// Specific package directory for 'half'.
    pub package_dir_half: String,
    /// Number of parallel build jobs, when given.
    pub proc: Option<usize>,
}

/// What the surroundings tell the configuration: the current directory, and
/// which of the paths named by `probe_paths` are directories or exist at all.
pub struct HalfContext {
    pub current_dir: String,
    pub existing_dirs: Vec<String>,
    pub existing_paths: Vec<String>,
}

/// Why the configuration could not be resolved.
#[derive(Debug)]
pub enum HalfConfigError {
    /// No source directory was given and none of the default places holds one.
    DefaultSourceNotFound,
    /// The source directory does not exist or is not a directory.
    SourceNotADirectory { path: String },
    /// The source directory has no `CMakeLists.txt`.
    NoCMakeLists { path: String },
}

impl HalfConfigError {
    /// The error message.
    pub fn message(&self) -> (r: String)
        ensures
            r@ == match self {
                HalfConfigError::DefaultSourceNotFound => "Default 'half' source directory not found at ./rocPRIM/external/half, ./external/rocprim-third-party/half, or ./half. Please specify with --half-src-dir or ensure it's in one of the default locations."@,
                HalfConfigError::SourceNotADirectory { path } => "'half' source directory does not exist or is not a directory: "@ + path@,
                HalfConfigError::NoCMakeLists { path } => "CMakeLists.txt not found in 'half' source directory: "@ + path@ + ". Ensure --half-src-dir points to the correct location."@,
            },
    {
        match self {
            HalfConfigError::DefaultSourceNotFound => owned("Default 'half' source directory not found at ./rocPRIM/external/half, ./external/rocprim-third-party/half, or ./half. Please specify with --half-src-dir or ensure it's in one of the default locations."),
            HalfConfigError::SourceNotADirectory { path } => cat("'half' source directory does not exist or is not a directory: ", path.as_str()),
            HalfConfigError::NoCMakeLists { path } => cat3("CMakeLists.txt not found in 'half' source directory: ", path.as_str(), ". Ensure --half-src-dir points to the correct location."),
        }
    }
}

pub open spec fn is_dir_in(ctx: &HalfContext, p: Seq<char>) -> bool {
    ctx.existing_dirs.deep_view().contains(p)
}

pub open spec fn exists_in(ctx: &HalfContext, p: Seq<char>) -> bool {
    ctx.existing_paths.deep_view().contains(p)
}

/// The default source location: `half` when it is a directory holding a
/// `CMakeLists.txt`, else the first of `rocPRIM/external/half` and
/// `external/rocprim-third-party/half` that is a directory.
pub open spec fn default_half_src(ctx: &HalfContext) -> Option<Seq<char>> {
    let cwd = ctx.current_dir@;
    let p1 = spec_path_join(cwd, "rocPRIM/external/half"@);
    let p2 = spec_path_join(cwd, "external/rocprim-third-party/half"@);
    let p3 = spec_path_join(cwd, "half"@);
    if is_dir_in(ctx, p3) && exists_in(ctx, spec_path_join(p3, "CMakeLists.txt"@)) {
        Some(p3)
    } else if is_dir_in(ctx, p1) {
        Some(p1)
    } else if is_dir_in(ctx, p2) {
        Some(p2)
    } else {
        None
    }
}

/// The source directory: the one given (made absolute), else the default.
pub open spec fn half_src(cli: &HalfCli, ctx: &HalfContext) -> Option<Seq<char>> {
    match cli.half_src_dir {
        Some(p) => Some(absolute_from(ctx.current_dir@, p@)),
        None => default_half_src(ctx),
    }
}

/// The configuration resolved with source directory `src`.
pub open spec fn resolved_half_config(cli: &HalfCli, ctx: &HalfContext, src: Seq<char>, c: &HalfConfig) -> bool {
    let cwd = ctx.current_dir@;
    let out = absolute_from(cwd, cli.output_dir@);
    &&& c.rocm_path@ == absolute_from(cwd, cli.rocm_path@)
    &&& c.half_src_dir@ == src
    &&& c.cpack_generator@ == cli.cpack_generator@
    &&& c.rocm_patch_version@ == cli.rocm_patch_version@
    &&& c.output_dir@ == out
    &&& c.build_dir_half@ == spec_path_join(out, "build/half"@)
    &&& c.package_dir_half@ == spec_path_join(out, "package/half"@)
    &&& c.proc == cli.proc
}

/// The paths whose being a directory or existing the resolution consults.
pub open spec fn half_probe_paths(cli: &HalfCli, cwd: Seq<char>) -> Seq<Seq<char>> {
    let p1 = spec_path_join(cwd, "rocPRIM/external/half"@);
    let p2 = spec_path_join(cwd, "external/rocprim-third-party/half"@);
    let p3 = spec_path_join(cwd, "half"@);
    match cli.half_src_dir {
        Some(p) => {
            let s = absolute_from(cwd, p@);
            seq![s, spec_path_join(s, "CMakeLists.txt"@)]
        },
        None => seq![
            p1,
            spec_path_join(p1, "CMakeLists.txt"@),
            p2,
            spec_path_join(p2, "CMakeLists.txt"@),
            p3,
            spec_path_join(p3, "CMakeLists.txt"@),
        ],
    }
}

fn contains_str(v: &Vec<String>, p: &str) -> (r: bool)
    ensures
        r == v.deep_view().contains(p@),
{
    let mut i: usize = 0;
    while i < v.len()
        invariant
            i <= v@.len(),
            forall|j: int| 0 <= j < i ==> v.deep_view()[j] != p@,
        decreases v@.len() - i,
    {
        if str_eq(v[i].as_str(), p) {
            assert(v.deep_view()[i as int] == p@);
            return true;
        }
        i = i + 1;
    }
    false
}

fn push_string(v: &mut Vec<String>, s: String)
    ensures
        final(v).deep_view() == old(v).deep_view().push(s@),
{
    v.push(s);
    proof {
        assert(final(v).deep_view() =~= old(v).deep_view().push(s@));
    }
}

impl HalfContext {
    /// The paths to examine (see `half_probe_paths`) before resolving `cli`.
    pub fn probe_paths(current_dir: &str, cli: &HalfCli) -> (r: Vec<String>)
        ensures
            r.deep_view() == half_probe_paths(cli, current_dir@),
    {
        let mut r: Vec<String> = Vec::new();
        match &cli.half_src_dir {
            Some(p) => {
                let s = absolute_from_dir(current_dir, p.as_str());
                let c = path_join(s.as_str(), "CMakeLists.txt");
                push_string(&mut r, s);
                push_string(&mut r, c);
            },
            None => {
                let p1 = path_join(current_dir, "rocPRIM/external/half");
                let l1 = path_join(p1.as_str(), "CMakeLists.txt");
                let p2 = path_join(current_dir, "external/rocprim-third-party/half");
                let l2 = path_join(p2.as_str(), "CMakeLists.txt");
                let p3 = path_join(current_dir, "half");
                let l3 = path_join(p3.as_str(), "CMakeLists.txt");
                push_string(&mut r, p1);
                push_string(&mut r, l1);
                push_string(&mut r, p2);
                push_string(&mut r, l2);
                push_string(&mut r, p3);
                push_string(&mut r, l3);
            },
        }
        proof {
            assert(r.deep_view() =~= half_probe_paths(cli, current_dir@));
        }
        r
    }
}

impl HalfConfig {
    /// Resolves the configuration: paths are made absolute against the
    /// current directory; the source directory is the one given or the
    /// default location (see `default_half_src`), and must be a directory holding a
    /// `CMakeLists.txt`; build and package directories lie under
    /// `<output_dir>/build/half` and `<output_dir>/package/half`.
    pub fn from_cli(cli: HalfCli, ctx: &HalfContext) -> (r: Result<HalfConfig, HalfConfigError>)
        ensures
            match half_src(&cli, ctx) {
                None => r matches Err(HalfConfigError::DefaultSourceNotFound),
                Some(s) => if !is_dir_in(ctx, s) {
                    r matches Err(HalfConfigError::SourceNotADirectory { path }) && path@ == s
                } else if !exists_in(ctx, spec_path_join(s, "CMakeLists.txt"@)) {
                    r matches Err(HalfConfigError::NoCMakeLists { path }) && path@ == s
                } else {
                    r matches Ok(c) && resolved_half_config(&cli, ctx, s, &c)
                },
            },
    {
        let cwd = ctx.current_dir.as_str();
        let rocm_path = absolute_from_dir(cwd, cli.rocm_path.as_str());
        let half_src_dir = match &cli.half_src_dir {
            Some(p) => absolute_from_dir(cwd, p.as_str()),
            None => {
                let p3 = path_join(cwd, "half");
                let l3 = path_join(p3.as_str(), "CMakeLists.txt");
                if contains_str(&ctx.existing_dirs, p3.as_str()) && contains_str(&ctx.existing_paths, l3.as_str()) {
                    p3
                } else {
                    let p1 = path_join(cwd, "rocPRIM/external/half");
                    if contains_str(&ctx.existing_dirs, p1.as_str()) {
                        p1
                    } else {
                        let p2 = path_join(cwd, "external/rocprim-third-party/half");
                        if contains_str(&ctx.existing_dirs, p2.as_str()) {
                            p2
                        } else {
                            return Err(HalfConfigError::DefaultSourceNotFound);
                        }
                    }
                }
            },
        };
        if !contains_str(&ctx.existing_dirs, half_src_dir.as_str()) {
            return Err(HalfConfigError::SourceNotADirectory { path: half_src_dir });
        }
        let lists = path_join(half_src_dir.as_str(), "CMakeLists.txt");
        if !contains_str(&ctx.existing_paths, lists.as_str()) {
            return Err(HalfConfigError::NoCMakeLists { path: half_src_dir });
        }
        let output_dir = absolute_from_dir(cwd, cli.output_dir.as_str());
        let build_dir_half = path_join(output_dir.as_str(), "build/half");
        let package_dir_half = path_join(output_dir.as_str(), "package/half");
        Ok(HalfConfig {
            rocm_path,
            half_src_dir,
            cpack_generator: cli.cpack_generator,
            rocm_patch_version: cli.rocm_patch_version,
            output_dir,
            build_dir_half,
            package_dir_half,
            proc: cli.proc,
        })
    }

    /// The package directory for one format: `<package_dir_half>/<deb|rpm>`.
    pub fn get_package_output_dir_for_type(&self, pkg_type: &PackageType) -> (r: String)
        ensures
            r@ == spec_path_join(self.package_dir_half@, package_type_name(*pkg_type)),
    {
        path_join(self.package_dir_half.as_str(), pkg_type.as_str())
    }
}

} // verus!
