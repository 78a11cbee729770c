//! Options of the ROCm build tool and how they resolve into its configuration.
use vstd::prelude::*;
use crate::text::{owned, str_eq};
use crate::paths::{
    absolute_from, absolute_from_dir, absolute_all, spec_path_join, spec_path_parent,
    spec_path_file_name, path_join, path_parent, path_file_name,
};

verus! {

/// Default build directory, relative to the current directory.
pub const DEFAULT_BUILD_DIR: &'static str = "./build";
/// Default CMake build type.
pub const DEFAULT_BUILD_TYPE: &'static str = "Release";
/// Depth used when neither the command line nor the configuration file gives one.
pub const DEFAULT_PROJECT_SEARCH_DEPTH: usize = 1;
/// Name of the optional configuration file.
pub const CONFIG_FILE_NAME: &'static str = ".rocm_build.toml";
/// Environment variable that may name the rocm-cmake directory.
pub const ROCM_CMAKE_ENV_VAR: &'static str = "ROCM_CMAKE_PATH";
/// How many directories, from the current one upwards, are searched for rocm-cmake.
pub const ROCM_CMAKE_SEARCH_LEVELS: usize = 6;

/// The subcommands of the ROCm build tool.
pub enum Commands {
    /// Builds the specified ROCm packages.
    Build,
    /// Cleans the build and (optionally) install directories.
    Clean,
    /// Prints the output directory for specified packages.
    Outdir { packages: Vec<String> },
}

/// The command-line options of the ROCm build tool.
pub struct Cli {
    pub build_dir: String,
    pub install_dir: Option<String>,
    pub packages: Vec<String>,
    pub verbose: bool,
    pub build_type: String,
    pub cmake_args: Vec<String>,
    pub jobs: Option<usize>,
    pub project_search_depth: Option<usize>,
    pub source_dirs: Vec<String>,
    pub command: Commands,
}

impl Cli {
    /// The options as given when only the subcommand is named.
    pub fn new(command: Commands) -> (r: Cli)
        ensures
            r.build_dir@ == DEFAULT_BUILD_DIR@,
            r.install_dir is None,
            r.packages@.len() == 0,
            !r.verbose,
            r.build_type@ == DEFAULT_BUILD_TYPE@,
            r.cmake_args@.len() == 0,
            r.jobs is None,
            r.project_search_depth is None,
            r.source_dirs@.len() == 0,
            r.command == command,
    {
        Cli {
            build_dir: owned(DEFAULT_BUILD_DIR),
            install_dir: None,
            packages: Vec::new(),
            verbose: false,
            build_type: owned(DEFAULT_BUILD_TYPE),
            cmake_args: Vec::new(),
            jobs: None,
            project_search_depth: None,
            source_dirs: Vec::new(),
            command,
        }
    }

    /// The log filter used when the environment sets none: `debug` when
    /// verbose, else `info`.
    pub fn default_log_level(&self) -> (level: &'static str)
        ensures
            level@ == (if self.verbose { "debug"@ } else { "info"@ }),
    {
        if self.verbose {
            "debug"
        } else {
            "info"
        }
    }
}

/// The values a configuration file may give.
pub struct AppConfigFile {
    pub rocm_cmake_path: Option<String>,
    pub default_project_search_depth: Option<usize>,
    pub default_source_dirs: Option<Vec<String>>,
}

impl AppConfigFile {
    /// A file that sets nothing (what an empty file gives).
    pub fn empty() -> (r: AppConfigFile)
        ensures
            r.rocm_cmake_path is None,
            r.default_project_search_depth is None,
            r.default_source_dirs is None,
    {
        AppConfigFile { rocm_cmake_path: None, default_project_search_depth: None, default_source_dirs: None }
    }
}

/// What the surroundings tell the configuration: the current directory, the
/// configuration file that was loaded (if any), the value of `ROCM_CMAKE_PATH`
/// (if set), and which of the paths named by `Config::probe_paths` are directories.
pub struct ConfigContext {
    pub current_dir: String,
    pub config_file: Option<AppConfigFile>,
    pub rocm_cmake_env: Option<String>,
    pub existing_dirs: Vec<String>,
}

/// The resolved configuration of the ROCm build tool.
pub struct Config {
    pub build_dir: String,
    pub install_dir: Option<String>,
    pub packages: Vec<String>,
    pub rocm_cmake_path: String,
    pub source_dirs: Vec<String>,
    pub build_type: String,
    pub cmake_args: Vec<String>,
    pub jobs: Option<usize>,
    pub project_search_depth: usize,
}

/// Why a configuration could not be resolved.
#[derive(Debug, PartialEq, Eq, Structural)]
pub enum ConfigError {
    /// No rocm-cmake directory from the environment, the file, or the search.
    RocmCmakeNotFound,
}

impl ConfigError {
    /// The error message.
    pub fn message(&self) -> (r: String)
        ensures
            r@ == "'rocm-cmake' directory not found. Searched via environment variable ('ROCM_CMAKE_PATH'), config file ('.rocm_build.toml'), and directory scan."@,
    {
        owned("'rocm-cmake' directory not found. Searched via environment variable ('ROCM_CMAKE_PATH'), config file ('.rocm_build.toml'), and directory scan.")
    }
}

/// `p` is one of the directories that the context reports as existing.
pub open spec fn dir_exists(ctx: &ConfigContext, p: Seq<char>) -> bool {
    ctx.existing_dirs.deep_view().contains(p)
}

/// `p` is an existing directory named `rocm-cmake`.
pub open spec fn is_rocm_cmake_dir(ctx: &ConfigContext, p: Seq<char>) -> bool {
    dir_exists(ctx, p) && spec_path_file_name(p) == Some("rocm-cmake"@)
}

/// The parent of `p`, or `p` itself where it has none.
pub open spec fn parent_or_self(p: Seq<char>) -> Seq<char> {
    match spec_path_parent(p) {
        Some(q) => q,
        None => p,
    }
}

/// rocm-cmake as named by the environment variable, with its parent.
pub open spec fn rocm_cmake_from_env(ctx: &ConfigContext) -> Option<(Seq<char>, Seq<char>)> {
    match ctx.rocm_cmake_env {
        Some(v) => if v@.len() > 0 && is_rocm_cmake_dir(ctx, v@) {
            Some((v@, parent_or_self(v@)))
        } else {
            None
        },
        None => None,
    }
}

/// The rocm-cmake path that the configuration file names, made absolute.
pub open spec fn config_file_rocm_cmake(ctx: &ConfigContext) -> Option<Seq<char>> {
    match ctx.config_file {
        Some(f) => match f.rocm_cmake_path {
            Some(r) => Some(absolute_from(ctx.current_dir@, r@)),
            None => None,
        },
        None => None,
    }
}

/// rocm-cmake as named by the configuration file, with its parent.
pub open spec fn rocm_cmake_from_file(ctx: &ConfigContext) -> Option<(Seq<char>, Seq<char>)> {
    match config_file_rocm_cmake(ctx) {
        Some(c) => if is_rocm_cmake_dir(ctx, c) {
            Some((c, parent_or_self(c)))
        } else {
            None
        },
        None => None,
    }
}

/// The first of `levels` directories, from `dir` upwards, that holds a
/// `rocm-cmake` directory: that directory and the one holding it.
pub open spec fn rocm_cmake_search(ctx: &ConfigContext, dir: Seq<char>, levels: nat) -> Option<(Seq<char>, Seq<char>)>
    decreases levels,
{
    if levels == 0 {
        None
    } else {
        let cand = spec_path_join(dir, "rocm-cmake"@);
        if dir_exists(ctx, cand) {
            Some((cand, dir))
        } else if levels == 1 {
            None
        } else {
            match spec_path_parent(dir) {
                Some(p) => rocm_cmake_search(ctx, p, (levels - 1) as nat),
                None => None,
            }
        }
    }
}

/// The rocm-cmake directory and the directory that holds it: from the
/// environment variable, else from the configuration file, else by searching
/// upwards from the current directory.
pub open spec fn resolve_rocm_cmake(ctx: &ConfigContext) -> Option<(Seq<char>, Seq<char>)> {
    if rocm_cmake_from_env(ctx) is Some {
        rocm_cmake_from_env(ctx)
    } else if rocm_cmake_from_file(ctx) is Some {
        rocm_cmake_from_file(ctx)
    } else {
        rocm_cmake_search(ctx, ctx.current_dir@, ROCM_CMAKE_SEARCH_LEVELS as nat)
    }
}

/// The directories searched for projects: those given on the command line,
/// else those of the configuration file when it lists any, else the directory
/// that holds rocm-cmake. Relative paths are taken from the current directory.
pub open spec fn resolved_source_dirs(cli: &Cli, ctx: &ConfigContext, rocm_parent: Seq<char>) -> Seq<Seq<char>> {
    let cwd = ctx.current_dir@;
    if cli.source_dirs@.len() > 0 {
        cli.source_dirs.deep_view().map_values(|p: Seq<char>| absolute_from(cwd, p))
    } else {
        match ctx.config_file {
            Some(f) => match f.default_source_dirs {
                Some(v) => if v@.len() > 0 {
                    v.deep_view().map_values(|p: Seq<char>| absolute_from(cwd, p))
                } else {
                    seq![rocm_parent]
                },
                None => seq![rocm_parent],
            },
            None => seq![rocm_parent],
        }
    }
}

/// The project search depth: command line, else configuration file, else the default.
pub open spec fn resolved_search_depth(cli: &Cli, ctx: &ConfigContext) -> usize {
    match cli.project_search_depth {
        Some(d) => d,
        None => match ctx.config_file {
            Some(f) => match f.default_project_search_depth {
                Some(d) => d,
                None => DEFAULT_PROJECT_SEARCH_DEPTH,
            },
            None => DEFAULT_PROJECT_SEARCH_DEPTH,
        },
    }
}

/// The configuration that `from_cli` gives when rocm-cmake was resolved to `rocm`.
pub open spec fn resolved_config(cli: &Cli, ctx: &ConfigContext, rocm: (Seq<char>, Seq<char>), c: &Config) -> bool {
    let cwd = ctx.current_dir@;
    &&& c.build_dir@ == absolute_from(cwd, cli.build_dir@)
    &&& c.install_dir.deep_view() == match cli.install_dir {
        Some(p) => Some(absolute_from(cwd, p@)),
        None => None,
    }
    &&& c.packages@ == cli.packages@
    &&& c.rocm_cmake_path@ == rocm.0
    &&& c.source_dirs.deep_view() == resolved_source_dirs(cli, ctx, rocm.1)
    &&& c.build_type@ == cli.build_type@
    &&& c.cmake_args@ == cli.cmake_args@
    &&& c.jobs == cli.jobs
    &&& c.project_search_depth == resolved_search_depth(cli, ctx)
}

/// The paths whose being a directory the resolution consults: the value of
/// the environment variable, the path the configuration file names, and
/// `rocm-cmake` in each searched directory.
pub open spec fn probe_paths_of(ctx: &ConfigContext) -> Seq<Seq<char>> {
    (match ctx.rocm_cmake_env {
        Some(v) => seq![v@],
        None => Seq::empty(),
    }) + (match config_file_rocm_cmake(ctx) {
        Some(c) => seq![c],
        None => Seq::empty(),
    }) + search_probes(ctx.current_dir@, ROCM_CMAKE_SEARCH_LEVELS as nat)
}

/// `rocm-cmake` in each of `levels` directories from `dir` upwards.
pub open spec fn search_probes(dir: Seq<char>, levels: nat) -> Seq<Seq<char>>
    decreases levels,
{
    if levels == 0 {
        Seq::empty()
    } else {
        seq![spec_path_join(dir, "rocm-cmake"@)] + if levels == 1 {
            Seq::empty()
        } else {
            match spec_path_parent(dir) {
                Some(p) => search_probes(p, (levels - 1) as nat),
                None => Seq::empty(),
            }
        }
    }
}

fn contains_str(v: &Vec<String>, p: &str) -> (r: bool)
    ensures
        r == v.deep_view().contains(p@),
{
    let mut i: usize = 0;
    while i < v.len()
        invariant
            i <= v@.len(),
            forall|j: int| 0 <= j < i ==> v.deep_view()[j] != p@,
        decreases v@.len() - i,
    {
        if str_eq(v[i].as_str(), p) {
            assert(v.deep_view()[i as int] == p@);
            return true;
        }
        i = i + 1;
    }
    false
}

fn is_rocm_cmake_dir_exec(ctx: &ConfigContext, p: &str) -> (r: bool)
    ensures
        r == is_rocm_cmake_dir(ctx, p@),
{
    if !contains_str(&ctx.existing_dirs, p) {
        return false;
    }
    match path_file_name(p) {
        Some(n) => str_eq(n.as_str(), "rocm-cmake"),
        None => false,
    }
}

fn parent_or_self_exec(p: &str) -> (r: String)
    ensures
        r@ == parent_or_self(p@),
{
    match path_parent(p) {
        Some(q) => q,
        None => owned(p),
    }
}

fn rocm_cmake_from_env_exec(ctx: &ConfigContext) -> (r: Option<(String, String)>)
    ensures
        r.deep_view() == rocm_cmake_from_env(ctx),
{
    match &ctx.rocm_cmake_env {
        Some(v) => {
            if v.unicode_len() > 0 && is_rocm_cmake_dir_exec(ctx, v.as_str()) {
                Some((owned(v.as_str()), parent_or_self_exec(v.as_str())))
            } else {
                None
            }
        },
        None => None,
    }
}

fn config_file_rocm_cmake_exec(ctx: &ConfigContext) -> (r: Option<String>)
    ensures
        r.deep_view() == config_file_rocm_cmake(ctx),
{
    match &ctx.config_file {
        Some(f) => match &f.rocm_cmake_path {
            Some(p) => Some(absolute_from_dir(ctx.current_dir.as_str(), p.as_str())),
            None => None,
        },
        None => None,
    }
}

fn rocm_cmake_from_file_exec(ctx: &ConfigContext) -> (r: Option<(String, String)>)
    ensures
        r.deep_view() == rocm_cmake_from_file(ctx),
{
    match config_file_rocm_cmake_exec(ctx) {
        Some(c) => {
            if is_rocm_cmake_dir_exec(ctx, c.as_str()) {
                let parent = parent_or_self_exec(c.as_str());
                Some((c, parent))
            } else {
                None
            }
        },
        None => None,
    }
}

fn rocm_cmake_search_exec(ctx: &ConfigContext) -> (r: Option<(String, String)>)
    ensures
        r.deep_view() == rocm_cmake_search(ctx, ctx.current_dir@, ROCM_CMAKE_SEARCH_LEVELS as nat),
{
    let mut dir = owned(ctx.current_dir.as_str());
    let mut i: usize = 0;
    loop
        invariant
            i < ROCM_CMAKE_SEARCH_LEVELS,
            rocm_cmake_search(ctx, ctx.current_dir@, ROCM_CMAKE_SEARCH_LEVELS as nat)
                == rocm_cmake_search(ctx, dir@, (ROCM_CMAKE_SEARCH_LEVELS - i) as nat),
        decreases ROCM_CMAKE_SEARCH_LEVELS - i,
    {
        let cand = path_join(dir.as_str(), "rocm-cmake");
        if contains_str(&ctx.existing_dirs, cand.as_str()) {
            return Some((cand, dir));
        }
        if i + 1 == ROCM_CMAKE_SEARCH_LEVELS {
            return None;
        }
        match path_parent(dir.as_str()) {
            Some(p) => {
                dir = p;
                i = i + 1;
            },
            None => {
                return None;
            },
        }
    }
}

fn search_probes_exec(ctx: &ConfigContext, out: &mut Vec<String>)
    ensures
        final(out).deep_view() == old(out).deep_view() + search_probes(ctx.current_dir@, ROCM_CMAKE_SEARCH_LEVELS as nat),
{
    let ghost start = out.deep_view();
    let mut dir = owned(ctx.current_dir.as_str());
    let mut i: usize = 0;
    loop
        invariant
            i < ROCM_CMAKE_SEARCH_LEVELS,
            start == old(out).deep_view(),
            start + search_probes(ctx.current_dir@, ROCM_CMAKE_SEARCH_LEVELS as nat)
                == out.deep_view() + search_probes(dir@, (ROCM_CMAKE_SEARCH_LEVELS - i) as nat),
        decreases ROCM_CMAKE_SEARCH_LEVELS - i,
    {
        let cand = path_join(dir.as_str(), "rocm-cmake");
        let ghost before = out.deep_view();
        let ghost levels = (ROCM_CMAKE_SEARCH_LEVELS - i) as nat;
        out.push(cand);
        proof {
            assert(out.deep_view() =~= before.push(spec_path_join(dir@, "rocm-cmake"@)));
        }
        if i + 1 == ROCM_CMAKE_SEARCH_LEVELS {
            proof {
                assert(search_probes(dir@, levels) =~= seq![spec_path_join(dir@, "rocm-cmake"@)]);
                assert(before + search_probes(dir@, levels) =~= out.deep_view());
                assert(out.deep_view() + Seq::<Seq<char>>::empty() =~= out.deep_view());
            }
            return;
        }
        match path_parent(dir.as_str()) {
            Some(p) => {
                proof {
                    assert(search_probes(dir@, levels) =~= seq![spec_path_join(dir@, "rocm-cmake"@)]
                        + search_probes(p@, (levels - 1) as nat));
                    assert(before + search_probes(dir@, levels) =~= out.deep_view()
                        + search_probes(p@, (levels - 1) as nat));
                }
                dir = p;
                i = i + 1;
            },
            None => {
                proof {
                    assert(search_probes(dir@, levels) =~= seq![spec_path_join(dir@, "rocm-cmake"@)]);
                    assert(before + search_probes(dir@, levels) =~= out.deep_view());
                }
                return;
            },
        }
    }
}

impl ConfigContext {
    /// The paths whose being a directory `Config::from_cli` consults (see
    /// `probe_paths_of`), for the surroundings to examine before the call.
    pub fn probe_paths(&self) -> (r: Vec<String>)
        ensures
            r.deep_view() == probe_paths_of(self),
    {
        let mut r: Vec<String> = Vec::new();
        match &self.rocm_cmake_env {
            Some(v) => {
                r.push(owned(v.as_str()));
            },
            None => {},
        }
        let ghost first = r.deep_view();
        match config_file_rocm_cmake_exec(self) {
            Some(c) => {
                r.push(c);
            },
            None => {},
        }
        let ghost second = r.deep_view();
        search_probes_exec(self, &mut r);
        proof {
            let e = match &self.rocm_cmake_env {
                Some(v) => seq![v@],
                None => Seq::<Seq<char>>::empty(),
            };
            let f = match config_file_rocm_cmake(self) {
                Some(c) => seq![c],
                None => Seq::<Seq<char>>::empty(),
            };
            assert(first =~= e);
            assert(second =~= e + f);
            assert(r.deep_view() =~= probe_paths_of(self));
        }
        r
    }
}

impl Config {
    /// Resolves the configuration from the command line and the surroundings.
    ///
    /// Relative build and install directories are taken from the current
    /// directory. rocm-cmake is found through `ROCM_CMAKE_PATH`, else the
    /// configuration file, else by searching the current directory and its
    /// parents; it is an error when none finds it. Source directories and the
    /// project search depth come from the command line, else the
    /// configuration file, else their defaults.
    pub fn from_cli(cli: Cli, ctx: &ConfigContext) -> (r: Result<Config, ConfigError>)
        ensures
            r is Err <==> resolve_rocm_cmake(ctx) is None,
            r matches Ok(c) ==> resolved_config(&cli, ctx, resolve_rocm_cmake(ctx)->0, &c),
            r matches Err(e) ==> e == ConfigError::RocmCmakeNotFound,
    {
        let cwd = ctx.current_dir.as_str();
        let build_dir = absolute_from_dir(cwd, cli.build_dir.as_str());
        let install_dir = match &cli.install_dir {
            Some(p) => Some(absolute_from_dir(cwd, p.as_str())),
            None => None,
        };
        let found = match rocm_cmake_from_env_exec(ctx) {
            Some(x) => Some(x),
            None => match rocm_cmake_from_file_exec(ctx) {
                Some(x) => Some(x),
                None => rocm_cmake_search_exec(ctx),
            },
        };
        let (rocm_cmake_path, rocm_parent) = match found {
            Some(x) => x,
            None => {
                return Err(ConfigError::RocmCmakeNotFound);
            },
        };
        let source_dirs = if cli.source_dirs.len() > 0 {
            absolute_all(cwd, &cli.source_dirs)
        } else {
            match &ctx.config_file {
                Some(f) => match &f.default_source_dirs {
                    Some(v) => if v.len() > 0 {
                        absolute_all(cwd, v)
                    } else {
                        vec![rocm_parent]
                    },
                    None => vec![rocm_parent],
                },
                None => vec![rocm_parent],
            }
        };
        let project_search_depth = match cli.project_search_depth {
            Some(d) => d,
            None => match &ctx.config_file {
                Some(f) => match f.default_project_search_depth {
                    Some(d) => d,
                    None => DEFAULT_PROJECT_SEARCH_DEPTH,
                },
                None => DEFAULT_PROJECT_SEARCH_DEPTH,
            },
        };
        let ghost cli_copy = cli;
        let c = Config {
            build_dir,
            install_dir,
            packages: cli.packages,
            rocm_cmake_path,
            source_dirs,
            build_type: cli.build_type,
            cmake_args: cli.cmake_args,
            jobs: cli.jobs,
            project_search_depth,
        };
        proof {
            assert(c.source_dirs.deep_view() =~= resolved_source_dirs(&cli_copy, ctx, rocm_parent@));
        }
        Ok(c)
    }

    /// The build directory of a package: `<build_dir>/<package_name>`.
    pub fn get_package_build_dir(&self, package_name: &str) -> (r: String)
        ensures
            r@ == spec_path_join(self.build_dir@, package_name@),
    {
        path_join(self.build_dir.as_str(), package_name)
    }

    /// The install directory of a package, `<install_dir>/<package_name>`,
    /// when an install directory is configured.
    pub fn get_package_install_dir(&self, package_name: &str) -> (r: Option<String>)
        ensures
            r.deep_view() == match self.install_dir {
                Some(d) => Some(spec_path_join(d@, package_name@)),
                None => None,
            },
    {
        match &self.install_dir {
            Some(d) => Some(path_join(d.as_str(), package_name)),
            None => None,
        }
    }
}

} // verus!
