# rocm_build

Build tooling for ROCm components, with its logic verified by Verus.

The tools:

- **rocm-build** builds, cleans and locates the CMake projects of a source
  tree, rocm-cmake first; rocm-cmake is found through `ROCM_CMAKE_PATH`, a
  `.rocm_build.toml` file, or a search upwards from the current directory.
- **half_builder** and **rocm_smi_lib_builder** configure, build, install and
  package the `half` library and rocm-smi-lib.
- **rocm-cmake-builder** and **rocminfo-builder** do the same for rocm-cmake
  and rocminfo.
- **find_first_whl** appends the name of the alphabetically first matching
  file of a directory to an output file.

## Layout

- `src/` is the verified library. Each tool's configuration is resolved from
  its options and from facts about the surroundings (the current directory,
  which paths exist, environment values) handed in as plain values. What a
  command does is computed as a plan: a list of `plan::Step` values (commands
  to run, directories to create or remove, packages to copy), each function
  proved equal to a specification of that list. Public proof functions in the
  `laws` modules (and at the end of `cmake_builder.rs`, `rocminfo.rs` and
  `whl.rs`) state properties across operations, such as the clean removing
  what the build creates or the precedence of the configuration sources.
- `app/` is the program: command-line parsing, reading the surroundings, and
  carrying out the planned steps.
- `tests/` exercises the library on concrete values.

Paths are held as strings; the operations of `std::path` on them, and a few
other standard-library and `num_cpus` calls, are wrappers whose contracts are
trusted (see `paths.rs`, `text.rs`, `plan.rs` and `hip_info.rs`).
