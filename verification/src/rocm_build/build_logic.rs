//! What building the projects of a source tree does, step by step.
use vstd::prelude::*;
use crate::text::{cat, cat3, owned, str_eq, usize_to_string, decimal};
use crate::paths::{spec_path_join, spec_path_eq, file_name_or_empty, path_eq, file_name_or_empty_str};
use crate::plan::{CommandSpec, Step, StepView, plain_command, command, push_arg, push_step};
use super::config::Config;
use super::utils::{package_selected, is_package_selected};

verus! {

/// Arguments of the CMake configure command for a project.
pub open spec fn configure_args(c: &Config, project: Seq<char>, build_dir: Seq<char>) -> Seq<Seq<char>> {
    seq!["-S"@ + project, "-B"@ + build_dir, "-DCMAKE_BUILD_TYPE="@ + c.build_type@] + (match c.install_dir {
        Some(d) => seq!["-DCMAKE_INSTALL_PREFIX="@ + d@],
        None => Seq::empty(),
    }) + c.cmake_args.deep_view()
}

/// The directory that configuring a project other than rocm-cmake puts in
/// front of `CMAKE_PREFIX_PATH` (when it exists): rocm-cmake's install directory.
pub open spec fn configure_prefix(c: &Config, project: Seq<char>) -> Option<Seq<char>> {
    if !spec_path_eq(project, c.rocm_cmake_path@) && c.install_dir is Some {
        Some(spec_path_join(c.install_dir->0@, "rocm-cmake"@))
    } else {
        None
    }
}

/// Arguments of the CMake build command.
pub open spec fn build_args(c: &Config, build_dir: Seq<char>) -> Seq<Seq<char>> {
    seq!["--build"@, build_dir, "--config"@, c.build_type@] + (match c.jobs {
        Some(j) => seq!["--parallel"@, decimal(j as nat)],
        None => Seq::empty(),
    })
}

/// Arguments of the CMake install command.
pub open spec fn install_args(c: &Config, build_dir: Seq<char>) -> Seq<Seq<char>> {
    seq!["--install"@, build_dir, "--config"@, c.build_type@]
}

/// The step that creates a package's build directory.
pub open spec fn create_build_dir_step(name: Seq<char>, build_dir: Seq<char>) -> StepView {
    StepView::CreateDirAll {
        path: build_dir,
        context: "Failed to create build directory for "@ + name + ": "@ + build_dir,
    }
}

/// The step that configures a package.
pub open spec fn configure_step(c: &Config, name: Seq<char>, project: Seq<char>, build_dir: Seq<char>, prefix: Option<Seq<char>>) -> StepView {
    StepView::Run {
        command: plain_command("cmake"@, configure_args(c, project, build_dir)),
        description: "CMake configuration"@,
        show_status: false,
        context: Some("CMake configuration failed for "@ + name + " at "@ + project),
        prepend_prefix: prefix,
    }
}

/// The step that builds a package.
pub open spec fn build_step(c: &Config, name: Seq<char>, build_dir: Seq<char>) -> StepView {
    StepView::Run {
        command: plain_command("cmake"@, build_args(c, build_dir)),
        description: "CMake build"@,
        show_status: false,
        context: Some("CMake build failed for "@ + name + " in "@ + build_dir),
        prepend_prefix: None,
    }
}

/// The step that installs a package.
pub open spec fn install_step(c: &Config, name: Seq<char>, build_dir: Seq<char>) -> StepView {
    StepView::Run {
        command: plain_command("cmake"@, install_args(c, build_dir)),
        description: "CMake install"@,
        show_status: false,
        context: Some("CMake install failed for "@ + name + " from "@ + build_dir),
        prepend_prefix: None,
    }
}

/// The steps for one discovered project: create its build directory,
/// configure, build, and install when an install directory is configured.
pub open spec fn project_steps(c: &Config, name: Seq<char>, project: Seq<char>) -> Seq<StepView> {
    let b = spec_path_join(c.build_dir@, name);
    seq![
        create_build_dir_step(name, b),
        configure_step(c, name, project, b, configure_prefix(c, project)),
        build_step(c, name, b),
    ] + if c.install_dir is Some {
        seq![install_step(c, name, b)]
    } else {
        Seq::empty()
    }
}

/// The steps for rocm-cmake itself; it is installed into its own directory
/// under the install directory.
pub open spec fn rocm_cmake_steps(c: &Config) -> Seq<StepView> {
    let name = "rocm-cmake"@;
    let b = spec_path_join(c.build_dir@, name);
    seq![
        create_build_dir_step(name, b),
        configure_step(c, name, c.rocm_cmake_path@, b, None),
        build_step(c, name, b),
    ] + match c.install_dir {
        Some(d) => seq![
            StepView::Run {
                command: plain_command(
                    "cmake"@,
                    install_args(c, b) + seq!["--prefix"@, spec_path_join(d@, name)],
                ),
                description: "CMake install for rocm-cmake"@,
                show_status: false,
                context: None,
                prepend_prefix: None,
            },
        ],
        None => Seq::empty(),
    }
}

/// rocm-cmake is built first when no packages are selected or when it is one of them.
pub open spec fn builds_rocm_cmake_first(packages: Seq<Seq<char>>) -> bool {
    packages.len() == 0 || exists|i: int|
        0 <= i < packages.len() && (packages[i] == "rocm-cmake"@ || packages[i] == "rocm-cmake/"@)
}

/// The steps for the selected projects among `projects`, in order.
pub open spec fn selected_project_steps(c: &Config, projects: Seq<Seq<char>>) -> Seq<StepView>
    decreases projects.len(),
{
    if projects.len() == 0 {
        Seq::empty()
    } else {
        let p = projects.last();
        let name = file_name_or_empty(p);
        selected_project_steps(c, projects.drop_last()) + if package_selected(c.packages.deep_view(), name) {
            project_steps(c, name, p)
        } else {
            Seq::empty()
        }
    }
}

/// Everything a build does.
pub open spec fn build_plan(c: &Config, projects: Seq<Seq<char>>) -> Seq<StepView> {
    (if builds_rocm_cmake_first(c.packages.deep_view()) {
        rocm_cmake_steps(c)
    } else {
        Seq::empty()
    }) + selected_project_steps(c, projects)
}

fn cmake_configure_command(c: &Config, project: &str, build_dir: &str) -> (r: CommandSpec)
    ensures
        r.deep_view() == plain_command("cmake"@, configure_args(c, project@, build_dir@)),
{
    let mut args: Vec<String> = Vec::new();
    push_arg(&mut args, cat("-S", project));
    push_arg(&mut args, cat("-B", build_dir));
    push_arg(&mut args, cat("-DCMAKE_BUILD_TYPE=", c.build_type.as_str()));
    match &c.install_dir {
        Some(d) => push_arg(&mut args, cat("-DCMAKE_INSTALL_PREFIX=", d.as_str())),
        None => {},
    }
    let ghost before = args.deep_view();
    let mut i: usize = 0;
    while i < c.cmake_args.len()
        invariant
            i <= c.cmake_args@.len(),
            args.deep_view() == before + c.cmake_args.deep_view().take(i as int),
        decreases c.cmake_args@.len() - i,
    {
        push_arg(&mut args, owned(c.cmake_args[i].as_str()));
        proof {
            assert(c.cmake_args.deep_view().take(i + 1) =~= c.cmake_args.deep_view().take(i as int).push(
                c.cmake_args@[i as int]@,
            ));
        }
        i = i + 1;
    }
    proof {
        assert(c.cmake_args.deep_view().take(c.cmake_args@.len() as int) =~= c.cmake_args.deep_view());
        assert(args.deep_view() =~= configure_args(c, project@, build_dir@));
    }
    command("cmake", args)
}

fn cmake_build_command(c: &Config, build_dir: &str) -> (r: CommandSpec)
    ensures
        r.deep_view() == plain_command("cmake"@, build_args(c, build_dir@)),
{
    let mut args: Vec<String> = Vec::new();
    push_arg(&mut args, owned("--build"));
    push_arg(&mut args, owned(build_dir));
    push_arg(&mut args, owned("--config"));
    push_arg(&mut args, owned(c.build_type.as_str()));
    match c.jobs {
        Some(j) => {
            push_arg(&mut args, owned("--parallel"));
            push_arg(&mut args, usize_to_string(j));
        },
        None => {},
    }
    proof {
        assert(args.deep_view() =~= build_args(c, build_dir@));
    }
    command("cmake", args)
}

fn cmake_install_args(c: &Config, build_dir: &str) -> (r: Vec<String>)
    ensures
        r.deep_view() == install_args(c, build_dir@),
{
    let mut args: Vec<String> = Vec::new();
    push_arg(&mut args, owned("--install"));
    push_arg(&mut args, owned(build_dir));
    push_arg(&mut args, owned("--config"));
    push_arg(&mut args, owned(c.build_type.as_str()));
    proof {
        assert(args.deep_view() =~= install_args(c, build_dir@));
    }
    args
}

fn push_create_and_build(plan: &mut Vec<Step>, c: &Config, name: &str, project: &str, build_dir: &str, prefix: Option<String>)
    ensures
        final(plan).deep_view() == old(plan).deep_view() + seq![
            create_build_dir_step(name@, build_dir@),
            configure_step(c, name@, project@, build_dir@, prefix.deep_view()),
            build_step(c, name@, build_dir@),
        ],
{
    let ghost start = plan.deep_view();
    push_step(plan, Step::CreateDirAll {
        path: owned(build_dir),
        context: cat3(&cat("Failed to create build directory for ", name), ": ", build_dir),
    });
    push_step(plan, Step::Run {
        command: cmake_configure_command(c, project, build_dir),
        description: owned("CMake configuration"),
        show_status: false,
        context: Some(cat3(&cat("CMake configuration failed for ", name), " at ", project)),
        prepend_prefix: prefix,
    });
    push_step(plan, Step::Run {
        command: cmake_build_command(c, build_dir),
        description: owned("CMake build"),
        show_status: false,
        context: Some(cat3(&cat("CMake build failed for ", name), " in ", build_dir)),
        prepend_prefix: None,
    });
    proof {
        assert(plan.deep_view() =~= start + seq![
            create_build_dir_step(name@, build_dir@),
            configure_step(c, name@, project@, build_dir@, prefix.deep_view()),
            build_step(c, name@, build_dir@),
        ]);
    }
}

fn push_project_steps(plan: &mut Vec<Step>, c: &Config, name: &str, project: &str)
    ensures
        final(plan).deep_view() == old(plan).deep_view() + project_steps(c, name@, project@),
{
    let ghost start = plan.deep_view();
    let b = c.get_package_build_dir(name);
    let prefix = if !path_eq(project, c.rocm_cmake_path.as_str()) {
        match &c.install_dir {
            Some(d) => Some(crate::paths::path_join(d.as_str(), "rocm-cmake")),
            None => None,
        }
    } else {
        None
    };
    assert(prefix.deep_view() == configure_prefix(c, project@));
    push_create_and_build(plan, c, name, project, b.as_str(), prefix);
    let ghost mid = plan.deep_view();
    if c.install_dir.is_some() {
        push_step(plan, Step::Run {
            command: command("cmake", cmake_install_args(c, b.as_str())),
            description: owned("CMake install"),
            show_status: false,
            context: Some(cat3(&cat("CMake install failed for ", name), " from ", b.as_str())),
            prepend_prefix: None,
        });
    }
    proof {
        assert(plan.deep_view() =~= start + project_steps(c, name@, project@));
    }
}

fn push_rocm_cmake_steps(plan: &mut Vec<Step>, c: &Config)
    ensures
        final(plan).deep_view() == old(plan).deep_view() + rocm_cmake_steps(c),
{
    let ghost start = plan.deep_view();
    let name = "rocm-cmake";
    let b = c.get_package_build_dir(name);
    push_create_and_build(plan, c, name, c.rocm_cmake_path.as_str(), b.as_str(), None);
    match c.get_package_install_dir(name) {
        Some(idir) => {
            let mut args = cmake_install_args(c, b.as_str());
            push_arg(&mut args, owned("--prefix"));
            push_arg(&mut args, idir);
            assert(args.deep_view() =~= install_args(c, b@) + seq!["--prefix"@, spec_path_join(c.install_dir->0@, "rocm-cmake"@)]);
            push_step(plan, Step::Run {
                command: command("cmake", args),
                description: owned("CMake install for rocm-cmake"),
                show_status: false,
                context: None,
                prepend_prefix: None,
            });
        },
        None => {},
    }
    proof {
        assert(plan.deep_view() =~= start + rocm_cmake_steps(c));
    }
}

fn builds_rocm_cmake_first_exec(packages: &Vec<String>) -> (r: bool)
    ensures
        r == builds_rocm_cmake_first(packages.deep_view()),
{
    if packages.len() == 0 {
        return true;
    }
    let mut i: usize = 0;
    while i < packages.len()
        invariant
            i <= packages@.len(),
            forall|j: int|
                0 <= j < i ==> !(packages.deep_view()[j] == "rocm-cmake"@ || packages.deep_view()[j]
                    == "rocm-cmake/"@),
        decreases packages@.len() - i,
    {
        let p = packages[i].as_str();
        if str_eq(p, "rocm-cmake") || str_eq(p, "rocm-cmake/") {
            assert(packages.deep_view()[i as int] == packages@[i as int]@);
            return true;
        }
        i = i + 1;
    }
    false
}

/// The build: rocm-cmake first when it is selected (or nothing is), then every
/// selected project among `projects` (the project directories found in the
/// source directories, rocm-cmake excluded), each configured, built and,
/// when an install directory is set, installed.
pub fn run_build(config: &Config, projects: &Vec<String>) -> (plan: Vec<Step>)
    ensures
        plan.deep_view() == build_plan(config, projects.deep_view()),
{
    let mut plan: Vec<Step> = Vec::new();
    if builds_rocm_cmake_first_exec(&config.packages) {
        push_rocm_cmake_steps(&mut plan, config);
    }
    let ghost first = plan.deep_view();
    let sel = config.packages.as_slice();
    assert(sel.deep_view() =~= config.packages.deep_view());
    let mut i: usize = 0;
    while i < projects.len()
        invariant
            i <= projects@.len(),
            sel.deep_view() == config.packages.deep_view(),
            plan.deep_view() == first + selected_project_steps(config, projects.deep_view().take(i as int)),
        decreases projects@.len() - i,
    {
        let p = projects[i].as_str();
        let name = file_name_or_empty_str(p);
        let ghost before = plan.deep_view();
        if is_package_selected(sel, name.as_str(), super::utils::SelectedPurpose::Build) {
            push_project_steps(&mut plan, config, name.as_str(), p);
        }
        proof {
            let t = projects.deep_view().take(i + 1);
            assert(t.drop_last() =~= projects.deep_view().take(i as int));
            assert(t.last() == p@);
            assert(plan.deep_view() =~= first + selected_project_steps(config, t));
        }
        i = i + 1;
    }
    proof {
        assert(projects.deep_view().take(projects@.len() as int) =~= projects.deep_view());
        assert(plan.deep_view() =~= build_plan(config, projects.deep_view()));
    }
    plan
}

} // verus!
