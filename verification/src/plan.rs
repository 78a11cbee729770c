//! The steps that the build tools carry out, as values: commands to run and
//! filesystem changes to make. The tools' logic computes these; the program
//! around the library performs them in order and stops at the first failure.
use vstd::prelude::*;
use crate::text::{owned, cat, contains, str_contains};
use crate::paths::{spec_path_join, spec_path_file_name, spec_path_file_stem, spec_path_debug, file_name_or_empty, path_join, path_file_name, path_file_stem, path_debug, file_name_or_empty_str};
use crate::half::PackageTypeCopy;
use crate::half::config::copy_filter_matches;

verus! {

/// A process to start: program, arguments, working directory and extra environment.
pub struct CommandSpec {
    pub program: String,
    pub args: Vec<String>,
    pub current_dir: Option<String>,
    pub envs: Vec<(String, String)>,
}

/// The mathematical value of a `CommandSpec`.
pub struct CommandView {
    pub program: Seq<char>,
    pub args: Seq<Seq<char>>,
    pub current_dir: Option<Seq<char>>,
    pub envs: Seq<(Seq<char>, Seq<char>)>,
}

impl DeepView for CommandSpec {
    type V = CommandView;

    open spec fn deep_view(&self) -> CommandView {
        CommandView {
            program: self.program@,
            args: self.args.deep_view(),
            current_dir: self.current_dir.deep_view(),
            envs: self.envs.deep_view(),
        }
    }
}

/// A command view with no working directory and no extra environment.
pub open spec fn plain_command(program: Seq<char>, args: Seq<Seq<char>>) -> CommandView {
    CommandView { program, args, current_dir: None, envs: Seq::empty() }
}

/// How the files that a package search finds are chosen.
pub enum PackageFilter {
    /// Every entry found is copied, file or not; a missing file name is an error.
    Every,
    /// Files whose name has the extension of the given kind.
    ByKind(PackageTypeCopy),
    /// Files whose stem contains the given text.
    StemContains(String),
}

pub enum PackageFilterView {
    Every,
    ByKind(PackageTypeCopy),
    StemContains(Seq<char>),
}

impl DeepView for PackageFilter {
    type V = PackageFilterView;

    open spec fn deep_view(&self) -> PackageFilterView {
        match self {
            PackageFilter::Every => PackageFilterView::Every,
            PackageFilter::ByKind(k) => PackageFilterView::ByKind(*k),
            PackageFilter::StemContains(s) => PackageFilterView::StemContains(s@),
        }
    }
}

/// One thing to do.
#[allow(inconsistent_fields)]
pub enum Step {
    /// `fs::create_dir_all(path)`; on failure the error reads `context`.
    CreateDirAll { path: String, context: String },
    /// Run the command and require a successful exit status. On failure the
    /// error reads `Command failed: <description>` (with `: <status>` added
    /// when `show_status`), wrapped in `context` when there is one. When
    /// `prepend_prefix` names a directory that exists at that moment, it is
    /// put in front of `CMAKE_PREFIX_PATH` for the command (see `prepend_unique`).
    Run {
        command: CommandSpec,
        description: String,
        show_status: bool,
        context: Option<String>,
        prepend_prefix: Option<String>,
    },
    /// Run the command capturing its output; a failure to start reads
    /// `start_context`, a failed status `<label> command failed with status ...`
    /// followed by the captured streams.
    RunCaptured { command: CommandSpec, label: String, start_context: String },
    /// Remove the directory and everything in it, if it exists.
    RemoveDirAll { path: String, context: String },
    /// Remove the file, if it exists.
    RemoveFile { path: String, context: String },
    /// Remove the directory if it exists and is empty.
    RemoveDirIfEmpty { path: String, context: String },
    /// Remove every file matching the glob `dir/pattern`; directories found are
    /// skipped. An invalid pattern is an error naming `description`.
    RemoveMatchingFiles { dir: String, pattern: String, description: String },
    /// If `base` exists, remove every file or directory matching the glob `pattern`.
    RemoveMatchingEntries { base: String, pattern: String },
    /// Create `dest_dir`, then copy the packages that the glob `pattern` finds
    /// and `filter` selects into it (see `select_copies`); errors on single
    /// entries stop the step when `entry_errors_fatal`, else they are skipped.
    /// A failure is wrapped in `context` when there is one.
    CopyPackages {
        pattern: String,
        dest_dir: String,
        filter: PackageFilter,
        entry_errors_fatal: bool,
        context: Option<String>,
    },
    /// Require that the file exists, else fail with `message`.
    RequireFile { path: String, message: String },
    /// Fail with `message`.
    Fail { message: String },
}

#[allow(inconsistent_fields)]
pub enum StepView {
    CreateDirAll { path: Seq<char>, context: Seq<char> },
    Run {
        command: CommandView,
        description: Seq<char>,
        show_status: bool,
        context: Option<Seq<char>>,
        prepend_prefix: Option<Seq<char>>,
    },
    RunCaptured { command: CommandView, label: Seq<char>, start_context: Seq<char> },
    RemoveDirAll { path: Seq<char>, context: Seq<char> },
    RemoveFile { path: Seq<char>, context: Seq<char> },
    RemoveDirIfEmpty { path: Seq<char>, context: Seq<char> },
    RemoveMatchingFiles { dir: Seq<char>, pattern: Seq<char>, description: Seq<char> },
    RemoveMatchingEntries { base: Seq<char>, pattern: Seq<char> },
    CopyPackages {
        pattern: Seq<char>,
        dest_dir: Seq<char>,
        filter: PackageFilterView,
        entry_errors_fatal: bool,
        context: Option<Seq<char>>,
    },
    RequireFile { path: Seq<char>, message: Seq<char> },
    Fail { message: Seq<char> },
}

impl DeepView for Step {
    type V = StepView;

    open spec fn deep_view(&self) -> StepView {
        match self {
            Step::CreateDirAll { path, context } => StepView::CreateDirAll {
                path: path@,
                context: context@,
            },
            Step::Run { command, description, show_status, context, prepend_prefix } => StepView::Run {
                command: command.deep_view(),
                description: description@,
                show_status: *show_status,
                context: context.deep_view(),
                prepend_prefix: prepend_prefix.deep_view(),
            },
            Step::RunCaptured { command, label, start_context } => StepView::RunCaptured {
                command: command.deep_view(),
                label: label@,
                start_context: start_context@,
            },
            Step::RemoveDirAll { path, context } => StepView::RemoveDirAll {
                path: path@,
                context: context@,
            },
            Step::RemoveFile { path, context } => StepView::RemoveFile {
                path: path@,
                context: context@,
            },
            Step::RemoveDirIfEmpty { path, context } => StepView::RemoveDirIfEmpty {
                path: path@,
                context: context@,
            },
            Step::RemoveMatchingFiles { dir, pattern, description } => StepView::RemoveMatchingFiles {
                dir: dir@,
                pattern: pattern@,
                description: description@,
            },
            Step::RemoveMatchingEntries { base, pattern } => StepView::RemoveMatchingEntries {
                base: base@,
                pattern: pattern@,
            },
            Step::CopyPackages { pattern, dest_dir, filter, entry_errors_fatal, context } => StepView::CopyPackages {
                pattern: pattern@,
                dest_dir: dest_dir@,
                filter: filter.deep_view(),
                entry_errors_fatal: *entry_errors_fatal,
                context: context.deep_view(),
            },
            Step::RequireFile { path, message } => StepView::RequireFile {
                path: path@,
                message: message@,
            },
            Step::Fail { message } => StepView::Fail { message: message@ },
        }
    }
}

/// A command with the given program and arguments.
pub fn command(program: &str, args: Vec<String>) -> (c: CommandSpec)
    ensures
        c.deep_view() == plain_command(program@, args.deep_view()),
{
    let c = CommandSpec { program: owned(program), args, current_dir: None, envs: Vec::new() };
    assert(c.envs.deep_view() =~= Seq::<(Seq<char>, Seq<char>)>::empty());
    c
}

/// Appends a string to a list of arguments.
pub fn push_arg(args: &mut Vec<String>, a: String)
    ensures
        final(args).deep_view() == old(args).deep_view().push(a@),
{
    args.push(a);
    proof {
        assert(final(args).deep_view() =~= old(args).deep_view().push(a@));
    }
}

/// Appends a step to a plan.
pub fn push_step(plan: &mut Vec<Step>, s: Step)
    ensures
        final(plan).deep_view() == old(plan).deep_view().push(s.deep_view()),
{
    plan.push(s);
    proof {
        assert(final(plan).deep_view() =~= old(plan).deep_view().push(s.deep_view()));
    }
}

/// Appends the steps of `more` to a plan.
pub fn append_steps(plan: &mut Vec<Step>, more: Vec<Step>)
    ensures
        final(plan).deep_view() == old(plan).deep_view() + more.deep_view(),
{
    let ghost start = plan.deep_view();
    let ghost m = more.deep_view();
    let mut more = more;
    plan.append(&mut more);
    proof {
        assert(plan.deep_view() =~= start + m);
    }
}

/// A found entry of a package search.
pub struct FoundEntry {
    pub path: String,
    pub is_file: bool,
}

/// One copy: from a found path into the destination directory.
pub struct CopyOp {
    pub from: String,
    pub to: String,
}

impl DeepView for CopyOp {
    type V = (Seq<char>, Seq<char>);

    open spec fn deep_view(&self) -> (Seq<char>, Seq<char>) {
        (self.from@, self.to@)
    }
}

/// Where a found entry is copied under a filter, if it is: `Err` for an
/// entry that must be copied but has no file name.
pub open spec fn copy_of(filter: PackageFilterView, dest: Seq<char>, e: FoundEntry) -> Result<Option<(Seq<char>, Seq<char>)>, Seq<char>> {
    let p = e.path@;
    let to = spec_path_join(dest, file_name_or_empty(p));
    match filter {
        PackageFilterView::Every => match spec_path_file_name(p) {
            Some(n) => Ok(Some((p, spec_path_join(dest, n)))),
            None => Err("Failed to get filename from "@ + spec_path_debug(p)),
        },
        PackageFilterView::ByKind(k) => if e.is_file && copy_filter_matches(k, file_name_or_empty(p)) {
            Ok(Some((p, to)))
        } else {
            Ok(None)
        },
        PackageFilterView::StemContains(s) => if e.is_file && spec_path_file_stem(p) is Some && contains(
            spec_path_file_stem(p)->0,
            s,
        ) {
            Ok(Some((p, to)))
        } else {
            Ok(None)
        },
    }
}

/// The copies for a list of found entries, in order; the first error stops it.
pub open spec fn copies_of(filter: PackageFilterView, dest: Seq<char>, entries: Seq<FoundEntry>) -> Result<Seq<(Seq<char>, Seq<char>)>, Seq<char>>
    decreases entries.len(),
{
    if entries.len() == 0 {
        Ok(Seq::empty())
    } else {
        match copies_of(filter, dest, entries.drop_last()) {
            Err(m) => Err(m),
            Ok(prev) => match copy_of(filter, dest, entries.last()) {
                Err(m) => Err(m),
                Ok(Some(c)) => Ok(prev.push(c)),
                Ok(None) => Ok(prev),
            },
        }
    }
}

proof fn lemma_copies_error_persists(filter: PackageFilterView, dest: Seq<char>, entries: Seq<FoundEntry>, k: int, m: Seq<char>)
    requires
        0 <= k <= entries.len(),
        copies_of(filter, dest, entries.take(k)) == Err::<Seq<(Seq<char>, Seq<char>)>, Seq<char>>(m),
    ensures
        copies_of(filter, dest, entries) == Err::<Seq<(Seq<char>, Seq<char>)>, Seq<char>>(m),
    decreases entries.len() - k,
{
    if k == entries.len() {
        assert(entries.take(k) =~= entries);
    } else {
        assert(entries.take(k + 1).drop_last() =~= entries.take(k));
        lemma_copies_error_persists(filter, dest, entries, k + 1, m);
    }
}

fn copy_of_exec(filter: &PackageFilter, dest: &str, e: &FoundEntry) -> (r: Result<Option<CopyOp>, String>)
    ensures
        match r {
            Ok(Some(c)) => copy_of(filter.deep_view(), dest@, *e) == Ok::<_, Seq<char>>(Some(c.deep_view())),
            Ok(None) => copy_of(filter.deep_view(), dest@, *e) == Ok::<Option<(Seq<char>, Seq<char>)>, Seq<char>>(None),
            Err(m) => copy_of(filter.deep_view(), dest@, *e) == Err::<Option<(Seq<char>, Seq<char>)>, Seq<char>>(m@),
        },
{
    let p = e.path.as_str();
    match filter {
        PackageFilter::Every => match path_file_name(p) {
            Some(n) => Ok(Some(CopyOp { from: owned(p), to: path_join(dest, n.as_str()) })),
            None => Err(cat("Failed to get filename from ", path_debug(p).as_str())),
        },
        PackageFilter::ByKind(k) => {
            let name = file_name_or_empty_str(p);
            if e.is_file && k.matches(name.as_str()) {
                Ok(Some(CopyOp { from: owned(p), to: path_join(dest, name.as_str()) }))
            } else {
                Ok(None)
            }
        },
        PackageFilter::StemContains(s) => {
            if !e.is_file {
                return Ok(None);
            }
            match path_file_stem(p) {
                Some(stem) => if str_contains(stem.as_str(), s.as_str()) {
                    let name = file_name_or_empty_str(p);
                    Ok(Some(CopyOp { from: owned(p), to: path_join(dest, name.as_str()) }))
                } else {
                    Ok(None)
                },
                None => Ok(None),
            }
        },
    }
}

/// The copies that a package search makes: for each found entry in order,
/// its path and its place in `dest_dir` when `filter` selects it (see `copy_of`).
pub fn select_copies(filter: &PackageFilter, dest_dir: &str, found: &Vec<FoundEntry>) -> (r: Result<Vec<CopyOp>, String>)
    ensures
        match r {
            Ok(v) => copies_of(filter.deep_view(), dest_dir@, found@) == Ok::<_, Seq<char>>(v.deep_view()),
            Err(m) => copies_of(filter.deep_view(), dest_dir@, found@) == Err::<Seq<(Seq<char>, Seq<char>)>, Seq<char>>(m@),
        },
{
    let mut out: Vec<CopyOp> = Vec::new();
    let mut i: usize = 0;
    assert(out.deep_view() =~= Seq::<(Seq<char>, Seq<char>)>::empty());
    while i < found.len()
        invariant
            i <= found@.len(),
            copies_of(filter.deep_view(), dest_dir@, found@.take(i as int)) == Ok::<_, Seq<char>>(out.deep_view()),
        decreases found@.len() - i,
    {
        proof {
            assert(found@.take(i + 1).drop_last() =~= found@.take(i as int));
        }
        match copy_of_exec(filter, dest_dir, &found[i]) {
            Err(m) => {
                proof {
                    lemma_copies_error_persists(filter.deep_view(), dest_dir@, found@, i + 1, m@);
                }
                return Err(m);
            },
            Ok(Some(c)) => {
                let ghost before = out.deep_view();
                out.push(c);
                proof {
                    assert(out.deep_view() =~= before.push(c.deep_view()));
                }
            },
            Ok(None) => {},
        }
        i = i + 1;
    }
    assert(found@.take(found@.len() as int) =~= found@);
    Ok(out)
}

/// `num_cpus::get`: the number of logical CPUs available. Claims only what its
/// documentation promises: the result is at least 1.
#[verifier::external_body]
pub(crate) fn available_cpus() -> (n: usize)
    ensures
        n >= 1,
{
    num_cpus::get()
}

/// Where a run of a plan stands. The steps are carried out in order, and
/// the first one that fails ends the run.
#[derive(Clone, Copy, Debug, PartialEq, Eq, Structural)]
pub enum RunState {
    /// The step with this index is to be carried out next.
    Next(usize),
    /// Every step succeeded.
    Done,
    /// The step with this index failed; no later step is carried out.
    Failed(usize),
}

/// The state a run of a plan of `len` steps starts in.
pub open spec fn start_state(len: nat) -> RunState {
    if len == 0 {
        RunState::Done
    } else {
        RunState::Next(0)
    }
}

/// The state after step `i` of a plan of `len` steps succeeded (`ok`) or failed.
pub open spec fn after_step(len: nat, i: usize, ok: bool) -> RunState {
    if !ok {
        RunState::Failed(i)
    } else if i + 1 < len {
        RunState::Next((i + 1) as usize)
    } else {
        RunState::Done
    }
}

/// Where a run that is about to carry out step `i` ends, when step `k`
/// succeeds exactly if `outcomes[k]`.
pub open spec fn run_from(len: nat, outcomes: Seq<bool>, i: usize) -> RunState
    decreases len - i,
{
    if i >= len {
        RunState::Done
    } else {
        match after_step(len, i, outcomes[i as int]) {
            RunState::Next(j) => if j > i {
                run_from(len, outcomes, j)
            } else {
                RunState::Next(j)
            },
            s => s,
        }
    }
}

/// Where a whole run of a plan of `len` steps ends, given the outcomes of its steps.
pub open spec fn run_outcome(len: nat, outcomes: Seq<bool>) -> RunState {
    match start_state(len) {
        RunState::Next(i) => run_from(len, outcomes, i),
        s => s,
    }
}

impl RunState {
    /// The state a run of a plan of `plan_len` steps starts in.
    pub fn start(plan_len: usize) -> (s: RunState)
        ensures
            s == start_state(plan_len as nat),
    {
        if plan_len == 0 {
            RunState::Done
        } else {
            RunState::Next(0)
        }
    }

    /// The state after step `step` succeeded or failed.
    pub fn after(plan_len: usize, step: usize, succeeded: bool) -> (s: RunState)
        requires
            step < plan_len,
        ensures
            s == after_step(plan_len as nat, step, succeeded),
    {
        if !succeeded {
            RunState::Failed(step)
        } else if step + 1 < plan_len {
            RunState::Next(step + 1)
        } else {
            RunState::Done
        }
    }
}

/// Every one of the first `n` steps succeeds.
pub open spec fn all_succeed(outcomes: Seq<bool>, n: int) -> bool {
    forall|j: int| 0 <= j < n ==> #[trigger] outcomes[j]
}

proof fn lemma_run_from(len: nat, outcomes: Seq<bool>, i: usize)
    requires
        i <= len,
        len <= usize::MAX,
        outcomes.len() >= len,
        all_succeed(outcomes, i as int),
    ensures
        run_from(len, outcomes, i) == RunState::Done <==> all_succeed(outcomes, len as int),
        run_from(len, outcomes, i) matches RunState::Failed(k) ==> k < len && !outcomes[k as int]
            && all_succeed(outcomes, k as int),
        !(run_from(len, outcomes, i) is Next),
    decreases len - i,
{
    if i < len {
        if outcomes[i as int] {
            assert(all_succeed(outcomes, i + 1));
            if i + 1 < len {
                lemma_run_from(len, outcomes, (i + 1) as usize);
            }
        } else {
            assert(!all_succeed(outcomes, len as int));
        }
    }
}

/// A run carries out the steps in order and ends at the first failure: it
/// ends `Done` exactly when every step succeeds, and otherwise `Failed(k)`
/// with `k` the first step that fails.
pub proof fn law_run_stops_at_first_failure(len: nat, outcomes: Seq<bool>)
    requires
        len <= usize::MAX,
        outcomes.len() >= len,
    ensures
        run_outcome(len, outcomes) == RunState::Done <==> all_succeed(outcomes, len as int),
        run_outcome(len, outcomes) matches RunState::Failed(k) ==> k < len && !outcomes[k as int]
            && all_succeed(outcomes, k as int),
        !(run_outcome(len, outcomes) is Next),
{
    if len > 0 {
        lemma_run_from(len, outcomes, 0);
    }
}

} // verus!
