//! One build: from a task id to the plan the builder runs, and from the
//! builder's outcome to the collected outputs.
use crate::config::{Builder, CourseConfiguration, OutputKind, Task};
use crate::error::BuildError;
use crate::flag::{
    create_flag_id_pairs_by_task, output_dir_variable, output_dir_variable_spec, stage_ids_distinct,
    stages_valid, task_flags_generated, Flag,
};
use crate::instance::InstanceId;
use vstd::prelude::*;

verus! {

/// How many of the outputs are instruction files.
pub open spec fn readme_count(s: Seq<OutputKind>) -> nat
    decreases s.len(),
{
    if s.len() == 0 {
        0
    } else {
        readme_count(s.drop_last()) + if s.last().is_readme() {
            1nat
        } else {
            0nat
        }
    }
}

/// The paths of the resource outputs, in order.
pub open spec fn resource_paths(s: Seq<OutputKind>) -> Seq<String>
    decreases s.len(),
{
    if s.len() == 0 {
        seq![]
    } else if s.last().is_readme() {
        resource_paths(s.drop_last())
    } else {
        resource_paths(s.drop_last()).push(s.last().filename_spec())
    }
}

/// Outputs with the same kinds, position by position, hold as many instruction files.
pub proof fn lemma_readme_count_by_kind(a: Seq<OutputKind>, b: Seq<OutputKind>)
    requires
        a.len() == b.len(),
        forall|i: int| 0 <= i < a.len() ==> (#[trigger] a[i]).is_readme() == b[i].is_readme(),
    ensures
        readme_count(a) == readme_count(b),
    decreases a.len(),
{
    if a.len() > 0 {
        lemma_readme_count_by_kind(a.drop_last(), b.drop_last());
    }
}

/// The result of a successful build.
#[derive(Debug)]
pub struct TaskBuildProcessOutput {
    pub uiid: InstanceId,
    pub flags: Vec<Flag>,
    pub files: Vec<OutputKind>,
}

/// Counts the instruction files among the outputs.
pub fn count_readmes(files: &Vec<OutputKind>) -> (r: usize)
    ensures
        r == readme_count(files@),
{
    let mut count: usize = 0;
    let mut i: usize = 0;
    while i < files.len()
        invariant
            i <= files@.len(),
            count <= i,
            count == readme_count(files@.subrange(0, i as int)),
        decreases files.len() - i,
    {
        assert(files@.subrange(0, i + 1).drop_last() =~= files@.subrange(0, i as int));
        if files[i].is_readme_exec() {
            count = count + 1;
        }
        i = i + 1;
    }
    assert(files@.subrange(0, i as int) =~= files@);
    count
}

impl OutputKind {
    pub fn is_readme_exec(&self) -> (r: bool)
        ensures
            r == self.is_readme(),
    {
        match self {
            OutputKind::Readme(_) => true,
            OutputKind::Resource(_) => false,
        }
    }
}

impl TaskBuildProcessOutput {
    /// The aggregate of a build; it must hold exactly one instruction file.
    pub fn new(uuid: InstanceId, flags: Vec<Flag>, files: Vec<OutputKind>) -> (r: Result<Self, BuildError>)
        ensures
            r is Ok <==> readme_count(files@) == 1,
            r matches Ok(o) ==> o.uiid == uuid && o.flags == flags && o.files == files,
            r matches Err(e) ==> e == BuildError::ReadmeCount(readme_count(files@) as usize),
    {
        let readme_count = count_readmes(&files);
        if readme_count != 1 {
            return Err(BuildError::ReadmeCount(readme_count));
        }
        Ok(TaskBuildProcessOutput { uiid: uuid, flags, files })
    }

    /// Paths of the files meant for the player or student: the resources.
    pub fn get_resource_files(&self) -> (r: Vec<String>)
        ensures
            r@ == resource_paths(self.files@),
    {
        let mut r: Vec<String> = Vec::new();
        let mut i: usize = 0;
        while i < self.files.len()
            invariant
                i <= self.files@.len(),
                r@ == resource_paths(self.files@.subrange(0, i as int)),
            decreases self.files.len() - i,
        {
            assert(self.files@.subrange(0, i + 1).drop_last() =~= self.files@.subrange(0, i as int));
            match &self.files[i] {
                OutputKind::Resource(path) => r.push(path.clone()),
                OutputKind::Readme(_) => {},
            }
            i = i + 1;
        }
        assert(self.files@.subrange(0, i as int) =~= self.files@);
        r
    }
}

/// What the builder process is run with, and what its outcome is checked against.
#[derive(Debug)]
pub struct BuildPlan {
    pub instance: InstanceId,
    /// The script the shell runs.
    pub entrypoint: String,
    /// The working directory of the builder.
    pub directory: String,
    /// Where the builder writes, relative to `directory`; created before the run.
    pub output_dir: String,
    /// The builder's whole environment: one variable per flag, then the output directory.
    pub env: Vec<(String, String)>,
    pub flags: Vec<Flag>,
    /// The declared outputs, by filename within `output_dir`.
    pub outputs: Vec<OutputKind>,
}

/// The output directory of a build instance under the output root.
pub open spec fn output_dir_path(root: Seq<char>, instance: Seq<char>) -> Seq<char> {
    root + "/"@ + instance
}

pub open spec fn is_shell(b: Builder) -> bool {
    b is Shell
}

pub open spec fn shell_entrypoint(b: Builder) -> Seq<char> {
    match b {
        Builder::Shell(s) => s.entrypoint@,
        Builder::Nix(_) => Seq::empty(),
    }
}

/// `plan` is what building `task` as `instance` under `root` is run with.
pub open spec fn plan_matches(task: Task, instance: InstanceId, root: Seq<char>, plan: BuildPlan) -> bool {
    let n = plan.flags@.len();
    &&& plan.instance == instance
    &&& plan.entrypoint@ == shell_entrypoint(task.build.builder)
    &&& plan.directory == task.build.directory
    &&& plan.output_dir@ == output_dir_path(root, instance.text_spec())
    &&& plan.outputs@ == task.build.output@
    &&& plan.env@.len() == n + 1
    &&& task_flags_generated(task, instance.text_spec(), plan.flags@, plan.env@.take(n as int))
    &&& plan.env@[n as int].0@ == output_dir_variable_spec()
    &&& plan.env@[n as int].1 == plan.output_dir
}

/// Every variable of the environment has a name of its own.
pub open spec fn env_names_distinct(env: Seq<(String, String)>) -> bool {
    forall|i: int, j: int| 0 <= i < j < env.len() ==> (#[trigger] env[i]).0@ != (#[trigger] env[j]).0@
}

/// Decides everything about building task `task_id` as `instance` before the
/// builder runs: the flags, the environment and the output directory.
pub fn prepare_build(
    course_config: &CourseConfiguration,
    task_id: &String,
    instance: InstanceId,
    output_root: &String,
) -> (r: Result<BuildPlan, BuildError>)
    ensures
        !course_config.has_task(task_id@) ==> r == Err::<BuildPlan, BuildError>(
            BuildError::TaskNotFound(*task_id),
        ),
        course_config.has_task(task_id@) ==> {
            let task = course_config.first_task(task_id@);
            &&& r is Ok <==> stages_valid(task) && stage_ids_distinct(task) && is_shell(
                task.build.builder,
            )
            &&& r matches Ok(plan) ==> plan_matches(task, instance, output_root@, plan)
                && env_names_distinct(plan.env@)
            &&& (stages_valid(task) && stage_ids_distinct(task) && !is_shell(task.build.builder))
                ==> r is Err && r->Err_0 is UnsupportedBuilder
        },
{
    let (w, t) = match course_config.find_task(task_id) {
        Some(found) => found,
        None => {
            return Err(BuildError::TaskNotFound(task_id.clone()));
        },
    };
    proof {
        course_config.lemma_first_task_at(task_id@, w as int, t as int);
    }
    let task = &course_config.weeks[w].tasks[t];
    let text = instance.text();
    let (flags, pairs) = match create_flag_id_pairs_by_task(task, &text) {
        Ok(generated) => generated,
        Err(e) => {
            return Err(e);
        },
    };
    let entrypoint = match &task.build.builder {
        Builder::Shell(shell) => shell.entrypoint.clone(),
        Builder::Nix(name) => {
            return Err(BuildError::UnsupportedBuilder(name.clone()));
        },
    };
    let mut output_dir = output_root.clone();
    output_dir.append("/");
    output_dir.append(text.as_str());
    let mut env = pairs;
    let ghost pairs_view = env@;
    env.push((output_dir_variable(), output_dir.clone()));
    assert(env@.take(flags@.len() as int) =~= pairs_view);
    assert forall|i: int, j: int| 0 <= i < j < env@.len() implies (#[trigger] env@[i]).0@ != (
    #[trigger] env@[j]).0@ by {
        assert(crate::flag::flag_generated(
            crate::flag::stage_id(*task, i)@,
            task.stages@[i].flag,
            text@,
            flags@[i],
        ));
        if j < flags@.len() {
            assert(crate::flag::flag_generated(
                crate::flag::stage_id(*task, j)@,
                task.stages@[j].flag,
                text@,
                flags@[j],
            ));
        }
    }
    let build = task.build.duplicate();
    Ok(
        BuildPlan {
            instance,
            entrypoint,
            directory: build.directory,
            output_dir,
            env,
            flags,
            outputs: build.output,
        },
    )
}

/// Whether output `i` was found: the caller resolved it to an existing path.
pub open spec fn output_present(resolved: Seq<Option<String>>, i: int) -> bool {
    i < resolved.len() && resolved[i] is Some
}

/// Checks the builder's outcome against the plan: a failed run or a missing
/// output fails the build; otherwise the outputs carry their resolved paths,
/// and exactly one of them must be an instruction file.
/// `resolved[i]` is the absolute path of output `i`, or none where it is missing.
pub fn complete_build(
    plan: BuildPlan,
    exit_success: bool,
    stderr: String,
    resolved: Vec<Option<String>>,
) -> (r: Result<TaskBuildProcessOutput, BuildError>)
    ensures
        !exit_success ==> r == Err::<TaskBuildProcessOutput, BuildError>(
            BuildError::NonZeroExit(stderr),
        ),
        exit_success && (exists|i: int|
            0 <= i < plan.outputs@.len() && !#[trigger] output_present(resolved@, i)) ==> exists|i: int|
            {
                &&& 0 <= i < plan.outputs@.len()
                &&& !#[trigger] output_present(resolved@, i)
                &&& forall|k: int| 0 <= k < i ==> output_present(resolved@, k)
                &&& r == Err::<TaskBuildProcessOutput, BuildError>(
                    BuildError::MissingOutput(plan.outputs@[i].filename_spec()),
                )
            },
        exit_success && (forall|i: int|
            0 <= i < plan.outputs@.len() ==> #[trigger] output_present(resolved@, i)) ==> {
            &&& r is Ok <==> readme_count(plan.outputs@) == 1
            &&& r is Err ==> r == Err::<TaskBuildProcessOutput, BuildError>(
                BuildError::ReadmeCount(readme_count(plan.outputs@) as usize),
            )
        },
        r matches Ok(o) ==> {
            &&& o.uiid == plan.instance
            &&& o.flags == plan.flags
            &&& o.files@.len() == plan.outputs@.len()
            &&& forall|i: int|
                0 <= i < o.files@.len() ==> (#[trigger] o.files@[i]).is_readme()
                    == plan.outputs@[i].is_readme() && o.files@[i].filename_spec()
                    == resolved@[i]->0
        },
{
    if !exit_success {
        return Err(BuildError::NonZeroExit(stderr));
    }
    let mut files: Vec<OutputKind> = Vec::new();
    let mut i: usize = 0;
    while i < plan.outputs.len()
        invariant
            exit_success,
            i <= plan.outputs@.len(),
            files@.len() == i,
            forall|k: int| 0 <= k < i ==> output_present(resolved@, k),
            forall|k: int|
                0 <= k < i ==> (#[trigger] files@[k]).is_readme() == plan.outputs@[k].is_readme()
                    && files@[k].filename_spec() == resolved@[k]->0,
        decreases plan.outputs.len() - i,
    {
        if i >= resolved.len() {
            assert(!output_present(resolved@, i as int));
            return Err(BuildError::MissingOutput(plan.outputs[i].get_filename().clone()));
        }
        match &resolved[i] {
            None => {
                assert(!output_present(resolved@, i as int));
                return Err(BuildError::MissingOutput(plan.outputs[i].get_filename().clone()));
            },
            Some(path) => {
                files.push(plan.outputs[i].with_new_path(path.clone()));
            },
        }
        i = i + 1;
    }
    proof {
        lemma_readme_count_by_kind(files@, plan.outputs@);
    }
    TaskBuildProcessOutput::new(plan.instance, plan.flags, files)
}

} // verus!
