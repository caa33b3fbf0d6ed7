//! The course configuration a build reads: weeks, tasks, stages and outputs.
use vstd::prelude::*;

verus! {

/// Parameters of a stage's flag, as written in the configuration.
#[derive(Debug, Clone)]
pub struct FlagSpec {
    pub kind: String,
    pub algorithm: Option<String>,
    pub secret: Option<String>,
    pub length: Option<usize>,
}

#[derive(Debug, Clone)]
pub struct Stage {
    /// Defaults to the owning task's id.
    pub id: Option<String>,
    pub flag: FlagSpec,
}

/// A flag-type template, bound to the subtask whose id equals its own.
#[derive(Debug, Clone)]
pub struct FlagType {
    pub id: String,
    pub algorithm: String,
    pub secret: Option<String>,
    pub length: Option<usize>,
}

#[derive(Debug, Clone)]
pub struct Subtask {
    pub id: String,
    pub flag_type: Option<FlagType>,
}

#[derive(Debug, Clone)]
pub struct ShellBuilder {
    pub entrypoint: String,
}

#[derive(Debug, Clone)]
pub enum Builder {
    Shell(ShellBuilder),
    /// Declared in configurations but not implemented.
    Nix(String),
}

/// A declared output: a filename before the build, a resolved path after it.
#[derive(Debug, Clone)]
pub enum OutputKind {
    Readme(String),
    Resource(String),
}

#[derive(Debug, Clone)]
pub struct BuildConfig {
    pub builder: Builder,
    pub directory: String,
    pub output: Vec<OutputKind>,
}

#[derive(Debug, Clone)]
pub struct Task {
    pub id: String,
    pub stages: Vec<Stage>,
    pub subtasks: Option<Vec<Subtask>>,
    pub flag_types: Vec<FlagType>,
    pub build: BuildConfig,
}

#[derive(Debug, Clone)]
pub struct Week {
    pub number: u8,
    pub tasks: Vec<Task>,
}

#[derive(Debug, Clone)]
pub struct CourseConfiguration {
    pub weeks: Vec<Week>,
}

impl OutputKind {
    pub open spec fn filename_spec(&self) -> String {
        match self {
            OutputKind::Readme(f) => *f,
            OutputKind::Resource(f) => *f,
        }
    }

    pub open spec fn is_readme(&self) -> bool {
        self is Readme
    }

    /// The filename (or path) this output carries.
    pub fn get_filename(&self) -> (r: &String)
        ensures
            *r == self.filename_spec(),
    {
        match self {
            OutputKind::Readme(f) => f,
            OutputKind::Resource(f) => f,
        }
    }

    /// The same kind of output, carrying `path` instead.
    pub fn with_new_path(&self, path: String) -> (r: OutputKind)
        ensures
            r.is_readme() == self.is_readme(),
            r.filename_spec() == path,
    {
        match self {
            OutputKind::Readme(_) => OutputKind::Readme(path),
            OutputKind::Resource(_) => OutputKind::Resource(path),
        }
    }

    /// The name of the output's use case.
    pub fn kind(&self) -> (r: String)
        ensures
            r@ == (if self.is_readme() { "readme"@ } else { "resource"@ }),
    {
        match self {
            OutputKind::Readme(_) => String::from_str("readme"),
            OutputKind::Resource(_) => String::from_str("resource"),
        }
    }

    pub fn duplicate(&self) -> (r: OutputKind)
        ensures
            r == *self,
    {
        match self {
            OutputKind::Readme(f) => OutputKind::Readme(f.clone()),
            OutputKind::Resource(f) => OutputKind::Resource(f.clone()),
        }
    }
}

impl Builder {
    pub fn duplicate(&self) -> (r: Builder)
        ensures
            r == *self,
    {
        match self {
            Builder::Shell(s) => Builder::Shell(ShellBuilder { entrypoint: s.entrypoint.clone() }),
            Builder::Nix(n) => Builder::Nix(n.clone()),
        }
    }
}

/// A copy of an optional string, equal to it.
pub fn duplicate_opt_string(s: &Option<String>) -> (r: Option<String>)
    ensures
        r == *s,
{
    match s {
        Some(v) => Some(v.clone()),
        None => None,
    }
}

impl FlagType {
    pub fn duplicate(&self) -> (r: FlagType)
        ensures
            r == *self,
    {
        FlagType {
            id: self.id.clone(),
            algorithm: self.algorithm.clone(),
            secret: duplicate_opt_string(&self.secret),
            length: self.length,
        }
    }
}

impl BuildConfig {
    pub fn duplicate(&self) -> (r: BuildConfig)
        ensures
            r.builder == self.builder,
            r.directory == self.directory,
            r.output@ == self.output@,
    {
        let mut output: Vec<OutputKind> = Vec::new();
        let mut i: usize = 0;
        while i < self.output.len()
            invariant
                i <= self.output.len(),
                output@ == self.output@.subrange(0, i as int),
            decreases self.output.len() - i,
        {
            output.push(self.output[i].duplicate());
            i = i + 1;
            assert(output@ =~= self.output@.subrange(0, i as int));
        }
        assert(output@ =~= self.output@);
        BuildConfig { builder: self.builder.duplicate(), directory: self.directory.clone(), output }
    }
}

impl CourseConfiguration {
    /// Whether some week holds a task with this id.
    pub open spec fn has_task(&self, id: Seq<char>) -> bool {
        exists|w: int, t: int|
            0 <= w < self.weeks@.len() && 0 <= t < self.weeks@[w].tasks@.len()
                && (#[trigger] self.weeks@[w].tasks@[t]).id@ == id
    }

    /// No task with this id in weeks before `w`, nor before task `t` of week `w`.
    pub open spec fn is_first_task(&self, id: Seq<char>, w: int, t: int) -> bool {
        &&& 0 <= w < self.weeks@.len()
        &&& 0 <= t < self.weeks@[w].tasks@.len()
        &&& self.weeks@[w].tasks@[t].id@ == id
        &&& forall|w2: int, t2: int|
            0 <= w2 < self.weeks@.len() && 0 <= t2 < self.weeks@[w2].tasks@.len() && (w2 < w || (
            w2 == w && t2 < t)) ==> (#[trigger] self.weeks@[w2].tasks@[t2]).id@ != id
    }

    /// The first task with this id; meaningful when `has_task(id)`.
    pub open spec fn first_task(&self, id: Seq<char>) -> Task {
        let (w, t) = choose|w: int, t: int| self.is_first_task(id, w, t);
        self.weeks@[w].tasks@[t]
    }

    /// Only one position is the first with a given id.
    pub proof fn lemma_first_task_unique(&self, id: Seq<char>, w1: int, t1: int, w2: int, t2: int)
        requires
            self.is_first_task(id, w1, t1),
            self.is_first_task(id, w2, t2),
        ensures
            w1 == w2 && t1 == t2,
    {
        if w1 < w2 || (w1 == w2 && t1 < t2) {
            assert(self.weeks@[w1].tasks@[t1].id@ != id);
        } else if w2 < w1 || (w1 == w2 && t2 < t1) {
            assert(self.weeks@[w2].tasks@[t2].id@ != id);
        }
    }

    /// A first position found is the one `first_task` names.
    pub proof fn lemma_first_task_at(&self, id: Seq<char>, w: int, t: int)
        requires
            self.is_first_task(id, w, t),
        ensures
            self.first_task(id) == self.weeks@[w].tasks@[t],
    {
        let (w2, t2) = choose|w2: int, t2: int| self.is_first_task(id, w2, t2);
        self.lemma_first_task_unique(id, w, t, w2, t2);
    }

    /// Position (week, task) of the first task with this id, in configuration order.
    pub fn find_task(&self, task_id: &String) -> (r: Option<(usize, usize)>)
        ensures
            r is None <==> !self.has_task(task_id@),
            r matches Some((w, t)) ==> self.is_first_task(task_id@, w as int, t as int),
    {
        let mut w: usize = 0;
        while w < self.weeks.len()
            invariant
                w <= self.weeks@.len(),
                forall|w2: int, t2: int|
                    0 <= w2 < w && 0 <= t2 < self.weeks@[w2].tasks@.len()
                        ==> (#[trigger] self.weeks@[w2].tasks@[t2]).id@ != task_id@,
            decreases self.weeks.len() - w,
        {
            let tasks = &self.weeks[w].tasks;
            let mut t: usize = 0;
            while t < tasks.len()
                invariant
                    w < self.weeks@.len(),
                    *tasks == self.weeks@[w as int].tasks,
                    t <= tasks@.len(),
                    forall|w2: int, t2: int|
                        0 <= w2 < self.weeks@.len() && 0 <= t2 < self.weeks@[w2].tasks@.len() && (
                        w2 < w || (w2 == w && t2 < t)) ==> (#[trigger] self.weeks@[w2].tasks@[t2]).id@
                            != task_id@,
                decreases tasks.len() - t,
            {
                if tasks[t].id == *task_id {
                    return Some((w, t));
                }
                t = t + 1;
            }
            w = w + 1;
        }
        None
    }

    /// The first task with this id, in configuration order.
    pub fn get_task_by_id(&self, task_id: &String) -> (r: Option<&Task>)
        ensures
            r is None <==> !self.has_task(task_id@),
            r matches Some(task) ==> *task == self.first_task(task_id@),
    {
        match self.find_task(task_id) {
            Some((w, t)) => {
                proof {
                    self.lemma_first_task_at(task_id@, w as int, t as int);
                }
                Some(&self.weeks[w].tasks[t])
            },
            None => None,
        }
    }
}

/// The build settings of the first task with this id. The configuration is
/// left as it is.
pub fn get_build_info(course_config: &mut CourseConfiguration, task_id: String) -> (r: Result<
    BuildConfig,
    String,
>)
    ensures
        *final(course_config) == *old(course_config),
        r is Err <==> !old(course_config).has_task(task_id@),
        r matches Err(m) ==> m@ == "Build information for task with id "@ + task_id@ + " not found!"@,
        r matches Ok(b) ==> {
            let task = old(course_config).first_task(task_id@);
            &&& b.builder == task.build.builder
            &&& b.directory == task.build.directory
            &&& b.output@ == task.build.output@
        },
{
    match course_config.find_task(&task_id) {
        Some((w, t)) => {
            proof {
                course_config.lemma_first_task_at(task_id@, w as int, t as int);
            }
            Ok(course_config.weeks[w].tasks[t].build.duplicate())
        },
        None => Err(missing_build_message(&task_id)),
    }
}

/// The message naming the task whose build settings were not found.
pub fn missing_build_message(task_id: &String) -> (r: String)
    ensures
        r@ == "Build information for task with id "@ + task_id@ + " not found!"@,
{
    let mut m = String::from_str("Build information for task with id ");
    m.append(task_id.as_str());
    m.append(" not found!");
    m
}

} // verus!
