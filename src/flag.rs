//! Flag derivation: a secret value per stage, tied to one build instance.
use crate::config::{FlagSpec, Task};
use crate::error::BuildError;
use crate::primitives::{
    hex_encode, hex_text, hmac_sha256, hmac_sha256_of, is_ascii_alphanumeric, random_alphanumeric,
};
use vstd::prelude::*;

verus! {

#[derive(Debug, Clone, Copy, PartialEq, Eq)]
pub enum FlagKind {
    /// A keyed hash of the secret, the stage id and the instance id.
    UserDerived,
    /// A random alphanumeric string, independent of the instance.
    PureRandom,
    /// Derived as `UserDerived`; the builder uses it to seed its own randomness.
    RngSeed,
}

/// A generated flag. Its id is also the name of its environment variable.
#[derive(Debug, Clone)]
pub struct Flag {
    pub id: String,
    pub kind: FlagKind,
    pub value: String,
}

/// The name of the variable that tells the builder where to write.
pub open spec fn output_dir_variable_spec() -> Seq<char> {
    "OUTPUT_DIR"@
}

pub fn output_dir_variable() -> (r: String)
    ensures
        r@ == output_dir_variable_spec(),
{
    String::from_str("OUTPUT_DIR")
}

/// The flag kind a configuration string names, if any.
pub open spec fn kind_from(s: Seq<char>) -> Option<FlagKind> {
    if s == "user_derived"@ {
        Some(FlagKind::UserDerived)
    } else if s == "pure_random"@ {
        Some(FlagKind::PureRandom)
    } else if s == "rng_seed"@ {
        Some(FlagKind::RngSeed)
    } else {
        None
    }
}

pub fn parse_flag_kind(s: &String) -> (r: Option<FlagKind>)
    ensures
        r == kind_from(s@),
{
    if *s == String::from_str("user_derived") {
        Some(FlagKind::UserDerived)
    } else if *s == String::from_str("pure_random") {
        Some(FlagKind::PureRandom)
    } else if *s == String::from_str("rng_seed") {
        Some(FlagKind::RngSeed)
    } else {
        None
    }
}

/// The one hash algorithm derived flags support.
pub open spec fn supported_algorithm() -> Seq<char> {
    "sha256"@
}

/// The message that is hashed for a stage in a build instance.
pub open spec fn flag_message(stage_id: Seq<char>, instance: Seq<char>) -> Seq<char> {
    stage_id + ":"@ + instance
}

/// The value of a derived flag: the hex HMAC-SHA256 of the message under the secret.
pub open spec fn derived_value(secret: Seq<char>, stage_id: Seq<char>, instance: Seq<char>) -> Seq<
    char,
> {
    hex_text(hmac_sha256_of(secret, flag_message(stage_id, instance)))
}

/// Whether a flag declaration names a known kind with the parameters it needs.
pub open spec fn flag_spec_valid(f: FlagSpec) -> bool {
    match kind_from(f.kind@) {
        None => false,
        Some(FlagKind::PureRandom) => f.length is Some,
        Some(_) => f.algorithm is Some && f.algorithm->0@ == supported_algorithm() && f.secret is Some,
    }
}

/// The error an invalid flag declaration of stage `id` is reported with.
pub open spec fn flag_spec_error(id: String, f: FlagSpec) -> BuildError {
    match kind_from(f.kind@) {
        None => BuildError::UnknownFlagKind(f.kind),
        Some(FlagKind::PureRandom) => BuildError::MissingFlagParameter(id),
        Some(_) => if f.algorithm is None {
            BuildError::MissingFlagParameter(id)
        } else if f.algorithm->0@ != supported_algorithm() {
            BuildError::UnsupportedAlgorithm(f.algorithm->0)
        } else {
            BuildError::MissingFlagParameter(id)
        },
    }
}

/// Whether `flag` is what stage `id` with declaration `f` yields in build `instance`.
pub open spec fn flag_generated(id: Seq<char>, f: FlagSpec, instance: Seq<char>, flag: Flag) -> bool {
    &&& flag.id@ == id
    &&& kind_from(f.kind@) == Some(flag.kind)
    &&& match flag.kind {
        FlagKind::PureRandom => flag.value@.len() == f.length->0 && forall|i: int|
            0 <= i < flag.value@.len() ==> is_ascii_alphanumeric(#[trigger] flag.value@[i]),
        _ => flag.value@ == derived_value(f.secret->0@, id, instance),
    }
}

impl Flag {
    /// A derived flag: the keyed hash of `secret`, `stage_id` and `instance`.
    pub fn new_user_flag(id: String, kind: FlagKind, secret: &String, stage_id: &String, instance: &String) -> (r: Flag)
        ensures
            r.id == id,
            r.kind == kind,
            r.value@ == derived_value(secret@, stage_id@, instance@),
    {
        let mut message = stage_id.clone();
        message.append(":");
        message.append(instance.as_str());
        let tag = hmac_sha256(secret.as_str(), message.as_str());
        Flag { id, kind, value: hex_encode(&tag) }
    }

    /// A random flag of `length` alphanumeric characters.
    pub fn new_random_flag(id: String, length: usize) -> (r: Flag)
        ensures
            r.id == id,
            r.kind == FlagKind::PureRandom,
            r.value@.len() == length,
            forall|i: int| 0 <= i < r.value@.len() ==> is_ascii_alphanumeric(#[trigger] r.value@[i]),
    {
        Flag { id, kind: FlagKind::PureRandom, value: random_alphanumeric(length) }
    }

    /// The (variable name, value) pair the builder sees.
    pub fn get_flag_type_value_pair(&self) -> (r: (String, String))
        ensures
            r.0 == self.id,
            r.1 == self.value,
    {
        (self.id.clone(), self.value.clone())
    }
}

/// Generates the flag of stage `id` from its declaration, for build `instance`.
pub fn generate_flag(id: &String, f: &FlagSpec, instance: &String) -> (r: Result<Flag, BuildError>)
    ensures
        r is Ok <==> flag_spec_valid(*f),
        r matches Ok(flag) ==> flag_generated(id@, *f, instance@, flag),
        r matches Err(e) ==> e == flag_spec_error(*id, *f),
{
    match parse_flag_kind(&f.kind) {
        None => Err(BuildError::UnknownFlagKind(f.kind.clone())),
        Some(FlagKind::PureRandom) => match f.length {
            Some(length) => Ok(Flag::new_random_flag(id.clone(), length)),
            None => Err(BuildError::MissingFlagParameter(id.clone())),
        },
        Some(kind) => match &f.algorithm {
            None => Err(BuildError::MissingFlagParameter(id.clone())),
            Some(algorithm) => {
                if *algorithm != String::from_str("sha256") {
                    Err(BuildError::UnsupportedAlgorithm(algorithm.clone()))
                } else {
                    match &f.secret {
                        Some(secret) => Ok(Flag::new_user_flag(id.clone(), kind, secret, id, instance)),
                        None => Err(BuildError::MissingFlagParameter(id.clone())),
                    }
                }
            },
        },
    }
}

/// The id of stage `i` of a task: its own, or else the task's.
pub open spec fn stage_id(task: Task, i: int) -> String {
    match task.stages@[i].id {
        Some(id) => id,
        None => task.id,
    }
}

/// Every stage declares a valid flag.
pub open spec fn stages_valid(task: Task) -> bool {
    forall|i: int| 0 <= i < task.stages@.len() ==> flag_spec_valid(#[trigger] task.stages@[i].flag)
}

/// The stages' flag ids are pairwise distinct and none is the output-directory variable.
pub open spec fn stage_ids_distinct(task: Task) -> bool {
    &&& forall|i: int, j: int|
        0 <= i < j < task.stages@.len() ==> (#[trigger] stage_id(task, i))@ != (#[trigger] stage_id(
            task,
            j,
        ))@
    &&& forall|i: int|
        0 <= i < task.stages@.len() ==> (#[trigger] stage_id(task, i))@ != output_dir_variable_spec()
}

/// Whether `flags` and `pairs` are what the stages of `task` yield in build `instance`.
pub open spec fn task_flags_generated(
    task: Task,
    instance: Seq<char>,
    flags: Seq<Flag>,
    pairs: Seq<(String, String)>,
) -> bool {
    &&& flags.len() == task.stages@.len()
    &&& pairs.len() == flags.len()
    &&& forall|i: int|
        0 <= i < flags.len() ==> flag_generated(
            stage_id(task, i)@,
            task.stages@[i].flag,
            instance,
            #[trigger] flags[i],
        )
    &&& forall|i: int|
        0 <= i < flags.len() ==> (#[trigger] pairs[i]).0 == flags[i].id && pairs[i].1 == flags[i].value
}

/// The flags of every stage of a task, with the (variable, value) pairs for the builder.
/// Fails on an invalid declaration or on two flags that would share an id.
pub fn create_flag_id_pairs_by_task(task_config: &Task, instance: &String) -> (r: Result<
    (Vec<Flag>, Vec<(String, String)>),
    BuildError,
>)
    ensures
        r is Ok <==> stages_valid(*task_config) && stage_ids_distinct(*task_config),
        r matches Ok((flags, pairs)) ==> task_flags_generated(
            *task_config,
            instance@,
            flags@,
            pairs@,
        ),
        r matches Err(e) ==> (exists|i: int|
            0 <= i < task_config.stages@.len() && !flag_spec_valid(
                #[trigger] task_config.stages@[i].flag,
            ) && e == flag_spec_error(stage_id(*task_config, i), task_config.stages@[i].flag))
            || e is DuplicateFlagId,
{
    let mut flags: Vec<Flag> = Vec::new();
    let mut pairs: Vec<(String, String)> = Vec::new();
    let reserved = output_dir_variable();
    let mut i: usize = 0;
    while i < task_config.stages.len()
        invariant
            i <= task_config.stages@.len(),
            reserved@ == output_dir_variable_spec(),
            flags@.len() == i,
            pairs@.len() == i,
            forall|k: int|
                0 <= k < i ==> flag_generated(
                    stage_id(*task_config, k)@,
                    task_config.stages@[k].flag,
                    instance@,
                    #[trigger] flags@[k],
                ),
            forall|k: int|
                0 <= k < i ==> (#[trigger] pairs@[k]).0 == flags@[k].id && pairs@[k].1
                    == flags@[k].value,
            forall|k: int| 0 <= k < i ==> flag_spec_valid(#[trigger] task_config.stages@[k].flag),
            forall|a: int, b: int|
                0 <= a < b < i ==> (#[trigger] stage_id(*task_config, a))@ != (#[trigger] stage_id(
                    *task_config,
                    b,
                ))@,
            forall|k: int| 0 <= k < i ==> (#[trigger] stage_id(*task_config, k))@ != output_dir_variable_spec(),
        decreases task_config.stages.len() - i,
    {
        let stage = &task_config.stages[i];
        let id = match &stage.id {
            Some(stage_id) => stage_id.clone(),
            None => task_config.id.clone(),
        };
        assert(id == stage_id(*task_config, i as int));
        if id == reserved {
            return Err(BuildError::DuplicateFlagId(id));
        }
        assert forall|k: int| 0 <= k < i implies (#[trigger] flags@[k]).id@ == stage_id(
            *task_config,
            k,
        )@ by {
            assert(flag_generated(
                stage_id(*task_config, k)@,
                task_config.stages@[k].flag,
                instance@,
                flags@[k],
            ));
        }
        let mut j: usize = 0;
        while j < i
            invariant
                j <= i,
                i < task_config.stages@.len(),
                id == stage_id(*task_config, i as int),
                i == flags@.len(),
                forall|k: int| 0 <= k < i ==> (#[trigger] flags@[k]).id@ == stage_id(*task_config, k)@,
                forall|k: int| 0 <= k < j ==> (#[trigger] stage_id(*task_config, k))@ != id@,
            decreases i - j,
        {
            if flags[j].id == id {
                assert(stage_id(*task_config, j as int)@ == stage_id(*task_config, i as int)@);
                return Err(BuildError::DuplicateFlagId(id));
            }
            j = j + 1;
        }
        let flag = match generate_flag(&id, &stage.flag, instance) {
            Ok(flag) => flag,
            Err(e) => {
                return Err(e);
            },
        };
        pairs.push(flag.get_flag_type_value_pair());
        flags.push(flag);
        i = i + 1;
    }
    Ok((flags, pairs))
}

} // verus!
