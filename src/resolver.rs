//! Binds each subtask to the flag-type template of its task that shares its id.
use crate::config::{CourseConfiguration, FlagType, Subtask, Task, Week};
use crate::error::BuildError;
use vstd::prelude::*;

verus! {

/// Some template has this id.
pub open spec fn has_match(types: Seq<FlagType>, id: Seq<char>) -> bool {
    exists|k: int| 0 <= k < types.len() && (#[trigger] types[k]).id@ == id
}

/// `b` is the first template with this id, or none when no template has it.
pub open spec fn is_first_match(types: Seq<FlagType>, id: Seq<char>, b: Option<FlagType>) -> bool {
    match b {
        None => !has_match(types, id),
        Some(ft) => exists|k: int|
            0 <= k < types.len() && #[trigger] types[k] == ft && ft.id@ == id && forall|k2: int|
                0 <= k2 < k ==> (#[trigger] types[k2]).id@ != id,
    }
}

/// `new` is `old` with every subtask bound to its first matching template.
pub open spec fn task_resolved(old: Task, new: Task) -> bool {
    &&& new.id == old.id
    &&& new.stages == old.stages
    &&& new.flag_types == old.flag_types
    &&& new.build == old.build
    &&& old.subtasks is None ==> new.subtasks is None
    &&& old.subtasks is Some ==> {
        &&& new.subtasks is Some
        &&& new.subtasks->0@.len() == old.subtasks->0@.len()
        &&& forall|i: int|
            0 <= i < old.subtasks->0@.len() ==> (#[trigger] new.subtasks->0@[i]).id
                == old.subtasks->0@[i].id && is_first_match(
                old.flag_types@,
                old.subtasks->0@[i].id@,
                new.subtasks->0@[i].flag_type,
            )
    }
}

/// How many of `subs` no template of `types` matches.
pub open spec fn unmatched_count(types: Seq<FlagType>, subs: Seq<Subtask>) -> nat
    decreases subs.len(),
{
    if subs.len() == 0 {
        0
    } else {
        unmatched_count(types, subs.drop_last()) + if has_match(types, subs.last().id@) {
            0nat
        } else {
            1nat
        }
    }
}

/// How many subtasks of a task no template of that task matches.
pub open spec fn task_unmatched(t: Task) -> nat {
    match t.subtasks {
        None => 0,
        Some(subs) => unmatched_count(t.flag_types@, subs@),
    }
}

/// How many subtasks of these tasks are left unbound.
pub open spec fn tasks_unmatched(tasks: Seq<Task>) -> nat
    decreases tasks.len(),
{
    if tasks.len() == 0 {
        0
    } else {
        tasks_unmatched(tasks.drop_last()) + task_unmatched(tasks.last())
    }
}

/// How many subtasks of these weeks are left unbound.
pub open spec fn weeks_unmatched(weeks: Seq<Week>) -> nat
    decreases weeks.len(),
{
    if weeks.len() == 0 {
        0
    } else {
        weeks_unmatched(weeks.drop_last()) + tasks_unmatched(weeks.last().tasks@)
    }
}

/// A count, capped at the largest `usize`.
pub open spec fn capped(n: nat) -> usize {
    if n > usize::MAX {
        usize::MAX
    } else {
        n as usize
    }
}

fn add_capped(a: usize, b: usize) -> (r: usize)
    ensures
        r == capped((a + b) as nat),
{
    if a > usize::MAX - b {
        usize::MAX
    } else {
        a + b
    }
}

/// The first template with this id, if any.
pub fn find_flag_type(types: &Vec<FlagType>, id: &String) -> (r: Option<FlagType>)
    ensures
        is_first_match(types@, id@, r),
{
    let mut k: usize = 0;
    while k < types.len()
        invariant
            k <= types@.len(),
            forall|k2: int| 0 <= k2 < k ==> (#[trigger] types@[k2]).id@ != id@,
        decreases types.len() - k,
    {
        if types[k].id == *id {
            let r = types[k].duplicate();
            assert(types@[k as int] == r);
            return Some(r);
        }
        k = k + 1;
    }
    None
}

/// Binds every subtask of one task; returns how many found no template.
pub fn resolve_task(task: &mut Task) -> (skipped: usize)
    ensures
        task_resolved(*old(task), *final(task)),
        skipped == task_unmatched(*old(task)),
{
    let taken = task.subtasks.take();
    match taken {
        None => 0,
        Some(subs) => {
            let mut resolved: Vec<Subtask> = Vec::new();
            let mut skipped: usize = 0;
            let mut i: usize = 0;
            while i < subs.len()
                invariant
                    i <= subs@.len(),
                    task.flag_types == old(task).flag_types,
                    old(task).subtasks == Some(subs),
                    resolved@.len() == i,
                    skipped <= i,
                    skipped == unmatched_count(task.flag_types@, subs@.subrange(0, i as int)),
                    forall|k: int|
                        0 <= k < i ==> (#[trigger] resolved@[k]).id == subs@[k].id && is_first_match(
                            task.flag_types@,
                            subs@[k].id@,
                            resolved@[k].flag_type,
                        ),
                decreases subs.len() - i,
            {
                let binding = find_flag_type(&task.flag_types, &subs[i].id);
                assert(subs@.subrange(0, i + 1).drop_last() =~= subs@.subrange(0, i as int));
                if binding.is_none() {
                    skipped = skipped + 1;
                }
                resolved.push(Subtask { id: subs[i].id.clone(), flag_type: binding });
                i = i + 1;
            }
            assert(subs@.subrange(0, i as int) =~= subs@);
            task.subtasks = Some(resolved);
            skipped
        },
    }
}

/// `new` is `old` with every task resolved.
pub open spec fn week_resolved(old: Week, new: Week) -> bool {
    &&& new.number == old.number
    &&& new.tasks@.len() == old.tasks@.len()
    &&& forall|t: int| 0 <= t < old.tasks@.len() ==> task_resolved(old.tasks@[t], #[trigger] new.tasks@[t])
}

/// Week `w` is the first with this number.
pub open spec fn is_first_week(config: CourseConfiguration, number: u8, w: int) -> bool {
    &&& 0 <= w < config.weeks@.len()
    &&& config.weeks@[w].number == number
    &&& forall|w2: int| 0 <= w2 < w ==> (#[trigger] config.weeks@[w2]).number != number
}

pub open spec fn has_week(config: CourseConfiguration, number: u8) -> bool {
    exists|w: int| 0 <= w < config.weeks@.len() && (#[trigger] config.weeks@[w]).number == number
}

/// Task `t` is the first of `tasks` with this id.
pub open spec fn is_first_in_week(tasks: Seq<Task>, id: Seq<char>, t: int) -> bool {
    &&& 0 <= t < tasks.len()
    &&& tasks[t].id@ == id
    &&& forall|t2: int| 0 <= t2 < t ==> (#[trigger] tasks[t2]).id@ != id
}

pub open spec fn week_has_task(tasks: Seq<Task>, id: Seq<char>) -> bool {
    exists|t: int| 0 <= t < tasks.len() && (#[trigger] tasks[t]).id@ == id
}

/// Resolves every task of a week; returns how many subtasks were left unbound.
pub fn resolve_week(week: &mut Week) -> (skipped: usize)
    ensures
        week_resolved(*old(week), *final(week)),
        skipped == capped(tasks_unmatched(old(week).tasks@)),
{
    let mut total: usize = 0;
    let mut i: usize = 0;
    while i < week.tasks.len()
        invariant
            i <= week.tasks@.len(),
            week.number == old(week).number,
            week.tasks@.len() == old(week).tasks@.len(),
            forall|k: int| 0 <= k < i ==> task_resolved(old(week).tasks@[k], #[trigger] week.tasks@[k]),
            forall|k: int| i <= k < week.tasks@.len() ==> #[trigger] week.tasks@[k] == old(week).tasks@[k],
            total == capped(tasks_unmatched(old(week).tasks@.subrange(0, i as int))),
        decreases week.tasks.len() - i,
    {
        let mut task = week.tasks.remove(i);
        let c = resolve_task(&mut task);
        week.tasks.insert(i, task);
        assert(old(week).tasks@.subrange(0, i + 1).drop_last() =~= old(week).tasks@.subrange(0, i as int));
        total = add_capped(total, c);
        i = i + 1;
    }
    assert(old(week).tasks@.subrange(0, i as int) =~= old(week).tasks@);
    total
}

/// Position of the first week with this number.
pub fn find_week(config: &CourseConfiguration, number: u8) -> (r: Option<usize>)
    ensures
        r is None <==> !has_week(*config, number),
        r matches Some(w) ==> is_first_week(*config, number, w as int),
{
    let mut w: usize = 0;
    while w < config.weeks.len()
        invariant
            w <= config.weeks@.len(),
            forall|w2: int| 0 <= w2 < w ==> (#[trigger] config.weeks@[w2]).number != number,
        decreases config.weeks.len() - w,
    {
        if config.weeks[w].number == number {
            return Some(w);
        }
        w = w + 1;
    }
    None
}

/// Position of the first task of a week with this id.
pub fn find_task_in_week(week: &Week, task_id: &String) -> (r: Option<usize>)
    ensures
        r is None <==> !week_has_task(week.tasks@, task_id@),
        r matches Some(t) ==> is_first_in_week(week.tasks@, task_id@, t as int),
{
    let mut t: usize = 0;
    while t < week.tasks.len()
        invariant
            t <= week.tasks@.len(),
            forall|t2: int| 0 <= t2 < t ==> (#[trigger] week.tasks@[t2]).id@ != task_id@,
        decreases week.tasks.len() - t,
    {
        if week.tasks[t].id == *task_id {
            return Some(t);
        }
        t = t + 1;
    }
    None
}

/// Binds the subtasks of one task: the first with `task_id` in the first week
/// numbered `week_number`. Nothing else changes. Returns how many subtasks
/// found no template.
pub fn identify_flag_types_for_task(
    course_config: &mut CourseConfiguration,
    week_number: u8,
    task_id: &String,
) -> (r: Result<usize, BuildError>)
    ensures
        r is Ok <==> exists|w: int|
            is_first_week(*old(course_config), week_number, w) && week_has_task(
                #[trigger] old(course_config).weeks@[w].tasks@,
                task_id@,
            ),
        r == Err::<usize, BuildError>(BuildError::WeekNotFound(week_number)) <==> !has_week(
            *old(course_config),
            week_number,
        ),
        r is Err ==> *final(course_config) == *old(course_config),
        r matches Ok(skipped) ==> exists|w: int, t: int|
            {
                &&& is_first_week(*old(course_config), week_number, w)
                &&& is_first_in_week(old(course_config).weeks@[w].tasks@, task_id@, t)
                &&& final(course_config).weeks@.len() == old(course_config).weeks@.len()
                &&& forall|w2: int|
                    0 <= w2 < old(course_config).weeks@.len() && w2 != w ==> #[trigger] final(course_config).weeks@[w2] == old(course_config).weeks@[w2]
                &&& final(course_config).weeks@[w].number == old(course_config).weeks@[w].number
                &&& final(course_config).weeks@[w].tasks@.len()
                    == old(course_config).weeks@[w].tasks@.len()
                &&& forall|t2: int|
                    0 <= t2 < old(course_config).weeks@[w].tasks@.len() && t2 != t ==> #[trigger] final(course_config).weeks@[w].tasks@[t2] == old(course_config).weeks@[w].tasks@[t2]
                &&& task_resolved(
                    old(course_config).weeks@[w].tasks@[t],
                    final(course_config).weeks@[w].tasks@[t],
                )
                &&& skipped == task_unmatched(old(course_config).weeks@[w].tasks@[t])
            },
{
    let w = match find_week(course_config, week_number) {
        Some(w) => w,
        None => {
            return Err(BuildError::WeekNotFound(week_number));
        },
    };
    let t = match find_task_in_week(&course_config.weeks[w], task_id) {
        Some(t) => t,
        None => {
            assert forall|w2: int|
                is_first_week(*old(course_config), week_number, w2) implies !week_has_task(
                #[trigger] old(course_config).weeks@[w2].tasks@,
                task_id@,
            ) by {
                assert(w2 == w);
            }
            return Err(BuildError::TaskNotFound(task_id.clone()));
        },
    };
    let mut week = course_config.weeks.remove(w);
    let mut task = week.tasks.remove(t);
    let skipped = resolve_task(&mut task);
    week.tasks.insert(t, task);
    course_config.weeks.insert(w, week);
    assert(is_first_week(*old(course_config), week_number, w as int));
    Ok(skipped)
}

/// Binds the subtasks of every task of the first week numbered `week_number`.
/// Other weeks do not change. Returns how many subtasks found no template.
pub fn identify_flag_types_for_week(course_config: &mut CourseConfiguration, week_number: u8) -> (r:
    Result<usize, BuildError>)
    ensures
        r is Err <==> !has_week(*old(course_config), week_number),
        r is Err ==> r == Err::<usize, BuildError>(BuildError::WeekNotFound(week_number))
            && *final(course_config) == *old(course_config),
        r matches Ok(skipped) ==> exists|w: int|
            {
                &&& is_first_week(*old(course_config), week_number, w)
                &&& final(course_config).weeks@.len() == old(course_config).weeks@.len()
                &&& forall|w2: int|
                    0 <= w2 < old(course_config).weeks@.len() && w2 != w ==> #[trigger] final(course_config).weeks@[w2] == old(course_config).weeks@[w2]
                &&& week_resolved(old(course_config).weeks@[w], final(course_config).weeks@[w])
                &&& skipped == capped(tasks_unmatched(old(course_config).weeks@[w].tasks@))
            },
{
    match find_week(course_config, week_number) {
        None => Err(BuildError::WeekNotFound(week_number)),
        Some(w) => {
            let mut week = course_config.weeks.remove(w);
            let skipped = resolve_week(&mut week);
            course_config.weeks.insert(w, week);
            assert(is_first_week(*old(course_config), week_number, w as int));
            Ok(skipped)
        },
    }
}

/// Binds the subtasks of every task of the configuration. Returns how many
/// subtasks found no template.
pub fn identify_all_flag_types(course_config: &mut CourseConfiguration) -> (skipped: usize)
    ensures
        final(course_config).weeks@.len() == old(course_config).weeks@.len(),
        forall|w: int|
            0 <= w < old(course_config).weeks@.len() ==> week_resolved(
                old(course_config).weeks@[w],
                #[trigger] final(course_config).weeks@[w],
            ),
        skipped == capped(weeks_unmatched(old(course_config).weeks@)),
{
    let mut total: usize = 0;
    let mut i: usize = 0;
    while i < course_config.weeks.len()
        invariant
            i <= course_config.weeks@.len(),
            course_config.weeks@.len() == old(course_config).weeks@.len(),
            forall|k: int|
                0 <= k < i ==> week_resolved(old(course_config).weeks@[k], #[trigger] course_config.weeks@[k]),
            forall|k: int|
                i <= k < course_config.weeks@.len() ==> #[trigger] course_config.weeks@[k]
                    == old(course_config).weeks@[k],
            total == capped(weeks_unmatched(old(course_config).weeks@.subrange(0, i as int))),
        decreases course_config.weeks.len() - i,
    {
        let mut week = course_config.weeks.remove(i);
        let c = resolve_week(&mut week);
        course_config.weeks.insert(i, week);
        assert(old(course_config).weeks@.subrange(0, i + 1).drop_last() =~= old(
            course_config,
        ).weeks@.subrange(0, i as int));
        total = add_capped(total, c);
        i = i + 1;
    }
    assert(old(course_config).weeks@.subrange(0, i as int) =~= old(course_config).weeks@);
    total
}

} // verus!
