//! Laws that relate several builds of the same task.
use crate::build_process::{output_dir_path, plan_matches, BuildPlan};
use crate::config::Task;
use crate::flag::{flag_generated, flag_message, stage_id, FlagKind};
use crate::instance::InstanceId;
use crate::primitives::{digit_index, hex_digit, hyphenated_text, is_hyphen_position, nibble};
use vstd::prelude::*;

verus! {

proof fn lemma_nibble_range(v: u128, s: u128)
    ensures
        (v >> s) & 15u128 <= 15u128,
{
    assert((v >> s) & 15u128 <= 15u128) by (bit_vector);
}

proof fn lemma_hex_digit_injective(n: int, m: int)
    requires
        0 <= n < 16,
        0 <= m < 16,
        hex_digit(n) == hex_digit(m),
    ensures
        n == m,
{
}

/// Two UUIDs with the same hyphenated text are the same UUID.
pub proof fn lemma_hyphenated_injective(a: u128, b: u128)
    requires
        hyphenated_text(a) == hyphenated_text(b),
    ensures
        a == b,
{
    assert forall|k: int| 0 <= k < 32 implies nibble(a, k) == nibble(b, k) by {
        let p = if k < 8 {
            k
        } else if k < 12 {
            k + 1
        } else if k < 16 {
            k + 2
        } else if k < 20 {
            k + 3
        } else {
            k + 4
        };
        assert(digit_index(p) == k && !is_hyphen_position(p));
        assert(hyphenated_text(a)[p] == hyphenated_text(b)[p]);
        assert(hyphenated_text(a)[p] == hex_digit(nibble(a, digit_index(p))));
        assert(hyphenated_text(b)[p] == hex_digit(nibble(b, digit_index(p))));
        lemma_nibble_range(a, (4 * (31 - k)) as u128);
        lemma_nibble_range(b, (4 * (31 - k)) as u128);
        lemma_hex_digit_injective(nibble(a, k), nibble(b, k));
    }
    assert(nibble(a, 0) == nibble(b, 0));
    assert(nibble(a, 1) == nibble(b, 1));
    assert(nibble(a, 2) == nibble(b, 2));
    assert(nibble(a, 3) == nibble(b, 3));
    assert(nibble(a, 4) == nibble(b, 4));
    assert(nibble(a, 5) == nibble(b, 5));
    assert(nibble(a, 6) == nibble(b, 6));
    assert(nibble(a, 7) == nibble(b, 7));
    assert(nibble(a, 8) == nibble(b, 8));
    assert(nibble(a, 9) == nibble(b, 9));
    assert(nibble(a, 10) == nibble(b, 10));
    assert(nibble(a, 11) == nibble(b, 11));
    assert(nibble(a, 12) == nibble(b, 12));
    assert(nibble(a, 13) == nibble(b, 13));
    assert(nibble(a, 14) == nibble(b, 14));
    assert(nibble(a, 15) == nibble(b, 15));
    assert(nibble(a, 16) == nibble(b, 16));
    assert(nibble(a, 17) == nibble(b, 17));
    assert(nibble(a, 18) == nibble(b, 18));
    assert(nibble(a, 19) == nibble(b, 19));
    assert(nibble(a, 20) == nibble(b, 20));
    assert(nibble(a, 21) == nibble(b, 21));
    assert(nibble(a, 22) == nibble(b, 22));
    assert(nibble(a, 23) == nibble(b, 23));
    assert(nibble(a, 24) == nibble(b, 24));
    assert(nibble(a, 25) == nibble(b, 25));
    assert(nibble(a, 26) == nibble(b, 26));
    assert(nibble(a, 27) == nibble(b, 27));
    assert(nibble(a, 28) == nibble(b, 28));
    assert(nibble(a, 29) == nibble(b, 29));
    assert(nibble(a, 30) == nibble(b, 30));
    assert(nibble(a, 31) == nibble(b, 31));
    assert(a == b) by (bit_vector)
        requires
            (a >> 124u128) & 15u128 == (b >> 124u128) & 15u128,
            (a >> 120u128) & 15u128 == (b >> 120u128) & 15u128,
            (a >> 116u128) & 15u128 == (b >> 116u128) & 15u128,
            (a >> 112u128) & 15u128 == (b >> 112u128) & 15u128,
            (a >> 108u128) & 15u128 == (b >> 108u128) & 15u128,
            (a >> 104u128) & 15u128 == (b >> 104u128) & 15u128,
            (a >> 100u128) & 15u128 == (b >> 100u128) & 15u128,
            (a >> 96u128) & 15u128 == (b >> 96u128) & 15u128,
            (a >> 92u128) & 15u128 == (b >> 92u128) & 15u128,
            (a >> 88u128) & 15u128 == (b >> 88u128) & 15u128,
            (a >> 84u128) & 15u128 == (b >> 84u128) & 15u128,
            (a >> 80u128) & 15u128 == (b >> 80u128) & 15u128,
            (a >> 76u128) & 15u128 == (b >> 76u128) & 15u128,
            (a >> 72u128) & 15u128 == (b >> 72u128) & 15u128,
            (a >> 68u128) & 15u128 == (b >> 68u128) & 15u128,
            (a >> 64u128) & 15u128 == (b >> 64u128) & 15u128,
            (a >> 60u128) & 15u128 == (b >> 60u128) & 15u128,
            (a >> 56u128) & 15u128 == (b >> 56u128) & 15u128,
            (a >> 52u128) & 15u128 == (b >> 52u128) & 15u128,
            (a >> 48u128) & 15u128 == (b >> 48u128) & 15u128,
            (a >> 44u128) & 15u128 == (b >> 44u128) & 15u128,
            (a >> 40u128) & 15u128 == (b >> 40u128) & 15u128,
            (a >> 36u128) & 15u128 == (b >> 36u128) & 15u128,
            (a >> 32u128) & 15u128 == (b >> 32u128) & 15u128,
            (a >> 28u128) & 15u128 == (b >> 28u128) & 15u128,
            (a >> 24u128) & 15u128 == (b >> 24u128) & 15u128,
            (a >> 20u128) & 15u128 == (b >> 20u128) & 15u128,
            (a >> 16u128) & 15u128 == (b >> 16u128) & 15u128,
            (a >> 12u128) & 15u128 == (b >> 12u128) & 15u128,
            (a >> 8u128) & 15u128 == (b >> 8u128) & 15u128,
            (a >> 4u128) & 15u128 == (b >> 4u128) & 15u128,
            (a >> 0u128) & 15u128 == (b >> 0u128) & 15u128,
    ;
}

/// Builds of one task under two different instance ids write to two different
/// directories of the same depth, neither inside the other, and every derived
/// flag hashes a different message in each.
pub proof fn lemma_instances_isolated(
    task: Task,
    root: Seq<char>,
    a: InstanceId,
    b: InstanceId,
    plan_a: BuildPlan,
    plan_b: BuildPlan,
)
    requires
        a != b,
        plan_matches(task, a, root, plan_a),
        plan_matches(task, b, root, plan_b),
    ensures
        plan_a.output_dir@ != plan_b.output_dir@,
        plan_a.output_dir@.len() == plan_b.output_dir@.len(),
        forall|i: int|
            0 <= i < task.stages@.len() ==> flag_message(#[trigger] stage_id(task, i)@, a.text_spec())
                != flag_message(stage_id(task, i)@, b.text_spec()),
{
    if hyphenated_text(a.value) == hyphenated_text(b.value) {
        lemma_hyphenated_injective(a.value, b.value);
    }
    reveal_strlit("/");
    reveal_strlit(":");
    let ta = a.text_spec();
    let tb = b.text_spec();
    if output_dir_path(root, ta) == output_dir_path(root, tb) {
        assert(output_dir_path(root, ta).subrange(root.len() + 1int, root.len() + 37int) =~= ta);
        assert(output_dir_path(root, tb).subrange(root.len() + 1int, root.len() + 37int) =~= tb);
    }
    assert forall|i: int| 0 <= i < task.stages@.len() implies flag_message(
        #[trigger] stage_id(task, i)@,
        ta,
    ) != flag_message(stage_id(task, i)@, tb) by {
        let s = stage_id(task, i)@;
        if flag_message(s, ta) == flag_message(s, tb) {
            assert(flag_message(s, ta).subrange(s.len() + 1int, s.len() + 37int) =~= ta);
            assert(flag_message(s, tb).subrange(s.len() + 1int, s.len() + 37int) =~= tb);
        }
    }
}

/// Building one task twice under the same instance id yields the same output
/// directory, the same flag ids and kinds, and the same derived flag values.
pub proof fn lemma_rebuild_deterministic(
    task: Task,
    root: Seq<char>,
    instance: InstanceId,
    plan_1: BuildPlan,
    plan_2: BuildPlan,
)
    requires
        plan_matches(task, instance, root, plan_1),
        plan_matches(task, instance, root, plan_2),
    ensures
        plan_1.output_dir@ == plan_2.output_dir@,
        plan_1.flags@.len() == plan_2.flags@.len(),
        forall|i: int|
            0 <= i < plan_1.flags@.len() ==> (#[trigger] plan_1.flags@[i]).id@ == plan_2.flags@[i].id@
                && plan_1.flags@[i].kind == plan_2.flags@[i].kind && (plan_1.flags@[i].kind
                != FlagKind::PureRandom ==> plan_1.flags@[i].value@ == plan_2.flags@[i].value@),
{
    assert forall|i: int| 0 <= i < plan_1.flags@.len() implies (#[trigger] plan_1.flags@[i]).id@
        == plan_2.flags@[i].id@ && plan_1.flags@[i].kind == plan_2.flags@[i].kind && (
    plan_1.flags@[i].kind != FlagKind::PureRandom ==> plan_1.flags@[i].value@
        == plan_2.flags@[i].value@) by {
        assert(flag_generated(stage_id(task, i)@, task.stages@[i].flag, instance.text_spec(), plan_1.flags@[i]));
        assert(flag_generated(stage_id(task, i)@, task.stages@[i].flag, instance.text_spec(), plan_2.flags@[i]));
    }
}

} // verus!
