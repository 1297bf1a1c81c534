//! Proofs, one byte value at a time, that the trie of [`crate::tables`]
//! inverts the syllable table, and that every syllable is made of one to
//! four lowercase letters.  Each case names the nodes its walk visits,
//! bridges the XOR transitions by the alignment lemma, and lets the solver
//! evaluate each step over the concrete table entries.

use vstd::prelude::*;
use crate::tables::spec_syllable;
use crate::syllables::Node;
use crate::syllables::spec_child;
use crate::syllables::spec_walk;
use crate::syllables::spec_root;
use crate::syllables::spec_node_value;
use crate::syllables::all_lower;
use crate::syllables::syllable_walk_ok;
use crate::syllables::syllable_wf;
use crate::syllables::lemma_walk_step;

verus! {

/// On a base value aligned to a 32-entry block, XOR with a transition
/// code below 32 is plain addition; this is what makes the double-array
/// layout collision-free inside a block.
pub proof fn lemma_xor_low5(b: u32, c: u32)
    requires
        b % 32 == 0,
        b < 3936,
        c < 32,
    ensures
        b ^ c == b + c,
{
    assert(b % 32 == 0 && b < 3936 && c < 32 ==> (b ^ c) == b + c) by (bit_vector);
}

proof fn table_case_0()
    ensures
        syllable_walk_ok(0u8),
        syllable_wf(0u8),
{
    reveal_with_fuel(all_lower, 6);
        let s = spec_syllable(0u8);
        assert(s =~= seq![97u8]);
        lemma_xor_low5(0u32, 1u32);
        let n1 = Node { id: 1u32, base: 0u32, is_leaf: true, has_value: true };
        assert(spec_child(spec_root(), 97u8) == Some(n1));
        lemma_walk_step(spec_root(), seq![97u8], n1);
        assert(seq![97u8].drop_first() =~= Seq::<u8>::empty());
        assert(spec_walk(n1, Seq::<u8>::empty()) == Some(n1));
        assert(spec_node_value(n1) == Some(0u8));
        assert(syllable_walk_ok(0u8));
    assert(syllable_wf(0u8));
}

proof fn table_case_1()
    ensures
        syllable_walk_ok(1u8),
        syllable_wf(1u8),
{
    reveal_with_fuel(all_lower, 6);
        let s = spec_syllable(1u8);
        assert(s =~= seq![101u8]);
        lemma_xor_low5(0u32, 5u32);
        let n1 = Node { id: 5u32, base: 1u32, is_leaf: true, has_value: true };
        assert(spec_child(spec_root(), 101u8) == Some(n1));
        lemma_walk_step(spec_root(), seq![101u8], n1);
        assert(seq![101u8].drop_first() =~= Seq::<u8>::empty());
        assert(spec_walk(n1, Seq::<u8>::empty()) == Some(n1));
        assert(spec_node_value(n1) == Some(1u8));
        assert(syllable_walk_ok(1u8));
    assert(syllable_wf(1u8));
}

proof fn table_case_2()
    ensures
        syllable_walk_ok(2u8),
        syllable_wf(2u8),
{
    reveal_with_fuel(all_lower, 6);
        let s = spec_syllable(2u8);
        assert(s =~= seq![105u8]);
        lemma_xor_low5(0u32, 9u32);
        let n1 = Node { id: 9u32, base: 2u32, is_leaf: true, has_value: true };
        assert(spec_child(spec_root(), 105u8) == Some(n1));
        lemma_walk_step(spec_root(), seq![105u8], n1);
        assert(seq![105u8].drop_first() =~= Seq::<u8>::empty());
        assert(spec_walk(n1, Seq::<u8>::empty()) == Some(n1));
        assert(spec_node_value(n1) == Some(2u8));
        assert(syllable_walk_ok(2u8));
    assert(syllable_wf(2u8));
}

proof fn table_case_3()
    ensures
        syllable_walk_ok(3u8),
        syllable_wf(3u8),
{
    reveal_with_fuel(all_lower, 6);
        let s = spec_syllable(3u8);
        assert(s =~= seq![111u8]);
        lemma_xor_low5(0u32, 15u32);
        let n1 = Node { id: 15u32, base: 3u32, is_leaf: true, has_value: true };
        assert(spec_child(spec_root(), 111u8) == Some(n1));
        lemma_walk_step(spec_root(), seq![111u8], n1);
        assert(seq![111u8].drop_first() =~= Seq::<u8>::empty());
        assert(spec_walk(n1, Seq::<u8>::empty()) == Some(n1));
        assert(spec_node_value(n1) == Some(3u8));
        assert(syllable_walk_ok(3u8));
    assert(syllable_wf(3u8));
}

proof fn table_case_4()
    ensures
        syllable_walk_ok(4u8),
        syllable_wf(4u8),
{
    reveal_with_fuel(all_lower, 6);
        let s = spec_syllable(4u8);
        assert(s =~= seq![117u8]);
        lemma_xor_low5(0u32, 21u32);
        let n1 = Node { id: 21u32, base: 4u32, is_leaf: true, has_value: true };
        assert(spec_child(spec_root(), 117u8) == Some(n1));
        lemma_walk_step(spec_root(), seq![117u8], n1);
        assert(seq![117u8].drop_first() =~= Seq::<u8>::empty());
        assert(spec_walk(n1, Seq::<u8>::empty()) == Some(n1));
        assert(spec_node_value(n1) == Some(4u8));
        assert(syllable_walk_ok(4u8));
    assert(syllable_wf(4u8));
}

proof fn table_case_5()
    ensures
        syllable_walk_ok(5u8),
        syllable_wf(5u8),
{
    reveal_with_fuel(all_lower, 6);
        let s = spec_syllable(5u8);
        assert(s =~= seq![98u8, 97u8]);
        lemma_xor_low5(0u32, 2u32);
        let n1 = Node { id: 2u32, base: 32u32, is_leaf: false, has_value: false };
        assert(spec_child(spec_root(), 98u8) == Some(n1));
        lemma_walk_step(spec_root(), seq![98u8, 97u8], n1);
        assert(seq![98u8, 97u8].drop_first() =~= seq![97u8]);
        lemma_xor_low5(32u32, 1u32);
        let n2 = Node { id: 33u32, base: 672u32, is_leaf: false, has_value: true };
        assert(spec_child(n1, 97u8) == Some(n2));
        lemma_walk_step(n1, seq![97u8], n2);
        assert(seq![97u8].drop_first() =~= Seq::<u8>::empty());
        assert(spec_walk(n2, Seq::<u8>::empty()) == Some(n2));
        assert(spec_node_value(n2) == Some(5u8));
        assert(syllable_walk_ok(5u8));
    assert(syllable_wf(5u8));
}

proof fn table_case_6()
    ensures
        syllable_walk_ok(6u8),
        syllable_wf(6u8),
{
    reveal_with_fuel(all_lower, 6);
        let s = spec_syllable(6u8);
        assert(s =~= seq![98u8, 101u8]);
        lemma_xor_low5(0u32, 2u32);
        let n1 = Node { id: 2u32, base: 32u32, is_leaf: false, has_value: false };
        assert(spec_child(spec_root(), 98u8) == Some(n1));
        lemma_walk_step(spec_root(), seq![98u8, 101u8], n1);
        assert(seq![98u8, 101u8].drop_first() =~= seq![101u8]);
        lemma_xor_low5(32u32, 5u32);
        let n2 = Node { id: 37u32, base: 704u32, is_leaf: false, has_value: true };
        assert(spec_child(n1, 101u8) == Some(n2));
        lemma_walk_step(n1, seq![101u8], n2);
        assert(seq![101u8].drop_first() =~= Seq::<u8>::empty());
        assert(spec_walk(n2, Seq::<u8>::empty()) == Some(n2));
        assert(spec_node_value(n2) == Some(6u8));
        assert(syllable_walk_ok(6u8));
    assert(syllable_wf(6u8));
}

proof fn table_case_7()
    ensures
        syllable_walk_ok(7u8),
        syllable_wf(7u8),
{
    reveal_with_fuel(all_lower, 6);
        let s = spec_syllable(7u8);
        assert(s =~= seq![98u8, 105u8]);
        lemma_xor_low5(0u32, 2u32);
        let n1 = Node { id: 2u32, base: 32u32, is_leaf: false, has_value: false };
        assert(spec_child(spec_root(), 98u8) == Some(n1));
        lemma_walk_step(spec_root(), seq![98u8, 105u8], n1);
        assert(seq![98u8, 105u8].drop_first() =~= seq![105u8]);
        lemma_xor_low5(32u32, 9u32);
        let n2 = Node { id: 41u32, base: 736u32, is_leaf: false, has_value: true };
        assert(spec_child(n1, 105u8) == Some(n2));
        lemma_walk_step(n1, seq![105u8], n2);
        assert(seq![105u8].drop_first() =~= Seq::<u8>::empty());
        assert(spec_walk(n2, Seq::<u8>::empty()) == Some(n2));
        assert(spec_node_value(n2) == Some(7u8));
        assert(syllable_walk_ok(7u8));
    assert(syllable_wf(7u8));
}

proof fn table_case_8()
    ensures
        syllable_walk_ok(8u8),
        syllable_wf(8u8),
{
    reveal_with_fuel(all_lower, 6);
        let s = spec_syllable(8u8);
        assert(s =~= seq![98u8, 111u8]);
        lemma_xor_low5(0u32, 2u32);
        let n1 = Node { id: 2u32, base: 32u32, is_leaf: false, has_value: false };
        assert(spec_child(spec_root(), 98u8) == Some(n1));
        lemma_walk_step(spec_root(), seq![98u8, 111u8], n1);
        assert(seq![98u8, 111u8].drop_first() =~= seq![111u8]);
        lemma_xor_low5(32u32, 15u32);
        let n2 = Node { id: 47u32, base: 768u32, is_leaf: false, has_value: true };
        assert(spec_child(n1, 111u8) == Some(n2));
        lemma_walk_step(n1, seq![111u8], n2);
        assert(seq![111u8].drop_first() =~= Seq::<u8>::empty());
        assert(spec_walk(n2, Seq::<u8>::empty()) == Some(n2));
        assert(spec_node_value(n2) == Some(8u8));
        assert(syllable_walk_ok(8u8));
    assert(syllable_wf(8u8));
}

proof fn table_case_9()
    ensures
        syllable_walk_ok(9u8),
        syllable_wf(9u8),
{
    reveal_with_fuel(all_lower, 6);
        let s = spec_syllable(9u8);
        assert(s =~= seq![98u8, 117u8]);
        lemma_xor_low5(0u32, 2u32);
        let n1 = Node { id: 2u32, base: 32u32, is_leaf: false, has_value: false };
        assert(spec_child(spec_root(), 98u8) == Some(n1));
        lemma_walk_step(spec_root(), seq![98u8, 117u8], n1);
        assert(seq![98u8, 117u8].drop_first() =~= seq![117u8]);
        lemma_xor_low5(32u32, 21u32);
        let n2 = Node { id: 53u32, base: 800u32, is_leaf: false, has_value: true };
        assert(spec_child(n1, 117u8) == Some(n2));
        lemma_walk_step(n1, seq![117u8], n2);
        assert(seq![117u8].drop_first() =~= Seq::<u8>::empty());
        assert(spec_walk(n2, Seq::<u8>::empty()) == Some(n2));
        assert(spec_node_value(n2) == Some(9u8));
        assert(syllable_walk_ok(9u8));
    assert(syllable_wf(9u8));
}

proof fn table_case_10()
    ensures
        syllable_walk_ok(10u8),
        syllable_wf(10u8),
{
    reveal_with_fuel(all_lower, 6);
        let s = spec_syllable(10u8);
        assert(s =~= seq![99u8, 97u8]);
        lemma_xor_low5(0u32, 3u32);
        let n1 = Node { id: 3u32, base: 64u32, is_leaf: false, has_value: false };
        assert(spec_child(spec_root(), 99u8) == Some(n1));
        lemma_walk_step(spec_root(), seq![99u8, 97u8], n1);
        assert(seq![99u8, 97u8].drop_first() =~= seq![97u8]);
        lemma_xor_low5(64u32, 1u32);
        let n2 = Node { id: 65u32, base: 832u32, is_leaf: false, has_value: true };
        assert(spec_child(n1, 97u8) == Some(n2));
        lemma_walk_step(n1, seq![97u8], n2);
        assert(seq![97u8].drop_first() =~= Seq::<u8>::empty());
        assert(spec_walk(n2, Seq::<u8>::empty()) == Some(n2));
        assert(spec_node_value(n2) == Some(10u8));
        assert(syllable_walk_ok(10u8));
    assert(syllable_wf(10u8));
}

proof fn table_case_11()
    ensures
        syllable_walk_ok(11u8),
        syllable_wf(11u8),
{
    reveal_with_fuel(all_lower, 6);
        let s = spec_syllable(11u8);
        assert(s =~= seq![99u8, 101u8]);
        lemma_xor_low5(0u32, 3u32);
        let n1 = Node { id: 3u32, base: 64u32, is_leaf: false, has_value: false };
        assert(spec_child(spec_root(), 99u8) == Some(n1));
        lemma_walk_step(spec_root(), seq![99u8, 101u8], n1);
        assert(seq![99u8, 101u8].drop_first() =~= seq![101u8]);
        lemma_xor_low5(64u32, 5u32);
        let n2 = Node { id: 69u32, base: 864u32, is_leaf: false, has_value: true };
        assert(spec_child(n1, 101u8) == Some(n2));
        lemma_walk_step(n1, seq![101u8], n2);
        assert(seq![101u8].drop_first() =~= Seq::<u8>::empty());
        assert(spec_walk(n2, Seq::<u8>::empty()) == Some(n2));
        assert(spec_node_value(n2) == Some(11u8));
        assert(syllable_walk_ok(11u8));
    assert(syllable_wf(11u8));
}

proof fn table_case_12()
    ensures
        syllable_walk_ok(12u8),
        syllable_wf(12u8),
{
    reveal_with_fuel(all_lower, 6);
        let s = spec_syllable(12u8);
        assert(s =~= seq![99u8, 105u8]);
        lemma_xor_low5(0u32, 3u32);
        let n1 = Node { id: 3u32, base: 64u32, is_leaf: false, has_value: false };
        assert(spec_child(spec_root(), 99u8) == Some(n1));
        lemma_walk_step(spec_root(), seq![99u8, 105u8], n1);
        assert(seq![99u8, 105u8].drop_first() =~= seq![105u8]);
        lemma_xor_low5(64u32, 9u32);
        let n2 = Node { id: 73u32, base: 896u32, is_leaf: false, has_value: true };
        assert(spec_child(n1, 105u8) == Some(n2));
        lemma_walk_step(n1, seq![105u8], n2);
        assert(seq![105u8].drop_first() =~= Seq::<u8>::empty());
        assert(spec_walk(n2, Seq::<u8>::empty()) == Some(n2));
        assert(spec_node_value(n2) == Some(12u8));
        assert(syllable_walk_ok(12u8));
    assert(syllable_wf(12u8));
}

proof fn table_case_13()
    ensures
        syllable_walk_ok(13u8),
        syllable_wf(13u8),
{
    reveal_with_fuel(all_lower, 6);
        let s = spec_syllable(13u8);
        assert(s =~= seq![99u8, 111u8]);
        lemma_xor_low5(0u32, 3u32);
        let n1 = Node { id: 3u32, base: 64u32, is_leaf: false, has_value: false };
        assert(spec_child(spec_root(), 99u8) == Some(n1));
        lemma_walk_step(spec_root(), seq![99u8, 111u8], n1);
        assert(seq![99u8, 111u8].drop_first() =~= seq![111u8]);
        lemma_xor_low5(64u32, 15u32);
        let n2 = Node { id: 79u32, base: 928u32, is_leaf: false, has_value: true };
        assert(spec_child(n1, 111u8) == Some(n2));
        lemma_walk_step(n1, seq![111u8], n2);
        assert(seq![111u8].drop_first() =~= Seq::<u8>::empty());
        assert(spec_walk(n2, Seq::<u8>::empty()) == Some(n2));
        assert(spec_node_value(n2) == Some(13u8));
        assert(syllable_walk_ok(13u8));
    assert(syllable_wf(13u8));
}

proof fn table_case_14()
    ensures
        syllable_walk_ok(14u8),
        syllable_wf(14u8),
{
    reveal_with_fuel(all_lower, 6);
        let s = spec_syllable(14u8);
        assert(s =~= seq![99u8, 117u8]);
        lemma_xor_low5(0u32, 3u32);
        let n1 = Node { id: 3u32, base: 64u32, is_leaf: false, has_value: false };
        assert(spec_child(spec_root(), 99u8) == Some(n1));
        lemma_walk_step(spec_root(), seq![99u8, 117u8], n1);
        assert(seq![99u8, 117u8].drop_first() =~= seq![117u8]);
        lemma_xor_low5(64u32, 21u32);
        let n2 = Node { id: 85u32, base: 960u32, is_leaf: false, has_value: true };
        assert(spec_child(n1, 117u8) == Some(n2));
        lemma_walk_step(n1, seq![117u8], n2);
        assert(seq![117u8].drop_first() =~= Seq::<u8>::empty());
        assert(spec_walk(n2, Seq::<u8>::empty()) == Some(n2));
        assert(spec_node_value(n2) == Some(14u8));
        assert(syllable_walk_ok(14u8));
    assert(syllable_wf(14u8));
}

proof fn table_case_15()
    ensures
        syllable_walk_ok(15u8),
        syllable_wf(15u8),
{
    reveal_with_fuel(all_lower, 6);
        let s = spec_syllable(15u8);
        assert(s =~= seq![100u8, 97u8]);
        lemma_xor_low5(0u32, 4u32);
        let n1 = Node { id: 4u32, base: 96u32, is_leaf: false, has_value: false };
        assert(spec_child(spec_root(), 100u8) == Some(n1));
        lemma_walk_step(spec_root(), seq![100u8, 97u8], n1);
        assert(seq![100u8, 97u8].drop_first() =~= seq![97u8]);
        lemma_xor_low5(96u32, 1u32);
        let n2 = Node { id: 97u32, base: 992u32, is_leaf: false, has_value: true };
        assert(spec_child(n1, 97u8) == Some(n2));
        lemma_walk_step(n1, seq![97u8], n2);
        assert(seq![97u8].drop_first() =~= Seq::<u8>::empty());
        assert(spec_walk(n2, Seq::<u8>::empty()) == Some(n2));
        assert(spec_node_value(n2) == Some(15u8));
        assert(syllable_walk_ok(15u8));
    assert(syllable_wf(15u8));
}

proof fn table_case_16()
    ensures
        syllable_walk_ok(16u8),
        syllable_wf(16u8),
{
    reveal_with_fuel(all_lower, 6);
        let s = spec_syllable(16u8);
        assert(s =~= seq![100u8, 101u8]);
        lemma_xor_low5(0u32, 4u32);
        let n1 = Node { id: 4u32, base: 96u32, is_leaf: false, has_value: false };
        assert(spec_child(spec_root(), 100u8) == Some(n1));
        lemma_walk_step(spec_root(), seq![100u8, 101u8], n1);
        assert(seq![100u8, 101u8].drop_first() =~= seq![101u8]);
        lemma_xor_low5(96u32, 5u32);
        let n2 = Node { id: 101u32, base: 1024u32, is_leaf: false, has_value: true };
        assert(spec_child(n1, 101u8) == Some(n2));
        lemma_walk_step(n1, seq![101u8], n2);
        assert(seq![101u8].drop_first() =~= Seq::<u8>::empty());
        assert(spec_walk(n2, Seq::<u8>::empty()) == Some(n2));
        assert(spec_node_value(n2) == Some(16u8));
        assert(syllable_walk_ok(16u8));
    assert(syllable_wf(16u8));
}

proof fn table_case_17()
    ensures
        syllable_walk_ok(17u8),
        syllable_wf(17u8),
{
    reveal_with_fuel(all_lower, 6);
        let s = spec_syllable(17u8);
        assert(s =~= seq![100u8, 105u8]);
        lemma_xor_low5(0u32, 4u32);
        let n1 = Node { id: 4u32, base: 96u32, is_leaf: false, has_value: false };
        assert(spec_child(spec_root(), 100u8) == Some(n1));
        lemma_walk_step(spec_root(), seq![100u8, 105u8], n1);
        assert(seq![100u8, 105u8].drop_first() =~= seq![105u8]);
        lemma_xor_low5(96u32, 9u32);
        let n2 = Node { id: 105u32, base: 1056u32, is_leaf: false, has_value: true };
        assert(spec_child(n1, 105u8) == Some(n2));
        lemma_walk_step(n1, seq![105u8], n2);
        assert(seq![105u8].drop_first() =~= Seq::<u8>::empty());
        assert(spec_walk(n2, Seq::<u8>::empty()) == Some(n2));
        assert(spec_node_value(n2) == Some(17u8));
        assert(syllable_walk_ok(17u8));
    assert(syllable_wf(17u8));
}

proof fn table_case_18()
    ensures
        syllable_walk_ok(18u8),
        syllable_wf(18u8),
{
    reveal_with_fuel(all_lower, 6);
        let s = spec_syllable(18u8);
        assert(s =~= seq![100u8, 111u8]);
        lemma_xor_low5(0u32, 4u32);
        let n1 = Node { id: 4u32, base: 96u32, is_leaf: false, has_value: false };
        assert(spec_child(spec_root(), 100u8) == Some(n1));
        lemma_walk_step(spec_root(), seq![100u8, 111u8], n1);
        assert(seq![100u8, 111u8].drop_first() =~= seq![111u8]);
        lemma_xor_low5(96u32, 15u32);
        let n2 = Node { id: 111u32, base: 1088u32, is_leaf: false, has_value: true };
        assert(spec_child(n1, 111u8) == Some(n2));
        lemma_walk_step(n1, seq![111u8], n2);
        assert(seq![111u8].drop_first() =~= Seq::<u8>::empty());
        assert(spec_walk(n2, Seq::<u8>::empty()) == Some(n2));
        assert(spec_node_value(n2) == Some(18u8));
        assert(syllable_walk_ok(18u8));
    assert(syllable_wf(18u8));
}

proof fn table_case_19()
    ensures
        syllable_walk_ok(19u8),
        syllable_wf(19u8),
{
    reveal_with_fuel(all_lower, 6);
        let s = spec_syllable(19u8);
        assert(s =~= seq![100u8, 117u8]);
        lemma_xor_low5(0u32, 4u32);
        let n1 = Node { id: 4u32, base: 96u32, is_leaf: false, has_value: false };
        assert(spec_child(spec_root(), 100u8) == Some(n1));
        lemma_walk_step(spec_root(), seq![100u8, 117u8], n1);
        assert(seq![100u8, 117u8].drop_first() =~= seq![117u8]);
        lemma_xor_low5(96u32, 21u32);
        let n2 = Node { id: 117u32, base: 1120u32, is_leaf: false, has_value: true };
        assert(spec_child(n1, 117u8) == Some(n2));
        lemma_walk_step(n1, seq![117u8], n2);
        assert(seq![117u8].drop_first() =~= Seq::<u8>::empty());
        assert(spec_walk(n2, Seq::<u8>::empty()) == Some(n2));
        assert(spec_node_value(n2) == Some(19u8));
        assert(syllable_walk_ok(19u8));
    assert(syllable_wf(19u8));
}

proof fn table_case_20()
    ensures
        syllable_walk_ok(20u8),
        syllable_wf(20u8),
{
    reveal_with_fuel(all_lower, 6);
        let s = spec_syllable(20u8);
        assert(s =~= seq![102u8, 97u8]);
        lemma_xor_low5(0u32, 6u32);
        let n1 = Node { id: 6u32, base: 128u32, is_leaf: false, has_value: false };
        assert(spec_child(spec_root(), 102u8) == Some(n1));
        lemma_walk_step(spec_root(), seq![102u8, 97u8], n1);
        assert(seq![102u8, 97u8].drop_first() =~= seq![97u8]);
        lemma_xor_low5(128u32, 1u32);
        let n2 = Node { id: 129u32, base: 1152u32, is_leaf: false, has_value: true };
        assert(spec_child(n1, 97u8) == Some(n2));
        lemma_walk_step(n1, seq![97u8], n2);
        assert(seq![97u8].drop_first() =~= Seq::<u8>::empty());
        assert(spec_walk(n2, Seq::<u8>::empty()) == Some(n2));
        assert(spec_node_value(n2) == Some(20u8));
        assert(syllable_walk_ok(20u8));
    assert(syllable_wf(20u8));
}

proof fn table_case_21()
    ensures
        syllable_walk_ok(21u8),
        syllable_wf(21u8),
{
    reveal_with_fuel(all_lower, 6);
        let s = spec_syllable(21u8);
        assert(s =~= seq![102u8, 101u8]);
        lemma_xor_low5(0u32, 6u32);
        let n1 = Node { id: 6u32, base: 128u32, is_leaf: false, has_value: false };
        assert(spec_child(spec_root(), 102u8) == Some(n1));
        lemma_walk_step(spec_root(), seq![102u8, 101u8], n1);
        assert(seq![102u8, 101u8].drop_first() =~= seq![101u8]);
        lemma_xor_low5(128u32, 5u32);
        let n2 = Node { id: 133u32, base: 1184u32, is_leaf: false, has_value: true };
        assert(spec_child(n1, 101u8) == Some(n2));
        lemma_walk_step(n1, seq![101u8], n2);
        assert(seq![101u8].drop_first() =~= Seq::<u8>::empty());
        assert(spec_walk(n2, Seq::<u8>::empty()) == Some(n2));
        assert(spec_node_value(n2) == Some(21u8));
        assert(syllable_walk_ok(21u8));
    assert(syllable_wf(21u8));
}

proof fn table_case_22()
    ensures
        syllable_walk_ok(22u8),
        syllable_wf(22u8),
{
    reveal_with_fuel(all_lower, 6);
        let s = spec_syllable(22u8);
        assert(s =~= seq![102u8, 105u8]);
        lemma_xor_low5(0u32, 6u32);
        let n1 = Node { id: 6u32, base: 128u32, is_leaf: false, has_value: false };
        assert(spec_child(spec_root(), 102u8) == Some(n1));
        lemma_walk_step(spec_root(), seq![102u8, 105u8], n1);
        assert(seq![102u8, 105u8].drop_first() =~= seq![105u8]);
        lemma_xor_low5(128u32, 9u32);
        let n2 = Node { id: 137u32, base: 1216u32, is_leaf: false, has_value: true };
        assert(spec_child(n1, 105u8) == Some(n2));
        lemma_walk_step(n1, seq![105u8], n2);
        assert(seq![105u8].drop_first() =~= Seq::<u8>::empty());
        assert(spec_walk(n2, Seq::<u8>::empty()) == Some(n2));
        assert(spec_node_value(n2) == Some(22u8));
        assert(syllable_walk_ok(22u8));
    assert(syllable_wf(22u8));
}

proof fn table_case_23()
    ensures
        syllable_walk_ok(23u8),
        syllable_wf(23u8),
{
    reveal_with_fuel(all_lower, 6);
        let s = spec_syllable(23u8);
        assert(s =~= seq![102u8, 111u8]);
        lemma_xor_low5(0u32, 6u32);
        let n1 = Node { id: 6u32, base: 128u32, is_leaf: false, has_value: false };
        assert(spec_child(spec_root(), 102u8) == Some(n1));
        lemma_walk_step(spec_root(), seq![102u8, 111u8], n1);
        assert(seq![102u8, 111u8].drop_first() =~= seq![111u8]);
        lemma_xor_low5(128u32, 15u32);
        let n2 = Node { id: 143u32, base: 1248u32, is_leaf: false, has_value: true };
        assert(spec_child(n1, 111u8) == Some(n2));
        lemma_walk_step(n1, seq![111u8], n2);
        assert(seq![111u8].drop_first() =~= Seq::<u8>::empty());
        assert(spec_walk(n2, Seq::<u8>::empty()) == Some(n2));
        assert(spec_node_value(n2) == Some(23u8));
        assert(syllable_walk_ok(23u8));
    assert(syllable_wf(23u8));
}

proof fn table_case_24()
    ensures
        syllable_walk_ok(24u8),
        syllable_wf(24u8),
{
    reveal_with_fuel(all_lower, 6);
        let s = spec_syllable(24u8);
        assert(s =~= seq![102u8, 117u8]);
        lemma_xor_low5(0u32, 6u32);
        let n1 = Node { id: 6u32, base: 128u32, is_leaf: false, has_value: false };
        assert(spec_child(spec_root(), 102u8) == Some(n1));
        lemma_walk_step(spec_root(), seq![102u8, 117u8], n1);
        assert(seq![102u8, 117u8].drop_first() =~= seq![117u8]);
        lemma_xor_low5(128u32, 21u32);
        let n2 = Node { id: 149u32, base: 1280u32, is_leaf: false, has_value: true };
        assert(spec_child(n1, 117u8) == Some(n2));
        lemma_walk_step(n1, seq![117u8], n2);
        assert(seq![117u8].drop_first() =~= Seq::<u8>::empty());
        assert(spec_walk(n2, Seq::<u8>::empty()) == Some(n2));
        assert(spec_node_value(n2) == Some(24u8));
        assert(syllable_walk_ok(24u8));
    assert(syllable_wf(24u8));
}

proof fn table_case_25()
    ensures
        syllable_walk_ok(25u8),
        syllable_wf(25u8),
{
    reveal_with_fuel(all_lower, 6);
        let s = spec_syllable(25u8);
        assert(s =~= seq![103u8, 97u8]);
        lemma_xor_low5(0u32, 7u32);
        let n1 = Node { id: 7u32, base: 160u32, is_leaf: false, has_value: false };
        assert(spec_child(spec_root(), 103u8) == Some(n1));
        lemma_walk_step(spec_root(), seq![103u8, 97u8], n1);
        assert(seq![103u8, 97u8].drop_first() =~= seq![97u8]);
        lemma_xor_low5(160u32, 1u32);
        let n2 = Node { id: 161u32, base: 1312u32, is_leaf: false, has_value: true };
        assert(spec_child(n1, 97u8) == Some(n2));
        lemma_walk_step(n1, seq![97u8], n2);
        assert(seq![97u8].drop_first() =~= Seq::<u8>::empty());
        assert(spec_walk(n2, Seq::<u8>::empty()) == Some(n2));
        assert(spec_node_value(n2) == Some(25u8));
        assert(syllable_walk_ok(25u8));
    assert(syllable_wf(25u8));
}

proof fn table_case_26()
    ensures
        syllable_walk_ok(26u8),
        syllable_wf(26u8),
{
    reveal_with_fuel(all_lower, 6);
        let s = spec_syllable(26u8);
        assert(s =~= seq![103u8, 101u8]);
        lemma_xor_low5(0u32, 7u32);
        let n1 = Node { id: 7u32, base: 160u32, is_leaf: false, has_value: false };
        assert(spec_child(spec_root(), 103u8) == Some(n1));
        lemma_walk_step(spec_root(), seq![103u8, 101u8], n1);
        assert(seq![103u8, 101u8].drop_first() =~= seq![101u8]);
        lemma_xor_low5(160u32, 5u32);
        let n2 = Node { id: 165u32, base: 1344u32, is_leaf: false, has_value: true };
        assert(spec_child(n1, 101u8) == Some(n2));
        lemma_walk_step(n1, seq![101u8], n2);
        assert(seq![101u8].drop_first() =~= Seq::<u8>::empty());
        assert(spec_walk(n2, Seq::<u8>::empty()) == Some(n2));
        assert(spec_node_value(n2) == Some(26u8));
        assert(syllable_walk_ok(26u8));
    assert(syllable_wf(26u8));
}

proof fn table_case_27()
    ensures
        syllable_walk_ok(27u8),
        syllable_wf(27u8),
{
    reveal_with_fuel(all_lower, 6);
        let s = spec_syllable(27u8);
        assert(s =~= seq![103u8, 105u8]);
        lemma_xor_low5(0u32, 7u32);
        let n1 = Node { id: 7u32, base: 160u32, is_leaf: false, has_value: false };
        assert(spec_child(spec_root(), 103u8) == Some(n1));
        lemma_walk_step(spec_root(), seq![103u8, 105u8], n1);
        assert(seq![103u8, 105u8].drop_first() =~= seq![105u8]);
        lemma_xor_low5(160u32, 9u32);
        let n2 = Node { id: 169u32, base: 1376u32, is_leaf: false, has_value: true };
        assert(spec_child(n1, 105u8) == Some(n2));
        lemma_walk_step(n1, seq![105u8], n2);
        assert(seq![105u8].drop_first() =~= Seq::<u8>::empty());
        assert(spec_walk(n2, Seq::<u8>::empty()) == Some(n2));
        assert(spec_node_value(n2) == Some(27u8));
        assert(syllable_walk_ok(27u8));
    assert(syllable_wf(27u8));
}

proof fn table_case_28()
    ensures
        syllable_walk_ok(28u8),
        syllable_wf(28u8),
{
    reveal_with_fuel(all_lower, 6);
        let s = spec_syllable(28u8);
        assert(s =~= seq![103u8, 111u8]);
        lemma_xor_low5(0u32, 7u32);
        let n1 = Node { id: 7u32, base: 160u32, is_leaf: false, has_value: false };
        assert(spec_child(spec_root(), 103u8) == Some(n1));
        lemma_walk_step(spec_root(), seq![103u8, 111u8], n1);
        assert(seq![103u8, 111u8].drop_first() =~= seq![111u8]);
        lemma_xor_low5(160u32, 15u32);
        let n2 = Node { id: 175u32, base: 1408u32, is_leaf: false, has_value: true };
        assert(spec_child(n1, 111u8) == Some(n2));
        lemma_walk_step(n1, seq![111u8], n2);
        assert(seq![111u8].drop_first() =~= Seq::<u8>::empty());
        assert(spec_walk(n2, Seq::<u8>::empty()) == Some(n2));
        assert(spec_node_value(n2) == Some(28u8));
        assert(syllable_walk_ok(28u8));
    assert(syllable_wf(28u8));
}

proof fn table_case_29()
    ensures
        syllable_walk_ok(29u8),
        syllable_wf(29u8),
{
    reveal_with_fuel(all_lower, 6);
        let s = spec_syllable(29u8);
        assert(s =~= seq![103u8, 117u8]);
        lemma_xor_low5(0u32, 7u32);
        let n1 = Node { id: 7u32, base: 160u32, is_leaf: false, has_value: false };
        assert(spec_child(spec_root(), 103u8) == Some(n1));
        lemma_walk_step(spec_root(), seq![103u8, 117u8], n1);
        assert(seq![103u8, 117u8].drop_first() =~= seq![117u8]);
        lemma_xor_low5(160u32, 21u32);
        let n2 = Node { id: 181u32, base: 1440u32, is_leaf: false, has_value: true };
        assert(spec_child(n1, 117u8) == Some(n2));
        lemma_walk_step(n1, seq![117u8], n2);
        assert(seq![117u8].drop_first() =~= Seq::<u8>::empty());
        assert(spec_walk(n2, Seq::<u8>::empty()) == Some(n2));
        assert(spec_node_value(n2) == Some(29u8));
        assert(syllable_walk_ok(29u8));
    assert(syllable_wf(29u8));
}

proof fn table_case_30()
    ensures
        syllable_walk_ok(30u8),
        syllable_wf(30u8),
{
    reveal_with_fuel(all_lower, 6);
        let s = spec_syllable(30u8);
        assert(s =~= seq![104u8, 97u8]);
        lemma_xor_low5(0u32, 8u32);
        let n1 = Node { id: 8u32, base: 192u32, is_leaf: false, has_value: false };
        assert(spec_child(spec_root(), 104u8) == Some(n1));
        lemma_walk_step(spec_root(), seq![104u8, 97u8], n1);
        assert(seq![104u8, 97u8].drop_first() =~= seq![97u8]);
        lemma_xor_low5(192u32, 1u32);
        let n2 = Node { id: 193u32, base: 1472u32, is_leaf: false, has_value: true };
        assert(spec_child(n1, 97u8) == Some(n2));
        lemma_walk_step(n1, seq![97u8], n2);
        assert(seq![97u8].drop_first() =~= Seq::<u8>::empty());
        assert(spec_walk(n2, Seq::<u8>::empty()) == Some(n2));
        assert(spec_node_value(n2) == Some(30u8));
        assert(syllable_walk_ok(30u8));
    assert(syllable_wf(30u8));
}

proof fn table_case_31()
    ensures
        syllable_walk_ok(31u8),
        syllable_wf(31u8),
{
    reveal_with_fuel(all_lower, 6);
        let s = spec_syllable(31u8);
        assert(s =~= seq![104u8, 101u8]);
        lemma_xor_low5(0u32, 8u32);
        let n1 = Node { id: 8u32, base: 192u32, is_leaf: false, has_value: false };
        assert(spec_child(spec_root(), 104u8) == Some(n1));
        lemma_walk_step(spec_root(), seq![104u8, 101u8], n1);
        assert(seq![104u8, 101u8].drop_first() =~= seq![101u8]);
        lemma_xor_low5(192u32, 5u32);
        let n2 = Node { id: 197u32, base: 1504u32, is_leaf: false, has_value: true };
        assert(spec_child(n1, 101u8) == Some(n2));
        lemma_walk_step(n1, seq![101u8], n2);
        assert(seq![101u8].drop_first() =~= Seq::<u8>::empty());
        assert(spec_walk(n2, Seq::<u8>::empty()) == Some(n2));
        assert(spec_node_value(n2) == Some(31u8));
        assert(syllable_walk_ok(31u8));
    assert(syllable_wf(31u8));
}

proof fn table_case_32()
    ensures
        syllable_walk_ok(32u8),
        syllable_wf(32u8),
{
    reveal_with_fuel(all_lower, 6);
        let s = spec_syllable(32u8);
        assert(s =~= seq![104u8, 105u8]);
        lemma_xor_low5(0u32, 8u32);
        let n1 = Node { id: 8u32, base: 192u32, is_leaf: false, has_value: false };
        assert(spec_child(spec_root(), 104u8) == Some(n1));
        lemma_walk_step(spec_root(), seq![104u8, 105u8], n1);
        assert(seq![104u8, 105u8].drop_first() =~= seq![105u8]);
        lemma_xor_low5(192u32, 9u32);
        let n2 = Node { id: 201u32, base: 1536u32, is_leaf: false, has_value: true };
        assert(spec_child(n1, 105u8) == Some(n2));
        lemma_walk_step(n1, seq![105u8], n2);
        assert(seq![105u8].drop_first() =~= Seq::<u8>::empty());
        assert(spec_walk(n2, Seq::<u8>::empty()) == Some(n2));
        assert(spec_node_value(n2) == Some(32u8));
        assert(syllable_walk_ok(32u8));
    assert(syllable_wf(32u8));
}

proof fn table_case_33()
    ensures
        syllable_walk_ok(33u8),
        syllable_wf(33u8),
{
    reveal_with_fuel(all_lower, 6);
        let s = spec_syllable(33u8);
        assert(s =~= seq![104u8, 111u8]);
        lemma_xor_low5(0u32, 8u32);
        let n1 = Node { id: 8u32, base: 192u32, is_leaf: false, has_value: false };
        assert(spec_child(spec_root(), 104u8) == Some(n1));
        lemma_walk_step(spec_root(), seq![104u8, 111u8], n1);
        assert(seq![104u8, 111u8].drop_first() =~= seq![111u8]);
        lemma_xor_low5(192u32, 15u32);
        let n2 = Node { id: 207u32, base: 1568u32, is_leaf: false, has_value: true };
        assert(spec_child(n1, 111u8) == Some(n2));
        lemma_walk_step(n1, seq![111u8], n2);
        assert(seq![111u8].drop_first() =~= Seq::<u8>::empty());
        assert(spec_walk(n2, Seq::<u8>::empty()) == Some(n2));
        assert(spec_node_value(n2) == Some(33u8));
        assert(syllable_walk_ok(33u8));
    assert(syllable_wf(33u8));
}

proof fn table_case_34()
    ensures
        syllable_walk_ok(34u8),
        syllable_wf(34u8),
{
    reveal_with_fuel(all_lower, 6);
        let s = spec_syllable(34u8);
        assert(s =~= seq![104u8, 117u8]);
        lemma_xor_low5(0u32, 8u32);
        let n1 = Node { id: 8u32, base: 192u32, is_leaf: false, has_value: false };
        assert(spec_child(spec_root(), 104u8) == Some(n1));
        lemma_walk_step(spec_root(), seq![104u8, 117u8], n1);
        assert(seq![104u8, 117u8].drop_first() =~= seq![117u8]);
        lemma_xor_low5(192u32, 21u32);
        let n2 = Node { id: 213u32, base: 1600u32, is_leaf: false, has_value: true };
        assert(spec_child(n1, 117u8) == Some(n2));
        lemma_walk_step(n1, seq![117u8], n2);
        assert(seq![117u8].drop_first() =~= Seq::<u8>::empty());
        assert(spec_walk(n2, Seq::<u8>::empty()) == Some(n2));
        assert(spec_node_value(n2) == Some(34u8));
        assert(syllable_walk_ok(34u8));
    assert(syllable_wf(34u8));
}

proof fn table_case_35()
    ensures
        syllable_walk_ok(35u8),
        syllable_wf(35u8),
{
    reveal_with_fuel(all_lower, 6);
        let s = spec_syllable(35u8);
        assert(s =~= seq![106u8, 97u8]);
        lemma_xor_low5(0u32, 10u32);
        let n1 = Node { id: 10u32, base: 224u32, is_leaf: false, has_value: false };
        assert(spec_child(spec_root(), 106u8) == Some(n1));
        lemma_walk_step(spec_root(), seq![106u8, 97u8], n1);
        assert(seq![106u8, 97u8].drop_first() =~= seq![97u8]);
        lemma_xor_low5(224u32, 1u32);
        let n2 = Node { id: 225u32, base: 1632u32, is_leaf: false, has_value: true };
        assert(spec_child(n1, 97u8) == Some(n2));
        lemma_walk_step(n1, seq![97u8], n2);
        assert(seq![97u8].drop_first() =~= Seq::<u8>::empty());
        assert(spec_walk(n2, Seq::<u8>::empty()) == Some(n2));
        assert(spec_node_value(n2) == Some(35u8));
        assert(syllable_walk_ok(35u8));
    assert(syllable_wf(35u8));
}

proof fn table_case_36()
    ensures
        syllable_walk_ok(36u8),
        syllable_wf(36u8),
{
    reveal_with_fuel(all_lower, 6);
        let s = spec_syllable(36u8);
        assert(s =~= seq![106u8, 101u8]);
        lemma_xor_low5(0u32, 10u32);
        let n1 = Node { id: 10u32, base: 224u32, is_leaf: false, has_value: false };
        assert(spec_child(spec_root(), 106u8) == Some(n1));
        lemma_walk_step(spec_root(), seq![106u8, 101u8], n1);
        assert(seq![106u8, 101u8].drop_first() =~= seq![101u8]);
        lemma_xor_low5(224u32, 5u32);
        let n2 = Node { id: 229u32, base: 1664u32, is_leaf: false, has_value: true };
        assert(spec_child(n1, 101u8) == Some(n2));
        lemma_walk_step(n1, seq![101u8], n2);
        assert(seq![101u8].drop_first() =~= Seq::<u8>::empty());
        assert(spec_walk(n2, Seq::<u8>::empty()) == Some(n2));
        assert(spec_node_value(n2) == Some(36u8));
        assert(syllable_walk_ok(36u8));
    assert(syllable_wf(36u8));
}

proof fn table_case_37()
    ensures
        syllable_walk_ok(37u8),
        syllable_wf(37u8),
{
    reveal_with_fuel(all_lower, 6);
        let s = spec_syllable(37u8);
        assert(s =~= seq![106u8, 105u8]);
        lemma_xor_low5(0u32, 10u32);
        let n1 = Node { id: 10u32, base: 224u32, is_leaf: false, has_value: false };
        assert(spec_child(spec_root(), 106u8) == Some(n1));
        lemma_walk_step(spec_root(), seq![106u8, 105u8], n1);
        assert(seq![106u8, 105u8].drop_first() =~= seq![105u8]);
        lemma_xor_low5(224u32, 9u32);
        let n2 = Node { id: 233u32, base: 1696u32, is_leaf: false, has_value: true };
        assert(spec_child(n1, 105u8) == Some(n2));
        lemma_walk_step(n1, seq![105u8], n2);
        assert(seq![105u8].drop_first() =~= Seq::<u8>::empty());
        assert(spec_walk(n2, Seq::<u8>::empty()) == Some(n2));
        assert(spec_node_value(n2) == Some(37u8));
        assert(syllable_walk_ok(37u8));
    assert(syllable_wf(37u8));
}

proof fn table_case_38()
    ensures
        syllable_walk_ok(38u8),
        syllable_wf(38u8),
{
    reveal_with_fuel(all_lower, 6);
        let s = spec_syllable(38u8);
        assert(s =~= seq![106u8, 111u8]);
        lemma_xor_low5(0u32, 10u32);
        let n1 = Node { id: 10u32, base: 224u32, is_leaf: false, has_value: false };
        assert(spec_child(spec_root(), 106u8) == Some(n1));
        lemma_walk_step(spec_root(), seq![106u8, 111u8], n1);
        assert(seq![106u8, 111u8].drop_first() =~= seq![111u8]);
        lemma_xor_low5(224u32, 15u32);
        let n2 = Node { id: 239u32, base: 1728u32, is_leaf: false, has_value: true };
        assert(spec_child(n1, 111u8) == Some(n2));
        lemma_walk_step(n1, seq![111u8], n2);
        assert(seq![111u8].drop_first() =~= Seq::<u8>::empty());
        assert(spec_walk(n2, Seq::<u8>::empty()) == Some(n2));
        assert(spec_node_value(n2) == Some(38u8));
        assert(syllable_walk_ok(38u8));
    assert(syllable_wf(38u8));
}

proof fn table_case_39()
    ensures
        syllable_walk_ok(39u8),
        syllable_wf(39u8),
{
    reveal_with_fuel(all_lower, 6);
        let s = spec_syllable(39u8);
        assert(s =~= seq![106u8, 117u8]);
        lemma_xor_low5(0u32, 10u32);
        let n1 = Node { id: 10u32, base: 224u32, is_leaf: false, has_value: false };
        assert(spec_child(spec_root(), 106u8) == Some(n1));
        lemma_walk_step(spec_root(), seq![106u8, 117u8], n1);
        assert(seq![106u8, 117u8].drop_first() =~= seq![117u8]);
        lemma_xor_low5(224u32, 21u32);
        let n2 = Node { id: 245u32, base: 1760u32, is_leaf: false, has_value: true };
        assert(spec_child(n1, 117u8) == Some(n2));
        lemma_walk_step(n1, seq![117u8], n2);
        assert(seq![117u8].drop_first() =~= Seq::<u8>::empty());
        assert(spec_walk(n2, Seq::<u8>::empty()) == Some(n2));
        assert(spec_node_value(n2) == Some(39u8));
        assert(syllable_walk_ok(39u8));
    assert(syllable_wf(39u8));
}

proof fn table_case_40()
    ensures
        syllable_walk_ok(40u8),
        syllable_wf(40u8),
{
    reveal_with_fuel(all_lower, 6);
        let s = spec_syllable(40u8);
        assert(s =~= seq![107u8, 97u8]);
        lemma_xor_low5(0u32, 11u32);
        let n1 = Node { id: 11u32, base: 256u32, is_leaf: false, has_value: false };
        assert(spec_child(spec_root(), 107u8) == Some(n1));
        lemma_walk_step(spec_root(), seq![107u8, 97u8], n1);
        assert(seq![107u8, 97u8].drop_first() =~= seq![97u8]);
        lemma_xor_low5(256u32, 1u32);
        let n2 = Node { id: 257u32, base: 1792u32, is_leaf: false, has_value: true };
        assert(spec_child(n1, 97u8) == Some(n2));
        lemma_walk_step(n1, seq![97u8], n2);
        assert(seq![97u8].drop_first() =~= Seq::<u8>::empty());
        assert(spec_walk(n2, Seq::<u8>::empty()) == Some(n2));
        assert(spec_node_value(n2) == Some(40u8));
        assert(syllable_walk_ok(40u8));
    assert(syllable_wf(40u8));
}

proof fn table_case_41()
    ensures
        syllable_walk_ok(41u8),
        syllable_wf(41u8),
{
    reveal_with_fuel(all_lower, 6);
        let s = spec_syllable(41u8);
        assert(s =~= seq![107u8, 101u8]);
        lemma_xor_low5(0u32, 11u32);
        let n1 = Node { id: 11u32, base: 256u32, is_leaf: false, has_value: false };
        assert(spec_child(spec_root(), 107u8) == Some(n1));
        lemma_walk_step(spec_root(), seq![107u8, 101u8], n1);
        assert(seq![107u8, 101u8].drop_first() =~= seq![101u8]);
        lemma_xor_low5(256u32, 5u32);
        let n2 = Node { id: 261u32, base: 1824u32, is_leaf: false, has_value: true };
        assert(spec_child(n1, 101u8) == Some(n2));
        lemma_walk_step(n1, seq![101u8], n2);
        assert(seq![101u8].drop_first() =~= Seq::<u8>::empty());
        assert(spec_walk(n2, Seq::<u8>::empty()) == Some(n2));
        assert(spec_node_value(n2) == Some(41u8));
        assert(syllable_walk_ok(41u8));
    assert(syllable_wf(41u8));
}

proof fn table_case_42()
    ensures
        syllable_walk_ok(42u8),
        syllable_wf(42u8),
{
    reveal_with_fuel(all_lower, 6);
        let s = spec_syllable(42u8);
        assert(s =~= seq![107u8, 105u8]);
        lemma_xor_low5(0u32, 11u32);
        let n1 = Node { id: 11u32, base: 256u32, is_leaf: false, has_value: false };
        assert(spec_child(spec_root(), 107u8) == Some(n1));
        lemma_walk_step(spec_root(), seq![107u8, 105u8], n1);
        assert(seq![107u8, 105u8].drop_first() =~= seq![105u8]);
        lemma_xor_low5(256u32, 9u32);
        let n2 = Node { id: 265u32, base: 1856u32, is_leaf: false, has_value: true };
        assert(spec_child(n1, 105u8) == Some(n2));
        lemma_walk_step(n1, seq![105u8], n2);
        assert(seq![105u8].drop_first() =~= Seq::<u8>::empty());
        assert(spec_walk(n2, Seq::<u8>::empty()) == Some(n2));
        assert(spec_node_value(n2) == Some(42u8));
        assert(syllable_walk_ok(42u8));
    assert(syllable_wf(42u8));
}

proof fn table_case_43()
    ensures
        syllable_walk_ok(43u8),
        syllable_wf(43u8),
{
    reveal_with_fuel(all_lower, 6);
        let s = spec_syllable(43u8);
        assert(s =~= seq![107u8, 111u8]);
        lemma_xor_low5(0u32, 11u32);
        let n1 = Node { id: 11u32, base: 256u32, is_leaf: false, has_value: false };
        assert(spec_child(spec_root(), 107u8) == Some(n1));
        lemma_walk_step(spec_root(), seq![107u8, 111u8], n1);
        assert(seq![107u8, 111u8].drop_first() =~= seq![111u8]);
        lemma_xor_low5(256u32, 15u32);
        let n2 = Node { id: 271u32, base: 1888u32, is_leaf: false, has_value: true };
        assert(spec_child(n1, 111u8) == Some(n2));
        lemma_walk_step(n1, seq![111u8], n2);
        assert(seq![111u8].drop_first() =~= Seq::<u8>::empty());
        assert(spec_walk(n2, Seq::<u8>::empty()) == Some(n2));
        assert(spec_node_value(n2) == Some(43u8));
        assert(syllable_walk_ok(43u8));
    assert(syllable_wf(43u8));
}

proof fn table_case_44()
    ensures
        syllable_walk_ok(44u8),
        syllable_wf(44u8),
{
    reveal_with_fuel(all_lower, 6);
        let s = spec_syllable(44u8);
        assert(s =~= seq![107u8, 117u8]);
        lemma_xor_low5(0u32, 11u32);
        let n1 = Node { id: 11u32, base: 256u32, is_leaf: false, has_value: false };
        assert(spec_child(spec_root(), 107u8) == Some(n1));
        lemma_walk_step(spec_root(), seq![107u8, 117u8], n1);
        assert(seq![107u8, 117u8].drop_first() =~= seq![117u8]);
        lemma_xor_low5(256u32, 21u32);
        let n2 = Node { id: 277u32, base: 1920u32, is_leaf: false, has_value: true };
        assert(spec_child(n1, 117u8) == Some(n2));
        lemma_walk_step(n1, seq![117u8], n2);
        assert(seq![117u8].drop_first() =~= Seq::<u8>::empty());
        assert(spec_walk(n2, Seq::<u8>::empty()) == Some(n2));
        assert(spec_node_value(n2) == Some(44u8));
        assert(syllable_walk_ok(44u8));
    assert(syllable_wf(44u8));
}

proof fn table_case_45()
    ensures
        syllable_walk_ok(45u8),
        syllable_wf(45u8),
{
    reveal_with_fuel(all_lower, 6);
        let s = spec_syllable(45u8);
        assert(s =~= seq![108u8, 97u8]);
        lemma_xor_low5(0u32, 12u32);
        let n1 = Node { id: 12u32, base: 288u32, is_leaf: false, has_value: false };
        assert(spec_child(spec_root(), 108u8) == Some(n1));
        lemma_walk_step(spec_root(), seq![108u8, 97u8], n1);
        assert(seq![108u8, 97u8].drop_first() =~= seq![97u8]);
        lemma_xor_low5(288u32, 1u32);
        let n2 = Node { id: 289u32, base: 1952u32, is_leaf: false, has_value: true };
        assert(spec_child(n1, 97u8) == Some(n2));
        lemma_walk_step(n1, seq![97u8], n2);
        assert(seq![97u8].drop_first() =~= Seq::<u8>::empty());
        assert(spec_walk(n2, Seq::<u8>::empty()) == Some(n2));
        assert(spec_node_value(n2) == Some(45u8));
        assert(syllable_walk_ok(45u8));
    assert(syllable_wf(45u8));
}

proof fn table_case_46()
    ensures
        syllable_walk_ok(46u8),
        syllable_wf(46u8),
{
    reveal_with_fuel(all_lower, 6);
        let s = spec_syllable(46u8);
        assert(s =~= seq![108u8, 101u8]);
        lemma_xor_low5(0u32, 12u32);
        let n1 = Node { id: 12u32, base: 288u32, is_leaf: false, has_value: false };
        assert(spec_child(spec_root(), 108u8) == Some(n1));
        lemma_walk_step(spec_root(), seq![108u8, 101u8], n1);
        assert(seq![108u8, 101u8].drop_first() =~= seq![101u8]);
        lemma_xor_low5(288u32, 5u32);
        let n2 = Node { id: 293u32, base: 1984u32, is_leaf: false, has_value: true };
        assert(spec_child(n1, 101u8) == Some(n2));
        lemma_walk_step(n1, seq![101u8], n2);
        assert(seq![101u8].drop_first() =~= Seq::<u8>::empty());
        assert(spec_walk(n2, Seq::<u8>::empty()) == Some(n2));
        assert(spec_node_value(n2) == Some(46u8));
        assert(syllable_walk_ok(46u8));
    assert(syllable_wf(46u8));
}

proof fn table_case_47()
    ensures
        syllable_walk_ok(47u8),
        syllable_wf(47u8),
{
    reveal_with_fuel(all_lower, 6);
        let s = spec_syllable(47u8);
        assert(s =~= seq![108u8, 105u8]);
        lemma_xor_low5(0u32, 12u32);
        let n1 = Node { id: 12u32, base: 288u32, is_leaf: false, has_value: false };
        assert(spec_child(spec_root(), 108u8) == Some(n1));
        lemma_walk_step(spec_root(), seq![108u8, 105u8], n1);
        assert(seq![108u8, 105u8].drop_first() =~= seq![105u8]);
        lemma_xor_low5(288u32, 9u32);
        let n2 = Node { id: 297u32, base: 2016u32, is_leaf: false, has_value: true };
        assert(spec_child(n1, 105u8) == Some(n2));
        lemma_walk_step(n1, seq![105u8], n2);
        assert(seq![105u8].drop_first() =~= Seq::<u8>::empty());
        assert(spec_walk(n2, Seq::<u8>::empty()) == Some(n2));
        assert(spec_node_value(n2) == Some(47u8));
        assert(syllable_walk_ok(47u8));
    assert(syllable_wf(47u8));
}

proof fn table_case_48()
    ensures
        syllable_walk_ok(48u8),
        syllable_wf(48u8),
{
    reveal_with_fuel(all_lower, 6);
        let s = spec_syllable(48u8);
        assert(s =~= seq![108u8, 111u8]);
        lemma_xor_low5(0u32, 12u32);
        let n1 = Node { id: 12u32, base: 288u32, is_leaf: false, has_value: false };
        assert(spec_child(spec_root(), 108u8) == Some(n1));
        lemma_walk_step(spec_root(), seq![108u8, 111u8], n1);
        assert(seq![108u8, 111u8].drop_first() =~= seq![111u8]);
        lemma_xor_low5(288u32, 15u32);
        let n2 = Node { id: 303u32, base: 2048u32, is_leaf: false, has_value: true };
        assert(spec_child(n1, 111u8) == Some(n2));
        lemma_walk_step(n1, seq![111u8], n2);
        assert(seq![111u8].drop_first() =~= Seq::<u8>::empty());
        assert(spec_walk(n2, Seq::<u8>::empty()) == Some(n2));
        assert(spec_node_value(n2) == Some(48u8));
        assert(syllable_walk_ok(48u8));
    assert(syllable_wf(48u8));
}

proof fn table_case_49()
    ensures
        syllable_walk_ok(49u8),
        syllable_wf(49u8),
{
    reveal_with_fuel(all_lower, 6);
        let s = spec_syllable(49u8);
        assert(s =~= seq![108u8, 117u8]);
        lemma_xor_low5(0u32, 12u32);
        let n1 = Node { id: 12u32, base: 288u32, is_leaf: false, has_value: false };
        assert(spec_child(spec_root(), 108u8) == Some(n1));
        lemma_walk_step(spec_root(), seq![108u8, 117u8], n1);
        assert(seq![108u8, 117u8].drop_first() =~= seq![117u8]);
        lemma_xor_low5(288u32, 21u32);
        let n2 = Node { id: 309u32, base: 2080u32, is_leaf: false, has_value: true };
        assert(spec_child(n1, 117u8) == Some(n2));
        lemma_walk_step(n1, seq![117u8], n2);
        assert(seq![117u8].drop_first() =~= Seq::<u8>::empty());
        assert(spec_walk(n2, Seq::<u8>::empty()) == Some(n2));
        assert(spec_node_value(n2) == Some(49u8));
        assert(syllable_walk_ok(49u8));
    assert(syllable_wf(49u8));
}

proof fn table_case_50()
    ensures
        syllable_walk_ok(50u8),
        syllable_wf(50u8),
{
    reveal_with_fuel(all_lower, 6);
        let s = spec_syllable(50u8);
        assert(s =~= seq![109u8, 97u8]);
        lemma_xor_low5(0u32, 13u32);
        let n1 = Node { id: 13u32, base: 320u32, is_leaf: false, has_value: false };
        assert(spec_child(spec_root(), 109u8) == Some(n1));
        lemma_walk_step(spec_root(), seq![109u8, 97u8], n1);
        assert(seq![109u8, 97u8].drop_first() =~= seq![97u8]);
        lemma_xor_low5(320u32, 1u32);
        let n2 = Node { id: 321u32, base: 2112u32, is_leaf: false, has_value: true };
        assert(spec_child(n1, 97u8) == Some(n2));
        lemma_walk_step(n1, seq![97u8], n2);
        assert(seq![97u8].drop_first() =~= Seq::<u8>::empty());
        assert(spec_walk(n2, Seq::<u8>::empty()) == Some(n2));
        assert(spec_node_value(n2) == Some(50u8));
        assert(syllable_walk_ok(50u8));
    assert(syllable_wf(50u8));
}

proof fn table_case_51()
    ensures
        syllable_walk_ok(51u8),
        syllable_wf(51u8),
{
    reveal_with_fuel(all_lower, 6);
        let s = spec_syllable(51u8);
        assert(s =~= seq![109u8, 101u8]);
        lemma_xor_low5(0u32, 13u32);
        let n1 = Node { id: 13u32, base: 320u32, is_leaf: false, has_value: false };
        assert(spec_child(spec_root(), 109u8) == Some(n1));
        lemma_walk_step(spec_root(), seq![109u8, 101u8], n1);
        assert(seq![109u8, 101u8].drop_first() =~= seq![101u8]);
        lemma_xor_low5(320u32, 5u32);
        let n2 = Node { id: 325u32, base: 2144u32, is_leaf: false, has_value: true };
        assert(spec_child(n1, 101u8) == Some(n2));
        lemma_walk_step(n1, seq![101u8], n2);
        assert(seq![101u8].drop_first() =~= Seq::<u8>::empty());
        assert(spec_walk(n2, Seq::<u8>::empty()) == Some(n2));
        assert(spec_node_value(n2) == Some(51u8));
        assert(syllable_walk_ok(51u8));
    assert(syllable_wf(51u8));
}

proof fn table_case_52()
    ensures
        syllable_walk_ok(52u8),
        syllable_wf(52u8),
{
    reveal_with_fuel(all_lower, 6);
        let s = spec_syllable(52u8);
        assert(s =~= seq![109u8, 105u8]);
        lemma_xor_low5(0u32, 13u32);
        let n1 = Node { id: 13u32, base: 320u32, is_leaf: false, has_value: false };
        assert(spec_child(spec_root(), 109u8) == Some(n1));
        lemma_walk_step(spec_root(), seq![109u8, 105u8], n1);
        assert(seq![109u8, 105u8].drop_first() =~= seq![105u8]);
        lemma_xor_low5(320u32, 9u32);
        let n2 = Node { id: 329u32, base: 2176u32, is_leaf: false, has_value: true };
        assert(spec_child(n1, 105u8) == Some(n2));
        lemma_walk_step(n1, seq![105u8], n2);
        assert(seq![105u8].drop_first() =~= Seq::<u8>::empty());
        assert(spec_walk(n2, Seq::<u8>::empty()) == Some(n2));
        assert(spec_node_value(n2) == Some(52u8));
        assert(syllable_walk_ok(52u8));
    assert(syllable_wf(52u8));
}

proof fn table_case_53()
    ensures
        syllable_walk_ok(53u8),
        syllable_wf(53u8),
{
    reveal_with_fuel(all_lower, 6);
        let s = spec_syllable(53u8);
        assert(s =~= seq![109u8, 111u8]);
        lemma_xor_low5(0u32, 13u32);
        let n1 = Node { id: 13u32, base: 320u32, is_leaf: false, has_value: false };
        assert(spec_child(spec_root(), 109u8) == Some(n1));
        lemma_walk_step(spec_root(), seq![109u8, 111u8], n1);
        assert(seq![109u8, 111u8].drop_first() =~= seq![111u8]);
        lemma_xor_low5(320u32, 15u32);
        let n2 = Node { id: 335u32, base: 2208u32, is_leaf: false, has_value: true };
        assert(spec_child(n1, 111u8) == Some(n2));
        lemma_walk_step(n1, seq![111u8], n2);
        assert(seq![111u8].drop_first() =~= Seq::<u8>::empty());
        assert(spec_walk(n2, Seq::<u8>::empty()) == Some(n2));
        assert(spec_node_value(n2) == Some(53u8));
        assert(syllable_walk_ok(53u8));
    assert(syllable_wf(53u8));
}

proof fn table_case_54()
    ensures
        syllable_walk_ok(54u8),
        syllable_wf(54u8),
{
    reveal_with_fuel(all_lower, 6);
        let s = spec_syllable(54u8);
        assert(s =~= seq![109u8, 117u8]);
        lemma_xor_low5(0u32, 13u32);
        let n1 = Node { id: 13u32, base: 320u32, is_leaf: false, has_value: false };
        assert(spec_child(spec_root(), 109u8) == Some(n1));
        lemma_walk_step(spec_root(), seq![109u8, 117u8], n1);
        assert(seq![109u8, 117u8].drop_first() =~= seq![117u8]);
        lemma_xor_low5(320u32, 21u32);
        let n2 = Node { id: 341u32, base: 2240u32, is_leaf: false, has_value: true };
        assert(spec_child(n1, 117u8) == Some(n2));
        lemma_walk_step(n1, seq![117u8], n2);
        assert(seq![117u8].drop_first() =~= Seq::<u8>::empty());
        assert(spec_walk(n2, Seq::<u8>::empty()) == Some(n2));
        assert(spec_node_value(n2) == Some(54u8));
        assert(syllable_walk_ok(54u8));
    assert(syllable_wf(54u8));
}

proof fn table_case_55()
    ensures
        syllable_walk_ok(55u8),
        syllable_wf(55u8),
{
    reveal_with_fuel(all_lower, 6);
        let s = spec_syllable(55u8);
        assert(s =~= seq![110u8, 97u8]);
        lemma_xor_low5(0u32, 14u32);
        let n1 = Node { id: 14u32, base: 352u32, is_leaf: false, has_value: false };
        assert(spec_child(spec_root(), 110u8) == Some(n1));
        lemma_walk_step(spec_root(), seq![110u8, 97u8], n1);
        assert(seq![110u8, 97u8].drop_first() =~= seq![97u8]);
        lemma_xor_low5(352u32, 1u32);
        let n2 = Node { id: 353u32, base: 2272u32, is_leaf: false, has_value: true };
        assert(spec_child(n1, 97u8) == Some(n2));
        lemma_walk_step(n1, seq![97u8], n2);
        assert(seq![97u8].drop_first() =~= Seq::<u8>::empty());
        assert(spec_walk(n2, Seq::<u8>::empty()) == Some(n2));
        assert(spec_node_value(n2) == Some(55u8));
        assert(syllable_walk_ok(55u8));
    assert(syllable_wf(55u8));
}

proof fn table_case_56()
    ensures
        syllable_walk_ok(56u8),
        syllable_wf(56u8),
{
    reveal_with_fuel(all_lower, 6);
        let s = spec_syllable(56u8);
        assert(s =~= seq![110u8, 101u8]);
        lemma_xor_low5(0u32, 14u32);
        let n1 = Node { id: 14u32, base: 352u32, is_leaf: false, has_value: false };
        assert(spec_child(spec_root(), 110u8) == Some(n1));
        lemma_walk_step(spec_root(), seq![110u8, 101u8], n1);
        assert(seq![110u8, 101u8].drop_first() =~= seq![101u8]);
        lemma_xor_low5(352u32, 5u32);
        let n2 = Node { id: 357u32, base: 2304u32, is_leaf: false, has_value: true };
        assert(spec_child(n1, 101u8) == Some(n2));
        lemma_walk_step(n1, seq![101u8], n2);
        assert(seq![101u8].drop_first() =~= Seq::<u8>::empty());
        assert(spec_walk(n2, Seq::<u8>::empty()) == Some(n2));
        assert(spec_node_value(n2) == Some(56u8));
        assert(syllable_walk_ok(56u8));
    assert(syllable_wf(56u8));
}

proof fn table_case_57()
    ensures
        syllable_walk_ok(57u8),
        syllable_wf(57u8),
{
    reveal_with_fuel(all_lower, 6);
        let s = spec_syllable(57u8);
        assert(s =~= seq![110u8, 105u8]);
        lemma_xor_low5(0u32, 14u32);
        let n1 = Node { id: 14u32, base: 352u32, is_leaf: false, has_value: false };
        assert(spec_child(spec_root(), 110u8) == Some(n1));
        lemma_walk_step(spec_root(), seq![110u8, 105u8], n1);
        assert(seq![110u8, 105u8].drop_first() =~= seq![105u8]);
        lemma_xor_low5(352u32, 9u32);
        let n2 = Node { id: 361u32, base: 2336u32, is_leaf: false, has_value: true };
        assert(spec_child(n1, 105u8) == Some(n2));
        lemma_walk_step(n1, seq![105u8], n2);
        assert(seq![105u8].drop_first() =~= Seq::<u8>::empty());
        assert(spec_walk(n2, Seq::<u8>::empty()) == Some(n2));
        assert(spec_node_value(n2) == Some(57u8));
        assert(syllable_walk_ok(57u8));
    assert(syllable_wf(57u8));
}

proof fn table_case_58()
    ensures
        syllable_walk_ok(58u8),
        syllable_wf(58u8),
{
    reveal_with_fuel(all_lower, 6);
        let s = spec_syllable(58u8);
        assert(s =~= seq![110u8, 111u8]);
        lemma_xor_low5(0u32, 14u32);
        let n1 = Node { id: 14u32, base: 352u32, is_leaf: false, has_value: false };
        assert(spec_child(spec_root(), 110u8) == Some(n1));
        lemma_walk_step(spec_root(), seq![110u8, 111u8], n1);
        assert(seq![110u8, 111u8].drop_first() =~= seq![111u8]);
        lemma_xor_low5(352u32, 15u32);
        let n2 = Node { id: 367u32, base: 2368u32, is_leaf: false, has_value: true };
        assert(spec_child(n1, 111u8) == Some(n2));
        lemma_walk_step(n1, seq![111u8], n2);
        assert(seq![111u8].drop_first() =~= Seq::<u8>::empty());
        assert(spec_walk(n2, Seq::<u8>::empty()) == Some(n2));
        assert(spec_node_value(n2) == Some(58u8));
        assert(syllable_walk_ok(58u8));
    assert(syllable_wf(58u8));
}

proof fn table_case_59()
    ensures
        syllable_walk_ok(59u8),
        syllable_wf(59u8),
{
    reveal_with_fuel(all_lower, 6);
        let s = spec_syllable(59u8);
        assert(s =~= seq![110u8, 117u8]);
        lemma_xor_low5(0u32, 14u32);
        let n1 = Node { id: 14u32, base: 352u32, is_leaf: false, has_value: false };
        assert(spec_child(spec_root(), 110u8) == Some(n1));
        lemma_walk_step(spec_root(), seq![110u8, 117u8], n1);
        assert(seq![110u8, 117u8].drop_first() =~= seq![117u8]);
        lemma_xor_low5(352u32, 21u32);
        let n2 = Node { id: 373u32, base: 2400u32, is_leaf: false, has_value: true };
        assert(spec_child(n1, 117u8) == Some(n2));
        lemma_walk_step(n1, seq![117u8], n2);
        assert(seq![117u8].drop_first() =~= Seq::<u8>::empty());
        assert(spec_walk(n2, Seq::<u8>::empty()) == Some(n2));
        assert(spec_node_value(n2) == Some(59u8));
        assert(syllable_walk_ok(59u8));
    assert(syllable_wf(59u8));
}

proof fn table_case_60()
    ensures
        syllable_walk_ok(60u8),
        syllable_wf(60u8),
{
    reveal_with_fuel(all_lower, 6);
        let s = spec_syllable(60u8);
        assert(s =~= seq![112u8, 97u8]);
        lemma_xor_low5(0u32, 16u32);
        let n1 = Node { id: 16u32, base: 384u32, is_leaf: false, has_value: false };
        assert(spec_child(spec_root(), 112u8) == Some(n1));
        lemma_walk_step(spec_root(), seq![112u8, 97u8], n1);
        assert(seq![112u8, 97u8].drop_first() =~= seq![97u8]);
        lemma_xor_low5(384u32, 1u32);
        let n2 = Node { id: 385u32, base: 2432u32, is_leaf: false, has_value: true };
        assert(spec_child(n1, 97u8) == Some(n2));
        lemma_walk_step(n1, seq![97u8], n2);
        assert(seq![97u8].drop_first() =~= Seq::<u8>::empty());
        assert(spec_walk(n2, Seq::<u8>::empty()) == Some(n2));
        assert(spec_node_value(n2) == Some(60u8));
        assert(syllable_walk_ok(60u8));
    assert(syllable_wf(60u8));
}

proof fn table_case_61()
    ensures
        syllable_walk_ok(61u8),
        syllable_wf(61u8),
{
    reveal_with_fuel(all_lower, 6);
        let s = spec_syllable(61u8);
        assert(s =~= seq![112u8, 101u8]);
        lemma_xor_low5(0u32, 16u32);
        let n1 = Node { id: 16u32, base: 384u32, is_leaf: false, has_value: false };
        assert(spec_child(spec_root(), 112u8) == Some(n1));
        lemma_walk_step(spec_root(), seq![112u8, 101u8], n1);
        assert(seq![112u8, 101u8].drop_first() =~= seq![101u8]);
        lemma_xor_low5(384u32, 5u32);
        let n2 = Node { id: 389u32, base: 2464u32, is_leaf: false, has_value: true };
        assert(spec_child(n1, 101u8) == Some(n2));
        lemma_walk_step(n1, seq![101u8], n2);
        assert(seq![101u8].drop_first() =~= Seq::<u8>::empty());
        assert(spec_walk(n2, Seq::<u8>::empty()) == Some(n2));
        assert(spec_node_value(n2) == Some(61u8));
        assert(syllable_walk_ok(61u8));
    assert(syllable_wf(61u8));
}

proof fn table_case_62()
    ensures
        syllable_walk_ok(62u8),
        syllable_wf(62u8),
{
    reveal_with_fuel(all_lower, 6);
        let s = spec_syllable(62u8);
        assert(s =~= seq![112u8, 105u8]);
        lemma_xor_low5(0u32, 16u32);
        let n1 = Node { id: 16u32, base: 384u32, is_leaf: false, has_value: false };
        assert(spec_child(spec_root(), 112u8) == Some(n1));
        lemma_walk_step(spec_root(), seq![112u8, 105u8], n1);
        assert(seq![112u8, 105u8].drop_first() =~= seq![105u8]);
        lemma_xor_low5(384u32, 9u32);
        let n2 = Node { id: 393u32, base: 2496u32, is_leaf: false, has_value: true };
        assert(spec_child(n1, 105u8) == Some(n2));
        lemma_walk_step(n1, seq![105u8], n2);
        assert(seq![105u8].drop_first() =~= Seq::<u8>::empty());
        assert(spec_walk(n2, Seq::<u8>::empty()) == Some(n2));
        assert(spec_node_value(n2) == Some(62u8));
        assert(syllable_walk_ok(62u8));
    assert(syllable_wf(62u8));
}

proof fn table_case_63()
    ensures
        syllable_walk_ok(63u8),
        syllable_wf(63u8),
{
    reveal_with_fuel(all_lower, 6);
        let s = spec_syllable(63u8);
        assert(s =~= seq![112u8, 111u8]);
        lemma_xor_low5(0u32, 16u32);
        let n1 = Node { id: 16u32, base: 384u32, is_leaf: false, has_value: false };
        assert(spec_child(spec_root(), 112u8) == Some(n1));
        lemma_walk_step(spec_root(), seq![112u8, 111u8], n1);
        assert(seq![112u8, 111u8].drop_first() =~= seq![111u8]);
        lemma_xor_low5(384u32, 15u32);
        let n2 = Node { id: 399u32, base: 2528u32, is_leaf: false, has_value: true };
        assert(spec_child(n1, 111u8) == Some(n2));
        lemma_walk_step(n1, seq![111u8], n2);
        assert(seq![111u8].drop_first() =~= Seq::<u8>::empty());
        assert(spec_walk(n2, Seq::<u8>::empty()) == Some(n2));
        assert(spec_node_value(n2) == Some(63u8));
        assert(syllable_walk_ok(63u8));
    assert(syllable_wf(63u8));
}

proof fn table_case_64()
    ensures
        syllable_walk_ok(64u8),
        syllable_wf(64u8),
{
    reveal_with_fuel(all_lower, 6);
        let s = spec_syllable(64u8);
        assert(s =~= seq![112u8, 117u8]);
        lemma_xor_low5(0u32, 16u32);
        let n1 = Node { id: 16u32, base: 384u32, is_leaf: false, has_value: false };
        assert(spec_child(spec_root(), 112u8) == Some(n1));
        lemma_walk_step(spec_root(), seq![112u8, 117u8], n1);
        assert(seq![112u8, 117u8].drop_first() =~= seq![117u8]);
        lemma_xor_low5(384u32, 21u32);
        let n2 = Node { id: 405u32, base: 2560u32, is_leaf: false, has_value: true };
        assert(spec_child(n1, 117u8) == Some(n2));
        lemma_walk_step(n1, seq![117u8], n2);
        assert(seq![117u8].drop_first() =~= Seq::<u8>::empty());
        assert(spec_walk(n2, Seq::<u8>::empty()) == Some(n2));
        assert(spec_node_value(n2) == Some(64u8));
        assert(syllable_walk_ok(64u8));
    assert(syllable_wf(64u8));
}

proof fn table_case_65()
    ensures
        syllable_walk_ok(65u8),
        syllable_wf(65u8),
{
    reveal_with_fuel(all_lower, 6);
        let s = spec_syllable(65u8);
        assert(s =~= seq![114u8, 97u8]);
        lemma_xor_low5(0u32, 18u32);
        let n1 = Node { id: 18u32, base: 416u32, is_leaf: false, has_value: false };
        assert(spec_child(spec_root(), 114u8) == Some(n1));
        lemma_walk_step(spec_root(), seq![114u8, 97u8], n1);
        assert(seq![114u8, 97u8].drop_first() =~= seq![97u8]);
        lemma_xor_low5(416u32, 1u32);
        let n2 = Node { id: 417u32, base: 2592u32, is_leaf: false, has_value: true };
        assert(spec_child(n1, 97u8) == Some(n2));
        lemma_walk_step(n1, seq![97u8], n2);
        assert(seq![97u8].drop_first() =~= Seq::<u8>::empty());
        assert(spec_walk(n2, Seq::<u8>::empty()) == Some(n2));
        assert(spec_node_value(n2) == Some(65u8));
        assert(syllable_walk_ok(65u8));
    assert(syllable_wf(65u8));
}

proof fn table_case_66()
    ensures
        syllable_walk_ok(66u8),
        syllable_wf(66u8),
{
    reveal_with_fuel(all_lower, 6);
        let s = spec_syllable(66u8);
        assert(s =~= seq![114u8, 101u8]);
        lemma_xor_low5(0u32, 18u32);
        let n1 = Node { id: 18u32, base: 416u32, is_leaf: false, has_value: false };
        assert(spec_child(spec_root(), 114u8) == Some(n1));
        lemma_walk_step(spec_root(), seq![114u8, 101u8], n1);
        assert(seq![114u8, 101u8].drop_first() =~= seq![101u8]);
        lemma_xor_low5(416u32, 5u32);
        let n2 = Node { id: 421u32, base: 2624u32, is_leaf: false, has_value: true };
        assert(spec_child(n1, 101u8) == Some(n2));
        lemma_walk_step(n1, seq![101u8], n2);
        assert(seq![101u8].drop_first() =~= Seq::<u8>::empty());
        assert(spec_walk(n2, Seq::<u8>::empty()) == Some(n2));
        assert(spec_node_value(n2) == Some(66u8));
        assert(syllable_walk_ok(66u8));
    assert(syllable_wf(66u8));
}

proof fn table_case_67()
    ensures
        syllable_walk_ok(67u8),
        syllable_wf(67u8),
{
    reveal_with_fuel(all_lower, 6);
        let s = spec_syllable(67u8);
        assert(s =~= seq![114u8, 105u8]);
        lemma_xor_low5(0u32, 18u32);
        let n1 = Node { id: 18u32, base: 416u32, is_leaf: false, has_value: false };
        assert(spec_child(spec_root(), 114u8) == Some(n1));
        lemma_walk_step(spec_root(), seq![114u8, 105u8], n1);
        assert(seq![114u8, 105u8].drop_first() =~= seq![105u8]);
        lemma_xor_low5(416u32, 9u32);
        let n2 = Node { id: 425u32, base: 2656u32, is_leaf: false, has_value: true };
        assert(spec_child(n1, 105u8) == Some(n2));
        lemma_walk_step(n1, seq![105u8], n2);
        assert(seq![105u8].drop_first() =~= Seq::<u8>::empty());
        assert(spec_walk(n2, Seq::<u8>::empty()) == Some(n2));
        assert(spec_node_value(n2) == Some(67u8));
        assert(syllable_walk_ok(67u8));
    assert(syllable_wf(67u8));
}

proof fn table_case_68()
    ensures
        syllable_walk_ok(68u8),
        syllable_wf(68u8),
{
    reveal_with_fuel(all_lower, 6);
        let s = spec_syllable(68u8);
        assert(s =~= seq![114u8, 111u8]);
        lemma_xor_low5(0u32, 18u32);
        let n1 = Node { id: 18u32, base: 416u32, is_leaf: false, has_value: false };
        assert(spec_child(spec_root(), 114u8) == Some(n1));
        lemma_walk_step(spec_root(), seq![114u8, 111u8], n1);
        assert(seq![114u8, 111u8].drop_first() =~= seq![111u8]);
        lemma_xor_low5(416u32, 15u32);
        let n2 = Node { id: 431u32, base: 2688u32, is_leaf: false, has_value: true };
        assert(spec_child(n1, 111u8) == Some(n2));
        lemma_walk_step(n1, seq![111u8], n2);
        assert(seq![111u8].drop_first() =~= Seq::<u8>::empty());
        assert(spec_walk(n2, Seq::<u8>::empty()) == Some(n2));
        assert(spec_node_value(n2) == Some(68u8));
        assert(syllable_walk_ok(68u8));
    assert(syllable_wf(68u8));
}

proof fn table_case_69()
    ensures
        syllable_walk_ok(69u8),
        syllable_wf(69u8),
{
    reveal_with_fuel(all_lower, 6);
        let s = spec_syllable(69u8);
        assert(s =~= seq![114u8, 117u8]);
        lemma_xor_low5(0u32, 18u32);
        let n1 = Node { id: 18u32, base: 416u32, is_leaf: false, has_value: false };
        assert(spec_child(spec_root(), 114u8) == Some(n1));
        lemma_walk_step(spec_root(), seq![114u8, 117u8], n1);
        assert(seq![114u8, 117u8].drop_first() =~= seq![117u8]);
        lemma_xor_low5(416u32, 21u32);
        let n2 = Node { id: 437u32, base: 2720u32, is_leaf: false, has_value: true };
        assert(spec_child(n1, 117u8) == Some(n2));
        lemma_walk_step(n1, seq![117u8], n2);
        assert(seq![117u8].drop_first() =~= Seq::<u8>::empty());
        assert(spec_walk(n2, Seq::<u8>::empty()) == Some(n2));
        assert(spec_node_value(n2) == Some(69u8));
        assert(syllable_walk_ok(69u8));
    assert(syllable_wf(69u8));
}

proof fn table_case_70()
    ensures
        syllable_walk_ok(70u8),
        syllable_wf(70u8),
{
    reveal_with_fuel(all_lower, 6);
        let s = spec_syllable(70u8);
        assert(s =~= seq![115u8, 97u8]);
        lemma_xor_low5(0u32, 19u32);
        let n1 = Node { id: 19u32, base: 448u32, is_leaf: false, has_value: false };
        assert(spec_child(spec_root(), 115u8) == Some(n1));
        lemma_walk_step(spec_root(), seq![115u8, 97u8], n1);
        assert(seq![115u8, 97u8].drop_first() =~= seq![97u8]);
        lemma_xor_low5(448u32, 1u32);
        let n2 = Node { id: 449u32, base: 2752u32, is_leaf: false, has_value: true };
        assert(spec_child(n1, 97u8) == Some(n2));
        lemma_walk_step(n1, seq![97u8], n2);
        assert(seq![97u8].drop_first() =~= Seq::<u8>::empty());
        assert(spec_walk(n2, Seq::<u8>::empty()) == Some(n2));
        assert(spec_node_value(n2) == Some(70u8));
        assert(syllable_walk_ok(70u8));
    assert(syllable_wf(70u8));
}

proof fn table_case_71()
    ensures
        syllable_walk_ok(71u8),
        syllable_wf(71u8),
{
    reveal_with_fuel(all_lower, 6);
        let s = spec_syllable(71u8);
        assert(s =~= seq![115u8, 101u8]);
        lemma_xor_low5(0u32, 19u32);
        let n1 = Node { id: 19u32, base: 448u32, is_leaf: false, has_value: false };
        assert(spec_child(spec_root(), 115u8) == Some(n1));
        lemma_walk_step(spec_root(), seq![115u8, 101u8], n1);
        assert(seq![115u8, 101u8].drop_first() =~= seq![101u8]);
        lemma_xor_low5(448u32, 5u32);
        let n2 = Node { id: 453u32, base: 2784u32, is_leaf: false, has_value: true };
        assert(spec_child(n1, 101u8) == Some(n2));
        lemma_walk_step(n1, seq![101u8], n2);
        assert(seq![101u8].drop_first() =~= Seq::<u8>::empty());
        assert(spec_walk(n2, Seq::<u8>::empty()) == Some(n2));
        assert(spec_node_value(n2) == Some(71u8));
        assert(syllable_walk_ok(71u8));
    assert(syllable_wf(71u8));
}

proof fn table_case_72()
    ensures
        syllable_walk_ok(72u8),
        syllable_wf(72u8),
{
    reveal_with_fuel(all_lower, 6);
        let s = spec_syllable(72u8);
        assert(s =~= seq![115u8, 105u8]);
        lemma_xor_low5(0u32, 19u32);
        let n1 = Node { id: 19u32, base: 448u32, is_leaf: false, has_value: false };
        assert(spec_child(spec_root(), 115u8) == Some(n1));
        lemma_walk_step(spec_root(), seq![115u8, 105u8], n1);
        assert(seq![115u8, 105u8].drop_first() =~= seq![105u8]);
        lemma_xor_low5(448u32, 9u32);
        let n2 = Node { id: 457u32, base: 2816u32, is_leaf: false, has_value: true };
        assert(spec_child(n1, 105u8) == Some(n2));
        lemma_walk_step(n1, seq![105u8], n2);
        assert(seq![105u8].drop_first() =~= Seq::<u8>::empty());
        assert(spec_walk(n2, Seq::<u8>::empty()) == Some(n2));
        assert(spec_node_value(n2) == Some(72u8));
        assert(syllable_walk_ok(72u8));
    assert(syllable_wf(72u8));
}

proof fn table_case_73()
    ensures
        syllable_walk_ok(73u8),
        syllable_wf(73u8),
{
    reveal_with_fuel(all_lower, 6);
        let s = spec_syllable(73u8);
        assert(s =~= seq![115u8, 111u8]);
        lemma_xor_low5(0u32, 19u32);
        let n1 = Node { id: 19u32, base: 448u32, is_leaf: false, has_value: false };
        assert(spec_child(spec_root(), 115u8) == Some(n1));
        lemma_walk_step(spec_root(), seq![115u8, 111u8], n1);
        assert(seq![115u8, 111u8].drop_first() =~= seq![111u8]);
        lemma_xor_low5(448u32, 15u32);
        let n2 = Node { id: 463u32, base: 2848u32, is_leaf: false, has_value: true };
        assert(spec_child(n1, 111u8) == Some(n2));
        lemma_walk_step(n1, seq![111u8], n2);
        assert(seq![111u8].drop_first() =~= Seq::<u8>::empty());
        assert(spec_walk(n2, Seq::<u8>::empty()) == Some(n2));
        assert(spec_node_value(n2) == Some(73u8));
        assert(syllable_walk_ok(73u8));
    assert(syllable_wf(73u8));
}

proof fn table_case_74()
    ensures
        syllable_walk_ok(74u8),
        syllable_wf(74u8),
{
    reveal_with_fuel(all_lower, 6);
        let s = spec_syllable(74u8);
        assert(s =~= seq![115u8, 117u8]);
        lemma_xor_low5(0u32, 19u32);
        let n1 = Node { id: 19u32, base: 448u32, is_leaf: false, has_value: false };
        assert(spec_child(spec_root(), 115u8) == Some(n1));
        lemma_walk_step(spec_root(), seq![115u8, 117u8], n1);
        assert(seq![115u8, 117u8].drop_first() =~= seq![117u8]);
        lemma_xor_low5(448u32, 21u32);
        let n2 = Node { id: 469u32, base: 2880u32, is_leaf: false, has_value: true };
        assert(spec_child(n1, 117u8) == Some(n2));
        lemma_walk_step(n1, seq![117u8], n2);
        assert(seq![117u8].drop_first() =~= Seq::<u8>::empty());
        assert(spec_walk(n2, Seq::<u8>::empty()) == Some(n2));
        assert(spec_node_value(n2) == Some(74u8));
        assert(syllable_walk_ok(74u8));
    assert(syllable_wf(74u8));
}

proof fn table_case_75()
    ensures
        syllable_walk_ok(75u8),
        syllable_wf(75u8),
{
    reveal_with_fuel(all_lower, 6);
        let s = spec_syllable(75u8);
        assert(s =~= seq![116u8, 97u8]);
        lemma_xor_low5(0u32, 20u32);
        let n1 = Node { id: 20u32, base: 480u32, is_leaf: false, has_value: false };
        assert(spec_child(spec_root(), 116u8) == Some(n1));
        lemma_walk_step(spec_root(), seq![116u8, 97u8], n1);
        assert(seq![116u8, 97u8].drop_first() =~= seq![97u8]);
        lemma_xor_low5(480u32, 1u32);
        let n2 = Node { id: 481u32, base: 2912u32, is_leaf: false, has_value: true };
        assert(spec_child(n1, 97u8) == Some(n2));
        lemma_walk_step(n1, seq![97u8], n2);
        assert(seq![97u8].drop_first() =~= Seq::<u8>::empty());
        assert(spec_walk(n2, Seq::<u8>::empty()) == Some(n2));
        assert(spec_node_value(n2) == Some(75u8));
        assert(syllable_walk_ok(75u8));
    assert(syllable_wf(75u8));
}

proof fn table_case_76()
    ensures
        syllable_walk_ok(76u8),
        syllable_wf(76u8),
{
    reveal_with_fuel(all_lower, 6);
        let s = spec_syllable(76u8);
        assert(s =~= seq![116u8, 101u8]);
        lemma_xor_low5(0u32, 20u32);
        let n1 = Node { id: 20u32, base: 480u32, is_leaf: false, has_value: false };
        assert(spec_child(spec_root(), 116u8) == Some(n1));
        lemma_walk_step(spec_root(), seq![116u8, 101u8], n1);
        assert(seq![116u8, 101u8].drop_first() =~= seq![101u8]);
        lemma_xor_low5(480u32, 5u32);
        let n2 = Node { id: 485u32, base: 2944u32, is_leaf: false, has_value: true };
        assert(spec_child(n1, 101u8) == Some(n2));
        lemma_walk_step(n1, seq![101u8], n2);
        assert(seq![101u8].drop_first() =~= Seq::<u8>::empty());
        assert(spec_walk(n2, Seq::<u8>::empty()) == Some(n2));
        assert(spec_node_value(n2) == Some(76u8));
        assert(syllable_walk_ok(76u8));
    assert(syllable_wf(76u8));
}

proof fn table_case_77()
    ensures
        syllable_walk_ok(77u8),
        syllable_wf(77u8),
{
    reveal_with_fuel(all_lower, 6);
        let s = spec_syllable(77u8);
        assert(s =~= seq![116u8, 105u8]);
        lemma_xor_low5(0u32, 20u32);
        let n1 = Node { id: 20u32, base: 480u32, is_leaf: false, has_value: false };
        assert(spec_child(spec_root(), 116u8) == Some(n1));
        lemma_walk_step(spec_root(), seq![116u8, 105u8], n1);
        assert(seq![116u8, 105u8].drop_first() =~= seq![105u8]);
        lemma_xor_low5(480u32, 9u32);
        let n2 = Node { id: 489u32, base: 2976u32, is_leaf: false, has_value: true };
        assert(spec_child(n1, 105u8) == Some(n2));
        lemma_walk_step(n1, seq![105u8], n2);
        assert(seq![105u8].drop_first() =~= Seq::<u8>::empty());
        assert(spec_walk(n2, Seq::<u8>::empty()) == Some(n2));
        assert(spec_node_value(n2) == Some(77u8));
        assert(syllable_walk_ok(77u8));
    assert(syllable_wf(77u8));
}

proof fn table_case_78()
    ensures
        syllable_walk_ok(78u8),
        syllable_wf(78u8),
{
    reveal_with_fuel(all_lower, 6);
        let s = spec_syllable(78u8);
        assert(s =~= seq![116u8, 111u8]);
        lemma_xor_low5(0u32, 20u32);
        let n1 = Node { id: 20u32, base: 480u32, is_leaf: false, has_value: false };
        assert(spec_child(spec_root(), 116u8) == Some(n1));
        lemma_walk_step(spec_root(), seq![116u8, 111u8], n1);
        assert(seq![116u8, 111u8].drop_first() =~= seq![111u8]);
        lemma_xor_low5(480u32, 15u32);
        let n2 = Node { id: 495u32, base: 3008u32, is_leaf: false, has_value: true };
        assert(spec_child(n1, 111u8) == Some(n2));
        lemma_walk_step(n1, seq![111u8], n2);
        assert(seq![111u8].drop_first() =~= Seq::<u8>::empty());
        assert(spec_walk(n2, Seq::<u8>::empty()) == Some(n2));
        assert(spec_node_value(n2) == Some(78u8));
        assert(syllable_walk_ok(78u8));
    assert(syllable_wf(78u8));
}

proof fn table_case_79()
    ensures
        syllable_walk_ok(79u8),
        syllable_wf(79u8),
{
    reveal_with_fuel(all_lower, 6);
        let s = spec_syllable(79u8);
        assert(s =~= seq![116u8, 117u8]);
        lemma_xor_low5(0u32, 20u32);
        let n1 = Node { id: 20u32, base: 480u32, is_leaf: false, has_value: false };
        assert(spec_child(spec_root(), 116u8) == Some(n1));
        lemma_walk_step(spec_root(), seq![116u8, 117u8], n1);
        assert(seq![116u8, 117u8].drop_first() =~= seq![117u8]);
        lemma_xor_low5(480u32, 21u32);
        let n2 = Node { id: 501u32, base: 3040u32, is_leaf: false, has_value: true };
        assert(spec_child(n1, 117u8) == Some(n2));
        lemma_walk_step(n1, seq![117u8], n2);
        assert(seq![117u8].drop_first() =~= Seq::<u8>::empty());
        assert(spec_walk(n2, Seq::<u8>::empty()) == Some(n2));
        assert(spec_node_value(n2) == Some(79u8));
        assert(syllable_walk_ok(79u8));
    assert(syllable_wf(79u8));
}

proof fn table_case_80()
    ensures
        syllable_walk_ok(80u8),
        syllable_wf(80u8),
{
    reveal_with_fuel(all_lower, 6);
        let s = spec_syllable(80u8);
        assert(s =~= seq![118u8, 97u8]);
        lemma_xor_low5(0u32, 22u32);
        let n1 = Node { id: 22u32, base: 512u32, is_leaf: false, has_value: false };
        assert(spec_child(spec_root(), 118u8) == Some(n1));
        lemma_walk_step(spec_root(), seq![118u8, 97u8], n1);
        assert(seq![118u8, 97u8].drop_first() =~= seq![97u8]);
        lemma_xor_low5(512u32, 1u32);
        let n2 = Node { id: 513u32, base: 3072u32, is_leaf: false, has_value: true };
        assert(spec_child(n1, 97u8) == Some(n2));
        lemma_walk_step(n1, seq![97u8], n2);
        assert(seq![97u8].drop_first() =~= Seq::<u8>::empty());
        assert(spec_walk(n2, Seq::<u8>::empty()) == Some(n2));
        assert(spec_node_value(n2) == Some(80u8));
        assert(syllable_walk_ok(80u8));
    assert(syllable_wf(80u8));
}

proof fn table_case_81()
    ensures
        syllable_walk_ok(81u8),
        syllable_wf(81u8),
{
    reveal_with_fuel(all_lower, 6);
        let s = spec_syllable(81u8);
        assert(s =~= seq![118u8, 101u8]);
        lemma_xor_low5(0u32, 22u32);
        let n1 = Node { id: 22u32, base: 512u32, is_leaf: false, has_value: false };
        assert(spec_child(spec_root(), 118u8) == Some(n1));
        lemma_walk_step(spec_root(), seq![118u8, 101u8], n1);
        assert(seq![118u8, 101u8].drop_first() =~= seq![101u8]);
        lemma_xor_low5(512u32, 5u32);
        let n2 = Node { id: 517u32, base: 3104u32, is_leaf: false, has_value: true };
        assert(spec_child(n1, 101u8) == Some(n2));
        lemma_walk_step(n1, seq![101u8], n2);
        assert(seq![101u8].drop_first() =~= Seq::<u8>::empty());
        assert(spec_walk(n2, Seq::<u8>::empty()) == Some(n2));
        assert(spec_node_value(n2) == Some(81u8));
        assert(syllable_walk_ok(81u8));
    assert(syllable_wf(81u8));
}

proof fn table_case_82()
    ensures
        syllable_walk_ok(82u8),
        syllable_wf(82u8),
{
    reveal_with_fuel(all_lower, 6);
        let s = spec_syllable(82u8);
        assert(s =~= seq![118u8, 105u8]);
        lemma_xor_low5(0u32, 22u32);
        let n1 = Node { id: 22u32, base: 512u32, is_leaf: false, has_value: false };
        assert(spec_child(spec_root(), 118u8) == Some(n1));
        lemma_walk_step(spec_root(), seq![118u8, 105u8], n1);
        assert(seq![118u8, 105u8].drop_first() =~= seq![105u8]);
        lemma_xor_low5(512u32, 9u32);
        let n2 = Node { id: 521u32, base: 3136u32, is_leaf: false, has_value: true };
        assert(spec_child(n1, 105u8) == Some(n2));
        lemma_walk_step(n1, seq![105u8], n2);
        assert(seq![105u8].drop_first() =~= Seq::<u8>::empty());
        assert(spec_walk(n2, Seq::<u8>::empty()) == Some(n2));
        assert(spec_node_value(n2) == Some(82u8));
        assert(syllable_walk_ok(82u8));
    assert(syllable_wf(82u8));
}

proof fn table_case_83()
    ensures
        syllable_walk_ok(83u8),
        syllable_wf(83u8),
{
    reveal_with_fuel(all_lower, 6);
        let s = spec_syllable(83u8);
        assert(s =~= seq![118u8, 111u8]);
        lemma_xor_low5(0u32, 22u32);
        let n1 = Node { id: 22u32, base: 512u32, is_leaf: false, has_value: false };
        assert(spec_child(spec_root(), 118u8) == Some(n1));
        lemma_walk_step(spec_root(), seq![118u8, 111u8], n1);
        assert(seq![118u8, 111u8].drop_first() =~= seq![111u8]);
        lemma_xor_low5(512u32, 15u32);
        let n2 = Node { id: 527u32, base: 3168u32, is_leaf: false, has_value: true };
        assert(spec_child(n1, 111u8) == Some(n2));
        lemma_walk_step(n1, seq![111u8], n2);
        assert(seq![111u8].drop_first() =~= Seq::<u8>::empty());
        assert(spec_walk(n2, Seq::<u8>::empty()) == Some(n2));
        assert(spec_node_value(n2) == Some(83u8));
        assert(syllable_walk_ok(83u8));
    assert(syllable_wf(83u8));
}

proof fn table_case_84()
    ensures
        syllable_walk_ok(84u8),
        syllable_wf(84u8),
{
    reveal_with_fuel(all_lower, 6);
        let s = spec_syllable(84u8);
        assert(s =~= seq![118u8, 117u8]);
        lemma_xor_low5(0u32, 22u32);
        let n1 = Node { id: 22u32, base: 512u32, is_leaf: false, has_value: false };
        assert(spec_child(spec_root(), 118u8) == Some(n1));
        lemma_walk_step(spec_root(), seq![118u8, 117u8], n1);
        assert(seq![118u8, 117u8].drop_first() =~= seq![117u8]);
        lemma_xor_low5(512u32, 21u32);
        let n2 = Node { id: 533u32, base: 3200u32, is_leaf: false, has_value: true };
        assert(spec_child(n1, 117u8) == Some(n2));
        lemma_walk_step(n1, seq![117u8], n2);
        assert(seq![117u8].drop_first() =~= Seq::<u8>::empty());
        assert(spec_walk(n2, Seq::<u8>::empty()) == Some(n2));
        assert(spec_node_value(n2) == Some(84u8));
        assert(syllable_walk_ok(84u8));
    assert(syllable_wf(84u8));
}

proof fn table_case_85()
    ensures
        syllable_walk_ok(85u8),
        syllable_wf(85u8),
{
    reveal_with_fuel(all_lower, 6);
        let s = spec_syllable(85u8);
        assert(s =~= seq![119u8, 97u8]);
        lemma_xor_low5(0u32, 23u32);
        let n1 = Node { id: 23u32, base: 544u32, is_leaf: false, has_value: false };
        assert(spec_child(spec_root(), 119u8) == Some(n1));
        lemma_walk_step(spec_root(), seq![119u8, 97u8], n1);
        assert(seq![119u8, 97u8].drop_first() =~= seq![97u8]);
        lemma_xor_low5(544u32, 1u32);
        let n2 = Node { id: 545u32, base: 3232u32, is_leaf: false, has_value: true };
        assert(spec_child(n1, 97u8) == Some(n2));
        lemma_walk_step(n1, seq![97u8], n2);
        assert(seq![97u8].drop_first() =~= Seq::<u8>::empty());
        assert(spec_walk(n2, Seq::<u8>::empty()) == Some(n2));
        assert(spec_node_value(n2) == Some(85u8));
        assert(syllable_walk_ok(85u8));
    assert(syllable_wf(85u8));
}

proof fn table_case_86()
    ensures
        syllable_walk_ok(86u8),
        syllable_wf(86u8),
{
    reveal_with_fuel(all_lower, 6);
        let s = spec_syllable(86u8);
        assert(s =~= seq![119u8, 101u8]);
        lemma_xor_low5(0u32, 23u32);
        let n1 = Node { id: 23u32, base: 544u32, is_leaf: false, has_value: false };
        assert(spec_child(spec_root(), 119u8) == Some(n1));
        lemma_walk_step(spec_root(), seq![119u8, 101u8], n1);
        assert(seq![119u8, 101u8].drop_first() =~= seq![101u8]);
        lemma_xor_low5(544u32, 5u32);
        let n2 = Node { id: 549u32, base: 3264u32, is_leaf: false, has_value: true };
        assert(spec_child(n1, 101u8) == Some(n2));
        lemma_walk_step(n1, seq![101u8], n2);
        assert(seq![101u8].drop_first() =~= Seq::<u8>::empty());
        assert(spec_walk(n2, Seq::<u8>::empty()) == Some(n2));
        assert(spec_node_value(n2) == Some(86u8));
        assert(syllable_walk_ok(86u8));
    assert(syllable_wf(86u8));
}

proof fn table_case_87()
    ensures
        syllable_walk_ok(87u8),
        syllable_wf(87u8),
{
    reveal_with_fuel(all_lower, 6);
        let s = spec_syllable(87u8);
        assert(s =~= seq![119u8, 105u8]);
        lemma_xor_low5(0u32, 23u32);
        let n1 = Node { id: 23u32, base: 544u32, is_leaf: false, has_value: false };
        assert(spec_child(spec_root(), 119u8) == Some(n1));
        lemma_walk_step(spec_root(), seq![119u8, 105u8], n1);
        assert(seq![119u8, 105u8].drop_first() =~= seq![105u8]);
        lemma_xor_low5(544u32, 9u32);
        let n2 = Node { id: 553u32, base: 3296u32, is_leaf: false, has_value: true };
        assert(spec_child(n1, 105u8) == Some(n2));
        lemma_walk_step(n1, seq![105u8], n2);
        assert(seq![105u8].drop_first() =~= Seq::<u8>::empty());
        assert(spec_walk(n2, Seq::<u8>::empty()) == Some(n2));
        assert(spec_node_value(n2) == Some(87u8));
        assert(syllable_walk_ok(87u8));
    assert(syllable_wf(87u8));
}

proof fn table_case_88()
    ensures
        syllable_walk_ok(88u8),
        syllable_wf(88u8),
{
    reveal_with_fuel(all_lower, 6);
        let s = spec_syllable(88u8);
        assert(s =~= seq![119u8, 111u8]);
        lemma_xor_low5(0u32, 23u32);
        let n1 = Node { id: 23u32, base: 544u32, is_leaf: false, has_value: false };
        assert(spec_child(spec_root(), 119u8) == Some(n1));
        lemma_walk_step(spec_root(), seq![119u8, 111u8], n1);
        assert(seq![119u8, 111u8].drop_first() =~= seq![111u8]);
        lemma_xor_low5(544u32, 15u32);
        let n2 = Node { id: 559u32, base: 3328u32, is_leaf: false, has_value: true };
        assert(spec_child(n1, 111u8) == Some(n2));
        lemma_walk_step(n1, seq![111u8], n2);
        assert(seq![111u8].drop_first() =~= Seq::<u8>::empty());
        assert(spec_walk(n2, Seq::<u8>::empty()) == Some(n2));
        assert(spec_node_value(n2) == Some(88u8));
        assert(syllable_walk_ok(88u8));
    assert(syllable_wf(88u8));
}

proof fn table_case_89()
    ensures
        syllable_walk_ok(89u8),
        syllable_wf(89u8),
{
    reveal_with_fuel(all_lower, 6);
        let s = spec_syllable(89u8);
        assert(s =~= seq![119u8, 117u8]);
        lemma_xor_low5(0u32, 23u32);
        let n1 = Node { id: 23u32, base: 544u32, is_leaf: false, has_value: false };
        assert(spec_child(spec_root(), 119u8) == Some(n1));
        lemma_walk_step(spec_root(), seq![119u8, 117u8], n1);
        assert(seq![119u8, 117u8].drop_first() =~= seq![117u8]);
        lemma_xor_low5(544u32, 21u32);
        let n2 = Node { id: 565u32, base: 3360u32, is_leaf: false, has_value: true };
        assert(spec_child(n1, 117u8) == Some(n2));
        lemma_walk_step(n1, seq![117u8], n2);
        assert(seq![117u8].drop_first() =~= Seq::<u8>::empty());
        assert(spec_walk(n2, Seq::<u8>::empty()) == Some(n2));
        assert(spec_node_value(n2) == Some(89u8));
        assert(syllable_walk_ok(89u8));
    assert(syllable_wf(89u8));
}

proof fn table_case_90()
    ensures
        syllable_walk_ok(90u8),
        syllable_wf(90u8),
{
    reveal_with_fuel(all_lower, 6);
        let s = spec_syllable(90u8);
        assert(s =~= seq![120u8, 97u8]);
        lemma_xor_low5(0u32, 24u32);
        let n1 = Node { id: 24u32, base: 576u32, is_leaf: false, has_value: false };
        assert(spec_child(spec_root(), 120u8) == Some(n1));
        lemma_walk_step(spec_root(), seq![120u8, 97u8], n1);
        assert(seq![120u8, 97u8].drop_first() =~= seq![97u8]);
        lemma_xor_low5(576u32, 1u32);
        let n2 = Node { id: 577u32, base: 3392u32, is_leaf: false, has_value: true };
        assert(spec_child(n1, 97u8) == Some(n2));
        lemma_walk_step(n1, seq![97u8], n2);
        assert(seq![97u8].drop_first() =~= Seq::<u8>::empty());
        assert(spec_walk(n2, Seq::<u8>::empty()) == Some(n2));
        assert(spec_node_value(n2) == Some(90u8));
        assert(syllable_walk_ok(90u8));
    assert(syllable_wf(90u8));
}

proof fn table_case_91()
    ensures
        syllable_walk_ok(91u8),
        syllable_wf(91u8),
{
    reveal_with_fuel(all_lower, 6);
        let s = spec_syllable(91u8);
        assert(s =~= seq![120u8, 101u8]);
        lemma_xor_low5(0u32, 24u32);
        let n1 = Node { id: 24u32, base: 576u32, is_leaf: false, has_value: false };
        assert(spec_child(spec_root(), 120u8) == Some(n1));
        lemma_walk_step(spec_root(), seq![120u8, 101u8], n1);
        assert(seq![120u8, 101u8].drop_first() =~= seq![101u8]);
        lemma_xor_low5(576u32, 5u32);
        let n2 = Node { id: 581u32, base: 3424u32, is_leaf: false, has_value: true };
        assert(spec_child(n1, 101u8) == Some(n2));
        lemma_walk_step(n1, seq![101u8], n2);
        assert(seq![101u8].drop_first() =~= Seq::<u8>::empty());
        assert(spec_walk(n2, Seq::<u8>::empty()) == Some(n2));
        assert(spec_node_value(n2) == Some(91u8));
        assert(syllable_walk_ok(91u8));
    assert(syllable_wf(91u8));
}

proof fn table_case_92()
    ensures
        syllable_walk_ok(92u8),
        syllable_wf(92u8),
{
    reveal_with_fuel(all_lower, 6);
        let s = spec_syllable(92u8);
        assert(s =~= seq![120u8, 105u8]);
        lemma_xor_low5(0u32, 24u32);
        let n1 = Node { id: 24u32, base: 576u32, is_leaf: false, has_value: false };
        assert(spec_child(spec_root(), 120u8) == Some(n1));
        lemma_walk_step(spec_root(), seq![120u8, 105u8], n1);
        assert(seq![120u8, 105u8].drop_first() =~= seq![105u8]);
        lemma_xor_low5(576u32, 9u32);
        let n2 = Node { id: 585u32, base: 3456u32, is_leaf: false, has_value: true };
        assert(spec_child(n1, 105u8) == Some(n2));
        lemma_walk_step(n1, seq![105u8], n2);
        assert(seq![105u8].drop_first() =~= Seq::<u8>::empty());
        assert(spec_walk(n2, Seq::<u8>::empty()) == Some(n2));
        assert(spec_node_value(n2) == Some(92u8));
        assert(syllable_walk_ok(92u8));
    assert(syllable_wf(92u8));
}

proof fn table_case_93()
    ensures
        syllable_walk_ok(93u8),
        syllable_wf(93u8),
{
    reveal_with_fuel(all_lower, 6);
        let s = spec_syllable(93u8);
        assert(s =~= seq![120u8, 111u8]);
        lemma_xor_low5(0u32, 24u32);
        let n1 = Node { id: 24u32, base: 576u32, is_leaf: false, has_value: false };
        assert(spec_child(spec_root(), 120u8) == Some(n1));
        lemma_walk_step(spec_root(), seq![120u8, 111u8], n1);
        assert(seq![120u8, 111u8].drop_first() =~= seq![111u8]);
        lemma_xor_low5(576u32, 15u32);
        let n2 = Node { id: 591u32, base: 3488u32, is_leaf: false, has_value: true };
        assert(spec_child(n1, 111u8) == Some(n2));
        lemma_walk_step(n1, seq![111u8], n2);
        assert(seq![111u8].drop_first() =~= Seq::<u8>::empty());
        assert(spec_walk(n2, Seq::<u8>::empty()) == Some(n2));
        assert(spec_node_value(n2) == Some(93u8));
        assert(syllable_walk_ok(93u8));
    assert(syllable_wf(93u8));
}

proof fn table_case_94()
    ensures
        syllable_walk_ok(94u8),
        syllable_wf(94u8),
{
    reveal_with_fuel(all_lower, 6);
        let s = spec_syllable(94u8);
        assert(s =~= seq![120u8, 117u8]);
        lemma_xor_low5(0u32, 24u32);
        let n1 = Node { id: 24u32, base: 576u32, is_leaf: false, has_value: false };
        assert(spec_child(spec_root(), 120u8) == Some(n1));
        lemma_walk_step(spec_root(), seq![120u8, 117u8], n1);
        assert(seq![120u8, 117u8].drop_first() =~= seq![117u8]);
        lemma_xor_low5(576u32, 21u32);
        let n2 = Node { id: 597u32, base: 3520u32, is_leaf: false, has_value: true };
        assert(spec_child(n1, 117u8) == Some(n2));
        lemma_walk_step(n1, seq![117u8], n2);
        assert(seq![117u8].drop_first() =~= Seq::<u8>::empty());
        assert(spec_walk(n2, Seq::<u8>::empty()) == Some(n2));
        assert(spec_node_value(n2) == Some(94u8));
        assert(syllable_walk_ok(94u8));
    assert(syllable_wf(94u8));
}

proof fn table_case_95()
    ensures
        syllable_walk_ok(95u8),
        syllable_wf(95u8),
{
    reveal_with_fuel(all_lower, 6);
        let s = spec_syllable(95u8);
        assert(s =~= seq![121u8, 97u8]);
        lemma_xor_low5(0u32, 25u32);
        let n1 = Node { id: 25u32, base: 608u32, is_leaf: false, has_value: false };
        assert(spec_child(spec_root(), 121u8) == Some(n1));
        lemma_walk_step(spec_root(), seq![121u8, 97u8], n1);
        assert(seq![121u8, 97u8].drop_first() =~= seq![97u8]);
        lemma_xor_low5(608u32, 1u32);
        let n2 = Node { id: 609u32, base: 3552u32, is_leaf: false, has_value: true };
        assert(spec_child(n1, 97u8) == Some(n2));
        lemma_walk_step(n1, seq![97u8], n2);
        assert(seq![97u8].drop_first() =~= Seq::<u8>::empty());
        assert(spec_walk(n2, Seq::<u8>::empty()) == Some(n2));
        assert(spec_node_value(n2) == Some(95u8));
        assert(syllable_walk_ok(95u8));
    assert(syllable_wf(95u8));
}

proof fn table_case_96()
    ensures
        syllable_walk_ok(96u8),
        syllable_wf(96u8),
{
    reveal_with_fuel(all_lower, 6);
        let s = spec_syllable(96u8);
        assert(s =~= seq![121u8, 101u8]);
        lemma_xor_low5(0u32, 25u32);
        let n1 = Node { id: 25u32, base: 608u32, is_leaf: false, has_value: false };
        assert(spec_child(spec_root(), 121u8) == Some(n1));
        lemma_walk_step(spec_root(), seq![121u8, 101u8], n1);
        assert(seq![121u8, 101u8].drop_first() =~= seq![101u8]);
        lemma_xor_low5(608u32, 5u32);
        let n2 = Node { id: 613u32, base: 3584u32, is_leaf: false, has_value: true };
        assert(spec_child(n1, 101u8) == Some(n2));
        lemma_walk_step(n1, seq![101u8], n2);
        assert(seq![101u8].drop_first() =~= Seq::<u8>::empty());
        assert(spec_walk(n2, Seq::<u8>::empty()) == Some(n2));
        assert(spec_node_value(n2) == Some(96u8));
        assert(syllable_walk_ok(96u8));
    assert(syllable_wf(96u8));
}

proof fn table_case_97()
    ensures
        syllable_walk_ok(97u8),
        syllable_wf(97u8),
{
    reveal_with_fuel(all_lower, 6);
        let s = spec_syllable(97u8);
        assert(s =~= seq![121u8, 105u8]);
        lemma_xor_low5(0u32, 25u32);
        let n1 = Node { id: 25u32, base: 608u32, is_leaf: false, has_value: false };
        assert(spec_child(spec_root(), 121u8) == Some(n1));
        lemma_walk_step(spec_root(), seq![121u8, 105u8], n1);
        assert(seq![121u8, 105u8].drop_first() =~= seq![105u8]);
        lemma_xor_low5(608u32, 9u32);
        let n2 = Node { id: 617u32, base: 3616u32, is_leaf: false, has_value: true };
        assert(spec_child(n1, 105u8) == Some(n2));
        lemma_walk_step(n1, seq![105u8], n2);
        assert(seq![105u8].drop_first() =~= Seq::<u8>::empty());
        assert(spec_walk(n2, Seq::<u8>::empty()) == Some(n2));
        assert(spec_node_value(n2) == Some(97u8));
        assert(syllable_walk_ok(97u8));
    assert(syllable_wf(97u8));
}

proof fn table_case_98()
    ensures
        syllable_walk_ok(98u8),
        syllable_wf(98u8),
{
    reveal_with_fuel(all_lower, 6);
        let s = spec_syllable(98u8);
        assert(s =~= seq![121u8, 111u8]);
        lemma_xor_low5(0u32, 25u32);
        let n1 = Node { id: 25u32, base: 608u32, is_leaf: false, has_value: false };
        assert(spec_child(spec_root(), 121u8) == Some(n1));
        lemma_walk_step(spec_root(), seq![121u8, 111u8], n1);
        assert(seq![121u8, 111u8].drop_first() =~= seq![111u8]);
        lemma_xor_low5(608u32, 15u32);
        let n2 = Node { id: 623u32, base: 3648u32, is_leaf: false, has_value: true };
        assert(spec_child(n1, 111u8) == Some(n2));
        lemma_walk_step(n1, seq![111u8], n2);
        assert(seq![111u8].drop_first() =~= Seq::<u8>::empty());
        assert(spec_walk(n2, Seq::<u8>::empty()) == Some(n2));
        assert(spec_node_value(n2) == Some(98u8));
        assert(syllable_walk_ok(98u8));
    assert(syllable_wf(98u8));
}

proof fn table_case_99()
    ensures
        syllable_walk_ok(99u8),
        syllable_wf(99u8),
{
    reveal_with_fuel(all_lower, 6);
        let s = spec_syllable(99u8);
        assert(s =~= seq![121u8, 117u8]);
        lemma_xor_low5(0u32, 25u32);
        let n1 = Node { id: 25u32, base: 608u32, is_leaf: false, has_value: false };
        assert(spec_child(spec_root(), 121u8) == Some(n1));
        lemma_walk_step(spec_root(), seq![121u8, 117u8], n1);
        assert(seq![121u8, 117u8].drop_first() =~= seq![117u8]);
        lemma_xor_low5(608u32, 21u32);
        let n2 = Node { id: 629u32, base: 3680u32, is_leaf: false, has_value: true };
        assert(spec_child(n1, 117u8) == Some(n2));
        lemma_walk_step(n1, seq![117u8], n2);
        assert(seq![117u8].drop_first() =~= Seq::<u8>::empty());
        assert(spec_walk(n2, Seq::<u8>::empty()) == Some(n2));
        assert(spec_node_value(n2) == Some(99u8));
        assert(syllable_walk_ok(99u8));
    assert(syllable_wf(99u8));
}

proof fn table_case_100()
    ensures
        syllable_walk_ok(100u8),
        syllable_wf(100u8),
{
    reveal_with_fuel(all_lower, 6);
        let s = spec_syllable(100u8);
        assert(s =~= seq![122u8, 97u8]);
        lemma_xor_low5(0u32, 26u32);
        let n1 = Node { id: 26u32, base: 640u32, is_leaf: false, has_value: false };
        assert(spec_child(spec_root(), 122u8) == Some(n1));
        lemma_walk_step(spec_root(), seq![122u8, 97u8], n1);
        assert(seq![122u8, 97u8].drop_first() =~= seq![97u8]);
        lemma_xor_low5(640u32, 1u32);
        let n2 = Node { id: 641u32, base: 3712u32, is_leaf: false, has_value: true };
        assert(spec_child(n1, 97u8) == Some(n2));
        lemma_walk_step(n1, seq![97u8], n2);
        assert(seq![97u8].drop_first() =~= Seq::<u8>::empty());
        assert(spec_walk(n2, Seq::<u8>::empty()) == Some(n2));
        assert(spec_node_value(n2) == Some(100u8));
        assert(syllable_walk_ok(100u8));
    assert(syllable_wf(100u8));
}

proof fn table_case_101()
    ensures
        syllable_walk_ok(101u8),
        syllable_wf(101u8),
{
    reveal_with_fuel(all_lower, 6);
        let s = spec_syllable(101u8);
        assert(s =~= seq![122u8, 101u8]);
        lemma_xor_low5(0u32, 26u32);
        let n1 = Node { id: 26u32, base: 640u32, is_leaf: false, has_value: false };
        assert(spec_child(spec_root(), 122u8) == Some(n1));
        lemma_walk_step(spec_root(), seq![122u8, 101u8], n1);
        assert(seq![122u8, 101u8].drop_first() =~= seq![101u8]);
        lemma_xor_low5(640u32, 5u32);
        let n2 = Node { id: 645u32, base: 3744u32, is_leaf: false, has_value: true };
        assert(spec_child(n1, 101u8) == Some(n2));
        lemma_walk_step(n1, seq![101u8], n2);
        assert(seq![101u8].drop_first() =~= Seq::<u8>::empty());
        assert(spec_walk(n2, Seq::<u8>::empty()) == Some(n2));
        assert(spec_node_value(n2) == Some(101u8));
        assert(syllable_walk_ok(101u8));
    assert(syllable_wf(101u8));
}

proof fn table_case_102()
    ensures
        syllable_walk_ok(102u8),
        syllable_wf(102u8),
{
    reveal_with_fuel(all_lower, 6);
        let s = spec_syllable(102u8);
        assert(s =~= seq![122u8, 105u8]);
        lemma_xor_low5(0u32, 26u32);
        let n1 = Node { id: 26u32, base: 640u32, is_leaf: false, has_value: false };
        assert(spec_child(spec_root(), 122u8) == Some(n1));
        lemma_walk_step(spec_root(), seq![122u8, 105u8], n1);
        assert(seq![122u8, 105u8].drop_first() =~= seq![105u8]);
        lemma_xor_low5(640u32, 9u32);
        let n2 = Node { id: 649u32, base: 3776u32, is_leaf: false, has_value: true };
        assert(spec_child(n1, 105u8) == Some(n2));
        lemma_walk_step(n1, seq![105u8], n2);
        assert(seq![105u8].drop_first() =~= Seq::<u8>::empty());
        assert(spec_walk(n2, Seq::<u8>::empty()) == Some(n2));
        assert(spec_node_value(n2) == Some(102u8));
        assert(syllable_walk_ok(102u8));
    assert(syllable_wf(102u8));
}

proof fn table_case_103()
    ensures
        syllable_walk_ok(103u8),
        syllable_wf(103u8),
{
    reveal_with_fuel(all_lower, 6);
        let s = spec_syllable(103u8);
        assert(s =~= seq![122u8, 111u8]);
        lemma_xor_low5(0u32, 26u32);
        let n1 = Node { id: 26u32, base: 640u32, is_leaf: false, has_value: false };
        assert(spec_child(spec_root(), 122u8) == Some(n1));
        lemma_walk_step(spec_root(), seq![122u8, 111u8], n1);
        assert(seq![122u8, 111u8].drop_first() =~= seq![111u8]);
        lemma_xor_low5(640u32, 15u32);
        let n2 = Node { id: 655u32, base: 3808u32, is_leaf: false, has_value: true };
        assert(spec_child(n1, 111u8) == Some(n2));
        lemma_walk_step(n1, seq![111u8], n2);
        assert(seq![111u8].drop_first() =~= Seq::<u8>::empty());
        assert(spec_walk(n2, Seq::<u8>::empty()) == Some(n2));
        assert(spec_node_value(n2) == Some(103u8));
        assert(syllable_walk_ok(103u8));
    assert(syllable_wf(103u8));
}

proof fn table_case_104()
    ensures
        syllable_walk_ok(104u8),
        syllable_wf(104u8),
{
    reveal_with_fuel(all_lower, 6);
        let s = spec_syllable(104u8);
        assert(s =~= seq![122u8, 117u8]);
        lemma_xor_low5(0u32, 26u32);
        let n1 = Node { id: 26u32, base: 640u32, is_leaf: false, has_value: false };
        assert(spec_child(spec_root(), 122u8) == Some(n1));
        lemma_walk_step(spec_root(), seq![122u8, 117u8], n1);
        assert(seq![122u8, 117u8].drop_first() =~= seq![117u8]);
        lemma_xor_low5(640u32, 21u32);
        let n2 = Node { id: 661u32, base: 3840u32, is_leaf: false, has_value: true };
        assert(spec_child(n1, 117u8) == Some(n2));
        lemma_walk_step(n1, seq![117u8], n2);
        assert(seq![117u8].drop_first() =~= Seq::<u8>::empty());
        assert(spec_walk(n2, Seq::<u8>::empty()) == Some(n2));
        assert(spec_node_value(n2) == Some(104u8));
        assert(syllable_walk_ok(104u8));
    assert(syllable_wf(104u8));
}

proof fn table_case_105()
    ensures
        syllable_walk_ok(105u8),
        syllable_wf(105u8),
{
    reveal_with_fuel(all_lower, 6);
        let s = spec_syllable(105u8);
        assert(s =~= seq![98u8, 97u8, 110u8]);
        lemma_xor_low5(0u32, 2u32);
        let n1 = Node { id: 2u32, base: 32u32, is_leaf: false, has_value: false };
        assert(spec_child(spec_root(), 98u8) == Some(n1));
        lemma_walk_step(spec_root(), seq![98u8, 97u8, 110u8], n1);
        assert(seq![98u8, 97u8, 110u8].drop_first() =~= seq![97u8, 110u8]);
        lemma_xor_low5(32u32, 1u32);
        let n2 = Node { id: 33u32, base: 672u32, is_leaf: false, has_value: true };
        assert(spec_child(n1, 97u8) == Some(n2));
        lemma_walk_step(n1, seq![97u8, 110u8], n2);
        assert(seq![97u8, 110u8].drop_first() =~= seq![110u8]);
        lemma_xor_low5(672u32, 14u32);
        let n3 = Node { id: 686u32, base: 105u32, is_leaf: true, has_value: true };
        assert(spec_child(n2, 110u8) == Some(n3));
        lemma_walk_step(n2, seq![110u8], n3);
        assert(seq![110u8].drop_first() =~= Seq::<u8>::empty());
        assert(spec_walk(n3, Seq::<u8>::empty()) == Some(n3));
        assert(spec_node_value(n3) == Some(105u8));
        assert(syllable_walk_ok(105u8));
    assert(syllable_wf(105u8));
}

proof fn table_case_106()
    ensures
        syllable_walk_ok(106u8),
        syllable_wf(106u8),
{
    reveal_with_fuel(all_lower, 6);
        let s = spec_syllable(106u8);
        assert(s =~= seq![98u8, 101u8, 110u8]);
        lemma_xor_low5(0u32, 2u32);
        let n1 = Node { id: 2u32, base: 32u32, is_leaf: false, has_value: false };
        assert(spec_child(spec_root(), 98u8) == Some(n1));
        lemma_walk_step(spec_root(), seq![98u8, 101u8, 110u8], n1);
        assert(seq![98u8, 101u8, 110u8].drop_first() =~= seq![101u8, 110u8]);
        lemma_xor_low5(32u32, 5u32);
        let n2 = Node { id: 37u32, base: 704u32, is_leaf: false, has_value: true };
        assert(spec_child(n1, 101u8) == Some(n2));
        lemma_walk_step(n1, seq![101u8, 110u8], n2);
        assert(seq![101u8, 110u8].drop_first() =~= seq![110u8]);
        lemma_xor_low5(704u32, 14u32);
        let n3 = Node { id: 718u32, base: 106u32, is_leaf: true, has_value: true };
        assert(spec_child(n2, 110u8) == Some(n3));
        lemma_walk_step(n2, seq![110u8], n3);
        assert(seq![110u8].drop_first() =~= Seq::<u8>::empty());
        assert(spec_walk(n3, Seq::<u8>::empty()) == Some(n3));
        assert(spec_node_value(n3) == Some(106u8));
        assert(syllable_walk_ok(106u8));
    assert(syllable_wf(106u8));
}

proof fn table_case_107()
    ensures
        syllable_walk_ok(107u8),
        syllable_wf(107u8),
{
    reveal_with_fuel(all_lower, 6);
        let s = spec_syllable(107u8);
        assert(s =~= seq![98u8, 105u8, 110u8]);
        lemma_xor_low5(0u32, 2u32);
        let n1 = Node { id: 2u32, base: 32u32, is_leaf: false, has_value: false };
        assert(spec_child(spec_root(), 98u8) == Some(n1));
        lemma_walk_step(spec_root(), seq![98u8, 105u8, 110u8], n1);
        assert(seq![98u8, 105u8, 110u8].drop_first() =~= seq![105u8, 110u8]);
        lemma_xor_low5(32u32, 9u32);
        let n2 = Node { id: 41u32, base: 736u32, is_leaf: false, has_value: true };
        assert(spec_child(n1, 105u8) == Some(n2));
        lemma_walk_step(n1, seq![105u8, 110u8], n2);
        assert(seq![105u8, 110u8].drop_first() =~= seq![110u8]);
        lemma_xor_low5(736u32, 14u32);
        let n3 = Node { id: 750u32, base: 107u32, is_leaf: true, has_value: true };
        assert(spec_child(n2, 110u8) == Some(n3));
        lemma_walk_step(n2, seq![110u8], n3);
        assert(seq![110u8].drop_first() =~= Seq::<u8>::empty());
        assert(spec_walk(n3, Seq::<u8>::empty()) == Some(n3));
        assert(spec_node_value(n3) == Some(107u8));
        assert(syllable_walk_ok(107u8));
    assert(syllable_wf(107u8));
}

proof fn table_case_108()
    ensures
        syllable_walk_ok(108u8),
        syllable_wf(108u8),
{
    reveal_with_fuel(all_lower, 6);
        let s = spec_syllable(108u8);
        assert(s =~= seq![98u8, 111u8, 110u8]);
        lemma_xor_low5(0u32, 2u32);
        let n1 = Node { id: 2u32, base: 32u32, is_leaf: false, has_value: false };
        assert(spec_child(spec_root(), 98u8) == Some(n1));
        lemma_walk_step(spec_root(), seq![98u8, 111u8, 110u8], n1);
        assert(seq![98u8, 111u8, 110u8].drop_first() =~= seq![111u8, 110u8]);
        lemma_xor_low5(32u32, 15u32);
        let n2 = Node { id: 47u32, base: 768u32, is_leaf: false, has_value: true };
        assert(spec_child(n1, 111u8) == Some(n2));
        lemma_walk_step(n1, seq![111u8, 110u8], n2);
        assert(seq![111u8, 110u8].drop_first() =~= seq![110u8]);
        lemma_xor_low5(768u32, 14u32);
        let n3 = Node { id: 782u32, base: 108u32, is_leaf: true, has_value: true };
        assert(spec_child(n2, 110u8) == Some(n3));
        lemma_walk_step(n2, seq![110u8], n3);
        assert(seq![110u8].drop_first() =~= Seq::<u8>::empty());
        assert(spec_walk(n3, Seq::<u8>::empty()) == Some(n3));
        assert(spec_node_value(n3) == Some(108u8));
        assert(syllable_walk_ok(108u8));
    assert(syllable_wf(108u8));
}

proof fn table_case_109()
    ensures
        syllable_walk_ok(109u8),
        syllable_wf(109u8),
{
    reveal_with_fuel(all_lower, 6);
        let s = spec_syllable(109u8);
        assert(s =~= seq![98u8, 117u8, 110u8]);
        lemma_xor_low5(0u32, 2u32);
        let n1 = Node { id: 2u32, base: 32u32, is_leaf: false, has_value: false };
        assert(spec_child(spec_root(), 98u8) == Some(n1));
        lemma_walk_step(spec_root(), seq![98u8, 117u8, 110u8], n1);
        assert(seq![98u8, 117u8, 110u8].drop_first() =~= seq![117u8, 110u8]);
        lemma_xor_low5(32u32, 21u32);
        let n2 = Node { id: 53u32, base: 800u32, is_leaf: false, has_value: true };
        assert(spec_child(n1, 117u8) == Some(n2));
        lemma_walk_step(n1, seq![117u8, 110u8], n2);
        assert(seq![117u8, 110u8].drop_first() =~= seq![110u8]);
        lemma_xor_low5(800u32, 14u32);
        let n3 = Node { id: 814u32, base: 109u32, is_leaf: true, has_value: true };
        assert(spec_child(n2, 110u8) == Some(n3));
        lemma_walk_step(n2, seq![110u8], n3);
        assert(seq![110u8].drop_first() =~= Seq::<u8>::empty());
        assert(spec_walk(n3, Seq::<u8>::empty()) == Some(n3));
        assert(spec_node_value(n3) == Some(109u8));
        assert(syllable_walk_ok(109u8));
    assert(syllable_wf(109u8));
}

proof fn table_case_110()
    ensures
        syllable_walk_ok(110u8),
        syllable_wf(110u8),
{
    reveal_with_fuel(all_lower, 6);
        let s = spec_syllable(110u8);
        assert(s =~= seq![99u8, 97u8, 110u8]);
        lemma_xor_low5(0u32, 3u32);
        let n1 = Node { id: 3u32, base: 64u32, is_leaf: false, has_value: false };
        assert(spec_child(spec_root(), 99u8) == Some(n1));
        lemma_walk_step(spec_root(), seq![99u8, 97u8, 110u8], n1);
        assert(seq![99u8, 97u8, 110u8].drop_first() =~= seq![97u8, 110u8]);
        lemma_xor_low5(64u32, 1u32);
        let n2 = Node { id: 65u32, base: 832u32, is_leaf: false, has_value: true };
        assert(spec_child(n1, 97u8) == Some(n2));
        lemma_walk_step(n1, seq![97u8, 110u8], n2);
        assert(seq![97u8, 110u8].drop_first() =~= seq![110u8]);
        lemma_xor_low5(832u32, 14u32);
        let n3 = Node { id: 846u32, base: 110u32, is_leaf: true, has_value: true };
        assert(spec_child(n2, 110u8) == Some(n3));
        lemma_walk_step(n2, seq![110u8], n3);
        assert(seq![110u8].drop_first() =~= Seq::<u8>::empty());
        assert(spec_walk(n3, Seq::<u8>::empty()) == Some(n3));
        assert(spec_node_value(n3) == Some(110u8));
        assert(syllable_walk_ok(110u8));
    assert(syllable_wf(110u8));
}

proof fn table_case_111()
    ensures
        syllable_walk_ok(111u8),
        syllable_wf(111u8),
{
    reveal_with_fuel(all_lower, 6);
        let s = spec_syllable(111u8);
        assert(s =~= seq![99u8, 101u8, 110u8]);
        lemma_xor_low5(0u32, 3u32);
        let n1 = Node { id: 3u32, base: 64u32, is_leaf: false, has_value: false };
        assert(spec_child(spec_root(), 99u8) == Some(n1));
        lemma_walk_step(spec_root(), seq![99u8, 101u8, 110u8], n1);
        assert(seq![99u8, 101u8, 110u8].drop_first() =~= seq![101u8, 110u8]);
        lemma_xor_low5(64u32, 5u32);
        let n2 = Node { id: 69u32, base: 864u32, is_leaf: false, has_value: true };
        assert(spec_child(n1, 101u8) == Some(n2));
        lemma_walk_step(n1, seq![101u8, 110u8], n2);
        assert(seq![101u8, 110u8].drop_first() =~= seq![110u8]);
        lemma_xor_low5(864u32, 14u32);
        let n3 = Node { id: 878u32, base: 111u32, is_leaf: true, has_value: true };
        assert(spec_child(n2, 110u8) == Some(n3));
        lemma_walk_step(n2, seq![110u8], n3);
        assert(seq![110u8].drop_first() =~= Seq::<u8>::empty());
        assert(spec_walk(n3, Seq::<u8>::empty()) == Some(n3));
        assert(spec_node_value(n3) == Some(111u8));
        assert(syllable_walk_ok(111u8));
    assert(syllable_wf(111u8));
}

proof fn table_case_112()
    ensures
        syllable_walk_ok(112u8),
        syllable_wf(112u8),
{
    reveal_with_fuel(all_lower, 6);
        let s = spec_syllable(112u8);
        assert(s =~= seq![99u8, 105u8, 110u8]);
        lemma_xor_low5(0u32, 3u32);
        let n1 = Node { id: 3u32, base: 64u32, is_leaf: false, has_value: false };
        assert(spec_child(spec_root(), 99u8) == Some(n1));
        lemma_walk_step(spec_root(), seq![99u8, 105u8, 110u8], n1);
        assert(seq![99u8, 105u8, 110u8].drop_first() =~= seq![105u8, 110u8]);
        lemma_xor_low5(64u32, 9u32);
        let n2 = Node { id: 73u32, base: 896u32, is_leaf: false, has_value: true };
        assert(spec_child(n1, 105u8) == Some(n2));
        lemma_walk_step(n1, seq![105u8, 110u8], n2);
        assert(seq![105u8, 110u8].drop_first() =~= seq![110u8]);
        lemma_xor_low5(896u32, 14u32);
        let n3 = Node { id: 910u32, base: 112u32, is_leaf: true, has_value: true };
        assert(spec_child(n2, 110u8) == Some(n3));
        lemma_walk_step(n2, seq![110u8], n3);
        assert(seq![110u8].drop_first() =~= Seq::<u8>::empty());
        assert(spec_walk(n3, Seq::<u8>::empty()) == Some(n3));
        assert(spec_node_value(n3) == Some(112u8));
        assert(syllable_walk_ok(112u8));
    assert(syllable_wf(112u8));
}

proof fn table_case_113()
    ensures
        syllable_walk_ok(113u8),
        syllable_wf(113u8),
{
    reveal_with_fuel(all_lower, 6);
        let s = spec_syllable(113u8);
        assert(s =~= seq![99u8, 111u8, 110u8]);
        lemma_xor_low5(0u32, 3u32);
        let n1 = Node { id: 3u32, base: 64u32, is_leaf: false, has_value: false };
        assert(spec_child(spec_root(), 99u8) == Some(n1));
        lemma_walk_step(spec_root(), seq![99u8, 111u8, 110u8], n1);
        assert(seq![99u8, 111u8, 110u8].drop_first() =~= seq![111u8, 110u8]);
        lemma_xor_low5(64u32, 15u32);
        let n2 = Node { id: 79u32, base: 928u32, is_leaf: false, has_value: true };
        assert(spec_child(n1, 111u8) == Some(n2));
        lemma_walk_step(n1, seq![111u8, 110u8], n2);
        assert(seq![111u8, 110u8].drop_first() =~= seq![110u8]);
        lemma_xor_low5(928u32, 14u32);
        let n3 = Node { id: 942u32, base: 113u32, is_leaf: true, has_value: true };
        assert(spec_child(n2, 110u8) == Some(n3));
        lemma_walk_step(n2, seq![110u8], n3);
        assert(seq![110u8].drop_first() =~= Seq::<u8>::empty());
        assert(spec_walk(n3, Seq::<u8>::empty()) == Some(n3));
        assert(spec_node_value(n3) == Some(113u8));
        assert(syllable_walk_ok(113u8));
    assert(syllable_wf(113u8));
}

proof fn table_case_114()
    ensures
        syllable_walk_ok(114u8),
        syllable_wf(114u8),
{
    reveal_with_fuel(all_lower, 6);
        let s = spec_syllable(114u8);
        assert(s =~= seq![99u8, 117u8, 110u8]);
        lemma_xor_low5(0u32, 3u32);
        let n1 = Node { id: 3u32, base: 64u32, is_leaf: false, has_value: false };
        assert(spec_child(spec_root(), 99u8) == Some(n1));
        lemma_walk_step(spec_root(), seq![99u8, 117u8, 110u8], n1);
        assert(seq![99u8, 117u8, 110u8].drop_first() =~= seq![117u8, 110u8]);
        lemma_xor_low5(64u32, 21u32);
        let n2 = Node { id: 85u32, base: 960u32, is_leaf: false, has_value: true };
        assert(spec_child(n1, 117u8) == Some(n2));
        lemma_walk_step(n1, seq![117u8, 110u8], n2);
        assert(seq![117u8, 110u8].drop_first() =~= seq![110u8]);
        lemma_xor_low5(960u32, 14u32);
        let n3 = Node { id: 974u32, base: 114u32, is_leaf: true, has_value: true };
        assert(spec_child(n2, 110u8) == Some(n3));
        lemma_walk_step(n2, seq![110u8], n3);
        assert(seq![110u8].drop_first() =~= Seq::<u8>::empty());
        assert(spec_walk(n3, Seq::<u8>::empty()) == Some(n3));
        assert(spec_node_value(n3) == Some(114u8));
        assert(syllable_walk_ok(114u8));
    assert(syllable_wf(114u8));
}

proof fn table_case_115()
    ensures
        syllable_walk_ok(115u8),
        syllable_wf(115u8),
{
    reveal_with_fuel(all_lower, 6);
        let s = spec_syllable(115u8);
        assert(s =~= seq![100u8, 97u8, 110u8]);
        lemma_xor_low5(0u32, 4u32);
        let n1 = Node { id: 4u32, base: 96u32, is_leaf: false, has_value: false };
        assert(spec_child(spec_root(), 100u8) == Some(n1));
        lemma_walk_step(spec_root(), seq![100u8, 97u8, 110u8], n1);
        assert(seq![100u8, 97u8, 110u8].drop_first() =~= seq![97u8, 110u8]);
        lemma_xor_low5(96u32, 1u32);
        let n2 = Node { id: 97u32, base: 992u32, is_leaf: false, has_value: true };
        assert(spec_child(n1, 97u8) == Some(n2));
        lemma_walk_step(n1, seq![97u8, 110u8], n2);
        assert(seq![97u8, 110u8].drop_first() =~= seq![110u8]);
        lemma_xor_low5(992u32, 14u32);
        let n3 = Node { id: 1006u32, base: 115u32, is_leaf: true, has_value: true };
        assert(spec_child(n2, 110u8) == Some(n3));
        lemma_walk_step(n2, seq![110u8], n3);
        assert(seq![110u8].drop_first() =~= Seq::<u8>::empty());
        assert(spec_walk(n3, Seq::<u8>::empty()) == Some(n3));
        assert(spec_node_value(n3) == Some(115u8));
        assert(syllable_walk_ok(115u8));
    assert(syllable_wf(115u8));
}

proof fn table_case_116()
    ensures
        syllable_walk_ok(116u8),
        syllable_wf(116u8),
{
    reveal_with_fuel(all_lower, 6);
        let s = spec_syllable(116u8);
        assert(s =~= seq![100u8, 101u8, 110u8]);
        lemma_xor_low5(0u32, 4u32);
        let n1 = Node { id: 4u32, base: 96u32, is_leaf: false, has_value: false };
        assert(spec_child(spec_root(), 100u8) == Some(n1));
        lemma_walk_step(spec_root(), seq![100u8, 101u8, 110u8], n1);
        assert(seq![100u8, 101u8, 110u8].drop_first() =~= seq![101u8, 110u8]);
        lemma_xor_low5(96u32, 5u32);
        let n2 = Node { id: 101u32, base: 1024u32, is_leaf: false, has_value: true };
        assert(spec_child(n1, 101u8) == Some(n2));
        lemma_walk_step(n1, seq![101u8, 110u8], n2);
        assert(seq![101u8, 110u8].drop_first() =~= seq![110u8]);
        lemma_xor_low5(1024u32, 14u32);
        let n3 = Node { id: 1038u32, base: 116u32, is_leaf: true, has_value: true };
        assert(spec_child(n2, 110u8) == Some(n3));
        lemma_walk_step(n2, seq![110u8], n3);
        assert(seq![110u8].drop_first() =~= Seq::<u8>::empty());
        assert(spec_walk(n3, Seq::<u8>::empty()) == Some(n3));
        assert(spec_node_value(n3) == Some(116u8));
        assert(syllable_walk_ok(116u8));
    assert(syllable_wf(116u8));
}

proof fn table_case_117()
    ensures
        syllable_walk_ok(117u8),
        syllable_wf(117u8),
{
    reveal_with_fuel(all_lower, 6);
        let s = spec_syllable(117u8);
        assert(s =~= seq![100u8, 105u8, 110u8]);
        lemma_xor_low5(0u32, 4u32);
        let n1 = Node { id: 4u32, base: 96u32, is_leaf: false, has_value: false };
        assert(spec_child(spec_root(), 100u8) == Some(n1));
        lemma_walk_step(spec_root(), seq![100u8, 105u8, 110u8], n1);
        assert(seq![100u8, 105u8, 110u8].drop_first() =~= seq![105u8, 110u8]);
        lemma_xor_low5(96u32, 9u32);
        let n2 = Node { id: 105u32, base: 1056u32, is_leaf: false, has_value: true };
        assert(spec_child(n1, 105u8) == Some(n2));
        lemma_walk_step(n1, seq![105u8, 110u8], n2);
        assert(seq![105u8, 110u8].drop_first() =~= seq![110u8]);
        lemma_xor_low5(1056u32, 14u32);
        let n3 = Node { id: 1070u32, base: 117u32, is_leaf: true, has_value: true };
        assert(spec_child(n2, 110u8) == Some(n3));
        lemma_walk_step(n2, seq![110u8], n3);
        assert(seq![110u8].drop_first() =~= Seq::<u8>::empty());
        assert(spec_walk(n3, Seq::<u8>::empty()) == Some(n3));
        assert(spec_node_value(n3) == Some(117u8));
        assert(syllable_walk_ok(117u8));
    assert(syllable_wf(117u8));
}

proof fn table_case_118()
    ensures
        syllable_walk_ok(118u8),
        syllable_wf(118u8),
{
    reveal_with_fuel(all_lower, 6);
        let s = spec_syllable(118u8);
        assert(s =~= seq![100u8, 111u8, 110u8]);
        lemma_xor_low5(0u32, 4u32);
        let n1 = Node { id: 4u32, base: 96u32, is_leaf: false, has_value: false };
        assert(spec_child(spec_root(), 100u8) == Some(n1));
        lemma_walk_step(spec_root(), seq![100u8, 111u8, 110u8], n1);
        assert(seq![100u8, 111u8, 110u8].drop_first() =~= seq![111u8, 110u8]);
        lemma_xor_low5(96u32, 15u32);
        let n2 = Node { id: 111u32, base: 1088u32, is_leaf: false, has_value: true };
        assert(spec_child(n1, 111u8) == Some(n2));
        lemma_walk_step(n1, seq![111u8, 110u8], n2);
        assert(seq![111u8, 110u8].drop_first() =~= seq![110u8]);
        lemma_xor_low5(1088u32, 14u32);
        let n3 = Node { id: 1102u32, base: 118u32, is_leaf: true, has_value: true };
        assert(spec_child(n2, 110u8) == Some(n3));
        lemma_walk_step(n2, seq![110u8], n3);
        assert(seq![110u8].drop_first() =~= Seq::<u8>::empty());
        assert(spec_walk(n3, Seq::<u8>::empty()) == Some(n3));
        assert(spec_node_value(n3) == Some(118u8));
        assert(syllable_walk_ok(118u8));
    assert(syllable_wf(118u8));
}

proof fn table_case_119()
    ensures
        syllable_walk_ok(119u8),
        syllable_wf(119u8),
{
    reveal_with_fuel(all_lower, 6);
        let s = spec_syllable(119u8);
        assert(s =~= seq![100u8, 117u8, 110u8]);
        lemma_xor_low5(0u32, 4u32);
        let n1 = Node { id: 4u32, base: 96u32, is_leaf: false, has_value: false };
        assert(spec_child(spec_root(), 100u8) == Some(n1));
        lemma_walk_step(spec_root(), seq![100u8, 117u8, 110u8], n1);
        assert(seq![100u8, 117u8, 110u8].drop_first() =~= seq![117u8, 110u8]);
        lemma_xor_low5(96u32, 21u32);
        let n2 = Node { id: 117u32, base: 1120u32, is_leaf: false, has_value: true };
        assert(spec_child(n1, 117u8) == Some(n2));
        lemma_walk_step(n1, seq![117u8, 110u8], n2);
        assert(seq![117u8, 110u8].drop_first() =~= seq![110u8]);
        lemma_xor_low5(1120u32, 14u32);
        let n3 = Node { id: 1134u32, base: 119u32, is_leaf: true, has_value: true };
        assert(spec_child(n2, 110u8) == Some(n3));
        lemma_walk_step(n2, seq![110u8], n3);
        assert(seq![110u8].drop_first() =~= Seq::<u8>::empty());
        assert(spec_walk(n3, Seq::<u8>::empty()) == Some(n3));
        assert(spec_node_value(n3) == Some(119u8));
        assert(syllable_walk_ok(119u8));
    assert(syllable_wf(119u8));
}

proof fn table_case_120()
    ensures
        syllable_walk_ok(120u8),
        syllable_wf(120u8),
{
    reveal_with_fuel(all_lower, 6);
        let s = spec_syllable(120u8);
        assert(s =~= seq![102u8, 97u8, 110u8]);
        lemma_xor_low5(0u32, 6u32);
        let n1 = Node { id: 6u32, base: 128u32, is_leaf: false, has_value: false };
        assert(spec_child(spec_root(), 102u8) == Some(n1));
        lemma_walk_step(spec_root(), seq![102u8, 97u8, 110u8], n1);
        assert(seq![102u8, 97u8, 110u8].drop_first() =~= seq![97u8, 110u8]);
        lemma_xor_low5(128u32, 1u32);
        let n2 = Node { id: 129u32, base: 1152u32, is_leaf: false, has_value: true };
        assert(spec_child(n1, 97u8) == Some(n2));
        lemma_walk_step(n1, seq![97u8, 110u8], n2);
        assert(seq![97u8, 110u8].drop_first() =~= seq![110u8]);
        lemma_xor_low5(1152u32, 14u32);
        let n3 = Node { id: 1166u32, base: 120u32, is_leaf: true, has_value: true };
        assert(spec_child(n2, 110u8) == Some(n3));
        lemma_walk_step(n2, seq![110u8], n3);
        assert(seq![110u8].drop_first() =~= Seq::<u8>::empty());
        assert(spec_walk(n3, Seq::<u8>::empty()) == Some(n3));
        assert(spec_node_value(n3) == Some(120u8));
        assert(syllable_walk_ok(120u8));
    assert(syllable_wf(120u8));
}

proof fn table_case_121()
    ensures
        syllable_walk_ok(121u8),
        syllable_wf(121u8),
{
    reveal_with_fuel(all_lower, 6);
        let s = spec_syllable(121u8);
        assert(s =~= seq![102u8, 101u8, 110u8]);
        lemma_xor_low5(0u32, 6u32);
        let n1 = Node { id: 6u32, base: 128u32, is_leaf: false, has_value: false };
        assert(spec_child(spec_root(), 102u8) == Some(n1));
        lemma_walk_step(spec_root(), seq![102u8, 101u8, 110u8], n1);
        assert(seq![102u8, 101u8, 110u8].drop_first() =~= seq![101u8, 110u8]);
        lemma_xor_low5(128u32, 5u32);
        let n2 = Node { id: 133u32, base: 1184u32, is_leaf: false, has_value: true };
        assert(spec_child(n1, 101u8) == Some(n2));
        lemma_walk_step(n1, seq![101u8, 110u8], n2);
        assert(seq![101u8, 110u8].drop_first() =~= seq![110u8]);
        lemma_xor_low5(1184u32, 14u32);
        let n3 = Node { id: 1198u32, base: 121u32, is_leaf: true, has_value: true };
        assert(spec_child(n2, 110u8) == Some(n3));
        lemma_walk_step(n2, seq![110u8], n3);
        assert(seq![110u8].drop_first() =~= Seq::<u8>::empty());
        assert(spec_walk(n3, Seq::<u8>::empty()) == Some(n3));
        assert(spec_node_value(n3) == Some(121u8));
        assert(syllable_walk_ok(121u8));
    assert(syllable_wf(121u8));
}

proof fn table_case_122()
    ensures
        syllable_walk_ok(122u8),
        syllable_wf(122u8),
{
    reveal_with_fuel(all_lower, 6);
        let s = spec_syllable(122u8);
        assert(s =~= seq![102u8, 105u8, 110u8]);
        lemma_xor_low5(0u32, 6u32);
        let n1 = Node { id: 6u32, base: 128u32, is_leaf: false, has_value: false };
        assert(spec_child(spec_root(), 102u8) == Some(n1));
        lemma_walk_step(spec_root(), seq![102u8, 105u8, 110u8], n1);
        assert(seq![102u8, 105u8, 110u8].drop_first() =~= seq![105u8, 110u8]);
        lemma_xor_low5(128u32, 9u32);
        let n2 = Node { id: 137u32, base: 1216u32, is_leaf: false, has_value: true };
        assert(spec_child(n1, 105u8) == Some(n2));
        lemma_walk_step(n1, seq![105u8, 110u8], n2);
        assert(seq![105u8, 110u8].drop_first() =~= seq![110u8]);
        lemma_xor_low5(1216u32, 14u32);
        let n3 = Node { id: 1230u32, base: 122u32, is_leaf: true, has_value: true };
        assert(spec_child(n2, 110u8) == Some(n3));
        lemma_walk_step(n2, seq![110u8], n3);
        assert(seq![110u8].drop_first() =~= Seq::<u8>::empty());
        assert(spec_walk(n3, Seq::<u8>::empty()) == Some(n3));
        assert(spec_node_value(n3) == Some(122u8));
        assert(syllable_walk_ok(122u8));
    assert(syllable_wf(122u8));
}

proof fn table_case_123()
    ensures
        syllable_walk_ok(123u8),
        syllable_wf(123u8),
{
    reveal_with_fuel(all_lower, 6);
        let s = spec_syllable(123u8);
        assert(s =~= seq![102u8, 111u8, 110u8]);
        lemma_xor_low5(0u32, 6u32);
        let n1 = Node { id: 6u32, base: 128u32, is_leaf: false, has_value: false };
        assert(spec_child(spec_root(), 102u8) == Some(n1));
        lemma_walk_step(spec_root(), seq![102u8, 111u8, 110u8], n1);
        assert(seq![102u8, 111u8, 110u8].drop_first() =~= seq![111u8, 110u8]);
        lemma_xor_low5(128u32, 15u32);
        let n2 = Node { id: 143u32, base: 1248u32, is_leaf: false, has_value: true };
        assert(spec_child(n1, 111u8) == Some(n2));
        lemma_walk_step(n1, seq![111u8, 110u8], n2);
        assert(seq![111u8, 110u8].drop_first() =~= seq![110u8]);
        lemma_xor_low5(1248u32, 14u32);
        let n3 = Node { id: 1262u32, base: 123u32, is_leaf: true, has_value: true };
        assert(spec_child(n2, 110u8) == Some(n3));
        lemma_walk_step(n2, seq![110u8], n3);
        assert(seq![110u8].drop_first() =~= Seq::<u8>::empty());
        assert(spec_walk(n3, Seq::<u8>::empty()) == Some(n3));
        assert(spec_node_value(n3) == Some(123u8));
        assert(syllable_walk_ok(123u8));
    assert(syllable_wf(123u8));
}

proof fn table_case_124()
    ensures
        syllable_walk_ok(124u8),
        syllable_wf(124u8),
{
    reveal_with_fuel(all_lower, 6);
        let s = spec_syllable(124u8);
        assert(s =~= seq![102u8, 117u8, 110u8]);
        lemma_xor_low5(0u32, 6u32);
        let n1 = Node { id: 6u32, base: 128u32, is_leaf: false, has_value: false };
        assert(spec_child(spec_root(), 102u8) == Some(n1));
        lemma_walk_step(spec_root(), seq![102u8, 117u8, 110u8], n1);
        assert(seq![102u8, 117u8, 110u8].drop_first() =~= seq![117u8, 110u8]);
        lemma_xor_low5(128u32, 21u32);
        let n2 = Node { id: 149u32, base: 1280u32, is_leaf: false, has_value: true };
        assert(spec_child(n1, 117u8) == Some(n2));
        lemma_walk_step(n1, seq![117u8, 110u8], n2);
        assert(seq![117u8, 110u8].drop_first() =~= seq![110u8]);
        lemma_xor_low5(1280u32, 14u32);
        let n3 = Node { id: 1294u32, base: 124u32, is_leaf: true, has_value: true };
        assert(spec_child(n2, 110u8) == Some(n3));
        lemma_walk_step(n2, seq![110u8], n3);
        assert(seq![110u8].drop_first() =~= Seq::<u8>::empty());
        assert(spec_walk(n3, Seq::<u8>::empty()) == Some(n3));
        assert(spec_node_value(n3) == Some(124u8));
        assert(syllable_walk_ok(124u8));
    assert(syllable_wf(124u8));
}

proof fn table_case_125()
    ensures
        syllable_walk_ok(125u8),
        syllable_wf(125u8),
{
    reveal_with_fuel(all_lower, 6);
        let s = spec_syllable(125u8);
        assert(s =~= seq![103u8, 97u8, 110u8]);
        lemma_xor_low5(0u32, 7u32);
        let n1 = Node { id: 7u32, base: 160u32, is_leaf: false, has_value: false };
        assert(spec_child(spec_root(), 103u8) == Some(n1));
        lemma_walk_step(spec_root(), seq![103u8, 97u8, 110u8], n1);
        assert(seq![103u8, 97u8, 110u8].drop_first() =~= seq![97u8, 110u8]);
        lemma_xor_low5(160u32, 1u32);
        let n2 = Node { id: 161u32, base: 1312u32, is_leaf: false, has_value: true };
        assert(spec_child(n1, 97u8) == Some(n2));
        lemma_walk_step(n1, seq![97u8, 110u8], n2);
        assert(seq![97u8, 110u8].drop_first() =~= seq![110u8]);
        lemma_xor_low5(1312u32, 14u32);
        let n3 = Node { id: 1326u32, base: 125u32, is_leaf: true, has_value: true };
        assert(spec_child(n2, 110u8) == Some(n3));
        lemma_walk_step(n2, seq![110u8], n3);
        assert(seq![110u8].drop_first() =~= Seq::<u8>::empty());
        assert(spec_walk(n3, Seq::<u8>::empty()) == Some(n3));
        assert(spec_node_value(n3) == Some(125u8));
        assert(syllable_walk_ok(125u8));
    assert(syllable_wf(125u8));
}

proof fn table_case_126()
    ensures
        syllable_walk_ok(126u8),
        syllable_wf(126u8),
{
    reveal_with_fuel(all_lower, 6);
        let s = spec_syllable(126u8);
        assert(s =~= seq![103u8, 101u8, 110u8]);
        lemma_xor_low5(0u32, 7u32);
        let n1 = Node { id: 7u32, base: 160u32, is_leaf: false, has_value: false };
        assert(spec_child(spec_root(), 103u8) == Some(n1));
        lemma_walk_step(spec_root(), seq![103u8, 101u8, 110u8], n1);
        assert(seq![103u8, 101u8, 110u8].drop_first() =~= seq![101u8, 110u8]);
        lemma_xor_low5(160u32, 5u32);
        let n2 = Node { id: 165u32, base: 1344u32, is_leaf: false, has_value: true };
        assert(spec_child(n1, 101u8) == Some(n2));
        lemma_walk_step(n1, seq![101u8, 110u8], n2);
        assert(seq![101u8, 110u8].drop_first() =~= seq![110u8]);
        lemma_xor_low5(1344u32, 14u32);
        let n3 = Node { id: 1358u32, base: 126u32, is_leaf: true, has_value: true };
        assert(spec_child(n2, 110u8) == Some(n3));
        lemma_walk_step(n2, seq![110u8], n3);
        assert(seq![110u8].drop_first() =~= Seq::<u8>::empty());
        assert(spec_walk(n3, Seq::<u8>::empty()) == Some(n3));
        assert(spec_node_value(n3) == Some(126u8));
        assert(syllable_walk_ok(126u8));
    assert(syllable_wf(126u8));
}

proof fn table_case_127()
    ensures
        syllable_walk_ok(127u8),
        syllable_wf(127u8),
{
    reveal_with_fuel(all_lower, 6);
        let s = spec_syllable(127u8);
        assert(s =~= seq![103u8, 105u8, 110u8]);
        lemma_xor_low5(0u32, 7u32);
        let n1 = Node { id: 7u32, base: 160u32, is_leaf: false, has_value: false };
        assert(spec_child(spec_root(), 103u8) == Some(n1));
        lemma_walk_step(spec_root(), seq![103u8, 105u8, 110u8], n1);
        assert(seq![103u8, 105u8, 110u8].drop_first() =~= seq![105u8, 110u8]);
        lemma_xor_low5(160u32, 9u32);
        let n2 = Node { id: 169u32, base: 1376u32, is_leaf: false, has_value: true };
        assert(spec_child(n1, 105u8) == Some(n2));
        lemma_walk_step(n1, seq![105u8, 110u8], n2);
        assert(seq![105u8, 110u8].drop_first() =~= seq![110u8]);
        lemma_xor_low5(1376u32, 14u32);
        let n3 = Node { id: 1390u32, base: 127u32, is_leaf: true, has_value: true };
        assert(spec_child(n2, 110u8) == Some(n3));
        lemma_walk_step(n2, seq![110u8], n3);
        assert(seq![110u8].drop_first() =~= Seq::<u8>::empty());
        assert(spec_walk(n3, Seq::<u8>::empty()) == Some(n3));
        assert(spec_node_value(n3) == Some(127u8));
        assert(syllable_walk_ok(127u8));
    assert(syllable_wf(127u8));
}

proof fn table_case_128()
    ensures
        syllable_walk_ok(128u8),
        syllable_wf(128u8),
{
    reveal_with_fuel(all_lower, 6);
        let s = spec_syllable(128u8);
        assert(s =~= seq![103u8, 111u8, 110u8]);
        lemma_xor_low5(0u32, 7u32);
        let n1 = Node { id: 7u32, base: 160u32, is_leaf: false, has_value: false };
        assert(spec_child(spec_root(), 103u8) == Some(n1));
        lemma_walk_step(spec_root(), seq![103u8, 111u8, 110u8], n1);
        assert(seq![103u8, 111u8, 110u8].drop_first() =~= seq![111u8, 110u8]);
        lemma_xor_low5(160u32, 15u32);
        let n2 = Node { id: 175u32, base: 1408u32, is_leaf: false, has_value: true };
        assert(spec_child(n1, 111u8) == Some(n2));
        lemma_walk_step(n1, seq![111u8, 110u8], n2);
        assert(seq![111u8, 110u8].drop_first() =~= seq![110u8]);
        lemma_xor_low5(1408u32, 14u32);
        let n3 = Node { id: 1422u32, base: 128u32, is_leaf: true, has_value: true };
        assert(spec_child(n2, 110u8) == Some(n3));
        lemma_walk_step(n2, seq![110u8], n3);
        assert(seq![110u8].drop_first() =~= Seq::<u8>::empty());
        assert(spec_walk(n3, Seq::<u8>::empty()) == Some(n3));
        assert(spec_node_value(n3) == Some(128u8));
        assert(syllable_walk_ok(128u8));
    assert(syllable_wf(128u8));
}

proof fn table_case_129()
    ensures
        syllable_walk_ok(129u8),
        syllable_wf(129u8),
{
    reveal_with_fuel(all_lower, 6);
        let s = spec_syllable(129u8);
        assert(s =~= seq![103u8, 117u8, 110u8]);
        lemma_xor_low5(0u32, 7u32);
        let n1 = Node { id: 7u32, base: 160u32, is_leaf: false, has_value: false };
        assert(spec_child(spec_root(), 103u8) == Some(n1));
        lemma_walk_step(spec_root(), seq![103u8, 117u8, 110u8], n1);
        assert(seq![103u8, 117u8, 110u8].drop_first() =~= seq![117u8, 110u8]);
        lemma_xor_low5(160u32, 21u32);
        let n2 = Node { id: 181u32, base: 1440u32, is_leaf: false, has_value: true };
        assert(spec_child(n1, 117u8) == Some(n2));
        lemma_walk_step(n1, seq![117u8, 110u8], n2);
        assert(seq![117u8, 110u8].drop_first() =~= seq![110u8]);
        lemma_xor_low5(1440u32, 14u32);
        let n3 = Node { id: 1454u32, base: 129u32, is_leaf: true, has_value: true };
        assert(spec_child(n2, 110u8) == Some(n3));
        lemma_walk_step(n2, seq![110u8], n3);
        assert(seq![110u8].drop_first() =~= Seq::<u8>::empty());
        assert(spec_walk(n3, Seq::<u8>::empty()) == Some(n3));
        assert(spec_node_value(n3) == Some(129u8));
        assert(syllable_walk_ok(129u8));
    assert(syllable_wf(129u8));
}

proof fn table_case_130()
    ensures
        syllable_walk_ok(130u8),
        syllable_wf(130u8),
{
    reveal_with_fuel(all_lower, 6);
        let s = spec_syllable(130u8);
        assert(s =~= seq![104u8, 97u8, 110u8]);
        lemma_xor_low5(0u32, 8u32);
        let n1 = Node { id: 8u32, base: 192u32, is_leaf: false, has_value: false };
        assert(spec_child(spec_root(), 104u8) == Some(n1));
        lemma_walk_step(spec_root(), seq![104u8, 97u8, 110u8], n1);
        assert(seq![104u8, 97u8, 110u8].drop_first() =~= seq![97u8, 110u8]);
        lemma_xor_low5(192u32, 1u32);
        let n2 = Node { id: 193u32, base: 1472u32, is_leaf: false, has_value: true };
        assert(spec_child(n1, 97u8) == Some(n2));
        lemma_walk_step(n1, seq![97u8, 110u8], n2);
        assert(seq![97u8, 110u8].drop_first() =~= seq![110u8]);
        lemma_xor_low5(1472u32, 14u32);
        let n3 = Node { id: 1486u32, base: 130u32, is_leaf: true, has_value: true };
        assert(spec_child(n2, 110u8) == Some(n3));
        lemma_walk_step(n2, seq![110u8], n3);
        assert(seq![110u8].drop_first() =~= Seq::<u8>::empty());
        assert(spec_walk(n3, Seq::<u8>::empty()) == Some(n3));
        assert(spec_node_value(n3) == Some(130u8));
        assert(syllable_walk_ok(130u8));
    assert(syllable_wf(130u8));
}

proof fn table_case_131()
    ensures
        syllable_walk_ok(131u8),
        syllable_wf(131u8),
{
    reveal_with_fuel(all_lower, 6);
        let s = spec_syllable(131u8);
        assert(s =~= seq![104u8, 101u8, 110u8]);
        lemma_xor_low5(0u32, 8u32);
        let n1 = Node { id: 8u32, base: 192u32, is_leaf: false, has_value: false };
        assert(spec_child(spec_root(), 104u8) == Some(n1));
        lemma_walk_step(spec_root(), seq![104u8, 101u8, 110u8], n1);
        assert(seq![104u8, 101u8, 110u8].drop_first() =~= seq![101u8, 110u8]);
        lemma_xor_low5(192u32, 5u32);
        let n2 = Node { id: 197u32, base: 1504u32, is_leaf: false, has_value: true };
        assert(spec_child(n1, 101u8) == Some(n2));
        lemma_walk_step(n1, seq![101u8, 110u8], n2);
        assert(seq![101u8, 110u8].drop_first() =~= seq![110u8]);
        lemma_xor_low5(1504u32, 14u32);
        let n3 = Node { id: 1518u32, base: 131u32, is_leaf: true, has_value: true };
        assert(spec_child(n2, 110u8) == Some(n3));
        lemma_walk_step(n2, seq![110u8], n3);
        assert(seq![110u8].drop_first() =~= Seq::<u8>::empty());
        assert(spec_walk(n3, Seq::<u8>::empty()) == Some(n3));
        assert(spec_node_value(n3) == Some(131u8));
        assert(syllable_walk_ok(131u8));
    assert(syllable_wf(131u8));
}

proof fn table_case_132()
    ensures
        syllable_walk_ok(132u8),
        syllable_wf(132u8),
{
    reveal_with_fuel(all_lower, 6);
        let s = spec_syllable(132u8);
        assert(s =~= seq![104u8, 105u8, 110u8]);
        lemma_xor_low5(0u32, 8u32);
        let n1 = Node { id: 8u32, base: 192u32, is_leaf: false, has_value: false };
        assert(spec_child(spec_root(), 104u8) == Some(n1));
        lemma_walk_step(spec_root(), seq![104u8, 105u8, 110u8], n1);
        assert(seq![104u8, 105u8, 110u8].drop_first() =~= seq![105u8, 110u8]);
        lemma_xor_low5(192u32, 9u32);
        let n2 = Node { id: 201u32, base: 1536u32, is_leaf: false, has_value: true };
        assert(spec_child(n1, 105u8) == Some(n2));
        lemma_walk_step(n1, seq![105u8, 110u8], n2);
        assert(seq![105u8, 110u8].drop_first() =~= seq![110u8]);
        lemma_xor_low5(1536u32, 14u32);
        let n3 = Node { id: 1550u32, base: 132u32, is_leaf: true, has_value: true };
        assert(spec_child(n2, 110u8) == Some(n3));
        lemma_walk_step(n2, seq![110u8], n3);
        assert(seq![110u8].drop_first() =~= Seq::<u8>::empty());
        assert(spec_walk(n3, Seq::<u8>::empty()) == Some(n3));
        assert(spec_node_value(n3) == Some(132u8));
        assert(syllable_walk_ok(132u8));
    assert(syllable_wf(132u8));
}

proof fn table_case_133()
    ensures
        syllable_walk_ok(133u8),
        syllable_wf(133u8),
{
    reveal_with_fuel(all_lower, 6);
        let s = spec_syllable(133u8);
        assert(s =~= seq![104u8, 111u8, 110u8]);
        lemma_xor_low5(0u32, 8u32);
        let n1 = Node { id: 8u32, base: 192u32, is_leaf: false, has_value: false };
        assert(spec_child(spec_root(), 104u8) == Some(n1));
        lemma_walk_step(spec_root(), seq![104u8, 111u8, 110u8], n1);
        assert(seq![104u8, 111u8, 110u8].drop_first() =~= seq![111u8, 110u8]);
        lemma_xor_low5(192u32, 15u32);
        let n2 = Node { id: 207u32, base: 1568u32, is_leaf: false, has_value: true };
        assert(spec_child(n1, 111u8) == Some(n2));
        lemma_walk_step(n1, seq![111u8, 110u8], n2);
        assert(seq![111u8, 110u8].drop_first() =~= seq![110u8]);
        lemma_xor_low5(1568u32, 14u32);
        let n3 = Node { id: 1582u32, base: 133u32, is_leaf: true, has_value: true };
        assert(spec_child(n2, 110u8) == Some(n3));
        lemma_walk_step(n2, seq![110u8], n3);
        assert(seq![110u8].drop_first() =~= Seq::<u8>::empty());
        assert(spec_walk(n3, Seq::<u8>::empty()) == Some(n3));
        assert(spec_node_value(n3) == Some(133u8));
        assert(syllable_walk_ok(133u8));
    assert(syllable_wf(133u8));
}

proof fn table_case_134()
    ensures
        syllable_walk_ok(134u8),
        syllable_wf(134u8),
{
    reveal_with_fuel(all_lower, 6);
        let s = spec_syllable(134u8);
        assert(s =~= seq![104u8, 117u8, 110u8]);
        lemma_xor_low5(0u32, 8u32);
        let n1 = Node { id: 8u32, base: 192u32, is_leaf: false, has_value: false };
        assert(spec_child(spec_root(), 104u8) == Some(n1));
        lemma_walk_step(spec_root(), seq![104u8, 117u8, 110u8], n1);
        assert(seq![104u8, 117u8, 110u8].drop_first() =~= seq![117u8, 110u8]);
        lemma_xor_low5(192u32, 21u32);
        let n2 = Node { id: 213u32, base: 1600u32, is_leaf: false, has_value: true };
        assert(spec_child(n1, 117u8) == Some(n2));
        lemma_walk_step(n1, seq![117u8, 110u8], n2);
        assert(seq![117u8, 110u8].drop_first() =~= seq![110u8]);
        lemma_xor_low5(1600u32, 14u32);
        let n3 = Node { id: 1614u32, base: 134u32, is_leaf: true, has_value: true };
        assert(spec_child(n2, 110u8) == Some(n3));
        lemma_walk_step(n2, seq![110u8], n3);
        assert(seq![110u8].drop_first() =~= Seq::<u8>::empty());
        assert(spec_walk(n3, Seq::<u8>::empty()) == Some(n3));
        assert(spec_node_value(n3) == Some(134u8));
        assert(syllable_walk_ok(134u8));
    assert(syllable_wf(134u8));
}

proof fn table_case_135()
    ensures
        syllable_walk_ok(135u8),
        syllable_wf(135u8),
{
    reveal_with_fuel(all_lower, 6);
        let s = spec_syllable(135u8);
        assert(s =~= seq![106u8, 97u8, 110u8]);
        lemma_xor_low5(0u32, 10u32);
        let n1 = Node { id: 10u32, base: 224u32, is_leaf: false, has_value: false };
        assert(spec_child(spec_root(), 106u8) == Some(n1));
        lemma_walk_step(spec_root(), seq![106u8, 97u8, 110u8], n1);
        assert(seq![106u8, 97u8, 110u8].drop_first() =~= seq![97u8, 110u8]);
        lemma_xor_low5(224u32, 1u32);
        let n2 = Node { id: 225u32, base: 1632u32, is_leaf: false, has_value: true };
        assert(spec_child(n1, 97u8) == Some(n2));
        lemma_walk_step(n1, seq![97u8, 110u8], n2);
        assert(seq![97u8, 110u8].drop_first() =~= seq![110u8]);
        lemma_xor_low5(1632u32, 14u32);
        let n3 = Node { id: 1646u32, base: 135u32, is_leaf: true, has_value: true };
        assert(spec_child(n2, 110u8) == Some(n3));
        lemma_walk_step(n2, seq![110u8], n3);
        assert(seq![110u8].drop_first() =~= Seq::<u8>::empty());
        assert(spec_walk(n3, Seq::<u8>::empty()) == Some(n3));
        assert(spec_node_value(n3) == Some(135u8));
        assert(syllable_walk_ok(135u8));
    assert(syllable_wf(135u8));
}

proof fn table_case_136()
    ensures
        syllable_walk_ok(136u8),
        syllable_wf(136u8),
{
    reveal_with_fuel(all_lower, 6);
        let s = spec_syllable(136u8);
        assert(s =~= seq![106u8, 101u8, 110u8]);
        lemma_xor_low5(0u32, 10u32);
        let n1 = Node { id: 10u32, base: 224u32, is_leaf: false, has_value: false };
        assert(spec_child(spec_root(), 106u8) == Some(n1));
        lemma_walk_step(spec_root(), seq![106u8, 101u8, 110u8], n1);
        assert(seq![106u8, 101u8, 110u8].drop_first() =~= seq![101u8, 110u8]);
        lemma_xor_low5(224u32, 5u32);
        let n2 = Node { id: 229u32, base: 1664u32, is_leaf: false, has_value: true };
        assert(spec_child(n1, 101u8) == Some(n2));
        lemma_walk_step(n1, seq![101u8, 110u8], n2);
        assert(seq![101u8, 110u8].drop_first() =~= seq![110u8]);
        lemma_xor_low5(1664u32, 14u32);
        let n3 = Node { id: 1678u32, base: 136u32, is_leaf: true, has_value: true };
        assert(spec_child(n2, 110u8) == Some(n3));
        lemma_walk_step(n2, seq![110u8], n3);
        assert(seq![110u8].drop_first() =~= Seq::<u8>::empty());
        assert(spec_walk(n3, Seq::<u8>::empty()) == Some(n3));
        assert(spec_node_value(n3) == Some(136u8));
        assert(syllable_walk_ok(136u8));
    assert(syllable_wf(136u8));
}

proof fn table_case_137()
    ensures
        syllable_walk_ok(137u8),
        syllable_wf(137u8),
{
    reveal_with_fuel(all_lower, 6);
        let s = spec_syllable(137u8);
        assert(s =~= seq![106u8, 105u8, 110u8]);
        lemma_xor_low5(0u32, 10u32);
        let n1 = Node { id: 10u32, base: 224u32, is_leaf: false, has_value: false };
        assert(spec_child(spec_root(), 106u8) == Some(n1));
        lemma_walk_step(spec_root(), seq![106u8, 105u8, 110u8], n1);
        assert(seq![106u8, 105u8, 110u8].drop_first() =~= seq![105u8, 110u8]);
        lemma_xor_low5(224u32, 9u32);
        let n2 = Node { id: 233u32, base: 1696u32, is_leaf: false, has_value: true };
        assert(spec_child(n1, 105u8) == Some(n2));
        lemma_walk_step(n1, seq![105u8, 110u8], n2);
        assert(seq![105u8, 110u8].drop_first() =~= seq![110u8]);
        lemma_xor_low5(1696u32, 14u32);
        let n3 = Node { id: 1710u32, base: 137u32, is_leaf: true, has_value: true };
        assert(spec_child(n2, 110u8) == Some(n3));
        lemma_walk_step(n2, seq![110u8], n3);
        assert(seq![110u8].drop_first() =~= Seq::<u8>::empty());
        assert(spec_walk(n3, Seq::<u8>::empty()) == Some(n3));
        assert(spec_node_value(n3) == Some(137u8));
        assert(syllable_walk_ok(137u8));
    assert(syllable_wf(137u8));
}

proof fn table_case_138()
    ensures
        syllable_walk_ok(138u8),
        syllable_wf(138u8),
{
    reveal_with_fuel(all_lower, 6);
        let s = spec_syllable(138u8);
        assert(s =~= seq![106u8, 111u8, 110u8]);
        lemma_xor_low5(0u32, 10u32);
        let n1 = Node { id: 10u32, base: 224u32, is_leaf: false, has_value: false };
        assert(spec_child(spec_root(), 106u8) == Some(n1));
        lemma_walk_step(spec_root(), seq![106u8, 111u8, 110u8], n1);
        assert(seq![106u8, 111u8, 110u8].drop_first() =~= seq![111u8, 110u8]);
        lemma_xor_low5(224u32, 15u32);
        let n2 = Node { id: 239u32, base: 1728u32, is_leaf: false, has_value: true };
        assert(spec_child(n1, 111u8) == Some(n2));
        lemma_walk_step(n1, seq![111u8, 110u8], n2);
        assert(seq![111u8, 110u8].drop_first() =~= seq![110u8]);
        lemma_xor_low5(1728u32, 14u32);
        let n3 = Node { id: 1742u32, base: 138u32, is_leaf: true, has_value: true };
        assert(spec_child(n2, 110u8) == Some(n3));
        lemma_walk_step(n2, seq![110u8], n3);
        assert(seq![110u8].drop_first() =~= Seq::<u8>::empty());
        assert(spec_walk(n3, Seq::<u8>::empty()) == Some(n3));
        assert(spec_node_value(n3) == Some(138u8));
        assert(syllable_walk_ok(138u8));
    assert(syllable_wf(138u8));
}

proof fn table_case_139()
    ensures
        syllable_walk_ok(139u8),
        syllable_wf(139u8),
{
    reveal_with_fuel(all_lower, 6);
        let s = spec_syllable(139u8);
        assert(s =~= seq![106u8, 117u8, 110u8]);
        lemma_xor_low5(0u32, 10u32);
        let n1 = Node { id: 10u32, base: 224u32, is_leaf: false, has_value: false };
        assert(spec_child(spec_root(), 106u8) == Some(n1));
        lemma_walk_step(spec_root(), seq![106u8, 117u8, 110u8], n1);
        assert(seq![106u8, 117u8, 110u8].drop_first() =~= seq![117u8, 110u8]);
        lemma_xor_low5(224u32, 21u32);
        let n2 = Node { id: 245u32, base: 1760u32, is_leaf: false, has_value: true };
        assert(spec_child(n1, 117u8) == Some(n2));
        lemma_walk_step(n1, seq![117u8, 110u8], n2);
        assert(seq![117u8, 110u8].drop_first() =~= seq![110u8]);
        lemma_xor_low5(1760u32, 14u32);
        let n3 = Node { id: 1774u32, base: 139u32, is_leaf: true, has_value: true };
        assert(spec_child(n2, 110u8) == Some(n3));
        lemma_walk_step(n2, seq![110u8], n3);
        assert(seq![110u8].drop_first() =~= Seq::<u8>::empty());
        assert(spec_walk(n3, Seq::<u8>::empty()) == Some(n3));
        assert(spec_node_value(n3) == Some(139u8));
        assert(syllable_walk_ok(139u8));
    assert(syllable_wf(139u8));
}

proof fn table_case_140()
    ensures
        syllable_walk_ok(140u8),
        syllable_wf(140u8),
{
    reveal_with_fuel(all_lower, 6);
        let s = spec_syllable(140u8);
        assert(s =~= seq![107u8, 97u8, 110u8]);
        lemma_xor_low5(0u32, 11u32);
        let n1 = Node { id: 11u32, base: 256u32, is_leaf: false, has_value: false };
        assert(spec_child(spec_root(), 107u8) == Some(n1));
        lemma_walk_step(spec_root(), seq![107u8, 97u8, 110u8], n1);
        assert(seq![107u8, 97u8, 110u8].drop_first() =~= seq![97u8, 110u8]);
        lemma_xor_low5(256u32, 1u32);
        let n2 = Node { id: 257u32, base: 1792u32, is_leaf: false, has_value: true };
        assert(spec_child(n1, 97u8) == Some(n2));
        lemma_walk_step(n1, seq![97u8, 110u8], n2);
        assert(seq![97u8, 110u8].drop_first() =~= seq![110u8]);
        lemma_xor_low5(1792u32, 14u32);
        let n3 = Node { id: 1806u32, base: 140u32, is_leaf: true, has_value: true };
        assert(spec_child(n2, 110u8) == Some(n3));
        lemma_walk_step(n2, seq![110u8], n3);
        assert(seq![110u8].drop_first() =~= Seq::<u8>::empty());
        assert(spec_walk(n3, Seq::<u8>::empty()) == Some(n3));
        assert(spec_node_value(n3) == Some(140u8));
        assert(syllable_walk_ok(140u8));
    assert(syllable_wf(140u8));
}

proof fn table_case_141()
    ensures
        syllable_walk_ok(141u8),
        syllable_wf(141u8),
{
    reveal_with_fuel(all_lower, 6);
        let s = spec_syllable(141u8);
        assert(s =~= seq![107u8, 101u8, 110u8]);
        lemma_xor_low5(0u32, 11u32);
        let n1 = Node { id: 11u32, base: 256u32, is_leaf: false, has_value: false };
        assert(spec_child(spec_root(), 107u8) == Some(n1));
        lemma_walk_step(spec_root(), seq![107u8, 101u8, 110u8], n1);
        assert(seq![107u8, 101u8, 110u8].drop_first() =~= seq![101u8, 110u8]);
        lemma_xor_low5(256u32, 5u32);
        let n2 = Node { id: 261u32, base: 1824u32, is_leaf: false, has_value: true };
        assert(spec_child(n1, 101u8) == Some(n2));
        lemma_walk_step(n1, seq![101u8, 110u8], n2);
        assert(seq![101u8, 110u8].drop_first() =~= seq![110u8]);
        lemma_xor_low5(1824u32, 14u32);
        let n3 = Node { id: 1838u32, base: 141u32, is_leaf: true, has_value: true };
        assert(spec_child(n2, 110u8) == Some(n3));
        lemma_walk_step(n2, seq![110u8], n3);
        assert(seq![110u8].drop_first() =~= Seq::<u8>::empty());
        assert(spec_walk(n3, Seq::<u8>::empty()) == Some(n3));
        assert(spec_node_value(n3) == Some(141u8));
        assert(syllable_walk_ok(141u8));
    assert(syllable_wf(141u8));
}

proof fn table_case_142()
    ensures
        syllable_walk_ok(142u8),
        syllable_wf(142u8),
{
    reveal_with_fuel(all_lower, 6);
        let s = spec_syllable(142u8);
        assert(s =~= seq![107u8, 105u8, 110u8]);
        lemma_xor_low5(0u32, 11u32);
        let n1 = Node { id: 11u32, base: 256u32, is_leaf: false, has_value: false };
        assert(spec_child(spec_root(), 107u8) == Some(n1));
        lemma_walk_step(spec_root(), seq![107u8, 105u8, 110u8], n1);
        assert(seq![107u8, 105u8, 110u8].drop_first() =~= seq![105u8, 110u8]);
        lemma_xor_low5(256u32, 9u32);
        let n2 = Node { id: 265u32, base: 1856u32, is_leaf: false, has_value: true };
        assert(spec_child(n1, 105u8) == Some(n2));
        lemma_walk_step(n1, seq![105u8, 110u8], n2);
        assert(seq![105u8, 110u8].drop_first() =~= seq![110u8]);
        lemma_xor_low5(1856u32, 14u32);
        let n3 = Node { id: 1870u32, base: 142u32, is_leaf: true, has_value: true };
        assert(spec_child(n2, 110u8) == Some(n3));
        lemma_walk_step(n2, seq![110u8], n3);
        assert(seq![110u8].drop_first() =~= Seq::<u8>::empty());
        assert(spec_walk(n3, Seq::<u8>::empty()) == Some(n3));
        assert(spec_node_value(n3) == Some(142u8));
        assert(syllable_walk_ok(142u8));
    assert(syllable_wf(142u8));
}

proof fn table_case_143()
    ensures
        syllable_walk_ok(143u8),
        syllable_wf(143u8),
{
    reveal_with_fuel(all_lower, 6);
        let s = spec_syllable(143u8);
        assert(s =~= seq![107u8, 111u8, 110u8]);
        lemma_xor_low5(0u32, 11u32);
        let n1 = Node { id: 11u32, base: 256u32, is_leaf: false, has_value: false };
        assert(spec_child(spec_root(), 107u8) == Some(n1));
        lemma_walk_step(spec_root(), seq![107u8, 111u8, 110u8], n1);
        assert(seq![107u8, 111u8, 110u8].drop_first() =~= seq![111u8, 110u8]);
        lemma_xor_low5(256u32, 15u32);
        let n2 = Node { id: 271u32, base: 1888u32, is_leaf: false, has_value: true };
        assert(spec_child(n1, 111u8) == Some(n2));
        lemma_walk_step(n1, seq![111u8, 110u8], n2);
        assert(seq![111u8, 110u8].drop_first() =~= seq![110u8]);
        lemma_xor_low5(1888u32, 14u32);
        let n3 = Node { id: 1902u32, base: 143u32, is_leaf: true, has_value: true };
        assert(spec_child(n2, 110u8) == Some(n3));
        lemma_walk_step(n2, seq![110u8], n3);
        assert(seq![110u8].drop_first() =~= Seq::<u8>::empty());
        assert(spec_walk(n3, Seq::<u8>::empty()) == Some(n3));
        assert(spec_node_value(n3) == Some(143u8));
        assert(syllable_walk_ok(143u8));
    assert(syllable_wf(143u8));
}

proof fn table_case_144()
    ensures
        syllable_walk_ok(144u8),
        syllable_wf(144u8),
{
    reveal_with_fuel(all_lower, 6);
        let s = spec_syllable(144u8);
        assert(s =~= seq![107u8, 117u8, 110u8]);
        lemma_xor_low5(0u32, 11u32);
        let n1 = Node { id: 11u32, base: 256u32, is_leaf: false, has_value: false };
        assert(spec_child(spec_root(), 107u8) == Some(n1));
        lemma_walk_step(spec_root(), seq![107u8, 117u8, 110u8], n1);
        assert(seq![107u8, 117u8, 110u8].drop_first() =~= seq![117u8, 110u8]);
        lemma_xor_low5(256u32, 21u32);
        let n2 = Node { id: 277u32, base: 1920u32, is_leaf: false, has_value: true };
        assert(spec_child(n1, 117u8) == Some(n2));
        lemma_walk_step(n1, seq![117u8, 110u8], n2);
        assert(seq![117u8, 110u8].drop_first() =~= seq![110u8]);
        lemma_xor_low5(1920u32, 14u32);
        let n3 = Node { id: 1934u32, base: 144u32, is_leaf: true, has_value: true };
        assert(spec_child(n2, 110u8) == Some(n3));
        lemma_walk_step(n2, seq![110u8], n3);
        assert(seq![110u8].drop_first() =~= Seq::<u8>::empty());
        assert(spec_walk(n3, Seq::<u8>::empty()) == Some(n3));
        assert(spec_node_value(n3) == Some(144u8));
        assert(syllable_walk_ok(144u8));
    assert(syllable_wf(144u8));
}

proof fn table_case_145()
    ensures
        syllable_walk_ok(145u8),
        syllable_wf(145u8),
{
    reveal_with_fuel(all_lower, 6);
        let s = spec_syllable(145u8);
        assert(s =~= seq![108u8, 97u8, 110u8]);
        lemma_xor_low5(0u32, 12u32);
        let n1 = Node { id: 12u32, base: 288u32, is_leaf: false, has_value: false };
        assert(spec_child(spec_root(), 108u8) == Some(n1));
        lemma_walk_step(spec_root(), seq![108u8, 97u8, 110u8], n1);
        assert(seq![108u8, 97u8, 110u8].drop_first() =~= seq![97u8, 110u8]);
        lemma_xor_low5(288u32, 1u32);
        let n2 = Node { id: 289u32, base: 1952u32, is_leaf: false, has_value: true };
        assert(spec_child(n1, 97u8) == Some(n2));
        lemma_walk_step(n1, seq![97u8, 110u8], n2);
        assert(seq![97u8, 110u8].drop_first() =~= seq![110u8]);
        lemma_xor_low5(1952u32, 14u32);
        let n3 = Node { id: 1966u32, base: 145u32, is_leaf: true, has_value: true };
        assert(spec_child(n2, 110u8) == Some(n3));
        lemma_walk_step(n2, seq![110u8], n3);
        assert(seq![110u8].drop_first() =~= Seq::<u8>::empty());
        assert(spec_walk(n3, Seq::<u8>::empty()) == Some(n3));
        assert(spec_node_value(n3) == Some(145u8));
        assert(syllable_walk_ok(145u8));
    assert(syllable_wf(145u8));
}

proof fn table_case_146()
    ensures
        syllable_walk_ok(146u8),
        syllable_wf(146u8),
{
    reveal_with_fuel(all_lower, 6);
        let s = spec_syllable(146u8);
        assert(s =~= seq![108u8, 101u8, 110u8]);
        lemma_xor_low5(0u32, 12u32);
        let n1 = Node { id: 12u32, base: 288u32, is_leaf: false, has_value: false };
        assert(spec_child(spec_root(), 108u8) == Some(n1));
        lemma_walk_step(spec_root(), seq![108u8, 101u8, 110u8], n1);
        assert(seq![108u8, 101u8, 110u8].drop_first() =~= seq![101u8, 110u8]);
        lemma_xor_low5(288u32, 5u32);
        let n2 = Node { id: 293u32, base: 1984u32, is_leaf: false, has_value: true };
        assert(spec_child(n1, 101u8) == Some(n2));
        lemma_walk_step(n1, seq![101u8, 110u8], n2);
        assert(seq![101u8, 110u8].drop_first() =~= seq![110u8]);
        lemma_xor_low5(1984u32, 14u32);
        let n3 = Node { id: 1998u32, base: 146u32, is_leaf: true, has_value: true };
        assert(spec_child(n2, 110u8) == Some(n3));
        lemma_walk_step(n2, seq![110u8], n3);
        assert(seq![110u8].drop_first() =~= Seq::<u8>::empty());
        assert(spec_walk(n3, Seq::<u8>::empty()) == Some(n3));
        assert(spec_node_value(n3) == Some(146u8));
        assert(syllable_walk_ok(146u8));
    assert(syllable_wf(146u8));
}

proof fn table_case_147()
    ensures
        syllable_walk_ok(147u8),
        syllable_wf(147u8),
{
    reveal_with_fuel(all_lower, 6);
        let s = spec_syllable(147u8);
        assert(s =~= seq![108u8, 105u8, 110u8]);
        lemma_xor_low5(0u32, 12u32);
        let n1 = Node { id: 12u32, base: 288u32, is_leaf: false, has_value: false };
        assert(spec_child(spec_root(), 108u8) == Some(n1));
        lemma_walk_step(spec_root(), seq![108u8, 105u8, 110u8], n1);
        assert(seq![108u8, 105u8, 110u8].drop_first() =~= seq![105u8, 110u8]);
        lemma_xor_low5(288u32, 9u32);
        let n2 = Node { id: 297u32, base: 2016u32, is_leaf: false, has_value: true };
        assert(spec_child(n1, 105u8) == Some(n2));
        lemma_walk_step(n1, seq![105u8, 110u8], n2);
        assert(seq![105u8, 110u8].drop_first() =~= seq![110u8]);
        lemma_xor_low5(2016u32, 14u32);
        let n3 = Node { id: 2030u32, base: 147u32, is_leaf: true, has_value: true };
        assert(spec_child(n2, 110u8) == Some(n3));
        lemma_walk_step(n2, seq![110u8], n3);
        assert(seq![110u8].drop_first() =~= Seq::<u8>::empty());
        assert(spec_walk(n3, Seq::<u8>::empty()) == Some(n3));
        assert(spec_node_value(n3) == Some(147u8));
        assert(syllable_walk_ok(147u8));
    assert(syllable_wf(147u8));
}

proof fn table_case_148()
    ensures
        syllable_walk_ok(148u8),
        syllable_wf(148u8),
{
    reveal_with_fuel(all_lower, 6);
        let s = spec_syllable(148u8);
        assert(s =~= seq![108u8, 111u8, 110u8]);
        lemma_xor_low5(0u32, 12u32);
        let n1 = Node { id: 12u32, base: 288u32, is_leaf: false, has_value: false };
        assert(spec_child(spec_root(), 108u8) == Some(n1));
        lemma_walk_step(spec_root(), seq![108u8, 111u8, 110u8], n1);
        assert(seq![108u8, 111u8, 110u8].drop_first() =~= seq![111u8, 110u8]);
        lemma_xor_low5(288u32, 15u32);
        let n2 = Node { id: 303u32, base: 2048u32, is_leaf: false, has_value: true };
        assert(spec_child(n1, 111u8) == Some(n2));
        lemma_walk_step(n1, seq![111u8, 110u8], n2);
        assert(seq![111u8, 110u8].drop_first() =~= seq![110u8]);
        lemma_xor_low5(2048u32, 14u32);
        let n3 = Node { id: 2062u32, base: 148u32, is_leaf: true, has_value: true };
        assert(spec_child(n2, 110u8) == Some(n3));
        lemma_walk_step(n2, seq![110u8], n3);
        assert(seq![110u8].drop_first() =~= Seq::<u8>::empty());
        assert(spec_walk(n3, Seq::<u8>::empty()) == Some(n3));
        assert(spec_node_value(n3) == Some(148u8));
        assert(syllable_walk_ok(148u8));
    assert(syllable_wf(148u8));
}

proof fn table_case_149()
    ensures
        syllable_walk_ok(149u8),
        syllable_wf(149u8),
{
    reveal_with_fuel(all_lower, 6);
        let s = spec_syllable(149u8);
        assert(s =~= seq![108u8, 117u8, 110u8]);
        lemma_xor_low5(0u32, 12u32);
        let n1 = Node { id: 12u32, base: 288u32, is_leaf: false, has_value: false };
        assert(spec_child(spec_root(), 108u8) == Some(n1));
        lemma_walk_step(spec_root(), seq![108u8, 117u8, 110u8], n1);
        assert(seq![108u8, 117u8, 110u8].drop_first() =~= seq![117u8, 110u8]);
        lemma_xor_low5(288u32, 21u32);
        let n2 = Node { id: 309u32, base: 2080u32, is_leaf: false, has_value: true };
        assert(spec_child(n1, 117u8) == Some(n2));
        lemma_walk_step(n1, seq![117u8, 110u8], n2);
        assert(seq![117u8, 110u8].drop_first() =~= seq![110u8]);
        lemma_xor_low5(2080u32, 14u32);
        let n3 = Node { id: 2094u32, base: 149u32, is_leaf: true, has_value: true };
        assert(spec_child(n2, 110u8) == Some(n3));
        lemma_walk_step(n2, seq![110u8], n3);
        assert(seq![110u8].drop_first() =~= Seq::<u8>::empty());
        assert(spec_walk(n3, Seq::<u8>::empty()) == Some(n3));
        assert(spec_node_value(n3) == Some(149u8));
        assert(syllable_walk_ok(149u8));
    assert(syllable_wf(149u8));
}

proof fn table_case_150()
    ensures
        syllable_walk_ok(150u8),
        syllable_wf(150u8),
{
    reveal_with_fuel(all_lower, 6);
        let s = spec_syllable(150u8);
        assert(s =~= seq![109u8, 97u8, 110u8]);
        lemma_xor_low5(0u32, 13u32);
        let n1 = Node { id: 13u32, base: 320u32, is_leaf: false, has_value: false };
        assert(spec_child(spec_root(), 109u8) == Some(n1));
        lemma_walk_step(spec_root(), seq![109u8, 97u8, 110u8], n1);
        assert(seq![109u8, 97u8, 110u8].drop_first() =~= seq![97u8, 110u8]);
        lemma_xor_low5(320u32, 1u32);
        let n2 = Node { id: 321u32, base: 2112u32, is_leaf: false, has_value: true };
        assert(spec_child(n1, 97u8) == Some(n2));
        lemma_walk_step(n1, seq![97u8, 110u8], n2);
        assert(seq![97u8, 110u8].drop_first() =~= seq![110u8]);
        lemma_xor_low5(2112u32, 14u32);
        let n3 = Node { id: 2126u32, base: 150u32, is_leaf: true, has_value: true };
        assert(spec_child(n2, 110u8) == Some(n3));
        lemma_walk_step(n2, seq![110u8], n3);
        assert(seq![110u8].drop_first() =~= Seq::<u8>::empty());
        assert(spec_walk(n3, Seq::<u8>::empty()) == Some(n3));
        assert(spec_node_value(n3) == Some(150u8));
        assert(syllable_walk_ok(150u8));
    assert(syllable_wf(150u8));
}

proof fn table_case_151()
    ensures
        syllable_walk_ok(151u8),
        syllable_wf(151u8),
{
    reveal_with_fuel(all_lower, 6);
        let s = spec_syllable(151u8);
        assert(s =~= seq![109u8, 101u8, 110u8]);
        lemma_xor_low5(0u32, 13u32);
        let n1 = Node { id: 13u32, base: 320u32, is_leaf: false, has_value: false };
        assert(spec_child(spec_root(), 109u8) == Some(n1));
        lemma_walk_step(spec_root(), seq![109u8, 101u8, 110u8], n1);
        assert(seq![109u8, 101u8, 110u8].drop_first() =~= seq![101u8, 110u8]);
        lemma_xor_low5(320u32, 5u32);
        let n2 = Node { id: 325u32, base: 2144u32, is_leaf: false, has_value: true };
        assert(spec_child(n1, 101u8) == Some(n2));
        lemma_walk_step(n1, seq![101u8, 110u8], n2);
        assert(seq![101u8, 110u8].drop_first() =~= seq![110u8]);
        lemma_xor_low5(2144u32, 14u32);
        let n3 = Node { id: 2158u32, base: 151u32, is_leaf: true, has_value: true };
        assert(spec_child(n2, 110u8) == Some(n3));
        lemma_walk_step(n2, seq![110u8], n3);
        assert(seq![110u8].drop_first() =~= Seq::<u8>::empty());
        assert(spec_walk(n3, Seq::<u8>::empty()) == Some(n3));
        assert(spec_node_value(n3) == Some(151u8));
        assert(syllable_walk_ok(151u8));
    assert(syllable_wf(151u8));
}

proof fn table_case_152()
    ensures
        syllable_walk_ok(152u8),
        syllable_wf(152u8),
{
    reveal_with_fuel(all_lower, 6);
        let s = spec_syllable(152u8);
        assert(s =~= seq![109u8, 105u8, 110u8]);
        lemma_xor_low5(0u32, 13u32);
        let n1 = Node { id: 13u32, base: 320u32, is_leaf: false, has_value: false };
        assert(spec_child(spec_root(), 109u8) == Some(n1));
        lemma_walk_step(spec_root(), seq![109u8, 105u8, 110u8], n1);
        assert(seq![109u8, 105u8, 110u8].drop_first() =~= seq![105u8, 110u8]);
        lemma_xor_low5(320u32, 9u32);
        let n2 = Node { id: 329u32, base: 2176u32, is_leaf: false, has_value: true };
        assert(spec_child(n1, 105u8) == Some(n2));
        lemma_walk_step(n1, seq![105u8, 110u8], n2);
        assert(seq![105u8, 110u8].drop_first() =~= seq![110u8]);
        lemma_xor_low5(2176u32, 14u32);
        let n3 = Node { id: 2190u32, base: 152u32, is_leaf: true, has_value: true };
        assert(spec_child(n2, 110u8) == Some(n3));
        lemma_walk_step(n2, seq![110u8], n3);
        assert(seq![110u8].drop_first() =~= Seq::<u8>::empty());
        assert(spec_walk(n3, Seq::<u8>::empty()) == Some(n3));
        assert(spec_node_value(n3) == Some(152u8));
        assert(syllable_walk_ok(152u8));
    assert(syllable_wf(152u8));
}

proof fn table_case_153()
    ensures
        syllable_walk_ok(153u8),
        syllable_wf(153u8),
{
    reveal_with_fuel(all_lower, 6);
        let s = spec_syllable(153u8);
        assert(s =~= seq![109u8, 111u8, 110u8]);
        lemma_xor_low5(0u32, 13u32);
        let n1 = Node { id: 13u32, base: 320u32, is_leaf: false, has_value: false };
        assert(spec_child(spec_root(), 109u8) == Some(n1));
        lemma_walk_step(spec_root(), seq![109u8, 111u8, 110u8], n1);
        assert(seq![109u8, 111u8, 110u8].drop_first() =~= seq![111u8, 110u8]);
        lemma_xor_low5(320u32, 15u32);
        let n2 = Node { id: 335u32, base: 2208u32, is_leaf: false, has_value: true };
        assert(spec_child(n1, 111u8) == Some(n2));
        lemma_walk_step(n1, seq![111u8, 110u8], n2);
        assert(seq![111u8, 110u8].drop_first() =~= seq![110u8]);
        lemma_xor_low5(2208u32, 14u32);
        let n3 = Node { id: 2222u32, base: 153u32, is_leaf: true, has_value: true };
        assert(spec_child(n2, 110u8) == Some(n3));
        lemma_walk_step(n2, seq![110u8], n3);
        assert(seq![110u8].drop_first() =~= Seq::<u8>::empty());
        assert(spec_walk(n3, Seq::<u8>::empty()) == Some(n3));
        assert(spec_node_value(n3) == Some(153u8));
        assert(syllable_walk_ok(153u8));
    assert(syllable_wf(153u8));
}

proof fn table_case_154()
    ensures
        syllable_walk_ok(154u8),
        syllable_wf(154u8),
{
    reveal_with_fuel(all_lower, 6);
        let s = spec_syllable(154u8);
        assert(s =~= seq![109u8, 117u8, 110u8]);
        lemma_xor_low5(0u32, 13u32);
        let n1 = Node { id: 13u32, base: 320u32, is_leaf: false, has_value: false };
        assert(spec_child(spec_root(), 109u8) == Some(n1));
        lemma_walk_step(spec_root(), seq![109u8, 117u8, 110u8], n1);
        assert(seq![109u8, 117u8, 110u8].drop_first() =~= seq![117u8, 110u8]);
        lemma_xor_low5(320u32, 21u32);
        let n2 = Node { id: 341u32, base: 2240u32, is_leaf: false, has_value: true };
        assert(spec_child(n1, 117u8) == Some(n2));
        lemma_walk_step(n1, seq![117u8, 110u8], n2);
        assert(seq![117u8, 110u8].drop_first() =~= seq![110u8]);
        lemma_xor_low5(2240u32, 14u32);
        let n3 = Node { id: 2254u32, base: 154u32, is_leaf: true, has_value: true };
        assert(spec_child(n2, 110u8) == Some(n3));
        lemma_walk_step(n2, seq![110u8], n3);
        assert(seq![110u8].drop_first() =~= Seq::<u8>::empty());
        assert(spec_walk(n3, Seq::<u8>::empty()) == Some(n3));
        assert(spec_node_value(n3) == Some(154u8));
        assert(syllable_walk_ok(154u8));
    assert(syllable_wf(154u8));
}

proof fn table_case_155()
    ensures
        syllable_walk_ok(155u8),
        syllable_wf(155u8),
{
    reveal_with_fuel(all_lower, 6);
        let s = spec_syllable(155u8);
        assert(s =~= seq![110u8, 97u8, 110u8]);
        lemma_xor_low5(0u32, 14u32);
        let n1 = Node { id: 14u32, base: 352u32, is_leaf: false, has_value: false };
        assert(spec_child(spec_root(), 110u8) == Some(n1));
        lemma_walk_step(spec_root(), seq![110u8, 97u8, 110u8], n1);
        assert(seq![110u8, 97u8, 110u8].drop_first() =~= seq![97u8, 110u8]);
        lemma_xor_low5(352u32, 1u32);
        let n2 = Node { id: 353u32, base: 2272u32, is_leaf: false, has_value: true };
        assert(spec_child(n1, 97u8) == Some(n2));
        lemma_walk_step(n1, seq![97u8, 110u8], n2);
        assert(seq![97u8, 110u8].drop_first() =~= seq![110u8]);
        lemma_xor_low5(2272u32, 14u32);
        let n3 = Node { id: 2286u32, base: 155u32, is_leaf: true, has_value: true };
        assert(spec_child(n2, 110u8) == Some(n3));
        lemma_walk_step(n2, seq![110u8], n3);
        assert(seq![110u8].drop_first() =~= Seq::<u8>::empty());
        assert(spec_walk(n3, Seq::<u8>::empty()) == Some(n3));
        assert(spec_node_value(n3) == Some(155u8));
        assert(syllable_walk_ok(155u8));
    assert(syllable_wf(155u8));
}

proof fn table_case_156()
    ensures
        syllable_walk_ok(156u8),
        syllable_wf(156u8),
{
    reveal_with_fuel(all_lower, 6);
        let s = spec_syllable(156u8);
        assert(s =~= seq![110u8, 101u8, 110u8]);
        lemma_xor_low5(0u32, 14u32);
        let n1 = Node { id: 14u32, base: 352u32, is_leaf: false, has_value: false };
        assert(spec_child(spec_root(), 110u8) == Some(n1));
        lemma_walk_step(spec_root(), seq![110u8, 101u8, 110u8], n1);
        assert(seq![110u8, 101u8, 110u8].drop_first() =~= seq![101u8, 110u8]);
        lemma_xor_low5(352u32, 5u32);
        let n2 = Node { id: 357u32, base: 2304u32, is_leaf: false, has_value: true };
        assert(spec_child(n1, 101u8) == Some(n2));
        lemma_walk_step(n1, seq![101u8, 110u8], n2);
        assert(seq![101u8, 110u8].drop_first() =~= seq![110u8]);
        lemma_xor_low5(2304u32, 14u32);
        let n3 = Node { id: 2318u32, base: 156u32, is_leaf: true, has_value: true };
        assert(spec_child(n2, 110u8) == Some(n3));
        lemma_walk_step(n2, seq![110u8], n3);
        assert(seq![110u8].drop_first() =~= Seq::<u8>::empty());
        assert(spec_walk(n3, Seq::<u8>::empty()) == Some(n3));
        assert(spec_node_value(n3) == Some(156u8));
        assert(syllable_walk_ok(156u8));
    assert(syllable_wf(156u8));
}

proof fn table_case_157()
    ensures
        syllable_walk_ok(157u8),
        syllable_wf(157u8),
{
    reveal_with_fuel(all_lower, 6);
        let s = spec_syllable(157u8);
        assert(s =~= seq![110u8, 105u8, 110u8]);
        lemma_xor_low5(0u32, 14u32);
        let n1 = Node { id: 14u32, base: 352u32, is_leaf: false, has_value: false };
        assert(spec_child(spec_root(), 110u8) == Some(n1));
        lemma_walk_step(spec_root(), seq![110u8, 105u8, 110u8], n1);
        assert(seq![110u8, 105u8, 110u8].drop_first() =~= seq![105u8, 110u8]);
        lemma_xor_low5(352u32, 9u32);
        let n2 = Node { id: 361u32, base: 2336u32, is_leaf: false, has_value: true };
        assert(spec_child(n1, 105u8) == Some(n2));
        lemma_walk_step(n1, seq![105u8, 110u8], n2);
        assert(seq![105u8, 110u8].drop_first() =~= seq![110u8]);
        lemma_xor_low5(2336u32, 14u32);
        let n3 = Node { id: 2350u32, base: 157u32, is_leaf: true, has_value: true };
        assert(spec_child(n2, 110u8) == Some(n3));
        lemma_walk_step(n2, seq![110u8], n3);
        assert(seq![110u8].drop_first() =~= Seq::<u8>::empty());
        assert(spec_walk(n3, Seq::<u8>::empty()) == Some(n3));
        assert(spec_node_value(n3) == Some(157u8));
        assert(syllable_walk_ok(157u8));
    assert(syllable_wf(157u8));
}

proof fn table_case_158()
    ensures
        syllable_walk_ok(158u8),
        syllable_wf(158u8),
{
    reveal_with_fuel(all_lower, 6);
        let s = spec_syllable(158u8);
        assert(s =~= seq![110u8, 111u8, 110u8]);
        lemma_xor_low5(0u32, 14u32);
        let n1 = Node { id: 14u32, base: 352u32, is_leaf: false, has_value: false };
        assert(spec_child(spec_root(), 110u8) == Some(n1));
        lemma_walk_step(spec_root(), seq![110u8, 111u8, 110u8], n1);
        assert(seq![110u8, 111u8, 110u8].drop_first() =~= seq![111u8, 110u8]);
        lemma_xor_low5(352u32, 15u32);
        let n2 = Node { id: 367u32, base: 2368u32, is_leaf: false, has_value: true };
        assert(spec_child(n1, 111u8) == Some(n2));
        lemma_walk_step(n1, seq![111u8, 110u8], n2);
        assert(seq![111u8, 110u8].drop_first() =~= seq![110u8]);
        lemma_xor_low5(2368u32, 14u32);
        let n3 = Node { id: 2382u32, base: 158u32, is_leaf: true, has_value: true };
        assert(spec_child(n2, 110u8) == Some(n3));
        lemma_walk_step(n2, seq![110u8], n3);
        assert(seq![110u8].drop_first() =~= Seq::<u8>::empty());
        assert(spec_walk(n3, Seq::<u8>::empty()) == Some(n3));
        assert(spec_node_value(n3) == Some(158u8));
        assert(syllable_walk_ok(158u8));
    assert(syllable_wf(158u8));
}

proof fn table_case_159()
    ensures
        syllable_walk_ok(159u8),
        syllable_wf(159u8),
{
    reveal_with_fuel(all_lower, 6);
        let s = spec_syllable(159u8);
        assert(s =~= seq![110u8, 117u8, 110u8]);
        lemma_xor_low5(0u32, 14u32);
        let n1 = Node { id: 14u32, base: 352u32, is_leaf: false, has_value: false };
        assert(spec_child(spec_root(), 110u8) == Some(n1));
        lemma_walk_step(spec_root(), seq![110u8, 117u8, 110u8], n1);
        assert(seq![110u8, 117u8, 110u8].drop_first() =~= seq![117u8, 110u8]);
        lemma_xor_low5(352u32, 21u32);
        let n2 = Node { id: 373u32, base: 2400u32, is_leaf: false, has_value: true };
        assert(spec_child(n1, 117u8) == Some(n2));
        lemma_walk_step(n1, seq![117u8, 110u8], n2);
        assert(seq![117u8, 110u8].drop_first() =~= seq![110u8]);
        lemma_xor_low5(2400u32, 14u32);
        let n3 = Node { id: 2414u32, base: 159u32, is_leaf: true, has_value: true };
        assert(spec_child(n2, 110u8) == Some(n3));
        lemma_walk_step(n2, seq![110u8], n3);
        assert(seq![110u8].drop_first() =~= Seq::<u8>::empty());
        assert(spec_walk(n3, Seq::<u8>::empty()) == Some(n3));
        assert(spec_node_value(n3) == Some(159u8));
        assert(syllable_walk_ok(159u8));
    assert(syllable_wf(159u8));
}

proof fn table_case_160()
    ensures
        syllable_walk_ok(160u8),
        syllable_wf(160u8),
{
    reveal_with_fuel(all_lower, 6);
        let s = spec_syllable(160u8);
        assert(s =~= seq![112u8, 97u8, 110u8]);
        lemma_xor_low5(0u32, 16u32);
        let n1 = Node { id: 16u32, base: 384u32, is_leaf: false, has_value: false };
        assert(spec_child(spec_root(), 112u8) == Some(n1));
        lemma_walk_step(spec_root(), seq![112u8, 97u8, 110u8], n1);
        assert(seq![112u8, 97u8, 110u8].drop_first() =~= seq![97u8, 110u8]);
        lemma_xor_low5(384u32, 1u32);
        let n2 = Node { id: 385u32, base: 2432u32, is_leaf: false, has_value: true };
        assert(spec_child(n1, 97u8) == Some(n2));
        lemma_walk_step(n1, seq![97u8, 110u8], n2);
        assert(seq![97u8, 110u8].drop_first() =~= seq![110u8]);
        lemma_xor_low5(2432u32, 14u32);
        let n3 = Node { id: 2446u32, base: 160u32, is_leaf: true, has_value: true };
        assert(spec_child(n2, 110u8) == Some(n3));
        lemma_walk_step(n2, seq![110u8], n3);
        assert(seq![110u8].drop_first() =~= Seq::<u8>::empty());
        assert(spec_walk(n3, Seq::<u8>::empty()) == Some(n3));
        assert(spec_node_value(n3) == Some(160u8));
        assert(syllable_walk_ok(160u8));
    assert(syllable_wf(160u8));
}

proof fn table_case_161()
    ensures
        syllable_walk_ok(161u8),
        syllable_wf(161u8),
{
    reveal_with_fuel(all_lower, 6);
        let s = spec_syllable(161u8);
        assert(s =~= seq![112u8, 101u8, 110u8]);
        lemma_xor_low5(0u32, 16u32);
        let n1 = Node { id: 16u32, base: 384u32, is_leaf: false, has_value: false };
        assert(spec_child(spec_root(), 112u8) == Some(n1));
        lemma_walk_step(spec_root(), seq![112u8, 101u8, 110u8], n1);
        assert(seq![112u8, 101u8, 110u8].drop_first() =~= seq![101u8, 110u8]);
        lemma_xor_low5(384u32, 5u32);
        let n2 = Node { id: 389u32, base: 2464u32, is_leaf: false, has_value: true };
        assert(spec_child(n1, 101u8) == Some(n2));
        lemma_walk_step(n1, seq![101u8, 110u8], n2);
        assert(seq![101u8, 110u8].drop_first() =~= seq![110u8]);
        lemma_xor_low5(2464u32, 14u32);
        let n3 = Node { id: 2478u32, base: 161u32, is_leaf: true, has_value: true };
        assert(spec_child(n2, 110u8) == Some(n3));
        lemma_walk_step(n2, seq![110u8], n3);
        assert(seq![110u8].drop_first() =~= Seq::<u8>::empty());
        assert(spec_walk(n3, Seq::<u8>::empty()) == Some(n3));
        assert(spec_node_value(n3) == Some(161u8));
        assert(syllable_walk_ok(161u8));
    assert(syllable_wf(161u8));
}

proof fn table_case_162()
    ensures
        syllable_walk_ok(162u8),
        syllable_wf(162u8),
{
    reveal_with_fuel(all_lower, 6);
        let s = spec_syllable(162u8);
        assert(s =~= seq![112u8, 105u8, 110u8]);
        lemma_xor_low5(0u32, 16u32);
        let n1 = Node { id: 16u32, base: 384u32, is_leaf: false, has_value: false };
        assert(spec_child(spec_root(), 112u8) == Some(n1));
        lemma_walk_step(spec_root(), seq![112u8, 105u8, 110u8], n1);
        assert(seq![112u8, 105u8, 110u8].drop_first() =~= seq![105u8, 110u8]);
        lemma_xor_low5(384u32, 9u32);
        let n2 = Node { id: 393u32, base: 2496u32, is_leaf: false, has_value: true };
        assert(spec_child(n1, 105u8) == Some(n2));
        lemma_walk_step(n1, seq![105u8, 110u8], n2);
        assert(seq![105u8, 110u8].drop_first() =~= seq![110u8]);
        lemma_xor_low5(2496u32, 14u32);
        let n3 = Node { id: 2510u32, base: 162u32, is_leaf: true, has_value: true };
        assert(spec_child(n2, 110u8) == Some(n3));
        lemma_walk_step(n2, seq![110u8], n3);
        assert(seq![110u8].drop_first() =~= Seq::<u8>::empty());
        assert(spec_walk(n3, Seq::<u8>::empty()) == Some(n3));
        assert(spec_node_value(n3) == Some(162u8));
        assert(syllable_walk_ok(162u8));
    assert(syllable_wf(162u8));
}

proof fn table_case_163()
    ensures
        syllable_walk_ok(163u8),
        syllable_wf(163u8),
{
    reveal_with_fuel(all_lower, 6);
        let s = spec_syllable(163u8);
        assert(s =~= seq![112u8, 111u8, 110u8]);
        lemma_xor_low5(0u32, 16u32);
        let n1 = Node { id: 16u32, base: 384u32, is_leaf: false, has_value: false };
        assert(spec_child(spec_root(), 112u8) == Some(n1));
        lemma_walk_step(spec_root(), seq![112u8, 111u8, 110u8], n1);
        assert(seq![112u8, 111u8, 110u8].drop_first() =~= seq![111u8, 110u8]);
        lemma_xor_low5(384u32, 15u32);
        let n2 = Node { id: 399u32, base: 2528u32, is_leaf: false, has_value: true };
        assert(spec_child(n1, 111u8) == Some(n2));
        lemma_walk_step(n1, seq![111u8, 110u8], n2);
        assert(seq![111u8, 110u8].drop_first() =~= seq![110u8]);
        lemma_xor_low5(2528u32, 14u32);
        let n3 = Node { id: 2542u32, base: 163u32, is_leaf: true, has_value: true };
        assert(spec_child(n2, 110u8) == Some(n3));
        lemma_walk_step(n2, seq![110u8], n3);
        assert(seq![110u8].drop_first() =~= Seq::<u8>::empty());
        assert(spec_walk(n3, Seq::<u8>::empty()) == Some(n3));
        assert(spec_node_value(n3) == Some(163u8));
        assert(syllable_walk_ok(163u8));
    assert(syllable_wf(163u8));
}

proof fn table_case_164()
    ensures
        syllable_walk_ok(164u8),
        syllable_wf(164u8),
{
    reveal_with_fuel(all_lower, 6);
        let s = spec_syllable(164u8);
        assert(s =~= seq![112u8, 117u8, 110u8]);
        lemma_xor_low5(0u32, 16u32);
        let n1 = Node { id: 16u32, base: 384u32, is_leaf: false, has_value: false };
        assert(spec_child(spec_root(), 112u8) == Some(n1));
        lemma_walk_step(spec_root(), seq![112u8, 117u8, 110u8], n1);
        assert(seq![112u8, 117u8, 110u8].drop_first() =~= seq![117u8, 110u8]);
        lemma_xor_low5(384u32, 21u32);
        let n2 = Node { id: 405u32, base: 2560u32, is_leaf: false, has_value: true };
        assert(spec_child(n1, 117u8) == Some(n2));
        lemma_walk_step(n1, seq![117u8, 110u8], n2);
        assert(seq![117u8, 110u8].drop_first() =~= seq![110u8]);
        lemma_xor_low5(2560u32, 14u32);
        let n3 = Node { id: 2574u32, base: 164u32, is_leaf: true, has_value: true };
        assert(spec_child(n2, 110u8) == Some(n3));
        lemma_walk_step(n2, seq![110u8], n3);
        assert(seq![110u8].drop_first() =~= Seq::<u8>::empty());
        assert(spec_walk(n3, Seq::<u8>::empty()) == Some(n3));
        assert(spec_node_value(n3) == Some(164u8));
        assert(syllable_walk_ok(164u8));
    assert(syllable_wf(164u8));
}

proof fn table_case_165()
    ensures
        syllable_walk_ok(165u8),
        syllable_wf(165u8),
{
    reveal_with_fuel(all_lower, 6);
        let s = spec_syllable(165u8);
        assert(s =~= seq![114u8, 97u8, 110u8]);
        lemma_xor_low5(0u32, 18u32);
        let n1 = Node { id: 18u32, base: 416u32, is_leaf: false, has_value: false };
        assert(spec_child(spec_root(), 114u8) == Some(n1));
        lemma_walk_step(spec_root(), seq![114u8, 97u8, 110u8], n1);
        assert(seq![114u8, 97u8, 110u8].drop_first() =~= seq![97u8, 110u8]);
        lemma_xor_low5(416u32, 1u32);
        let n2 = Node { id: 417u32, base: 2592u32, is_leaf: false, has_value: true };
        assert(spec_child(n1, 97u8) == Some(n2));
        lemma_walk_step(n1, seq![97u8, 110u8], n2);
        assert(seq![97u8, 110u8].drop_first() =~= seq![110u8]);
        lemma_xor_low5(2592u32, 14u32);
        let n3 = Node { id: 2606u32, base: 165u32, is_leaf: true, has_value: true };
        assert(spec_child(n2, 110u8) == Some(n3));
        lemma_walk_step(n2, seq![110u8], n3);
        assert(seq![110u8].drop_first() =~= Seq::<u8>::empty());
        assert(spec_walk(n3, Seq::<u8>::empty()) == Some(n3));
        assert(spec_node_value(n3) == Some(165u8));
        assert(syllable_walk_ok(165u8));
    assert(syllable_wf(165u8));
}

proof fn table_case_166()
    ensures
        syllable_walk_ok(166u8),
        syllable_wf(166u8),
{
    reveal_with_fuel(all_lower, 6);
        let s = spec_syllable(166u8);
        assert(s =~= seq![114u8, 101u8, 110u8]);
        lemma_xor_low5(0u32, 18u32);
        let n1 = Node { id: 18u32, base: 416u32, is_leaf: false, has_value: false };
        assert(spec_child(spec_root(), 114u8) == Some(n1));
        lemma_walk_step(spec_root(), seq![114u8, 101u8, 110u8], n1);
        assert(seq![114u8, 101u8, 110u8].drop_first() =~= seq![101u8, 110u8]);
        lemma_xor_low5(416u32, 5u32);
        let n2 = Node { id: 421u32, base: 2624u32, is_leaf: false, has_value: true };
        assert(spec_child(n1, 101u8) == Some(n2));
        lemma_walk_step(n1, seq![101u8, 110u8], n2);
        assert(seq![101u8, 110u8].drop_first() =~= seq![110u8]);
        lemma_xor_low5(2624u32, 14u32);
        let n3 = Node { id: 2638u32, base: 166u32, is_leaf: true, has_value: true };
        assert(spec_child(n2, 110u8) == Some(n3));
        lemma_walk_step(n2, seq![110u8], n3);
        assert(seq![110u8].drop_first() =~= Seq::<u8>::empty());
        assert(spec_walk(n3, Seq::<u8>::empty()) == Some(n3));
        assert(spec_node_value(n3) == Some(166u8));
        assert(syllable_walk_ok(166u8));
    assert(syllable_wf(166u8));
}

proof fn table_case_167()
    ensures
        syllable_walk_ok(167u8),
        syllable_wf(167u8),
{
    reveal_with_fuel(all_lower, 6);
        let s = spec_syllable(167u8);
        assert(s =~= seq![114u8, 105u8, 110u8]);
        lemma_xor_low5(0u32, 18u32);
        let n1 = Node { id: 18u32, base: 416u32, is_leaf: false, has_value: false };
        assert(spec_child(spec_root(), 114u8) == Some(n1));
        lemma_walk_step(spec_root(), seq![114u8, 105u8, 110u8], n1);
        assert(seq![114u8, 105u8, 110u8].drop_first() =~= seq![105u8, 110u8]);
        lemma_xor_low5(416u32, 9u32);
        let n2 = Node { id: 425u32, base: 2656u32, is_leaf: false, has_value: true };
        assert(spec_child(n1, 105u8) == Some(n2));
        lemma_walk_step(n1, seq![105u8, 110u8], n2);
        assert(seq![105u8, 110u8].drop_first() =~= seq![110u8]);
        lemma_xor_low5(2656u32, 14u32);
        let n3 = Node { id: 2670u32, base: 167u32, is_leaf: true, has_value: true };
        assert(spec_child(n2, 110u8) == Some(n3));
        lemma_walk_step(n2, seq![110u8], n3);
        assert(seq![110u8].drop_first() =~= Seq::<u8>::empty());
        assert(spec_walk(n3, Seq::<u8>::empty()) == Some(n3));
        assert(spec_node_value(n3) == Some(167u8));
        assert(syllable_walk_ok(167u8));
    assert(syllable_wf(167u8));
}

proof fn table_case_168()
    ensures
        syllable_walk_ok(168u8),
        syllable_wf(168u8),
{
    reveal_with_fuel(all_lower, 6);
        let s = spec_syllable(168u8);
        assert(s =~= seq![114u8, 111u8, 110u8]);
        lemma_xor_low5(0u32, 18u32);
        let n1 = Node { id: 18u32, base: 416u32, is_leaf: false, has_value: false };
        assert(spec_child(spec_root(), 114u8) == Some(n1));
        lemma_walk_step(spec_root(), seq![114u8, 111u8, 110u8], n1);
        assert(seq![114u8, 111u8, 110u8].drop_first() =~= seq![111u8, 110u8]);
        lemma_xor_low5(416u32, 15u32);
        let n2 = Node { id: 431u32, base: 2688u32, is_leaf: false, has_value: true };
        assert(spec_child(n1, 111u8) == Some(n2));
        lemma_walk_step(n1, seq![111u8, 110u8], n2);
        assert(seq![111u8, 110u8].drop_first() =~= seq![110u8]);
        lemma_xor_low5(2688u32, 14u32);
        let n3 = Node { id: 2702u32, base: 168u32, is_leaf: true, has_value: true };
        assert(spec_child(n2, 110u8) == Some(n3));
        lemma_walk_step(n2, seq![110u8], n3);
        assert(seq![110u8].drop_first() =~= Seq::<u8>::empty());
        assert(spec_walk(n3, Seq::<u8>::empty()) == Some(n3));
        assert(spec_node_value(n3) == Some(168u8));
        assert(syllable_walk_ok(168u8));
    assert(syllable_wf(168u8));
}

proof fn table_case_169()
    ensures
        syllable_walk_ok(169u8),
        syllable_wf(169u8),
{
    reveal_with_fuel(all_lower, 6);
        let s = spec_syllable(169u8);
        assert(s =~= seq![114u8, 117u8, 110u8]);
        lemma_xor_low5(0u32, 18u32);
        let n1 = Node { id: 18u32, base: 416u32, is_leaf: false, has_value: false };
        assert(spec_child(spec_root(), 114u8) == Some(n1));
        lemma_walk_step(spec_root(), seq![114u8, 117u8, 110u8], n1);
        assert(seq![114u8, 117u8, 110u8].drop_first() =~= seq![117u8, 110u8]);
        lemma_xor_low5(416u32, 21u32);
        let n2 = Node { id: 437u32, base: 2720u32, is_leaf: false, has_value: true };
        assert(spec_child(n1, 117u8) == Some(n2));
        lemma_walk_step(n1, seq![117u8, 110u8], n2);
        assert(seq![117u8, 110u8].drop_first() =~= seq![110u8]);
        lemma_xor_low5(2720u32, 14u32);
        let n3 = Node { id: 2734u32, base: 169u32, is_leaf: true, has_value: true };
        assert(spec_child(n2, 110u8) == Some(n3));
        lemma_walk_step(n2, seq![110u8], n3);
        assert(seq![110u8].drop_first() =~= Seq::<u8>::empty());
        assert(spec_walk(n3, Seq::<u8>::empty()) == Some(n3));
        assert(spec_node_value(n3) == Some(169u8));
        assert(syllable_walk_ok(169u8));
    assert(syllable_wf(169u8));
}

proof fn table_case_170()
    ensures
        syllable_walk_ok(170u8),
        syllable_wf(170u8),
{
    reveal_with_fuel(all_lower, 6);
        let s = spec_syllable(170u8);
        assert(s =~= seq![115u8, 97u8, 110u8]);
        lemma_xor_low5(0u32, 19u32);
        let n1 = Node { id: 19u32, base: 448u32, is_leaf: false, has_value: false };
        assert(spec_child(spec_root(), 115u8) == Some(n1));
        lemma_walk_step(spec_root(), seq![115u8, 97u8, 110u8], n1);
        assert(seq![115u8, 97u8, 110u8].drop_first() =~= seq![97u8, 110u8]);
        lemma_xor_low5(448u32, 1u32);
        let n2 = Node { id: 449u32, base: 2752u32, is_leaf: false, has_value: true };
        assert(spec_child(n1, 97u8) == Some(n2));
        lemma_walk_step(n1, seq![97u8, 110u8], n2);
        assert(seq![97u8, 110u8].drop_first() =~= seq![110u8]);
        lemma_xor_low5(2752u32, 14u32);
        let n3 = Node { id: 2766u32, base: 170u32, is_leaf: true, has_value: true };
        assert(spec_child(n2, 110u8) == Some(n3));
        lemma_walk_step(n2, seq![110u8], n3);
        assert(seq![110u8].drop_first() =~= Seq::<u8>::empty());
        assert(spec_walk(n3, Seq::<u8>::empty()) == Some(n3));
        assert(spec_node_value(n3) == Some(170u8));
        assert(syllable_walk_ok(170u8));
    assert(syllable_wf(170u8));
}

proof fn table_case_171()
    ensures
        syllable_walk_ok(171u8),
        syllable_wf(171u8),
{
    reveal_with_fuel(all_lower, 6);
        let s = spec_syllable(171u8);
        assert(s =~= seq![115u8, 101u8, 110u8]);
        lemma_xor_low5(0u32, 19u32);
        let n1 = Node { id: 19u32, base: 448u32, is_leaf: false, has_value: false };
        assert(spec_child(spec_root(), 115u8) == Some(n1));
        lemma_walk_step(spec_root(), seq![115u8, 101u8, 110u8], n1);
        assert(seq![115u8, 101u8, 110u8].drop_first() =~= seq![101u8, 110u8]);
        lemma_xor_low5(448u32, 5u32);
        let n2 = Node { id: 453u32, base: 2784u32, is_leaf: false, has_value: true };
        assert(spec_child(n1, 101u8) == Some(n2));
        lemma_walk_step(n1, seq![101u8, 110u8], n2);
        assert(seq![101u8, 110u8].drop_first() =~= seq![110u8]);
        lemma_xor_low5(2784u32, 14u32);
        let n3 = Node { id: 2798u32, base: 171u32, is_leaf: true, has_value: true };
        assert(spec_child(n2, 110u8) == Some(n3));
        lemma_walk_step(n2, seq![110u8], n3);
        assert(seq![110u8].drop_first() =~= Seq::<u8>::empty());
        assert(spec_walk(n3, Seq::<u8>::empty()) == Some(n3));
        assert(spec_node_value(n3) == Some(171u8));
        assert(syllable_walk_ok(171u8));
    assert(syllable_wf(171u8));
}

proof fn table_case_172()
    ensures
        syllable_walk_ok(172u8),
        syllable_wf(172u8),
{
    reveal_with_fuel(all_lower, 6);
        let s = spec_syllable(172u8);
        assert(s =~= seq![115u8, 105u8, 110u8]);
        lemma_xor_low5(0u32, 19u32);
        let n1 = Node { id: 19u32, base: 448u32, is_leaf: false, has_value: false };
        assert(spec_child(spec_root(), 115u8) == Some(n1));
        lemma_walk_step(spec_root(), seq![115u8, 105u8, 110u8], n1);
        assert(seq![115u8, 105u8, 110u8].drop_first() =~= seq![105u8, 110u8]);
        lemma_xor_low5(448u32, 9u32);
        let n2 = Node { id: 457u32, base: 2816u32, is_leaf: false, has_value: true };
        assert(spec_child(n1, 105u8) == Some(n2));
        lemma_walk_step(n1, seq![105u8, 110u8], n2);
        assert(seq![105u8, 110u8].drop_first() =~= seq![110u8]);
        lemma_xor_low5(2816u32, 14u32);
        let n3 = Node { id: 2830u32, base: 172u32, is_leaf: true, has_value: true };
        assert(spec_child(n2, 110u8) == Some(n3));
        lemma_walk_step(n2, seq![110u8], n3);
        assert(seq![110u8].drop_first() =~= Seq::<u8>::empty());
        assert(spec_walk(n3, Seq::<u8>::empty()) == Some(n3));
        assert(spec_node_value(n3) == Some(172u8));
        assert(syllable_walk_ok(172u8));
    assert(syllable_wf(172u8));
}

proof fn table_case_173()
    ensures
        syllable_walk_ok(173u8),
        syllable_wf(173u8),
{
    reveal_with_fuel(all_lower, 6);
        let s = spec_syllable(173u8);
        assert(s =~= seq![115u8, 111u8, 110u8]);
        lemma_xor_low5(0u32, 19u32);
        let n1 = Node { id: 19u32, base: 448u32, is_leaf: false, has_value: false };
        assert(spec_child(spec_root(), 115u8) == Some(n1));
        lemma_walk_step(spec_root(), seq![115u8, 111u8, 110u8], n1);
        assert(seq![115u8, 111u8, 110u8].drop_first() =~= seq![111u8, 110u8]);
        lemma_xor_low5(448u32, 15u32);
        let n2 = Node { id: 463u32, base: 2848u32, is_leaf: false, has_value: true };
        assert(spec_child(n1, 111u8) == Some(n2));
        lemma_walk_step(n1, seq![111u8, 110u8], n2);
        assert(seq![111u8, 110u8].drop_first() =~= seq![110u8]);
        lemma_xor_low5(2848u32, 14u32);
        let n3 = Node { id: 2862u32, base: 173u32, is_leaf: true, has_value: true };
        assert(spec_child(n2, 110u8) == Some(n3));
        lemma_walk_step(n2, seq![110u8], n3);
        assert(seq![110u8].drop_first() =~= Seq::<u8>::empty());
        assert(spec_walk(n3, Seq::<u8>::empty()) == Some(n3));
        assert(spec_node_value(n3) == Some(173u8));
        assert(syllable_walk_ok(173u8));
    assert(syllable_wf(173u8));
}

proof fn table_case_174()
    ensures
        syllable_walk_ok(174u8),
        syllable_wf(174u8),
{
    reveal_with_fuel(all_lower, 6);
        let s = spec_syllable(174u8);
        assert(s =~= seq![115u8, 117u8, 110u8]);
        lemma_xor_low5(0u32, 19u32);
        let n1 = Node { id: 19u32, base: 448u32, is_leaf: false, has_value: false };
        assert(spec_child(spec_root(), 115u8) == Some(n1));
        lemma_walk_step(spec_root(), seq![115u8, 117u8, 110u8], n1);
        assert(seq![115u8, 117u8, 110u8].drop_first() =~= seq![117u8, 110u8]);
        lemma_xor_low5(448u32, 21u32);
        let n2 = Node { id: 469u32, base: 2880u32, is_leaf: false, has_value: true };
        assert(spec_child(n1, 117u8) == Some(n2));
        lemma_walk_step(n1, seq![117u8, 110u8], n2);
        assert(seq![117u8, 110u8].drop_first() =~= seq![110u8]);
        lemma_xor_low5(2880u32, 14u32);
        let n3 = Node { id: 2894u32, base: 174u32, is_leaf: true, has_value: true };
        assert(spec_child(n2, 110u8) == Some(n3));
        lemma_walk_step(n2, seq![110u8], n3);
        assert(seq![110u8].drop_first() =~= Seq::<u8>::empty());
        assert(spec_walk(n3, Seq::<u8>::empty()) == Some(n3));
        assert(spec_node_value(n3) == Some(174u8));
        assert(syllable_walk_ok(174u8));
    assert(syllable_wf(174u8));
}

proof fn table_case_175()
    ensures
        syllable_walk_ok(175u8),
        syllable_wf(175u8),
{
    reveal_with_fuel(all_lower, 6);
        let s = spec_syllable(175u8);
        assert(s =~= seq![116u8, 97u8, 110u8]);
        lemma_xor_low5(0u32, 20u32);
        let n1 = Node { id: 20u32, base: 480u32, is_leaf: false, has_value: false };
        assert(spec_child(spec_root(), 116u8) == Some(n1));
        lemma_walk_step(spec_root(), seq![116u8, 97u8, 110u8], n1);
        assert(seq![116u8, 97u8, 110u8].drop_first() =~= seq![97u8, 110u8]);
        lemma_xor_low5(480u32, 1u32);
        let n2 = Node { id: 481u32, base: 2912u32, is_leaf: false, has_value: true };
        assert(spec_child(n1, 97u8) == Some(n2));
        lemma_walk_step(n1, seq![97u8, 110u8], n2);
        assert(seq![97u8, 110u8].drop_first() =~= seq![110u8]);
        lemma_xor_low5(2912u32, 14u32);
        let n3 = Node { id: 2926u32, base: 175u32, is_leaf: true, has_value: true };
        assert(spec_child(n2, 110u8) == Some(n3));
        lemma_walk_step(n2, seq![110u8], n3);
        assert(seq![110u8].drop_first() =~= Seq::<u8>::empty());
        assert(spec_walk(n3, Seq::<u8>::empty()) == Some(n3));
        assert(spec_node_value(n3) == Some(175u8));
        assert(syllable_walk_ok(175u8));
    assert(syllable_wf(175u8));
}

proof fn table_case_176()
    ensures
        syllable_walk_ok(176u8),
        syllable_wf(176u8),
{
    reveal_with_fuel(all_lower, 6);
        let s = spec_syllable(176u8);
        assert(s =~= seq![116u8, 101u8, 110u8]);
        lemma_xor_low5(0u32, 20u32);
        let n1 = Node { id: 20u32, base: 480u32, is_leaf: false, has_value: false };
        assert(spec_child(spec_root(), 116u8) == Some(n1));
        lemma_walk_step(spec_root(), seq![116u8, 101u8, 110u8], n1);
        assert(seq![116u8, 101u8, 110u8].drop_first() =~= seq![101u8, 110u8]);
        lemma_xor_low5(480u32, 5u32);
        let n2 = Node { id: 485u32, base: 2944u32, is_leaf: false, has_value: true };
        assert(spec_child(n1, 101u8) == Some(n2));
        lemma_walk_step(n1, seq![101u8, 110u8], n2);
        assert(seq![101u8, 110u8].drop_first() =~= seq![110u8]);
        lemma_xor_low5(2944u32, 14u32);
        let n3 = Node { id: 2958u32, base: 176u32, is_leaf: true, has_value: true };
        assert(spec_child(n2, 110u8) == Some(n3));
        lemma_walk_step(n2, seq![110u8], n3);
        assert(seq![110u8].drop_first() =~= Seq::<u8>::empty());
        assert(spec_walk(n3, Seq::<u8>::empty()) == Some(n3));
        assert(spec_node_value(n3) == Some(176u8));
        assert(syllable_walk_ok(176u8));
    assert(syllable_wf(176u8));
}

proof fn table_case_177()
    ensures
        syllable_walk_ok(177u8),
        syllable_wf(177u8),
{
    reveal_with_fuel(all_lower, 6);
        let s = spec_syllable(177u8);
        assert(s =~= seq![116u8, 105u8, 110u8]);
        lemma_xor_low5(0u32, 20u32);
        let n1 = Node { id: 20u32, base: 480u32, is_leaf: false, has_value: false };
        assert(spec_child(spec_root(), 116u8) == Some(n1));
        lemma_walk_step(spec_root(), seq![116u8, 105u8, 110u8], n1);
        assert(seq![116u8, 105u8, 110u8].drop_first() =~= seq![105u8, 110u8]);
        lemma_xor_low5(480u32, 9u32);
        let n2 = Node { id: 489u32, base: 2976u32, is_leaf: false, has_value: true };
        assert(spec_child(n1, 105u8) == Some(n2));
        lemma_walk_step(n1, seq![105u8, 110u8], n2);
        assert(seq![105u8, 110u8].drop_first() =~= seq![110u8]);
        lemma_xor_low5(2976u32, 14u32);
        let n3 = Node { id: 2990u32, base: 177u32, is_leaf: true, has_value: true };
        assert(spec_child(n2, 110u8) == Some(n3));
        lemma_walk_step(n2, seq![110u8], n3);
        assert(seq![110u8].drop_first() =~= Seq::<u8>::empty());
        assert(spec_walk(n3, Seq::<u8>::empty()) == Some(n3));
        assert(spec_node_value(n3) == Some(177u8));
        assert(syllable_walk_ok(177u8));
    assert(syllable_wf(177u8));
}

proof fn table_case_178()
    ensures
        syllable_walk_ok(178u8),
        syllable_wf(178u8),
{
    reveal_with_fuel(all_lower, 6);
        let s = spec_syllable(178u8);
        assert(s =~= seq![116u8, 111u8, 110u8]);
        lemma_xor_low5(0u32, 20u32);
        let n1 = Node { id: 20u32, base: 480u32, is_leaf: false, has_value: false };
        assert(spec_child(spec_root(), 116u8) == Some(n1));
        lemma_walk_step(spec_root(), seq![116u8, 111u8, 110u8], n1);
        assert(seq![116u8, 111u8, 110u8].drop_first() =~= seq![111u8, 110u8]);
        lemma_xor_low5(480u32, 15u32);
        let n2 = Node { id: 495u32, base: 3008u32, is_leaf: false, has_value: true };
        assert(spec_child(n1, 111u8) == Some(n2));
        lemma_walk_step(n1, seq![111u8, 110u8], n2);
        assert(seq![111u8, 110u8].drop_first() =~= seq![110u8]);
        lemma_xor_low5(3008u32, 14u32);
        let n3 = Node { id: 3022u32, base: 178u32, is_leaf: true, has_value: true };
        assert(spec_child(n2, 110u8) == Some(n3));
        lemma_walk_step(n2, seq![110u8], n3);
        assert(seq![110u8].drop_first() =~= Seq::<u8>::empty());
        assert(spec_walk(n3, Seq::<u8>::empty()) == Some(n3));
        assert(spec_node_value(n3) == Some(178u8));
        assert(syllable_walk_ok(178u8));
    assert(syllable_wf(178u8));
}

proof fn table_case_179()
    ensures
        syllable_walk_ok(179u8),
        syllable_wf(179u8),
{
    reveal_with_fuel(all_lower, 6);
        let s = spec_syllable(179u8);
        assert(s =~= seq![116u8, 117u8, 110u8]);
        lemma_xor_low5(0u32, 20u32);
        let n1 = Node { id: 20u32, base: 480u32, is_leaf: false, has_value: false };
        assert(spec_child(spec_root(), 116u8) == Some(n1));
        lemma_walk_step(spec_root(), seq![116u8, 117u8, 110u8], n1);
        assert(seq![116u8, 117u8, 110u8].drop_first() =~= seq![117u8, 110u8]);
        lemma_xor_low5(480u32, 21u32);
        let n2 = Node { id: 501u32, base: 3040u32, is_leaf: false, has_value: true };
        assert(spec_child(n1, 117u8) == Some(n2));
        lemma_walk_step(n1, seq![117u8, 110u8], n2);
        assert(seq![117u8, 110u8].drop_first() =~= seq![110u8]);
        lemma_xor_low5(3040u32, 14u32);
        let n3 = Node { id: 3054u32, base: 179u32, is_leaf: true, has_value: true };
        assert(spec_child(n2, 110u8) == Some(n3));
        lemma_walk_step(n2, seq![110u8], n3);
        assert(seq![110u8].drop_first() =~= Seq::<u8>::empty());
        assert(spec_walk(n3, Seq::<u8>::empty()) == Some(n3));
        assert(spec_node_value(n3) == Some(179u8));
        assert(syllable_walk_ok(179u8));
    assert(syllable_wf(179u8));
}

proof fn table_case_180()
    ensures
        syllable_walk_ok(180u8),
        syllable_wf(180u8),
{
    reveal_with_fuel(all_lower, 6);
        let s = spec_syllable(180u8);
        assert(s =~= seq![118u8, 97u8, 110u8]);
        lemma_xor_low5(0u32, 22u32);
        let n1 = Node { id: 22u32, base: 512u32, is_leaf: false, has_value: false };
        assert(spec_child(spec_root(), 118u8) == Some(n1));
        lemma_walk_step(spec_root(), seq![118u8, 97u8, 110u8], n1);
        assert(seq![118u8, 97u8, 110u8].drop_first() =~= seq![97u8, 110u8]);
        lemma_xor_low5(512u32, 1u32);
        let n2 = Node { id: 513u32, base: 3072u32, is_leaf: false, has_value: true };
        assert(spec_child(n1, 97u8) == Some(n2));
        lemma_walk_step(n1, seq![97u8, 110u8], n2);
        assert(seq![97u8, 110u8].drop_first() =~= seq![110u8]);
        lemma_xor_low5(3072u32, 14u32);
        let n3 = Node { id: 3086u32, base: 180u32, is_leaf: true, has_value: true };
        assert(spec_child(n2, 110u8) == Some(n3));
        lemma_walk_step(n2, seq![110u8], n3);
        assert(seq![110u8].drop_first() =~= Seq::<u8>::empty());
        assert(spec_walk(n3, Seq::<u8>::empty()) == Some(n3));
        assert(spec_node_value(n3) == Some(180u8));
        assert(syllable_walk_ok(180u8));
    assert(syllable_wf(180u8));
}

proof fn table_case_181()
    ensures
        syllable_walk_ok(181u8),
        syllable_wf(181u8),
{
    reveal_with_fuel(all_lower, 6);
        let s = spec_syllable(181u8);
        assert(s =~= seq![118u8, 101u8, 110u8]);
        lemma_xor_low5(0u32, 22u32);
        let n1 = Node { id: 22u32, base: 512u32, is_leaf: false, has_value: false };
        assert(spec_child(spec_root(), 118u8) == Some(n1));
        lemma_walk_step(spec_root(), seq![118u8, 101u8, 110u8], n1);
        assert(seq![118u8, 101u8, 110u8].drop_first() =~= seq![101u8, 110u8]);
        lemma_xor_low5(512u32, 5u32);
        let n2 = Node { id: 517u32, base: 3104u32, is_leaf: false, has_value: true };
        assert(spec_child(n1, 101u8) == Some(n2));
        lemma_walk_step(n1, seq![101u8, 110u8], n2);
        assert(seq![101u8, 110u8].drop_first() =~= seq![110u8]);
        lemma_xor_low5(3104u32, 14u32);
        let n3 = Node { id: 3118u32, base: 181u32, is_leaf: true, has_value: true };
        assert(spec_child(n2, 110u8) == Some(n3));
        lemma_walk_step(n2, seq![110u8], n3);
        assert(seq![110u8].drop_first() =~= Seq::<u8>::empty());
        assert(spec_walk(n3, Seq::<u8>::empty()) == Some(n3));
        assert(spec_node_value(n3) == Some(181u8));
        assert(syllable_walk_ok(181u8));
    assert(syllable_wf(181u8));
}

proof fn table_case_182()
    ensures
        syllable_walk_ok(182u8),
        syllable_wf(182u8),
{
    reveal_with_fuel(all_lower, 6);
        let s = spec_syllable(182u8);
        assert(s =~= seq![118u8, 105u8, 110u8]);
        lemma_xor_low5(0u32, 22u32);
        let n1 = Node { id: 22u32, base: 512u32, is_leaf: false, has_value: false };
        assert(spec_child(spec_root(), 118u8) == Some(n1));
        lemma_walk_step(spec_root(), seq![118u8, 105u8, 110u8], n1);
        assert(seq![118u8, 105u8, 110u8].drop_first() =~= seq![105u8, 110u8]);
        lemma_xor_low5(512u32, 9u32);
        let n2 = Node { id: 521u32, base: 3136u32, is_leaf: false, has_value: true };
        assert(spec_child(n1, 105u8) == Some(n2));
        lemma_walk_step(n1, seq![105u8, 110u8], n2);
        assert(seq![105u8, 110u8].drop_first() =~= seq![110u8]);
        lemma_xor_low5(3136u32, 14u32);
        let n3 = Node { id: 3150u32, base: 182u32, is_leaf: true, has_value: true };
        assert(spec_child(n2, 110u8) == Some(n3));
        lemma_walk_step(n2, seq![110u8], n3);
        assert(seq![110u8].drop_first() =~= Seq::<u8>::empty());
        assert(spec_walk(n3, Seq::<u8>::empty()) == Some(n3));
        assert(spec_node_value(n3) == Some(182u8));
        assert(syllable_walk_ok(182u8));
    assert(syllable_wf(182u8));
}

proof fn table_case_183()
    ensures
        syllable_walk_ok(183u8),
        syllable_wf(183u8),
{
    reveal_with_fuel(all_lower, 6);
        let s = spec_syllable(183u8);
        assert(s =~= seq![118u8, 111u8, 110u8]);
        lemma_xor_low5(0u32, 22u32);
        let n1 = Node { id: 22u32, base: 512u32, is_leaf: false, has_value: false };
        assert(spec_child(spec_root(), 118u8) == Some(n1));
        lemma_walk_step(spec_root(), seq![118u8, 111u8, 110u8], n1);
        assert(seq![118u8, 111u8, 110u8].drop_first() =~= seq![111u8, 110u8]);
        lemma_xor_low5(512u32, 15u32);
        let n2 = Node { id: 527u32, base: 3168u32, is_leaf: false, has_value: true };
        assert(spec_child(n1, 111u8) == Some(n2));
        lemma_walk_step(n1, seq![111u8, 110u8], n2);
        assert(seq![111u8, 110u8].drop_first() =~= seq![110u8]);
        lemma_xor_low5(3168u32, 14u32);
        let n3 = Node { id: 3182u32, base: 183u32, is_leaf: true, has_value: true };
        assert(spec_child(n2, 110u8) == Some(n3));
        lemma_walk_step(n2, seq![110u8], n3);
        assert(seq![110u8].drop_first() =~= Seq::<u8>::empty());
        assert(spec_walk(n3, Seq::<u8>::empty()) == Some(n3));
        assert(spec_node_value(n3) == Some(183u8));
        assert(syllable_walk_ok(183u8));
    assert(syllable_wf(183u8));
}

proof fn table_case_184()
    ensures
        syllable_walk_ok(184u8),
        syllable_wf(184u8),
{
    reveal_with_fuel(all_lower, 6);
        let s = spec_syllable(184u8);
        assert(s =~= seq![118u8, 117u8, 110u8]);
        lemma_xor_low5(0u32, 22u32);
        let n1 = Node { id: 22u32, base: 512u32, is_leaf: false, has_value: false };
        assert(spec_child(spec_root(), 118u8) == Some(n1));
        lemma_walk_step(spec_root(), seq![118u8, 117u8, 110u8], n1);
        assert(seq![118u8, 117u8, 110u8].drop_first() =~= seq![117u8, 110u8]);
        lemma_xor_low5(512u32, 21u32);
        let n2 = Node { id: 533u32, base: 3200u32, is_leaf: false, has_value: true };
        assert(spec_child(n1, 117u8) == Some(n2));
        lemma_walk_step(n1, seq![117u8, 110u8], n2);
        assert(seq![117u8, 110u8].drop_first() =~= seq![110u8]);
        lemma_xor_low5(3200u32, 14u32);
        let n3 = Node { id: 3214u32, base: 184u32, is_leaf: true, has_value: true };
        assert(spec_child(n2, 110u8) == Some(n3));
        lemma_walk_step(n2, seq![110u8], n3);
        assert(seq![110u8].drop_first() =~= Seq::<u8>::empty());
        assert(spec_walk(n3, Seq::<u8>::empty()) == Some(n3));
        assert(spec_node_value(n3) == Some(184u8));
        assert(syllable_walk_ok(184u8));
    assert(syllable_wf(184u8));
}

proof fn table_case_185()
    ensures
        syllable_walk_ok(185u8),
        syllable_wf(185u8),
{
    reveal_with_fuel(all_lower, 6);
        let s = spec_syllable(185u8);
        assert(s =~= seq![119u8, 97u8, 110u8]);
        lemma_xor_low5(0u32, 23u32);
        let n1 = Node { id: 23u32, base: 544u32, is_leaf: false, has_value: false };
        assert(spec_child(spec_root(), 119u8) == Some(n1));
        lemma_walk_step(spec_root(), seq![119u8, 97u8, 110u8], n1);
        assert(seq![119u8, 97u8, 110u8].drop_first() =~= seq![97u8, 110u8]);
        lemma_xor_low5(544u32, 1u32);
        let n2 = Node { id: 545u32, base: 3232u32, is_leaf: false, has_value: true };
        assert(spec_child(n1, 97u8) == Some(n2));
        lemma_walk_step(n1, seq![97u8, 110u8], n2);
        assert(seq![97u8, 110u8].drop_first() =~= seq![110u8]);
        lemma_xor_low5(3232u32, 14u32);
        let n3 = Node { id: 3246u32, base: 185u32, is_leaf: true, has_value: true };
        assert(spec_child(n2, 110u8) == Some(n3));
        lemma_walk_step(n2, seq![110u8], n3);
        assert(seq![110u8].drop_first() =~= Seq::<u8>::empty());
        assert(spec_walk(n3, Seq::<u8>::empty()) == Some(n3));
        assert(spec_node_value(n3) == Some(185u8));
        assert(syllable_walk_ok(185u8));
    assert(syllable_wf(185u8));
}

proof fn table_case_186()
    ensures
        syllable_walk_ok(186u8),
        syllable_wf(186u8),
{
    reveal_with_fuel(all_lower, 6);
        let s = spec_syllable(186u8);
        assert(s =~= seq![119u8, 101u8, 110u8]);
        lemma_xor_low5(0u32, 23u32);
        let n1 = Node { id: 23u32, base: 544u32, is_leaf: false, has_value: false };
        assert(spec_child(spec_root(), 119u8) == Some(n1));
        lemma_walk_step(spec_root(), seq![119u8, 101u8, 110u8], n1);
        assert(seq![119u8, 101u8, 110u8].drop_first() =~= seq![101u8, 110u8]);
        lemma_xor_low5(544u32, 5u32);
        let n2 = Node { id: 549u32, base: 3264u32, is_leaf: false, has_value: true };
        assert(spec_child(n1, 101u8) == Some(n2));
        lemma_walk_step(n1, seq![101u8, 110u8], n2);
        assert(seq![101u8, 110u8].drop_first() =~= seq![110u8]);
        lemma_xor_low5(3264u32, 14u32);
        let n3 = Node { id: 3278u32, base: 186u32, is_leaf: true, has_value: true };
        assert(spec_child(n2, 110u8) == Some(n3));
        lemma_walk_step(n2, seq![110u8], n3);
        assert(seq![110u8].drop_first() =~= Seq::<u8>::empty());
        assert(spec_walk(n3, Seq::<u8>::empty()) == Some(n3));
        assert(spec_node_value(n3) == Some(186u8));
        assert(syllable_walk_ok(186u8));
    assert(syllable_wf(186u8));
}

proof fn table_case_187()
    ensures
        syllable_walk_ok(187u8),
        syllable_wf(187u8),
{
    reveal_with_fuel(all_lower, 6);
        let s = spec_syllable(187u8);
        assert(s =~= seq![119u8, 105u8, 110u8]);
        lemma_xor_low5(0u32, 23u32);
        let n1 = Node { id: 23u32, base: 544u32, is_leaf: false, has_value: false };
        assert(spec_child(spec_root(), 119u8) == Some(n1));
        lemma_walk_step(spec_root(), seq![119u8, 105u8, 110u8], n1);
        assert(seq![119u8, 105u8, 110u8].drop_first() =~= seq![105u8, 110u8]);
        lemma_xor_low5(544u32, 9u32);
        let n2 = Node { id: 553u32, base: 3296u32, is_leaf: false, has_value: true };
        assert(spec_child(n1, 105u8) == Some(n2));
        lemma_walk_step(n1, seq![105u8, 110u8], n2);
        assert(seq![105u8, 110u8].drop_first() =~= seq![110u8]);
        lemma_xor_low5(3296u32, 14u32);
        let n3 = Node { id: 3310u32, base: 187u32, is_leaf: true, has_value: true };
        assert(spec_child(n2, 110u8) == Some(n3));
        lemma_walk_step(n2, seq![110u8], n3);
        assert(seq![110u8].drop_first() =~= Seq::<u8>::empty());
        assert(spec_walk(n3, Seq::<u8>::empty()) == Some(n3));
        assert(spec_node_value(n3) == Some(187u8));
        assert(syllable_walk_ok(187u8));
    assert(syllable_wf(187u8));
}

proof fn table_case_188()
    ensures
        syllable_walk_ok(188u8),
        syllable_wf(188u8),
{
    reveal_with_fuel(all_lower, 6);
        let s = spec_syllable(188u8);
        assert(s =~= seq![119u8, 111u8, 110u8]);
        lemma_xor_low5(0u32, 23u32);
        let n1 = Node { id: 23u32, base: 544u32, is_leaf: false, has_value: false };
        assert(spec_child(spec_root(), 119u8) == Some(n1));
        lemma_walk_step(spec_root(), seq![119u8, 111u8, 110u8], n1);
        assert(seq![119u8, 111u8, 110u8].drop_first() =~= seq![111u8, 110u8]);
        lemma_xor_low5(544u32, 15u32);
        let n2 = Node { id: 559u32, base: 3328u32, is_leaf: false, has_value: true };
        assert(spec_child(n1, 111u8) == Some(n2));
        lemma_walk_step(n1, seq![111u8, 110u8], n2);
        assert(seq![111u8, 110u8].drop_first() =~= seq![110u8]);
        lemma_xor_low5(3328u32, 14u32);
        let n3 = Node { id: 3342u32, base: 188u32, is_leaf: true, has_value: true };
        assert(spec_child(n2, 110u8) == Some(n3));
        lemma_walk_step(n2, seq![110u8], n3);
        assert(seq![110u8].drop_first() =~= Seq::<u8>::empty());
        assert(spec_walk(n3, Seq::<u8>::empty()) == Some(n3));
        assert(spec_node_value(n3) == Some(188u8));
        assert(syllable_walk_ok(188u8));
    assert(syllable_wf(188u8));
}

proof fn table_case_189()
    ensures
        syllable_walk_ok(189u8),
        syllable_wf(189u8),
{
    reveal_with_fuel(all_lower, 6);
        let s = spec_syllable(189u8);
        assert(s =~= seq![119u8, 117u8, 110u8]);
        lemma_xor_low5(0u32, 23u32);
        let n1 = Node { id: 23u32, base: 544u32, is_leaf: false, has_value: false };
        assert(spec_child(spec_root(), 119u8) == Some(n1));
        lemma_walk_step(spec_root(), seq![119u8, 117u8, 110u8], n1);
        assert(seq![119u8, 117u8, 110u8].drop_first() =~= seq![117u8, 110u8]);
        lemma_xor_low5(544u32, 21u32);
        let n2 = Node { id: 565u32, base: 3360u32, is_leaf: false, has_value: true };
        assert(spec_child(n1, 117u8) == Some(n2));
        lemma_walk_step(n1, seq![117u8, 110u8], n2);
        assert(seq![117u8, 110u8].drop_first() =~= seq![110u8]);
        lemma_xor_low5(3360u32, 14u32);
        let n3 = Node { id: 3374u32, base: 189u32, is_leaf: true, has_value: true };
        assert(spec_child(n2, 110u8) == Some(n3));
        lemma_walk_step(n2, seq![110u8], n3);
        assert(seq![110u8].drop_first() =~= Seq::<u8>::empty());
        assert(spec_walk(n3, Seq::<u8>::empty()) == Some(n3));
        assert(spec_node_value(n3) == Some(189u8));
        assert(syllable_walk_ok(189u8));
    assert(syllable_wf(189u8));
}

proof fn table_case_190()
    ensures
        syllable_walk_ok(190u8),
        syllable_wf(190u8),
{
    reveal_with_fuel(all_lower, 6);
        let s = spec_syllable(190u8);
        assert(s =~= seq![120u8, 97u8, 110u8]);
        lemma_xor_low5(0u32, 24u32);
        let n1 = Node { id: 24u32, base: 576u32, is_leaf: false, has_value: false };
        assert(spec_child(spec_root(), 120u8) == Some(n1));
        lemma_walk_step(spec_root(), seq![120u8, 97u8, 110u8], n1);
        assert(seq![120u8, 97u8, 110u8].drop_first() =~= seq![97u8, 110u8]);
        lemma_xor_low5(576u32, 1u32);
        let n2 = Node { id: 577u32, base: 3392u32, is_leaf: false, has_value: true };
        assert(spec_child(n1, 97u8) == Some(n2));
        lemma_walk_step(n1, seq![97u8, 110u8], n2);
        assert(seq![97u8, 110u8].drop_first() =~= seq![110u8]);
        lemma_xor_low5(3392u32, 14u32);
        let n3 = Node { id: 3406u32, base: 190u32, is_leaf: true, has_value: true };
        assert(spec_child(n2, 110u8) == Some(n3));
        lemma_walk_step(n2, seq![110u8], n3);
        assert(seq![110u8].drop_first() =~= Seq::<u8>::empty());
        assert(spec_walk(n3, Seq::<u8>::empty()) == Some(n3));
        assert(spec_node_value(n3) == Some(190u8));
        assert(syllable_walk_ok(190u8));
    assert(syllable_wf(190u8));
}

proof fn table_case_191()
    ensures
        syllable_walk_ok(191u8),
        syllable_wf(191u8),
{
    reveal_with_fuel(all_lower, 6);
        let s = spec_syllable(191u8);
        assert(s =~= seq![120u8, 101u8, 110u8]);
        lemma_xor_low5(0u32, 24u32);
        let n1 = Node { id: 24u32, base: 576u32, is_leaf: false, has_value: false };
        assert(spec_child(spec_root(), 120u8) == Some(n1));
        lemma_walk_step(spec_root(), seq![120u8, 101u8, 110u8], n1);
        assert(seq![120u8, 101u8, 110u8].drop_first() =~= seq![101u8, 110u8]);
        lemma_xor_low5(576u32, 5u32);
        let n2 = Node { id: 581u32, base: 3424u32, is_leaf: false, has_value: true };
        assert(spec_child(n1, 101u8) == Some(n2));
        lemma_walk_step(n1, seq![101u8, 110u8], n2);
        assert(seq![101u8, 110u8].drop_first() =~= seq![110u8]);
        lemma_xor_low5(3424u32, 14u32);
        let n3 = Node { id: 3438u32, base: 191u32, is_leaf: true, has_value: true };
        assert(spec_child(n2, 110u8) == Some(n3));
        lemma_walk_step(n2, seq![110u8], n3);
        assert(seq![110u8].drop_first() =~= Seq::<u8>::empty());
        assert(spec_walk(n3, Seq::<u8>::empty()) == Some(n3));
        assert(spec_node_value(n3) == Some(191u8));
        assert(syllable_walk_ok(191u8));
    assert(syllable_wf(191u8));
}

proof fn table_case_192()
    ensures
        syllable_walk_ok(192u8),
        syllable_wf(192u8),
{
    reveal_with_fuel(all_lower, 6);
        let s = spec_syllable(192u8);
        assert(s =~= seq![120u8, 105u8, 110u8]);
        lemma_xor_low5(0u32, 24u32);
        let n1 = Node { id: 24u32, base: 576u32, is_leaf: false, has_value: false };
        assert(spec_child(spec_root(), 120u8) == Some(n1));
        lemma_walk_step(spec_root(), seq![120u8, 105u8, 110u8], n1);
        assert(seq![120u8, 105u8, 110u8].drop_first() =~= seq![105u8, 110u8]);
        lemma_xor_low5(576u32, 9u32);
        let n2 = Node { id: 585u32, base: 3456u32, is_leaf: false, has_value: true };
        assert(spec_child(n1, 105u8) == Some(n2));
        lemma_walk_step(n1, seq![105u8, 110u8], n2);
        assert(seq![105u8, 110u8].drop_first() =~= seq![110u8]);
        lemma_xor_low5(3456u32, 14u32);
        let n3 = Node { id: 3470u32, base: 192u32, is_leaf: true, has_value: true };
        assert(spec_child(n2, 110u8) == Some(n3));
        lemma_walk_step(n2, seq![110u8], n3);
        assert(seq![110u8].drop_first() =~= Seq::<u8>::empty());
        assert(spec_walk(n3, Seq::<u8>::empty()) == Some(n3));
        assert(spec_node_value(n3) == Some(192u8));
        assert(syllable_walk_ok(192u8));
    assert(syllable_wf(192u8));
}

proof fn table_case_193()
    ensures
        syllable_walk_ok(193u8),
        syllable_wf(193u8),
{
    reveal_with_fuel(all_lower, 6);
        let s = spec_syllable(193u8);
        assert(s =~= seq![120u8, 111u8, 110u8]);
        lemma_xor_low5(0u32, 24u32);
        let n1 = Node { id: 24u32, base: 576u32, is_leaf: false, has_value: false };
        assert(spec_child(spec_root(), 120u8) == Some(n1));
        lemma_walk_step(spec_root(), seq![120u8, 111u8, 110u8], n1);
        assert(seq![120u8, 111u8, 110u8].drop_first() =~= seq![111u8, 110u8]);
        lemma_xor_low5(576u32, 15u32);
        let n2 = Node { id: 591u32, base: 3488u32, is_leaf: false, has_value: true };
        assert(spec_child(n1, 111u8) == Some(n2));
        lemma_walk_step(n1, seq![111u8, 110u8], n2);
        assert(seq![111u8, 110u8].drop_first() =~= seq![110u8]);
        lemma_xor_low5(3488u32, 14u32);
        let n3 = Node { id: 3502u32, base: 193u32, is_leaf: true, has_value: true };
        assert(spec_child(n2, 110u8) == Some(n3));
        lemma_walk_step(n2, seq![110u8], n3);
        assert(seq![110u8].drop_first() =~= Seq::<u8>::empty());
        assert(spec_walk(n3, Seq::<u8>::empty()) == Some(n3));
        assert(spec_node_value(n3) == Some(193u8));
        assert(syllable_walk_ok(193u8));
    assert(syllable_wf(193u8));
}

proof fn table_case_194()
    ensures
        syllable_walk_ok(194u8),
        syllable_wf(194u8),
{
    reveal_with_fuel(all_lower, 6);
        let s = spec_syllable(194u8);
        assert(s =~= seq![120u8, 117u8, 110u8]);
        lemma_xor_low5(0u32, 24u32);
        let n1 = Node { id: 24u32, base: 576u32, is_leaf: false, has_value: false };
        assert(spec_child(spec_root(), 120u8) == Some(n1));
        lemma_walk_step(spec_root(), seq![120u8, 117u8, 110u8], n1);
        assert(seq![120u8, 117u8, 110u8].drop_first() =~= seq![117u8, 110u8]);
        lemma_xor_low5(576u32, 21u32);
        let n2 = Node { id: 597u32, base: 3520u32, is_leaf: false, has_value: true };
        assert(spec_child(n1, 117u8) == Some(n2));
        lemma_walk_step(n1, seq![117u8, 110u8], n2);
        assert(seq![117u8, 110u8].drop_first() =~= seq![110u8]);
        lemma_xor_low5(3520u32, 14u32);
        let n3 = Node { id: 3534u32, base: 194u32, is_leaf: true, has_value: true };
        assert(spec_child(n2, 110u8) == Some(n3));
        lemma_walk_step(n2, seq![110u8], n3);
        assert(seq![110u8].drop_first() =~= Seq::<u8>::empty());
        assert(spec_walk(n3, Seq::<u8>::empty()) == Some(n3));
        assert(spec_node_value(n3) == Some(194u8));
        assert(syllable_walk_ok(194u8));
    assert(syllable_wf(194u8));
}

proof fn table_case_195()
    ensures
        syllable_walk_ok(195u8),
        syllable_wf(195u8),
{
    reveal_with_fuel(all_lower, 6);
        let s = spec_syllable(195u8);
        assert(s =~= seq![121u8, 97u8, 110u8]);
        lemma_xor_low5(0u32, 25u32);
        let n1 = Node { id: 25u32, base: 608u32, is_leaf: false, has_value: false };
        assert(spec_child(spec_root(), 121u8) == Some(n1));
        lemma_walk_step(spec_root(), seq![121u8, 97u8, 110u8], n1);
        assert(seq![121u8, 97u8, 110u8].drop_first() =~= seq![97u8, 110u8]);
        lemma_xor_low5(608u32, 1u32);
        let n2 = Node { id: 609u32, base: 3552u32, is_leaf: false, has_value: true };
        assert(spec_child(n1, 97u8) == Some(n2));
        lemma_walk_step(n1, seq![97u8, 110u8], n2);
        assert(seq![97u8, 110u8].drop_first() =~= seq![110u8]);
        lemma_xor_low5(3552u32, 14u32);
        let n3 = Node { id: 3566u32, base: 195u32, is_leaf: true, has_value: true };
        assert(spec_child(n2, 110u8) == Some(n3));
        lemma_walk_step(n2, seq![110u8], n3);
        assert(seq![110u8].drop_first() =~= Seq::<u8>::empty());
        assert(spec_walk(n3, Seq::<u8>::empty()) == Some(n3));
        assert(spec_node_value(n3) == Some(195u8));
        assert(syllable_walk_ok(195u8));
    assert(syllable_wf(195u8));
}

proof fn table_case_196()
    ensures
        syllable_walk_ok(196u8),
        syllable_wf(196u8),
{
    reveal_with_fuel(all_lower, 6);
        let s = spec_syllable(196u8);
        assert(s =~= seq![121u8, 101u8, 110u8]);
        lemma_xor_low5(0u32, 25u32);
        let n1 = Node { id: 25u32, base: 608u32, is_leaf: false, has_value: false };
        assert(spec_child(spec_root(), 121u8) == Some(n1));
        lemma_walk_step(spec_root(), seq![121u8, 101u8, 110u8], n1);
        assert(seq![121u8, 101u8, 110u8].drop_first() =~= seq![101u8, 110u8]);
        lemma_xor_low5(608u32, 5u32);
        let n2 = Node { id: 613u32, base: 3584u32, is_leaf: false, has_value: true };
        assert(spec_child(n1, 101u8) == Some(n2));
        lemma_walk_step(n1, seq![101u8, 110u8], n2);
        assert(seq![101u8, 110u8].drop_first() =~= seq![110u8]);
        lemma_xor_low5(3584u32, 14u32);
        let n3 = Node { id: 3598u32, base: 196u32, is_leaf: true, has_value: true };
        assert(spec_child(n2, 110u8) == Some(n3));
        lemma_walk_step(n2, seq![110u8], n3);
        assert(seq![110u8].drop_first() =~= Seq::<u8>::empty());
        assert(spec_walk(n3, Seq::<u8>::empty()) == Some(n3));
        assert(spec_node_value(n3) == Some(196u8));
        assert(syllable_walk_ok(196u8));
    assert(syllable_wf(196u8));
}

proof fn table_case_197()
    ensures
        syllable_walk_ok(197u8),
        syllable_wf(197u8),
{
    reveal_with_fuel(all_lower, 6);
        let s = spec_syllable(197u8);
        assert(s =~= seq![121u8, 105u8, 110u8]);
        lemma_xor_low5(0u32, 25u32);
        let n1 = Node { id: 25u32, base: 608u32, is_leaf: false, has_value: false };
        assert(spec_child(spec_root(), 121u8) == Some(n1));
        lemma_walk_step(spec_root(), seq![121u8, 105u8, 110u8], n1);
        assert(seq![121u8, 105u8, 110u8].drop_first() =~= seq![105u8, 110u8]);
        lemma_xor_low5(608u32, 9u32);
        let n2 = Node { id: 617u32, base: 3616u32, is_leaf: false, has_value: true };
        assert(spec_child(n1, 105u8) == Some(n2));
        lemma_walk_step(n1, seq![105u8, 110u8], n2);
        assert(seq![105u8, 110u8].drop_first() =~= seq![110u8]);
        lemma_xor_low5(3616u32, 14u32);
        let n3 = Node { id: 3630u32, base: 197u32, is_leaf: true, has_value: true };
        assert(spec_child(n2, 110u8) == Some(n3));
        lemma_walk_step(n2, seq![110u8], n3);
        assert(seq![110u8].drop_first() =~= Seq::<u8>::empty());
        assert(spec_walk(n3, Seq::<u8>::empty()) == Some(n3));
        assert(spec_node_value(n3) == Some(197u8));
        assert(syllable_walk_ok(197u8));
    assert(syllable_wf(197u8));
}

proof fn table_case_198()
    ensures
        syllable_walk_ok(198u8),
        syllable_wf(198u8),
{
    reveal_with_fuel(all_lower, 6);
        let s = spec_syllable(198u8);
        assert(s =~= seq![121u8, 111u8, 110u8]);
        lemma_xor_low5(0u32, 25u32);
        let n1 = Node { id: 25u32, base: 608u32, is_leaf: false, has_value: false };
        assert(spec_child(spec_root(), 121u8) == Some(n1));
        lemma_walk_step(spec_root(), seq![121u8, 111u8, 110u8], n1);
        assert(seq![121u8, 111u8, 110u8].drop_first() =~= seq![111u8, 110u8]);
        lemma_xor_low5(608u32, 15u32);
        let n2 = Node { id: 623u32, base: 3648u32, is_leaf: false, has_value: true };
        assert(spec_child(n1, 111u8) == Some(n2));
        lemma_walk_step(n1, seq![111u8, 110u8], n2);
        assert(seq![111u8, 110u8].drop_first() =~= seq![110u8]);
        lemma_xor_low5(3648u32, 14u32);
        let n3 = Node { id: 3662u32, base: 198u32, is_leaf: true, has_value: true };
        assert(spec_child(n2, 110u8) == Some(n3));
        lemma_walk_step(n2, seq![110u8], n3);
        assert(seq![110u8].drop_first() =~= Seq::<u8>::empty());
        assert(spec_walk(n3, Seq::<u8>::empty()) == Some(n3));
        assert(spec_node_value(n3) == Some(198u8));
        assert(syllable_walk_ok(198u8));
    assert(syllable_wf(198u8));
}

proof fn table_case_199()
    ensures
        syllable_walk_ok(199u8),
        syllable_wf(199u8),
{
    reveal_with_fuel(all_lower, 6);
        let s = spec_syllable(199u8);
        assert(s =~= seq![121u8, 117u8, 110u8]);
        lemma_xor_low5(0u32, 25u32);
        let n1 = Node { id: 25u32, base: 608u32, is_leaf: false, has_value: false };
        assert(spec_child(spec_root(), 121u8) == Some(n1));
        lemma_walk_step(spec_root(), seq![121u8, 117u8, 110u8], n1);
        assert(seq![121u8, 117u8, 110u8].drop_first() =~= seq![117u8, 110u8]);
        lemma_xor_low5(608u32, 21u32);
        let n2 = Node { id: 629u32, base: 3680u32, is_leaf: false, has_value: true };
        assert(spec_child(n1, 117u8) == Some(n2));
        lemma_walk_step(n1, seq![117u8, 110u8], n2);
        assert(seq![117u8, 110u8].drop_first() =~= seq![110u8]);
        lemma_xor_low5(3680u32, 14u32);
        let n3 = Node { id: 3694u32, base: 199u32, is_leaf: true, has_value: true };
        assert(spec_child(n2, 110u8) == Some(n3));
        lemma_walk_step(n2, seq![110u8], n3);
        assert(seq![110u8].drop_first() =~= Seq::<u8>::empty());
        assert(spec_walk(n3, Seq::<u8>::empty()) == Some(n3));
        assert(spec_node_value(n3) == Some(199u8));
        assert(syllable_walk_ok(199u8));
    assert(syllable_wf(199u8));
}

proof fn table_case_200()
    ensures
        syllable_walk_ok(200u8),
        syllable_wf(200u8),
{
    reveal_with_fuel(all_lower, 6);
        let s = spec_syllable(200u8);
        assert(s =~= seq![122u8, 97u8, 110u8]);
        lemma_xor_low5(0u32, 26u32);
        let n1 = Node { id: 26u32, base: 640u32, is_leaf: false, has_value: false };
        assert(spec_child(spec_root(), 122u8) == Some(n1));
        lemma_walk_step(spec_root(), seq![122u8, 97u8, 110u8], n1);
        assert(seq![122u8, 97u8, 110u8].drop_first() =~= seq![97u8, 110u8]);
        lemma_xor_low5(640u32, 1u32);
        let n2 = Node { id: 641u32, base: 3712u32, is_leaf: false, has_value: true };
        assert(spec_child(n1, 97u8) == Some(n2));
        lemma_walk_step(n1, seq![97u8, 110u8], n2);
        assert(seq![97u8, 110u8].drop_first() =~= seq![110u8]);
        lemma_xor_low5(3712u32, 14u32);
        let n3 = Node { id: 3726u32, base: 200u32, is_leaf: true, has_value: true };
        assert(spec_child(n2, 110u8) == Some(n3));
        lemma_walk_step(n2, seq![110u8], n3);
        assert(seq![110u8].drop_first() =~= Seq::<u8>::empty());
        assert(spec_walk(n3, Seq::<u8>::empty()) == Some(n3));
        assert(spec_node_value(n3) == Some(200u8));
        assert(syllable_walk_ok(200u8));
    assert(syllable_wf(200u8));
}

proof fn table_case_201()
    ensures
        syllable_walk_ok(201u8),
        syllable_wf(201u8),
{
    reveal_with_fuel(all_lower, 6);
        let s = spec_syllable(201u8);
        assert(s =~= seq![122u8, 101u8, 110u8]);
        lemma_xor_low5(0u32, 26u32);
        let n1 = Node { id: 26u32, base: 640u32, is_leaf: false, has_value: false };
        assert(spec_child(spec_root(), 122u8) == Some(n1));
        lemma_walk_step(spec_root(), seq![122u8, 101u8, 110u8], n1);
        assert(seq![122u8, 101u8, 110u8].drop_first() =~= seq![101u8, 110u8]);
        lemma_xor_low5(640u32, 5u32);
        let n2 = Node { id: 645u32, base: 3744u32, is_leaf: false, has_value: true };
        assert(spec_child(n1, 101u8) == Some(n2));
        lemma_walk_step(n1, seq![101u8, 110u8], n2);
        assert(seq![101u8, 110u8].drop_first() =~= seq![110u8]);
        lemma_xor_low5(3744u32, 14u32);
        let n3 = Node { id: 3758u32, base: 201u32, is_leaf: true, has_value: true };
        assert(spec_child(n2, 110u8) == Some(n3));
        lemma_walk_step(n2, seq![110u8], n3);
        assert(seq![110u8].drop_first() =~= Seq::<u8>::empty());
        assert(spec_walk(n3, Seq::<u8>::empty()) == Some(n3));
        assert(spec_node_value(n3) == Some(201u8));
        assert(syllable_walk_ok(201u8));
    assert(syllable_wf(201u8));
}

proof fn table_case_202()
    ensures
        syllable_walk_ok(202u8),
        syllable_wf(202u8),
{
    reveal_with_fuel(all_lower, 6);
        let s = spec_syllable(202u8);
        assert(s =~= seq![122u8, 105u8, 110u8]);
        lemma_xor_low5(0u32, 26u32);
        let n1 = Node { id: 26u32, base: 640u32, is_leaf: false, has_value: false };
        assert(spec_child(spec_root(), 122u8) == Some(n1));
        lemma_walk_step(spec_root(), seq![122u8, 105u8, 110u8], n1);
        assert(seq![122u8, 105u8, 110u8].drop_first() =~= seq![105u8, 110u8]);
        lemma_xor_low5(640u32, 9u32);
        let n2 = Node { id: 649u32, base: 3776u32, is_leaf: false, has_value: true };
        assert(spec_child(n1, 105u8) == Some(n2));
        lemma_walk_step(n1, seq![105u8, 110u8], n2);
        assert(seq![105u8, 110u8].drop_first() =~= seq![110u8]);
        lemma_xor_low5(3776u32, 14u32);
        let n3 = Node { id: 3790u32, base: 202u32, is_leaf: true, has_value: true };
        assert(spec_child(n2, 110u8) == Some(n3));
        lemma_walk_step(n2, seq![110u8], n3);
        assert(seq![110u8].drop_first() =~= Seq::<u8>::empty());
        assert(spec_walk(n3, Seq::<u8>::empty()) == Some(n3));
        assert(spec_node_value(n3) == Some(202u8));
        assert(syllable_walk_ok(202u8));
    assert(syllable_wf(202u8));
}

proof fn table_case_203()
    ensures
        syllable_walk_ok(203u8),
        syllable_wf(203u8),
{
    reveal_with_fuel(all_lower, 6);
        let s = spec_syllable(203u8);
        assert(s =~= seq![122u8, 111u8, 110u8]);
        lemma_xor_low5(0u32, 26u32);
        let n1 = Node { id: 26u32, base: 640u32, is_leaf: false, has_value: false };
        assert(spec_child(spec_root(), 122u8) == Some(n1));
        lemma_walk_step(spec_root(), seq![122u8, 111u8, 110u8], n1);
        assert(seq![122u8, 111u8, 110u8].drop_first() =~= seq![111u8, 110u8]);
        lemma_xor_low5(640u32, 15u32);
        let n2 = Node { id: 655u32, base: 3808u32, is_leaf: false, has_value: true };
        assert(spec_child(n1, 111u8) == Some(n2));
        lemma_walk_step(n1, seq![111u8, 110u8], n2);
        assert(seq![111u8, 110u8].drop_first() =~= seq![110u8]);
        lemma_xor_low5(3808u32, 14u32);
        let n3 = Node { id: 3822u32, base: 203u32, is_leaf: true, has_value: true };
        assert(spec_child(n2, 110u8) == Some(n3));
        lemma_walk_step(n2, seq![110u8], n3);
        assert(seq![110u8].drop_first() =~= Seq::<u8>::empty());
        assert(spec_walk(n3, Seq::<u8>::empty()) == Some(n3));
        assert(spec_node_value(n3) == Some(203u8));
        assert(syllable_walk_ok(203u8));
    assert(syllable_wf(203u8));
}

proof fn table_case_204()
    ensures
        syllable_walk_ok(204u8),
        syllable_wf(204u8),
{
    reveal_with_fuel(all_lower, 6);
        let s = spec_syllable(204u8);
        assert(s =~= seq![122u8, 117u8, 110u8]);
        lemma_xor_low5(0u32, 26u32);
        let n1 = Node { id: 26u32, base: 640u32, is_leaf: false, has_value: false };
        assert(spec_child(spec_root(), 122u8) == Some(n1));
        lemma_walk_step(spec_root(), seq![122u8, 117u8, 110u8], n1);
        assert(seq![122u8, 117u8, 110u8].drop_first() =~= seq![117u8, 110u8]);
        lemma_xor_low5(640u32, 21u32);
        let n2 = Node { id: 661u32, base: 3840u32, is_leaf: false, has_value: true };
        assert(spec_child(n1, 117u8) == Some(n2));
        lemma_walk_step(n1, seq![117u8, 110u8], n2);
        assert(seq![117u8, 110u8].drop_first() =~= seq![110u8]);
        lemma_xor_low5(3840u32, 14u32);
        let n3 = Node { id: 3854u32, base: 204u32, is_leaf: true, has_value: true };
        assert(spec_child(n2, 110u8) == Some(n3));
        lemma_walk_step(n2, seq![110u8], n3);
        assert(seq![110u8].drop_first() =~= Seq::<u8>::empty());
        assert(spec_walk(n3, Seq::<u8>::empty()) == Some(n3));
        assert(spec_node_value(n3) == Some(204u8));
        assert(syllable_walk_ok(204u8));
    assert(syllable_wf(204u8));
}

proof fn table_case_205()
    ensures
        syllable_walk_ok(205u8),
        syllable_wf(205u8),
{
    reveal_with_fuel(all_lower, 6);
        let s = spec_syllable(205u8);
        assert(s =~= seq![98u8, 97u8, 115u8]);
        lemma_xor_low5(0u32, 2u32);
        let n1 = Node { id: 2u32, base: 32u32, is_leaf: false, has_value: false };
        assert(spec_child(spec_root(), 98u8) == Some(n1));
        lemma_walk_step(spec_root(), seq![98u8, 97u8, 115u8], n1);
        assert(seq![98u8, 97u8, 115u8].drop_first() =~= seq![97u8, 115u8]);
        lemma_xor_low5(32u32, 1u32);
        let n2 = Node { id: 33u32, base: 672u32, is_leaf: false, has_value: true };
        assert(spec_child(n1, 97u8) == Some(n2));
        lemma_walk_step(n1, seq![97u8, 115u8], n2);
        assert(seq![97u8, 115u8].drop_first() =~= seq![115u8]);
        lemma_xor_low5(672u32, 19u32);
        let n3 = Node { id: 691u32, base: 205u32, is_leaf: true, has_value: true };
        assert(spec_child(n2, 115u8) == Some(n3));
        lemma_walk_step(n2, seq![115u8], n3);
        assert(seq![115u8].drop_first() =~= Seq::<u8>::empty());
        assert(spec_walk(n3, Seq::<u8>::empty()) == Some(n3));
        assert(spec_node_value(n3) == Some(205u8));
        assert(syllable_walk_ok(205u8));
    assert(syllable_wf(205u8));
}

proof fn table_case_206()
    ensures
        syllable_walk_ok(206u8),
        syllable_wf(206u8),
{
    reveal_with_fuel(all_lower, 6);
        let s = spec_syllable(206u8);
        assert(s =~= seq![98u8, 101u8, 115u8]);
        lemma_xor_low5(0u32, 2u32);
        let n1 = Node { id: 2u32, base: 32u32, is_leaf: false, has_value: false };
        assert(spec_child(spec_root(), 98u8) == Some(n1));
        lemma_walk_step(spec_root(), seq![98u8, 101u8, 115u8], n1);
        assert(seq![98u8, 101u8, 115u8].drop_first() =~= seq![101u8, 115u8]);
        lemma_xor_low5(32u32, 5u32);
        let n2 = Node { id: 37u32, base: 704u32, is_leaf: false, has_value: true };
        assert(spec_child(n1, 101u8) == Some(n2));
        lemma_walk_step(n1, seq![101u8, 115u8], n2);
        assert(seq![101u8, 115u8].drop_first() =~= seq![115u8]);
        lemma_xor_low5(704u32, 19u32);
        let n3 = Node { id: 723u32, base: 206u32, is_leaf: true, has_value: true };
        assert(spec_child(n2, 115u8) == Some(n3));
        lemma_walk_step(n2, seq![115u8], n3);
        assert(seq![115u8].drop_first() =~= Seq::<u8>::empty());
        assert(spec_walk(n3, Seq::<u8>::empty()) == Some(n3));
        assert(spec_node_value(n3) == Some(206u8));
        assert(syllable_walk_ok(206u8));
    assert(syllable_wf(206u8));
}

proof fn table_case_207()
    ensures
        syllable_walk_ok(207u8),
        syllable_wf(207u8),
{
    reveal_with_fuel(all_lower, 6);
        let s = spec_syllable(207u8);
        assert(s =~= seq![98u8, 105u8, 115u8]);
        lemma_xor_low5(0u32, 2u32);
        let n1 = Node { id: 2u32, base: 32u32, is_leaf: false, has_value: false };
        assert(spec_child(spec_root(), 98u8) == Some(n1));
        lemma_walk_step(spec_root(), seq![98u8, 105u8, 115u8], n1);
        assert(seq![98u8, 105u8, 115u8].drop_first() =~= seq![105u8, 115u8]);
        lemma_xor_low5(32u32, 9u32);
        let n2 = Node { id: 41u32, base: 736u32, is_leaf: false, has_value: true };
        assert(spec_child(n1, 105u8) == Some(n2));
        lemma_walk_step(n1, seq![105u8, 115u8], n2);
        assert(seq![105u8, 115u8].drop_first() =~= seq![115u8]);
        lemma_xor_low5(736u32, 19u32);
        let n3 = Node { id: 755u32, base: 207u32, is_leaf: true, has_value: true };
        assert(spec_child(n2, 115u8) == Some(n3));
        lemma_walk_step(n2, seq![115u8], n3);
        assert(seq![115u8].drop_first() =~= Seq::<u8>::empty());
        assert(spec_walk(n3, Seq::<u8>::empty()) == Some(n3));
        assert(spec_node_value(n3) == Some(207u8));
        assert(syllable_walk_ok(207u8));
    assert(syllable_wf(207u8));
}

proof fn table_case_208()
    ensures
        syllable_walk_ok(208u8),
        syllable_wf(208u8),
{
    reveal_with_fuel(all_lower, 6);
        let s = spec_syllable(208u8);
        assert(s =~= seq![98u8, 111u8, 115u8]);
        lemma_xor_low5(0u32, 2u32);
        let n1 = Node { id: 2u32, base: 32u32, is_leaf: false, has_value: false };
        assert(spec_child(spec_root(), 98u8) == Some(n1));
        lemma_walk_step(spec_root(), seq![98u8, 111u8, 115u8], n1);
        assert(seq![98u8, 111u8, 115u8].drop_first() =~= seq![111u8, 115u8]);
        lemma_xor_low5(32u32, 15u32);
        let n2 = Node { id: 47u32, base: 768u32, is_leaf: false, has_value: true };
        assert(spec_child(n1, 111u8) == Some(n2));
        lemma_walk_step(n1, seq![111u8, 115u8], n2);
        assert(seq![111u8, 115u8].drop_first() =~= seq![115u8]);
        lemma_xor_low5(768u32, 19u32);
        let n3 = Node { id: 787u32, base: 208u32, is_leaf: true, has_value: true };
        assert(spec_child(n2, 115u8) == Some(n3));
        lemma_walk_step(n2, seq![115u8], n3);
        assert(seq![115u8].drop_first() =~= Seq::<u8>::empty());
        assert(spec_walk(n3, Seq::<u8>::empty()) == Some(n3));
        assert(spec_node_value(n3) == Some(208u8));
        assert(syllable_walk_ok(208u8));
    assert(syllable_wf(208u8));
}

proof fn table_case_209()
    ensures
        syllable_walk_ok(209u8),
        syllable_wf(209u8),
{
    reveal_with_fuel(all_lower, 6);
        let s = spec_syllable(209u8);
        assert(s =~= seq![98u8, 117u8, 115u8]);
        lemma_xor_low5(0u32, 2u32);
        let n1 = Node { id: 2u32, base: 32u32, is_leaf: false, has_value: false };
        assert(spec_child(spec_root(), 98u8) == Some(n1));
        lemma_walk_step(spec_root(), seq![98u8, 117u8, 115u8], n1);
        assert(seq![98u8, 117u8, 115u8].drop_first() =~= seq![117u8, 115u8]);
        lemma_xor_low5(32u32, 21u32);
        let n2 = Node { id: 53u32, base: 800u32, is_leaf: false, has_value: true };
        assert(spec_child(n1, 117u8) == Some(n2));
        lemma_walk_step(n1, seq![117u8, 115u8], n2);
        assert(seq![117u8, 115u8].drop_first() =~= seq![115u8]);
        lemma_xor_low5(800u32, 19u32);
        let n3 = Node { id: 819u32, base: 209u32, is_leaf: true, has_value: true };
        assert(spec_child(n2, 115u8) == Some(n3));
        lemma_walk_step(n2, seq![115u8], n3);
        assert(seq![115u8].drop_first() =~= Seq::<u8>::empty());
        assert(spec_walk(n3, Seq::<u8>::empty()) == Some(n3));
        assert(spec_node_value(n3) == Some(209u8));
        assert(syllable_walk_ok(209u8));
    assert(syllable_wf(209u8));
}

proof fn table_case_210()
    ensures
        syllable_walk_ok(210u8),
        syllable_wf(210u8),
{
    reveal_with_fuel(all_lower, 6);
        let s = spec_syllable(210u8);
        assert(s =~= seq![99u8, 97u8, 115u8]);
        lemma_xor_low5(0u32, 3u32);
        let n1 = Node { id: 3u32, base: 64u32, is_leaf: false, has_value: false };
        assert(spec_child(spec_root(), 99u8) == Some(n1));
        lemma_walk_step(spec_root(), seq![99u8, 97u8, 115u8], n1);
        assert(seq![99u8, 97u8, 115u8].drop_first() =~= seq![97u8, 115u8]);
        lemma_xor_low5(64u32, 1u32);
        let n2 = Node { id: 65u32, base: 832u32, is_leaf: false, has_value: true };
        assert(spec_child(n1, 97u8) == Some(n2));
        lemma_walk_step(n1, seq![97u8, 115u8], n2);
        assert(seq![97u8, 115u8].drop_first() =~= seq![115u8]);
        lemma_xor_low5(832u32, 19u32);
        let n3 = Node { id: 851u32, base: 210u32, is_leaf: true, has_value: true };
        assert(spec_child(n2, 115u8) == Some(n3));
        lemma_walk_step(n2, seq![115u8], n3);
        assert(seq![115u8].drop_first() =~= Seq::<u8>::empty());
        assert(spec_walk(n3, Seq::<u8>::empty()) == Some(n3));
        assert(spec_node_value(n3) == Some(210u8));
        assert(syllable_walk_ok(210u8));
    assert(syllable_wf(210u8));
}

proof fn table_case_211()
    ensures
        syllable_walk_ok(211u8),
        syllable_wf(211u8),
{
    reveal_with_fuel(all_lower, 6);
        let s = spec_syllable(211u8);
        assert(s =~= seq![99u8, 101u8, 115u8]);
        lemma_xor_low5(0u32, 3u32);
        let n1 = Node { id: 3u32, base: 64u32, is_leaf: false, has_value: false };
        assert(spec_child(spec_root(), 99u8) == Some(n1));
        lemma_walk_step(spec_root(), seq![99u8, 101u8, 115u8], n1);
        assert(seq![99u8, 101u8, 115u8].drop_first() =~= seq![101u8, 115u8]);
        lemma_xor_low5(64u32, 5u32);
        let n2 = Node { id: 69u32, base: 864u32, is_leaf: false, has_value: true };
        assert(spec_child(n1, 101u8) == Some(n2));
        lemma_walk_step(n1, seq![101u8, 115u8], n2);
        assert(seq![101u8, 115u8].drop_first() =~= seq![115u8]);
        lemma_xor_low5(864u32, 19u32);
        let n3 = Node { id: 883u32, base: 211u32, is_leaf: true, has_value: true };
        assert(spec_child(n2, 115u8) == Some(n3));
        lemma_walk_step(n2, seq![115u8], n3);
        assert(seq![115u8].drop_first() =~= Seq::<u8>::empty());
        assert(spec_walk(n3, Seq::<u8>::empty()) == Some(n3));
        assert(spec_node_value(n3) == Some(211u8));
        assert(syllable_walk_ok(211u8));
    assert(syllable_wf(211u8));
}

proof fn table_case_212()
    ensures
        syllable_walk_ok(212u8),
        syllable_wf(212u8),
{
    reveal_with_fuel(all_lower, 6);
        let s = spec_syllable(212u8);
        assert(s =~= seq![99u8, 105u8, 115u8]);
        lemma_xor_low5(0u32, 3u32);
        let n1 = Node { id: 3u32, base: 64u32, is_leaf: false, has_value: false };
        assert(spec_child(spec_root(), 99u8) == Some(n1));
        lemma_walk_step(spec_root(), seq![99u8, 105u8, 115u8], n1);
        assert(seq![99u8, 105u8, 115u8].drop_first() =~= seq![105u8, 115u8]);
        lemma_xor_low5(64u32, 9u32);
        let n2 = Node { id: 73u32, base: 896u32, is_leaf: false, has_value: true };
        assert(spec_child(n1, 105u8) == Some(n2));
        lemma_walk_step(n1, seq![105u8, 115u8], n2);
        assert(seq![105u8, 115u8].drop_first() =~= seq![115u8]);
        lemma_xor_low5(896u32, 19u32);
        let n3 = Node { id: 915u32, base: 212u32, is_leaf: true, has_value: true };
        assert(spec_child(n2, 115u8) == Some(n3));
        lemma_walk_step(n2, seq![115u8], n3);
        assert(seq![115u8].drop_first() =~= Seq::<u8>::empty());
        assert(spec_walk(n3, Seq::<u8>::empty()) == Some(n3));
        assert(spec_node_value(n3) == Some(212u8));
        assert(syllable_walk_ok(212u8));
    assert(syllable_wf(212u8));
}

proof fn table_case_213()
    ensures
        syllable_walk_ok(213u8),
        syllable_wf(213u8),
{
    reveal_with_fuel(all_lower, 6);
        let s = spec_syllable(213u8);
        assert(s =~= seq![99u8, 111u8, 115u8]);
        lemma_xor_low5(0u32, 3u32);
        let n1 = Node { id: 3u32, base: 64u32, is_leaf: false, has_value: false };
        assert(spec_child(spec_root(), 99u8) == Some(n1));
        lemma_walk_step(spec_root(), seq![99u8, 111u8, 115u8], n1);
        assert(seq![99u8, 111u8, 115u8].drop_first() =~= seq![111u8, 115u8]);
        lemma_xor_low5(64u32, 15u32);
        let n2 = Node { id: 79u32, base: 928u32, is_leaf: false, has_value: true };
        assert(spec_child(n1, 111u8) == Some(n2));
        lemma_walk_step(n1, seq![111u8, 115u8], n2);
        assert(seq![111u8, 115u8].drop_first() =~= seq![115u8]);
        lemma_xor_low5(928u32, 19u32);
        let n3 = Node { id: 947u32, base: 213u32, is_leaf: true, has_value: true };
        assert(spec_child(n2, 115u8) == Some(n3));
        lemma_walk_step(n2, seq![115u8], n3);
        assert(seq![115u8].drop_first() =~= Seq::<u8>::empty());
        assert(spec_walk(n3, Seq::<u8>::empty()) == Some(n3));
        assert(spec_node_value(n3) == Some(213u8));
        assert(syllable_walk_ok(213u8));
    assert(syllable_wf(213u8));
}

proof fn table_case_214()
    ensures
        syllable_walk_ok(214u8),
        syllable_wf(214u8),
{
    reveal_with_fuel(all_lower, 6);
        let s = spec_syllable(214u8);
        assert(s =~= seq![99u8, 117u8, 115u8]);
        lemma_xor_low5(0u32, 3u32);
        let n1 = Node { id: 3u32, base: 64u32, is_leaf: false, has_value: false };
        assert(spec_child(spec_root(), 99u8) == Some(n1));
        lemma_walk_step(spec_root(), seq![99u8, 117u8, 115u8], n1);
        assert(seq![99u8, 117u8, 115u8].drop_first() =~= seq![117u8, 115u8]);
        lemma_xor_low5(64u32, 21u32);
        let n2 = Node { id: 85u32, base: 960u32, is_leaf: false, has_value: true };
        assert(spec_child(n1, 117u8) == Some(n2));
        lemma_walk_step(n1, seq![117u8, 115u8], n2);
        assert(seq![117u8, 115u8].drop_first() =~= seq![115u8]);
        lemma_xor_low5(960u32, 19u32);
        let n3 = Node { id: 979u32, base: 214u32, is_leaf: true, has_value: true };
        assert(spec_child(n2, 115u8) == Some(n3));
        lemma_walk_step(n2, seq![115u8], n3);
        assert(seq![115u8].drop_first() =~= Seq::<u8>::empty());
        assert(spec_walk(n3, Seq::<u8>::empty()) == Some(n3));
        assert(spec_node_value(n3) == Some(214u8));
        assert(syllable_walk_ok(214u8));
    assert(syllable_wf(214u8));
}

proof fn table_case_215()
    ensures
        syllable_walk_ok(215u8),
        syllable_wf(215u8),
{
    reveal_with_fuel(all_lower, 6);
        let s = spec_syllable(215u8);
        assert(s =~= seq![100u8, 97u8, 115u8]);
        lemma_xor_low5(0u32, 4u32);
        let n1 = Node { id: 4u32, base: 96u32, is_leaf: false, has_value: false };
        assert(spec_child(spec_root(), 100u8) == Some(n1));
        lemma_walk_step(spec_root(), seq![100u8, 97u8, 115u8], n1);
        assert(seq![100u8, 97u8, 115u8].drop_first() =~= seq![97u8, 115u8]);
        lemma_xor_low5(96u32, 1u32);
        let n2 = Node { id: 97u32, base: 992u32, is_leaf: false, has_value: true };
        assert(spec_child(n1, 97u8) == Some(n2));
        lemma_walk_step(n1, seq![97u8, 115u8], n2);
        assert(seq![97u8, 115u8].drop_first() =~= seq![115u8]);
        lemma_xor_low5(992u32, 19u32);
        let n3 = Node { id: 1011u32, base: 215u32, is_leaf: true, has_value: true };
        assert(spec_child(n2, 115u8) == Some(n3));
        lemma_walk_step(n2, seq![115u8], n3);
        assert(seq![115u8].drop_first() =~= Seq::<u8>::empty());
        assert(spec_walk(n3, Seq::<u8>::empty()) == Some(n3));
        assert(spec_node_value(n3) == Some(215u8));
        assert(syllable_walk_ok(215u8));
    assert(syllable_wf(215u8));
}

proof fn table_case_216()
    ensures
        syllable_walk_ok(216u8),
        syllable_wf(216u8),
{
    reveal_with_fuel(all_lower, 6);
        let s = spec_syllable(216u8);
        assert(s =~= seq![100u8, 101u8, 115u8]);
        lemma_xor_low5(0u32, 4u32);
        let n1 = Node { id: 4u32, base: 96u32, is_leaf: false, has_value: false };
        assert(spec_child(spec_root(), 100u8) == Some(n1));
        lemma_walk_step(spec_root(), seq![100u8, 101u8, 115u8], n1);
        assert(seq![100u8, 101u8, 115u8].drop_first() =~= seq![101u8, 115u8]);
        lemma_xor_low5(96u32, 5u32);
        let n2 = Node { id: 101u32, base: 1024u32, is_leaf: false, has_value: true };
        assert(spec_child(n1, 101u8) == Some(n2));
        lemma_walk_step(n1, seq![101u8, 115u8], n2);
        assert(seq![101u8, 115u8].drop_first() =~= seq![115u8]);
        lemma_xor_low5(1024u32, 19u32);
        let n3 = Node { id: 1043u32, base: 216u32, is_leaf: true, has_value: true };
        assert(spec_child(n2, 115u8) == Some(n3));
        lemma_walk_step(n2, seq![115u8], n3);
        assert(seq![115u8].drop_first() =~= Seq::<u8>::empty());
        assert(spec_walk(n3, Seq::<u8>::empty()) == Some(n3));
        assert(spec_node_value(n3) == Some(216u8));
        assert(syllable_walk_ok(216u8));
    assert(syllable_wf(216u8));
}

proof fn table_case_217()
    ensures
        syllable_walk_ok(217u8),
        syllable_wf(217u8),
{
    reveal_with_fuel(all_lower, 6);
        let s = spec_syllable(217u8);
        assert(s =~= seq![100u8, 105u8, 115u8]);
        lemma_xor_low5(0u32, 4u32);
        let n1 = Node { id: 4u32, base: 96u32, is_leaf: false, has_value: false };
        assert(spec_child(spec_root(), 100u8) == Some(n1));
        lemma_walk_step(spec_root(), seq![100u8, 105u8, 115u8], n1);
        assert(seq![100u8, 105u8, 115u8].drop_first() =~= seq![105u8, 115u8]);
        lemma_xor_low5(96u32, 9u32);
        let n2 = Node { id: 105u32, base: 1056u32, is_leaf: false, has_value: true };
        assert(spec_child(n1, 105u8) == Some(n2));
        lemma_walk_step(n1, seq![105u8, 115u8], n2);
        assert(seq![105u8, 115u8].drop_first() =~= seq![115u8]);
        lemma_xor_low5(1056u32, 19u32);
        let n3 = Node { id: 1075u32, base: 217u32, is_leaf: true, has_value: true };
        assert(spec_child(n2, 115u8) == Some(n3));
        lemma_walk_step(n2, seq![115u8], n3);
        assert(seq![115u8].drop_first() =~= Seq::<u8>::empty());
        assert(spec_walk(n3, Seq::<u8>::empty()) == Some(n3));
        assert(spec_node_value(n3) == Some(217u8));
        assert(syllable_walk_ok(217u8));
    assert(syllable_wf(217u8));
}

proof fn table_case_218()
    ensures
        syllable_walk_ok(218u8),
        syllable_wf(218u8),
{
    reveal_with_fuel(all_lower, 6);
        let s = spec_syllable(218u8);
        assert(s =~= seq![100u8, 111u8, 115u8]);
        lemma_xor_low5(0u32, 4u32);
        let n1 = Node { id: 4u32, base: 96u32, is_leaf: false, has_value: false };
        assert(spec_child(spec_root(), 100u8) == Some(n1));
        lemma_walk_step(spec_root(), seq![100u8, 111u8, 115u8], n1);
        assert(seq![100u8, 111u8, 115u8].drop_first() =~= seq![111u8, 115u8]);
        lemma_xor_low5(96u32, 15u32);
        let n2 = Node { id: 111u32, base: 1088u32, is_leaf: false, has_value: true };
        assert(spec_child(n1, 111u8) == Some(n2));
        lemma_walk_step(n1, seq![111u8, 115u8], n2);
        assert(seq![111u8, 115u8].drop_first() =~= seq![115u8]);
        lemma_xor_low5(1088u32, 19u32);
        let n3 = Node { id: 1107u32, base: 218u32, is_leaf: true, has_value: true };
        assert(spec_child(n2, 115u8) == Some(n3));
        lemma_walk_step(n2, seq![115u8], n3);
        assert(seq![115u8].drop_first() =~= Seq::<u8>::empty());
        assert(spec_walk(n3, Seq::<u8>::empty()) == Some(n3));
        assert(spec_node_value(n3) == Some(218u8));
        assert(syllable_walk_ok(218u8));
    assert(syllable_wf(218u8));
}

proof fn table_case_219()
    ensures
        syllable_walk_ok(219u8),
        syllable_wf(219u8),
{
    reveal_with_fuel(all_lower, 6);
        let s = spec_syllable(219u8);
        assert(s =~= seq![100u8, 117u8, 115u8]);
        lemma_xor_low5(0u32, 4u32);
        let n1 = Node { id: 4u32, base: 96u32, is_leaf: false, has_value: false };
        assert(spec_child(spec_root(), 100u8) == Some(n1));
        lemma_walk_step(spec_root(), seq![100u8, 117u8, 115u8], n1);
        assert(seq![100u8, 117u8, 115u8].drop_first() =~= seq![117u8, 115u8]);
        lemma_xor_low5(96u32, 21u32);
        let n2 = Node { id: 117u32, base: 1120u32, is_leaf: false, has_value: true };
        assert(spec_child(n1, 117u8) == Some(n2));
        lemma_walk_step(n1, seq![117u8, 115u8], n2);
        assert(seq![117u8, 115u8].drop_first() =~= seq![115u8]);
        lemma_xor_low5(1120u32, 19u32);
        let n3 = Node { id: 1139u32, base: 219u32, is_leaf: true, has_value: true };
        assert(spec_child(n2, 115u8) == Some(n3));
        lemma_walk_step(n2, seq![115u8], n3);
        assert(seq![115u8].drop_first() =~= Seq::<u8>::empty());
        assert(spec_walk(n3, Seq::<u8>::empty()) == Some(n3));
        assert(spec_node_value(n3) == Some(219u8));
        assert(syllable_walk_ok(219u8));
    assert(syllable_wf(219u8));
}

proof fn table_case_220()
    ensures
        syllable_walk_ok(220u8),
        syllable_wf(220u8),
{
    reveal_with_fuel(all_lower, 6);
        let s = spec_syllable(220u8);
        assert(s =~= seq![102u8, 97u8, 115u8]);
        lemma_xor_low5(0u32, 6u32);
        let n1 = Node { id: 6u32, base: 128u32, is_leaf: false, has_value: false };
        assert(spec_child(spec_root(), 102u8) == Some(n1));
        lemma_walk_step(spec_root(), seq![102u8, 97u8, 115u8], n1);
        assert(seq![102u8, 97u8, 115u8].drop_first() =~= seq![97u8, 115u8]);
        lemma_xor_low5(128u32, 1u32);
        let n2 = Node { id: 129u32, base: 1152u32, is_leaf: false, has_value: true };
        assert(spec_child(n1, 97u8) == Some(n2));
        lemma_walk_step(n1, seq![97u8, 115u8], n2);
        assert(seq![97u8, 115u8].drop_first() =~= seq![115u8]);
        lemma_xor_low5(1152u32, 19u32);
        let n3 = Node { id: 1171u32, base: 220u32, is_leaf: true, has_value: true };
        assert(spec_child(n2, 115u8) == Some(n3));
        lemma_walk_step(n2, seq![115u8], n3);
        assert(seq![115u8].drop_first() =~= Seq::<u8>::empty());
        assert(spec_walk(n3, Seq::<u8>::empty()) == Some(n3));
        assert(spec_node_value(n3) == Some(220u8));
        assert(syllable_walk_ok(220u8));
    assert(syllable_wf(220u8));
}

proof fn table_case_221()
    ensures
        syllable_walk_ok(221u8),
        syllable_wf(221u8),
{
    reveal_with_fuel(all_lower, 6);
        let s = spec_syllable(221u8);
        assert(s =~= seq![102u8, 101u8, 115u8]);
        lemma_xor_low5(0u32, 6u32);
        let n1 = Node { id: 6u32, base: 128u32, is_leaf: false, has_value: false };
        assert(spec_child(spec_root(), 102u8) == Some(n1));
        lemma_walk_step(spec_root(), seq![102u8, 101u8, 115u8], n1);
        assert(seq![102u8, 101u8, 115u8].drop_first() =~= seq![101u8, 115u8]);
        lemma_xor_low5(128u32, 5u32);
        let n2 = Node { id: 133u32, base: 1184u32, is_leaf: false, has_value: true };
        assert(spec_child(n1, 101u8) == Some(n2));
        lemma_walk_step(n1, seq![101u8, 115u8], n2);
        assert(seq![101u8, 115u8].drop_first() =~= seq![115u8]);
        lemma_xor_low5(1184u32, 19u32);
        let n3 = Node { id: 1203u32, base: 221u32, is_leaf: true, has_value: true };
        assert(spec_child(n2, 115u8) == Some(n3));
        lemma_walk_step(n2, seq![115u8], n3);
        assert(seq![115u8].drop_first() =~= Seq::<u8>::empty());
        assert(spec_walk(n3, Seq::<u8>::empty()) == Some(n3));
        assert(spec_node_value(n3) == Some(221u8));
        assert(syllable_walk_ok(221u8));
    assert(syllable_wf(221u8));
}

proof fn table_case_222()
    ensures
        syllable_walk_ok(222u8),
        syllable_wf(222u8),
{
    reveal_with_fuel(all_lower, 6);
        let s = spec_syllable(222u8);
        assert(s =~= seq![102u8, 105u8, 115u8]);
        lemma_xor_low5(0u32, 6u32);
        let n1 = Node { id: 6u32, base: 128u32, is_leaf: false, has_value: false };
        assert(spec_child(spec_root(), 102u8) == Some(n1));
        lemma_walk_step(spec_root(), seq![102u8, 105u8, 115u8], n1);
        assert(seq![102u8, 105u8, 115u8].drop_first() =~= seq![105u8, 115u8]);
        lemma_xor_low5(128u32, 9u32);
        let n2 = Node { id: 137u32, base: 1216u32, is_leaf: false, has_value: true };
        assert(spec_child(n1, 105u8) == Some(n2));
        lemma_walk_step(n1, seq![105u8, 115u8], n2);
        assert(seq![105u8, 115u8].drop_first() =~= seq![115u8]);
        lemma_xor_low5(1216u32, 19u32);
        let n3 = Node { id: 1235u32, base: 222u32, is_leaf: true, has_value: true };
        assert(spec_child(n2, 115u8) == Some(n3));
        lemma_walk_step(n2, seq![115u8], n3);
        assert(seq![115u8].drop_first() =~= Seq::<u8>::empty());
        assert(spec_walk(n3, Seq::<u8>::empty()) == Some(n3));
        assert(spec_node_value(n3) == Some(222u8));
        assert(syllable_walk_ok(222u8));
    assert(syllable_wf(222u8));
}

proof fn table_case_223()
    ensures
        syllable_walk_ok(223u8),
        syllable_wf(223u8),
{
    reveal_with_fuel(all_lower, 6);
        let s = spec_syllable(223u8);
        assert(s =~= seq![102u8, 111u8, 115u8]);
        lemma_xor_low5(0u32, 6u32);
        let n1 = Node { id: 6u32, base: 128u32, is_leaf: false, has_value: false };
        assert(spec_child(spec_root(), 102u8) == Some(n1));
        lemma_walk_step(spec_root(), seq![102u8, 111u8, 115u8], n1);
        assert(seq![102u8, 111u8, 115u8].drop_first() =~= seq![111u8, 115u8]);
        lemma_xor_low5(128u32, 15u32);
        let n2 = Node { id: 143u32, base: 1248u32, is_leaf: false, has_value: true };
        assert(spec_child(n1, 111u8) == Some(n2));
        lemma_walk_step(n1, seq![111u8, 115u8], n2);
        assert(seq![111u8, 115u8].drop_first() =~= seq![115u8]);
        lemma_xor_low5(1248u32, 19u32);
        let n3 = Node { id: 1267u32, base: 223u32, is_leaf: true, has_value: true };
        assert(spec_child(n2, 115u8) == Some(n3));
        lemma_walk_step(n2, seq![115u8], n3);
        assert(seq![115u8].drop_first() =~= Seq::<u8>::empty());
        assert(spec_walk(n3, Seq::<u8>::empty()) == Some(n3));
        assert(spec_node_value(n3) == Some(223u8));
        assert(syllable_walk_ok(223u8));
    assert(syllable_wf(223u8));
}

proof fn table_case_224()
    ensures
        syllable_walk_ok(224u8),
        syllable_wf(224u8),
{
    reveal_with_fuel(all_lower, 6);
        let s = spec_syllable(224u8);
        assert(s =~= seq![102u8, 117u8, 115u8]);
        lemma_xor_low5(0u32, 6u32);
        let n1 = Node { id: 6u32, base: 128u32, is_leaf: false, has_value: false };
        assert(spec_child(spec_root(), 102u8) == Some(n1));
        lemma_walk_step(spec_root(), seq![102u8, 117u8, 115u8], n1);
        assert(seq![102u8, 117u8, 115u8].drop_first() =~= seq![117u8, 115u8]);
        lemma_xor_low5(128u32, 21u32);
        let n2 = Node { id: 149u32, base: 1280u32, is_leaf: false, has_value: true };
        assert(spec_child(n1, 117u8) == Some(n2));
        lemma_walk_step(n1, seq![117u8, 115u8], n2);
        assert(seq![117u8, 115u8].drop_first() =~= seq![115u8]);
        lemma_xor_low5(1280u32, 19u32);
        let n3 = Node { id: 1299u32, base: 224u32, is_leaf: true, has_value: true };
        assert(spec_child(n2, 115u8) == Some(n3));
        lemma_walk_step(n2, seq![115u8], n3);
        assert(seq![115u8].drop_first() =~= Seq::<u8>::empty());
        assert(spec_walk(n3, Seq::<u8>::empty()) == Some(n3));
        assert(spec_node_value(n3) == Some(224u8));
        assert(syllable_walk_ok(224u8));
    assert(syllable_wf(224u8));
}

proof fn table_case_225()
    ensures
        syllable_walk_ok(225u8),
        syllable_wf(225u8),
{
    reveal_with_fuel(all_lower, 6);
        let s = spec_syllable(225u8);
        assert(s =~= seq![103u8, 97u8, 115u8]);
        lemma_xor_low5(0u32, 7u32);
        let n1 = Node { id: 7u32, base: 160u32, is_leaf: false, has_value: false };
        assert(spec_child(spec_root(), 103u8) == Some(n1));
        lemma_walk_step(spec_root(), seq![103u8, 97u8, 115u8], n1);
        assert(seq![103u8, 97u8, 115u8].drop_first() =~= seq![97u8, 115u8]);
        lemma_xor_low5(160u32, 1u32);
        let n2 = Node { id: 161u32, base: 1312u32, is_leaf: false, has_value: true };
        assert(spec_child(n1, 97u8) == Some(n2));
        lemma_walk_step(n1, seq![97u8, 115u8], n2);
        assert(seq![97u8, 115u8].drop_first() =~= seq![115u8]);
        lemma_xor_low5(1312u32, 19u32);
        let n3 = Node { id: 1331u32, base: 225u32, is_leaf: true, has_value: true };
        assert(spec_child(n2, 115u8) == Some(n3));
        lemma_walk_step(n2, seq![115u8], n3);
        assert(seq![115u8].drop_first() =~= Seq::<u8>::empty());
        assert(spec_walk(n3, Seq::<u8>::empty()) == Some(n3));
        assert(spec_node_value(n3) == Some(225u8));
        assert(syllable_walk_ok(225u8));
    assert(syllable_wf(225u8));
}

proof fn table_case_226()
    ensures
        syllable_walk_ok(226u8),
        syllable_wf(226u8),
{
    reveal_with_fuel(all_lower, 6);
        let s = spec_syllable(226u8);
        assert(s =~= seq![103u8, 101u8, 115u8]);
        lemma_xor_low5(0u32, 7u32);
        let n1 = Node { id: 7u32, base: 160u32, is_leaf: false, has_value: false };
        assert(spec_child(spec_root(), 103u8) == Some(n1));
        lemma_walk_step(spec_root(), seq![103u8, 101u8, 115u8], n1);
        assert(seq![103u8, 101u8, 115u8].drop_first() =~= seq![101u8, 115u8]);
        lemma_xor_low5(160u32, 5u32);
        let n2 = Node { id: 165u32, base: 1344u32, is_leaf: false, has_value: true };
        assert(spec_child(n1, 101u8) == Some(n2));
        lemma_walk_step(n1, seq![101u8, 115u8], n2);
        assert(seq![101u8, 115u8].drop_first() =~= seq![115u8]);
        lemma_xor_low5(1344u32, 19u32);
        let n3 = Node { id: 1363u32, base: 226u32, is_leaf: true, has_value: true };
        assert(spec_child(n2, 115u8) == Some(n3));
        lemma_walk_step(n2, seq![115u8], n3);
        assert(seq![115u8].drop_first() =~= Seq::<u8>::empty());
        assert(spec_walk(n3, Seq::<u8>::empty()) == Some(n3));
        assert(spec_node_value(n3) == Some(226u8));
        assert(syllable_walk_ok(226u8));
    assert(syllable_wf(226u8));
}

proof fn table_case_227()
    ensures
        syllable_walk_ok(227u8),
        syllable_wf(227u8),
{
    reveal_with_fuel(all_lower, 6);
        let s = spec_syllable(227u8);
        assert(s =~= seq![103u8, 105u8, 115u8]);
        lemma_xor_low5(0u32, 7u32);
        let n1 = Node { id: 7u32, base: 160u32, is_leaf: false, has_value: false };
        assert(spec_child(spec_root(), 103u8) == Some(n1));
        lemma_walk_step(spec_root(), seq![103u8, 105u8, 115u8], n1);
        assert(seq![103u8, 105u8, 115u8].drop_first() =~= seq![105u8, 115u8]);
        lemma_xor_low5(160u32, 9u32);
        let n2 = Node { id: 169u32, base: 1376u32, is_leaf: false, has_value: true };
        assert(spec_child(n1, 105u8) == Some(n2));
        lemma_walk_step(n1, seq![105u8, 115u8], n2);
        assert(seq![105u8, 115u8].drop_first() =~= seq![115u8]);
        lemma_xor_low5(1376u32, 19u32);
        let n3 = Node { id: 1395u32, base: 227u32, is_leaf: true, has_value: true };
        assert(spec_child(n2, 115u8) == Some(n3));
        lemma_walk_step(n2, seq![115u8], n3);
        assert(seq![115u8].drop_first() =~= Seq::<u8>::empty());
        assert(spec_walk(n3, Seq::<u8>::empty()) == Some(n3));
        assert(spec_node_value(n3) == Some(227u8));
        assert(syllable_walk_ok(227u8));
    assert(syllable_wf(227u8));
}

proof fn table_case_228()
    ensures
        syllable_walk_ok(228u8),
        syllable_wf(228u8),
{
    reveal_with_fuel(all_lower, 6);
        let s = spec_syllable(228u8);
        assert(s =~= seq![103u8, 111u8, 115u8]);
        lemma_xor_low5(0u32, 7u32);
        let n1 = Node { id: 7u32, base: 160u32, is_leaf: false, has_value: false };
        assert(spec_child(spec_root(), 103u8) == Some(n1));
        lemma_walk_step(spec_root(), seq![103u8, 111u8, 115u8], n1);
        assert(seq![103u8, 111u8, 115u8].drop_first() =~= seq![111u8, 115u8]);
        lemma_xor_low5(160u32, 15u32);
        let n2 = Node { id: 175u32, base: 1408u32, is_leaf: false, has_value: true };
        assert(spec_child(n1, 111u8) == Some(n2));
        lemma_walk_step(n1, seq![111u8, 115u8], n2);
        assert(seq![111u8, 115u8].drop_first() =~= seq![115u8]);
        lemma_xor_low5(1408u32, 19u32);
        let n3 = Node { id: 1427u32, base: 228u32, is_leaf: true, has_value: true };
        assert(spec_child(n2, 115u8) == Some(n3));
        lemma_walk_step(n2, seq![115u8], n3);
        assert(seq![115u8].drop_first() =~= Seq::<u8>::empty());
        assert(spec_walk(n3, Seq::<u8>::empty()) == Some(n3));
        assert(spec_node_value(n3) == Some(228u8));
        assert(syllable_walk_ok(228u8));
    assert(syllable_wf(228u8));
}

proof fn table_case_229()
    ensures
        syllable_walk_ok(229u8),
        syllable_wf(229u8),
{
    reveal_with_fuel(all_lower, 6);
        let s = spec_syllable(229u8);
        assert(s =~= seq![103u8, 117u8, 115u8]);
        lemma_xor_low5(0u32, 7u32);
        let n1 = Node { id: 7u32, base: 160u32, is_leaf: false, has_value: false };
        assert(spec_child(spec_root(), 103u8) == Some(n1));
        lemma_walk_step(spec_root(), seq![103u8, 117u8, 115u8], n1);
        assert(seq![103u8, 117u8, 115u8].drop_first() =~= seq![117u8, 115u8]);
        lemma_xor_low5(160u32, 21u32);
        let n2 = Node { id: 181u32, base: 1440u32, is_leaf: false, has_value: true };
        assert(spec_child(n1, 117u8) == Some(n2));
        lemma_walk_step(n1, seq![117u8, 115u8], n2);
        assert(seq![117u8, 115u8].drop_first() =~= seq![115u8]);
        lemma_xor_low5(1440u32, 19u32);
        let n3 = Node { id: 1459u32, base: 229u32, is_leaf: true, has_value: true };
        assert(spec_child(n2, 115u8) == Some(n3));
        lemma_walk_step(n2, seq![115u8], n3);
        assert(seq![115u8].drop_first() =~= Seq::<u8>::empty());
        assert(spec_walk(n3, Seq::<u8>::empty()) == Some(n3));
        assert(spec_node_value(n3) == Some(229u8));
        assert(syllable_walk_ok(229u8));
    assert(syllable_wf(229u8));
}

proof fn table_case_230()
    ensures
        syllable_walk_ok(230u8),
        syllable_wf(230u8),
{
    reveal_with_fuel(all_lower, 6);
        let s = spec_syllable(230u8);
        assert(s =~= seq![104u8, 97u8, 115u8]);
        lemma_xor_low5(0u32, 8u32);
        let n1 = Node { id: 8u32, base: 192u32, is_leaf: false, has_value: false };
        assert(spec_child(spec_root(), 104u8) == Some(n1));
        lemma_walk_step(spec_root(), seq![104u8, 97u8, 115u8], n1);
        assert(seq![104u8, 97u8, 115u8].drop_first() =~= seq![97u8, 115u8]);
        lemma_xor_low5(192u32, 1u32);
        let n2 = Node { id: 193u32, base: 1472u32, is_leaf: false, has_value: true };
        assert(spec_child(n1, 97u8) == Some(n2));
        lemma_walk_step(n1, seq![97u8, 115u8], n2);
        assert(seq![97u8, 115u8].drop_first() =~= seq![115u8]);
        lemma_xor_low5(1472u32, 19u32);
        let n3 = Node { id: 1491u32, base: 230u32, is_leaf: true, has_value: true };
        assert(spec_child(n2, 115u8) == Some(n3));
        lemma_walk_step(n2, seq![115u8], n3);
        assert(seq![115u8].drop_first() =~= Seq::<u8>::empty());
        assert(spec_walk(n3, Seq::<u8>::empty()) == Some(n3));
        assert(spec_node_value(n3) == Some(230u8));
        assert(syllable_walk_ok(230u8));
    assert(syllable_wf(230u8));
}

proof fn table_case_231()
    ensures
        syllable_walk_ok(231u8),
        syllable_wf(231u8),
{
    reveal_with_fuel(all_lower, 6);
        let s = spec_syllable(231u8);
        assert(s =~= seq![104u8, 101u8, 115u8]);
        lemma_xor_low5(0u32, 8u32);
        let n1 = Node { id: 8u32, base: 192u32, is_leaf: false, has_value: false };
        assert(spec_child(spec_root(), 104u8) == Some(n1));
        lemma_walk_step(spec_root(), seq![104u8, 101u8, 115u8], n1);
        assert(seq![104u8, 101u8, 115u8].drop_first() =~= seq![101u8, 115u8]);
        lemma_xor_low5(192u32, 5u32);
        let n2 = Node { id: 197u32, base: 1504u32, is_leaf: false, has_value: true };
        assert(spec_child(n1, 101u8) == Some(n2));
        lemma_walk_step(n1, seq![101u8, 115u8], n2);
        assert(seq![101u8, 115u8].drop_first() =~= seq![115u8]);
        lemma_xor_low5(1504u32, 19u32);
        let n3 = Node { id: 1523u32, base: 231u32, is_leaf: true, has_value: true };
        assert(spec_child(n2, 115u8) == Some(n3));
        lemma_walk_step(n2, seq![115u8], n3);
        assert(seq![115u8].drop_first() =~= Seq::<u8>::empty());
        assert(spec_walk(n3, Seq::<u8>::empty()) == Some(n3));
        assert(spec_node_value(n3) == Some(231u8));
        assert(syllable_walk_ok(231u8));
    assert(syllable_wf(231u8));
}

proof fn table_case_232()
    ensures
        syllable_walk_ok(232u8),
        syllable_wf(232u8),
{
    reveal_with_fuel(all_lower, 6);
        let s = spec_syllable(232u8);
        assert(s =~= seq![104u8, 105u8, 115u8]);
        lemma_xor_low5(0u32, 8u32);
        let n1 = Node { id: 8u32, base: 192u32, is_leaf: false, has_value: false };
        assert(spec_child(spec_root(), 104u8) == Some(n1));
        lemma_walk_step(spec_root(), seq![104u8, 105u8, 115u8], n1);
        assert(seq![104u8, 105u8, 115u8].drop_first() =~= seq![105u8, 115u8]);
        lemma_xor_low5(192u32, 9u32);
        let n2 = Node { id: 201u32, base: 1536u32, is_leaf: false, has_value: true };
        assert(spec_child(n1, 105u8) == Some(n2));
        lemma_walk_step(n1, seq![105u8, 115u8], n2);
        assert(seq![105u8, 115u8].drop_first() =~= seq![115u8]);
        lemma_xor_low5(1536u32, 19u32);
        let n3 = Node { id: 1555u32, base: 232u32, is_leaf: true, has_value: true };
        assert(spec_child(n2, 115u8) == Some(n3));
        lemma_walk_step(n2, seq![115u8], n3);
        assert(seq![115u8].drop_first() =~= Seq::<u8>::empty());
        assert(spec_walk(n3, Seq::<u8>::empty()) == Some(n3));
        assert(spec_node_value(n3) == Some(232u8));
        assert(syllable_walk_ok(232u8));
    assert(syllable_wf(232u8));
}

proof fn table_case_233()
    ensures
        syllable_walk_ok(233u8),
        syllable_wf(233u8),
{
    reveal_with_fuel(all_lower, 6);
        let s = spec_syllable(233u8);
        assert(s =~= seq![104u8, 111u8, 115u8]);
        lemma_xor_low5(0u32, 8u32);
        let n1 = Node { id: 8u32, base: 192u32, is_leaf: false, has_value: false };
        assert(spec_child(spec_root(), 104u8) == Some(n1));
        lemma_walk_step(spec_root(), seq![104u8, 111u8, 115u8], n1);
        assert(seq![104u8, 111u8, 115u8].drop_first() =~= seq![111u8, 115u8]);
        lemma_xor_low5(192u32, 15u32);
        let n2 = Node { id: 207u32, base: 1568u32, is_leaf: false, has_value: true };
        assert(spec_child(n1, 111u8) == Some(n2));
        lemma_walk_step(n1, seq![111u8, 115u8], n2);
        assert(seq![111u8, 115u8].drop_first() =~= seq![115u8]);
        lemma_xor_low5(1568u32, 19u32);
        let n3 = Node { id: 1587u32, base: 233u32, is_leaf: true, has_value: true };
        assert(spec_child(n2, 115u8) == Some(n3));
        lemma_walk_step(n2, seq![115u8], n3);
        assert(seq![115u8].drop_first() =~= Seq::<u8>::empty());
        assert(spec_walk(n3, Seq::<u8>::empty()) == Some(n3));
        assert(spec_node_value(n3) == Some(233u8));
        assert(syllable_walk_ok(233u8));
    assert(syllable_wf(233u8));
}

proof fn table_case_234()
    ensures
        syllable_walk_ok(234u8),
        syllable_wf(234u8),
{
    reveal_with_fuel(all_lower, 6);
        let s = spec_syllable(234u8);
        assert(s =~= seq![104u8, 117u8, 115u8]);
        lemma_xor_low5(0u32, 8u32);
        let n1 = Node { id: 8u32, base: 192u32, is_leaf: false, has_value: false };
        assert(spec_child(spec_root(), 104u8) == Some(n1));
        lemma_walk_step(spec_root(), seq![104u8, 117u8, 115u8], n1);
        assert(seq![104u8, 117u8, 115u8].drop_first() =~= seq![117u8, 115u8]);
        lemma_xor_low5(192u32, 21u32);
        let n2 = Node { id: 213u32, base: 1600u32, is_leaf: false, has_value: true };
        assert(spec_child(n1, 117u8) == Some(n2));
        lemma_walk_step(n1, seq![117u8, 115u8], n2);
        assert(seq![117u8, 115u8].drop_first() =~= seq![115u8]);
        lemma_xor_low5(1600u32, 19u32);
        let n3 = Node { id: 1619u32, base: 234u32, is_leaf: true, has_value: true };
        assert(spec_child(n2, 115u8) == Some(n3));
        lemma_walk_step(n2, seq![115u8], n3);
        assert(seq![115u8].drop_first() =~= Seq::<u8>::empty());
        assert(spec_walk(n3, Seq::<u8>::empty()) == Some(n3));
        assert(spec_node_value(n3) == Some(234u8));
        assert(syllable_walk_ok(234u8));
    assert(syllable_wf(234u8));
}

proof fn table_case_235()
    ensures
        syllable_walk_ok(235u8),
        syllable_wf(235u8),
{
    reveal_with_fuel(all_lower, 6);
        let s = spec_syllable(235u8);
        assert(s =~= seq![106u8, 97u8, 115u8]);
        lemma_xor_low5(0u32, 10u32);
        let n1 = Node { id: 10u32, base: 224u32, is_leaf: false, has_value: false };
        assert(spec_child(spec_root(), 106u8) == Some(n1));
        lemma_walk_step(spec_root(), seq![106u8, 97u8, 115u8], n1);
        assert(seq![106u8, 97u8, 115u8].drop_first() =~= seq![97u8, 115u8]);
        lemma_xor_low5(224u32, 1u32);
        let n2 = Node { id: 225u32, base: 1632u32, is_leaf: false, has_value: true };
        assert(spec_child(n1, 97u8) == Some(n2));
        lemma_walk_step(n1, seq![97u8, 115u8], n2);
        assert(seq![97u8, 115u8].drop_first() =~= seq![115u8]);
        lemma_xor_low5(1632u32, 19u32);
        let n3 = Node { id: 1651u32, base: 235u32, is_leaf: true, has_value: true };
        assert(spec_child(n2, 115u8) == Some(n3));
        lemma_walk_step(n2, seq![115u8], n3);
        assert(seq![115u8].drop_first() =~= Seq::<u8>::empty());
        assert(spec_walk(n3, Seq::<u8>::empty()) == Some(n3));
        assert(spec_node_value(n3) == Some(235u8));
        assert(syllable_walk_ok(235u8));
    assert(syllable_wf(235u8));
}

proof fn table_case_236()
    ensures
        syllable_walk_ok(236u8),
        syllable_wf(236u8),
{
    reveal_with_fuel(all_lower, 6);
        let s = spec_syllable(236u8);
        assert(s =~= seq![106u8, 101u8, 115u8]);
        lemma_xor_low5(0u32, 10u32);
        let n1 = Node { id: 10u32, base: 224u32, is_leaf: false, has_value: false };
        assert(spec_child(spec_root(), 106u8) == Some(n1));
        lemma_walk_step(spec_root(), seq![106u8, 101u8, 115u8], n1);
        assert(seq![106u8, 101u8, 115u8].drop_first() =~= seq![101u8, 115u8]);
        lemma_xor_low5(224u32, 5u32);
        let n2 = Node { id: 229u32, base: 1664u32, is_leaf: false, has_value: true };
        assert(spec_child(n1, 101u8) == Some(n2));
        lemma_walk_step(n1, seq![101u8, 115u8], n2);
        assert(seq![101u8, 115u8].drop_first() =~= seq![115u8]);
        lemma_xor_low5(1664u32, 19u32);
        let n3 = Node { id: 1683u32, base: 236u32, is_leaf: true, has_value: true };
        assert(spec_child(n2, 115u8) == Some(n3));
        lemma_walk_step(n2, seq![115u8], n3);
        assert(seq![115u8].drop_first() =~= Seq::<u8>::empty());
        assert(spec_walk(n3, Seq::<u8>::empty()) == Some(n3));
        assert(spec_node_value(n3) == Some(236u8));
        assert(syllable_walk_ok(236u8));
    assert(syllable_wf(236u8));
}

proof fn table_case_237()
    ensures
        syllable_walk_ok(237u8),
        syllable_wf(237u8),
{
    reveal_with_fuel(all_lower, 6);
        let s = spec_syllable(237u8);
        assert(s =~= seq![106u8, 105u8, 115u8]);
        lemma_xor_low5(0u32, 10u32);
        let n1 = Node { id: 10u32, base: 224u32, is_leaf: false, has_value: false };
        assert(spec_child(spec_root(), 106u8) == Some(n1));
        lemma_walk_step(spec_root(), seq![106u8, 105u8, 115u8], n1);
        assert(seq![106u8, 105u8, 115u8].drop_first() =~= seq![105u8, 115u8]);
        lemma_xor_low5(224u32, 9u32);
        let n2 = Node { id: 233u32, base: 1696u32, is_leaf: false, has_value: true };
        assert(spec_child(n1, 105u8) == Some(n2));
        lemma_walk_step(n1, seq![105u8, 115u8], n2);
        assert(seq![105u8, 115u8].drop_first() =~= seq![115u8]);
        lemma_xor_low5(1696u32, 19u32);
        let n3 = Node { id: 1715u32, base: 237u32, is_leaf: true, has_value: true };
        assert(spec_child(n2, 115u8) == Some(n3));
        lemma_walk_step(n2, seq![115u8], n3);
        assert(seq![115u8].drop_first() =~= Seq::<u8>::empty());
        assert(spec_walk(n3, Seq::<u8>::empty()) == Some(n3));
        assert(spec_node_value(n3) == Some(237u8));
        assert(syllable_walk_ok(237u8));
    assert(syllable_wf(237u8));
}

proof fn table_case_238()
    ensures
        syllable_walk_ok(238u8),
        syllable_wf(238u8),
{
    reveal_with_fuel(all_lower, 6);
        let s = spec_syllable(238u8);
        assert(s =~= seq![106u8, 111u8, 115u8]);
        lemma_xor_low5(0u32, 10u32);
        let n1 = Node { id: 10u32, base: 224u32, is_leaf: false, has_value: false };
        assert(spec_child(spec_root(), 106u8) == Some(n1));
        lemma_walk_step(spec_root(), seq![106u8, 111u8, 115u8], n1);
        assert(seq![106u8, 111u8, 115u8].drop_first() =~= seq![111u8, 115u8]);
        lemma_xor_low5(224u32, 15u32);
        let n2 = Node { id: 239u32, base: 1728u32, is_leaf: false, has_value: true };
        assert(spec_child(n1, 111u8) == Some(n2));
        lemma_walk_step(n1, seq![111u8, 115u8], n2);
        assert(seq![111u8, 115u8].drop_first() =~= seq![115u8]);
        lemma_xor_low5(1728u32, 19u32);
        let n3 = Node { id: 1747u32, base: 238u32, is_leaf: true, has_value: true };
        assert(spec_child(n2, 115u8) == Some(n3));
        lemma_walk_step(n2, seq![115u8], n3);
        assert(seq![115u8].drop_first() =~= Seq::<u8>::empty());
        assert(spec_walk(n3, Seq::<u8>::empty()) == Some(n3));
        assert(spec_node_value(n3) == Some(238u8));
        assert(syllable_walk_ok(238u8));
    assert(syllable_wf(238u8));
}

proof fn table_case_239()
    ensures
        syllable_walk_ok(239u8),
        syllable_wf(239u8),
{
    reveal_with_fuel(all_lower, 6);
        let s = spec_syllable(239u8);
        assert(s =~= seq![106u8, 117u8, 115u8]);
        lemma_xor_low5(0u32, 10u32);
        let n1 = Node { id: 10u32, base: 224u32, is_leaf: false, has_value: false };
        assert(spec_child(spec_root(), 106u8) == Some(n1));
        lemma_walk_step(spec_root(), seq![106u8, 117u8, 115u8], n1);
        assert(seq![106u8, 117u8, 115u8].drop_first() =~= seq![117u8, 115u8]);
        lemma_xor_low5(224u32, 21u32);
        let n2 = Node { id: 245u32, base: 1760u32, is_leaf: false, has_value: true };
        assert(spec_child(n1, 117u8) == Some(n2));
        lemma_walk_step(n1, seq![117u8, 115u8], n2);
        assert(seq![117u8, 115u8].drop_first() =~= seq![115u8]);
        lemma_xor_low5(1760u32, 19u32);
        let n3 = Node { id: 1779u32, base: 239u32, is_leaf: true, has_value: true };
        assert(spec_child(n2, 115u8) == Some(n3));
        lemma_walk_step(n2, seq![115u8], n3);
        assert(seq![115u8].drop_first() =~= Seq::<u8>::empty());
        assert(spec_walk(n3, Seq::<u8>::empty()) == Some(n3));
        assert(spec_node_value(n3) == Some(239u8));
        assert(syllable_walk_ok(239u8));
    assert(syllable_wf(239u8));
}

proof fn table_case_240()
    ensures
        syllable_walk_ok(240u8),
        syllable_wf(240u8),
{
    reveal_with_fuel(all_lower, 6);
        let s = spec_syllable(240u8);
        assert(s =~= seq![107u8, 97u8, 115u8]);
        lemma_xor_low5(0u32, 11u32);
        let n1 = Node { id: 11u32, base: 256u32, is_leaf: false, has_value: false };
        assert(spec_child(spec_root(), 107u8) == Some(n1));
        lemma_walk_step(spec_root(), seq![107u8, 97u8, 115u8], n1);
        assert(seq![107u8, 97u8, 115u8].drop_first() =~= seq![97u8, 115u8]);
        lemma_xor_low5(256u32, 1u32);
        let n2 = Node { id: 257u32, base: 1792u32, is_leaf: false, has_value: true };
        assert(spec_child(n1, 97u8) == Some(n2));
        lemma_walk_step(n1, seq![97u8, 115u8], n2);
        assert(seq![97u8, 115u8].drop_first() =~= seq![115u8]);
        lemma_xor_low5(1792u32, 19u32);
        let n3 = Node { id: 1811u32, base: 240u32, is_leaf: true, has_value: true };
        assert(spec_child(n2, 115u8) == Some(n3));
        lemma_walk_step(n2, seq![115u8], n3);
        assert(seq![115u8].drop_first() =~= Seq::<u8>::empty());
        assert(spec_walk(n3, Seq::<u8>::empty()) == Some(n3));
        assert(spec_node_value(n3) == Some(240u8));
        assert(syllable_walk_ok(240u8));
    assert(syllable_wf(240u8));
}

proof fn table_case_241()
    ensures
        syllable_walk_ok(241u8),
        syllable_wf(241u8),
{
    reveal_with_fuel(all_lower, 6);
        let s = spec_syllable(241u8);
        assert(s =~= seq![107u8, 101u8, 115u8]);
        lemma_xor_low5(0u32, 11u32);
        let n1 = Node { id: 11u32, base: 256u32, is_leaf: false, has_value: false };
        assert(spec_child(spec_root(), 107u8) == Some(n1));
        lemma_walk_step(spec_root(), seq![107u8, 101u8, 115u8], n1);
        assert(seq![107u8, 101u8, 115u8].drop_first() =~= seq![101u8, 115u8]);
        lemma_xor_low5(256u32, 5u32);
        let n2 = Node { id: 261u32, base: 1824u32, is_leaf: false, has_value: true };
        assert(spec_child(n1, 101u8) == Some(n2));
        lemma_walk_step(n1, seq![101u8, 115u8], n2);
        assert(seq![101u8, 115u8].drop_first() =~= seq![115u8]);
        lemma_xor_low5(1824u32, 19u32);
        let n3 = Node { id: 1843u32, base: 241u32, is_leaf: true, has_value: true };
        assert(spec_child(n2, 115u8) == Some(n3));
        lemma_walk_step(n2, seq![115u8], n3);
        assert(seq![115u8].drop_first() =~= Seq::<u8>::empty());
        assert(spec_walk(n3, Seq::<u8>::empty()) == Some(n3));
        assert(spec_node_value(n3) == Some(241u8));
        assert(syllable_walk_ok(241u8));
    assert(syllable_wf(241u8));
}

proof fn table_case_242()
    ensures
        syllable_walk_ok(242u8),
        syllable_wf(242u8),
{
    reveal_with_fuel(all_lower, 6);
        let s = spec_syllable(242u8);
        assert(s =~= seq![107u8, 105u8, 115u8]);
        lemma_xor_low5(0u32, 11u32);
        let n1 = Node { id: 11u32, base: 256u32, is_leaf: false, has_value: false };
        assert(spec_child(spec_root(), 107u8) == Some(n1));
        lemma_walk_step(spec_root(), seq![107u8, 105u8, 115u8], n1);
        assert(seq![107u8, 105u8, 115u8].drop_first() =~= seq![105u8, 115u8]);
        lemma_xor_low5(256u32, 9u32);
        let n2 = Node { id: 265u32, base: 1856u32, is_leaf: false, has_value: true };
        assert(spec_child(n1, 105u8) == Some(n2));
        lemma_walk_step(n1, seq![105u8, 115u8], n2);
        assert(seq![105u8, 115u8].drop_first() =~= seq![115u8]);
        lemma_xor_low5(1856u32, 19u32);
        let n3 = Node { id: 1875u32, base: 242u32, is_leaf: true, has_value: true };
        assert(spec_child(n2, 115u8) == Some(n3));
        lemma_walk_step(n2, seq![115u8], n3);
        assert(seq![115u8].drop_first() =~= Seq::<u8>::empty());
        assert(spec_walk(n3, Seq::<u8>::empty()) == Some(n3));
        assert(spec_node_value(n3) == Some(242u8));
        assert(syllable_walk_ok(242u8));
    assert(syllable_wf(242u8));
}

proof fn table_case_243()
    ensures
        syllable_walk_ok(243u8),
        syllable_wf(243u8),
{
    reveal_with_fuel(all_lower, 6);
        let s = spec_syllable(243u8);
        assert(s =~= seq![107u8, 111u8, 115u8]);
        lemma_xor_low5(0u32, 11u32);
        let n1 = Node { id: 11u32, base: 256u32, is_leaf: false, has_value: false };
        assert(spec_child(spec_root(), 107u8) == Some(n1));
        lemma_walk_step(spec_root(), seq![107u8, 111u8, 115u8], n1);
        assert(seq![107u8, 111u8, 115u8].drop_first() =~= seq![111u8, 115u8]);
        lemma_xor_low5(256u32, 15u32);
        let n2 = Node { id: 271u32, base: 1888u32, is_leaf: false, has_value: true };
        assert(spec_child(n1, 111u8) == Some(n2));
        lemma_walk_step(n1, seq![111u8, 115u8], n2);
        assert(seq![111u8, 115u8].drop_first() =~= seq![115u8]);
        lemma_xor_low5(1888u32, 19u32);
        let n3 = Node { id: 1907u32, base: 243u32, is_leaf: true, has_value: true };
        assert(spec_child(n2, 115u8) == Some(n3));
        lemma_walk_step(n2, seq![115u8], n3);
        assert(seq![115u8].drop_first() =~= Seq::<u8>::empty());
        assert(spec_walk(n3, Seq::<u8>::empty()) == Some(n3));
        assert(spec_node_value(n3) == Some(243u8));
        assert(syllable_walk_ok(243u8));
    assert(syllable_wf(243u8));
}

proof fn table_case_244()
    ensures
        syllable_walk_ok(244u8),
        syllable_wf(244u8),
{
    reveal_with_fuel(all_lower, 6);
        let s = spec_syllable(244u8);
        assert(s =~= seq![107u8, 117u8, 115u8]);
        lemma_xor_low5(0u32, 11u32);
        let n1 = Node { id: 11u32, base: 256u32, is_leaf: false, has_value: false };
        assert(spec_child(spec_root(), 107u8) == Some(n1));
        lemma_walk_step(spec_root(), seq![107u8, 117u8, 115u8], n1);
        assert(seq![107u8, 117u8, 115u8].drop_first() =~= seq![117u8, 115u8]);
        lemma_xor_low5(256u32, 21u32);
        let n2 = Node { id: 277u32, base: 1920u32, is_leaf: false, has_value: true };
        assert(spec_child(n1, 117u8) == Some(n2));
        lemma_walk_step(n1, seq![117u8, 115u8], n2);
        assert(seq![117u8, 115u8].drop_first() =~= seq![115u8]);
        lemma_xor_low5(1920u32, 19u32);
        let n3 = Node { id: 1939u32, base: 244u32, is_leaf: true, has_value: true };
        assert(spec_child(n2, 115u8) == Some(n3));
        lemma_walk_step(n2, seq![115u8], n3);
        assert(seq![115u8].drop_first() =~= Seq::<u8>::empty());
        assert(spec_walk(n3, Seq::<u8>::empty()) == Some(n3));
        assert(spec_node_value(n3) == Some(244u8));
        assert(syllable_walk_ok(244u8));
    assert(syllable_wf(244u8));
}

proof fn table_case_245()
    ensures
        syllable_walk_ok(245u8),
        syllable_wf(245u8),
{
    reveal_with_fuel(all_lower, 6);
        let s = spec_syllable(245u8);
        assert(s =~= seq![108u8, 97u8, 115u8]);
        lemma_xor_low5(0u32, 12u32);
        let n1 = Node { id: 12u32, base: 288u32, is_leaf: false, has_value: false };
        assert(spec_child(spec_root(), 108u8) == Some(n1));
        lemma_walk_step(spec_root(), seq![108u8, 97u8, 115u8], n1);
        assert(seq![108u8, 97u8, 115u8].drop_first() =~= seq![97u8, 115u8]);
        lemma_xor_low5(288u32, 1u32);
        let n2 = Node { id: 289u32, base: 1952u32, is_leaf: false, has_value: true };
        assert(spec_child(n1, 97u8) == Some(n2));
        lemma_walk_step(n1, seq![97u8, 115u8], n2);
        assert(seq![97u8, 115u8].drop_first() =~= seq![115u8]);
        lemma_xor_low5(1952u32, 19u32);
        let n3 = Node { id: 1971u32, base: 245u32, is_leaf: true, has_value: true };
        assert(spec_child(n2, 115u8) == Some(n3));
        lemma_walk_step(n2, seq![115u8], n3);
        assert(seq![115u8].drop_first() =~= Seq::<u8>::empty());
        assert(spec_walk(n3, Seq::<u8>::empty()) == Some(n3));
        assert(spec_node_value(n3) == Some(245u8));
        assert(syllable_walk_ok(245u8));
    assert(syllable_wf(245u8));
}

proof fn table_case_246()
    ensures
        syllable_walk_ok(246u8),
        syllable_wf(246u8),
{
    reveal_with_fuel(all_lower, 6);
        let s = spec_syllable(246u8);
        assert(s =~= seq![108u8, 101u8, 115u8]);
        lemma_xor_low5(0u32, 12u32);
        let n1 = Node { id: 12u32, base: 288u32, is_leaf: false, has_value: false };
        assert(spec_child(spec_root(), 108u8) == Some(n1));
        lemma_walk_step(spec_root(), seq![108u8, 101u8, 115u8], n1);
        assert(seq![108u8, 101u8, 115u8].drop_first() =~= seq![101u8, 115u8]);
        lemma_xor_low5(288u32, 5u32);
        let n2 = Node { id: 293u32, base: 1984u32, is_leaf: false, has_value: true };
        assert(spec_child(n1, 101u8) == Some(n2));
        lemma_walk_step(n1, seq![101u8, 115u8], n2);
        assert(seq![101u8, 115u8].drop_first() =~= seq![115u8]);
        lemma_xor_low5(1984u32, 19u32);
        let n3 = Node { id: 2003u32, base: 246u32, is_leaf: true, has_value: true };
        assert(spec_child(n2, 115u8) == Some(n3));
        lemma_walk_step(n2, seq![115u8], n3);
        assert(seq![115u8].drop_first() =~= Seq::<u8>::empty());
        assert(spec_walk(n3, Seq::<u8>::empty()) == Some(n3));
        assert(spec_node_value(n3) == Some(246u8));
        assert(syllable_walk_ok(246u8));
    assert(syllable_wf(246u8));
}

proof fn table_case_247()
    ensures
        syllable_walk_ok(247u8),
        syllable_wf(247u8),
{
    reveal_with_fuel(all_lower, 6);
        let s = spec_syllable(247u8);
        assert(s =~= seq![108u8, 105u8, 115u8]);
        lemma_xor_low5(0u32, 12u32);
        let n1 = Node { id: 12u32, base: 288u32, is_leaf: false, has_value: false };
        assert(spec_child(spec_root(), 108u8) == Some(n1));
        lemma_walk_step(spec_root(), seq![108u8, 105u8, 115u8], n1);
        assert(seq![108u8, 105u8, 115u8].drop_first() =~= seq![105u8, 115u8]);
        lemma_xor_low5(288u32, 9u32);
        let n2 = Node { id: 297u32, base: 2016u32, is_leaf: false, has_value: true };
        assert(spec_child(n1, 105u8) == Some(n2));
        lemma_walk_step(n1, seq![105u8, 115u8], n2);
        assert(seq![105u8, 115u8].drop_first() =~= seq![115u8]);
        lemma_xor_low5(2016u32, 19u32);
        let n3 = Node { id: 2035u32, base: 247u32, is_leaf: true, has_value: true };
        assert(spec_child(n2, 115u8) == Some(n3));
        lemma_walk_step(n2, seq![115u8], n3);
        assert(seq![115u8].drop_first() =~= Seq::<u8>::empty());
        assert(spec_walk(n3, Seq::<u8>::empty()) == Some(n3));
        assert(spec_node_value(n3) == Some(247u8));
        assert(syllable_walk_ok(247u8));
    assert(syllable_wf(247u8));
}

proof fn table_case_248()
    ensures
        syllable_walk_ok(248u8),
        syllable_wf(248u8),
{
    reveal_with_fuel(all_lower, 6);
        let s = spec_syllable(248u8);
        assert(s =~= seq![108u8, 111u8, 115u8]);
        lemma_xor_low5(0u32, 12u32);
        let n1 = Node { id: 12u32, base: 288u32, is_leaf: false, has_value: false };
        assert(spec_child(spec_root(), 108u8) == Some(n1));
        lemma_walk_step(spec_root(), seq![108u8, 111u8, 115u8], n1);
        assert(seq![108u8, 111u8, 115u8].drop_first() =~= seq![111u8, 115u8]);
        lemma_xor_low5(288u32, 15u32);
        let n2 = Node { id: 303u32, base: 2048u32, is_leaf: false, has_value: true };
        assert(spec_child(n1, 111u8) == Some(n2));
        lemma_walk_step(n1, seq![111u8, 115u8], n2);
        assert(seq![111u8, 115u8].drop_first() =~= seq![115u8]);
        lemma_xor_low5(2048u32, 19u32);
        let n3 = Node { id: 2067u32, base: 248u32, is_leaf: true, has_value: true };
        assert(spec_child(n2, 115u8) == Some(n3));
        lemma_walk_step(n2, seq![115u8], n3);
        assert(seq![115u8].drop_first() =~= Seq::<u8>::empty());
        assert(spec_walk(n3, Seq::<u8>::empty()) == Some(n3));
        assert(spec_node_value(n3) == Some(248u8));
        assert(syllable_walk_ok(248u8));
    assert(syllable_wf(248u8));
}

proof fn table_case_249()
    ensures
        syllable_walk_ok(249u8),
        syllable_wf(249u8),
{
    reveal_with_fuel(all_lower, 6);
        let s = spec_syllable(249u8);
        assert(s =~= seq![108u8, 117u8, 115u8]);
        lemma_xor_low5(0u32, 12u32);
        let n1 = Node { id: 12u32, base: 288u32, is_leaf: false, has_value: false };
        assert(spec_child(spec_root(), 108u8) == Some(n1));
        lemma_walk_step(spec_root(), seq![108u8, 117u8, 115u8], n1);
        assert(seq![108u8, 117u8, 115u8].drop_first() =~= seq![117u8, 115u8]);
        lemma_xor_low5(288u32, 21u32);
        let n2 = Node { id: 309u32, base: 2080u32, is_leaf: false, has_value: true };
        assert(spec_child(n1, 117u8) == Some(n2));
        lemma_walk_step(n1, seq![117u8, 115u8], n2);
        assert(seq![117u8, 115u8].drop_first() =~= seq![115u8]);
        lemma_xor_low5(2080u32, 19u32);
        let n3 = Node { id: 2099u32, base: 249u32, is_leaf: true, has_value: true };
        assert(spec_child(n2, 115u8) == Some(n3));
        lemma_walk_step(n2, seq![115u8], n3);
        assert(seq![115u8].drop_first() =~= Seq::<u8>::empty());
        assert(spec_walk(n3, Seq::<u8>::empty()) == Some(n3));
        assert(spec_node_value(n3) == Some(249u8));
        assert(syllable_walk_ok(249u8));
    assert(syllable_wf(249u8));
}

proof fn table_case_250()
    ensures
        syllable_walk_ok(250u8),
        syllable_wf(250u8),
{
    reveal_with_fuel(all_lower, 6);
        let s = spec_syllable(250u8);
        assert(s =~= seq![109u8, 97u8, 115u8]);
        lemma_xor_low5(0u32, 13u32);
        let n1 = Node { id: 13u32, base: 320u32, is_leaf: false, has_value: false };
        assert(spec_child(spec_root(), 109u8) == Some(n1));
        lemma_walk_step(spec_root(), seq![109u8, 97u8, 115u8], n1);
        assert(seq![109u8, 97u8, 115u8].drop_first() =~= seq![97u8, 115u8]);
        lemma_xor_low5(320u32, 1u32);
        let n2 = Node { id: 321u32, base: 2112u32, is_leaf: false, has_value: true };
        assert(spec_child(n1, 97u8) == Some(n2));
        lemma_walk_step(n1, seq![97u8, 115u8], n2);
        assert(seq![97u8, 115u8].drop_first() =~= seq![115u8]);
        lemma_xor_low5(2112u32, 19u32);
        let n3 = Node { id: 2131u32, base: 250u32, is_leaf: true, has_value: true };
        assert(spec_child(n2, 115u8) == Some(n3));
        lemma_walk_step(n2, seq![115u8], n3);
        assert(seq![115u8].drop_first() =~= Seq::<u8>::empty());
        assert(spec_walk(n3, Seq::<u8>::empty()) == Some(n3));
        assert(spec_node_value(n3) == Some(250u8));
        assert(syllable_walk_ok(250u8));
    assert(syllable_wf(250u8));
}

proof fn table_case_251()
    ensures
        syllable_walk_ok(251u8),
        syllable_wf(251u8),
{
    reveal_with_fuel(all_lower, 6);
        let s = spec_syllable(251u8);
        assert(s =~= seq![109u8, 101u8, 115u8]);
        lemma_xor_low5(0u32, 13u32);
        let n1 = Node { id: 13u32, base: 320u32, is_leaf: false, has_value: false };
        assert(spec_child(spec_root(), 109u8) == Some(n1));
        lemma_walk_step(spec_root(), seq![109u8, 101u8, 115u8], n1);
        assert(seq![109u8, 101u8, 115u8].drop_first() =~= seq![101u8, 115u8]);
        lemma_xor_low5(320u32, 5u32);
        let n2 = Node { id: 325u32, base: 2144u32, is_leaf: false, has_value: true };
        assert(spec_child(n1, 101u8) == Some(n2));
        lemma_walk_step(n1, seq![101u8, 115u8], n2);
        assert(seq![101u8, 115u8].drop_first() =~= seq![115u8]);
        lemma_xor_low5(2144u32, 19u32);
        let n3 = Node { id: 2163u32, base: 251u32, is_leaf: true, has_value: true };
        assert(spec_child(n2, 115u8) == Some(n3));
        lemma_walk_step(n2, seq![115u8], n3);
        assert(seq![115u8].drop_first() =~= Seq::<u8>::empty());
        assert(spec_walk(n3, Seq::<u8>::empty()) == Some(n3));
        assert(spec_node_value(n3) == Some(251u8));
        assert(syllable_walk_ok(251u8));
    assert(syllable_wf(251u8));
}

proof fn table_case_252()
    ensures
        syllable_walk_ok(252u8),
        syllable_wf(252u8),
{
    reveal_with_fuel(all_lower, 6);
        let s = spec_syllable(252u8);
        assert(s =~= seq![109u8, 105u8, 115u8]);
        lemma_xor_low5(0u32, 13u32);
        let n1 = Node { id: 13u32, base: 320u32, is_leaf: false, has_value: false };
        assert(spec_child(spec_root(), 109u8) == Some(n1));
        lemma_walk_step(spec_root(), seq![109u8, 105u8, 115u8], n1);
        assert(seq![109u8, 105u8, 115u8].drop_first() =~= seq![105u8, 115u8]);
        lemma_xor_low5(320u32, 9u32);
        let n2 = Node { id: 329u32, base: 2176u32, is_leaf: false, has_value: true };
        assert(spec_child(n1, 105u8) == Some(n2));
        lemma_walk_step(n1, seq![105u8, 115u8], n2);
        assert(seq![105u8, 115u8].drop_first() =~= seq![115u8]);
        lemma_xor_low5(2176u32, 19u32);
        let n3 = Node { id: 2195u32, base: 252u32, is_leaf: true, has_value: true };
        assert(spec_child(n2, 115u8) == Some(n3));
        lemma_walk_step(n2, seq![115u8], n3);
        assert(seq![115u8].drop_first() =~= Seq::<u8>::empty());
        assert(spec_walk(n3, Seq::<u8>::empty()) == Some(n3));
        assert(spec_node_value(n3) == Some(252u8));
        assert(syllable_walk_ok(252u8));
    assert(syllable_wf(252u8));
}

proof fn table_case_253()
    ensures
        syllable_walk_ok(253u8),
        syllable_wf(253u8),
{
    reveal_with_fuel(all_lower, 6);
        let s = spec_syllable(253u8);
        assert(s =~= seq![109u8, 111u8, 115u8]);
        lemma_xor_low5(0u32, 13u32);
        let n1 = Node { id: 13u32, base: 320u32, is_leaf: false, has_value: false };
        assert(spec_child(spec_root(), 109u8) == Some(n1));
        lemma_walk_step(spec_root(), seq![109u8, 111u8, 115u8], n1);
        assert(seq![109u8, 111u8, 115u8].drop_first() =~= seq![111u8, 115u8]);
        lemma_xor_low5(320u32, 15u32);
        let n2 = Node { id: 335u32, base: 2208u32, is_leaf: false, has_value: true };
        assert(spec_child(n1, 111u8) == Some(n2));
        lemma_walk_step(n1, seq![111u8, 115u8], n2);
        assert(seq![111u8, 115u8].drop_first() =~= seq![115u8]);
        lemma_xor_low5(2208u32, 19u32);
        let n3 = Node { id: 2227u32, base: 253u32, is_leaf: true, has_value: true };
        assert(spec_child(n2, 115u8) == Some(n3));
        lemma_walk_step(n2, seq![115u8], n3);
        assert(seq![115u8].drop_first() =~= Seq::<u8>::empty());
        assert(spec_walk(n3, Seq::<u8>::empty()) == Some(n3));
        assert(spec_node_value(n3) == Some(253u8));
        assert(syllable_walk_ok(253u8));
    assert(syllable_wf(253u8));
}

proof fn table_case_254()
    ensures
        syllable_walk_ok(254u8),
        syllable_wf(254u8),
{
    reveal_with_fuel(all_lower, 6);
        let s = spec_syllable(254u8);
        assert(s =~= seq![115u8, 105u8, 118u8, 101u8]);
        lemma_xor_low5(0u32, 19u32);
        let n1 = Node { id: 19u32, base: 448u32, is_leaf: false, has_value: false };
        assert(spec_child(spec_root(), 115u8) == Some(n1));
        lemma_walk_step(spec_root(), seq![115u8, 105u8, 118u8, 101u8], n1);
        assert(seq![115u8, 105u8, 118u8, 101u8].drop_first() =~= seq![105u8, 118u8, 101u8]);
        lemma_xor_low5(448u32, 9u32);
        let n2 = Node { id: 457u32, base: 2816u32, is_leaf: false, has_value: true };
        assert(spec_child(n1, 105u8) == Some(n2));
        lemma_walk_step(n1, seq![105u8, 118u8, 101u8], n2);
        assert(seq![105u8, 118u8, 101u8].drop_first() =~= seq![118u8, 101u8]);
        lemma_xor_low5(2816u32, 22u32);
        let n3 = Node { id: 2838u32, base: 3872u32, is_leaf: false, has_value: false };
        assert(spec_child(n2, 118u8) == Some(n3));
        lemma_walk_step(n2, seq![118u8, 101u8], n3);
        assert(seq![118u8, 101u8].drop_first() =~= seq![101u8]);
        lemma_xor_low5(3872u32, 5u32);
        let n4 = Node { id: 3877u32, base: 254u32, is_leaf: true, has_value: true };
        assert(spec_child(n3, 101u8) == Some(n4));
        lemma_walk_step(n3, seq![101u8], n4);
        assert(seq![101u8].drop_first() =~= Seq::<u8>::empty());
        assert(spec_walk(n4, Seq::<u8>::empty()) == Some(n4));
        assert(spec_node_value(n4) == Some(254u8));
        assert(syllable_walk_ok(254u8));
    assert(syllable_wf(254u8));
}

proof fn table_case_255()
    ensures
        syllable_walk_ok(255u8),
        syllable_wf(255u8),
{
    reveal_with_fuel(all_lower, 6);
        let s = spec_syllable(255u8);
        assert(s =~= seq![116u8, 105u8, 118u8, 101u8]);
        lemma_xor_low5(0u32, 20u32);
        let n1 = Node { id: 20u32, base: 480u32, is_leaf: false, has_value: false };
        assert(spec_child(spec_root(), 116u8) == Some(n1));
        lemma_walk_step(spec_root(), seq![116u8, 105u8, 118u8, 101u8], n1);
        assert(seq![116u8, 105u8, 118u8, 101u8].drop_first() =~= seq![105u8, 118u8, 101u8]);
        lemma_xor_low5(480u32, 9u32);
        let n2 = Node { id: 489u32, base: 2976u32, is_leaf: false, has_value: true };
        assert(spec_child(n1, 105u8) == Some(n2));
        lemma_walk_step(n1, seq![105u8, 118u8, 101u8], n2);
        assert(seq![105u8, 118u8, 101u8].drop_first() =~= seq![118u8, 101u8]);
        lemma_xor_low5(2976u32, 22u32);
        let n3 = Node { id: 2998u32, base: 3904u32, is_leaf: false, has_value: false };
        assert(spec_child(n2, 118u8) == Some(n3));
        lemma_walk_step(n2, seq![118u8, 101u8], n3);
        assert(seq![118u8, 101u8].drop_first() =~= seq![101u8]);
        lemma_xor_low5(3904u32, 5u32);
        let n4 = Node { id: 3909u32, base: 255u32, is_leaf: true, has_value: true };
        assert(spec_child(n3, 101u8) == Some(n4));
        lemma_walk_step(n3, seq![101u8], n4);
        assert(seq![101u8].drop_first() =~= Seq::<u8>::empty());
        assert(spec_walk(n4, Seq::<u8>::empty()) == Some(n4));
        assert(spec_node_value(n4) == Some(255u8));
        assert(syllable_walk_ok(255u8));
    assert(syllable_wf(255u8));
}

proof fn table_facts_part_0(b: u8)
    requires
        0 <= b < 32,
    ensures
        syllable_walk_ok(b),
        syllable_wf(b),
{
    if b == 0 {
        table_case_0();
    } else if b == 1 {
        table_case_1();
    } else if b == 2 {
        table_case_2();
    } else if b == 3 {
        table_case_3();
    } else if b == 4 {
        table_case_4();
    } else if b == 5 {
        table_case_5();
    } else if b == 6 {
        table_case_6();
    } else if b == 7 {
        table_case_7();
    } else if b == 8 {
        table_case_8();
    } else if b == 9 {
        table_case_9();
    } else if b == 10 {
        table_case_10();
    } else if b == 11 {
        table_case_11();
    } else if b == 12 {
        table_case_12();
    } else if b == 13 {
        table_case_13();
    } else if b == 14 {
        table_case_14();
    } else if b == 15 {
        table_case_15();
    } else if b == 16 {
        table_case_16();
    } else if b == 17 {
        table_case_17();
    } else if b == 18 {
        table_case_18();
    } else if b == 19 {
        table_case_19();
    } else if b == 20 {
        table_case_20();
    } else if b == 21 {
        table_case_21();
    } else if b == 22 {
        table_case_22();
    } else if b == 23 {
        table_case_23();
    } else if b == 24 {
        table_case_24();
    } else if b == 25 {
        table_case_25();
    } else if b == 26 {
        table_case_26();
    } else if b == 27 {
        table_case_27();
    } else if b == 28 {
        table_case_28();
    } else if b == 29 {
        table_case_29();
    } else if b == 30 {
        table_case_30();
    } else {
        table_case_31();
    }
}

proof fn table_facts_part_1(b: u8)
    requires
        32 <= b < 64,
    ensures
        syllable_walk_ok(b),
        syllable_wf(b),
{
    if b == 32 {
        table_case_32();
    } else if b == 33 {
        table_case_33();
    } else if b == 34 {
        table_case_34();
    } else if b == 35 {
        table_case_35();
    } else if b == 36 {
        table_case_36();
    } else if b == 37 {
        table_case_37();
    } else if b == 38 {
        table_case_38();
    } else if b == 39 {
        table_case_39();
    } else if b == 40 {
        table_case_40();
    } else if b == 41 {
        table_case_41();
    } else if b == 42 {
        table_case_42();
    } else if b == 43 {
        table_case_43();
    } else if b == 44 {
        table_case_44();
    } else if b == 45 {
        table_case_45();
    } else if b == 46 {
        table_case_46();
    } else if b == 47 {
        table_case_47();
    } else if b == 48 {
        table_case_48();
    } else if b == 49 {
        table_case_49();
    } else if b == 50 {
        table_case_50();
    } else if b == 51 {
        table_case_51();
    } else if b == 52 {
        table_case_52();
    } else if b == 53 {
        table_case_53();
    } else if b == 54 {
        table_case_54();
    } else if b == 55 {
        table_case_55();
    } else if b == 56 {
        table_case_56();
    } else if b == 57 {
        table_case_57();
    } else if b == 58 {
        table_case_58();
    } else if b == 59 {
        table_case_59();
    } else if b == 60 {
        table_case_60();
    } else if b == 61 {
        table_case_61();
    } else if b == 62 {
        table_case_62();
    } else {
        table_case_63();
    }
}

proof fn table_facts_part_2(b: u8)
    requires
        64 <= b < 96,
    ensures
        syllable_walk_ok(b),
        syllable_wf(b),
{
    if b == 64 {
        table_case_64();
    } else if b == 65 {
        table_case_65();
    } else if b == 66 {
        table_case_66();
    } else if b == 67 {
        table_case_67();
    } else if b == 68 {
        table_case_68();
    } else if b == 69 {
        table_case_69();
    } else if b == 70 {
        table_case_70();
    } else if b == 71 {
        table_case_71();
    } else if b == 72 {
        table_case_72();
    } else if b == 73 {
        table_case_73();
    } else if b == 74 {
        table_case_74();
    } else if b == 75 {
        table_case_75();
    } else if b == 76 {
        table_case_76();
    } else if b == 77 {
        table_case_77();
    } else if b == 78 {
        table_case_78();
    } else if b == 79 {
        table_case_79();
    } else if b == 80 {
        table_case_80();
    } else if b == 81 {
        table_case_81();
    } else if b == 82 {
        table_case_82();
    } else if b == 83 {
        table_case_83();
    } else if b == 84 {
        table_case_84();
    } else if b == 85 {
        table_case_85();
    } else if b == 86 {
        table_case_86();
    } else if b == 87 {
        table_case_87();
    } else if b == 88 {
        table_case_88();
    } else if b == 89 {
        table_case_89();
    } else if b == 90 {
        table_case_90();
    } else if b == 91 {
        table_case_91();
    } else if b == 92 {
        table_case_92();
    } else if b == 93 {
        table_case_93();
    } else if b == 94 {
        table_case_94();
    } else {
        table_case_95();
    }
}

proof fn table_facts_part_3(b: u8)
    requires
        96 <= b < 128,
    ensures
        syllable_walk_ok(b),
        syllable_wf(b),
{
    if b == 96 {
        table_case_96();
    } else if b == 97 {
        table_case_97();
    } else if b == 98 {
        table_case_98();
    } else if b == 99 {
        table_case_99();
    } else if b == 100 {
        table_case_100();
    } else if b == 101 {
        table_case_101();
    } else if b == 102 {
        table_case_102();
    } else if b == 103 {
        table_case_103();
    } else if b == 104 {
        table_case_104();
    } else if b == 105 {
        table_case_105();
    } else if b == 106 {
        table_case_106();
    } else if b == 107 {
        table_case_107();
    } else if b == 108 {
        table_case_108();
    } else if b == 109 {
        table_case_109();
    } else if b == 110 {
        table_case_110();
    } else if b == 111 {
        table_case_111();
    } else if b == 112 {
        table_case_112();
    } else if b == 113 {
        table_case_113();
    } else if b == 114 {
        table_case_114();
    } else if b == 115 {
        table_case_115();
    } else if b == 116 {
        table_case_116();
    } else if b == 117 {
        table_case_117();
    } else if b == 118 {
        table_case_118();
    } else if b == 119 {
        table_case_119();
    } else if b == 120 {
        table_case_120();
    } else if b == 121 {
        table_case_121();
    } else if b == 122 {
        table_case_122();
    } else if b == 123 {
        table_case_123();
    } else if b == 124 {
        table_case_124();
    } else if b == 125 {
        table_case_125();
    } else if b == 126 {
        table_case_126();
    } else {
        table_case_127();
    }
}

proof fn table_facts_part_4(b: u8)
    requires
        128 <= b < 160,
    ensures
        syllable_walk_ok(b),
        syllable_wf(b),
{
    if b == 128 {
        table_case_128();
    } else if b == 129 {
        table_case_129();
    } else if b == 130 {
        table_case_130();
    } else if b == 131 {
        table_case_131();
    } else if b == 132 {
        table_case_132();
    } else if b == 133 {
        table_case_133();
    } else if b == 134 {
        table_case_134();
    } else if b == 135 {
        table_case_135();
    } else if b == 136 {
        table_case_136();
    } else if b == 137 {
        table_case_137();
    } else if b == 138 {
        table_case_138();
    } else if b == 139 {
        table_case_139();
    } else if b == 140 {
        table_case_140();
    } else if b == 141 {
        table_case_141();
    } else if b == 142 {
        table_case_142();
    } else if b == 143 {
        table_case_143();
    } else if b == 144 {
        table_case_144();
    } else if b == 145 {
        table_case_145();
    } else if b == 146 {
        table_case_146();
    } else if b == 147 {
        table_case_147();
    } else if b == 148 {
        table_case_148();
    } else if b == 149 {
        table_case_149();
    } else if b == 150 {
        table_case_150();
    } else if b == 151 {
        table_case_151();
    } else if b == 152 {
        table_case_152();
    } else if b == 153 {
        table_case_153();
    } else if b == 154 {
        table_case_154();
    } else if b == 155 {
        table_case_155();
    } else if b == 156 {
        table_case_156();
    } else if b == 157 {
        table_case_157();
    } else if b == 158 {
        table_case_158();
    } else {
        table_case_159();
    }
}

proof fn table_facts_part_5(b: u8)
    requires
        160 <= b < 192,
    ensures
        syllable_walk_ok(b),
        syllable_wf(b),
{
    if b == 160 {
        table_case_160();
    } else if b == 161 {
        table_case_161();
    } else if b == 162 {
        table_case_162();
    } else if b == 163 {
        table_case_163();
    } else if b == 164 {
        table_case_164();
    } else if b == 165 {
        table_case_165();
    } else if b == 166 {
        table_case_166();
    } else if b == 167 {
        table_case_167();
    } else if b == 168 {
        table_case_168();
    } else if b == 169 {
        table_case_169();
    } else if b == 170 {
        table_case_170();
    } else if b == 171 {
        table_case_171();
    } else if b == 172 {
        table_case_172();
    } else if b == 173 {
        table_case_173();
    } else if b == 174 {
        table_case_174();
    } else if b == 175 {
        table_case_175();
    } else if b == 176 {
        table_case_176();
    } else if b == 177 {
        table_case_177();
    } else if b == 178 {
        table_case_178();
    } else if b == 179 {
        table_case_179();
    } else if b == 180 {
        table_case_180();
    } else if b == 181 {
        table_case_181();
    } else if b == 182 {
        table_case_182();
    } else if b == 183 {
        table_case_183();
    } else if b == 184 {
        table_case_184();
    } else if b == 185 {
        table_case_185();
    } else if b == 186 {
        table_case_186();
    } else if b == 187 {
        table_case_187();
    } else if b == 188 {
        table_case_188();
    } else if b == 189 {
        table_case_189();
    } else if b == 190 {
        table_case_190();
    } else {
        table_case_191();
    }
}

proof fn table_facts_part_6(b: u8)
    requires
        192 <= b < 224,
    ensures
        syllable_walk_ok(b),
        syllable_wf(b),
{
    if b == 192 {
        table_case_192();
    } else if b == 193 {
        table_case_193();
    } else if b == 194 {
        table_case_194();
    } else if b == 195 {
        table_case_195();
    } else if b == 196 {
        table_case_196();
    } else if b == 197 {
        table_case_197();
    } else if b == 198 {
        table_case_198();
    } else if b == 199 {
        table_case_199();
    } else if b == 200 {
        table_case_200();
    } else if b == 201 {
        table_case_201();
    } else if b == 202 {
        table_case_202();
    } else if b == 203 {
        table_case_203();
    } else if b == 204 {
        table_case_204();
    } else if b == 205 {
        table_case_205();
    } else if b == 206 {
        table_case_206();
    } else if b == 207 {
        table_case_207();
    } else if b == 208 {
        table_case_208();
    } else if b == 209 {
        table_case_209();
    } else if b == 210 {
        table_case_210();
    } else if b == 211 {
        table_case_211();
    } else if b == 212 {
        table_case_212();
    } else if b == 213 {
        table_case_213();
    } else if b == 214 {
        table_case_214();
    } else if b == 215 {
        table_case_215();
    } else if b == 216 {
        table_case_216();
    } else if b == 217 {
        table_case_217();
    } else if b == 218 {
        table_case_218();
    } else if b == 219 {
        table_case_219();
    } else if b == 220 {
        table_case_220();
    } else if b == 221 {
        table_case_221();
    } else if b == 222 {
        table_case_222();
    } else {
        table_case_223();
    }
}

proof fn table_facts_part_7(b: u8)
    requires
        224 <= b < 256,
    ensures
        syllable_walk_ok(b),
        syllable_wf(b),
{
    if b == 224 {
        table_case_224();
    } else if b == 225 {
        table_case_225();
    } else if b == 226 {
        table_case_226();
    } else if b == 227 {
        table_case_227();
    } else if b == 228 {
        table_case_228();
    } else if b == 229 {
        table_case_229();
    } else if b == 230 {
        table_case_230();
    } else if b == 231 {
        table_case_231();
    } else if b == 232 {
        table_case_232();
    } else if b == 233 {
        table_case_233();
    } else if b == 234 {
        table_case_234();
    } else if b == 235 {
        table_case_235();
    } else if b == 236 {
        table_case_236();
    } else if b == 237 {
        table_case_237();
    } else if b == 238 {
        table_case_238();
    } else if b == 239 {
        table_case_239();
    } else if b == 240 {
        table_case_240();
    } else if b == 241 {
        table_case_241();
    } else if b == 242 {
        table_case_242();
    } else if b == 243 {
        table_case_243();
    } else if b == 244 {
        table_case_244();
    } else if b == 245 {
        table_case_245();
    } else if b == 246 {
        table_case_246();
    } else if b == 247 {
        table_case_247();
    } else if b == 248 {
        table_case_248();
    } else if b == 249 {
        table_case_249();
    } else if b == 250 {
        table_case_250();
    } else if b == 251 {
        table_case_251();
    } else if b == 252 {
        table_case_252();
    } else if b == 253 {
        table_case_253();
    } else if b == 254 {
        table_case_254();
    } else {
        table_case_255();
    }
}

/// The trie inverts the syllable table: walking the syllable of any
/// byte from the root ends at a node carrying exactly that byte.  And
/// every syllable of the table is one to four lowercase letters.
pub proof fn lemma_table_facts(b: u8)
    ensures
        syllable_walk_ok(b),
        syllable_wf(b),
{
    if b < 32 {
        table_facts_part_0(b);
    } else if b < 64 {
        table_facts_part_1(b);
    } else if b < 96 {
        table_facts_part_2(b);
    } else if b < 128 {
        table_facts_part_3(b);
    } else if b < 160 {
        table_facts_part_4(b);
    } else if b < 192 {
        table_facts_part_5(b);
    } else if b < 224 {
        table_facts_part_6(b);
    } else {
        table_facts_part_7(b);
    }
}


/// The syllable table is injective: two different byte values always map
/// to two different syllables, since the trie walk of a syllable ends at
/// a node carrying the byte it stands for.
pub proof fn lemma_syllable_injective(b1: u8, b2: u8)
    requires
        b1 != b2,
    ensures
        spec_syllable(b1) != spec_syllable(b2),
{
    lemma_table_facts(b1);
    lemma_table_facts(b2);
}

} // verus!
