//! The syllable table and the trie traversal used when encoding and
//! decoding.
//!
//! The trie is a double-array trie over the 256 syllable strings, stored in
//! the two arrays of [`crate::tables`].  Traversal state is a single node
//! descriptor; a child id is the parent's base value XOR-ed with the
//! letter's transition code, and a transition is valid only when the
//! child's check entry names the parent.

use vstd::prelude::*;
use crate::tables::TRIE_LEN;
use crate::tables::spec_base;
use crate::tables::spec_check;
use crate::tables::base_entry;
use crate::tables::check_entry;
use crate::tables::spec_syllable;
use crate::tables::syllable_bytes;

verus! {

/// True when the most significant bit of a trie entry is set.
pub open spec fn spec_msb(x: u32) -> bool {
    x >= 0x8000_0000u32
}

/// The low 31 bits of a trie entry.
pub open spec fn spec_low(x: u32) -> u32 {
    (x % 0x8000_0000u32) as u32
}

/// Splits a trie entry into the most significant bit and the remainder.
///
/// Both the base and the check array use the bit as a flag.
pub fn split_msb(integer: u32) -> (r: (bool, u32))
    ensures
        r.0 == spec_msb(integer),
        r.1 == spec_low(integer),
{
    (integer >= 0x8000_0000u32, integer % 0x8000_0000u32)
}

/// A node of the trie.
///
/// `base` is the base of the transitions from the node; when `is_leaf`
/// holds, the node has no transitions and `base` is the byte value of its
/// syllable instead.  `has_value` says whether a syllable ends at this
/// node; when the node is not a leaf, the value then sits in the base
/// array at index `base`.
#[derive(Clone, Copy, Debug)]
pub struct Node {
    pub id: u32,
    pub base: u32,
    pub is_leaf: bool,
    pub has_value: bool,
}

/// The root node of the trie, wherefrom all lookups begin.
pub open spec fn spec_root() -> Node {
    Node { id: 0, base: spec_low(spec_base(0)), is_leaf: false, has_value: false }
}

/// Folds an ASCII uppercase letter to lowercase; other bytes are unchanged.
pub open spec fn spec_fold(b: u8) -> u8 {
    if 65 <= b && b <= 90 {
        (b + 32) as u8
    } else {
        b
    }
}

/// The transition code of a byte: lowercase letters map to the compact
/// codes 1 through 26, everything else is out of the alphabet.
pub open spec fn spec_code(b: u8) -> Option<u32> {
    let f = spec_fold(b);
    if 97 <= f && f <= 122 {
        Some((f - 96) as u32)
    } else {
        None
    }
}

/// The child reached from a node by one byte, if the transition exists.
pub open spec fn spec_child(n: Node, letter: u8) -> Option<Node> {
    match spec_code(letter) {
        None => None,
        Some(code) => {
            let id = n.base ^ code;
            if id >= TRIE_LEN as u32 {
                None
            } else {
                let bent = spec_base(id as int);
                let cent = spec_check(id as int);
                if spec_low(cent) == n.id {
                    Some(
                        Node {
                            id,
                            base: spec_low(bent),
                            is_leaf: spec_msb(bent),
                            has_value: spec_msb(bent) || spec_msb(cent),
                        },
                    )
                } else {
                    None
                }
            }
        },
    }
}

/// The byte value of the syllable that ends at a node, if one does.
pub open spec fn spec_node_value(n: Node) -> Option<u8> {
    if !n.has_value {
        None
    } else if n.is_leaf {
        Some((n.base % 0x100) as u8)
    } else if n.base < TRIE_LEN as u32 {
        Some((spec_low(spec_base(n.base as int)) % 0x100) as u8)
    } else {
        None
    }
}

/// Walks a byte sequence through the trie from a node.
pub open spec fn spec_walk(n: Node, s: Seq<u8>) -> Option<Node>
    decreases s.len(),
{
    if s.len() == 0 {
        Some(n)
    } else {
        match spec_child(n, s[0]) {
            None => None,
            Some(m) => spec_walk(m, s.drop_first()),
        }
    }
}

/// Whether a letter is a valid continuation of a syllable: replaying the
/// syllable through the trie and then stepping by the letter succeeds.
pub open spec fn spec_char_follows(letter: u8, syllable: Seq<u8>) -> bool {
    spec_walk(spec_root(), syllable.push(letter)) is Some
}

impl Node {
    /// The root node of the trie.
    pub fn root() -> (r: Node)
        ensures
            r == spec_root(),
    {
        let (_, b) = split_msb(base_entry(0));
        Node { id: 0, base: b, is_leaf: false, has_value: false }
    }

    /// Performs a given transition to a child node.
    pub fn child(self, letter: u8) -> (r: Option<Node>)
        ensures
            r == spec_child(self, letter),
    {
        // fold to lowercase and translate to the transition code
        let f = if 65 <= letter && letter <= 90 {
            letter + 32
        } else {
            letter
        };
        if f < 97 || 122 < f {
            return None;
        }
        let code = (f - 96) as u32;

        // compute the candidate child
        let id = self.base ^ code;
        if id >= TRIE_LEN as u32 {
            return None;
        }
        let (is_leaf, base) = split_msb(base_entry(id as usize));
        let (has_leaf, check) = split_msb(check_entry(id as usize));

        // the transition exists only if the child's check entry names us
        if check == self.id {
            Some(Node { id, base, is_leaf, has_value: is_leaf || has_leaf })
        } else {
            None
        }
    }

    /// Get the byte value of the syllable represented by the node.
    pub fn syllable(self) -> (r: Option<u8>)
        ensures
            r == spec_node_value(self),
    {
        if !self.has_value {
            None
        } else if self.is_leaf {
            Some((self.base % 0x100) as u8)
        } else if self.base < TRIE_LEN as u32 {
            let (_, v) = split_msb(base_entry(self.base as usize));
            Some((v % 0x100) as u8)
        } else {
            None
        }
    }
}

/// Gets the ASCII bytes of the syllable identified by a byte value.
pub fn get(index: u8) -> (r: Vec<u8>)
    ensures
        r@ == spec_syllable(index),
{
    syllable_bytes(index)
}

/// Determines whether a letter is a valid continuation of a syllable,
/// i.e., whether the letter is a valid transition from the trie node that
/// the syllable's bytes lead to.
pub fn char_follows(letter: u8, syllable: &[u8]) -> (r: bool)
    ensures
        r == spec_char_follows(letter, syllable@),
{
    let ghost whole = syllable@.push(letter);
    proof {
        assert(whole.skip(0) =~= whole);
    }
    let mut node = Node::root();
    let mut i: usize = 0;
    while i < syllable.len()
        invariant
            0 <= i <= syllable@.len(),
            whole == syllable@.push(letter),
            spec_walk(spec_root(), whole) == spec_walk(node, whole.skip(i as int)),
        decreases syllable@.len() - i,
    {
        proof {
            assert(whole.skip(i as int)[0] == syllable@[i as int]);
            assert(whole.skip(i as int).drop_first() =~= whole.skip(i as int + 1));
        }
        let next = node.child(syllable[i]);
        match next {
            None => {
                return false;
            },
            Some(m) => {
                node = m;
            },
        }
        i = i + 1;
    }
    proof {
        reveal_with_fuel(spec_walk, 3);
        assert(whole.skip(i as int)[0] == letter);
        assert(whole.skip(i as int).drop_first() =~= whole.skip(i as int + 1));
        assert(whole.skip(syllable@.len() as int + 1) =~= Seq::<u8>::empty());
    }
    let last = node.child(letter);
    last.is_some()
}

/// Holds of a byte when walking its syllable from the root reaches a node
/// whose value is that byte again: the trie inverts the syllable table.
pub open spec fn syllable_walk_ok(b: u8) -> bool {
    match spec_walk(spec_root(), spec_syllable(b)) {
        Some(n) => spec_node_value(n) == Some(b),
        None => false,
    }
}

/// True when every byte of a sequence is a lowercase ASCII letter.
pub open spec fn all_lower(s: Seq<u8>) -> bool
    decreases s.len(),
{
    if s.len() == 0 {
        true
    } else {
        97 <= s[0] && s[0] <= 122 && all_lower(s.drop_first())
    }
}

/// Well-formedness of a table entry: one to four lowercase letters.
pub open spec fn syllable_wf(b: u8) -> bool {
    &&& 1 <= spec_syllable(b).len() <= 4
    &&& all_lower(spec_syllable(b))
}

} // verus!

verus! {

/// One step of a walk: when the first byte transitions, walking the whole
/// sequence is walking the rest from the child.
pub proof fn lemma_walk_step(n: Node, s: Seq<u8>, m: Node)
    requires
        s.len() > 0,
        spec_child(n, s[0]) == Some(m),
    ensures
        spec_walk(n, s) == spec_walk(m, s.drop_first()),
{
}


/// A sequence satisfying `all_lower` is lowercase letters at every index.
pub proof fn lemma_all_lower_index(s: Seq<u8>)
    requires
        all_lower(s),
    ensures
        forall|i: int| 0 <= i < s.len() ==> 97 <= #[trigger] s[i] <= 122,
    decreases s.len(),
{
    if s.len() > 0 {
        lemma_all_lower_index(s.drop_first());
        assert forall|i: int| 0 <= i < s.len() implies 97 <= #[trigger] s[i] <= 122 by {
            if i > 0 {
                assert(s.drop_first()[i - 1] == s[i]);
            }
        }
    }
}

} // verus!
