//! The decoder: greedily re-segments a string into syllables with the
//! trie, strips and verifies the checksum, and inverts the entropy
//! transform.

use vstd::prelude::*;
use crate::Checksum;
use crate::Fnv1a;
use crate::spec_checksum_len;
use crate::spec_fnv;
use crate::spec_le_bytes;
use crate::spec_running_code;
use crate::spec_entropy;
use crate::running_code;
use crate::syllables::Node;
use crate::syllables::spec_child;
use crate::syllables::spec_node_value;
use crate::syllables::spec_root;
use crate::syllables::spec_walk;
use crate::tables::spec_syllable;
use crate::table_facts::lemma_table_facts;
use crate::encode::Settings;
use crate::encode::spec_encode;
use crate::encode::spec_encode_bytes;
use crate::encode::spec_enc_check;
use crate::encode::spec_enc_payload;
use crate::encode::spec_push;
use crate::encode::spec_sentence_empty;
use crate::encode::spec_max_word;

verus! {

/// Error type for decoding data.
#[derive(Clone, Copy, Debug, Hash, PartialEq, Eq)]
pub enum InvalidData {
    /// A syllable not present in the lookup table was found.
    Syllable,
    /// The number of syllables was not enough to contain the checksum.
    /// Returned only when a checksum is used; empty strings are otherwise
    /// allowed.
    TooShort,
    /// The checksum didn't match that of the decoded data.  Returned only
    /// when a checksum is used.
    Checksum,
}

/// Whether a character outside the ASCII range is alphabetic; such
/// characters are never part of a syllable, and the decoder does not skip
/// over them between syllables either.
pub uninterp spec fn is_letter_outside_ascii(c: char) -> bool;

/// Whether a character is alphabetic: within ASCII these are exactly the
/// letters; beyond ASCII the Unicode letter categories decide.
pub open spec fn spec_is_letter(c: char) -> bool {
    if (c as u32) < 128 {
        (65 <= c as u32 && c as u32 <= 90) || (97 <= c as u32 && c as u32 <= 122)
    } else {
        is_letter_outside_ascii(c)
    }
}

/// Relies on char::is_alphabetic: within ASCII it accepts exactly the
/// letters, and it is a pure function of the character.
#[verifier::external_body]
fn is_alphabetic_char(c: char) -> (r: bool)
    ensures
        r == spec_is_letter(c),
        (c as u32) >= 128 ==> r == is_letter_outside_ascii(c),
{
    c.is_alphabetic()
}

/// Relies on str::chars: it yields the characters of the string in order.
#[verifier::external_body]
fn char_vec(s: &str) -> (r: Vec<char>)
    ensures
        r@ == s@,
{
    s.chars().collect()
}

/// The byte of a character below 256; characters beyond cannot start a
/// transition.
pub open spec fn spec_char_byte(c: char) -> Option<u8> {
    if (c as u32) < 256 {
        Some((c as u32) as u8)
    } else {
        None
    }
}

/// One trie transition by a character.
pub open spec fn spec_child_char(n: Node, c: char) -> Option<Node> {
    match spec_char_byte(c) {
        None => None,
        Some(b) => spec_child(n, b),
    }
}

/// The greedy walk of the trie from a node, standing at position `i` of
/// the text with `steps` characters already consumed: it stops at the
/// first character that does not transition, or at the end of the text,
/// and reports the byte value of the node it holds then, with the total
/// count of consumed characters.
pub open spec fn spec_lp_walk(t: Seq<char>, i: int, n: Node, steps: int) -> Option<(u8, int)>
    decreases t.len() - i when 0 <= i <= t.len()
{
    if i == t.len() {
        match spec_node_value(n) {
            Some(v) => Some((v, steps)),
            None => None,
        }
    } else {
        match spec_child_char(n, t[i]) {
            None => match spec_node_value(n) {
                Some(v) => Some((v, steps)),
                None => None,
            },
            Some(m) => spec_lp_walk(t, i + 1, m, steps + 1),
        }
    }
}

/// The longest syllable prefixed to the text at position `i`: its byte
/// value and the count of characters it consumes.
pub open spec fn spec_lp(t: Seq<char>, i: int) -> Option<(u8, int)> {
    spec_lp_walk(t, i, spec_root(), 0)
}

/// A successful walk consumes at least as many characters as it started
/// with, and no more than remain.
proof fn lemma_lp_walk_bounds(t: Seq<char>, i: int, n: Node, steps: int)
    requires
        0 <= i <= t.len(),
    ensures
        spec_lp_walk(t, i, n, steps) matches Some(p) ==> steps <= p.1 && p.1 - steps <= t.len()
            - i,
    decreases t.len() - i,
{
    if i < t.len() {
        match spec_child_char(n, t[i]) {
            Some(m) => lemma_lp_walk_bounds(t, i + 1, m, steps + 1),
            None => {},
        }
    }
}

/// A successful lookup consumes at least one character, and at most what
/// remains: the root node carries no value.
pub proof fn lemma_lp_pos(t: Seq<char>, i: int)
    requires
        0 <= i <= t.len(),
    ensures
        spec_lp(t, i) matches Some(p) ==> 1 <= p.1 && i + p.1 <= t.len(),
{
    if i < t.len() {
        match spec_child_char(spec_root(), t[i]) {
            Some(m) => lemma_lp_walk_bounds(t, i + 1, m, 1),
            None => {},
        }
    }
}

/// The position of the next alphabetic character at or after `i`, or the
/// end of the text.
pub open spec fn spec_gobble(t: Seq<char>, i: int) -> int
    decreases t.len() - i when 0 <= i <= t.len()
{
    if i >= t.len() {
        i
    } else if spec_is_letter(t[i]) {
        i
    } else {
        spec_gobble(t, i + 1)
    }
}

/// Gobbling stays within the text and never moves backwards.
pub proof fn lemma_gobble_bounds(t: Seq<char>, i: int)
    requires
        0 <= i <= t.len(),
    ensures
        i <= spec_gobble(t, i) <= t.len(),
    decreases t.len() - i,
{
    if i < t.len() && !spec_is_letter(t[i]) {
        lemma_gobble_bounds(t, i + 1);
    }
}

/// The raw bytes parsed from the text at position `i` on: one byte per
/// syllable, with everything that is not a letter skipped between
/// syllables.  `None` when some position holds no recognizable syllable.
pub open spec fn spec_parse(t: Seq<char>, i: int) -> Option<Seq<u8>>
    decreases t.len() - i when 0 <= i <= t.len()
{
    if i >= t.len() {
        Some(Seq::empty())
    } else {
        match spec_lp(t, i) {
            None => None,
            Some((v, l)) => {
                proof {
                    lemma_lp_pos(t, i);
                    lemma_gobble_bounds(t, i + l);
                }
                let j = spec_gobble(t, i + l);
                match spec_parse(t, j) {
                    None => None,
                    Some(rest) => Some(seq![v] + rest),
                }
            },
        }
    }
}

/// The payload of a raw parsed byte sequence whose last `k` bytes are the
/// checksum: the leading bytes, each inverted by the entropy transform.
pub open spec fn spec_payload(raw: Seq<u8>, k: int) -> Seq<u8> {
    Seq::new((raw.len() - k) as nat, |i: int| spec_running_code(raw[i], i))
}

/// What decoding a text under a checksum length yields: the parsed and
/// inverted payload when every syllable is recognized, there are enough
/// bytes for the checksum, and the received checksum equals the leading
/// digest bytes of the payload's hash; the first failure among those
/// otherwise.
pub open spec fn spec_decode(t: Seq<char>, k: int) -> Result<Seq<u8>, InvalidData> {
    match spec_parse(t, 0) {
        None => Err(InvalidData::Syllable),
        Some(raw) => if raw.len() < k {
            Err(InvalidData::TooShort)
        } else {
            let payload = spec_payload(raw, k);
            let digest = spec_le_bytes(spec_fnv(payload));
            if raw.skip(raw.len() - k) == digest.take(k) {
                Ok(payload)
            } else {
                Err(InvalidData::Checksum)
            }
        },
    }
}

/// The greedy syllable lookup at a character position, mirroring
/// [`spec_lp_walk`].
fn lp_walk(chars: &Vec<char>, i: usize, node: Node, steps: usize) -> (r: Option<(u8, usize)>)
    requires
        steps <= i <= chars@.len(),
    ensures
        r is Some <==> spec_lp_walk(chars@, i as int, node, steps as int) is Some,
        r matches Some(p) ==> spec_lp_walk(chars@, i as int, node, steps as int) == Some(
            (p.0, p.1 as int),
        ),
    decreases chars@.len() - i,
{
    if i == chars.len() {
        match node.syllable() {
            Some(v) => Some((v, steps)),
            None => None,
        }
    } else {
        let c = chars[i];
        let cu = c as u32;
        let child = if cu < 256 {
            node.child(cu as u8)
        } else {
            None
        };
        match child {
            None => match node.syllable() {
                Some(v) => Some((v, steps)),
                None => None,
            },
            Some(m) => lp_walk(chars, i + 1, m, steps + 1),
        }
    }
}

/// Greedily attempts to find the longest syllable prefixed to a string.
///
/// Returns the byte value of the syllable and its length in characters.
pub fn longest_prefix_of(string: &str) -> (r: Option<(u8, usize)>)
    ensures
        r is Some <==> spec_lp(string@, 0) is Some,
        r matches Some(p) ==> spec_lp(string@, 0) == Some((p.0, p.1 as int)),
{
    let chars = char_vec(string);
    lp_walk(&chars, 0, Node::root(), 0)
}

/// Monomorphised decode implementation.
#[verifier::rlimit(100)]
#[verifier::loop_isolation(false)]
pub fn decode_mono(string: &str, checksum: Checksum) -> (r: Result<Vec<u8>, InvalidData>)
    ensures
        r is Ok <==> spec_decode(string@, spec_checksum_len(checksum)) is Ok,
        r matches Ok(v) ==> spec_decode(string@, spec_checksum_len(checksum)) == Ok::<
            Seq<u8>,
            InvalidData,
        >(v@),
        r matches Err(e) ==> spec_decode(string@, spec_checksum_len(checksum)) == Err::<
            Seq<u8>,
            InvalidData,
        >(e),
{
    let ghost t = string@;
    let ghost k_spec = spec_checksum_len(checksum);
    let chars = char_vec(string);
    let n = chars.len();

    // decode raw bytes from the string: the bytes are still run-encoded
    // and may have a checksum at the end
    let mut buffer: Vec<u8> = Vec::new();
    let mut i: usize = 0;
    proof {
        assert(buffer@ + spec_parse(t, 0)->Some_0 =~= spec_parse(t, 0)->Some_0);
    }
    while i < n
        invariant
            i <= n,
            n == t.len(),
            chars@ == t,
            match spec_parse(t, i as int) {
                Some(rest) => spec_parse(t, 0) == Some(buffer@ + rest),
                None => spec_parse(t, 0) is None,
            },
        decreases n - i,
    {
        let ghost i0 = i as int;
        let ghost buf0 = buffer@;

        // find the longest valid syllable at this position
        let got = lp_walk(&chars, i, Node::root(), 0);
        match got {
            None => {
                return Err(InvalidData::Syllable);
            },
            Some((val, len)) => {
                proof {
                    lemma_lp_pos(t, i0);
                }
                // the byte value of the syllable is its payload
                buffer.push(val);
                i = i + len;

                // gobble until the start of the next syllable
                while i < n && !is_alphabetic_char(chars[i])
                    invariant
                        i0 + spec_lp(t, i0)->Some_0.1 <= i <= n,
                        n == t.len(),
                        chars@ == t,
                        spec_gobble(t, i0 + spec_lp(t, i0)->Some_0.1) == spec_gobble(t, i as int),
                    decreases n - i,
                {
                    i = i + 1;
                }
                proof {
                    let l = spec_lp(t, i0)->Some_0.1;
                    assert(spec_gobble(t, i as int) == i as int);
                    assert(spec_gobble(t, i0 + l) == i as int);
                    match spec_parse(t, i as int) {
                        Some(rest) => {
                            assert(spec_parse(t, i0) == Some(seq![val] + rest));
                            assert(buf0 + (seq![val] + rest) =~= buffer@ + rest);
                        },
                        None => {
                            assert(spec_parse(t, i0) is None);
                        },
                    }
                }
            },
        }
    }
    proof {
        assert(spec_parse(t, n as int) == Some(Seq::<u8>::empty()));
        assert(buffer@ + Seq::<u8>::empty() =~= buffer@);
    }
    let ghost raw = buffer@;

    // compute the number of bytes constituting the payload vs checksum
    let k = checksum.len();
    if buffer.len() < k {
        return Err(InvalidData::TooShort);
    }
    let payload_len = buffer.len() - k;

    // decode the payload bytes in place and compute their hash
    let mut hash = Fnv1a::new();
    let mut j: usize = 0;
    proof {
        assert(spec_payload(raw, k_spec).take(0) =~= Seq::<u8>::empty());
    }
    while j < payload_len
        invariant
            j <= payload_len,
            payload_len == raw.len() - k_spec,
            buffer@.len() == raw.len(),
            forall|m: int| 0 <= m < j ==> buffer@[m] == spec_running_code(raw[m], m),
            forall|m: int| j <= m < raw.len() ==> buffer@[m] == raw[m],
            hash.0 == spec_fnv(spec_payload(raw, k_spec).take(j as int)),
        decreases payload_len - j,
    {
        let b = running_code(buffer[j], j);
        buffer.set(j, b);
        hash.update(b);
        proof {
            let payload = spec_payload(raw, k_spec);
            assert(payload.take(j as int + 1).drop_last() =~= payload.take(j as int));
            assert(payload.take(j as int + 1).last() == payload[j as int]);
        }
        j = j + 1;
    }
    proof {
        assert(spec_payload(raw, k_spec).take(payload_len as int) =~= spec_payload(raw, k_spec));
    }

    // compare the received checksum with the digest of the payload
    let digest = hash.bytes();
    let ghost digest_spec = spec_le_bytes(spec_fnv(spec_payload(raw, k_spec)));
    let mut m: usize = 0;
    while m < k
        invariant
            m <= k,
            k == k_spec,
            payload_len == raw.len() - k_spec,
            buffer@.len() == raw.len(),
            digest@ == digest_spec,
            forall|q: int| 0 <= q < payload_len ==> buffer@[q] == spec_running_code(raw[q], q),
            forall|q: int| payload_len <= q < raw.len() ==> buffer@[q] == raw[q],
            forall|q: int| 0 <= q < m ==> raw[payload_len + q] == digest_spec[q],
        decreases k - m,
    {
        if buffer[payload_len + m] != digest[m] {
            proof {
                assert(raw.skip(raw.len() - k_spec)[m as int] == raw[payload_len + m]);
                assert(digest_spec.take(k_spec)[m as int] == digest_spec[m as int]);
                assert(raw.skip(raw.len() - k_spec) != digest_spec.take(k_spec));
            }
            return Err(InvalidData::Checksum);
        }
        m = m + 1;
    }
    proof {
        assert(raw.skip(raw.len() - k_spec) =~= digest_spec.take(k_spec));
    }

    // remove the checksum from the end and return the payload
    buffer.truncate(payload_len);
    proof {
        assert(buffer@ =~= spec_payload(raw, k_spec));
    }
    Ok(buffer)
}

/// Decodes a string using given checksum settings.
///
/// The checksum setting must match the one used when the string was
/// encoded.  All other encoding settings are ignored when decoding.
pub fn decode_with_settings(string: &str, checksum: Checksum) -> (r: Result<Vec<u8>, InvalidData>)
    ensures
        r is Ok <==> spec_decode(string@, spec_checksum_len(checksum)) is Ok,
        r matches Ok(v) ==> spec_decode(string@, spec_checksum_len(checksum)) == Ok::<
            Seq<u8>,
            InvalidData,
        >(v@),
        r matches Err(e) ==> spec_decode(string@, spec_checksum_len(checksum)) == Err::<
            Seq<u8>,
            InvalidData,
        >(e),
{
    decode_mono(string, checksum)
}

/// Decodes a string using the default settings.
///
/// Use this only if the default checksum setting was used when encoding
/// the string.
pub fn decode(string: &str) -> (r: Result<Vec<u8>, InvalidData>)
    ensures
        r is Ok <==> spec_decode(string@, 1) is Ok,
        r matches Ok(v) ==> spec_decode(string@, 1) == Ok::<Seq<u8>, InvalidData>(v@),
        r matches Err(e) ==> spec_decode(string@, 1) == Err::<Seq<u8>, InvalidData>(e),
{
    decode_with_settings(string, Checksum::Length1)
}

/// Decoding the empty string yields the empty payload when no checksum is
/// asked for, and a too-short failure under every enabled checksum
/// length.
pub proof fn lemma_decode_empty(t: Seq<char>, k: int)
    requires
        t.len() == 0,
        0 <= k <= 4,
    ensures
        k == 0 ==> spec_decode(t, k) == Ok::<Seq<u8>, InvalidData>(Seq::<u8>::empty()),
        k >= 1 ==> spec_decode(t, k) == Err::<Seq<u8>, InvalidData>(InvalidData::TooShort),
{
    assert(spec_parse(t, 0) == Some(Seq::<u8>::empty()));
    if k == 0 {
        assert(spec_payload(Seq::<u8>::empty(), 0) =~= Seq::<u8>::empty());
        assert(Seq::<u8>::empty().skip(0) =~= spec_le_bytes(spec_fnv(Seq::<u8>::empty())).take(0));
    }
}


/// When the remaining text is exactly the characters of a byte sequence
/// whose walk from a node succeeds, the greedy walk consumes all of it
/// and reports the value of the node it reaches.
proof fn lemma_lp_walk_of_bytes(t: Seq<char>, i: int, n: Node, steps: int, s: Seq<u8>, m: Node)
    requires
        0 <= i,
        i + s.len() == t.len(),
        forall|j: int| 0 <= j < s.len() ==> t[i + j] == (#[trigger] s[j]) as char,
        spec_walk(n, s) == Some(m),
    ensures
        spec_lp_walk(t, i, n, steps) == match spec_node_value(m) {
            Some(v) => Some((v, steps + s.len() as int)),
            None => None::<(u8, int)>,
        },
    decreases s.len(),
{
    if s.len() == 0 {
        assert(m == n);
    } else {
        let c = spec_child(n, s[0]);
        assert(t[i] == s[0] as char);
        assert((s[0] as char) as u32 == s[0] as u32);
        let mid = c->Some_0;
        assert(spec_walk(mid, s.drop_first()) == Some(m));
        assert(forall|j: int|
            0 <= j < s.drop_first().len() ==> t[i + 1 + j] == (#[trigger] s.drop_first()[j]) as char);
        lemma_lp_walk_of_bytes(t, i + 1, mid, steps + 1, s.drop_first(), m);
    }
}

/// Decoding the characters of one table syllable alone, with no checksum
/// asked for, yields exactly the byte the syllable stands for.
pub proof fn lemma_single_syllable_decodes(b: u8)
    ensures
        spec_decode(spec_syllable(b).map_values(|x: u8| x as char), 0) == Ok::<
            Seq<u8>,
            InvalidData,
        >(seq![b]),
{
    lemma_table_facts(b);
    let s = spec_syllable(b);
    let t = s.map_values(|x: u8| x as char);
    let m = spec_walk(spec_root(), s)->Some_0;
    lemma_lp_walk_of_bytes(t, 0, spec_root(), 0, s, m);
    assert(spec_lp(t, 0) == Some((b, s.len() as int)));
    assert(spec_gobble(t, s.len() as int) == s.len() as int);
    assert(spec_parse(t, s.len() as int) == Some(Seq::<u8>::empty()));
    let raw = seq![b];
    assert(spec_parse(t, 0) == Some(seq![b] + Seq::<u8>::empty()));
    assert(seq![b] + Seq::<u8>::empty() =~= raw);
    let payload = spec_payload(raw, 0);
    assert(crate::spec_entropy(0) == 0);
    assert(b ^ 0u8 == b) by (bit_vector);
    assert(payload =~= raw);
    assert(raw.skip(1) =~= spec_le_bytes(spec_fnv(payload)).take(0));
}

/// Round trip for a single byte without checksum or decoration: encoding
/// it and decoding the result under the same checksum setting gives the
/// byte back, whatever the word length limit allows.
#[verifier::rlimit(60)]
pub proof fn lemma_round_trip_single(b: u8, s: Settings)
    requires
        s.checksum == crate::Checksum::Disabled,
        !s.decorate,
        s.word_len matches Some(w) ==> w >= 1,
    ensures
        spec_decode(spec_encode(seq![b], s), 0) == Ok::<Seq<u8>, InvalidData>(seq![b]),
{
    let data = seq![b];
    assert(spec_entropy(0) == 0) by {
        assert(((0int % 256) * 167) % 256 == 0);
    }
    assert(b ^ 0u8 == b) by (bit_vector);
    assert(spec_running_code(b, 0) == b);
    let e1 = spec_enc_payload(data, s, 1);
    assert(spec_enc_payload(data, s, 0) == crate::encode::EncState {
        sent: spec_sentence_empty(),
        hash: crate::FNV_OFFSET_BASIS,
    });
    assert(e1.sent == spec_push(
        spec_sentence_empty(),
        b,
        e1.hash,
        spec_max_word(s),
        false,
    ));
    assert(spec_max_word(s) >= 1);
    assert(e1.sent.buffer =~= spec_syllable(b));
    assert(spec_enc_check(data, s, 0) == e1);
    assert(spec_encode_bytes(data, s) == spec_syllable(b));
    lemma_single_syllable_decodes(b);
}
} // verus!
