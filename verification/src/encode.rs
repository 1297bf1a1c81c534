//! The encoder: turns a byte sequence into a disambiguated, optionally
//! decorated syllable string, one byte at a time.

use vstd::prelude::*;
use crate::Checksum;
use crate::Fnv1a;
use crate::spec_checksum_len;
use crate::spec_fnv_update;
use crate::spec_le_bytes;
use crate::spec_ones;
use crate::spec_running_code;
use crate::FNV_OFFSET_BASIS;
use crate::count_ones;
use crate::running_code;
use crate::syllables;
use crate::tables::spec_syllable;
use crate::syllables::spec_char_follows;
use crate::syllables::all_lower;
use crate::syllables::lemma_all_lower_index;
use crate::table_facts::lemma_table_facts;

verus! {

/// Settings used when encoding.
#[derive(Clone, Copy, Debug, Hash, PartialEq, Eq)]
pub struct Settings {
    /// Maximum number of syllables allowed in a word.  Note that the
    /// actual number of syllables in a word may be smaller.  Default: 3.
    pub word_len: Option<u8>,
    /// The checksum settings used.  Default: one checksum byte.
    pub checksum: Checksum,
    /// If enabled, encoded strings are decorated with commas, periods, and
    /// sentence casing.  This can make the encoded string more readable,
    /// but also longer.  All decorations are ignored when decoding.
    /// Default: false.
    pub decorate: bool,
}

impl Default for Settings {
    fn default() -> (r: Self)
        ensures
            r.word_len == Some(3u8),
            r.checksum == Checksum::Length1,
            r.decorate == false,
    {
        Settings { word_len: Some(3), checksum: Checksum::Length1, decorate: false }
    }
}

/// The effective word length limit: the setting, or 255 when unset.
pub open spec fn spec_max_word(s: Settings) -> u8 {
    match s.word_len {
        Some(w) => w,
        None => 255,
    }
}

/// Folds a lowercase ASCII letter to uppercase; other bytes are unchanged.
pub open spec fn spec_to_upper(b: u8) -> u8 {
    if 97 <= b && b <= 122 {
        (b - 32) as u8
    } else {
        b
    }
}

/// The state of a sentence being built: the output buffer, the previous
/// syllable of the current word if one exists, and the length in
/// syllables of the current word.
pub ghost struct SentenceModel {
    pub buffer: Seq<u8>,
    pub previous: Option<Seq<u8>>,
    pub word_len: nat,
}

/// The empty sentence.
pub open spec fn spec_sentence_empty() -> SentenceModel {
    SentenceModel { buffer: Seq::empty(), previous: None, word_len: 0 }
}

/// Appends one byte's syllable to a sentence.
///
/// A word break is inserted when the current word is full, or when the
/// first letter of the new syllable is a valid continuation of the
/// previous syllable, so that a greedy re-parse could misread the
/// boundary.  When decorating, the break becomes a period or a comma
/// according to the bit count of the seed, and a period capitalizes the
/// next syllable; the very first syllable of the string is capitalized
/// even without a break.
pub open spec fn spec_push(
    st: SentenceModel,
    byte: u8,
    seed: u32,
    max_word: u8,
    decorate: bool,
) -> SentenceModel {
    let syl = spec_syllable(byte);
    let ambiguous = match st.previous {
        Some(p) => spec_char_follows(syl[0], p),
        None => false,
    };
    let word_break = st.word_len >= max_word || ambiguous;
    let ones = spec_ones(seed as int);
    let cap_delim: (bool, Option<Seq<u8>>) = if word_break && decorate && ones > 19 {
        (true, Some(seq![46u8, 32u8]))
    } else if word_break && decorate && ones < 14 {
        (false, Some(seq![44u8, 32u8]))
    } else if word_break {
        (false, Some(seq![32u8]))
    } else if decorate {
        (st.buffer.len() == 0, None)
    } else {
        (false, None)
    };
    let syl2 = if cap_delim.0 {
        syl.update(0, spec_to_upper(syl[0]))
    } else {
        syl
    };
    match cap_delim.1 {
        None => SentenceModel {
            buffer: st.buffer + syl2,
            previous: Some(syl),
            word_len: st.word_len + 1,
        },
        Some(d) => SentenceModel { buffer: st.buffer + d + syl2, previous: Some(syl), word_len: 1 },
    }
}

/// The sentence and hash after the first `i` payload bytes: each byte is
/// fed to the hash, transformed by its index, and pushed with the hash's
/// new value as the decoration seed.
pub ghost struct EncState {
    pub sent: SentenceModel,
    pub hash: u32,
}

pub open spec fn spec_enc_payload(data: Seq<u8>, s: Settings, i: int) -> EncState
    decreases i when 0 <= i <= data.len()
{
    if i <= 0 {
        EncState { sent: spec_sentence_empty(), hash: FNV_OFFSET_BASIS }
    } else {
        let st = spec_enc_payload(data, s, i - 1);
        let h2 = spec_fnv_update(st.hash, data[i - 1]);
        EncState {
            sent: spec_push(
                st.sent,
                spec_running_code(data[i - 1], i - 1),
                h2,
                spec_max_word(s),
                s.decorate,
            ),
            hash: h2,
        }
    }
}

/// The state after the first `j` checksum bytes have also been pushed.
/// The checksum is the leading bytes of the digest of the payload hash;
/// each one is fed to the hash purely to advance the decoration seed, and
/// is not run through the entropy transform.
pub open spec fn spec_enc_check(data: Seq<u8>, s: Settings, j: int) -> EncState
    decreases j when 0 <= j <= 4
{
    if j <= 0 {
        spec_enc_payload(data, s, data.len() as int)
    } else {
        let st = spec_enc_check(data, s, j - 1);
        let digest = spec_le_bytes(spec_enc_payload(data, s, data.len() as int).hash);
        let h2 = spec_fnv_update(st.hash, digest[j - 1]);
        EncState {
            sent: spec_push(st.sent, digest[j - 1], h2, spec_max_word(s), s.decorate),
            hash: h2,
        }
    }
}

/// The bytes of the encoded string: payload syllables, then checksum
/// syllables, then a closing period when decorating a non-empty string.
pub open spec fn spec_encode_bytes(data: Seq<u8>, s: Settings) -> Seq<u8> {
    let st = spec_enc_check(data, s, spec_checksum_len(s.checksum)).sent;
    if s.decorate && st.buffer.len() > 0 {
        st.buffer.push(46u8)
    } else {
        st.buffer
    }
}

/// The encoded string of a byte sequence under given settings.
pub open spec fn spec_encode(data: Seq<u8>, s: Settings) -> Seq<char> {
    spec_encode_bytes(data, s).map_values(|b: u8| b as char)
}

/// All bytes of a sequence are ASCII.
pub open spec fn ascii_seq(s: Seq<u8>) -> bool {
    forall|i: int| 0 <= i < s.len() ==> #[trigger] s[i] < 128
}

/// Pushing a syllable onto a sentence of ASCII bytes keeps it ASCII.
proof fn lemma_push_ascii(st: SentenceModel, byte: u8, seed: u32, max_word: u8, decorate: bool)
    requires
        ascii_seq(st.buffer),
    ensures
        ascii_seq(spec_push(st, byte, seed, max_word, decorate).buffer),
{
    lemma_table_facts(byte);
    lemma_all_lower_index(spec_syllable(byte));
}

/// Every state of the encoder holds an ASCII buffer.
proof fn lemma_enc_payload_ascii(data: Seq<u8>, s: Settings, i: int)
    requires
        0 <= i <= data.len(),
    ensures
        ascii_seq(spec_enc_payload(data, s, i).sent.buffer),
    decreases i,
{
    if i > 0 {
        lemma_enc_payload_ascii(data, s, i - 1);
        let st = spec_enc_payload(data, s, i - 1);
        lemma_push_ascii(
            st.sent,
            spec_running_code(data[i - 1], i - 1),
            spec_fnv_update(st.hash, data[i - 1]),
            spec_max_word(s),
            s.decorate,
        );
    }
}

proof fn lemma_enc_check_ascii(data: Seq<u8>, s: Settings, j: int)
    requires
        0 <= j <= 4,
    ensures
        ascii_seq(spec_enc_check(data, s, j).sent.buffer),
    decreases j,
{
    if j == 0 {
        lemma_enc_payload_ascii(data, s, data.len() as int);
    } else {
        lemma_enc_check_ascii(data, s, j - 1);
        let st = spec_enc_check(data, s, j - 1);
        let digest = spec_le_bytes(spec_enc_payload(data, s, data.len() as int).hash);
        lemma_push_ascii(
            st.sent,
            digest[j - 1],
            spec_fnv_update(st.hash, digest[j - 1]),
            spec_max_word(s),
            s.decorate,
        );
    }
}

/// The bytes of an encoded string are all ASCII.
pub proof fn lemma_encode_ascii(data: Seq<u8>, s: Settings)
    ensures
        ascii_seq(spec_encode_bytes(data, s)),
{
    lemma_enc_check_ascii(data, s, spec_checksum_len(s.checksum));
}

/// Relies on String::from_utf8: the UTF-8 decoding of ASCII bytes is
/// exactly those byte values as characters.
#[verifier::external_body]
fn ascii_string(bytes: Vec<u8>) -> (r: String)
    requires
        ascii_seq(bytes@),
    ensures
        r@ == bytes@.map_values(|b: u8| b as char),
{
    match String::from_utf8(bytes) {
        Ok(s) => s,
        Err(_) => String::new(),
    }
}

/// Encodes bytes as a string of syllables one-by-one.
///
/// Does not perform the entropy transform or compute a checksum; that is
/// handled in [`encode_mono`].
pub struct Sentence {
    /// Encoded ASCII string so far.
    pub buffer: Vec<u8>,
    /// Previous syllable.  Used for detecting ambiguity.
    pub previous: Option<Vec<u8>>,
    /// Current word length in syllables.
    pub word_len: u8,
    /// Maximum allowed word length in syllables.
    pub max_word: u8,
    /// Whether the sentence is decorated with periods, commas, and
    /// sentence casing.
    pub decorate: bool,
}

impl Sentence {
    /// The mathematical state of the sentence.
    pub open spec fn model(&self) -> SentenceModel {
        SentenceModel {
            buffer: self.buffer@,
            previous: match self.previous {
                Some(v) => Some(v@),
                None => None,
            },
            word_len: self.word_len as nat,
        }
    }

    /// Encodes a single byte.  The seed is used to inform whether a
    /// word-break space should be replaced with a comma or period.
    pub fn push(&mut self, byte: u8, seed: Fnv1a)
        ensures
            final(self).model() == spec_push(
                old(self).model(),
                byte,
                seed.0,
                old(self).max_word,
                old(self).decorate,
            ),
            final(self).max_word == old(self).max_word,
            final(self).decorate == old(self).decorate,
    {
        let ghost st0 = self.model();
        let syllable = syllables::get(byte);
        proof {
            lemma_table_facts(byte);
        }

        // a parsing ambiguity is possible if the first letter of the new
        // syllable is a valid continuation of the previous syllable
        let ambiguous = match &self.previous {
            Some(p) => syllables::char_follows(syllable[0], p.as_slice()),
            None => false,
        };
        let word_break = self.word_len >= self.max_word || ambiguous;

        // when decorating, replace a word-break space with a period or
        // comma with some probability given by the seed's bit count
        let ones = count_ones(seed.0);
        let capitalise: bool;
        let delim: Option<(u8, bool)>;
        if word_break && self.decorate && ones > 19 {
            capitalise = true;
            delim = Some((46, true));
        } else if word_break && self.decorate && ones < 14 {
            capitalise = false;
            delim = Some((44, true));
        } else if word_break {
            capitalise = false;
            delim = Some((32, false));
        } else if self.decorate {
            capitalise = self.buffer.len() == 0;
            delim = None;
        } else {
            capitalise = false;
            delim = None;
        }

        // a delimiter ends the word: add it and reset the ambiguity state
        match delim {
            Some((first, with_space)) => {
                self.word_len = 0;
                self.previous = None;
                self.buffer.push(first);
                if with_space {
                    self.buffer.push(32);
                }
            },
            None => {},
        }

        // append the syllable
        let ghost pre = self.buffer@;
        let ghost wl = self.word_len;
        let ghost prev_now = self.previous;
        let start = self.buffer.len();
        let mut idx: usize = 0;
        while idx < syllable.len()
            invariant
                idx <= syllable@.len(),
                syllable@ == spec_syllable(byte),
                self.buffer@ == pre + syllable@.take(idx as int),
                self.word_len == wl,
                self.previous == prev_now,
                self.max_word == old(self).max_word,
                self.decorate == old(self).decorate,
            decreases syllable@.len() - idx,
        {
            proof {
                assert(pre + syllable@.take(idx as int + 1) =~= (pre + syllable@.take(
                    idx as int,
                )).push(syllable@[idx as int]));
            }
            let b = syllable[idx];
            self.buffer.push(b);
            idx = idx + 1;
        }
        proof {
            assert(syllable@.take(syllable@.len() as int) =~= syllable@);
        }

        // record the syllable as the new previous one
        self.previous = Some(syllable);
        self.word_len = self.word_len + 1;

        if capitalise {
            let c = self.buffer[start];
            let up = if 97 <= c && c <= 122 {
                c - 32
            } else {
                c
            };
            self.buffer.set(start, up);
            proof {
                assert(self.buffer@ =~= pre + spec_syllable(byte).update(
                    0,
                    spec_to_upper(spec_syllable(byte)[0]),
                ));
            }
        }
        proof {
            let target = spec_push(st0, byte, seed.0, old(self).max_word, old(self).decorate);
            assert(self.model().buffer =~= target.buffer);
            assert(self.model().previous == target.previous);
            assert(self.model().word_len == target.word_len);
        }
    }

    /// Performs final decorations, should there be any, and returns the
    /// encoded ASCII string.
    pub fn finalise(self) -> (r: Vec<u8>)
        ensures
            r@ == if self.decorate && self.model().buffer.len() > 0 {
                self.model().buffer.push(46u8)
            } else {
                self.model().buffer
            },
    {
        let mut buffer = self.buffer;
        if self.decorate && buffer.len() > 0 {
            buffer.push(46);
        }
        buffer
    }
}

/// Monomorphised encode implementation.
pub fn encode_mono(data: &[u8], settings: Settings) -> (r: String)
    ensures
        r@ == spec_encode(data@, settings),
{
    let max_word = match settings.word_len {
        Some(w) => w,
        None => 255,
    };
    let mut sentence = Sentence {
        buffer: Vec::new(),
        previous: None,
        word_len: 0,
        max_word,
        decorate: settings.decorate,
    };
    let mut hash = Fnv1a::new();
    proof {
        assert(sentence.model() =~~= spec_sentence_empty());
    }

    // encode the payload
    let mut i: usize = 0;
    while i < data.len()
        invariant
            i <= data@.len(),
            sentence.model() == spec_enc_payload(data@, settings, i as int).sent,
            hash.0 == spec_enc_payload(data@, settings, i as int).hash,
            sentence.max_word == spec_max_word(settings),
            sentence.decorate == settings.decorate,
        decreases data@.len() - i,
    {
        hash.update(data[i]);
        let encoded = running_code(data[i], i);
        sentence.push(encoded, hash);
        i = i + 1;
    }

    let checksum_len = settings.checksum.len();
    let checksum_bytes = hash.bytes();

    // encode the checksum; the hash is updated here only to be used as
    // the seed of the sentence decoration
    let mut j: usize = 0;
    while j < checksum_len
        invariant
            j <= spec_checksum_len(settings.checksum),
            checksum_len == spec_checksum_len(settings.checksum),
            checksum_bytes@ == spec_le_bytes(
                spec_enc_payload(data@, settings, data@.len() as int).hash,
            ),
            sentence.model() == spec_enc_check(data@, settings, j as int).sent,
            hash.0 == spec_enc_check(data@, settings, j as int).hash,
            sentence.max_word == spec_max_word(settings),
            sentence.decorate == settings.decorate,
        decreases spec_checksum_len(settings.checksum) - j,
    {
        hash.update(checksum_bytes[j]);
        sentence.push(checksum_bytes[j], hash);
        j = j + 1;
    }

    let buffer = sentence.finalise();
    proof {
        lemma_encode_ascii(data@, settings);
    }
    ascii_string(buffer)
}

/// Encodes data using the default settings.
pub fn encode(data: &[u8]) -> (r: String)
    ensures
        r@ == spec_encode(data@, Settings { word_len: Some(3u8), checksum: Checksum::Length1, decorate: false }),
{
    encode_with_settings(data, Settings::default())
}

/// Encodes data using given settings.
///
/// Note that the checksum settings used when decoding must match the ones
/// used here.
pub fn encode_with_settings(data: &[u8], settings: Settings) -> (r: String)
    ensures
        r@ == spec_encode(data@, settings),
{
    encode_mono(data, settings)
}

} // verus!
