//! Finished syllable blocks and the arithmetic that turns a block into its
//! composed character and back.
//!
//! A composed syllable has the code point
//! `S_BASE + initial * N_COUNT + medial * T_COUNT + final`, where the three
//! numbers are the positions of the block's jamo in the tables of the nineteen
//! initials, the twenty-one medials and the twenty-seven finals (position 0 of
//! the finals stands for a block without one).

use vstd::pervasive::unreached;
use vstd::prelude::*;
use crate::chars::{is_composite_final, is_composite_vowel, is_consonant, is_double_initial, is_vowel};
use crate::std_specs::is_scalar_value;

verus! {

/// Code point of the first composed syllable.
pub const S_BASE: u32 = 0xAC00;

/// Number of initials.
pub const L_COUNT: u32 = 19;

/// Number of medials.
pub const V_COUNT: u32 = 21;

/// Number of finals, the absent one included.
pub const T_COUNT: u32 = 28;

/// Number of syllables that share one initial.
pub const N_COUNT: u32 = 588;

/// Number of composed syllables.
pub const S_COUNT: u32 = 11172;

/// A jamo that may stand first in a block.
pub open spec fn is_initial(c: char) -> bool {
    is_consonant(c) || is_double_initial(c)
}

/// A jamo that may stand in the middle of a block.
pub open spec fn is_medial(c: char) -> bool {
    is_vowel(c) || is_composite_vowel(c)
}

/// A jamo that may stand last in a block.
pub open spec fn is_final(c: char) -> bool {
    is_consonant(c) || is_composite_final(c)
}

/// The table of initials, by position. Positions outside the table give the first entry.
pub open spec fn initial_at(i: int) -> char {
    if i == 1 {
        'ㄲ'
    } else if i == 2 {
        'ㄴ'
    } else if i == 3 {
        'ㄷ'
    } else if i == 4 {
        'ㄸ'
    } else if i == 5 {
        'ㄹ'
    } else if i == 6 {
        'ㅁ'
    } else if i == 7 {
        'ㅂ'
    } else if i == 8 {
        'ㅃ'
    } else if i == 9 {
        'ㅅ'
    } else if i == 10 {
        'ㅆ'
    } else if i == 11 {
        'ㅇ'
    } else if i == 12 {
        'ㅈ'
    } else if i == 13 {
        'ㅉ'
    } else if i == 14 {
        'ㅊ'
    } else if i == 15 {
        'ㅋ'
    } else if i == 16 {
        'ㅌ'
    } else if i == 17 {
        'ㅍ'
    } else if i == 18 {
        'ㅎ'
    } else {
        'ㄱ'
    }
}

/// The table of medials, by position. Positions outside the table give the first entry.
pub open spec fn medial_at(i: int) -> char {
    if i == 1 {
        'ㅐ'
    } else if i == 2 {
        'ㅑ'
    } else if i == 3 {
        'ㅒ'
    } else if i == 4 {
        'ㅓ'
    } else if i == 5 {
        'ㅔ'
    } else if i == 6 {
        'ㅕ'
    } else if i == 7 {
        'ㅖ'
    } else if i == 8 {
        'ㅗ'
    } else if i == 9 {
        'ㅘ'
    } else if i == 10 {
        'ㅙ'
    } else if i == 11 {
        'ㅚ'
    } else if i == 12 {
        'ㅛ'
    } else if i == 13 {
        'ㅜ'
    } else if i == 14 {
        'ㅝ'
    } else if i == 15 {
        'ㅞ'
    } else if i == 16 {
        'ㅟ'
    } else if i == 17 {
        'ㅠ'
    } else if i == 18 {
        'ㅡ'
    } else if i == 19 {
        'ㅢ'
    } else if i == 20 {
        'ㅣ'
    } else {
        'ㅏ'
    }
}

/// The table of finals, by position: none at position 0 and outside the table.
pub open spec fn final_at(i: int) -> Option<char> {
    if i == 1 {
        Some('ㄱ')
    } else if i == 2 {
        Some('ㄲ')
    } else if i == 3 {
        Some('ㄳ')
    } else if i == 4 {
        Some('ㄴ')
    } else if i == 5 {
        Some('ㄵ')
    } else if i == 6 {
        Some('ㄶ')
    } else if i == 7 {
        Some('ㄷ')
    } else if i == 8 {
        Some('ㄹ')
    } else if i == 9 {
        Some('ㄺ')
    } else if i == 10 {
        Some('ㄻ')
    } else if i == 11 {
        Some('ㄼ')
    } else if i == 12 {
        Some('ㄽ')
    } else if i == 13 {
        Some('ㄾ')
    } else if i == 14 {
        Some('ㄿ')
    } else if i == 15 {
        Some('ㅀ')
    } else if i == 16 {
        Some('ㅁ')
    } else if i == 17 {
        Some('ㅂ')
    } else if i == 18 {
        Some('ㅄ')
    } else if i == 19 {
        Some('ㅅ')
    } else if i == 20 {
        Some('ㅆ')
    } else if i == 21 {
        Some('ㅇ')
    } else if i == 22 {
        Some('ㅈ')
    } else if i == 23 {
        Some('ㅊ')
    } else if i == 24 {
        Some('ㅋ')
    } else if i == 25 {
        Some('ㅌ')
    } else if i == 26 {
        Some('ㅍ')
    } else if i == 27 {
        Some('ㅎ')
    } else {
        None
    }
}

/// Position of an initial in its table; 0 for a character that is no initial.
pub open spec fn initial_index(c: char) -> int {
    match c {
        'ㄱ' => 0,
        'ㄲ' => 1,
        'ㄴ' => 2,
        'ㄷ' => 3,
        'ㄸ' => 4,
        'ㄹ' => 5,
        'ㅁ' => 6,
        'ㅂ' => 7,
        'ㅃ' => 8,
        'ㅅ' => 9,
        'ㅆ' => 10,
        'ㅇ' => 11,
        'ㅈ' => 12,
        'ㅉ' => 13,
        'ㅊ' => 14,
        'ㅋ' => 15,
        'ㅌ' => 16,
        'ㅍ' => 17,
        'ㅎ' => 18,
        _ => 0,
    }
}

/// Position of a medial in its table; 0 for a character that is no medial.
pub open spec fn medial_index(c: char) -> int {
    match c {
        'ㅏ' => 0,
        'ㅐ' => 1,
        'ㅑ' => 2,
        'ㅒ' => 3,
        'ㅓ' => 4,
        'ㅔ' => 5,
        'ㅕ' => 6,
        'ㅖ' => 7,
        'ㅗ' => 8,
        'ㅘ' => 9,
        'ㅙ' => 10,
        'ㅚ' => 11,
        'ㅛ' => 12,
        'ㅜ' => 13,
        'ㅝ' => 14,
        'ㅞ' => 15,
        'ㅟ' => 16,
        'ㅠ' => 17,
        'ㅡ' => 18,
        'ㅢ' => 19,
        'ㅣ' => 20,
        _ => 0,
    }
}

/// Position of a final in its table: 0 for a block without a final, and for a
/// character that is no final.
pub open spec fn final_index(f: Option<char>) -> int {
    match f {
        None => 0,
        Some(c) => match c {
            'ㄱ' => 1,
            'ㄲ' => 2,
            'ㄳ' => 3,
            'ㄴ' => 4,
            'ㄵ' => 5,
            'ㄶ' => 6,
            'ㄷ' => 7,
            'ㄹ' => 8,
            'ㄺ' => 9,
            'ㄻ' => 10,
            'ㄼ' => 11,
            'ㄽ' => 12,
            'ㄾ' => 13,
            'ㄿ' => 14,
            'ㅀ' => 15,
            'ㅁ' => 16,
            'ㅂ' => 17,
            'ㅄ' => 18,
            'ㅅ' => 19,
            'ㅆ' => 20,
            'ㅇ' => 21,
            'ㅈ' => 22,
            'ㅊ' => 23,
            'ㅋ' => 24,
            'ㅌ' => 25,
            'ㅍ' => 26,
            'ㅎ' => 27,
            _ => 0,
        },
    }
}

/// A composed syllable: a character in the block of 11172 code points that
/// starts at `S_BASE`.
pub open spec fn is_syllable(c: char) -> bool {
    S_BASE <= c as int && (c as int) < S_BASE + S_COUNT
}

/// A finished syllable: an initial, a vowel, and a final or none.
///
/// The fields are public, so a block made by hand may hold any characters;
/// `is_valid` says that each stands in the table of its position.
#[derive(Debug, PartialEq, Eq, Clone, Copy, Structural)]
pub struct HangulBlock {
    pub initial: char,
    pub vowel: char,
    pub final_optional: Option<char>,
}

impl HangulBlock {
    /// Each jamo of the block may stand where it stands.
    pub open spec fn spec_is_valid(&self) -> bool {
        &&& is_initial(self.initial)
        &&& is_medial(self.vowel)
        &&& (self.final_optional matches Some(f) ==> is_final(f))
    }

    /// Number of the block's syllable among the composed syllables.
    pub open spec fn syllable_index(&self) -> int {
        initial_index(self.initial) * N_COUNT + medial_index(self.vowel) * T_COUNT + final_index(
            self.final_optional,
        )
    }

    /// The composed character of a valid block.
    pub open spec fn composed(&self) -> char {
        (S_BASE + self.syllable_index()) as char
    }

    /// The block that a composed syllable decodes to.
    pub open spec fn decoded(c: char) -> HangulBlock {
        let s = c as int - S_BASE;
        HangulBlock {
            initial: initial_at(s / (N_COUNT as int)),
            vowel: medial_at((s % (N_COUNT as int)) / (T_COUNT as int)),
            final_optional: final_at(s % (T_COUNT as int)),
        }
    }

    /// Whether each jamo of the block may stand where it stands, which is
    /// what `to_char` asks of a block.
    #[verifier::when_used_as_spec(spec_is_valid)]
    pub fn is_valid(&self) -> (valid: bool)
        ensures
            valid == self.spec_is_valid(),
    {
        is_initial_jamo(self.initial) && is_medial_jamo(self.vowel) && match self.final_optional {
            Some(f) => is_final_jamo(f),
            None => true,
        }
    }

    /// Composes the block into its single character.
    pub fn to_char(&self) -> (c: char)
        requires
            self.is_valid(),
        ensures
            c == self.composed(),
            c as int == S_BASE + initial_index(self.initial) * N_COUNT + medial_index(self.vowel)
                * T_COUNT + final_index(self.final_optional),
            is_syllable(c),
    {
        let l_index: u32 = initial_index_of(self.initial);
        let v_index: u32 = medial_index_of(self.vowel);
        let t_index: u32 = match self.final_optional {
            Some(f) => final_index_of(f),
            None => 0,
        };
        let s_index: u32 = l_index * N_COUNT + v_index * T_COUNT + t_index;
        assert(is_scalar_value((S_BASE + s_index) as u32));
        match std::char::from_u32(S_BASE + s_index) {
            Some(c) => c,
            None => unreached(),
        }
    }

    /// Decodes a composed syllable into its block. A character outside the
    /// syllable range is an error.
    pub fn from_char(c: char) -> (decoded: Result<HangulBlock, String>)
        ensures
            is_syllable(c) ==> decoded == Ok::<HangulBlock, String>(HangulBlock::decoded(c)),
            is_syllable(c) ==> HangulBlock::decoded(c).is_valid() && HangulBlock::decoded(
                c,
            ).composed() == c,
            !is_syllable(c) ==> (decoded matches Err(e) && e@ == decode_error_text()),
    {
        let code: u32 = c as u32;
        if code < S_BASE || code >= S_BASE + S_COUNT {
            return Err("Cannot decode character: not a Hangul syllable block".to_string());
        }
        let s_index: u32 = code - S_BASE;
        proof {
            lemma_encode_decoded(c);
        }
        Ok(
            HangulBlock {
                initial: initial_jamo_at(s_index / N_COUNT),
                vowel: medial_jamo_at((s_index % N_COUNT) / T_COUNT),
                final_optional: final_jamo_at(s_index % T_COUNT),
            },
        )
    }
}

/// The message of the error that `from_char` returns.
pub open spec fn decode_error_text() -> Seq<char> {
    "Cannot decode character: not a Hangul syllable block"@
}

/// The composed characters of a run of blocks, in order.
pub open spec fn composed_text(blocks: Seq<HangulBlock>) -> Seq<char> {
    blocks.map_values(|b: HangulBlock| b.composed())
}

/// All blocks of a run are valid.
pub open spec fn all_valid(blocks: Seq<HangulBlock>) -> bool {
    forall|i: int| 0 <= i < blocks.len() ==> (#[trigger] blocks[i]).is_valid()
}

/// Each table lists the jamo of its position once: looking up the position of
/// a jamo and then the jamo at that position gives the jamo back, and the
/// other way round.
pub proof fn lemma_tables_inverse(c: char, i: int)
    ensures
        is_initial(c) ==> 0 <= initial_index(c) < L_COUNT && initial_at(initial_index(c)) == c,
        is_medial(c) ==> 0 <= medial_index(c) < V_COUNT && medial_at(medial_index(c)) == c,
        is_final(c) ==> 1 <= final_index(Some(c)) < T_COUNT && final_at(final_index(Some(c)))
            == Some(c),
        0 <= i < L_COUNT ==> is_initial(initial_at(i)) && initial_index(initial_at(i)) == i,
        0 <= i < V_COUNT ==> is_medial(medial_at(i)) && medial_index(medial_at(i)) == i,
        1 <= i < T_COUNT ==> (final_at(i) matches Some(f) && is_final(f)) && final_index(
            final_at(i),
        ) == i,
        final_at(0) is None,
        final_index(None) == 0,
{
}

/// A run of valid blocks stays one when a valid block is appended.
pub proof fn lemma_all_valid_push(blocks: Seq<HangulBlock>, block: HangulBlock)
    requires
        all_valid(blocks),
        block.is_valid(),
    ensures
        all_valid(blocks.push(block)),
{
    let longer = blocks.push(block);
    assert forall|k: int| 0 <= k < longer.len() implies (#[trigger] longer[k]).is_valid() by {
        if k < blocks.len() {
            assert(longer[k] == blocks[k]);
        }
    }
}

/// A syllable index splits into its three positions in one way only.
proof fn lemma_positions_unique(l: int, v: int, t: int)
    requires
        0 <= l < 19,
        0 <= v < 21,
        0 <= t < 28,
    ensures
        0 <= l * 588 + v * 28 + t < 11172,
        (l * 588 + v * 28 + t) / 588 == l,
        ((l * 588 + v * 28 + t) % 588) / 28 == v,
        (l * 588 + v * 28 + t) % 28 == t,
{
}

/// The three positions that a syllable index splits into are within their
/// tables, and make up the index.
proof fn lemma_positions_of_index(s: int)
    requires
        0 <= s < 11172,
    ensures
        0 <= s / 588 < 19,
        0 <= (s % 588) / 28 < 21,
        0 <= s % 28 < 28,
        s == (s / 588) * 588 + ((s % 588) / 28) * 28 + s % 28,
{
}

/// Composing a valid block gives a syllable, and decoding that syllable gives
/// the block back.
pub proof fn lemma_decode_composed(block: HangulBlock)
    requires
        block.is_valid(),
    ensures
        0 <= block.syllable_index() < S_COUNT,
        is_syllable(block.composed()),
        block.composed() as int == S_BASE + block.syllable_index(),
        HangulBlock::decoded(block.composed()) == block,
{
    let l = initial_index(block.initial);
    let v = medial_index(block.vowel);
    let t = final_index(block.final_optional);
    assert(0 <= l < 19 && initial_at(l) == block.initial) by {
        lemma_tables_inverse(block.initial, 0);
    }
    assert(0 <= v < 21 && medial_at(v) == block.vowel) by {
        lemma_tables_inverse(block.vowel, 0);
    }
    assert(0 <= t < 28 && final_at(t) == block.final_optional) by {
        match block.final_optional {
            Some(f) => lemma_tables_inverse(f, 0),
            None => lemma_tables_inverse('ㄱ', 0),
        }
    }
    let s = l * 588 + v * 28 + t;
    lemma_positions_unique(l, v, t);
    assert(block.syllable_index() == s);
    let c = block.composed();
    assert(c as int == 0xAC00 + s);
    assert(c as int - S_BASE == s);
    let back = HangulBlock::decoded(c);
    assert(back.initial == initial_at(s / 588));
    assert(back.vowel == medial_at((s % 588) / 28));
    assert(back.final_optional == final_at(s % 28));
}

/// Decoding a syllable gives a valid block, and composing that block gives
/// the syllable back.
pub proof fn lemma_encode_decoded(c: char)
    requires
        is_syllable(c),
    ensures
        HangulBlock::decoded(c).is_valid(),
        HangulBlock::decoded(c).composed() == c,
{
    let s = c as int - 0xAC00;
    let l = s / 588;
    let v = (s % 588) / 28;
    let t = s % 28;
    lemma_positions_of_index(s);
    let block = HangulBlock::decoded(c);
    assert(is_initial(block.initial) && initial_index(block.initial) == l) by {
        lemma_tables_inverse('ㄱ', l);
    }
    assert(is_medial(block.vowel) && medial_index(block.vowel) == v) by {
        lemma_tables_inverse('ㄱ', v);
    }
    assert((block.final_optional matches Some(f) ==> is_final(f)) && final_index(
        block.final_optional,
    ) == t) by {
        lemma_tables_inverse('ㄱ', t);
    }
    assert(block.syllable_index() == s);
}

/// Whether a character is one of the nineteen initials.
pub fn is_initial_jamo(c: char) -> (b: bool)
    ensures
        b == is_initial(c),
{
    match c {
        'ㄱ' | 'ㄲ' | 'ㄴ' | 'ㄷ' | 'ㄸ' | 'ㄹ' | 'ㅁ' | 'ㅂ' | 'ㅃ' | 'ㅅ' | 'ㅆ' | 'ㅇ' | 'ㅈ' | 'ㅉ' | 'ㅊ' | 'ㅋ' | 'ㅌ' | 'ㅍ' | 'ㅎ' => true,
        _ => false,
    }
}

/// Whether a character is one of the twenty-one medials.
pub fn is_medial_jamo(c: char) -> (b: bool)
    ensures
        b == is_medial(c),
{
    match c {
        'ㅏ' | 'ㅐ' | 'ㅑ' | 'ㅒ' | 'ㅓ' | 'ㅔ' | 'ㅕ' | 'ㅖ' | 'ㅗ' | 'ㅘ' | 'ㅙ' | 'ㅚ' | 'ㅛ' | 'ㅜ' | 'ㅝ' | 'ㅞ' | 'ㅟ' | 'ㅠ' | 'ㅡ' | 'ㅢ' | 'ㅣ' => true,
        _ => false,
    }
}

/// Whether a character is one of the twenty-seven finals.
pub fn is_final_jamo(c: char) -> (b: bool)
    ensures
        b == is_final(c),
{
    match c {
        'ㄱ' | 'ㄲ' | 'ㄳ' | 'ㄴ' | 'ㄵ' | 'ㄶ' | 'ㄷ' | 'ㄹ' | 'ㄺ' | 'ㄻ' | 'ㄼ' | 'ㄽ' | 'ㄾ' | 'ㄿ' | 'ㅀ' | 'ㅁ' | 'ㅂ' | 'ㅄ' | 'ㅅ' | 'ㅆ' | 'ㅇ' | 'ㅈ' | 'ㅊ' | 'ㅋ' | 'ㅌ' | 'ㅍ' | 'ㅎ' => true,
        _ => false,
    }
}

fn initial_index_of(c: char) -> (i: u32)
    requires
        is_initial(c),
    ensures
        i == initial_index(c),
        i < L_COUNT,
{
    match c {
        'ㄱ' => 0,
        'ㄲ' => 1,
        'ㄴ' => 2,
        'ㄷ' => 3,
        'ㄸ' => 4,
        'ㄹ' => 5,
        'ㅁ' => 6,
        'ㅂ' => 7,
        'ㅃ' => 8,
        'ㅅ' => 9,
        'ㅆ' => 10,
        'ㅇ' => 11,
        'ㅈ' => 12,
        'ㅉ' => 13,
        'ㅊ' => 14,
        'ㅋ' => 15,
        'ㅌ' => 16,
        'ㅍ' => 17,
        _ => 18,
    }
}

fn medial_index_of(c: char) -> (i: u32)
    requires
        is_medial(c),
    ensures
        i == medial_index(c),
        i < V_COUNT,
{
    let code: u32 = c as u32;
    code - 0x314F
}

fn final_index_of(c: char) -> (i: u32)
    requires
        is_final(c),
    ensures
        i == final_index(Some(c)),
        1 <= i < T_COUNT,
{
    match c {
        'ㄱ' => 1,
        'ㄲ' => 2,
        'ㄳ' => 3,
        'ㄴ' => 4,
        'ㄵ' => 5,
        'ㄶ' => 6,
        'ㄷ' => 7,
        'ㄹ' => 8,
        'ㄺ' => 9,
        'ㄻ' => 10,
        'ㄼ' => 11,
        'ㄽ' => 12,
        'ㄾ' => 13,
        'ㄿ' => 14,
        'ㅀ' => 15,
        'ㅁ' => 16,
        'ㅂ' => 17,
        'ㅄ' => 18,
        'ㅅ' => 19,
        'ㅆ' => 20,
        'ㅇ' => 21,
        'ㅈ' => 22,
        'ㅊ' => 23,
        'ㅋ' => 24,
        'ㅌ' => 25,
        'ㅍ' => 26,
        _ => 27,
    }
}

fn initial_jamo_at(i: u32) -> (c: char)
    requires
        i < L_COUNT,
    ensures
        c == initial_at(i as int),
{
    match i {
        0 => 'ㄱ',
        1 => 'ㄲ',
        2 => 'ㄴ',
        3 => 'ㄷ',
        4 => 'ㄸ',
        5 => 'ㄹ',
        6 => 'ㅁ',
        7 => 'ㅂ',
        8 => 'ㅃ',
        9 => 'ㅅ',
        10 => 'ㅆ',
        11 => 'ㅇ',
        12 => 'ㅈ',
        13 => 'ㅉ',
        14 => 'ㅊ',
        15 => 'ㅋ',
        16 => 'ㅌ',
        17 => 'ㅍ',
        _ => 'ㅎ',
    }
}

fn medial_jamo_at(i: u32) -> (c: char)
    requires
        i < V_COUNT,
    ensures
        c == medial_at(i as int),
{
    assert(is_scalar_value((0x314F + i) as u32));
    match std::char::from_u32(0x314F + i) {
        Some(c) => c,
        None => unreached(),
    }
}

fn final_jamo_at(i: u32) -> (f: Option<char>)
    requires
        i < T_COUNT,
    ensures
        f == final_at(i as int),
{
    match i {
        0 => None,
        1 => Some('ㄱ'),
        2 => Some('ㄲ'),
        3 => Some('ㄳ'),
        4 => Some('ㄴ'),
        5 => Some('ㄵ'),
        6 => Some('ㄶ'),
        7 => Some('ㄷ'),
        8 => Some('ㄹ'),
        9 => Some('ㄺ'),
        10 => Some('ㄻ'),
        11 => Some('ㄼ'),
        12 => Some('ㄽ'),
        13 => Some('ㄾ'),
        14 => Some('ㄿ'),
        15 => Some('ㅀ'),
        16 => Some('ㅁ'),
        17 => Some('ㅂ'),
        18 => Some('ㅄ'),
        19 => Some('ㅅ'),
        20 => Some('ㅆ'),
        21 => Some('ㅇ'),
        22 => Some('ㅈ'),
        23 => Some('ㅊ'),
        24 => Some('ㅋ'),
        25 => Some('ㅌ'),
        26 => Some('ㅍ'),
        _ => Some('ㅎ'),
    }
}

/// The message of the error for a block that holds a character outside the
/// table of its position, and so has no composed character.
pub open spec fn encode_error_text() -> Seq<char> {
    "Error converting block to char"@
}

/// Composes each block of a run and joins the characters into one string.
/// A block that is not valid is an error.
pub fn hangul_blocks_vec_to_string(blocks: &Vec<HangulBlock>) -> (text: Result<String, String>)
    ensures
        all_valid(blocks@) ==> (text matches Ok(s) && s@ == composed_text(blocks@)),
        !all_valid(blocks@) ==> (text matches Err(e) && e@ == encode_error_text()),
{
    let mut text = String::new();
    let mut i: usize = 0;
    while i < blocks.len()
        invariant
            i <= blocks.len(),
            all_valid(blocks@.subrange(0, i as int)),
            text@ == composed_text(blocks@.subrange(0, i as int)),
        decreases blocks.len() - i,
    {
        if !blocks[i].is_valid() {
            return Err("Error converting block to char".to_string());
        }
        let c = blocks[i].to_char();
        text.push(c);
        proof {
            assert(blocks@.subrange(0, i + 1) == blocks@.subrange(0, i as int).push(
                blocks@[i as int],
            ));
        }
        i = i + 1;
    }
    proof {
        assert(blocks@.subrange(0, i as int) == blocks@);
    }
    Ok(text)
}

} // verus!
