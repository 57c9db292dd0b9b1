//! Jamo classes, classified letters, and the tables that say which jamo fuse.
//!
//! All characters here are Hangul compatibility jamo (U+3131 to U+3163).
//! Archaic jamo belong to no class and are reported as non-Hangul.

use vstd::prelude::*;
use crate::std_specs::{char_debug, char_debug_text};

verus! {

/// The fourteen plain consonants.
pub open spec fn is_consonant(c: char) -> bool {
    c == 'ㄱ' || c == 'ㄴ' || c == 'ㄷ' || c == 'ㄹ' || c == 'ㅁ' || c == 'ㅂ' || c == 'ㅅ'
        || c == 'ㅇ' || c == 'ㅈ' || c == 'ㅊ' || c == 'ㅋ' || c == 'ㅌ' || c == 'ㅍ' || c == 'ㅎ'
}

/// The five double consonants, the only composite consonants that may open a block.
pub open spec fn is_double_initial(c: char) -> bool {
    c == 'ㄲ' || c == 'ㄸ' || c == 'ㅃ' || c == 'ㅆ' || c == 'ㅉ'
}

/// The thirteen composite consonants that may close a block.
pub open spec fn is_composite_final(c: char) -> bool {
    c == 'ㄲ' || c == 'ㄳ' || c == 'ㄵ' || c == 'ㄶ' || c == 'ㄺ' || c == 'ㄻ' || c == 'ㄼ'
        || c == 'ㄽ' || c == 'ㄾ' || c == 'ㄿ' || c == 'ㅀ' || c == 'ㅄ' || c == 'ㅆ'
}

/// The sixteen composite consonants: every double initial and every composite final.
pub open spec fn is_composite_consonant(c: char) -> bool {
    is_double_initial(c) || is_composite_final(c)
}

/// The fourteen plain vowels.
pub open spec fn is_vowel(c: char) -> bool {
    c == 'ㅏ' || c == 'ㅐ' || c == 'ㅑ' || c == 'ㅒ' || c == 'ㅓ' || c == 'ㅔ' || c == 'ㅕ'
        || c == 'ㅖ' || c == 'ㅗ' || c == 'ㅛ' || c == 'ㅜ' || c == 'ㅠ' || c == 'ㅡ' || c == 'ㅣ'
}

/// The seven composite vowels.
pub open spec fn is_composite_vowel(c: char) -> bool {
    c == 'ㅘ' || c == 'ㅙ' || c == 'ㅚ' || c == 'ㅝ' || c == 'ㅞ' || c == 'ㅟ' || c == 'ㅢ'
}

/// The double consonant that `c1` followed by `c2` fuses into: defined for a
/// doubling consonant followed by itself and for nothing else.
pub open spec fn doubled_consonant(c1: char, c2: char) -> Option<char> {
    match (c1, c2) {
        ('ㄱ', 'ㄱ') => Some('ㄲ'),
        ('ㄷ', 'ㄷ') => Some('ㄸ'),
        ('ㅂ', 'ㅂ') => Some('ㅃ'),
        ('ㅅ', 'ㅅ') => Some('ㅆ'),
        ('ㅈ', 'ㅈ') => Some('ㅉ'),
        _ => None,
    }
}

/// The composite final that the final `c1`, already in place, fuses into when
/// `c2` follows it. Order matters.
pub open spec fn fused_final(c1: char, c2: char) -> Option<char> {
    match (c1, c2) {
        ('ㄱ', 'ㄱ') => Some('ㄲ'),
        ('ㄱ', 'ㅅ') => Some('ㄳ'),
        ('ㄴ', 'ㅈ') => Some('ㄵ'),
        ('ㄴ', 'ㅎ') => Some('ㄶ'),
        ('ㄹ', 'ㄱ') => Some('ㄺ'),
        ('ㄹ', 'ㅁ') => Some('ㄻ'),
        ('ㄹ', 'ㅂ') => Some('ㄼ'),
        ('ㄹ', 'ㅅ') => Some('ㄽ'),
        ('ㄹ', 'ㅌ') => Some('ㄾ'),
        ('ㄹ', 'ㅍ') => Some('ㄿ'),
        ('ㄹ', 'ㅎ') => Some('ㅀ'),
        ('ㅂ', 'ㅅ') => Some('ㅄ'),
        ('ㅅ', 'ㅅ') => Some('ㅆ'),
        _ => None,
    }
}

/// The composite vowel that the vowel `v1`, already in place, fuses into when
/// `v2` follows it. Order matters.
pub open spec fn fused_vowel(v1: char, v2: char) -> Option<char> {
    match (v1, v2) {
        ('ㅗ', 'ㅏ') => Some('ㅘ'),
        ('ㅗ', 'ㅐ') => Some('ㅙ'),
        ('ㅗ', 'ㅣ') => Some('ㅚ'),
        ('ㅜ', 'ㅓ') => Some('ㅝ'),
        ('ㅜ', 'ㅔ') => Some('ㅞ'),
        ('ㅜ', 'ㅣ') => Some('ㅟ'),
        ('ㅡ', 'ㅣ') => Some('ㅢ'),
        _ => None,
    }
}

/// One character, tagged as a jamo of the script or as something else.
#[derive(Debug, PartialEq, Eq, Clone, Copy, Structural)]
pub enum Letter {
    NonHangul(char),
    Hangul(HangulLetter),
}

/// One jamo, tagged with its class.
#[derive(Debug, PartialEq, Eq, Clone, Copy, Structural)]
pub enum HangulLetter {
    Consonant(char),
    CompositeConsonant(char),
    Vowel(char),
    CompositeVowel(char),
}

impl HangulLetter {
    /// The character that the letter wraps.
    pub open spec fn spec_get_char(&self) -> char {
        match *self {
            HangulLetter::Consonant(c) => c,
            HangulLetter::CompositeConsonant(c) => c,
            HangulLetter::Vowel(c) => c,
            HangulLetter::CompositeVowel(c) => c,
        }
    }

    /// The wrapped character belongs to the class that the tag names.
    /// The variants are public, so a letter made by hand need not be well formed;
    /// every letter that `determine_hangul` returns is.
    pub open spec fn is_well_formed(&self) -> bool {
        match *self {
            HangulLetter::Consonant(c) => is_consonant(c),
            HangulLetter::CompositeConsonant(c) => is_composite_consonant(c),
            HangulLetter::Vowel(c) => is_vowel(c),
            HangulLetter::CompositeVowel(c) => is_composite_vowel(c),
        }
    }

    /// The letter may open a block: a plain consonant or a double consonant.
    pub open spec fn is_block_initial(&self) -> bool {
        match *self {
            HangulLetter::Consonant(c) => is_consonant(c),
            HangulLetter::CompositeConsonant(c) => is_double_initial(c),
            _ => false,
        }
    }

    /// The name of the letter's class, as written in its text.
    pub open spec fn class_name(&self) -> Seq<char> {
        match *self {
            HangulLetter::Consonant(_) => "Consonant"@,
            HangulLetter::CompositeConsonant(_) => "CompositeConsonant"@,
            HangulLetter::Vowel(_) => "Vowel"@,
            HangulLetter::CompositeVowel(_) => "CompositeVowel"@,
        }
    }

    /// The text of the letter around a given text of its character: the class
    /// name, then that text in round brackets.
    pub open spec fn text_around(&self, quoted: Seq<char>) -> Seq<char> {
        self.class_name() + "("@ + quoted + ")"@
    }

    /// The text of the letter: the class name, then in round brackets the
    /// character as `std` prints it under `{:?}`.
    pub open spec fn debug_text(&self) -> Seq<char> {
        self.text_around(char_debug_text(self.spec_get_char()))
    }

    /// Writes the letter around a given text of its character.
    pub fn debug_string_around(&self, quoted: &str) -> (text: String)
        ensures
            text@ == self.text_around(quoted@),
    {
        let mut text = match self {
            HangulLetter::Consonant(_) => "Consonant".to_string(),
            HangulLetter::CompositeConsonant(_) => "CompositeConsonant".to_string(),
            HangulLetter::Vowel(_) => "Vowel".to_string(),
            HangulLetter::CompositeVowel(_) => "CompositeVowel".to_string(),
        };
        text.append("(");
        text.append(quoted);
        text.append(")");
        text
    }

    /// Writes the letter as it appears in error messages, for example
    /// `Vowel('ㅏ')`.
    pub fn debug_string(&self) -> (text: String)
        ensures
            text@ == self.debug_text(),
    {
        let quoted = char_debug(self.get_char());
        self.debug_string_around(quoted.as_str())
    }

    #[verifier::when_used_as_spec(spec_get_char)]
    pub fn get_char(&self) -> (c: char)
        ensures
            c == self.spec_get_char(),
    {
        match self {
            HangulLetter::Consonant(c)
            | HangulLetter::CompositeConsonant(c)
            | HangulLetter::Vowel(c)
            | HangulLetter::CompositeVowel(c) => *c,
        }
    }
}

/// What `determine_hangul` makes of a character: the letter of the one class
/// that holds it, or `NonHangul`.
pub open spec fn classified(c: char) -> Letter {
    if is_consonant(c) {
        Letter::Hangul(HangulLetter::Consonant(c))
    } else if is_vowel(c) {
        Letter::Hangul(HangulLetter::Vowel(c))
    } else if is_composite_consonant(c) {
        Letter::Hangul(HangulLetter::CompositeConsonant(c))
    } else if is_composite_vowel(c) {
        Letter::Hangul(HangulLetter::CompositeVowel(c))
    } else {
        Letter::NonHangul(c)
    }
}

/// The four classes are disjoint, so a character has at most one well-formed letter.
pub proof fn lemma_classes_disjoint(c: char)
    ensures
        !(is_consonant(c) && is_composite_consonant(c)),
        !(is_consonant(c) && is_vowel(c)),
        !(is_consonant(c) && is_composite_vowel(c)),
        !(is_composite_consonant(c) && is_vowel(c)),
        !(is_composite_consonant(c) && is_composite_vowel(c)),
        !(is_vowel(c) && is_composite_vowel(c)),
{
}

/// A well-formed letter is the classification of its own character, and the
/// classification of a character is either a well-formed letter wrapping that
/// character or `NonHangul` of it.
pub proof fn lemma_classified_well_formed(c: char, letter: HangulLetter)
    ensures
        letter.is_well_formed() ==> classified(letter.spec_get_char()) == Letter::Hangul(letter),
        classified(c) == Letter::Hangul(letter) ==> letter.is_well_formed()
            && letter.spec_get_char() == c,
        classified(c) is NonHangul ==> classified(c) == Letter::NonHangul(c),
{
}

/// Fusion only ever joins plain jamo, and what comes out belongs to the class
/// that its position needs: a doubled consonant is a double initial made of
/// one consonant twice, a fused final is a composite final, a fused vowel is a
/// composite vowel.
pub proof fn lemma_fusion_classes(a: char, b: char)
    ensures
        doubled_consonant(a, b) matches Some(d) ==> a == b && is_consonant(a)
            && is_double_initial(d),
        fused_final(a, b) matches Some(f) ==> is_consonant(a) && is_consonant(b)
            && is_composite_final(f),
        fused_vowel(a, b) matches Some(v) ==> is_vowel(a) && is_vowel(b) && is_composite_vowel(v),
{
}

/// Every double initial is some consonant doubled, every composite final and
/// every composite vowel is the fusion of some pair.
pub proof fn lemma_composites_are_fusions(c: char)
    ensures
        is_double_initial(c) ==> exists|a: char| doubled_consonant(a, a) == Some(c),
        is_composite_final(c) ==> exists|a: char, b: char| fused_final(a, b) == Some(c),
        is_composite_vowel(c) ==> exists|a: char, b: char| fused_vowel(a, b) == Some(c),
{
    if is_double_initial(c) {
        assert(doubled_consonant('ㄱ', 'ㄱ') == Some('ㄲ'));
        assert(doubled_consonant('ㄷ', 'ㄷ') == Some('ㄸ'));
        assert(doubled_consonant('ㅂ', 'ㅂ') == Some('ㅃ'));
        assert(doubled_consonant('ㅅ', 'ㅅ') == Some('ㅆ'));
        assert(doubled_consonant('ㅈ', 'ㅈ') == Some('ㅉ'));
    }
    if is_composite_final(c) {
        assert(fused_final('ㄱ', 'ㄱ') == Some('ㄲ'));
        assert(fused_final('ㄱ', 'ㅅ') == Some('ㄳ'));
        assert(fused_final('ㄴ', 'ㅈ') == Some('ㄵ'));
        assert(fused_final('ㄴ', 'ㅎ') == Some('ㄶ'));
        assert(fused_final('ㄹ', 'ㄱ') == Some('ㄺ'));
        assert(fused_final('ㄹ', 'ㅁ') == Some('ㄻ'));
        assert(fused_final('ㄹ', 'ㅂ') == Some('ㄼ'));
        assert(fused_final('ㄹ', 'ㅅ') == Some('ㄽ'));
        assert(fused_final('ㄹ', 'ㅌ') == Some('ㄾ'));
        assert(fused_final('ㄹ', 'ㅍ') == Some('ㄿ'));
        assert(fused_final('ㄹ', 'ㅎ') == Some('ㅀ'));
        assert(fused_final('ㅂ', 'ㅅ') == Some('ㅄ'));
        assert(fused_final('ㅅ', 'ㅅ') == Some('ㅆ'));
    }
    if is_composite_vowel(c) {
        assert(fused_vowel('ㅗ', 'ㅏ') == Some('ㅘ'));
        assert(fused_vowel('ㅗ', 'ㅐ') == Some('ㅙ'));
        assert(fused_vowel('ㅗ', 'ㅣ') == Some('ㅚ'));
        assert(fused_vowel('ㅜ', 'ㅓ') == Some('ㅝ'));
        assert(fused_vowel('ㅜ', 'ㅔ') == Some('ㅞ'));
        assert(fused_vowel('ㅜ', 'ㅣ') == Some('ㅟ'));
        assert(fused_vowel('ㅡ', 'ㅣ') == Some('ㅢ'));
    }
}

/// Fuses two plain consonants into a double consonant, where they fuse.
pub fn consonant_doubles(c1: char, c2: char) -> (fused: Option<char>)
    ensures
        fused == doubled_consonant(c1, c2),
{
    match (c1, c2) {
        ('ㄱ', 'ㄱ') => Some('ㄲ'),
        ('ㄷ', 'ㄷ') => Some('ㄸ'),
        ('ㅂ', 'ㅂ') => Some('ㅃ'),
        ('ㅅ', 'ㅅ') => Some('ㅆ'),
        ('ㅈ', 'ㅈ') => Some('ㅉ'),
        _ => None,
    }
}

/// Fuses the final `c1` of a block with the consonant `c2` that follows it,
/// where they fuse.
pub fn composite_final(c1: char, c2: char) -> (fused: Option<char>)
    ensures
        fused == fused_final(c1, c2),
{
    match (c1, c2) {
        ('ㄱ', 'ㄱ') => Some('ㄲ'),
        ('ㄴ', 'ㅈ') => Some('ㄵ'),
        ('ㄹ', 'ㄱ') => Some('ㄺ'),
        ('ㅂ', 'ㅅ') => Some('ㅄ'),
        ('ㅅ', 'ㅅ') => Some('ㅆ'),
        ('ㄱ', 'ㅅ') => Some('ㄳ'),
        ('ㄴ', 'ㅎ') => Some('ㄶ'),
        ('ㄹ', 'ㅁ') => Some('ㄻ'),
        ('ㄹ', 'ㅂ') => Some('ㄼ'),
        ('ㄹ', 'ㅅ') => Some('ㄽ'),
        ('ㄹ', 'ㅌ') => Some('ㄾ'),
        ('ㄹ', 'ㅍ') => Some('ㄿ'),
        ('ㄹ', 'ㅎ') => Some('ㅀ'),
        _ => None,
    }
}

/// Fuses the vowel `v1` of a block with the vowel `v2` that follows it, where
/// they fuse.
pub fn composite_vowel(v1: char, v2: char) -> (fused: Option<char>)
    ensures
        fused == fused_vowel(v1, v2),
{
    match (v1, v2) {
        ('ㅗ', 'ㅏ') => Some('ㅘ'),
        ('ㅗ', 'ㅐ') => Some('ㅙ'),
        ('ㅗ', 'ㅣ') => Some('ㅚ'),
        ('ㅜ', 'ㅓ') => Some('ㅝ'),
        ('ㅜ', 'ㅔ') => Some('ㅞ'),
        ('ㅜ', 'ㅣ') => Some('ㅟ'),
        ('ㅡ', 'ㅣ') => Some('ㅢ'),
        _ => None,
    }
}

/// Whether a composite consonant may open a block.
pub fn is_valid_double_initial(c: char) -> (valid: bool)
    ensures
        valid == is_double_initial(c),
{
    match c {
        'ㄲ' | 'ㄸ' | 'ㅃ' | 'ㅆ' | 'ㅉ' => true,
        _ => false,
    }
}

/// Whether a composite consonant may close a block.
pub fn is_valid_composite_final(c: char) -> (valid: bool)
    ensures
        valid == is_composite_final(c),
{
    match c {
        'ㄲ' | 'ㄵ' | 'ㄺ' | 'ㅄ' | 'ㅆ' | 'ㄳ' | 'ㄶ' | 'ㄻ' | 'ㄼ' | 'ㄽ' | 'ㄾ' | 'ㄿ' | 'ㅀ' => true,
        _ => false,
    }
}

/// Classifies a character as a letter of one of the four jamo classes, or as
/// `NonHangul`. Archaic and non-standard jamo are `NonHangul`.
pub fn determine_hangul(c: char) -> (letter: Letter)
    ensures
        letter == classified(c),
        is_consonant(c) ==> letter == Letter::Hangul(HangulLetter::Consonant(c)),
        is_composite_consonant(c) ==> letter == Letter::Hangul(
            HangulLetter::CompositeConsonant(c),
        ),
        is_vowel(c) ==> letter == Letter::Hangul(HangulLetter::Vowel(c)),
        is_composite_vowel(c) ==> letter == Letter::Hangul(HangulLetter::CompositeVowel(c)),
        !is_consonant(c) && !is_composite_consonant(c) && !is_vowel(c) && !is_composite_vowel(c)
            ==> letter == Letter::NonHangul(c),
        letter matches Letter::Hangul(l) ==> l.is_well_formed() && l.spec_get_char() == c,
{
    match c {
        'ㅂ' | 'ㅈ' | 'ㄷ' | 'ㄱ' | 'ㅅ' | 'ㅁ' | 'ㄴ' | 'ㅇ' | 'ㄹ' | 'ㅎ' | 'ㅋ' | 'ㅌ' | 'ㅊ' | 'ㅍ' => {
            Letter::Hangul(HangulLetter::Consonant(c))
        },
        'ㅛ' | 'ㅕ' | 'ㅑ' | 'ㅐ' | 'ㅔ' | 'ㅒ' | 'ㅖ' | 'ㅗ' | 'ㅓ' | 'ㅏ' | 'ㅣ' | 'ㅠ' | 'ㅜ' | 'ㅡ' => {
            Letter::Hangul(HangulLetter::Vowel(c))
        },
        'ㄲ' | 'ㄸ' | 'ㅃ' | 'ㅆ' | 'ㅉ' | 'ㄵ' | 'ㄺ' | 'ㅄ' | 'ㄳ' | 'ㄶ' | 'ㄻ' | 'ㄼ' | 'ㄽ' | 'ㄾ' | 'ㄿ' | 'ㅀ' => {
            Letter::Hangul(HangulLetter::CompositeConsonant(c))
        },
        'ㅘ' | 'ㅙ' | 'ㅚ' | 'ㅝ' | 'ㅞ' | 'ㅟ' | 'ㅢ' => {
            Letter::Hangul(HangulLetter::CompositeVowel(c))
        },
        _ => Letter::NonHangul(c),
    }
}

} // verus!
