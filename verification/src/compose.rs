//! The block composition state machine and the word composer around it.
//!
//! A word is composed one letter at a time. The live block takes a letter
//! where the letter extends it, and otherwise says, without looking ahead,
//! whether the letter belongs to the next block or cannot stand here at all.
//! Finishing the live block and opening the next one is a step of its own,
//! which the caller takes on that signal.

use vstd::prelude::*;
use crate::block::{
    all_valid, composed_text, encode_error_text, hangul_blocks_vec_to_string, is_initial,
    is_medial, lemma_all_valid_push, HangulBlock,
};
use crate::chars::{
    classified, composite_final, composite_vowel, consonant_doubles, determine_hangul,
    doubled_consonant, fused_final, fused_vowel, is_composite_final, is_composite_vowel,
    is_consonant, is_double_initial, is_valid_composite_final, is_valid_double_initial, is_vowel,
    HangulLetter, Letter,
};

verus! {

/// The block in progress: seven shapes, ordered by how much of a block they hold.
#[derive(Debug, PartialEq, Eq, Clone, Copy, Structural)]
pub enum BlockCompositionState {
    /// Nothing yet: waiting for the first consonant.
    ExpectingInitial,
    /// A plain initial, which may still double: ㄷ, then ㄸ or 다.
    ExpectingDoubleInitialOrVowel(char),
    /// A double initial: ㄸ, then 따.
    ExpectingVowel(char),
    /// An initial and a plain vowel, which may still fuse: 두, then 둬 or 둔.
    ExpectingCompositeVowelOrFinal(char, char),
    /// An initial and a composite vowel: 둬, then 둴.
    ExpectingFinal(char, char),
    /// An initial, a vowel and a plain final, which may still fuse: 달, then 닳 or 다래.
    ExpectingCompositeFinalOrNextBlock(char, char, char),
    /// An initial, a vowel and a composite final: 닳, then the next block.
    ExpectingNextBlock(char, char, char),
}

/// What the composer makes of one letter.
#[derive(Debug, PartialEq, Eq, Clone, Copy, Structural)]
pub enum WordCompositionState {
    /// The letter was taken into the live block.
    Composable,
    /// The live block cannot take the letter; it belongs to the next block.
    StartNewBlock(HangulLetter),
    /// The letter cannot stand at this place.
    InvalidHangul(HangulLetter),
    /// The character is no jamo.
    NonHangul(char),
}

impl BlockCompositionState {
    /// Place of the shape in the order of the seven shapes.
    pub open spec fn rank(self) -> nat {
        match self {
            BlockCompositionState::ExpectingInitial => 0,
            BlockCompositionState::ExpectingDoubleInitialOrVowel(_) => 1,
            BlockCompositionState::ExpectingVowel(_) => 2,
            BlockCompositionState::ExpectingCompositeVowelOrFinal(_, _) => 3,
            BlockCompositionState::ExpectingFinal(_, _) => 4,
            BlockCompositionState::ExpectingCompositeFinalOrNextBlock(_, _, _) => 5,
            BlockCompositionState::ExpectingNextBlock(_, _, _) => 6,
        }
    }

    /// How many of the three positions of a block are filled.
    pub open spec fn filled(self) -> nat {
        match self {
            BlockCompositionState::ExpectingInitial => 0,
            BlockCompositionState::ExpectingDoubleInitialOrVowel(_) => 1,
            BlockCompositionState::ExpectingVowel(_) => 1,
            BlockCompositionState::ExpectingCompositeVowelOrFinal(_, _) => 2,
            BlockCompositionState::ExpectingFinal(_, _) => 2,
            BlockCompositionState::ExpectingCompositeFinalOrNextBlock(_, _, _) => 3,
            BlockCompositionState::ExpectingNextBlock(_, _, _) => 3,
        }
    }

    /// The initial, once there is one.
    pub open spec fn initial(self) -> Option<char> {
        match self {
            BlockCompositionState::ExpectingInitial => None,
            BlockCompositionState::ExpectingDoubleInitialOrVowel(i) => Some(i),
            BlockCompositionState::ExpectingVowel(i) => Some(i),
            BlockCompositionState::ExpectingCompositeVowelOrFinal(i, _) => Some(i),
            BlockCompositionState::ExpectingFinal(i, _) => Some(i),
            BlockCompositionState::ExpectingCompositeFinalOrNextBlock(i, _, _) => Some(i),
            BlockCompositionState::ExpectingNextBlock(i, _, _) => Some(i),
        }
    }

    /// The block that the shape holds, once it has an initial and a vowel.
    pub open spec fn block(self) -> Option<HangulBlock> {
        match self {
            BlockCompositionState::ExpectingCompositeVowelOrFinal(i, v) => Some(
                HangulBlock { initial: i, vowel: v, final_optional: None },
            ),
            BlockCompositionState::ExpectingFinal(i, v) => Some(
                HangulBlock { initial: i, vowel: v, final_optional: None },
            ),
            BlockCompositionState::ExpectingCompositeFinalOrNextBlock(i, v, f) => Some(
                HangulBlock { initial: i, vowel: v, final_optional: Some(f) },
            ),
            BlockCompositionState::ExpectingNextBlock(i, v, f) => Some(
                HangulBlock { initial: i, vowel: v, final_optional: Some(f) },
            ),
            _ => None,
        }
    }

    /// Every jamo of the shape is of the kind that the shape's name says.
    pub open spec fn is_well_formed(self) -> bool {
        match self {
            BlockCompositionState::ExpectingInitial => true,
            BlockCompositionState::ExpectingDoubleInitialOrVowel(i) => is_consonant(i),
            BlockCompositionState::ExpectingVowel(i) => is_double_initial(i),
            BlockCompositionState::ExpectingCompositeVowelOrFinal(i, v) => is_initial(i)
                && is_vowel(v),
            BlockCompositionState::ExpectingFinal(i, v) => is_initial(i) && is_composite_vowel(v),
            BlockCompositionState::ExpectingCompositeFinalOrNextBlock(i, v, f) => is_initial(i)
                && is_medial(v) && is_consonant(f),
            BlockCompositionState::ExpectingNextBlock(i, v, f) => is_initial(i) && is_medial(v)
                && is_composite_final(f),
        }
    }

    /// The shape can be shown: it holds no block yet, or a valid one.
    pub open spec fn is_renderable(self) -> bool {
        self.block() matches Some(b) ==> b.is_valid()
    }

    /// The one character that shows a renderable shape: nothing for the empty
    /// shape, the initial alone while there is no vowel, and the composed
    /// syllable from then on.
    pub open spec fn shown(self) -> Option<char> {
        match self.block() {
            Some(b) => Some(b.composed()),
            None => self.initial(),
        }
    }

    /// The live block with the letter taken in, where the block can take it:
    /// as the next jamo of the block, or fused with the jamo that came last.
    pub open spec fn extended(self, letter: HangulLetter) -> Option<BlockCompositionState> {
        match self {
            BlockCompositionState::ExpectingInitial => match letter {
                HangulLetter::Consonant(c) => Some(
                    BlockCompositionState::ExpectingDoubleInitialOrVowel(c),
                ),
                HangulLetter::CompositeConsonant(c) => if is_double_initial(c) {
                    Some(BlockCompositionState::ExpectingVowel(c))
                } else {
                    None
                },
                _ => None,
            },
            BlockCompositionState::ExpectingDoubleInitialOrVowel(i) => match letter {
                HangulLetter::Consonant(c) => match doubled_consonant(i, c) {
                    Some(d) => Some(BlockCompositionState::ExpectingVowel(d)),
                    None => None,
                },
                HangulLetter::Vowel(v) => Some(
                    BlockCompositionState::ExpectingCompositeVowelOrFinal(i, v),
                ),
                HangulLetter::CompositeVowel(v) => Some(BlockCompositionState::ExpectingFinal(i, v)),
                _ => None,
            },
            BlockCompositionState::ExpectingVowel(i) => match letter {
                HangulLetter::Vowel(v) => Some(
                    BlockCompositionState::ExpectingCompositeVowelOrFinal(i, v),
                ),
                HangulLetter::CompositeVowel(v) => Some(BlockCompositionState::ExpectingFinal(i, v)),
                _ => None,
            },
            BlockCompositionState::ExpectingCompositeVowelOrFinal(i, v) => match letter {
                HangulLetter::Vowel(w) => match fused_vowel(v, w) {
                    Some(x) => Some(BlockCompositionState::ExpectingFinal(i, x)),
                    None => None,
                },
                HangulLetter::Consonant(c) => Some(
                    BlockCompositionState::ExpectingCompositeFinalOrNextBlock(i, v, c),
                ),
                HangulLetter::CompositeConsonant(c) => if is_composite_final(c) {
                    Some(BlockCompositionState::ExpectingNextBlock(i, v, c))
                } else {
                    None
                },
                _ => None,
            },
            BlockCompositionState::ExpectingFinal(i, v) => match letter {
                HangulLetter::Consonant(c) => Some(
                    BlockCompositionState::ExpectingCompositeFinalOrNextBlock(i, v, c),
                ),
                HangulLetter::CompositeConsonant(c) => if is_composite_final(c) {
                    Some(BlockCompositionState::ExpectingNextBlock(i, v, c))
                } else {
                    None
                },
                _ => None,
            },
            BlockCompositionState::ExpectingCompositeFinalOrNextBlock(i, v, f) => match letter {
                HangulLetter::Consonant(c) => match fused_final(f, c) {
                    Some(x) => Some(BlockCompositionState::ExpectingNextBlock(i, v, x)),
                    None => None,
                },
                _ => None,
            },
            BlockCompositionState::ExpectingNextBlock(_, _, _) => None,
        }
    }

    /// A letter that the live block cannot take is handed over to the next
    /// block in these cases: any vowel and any plain consonant after a final,
    /// and a double initial wherever the block holds an initial and a vowel,
    /// with or without a final.
    pub open spec fn hands_over(self, letter: HangulLetter) -> bool {
        match letter {
            HangulLetter::Consonant(_) => self.filled() == 3,
            HangulLetter::Vowel(_) => self.filled() == 3,
            HangulLetter::CompositeVowel(_) => self.filled() == 3,
            HangulLetter::CompositeConsonant(c) => is_double_initial(c) && self.block() is Some,
        }
    }

    /// One step of the machine: the shape after the letter, and the signal.
    /// Extending the block comes first, then handing the letter over; a letter
    /// that allows neither is invalid. Only a letter that is taken in changes
    /// the shape.
    pub open spec fn step(self, letter: HangulLetter) -> (
        BlockCompositionState,
        WordCompositionState,
    ) {
        match self.extended(letter) {
            Some(next) => (next, WordCompositionState::Composable),
            None => if self.hands_over(letter) {
                (self, WordCompositionState::StartNewBlock(letter))
            } else {
                (self, WordCompositionState::InvalidHangul(letter))
            },
        }
    }

    /// The shape that a new block opens with, for a letter that may seed one.
    pub open spec fn seeded(letter: HangulLetter) -> BlockCompositionState {
        match letter {
            HangulLetter::Consonant(c) => BlockCompositionState::ExpectingDoubleInitialOrVowel(c),
            HangulLetter::CompositeConsonant(c) => BlockCompositionState::ExpectingVowel(c),
            _ => BlockCompositionState::ExpectingInitial,
        }
    }
}

/// The message of the error for finishing a block that has no vowel yet.
pub open spec fn incomplete_block_text() -> Seq<char> {
    "Cannot complete current block: incomplete block state"@
}

/// The message of the error for seeding a block with a composite consonant
/// that is no double initial, around a given text of the letter.
pub open spec fn invalid_initial_text(letter_text: Seq<char>) -> Seq<char> {
    "Cannot start new block with invalid initial consonant: "@ + letter_text
}

/// The message of the error for seeding a block with a vowel, around a given
/// text of the letter.
pub open spec fn non_consonant_text(letter_text: Seq<char>) -> Seq<char> {
    "Cannot start new block with non-consonant letter: "@ + letter_text
}

/// A word in composition, as contracts see it: the finished blocks in order,
/// and the live block.
pub struct WordModel {
    pub blocks: Seq<HangulBlock>,
    pub live: BlockCompositionState,
}

impl WordModel {
    /// The word after a letter is pushed: the finished blocks stay, the live
    /// block takes one step.
    pub open spec fn pushed(self, letter: HangulLetter) -> WordModel {
        WordModel { blocks: self.blocks, live: self.live.step(letter).0 }
    }

    /// The signal that pushing a letter gives.
    pub open spec fn signal(self, letter: HangulLetter) -> WordCompositionState {
        self.live.step(letter).1
    }

    /// Why a new block cannot start with the letter, as the error's message;
    /// `None` where it can. The letter is looked at first: a vowel and a
    /// composite consonant that is no double initial are refused whatever the
    /// live block holds. Then the live block must hold an initial and a vowel.
    pub open spec fn restart_error(self, letter: HangulLetter) -> Option<Seq<char>> {
        match letter {
            HangulLetter::Consonant(_) => if self.live.block() is None {
                Some(incomplete_block_text())
            } else {
                None
            },
            HangulLetter::CompositeConsonant(c) => if !is_double_initial(c) {
                Some(invalid_initial_text(letter.debug_text()))
            } else if self.live.block() is None {
                Some(incomplete_block_text())
            } else {
                None
            },
            _ => Some(non_consonant_text(letter.debug_text())),
        }
    }

    /// The word after the live block is finished and a new one is seeded with
    /// the letter, where `restart_error` is `None`.
    pub open spec fn restarted(self, letter: HangulLetter) -> WordModel {
        WordModel {
            blocks: self.blocks.push(self.live.block()->0),
            live: BlockCompositionState::seeded(letter),
        }
    }

    /// Every finished block is valid and the live block is well formed. This
    /// holds of a new word, and pushing well-formed letters and starting new
    /// blocks with them keeps it.
    pub open spec fn is_well_formed(self) -> bool {
        all_valid(self.blocks) && self.live.is_well_formed()
    }

    /// The word can be shown: every block that has a vowel is valid.
    pub open spec fn is_renderable(self) -> bool {
        all_valid(self.blocks) && self.live.is_renderable()
    }

    /// The text of a renderable word: the composed character of each finished
    /// block, then the character that shows the live block, if it shows any.
    pub open spec fn text(self) -> Seq<char> {
        match self.live.shown() {
            Some(c) => composed_text(self.blocks).push(c),
            None => composed_text(self.blocks),
        }
    }

    /// What showing the word gives: its text, or the message of the error for
    /// a block that cannot be composed.
    pub open spec fn rendering(self) -> Result<Seq<char>, Seq<char>> {
        if self.is_renderable() {
            Ok(self.text())
        } else {
            Err(encode_error_text())
        }
    }
}

/// The characters of a text or of an error's message.
pub open spec fn outcome_text(outcome: Result<String, String>) -> Result<Seq<char>, Seq<char>> {
    match outcome {
        Ok(text) => Ok(text@),
        Err(message) => Err(message@),
    }
}

/// Every pair of a shape and a letter gives exactly one of three outcomes.
/// The letter is taken in: the signal is `Composable`, the shape moves
/// forward in the order of the shapes, keeps its initial unless it doubles
/// it, and fills at most one position more. Or the letter is handed over, or
/// it is invalid: the signal carries the letter, and the shape stays as it is.
/// `NonHangul` is never the outcome of a letter.
pub proof fn lemma_step_outcomes(state: BlockCompositionState, letter: HangulLetter)
    ensures
        ({
            let (next, signal) = state.step(letter);
            &&& signal == WordCompositionState::Composable || signal
                == WordCompositionState::StartNewBlock(letter) || signal
                == WordCompositionState::InvalidHangul(letter)
            &&& signal == WordCompositionState::Composable ==> {
                &&& state.rank() < next.rank()
                &&& state.filled() <= next.filled() <= state.filled() + 1
                &&& next.initial() is Some
                &&& state.initial() matches Some(i) ==> next.initial() == Some(i)
                    || next.initial() == doubled_consonant(i, letter.spec_get_char())
            }
            &&& signal != WordCompositionState::Composable ==> next == state
        }),
{
}

/// After a composite final a block is closed: a plain consonant is always
/// handed over to the next block, whatever the consonant.
pub proof fn lemma_closed_block_hands_over_consonant(i: char, v: char, f: char, c: char)
    ensures
        BlockCompositionState::ExpectingNextBlock(i, v, f).step(HangulLetter::Consonant(c)) == (
            BlockCompositionState::ExpectingNextBlock(i, v, f),
            WordCompositionState::StartNewBlock(HangulLetter::Consonant(c)),
        ),
{
}

/// After a plain final a composite consonant cannot join the block, since
/// only a plain consonant fuses with a final. It is handed over to the next
/// block if it is a double initial, and is invalid otherwise; the shape stays
/// as it is.
pub proof fn lemma_composite_consonant_after_plain_final(i: char, v: char, f: char, c: char)
    ensures
        ({
            let state = BlockCompositionState::ExpectingCompositeFinalOrNextBlock(i, v, f);
            let letter = HangulLetter::CompositeConsonant(c);
            &&& is_double_initial(c) ==> state.step(letter) == (
                state,
                WordCompositionState::StartNewBlock(letter),
            )
            &&& !is_double_initial(c) ==> state.step(letter) == (
                state,
                WordCompositionState::InvalidHangul(letter),
            )
        }),
{
}

/// A letter is handed over only by a block that can be finished. If the
/// letter is a well-formed consonant, plain or composite, it may open a
/// block, so a new block can start with it; a vowel that is handed over
/// cannot start one.
pub proof fn lemma_handed_over_letter(word: WordModel, letter: HangulLetter)
    requires
        word.signal(letter) == WordCompositionState::StartNewBlock(letter),
    ensures
        word.live.block() is Some,
        letter is CompositeConsonant ==> letter.is_block_initial(),
        letter is Consonant || letter is CompositeConsonant ==> word.restart_error(letter) is None,
        letter is Vowel || letter is CompositeVowel ==> word.restart_error(letter) is Some,
{
}

/// Pushing a well-formed letter keeps a word well formed.
pub proof fn lemma_push_keeps_well_formed(word: WordModel, letter: HangulLetter)
    requires
        word.is_well_formed(),
        letter.is_well_formed(),
    ensures
        word.pushed(letter).is_well_formed(),
{
}

/// Starting a new block with a well-formed letter keeps a word well formed.
pub proof fn lemma_restart_keeps_well_formed(word: WordModel, letter: HangulLetter)
    requires
        word.is_well_formed(),
        letter.is_well_formed(),
        word.restart_error(letter) is None,
    ensures
        word.restarted(letter).is_well_formed(),
{
    lemma_all_valid_push(word.blocks, word.live.block()->0);
}

/// Starting a new block loses nothing of the text: the block that was live
/// stands in the text as before, and the letter that seeds the new block
/// follows it.
pub proof fn lemma_restart_appends_to_text(word: WordModel, letter: HangulLetter)
    requires
        word.restart_error(letter) is None,
    ensures
        word.restarted(letter).text() == word.text().push(letter.spec_get_char()),
        word.is_renderable() ==> word.restarted(letter).is_renderable(),
{
    let block = word.live.block()->0;
    let blocks = word.blocks.push(block);
    assert(composed_text(blocks) =~= composed_text(word.blocks).push(block.composed()));
    if word.is_renderable() {
        lemma_all_valid_push(word.blocks, block);
    }
}

/// A well-formed word can be shown.
pub proof fn lemma_well_formed_is_renderable(word: WordModel)
    requires
        word.is_well_formed(),
    ensures
        word.is_renderable(),
        word.rendering() is Ok,
{
}

/// Showing a word twice, with nothing pushed in between, gives the same
/// outcome character for character: whatever `as_string` returns for one
/// state of the composer, it returns again for the same state.
pub proof fn lemma_as_string_repeats(
    word: WordModel,
    first: Result<String, String>,
    second: Result<String, String>,
)
    requires
        outcome_text(first) == word.rendering(),
        outcome_text(second) == word.rendering(),
    ensures
        first is Ok <==> second is Ok,
        first matches Ok(a) ==> (second matches Ok(b) && a@ == b@),
        first matches Err(a) ==> (second matches Err(b) && a@ == b@),
{
}

/// Composes one word: the blocks already finished, and the live block.
///
/// The composer alone changes its blocks: pushing a letter leaves the
/// finished blocks as they are, and starting a new block appends one.
#[derive(Debug)]
pub struct HangulWordComposer {
    prev_blocks: Vec<HangulBlock>,
    cur_block: BlockCompositionState,
}

impl View for HangulWordComposer {
    type V = WordModel;

    closed spec fn view(&self) -> WordModel {
        WordModel { blocks: self.prev_blocks@, live: self.cur_block }
    }
}

impl HangulWordComposer {
    /// The finished blocks, in order.
    pub fn prev_blocks(&self) -> (blocks: &Vec<HangulBlock>)
        ensures
            blocks@ == self@.blocks,
    {
        &self.prev_blocks
    }

    /// The live block.
    pub fn cur_block(&self) -> (live: BlockCompositionState)
        ensures
            live == self@.live,
    {
        self.cur_block
    }

    /// An empty word.
    pub fn new_word() -> (word: Self)
        ensures
            word@.blocks == Seq::<HangulBlock>::empty(),
            word@.live == BlockCompositionState::ExpectingInitial,
            word@.is_well_formed(),
    {
        HangulWordComposer {
            prev_blocks: Vec::new(),
            cur_block: BlockCompositionState::ExpectingInitial,
        }
    }

    /// Classifies a character and pushes the letter. A character that is no
    /// jamo comes back as `NonHangul` and changes nothing.
    pub fn push_char(&mut self, c: char) -> (signal: WordCompositionState)
        ensures
            match classified(c) {
                Letter::Hangul(letter) => {
                    &&& final(self)@ == old(self)@.pushed(letter)
                    &&& signal == old(self)@.signal(letter)
                },
                Letter::NonHangul(ch) => {
                    &&& final(self)@ == old(self)@
                    &&& signal == WordCompositionState::NonHangul(ch)
                },
            },
            old(self)@.is_well_formed() ==> final(self)@.is_well_formed(),
    {
        match determine_hangul(c) {
            Letter::Hangul(hl) => self.push(hl),
            Letter::NonHangul(ch) => WordCompositionState::NonHangul(ch),
        }
    }

    /// Pushes one letter: the live block takes one step, and the finished
    /// blocks stay as they are.
    pub fn push(&mut self, letter: HangulLetter) -> (signal: WordCompositionState)
        ensures
            final(self)@ == old(self)@.pushed(letter),
            signal == old(self)@.signal(letter),
            signal != WordCompositionState::Composable ==> final(self)@ == old(self)@,
            old(self)@.is_well_formed() && letter.is_well_formed()
                ==> final(self)@.is_well_formed(),
    {
        match letter {
            HangulLetter::Consonant(c) => self.push_consonant(c),
            HangulLetter::CompositeConsonant(c) => self.push_composite_consonant(c),
            HangulLetter::Vowel(c) => self.push_vowel(c),
            HangulLetter::CompositeVowel(c) => self.push_composite_vowel(c),
        }
    }

    /// Finishes the live block and opens a new one with the letter. This is
    /// the caller's answer to `StartNewBlock`. The letter must be a plain
    /// consonant or a double initial, and the live block must hold an initial
    /// and a vowel; where it fails, the composer stays as it is.
    pub fn start_new_block(&mut self, letter: HangulLetter) -> (started: Result<(), String>)
        ensures
            match old(self)@.restart_error(letter) {
                None => started is Ok && final(self)@ == old(self)@.restarted(letter),
                Some(message) => {
                    &&& started matches Err(e)
                    &&& e@ == message
                    &&& final(self)@ == old(self)@
                },
            },
            old(self)@.is_well_formed() && letter.is_well_formed()
                ==> final(self)@.is_well_formed(),
    {
        proof {
            if old(self)@.is_well_formed() && letter.is_well_formed()
                && old(self)@.restart_error(letter) is None {
                lemma_restart_keeps_well_formed(old(self)@, letter);
            }
        }
        match letter {
            HangulLetter::Consonant(c) => {
                match self.complete_current_block() {
                    Ok(()) => {},
                    Err(e) => {
                        return Err(e);
                    },
                }
                self.cur_block = BlockCompositionState::ExpectingDoubleInitialOrVowel(c);
                Ok(())
            },
            HangulLetter::CompositeConsonant(c) => {
                if is_valid_double_initial(c) {
                    match self.complete_current_block() {
                        Ok(()) => {},
                        Err(e) => {
                            return Err(e);
                        },
                    }
                    self.cur_block = BlockCompositionState::ExpectingVowel(c);
                    Ok(())
                } else {
                    let text = letter.debug_string();
                    Err(invalid_initial_message(text.as_str()))
                }
            },
            _ => {
                let text = letter.debug_string();
                Err(non_consonant_message(text.as_str()))
            },
        }
    }

    /// The text composed so far: each finished block, then the live block as
    /// far as it can be shown. The result depends on the composer's state
    /// alone, which the call leaves as it is, so a second call returns the
    /// same. A block that holds a character outside the table of its position
    /// is an error; no word made of well-formed letters holds one.
    pub fn as_string(&self) -> (text: Result<String, String>)
        ensures
            outcome_text(text) == self@.rendering(),
            self@.is_well_formed() ==> text is Ok,
    {
        let mut result = match hangul_blocks_vec_to_string(&self.prev_blocks) {
            Ok(s) => s,
            Err(e) => {
                return Err(e);
            },
        };
        match self.current_block_to_string() {
            Ok(Some(c)) => {
                result.push(c);
                Ok(result)
            },
            Ok(None) => Ok(result),
            Err(e) => Err(e),
        }
    }

    /// The one character that shows the live block, if it shows any.
    pub fn current_block_to_string(&self) -> (shown: Result<Option<char>, String>)
        ensures
            self@.live.is_renderable() ==> shown == Ok::<Option<char>, String>(
                self@.live.shown(),
            ),
            !self@.live.is_renderable() ==> (shown matches Err(e) && e@ == encode_error_text()),
    {
        match &self.cur_block {
            BlockCompositionState::ExpectingInitial => Ok(None),
            BlockCompositionState::ExpectingDoubleInitialOrVowel(i)
            | BlockCompositionState::ExpectingVowel(i) => Ok(Some(*i)),
            BlockCompositionState::ExpectingCompositeVowelOrFinal(i, v)
            | BlockCompositionState::ExpectingFinal(i, v) => {
                let block = HangulBlock { initial: *i, vowel: *v, final_optional: None };
                if block.is_valid() {
                    Ok(Some(block.to_char()))
                } else {
                    Err("Error converting block to char".to_string())
                }
            },
            BlockCompositionState::ExpectingCompositeFinalOrNextBlock(i, v, f)
            | BlockCompositionState::ExpectingNextBlock(i, v, f) => {
                let block = HangulBlock { initial: *i, vowel: *v, final_optional: Some(*f) };
                if block.is_valid() {
                    Ok(Some(block.to_char()))
                } else {
                    Err("Error converting block to char".to_string())
                }
            },
        }
    }

    /// Appends the block that the live state holds to the finished blocks.
    /// The live state itself stays: `start_new_block` seeds it afresh.
    fn complete_current_block(&mut self) -> (completed: Result<(), String>)
        ensures
            final(self)@.live == old(self)@.live,
            match old(self)@.live.block() {
                Some(block) => completed is Ok && final(self)@.blocks == old(self)@.blocks.push(
                    block,
                ),
                None => {
                    &&& completed matches Err(e)
                    &&& e@ == incomplete_block_text()
                    &&& final(self)@.blocks == old(self)@.blocks
                },
            },
    {
        let (i, v, f) = match &self.cur_block {
            BlockCompositionState::ExpectingNextBlock(i, v, f) => (Some(*i), Some(*v), Some(*f)),
            BlockCompositionState::ExpectingCompositeFinalOrNextBlock(i, v, f) => (
                Some(*i),
                Some(*v),
                Some(*f),
            ),
            BlockCompositionState::ExpectingFinal(i, v) => (Some(*i), Some(*v), None),
            BlockCompositionState::ExpectingCompositeVowelOrFinal(i, v) => (
                Some(*i),
                Some(*v),
                None,
            ),
            BlockCompositionState::ExpectingVowel(i) => (Some(*i), None, None),
            BlockCompositionState::ExpectingDoubleInitialOrVowel(i) => (Some(*i), None, None),
            BlockCompositionState::ExpectingInitial => (None, None, None),
        };
        if let (Some(initial), Some(vowel)) = (i, v) {
            let block = HangulBlock { initial, vowel, final_optional: f };
            self.prev_blocks.push(block);
            Ok(())
        } else {
            Err("Cannot complete current block: incomplete block state".to_string())
        }
    }

    /// Pushes a plain consonant.
    pub fn push_consonant(&mut self, c: char) -> (signal: WordCompositionState)
        ensures
            final(self)@ == old(self)@.pushed(HangulLetter::Consonant(c)),
            signal == old(self)@.signal(HangulLetter::Consonant(c)),
            old(self)@.live is ExpectingNextBlock ==> signal
                == WordCompositionState::StartNewBlock(HangulLetter::Consonant(c)),
            old(self)@.is_well_formed() && is_consonant(c) ==> final(self)@.is_well_formed(),
    {
        match self.cur_block {
            // First letter: the initial consonant.
            BlockCompositionState::ExpectingInitial => {
                self.cur_block = BlockCompositionState::ExpectingDoubleInitialOrVowel(c);
                WordCompositionState::Composable
            },
            // Second letter: it doubles the initial, or it is invalid.
            BlockCompositionState::ExpectingDoubleInitialOrVowel(initial) => {
                if let Some(double) = consonant_doubles(initial, c) {
                    self.cur_block = BlockCompositionState::ExpectingVowel(double);
                    WordCompositionState::Composable
                } else {
                    WordCompositionState::InvalidHangul(HangulLetter::Consonant(c))
                }
            },
            // A double initial needs a vowel.
            BlockCompositionState::ExpectingVowel(_) => WordCompositionState::InvalidHangul(
                HangulLetter::Consonant(c),
            ),
            // After a vowel a consonant is the final.
            BlockCompositionState::ExpectingCompositeVowelOrFinal(i, v) => {
                self.cur_block = BlockCompositionState::ExpectingCompositeFinalOrNextBlock(
                    i,
                    v,
                    c,
                );
                WordCompositionState::Composable
            },
            BlockCompositionState::ExpectingFinal(i, v) => {
                self.cur_block = BlockCompositionState::ExpectingCompositeFinalOrNextBlock(
                    i,
                    v,
                    c,
                );
                WordCompositionState::Composable
            },
            // After a final: it fuses into a composite final, or it starts a new block.
            BlockCompositionState::ExpectingCompositeFinalOrNextBlock(i, v, f) => {
                if let Some(composite) = composite_final(f, c) {
                    self.cur_block = BlockCompositionState::ExpectingNextBlock(i, v, composite);
                    WordCompositionState::Composable
                } else {
                    WordCompositionState::StartNewBlock(HangulLetter::Consonant(c))
                }
            },
            // After a composite final a consonant starts a new block.
            BlockCompositionState::ExpectingNextBlock(_, _, _) => {
                WordCompositionState::StartNewBlock(HangulLetter::Consonant(c))
            },
        }
    }

    /// Pushes a composite consonant.
    pub fn push_composite_consonant(&mut self, c: char) -> (signal: WordCompositionState)
        ensures
            final(self)@ == old(self)@.pushed(HangulLetter::CompositeConsonant(c)),
            signal == old(self)@.signal(HangulLetter::CompositeConsonant(c)),
            old(self)@.is_well_formed() ==> final(self)@.is_well_formed(),
    {
        match self.cur_block {
            // First letter: only a double initial can open a block.
            BlockCompositionState::ExpectingInitial => {
                if is_valid_double_initial(c) {
                    self.cur_block = BlockCompositionState::ExpectingVowel(c);
                    WordCompositionState::Composable
                } else {
                    WordCompositionState::InvalidHangul(HangulLetter::CompositeConsonant(c))
                }
            },
            // After a vowel: a composite final closes the block; a composite
            // consonant that is no final starts a new block if it is a double
            // initial.
            BlockCompositionState::ExpectingCompositeVowelOrFinal(i, v) => {
                if is_valid_composite_final(c) {
                    self.cur_block = BlockCompositionState::ExpectingNextBlock(i, v, c);
                    WordCompositionState::Composable
                } else if is_valid_double_initial(c) {
                    WordCompositionState::StartNewBlock(HangulLetter::CompositeConsonant(c))
                } else {
                    WordCompositionState::InvalidHangul(HangulLetter::CompositeConsonant(c))
                }
            },
            BlockCompositionState::ExpectingFinal(i, v) => {
                if is_valid_composite_final(c) {
                    self.cur_block = BlockCompositionState::ExpectingNextBlock(i, v, c);
                    WordCompositionState::Composable
                } else if is_valid_double_initial(c) {
                    WordCompositionState::StartNewBlock(HangulLetter::CompositeConsonant(c))
                } else {
                    WordCompositionState::InvalidHangul(HangulLetter::CompositeConsonant(c))
                }
            },
            // After a plain final: a composite consonant cannot fuse with it,
            // so a double initial starts a new block.
            BlockCompositionState::ExpectingCompositeFinalOrNextBlock(_, _, _) => {
                if is_valid_double_initial(c) {
                    WordCompositionState::StartNewBlock(HangulLetter::CompositeConsonant(c))
                } else {
                    WordCompositionState::InvalidHangul(HangulLetter::CompositeConsonant(c))
                }
            },
            // After a composite final: a double initial starts a new block.
            BlockCompositionState::ExpectingNextBlock(_, _, _) => {
                if is_valid_double_initial(c) {
                    WordCompositionState::StartNewBlock(HangulLetter::CompositeConsonant(c))
                } else {
                    WordCompositionState::InvalidHangul(HangulLetter::CompositeConsonant(c))
                }
            },
            // An initial without a vowel takes no composite consonant.
            BlockCompositionState::ExpectingDoubleInitialOrVowel(_)
            | BlockCompositionState::ExpectingVowel(_) => WordCompositionState::InvalidHangul(
                HangulLetter::CompositeConsonant(c),
            ),
        }
    }

    /// Pushes a plain vowel.
    pub fn push_vowel(&mut self, c: char) -> (signal: WordCompositionState)
        ensures
            final(self)@ == old(self)@.pushed(HangulLetter::Vowel(c)),
            signal == old(self)@.signal(HangulLetter::Vowel(c)),
            old(self)@.is_well_formed() && is_vowel(c) ==> final(self)@.is_well_formed(),
    {
        match self.cur_block {
            // A block cannot open with a vowel.
            BlockCompositionState::ExpectingInitial => WordCompositionState::InvalidHangul(
                HangulLetter::Vowel(c),
            ),
            // After the initial a vowel is taken.
            BlockCompositionState::ExpectingDoubleInitialOrVowel(i) => {
                self.cur_block = BlockCompositionState::ExpectingCompositeVowelOrFinal(i, c);
                WordCompositionState::Composable
            },
            BlockCompositionState::ExpectingVowel(i) => {
                self.cur_block = BlockCompositionState::ExpectingCompositeVowelOrFinal(i, c);
                WordCompositionState::Composable
            },
            // After a vowel: it fuses into a composite vowel, or it is invalid.
            BlockCompositionState::ExpectingCompositeVowelOrFinal(i, v) => {
                if let Some(composite) = composite_vowel(v, c) {
                    self.cur_block = BlockCompositionState::ExpectingFinal(i, composite);
                    WordCompositionState::Composable
                } else {
                    WordCompositionState::InvalidHangul(HangulLetter::Vowel(c))
                }
            },
            // A composite vowel takes no third vowel.
            BlockCompositionState::ExpectingFinal(_, _) => WordCompositionState::InvalidHangul(
                HangulLetter::Vowel(c),
            ),
            // After a final a vowel belongs to the next block.
            BlockCompositionState::ExpectingCompositeFinalOrNextBlock(_, _, _) => {
                WordCompositionState::StartNewBlock(HangulLetter::Vowel(c))
            },
            BlockCompositionState::ExpectingNextBlock(_, _, _) => {
                WordCompositionState::StartNewBlock(HangulLetter::Vowel(c))
            },
        }
    }

    /// Pushes a composite vowel.
    pub fn push_composite_vowel(&mut self, c: char) -> (signal: WordCompositionState)
        ensures
            final(self)@ == old(self)@.pushed(HangulLetter::CompositeVowel(c)),
            signal == old(self)@.signal(HangulLetter::CompositeVowel(c)),
            old(self)@.is_well_formed() && is_composite_vowel(c)
                ==> final(self)@.is_well_formed(),
    {
        match self.cur_block {
            // After the initial a composite vowel is taken.
            BlockCompositionState::ExpectingDoubleInitialOrVowel(i) => {
                self.cur_block = BlockCompositionState::ExpectingFinal(i, c);
                WordCompositionState::Composable
            },
            BlockCompositionState::ExpectingVowel(i) => {
                self.cur_block = BlockCompositionState::ExpectingFinal(i, c);
                WordCompositionState::Composable
            },
            // After a final a composite vowel belongs to the next block.
            BlockCompositionState::ExpectingCompositeFinalOrNextBlock(_, _, _) => {
                WordCompositionState::StartNewBlock(HangulLetter::CompositeVowel(c))
            },
            BlockCompositionState::ExpectingNextBlock(_, _, _) => {
                WordCompositionState::StartNewBlock(HangulLetter::CompositeVowel(c))
            },
            // Nowhere else can a composite vowel stand.
            _ => WordCompositionState::InvalidHangul(HangulLetter::CompositeVowel(c)),
        }
    }
}

/// Writes the message of the error for seeding a block with a composite
/// consonant that is no double initial.
pub fn invalid_initial_message(letter_text: &str) -> (message: String)
    ensures
        message@ == invalid_initial_text(letter_text@),
{
    let mut message = "Cannot start new block with invalid initial consonant: ".to_string();
    message.append(letter_text);
    message
}

/// Writes the message of the error for seeding a block with a vowel.
pub fn non_consonant_message(letter_text: &str) -> (message: String)
    ensures
        message@ == non_consonant_text(letter_text@),
{
    let mut message = "Cannot start new block with non-consonant letter: ".to_string();
    message.append(letter_text);
    message
}

} // verus!
