use hangul::block::HangulBlock;
use hangul::chars::{determine_hangul, HangulLetter, Letter};
use hangul::compose::{BlockCompositionState, HangulWordComposer, WordCompositionState};

const PLAIN_CONSONANTS: &str = "ㄱㄴㄷㄹㅁㅂㅅㅇㅈㅊㅋㅌㅍㅎ";
const ALL_JAMO: &str = "ㄱㄲㄳㄴㄵㄶㄷㄸㄹㄺㄻㄼㄽㄾㄿㅀㅁㅂㅃㅄㅅㅆㅇㅈㅉㅊㅋㅌㅍㅎㅏㅐㅑㅒㅓㅔㅕㅖㅗㅘㅙㅚㅛㅜㅝㅞㅟㅠㅡㅢㅣ";

fn rank(state: &BlockCompositionState) -> u8 {
    match state {
        BlockCompositionState::ExpectingInitial => 0,
        BlockCompositionState::ExpectingDoubleInitialOrVowel(_) => 1,
        BlockCompositionState::ExpectingVowel(_) => 2,
        BlockCompositionState::ExpectingCompositeVowelOrFinal(_, _) => 3,
        BlockCompositionState::ExpectingFinal(_, _) => 4,
        BlockCompositionState::ExpectingCompositeFinalOrNextBlock(_, _, _) => 5,
        BlockCompositionState::ExpectingNextBlock(_, _, _) => 6,
    }
}

fn filled(state: &BlockCompositionState) -> u8 {
    match rank(state) {
        0 => 0,
        1 | 2 => 1,
        3 | 4 => 2,
        _ => 3,
    }
}

fn sample_states() -> Vec<BlockCompositionState> {
    vec![
        BlockCompositionState::ExpectingInitial,
        BlockCompositionState::ExpectingDoubleInitialOrVowel('ㄱ'),
        BlockCompositionState::ExpectingDoubleInitialOrVowel('ㄴ'),
        BlockCompositionState::ExpectingVowel('ㄸ'),
        BlockCompositionState::ExpectingCompositeVowelOrFinal('ㄷ', 'ㅜ'),
        BlockCompositionState::ExpectingCompositeVowelOrFinal('ㄷ', 'ㅏ'),
        BlockCompositionState::ExpectingFinal('ㄷ', 'ㅝ'),
        BlockCompositionState::ExpectingCompositeFinalOrNextBlock('ㄷ', 'ㅏ', 'ㄹ'),
        BlockCompositionState::ExpectingCompositeFinalOrNextBlock('ㄷ', 'ㅏ', 'ㅇ'),
        BlockCompositionState::ExpectingNextBlock('ㄷ', 'ㅏ', 'ㅀ'),
    ]
}

fn letter_of(c: char) -> HangulLetter {
    match determine_hangul(c) {
        Letter::Hangul(letter) => letter,
        Letter::NonHangul(_) => panic!("{} is a jamo", c),
    }
}

fn composer_in(state: BlockCompositionState) -> HangulWordComposer {
    let jamo: Vec<char> = match state {
        BlockCompositionState::ExpectingInitial => vec![],
        BlockCompositionState::ExpectingDoubleInitialOrVowel(i)
        | BlockCompositionState::ExpectingVowel(i) => vec![i],
        BlockCompositionState::ExpectingCompositeVowelOrFinal(i, v)
        | BlockCompositionState::ExpectingFinal(i, v) => vec![i, v],
        BlockCompositionState::ExpectingCompositeFinalOrNextBlock(i, v, f)
        | BlockCompositionState::ExpectingNextBlock(i, v, f) => vec![i, v, f],
    };
    let mut composer = HangulWordComposer::new_word();
    for c in jamo {
        assert_eq!(composer.push(letter_of(c)), WordCompositionState::Composable);
    }
    assert_eq!(composer.cur_block(), state);
    assert_eq!(*composer.prev_blocks(), vec![]);
    composer
}

fn compose(input: &str) -> HangulWordComposer {
    let mut composer = HangulWordComposer::new_word();
    for c in input.chars() {
        let state = composer.push_char(c);
        if let WordCompositionState::StartNewBlock(new_c) = state {
            let _ = composer.start_new_block(new_c);
        }
    }
    composer
}

#[test]
fn new_word_is_empty() {
    let composer = HangulWordComposer::new_word();
    assert_eq!(*composer.prev_blocks(), vec![]);
    assert_eq!(composer.cur_block(), BlockCompositionState::ExpectingInitial);
    assert_eq!(composer.as_string(), Ok(String::new()));
}

#[test]
fn every_shape_and_letter_gives_one_of_three_outcomes() {
    for state in sample_states() {
        for c in ALL_JAMO.chars() {
            let letter = letter_of(c);
            let mut composer =
                composer_in(state);
            let signal = composer.push(letter);
            assert_eq!(*composer.prev_blocks(), vec![]);
            match signal {
                WordCompositionState::Composable => {
                    assert!(rank(&composer.cur_block()) > rank(&state));
                    assert!(filled(&composer.cur_block()) >= filled(&state));
                    assert!(filled(&composer.cur_block()) <= filled(&state) + 1);
                }
                WordCompositionState::StartNewBlock(l) => {
                    assert_eq!(l, letter);
                    assert_eq!(composer.cur_block(), state);
                    assert!(filled(&state) >= 2);
                }
                WordCompositionState::InvalidHangul(l) => {
                    assert_eq!(l, letter);
                    assert_eq!(composer.cur_block(), state);
                }
                WordCompositionState::NonHangul(_) => panic!("a letter is never NonHangul"),
            }
        }
    }
}

#[test]
fn plain_consonant_after_composite_final_always_starts_a_new_block() {
    for c in PLAIN_CONSONANTS.chars() {
        for state in [
            BlockCompositionState::ExpectingNextBlock('ㄷ', 'ㅏ', 'ㅀ'),
            BlockCompositionState::ExpectingNextBlock('ㅇ', 'ㅣ', 'ㅆ'),
            BlockCompositionState::ExpectingNextBlock('ㄱ', 'ㅏ', 'ㄳ'),
        ] {
            let mut composer = composer_in(state);
            assert_eq!(
                composer.push(HangulLetter::Consonant(c)),
                WordCompositionState::StartNewBlock(HangulLetter::Consonant(c))
            );
            assert_eq!(composer.cur_block(), state);
            assert_eq!(
                composer.push_consonant(c),
                WordCompositionState::StartNewBlock(HangulLetter::Consonant(c))
            );
        }
    }
}

#[test]
fn composite_consonant_after_composite_final_needs_a_double_initial() {
    let state = BlockCompositionState::ExpectingNextBlock('ㄷ', 'ㅏ', 'ㅀ');
    let mut composer = composer_in(state);
    assert_eq!(
        composer.push(HangulLetter::CompositeConsonant('ㄸ')),
        WordCompositionState::StartNewBlock(HangulLetter::CompositeConsonant('ㄸ'))
    );
    assert_eq!(
        composer.push(HangulLetter::CompositeConsonant('ㄳ')),
        WordCompositionState::InvalidHangul(HangulLetter::CompositeConsonant('ㄳ'))
    );
    assert_eq!(composer.cur_block(), state);
}

#[test]
fn composite_consonant_after_plain_final_needs_a_double_initial() {
    let state = BlockCompositionState::ExpectingCompositeFinalOrNextBlock('ㄱ', 'ㅏ', 'ㄴ');
    for c in "ㄲㄸㅃㅆㅉ".chars() {
        let mut composer = composer_in(state);
        assert_eq!(
            composer.push_composite_consonant(c),
            WordCompositionState::StartNewBlock(HangulLetter::CompositeConsonant(c))
        );
        assert_eq!(composer.cur_block(), state);
        assert_eq!(*composer.prev_blocks(), vec![]);
    }
    for c in "ㄵㄺㅄㄳㄶㄻㄼㄽㄾㄿㅀ".chars() {
        let mut composer = composer_in(state);
        assert_eq!(
            composer.push_composite_consonant(c),
            WordCompositionState::InvalidHangul(HangulLetter::CompositeConsonant(c))
        );
        assert_eq!(composer.cur_block(), state);
        assert_eq!(*composer.prev_blocks(), vec![]);
    }
}

#[test]
fn double_initial_after_plain_final_opens_the_next_block() {
    let mut composer = HangulWordComposer::new_word();
    for c in "ㅇㅣㄹ".chars() {
        assert_eq!(composer.push_char(c), WordCompositionState::Composable);
    }
    assert_eq!(
        composer.push_char('ㅉ'),
        WordCompositionState::StartNewBlock(HangulLetter::CompositeConsonant('ㅉ'))
    );
    assert_eq!(composer.start_new_block(HangulLetter::CompositeConsonant('ㅉ')), Ok(()));
    assert_eq!(
        *composer.prev_blocks(),
        vec![HangulBlock { initial: 'ㅇ', vowel: 'ㅣ', final_optional: Some('ㄹ') }]
    );
    assert_eq!(composer.cur_block(), BlockCompositionState::ExpectingVowel('ㅉ'));
    assert_eq!(composer.push_char('ㅣ'), WordCompositionState::Composable);
    assert_eq!(composer.push_char('ㄱ'), WordCompositionState::Composable);
    assert_eq!(composer.as_string(), Ok("일찍".to_string()));
    assert_eq!(compose("ㅇㅣㄹㅉㅣㄱ").as_string(), Ok("일찍".to_string()));
    assert_eq!(compose("ㅇㅏㄴㄲㅏㄴ").as_string(), Ok("안깐".to_string()));
}

#[test]
fn composite_consonant_opens_a_block_only_if_double_initial() {
    let mut composer = HangulWordComposer::new_word();
    assert_eq!(
        composer.push(HangulLetter::CompositeConsonant('ㄳ')),
        WordCompositionState::InvalidHangul(HangulLetter::CompositeConsonant('ㄳ'))
    );
    assert_eq!(composer.cur_block(), BlockCompositionState::ExpectingInitial);
    assert_eq!(
        composer.push(HangulLetter::CompositeConsonant('ㅆ')),
        WordCompositionState::Composable
    );
    assert_eq!(composer.cur_block(), BlockCompositionState::ExpectingVowel('ㅆ'));
    assert_eq!(
        composer.push(HangulLetter::Consonant('ㅅ')),
        WordCompositionState::InvalidHangul(HangulLetter::Consonant('ㅅ'))
    );
}

#[test]
fn vowels_cannot_open_a_block() {
    let mut composer = HangulWordComposer::new_word();
    assert_eq!(
        composer.push(HangulLetter::Vowel('ㅏ')),
        WordCompositionState::InvalidHangul(HangulLetter::Vowel('ㅏ'))
    );
    assert_eq!(
        composer.push(HangulLetter::CompositeVowel('ㅘ')),
        WordCompositionState::InvalidHangul(HangulLetter::CompositeVowel('ㅘ'))
    );
    assert_eq!(composer.cur_block(), BlockCompositionState::ExpectingInitial);
}

#[test]
fn composite_vowel_is_taken_only_right_after_the_initial() {
    let mut composer = HangulWordComposer::new_word();
    composer.push(HangulLetter::CompositeConsonant('ㄸ'));
    assert_eq!(composer.push_composite_vowel('ㅙ'), WordCompositionState::Composable);
    assert_eq!(composer.cur_block(), BlockCompositionState::ExpectingFinal('ㄸ', 'ㅙ'));
    assert_eq!(
        composer.push_composite_vowel('ㅙ'),
        WordCompositionState::InvalidHangul(HangulLetter::CompositeVowel('ㅙ'))
    );
    assert_eq!(
        composer.push_vowel('ㅣ'),
        WordCompositionState::InvalidHangul(HangulLetter::Vowel('ㅣ'))
    );
    assert_eq!(composer.push_consonant('ㄴ'), WordCompositionState::Composable);
    assert_eq!(
        composer.push_composite_vowel('ㅙ'),
        WordCompositionState::StartNewBlock(HangulLetter::CompositeVowel('ㅙ'))
    );
    assert_eq!(
        composer.cur_block(),
        BlockCompositionState::ExpectingCompositeFinalOrNextBlock('ㄸ', 'ㅙ', 'ㄴ')
    );

    let mut plain = HangulWordComposer::new_word();
    plain.push(HangulLetter::Consonant('ㄱ'));
    plain.push(HangulLetter::Vowel('ㅗ'));
    assert_eq!(
        plain.push(HangulLetter::CompositeVowel('ㅘ')),
        WordCompositionState::InvalidHangul(HangulLetter::CompositeVowel('ㅘ'))
    );
}

#[test]
fn composite_consonant_that_is_final_and_initial_closes_the_block() {
    let mut composer = HangulWordComposer::new_word();
    composer.push(HangulLetter::Consonant('ㅇ'));
    composer.push(HangulLetter::Vowel('ㅣ'));
    assert_eq!(
        composer.push(HangulLetter::CompositeConsonant('ㅆ')),
        WordCompositionState::Composable
    );
    assert_eq!(composer.cur_block(), BlockCompositionState::ExpectingNextBlock('ㅇ', 'ㅣ', 'ㅆ'));
    assert_eq!(composer.as_string(), Ok("있".to_string()));
}

#[test]
fn start_new_block_needs_an_initial_and_a_vowel() {
    let incomplete = Err("Cannot complete current block: incomplete block state".to_string());
    let mut composer = HangulWordComposer::new_word();
    assert_eq!(composer.start_new_block(HangulLetter::Consonant('ㄱ')), incomplete);
    assert_eq!(composer.start_new_block(HangulLetter::CompositeConsonant('ㄲ')), incomplete);
    composer.push(HangulLetter::Consonant('ㄱ'));
    assert_eq!(composer.start_new_block(HangulLetter::Consonant('ㄱ')), incomplete);
    composer.push(HangulLetter::Consonant('ㄱ'));
    assert_eq!(composer.start_new_block(HangulLetter::Consonant('ㄱ')), incomplete);
    assert_eq!(*composer.prev_blocks(), vec![]);
    assert_eq!(composer.cur_block(), BlockCompositionState::ExpectingVowel('ㄲ'));
    composer.push(HangulLetter::Vowel('ㅏ'));
    assert_eq!(composer.start_new_block(HangulLetter::Consonant('ㄱ')), Ok(()));
    assert_eq!(
        *composer.prev_blocks(),
        vec![HangulBlock { initial: 'ㄲ', vowel: 'ㅏ', final_optional: None }]
    );
    assert_eq!(composer.cur_block(), BlockCompositionState::ExpectingDoubleInitialOrVowel('ㄱ'));
}

#[test]
fn start_new_block_rejects_composite_consonant_that_is_no_initial() {
    let mut composer = HangulWordComposer::new_word();
    // The letter is looked at before the live block.
    assert_eq!(
        composer.start_new_block(HangulLetter::CompositeConsonant('ㄳ')),
        Err("Cannot start new block with invalid initial consonant: CompositeConsonant('ㄳ')"
            .to_string())
    );
    composer.push(HangulLetter::Consonant('ㄱ'));
    composer.push(HangulLetter::Vowel('ㅏ'));
    assert_eq!(
        composer.start_new_block(HangulLetter::CompositeConsonant('ㅀ')),
        Err("Cannot start new block with invalid initial consonant: CompositeConsonant('ㅀ')"
            .to_string())
    );
    assert_eq!(*composer.prev_blocks(), vec![]);
    assert_eq!(composer.cur_block(), BlockCompositionState::ExpectingCompositeVowelOrFinal('ㄱ', 'ㅏ'));
    assert_eq!(composer.start_new_block(HangulLetter::CompositeConsonant('ㅃ')), Ok(()));
    assert_eq!(composer.cur_block(), BlockCompositionState::ExpectingVowel('ㅃ'));
}

#[test]
fn start_new_block_rejects_a_vowel_even_after_a_final() {
    let mut composer = HangulWordComposer::new_word();
    for c in "ㅎㅏㅅ".chars() {
        assert_eq!(composer.push_char(c), WordCompositionState::Composable);
    }
    assert_eq!(
        composer.push_char('ㅔ'),
        WordCompositionState::StartNewBlock(HangulLetter::Vowel('ㅔ'))
    );
    assert_eq!(
        composer.start_new_block(HangulLetter::Vowel('ㅔ')),
        Err("Cannot start new block with non-consonant letter: Vowel('ㅔ')".to_string())
    );
    assert_eq!(*composer.prev_blocks(), vec![]);
    assert_eq!(
        composer.cur_block(),
        BlockCompositionState::ExpectingCompositeFinalOrNextBlock('ㅎ', 'ㅏ', 'ㅅ')
    );
    assert_eq!(composer.as_string(), Ok("핫".to_string()));
}

#[test]
fn start_new_block_succeeds_with_every_consonant_that_is_handed_over() {
    for state in sample_states() {
        for c in ALL_JAMO.chars() {
            let letter = letter_of(c);
            let mut composer = composer_in(state);
            if let WordCompositionState::StartNewBlock(l) = composer.push(letter) {
                let started = composer.start_new_block(l);
                match l {
                    HangulLetter::Consonant(_) | HangulLetter::CompositeConsonant(_) => {
                        assert_eq!(started, Ok(()));
                        assert_eq!(composer.prev_blocks().len(), 1);
                        assert!(composer.prev_blocks()[0].is_valid());
                    }
                    _ => {
                        assert!(started.is_err());
                        assert_eq!(*composer.prev_blocks(), vec![]);
                        assert_eq!(composer.cur_block(), state);
                    }
                }
            }
        }
    }
}

#[test]
fn as_string_shows_the_live_block_as_far_as_it_goes() {
    let mut composer = HangulWordComposer::new_word();
    assert_eq!(composer.as_string(), Ok("".to_string()));
    composer.push_char('ㄷ');
    assert_eq!(composer.as_string(), Ok("ㄷ".to_string()));
    composer.push_char('ㄷ');
    assert_eq!(composer.as_string(), Ok("ㄸ".to_string()));
    composer.push_char('ㅜ');
    assert_eq!(composer.as_string(), Ok("뚜".to_string()));
    composer.push_char('ㅓ');
    assert_eq!(composer.as_string(), Ok("뚸".to_string()));
    composer.push_char('ㄹ');
    assert_eq!(composer.as_string(), Ok("뛀".to_string()));
    composer.push_char('ㅎ');
    assert_eq!(composer.as_string(), Ok("뛇".to_string()));
    assert_eq!('뛇' as u32, 0xAC00 + 4 * 588 + 14 * 28 + 15);
}

#[test]
fn as_string_twice_gives_the_same_text() {
    for input in ["", "ㄱ", "ㄱㄱ", "ㄱㅏ", "ㅎㅏㄴㄱㅡㄹ", "ㅇㅓㅂㅅㅇㅓ", "ㄷㅏㄹㅎ"] {
        let composer = compose(input);
        let first = composer.as_string();
        let second = composer.as_string();
        assert!(first.is_ok());
        assert_eq!(first, second);
    }
    let mut broken = HangulWordComposer::new_word();
    broken.push(HangulLetter::Consonant('x'));
    broken.push(HangulLetter::Vowel('ㅏ'));
    assert_eq!(broken.as_string(), broken.as_string());
}

#[test]
fn as_string_reports_a_block_that_cannot_be_composed() {
    let error = Err("Error converting block to char".to_string());
    let mut composer = HangulWordComposer::new_word();
    composer.push(HangulLetter::Consonant('x'));
    // An initial alone is shown as it is.
    assert_eq!(composer.as_string(), Ok("x".to_string()));
    composer.push(HangulLetter::Vowel('ㅏ'));
    assert_eq!(composer.as_string(), error);
    assert_eq!(composer.current_block_to_string(), Err("Error converting block to char".to_string()));
    assert_eq!(composer.start_new_block(HangulLetter::Consonant('ㄱ')), Ok(()));
    assert_eq!(composer.current_block_to_string(), Ok(Some('ㄱ')));
    assert_eq!(composer.as_string(), error);

    let mut late = HangulWordComposer::new_word();
    late.push(HangulLetter::Consonant('ㄱ'));
    late.push(HangulLetter::Vowel('ㅏ'));
    late.push(HangulLetter::Consonant('ㅏ'));
    assert_eq!(late.as_string(), error);
}

#[test]
fn current_block_to_string_shows_each_shape() {
    let shapes = [
        (BlockCompositionState::ExpectingInitial, None),
        (BlockCompositionState::ExpectingDoubleInitialOrVowel('ㄷ'), Some('ㄷ')),
        (BlockCompositionState::ExpectingVowel('ㄸ'), Some('ㄸ')),
        (BlockCompositionState::ExpectingCompositeVowelOrFinal('ㄷ', 'ㅜ'), Some('두')),
        (BlockCompositionState::ExpectingFinal('ㄷ', 'ㅝ'), Some('둬')),
        (BlockCompositionState::ExpectingCompositeFinalOrNextBlock('ㄷ', 'ㅏ', 'ㄹ'), Some('달')),
        (BlockCompositionState::ExpectingNextBlock('ㄷ', 'ㅏ', 'ㅀ'), Some('닳')),
    ];
    for (state, shown) in shapes {
        let composer = composer_in(state);
        assert_eq!(composer.current_block_to_string(), Ok(shown));
    }
}

#[test]
fn words_whose_blocks_end_before_a_consonant_compose_fully() {
    assert_eq!(compose("ㅎㅏㄴㄱㅡㄹ").as_string(), Ok("한글".to_string()));
    assert_eq!(compose("ㅇㅏㄴㄴㅕㅇ").as_string(), Ok("안녕".to_string()));
    assert_eq!(compose("ㅇㅓㅂㅅㄷㅏ").as_string(), Ok("없다".to_string()));
    assert_eq!(compose("ㄱㅏㅂㅅㅆㅏㄹ").as_string(), Ok("값쌀".to_string()));
    assert_eq!(compose("ㄷㅏㄹㄱㄸㅗㅇ").as_string(), Ok("닭똥".to_string()));
    assert_eq!(compose("ㅇㅗㅏㅇㅈㅏ").as_string(), Ok("왕자".to_string()));
    let composer = compose("ㅎㅏㄴㄱㅡㄹ");
    assert_eq!(
        *composer.prev_blocks(),
        vec![HangulBlock { initial: 'ㅎ', vowel: 'ㅏ', final_optional: Some('ㄴ') }]
    );
    assert_eq!(
        composer.cur_block(),
        BlockCompositionState::ExpectingCompositeFinalOrNextBlock('ㄱ', 'ㅡ', 'ㄹ')
    );
}

#[test]
fn vowel_after_a_final_is_signalled_and_left_out() {
    // The vowel is handed over, no block can start with it, and the final
    // stays where it is: the block closes when the next consonant comes.
    let composer = compose("ㅎㅏㅅㅔㅇㅛ");
    assert_eq!(
        *composer.prev_blocks(),
        vec![HangulBlock { initial: 'ㅎ', vowel: 'ㅏ', final_optional: Some('ㅅ') }]
    );
    assert_eq!(composer.cur_block(), BlockCompositionState::ExpectingCompositeVowelOrFinal('ㅇ', 'ㅛ'));
    assert_eq!(composer.as_string(), Ok("핫요".to_string()));
}

#[test]
fn non_hangul_leaves_the_composer_as_it_is() {
    let mut composer = compose("ㅎㅏㄴㄱㅡ");
    for c in ['A', ' ', '1', '한', '\u{1100}', '\u{D7A4}'] {
        assert_eq!(composer.push_char(c), WordCompositionState::NonHangul(c));
    }
    assert_eq!(composer.as_string(), Ok("한그".to_string()));
    assert_eq!(composer.push_char('ㄹ'), WordCompositionState::Composable);
    assert_eq!(composer.as_string(), Ok("한글".to_string()));
}

#[test]
fn invalid_letter_leaves_the_composer_as_it_is() {
    let mut composer = compose("ㅎㅏㄴㄱ");
    let blocks = composer.prev_blocks().clone();
    assert_eq!(
        composer.push_char('ㄴ'),
        WordCompositionState::InvalidHangul(HangulLetter::Consonant('ㄴ'))
    );
    assert_eq!(*composer.prev_blocks(), blocks);
    assert_eq!(composer.cur_block(), BlockCompositionState::ExpectingDoubleInitialOrVowel('ㄱ'));
    assert_eq!(composer.as_string(), Ok("한ㄱ".to_string()));
}

#[test]
fn greetings_lose_the_vowels_that_follow_a_final() {
    // ㅔ after 핫 and the last ㅛ are handed over, and no block starts with a vowel.
    let greeting = compose("ㅇㅏㄴㄴㅕㅇㅎㅏㅅㅔㅇㅛ");
    assert_eq!(
        *greeting.prev_blocks(),
        vec![
            HangulBlock { initial: 'ㅇ', vowel: 'ㅏ', final_optional: Some('ㄴ') },
            HangulBlock { initial: 'ㄴ', vowel: 'ㅕ', final_optional: Some('ㅇ') },
            HangulBlock { initial: 'ㅎ', vowel: 'ㅏ', final_optional: Some('ㅅ') },
        ]
    );
    assert_eq!(greeting.as_string(), Ok("안녕핫요".to_string()));
    let absent = compose("ㅇㅓㅂㅅㅇㅓㅇㅛ");
    assert_eq!(
        *absent.prev_blocks(),
        vec![HangulBlock { initial: 'ㅇ', vowel: 'ㅓ', final_optional: Some('ㅄ') }]
    );
    assert_eq!(
        absent.cur_block(),
        BlockCompositionState::ExpectingCompositeFinalOrNextBlock('ㅇ', 'ㅓ', 'ㅇ')
    );
    assert_eq!(absent.as_string(), Ok("없엉".to_string()));
}

#[test]
fn greetings_compose_up_to_the_first_vowel_after_a_final() {
    assert_eq!(compose("ㅇㅏㄴㄴㅕㅇㅎㅏ").as_string(), Ok("안녕하".to_string()));
    assert_eq!(compose("ㅇㅏㄴㄴㅕㅇㅎㅏㅅ").as_string(), Ok("안녕핫".to_string()));
    assert_eq!(compose("ㅇㅓㅂㅅㅇㅓ").as_string(), Ok("없어".to_string()));
}

#[test]
fn start_new_block_keeps_the_text_and_appends_the_seed() {
    let mut composer = compose("ㅎㅏㄴㄱㅡㄹ");
    let before = composer.as_string().unwrap();
    assert_eq!(before, "한글");
    assert_eq!(composer.start_new_block(HangulLetter::Consonant('ㅈ')), Ok(()));
    assert_eq!(composer.as_string(), Ok(format!("{}{}", before, 'ㅈ')));
    composer.push_char('ㅏ');
    assert_eq!(composer.start_new_block(HangulLetter::CompositeConsonant('ㅉ')), Ok(()));
    assert_eq!(composer.as_string(), Ok("한글자ㅉ".to_string()));
}
