use hotkey_typist::keystroke::{
    char_keystrokes, keystrokes, keystrokes_for_case, text_keystrokes, Keystroke, LogicalKey,
};

fn click(c: char) -> Keystroke {
    Keystroke::Click(LogicalKey::Layout(c))
}

fn shifted(c: char) -> Vec<Keystroke> {
    vec![Keystroke::Down(LogicalKey::Shift), click(c), Keystroke::Up(LogicalKey::Shift)]
}

#[test]
fn plain_key_is_a_single_click() {
    assert_eq!(keystrokes(false, 'a'), vec![click('a')]);
}

#[test]
fn shifted_key_is_wrapped_in_shift() {
    assert_eq!(
        keystrokes(true, 'a'),
        vec![
            Keystroke::Down(LogicalKey::Shift),
            Keystroke::Click(LogicalKey::Layout('a')),
            Keystroke::Up(LogicalKey::Shift),
        ]
    );
}

#[test]
fn case_tables_decide_shift_and_base_key() {
    assert_eq!(keystrokes_for_case('Q', true, &vec!['q']), shifted('q'));
    assert_eq!(keystrokes_for_case('q', false, &vec!['q']), vec![click('q')]);
}

#[test]
fn first_character_of_mapping_is_the_base_key() {
    assert_eq!(keystrokes_for_case('X', true, &vec!['a', 'b', 'c']), shifted('a'));
}

#[test]
fn empty_mapping_falls_back_to_the_character() {
    assert_eq!(keystrokes_for_case('X', true, &Vec::new()), shifted('X'));
    assert_eq!(keystrokes_for_case('x', false, &Vec::new()), vec![click('x')]);
}

#[test]
fn lowercase_letter_is_clicked_directly() {
    assert_eq!(char_keystrokes('h'), vec![click('h')]);
}

#[test]
fn uppercase_letter_is_shifted_and_lowercased() {
    assert_eq!(char_keystrokes('H'), shifted('h'));
}

#[test]
fn non_alphabetic_characters_are_clicked_directly() {
    for c in ['1', ' ', '!', '\n', '_', '@', '?'] {
        assert_eq!(char_keystrokes(c), vec![click(c)]);
    }
}

#[test]
fn accented_uppercase_letter_is_shifted() {
    assert_eq!(char_keystrokes('\u{c9}'), shifted('\u{e9}'));
    assert_eq!(char_keystrokes('\u{e9}'), vec![click('\u{e9}')]);
}

#[test]
fn letter_without_case_is_clicked_directly() {
    assert_eq!(char_keystrokes('\u{df}'), vec![click('\u{df}')]);
    assert_eq!(char_keystrokes('\u{4e2d}'), vec![click('\u{4e2d}')]);
}

#[test]
fn multi_character_lowercase_mapping_keeps_first_character() {
    assert_eq!(char_keystrokes('\u{130}'), shifted('i'));
}

#[test]
fn titlecase_letter_is_lowercased_without_shift() {
    assert_eq!(char_keystrokes('\u{1c5}'), vec![click('\u{1c6}')]);
}

#[test]
fn chunk_hi_is_shift_h_then_i() {
    assert_eq!(
        text_keystrokes("Hi"),
        vec![
            Keystroke::Down(LogicalKey::Shift),
            Keystroke::Click(LogicalKey::Layout('h')),
            Keystroke::Up(LogicalKey::Shift),
            Keystroke::Click(LogicalKey::Layout('i')),
        ]
    );
}

#[test]
fn empty_text_has_no_keystrokes() {
    assert_eq!(text_keystrokes(""), Vec::new());
}

#[test]
fn text_is_typed_in_order() {
    assert_eq!(
        text_keystrokes("a B\u{e9}"),
        vec![
            click('a'),
            click(' '),
            Keystroke::Down(LogicalKey::Shift),
            click('b'),
            Keystroke::Up(LogicalKey::Shift),
            click('\u{e9}'),
        ]
    );
}

#[test]
fn text_keystrokes_join_character_keystrokes() {
    let text = "Hello, World! 42";
    let mut expected = Vec::new();
    for c in text.chars() {
        expected.extend(char_keystrokes(c));
    }
    assert_eq!(text_keystrokes(text), expected);
}

#[test]
fn typing_a_concatenation_is_typing_both_parts() {
    let mut joined = text_keystrokes("He");
    joined.extend(text_keystrokes("llo"));
    assert_eq!(text_keystrokes("Hello"), joined);
}
