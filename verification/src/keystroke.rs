//! Simulated key events, and the keystrokes that type a piece of text.

use crate::unicode::{char_is_uppercase, char_to_lowercase, is_uppercase, lowercase_mapping};
use vstd::prelude::*;

verus! {

/// A key as the output sink knows it.
#[derive(Clone, Copy, Debug, PartialEq, Eq, Structural)]
pub enum LogicalKey {
    /// The shift modifier.
    Shift,
    /// The key that produces the given character on the active layout.
    Layout(char),
}

/// One simulated key event.
#[derive(Clone, Copy, Debug, PartialEq, Eq, Structural)]
pub enum Keystroke {
    /// Press the key and keep it held.
    Down(LogicalKey),
    /// Release a held key.
    Up(LogicalKey),
    /// Press and release the key.
    Click(LogicalKey),
}

/// The keystrokes that type the key `base`, with shift held if `shifted`.
pub open spec fn strokes(shifted: bool, base: char) -> Seq<Keystroke> {
    if shifted {
        seq![
            Keystroke::Down(LogicalKey::Shift),
            Keystroke::Click(LogicalKey::Layout(base)),
            Keystroke::Up(LogicalKey::Shift),
        ]
    } else {
        seq![Keystroke::Click(LogicalKey::Layout(base))]
    }
}

/// The first character of `mapping`, or `c` itself if `mapping` is empty.
pub open spec fn first_or(mapping: Seq<char>, c: char) -> char {
    if mapping.len() > 0 {
        mapping[0]
    } else {
        c
    }
}

/// The key that is clicked for `c`: the first character of its lowercase
/// mapping. A character without a lowercase form is its own key.
pub open spec fn base_key(c: char) -> char {
    first_or(lowercase_mapping(c), c)
}

/// The keystrokes that type `c`: its base key, wrapped in shift if `c` is
/// uppercase.
pub open spec fn char_strokes(c: char) -> Seq<Keystroke> {
    strokes(is_uppercase(c), base_key(c))
}

/// The keystrokes that type `text`, character by character in order.
pub open spec fn text_strokes(text: Seq<char>) -> Seq<Keystroke>
    decreases text.len(),
{
    if text.len() == 0 {
        Seq::empty()
    } else {
        text_strokes(text.drop_last()) + char_strokes(text.last())
    }
}

/// Typing a concatenation is typing the first part, then the second.
pub proof fn lemma_text_strokes_concat(a: Seq<char>, b: Seq<char>)
    ensures
        text_strokes(a + b) == text_strokes(a) + text_strokes(b),
    decreases b.len(),
{
    if b.len() == 0 {
        assert(a + b =~= a);
        assert(text_strokes(a) + text_strokes(b) =~= text_strokes(a));
    } else {
        lemma_text_strokes_concat(a, b.drop_last());
        assert((a + b).drop_last() =~= a + b.drop_last());
        assert((a + b).last() == b.last());
        assert(text_strokes(a + b) =~= text_strokes(a) + text_strokes(b));
    }
}

/// Typing a single character is typing that character.
pub proof fn lemma_text_strokes_single(c: char)
    ensures
        text_strokes(seq![c]) == char_strokes(c),
{
    let text = seq![c];
    assert(text.drop_last() =~= Seq::<char>::empty());
    assert(text_strokes(text.drop_last()) =~= Seq::<Keystroke>::empty());
    assert(text.last() == c);
    assert(text_strokes(text) =~= char_strokes(c));
}

/// The keystrokes for one key: a single click, or a click between shift-down
/// and shift-up.
pub fn keystrokes(shifted: bool, base: char) -> (out: Vec<Keystroke>)
    ensures
        out@ == strokes(shifted, base),
{
    let mut out: Vec<Keystroke> = Vec::new();
    if shifted {
        out.push(Keystroke::Down(LogicalKey::Shift));
    }
    out.push(Keystroke::Click(LogicalKey::Layout(base)));
    if shifted {
        out.push(Keystroke::Up(LogicalKey::Shift));
    }
    assert(out@ =~= strokes(shifted, base));
    out
}

/// The keystrokes for `c`, given what the case tables say of it: whether it
/// is uppercase, and its lowercase mapping.
pub fn keystrokes_for_case(c: char, uppercase: bool, mapping: &Vec<char>) -> (out: Vec<Keystroke>)
    ensures
        out@ == strokes(uppercase, first_or(mapping@, c)),
{
    let base = if mapping.len() > 0 {
        mapping[0]
    } else {
        c
    };
    keystrokes(uppercase, base)
}

/// The keystrokes that type `c`.
pub fn char_keystrokes(c: char) -> (out: Vec<Keystroke>)
    ensures
        out@ == char_strokes(c),
{
    let uppercase = char_is_uppercase(c);
    let mapping = char_to_lowercase(c);
    keystrokes_for_case(c, uppercase, &mapping)
}

/// The keystrokes that type `text`, character by character in order.
pub fn text_keystrokes(text: &str) -> (out: Vec<Keystroke>)
    ensures
        out@ == text_strokes(text@),
{
    let mut out: Vec<Keystroke> = Vec::new();
    for c in it: text.chars()
        invariant
            it.seq() == text@,
            out@ == text_strokes(text@.take(it.index())),
    {
        let mut typed = char_keystrokes(c);
        proof {
            let done = text@.take(it.index());
            assert(text@.take(it.index() + 1) =~= done + seq![c]);
            lemma_text_strokes_concat(done, seq![c]);
            lemma_text_strokes_single(c);
        }
        out.append(&mut typed);
    }
    assert(text@.take(text@.len() as int) =~= text@);
    out
}

} // verus!
