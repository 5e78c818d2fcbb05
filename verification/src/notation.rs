//! Display form of a move's standard notation: the piece letter becomes the
//! figurine of the side that moved.

use vstd::prelude::*;
use vstd::string::*;

verus! {

/// The letters by which standard notation names the pieces other than pawns.
pub open spec fn is_piece_letter(c: char) -> bool {
    c == 'N' || c == 'B' || c == 'R' || c == 'Q' || c == 'K'
}

/// The figurine that stands for a piece letter: the outlined set for White,
/// the filled set for Black. Any other character stands for itself.
pub open spec fn glyph(c: char, white: bool) -> char {
    if c == 'N' {
        if white { '\u{2658}' } else { '\u{265e}' }
    } else if c == 'B' {
        if white { '\u{2657}' } else { '\u{265d}' }
    } else if c == 'R' {
        if white { '\u{2656}' } else { '\u{265c}' }
    } else if c == 'Q' {
        if white { '\u{2655}' } else { '\u{265b}' }
    } else if c == 'K' {
        if white { '\u{2654}' } else { '\u{265a}' }
    } else {
        c
    }
}

/// The first index at or after `from` that holds a piece letter, or the
/// length of `s` when there is none.
pub open spec fn piece_letter_from(s: Seq<char>, from: int) -> int
    decreases s.len() - from,
{
    if from < 0 || from >= s.len() {
        s.len() as int
    } else if is_piece_letter(s[from]) {
        from
    } else {
        piece_letter_from(s, from + 1)
    }
}

/// The index of the first piece letter of `s`, or the length of `s` for a
/// notation without one (a pawn move).
pub open spec fn first_piece_letter(s: Seq<char>) -> int {
    piece_letter_from(s, 0)
}

/// The display form of a notation: its first piece letter replaced by the
/// figurine of the side that moved, everything else as it was.
pub open spec fn display_form(s: Seq<char>, white: bool) -> Seq<char> {
    let at = first_piece_letter(s);
    if at < s.len() {
        s.update(at, glyph(s[at], white))
    } else {
        s
    }
}

/// The scan stops at the first piece letter at or after `from`, or at the end.
proof fn lemma_piece_letter_from(s: Seq<char>, from: int)
    requires
        0 <= from <= s.len(),
    ensures
        from <= piece_letter_from(s, from) <= s.len(),
        forall|i: int| from <= i < piece_letter_from(s, from) ==> !is_piece_letter(s[i]),
        piece_letter_from(s, from) < s.len() ==> is_piece_letter(s[piece_letter_from(s, from)]),
    decreases s.len() - from,
{
    if from < s.len() && !is_piece_letter(s[from]) {
        lemma_piece_letter_from(s, from + 1);
    }
}

/// `first_piece_letter` is the place of the first piece letter: no piece
/// letter stands before it, and one stands there unless it is the length.
pub proof fn lemma_first_piece_letter(s: Seq<char>)
    ensures
        0 <= first_piece_letter(s) <= s.len(),
        forall|i: int| 0 <= i < first_piece_letter(s) ==> !is_piece_letter(s[i]),
        first_piece_letter(s) < s.len() ==> is_piece_letter(s[first_piece_letter(s)]),
{
    lemma_piece_letter_from(s, 0);
}

/// The display form differs from the notation in one character at most: the
/// first piece letter, which becomes a figurine. A notation without a piece
/// letter is its own display form.
pub proof fn lemma_one_substitution(s: Seq<char>, white: bool)
    ensures
        display_form(s, white).len() == s.len(),
        forall|i: int|
            0 <= i < s.len() && i != first_piece_letter(s) ==> display_form(s, white)[i] == s[i],
        first_piece_letter(s) < s.len() ==> {
            &&& display_form(s, white)[first_piece_letter(s)] == glyph(s[first_piece_letter(s)], white)
            &&& display_form(s, white)[first_piece_letter(s)] != s[first_piece_letter(s)]
        },
        first_piece_letter(s) == s.len() ==> display_form(s, white) == s,
{
    lemma_first_piece_letter(s);
}

/// Tells whether a character is a piece letter.
fn is_piece(c: char) -> (r: bool)
    ensures
        r == is_piece_letter(c),
{
    c == 'N' || c == 'B' || c == 'R' || c == 'Q' || c == 'K'
}

/// The figurine of a piece letter, as a text of one character.
fn glyph_text(c: char, white: bool) -> (r: &'static str)
    requires
        is_piece_letter(c),
    ensures
        r@ == seq![glyph(c, white)],
{
    proof {
        reveal_strlit("\u{2658}");
        reveal_strlit("\u{265e}");
        reveal_strlit("\u{2657}");
        reveal_strlit("\u{265d}");
        reveal_strlit("\u{2656}");
        reveal_strlit("\u{265c}");
        reveal_strlit("\u{2655}");
        reveal_strlit("\u{265b}");
        reveal_strlit("\u{2654}");
        reveal_strlit("\u{265a}");
    }
    let r = if c == 'N' {
        if white { "\u{2658}" } else { "\u{265e}" }
    } else if c == 'B' {
        if white { "\u{2657}" } else { "\u{265d}" }
    } else if c == 'R' {
        if white { "\u{2656}" } else { "\u{265c}" }
    } else if c == 'Q' {
        if white { "\u{2655}" } else { "\u{265b}" }
    } else {
        if white { "\u{2654}" } else { "\u{265a}" }
    };
    assert(r@ =~= seq![glyph(c, white)]);
    r
}

/// Turns standard notation into its display form.
pub fn san_to_fan(move_san: String, white_move: bool) -> (fan: String)
    ensures
        fan@ == display_form(move_san@, white_move),
{
    let text = move_san.as_str();
    let len = text.unicode_len();
    let mut at: usize = 0;
    while at < len
        invariant
            text@ == move_san@,
            len == text@.len(),
            at <= len,
            first_piece_letter(text@) == piece_letter_from(text@, at as int),
        decreases len - at,
    {
        let c = text.get_char(at);
        if is_piece(c) {
            let mut fan = String::from_str(text.substring_char(0, at));
            fan.append(glyph_text(c, white_move));
            fan.append(text.substring_char(at + 1, len));
            assert(fan@ =~= text@.update(at as int, glyph(c, white_move)));
            return fan;
        }
        at += 1;
    }
    move_san
}

} // verus!
