//! The notation in which an engine answers: four or five characters, such as
//! `e2e4` or `a7a8q`, or the word `resign`.
//!
//! [`move_of`] says what a text means once it is in lower case. [`parse`]
//! lowers the text first; [`parse_lowered`] reads a text that already is.

use crate::model::{Move, Piece, Square};
use crate::rules::square_from_string;
use crate::text::{ascii_lower, ascii_lowered, lower_case};
use vstd::prelude::*;
use vstd::utf8::is_ascii_chars;

verus! {

/// The character names a file of the board.
pub open spec fn is_file(c: char) -> bool {
    'a' <= c && c <= 'h'
}

/// The character names a rank of the board.
pub open spec fn is_rank(c: char) -> bool {
    '1' <= c && c <= '8'
}

/// The square that a file letter and a rank digit name, if they name one.
pub open spec fn square_of(file: char, rank: char) -> Option<Square> {
    if is_file(file) && is_rank(rank) {
        Some(Square { file: (file as u8 - 'a' as u8) as u8, rank: (rank as u8 - '1' as u8) as u8 })
    } else {
        None
    }
}

/// The piece that a promotion letter names, if it names one. The knight's
/// letter is `k`.
pub open spec fn promotion_of(letter: char) -> Option<Piece> {
    if letter == 'q' {
        Some(Piece::Queen)
    } else if letter == 'r' {
        Some(Piece::Rook)
    } else if letter == 'k' {
        Some(Piece::Knight)
    } else if letter == 'b' {
        Some(Piece::Bishop)
    } else {
        None
    }
}

/// The move that a lower-case text names, if it names one. The word `resign`
/// names none; nor does a text that is not four or five characters long, one
/// whose first and second pair of characters are not both squares, or one
/// whose fifth character is not a promotion letter.
pub open spec fn move_of(text: Seq<char>) -> Option<Move> {
    if text == "resign"@ || text.len() < 4 || text.len() > 5 {
        None
    } else {
        match (square_of(text[0], text[1]), square_of(text[2], text[3])) {
            (Some(source), Some(destination)) => {
                if text.len() == 4 {
                    Some(Move { source, destination, promotion: None })
                } else {
                    match promotion_of(text[4]) {
                        Some(piece) => Some(Move { source, destination, promotion: Some(piece) }),
                        None => None,
                    }
                }
            },
            _ => None,
        }
    }
}

/// Tells whether a text that is already in lower case is the word `resign`.
pub fn is_resign_word(text: &str) -> (resigns: bool)
    ensures
        resigns == (text@ == "resign"@),
{
    String::from_str(text) == String::from_str("resign")
}

/// Reads a promotion letter.
fn read_promotion(letter: char) -> (piece: Option<Piece>)
    ensures
        piece == promotion_of(letter),
{
    if letter == 'q' {
        Some(Piece::Queen)
    } else if letter == 'r' {
        Some(Piece::Rook)
    } else if letter == 'k' {
        Some(Piece::Knight)
    } else if letter == 'b' {
        Some(Piece::Bishop)
    } else {
        None
    }
}

/// Reads a move from a text that is already in lower case.
pub fn parse_lowered(text: &str) -> (mv: Option<Move>)
    ensures
        mv == move_of(text@),
{
    if is_resign_word(text) {
        return None;
    }
    let count: usize = text.unicode_len();
    if count < 4 || count > 5 {
        return None;
    }
    let source = match square_from_string(text.get_char(0), text.get_char(1)) {
        Some(square) => square,
        None => {
            return None;
        },
    };
    let destination = match square_from_string(text.get_char(2), text.get_char(3)) {
        Some(square) => square,
        None => {
            return None;
        },
    };
    if count == 4 {
        return Some(Move { source, destination, promotion: None });
    }
    match read_promotion(text.get_char(4)) {
        Some(piece) => Some(Move { source, destination, promotion: Some(piece) }),
        None => None,
    }
}

/// Reads a move from an engine's answer, whatever the case of its letters.
///
/// The answer is put in lower case by `str::to_lowercase` and then read by
/// [`move_of`]. For an answer of ASCII characters alone [`lower_case`] spells
/// the lower-case form out, and so the result is known.
pub fn parse(text: &str) -> (mv: Option<Move>)
    ensures
        mv == move_of(lower_case(text@)),
        mv matches Some(read) ==> read.wf(),
{
    let lowered = text.to_lowercase();
    let mv = parse_lowered(lowered.as_str());
    proof {
        lemma_moves_lie_on_the_board(lowered@);
    }
    mv
}

/// Tells whether an engine's answer is the word `resign`, whatever the case
/// of its letters. [`parse`] reads no move from such an answer; this is how a
/// caller tells giving up from an answer that cannot be read.
pub fn is_resignation(text: &str) -> (resigns: bool)
    ensures
        resigns == (lower_case(text@) == "resign"@),
        resigns ==> move_of(lower_case(text@)) is None,
{
    let lowered = text.to_lowercase();
    is_resign_word(lowered.as_str())
}

/// A move that is read from a text lies on the board.
pub proof fn lemma_moves_lie_on_the_board(text: Seq<char>)
    ensures
        move_of(text) matches Some(mv) ==> mv.wf(),
{
}

/// Lower-casing leaves the length of an ASCII text as it is, and changes no
/// character but a capital letter.
pub proof fn lemma_ascii_lowered(text: Seq<char>)
    ensures
        ascii_lowered(text).len() == text.len(),
        forall|i: int|
            0 <= i < text.len() ==> #[trigger] ascii_lowered(text)[i] == ascii_lower(text[i]),
        (forall|i: int| 0 <= i < text.len() ==> !('A' <= #[trigger] text[i] && text[i] <= 'Z'))
            ==> ascii_lowered(text) == text,
{
    if forall|i: int| 0 <= i < text.len() ==> !('A' <= #[trigger] text[i] && text[i] <= 'Z') {
        assert(ascii_lowered(text) =~= text);
    }
}

/// Every text of four characters that names two squares is read as the move
/// from the first square to the second, without a promotion. Such a text is
/// ASCII and has no capital letter, so lower-casing leaves it as it is.
pub proof fn lemma_plain_move(text: Seq<char>)
    requires
        text.len() == 4,
        is_file(text[0]),
        is_rank(text[1]),
        is_file(text[2]),
        is_rank(text[3]),
    ensures
        lower_case(text) == text,
        move_of(lower_case(text)) == Some(
            Move {
                source: Square {
                    file: (text[0] as u8 - 'a' as u8) as u8,
                    rank: (text[1] as u8 - '1' as u8) as u8,
                },
                destination: Square {
                    file: (text[2] as u8 - 'a' as u8) as u8,
                    rank: (text[3] as u8 - '1' as u8) as u8,
                },
                promotion: None,
            },
        ),
{
    reveal_strlit("resign");
    lemma_ascii_lowered(text);
}

/// Every text of five characters that names two squares and ends in one of
/// `q`, `r`, `k` and `b` is read as the move between the squares with the
/// promotion that the letter names: queen, rook, knight, bishop.
pub proof fn lemma_promotion_move(text: Seq<char>)
    requires
        text.len() == 5,
        is_file(text[0]),
        is_rank(text[1]),
        is_file(text[2]),
        is_rank(text[3]),
        text[4] == 'q' || text[4] == 'r' || text[4] == 'k' || text[4] == 'b',
    ensures
        lower_case(text) == text,
        move_of(lower_case(text)) == Some(
            Move {
                source: Square {
                    file: (text[0] as u8 - 'a' as u8) as u8,
                    rank: (text[1] as u8 - '1' as u8) as u8,
                },
                destination: Square {
                    file: (text[2] as u8 - 'a' as u8) as u8,
                    rank: (text[3] as u8 - '1' as u8) as u8,
                },
                promotion: Some(
                    if text[4] == 'q' {
                        Piece::Queen
                    } else if text[4] == 'r' {
                        Piece::Rook
                    } else if text[4] == 'k' {
                        Piece::Knight
                    } else {
                        Piece::Bishop
                    },
                ),
            },
        ),
{
    reveal_strlit("resign");
    lemma_ascii_lowered(text);
}

/// A text of five characters names no move when its fifth character is none
/// of `q`, `r`, `k` and `b`. For an ASCII text that is still to be put in
/// lower case this holds when the fifth character is none of these letters
/// in either case.
pub proof fn lemma_other_fifth_character(text: Seq<char>)
    requires
        text.len() == 5,
    ensures
        promotion_of(text[4]) is None ==> move_of(text) is None,
        is_ascii_chars(text) && promotion_of(ascii_lower(text[4])) is None ==> move_of(
            lower_case(text),
        ) is None,
{
    lemma_ascii_lowered(text);
}

/// The word `resign` names no move, in whatever case its letters are
/// written.
pub proof fn lemma_resign_is_no_move(text: Seq<char>)
    requires
        is_ascii_chars(text),
        ascii_lowered(text) == "resign"@,
    ensures
        lower_case(text) == "resign"@,
        move_of(lower_case(text)) is None,
{
}

/// A text shorter than four characters or longer than five names no move.
/// Lower-casing an ASCII text does not change its length, so this holds of
/// such a text before and after.
pub proof fn lemma_length_out_of_range(text: Seq<char>)
    requires
        text.len() < 4 || text.len() > 5,
    ensures
        move_of(text) is None,
        is_ascii_chars(text) ==> move_of(lower_case(text)) is None,
{
    lemma_ascii_lowered(text);
}

} // verus!
