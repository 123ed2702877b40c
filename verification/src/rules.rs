//! The game itself, kept by the `chess` crate.
//!
//! A [`GameState`] holds a `chess::Game` and reaches it through the functions
//! at the end of this file. Their contracts are taken from the `chess` crate's
//! source and are not proved here. What the rules of chess answer is named,
//! not spelled out: [`rules_accept`], [`rules_decided`] and [`position_text`]
//! stand for what the `chess` crate computes.

use crate::model::{Color, Move, Piece, Square};
use crate::notation::square_of;
use vstd::prelude::*;

verus! {

/// `chess::Game`: a starting position and what has happened since.
#[verifier::external_type_specification]
#[verifier::external_body]
pub struct ExGame(chess::Game);

/// The moves that a game holds, the oldest first.
pub uninterp spec fn game_moves(game: chess::Game) -> Seq<Move>;

/// The game was begun at the opening position of chess, and holds nothing but
/// moves between squares of the board.
pub uninterp spec fn game_is_plain(game: chess::Game) -> bool;

/// The game that began at the opening position and went on with `played` is
/// not over, and `mv` is legal in the position it has reached.
pub uninterp spec fn rules_accept(played: Seq<Move>, mv: Move) -> bool;

/// The game that began at the opening position and went on with `played` has
/// ended, in checkmate or in stalemate.
pub uninterp spec fn rules_decided(played: Seq<Move>) -> bool;

/// The position that `played` leads to from the opening position, in
/// Forsyth-Edwards notation.
pub uninterp spec fn position_text(played: Seq<Move>) -> Seq<char>;

/// The side that moves next after `played`: White opens, and the sides
/// alternate.
pub open spec fn mover_after(played: Seq<Move>) -> Color {
    if played.len() % 2 == 0 {
        Color::White
    } else {
        Color::Black
    }
}

/// The state of one game of chess from the opening position: the moves made
/// so far. The rules are the `chess` crate's.
pub struct GameState {
    record: chess::Game,
}

impl View for GameState {
    type V = Seq<Move>;

    closed spec fn view(&self) -> Seq<Move> {
        game_moves(self.record)
    }
}

impl GameState {
    #[verifier::type_invariant]
    spec fn plain(&self) -> bool {
        game_is_plain(self.record)
    }

    /// A game at the opening position.
    pub fn new() -> (state: Self)
        ensures
            state@ == Seq::<Move>::empty(),
    {
        GameState { record: game_new() }
    }

    /// The side whose turn it is.
    pub fn side_to_move(&self) -> (side: Color)
        ensures
            side == mover_after(self@),
    {
        proof {
            use_type_invariant(self);
        }
        game_side_to_move(&self.record)
    }

    /// Whether the game has ended.
    pub fn is_decided(&self) -> (decided: bool)
        ensures
            decided == rules_decided(self@),
    {
        proof {
            use_type_invariant(self);
        }
        game_has_result(&self.record)
    }

    /// The current position in Forsyth-Edwards notation.
    pub fn current_position(&self) -> (text: String)
        ensures
            text@ == position_text(self@),
    {
        proof {
            use_type_invariant(self);
        }
        game_current_position(&self.record)
    }

    /// Makes `mv` if the game is not over and the move is legal, and tells
    /// whether it did. A move that is refused leaves the game as it was.
    pub fn make_move(&mut self, mv: &Move) -> (accepted: bool)
        requires
            mv.wf(),
        ensures
            accepted == rules_accept(old(self)@, *mv),
            final(self)@ == if accepted {
                old(self)@.push(*mv)
            } else {
                old(self)@
            },
        no_unwind
    {
        proof {
            use_type_invariant(&*self);
        }
        game_make_move(&mut self.record, mv)
    }
}

/// `chess::Square::from_string` on the text made of the two characters: a
/// square comes back exactly when the first is a letter from `a` to `h` and
/// the second a digit from `1` to `8`, and it is the square they name.
#[verifier::external_body]
#[allow(deprecated)]
pub(crate) fn square_from_string(file: char, rank: char) -> (square: Option<Square>)
    ensures
        square == square_of(file, rank),
{
    let mut text = String::new();
    text.push(file);
    text.push(rank);
    match chess::Square::from_string(text) {
        Some(found) => Some(Square {
            file: found.get_file().to_index() as u8,
            rank: found.get_rank().to_index() as u8,
        }),
        None => None,
    }
}

/// `chess::Game::new`: a game at the opening position that holds no move.
#[verifier::external_body]
fn game_new() -> (game: chess::Game)
    ensures
        game_is_plain(game),
        game_moves(game) == Seq::<Move>::empty(),
{
    chess::Game::new()
}

/// `chess::Game::side_to_move`: in a game from the opening position White is
/// to move after an even number of moves, Black after an odd number.
#[verifier::external_body]
fn game_side_to_move(game: &chess::Game) -> (side: Color)
    requires
        game_is_plain(*game),
    ensures
        side == mover_after(game_moves(*game)),
{
    match game.side_to_move() {
        chess::Color::White => Color::White,
        chess::Color::Black => Color::Black,
    }
}

/// `chess::Game::result`, asked only whether there is one. A game that holds
/// nothing but moves has a result when its position is checkmate or
/// stalemate.
#[verifier::external_body]
fn game_has_result(game: &chess::Game) -> (over: bool)
    requires
        game_is_plain(*game),
    ensures
        over == rules_decided(game_moves(*game)),
{
    game.result().is_some()
}

/// `chess::Game::current_position`, written out as the `chess` crate writes a
/// board: in Forsyth-Edwards notation.
#[verifier::external_body]
fn game_current_position(game: &chess::Game) -> (text: String)
    requires
        game_is_plain(*game),
    ensures
        text@ == position_text(game_moves(*game)),
{
    format!("{}", game.current_position())
}

/// `chess::Game::make_move`: the move is added at the end when the game has
/// no result yet and the move is legal in the current position; otherwise the
/// game stays as it was. The answer tells which.
#[verifier::external_body]
fn game_make_move(game: &mut chess::Game, mv: &Move) -> (accepted: bool)
    requires
        game_is_plain(*old(game)),
        mv.wf(),
    ensures
        accepted == rules_accept(game_moves(*old(game)), *mv),
        game_moves(*final(game)) == if accepted {
            game_moves(*old(game)).push(*mv)
        } else {
            game_moves(*old(game))
        },
        game_is_plain(*final(game)),
    no_unwind
{
    let square = |s: &Square| chess::Square::make_square(chess::Rank::from_index(s.rank as usize), chess::File::from_index(s.file as usize));
    let promotion = match mv.promotion {
        None => None,
        Some(Piece::Pawn) => Some(chess::Piece::Pawn),
        Some(Piece::Knight) => Some(chess::Piece::Knight),
        Some(Piece::Bishop) => Some(chess::Piece::Bishop),
        Some(Piece::Rook) => Some(chess::Piece::Rook),
        Some(Piece::Queen) => Some(chess::Piece::Queen),
        Some(Piece::King) => Some(chess::Piece::King),
    };
    game.make_move(chess::ChessMove::new(square(&mv.source), square(&mv.destination), promotion))
}

} // verus!
