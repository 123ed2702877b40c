//! The match itself: two sides, one game, and at most one engine at work.
//!
//! [`ChessApp::update_moves`] is called on every tick of the program's main
//! loop and never waits. It looks at the side to move and either does
//! nothing, prepares an engine invocation, or polls the promise of the one
//! that is running and acts on its reply.

use crate::engine_player::{Engine, EngineOrPlayer, EngineView, Invocation, MovePromise};
use crate::model::{Color, Move};
use crate::notation::{is_resignation, move_of, parse};
use crate::rules::{mover_after, position_text, rules_accept, rules_decided, GameState};
use crate::text::{lemma_trimmed_is, lower_case, trimmed};
use vstd::prelude::*;

verus! {

/// Why a side loses its place at the board.
pub enum Fault {
    /// The engine could not be run, or did not end well. The message says
    /// what happened.
    Process(String),
    /// The engine answered `resign`.
    Resigned,
    /// The engine's answer, given here without the white space around it,
    /// names no move.
    Unparsable(String),
    /// The engine named a move that the rules do not allow.
    Illegal(Move),
}

impl Fault {
    /// The line to show for this fault. Each kind has its own.
    pub fn message(&self) -> (line: String)
        ensures
            line@ == match *self {
                Fault::Process(message) => message@,
                Fault::Resigned => "Bot resigned!"@,
                Fault::Unparsable(_) => "Bot returned an unparsable move!"@,
                Fault::Illegal(_) => "Move was illegal or lead to checkmate!"@,
            },
    {
        match self {
            Fault::Process(message) => message.clone(),
            Fault::Resigned => String::from_str("Bot resigned!"),
            Fault::Unparsable(_) => String::from_str("Bot returned an unparsable move!"),
            Fault::Illegal(_) => String::from_str("Move was illegal or lead to checkmate!"),
        }
    }
}

/// What one tick did.
pub enum Outcome {
    /// Nothing: a side is not picked yet, a person is to move, or the engine
    /// to move has no confirmed path.
    Waiting,
    /// The engine to move is to be asked: a worker must run this invocation.
    Launched(Invocation),
    /// The engine to move has not replied yet.
    Thinking,
    /// The engine's move was taken.
    Played(Move),
    /// The side to move loses its place.
    Forfeit(Fault),
}

/// What a [`ChessApp`] holds.
pub struct AppView {
    /// Who plays White, once picked.
    pub white: Option<EngineOrPlayer>,
    /// Who plays Black, once picked.
    pub black: Option<EngineOrPlayer>,
    /// The moves of the game so far.
    pub moves: Seq<Move>,
    /// The promise of the engine that is at work, if one is.
    pub promise: Option<MovePromise>,
    /// The position has changed since the board was last drawn.
    pub board_changed: bool,
}

impl AppView {
    /// Who plays the side of the given colour.
    pub open spec fn side(self, color: Color) -> Option<EngineOrPlayer> {
        match color {
            Color::White => self.white,
            Color::Black => self.black,
        }
    }

    /// The side whose turn it is.
    pub open spec fn to_move(self) -> Color {
        mover_after(self.moves)
    }

    /// The side to move is an engine with a confirmed path.
    pub open spec fn engine_to_move(self) -> bool {
        self.side(self.to_move()) matches Some(side) && side.is_ready_engine()
    }

    /// A promise is held only for the side to move, and only if that side is
    /// an engine with a confirmed path.
    pub open spec fn well_formed(self) -> bool {
        self.promise is Some ==> self.engine_to_move()
    }

    /// What acting on an engine's answer comes to. `shown` is the answer
    /// without the white space around it and `word` is `shown` in lower
    /// case. The word `resign` is a fault, and so is a word that names no
    /// move; neither touches the game. A move is offered to the rules: it
    /// counts as played if they take it or the game is over already, and is
    /// a fault otherwise.
    pub open spec fn answered(
        self,
        word: Seq<char>,
        shown: Seq<char>,
        after: AppView,
        outcome: Outcome,
    ) -> bool {
        if word == "resign"@ {
            outcome == Outcome::Forfeit(Fault::Resigned) && after == self
        } else {
            match move_of(word) {
                None => {
                    &&& outcome matches Outcome::Forfeit(Fault::Unparsable(text))
                    &&& text@ == shown
                    &&& after == self
                },
                Some(mv) => {
                    &&& outcome == if rules_accept(self.moves, mv) || rules_decided(self.moves) {
                        Outcome::Played(mv)
                    } else {
                        Outcome::Forfeit(Fault::Illegal(mv))
                    }
                    &&& after == (AppView {
                        moves: if rules_accept(self.moves, mv) {
                            self.moves.push(mv)
                        } else {
                            self.moves
                        },
                        board_changed: true,
                        ..self
                    })
                },
            }
        }
    }

    /// What holds once an engine's reply has been acted on, whatever the
    /// reply was. The promise is gone and both sides are who they were. A
    /// move that was read has been offered to the rules: it counts as played
    /// if they took it or the game was over already, and is illegal
    /// otherwise. Any other fault leaves the game untouched.
    pub open spec fn settled(self, after: AppView, outcome: Outcome) -> bool {
        &&& after.white == self.white
        &&& after.black == self.black
        &&& after.promise is None
        &&& match outcome {
            Outcome::Played(mv) => {
                &&& mv.wf()
                &&& rules_accept(self.moves, mv) || rules_decided(self.moves)
                &&& after.moves == if rules_accept(self.moves, mv) {
                    self.moves.push(mv)
                } else {
                    self.moves
                }
                &&& after.board_changed
            },
            Outcome::Forfeit(Fault::Illegal(mv)) => {
                &&& mv.wf()
                &&& !rules_accept(self.moves, mv)
                &&& !rules_decided(self.moves)
                &&& after.moves == self.moves
                &&& after.board_changed
            },
            Outcome::Forfeit(_) => {
                &&& after.moves == self.moves
                &&& after.board_changed == self.board_changed
            },
            _ => false,
        }
    }

    /// The match once the side of the given colour has lost its place: that
    /// side is to be picked anew, the other side is who it was, and the game
    /// starts over.
    pub open spec fn unseated(self, color: Color) -> AppView {
        match color {
            Color::White => AppView {
                white: None,
                moves: Seq::<Move>::empty(),
                board_changed: true,
                ..self
            },
            Color::Black => AppView {
                black: None,
                moves: Seq::<Move>::empty(),
                board_changed: true,
                ..self
            },
        }
    }

    /// The match while its promise is out to be polled.
    pub open spec fn promise_taken(self) -> AppView {
        AppView { promise: None, ..self }
    }

    /// A poll of the promise held can answer this: any reply, or the very
    /// promise that was held.
    pub open spec fn poll_may_give(self, polled: Result<Result<String, String>, MovePromise>) -> bool {
        polled matches Err(kept) ==> self.promise == Some(kept)
    }

    /// What acting on an engine's reply comes to. An error is a fault and
    /// changes nothing. An answer is freed of the white space at its ends,
    /// put in lower case, and acted on as [`AppView::answered`] says.
    pub open spec fn concluded(
        self,
        reply: Result<String, String>,
        after: AppView,
        outcome: Outcome,
    ) -> bool {
        match reply {
            Err(message) => outcome == Outcome::Forfeit(Fault::Process(message)) && after == self,
            Ok(answer) => self.answered(
                lower_case(trimmed(answer@)),
                trimmed(answer@),
                after,
                outcome,
            ),
        }
    }

    /// What a step comes to once the promise has been polled. If the poll
    /// gave the promise back, the promise is kept, nothing else changes, and
    /// the engine is still thinking. If it gave the reply, the reply is
    /// acted on as [`AppView::concluded`] says and no promise is left.
    pub open spec fn resumed(
        self,
        polled: Result<Result<String, String>, MovePromise>,
        after: AppView,
        outcome: Outcome,
    ) -> bool {
        match polled {
            Err(promise) => outcome is Thinking && after == (AppView {
                promise: Some(promise),
                ..self
            }),
            Ok(reply) => self.concluded(reply, after, outcome),
        }
    }

    /// What a whole tick comes to once the promise has been polled: the
    /// step that [`AppView::resumed`] describes, and after a forfeit the side
    /// to move loses its place.
    pub open spec fn advanced(
        self,
        polled: Result<Result<String, String>, MovePromise>,
        after: AppView,
        outcome: Outcome,
    ) -> bool {
        exists|mid: AppView| #[trigger]
            self.resumed(polled, mid, outcome) && after == if outcome is Forfeit {
                mid.unseated(self.to_move())
            } else {
                mid
            }
    }

    /// A step that polls the promise held comes, for something that the poll
    /// may give, to what [`AppView::resumed`] says.
    pub open spec fn polled(self, after: AppView, outcome: Outcome) -> bool {
        exists|given: Result<Result<String, String>, MovePromise>| #[trigger]
            self.poll_may_give(given) && self.promise_taken().resumed(given, after, outcome)
    }

    /// A tick that polls the promise held comes, for something that the poll
    /// may give, to what [`AppView::advanced`] says.
    pub open spec fn ticked(self, after: AppView, outcome: Outcome) -> bool {
        exists|given: Result<Result<String, String>, MovePromise>| #[trigger]
            self.poll_may_give(given) && self.promise_taken().advanced(given, after, outcome)
    }
}

/// Every forfeit ends alike, whatever the fault: the side that was to move
/// has lost its place, the other side is who it was, and the game is back at
/// the opening position.
pub proof fn lemma_every_forfeit_ends_alike(
    before: AppView,
    polled: Result<Result<String, String>, MovePromise>,
    after: AppView,
    outcome: Outcome,
)
    requires
        before.advanced(polled, after, outcome),
        outcome is Forfeit,
    ensures
        after == before.unseated(before.to_move()),
        after.side(before.to_move()) is None,
        after.side(before.to_move().other()) == before.side(before.to_move().other()),
        after.moves == Seq::<Move>::empty(),
        after.to_move() == Color::White,
        after.promise == before.promise,
{
    let mid = choose|mid: AppView| #[trigger]
        before.resumed(polled, mid, outcome) && after == if outcome is Forfeit {
            mid.unseated(before.to_move())
        } else {
            mid
        };
    assert(after == before.unseated(before.to_move()));
}

/// An engine that answers `resign`, in whatever case and with whatever white
/// space around it, forfeits for having resigned. It alone loses its place:
/// the other side is who it was, and the game is back at the opening
/// position.
pub proof fn lemma_resigning_unseats_only_the_mover(
    before: AppView,
    answer: String,
    after: AppView,
    outcome: Outcome,
)
    requires
        lower_case(trimmed(answer@)) == "resign"@,
        before.advanced(Ok(Ok(answer)), after, outcome),
    ensures
        outcome == Outcome::Forfeit(Fault::Resigned),
        after == before.unseated(before.to_move()),
        after.side(before.to_move()) is None,
        after.side(before.to_move().other()) == before.side(before.to_move().other()),
        after.moves == Seq::<Move>::empty(),
        after.to_move() == Color::White,
{
    lemma_every_forfeit_ends_alike(before, Ok(Ok(answer)), after, outcome);
}

/// An answer that names no move ends as `resign` does: from the same match
/// both are forfeits and both leave the same match behind. Only the fault
/// that is reported differs.
pub proof fn lemma_malformed_ends_as_resign(
    before: AppView,
    malformed: String,
    after_malformed: AppView,
    outcome_malformed: Outcome,
    resign: String,
    after_resign: AppView,
    outcome_resign: Outcome,
)
    requires
        move_of(lower_case(trimmed(malformed@))) is None,
        before.advanced(Ok(Ok(malformed)), after_malformed, outcome_malformed),
        lower_case(trimmed(resign@)) == "resign"@,
        before.advanced(Ok(Ok(resign)), after_resign, outcome_resign),
    ensures
        outcome_malformed is Forfeit,
        outcome_resign is Forfeit,
        after_malformed == after_resign,
        after_resign == before.unseated(before.to_move()),
{
    lemma_every_forfeit_ends_alike(before, Ok(Ok(malformed)), after_malformed, outcome_malformed);
    lemma_every_forfeit_ends_alike(before, Ok(Ok(resign)), after_resign, outcome_resign);
}

/// A match between two sides.
pub struct ChessApp {
    white: Option<EngineOrPlayer>,
    black: Option<EngineOrPlayer>,
    game: GameState,
    board_image_update: bool,
    move_promise: Option<MovePromise>,
}

impl View for ChessApp {
    type V = AppView;

    closed spec fn view(&self) -> AppView {
        AppView {
            white: self.white,
            black: self.black,
            moves: self.game@,
            promise: self.move_promise,
            board_changed: self.board_image_update,
        }
    }
}

impl ChessApp {
    /// See [`AppView::well_formed`]. This holds of every match at all times.
    #[verifier::type_invariant]
    pub open spec fn well_formed(&self) -> bool {
        self@.well_formed()
    }

    /// A match with no side picked, at the opening position.
    pub fn new() -> (app: Self)
        ensures
            app.well_formed(),
            app@ == (AppView {
                white: None,
                black: None,
                moves: Seq::<Move>::empty(),
                promise: None,
                board_changed: false,
            }),
    {
        Self {
            white: None,
            black: None,
            game: GameState::new(),
            board_image_update: false,
            move_promise: None,
        }
    }

    /// Who plays the side of the given colour, once picked.
    pub fn side(&self, color: Color) -> (side: &Option<EngineOrPlayer>)
        ensures
            *side == self@.side(color),
    {
        match color {
            Color::White => &self.white,
            Color::Black => &self.black,
        }
    }

    /// The side whose turn it is.
    pub fn side_to_move(&self) -> (side: Color)
        ensures
            side == self@.to_move(),
    {
        self.game.side_to_move()
    }

    /// The current position in Forsyth-Edwards notation.
    pub fn position(&self) -> (text: String)
        ensures
            text@ == position_text(self@.moves),
    {
        self.game.current_position()
    }

    /// Whether the side of the given colour is an engine at work: it is that
    /// side's turn, and a promise is held.
    pub fn is_thinking(&self, color: Color) -> (thinking: bool)
        ensures
            thinking == (self@.to_move() == color && self@.promise is Some),
    {
        self.game.side_to_move() == color && self.move_promise.is_some()
    }

    /// Tells whether the position has changed since this was last asked, and
    /// forgets that it has.
    pub fn take_board_changed(&mut self) -> (changed: bool)
        ensures
            changed == old(self)@.board_changed,
            final(self)@ == (AppView { board_changed: false, ..old(self)@ }),
    {
        proof {
            use_type_invariant(&*self);
        }
        let changed = self.board_image_update;
        self.board_image_update = false;
        changed
    }

    /// Gives the side of the given colour to `choice` if nobody holds it yet,
    /// and tells whether it did.
    pub fn pick_side(&mut self, color: Color, choice: EngineOrPlayer) -> (picked: bool)
        ensures
            picked == (old(self)@.side(color) is None),
            final(self)@ == if !picked {
                old(self)@
            } else {
                match color {
                    Color::White => AppView { white: Some(choice), ..old(self)@ },
                    Color::Black => AppView { black: Some(choice), ..old(self)@ },
                }
            },
    {
        proof {
            use_type_invariant(&*self);
        }
        match color {
            Color::White => {
                if self.white.is_none() {
                    self.white = Some(choice);
                    true
                } else {
                    false
                }
            },
            Color::Black => {
                if self.black.is_none() {
                    self.black = Some(choice);
                    true
                } else {
                    false
                }
            },
        }
    }

    /// Puts `engine` in the place of the side of the given colour.
    fn seat_engine(&mut self, color: Color, engine: Engine)
        requires
            old(self)@.promise is Some && old(self)@.to_move() == color ==> engine@.locked_in,
        ensures
            final(self)@ == match color {
                Color::White => AppView {
                    white: Some(EngineOrPlayer::Engine(engine)),
                    ..old(self)@
                },
                Color::Black => AppView {
                    black: Some(EngineOrPlayer::Engine(engine)),
                    ..old(self)@
                },
            },
    {
        proof {
            use_type_invariant(&*self);
        }
        match color {
            Color::White => {
                self.white = Some(EngineOrPlayer::Engine(engine));
            },
            Color::Black => {
                self.black = Some(EngineOrPlayer::Engine(engine));
            },
        }
    }

    /// Replaces the path of the engine of the given colour. Nothing changes
    /// if that side is not an engine, or is one whose path has been
    /// confirmed.
    pub fn set_engine_path(&mut self, color: Color, path: String)
        ensures
            final(self)@.side(color.other()) == old(self)@.side(color.other()),
            final(self)@.moves == old(self)@.moves,
            final(self)@.promise == old(self)@.promise,
            final(self)@.board_changed == old(self)@.board_changed,
            match old(self)@.side(color) {
                Some(EngineOrPlayer::Engine(engine)) => if engine@.locked_in {
                    final(self)@ == old(self)@
                } else {
                    final(self)@.side(color) matches Some(EngineOrPlayer::Engine(edited))
                        && edited@ == (EngineView { path: path@, locked_in: false })
                },
                _ => final(self)@ == old(self)@,
            },
    {
        proof {
            use_type_invariant(&*self);
        }
        let edited = match self.side(color) {
            Some(EngineOrPlayer::Engine(engine)) => {
                if engine.locked_in() {
                    None
                } else {
                    let mut copy = engine.clone();
                    copy.set_path(path);
                    Some(copy)
                }
            },
            _ => None,
        };
        match edited {
            Some(engine) => self.seat_engine(color, engine),
            None => {},
        }
    }

    /// Confirms the path of the engine of the given colour, if it has one,
    /// and tells whether that side is now an engine with a confirmed path.
    /// Nothing else changes, and a confirmed engine stays as it is.
    pub fn lock_in_engine(&mut self, color: Color) -> (locked: bool)
        ensures
            final(self)@.side(color.other()) == old(self)@.side(color.other()),
            final(self)@.moves == old(self)@.moves,
            final(self)@.promise == old(self)@.promise,
            final(self)@.board_changed == old(self)@.board_changed,
            match old(self)@.side(color) {
                Some(EngineOrPlayer::Engine(engine)) => if engine@.locked_in {
                    locked && final(self)@ == old(self)@
                } else {
                    &&& locked == (engine@.path.len() > 0)
                    &&& final(self)@.side(color) matches Some(EngineOrPlayer::Engine(confirmed))
                    &&& confirmed@ == (EngineView { path: engine@.path, locked_in: locked })
                },
                _ => !locked && final(self)@ == old(self)@,
            },
    {
        proof {
            use_type_invariant(&*self);
        }
        let confirmed = match self.side(color) {
            Some(EngineOrPlayer::Engine(engine)) => {
                if engine.locked_in() {
                    return true;
                }
                let mut copy = engine.clone();
                if copy.lock_in() {
                    Some(copy)
                } else {
                    None
                }
            },
            _ => None,
        };
        match confirmed {
            Some(engine) => {
                self.seat_engine(color, engine);
                true
            },
            None => false,
        }
    }

    /// Offers a move to the rules and tells whether play goes on: the move
    /// was made, or the game was over already. An illegal move in a game
    /// that is not over gives `false` and changes nothing on the board.
    pub fn play_move(&mut self, cmove: Move) -> (played: bool)
        requires
            cmove.wf(),
            old(self)@.promise is None,
        ensures
            played == (rules_accept(old(self)@.moves, cmove) || rules_decided(old(self)@.moves)),
            final(self)@ == (AppView {
                moves: if rules_accept(old(self)@.moves, cmove) {
                    old(self)@.moves.push(cmove)
                } else {
                    old(self)@.moves
                },
                board_changed: true,
                ..old(self)@
            }),
    {
        self.board_image_update = true;
        if self.game.make_move(&cmove) {
            true
        } else {
            self.game.is_decided()
        }
    }

    /// Reads a move from an engine's answer; see [`parse`].
    pub fn parse_move(&mut self, move_string: String) -> (mv: Option<Move>)
        ensures
            mv == move_of(lower_case(move_string@)),
            mv matches Some(read) ==> read.wf(),
            final(self)@ == old(self)@,
    {
        parse(move_string.as_str())
    }

    /// Acts on an engine's answer that is free of white space at its ends.
    /// The case of its letters does not count: the answer is put in lower
    /// case before it is read. See [`AppView::answered`].
    pub fn apply_answer(&mut self, answer: &str) -> (outcome: Outcome)
        requires
            old(self)@.promise is None,
        ensures
            old(self)@.settled(final(self)@, outcome),
            old(self)@.answered(lower_case(answer@), answer@, final(self)@, outcome),
    {
        if is_resignation(answer) {
            Outcome::Forfeit(Fault::Resigned)
        } else {
            match self.parse_move(answer.to_owned()) {
                None => Outcome::Forfeit(Fault::Unparsable(answer.to_owned())),
                Some(mv) => {
                    if self.play_move(mv) {
                        Outcome::Played(mv)
                    } else {
                        Outcome::Forfeit(Fault::Illegal(mv))
                    }
                },
            }
        }
    }

    /// Acts on the reply of the engine to move, once its promise has handed
    /// it out. An error is a fault and changes nothing. An answer is freed of
    /// the white space at its ends and then acted on as
    /// [`ChessApp::apply_answer`] says.
    pub fn conclude(&mut self, reply: Result<String, String>) -> (outcome: Outcome)
        requires
            old(self)@.promise is None,
        ensures
            old(self)@.settled(final(self)@, outcome),
            old(self)@.concluded(reply, final(self)@, outcome),
    {
        match reply {
            Err(message) => Outcome::Forfeit(Fault::Process(message)),
            Ok(answer) => {
                let inner = answer.as_str().trim();
                proof {
                    lemma_trimmed_is(answer@, inner@);
                }
                self.apply_answer(inner)
            },
        }
    }

    /// Goes on with the step of the engine to move once its promise has
    /// been polled. A promise that comes back is kept, and the engine is
    /// still thinking. A reply is acted on as [`ChessApp::conclude`] says.
    pub fn resume(&mut self, polled: Result<Result<String, String>, MovePromise>) -> (outcome:
        Outcome)
        requires
            old(self)@.promise is None,
            polled is Err ==> old(self)@.engine_to_move(),
        ensures
            old(self)@.resumed(polled, final(self)@, outcome),
            polled is Ok ==> old(self)@.settled(final(self)@, outcome),
    {
        match polled {
            Ok(reply) => self.conclude(reply),
            Err(promise) => {
                self.move_promise = Some(promise);
                Outcome::Thinking
            },
        }
    }

    /// The request for a move of the side of the given colour, if that side
    /// is an engine with a confirmed path.
    fn request_for(&self, color: Color) -> (request: Option<(MovePromise, Invocation)>)
        ensures
            match self@.side(color) {
                Some(EngineOrPlayer::Engine(engine)) => if engine@.locked_in {
                    request matches Some(prepared) && prepared.1.asks(
                        engine@.path,
                        position_text(self@.moves),
                    )
                } else {
                    request is None
                },
                _ => request is None,
            },
    {
        let side = match color {
            Color::White => &self.white,
            Color::Black => &self.black,
        };
        match side {
            Some(EngineOrPlayer::Engine(engine)) => {
                if engine.locked_in() {
                    let position = self.game.current_position();
                    Some(engine.gen_move(position.as_str()))
                } else {
                    None
                }
            },
            _ => None,
        }
    }

    /// One step for the side to move. A person or an engine without a
    /// confirmed path is waited for. An engine that has not been asked yet
    /// is asked, which leaves a promise. An engine that has been asked is
    /// polled once, and the step goes on as [`ChessApp::resume`] says: if
    /// there is no reply yet nothing changes, and if there is one it is acted
    /// on. A fault does not remove the side here; [`ChessApp::update_moves`]
    /// does that.
    pub fn update_move_side(&mut self, side_to_move: Color) -> (outcome: Outcome)
        requires
            old(self)@.side(side_to_move) is Some,
            side_to_move == old(self)@.to_move(),
        ensures
            final(self).well_formed(),
            final(self)@.white == old(self)@.white,
            final(self)@.black == old(self)@.black,
            outcome is Launched ==> old(self)@.promise is None,
            if !old(self)@.engine_to_move() {
                outcome is Waiting && final(self)@ == old(self)@
            } else if old(self)@.promise is None {
                &&& outcome matches Outcome::Launched(invocation)
                &&& invocation.asks(
                    old(self)@.side(side_to_move)->0.engine_path(),
                    position_text(old(self)@.moves),
                )
                &&& final(self)@.promise is Some
                &&& final(self)@ == (AppView { promise: final(self)@.promise, ..old(self)@ })
            } else {
                &&& old(self)@.polled(final(self)@, outcome)
                &&& {
                    ||| outcome is Thinking && final(self)@ == old(self)@
                    ||| old(self)@.settled(final(self)@, outcome)
                }
            },
    {
        proof {
            use_type_invariant(&*self);
        }
        let mut taken: Option<MovePromise> = None;
        std::mem::swap(&mut self.move_promise, &mut taken);
        let outcome = match taken {
            Some(promise) => {
                let polled = promise.poll_recv();
                proof {
                    assert(old(self)@.poll_may_give(polled));
                }
                self.resume(polled)
            },
            None => {
                match self.request_for(side_to_move) {
                    Some((promise, invocation)) => {
                        self.move_promise = Some(promise);
                        Outcome::Launched(invocation)
                    },
                    None => Outcome::Waiting,
                }
            },
        };
        proof {
            use_type_invariant(&*self);
        }
        outcome
    }

    /// Puts the game back to the opening position.
    pub fn reset_game(&mut self)
        requires
            old(self)@.promise is None,
        ensures
            final(self)@ == (AppView {
                moves: Seq::<Move>::empty(),
                board_changed: true,
                ..old(self)@
            }),
    {
        self.game = GameState::new();
        self.board_image_update = true;
    }

    /// Takes the place of the side of the given colour away and starts the
    /// game over. The other side stays who it is.
    pub fn disqualify(&mut self, color: Color)
        requires
            old(self)@.promise is None,
        ensures
            final(self)@ == old(self)@.unseated(color),
    {
        match color {
            Color::White => {
                self.white = None;
            },
            Color::Black => {
                self.black = None;
            },
        }
        self.reset_game();
    }

    /// One tick of the match. Nothing happens until both sides are picked.
    /// Then the side to move takes its step, as
    /// [`ChessApp::update_move_side`] says. A side that forfeits loses its
    /// place and the game starts over, while the other side stays. Where a
    /// promise is polled, [`AppView::advanced`] says what the tick comes to
    /// for each thing that the poll can give.
    pub fn update_moves(&mut self) -> (outcome: Outcome)
        ensures
            final(self).well_formed(),
            outcome is Launched ==> old(self)@.promise is None,
            if old(self)@.white is None || old(self)@.black is None || !old(self)@.engine_to_move() {
                outcome is Waiting && final(self)@ == old(self)@
            } else if old(self)@.promise is None {
                &&& outcome matches Outcome::Launched(invocation)
                &&& invocation.asks(
                    old(self)@.side(old(self)@.to_move())->0.engine_path(),
                    position_text(old(self)@.moves),
                )
                &&& final(self)@.promise is Some
                &&& final(self)@ == (AppView { promise: final(self)@.promise, ..old(self)@ })
            } else {
                &&& old(self)@.ticked(final(self)@, outcome)
                &&& {
                    ||| outcome is Thinking && final(self)@ == old(self)@
                    ||| outcome is Played && old(self)@.settled(final(self)@, outcome)
                    ||| {
                        &&& outcome matches Outcome::Forfeit(fault)
                        &&& fault matches Fault::Illegal(mv) ==> mv.wf() && !rules_accept(
                            old(self)@.moves,
                            mv,
                        ) && !rules_decided(old(self)@.moves)
                        &&& final(self)@ == old(self)@.promise_taken().unseated(
                            old(self)@.to_move(),
                        )
                    }
                }
            },
    {
        proof {
            use_type_invariant(&*self);
        }
        if self.white.is_none() || self.black.is_none() {
            return Outcome::Waiting;
        }
        let side_to_move = self.game.side_to_move();
        let outcome = self.update_move_side(side_to_move);
        let ghost stepped = self@;
        let forfeits = match &outcome {
            Outcome::Forfeit(_) => true,
            _ => false,
        };
        if forfeits {
            self.disqualify(side_to_move);
        }
        proof {
            use_type_invariant(&*self);
            if old(self)@.engine_to_move() && old(self)@.promise is Some {
                let given = choose|given: Result<Result<String, String>, MovePromise>| #[trigger]
                    old(self)@.poll_may_give(given) && old(self)@.promise_taken().resumed(
                        given,
                        stepped,
                        outcome,
                    );
                assert(old(self)@.promise_taken().advanced(given, self@, outcome));
            }
        }
        outcome
    }
}

} // verus!
