use chess_bot_gui::chess_app::{ChessApp, Fault, Outcome};
use chess_bot_gui::engine_player::{Engine, EngineOrPlayer, Invocation};
use chess_bot_gui::model::{Color, Move, Piece, Square};
use chess_bot_gui::notation::parse;

const OPENING: &str = "rnbqkbnr/pppppppp/8/8/8/8/PPPPPPPP/RNBQKBNR w KQkq - 0 1";
const AFTER_E2E4: &str = "rnbqkbnr/pppppppp/8/8/4P3/8/PPPP1PPP/RNBQKBNR b KQkq - 0 1";

fn engine(path: &str) -> EngineOrPlayer {
    let mut engine = Engine::empty();
    engine.set_path(path.to_string());
    assert!(engine.lock_in());
    EngineOrPlayer::Engine(engine)
}

fn engine_against_player() -> ChessApp {
    let mut app = ChessApp::new();
    assert!(app.pick_side(Color::White, engine("white_bot")));
    assert!(app.pick_side(Color::Black, EngineOrPlayer::Player));
    app
}

fn two_engines() -> ChessApp {
    let mut app = ChessApp::new();
    assert!(app.pick_side(Color::White, engine("white_bot")));
    assert!(app.pick_side(Color::Black, engine("black_bot")));
    app
}

fn launched(app: &mut ChessApp) -> Invocation {
    match app.update_moves() {
        Outcome::Launched(invocation) => invocation,
        _ => panic!("no engine was asked"),
    }
}

fn answer(app: &mut ChessApp, reply: Result<&str, &str>) -> Outcome {
    let invocation = launched(app);
    assert!(matches!(app.update_moves(), Outcome::Thinking));
    let reply = reply.map(|text| text.to_string()).map_err(|text| text.to_string());
    invocation.sender.send(reply).unwrap();
    app.update_moves()
}

fn is_engine(side: &Option<EngineOrPlayer>, path: &str) -> bool {
    match side {
        Some(EngineOrPlayer::Engine(engine)) => engine.path() == path && engine.locked_in(),
        _ => false,
    }
}

fn e2e4() -> Move {
    Move {
        source: Square { file: 4, rank: 1 },
        destination: Square { file: 4, rank: 3 },
        promotion: None,
    }
}

#[test]
fn a_new_match_waits_for_its_sides() {
    let mut app = ChessApp::new();
    assert!(app.side(Color::White).is_none());
    assert!(app.side(Color::Black).is_none());
    assert_eq!(app.side_to_move(), Color::White);
    assert_eq!(app.position(), OPENING);
    assert!(!app.is_thinking(Color::White));
    assert!(!app.take_board_changed());
    assert!(matches!(app.update_moves(), Outcome::Waiting));
    assert!(app.pick_side(Color::White, engine("white_bot")));
    assert!(matches!(app.update_moves(), Outcome::Waiting));
    assert!(!app.is_thinking(Color::White));
    assert!(app.side(Color::Black).is_none());
    assert!(app.pick_side(Color::Black, EngineOrPlayer::Player));
    assert!(matches!(app.update_moves(), Outcome::Launched(_)));
}

#[test]
fn a_side_is_picked_once() {
    let mut app = ChessApp::new();
    assert!(app.pick_side(Color::White, EngineOrPlayer::Player));
    assert!(!app.pick_side(Color::White, engine("white_bot")));
    assert!(matches!(app.side(Color::White), Some(EngineOrPlayer::Player)));
    assert!(app.side(Color::Black).is_none());
    assert!(app.pick_side(Color::Black, engine("black_bot")));
    assert!(!app.pick_side(Color::Black, EngineOrPlayer::Player));
    assert!(is_engine(app.side(Color::Black), "black_bot"));
}

#[test]
fn a_person_to_move_is_waited_for() {
    let mut app = ChessApp::new();
    assert!(app.pick_side(Color::White, EngineOrPlayer::Player));
    assert!(app.pick_side(Color::Black, engine("black_bot")));
    assert!(matches!(app.update_moves(), Outcome::Waiting));
    assert!(matches!(app.update_moves(), Outcome::Waiting));
    assert!(!app.is_thinking(Color::White));
    assert!(!app.is_thinking(Color::Black));
    assert_eq!(app.position(), OPENING);
}

#[test]
fn an_unconfigured_engine_is_not_asked() {
    let mut app = ChessApp::new();
    assert!(app.pick_side(Color::White, EngineOrPlayer::Engine(Engine::empty())));
    assert!(app.pick_side(Color::Black, EngineOrPlayer::Player));
    for _ in 0..3 {
        assert!(matches!(app.update_moves(), Outcome::Waiting));
        assert!(!app.is_thinking(Color::White));
        assert_eq!(app.position(), OPENING);
        assert_eq!(app.side_to_move(), Color::White);
        assert!(!app.take_board_changed());
        assert!(matches!(app.side(Color::Black), Some(EngineOrPlayer::Player)));
        match app.side(Color::White) {
            Some(EngineOrPlayer::Engine(engine)) => {
                assert_eq!(engine.path(), "");
                assert!(!engine.locked_in());
            }
            _ => panic!("White is an engine"),
        }
    }
    app.set_engine_path(Color::White, "white_bot".to_string());
    assert!(matches!(app.update_moves(), Outcome::Waiting));
    assert!(!app.is_thinking(Color::White));
}

#[test]
fn an_engine_is_configured_through_the_match() {
    let mut app = ChessApp::new();
    assert!(app.pick_side(Color::White, EngineOrPlayer::Engine(Engine::empty())));
    assert!(app.pick_side(Color::Black, EngineOrPlayer::Player));
    assert!(!app.lock_in_engine(Color::White));
    assert!(!app.lock_in_engine(Color::Black));
    app.set_engine_path(Color::Black, "nobody".to_string());
    assert!(matches!(app.side(Color::Black), Some(EngineOrPlayer::Player)));
    app.set_engine_path(Color::White, "first".to_string());
    app.set_engine_path(Color::White, "white_bot".to_string());
    assert!(!is_engine(app.side(Color::White), "white_bot"));
    assert!(app.lock_in_engine(Color::White));
    assert!(is_engine(app.side(Color::White), "white_bot"));
    app.set_engine_path(Color::White, "late".to_string());
    assert!(is_engine(app.side(Color::White), "white_bot"));
    assert!(app.lock_in_engine(Color::White));
    let invocation = launched(&mut app);
    assert_eq!(invocation.program, "white_bot");
}

#[test]
fn a_configured_engine_is_asked_once() {
    let mut app = engine_against_player();
    let invocation = launched(&mut app);
    assert_eq!(invocation.program, "white_bot");
    assert_eq!(invocation.arguments, vec!["--board", OPENING]);
    assert!(app.is_thinking(Color::White));
    assert!(!app.is_thinking(Color::Black));
    for _ in 0..5 {
        assert!(matches!(app.update_moves(), Outcome::Thinking));
        assert!(app.is_thinking(Color::White));
        assert_eq!(app.position(), OPENING);
    }
    assert!(is_engine(app.side(Color::White), "white_bot"));
}

#[test]
fn an_engine_stays_confirmed_while_it_thinks() {
    let mut app = two_engines();
    let invocation = launched(&mut app);
    app.set_engine_path(Color::White, "late".to_string());
    assert!(app.lock_in_engine(Color::White));
    assert!(app.lock_in_engine(Color::Black));
    assert!(is_engine(app.side(Color::White), "white_bot"));
    assert!(app.is_thinking(Color::White));
    invocation.sender.send(Ok("e2e4".to_string())).unwrap();
    assert!(matches!(app.update_moves(), Outcome::Played(_)));
}

#[test]
fn a_move_that_is_replied_is_played() {
    let mut app = engine_against_player();
    match answer(&mut app, Ok("e2e4")) {
        Outcome::Played(mv) => assert_eq!(mv, e2e4()),
        _ => panic!("the move was not played"),
    }
    assert!(!app.is_thinking(Color::White));
    assert!(!app.is_thinking(Color::Black));
    assert_eq!(app.side_to_move(), Color::Black);
    assert_eq!(app.position(), AFTER_E2E4);
    assert!(app.take_board_changed());
    assert!(!app.take_board_changed());
    assert!(is_engine(app.side(Color::White), "white_bot"));
    assert!(matches!(app.side(Color::Black), Some(EngineOrPlayer::Player)));
    assert!(matches!(app.update_moves(), Outcome::Waiting));
}

#[test]
fn white_space_and_case_do_not_count_in_a_reply() {
    let mut app = engine_against_player();
    match answer(&mut app, Ok("  E2E4\r\n")) {
        Outcome::Played(mv) => assert_eq!(mv, e2e4()),
        _ => panic!("the move was not played"),
    }
    assert_eq!(app.position(), AFTER_E2E4);
}

#[test]
fn the_engines_take_turns() {
    let mut app = two_engines();
    assert!(matches!(answer(&mut app, Ok("e2e4\n")), Outcome::Played(_)));
    let invocation = launched(&mut app);
    assert_eq!(invocation.program, "black_bot");
    assert_eq!(invocation.arguments, vec!["--board", AFTER_E2E4]);
    assert!(app.is_thinking(Color::Black));
    assert!(!app.is_thinking(Color::White));
    invocation.sender.send(Ok("e7e5\n".to_string())).unwrap();
    assert!(matches!(app.update_moves(), Outcome::Played(_)));
    assert_eq!(app.side_to_move(), Color::White);
    let invocation = launched(&mut app);
    assert_eq!(invocation.program, "white_bot");
    assert_eq!(
        invocation.arguments,
        vec!["--board", "rnbqkbnr/pppp1ppp/8/4p3/4P3/8/PPPP1PPP/RNBQKBNR w KQkq - 0 1"]
    );
}

fn assert_white_lost_its_place(app: &mut ChessApp) {
    assert!(app.side(Color::White).is_none());
    assert!(!app.is_thinking(Color::White));
    assert!(!app.is_thinking(Color::Black));
    assert_eq!(app.side_to_move(), Color::White);
    assert_eq!(app.position(), OPENING);
    assert!(app.take_board_changed());
    assert!(matches!(app.update_moves(), Outcome::Waiting));
}

#[test]
fn an_engine_that_resigns_loses_its_place() {
    let mut app = engine_against_player();
    assert!(matches!(answer(&mut app, Ok("resign")), Outcome::Forfeit(Fault::Resigned)));
    assert_white_lost_its_place(&mut app);
    assert!(matches!(app.side(Color::Black), Some(EngineOrPlayer::Player)));
}

#[test]
fn resigning_is_heard_in_any_case_and_with_space_around() {
    let mut app = engine_against_player();
    assert!(matches!(answer(&mut app, Ok(" Resign\n")), Outcome::Forfeit(Fault::Resigned)));
    assert_white_lost_its_place(&mut app);
}

#[test]
fn an_engine_that_fails_loses_its_place() {
    let mut app = two_engines();
    match answer(&mut app, Err("Error: no such file")) {
        Outcome::Forfeit(fault) => {
            assert!(matches!(&fault, Fault::Process(message) if message == "Error: no such file"));
            assert_eq!(fault.message(), "Error: no such file");
        }
        _ => panic!("the engine did not forfeit"),
    }
    assert_white_lost_its_place(&mut app);
    assert!(is_engine(app.side(Color::Black), "black_bot"));
}

#[test]
fn a_malformed_reply_loses_the_place() {
    let mut app = engine_against_player();
    match answer(&mut app, Ok("z9z9\n")) {
        Outcome::Forfeit(Fault::Unparsable(shown)) => assert_eq!(shown, "z9z9"),
        _ => panic!("the reply was read"),
    }
    assert_white_lost_its_place(&mut app);
    assert!(matches!(app.side(Color::Black), Some(EngineOrPlayer::Player)));
}

#[test]
fn an_empty_reply_loses_the_place() {
    let mut app = engine_against_player();
    match answer(&mut app, Ok("\n")) {
        Outcome::Forfeit(Fault::Unparsable(shown)) => assert_eq!(shown, ""),
        _ => panic!("the reply was read"),
    }
    assert_white_lost_its_place(&mut app);
}

#[test]
fn an_illegal_move_loses_the_place() {
    let mut app = engine_against_player();
    match answer(&mut app, Ok("e2e5")) {
        Outcome::Forfeit(Fault::Illegal(mv)) => assert_eq!(Some(mv), parse("e2e5")),
        _ => panic!("the move was allowed"),
    }
    assert_white_lost_its_place(&mut app);
}

#[test]
fn black_can_lose_its_place_too() {
    let mut app = two_engines();
    assert!(matches!(answer(&mut app, Ok("e2e4")), Outcome::Played(_)));
    assert!(app.take_board_changed());
    assert!(matches!(answer(&mut app, Ok("resign")), Outcome::Forfeit(Fault::Resigned)));
    assert!(app.side(Color::Black).is_none());
    assert!(is_engine(app.side(Color::White), "white_bot"));
    assert_eq!(app.position(), OPENING);
    assert_eq!(app.side_to_move(), Color::White);
    assert!(app.take_board_changed());
    assert!(matches!(app.update_moves(), Outcome::Waiting));
    assert!(app.pick_side(Color::Black, EngineOrPlayer::Player));
    let invocation = launched(&mut app);
    assert_eq!(invocation.program, "white_bot");
    assert_eq!(invocation.arguments, vec!["--board", OPENING]);
}

#[test]
fn a_place_that_was_lost_can_be_picked_again() {
    let mut app = engine_against_player();
    assert!(matches!(answer(&mut app, Ok("nonsense")), Outcome::Forfeit(_)));
    assert!(app.pick_side(Color::White, engine("second_bot")));
    let invocation = launched(&mut app);
    assert_eq!(invocation.program, "second_bot");
}

#[test]
fn a_game_that_is_over_goes_on_without_forfeit() {
    let mut app = two_engines();
    for text in ["f2f3", "e7e5", "g2g4", "d8h4"] {
        assert!(matches!(answer(&mut app, Ok(text)), Outcome::Played(_)));
    }
    let mated = app.position();
    assert_eq!(mated, "rnb1kbnr/pppp1ppp/8/4p3/6Pq/5P2/PPPPP2P/RNBQKBNR w KQkq - 0 1");
    assert_eq!(app.side_to_move(), Color::White);
    assert!(matches!(answer(&mut app, Ok("a2a3")), Outcome::Played(_)));
    assert_eq!(app.position(), mated);
    assert_eq!(app.side_to_move(), Color::White);
    assert!(is_engine(app.side(Color::White), "white_bot"));
    assert!(is_engine(app.side(Color::Black), "black_bot"));
}

#[test]
fn a_person_moves_through_play_move() {
    let mut app = ChessApp::new();
    assert!(app.pick_side(Color::White, EngineOrPlayer::Player));
    assert!(app.pick_side(Color::Black, engine("black_bot")));
    assert!(!app.is_thinking(app.side_to_move()));
    assert!(!app.play_move(parse("e2e5").unwrap()));
    assert_eq!(app.position(), OPENING);
    assert!(app.take_board_changed());
    assert!(app.play_move(e2e4()));
    assert_eq!(app.position(), AFTER_E2E4);
    assert!(app.take_board_changed());
    let invocation = launched(&mut app);
    assert_eq!(invocation.program, "black_bot");
    assert_eq!(invocation.arguments, vec!["--board", AFTER_E2E4]);
}

#[test]
fn update_move_side_leaves_the_side_in_place() {
    let mut app = engine_against_player();
    let side = app.side_to_move();
    let invocation = match app.update_move_side(side) {
        Outcome::Launched(invocation) => invocation,
        _ => panic!("no engine was asked"),
    };
    invocation.sender.send(Ok("resign".to_string())).unwrap();
    assert!(matches!(app.update_move_side(side), Outcome::Forfeit(Fault::Resigned)));
    assert!(is_engine(app.side(Color::White), "white_bot"));
    assert!(!app.is_thinking(Color::White));
    assert_eq!(app.position(), OPENING);
    assert!(!app.take_board_changed());
}

#[test]
fn conclude_acts_on_a_reply() {
    let mut app = engine_against_player();
    assert!(matches!(app.conclude(Ok("e2e4".to_string())), Outcome::Played(_)));
    assert_eq!(app.position(), AFTER_E2E4);
    assert!(matches!(
        app.conclude(Ok("e2e4".to_string())),
        Outcome::Forfeit(Fault::Illegal(_))
    ));
    assert!(matches!(
        app.conclude(Ok("resign".to_string())),
        Outcome::Forfeit(Fault::Resigned)
    ));
    assert!(matches!(
        app.conclude(Err("Error: engine failed".to_string())),
        Outcome::Forfeit(Fault::Process(_))
    ));
    assert_eq!(app.position(), AFTER_E2E4);
    assert!(is_engine(app.side(Color::White), "white_bot"));
}

#[test]
fn reset_game_goes_back_to_the_opening() {
    let mut app = engine_against_player();
    assert!(matches!(answer(&mut app, Ok("e2e4")), Outcome::Played(_)));
    assert!(app.take_board_changed());
    app.reset_game();
    assert_eq!(app.position(), OPENING);
    assert_eq!(app.side_to_move(), Color::White);
    assert!(app.take_board_changed());
    assert!(is_engine(app.side(Color::White), "white_bot"));
}

#[test]
fn parse_move_reads_as_parse_does() {
    let mut app = ChessApp::new();
    assert_eq!(app.parse_move("e2e4".to_string()), Some(e2e4()));
    assert_eq!(
        app.parse_move("B7A8K".to_string()),
        Some(Move {
            source: Square { file: 1, rank: 6 },
            destination: Square { file: 0, rank: 7 },
            promotion: Some(Piece::Knight),
        })
    );
    assert_eq!(app.parse_move("resign".to_string()), None);
    assert_eq!(app.parse_move("z9z9".to_string()), None);
    assert_eq!(app.parse_move("e2e4\n".to_string()), None);
}

#[test]
fn each_fault_has_its_own_line() {
    let lines = [
        Fault::Process("Error: engine failed".to_string()).message(),
        Fault::Resigned.message(),
        Fault::Unparsable("z9z9".to_string()).message(),
        Fault::Illegal(e2e4()).message(),
    ];
    assert_eq!(lines[0], "Error: engine failed");
    assert_eq!(lines[1], "Bot resigned!");
    assert_eq!(lines[2], "Bot returned an unparsable move!");
    assert_eq!(lines[3], "Move was illegal or lead to checkmate!");
}

#[test]
fn disqualify_removes_one_side_and_restarts() {
    let mut app = two_engines();
    assert!(matches!(answer(&mut app, Ok("e2e4")), Outcome::Played(_)));
    assert!(app.take_board_changed());
    app.disqualify(Color::White);
    assert!(app.side(Color::White).is_none());
    assert!(is_engine(app.side(Color::Black), "black_bot"));
    assert_eq!(app.position(), OPENING);
    assert!(app.take_board_changed());
    app.disqualify(Color::Black);
    assert!(app.side(Color::White).is_none());
    assert!(app.side(Color::Black).is_none());
    assert!(matches!(app.update_moves(), Outcome::Waiting));
}

#[test]
fn apply_answer_does_not_trim() {
    let mut app = engine_against_player();
    match app.apply_answer("e2e4\n") {
        Outcome::Forfeit(Fault::Unparsable(shown)) => assert_eq!(shown, "e2e4\n"),
        _ => panic!("the answer was read"),
    }
    assert!(matches!(app.apply_answer(" resign"), Outcome::Forfeit(Fault::Unparsable(_))));
    assert_eq!(app.position(), OPENING);
    assert!(!app.take_board_changed());
    match app.apply_answer("E2E4") {
        Outcome::Played(mv) => assert_eq!(mv, e2e4()),
        _ => panic!("the move was not played"),
    }
    assert_eq!(app.position(), AFTER_E2E4);
    assert!(app.take_board_changed());
    assert!(matches!(app.apply_answer("RESIGN"), Outcome::Forfeit(Fault::Resigned)));
    assert!(matches!(app.apply_answer("e7e4"), Outcome::Forfeit(Fault::Illegal(_))));
    assert_eq!(app.position(), AFTER_E2E4);
    assert!(app.take_board_changed());
    assert!(is_engine(app.side(Color::White), "white_bot"));
}

#[test]
fn resume_keeps_a_promise_that_comes_back() {
    let mut app = engine_against_player();
    let (sender, receiver) = std::sync::mpsc::channel();
    let promise = chess_bot_gui::engine_player::MovePromise::new(receiver);
    assert!(!app.is_thinking(Color::White));
    assert!(matches!(app.resume(Err(promise)), Outcome::Thinking));
    assert!(app.is_thinking(Color::White));
    assert_eq!(app.position(), OPENING);
    assert_eq!(app.side_to_move(), Color::White);
    assert!(!app.take_board_changed());
    assert!(is_engine(app.side(Color::White), "white_bot"));
    assert!(matches!(app.side(Color::Black), Some(EngineOrPlayer::Player)));
    assert!(matches!(app.update_moves(), Outcome::Thinking));
    sender.send(Ok("e2e4".to_string())).unwrap();
    assert!(matches!(app.update_moves(), Outcome::Played(_)));
    assert_eq!(app.position(), AFTER_E2E4);
}

#[test]
fn resume_acts_on_a_reply() {
    let mut app = engine_against_player();
    match app.resume(Ok(Ok("e2e4\n".to_string()))) {
        Outcome::Played(mv) => assert_eq!(mv, e2e4()),
        _ => panic!("the move was not played"),
    }
    assert_eq!(app.position(), AFTER_E2E4);
    assert!(!app.is_thinking(Color::Black));
    assert!(matches!(
        app.resume(Ok(Err("Error: engine failed".to_string()))),
        Outcome::Forfeit(Fault::Process(_))
    ));
    assert!(matches!(app.resume(Ok(Ok("resign".to_string()))), Outcome::Forfeit(Fault::Resigned)));
    assert_eq!(app.position(), AFTER_E2E4);
    assert!(is_engine(app.side(Color::White), "white_bot"));
}

#[test]
fn a_pending_poll_changes_nothing() {
    let mut app = two_engines();
    let invocation = launched(&mut app);
    for _ in 0..4 {
        assert!(matches!(app.update_moves(), Outcome::Thinking));
        assert!(app.is_thinking(Color::White));
        assert!(!app.take_board_changed());
        assert_eq!(app.position(), OPENING);
        assert!(is_engine(app.side(Color::White), "white_bot"));
        assert!(is_engine(app.side(Color::Black), "black_bot"));
    }
    invocation.sender.send(Ok("e2e4".to_string())).unwrap();
    assert!(matches!(app.update_moves(), Outcome::Played(_)));
}

#[test]
fn every_kind_of_white_space_is_cut_off() {
    let spaces = [
        0x09, 0x0a, 0x0b, 0x0c, 0x0d, 0x20, 0x85, 0xa0, 0x1680, 0x2000, 0x2001, 0x2002, 0x2003,
        0x2004, 0x2005, 0x2006, 0x2007, 0x2008, 0x2009, 0x200a, 0x2028, 0x2029, 0x202f, 0x205f,
        0x3000,
    ];
    for code in spaces {
        let space = char::from_u32(code).unwrap();
        let mut app = engine_against_player();
        let reply = format!("{}{}e2e4{}", space, space, space);
        match app.conclude(Ok(reply)) {
            Outcome::Played(mv) => assert_eq!(mv, e2e4()),
            _ => panic!("U+{:04X} was not cut off", code),
        }
        let mut app = engine_against_player();
        let reply = format!("e2{}e4", space);
        match app.conclude(Ok(reply.clone())) {
            Outcome::Forfeit(Fault::Unparsable(shown)) => assert_eq!(shown, reply),
            _ => panic!("U+{:04X} was cut out of the middle", code),
        }
    }
}

#[test]
fn what_is_not_white_space_is_not_cut_off() {
    let others = [
        0x00, 0x08, 0x0e, 0x1c, 0x1d, 0x1e, 0x1f, 0x21, 0x7f, 0x84, 0x86, 0x9f, 0xa1, 0xad, 0x167f,
        0x1681, 0x180e, 0x1fff, 0x200b, 0x200c, 0x200d, 0x2027, 0x202a, 0x202e, 0x2030, 0x205e,
        0x2060, 0x2fff, 0x3001, 0xfeff,
    ];
    for code in others {
        let other = char::from_u32(code).unwrap();
        for reply in [format!("{}e2e4", other), format!("e2e4{}{}", other, other)] {
            let mut app = engine_against_player();
            match app.conclude(Ok(reply.clone())) {
                Outcome::Forfeit(Fault::Unparsable(shown)) => assert_eq!(shown, reply),
                _ => panic!("U+{:04X} was cut off", code),
            }
            assert_eq!(app.position(), OPENING);
        }
    }
}

#[test]
fn a_reply_of_white_space_alone_is_an_empty_answer() {
    let mut app = engine_against_player();
    match app.conclude(Ok(" \t\r\n\u{a0}\u{3000}".to_string())) {
        Outcome::Forfeit(Fault::Unparsable(shown)) => assert_eq!(shown, ""),
        _ => panic!("the reply was read"),
    }
    match app.conclude(Ok(String::new())) {
        Outcome::Forfeit(Fault::Unparsable(shown)) => assert_eq!(shown, ""),
        _ => panic!("the reply was read"),
    }
}

#[test]
fn a_malformed_reply_ends_as_resign_does() {
    let after = |reply: &str| {
        let mut app = two_engines();
        assert!(matches!(answer(&mut app, Ok("e2e4")), Outcome::Played(_)));
        assert!(app.take_board_changed());
        assert!(matches!(answer(&mut app, Ok(reply)), Outcome::Forfeit(_)));
        (
            app.side(Color::Black).is_none(),
            is_engine(app.side(Color::White), "white_bot"),
            app.position(),
            app.side_to_move(),
            app.is_thinking(Color::White) || app.is_thinking(Color::Black),
            app.take_board_changed(),
        )
    };
    let resigned = after("resign");
    assert_eq!(resigned, (true, true, OPENING.to_string(), Color::White, false, true));
    assert_eq!(after("z9z9"), resigned);
    assert_eq!(after("e2e4"), resigned);
    assert_eq!(after(""), resigned);
}
