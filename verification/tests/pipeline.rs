//! The move processor run from the first question to the reply against a
//! scripted store and a scripted board engine.

use ajedrez_svc::db::{create_session, get_session_state, make_movement, INITIAL_FEN_BOARD};
use ajedrez_svc::exchange::{Answer, Question};
use ajedrez_svc::inspect::{InspectProcess, InspectStep, SessionStateFailure};
use ajedrez_svc::models::{
    AjedrezSession, AjedrezSessionNew, AjedrezSessionState, AjedrezSessionStateError, Board,
    Color, MoveOutcome, MoveRequest, MoveResponse,
};
use ajedrez_svc::moves::{MoveProcess, MoveStage, MoveStep};

const AFTER_E4: &str = "rnbqkbnr/pppppppp/8/8/4P3/8/PPPP1PPP/RNBQKBNR b KQkq e3 0 1";
const AFTER_E4_E5: &str = "rnbqkbnr/pppp1ppp/8/4p3/4P3/8/PPPP1PPP/RNBQKBNR w KQkq e6 0 2";

/// A store in memory and an engine that knows two moves.
struct Collaborators {
    sessions: Vec<AjedrezSession>,
    read_fault: Option<String>,
    write_fault: Option<String>,
    writes_reach_no_row: bool,
    asked: Vec<Question>,
}

impl Collaborators {
    fn new() -> Collaborators {
        Collaborators {
            sessions: Vec::new(),
            read_fault: None,
            write_fault: None,
            writes_reach_no_row: false,
            asked: Vec::new(),
        }
    }

    fn insert(&mut self, new: AjedrezSessionNew) -> AjedrezSession {
        let stored = AjedrezSession {
            id: self.sessions.len() as i32 + 1,
            white_player: new.white_player,
            black_player: new.black_player,
            state: new.state,
            fen_state: new.fen_state,
            pgn_state: new.pgn_state,
            created: None,
            updated: None,
        };
        self.sessions.push(stored.clone());
        stored
    }

    fn stored(&self, id: i32) -> Option<AjedrezSession> {
        self.sessions.iter().find(|session| session.id == id).cloned()
    }

    fn read_position(fen: &str) -> Result<Board, String> {
        match fen.split(' ').nth(1) {
            Some("w") => Ok(Board { active_color: Color::White }),
            Some("b") => Ok(Board { active_color: Color::Black }),
            _ => Err(String::from("no side to move")),
        }
    }

    fn read_move(move_alg: &str) -> Option<String> {
        match move_alg {
            "e4" | "e5" | "Ke2" => None,
            _ => Some(String::from("unknown notation")),
        }
    }

    fn play(fen: &str, move_alg: &str) -> Result<(String, String), String> {
        match (fen, move_alg) {
            (INITIAL_FEN_BOARD, "e4") => Ok((String::from("e4"), String::from(AFTER_E4))),
            (AFTER_E4, "e5") => Ok((String::from("e5"), String::from(AFTER_E4_E5))),
            _ => Err(String::from("the move is not allowed")),
        }
    }

    fn answer(&mut self, question: Question) -> Answer {
        self.asked.push(question.clone());
        match question {
            Question::FindSession { session_id } => match &self.read_fault {
                Some(error) => Answer::StoreFailed(error.clone()),
                None => match self.stored(session_id) {
                    Some(session) => Answer::SessionFound(session),
                    None => Answer::SessionMissing,
                },
            },
            Question::ParseFen { fen } => match Collaborators::read_position(&fen) {
                Ok(board) => Answer::BoardParsed(board),
                Err(error) => Answer::BoardRejected(error),
            },
            Question::ParseMove { move_alg } => match Collaborators::read_move(&move_alg) {
                None => Answer::MoveParsed,
                Some(error) => Answer::MoveRejected(error),
            },
            Question::ApplyMove { fen, move_alg } => match Collaborators::play(&fen, &move_alg) {
                Ok((description, fen)) => Answer::MoveApplied { description, fen },
                Err(error) => Answer::MoveRefused(error),
            },
            Question::UpdateSession { session_id, state, fen_state } => {
                if let Some(error) = &self.write_fault {
                    return Answer::StoreFailed(error.clone());
                }
                if self.writes_reach_no_row {
                    return Answer::SessionUpdated(0);
                }
                let mut rows = 0;
                for session in self.sessions.iter_mut() {
                    if session.id == session_id {
                        session.state = state.clone();
                        session.fen_state = fen_state.clone();
                        rows += 1;
                    }
                }
                Answer::SessionUpdated(rows)
            }
        }
    }

    fn writes_asked(&self) -> usize {
        self.asked.iter().filter(|question| matches!(question, Question::UpdateSession { .. })).count()
    }
}

fn request(session_id: i32, player_id: i32, move_alg: &str) -> MoveRequest {
    MoveRequest { session_id, player_id, move_alg: String::from(move_alg) }
}

fn run(collaborators: &mut Collaborators, request: MoveRequest) -> MoveResponse {
    let mut process = MoveProcess::begin(request);
    let mut step = process.pending();
    let mut answers = 0;
    loop {
        match step {
            MoveStep::Reply(response) => return response,
            MoveStep::Ask(question) => {
                assert!(answers < 5);
                answers += 1;
                let answer = collaborators.answer(question);
                (process, step) = make_movement(process, answer);
            }
        }
    }
}

fn inspect(
    collaborators: &mut Collaborators,
    session_id: i32,
) -> Result<AjedrezSessionState, SessionStateFailure> {
    let mut process = InspectProcess::begin(session_id);
    let mut step = process.pending();
    let mut answers = 0;
    loop {
        match step {
            InspectStep::Report(report) => return report,
            InspectStep::Ask(question) => {
                assert!(answers < 2);
                answers += 1;
                let answer = collaborators.answer(question);
                (process, step) = get_session_state(process, answer);
            }
        }
    }
}

fn one_session() -> (Collaborators, AjedrezSession) {
    let mut collaborators = Collaborators::new();
    let session = collaborators.insert(create_session(1, 2));
    (collaborators, session)
}

#[test]
fn created_session_is_pending_on_the_starting_position() {
    let (mut collaborators, session) = one_session();
    let shown = inspect(&mut collaborators, session.id).expect("the session is there");
    assert_eq!(shown.db_state.state, "Pending");
    assert_eq!(
        shown.db_state.fen_state,
        "rnbqkbnr/pppppppp/8/8/8/8/PPPPPPPP/RNBQKBNR w KQkq - 0 1"
    );
    assert_eq!(shown.db_state.white_player, 1);
    assert_eq!(shown.db_state.black_player, 2);
    assert_eq!(shown.board, Board { active_color: Color::White });
    assert_eq!(shown.db_state, session);
}

#[test]
fn whites_first_move_is_stored() {
    let (mut collaborators, session) = one_session();
    let response = run(&mut collaborators, request(session.id, 1, "e4"));
    assert_eq!(response.result, MoveOutcome::ValidMove);
    assert_eq!(response.description, "e4");
    let stored = collaborators.stored(session.id).unwrap();
    assert_eq!(stored.state, "Started");
    assert_eq!(stored.fen_state, AFTER_E4);
    assert_eq!(stored.pgn_state, session.pgn_state);
    assert_eq!(
        Collaborators::read_position(&stored.fen_state),
        Ok(Board { active_color: Color::Black })
    );
    assert_eq!(
        collaborators.asked,
        vec![
            Question::FindSession { session_id: session.id },
            Question::ParseFen { fen: String::from(INITIAL_FEN_BOARD) },
            Question::ParseMove { move_alg: String::from("e4") },
            Question::ApplyMove {
                fen: String::from(INITIAL_FEN_BOARD),
                move_alg: String::from("e4"),
            },
            Question::UpdateSession {
                session_id: session.id,
                state: String::from("Started"),
                fen_state: String::from(AFTER_E4),
            },
        ]
    );
}

#[test]
fn white_moving_twice_is_out_of_turn() {
    let (mut collaborators, session) = one_session();
    let first = run(&mut collaborators, request(session.id, 1, "e4"));
    assert_eq!(first.result, MoveOutcome::ValidMove);
    let after_first = collaborators.stored(session.id).unwrap();
    let second = run(&mut collaborators, request(session.id, 1, "e4"));
    assert_eq!(second.result, MoveOutcome::InvalidMove);
    assert_eq!(second.description, "Player 1 is White, but next turn is for Black");
    assert_eq!(collaborators.stored(session.id).unwrap(), after_first);
    assert_eq!(collaborators.writes_asked(), 1);
}

#[test]
fn black_moving_first_is_out_of_turn() {
    let (mut collaborators, session) = one_session();
    let response = run(&mut collaborators, request(session.id, 2, "e5"));
    assert_eq!(response.result, MoveOutcome::InvalidMove);
    assert_eq!(response.description, "Player 2 is Black, but next turn is for White");
    assert_eq!(collaborators.stored(session.id).unwrap(), session);
    assert_eq!(collaborators.writes_asked(), 0);
}

#[test]
fn black_answers_whites_move() {
    let (mut collaborators, session) = one_session();
    assert_eq!(run(&mut collaborators, request(session.id, 1, "e4")).result, MoveOutcome::ValidMove);
    let response = run(&mut collaborators, request(session.id, 2, "e5"));
    assert_eq!(response, MoveResponse { result: MoveOutcome::ValidMove, description: String::from("e5") });
    let stored = collaborators.stored(session.id).unwrap();
    assert_eq!(stored.fen_state, AFTER_E4_E5);
    assert_eq!(stored.state, "Started");
}

#[test]
fn stranger_is_not_in_the_session() {
    let (mut collaborators, session) = one_session();
    let response = run(&mut collaborators, request(session.id, 999, "e4"));
    assert_eq!(response.result, MoveOutcome::UserNotInSession);
    assert_eq!(response.description, "This user is not in the play session");
    assert_eq!(collaborators.stored(session.id).unwrap(), session);
    assert_eq!(collaborators.asked, vec![Question::FindSession { session_id: session.id }]);
}

#[test]
fn stranger_is_turned_away_whatever_the_move_text() {
    let (mut collaborators, session) = one_session();
    for text in ["e4", "zz9", "", "Ke2"] {
        let response = run(&mut collaborators, request(session.id, 3, text));
        assert_eq!(response.result, MoveOutcome::UserNotInSession);
    }
    assert_eq!(collaborators.stored(session.id).unwrap(), session);
    assert_eq!(collaborators.writes_asked(), 0);
}

#[test]
fn unreadable_move_text_is_an_invalid_move() {
    let (mut collaborators, session) = one_session();
    let response = run(&mut collaborators, request(session.id, 1, "zz9"));
    assert_eq!(response.result, MoveOutcome::InvalidMove);
    assert_eq!(response.description, "Failed to parse the movement: unknown notation");
    assert_eq!(collaborators.stored(session.id).unwrap(), session);
    assert_eq!(collaborators.writes_asked(), 0);
}

#[test]
fn move_against_the_rules_is_an_invalid_move() {
    let (mut collaborators, session) = one_session();
    let response = run(&mut collaborators, request(session.id, 1, "Ke2"));
    assert_eq!(response.result, MoveOutcome::InvalidMove);
    assert_eq!(response.description, "Failed to make the movement the move is not allowed");
    assert_eq!(collaborators.stored(session.id).unwrap(), session);
    assert_eq!(collaborators.writes_asked(), 0);
}

#[test]
fn missing_session_is_told_apart_from_a_failing_store() {
    let (mut collaborators, _) = one_session();
    assert_eq!(
        collaborators.answer(Question::FindSession { session_id: 404 }),
        Answer::SessionMissing
    );
    let response = run(&mut collaborators, request(404, 1, "e4"));
    assert_eq!(response.result, MoveOutcome::SessionDoesNotExist);
    assert_eq!(response.description, "Session does not exists");
    let report = inspect(&mut collaborators, 404);
    assert_eq!(
        report,
        Err(SessionStateFailure {
            kind: AjedrezSessionStateError::DoesNotExist,
            description: String::from("Session does not exist"),
            cause: None,
        })
    );
}

#[test]
fn failing_lookup_is_a_database_error() {
    let (mut collaborators, session) = one_session();
    collaborators.read_fault = Some(String::from("disk I/O error"));
    let response = run(&mut collaborators, request(session.id, 1, "e4"));
    assert_eq!(response.result, MoveOutcome::DatabaseError);
    assert_eq!(response.description, "Some database error happened: disk I/O error");
    assert_eq!(collaborators.stored(session.id).unwrap(), session);
    let report = inspect(&mut collaborators, session.id);
    assert_eq!(
        report,
        Err(SessionStateFailure {
            kind: AjedrezSessionStateError::DatabaseError,
            description: String::from("Failed to query session"),
            cause: Some(String::from("disk I/O error")),
        })
    );
}

#[test]
fn corrupt_position_is_a_fen_parse_error() {
    let mut collaborators = Collaborators::new();
    let mut new = create_session(1, 2);
    new.fen_state = String::from("not-a-position");
    let session = collaborators.insert(new);
    let response = run(&mut collaborators, request(session.id, 1, "e4"));
    assert_eq!(response.result, MoveOutcome::FenParseError);
    assert_eq!(
        response.description,
        "Can't load the board state from database: not-a-position: no side to move"
    );
    assert_eq!(collaborators.stored(session.id).unwrap(), session);
    assert_eq!(collaborators.writes_asked(), 0);
    let report = inspect(&mut collaborators, session.id);
    assert_eq!(
        report,
        Err(SessionStateFailure {
            kind: AjedrezSessionStateError::ParseError,
            description: String::from("Can't load the board state from database: not-a-position"),
            cause: Some(String::from("no side to move")),
        })
    );
}

#[test]
fn update_that_reaches_no_row_is_a_database_error() {
    let (mut collaborators, session) = one_session();
    collaborators.writes_reach_no_row = true;
    let response = run(&mut collaborators, request(session.id, 1, "e4"));
    assert_eq!(response.result, MoveOutcome::DatabaseError);
    assert_eq!(response.description, "The game state was not updated");
    assert_eq!(collaborators.stored(session.id).unwrap(), session);
}

#[test]
fn failing_update_is_a_database_error() {
    let (mut collaborators, session) = one_session();
    collaborators.write_fault = Some(String::from("database is locked"));
    let response = run(&mut collaborators, request(session.id, 1, "e4"));
    assert_eq!(response.result, MoveOutcome::DatabaseError);
    assert_eq!(
        response.description,
        "Database error when updating the game state database is locked"
    );
    assert_eq!(collaborators.stored(session.id).unwrap(), session);
}

#[test]
fn update_that_reaches_two_rows_is_a_database_error() {
    let (collaborators, session) = one_session();
    let process = MoveProcess {
        request: request(session.id, 1, "e4"),
        stage: MoveStage::Persistence {
            session: collaborators.stored(session.id).unwrap(),
            board: Board { active_color: Color::White },
            description: String::from("e4"),
            fen: String::from(AFTER_E4),
        },
    };
    let (process, step) = make_movement(process, Answer::SessionUpdated(2));
    let expected =
        MoveResponse { result: MoveOutcome::DatabaseError, description: String::from("The game state was not updated") };
    assert_eq!(step, MoveStep::Reply(expected.clone()));
    assert_eq!(process.stage, MoveStage::Finished { response: expected });
}

#[test]
fn player_on_both_sides_moves_as_white() {
    let mut collaborators = Collaborators::new();
    let session = collaborators.insert(create_session(7, 7));
    let first = run(&mut collaborators, request(session.id, 7, "e4"));
    assert_eq!(first.result, MoveOutcome::ValidMove);
    let second = run(&mut collaborators, request(session.id, 7, "e5"));
    assert_eq!(second.result, MoveOutcome::InvalidMove);
    assert_eq!(second.description, "Player 7 is White, but next turn is for Black");
}

#[test]
fn a_move_restarts_a_session_in_any_state() {
    let mut collaborators = Collaborators::new();
    let mut new = create_session(1, 2);
    new.state = String::from("Abandoned");
    let session = collaborators.insert(new);
    let response = run(&mut collaborators, request(session.id, 1, "e4"));
    assert_eq!(response.result, MoveOutcome::ValidMove);
    assert_eq!(collaborators.stored(session.id).unwrap().state, "Started");
}

#[test]
fn answer_to_another_question_changes_nothing() {
    let process = MoveProcess::begin(request(5, 1, "e4"));
    let before = process.clone();
    let (process, step) = make_movement(process, Answer::SessionUpdated(1));
    assert_eq!(process, before);
    assert_eq!(step, MoveStep::Ask(Question::FindSession { session_id: 5 }));
    let (process, step) = make_movement(process, Answer::MoveParsed);
    assert_eq!(process, before);
    assert_eq!(step, MoveStep::Ask(Question::FindSession { session_id: 5 }));
}

#[test]
fn finished_request_keeps_its_response() {
    let process = MoveProcess::begin(request(5, 1, "e4"));
    let (process, step) = make_movement(process, Answer::SessionMissing);
    let (again, repeated) = make_movement(process.clone(), Answer::SessionUpdated(1));
    assert_eq!(again, process);
    assert_eq!(repeated, step);
    assert!(matches!(repeated, MoveStep::Reply(_)));
}

#[test]
fn repeated_lookup_answers_the_same() {
    let (mut collaborators, session) = one_session();
    let first = collaborators.answer(Question::FindSession { session_id: session.id });
    let second = collaborators.answer(Question::FindSession { session_id: session.id });
    assert_eq!(first, second);
    assert_eq!(first, Answer::SessionFound(session.clone()));
    let shown_once = inspect(&mut collaborators, session.id);
    let shown_twice = inspect(&mut collaborators, session.id);
    assert_eq!(shown_once, shown_twice);
}

#[test]
fn inspection_asks_the_store_then_the_engine() {
    let (mut collaborators, session) = one_session();
    let shown = inspect(&mut collaborators, session.id);
    assert!(shown.is_ok());
    assert_eq!(
        collaborators.asked,
        vec![
            Question::FindSession { session_id: session.id },
            Question::ParseFen { fen: String::from(INITIAL_FEN_BOARD) },
        ]
    );
}

#[test]
fn inspection_ignores_what_it_did_not_ask_for() {
    let process = InspectProcess::begin(9);
    let (process, step) = get_session_state(process, Answer::MoveParsed);
    assert_eq!(step, InspectStep::Ask(Question::FindSession { session_id: 9 }));
    let (process, step) = get_session_state(process, Answer::SessionMissing);
    let (_, again) = get_session_state(process, Answer::BoardParsed(Board { active_color: Color::White }));
    assert_eq!(step, again);
}
