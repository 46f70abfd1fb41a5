//! The service's entry points: what a new session holds, how many sessions a
//! listing shows, and the two pipelines, moving and inspecting, each taken
//! one answer at a time.
//!
//! Nothing here holds a connection or a board. A pipeline names a question
//! for the session store or the board engine; whoever runs it brings the
//! answer, and the function that takes the answer decides what follows. The
//! only question that changes the store is the last one of a move.

use crate::clock::today_stamp;
use crate::exchange::Answer;
use crate::inspect;
use crate::inspect::{failed, InspectProcess, InspectStage, InspectStep, SessionStateFailure};
use crate::models::{
    text_view, AjedrezSession, AjedrezSessionNew, AjedrezSessionNewView, AjedrezSessionState,
    AjedrezSessionStateError, Board, Color, MoveOutcome, MoveRequest, MoveResponse, SessionState,
};
use crate::moves::{
    board_unreadable_text, finished, on_application, on_board, on_lookup, on_move_text, on_update,
    out_of_turn_text, MoveProcess, MoveStage, MoveStep,
};
use crate::text::{decimal_text, join};
use vstd::prelude::*;

verus! {

/// The position every game starts from.
pub const INITIAL_FEN_BOARD: &'static str =
    "rnbqkbnr/pppppppp/8/8/8/8/PPPPPPPP/RNBQKBNR w KQkq - 0 1";

/// How many sessions a listing shows where the caller names no other bound.
pub const SESSION_LIST_LIMIT: usize = 5;

/// The header block that a new game's move record starts with, for a game
/// dated `date`.
pub open spec fn pgn_preamble(date: Seq<char>) -> Seq<char> {
    "[Event \"Ajedrez\"]\n[Site \"Online\"]\n[Date \""@ + date
        + "\"]\n[Round \"1\"]\n[White \"Player1\"]\n[Black \"Player2\"]\n"@
}

/// A session before the store has seen it: not started, on the starting
/// position, with the header block of a game dated `date`.
pub open spec fn fresh_session(white_player: i32, black_player: i32, date: Seq<char>) ->
    AjedrezSessionNewView {
    AjedrezSessionNewView {
        white_player,
        black_player,
        state: SessionState::Pending.label(),
        fen_state: INITIAL_FEN_BOARD@,
        pgn_state: pgn_preamble(date),
    }
}

/// Writes the header block of a game dated `date`.
pub fn pgn_dated(date: &str) -> (pgn: String)
    ensures
        pgn@ == pgn_preamble(date@),
{
    let mut pgn = join("[Event \"Ajedrez\"]\n[Site \"Online\"]\n[Date \"", date);
    pgn.append("\"]\n[Round \"1\"]\n[White \"Player1\"]\n[Black \"Player2\"]\n");
    pgn
}

/// Writes the header block of a game that starts today.
pub fn generate_pgn() -> (pgn: String)
    ensures
        exists|date: Seq<char>| pgn@ == #[trigger] pgn_preamble(date),
{
    let today = today_stamp();
    pgn_dated(today.as_str())
}

fn unstored(white_player_id: i32, black_player_id: i32, pgn_state: String) -> (session:
    AjedrezSessionNew)
    ensures
        session@.white_player == white_player_id,
        session@.black_player == black_player_id,
        session@.state == SessionState::Pending.label(),
        session@.fen_state == INITIAL_FEN_BOARD@,
        session@.pgn_state == pgn_state@,
{
    AjedrezSessionNew {
        white_player: white_player_id,
        black_player: black_player_id,
        state: SessionState::Pending.to_text(),
        fen_state: INITIAL_FEN_BOARD.to_owned(),
        pgn_state,
    }
}

/// Makes the record of a new session dated `date` for the store to insert.
/// The two ids are taken as they come: they may name the same player.
pub fn session_dated(white_player_id: i32, black_player_id: i32, date: &str) -> (session:
    AjedrezSessionNew)
    ensures
        session@ == fresh_session(white_player_id, black_player_id, date@),
{
    unstored(white_player_id, black_player_id, pgn_dated(date))
}

/// Makes the record of a new session that starts today for the store to
/// insert; the store gives it its id and its stamps.
pub fn create_session(white_player_id: i32, black_player_id: i32) -> (session: AjedrezSessionNew)
    ensures
        exists|date: Seq<char>|
            session@ == #[trigger] fresh_session(white_player_id, black_player_id, date),
{
    let pgn = generate_pgn();
    let session = unstored(white_player_id, black_player_id, pgn);
    proof {
        let date = choose|date: Seq<char>| pgn@ == #[trigger] pgn_preamble(date);
        assert(session@ == fresh_session(white_player_id, black_player_id, date));
    }
    session
}

/// How many of `stored` rows a listing bounded by `limit` shows.
pub open spec fn listed_len(stored: nat, limit: nat) -> nat {
    if stored <= limit {
        stored
    } else {
        limit
    }
}

/// Bounds a listing: the first `limit` of the rows that the store returned,
/// in the store's order, or all of them where there are fewer.
pub fn load_sessions(rows: Vec<AjedrezSession>, limit: usize) -> (listed: Vec<AjedrezSession>)
    ensures
        listed@ == rows@.take(listed_len(rows@.len(), limit as nat) as int),
{
    let mut listed = rows;
    if listed.len() > limit {
        listed.truncate(limit);
    }
    listed
}

fn finish(result: MoveOutcome, description: String) -> (stage: MoveStage)
    ensures
        stage@ == finished(result, description@),
{
    MoveStage::Finished { response: MoveResponse { result, description } }
}

fn out_of_turn_message(player_id: i32, mine: Color, active: Color) -> (text: String)
    ensures
        text@ == out_of_turn_text(player_id, mine, active),
{
    let mut text = join("Player ", decimal_text(player_id).as_str());
    text.append(" is ");
    text.append(mine.name());
    text.append(", but next turn is for ");
    text.append(active.name());
    text
}

fn board_unreadable_message(fen: &str, error: &str) -> (text: String)
    ensures
        text@ == board_unreadable_text(fen@, error@),
{
    let mut text = join("Can't load the board state from database: ", fen);
    text.append(": ");
    text.append(error);
    text
}

fn after_lookup(request: &MoveRequest, answer: Answer) -> (stage: MoveStage)
    ensures
        stage@ == on_lookup(request@, answer@),
{
    match answer {
        Answer::SessionFound(session) => {
            if session.seats(request.player_id) {
                MoveStage::BoardReconstruction { session }
            } else {
                finish(
                    MoveOutcome::UserNotInSession,
                    "This user is not in the play session".to_owned(),
                )
            }
        },
        Answer::SessionMissing => finish(
            MoveOutcome::SessionDoesNotExist,
            "Session does not exists".to_owned(),
        ),
        Answer::StoreFailed(error) => finish(
            MoveOutcome::DatabaseError,
            join("Some database error happened: ", error.as_str()),
        ),
        _ => MoveStage::Lookup,
    }
}

fn after_board(request: &MoveRequest, session: AjedrezSession, answer: Answer) -> (stage:
    MoveStage)
    ensures
        stage@ == on_board(request@, session@, answer@),
{
    match answer {
        Answer::BoardParsed(board) => {
            let mine = session.color_of(request.player_id);
            if mine == board.active_color {
                MoveStage::MoveParsing { session, board }
            } else {
                finish(
                    MoveOutcome::InvalidMove,
                    out_of_turn_message(request.player_id, mine, board.active_color),
                )
            }
        },
        Answer::BoardRejected(error) => finish(
            MoveOutcome::FenParseError,
            board_unreadable_message(session.fen_state.as_str(), error.as_str()),
        ),
        _ => MoveStage::BoardReconstruction { session },
    }
}

fn after_move_text(session: AjedrezSession, board: Board, answer: Answer) -> (stage: MoveStage)
    ensures
        stage@ == on_move_text(session@, board, answer@),
{
    match answer {
        Answer::MoveParsed => MoveStage::MoveApplication { session, board },
        Answer::MoveRejected(error) => finish(
            MoveOutcome::InvalidMove,
            join("Failed to parse the movement: ", error.as_str()),
        ),
        _ => MoveStage::MoveParsing { session, board },
    }
}

fn after_application(session: AjedrezSession, board: Board, answer: Answer) -> (stage:
    MoveStage)
    ensures
        stage@ == on_application(session@, board, answer@),
{
    match answer {
        Answer::MoveApplied { description, fen } => MoveStage::Persistence {
            session,
            board,
            description,
            fen,
        },
        Answer::MoveRefused(error) => finish(
            MoveOutcome::InvalidMove,
            join("Failed to make the movement ", error.as_str()),
        ),
        _ => MoveStage::MoveApplication { session, board },
    }
}

fn after_update(
    session: AjedrezSession,
    board: Board,
    description: String,
    fen: String,
    answer: Answer,
) -> (stage: MoveStage)
    ensures
        stage@ == on_update(session@, board, description@, fen@, answer@),
{
    match answer {
        Answer::SessionUpdated(rows) => {
            if rows == 1 {
                finish(MoveOutcome::ValidMove, description)
            } else {
                finish(MoveOutcome::DatabaseError, "The game state was not updated".to_owned())
            }
        },
        Answer::StoreFailed(error) => finish(
            MoveOutcome::DatabaseError,
            join("Database error when updating the game state ", error.as_str()),
        ),
        _ => MoveStage::Persistence { session, board, description, fen },
    }
}

/// Takes the answer to the pending question of a move request and decides
/// what follows: the next question, or the reply to the player.
///
/// The steps run in a fixed order and each may end the request: lookup,
/// membership, board reconstruction, turn, move parsing, move application,
/// persistence. The store is asked to write only after every check has
/// passed, and the move counts as made only when it reports one row written.
/// The session's state label is not among the checks: a move is taken in a
/// session of any state and leaves it started.
pub fn make_movement(process: MoveProcess, answer: Answer) -> (next: (MoveProcess, MoveStep))
    ensures
        next.0@ == process@.advance(answer@),
        next.1@ == next.0@.pending(),
        process@.well_formed() ==> next.0@.well_formed(),
{
    let MoveProcess { request, stage } = process;
    let stage = match stage {
        MoveStage::Lookup => after_lookup(&request, answer),
        MoveStage::BoardReconstruction { session } => after_board(&request, session, answer),
        MoveStage::MoveParsing { session, board } => after_move_text(session, board, answer),
        MoveStage::MoveApplication { session, board } => after_application(session, board, answer),
        MoveStage::Persistence { session, board, description, fen } => after_update(
            session,
            board,
            description,
            fen,
            answer,
        ),
        MoveStage::Finished { response } => MoveStage::Finished { response },
    };
    let process = MoveProcess { request, stage };
    let step = process.pending();
    (process, step)
}

fn fail(kind: AjedrezSessionStateError, description: String, cause: Option<String>) -> (stage:
    InspectStage)
    ensures
        stage@ == failed(kind, description@, text_view(cause)),
{
    InspectStage::Finished { report: Err(SessionStateFailure { kind, description, cause }) }
}

fn inspect_after_lookup(answer: Answer) -> (stage: InspectStage)
    ensures
        stage@ == inspect::on_lookup(answer@),
{
    match answer {
        Answer::SessionFound(session) => InspectStage::BoardReconstruction { session },
        Answer::SessionMissing => fail(
            AjedrezSessionStateError::DoesNotExist,
            "Session does not exist".to_owned(),
            None,
        ),
        Answer::StoreFailed(error) => fail(
            AjedrezSessionStateError::DatabaseError,
            "Failed to query session".to_owned(),
            Some(error),
        ),
        _ => InspectStage::Lookup,
    }
}

fn inspect_after_board(session: AjedrezSession, answer: Answer) -> (stage: InspectStage)
    ensures
        stage@ == inspect::on_board(session@, answer@),
{
    match answer {
        Answer::BoardParsed(board) => InspectStage::Finished {
            report: Ok(AjedrezSessionState { db_state: session, board }),
        },
        Answer::BoardRejected(error) => fail(
            AjedrezSessionStateError::ParseError,
            join("Can't load the board state from database: ", session.fen_state.as_str()),
            Some(error),
        ),
        _ => InspectStage::BoardReconstruction { session },
    }
}

/// Takes the answer to the pending question of an inspection and decides
/// what follows: the next question, or the report.
///
/// Lookup comes first and board reconstruction second. A session that the
/// store does not hold, a store that fails and a position that does not read
/// each end the inspection with a failure of its own kind.
pub fn get_session_state(process: InspectProcess, answer: Answer) -> (next: (
    InspectProcess,
    InspectStep,
))
    ensures
        next.0@ == process@.advance(answer@),
        next.1@ == next.0@.pending(),
{
    let InspectProcess { session_id, stage } = process;
    let stage = match stage {
        InspectStage::Lookup => inspect_after_lookup(answer),
        InspectStage::BoardReconstruction { session } => inspect_after_board(session, answer),
        InspectStage::Finished { report } => InspectStage::Finished { report },
    };
    let process = InspectProcess { session_id, stage };
    let step = process.pending();
    (process, step)
}

} // verus!
