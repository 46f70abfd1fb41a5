//! What the service asks of its two collaborators, the session store and the
//! board engine, and what they answer. The service itself never reaches
//! either: it names the question, and whoever runs it brings the answer.

use crate::models::{AjedrezSession, AjedrezSessionView, Board};
use vstd::prelude::*;

verus! {

/// A question to the store or to the board engine.
#[derive(Clone, Debug, PartialEq, Eq)]
pub enum Question {
    /// Store: fetch the session with this id.
    FindSession { session_id: i32 },
    /// Engine: read this position.
    ParseFen { fen: String },
    /// Engine: read this move, written in algebraic notation.
    ParseMove { move_alg: String },
    /// Engine: play this move in this position.
    ApplyMove { fen: String, move_alg: String },
    /// Store: overwrite the state label and the position of this session.
    UpdateSession { session_id: i32, state: String, fen_state: String },
}

/// A question as the contracts see it.
pub enum QuestionView {
    FindSession { session_id: i32 },
    ParseFen { fen: Seq<char> },
    ParseMove { move_alg: Seq<char> },
    ApplyMove { fen: Seq<char>, move_alg: Seq<char> },
    UpdateSession { session_id: i32, state: Seq<char>, fen_state: Seq<char> },
}

impl View for Question {
    type V = QuestionView;

    open spec fn view(&self) -> QuestionView {
        match self {
            Question::FindSession { session_id } => QuestionView::FindSession {
                session_id: *session_id,
            },
            Question::ParseFen { fen } => QuestionView::ParseFen { fen: fen@ },
            Question::ParseMove { move_alg } => QuestionView::ParseMove { move_alg: move_alg@ },
            Question::ApplyMove { fen, move_alg } => QuestionView::ApplyMove {
                fen: fen@,
                move_alg: move_alg@,
            },
            Question::UpdateSession { session_id, state, fen_state } => QuestionView::UpdateSession {
                session_id: *session_id,
                state: state@,
                fen_state: fen_state@,
            },
        }
    }
}

/// An answer of the store or of the board engine. Each failure carries the
/// collaborator's own account of it as text.
#[derive(Clone, Debug, PartialEq, Eq)]
pub enum Answer {
    /// Store: the session asked for.
    SessionFound(AjedrezSession),
    /// Store: there is no session with that id.
    SessionMissing,
    /// Store: the query or the update could not be carried out.
    StoreFailed(String),
    /// Engine: the position reads as this board.
    BoardParsed(Board),
    /// Engine: the position does not read.
    BoardRejected(String),
    /// Engine: the move text reads as a move.
    MoveParsed,
    /// Engine: the move text does not read.
    MoveRejected(String),
    /// Engine: the move was played; its description, and the position after it.
    MoveApplied { description: String, fen: String },
    /// Engine: the rules of chess forbid the move.
    MoveRefused(String),
    /// Store: the update touched this many rows.
    SessionUpdated(usize),
}

/// An answer as the contracts see it.
pub enum AnswerView {
    SessionFound(AjedrezSessionView),
    SessionMissing,
    StoreFailed(Seq<char>),
    BoardParsed(Board),
    BoardRejected(Seq<char>),
    MoveParsed,
    MoveRejected(Seq<char>),
    MoveApplied { description: Seq<char>, fen: Seq<char> },
    MoveRefused(Seq<char>),
    SessionUpdated(usize),
}

impl View for Answer {
    type V = AnswerView;

    open spec fn view(&self) -> AnswerView {
        match self {
            Answer::SessionFound(session) => AnswerView::SessionFound(session@),
            Answer::SessionMissing => AnswerView::SessionMissing,
            Answer::StoreFailed(error) => AnswerView::StoreFailed(error@),
            Answer::BoardParsed(board) => AnswerView::BoardParsed(*board),
            Answer::BoardRejected(error) => AnswerView::BoardRejected(error@),
            Answer::MoveParsed => AnswerView::MoveParsed,
            Answer::MoveRejected(error) => AnswerView::MoveRejected(error@),
            Answer::MoveApplied { description, fen } => AnswerView::MoveApplied {
                description: description@,
                fen: fen@,
            },
            Answer::MoveRefused(error) => AnswerView::MoveRefused(error@),
            Answer::SessionUpdated(rows) => AnswerView::SessionUpdated(*rows),
        }
    }
}

} // verus!
