//! The move processor's stages: what a move request has learned so far, what
//! it asks for next, and what each answer turns it into.
//!
//! The steps run in a fixed order and each may end the request: lookup,
//! membership, board reconstruction, turn, move parsing, move application,
//! persistence. An answer that does not belong to the pending question
//! changes nothing.

use crate::exchange::{Answer, AnswerView, Question, QuestionView};
use crate::models::{
    AjedrezSession, AjedrezSessionView, Board, Color, MoveOutcome, MoveRequest, MoveRequestView,
    MoveResponse, MoveResponseView, SessionState,
};
use crate::text::decimal;
use vstd::prelude::*;

verus! {

/// Told to a player who names a session that the store does not hold.
pub open spec fn session_missing_text() -> Seq<char> {
    "Session does not exists"@
}

/// Told when the store fails while the session is looked up.
pub open spec fn lookup_failed_text(error: Seq<char>) -> Seq<char> {
    "Some database error happened: "@ + error
}

/// Told to a player who sits on neither side of the session.
pub open spec fn not_seated_text() -> Seq<char> {
    "This user is not in the play session"@
}

/// Told when the stored position does not read: the position, then the
/// engine's account.
pub open spec fn board_unreadable_text(fen: Seq<char>, error: Seq<char>) -> Seq<char> {
    "Can't load the board state from database: "@ + fen + ": "@ + error
}

/// Told to a player who moves out of turn: who they are, and whose turn it is.
pub open spec fn out_of_turn_text(player_id: i32, mine: Color, active: Color) -> Seq<char> {
    "Player "@ + decimal(player_id as int) + " is "@ + mine.label() + ", but next turn is for "@
        + active.label()
}

/// Told when the move text does not read.
pub open spec fn move_unreadable_text(error: Seq<char>) -> Seq<char> {
    "Failed to parse the movement: "@ + error
}

/// Told when the rules of chess forbid the move.
pub open spec fn move_refused_text(error: Seq<char>) -> Seq<char> {
    "Failed to make the movement "@ + error
}

/// Told when the update touched no row, or more than one.
pub open spec fn not_updated_text() -> Seq<char> {
    "The game state was not updated"@
}

/// Told when the store fails while the new position is written.
pub open spec fn update_failed_text(error: Seq<char>) -> Seq<char> {
    "Database error when updating the game state "@ + error
}

/// Where a move request stands: which answer the pipeline waits for, and what
/// it has learned so far.
#[derive(Clone, Debug, PartialEq, Eq)]
pub enum MoveStage {
    /// Waiting for the store to look the session up.
    Lookup,
    /// The player is seated; waiting for the engine to read the position.
    BoardReconstruction { session: AjedrezSession },
    /// It is the player's turn; waiting for the engine to read the move text.
    MoveParsing { session: AjedrezSession, board: Board },
    /// Waiting for the engine to play the move.
    MoveApplication { session: AjedrezSession, board: Board },
    /// The move was played; waiting for the store to write the position.
    Persistence { session: AjedrezSession, board: Board, description: String, fen: String },
    /// The request has its response.
    Finished { response: MoveResponse },
}

/// A stage as the contracts see it.
pub enum MoveStageView {
    Lookup,
    BoardReconstruction { session: AjedrezSessionView },
    MoveParsing { session: AjedrezSessionView, board: Board },
    MoveApplication { session: AjedrezSessionView, board: Board },
    Persistence {
        session: AjedrezSessionView,
        board: Board,
        description: Seq<char>,
        fen: Seq<char>,
    },
    Finished { response: MoveResponseView },
}

impl View for MoveStage {
    type V = MoveStageView;

    open spec fn view(&self) -> MoveStageView {
        match self {
            MoveStage::Lookup => MoveStageView::Lookup,
            MoveStage::BoardReconstruction { session } => MoveStageView::BoardReconstruction {
                session: session@,
            },
            MoveStage::MoveParsing { session, board } => MoveStageView::MoveParsing {
                session: session@,
                board: *board,
            },
            MoveStage::MoveApplication { session, board } => MoveStageView::MoveApplication {
                session: session@,
                board: *board,
            },
            MoveStage::Persistence { session, board, description, fen } => MoveStageView::Persistence {
                session: session@,
                board: *board,
                description: description@,
                fen: fen@,
            },
            MoveStage::Finished { response } => MoveStageView::Finished { response: response@ },
        }
    }
}

/// What the one who runs the pipeline does next.
#[derive(Clone, Debug, PartialEq, Eq)]
pub enum MoveStep {
    /// Put this question to the collaborator it names and bring the answer.
    Ask(Question),
    /// The pipeline is over: hand this response to the player.
    Reply(MoveResponse),
}

/// A step as the contracts see it.
pub enum MoveStepView {
    Ask(QuestionView),
    Reply(MoveResponseView),
}

impl View for MoveStep {
    type V = MoveStepView;

    open spec fn view(&self) -> MoveStepView {
        match self {
            MoveStep::Ask(question) => MoveStepView::Ask(question@),
            MoveStep::Reply(response) => MoveStepView::Reply(response@),
        }
    }
}

/// One move request on its way through the pipeline.
#[derive(Clone, Debug, PartialEq, Eq)]
pub struct MoveProcess {
    pub request: MoveRequest,
    pub stage: MoveStage,
}

/// A move request on its way as the contracts see it.
pub struct MoveProcessView {
    pub request: MoveRequestView,
    pub stage: MoveStageView,
}

impl View for MoveProcess {
    type V = MoveProcessView;

    open spec fn view(&self) -> MoveProcessView {
        MoveProcessView { request: self.request@, stage: self.stage@ }
    }
}

/// The stage of a request that ended with this outcome and message.
pub open spec fn finished(result: MoveOutcome, description: Seq<char>) -> MoveStageView {
    MoveStageView::Finished { response: MoveResponseView { result, description } }
}

/// Lookup, then the membership check: a found session goes on to board
/// reconstruction if the player sits on one of its sides.
pub open spec fn on_lookup(request: MoveRequestView, answer: AnswerView) -> MoveStageView {
    match answer {
        AnswerView::SessionFound(session) => if session.seats(request.player_id) {
            MoveStageView::BoardReconstruction { session }
        } else {
            finished(MoveOutcome::UserNotInSession, not_seated_text())
        },
        AnswerView::SessionMissing => finished(
            MoveOutcome::SessionDoesNotExist,
            session_missing_text(),
        ),
        AnswerView::StoreFailed(error) => finished(
            MoveOutcome::DatabaseError,
            lookup_failed_text(error),
        ),
        _ => MoveStageView::Lookup,
    }
}

/// Board reconstruction, then the turn check: a position that reads goes on
/// to move parsing if the side to move is the player's own.
pub open spec fn on_board(
    request: MoveRequestView,
    session: AjedrezSessionView,
    answer: AnswerView,
) -> MoveStageView {
    match answer {
        AnswerView::BoardParsed(board) => {
            let mine = session.color_of(request.player_id);
            if mine == board.active_color {
                MoveStageView::MoveParsing { session, board }
            } else {
                finished(
                    MoveOutcome::InvalidMove,
                    out_of_turn_text(request.player_id, mine, board.active_color),
                )
            }
        },
        AnswerView::BoardRejected(error) => finished(
            MoveOutcome::FenParseError,
            board_unreadable_text(session.fen_state, error),
        ),
        _ => MoveStageView::BoardReconstruction { session },
    }
}

/// Move parsing: a move text that reads goes on to be played.
pub open spec fn on_move_text(
    session: AjedrezSessionView,
    board: Board,
    answer: AnswerView,
) -> MoveStageView {
    match answer {
        AnswerView::MoveParsed => MoveStageView::MoveApplication { session, board },
        AnswerView::MoveRejected(error) => finished(
            MoveOutcome::InvalidMove,
            move_unreadable_text(error),
        ),
        _ => MoveStageView::MoveParsing { session, board },
    }
}

/// Move application: a move that the engine played goes on to be written.
pub open spec fn on_application(
    session: AjedrezSessionView,
    board: Board,
    answer: AnswerView,
) -> MoveStageView {
    match answer {
        AnswerView::MoveApplied { description, fen } => MoveStageView::Persistence {
            session,
            board,
            description,
            fen,
        },
        AnswerView::MoveRefused(error) => finished(
            MoveOutcome::InvalidMove,
            move_refused_text(error),
        ),
        _ => MoveStageView::MoveApplication { session, board },
    }
}

/// Persistence: the move stands if the store wrote exactly one row, and the
/// response then carries the engine's description of the move.
pub open spec fn on_update(
    session: AjedrezSessionView,
    board: Board,
    description: Seq<char>,
    fen: Seq<char>,
    answer: AnswerView,
) -> MoveStageView {
    match answer {
        AnswerView::SessionUpdated(rows) => if rows == 1 {
            finished(MoveOutcome::ValidMove, description)
        } else {
            finished(MoveOutcome::DatabaseError, not_updated_text())
        },
        AnswerView::StoreFailed(error) => finished(
            MoveOutcome::DatabaseError,
            update_failed_text(error),
        ),
        _ => MoveStageView::Persistence { session, board, description, fen },
    }
}

impl MoveProcessView {
    /// A request before anything is known of its session.
    pub open spec fn begin(request: MoveRequestView) -> MoveProcessView {
        MoveProcessView { request, stage: MoveStageView::Lookup }
    }

    /// What this stage asks for, or the reply it ended with.
    pub open spec fn pending(self) -> MoveStepView {
        match self.stage {
            MoveStageView::Lookup => MoveStepView::Ask(
                QuestionView::FindSession { session_id: self.request.session_id },
            ),
            MoveStageView::BoardReconstruction { session } => MoveStepView::Ask(
                QuestionView::ParseFen { fen: session.fen_state },
            ),
            MoveStageView::MoveParsing { .. } => MoveStepView::Ask(
                QuestionView::ParseMove { move_alg: self.request.move_alg },
            ),
            MoveStageView::MoveApplication { session, .. } => MoveStepView::Ask(
                QuestionView::ApplyMove { fen: session.fen_state, move_alg: self.request.move_alg },
            ),
            MoveStageView::Persistence { session, fen, .. } => MoveStepView::Ask(
                QuestionView::UpdateSession {
                    session_id: session.id,
                    state: SessionState::Started.label(),
                    fen_state: fen,
                },
            ),
            MoveStageView::Finished { response } => MoveStepView::Reply(response),
        }
    }

    /// The process after one answer. An answer that does not belong to the
    /// pending question changes nothing, and neither does any answer once the
    /// request has its response.
    pub open spec fn advance(self, answer: AnswerView) -> MoveProcessView {
        let stage = match self.stage {
            MoveStageView::Lookup => on_lookup(self.request, answer),
            MoveStageView::BoardReconstruction { session } => on_board(
                self.request,
                session,
                answer,
            ),
            MoveStageView::MoveParsing { session, board } => on_move_text(session, board, answer),
            MoveStageView::MoveApplication { session, board } => on_application(
                session,
                board,
                answer,
            ),
            MoveStageView::Persistence { session, board, description, fen } => on_update(
                session,
                board,
                description,
                fen,
                answer,
            ),
            MoveStageView::Finished { .. } => self.stage,
        };
        MoveProcessView { request: self.request, stage }
    }
}

impl MoveProcessView {
    /// What every stage rests on: a request is past the lookup only with a
    /// session that seats its player, and past board reconstruction only with
    /// a board on which that player's side is to move.
    pub open spec fn well_formed(self) -> bool {
        match self.stage {
            MoveStageView::Lookup => true,
            MoveStageView::BoardReconstruction { session } => session.seats(self.request.player_id),
            MoveStageView::MoveParsing { session, board } => self.in_turn(session, board),
            MoveStageView::MoveApplication { session, board } => self.in_turn(session, board),
            MoveStageView::Persistence { session, board, .. } => self.in_turn(session, board),
            MoveStageView::Finished { .. } => true,
        }
    }

    /// The session seats the request's player, and on the board it is that
    /// player's side to move.
    pub open spec fn in_turn(self, session: AjedrezSessionView, board: Board) -> bool {
        &&& session.seats(self.request.player_id)
        &&& session.color_of(self.request.player_id) == board.active_color
    }
}

/// A request starts well formed and stays so, whatever is answered.
pub proof fn law_well_formed_is_kept(process: MoveProcessView, answer: AnswerView)
    requires
        process.well_formed(),
    ensures
        MoveProcessView::begin(process.request).well_formed(),
        process.advance(answer).well_formed(),
        process.advance(answer).request == process.request,
{
}

/// The store is asked to write only for a player who sits in the session and
/// whose side is to move, only under the session's own id, only the label of
/// a started game, and only the position that the engine gave.
pub proof fn law_write_needs_every_check(
    process: MoveProcessView,
    session_id: i32,
    state: Seq<char>,
    fen_state: Seq<char>,
)
    requires
        process.well_formed(),
        process.pending() == MoveStepView::Ask(
            QuestionView::UpdateSession { session_id, state, fen_state },
        ),
    ensures
        process.stage matches MoveStageView::Persistence { session, board, description, fen }
            && process.in_turn(session, board) && session_id == session.id && fen_state == fen,
        state == SessionState::Started.label(),
{
}

/// A request ends as a valid move only from the persistence step, when the
/// store reports exactly one row written, and its response then carries the
/// engine's description of the move.
pub proof fn law_valid_move_needs_one_row(process: MoveProcessView, answer: AnswerView)
    requires
        process.stage !is Finished,
        process.advance(answer).stage matches MoveStageView::Finished { response }
            && response.result == MoveOutcome::ValidMove,
    ensures
        answer == AnswerView::SessionUpdated(1),
        process.stage matches MoveStageView::Persistence { description, .. } && process.advance(
            answer,
        ).stage == finished(MoveOutcome::ValidMove, description),
{
}

impl MoveProcess {
    /// Takes a request in. Its first step asks the store for the session.
    pub fn begin(request: MoveRequest) -> (process: MoveProcess)
        ensures
            process@ == MoveProcessView::begin(request@),
            process@.well_formed(),
    {
        MoveProcess { request, stage: MoveStage::Lookup }
    }

    /// What to do next for this request.
    pub fn pending(&self) -> (step: MoveStep)
        ensures
            step@ == self@.pending(),
    {
        match &self.stage {
            MoveStage::Lookup => MoveStep::Ask(
                Question::FindSession { session_id: self.request.session_id },
            ),
            MoveStage::BoardReconstruction { session } => MoveStep::Ask(
                Question::ParseFen { fen: session.fen_state.clone() },
            ),
            MoveStage::MoveParsing { .. } => MoveStep::Ask(
                Question::ParseMove { move_alg: self.request.move_alg.clone() },
            ),
            MoveStage::MoveApplication { session, .. } => MoveStep::Ask(
                Question::ApplyMove {
                    fen: session.fen_state.clone(),
                    move_alg: self.request.move_alg.clone(),
                },
            ),
            MoveStage::Persistence { session, fen, .. } => MoveStep::Ask(
                Question::UpdateSession {
                    session_id: session.id,
                    state: SessionState::Started.to_text(),
                    fen_state: fen.clone(),
                },
            ),
            MoveStage::Finished { response } => MoveStep::Reply(response.clone()),
        }
    }
}

} // verus!
