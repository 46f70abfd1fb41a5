//! The two collaborators as mathematics, and what the pipelines guarantee
//! when they are run against them from the first question to the reply.
//!
//! The store is a map from ids to sessions that may fail on a read or on a
//! write; the board engine is three functions of text. Nothing is assumed of
//! the engine but that the same text gets the same answer.
//!
//! A run here has the world to itself. The pipeline reads a position, decides
//! and writes by id with no token of what it read, so of two requests that
//! interleave the later write stands: nothing in these laws speaks of that.

use crate::exchange::{AnswerView, QuestionView};
use crate::inspect::{
    board_not_loaded_text, no_such_session_text, query_failed_text, InspectProcessView,
    InspectStageView, InspectStepView, SessionStateFailureView,
};
use crate::models::{
    AjedrezSessionStateError, AjedrezSessionStateView, AjedrezSessionView, Board, MoveOutcome,
    MoveRequestView, MoveResponseView, SessionState,
};
use crate::moves::{
    board_unreadable_text, lookup_failed_text, move_refused_text, move_unreadable_text,
    not_seated_text, not_updated_text, out_of_turn_text, session_missing_text,
    update_failed_text, MoveProcessView, MoveStageView, MoveStepView,
};
use vstd::prelude::*;

verus! {

/// The board engine: how it reads a position, whether it can read a move
/// text, and what playing a move text in a position gives, which is the
/// move's description and the position after it. Each failure is the
/// engine's own account of what is wrong.
pub struct Engine {
    pub read_position: spec_fn(Seq<char>) -> Result<Board, Seq<char>>,
    pub read_move: spec_fn(Seq<char>) -> Result<(), Seq<char>>,
    pub play: spec_fn(Seq<char>, Seq<char>) -> Result<(Seq<char>, Seq<char>), Seq<char>>,
}

/// The session store and the board engine at one moment.
pub struct World {
    /// The stored sessions by id.
    pub sessions: Map<i32, AjedrezSessionView>,
    /// Set where reading from the store fails, to the store's account of it.
    pub read_fault: Option<Seq<char>>,
    /// Set where writing to the store fails, to the store's account of it.
    pub write_fault: Option<Seq<char>>,
    pub engine: Engine,
}

impl World {
    /// The session with a new state label and position, all else kept.
    pub open spec fn rewritten(
        session: AjedrezSessionView,
        state: Seq<char>,
        fen_state: Seq<char>,
    ) -> AjedrezSessionView {
        AjedrezSessionView { state, fen_state, ..session }
    }

    /// What the collaborators answer to a question, and the world after it.
    /// Only an update that finds its row changes anything, and it changes the
    /// state label and the position of that row alone.
    pub open spec fn answer(self, question: QuestionView) -> (AnswerView, World) {
        match question {
            QuestionView::FindSession { session_id } => (
                match self.read_fault {
                    Some(error) => AnswerView::StoreFailed(error),
                    None => if self.sessions.dom().contains(session_id) {
                        AnswerView::SessionFound(self.sessions[session_id])
                    } else {
                        AnswerView::SessionMissing
                    },
                },
                self,
            ),
            QuestionView::ParseFen { fen } => (
                match (self.engine.read_position)(fen) {
                    Ok(board) => AnswerView::BoardParsed(board),
                    Err(error) => AnswerView::BoardRejected(error),
                },
                self,
            ),
            QuestionView::ParseMove { move_alg } => (
                match (self.engine.read_move)(move_alg) {
                    Ok(_) => AnswerView::MoveParsed,
                    Err(error) => AnswerView::MoveRejected(error),
                },
                self,
            ),
            QuestionView::ApplyMove { fen, move_alg } => (
                match (self.engine.play)(fen, move_alg) {
                    Ok(played) => AnswerView::MoveApplied { description: played.0, fen: played.1 },
                    Err(error) => AnswerView::MoveRefused(error),
                },
                self,
            ),
            QuestionView::UpdateSession { session_id, state, fen_state } => match self.write_fault {
                Some(error) => (AnswerView::StoreFailed(error), self),
                None => if self.sessions.dom().contains(session_id) {
                    (
                        AnswerView::SessionUpdated(1),
                        World {
                            sessions: self.sessions.insert(
                                session_id,
                                Self::rewritten(self.sessions[session_id], state, fen_state),
                            ),
                            ..self
                        },
                    )
                } else {
                    (AnswerView::SessionUpdated(0), self)
                },
            },
        }
    }

    /// Every session is stored under its own id.
    pub open spec fn keyed_by_id(self) -> bool {
        forall|id: i32| #[trigger] self.sessions.dom().contains(id) ==> self.sessions[id].id == id
    }
}

/// How many answers a move request may still need.
pub open spec fn answers_left(stage: MoveStageView) -> nat {
    match stage {
        MoveStageView::Lookup => 5,
        MoveStageView::BoardReconstruction { .. } => 4,
        MoveStageView::MoveParsing { .. } => 3,
        MoveStageView::MoveApplication { .. } => 2,
        MoveStageView::Persistence { .. } => 1,
        MoveStageView::Finished { .. } => 0,
    }
}

/// A move request run to its end: each pending question is put to the world
/// and the answer handed in, until the step is a reply. The result is the
/// reply and the world as the run leaves it.
pub open spec fn run_move(world: World, process: MoveProcessView) -> (MoveResponseView, World)
    decreases answers_left(process.stage),
{
    match process.pending() {
        MoveStepView::Reply(response) => (response, world),
        MoveStepView::Ask(question) => {
            let told = world.answer(question);
            run_move(told.1, process.advance(told.0))
        },
    }
}

/// What a move request comes to in a world.
pub open spec fn move_outcome(world: World, request: MoveRequestView) -> (MoveResponseView, World) {
    run_move(world, MoveProcessView::begin(request))
}

/// The response with this outcome and message.
pub open spec fn reply(result: MoveOutcome, description: Seq<char>) -> MoveResponseView {
    MoveResponseView { result, description }
}

/// The move processor told in one piece: the seven steps in their order, each
/// with the reply it ends the request with, and the one write at the end.
pub open spec fn outcome_by_the_steps(world: World, request: MoveRequestView) -> (
    MoveResponseView,
    World,
) {
    if world.read_fault is Some {
        (reply(MoveOutcome::DatabaseError, lookup_failed_text(world.read_fault->Some_0)), world)
    } else if !world.sessions.dom().contains(request.session_id) {
        (reply(MoveOutcome::SessionDoesNotExist, session_missing_text()), world)
    } else {
        let session = world.sessions[request.session_id];
        let mine = session.color_of(request.player_id);
        let board = (world.engine.read_position)(session.fen_state);
        let read = (world.engine.read_move)(request.move_alg);
        let played = (world.engine.play)(session.fen_state, request.move_alg);
        if !session.seats(request.player_id) {
            (reply(MoveOutcome::UserNotInSession, not_seated_text()), world)
        } else if board is Err {
            (
                reply(
                    MoveOutcome::FenParseError,
                    board_unreadable_text(session.fen_state, board->Err_0),
                ),
                world,
            )
        } else if board->Ok_0.active_color != mine {
            (
                reply(
                    MoveOutcome::InvalidMove,
                    out_of_turn_text(request.player_id, mine, board->Ok_0.active_color),
                ),
                world,
            )
        } else if read is Err {
            (reply(MoveOutcome::InvalidMove, move_unreadable_text(read->Err_0)), world)
        } else if played is Err {
            (reply(MoveOutcome::InvalidMove, move_refused_text(played->Err_0)), world)
        } else if world.write_fault is Some {
            (reply(MoveOutcome::DatabaseError, update_failed_text(world.write_fault->Some_0)), world)
        } else if !world.sessions.dom().contains(session.id) {
            (reply(MoveOutcome::DatabaseError, not_updated_text()), world)
        } else {
            (
                reply(MoveOutcome::ValidMove, played->Ok_0.0),
                World {
                    sessions: world.sessions.insert(
                        session.id,
                        World::rewritten(
                            world.sessions[session.id],
                            SessionState::Started.label(),
                            played->Ok_0.1,
                        ),
                    ),
                    ..world
                },
            )
        }
    }
}

/// Run against the collaborators, the pipeline does what the seven steps say,
/// neither more nor less.
pub proof fn law_run_follows_the_steps(world: World, request: MoveRequestView)
    ensures
        move_outcome(world, request) == outcome_by_the_steps(world, request),
{
    reveal_with_fuel(run_move, 6);
}

/// No answer takes a request back to an earlier step, the answer to the
/// pending question takes it forward, and a request that has its response
/// keeps it.
pub proof fn law_no_way_back(world: World, process: MoveProcessView, answer: AnswerView)
    ensures
        answers_left(process.advance(answer).stage) <= answers_left(process.stage),
        process.stage is Finished ==> process.advance(answer) == process,
        process.pending() matches MoveStepView::Ask(question) ==> answers_left(
            process.advance(world.answer(question).0).stage,
        ) < answers_left(process.stage),
{
}

/// Looking a session up leaves the world as it was, so that looking it up
/// again gets the same answer.
pub proof fn law_lookup_reads_only(world: World, session_id: i32)
    ensures
        world.answer(QuestionView::FindSession { session_id }).1 == world,
        world.answer(QuestionView::FindSession { session_id }).1.answer(
            QuestionView::FindSession { session_id },
        ) == world.answer(QuestionView::FindSession { session_id }),
{
}

/// A player who sits on neither side of the session is told so, whatever the
/// move text says, and the world is left as it was.
pub proof fn law_outsider_is_turned_away(world: World, request: MoveRequestView)
    requires
        world.read_fault is None,
        world.sessions.dom().contains(request.session_id),
        !world.sessions[request.session_id].seats(request.player_id),
    ensures
        move_outcome(world, request) == (
            reply(MoveOutcome::UserNotInSession, not_seated_text()),
            world,
        ),
{
    law_run_follows_the_steps(world, request);
}

/// A seated player who asks to move while the other side is to move is
/// refused with an invalid move, and the world is left as it was.
pub proof fn law_out_of_turn_is_refused(world: World, request: MoveRequestView, board: Board)
    requires
        world.read_fault is None,
        world.sessions.dom().contains(request.session_id),
        world.sessions[request.session_id].seats(request.player_id),
        (world.engine.read_position)(world.sessions[request.session_id].fen_state) == Ok::<
            Board,
            Seq<char>,
        >(board),
        board.active_color != world.sessions[request.session_id].color_of(request.player_id),
    ensures
        move_outcome(world, request) == (
            reply(
                MoveOutcome::InvalidMove,
                out_of_turn_text(
                    request.player_id,
                    world.sessions[request.session_id].color_of(request.player_id),
                    board.active_color,
                ),
            ),
            world,
        ),
{
    law_run_follows_the_steps(world, request);
}

/// Whatever the request and whatever the collaborators answer, a request that
/// ends in anything but a valid move leaves the world as it was: every stored
/// session keeps its position and its state label.
pub proof fn law_only_a_valid_move_writes(world: World, request: MoveRequestView)
    ensures
        move_outcome(world, request).0.result != MoveOutcome::ValidMove ==> move_outcome(
            world,
            request,
        ).1 == world,
{
    law_run_follows_the_steps(world, request);
}

/// A valid move rewrites one session, the one asked for, and of that session
/// the state label, which becomes that of a started game, and the position,
/// which becomes the one the engine gave; the reply carries the engine's
/// description of the move.
pub proof fn law_valid_move_is_stored(world: World, request: MoveRequestView)
    requires
        world.keyed_by_id(),
        move_outcome(world, request).0.result == MoveOutcome::ValidMove,
    ensures
        world.sessions.dom().contains(request.session_id),
        (world.engine.play)(
            world.sessions[request.session_id].fen_state,
            request.move_alg,
        ) matches Ok(played) && move_outcome(world, request) == (
            reply(MoveOutcome::ValidMove, played.0),
            World {
                sessions: world.sessions.insert(
                    request.session_id,
                    World::rewritten(
                        world.sessions[request.session_id],
                        SessionState::Started.label(),
                        played.1,
                    ),
                ),
                ..world
            },
        ),
{
    law_run_follows_the_steps(world, request);
}

/// Where the engine passes the turn with the move it plays, the position that
/// a valid move leaves in the store reads with the mover's opponent to move.
pub proof fn law_turn_passes_with_the_position(
    world: World,
    request: MoveRequestView,
    before: Board,
    after: Board,
)
    requires
        world.keyed_by_id(),
        move_outcome(world, request).0.result == MoveOutcome::ValidMove,
        (world.engine.read_position)(world.sessions[request.session_id].fen_state) == Ok::<
            Board,
            Seq<char>,
        >(before),
        (world.engine.play)(
            world.sessions[request.session_id].fen_state,
            request.move_alg,
        ) matches Ok(played) && (world.engine.read_position)(played.1) == Ok::<Board, Seq<char>>(
            after,
        ),
        after.active_color == before.active_color.opponent(),
    ensures
        (world.engine.read_position)(
            move_outcome(world, request).1.sessions[request.session_id].fen_state,
        ) == Ok::<Board, Seq<char>>(after),
        after.active_color == world.sessions[request.session_id].color_of(
            request.player_id,
        ).opponent(),
{
    law_run_follows_the_steps(world, request);
}

/// Where the engine passes the turn with the move it plays, the player who
/// has just made a valid move cannot make another before the other side has
/// moved: whatever move text comes next from that player in that session is
/// refused as an invalid move, and the world stays as the first move left it.
pub proof fn law_no_second_move_in_a_row(
    world: World,
    first: MoveRequestView,
    second: MoveRequestView,
    before: Board,
    after: Board,
)
    requires
        world.keyed_by_id(),
        move_outcome(world, first).0.result == MoveOutcome::ValidMove,
        second.session_id == first.session_id,
        second.player_id == first.player_id,
        (world.engine.read_position)(world.sessions[first.session_id].fen_state) == Ok::<
            Board,
            Seq<char>,
        >(before),
        (world.engine.play)(
            world.sessions[first.session_id].fen_state,
            first.move_alg,
        ) matches Ok(played) && (world.engine.read_position)(played.1) == Ok::<Board, Seq<char>>(
            after,
        ),
        after.active_color == before.active_color.opponent(),
    ensures
        move_outcome(move_outcome(world, first).1, second).0.result == MoveOutcome::InvalidMove,
        move_outcome(move_outcome(world, first).1, second).1 == move_outcome(world, first).1,
{
    law_run_follows_the_steps(world, first);
    law_run_follows_the_steps(move_outcome(world, first).1, second);
}

/// How many answers an inspection may still need.
pub open spec fn inspect_answers_left(stage: InspectStageView) -> nat {
    match stage {
        InspectStageView::Lookup => 2,
        InspectStageView::BoardReconstruction { .. } => 1,
        InspectStageView::Finished { .. } => 0,
    }
}

/// An inspection run to its end against the world.
pub open spec fn run_inspect(world: World, process: InspectProcessView) -> (
    Result<AjedrezSessionStateView, SessionStateFailureView>,
    World,
)
    decreases inspect_answers_left(process.stage),
{
    match process.pending() {
        InspectStepView::Report(report) => (report, world),
        InspectStepView::Ask(question) => {
            let told = world.answer(question);
            run_inspect(told.1, process.advance(told.0))
        },
    }
}

/// What inspecting a session comes to in a world.
pub open spec fn inspect_outcome(world: World, session_id: i32) -> (
    Result<AjedrezSessionStateView, SessionStateFailureView>,
    World,
) {
    run_inspect(world, InspectProcessView::begin(session_id))
}

/// Inspection told in one piece: lookup, then board reconstruction.
pub open spec fn report_by_the_steps(world: World, session_id: i32) -> Result<
    AjedrezSessionStateView,
    SessionStateFailureView,
> {
    if world.read_fault is Some {
        Err(
            SessionStateFailureView {
                kind: AjedrezSessionStateError::DatabaseError,
                description: query_failed_text(),
                cause: world.read_fault,
            },
        )
    } else if !world.sessions.dom().contains(session_id) {
        Err(
            SessionStateFailureView {
                kind: AjedrezSessionStateError::DoesNotExist,
                description: no_such_session_text(),
                cause: None,
            },
        )
    } else {
        let session = world.sessions[session_id];
        match (world.engine.read_position)(session.fen_state) {
            Ok(board) => Ok(AjedrezSessionStateView { db_state: session, board }),
            Err(error) => Err(
                SessionStateFailureView {
                    kind: AjedrezSessionStateError::ParseError,
                    description: board_not_loaded_text(session.fen_state),
                    cause: Some(error),
                },
            ),
        }
    }
}

/// Run against the collaborators, an inspection reports what its two steps
/// say and leaves the world as it was, so that inspecting again reports the
/// same.
pub proof fn law_inspection_reads_only(world: World, session_id: i32)
    ensures
        inspect_outcome(world, session_id) == (report_by_the_steps(world, session_id), world),
{
    reveal_with_fuel(run_inspect, 3);
}

} // verus!
