//! Inspection: the read-only companion of the move processor. It looks a
//! session up and has the board engine read its position, and reports the
//! two together or says which of the two steps failed.

use crate::exchange::{AnswerView, Question, QuestionView};
use crate::models::{
    text_view, AjedrezSession, AjedrezSessionState, AjedrezSessionStateError,
    AjedrezSessionStateView, AjedrezSessionView,
};
use vstd::prelude::*;

verus! {

/// Told when the store fails while the session is looked up.
pub open spec fn query_failed_text() -> Seq<char> {
    "Failed to query session"@
}

/// Told when the store holds no session with the id asked for.
pub open spec fn no_such_session_text() -> Seq<char> {
    "Session does not exist"@
}

/// Told when the stored position does not read.
pub open spec fn board_not_loaded_text(fen: Seq<char>) -> Seq<char> {
    "Can't load the board state from database: "@ + fen
}

/// Why a session could not be shown: the kind of failure, what to tell the
/// user, and the collaborator's own account where one of them failed.
#[derive(Debug, PartialEq, Eq)]
pub struct SessionStateFailure {
    pub kind: AjedrezSessionStateError,
    pub description: String,
    pub cause: Option<String>,
}

/// A failure as the contracts see it.
pub struct SessionStateFailureView {
    pub kind: AjedrezSessionStateError,
    pub description: Seq<char>,
    pub cause: Option<Seq<char>>,
}

impl View for SessionStateFailure {
    type V = SessionStateFailureView;

    open spec fn view(&self) -> SessionStateFailureView {
        SessionStateFailureView {
            kind: self.kind,
            description: self.description@,
            cause: text_view(self.cause),
        }
    }
}

/// How an inspection ended, as the contracts see it.
pub open spec fn report_view(
    report: Result<AjedrezSessionState, SessionStateFailure>,
) -> Result<AjedrezSessionStateView, SessionStateFailureView> {
    match report {
        Ok(shown) => Ok(shown@),
        Err(failure) => Err(failure@),
    }
}

/// Where an inspection stands.
#[derive(Debug, PartialEq, Eq)]
pub enum InspectStage {
    /// Waiting for the store to look the session up.
    Lookup,
    /// Waiting for the engine to read the session's position.
    BoardReconstruction { session: AjedrezSession },
    /// The inspection has its report.
    Finished { report: Result<AjedrezSessionState, SessionStateFailure> },
}

/// A stage as the contracts see it.
pub enum InspectStageView {
    Lookup,
    BoardReconstruction { session: AjedrezSessionView },
    Finished { report: Result<AjedrezSessionStateView, SessionStateFailureView> },
}

impl View for InspectStage {
    type V = InspectStageView;

    open spec fn view(&self) -> InspectStageView {
        match self {
            InspectStage::Lookup => InspectStageView::Lookup,
            InspectStage::BoardReconstruction { session } => InspectStageView::BoardReconstruction {
                session: session@,
            },
            InspectStage::Finished { report } => InspectStageView::Finished {
                report: report_view(*report),
            },
        }
    }
}

/// What the one who runs the inspection does next.
#[derive(Debug, PartialEq, Eq)]
pub enum InspectStep {
    /// Put this question to the collaborator it names and bring the answer.
    Ask(Question),
    /// The inspection is over: this is what it found.
    Report(Result<AjedrezSessionState, SessionStateFailure>),
}

/// A step as the contracts see it.
pub enum InspectStepView {
    Ask(QuestionView),
    Report(Result<AjedrezSessionStateView, SessionStateFailureView>),
}

impl View for InspectStep {
    type V = InspectStepView;

    open spec fn view(&self) -> InspectStepView {
        match self {
            InspectStep::Ask(question) => InspectStepView::Ask(question@),
            InspectStep::Report(report) => InspectStepView::Report(report_view(*report)),
        }
    }
}

/// One inspection on its way.
#[derive(Debug, PartialEq, Eq)]
pub struct InspectProcess {
    pub session_id: i32,
    pub stage: InspectStage,
}

/// An inspection on its way as the contracts see it.
pub struct InspectProcessView {
    pub session_id: i32,
    pub stage: InspectStageView,
}

impl View for InspectProcess {
    type V = InspectProcessView;

    open spec fn view(&self) -> InspectProcessView {
        InspectProcessView { session_id: self.session_id, stage: self.stage@ }
    }
}

/// The stage of an inspection that failed in this way.
pub open spec fn failed(
    kind: AjedrezSessionStateError,
    description: Seq<char>,
    cause: Option<Seq<char>>,
) -> InspectStageView {
    InspectStageView::Finished {
        report: Err(SessionStateFailureView { kind, description, cause }),
    }
}

/// Lookup: a found session goes on to have its position read.
pub open spec fn on_lookup(answer: AnswerView) -> InspectStageView {
    match answer {
        AnswerView::SessionFound(session) => InspectStageView::BoardReconstruction { session },
        AnswerView::SessionMissing => failed(
            AjedrezSessionStateError::DoesNotExist,
            no_such_session_text(),
            None,
        ),
        AnswerView::StoreFailed(error) => failed(
            AjedrezSessionStateError::DatabaseError,
            query_failed_text(),
            Some(error),
        ),
        _ => InspectStageView::Lookup,
    }
}

/// Board reconstruction: a position that reads is reported with its session.
pub open spec fn on_board(session: AjedrezSessionView, answer: AnswerView) -> InspectStageView {
    match answer {
        AnswerView::BoardParsed(board) => InspectStageView::Finished {
            report: Ok(AjedrezSessionStateView { db_state: session, board }),
        },
        AnswerView::BoardRejected(error) => failed(
            AjedrezSessionStateError::ParseError,
            board_not_loaded_text(session.fen_state),
            Some(error),
        ),
        _ => InspectStageView::BoardReconstruction { session },
    }
}

impl InspectProcessView {
    /// An inspection before anything is known of the session.
    pub open spec fn begin(session_id: i32) -> InspectProcessView {
        InspectProcessView { session_id, stage: InspectStageView::Lookup }
    }

    /// What this stage asks for, or the report it ended with.
    pub open spec fn pending(self) -> InspectStepView {
        match self.stage {
            InspectStageView::Lookup => InspectStepView::Ask(
                QuestionView::FindSession { session_id: self.session_id },
            ),
            InspectStageView::BoardReconstruction { session } => InspectStepView::Ask(
                QuestionView::ParseFen { fen: session.fen_state },
            ),
            InspectStageView::Finished { report } => InspectStepView::Report(report),
        }
    }

    /// The inspection after one answer. An answer that does not belong to the
    /// pending question changes nothing, and neither does any answer once the
    /// inspection has its report.
    pub open spec fn advance(self, answer: AnswerView) -> InspectProcessView {
        let stage = match self.stage {
            InspectStageView::Lookup => on_lookup(answer),
            InspectStageView::BoardReconstruction { session } => on_board(session, answer),
            InspectStageView::Finished { report } => self.stage,
        };
        InspectProcessView { session_id: self.session_id, stage }
    }
}

impl Clone for SessionStateFailure {
    fn clone(&self) -> (copy: SessionStateFailure)
        ensures
            copy@ == self@,
    {
        SessionStateFailure {
            kind: self.kind,
            description: self.description.clone(),
            cause: match &self.cause {
                Some(text) => Some(text.clone()),
                None => None,
            },
        }
    }
}

impl InspectProcess {
    /// Takes an inspection in. Its first step asks the store for the session.
    pub fn begin(session_id: i32) -> (process: InspectProcess)
        ensures
            process@ == InspectProcessView::begin(session_id),
    {
        InspectProcess { session_id, stage: InspectStage::Lookup }
    }

    /// What to do next for this inspection.
    pub fn pending(&self) -> (step: InspectStep)
        ensures
            step@ == self@.pending(),
    {
        match &self.stage {
            InspectStage::Lookup => InspectStep::Ask(
                Question::FindSession { session_id: self.session_id },
            ),
            InspectStage::BoardReconstruction { session } => InspectStep::Ask(
                Question::ParseFen { fen: session.fen_state.clone() },
            ),
            InspectStage::Finished { report } => InspectStep::Report(
                match report {
                    Ok(shown) => Ok(shown.clone()),
                    Err(failure) => Err(failure.clone()),
                },
            ),
        }
    }
}

} // verus!
