//! The records and values that the session service passes around, each with
//! the mathematical view that the contracts speak of.

use crate::clock::{moment_text, moment_text_of};
use vstd::prelude::*;

verus! {

/// The side of the board a player sits on, and the side whose turn it is.
#[derive(Clone, Copy, Debug, PartialEq, Eq, Structural)]
pub enum Color {
    White,
    Black,
}

impl Color {
    /// The other side.
    pub open spec fn opponent(self) -> Color {
        match self {
            Color::White => Color::Black,
            Color::Black => Color::White,
        }
    }

    /// The side's name as it appears in messages to players.
    pub open spec fn label(self) -> Seq<char> {
        match self {
            Color::White => "White"@,
            Color::Black => "Black"@,
        }
    }

    /// The side's name as it appears in messages to players.
    pub fn name(&self) -> (text: &'static str)
        ensures
            text@ == self.label(),
    {
        match self {
            Color::White => "White",
            Color::Black => "Black",
        }
    }
}

/// The lifecycle of a session. The store keeps it as the text of `label`.
/// The service itself writes two of them: a new session is pending, and a
/// move leaves its session started.
#[derive(Clone, Copy, Debug, PartialEq, Eq, Structural)]
pub enum SessionState {
    /// Waiting for players to join.
    Pending,
    /// Game is in progress.
    Started,
    /// Game is temporarily paused.
    Paused,
    /// Game was abandoned.
    Abandoned,
    /// Game has ended.
    Completed,
    /// One player has won.
    Won,
    /// Game ended in a draw.
    Draw,
}

impl SessionState {
    /// The text under which the store keeps this state.
    pub open spec fn label(self) -> Seq<char> {
        match self {
            SessionState::Pending => "Pending"@,
            SessionState::Started => "Started"@,
            SessionState::Paused => "Paused"@,
            SessionState::Abandoned => "Abandoned"@,
            SessionState::Completed => "Completed"@,
            SessionState::Won => "Won"@,
            SessionState::Draw => "Draw"@,
        }
    }

    /// The text under which the store keeps this state, borrowed.
    pub fn name(&self) -> (text: &'static str)
        ensures
            text@ == self.label(),
    {
        match self {
            SessionState::Pending => "Pending",
            SessionState::Started => "Started",
            SessionState::Paused => "Paused",
            SessionState::Abandoned => "Abandoned",
            SessionState::Completed => "Completed",
            SessionState::Won => "Won",
            SessionState::Draw => "Draw",
        }
    }

    /// The text under which the store keeps this state, owned.
    pub fn to_text(&self) -> (text: String)
        ensures
            text@ == self.label(),
    {
        self.name().to_owned()
    }

    /// Reads a stored label back. Any text that is not exactly one of the
    /// seven labels is refused rather than taken for a default.
    pub fn from_label(text: &str) -> (state: Option<SessionState>)
        ensures
            state matches Some(s) ==> s.label() == text@,
            state is None ==> forall|s: SessionState| s.label() != text@,
    {
        let given = text.to_owned();
        if given == "Pending".to_owned() {
            Some(SessionState::Pending)
        } else if given == "Started".to_owned() {
            Some(SessionState::Started)
        } else if given == "Paused".to_owned() {
            Some(SessionState::Paused)
        } else if given == "Abandoned".to_owned() {
            Some(SessionState::Abandoned)
        } else if given == "Completed".to_owned() {
            Some(SessionState::Completed)
        } else if given == "Won".to_owned() {
            Some(SessionState::Won)
        } else if given == "Draw".to_owned() {
            Some(SessionState::Draw)
        } else {
            None
        }
    }
}

/// No two states share a label, so a label names at most one state.
pub proof fn law_labels_are_distinct(a: SessionState, b: SessionState)
    requires
        a.label() == b.label(),
    ensures
        a == b,
{
    reveal_strlit("Pending");
    reveal_strlit("Started");
    reveal_strlit("Paused");
    reveal_strlit("Abandoned");
    reveal_strlit("Completed");
    reveal_strlit("Won");
    reveal_strlit("Draw");
    let la = a.label();
    let lb = b.label();
    assert(la.len() == lb.len());
    assert(la[0] == lb[0]);
    assert(la[1] == lb[1]);
}

/// A moment as the store stamps it: whole seconds since the start of 1970 and
/// the nanoseconds into that second, with no time zone attached.
#[derive(Clone, Copy, Debug, PartialEq, Eq, Structural)]
pub struct Timestamp {
    pub secs: i64,
    pub nanos: u32,
}

/// What a stamp column shows of a stamp as the calendar printed it: the
/// printed text, or nothing where the calendar has no such moment.
pub open spec fn shown(printed: Option<Seq<char>>) -> Seq<char> {
    match printed {
        Some(text) => text,
        None => Seq::empty(),
    }
}

/// What a stamp column shows: nothing where the store set no stamp, else
/// what the calendar prints for the stamp.
pub open spec fn stamp_display(stamp: Option<Timestamp>) -> Seq<char> {
    match stamp {
        Some(at) => shown(moment_text_of(at.secs, at.nanos)),
        None => Seq::empty(),
    }
}

/// A text that may be absent, as the contracts see it.
pub open spec fn text_view(text: Option<String>) -> Option<Seq<char>> {
    match text {
        Some(held) => Some(held@),
        None => None,
    }
}

/// Fills a stamp column from what the calendar printed.
pub fn show_printed(printed: Option<String>) -> (text: String)
    ensures
        text@ == shown(text_view(printed)),
{
    match printed {
        Some(text) => text,
        None => String::new(),
    }
}

fn display_stamp(stamp: Option<Timestamp>) -> (text: String)
    ensures
        text@ == stamp_display(stamp),
{
    match stamp {
        Some(at) => show_printed(moment_text(at.secs, at.nanos)),
        None => String::new(),
    }
}

/// One stored chess session.
#[derive(Debug, PartialEq, Eq)]
pub struct AjedrezSession {
    pub id: i32,
    pub white_player: i32,
    pub black_player: i32,
    pub state: String,
    pub fen_state: String,
    pub pgn_state: String,
    pub created: Option<Timestamp>,
    pub updated: Option<Timestamp>,
}

/// A stored session as the contracts see it.
pub struct AjedrezSessionView {
    pub id: i32,
    pub white_player: i32,
    pub black_player: i32,
    pub state: Seq<char>,
    pub fen_state: Seq<char>,
    pub pgn_state: Seq<char>,
    pub created: Option<Timestamp>,
    pub updated: Option<Timestamp>,
}

impl View for AjedrezSession {
    type V = AjedrezSessionView;

    open spec fn view(&self) -> AjedrezSessionView {
        AjedrezSessionView {
            id: self.id,
            white_player: self.white_player,
            black_player: self.black_player,
            state: self.state@,
            fen_state: self.fen_state@,
            pgn_state: self.pgn_state@,
            created: self.created,
            updated: self.updated,
        }
    }
}

impl Clone for AjedrezSession {
    fn clone(&self) -> (copy: AjedrezSession)
        ensures
            copy@ == self@,
    {
        AjedrezSession {
            id: self.id,
            white_player: self.white_player,
            black_player: self.black_player,
            state: self.state.clone(),
            fen_state: self.fen_state.clone(),
            pgn_state: self.pgn_state.clone(),
            created: self.created,
            updated: self.updated,
        }
    }
}

impl AjedrezSessionView {
    /// Whether the player sits on either side of this session.
    pub open spec fn seats(self, player_id: i32) -> bool {
        player_id == self.white_player || player_id == self.black_player
    }

    /// The side a seated player moves for: White for the white player's id,
    /// Black for any other.
    pub open spec fn color_of(self, player_id: i32) -> Color {
        if player_id == self.white_player {
            Color::White
        } else {
            Color::Black
        }
    }
}

impl AjedrezSession {
    /// Whether the player sits on either side of this session.
    pub fn seats(&self, player_id: i32) -> (seated: bool)
        ensures
            seated == self@.seats(player_id),
    {
        player_id == self.white_player || player_id == self.black_player
    }

    /// The side a seated player moves for: White for the white player's id,
    /// Black for any other.
    pub fn color_of(&self, player_id: i32) -> (color: Color)
        ensures
            color == self@.color_of(player_id),
    {
        if player_id == self.white_player {
            Color::White
        } else {
            Color::Black
        }
    }

    /// The creation stamp for a table cell.
    pub fn created_display(&self) -> (text: String)
        ensures
            text@ == stamp_display(self.created),
    {
        display_stamp(self.created)
    }

    /// The last-update stamp for a table cell.
    pub fn updated_display(&self) -> (text: String)
        ensures
            text@ == stamp_display(self.updated),
    {
        display_stamp(self.updated)
    }
}

/// A session that the store has not numbered and stamped yet.
#[derive(Clone, Debug, PartialEq, Eq)]
pub struct AjedrezSessionNew {
    pub white_player: i32,
    pub black_player: i32,
    pub state: String,
    pub fen_state: String,
    pub pgn_state: String,
}

/// A session to be stored as the contracts see it.
pub struct AjedrezSessionNewView {
    pub white_player: i32,
    pub black_player: i32,
    pub state: Seq<char>,
    pub fen_state: Seq<char>,
    pub pgn_state: Seq<char>,
}

impl View for AjedrezSessionNew {
    type V = AjedrezSessionNewView;

    open spec fn view(&self) -> AjedrezSessionNewView {
        AjedrezSessionNewView {
            white_player: self.white_player,
            black_player: self.black_player,
            state: self.state@,
            fen_state: self.fen_state@,
            pgn_state: self.pgn_state@,
        }
    }
}

/// The two players that a new session is asked for.
#[derive(Clone, Copy, Debug, PartialEq, Eq, Structural)]
pub struct SessionPlayers {
    pub black_player: i32,
    pub white_player: i32,
}

/// How one move request ended.
#[derive(Clone, Copy, Debug, PartialEq, Eq, Structural)]
pub enum MoveOutcome {
    SessionDoesNotExist,
    UserNotInSession,
    InvalidMove,
    ValidMove,
    DatabaseError,
    FenParseError,
}

/// A player's request to move in a session.
#[derive(Clone, Debug, PartialEq, Eq)]
pub struct MoveRequest {
    pub session_id: i32,
    pub player_id: i32,
    pub move_alg: String,
}

/// A move request as the contracts see it.
pub struct MoveRequestView {
    pub session_id: i32,
    pub player_id: i32,
    pub move_alg: Seq<char>,
}

impl View for MoveRequest {
    type V = MoveRequestView;

    open spec fn view(&self) -> MoveRequestView {
        MoveRequestView {
            session_id: self.session_id,
            player_id: self.player_id,
            move_alg: self.move_alg@,
        }
    }
}

/// The outcome of a move request with a message fit to show the player.
#[derive(Debug, PartialEq, Eq)]
pub struct MoveResponse {
    pub result: MoveOutcome,
    pub description: String,
}

/// A move response as the contracts see it.
pub struct MoveResponseView {
    pub result: MoveOutcome,
    pub description: Seq<char>,
}

impl View for MoveResponse {
    type V = MoveResponseView;

    open spec fn view(&self) -> MoveResponseView {
        MoveResponseView { result: self.result, description: self.description@ }
    }
}

impl Clone for MoveResponse {
    fn clone(&self) -> (copy: MoveResponse)
        ensures
            copy@ == self@,
    {
        MoveResponse { result: self.result, description: self.description.clone() }
    }
}

/// Why a session could not be shown.
#[derive(Clone, Copy, Debug, PartialEq, Eq, Structural)]
pub enum AjedrezSessionStateError {
    DatabaseError,
    DoesNotExist,
    ParseError,
}

/// The part of a parsed position that the service reads.
#[derive(Clone, Copy, Debug, PartialEq, Eq, Structural)]
pub struct Board {
    pub active_color: Color,
}

/// A stored session together with its position as the board engine read it.
#[derive(Debug, PartialEq, Eq)]
pub struct AjedrezSessionState {
    pub db_state: AjedrezSession,
    pub board: Board,
}

/// A shown session as the contracts see it.
pub struct AjedrezSessionStateView {
    pub db_state: AjedrezSessionView,
    pub board: Board,
}

impl View for AjedrezSessionState {
    type V = AjedrezSessionStateView;

    open spec fn view(&self) -> AjedrezSessionStateView {
        AjedrezSessionStateView { db_state: self.db_state@, board: self.board }
    }
}

impl Clone for AjedrezSessionState {
    fn clone(&self) -> (copy: AjedrezSessionState)
        ensures
            copy@ == self@,
    {
        AjedrezSessionState { db_state: self.db_state.clone(), board: self.board }
    }
}

/// One line of the leaderboard.
#[derive(Clone, Copy, Debug, PartialEq, Eq, Structural)]
pub struct LeaderBoard {
    pub id: i32,
    pub session_id: i32,
    pub winner_id: i32,
    pub points: i32,
    pub created: Timestamp,
}

/// A leaderboard line that the store has not numbered and stamped yet.
#[derive(Clone, Copy, Debug, PartialEq, Eq)]
pub struct LeaderBoardNew<'a> {
    pub session_id: &'a i32,
    pub winner_id: &'a i32,
    pub points: &'a i32,
}

} // verus!
