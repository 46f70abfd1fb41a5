//! What a new session holds, how a listing is bounded, and how the state
//! labels read.

use ajedrez_svc::config::AjedrezConfig;
use ajedrez_svc::db::{
    create_session, generate_pgn, load_sessions, pgn_dated, session_dated, INITIAL_FEN_BOARD,
    SESSION_LIST_LIMIT,
};
use ajedrez_svc::models::{
    AjedrezSession, AjedrezSessionNew, Color, LeaderBoard, LeaderBoardNew, SessionPlayers,
    SessionState, Timestamp,
};

fn row(id: i32) -> AjedrezSession {
    AjedrezSession {
        id,
        white_player: 10 + id,
        black_player: 20 + id,
        state: String::from("Pending"),
        fen_state: String::from(INITIAL_FEN_BOARD),
        pgn_state: String::new(),
        created: None,
        updated: None,
    }
}

fn rows(count: i32) -> Vec<AjedrezSession> {
    (1..=count).map(row).collect()
}

#[test]
fn starting_position_is_the_standard_one() {
    assert_eq!(INITIAL_FEN_BOARD, "rnbqkbnr/pppppppp/8/8/8/8/PPPPPPPP/RNBQKBNR w KQkq - 0 1");
}

#[test]
fn starting_position_has_white_to_move() {
    let session = create_session(1, 2);
    let fields: Vec<&str> = session.fen_state.split(' ').collect();
    assert_eq!(fields.len(), 6);
    assert_eq!(fields[0].split('/').count(), 8);
    assert_eq!(fields[1], "w");
}

#[test]
fn header_block_carries_the_date() {
    assert_eq!(
        pgn_dated("2024.02.29"),
        "[Event \"Ajedrez\"]\n[Site \"Online\"]\n[Date \"2024.02.29\"]\n[Round \"1\"]\n[White \"Player1\"]\n[Black \"Player2\"]\n"
    );
}

#[test]
fn header_block_of_an_empty_date() {
    assert_eq!(
        pgn_dated(""),
        "[Event \"Ajedrez\"]\n[Site \"Online\"]\n[Date \"\"]\n[Round \"1\"]\n[White \"Player1\"]\n[Black \"Player2\"]\n"
    );
}

#[test]
fn todays_header_block_is_dated_by_the_calendar() {
    let pgn = generate_pgn();
    let head = "[Event \"Ajedrez\"]\n[Site \"Online\"]\n[Date \"";
    let tail = "\"]\n[Round \"1\"]\n[White \"Player1\"]\n[Black \"Player2\"]\n";
    assert!(pgn.starts_with(head));
    assert!(pgn.ends_with(tail));
    let date = &pgn[head.len()..pgn.len() - tail.len()];
    let parts: Vec<&str> = date.split('.').collect();
    assert_eq!(parts.len(), 3);
    assert!(parts[0].len() >= 4);
    assert_eq!(parts[1].len(), 2);
    assert_eq!(parts[2].len(), 2);
    assert!(parts.iter().all(|part| part.chars().all(|c| c.is_ascii_digit())));
    assert_eq!(pgn, pgn_dated(date));
}

#[test]
fn dated_session_is_exactly_this() {
    assert_eq!(
        session_dated(1, 2, "2025.12.31"),
        AjedrezSessionNew {
            white_player: 1,
            black_player: 2,
            state: String::from("Pending"),
            fen_state: String::from("rnbqkbnr/pppppppp/8/8/8/8/PPPPPPPP/RNBQKBNR w KQkq - 0 1"),
            pgn_state: String::from(
                "[Event \"Ajedrez\"]\n[Site \"Online\"]\n[Date \"2025.12.31\"]\n[Round \"1\"]\n[White \"Player1\"]\n[Black \"Player2\"]\n"
            ),
        }
    );
}

#[test]
fn new_session_is_pending_with_its_players() {
    let session = create_session(123, -4);
    assert_eq!(session.white_player, 123);
    assert_eq!(session.black_player, -4);
    assert_eq!(session.state, "Pending");
    assert_eq!(session.state, SessionState::Pending.to_text());
    assert_eq!(session.fen_state, INITIAL_FEN_BOARD);
    assert_eq!(session.pgn_state.lines().count(), 6);
}

#[test]
fn new_session_may_seat_one_player_twice() {
    let session = create_session(123, 123);
    assert_eq!(session.white_player, session.black_player);
}

#[test]
fn listing_shows_at_most_the_limit() {
    let listed = load_sessions(rows(8), SESSION_LIST_LIMIT);
    assert_eq!(SESSION_LIST_LIMIT, 5);
    assert_eq!(listed, rows(5));
}

#[test]
fn listing_shows_all_of_a_short_store() {
    assert_eq!(load_sessions(rows(3), 5), rows(3));
    assert_eq!(load_sessions(rows(5), 5), rows(5));
    assert_eq!(load_sessions(Vec::new(), 5), Vec::new());
}

#[test]
fn listing_bounded_by_zero_is_empty() {
    assert_eq!(load_sessions(rows(3), 0), Vec::new());
}

#[test]
fn listing_keeps_the_stores_order() {
    let mut stored = rows(4);
    stored.reverse();
    let listed = load_sessions(stored, 2);
    assert_eq!(listed.iter().map(|session| session.id).collect::<Vec<i32>>(), vec![4, 3]);
}

#[test]
fn every_state_has_its_label() {
    assert_eq!(SessionState::Pending.to_text(), "Pending");
    assert_eq!(SessionState::Started.to_text(), "Started");
    assert_eq!(SessionState::Paused.to_text(), "Paused");
    assert_eq!(SessionState::Abandoned.to_text(), "Abandoned");
    assert_eq!(SessionState::Completed.to_text(), "Completed");
    assert_eq!(SessionState::Won.to_text(), "Won");
    assert_eq!(SessionState::Draw.to_text(), "Draw");
    assert_eq!(SessionState::Draw.name(), "Draw");
}

#[test]
fn every_label_reads_back_as_its_state() {
    let states = [
        SessionState::Pending,
        SessionState::Started,
        SessionState::Paused,
        SessionState::Abandoned,
        SessionState::Completed,
        SessionState::Won,
        SessionState::Draw,
    ];
    for state in states {
        assert_eq!(SessionState::from_label(&state.to_text()), Some(state));
    }
}

#[test]
fn unknown_label_is_refused() {
    assert_eq!(SessionState::from_label(""), None);
    assert_eq!(SessionState::from_label("pending"), None);
    assert_eq!(SessionState::from_label("Pending "), None);
    assert_eq!(SessionState::from_label("Finished"), None);
}

#[test]
fn sides_are_named_and_opposed() {
    assert_eq!(Color::White.name(), "White");
    assert_eq!(Color::Black.name(), "Black");
    assert_ne!(Color::White, Color::Black);
}

#[test]
fn seat_and_side_of_a_player() {
    let session = row(1);
    assert!(session.seats(11));
    assert!(session.seats(21));
    assert!(!session.seats(999));
    assert_eq!(session.color_of(11), Color::White);
    assert_eq!(session.color_of(21), Color::Black);
    let mut alone = row(2);
    alone.black_player = alone.white_player;
    assert_eq!(alone.color_of(alone.white_player), Color::White);
}

#[test]
fn copy_of_a_session_equals_it() {
    let mut session = row(3);
    session.created = Some(Timestamp { secs: 5, nanos: 6 });
    assert_eq!(session.clone(), session);
}

#[test]
fn settings_start_empty() {
    let config = AjedrezConfig::default();
    assert_eq!(config.server_addr, "");
    assert_eq!(config.database_url, "");
}

#[test]
fn leaderboard_lines_hold_their_fields() {
    let (session_id, winner_id, points) = (4, 2, 3);
    let new = LeaderBoardNew { session_id: &session_id, winner_id: &winner_id, points: &points };
    let line = LeaderBoard {
        id: 1,
        session_id: *new.session_id,
        winner_id: *new.winner_id,
        points: *new.points,
        created: Timestamp { secs: 0, nanos: 0 },
    };
    assert_eq!(line.winner_id, 2);
    assert_eq!(line.points, 3);
    let players = SessionPlayers { black_player: 2, white_player: 1 };
    assert_ne!(players.black_player, players.white_player);
}
