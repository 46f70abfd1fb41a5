//! Chess session service: the rules by which a move request becomes either a
//! stored new position or a precise refusal.
//!
//! The service keeps games of chess between two players in a session store
//! and has a board engine judge the moves. This library is the part that
//! decides. It reaches neither collaborator: a pipeline names its next
//! question, whoever runs it puts the question to the store or the engine
//! and hands the answer back.
//!
//! - `models`: the records, each with the view that the contracts speak of.
//! - `exchange`: the questions and the answers.
//! - `moves`: the stages of a move request and what each answer makes of them.
//! - `inspect`: the stages of the read-only look at a session.
//! - `db`: the entry points, among them `make_movement` and
//!   `get_session_state`, which take one answer each.
//! - `world`: the collaborators as mathematics, and the laws that hold of a
//!   pipeline run against them from its first question to its reply.
//! - `text`, `clock`, `config`: numbers in messages, the calendar, settings.

pub mod clock;
pub mod config;
pub mod db;
pub mod exchange;
pub mod inspect;
pub mod models;
pub mod moves;
pub mod text;
pub mod world;
