//! The orchestrator of a capture session: it supervises an external recorder
//! that keeps the last minutes of the screen in a rolling buffer, asks it by
//! signal to write the last seconds out, follows what the user does on the
//! control panel and whether a game runs, and keeps the session's settings and
//! the uploads that failed.
//!
//! Nothing in this library touches a process, a file or a stream. Each
//! operation says what is to be done and takes in how it went; the program
//! around the library does it. What the library decides is proved of every
//! input: the contracts are stated over the models of the data (`...View`).
//!
//! - `capture`: the recorder's settings, its command line, the signal table,
//!   and the supervisor of the recorder process.
//! - `session`: the session itself, turn by turn; `session_laws`: what holds of
//!   every turn.
//! - `overlay`: the messages exchanged with the control panel, and what each
//!   exchange makes of an answer; `panel`: what the panel shows.
//! - `settings`, `failed_uploads`: what outlives a session.
//! - `config`: the command line.
//! - `clip`, `process`, `ffmpeg`, `upload`, `steam`, `hotkey`, `progress`: the
//!   names, arguments and readings of the clip-finishing pipeline and of the
//!   detection of games and keys.
//! - `text`, `paths`, `model`: texts, paths, and the models of results.

pub mod capture;
pub mod clip;
pub mod config;
pub mod failed_uploads;
pub mod ffmpeg;
pub mod hotkey;
pub mod model;
pub mod overlay;
pub mod panel;
pub mod paths;
pub mod pipeline;
pub mod process;
pub mod progress;
pub mod session;
pub mod session_laws;
pub mod settings;
pub mod steam;
pub mod text;
pub mod upload;
