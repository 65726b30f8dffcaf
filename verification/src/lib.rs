//! Offline chess puzzles: the verified core of a puzzle trainer for the lichess puzzle
//! database. It searches the database and the favorites, plays puzzles move by move
//! against their solutions, keeps an analysis board, talks to a UCI engine, translates
//! the interface, writes moves in (localized) algebraic notation, lays out the board and
//! exports puzzles to PDF.

pub mod styles;
pub mod board;
pub mod text;
pub mod decimal;
pub mod notation;
pub mod lang;
pub mod openings;
pub mod themes;
pub mod config;
pub mod puzzle;
pub mod settings;
pub mod search;
pub mod session;
pub mod engine;
pub mod board_view;
pub mod export;
pub mod search_tab;
pub mod offline_puzzles;
