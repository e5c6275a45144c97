//! A bridge between a line protocol and a leaderboard backend.
//!
//! A client sends one line, `FETCH <key>` or `INFO <key>`, and gets one
//! document back. Connections are served side by side; one worker owns the
//! backend and answers every request. This library holds what is decided
//! on the way: how a line is parsed ([`command`]), what a connection does
//! with its line and its reply ([`connection`]), what the worker asks the
//! backend and whom it answers ([`worker`]), and the text of the documents
//! ([`xml`], [`text`]). Sockets, channels, the backend itself and the clock
//! are left to the program that uses it.

pub mod command;
pub mod connection;
pub mod text;
pub mod worker;
pub mod xml;
