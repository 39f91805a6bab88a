//! Window selection for a split-window editor.
//!
//! The crate has two parts. [`geometry`] decides which window lies next to the
//! current one in a cardinal direction, from the screen rectangles alone. The
//! remaining modules form the picker: which windows may be chosen
//! ([`window`]), which hint each of them shows ([`hints`]), the moves that need
//! no hint ([`navigate`]), and the session that puts the hints on screen, waits
//! for one key and takes every hint down again before it answers
//! ([`session`]).
//!
//! Nothing here talks to an editor. The session is driven from outside: it hands
//! out one request at a time and is told the host's reply. What it then does is
//! fixed by a model, and the laws of that model are proved in
//! [`session_laws`], for any host, and in [`honest_host`], for a host that does
//! as it is asked.
pub mod demo;
pub mod error;
pub mod geometry;
pub mod hints;
pub mod honest_host;
pub mod navigate;
pub mod sequences;
pub mod session;
pub mod session_laws;
pub mod window;
