//! Discovery, ranking and usage bookkeeping for an application and file launcher.
//!
//! The library holds the logic of the launcher: the score compositor, an in-memory
//! model of the preference store, the source enumerator's filtering and
//! deduplication rules, both fuzzy ranking pipelines, the application state machine,
//! and the terminal output that the renderer produces. Everything that touches the
//! disk, the process environment or the terminal device lives outside it.
pub mod app;
pub mod discovery;
pub mod entries;
pub mod input;
pub mod launch;
pub mod laws;
pub mod order;
pub mod prefs;
pub mod rank;
pub mod search;
pub mod seed;
pub mod terminal;
pub mod text;
pub mod theme;
pub mod ui;
pub mod words;
