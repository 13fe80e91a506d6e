//! Cache-first synchronization engine of a terminal mail client.
//!
//! The library holds the rules of the engine as verified code: the local
//! store of labels and messages, the staleness policy, the registry that
//! admits one refresh per label, the reconciliation of a fetched list with
//! the live view, and the optimistic archive and delete transitions.
pub mod app;
pub mod background_tasks;
pub mod cli;
pub mod database;
pub mod email_content;
pub mod event_handler;
pub mod gmail_api;
pub mod notifications;
pub mod staleness;
pub mod state;
pub mod store_laws;
pub mod sync;
pub mod string_map;
pub mod table;
pub mod text;
pub mod types;
pub mod ui;
