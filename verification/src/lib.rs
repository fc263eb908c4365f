//! Identity-and-notification core: a token codec for time-bounded signed
//! claims, a session store, a user directory with a uniqueness constraint,
//! an authentication orchestrator, and a notification builder/dispatcher.
//!
//! Storage is an in-process store with verified invariants; the mail
//! transport and template files are collaborators driven from outside the
//! library, which prepares and checks everything they consume and produce.

// shared verified machinery
pub mod kv;
pub mod seqx;
pub mod text;

// collaborators behind trusted wrappers
pub mod clock;
pub mod idgen;

// data and configuration
pub mod api_error;
pub mod config;
pub mod constants;
pub mod errors;
pub mod models;

// token codec and stores
pub mod auth_service;
pub mod payload;
pub mod session;
pub mod users;

// notifications
pub mod layout;
pub mod mailer;
pub mod notification_builder;
pub mod notification_service;

// orchestration
pub mod helpers;
pub mod iam_service;
