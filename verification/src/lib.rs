//! The verified core of a WebAuthn passkey plugin.
//!
//! An authenticated user adds, lists and revokes passkeys; a trusted ingress authenticates a known
//! subject with one of them and gets an ordinary session for it.
//!
//! Each operation (`begin_registration`, `finish_registration`, `begin_authentication`,
//! `finish_authentication`, `list_passkeys`, `revoke_passkey`) is a state machine: `start` and
//! `resume` decide what happens next and give the [`storage::Action`] to perform, and the host
//! hands back the [`storage::Reply`]. The host only performs what is decided here; what a statement
//! of its own decides, such as the order of rows, is described in `model`. The contracts of `start`
//! and `resume` are the relations `starts` and `advances` of the same module, which fix the next
//! step for every state and every reply.
//!
//! `model` says what the actions do to the stored state, and `laws` what then holds of whole runs:
//! who may do what, that what is answered is what was stored, that a completed command is replayed
//! and never repeated, that a challenge is good for one attempt, and that no subject has more
//! passkeys than it may have. They also say, value by value and character by character, which
//! configurations and requests are accepted and what each function makes of its arguments.
//!
//! Calls into other crates stand behind small functions marked as trusted, each beside the logic
//! that needs it; above each stands what is claimed of the call.

pub mod activation;
pub mod active;
pub mod authenticated;
pub mod authority;
pub mod begin_authentication;
pub mod begin_registration;
pub mod ceremony;
pub mod challenge;
pub mod command;
pub mod config;
pub mod contract;
pub mod failure;
pub mod finish_authentication;
pub mod finish_registration;
pub mod identifier;
pub mod instant;
pub mod laws;
pub mod list_passkeys;
pub mod model;
pub mod origin;
pub mod passkeys;
pub mod receipt;
pub mod request;
pub mod revoke_passkey;
pub mod rows;
pub mod schema;
pub mod storage;
pub mod text;
