//! What holds of the operations as a whole: across calls, across steps, and of the stored state;
//! and of the functions that they are made of.

pub mod access;
pub mod authentication;
pub mod authentication_challenge;
pub mod ceremonies;
pub mod configuration;
pub mod ending;
pub mod faults;
pub mod history;
pub mod limit;
pub mod listing;
pub mod notation;
pub mod registration;
pub mod registration_challenge;
pub mod repeats;
pub mod replay;
pub mod requests;
pub mod revocation;
pub mod single_use;
pub mod steps;
pub mod stored;
pub mod telling;
