//! Core rules of a prompt-skill assessment application: question-bank
//! checks and selection, settings and model-profile rules, evaluator prompt
//! assembly, evaluator-reply interpretation and assessment session flow.
//!
//! Disk, the database and the network stay outside this crate; these modules
//! take the values that such work produced and return the values it should
//! store or send. The clock and the identifier source are read in the
//! `clock` module.

pub mod text;
mod clock;
pub mod errors;
pub mod question_bank;
pub mod profiles;
pub mod settings;
pub mod json;
pub mod ai_client;
pub mod db;
pub mod evaluation;
pub mod assessment;
pub mod laws;
