//! Phrase normalisation, intent registry and the text handling behind the
//! corporate assistant's actions.

pub mod text;
pub mod nlu;
pub mod nlu_laws;
pub mod nlu_phrases;
pub mod interpreter;
pub mod skm;
pub mod contribs;
pub mod contribs_laws;
pub mod config;
pub mod msr;
pub mod jira;
pub mod mailer;
pub mod actions;
pub mod recording;
pub mod cli;
pub mod editor;
pub mod toml_text;
