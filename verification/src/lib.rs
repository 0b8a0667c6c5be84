//! Plugin dispatch and hot-reload engine of a chat-bot host.

pub mod action;
pub mod builder;
pub mod command;
pub mod config;
pub mod context;
pub mod dispatch;
pub mod host;
pub mod intake;
pub mod join;
pub mod login;
pub mod policy;
pub mod registry;
pub mod reload;
pub mod run;
pub mod text;
pub mod verification;
