//! Verified core of the `atlas sh` plugin: the command-line grammar, the
//! credential cache rules and the decisions taken while launching `mongosh`.

pub mod args;
pub mod credentials;
pub mod domain;
pub mod flow;
pub mod grammar;
pub mod grammar_laws;
pub mod session;
pub mod temp_user;
pub mod text;
pub mod time;
