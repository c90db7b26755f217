//! Phoenix CMC: the verified core of a conferencing server.
//!
//! The library holds the command and protocol logic of the server: word and
//! keyword matching, sendlists and how their entries find recipients, the
//! TELNET protocol engine and input line editor, discussion moderation
//! rules, the name registry, the reports and user lists that commands
//! print, how messages are printed and wrapped, and the single-word atomic
//! option encodings.  The network plumbing lives in the application crate
//! around it.

pub mod atomic;
pub mod chars;
pub mod commands;
pub mod constants;
pub mod discussion;
pub mod dump;
pub mod help;
pub mod listing;
pub mod login;
pub mod message;
pub mod moderation;
pub mod name;
pub mod output;
pub mod registry;
pub mod report;
pub mod sendable;
pub mod sendlist;
pub mod session;
pub mod telnet;
pub mod telnet_input;
pub mod timestamp;
pub mod types;
pub mod user;
pub mod variables;
pub mod who;
pub mod words;
