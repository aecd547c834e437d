//! Protocol-agnostic backend of a file-transfer client: connection profiles and
//! their validation, the command/response contract shared by all frontends, the
//! protocol registry, the session-managing command dispatcher, remote path
//! handling, the decisions of the FTP and SFTP adapters, and the decision
//! logic and screen texts of the terminal frontend, the `oc` command line and
//! the desktop window.

pub mod text;
pub mod table;
pub mod ids;
pub mod error;
pub mod types;
pub mod command;
pub mod registry;
pub mod backend;
pub mod remote_path;
pub mod ftp;
pub mod sftp;
pub mod config;
pub mod form;
pub mod order;
pub mod navigator;
pub mod tui;
pub mod cli;
pub mod desktop;
pub mod view;
