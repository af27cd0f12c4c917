//! Verified core of the Open Intelligence Desktop runtime and console.
pub mod text;
pub mod escape;
pub mod common;
pub mod operation;
pub mod order;
pub mod opset;
pub mod keyed;
pub mod journal;
pub mod policy;
pub mod evidence;
pub mod shared;
pub mod intent;
pub mod lifecycle;
pub mod skills;
pub mod verification;
pub mod docs;
pub mod editor;
pub mod history;
pub mod signals;
pub mod ipc;
pub mod audio;
pub mod plugin;
pub mod coordinator;
pub mod run;
pub mod model;
pub mod desktop;
pub mod catalog;
pub mod runtime;
pub mod backends;
pub mod commands;
pub mod foundation;
pub mod governance;
pub mod terminal;
pub mod shell;
pub mod session;
pub mod daemon;
pub mod native;
