//! A global hotkey ("key-chord") dispatcher core.
//!
//! The library models the chord dispatch engine of a hotkey daemon: the
//! `Mod-Mod-...-Key` combination grammar, the key symbol table, the
//! modifier-mask resolution algorithm, the hierarchical action tree and its
//! traversal state machine, the lock-independent key-grab plan, and the
//! bookkeeping for spawned child processes.  Everything here is pure logic
//! over plain values; the windowing connection, rendering and process
//! spawning are performed by an unverified shell around this crate.

pub mod action;

pub mod cmdline;

pub mod config;

pub mod display;

pub mod engine;

pub mod error;

pub mod combination;

pub mod grab;

pub mod keyboard;

pub mod keysym;

pub mod listing;

pub mod masks;

pub mod reaper;

pub mod strutil;
