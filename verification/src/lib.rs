//! Verified core of the `aopmem` command line interface: argument parsing,
//! keyset list cursors and page validation, the structured error catalogue,
//! JSON envelope framing, the per-command observation state machine, and the
//! continuation state of task recall.

pub mod codes;
pub mod text;
pub mod outside;

pub mod cursor;
pub mod bundle;
pub mod args;
pub mod requests;
pub mod commands;

pub mod artifacts;
pub mod error;
pub mod failures;
pub mod tools;

pub mod envelope;
pub mod plain;
pub mod pagination;
pub mod listing;

pub mod event;
pub mod observation;
pub mod observed;

pub mod recall;
pub mod recall_facts;
