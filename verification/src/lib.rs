//! Provisioning and persistence of the configuration of a small file-sharing
//! server: the shared folders, the authorised logins, and the interactive
//! flow that collects both.
//!
//! The store is in `config`, with its two sets in `folders` and `logins`;
//! the credential hasher is in `hasher`. The interactive flow is the machine
//! in `engine`, which speaks in the terms of `dialogue` and judges entries by
//! the rules of `entry`; `flow` holds what is true of every run of it.
//! `operation` and `error` decide what each operation of the tool does and
//! how its failures are handled, and `persist` what a reading of the
//! configuration file amounts to. Reading, writing, the terminal and the
//! file system are left to the program around the library.

pub mod config;
pub mod dialogue;
pub mod engine;
pub mod entry;
pub mod error;
pub mod flow;
pub mod folders;
pub mod hasher;
pub mod login;
pub mod logins;
pub mod operation;
pub mod persist;
pub mod sorted;
pub mod text;
