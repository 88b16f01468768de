//! A CurseForge modpack fetcher library.
//!
//! The heart of the crate is [`threadpool`]: a fixed-size worker pool with
//! batch-completion synchronization (a one-shot countdown latch), and a
//! strategy wrapper that lets callers choose between inline, same-thread
//! execution and pooled parallel execution behind one submission contract.
//!
//! [`api`] holds the CurseForge REST client's data model and the pure parts
//! of its request logic; [`manifest`] models a pack manifest; [`text`]
//! holds the verified text searching the key grabber and the downloader
//! use. [`sync`] and [`http`] are the trusted boundaries to the outside
//! crates this library leans on.

pub mod api;
pub mod http;
pub mod manifest;
pub mod sync;
pub mod text;
pub mod threadpool;
