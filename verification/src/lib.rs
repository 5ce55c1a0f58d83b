//! Orchestration logic for per-request private support threads.
//!
//! A user presses a category button in a community chat space; the
//! orchestrator provisions a private thread, prompts for a title within a
//! fixed time window, and offers a repeatable multi-select dialog for
//! descriptive tags, until the thread is closed by the user or by timeout.
//!
//! This crate holds the decision logic only: every function here is a pure,
//! verified map from plain values (event data already extracted from the
//! platform) to plain values (the next state and the descriptions of the
//! platform calls to make). The surrounding binary performs the actual
//! network calls and feeds the results back in.

pub mod action;

pub mod bootstrap;

pub mod category;

pub mod message;

pub mod tags;

pub mod text;


pub mod workflow;
