//! Dispatch of workflow steps onto a compute cluster as resource-bounded jobs,
//! and the bookkeeping that follows each job to its terminal outcome.
//!
//! The library decides and keeps state; it never talks to the cluster or to
//! the message bus itself. The caller makes those calls and hands in what
//! came back, and each function says in its contract what it makes of it.
//!
//! - [`resources`], [`priority`]: what a job asks for and how it ranks.
//! - [`builder`], [`pod`], [`manifest`]: from a request to what is submitted.
//! - [`job`]: the registry of live jobs and the cleanup sweep.
//! - [`k8s`]: one job from submission to its end, with its log.
//! - [`message`], [`service`]: requests and the turns of the dispatch loop.
//! - [`schema`], [`values`], [`template`], [`js`]: workflow documents and
//!   the values of their steps.
//! - [`text`]: helpers for text.

pub mod builder;
pub mod job;
pub mod js;
pub mod k8s;
pub mod manifest;
pub mod message;
pub mod pod;
pub mod priority;
pub mod resources;
pub mod schema;
pub mod service;
pub mod template;
pub mod text;
pub mod values;
