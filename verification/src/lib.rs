//! Client-side orchestration of a remote static-analysis backend.
//!
//! The library submits source code to a scanning backend, waits for the
//! scan to end, gathers the findings page by page, keeps those that a
//! severity floor lets through, enriches them with remediation text and,
//! where wanted, with the content of the files they lie in, and puts the
//! result into one report.
//!
//! It does none of the sending itself. Every exchange with the backend is
//! split in two: the library says what to send, as a
//! [`request::Form`] or a [`request::Upload`], and judges what came back, a
//! [`request::Reply`] read into a [`request::Answer`]. The caller sends,
//! pauses and writes. A whole run is the machine of [`session`]; the
//! gathering of findings is the machine of [`aggregate`], whose laws are
//! proved in [`trail`], [`kept`] and [`added`].
//!
//! Everything here is verified but the calls into `serde_json` and
//! `mime_guess`, which stand in [`json`] and [`mime`] with the contracts
//! that are taken on trust.

pub mod added;
pub mod aggregate;
pub mod cache;
pub mod error;
pub mod finding;
pub mod json;
pub mod kept;
pub mod mime;
pub mod pecker;
pub mod plan;
pub mod poll;
pub mod project;
pub mod report;
pub mod request;
pub mod session;
pub mod severity;
pub mod text;
pub mod trail;

pub use crate::plan::builder;
