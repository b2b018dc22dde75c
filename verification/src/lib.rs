//! Typed construction of sparse mutation requests for soundboard sounds and
//! channel invites.
//!
//! A builder gathers the fields a caller chose to set, keeps the audit-log
//! reason apart from them, and is turned into exactly one [`http::Request`]:
//! a method, a route, the payload fields that were set, and the reason. The
//! transport that sends the request lives outside this crate; [`http::Dispatch`]
//! decides what it is asked to do and what the caller gets back.

pub mod builder;
pub mod http;
pub mod model;
pub mod text;
