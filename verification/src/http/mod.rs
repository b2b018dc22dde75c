//! Requests, and the one exchange with the transport that each of them gets.

pub mod dispatch;
pub mod error;
pub mod request;
pub mod route;

pub use dispatch::{Action, Dispatch, Event};
pub use error::{settle, Error, HttpError};
pub use request::Request;
pub use route::{Method, Route};
