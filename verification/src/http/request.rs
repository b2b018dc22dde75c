//! A request, ready for the transport.

use crate::builder::payload::{Field, FieldView};
use crate::http::route::{Method, Route};
use vstd::prelude::*;

verus! {

/// All that the transport needs to make one call: where it goes, the payload
/// that is its body, and the audit-log reason, which travels beside the body
/// as metadata of the request.
#[derive(Clone, Debug, PartialEq, Eq)]
pub struct Request<'a> {
    pub method: Method,
    pub route: Route,
    pub body: Vec<Field>,
    pub audit_log_reason: Option<&'a str>,
}

/// What a [`Request`] says.
pub struct RequestView {
    pub method: Method,
    pub route: Route,
    pub body: Seq<FieldView>,
    pub audit_log_reason: Option<Seq<char>>,
}

impl<'a> View for Request<'a> {
    type V = RequestView;

    open spec fn view(&self) -> RequestView {
        RequestView {
            method: self.method,
            route: self.route,
            body: self.body.deep_view(),
            audit_log_reason: self.audit_log_reason.deep_view(),
        }
    }
}

} // verus!
