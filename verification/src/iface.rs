//! The embedding interface: the traits an embedder implements so that the
//! binding layer can serve guest calls from its own resource types.  The
//! concrete types of this crate implement them, so a driver can use the
//! crate directly as one such embedding.

use vstd::prelude::*;

use crate::http::{Method, Scheme, StatusCode};

verus! {

/// A request descriptor the binding layer can read.
pub trait IncomingRequest {
    /// The request method.
    fn method(&self) -> Method;

    /// Path and query, if given.
    fn path_with_query(&self) -> Option<String>;

    /// The scheme, if given.
    fn scheme(&self) -> Option<Scheme>;

    /// The authority, if given.
    fn authority(&self) -> Option<String>;
}

/// A received response descriptor the binding layer can read.
pub trait IncomingResponse {
    /// The status code.
    fn status_code(&self) -> StatusCode;
}

/// A response descriptor the binding layer can build up.
pub trait OutgoingResponse {
    /// The current status code.
    fn status_code(&self) -> StatusCode;

    /// Set the status code; out-of-range values are refused.
    fn set_status_code(&mut self, code: StatusCode) -> Result<(), ()>;
}

/// A request descriptor the binding layer can build up.
pub trait OutgoingRequest {
    /// The current method.
    fn method(&self) -> Method;

    /// Replace the method.
    fn set_method(&mut self, meth: Method) -> Result<(), ()>;

    /// The current path and query.
    fn path_with_query(&self) -> Option<String>;

    /// Replace the path and query.
    fn set_path_with_query(&mut self, pwq: Option<String>) -> Result<(), ()>;

    /// The current scheme.
    fn scheme(&self) -> Option<Scheme>;

    /// Replace the scheme.
    fn set_scheme(&mut self, scheme: Option<Scheme>) -> Result<(), ()>;

    /// The current authority.
    fn authority(&self) -> Option<String>;

    /// Replace the authority.
    fn set_authority(&mut self, auth: Option<String>) -> Result<(), ()>;
}

/// A header collection of the embedder.
pub trait Fields {

}

/// Exchange options of the embedder.
pub trait RequestOptions {

}

/// An incoming payload source of the embedder.
pub trait IncomingBody {

}

/// An outgoing payload sink of the embedder.
pub trait OutgoingBody {

}

/// A response delivery slot of the embedder.
pub trait ResponseOutparam {

}

impl IncomingRequest for crate::http::IncomingRequest {
    fn method(&self) -> Method {
        crate::http::IncomingRequest::method(self)
    }

    fn path_with_query(&self) -> Option<String> {
        crate::http::IncomingRequest::path_with_query(self)
    }

    fn scheme(&self) -> Option<Scheme> {
        crate::http::IncomingRequest::scheme(self)
    }

    fn authority(&self) -> Option<String> {
        crate::http::IncomingRequest::authority(self)
    }
}

impl IncomingResponse for crate::http::IncomingResponse {
    fn status_code(&self) -> StatusCode {
        crate::http::IncomingResponse::status_code(self)
    }
}

impl OutgoingResponse for crate::http::OutgoingResponse {
    fn status_code(&self) -> StatusCode {
        crate::http::OutgoingResponse::status_code(self)
    }

    fn set_status_code(&mut self, code: StatusCode) -> Result<(), ()> {
        crate::http::OutgoingResponse::set_status_code(self, code)
    }
}

impl OutgoingRequest for crate::http::OutgoingRequest {
    fn method(&self) -> Method {
        crate::http::OutgoingRequest::method(self)
    }

    fn set_method(&mut self, meth: Method) -> Result<(), ()> {
        crate::http::OutgoingRequest::set_method(self, meth)
    }

    fn path_with_query(&self) -> Option<String> {
        crate::http::OutgoingRequest::path_with_query(self)
    }

    fn set_path_with_query(&mut self, pwq: Option<String>) -> Result<(), ()> {
        crate::http::OutgoingRequest::set_path_with_query(self, pwq)
    }

    fn scheme(&self) -> Option<Scheme> {
        crate::http::OutgoingRequest::scheme(self)
    }

    fn set_scheme(&mut self, scheme: Option<Scheme>) -> Result<(), ()> {
        crate::http::OutgoingRequest::set_scheme(self, scheme)
    }

    fn authority(&self) -> Option<String> {
        crate::http::OutgoingRequest::authority(self)
    }

    fn set_authority(&mut self, auth: Option<String>) -> Result<(), ()> {
        crate::http::OutgoingRequest::set_authority(self, auth)
    }
}

impl Fields for crate::fields::Fields {

}

impl RequestOptions for crate::http::RequestOptions {

}

impl IncomingBody for crate::http::IncomingBody {

}

impl OutgoingBody for crate::http::OutgoingBody {

}

impl ResponseOutparam for crate::outparam::ResponseOutparam {

}

} // verus!
