//! The value types of the HTTP-shaped exchange: request and response
//! descriptors, request options and the opaque body markers.

use vstd::prelude::*;

verus! {

/// A response status code; settable values must stay below 600.
pub type StatusCode = u16;

/// An HTTP request method.
#[derive(Debug)]
pub enum Method {
    Get,
    Head,
    Post,
    Put,
    Delete,
    Connect,
    Options,
    Trace,
    Patch,
    /// Any other token.
    Other(String),
}

/// The abstract form of a method.
pub enum MethodModel {
    Get,
    Head,
    Post,
    Put,
    Delete,
    Connect,
    Options,
    Trace,
    Patch,
    /// Any other token, by its characters.
    Other(Seq<char>),
}

impl View for Method {
    type V = MethodModel;

    closed spec fn view(&self) -> MethodModel {
        match self {
            Method::Get => MethodModel::Get,
            Method::Head => MethodModel::Head,
            Method::Post => MethodModel::Post,
            Method::Put => MethodModel::Put,
            Method::Delete => MethodModel::Delete,
            Method::Connect => MethodModel::Connect,
            Method::Options => MethodModel::Options,
            Method::Trace => MethodModel::Trace,
            Method::Patch => MethodModel::Patch,
            Method::Other(s) => MethodModel::Other(s@),
        }
    }
}

impl Method {
    /// An owned copy of the method.
    pub fn dup(&self) -> (r: Method)
        ensures
            r@ == self@,
    {
        match self {
            Method::Get => Method::Get,
            Method::Head => Method::Head,
            Method::Post => Method::Post,
            Method::Put => Method::Put,
            Method::Delete => Method::Delete,
            Method::Connect => Method::Connect,
            Method::Options => Method::Options,
            Method::Trace => Method::Trace,
            Method::Patch => Method::Patch,
            Method::Other(s) => Method::Other(s.clone()),
        }
    }
}

/// A URI scheme.
#[derive(Debug)]
pub enum Scheme {
    Http,
    Https,
    /// Any other scheme token.
    Other(String),
}

/// The abstract form of a scheme.
pub enum SchemeModel {
    Http,
    Https,
    /// Any other scheme token, by its characters.
    Other(Seq<char>),
}

impl View for Scheme {
    type V = SchemeModel;

    closed spec fn view(&self) -> SchemeModel {
        match self {
            Scheme::Http => SchemeModel::Http,
            Scheme::Https => SchemeModel::Https,
            Scheme::Other(s) => SchemeModel::Other(s@),
        }
    }
}

impl Scheme {
    /// An owned copy of the scheme.
    pub fn dup(&self) -> (r: Scheme)
        ensures
            r@ == self@,
    {
        match self {
            Scheme::Http => Scheme::Http,
            Scheme::Https => Scheme::Https,
            Scheme::Other(s) => Scheme::Other(s.clone()),
        }
    }
}

/// Why an exchange failed, as reported to the guest or the driver.
#[derive(Debug, Clone, Copy, PartialEq, Eq, Structural)]
pub enum ErrorCode {
    DnsTimeout,
    DnsError,
    DestinationNotFound,
    DestinationUnavailable,
    ConnectionRefused,
    ConnectionTimeout,
    ConnectionReadTimeout,
    ConnectionWriteTimeout,
    HttpRequestDenied,
    HttpProtocolError,
    InternalError,
}

/// An owned copy of an optional string.
fn clone_opt_string(o: &Option<String>) -> (r: Option<String>)
    ensures
        r.deep_view() == o.deep_view(),
{
    match o {
        Some(s) => Some(s.clone()),
        None => None,
    }
}

/// An owned copy of an optional scheme.
fn clone_opt_scheme(o: &Option<Scheme>) -> (r: Option<Scheme>)
    ensures
        match (o, &r) {
            (Some(a), Some(b)) => a@ == b@,
            (None, None) => true,
            _ => false,
        },
{
    match o {
        Some(s) => Some(s.dup()),
        None => None,
    }
}

/// The request a guest is asked to handle.  The descriptor is fixed when the
/// run is created.
#[derive(Debug)]
pub struct IncomingRequest {
    /// The request method.
    pub method: Method,
    /// Path and query, if given.
    pub path_with_query: Option<String>,
    /// The scheme, if given.
    pub scheme: Option<Scheme>,
    /// The authority, if given.
    pub authority: Option<String>,
}

impl IncomingRequest {
    /// The request method.
    pub fn method(&self) -> (r: Method)
        ensures
            r@ == self.method@,
    {
        self.method.dup()
    }

    /// Path and query, if given.
    pub fn path_with_query(&self) -> (r: Option<String>)
        ensures
            r.deep_view() == self.path_with_query.deep_view(),
    {
        clone_opt_string(&self.path_with_query)
    }

    /// The scheme, if given.
    pub fn scheme(&self) -> (r: Option<Scheme>)
        ensures
            match (&self.scheme, &r) {
                (Some(a), Some(b)) => a@ == b@,
                (None, None) => true,
                _ => false,
            },
    {
        clone_opt_scheme(&self.scheme)
    }

    /// The authority, if given.
    pub fn authority(&self) -> (r: Option<String>)
        ensures
            r.deep_view() == self.authority.deep_view(),
    {
        clone_opt_string(&self.authority)
    }
}

/// The response an outbound exchange produced.
#[derive(Debug)]
pub struct IncomingResponse {
    /// Its status code.
    pub status_code: StatusCode,
}

impl IncomingResponse {
    /// The status code.
    pub fn status_code(&self) -> (r: StatusCode)
        ensures
            r == self.status_code,
    {
        self.status_code
    }
}

/// The response a guest builds for the driver.
#[derive(Debug)]
pub struct OutgoingResponse {
    status_code: StatusCode,
}

impl OutgoingResponse {
    /// The current status code.
    pub closed spec fn spec_status_code(&self) -> StatusCode {
        self.status_code
    }

    /// A fresh response; its status code starts at 200.
    pub fn new() -> (r: OutgoingResponse)
        ensures
            r.spec_status_code() == 200,
    {
        OutgoingResponse { status_code: 200 }
    }

    /// The current status code.
    pub fn status_code(&self) -> (r: StatusCode)
        ensures
            r == self.spec_status_code(),
    {
        self.status_code
    }

    /// Set the status code; values of 600 and above are rejected and change
    /// nothing.
    pub fn set_status_code(&mut self, code: StatusCode) -> (r: Result<(), ()>)
        ensures
            code < 600 ==> r is Ok && final(self).spec_status_code() == code,
            code >= 600 ==> r is Err && *final(self) == *old(self),
    {
        if code < 600 {
            self.status_code = code;
            Ok(())
        } else {
            Err(())
        }
    }
}

/// The request a guest builds for an outbound exchange.
#[derive(Debug)]
pub struct OutgoingRequest {
    method: Method,
    path_with_query: Option<String>,
    scheme: Option<Scheme>,
    authority: Option<String>,
}

impl OutgoingRequest {
    /// The current method.
    pub closed spec fn spec_method(&self) -> MethodModel {
        self.method@
    }

    /// The current path and query.
    pub closed spec fn spec_path_with_query(&self) -> Option<Seq<char>> {
        self.path_with_query.deep_view()
    }

    /// The current scheme.
    pub closed spec fn spec_scheme(&self) -> Option<SchemeModel> {
        match &self.scheme {
            Some(s) => Some(s@),
            None => None,
        }
    }

    /// The current authority.
    pub closed spec fn spec_authority(&self) -> Option<Seq<char>> {
        self.authority.deep_view()
    }

    /// A fresh request: method GET, everything else unset.
    pub fn new() -> (r: OutgoingRequest)
        ensures
            r.spec_method() == MethodModel::Get,
            r.spec_path_with_query() is None,
            r.spec_scheme() is None,
            r.spec_authority() is None,
    {
        OutgoingRequest { method: Method::Get, path_with_query: None, scheme: None, authority: None }
    }

    /// The current method.
    pub fn method(&self) -> (r: Method)
        ensures
            r@ == self.spec_method(),
    {
        self.method.dup()
    }

    /// Replace the method.
    pub fn set_method(&mut self, meth: Method) -> (r: Result<(), ()>)
        ensures
            r is Ok,
            final(self).spec_method() == meth@,
            final(self).spec_path_with_query() == old(self).spec_path_with_query(),
            final(self).spec_scheme() == old(self).spec_scheme(),
            final(self).spec_authority() == old(self).spec_authority(),
    {
        self.method = meth;
        Ok(())
    }

    /// The current path and query.
    pub fn path_with_query(&self) -> (r: Option<String>)
        ensures
            r.deep_view() == self.spec_path_with_query(),
    {
        clone_opt_string(&self.path_with_query)
    }

    /// Replace the path and query.
    pub fn set_path_with_query(&mut self, pwq: Option<String>) -> (r: Result<(), ()>)
        ensures
            r is Ok,
            final(self).spec_path_with_query() == pwq.deep_view(),
            final(self).spec_method() == old(self).spec_method(),
            final(self).spec_scheme() == old(self).spec_scheme(),
            final(self).spec_authority() == old(self).spec_authority(),
    {
        self.path_with_query = pwq;
        Ok(())
    }

    /// The current scheme.
    pub fn scheme(&self) -> (r: Option<Scheme>)
        ensures
            match (&r, self.spec_scheme()) {
                (Some(a), Some(b)) => a@ == b,
                (None, None) => true,
                _ => false,
            },
    {
        clone_opt_scheme(&self.scheme)
    }

    /// Replace the scheme.
    pub fn set_scheme(&mut self, scheme: Option<Scheme>) -> (r: Result<(), ()>)
        ensures
            r is Ok,
            final(self).spec_scheme() == (match scheme {
                Some(s) => Some(s@),
                None => None::<SchemeModel>,
            }),
            final(self).spec_method() == old(self).spec_method(),
            final(self).spec_path_with_query() == old(self).spec_path_with_query(),
            final(self).spec_authority() == old(self).spec_authority(),
    {
        self.scheme = scheme;
        Ok(())
    }

    /// The current authority.
    pub fn authority(&self) -> (r: Option<String>)
        ensures
            r.deep_view() == self.spec_authority(),
    {
        clone_opt_string(&self.authority)
    }

    /// Replace the authority.
    pub fn set_authority(&mut self, auth: Option<String>) -> (r: Result<(), ()>)
        ensures
            r is Ok,
            final(self).spec_authority() == auth.deep_view(),
            final(self).spec_method() == old(self).spec_method(),
            final(self).spec_path_with_query() == old(self).spec_path_with_query(),
            final(self).spec_scheme() == old(self).spec_scheme(),
    {
        self.authority = auth;
        Ok(())
    }
}

/// Timeouts for an outbound exchange, in virtual-clock units; each is
/// optional.
#[derive(Debug)]
pub struct RequestOptions {
    /// Time allowed for connecting.
    pub connect_timeout: Option<u64>,
    /// Time allowed until the first byte of the response.
    pub first_byte_timeout: Option<u64>,
    /// Time allowed between response bytes.
    pub between_bytes_timeout: Option<u64>,
}

impl Default for RequestOptions {
    /// Fresh options leave every timeout unset.
    fn default() -> (r: RequestOptions)
        ensures
            r.connect_timeout is None,
            r.first_byte_timeout is None,
            r.between_bytes_timeout is None,
    {
        RequestOptions { connect_timeout: None, first_byte_timeout: None, between_bytes_timeout: None }
    }
}

/// The payload source of an incoming exchange; opaque here, consumable once
/// through its resource.
#[derive(Debug)]
pub struct IncomingBody {}

/// The payload sink of an outgoing exchange; opaque here, consumable once
/// through its resource.
#[derive(Debug)]
pub struct OutgoingBody {}

} // verus!
