//! The protocol resources a guest holds handles to: requests and responses
//! with their header collections, consume-once bodies, the trailers stub and
//! the single-shot response outparam.

use vstd::prelude::*;

use crate::executor::{Computation, Executor, TaskModel};
use crate::fields::{Fields, FieldsResource, ImmutFields};
use crate::http::{
    ErrorCode, IncomingBody, IncomingRequest, IncomingResponse, Method, OutgoingBody,
    OutgoingRequest, OutgoingResponse, RequestOptions, Scheme, StatusCode,
};
use crate::job::{Job, JobModel, Mailbox};

verus! {

/// Why a body operation was refused.
#[derive(Debug, Clone, Copy, PartialEq, Eq, Structural)]
pub enum BodyError {
    /// The body was already consumed once.
    AlreadyConsumed,
}

/// A consumed incoming body, held as its own resource.
#[derive(Debug)]
pub struct IncomingBodyResource {
    body: IncomingBody,
}

impl IncomingBodyResource {
    /// Wrap a body taken out of its exchange.
    pub fn new(body: IncomingBody) -> (r: IncomingBodyResource) {
        IncomingBodyResource { body }
    }
}

/// A consumed outgoing body, held as its own resource.
#[derive(Debug)]
pub struct OutgoingBodyResource {
    body: OutgoingBody,
}

impl OutgoingBodyResource {
    /// Wrap a body taken out of its exchange.
    pub fn new(body: OutgoingBody) -> (r: OutgoingBodyResource) {
        OutgoingBodyResource { body }
    }

    /// Finalize the body, with optional trailers; the body and the trailers
    /// are given up either way.
    pub fn finish(self, trailers: Option<FieldsResource>) -> (r: Result<(), ErrorCode>)
        ensures
            r is Ok,
    {
        let _ = trailers;
        Ok(())
    }
}

/// The request handed to the guest for handling, with its headers and its
/// consume-once body.
pub struct IncomingRequestResource {
    req: IncomingRequest,
    headers: FieldsResource,
    body: Option<IncomingBody>,
}

impl IncomingRequestResource {
    /// The request descriptor.
    pub closed spec fn spec_req(&self) -> IncomingRequest {
        self.req
    }

    /// The header resource.
    pub closed spec fn spec_headers(&self) -> FieldsResource {
        self.headers
    }

    /// Whether the body is still unconsumed.
    pub closed spec fn has_body(&self) -> bool {
        self.body is Some
    }

    /// Wrap a request, its headers and its body for the guest.
    pub fn new(req: IncomingRequest, headers: Fields, body: IncomingBody) -> (r:
        IncomingRequestResource)
        ensures
            r.spec_req() == req,
            r.spec_headers()@ == headers@,
            r.spec_headers().is_mut(),
            r.spec_headers().owners() == 1,
            r.has_body(),
    {
        IncomingRequestResource { req, headers: FieldsResource::new(headers), body: Some(body) }
    }

    /// The request method.
    pub fn method(&self) -> (r: Method)
        ensures
            r@ == self.spec_req().method@,
    {
        self.req.method()
    }

    /// Path and query, if given.
    pub fn path_with_query(&self) -> (r: Option<String>)
        ensures
            r.deep_view() == self.spec_req().path_with_query.deep_view(),
    {
        self.req.path_with_query()
    }

    /// The scheme, if given.
    pub fn scheme(&self) -> (r: Option<Scheme>)
        ensures
            match (&self.spec_req().scheme, &r) {
                (Some(a), Some(b)) => a@ == b@,
                (None, None) => true,
                _ => false,
            },
    {
        self.req.scheme()
    }

    /// The authority, if given.
    pub fn authority(&self) -> (r: Option<String>)
        ensures
            r.deep_view() == self.spec_req().authority.deep_view(),
    {
        self.req.authority()
    }

    /// Read access to the headers.
    pub fn headers(&self) -> (r: &FieldsResource)
        ensures
            r == self.spec_headers(),
    {
        &self.headers
    }

    /// Record that one more handle to the headers has been handed out.
    pub fn share_headers(&mut self)
        requires
            old(self).spec_headers().owners() < u64::MAX,
        ensures
            final(self).spec_headers()@ == old(self).spec_headers()@,
            final(self).spec_headers().is_mut() == old(self).spec_headers().is_mut(),
            final(self).spec_headers().owners() == old(self).spec_headers().owners() + 1,
            final(self).spec_req() == old(self).spec_req(),
            final(self).has_body() == old(self).has_body(),
    {
        self.headers.share();
    }

    /// Take the body — at most once.  The first call returns it; every later
    /// call reports it consumed.
    pub fn consume(&mut self) -> (r: Result<IncomingBodyResource, BodyError>)
        ensures
            old(self).has_body() ==> r is Ok && !final(self).has_body(),
            !old(self).has_body() ==> r == Err::<IncomingBodyResource, BodyError>(
                BodyError::AlreadyConsumed,
            ),
            final(self).spec_req() == old(self).spec_req(),
            final(self).spec_headers() == old(self).spec_headers(),
            !final(self).has_body(),
    {
        match self.body.take() {
            Some(body) => Ok(IncomingBodyResource::new(body)),
            None => Err(BodyError::AlreadyConsumed),
        }
    }
}

/// The response of an outbound exchange, with its headers and its
/// consume-once body.
pub struct IncomingResponseResource {
    resp: IncomingResponse,
    headers: FieldsResource,
    body: Option<IncomingBody>,
}

impl IncomingResponseResource {
    /// The response descriptor.
    pub closed spec fn spec_resp(&self) -> IncomingResponse {
        self.resp
    }

    /// The header resource.
    pub closed spec fn spec_headers(&self) -> FieldsResource {
        self.headers
    }

    /// Whether the body is still unconsumed.
    pub closed spec fn has_body(&self) -> bool {
        self.body is Some
    }

    /// Wrap a response, its headers and its body.
    pub fn new(resp: IncomingResponse, headers: Fields, body: IncomingBody) -> (r:
        IncomingResponseResource)
        ensures
            r.spec_resp() == resp,
            r.spec_headers()@ == headers@,
            r.spec_headers().is_mut(),
            r.spec_headers().owners() == 1,
            r.has_body(),
    {
        IncomingResponseResource { resp, headers: FieldsResource::new(headers), body: Some(body) }
    }

    /// The status code.
    pub fn status(&self) -> (r: StatusCode)
        ensures
            r == self.spec_resp().status_code,
    {
        self.resp.status_code()
    }

    /// Read access to the headers.
    pub fn headers(&self) -> (r: &FieldsResource)
        ensures
            r == self.spec_headers(),
    {
        &self.headers
    }

    /// Record that one more handle to the headers has been handed out.
    pub fn share_headers(&mut self)
        requires
            old(self).spec_headers().owners() < u64::MAX,
        ensures
            final(self).spec_headers()@ == old(self).spec_headers()@,
            final(self).spec_headers().is_mut() == old(self).spec_headers().is_mut(),
            final(self).spec_headers().owners() == old(self).spec_headers().owners() + 1,
            final(self).spec_resp() == old(self).spec_resp(),
            final(self).has_body() == old(self).has_body(),
    {
        self.headers.share();
    }

    /// Take the body — at most once.
    pub fn consume(&mut self) -> (r: Result<IncomingBodyResource, BodyError>)
        ensures
            old(self).has_body() ==> r is Ok && !final(self).has_body(),
            !old(self).has_body() ==> r == Err::<IncomingBodyResource, BodyError>(
                BodyError::AlreadyConsumed,
            ),
            final(self).spec_resp() == old(self).spec_resp(),
            final(self).spec_headers() == old(self).spec_headers(),
            !final(self).has_body(),
    {
        match self.body.take() {
            Some(body) => Ok(IncomingBodyResource::new(body)),
            None => Err(BodyError::AlreadyConsumed),
        }
    }
}

/// The response a guest is building, with its frozen headers and its
/// consume-once body.
pub struct OutgoingResponseResource {
    resp: OutgoingResponse,
    headers: FieldsResource,
    body: Option<OutgoingBody>,
}

impl OutgoingResponseResource {
    /// The response descriptor.
    pub closed spec fn spec_resp(&self) -> OutgoingResponse {
        self.resp
    }

    /// The header resource.
    pub closed spec fn spec_headers(&self) -> FieldsResource {
        self.headers
    }

    /// Whether the body is still unconsumed.
    pub closed spec fn has_body(&self) -> bool {
        self.body is Some
    }

    /// The headers of an outgoing exchange are frozen from construction on.
    pub open spec fn wf(&self) -> bool {
        !self.spec_headers().is_mut()
    }

    /// Wrap a response with already-frozen headers and a body.
    pub fn new(resp: OutgoingResponse, headers: ImmutFields, body: OutgoingBody) -> (r:
        OutgoingResponseResource)
        ensures
            r.wf(),
            r.spec_resp() == resp,
            r.spec_headers()@ == headers@,
            r.spec_headers().owners() == 1,
            r.has_body(),
    {
        OutgoingResponseResource {
            resp,
            headers: FieldsResource::from_immut(headers),
            body: Some(body),
        }
    }

    /// Build a fresh response around a header collection, freezing it.  The
    /// freeze — and so the construction — fails unless the caller's handle
    /// to the headers is the only one.
    pub fn from_headers(headers: FieldsResource) -> (r: Result<
        OutgoingResponseResource,
        crate::fields::FreezeError,
    >)
        requires
            headers.is_mut(),
        ensures
            headers.owners() == 1 ==> match r {
                Ok(res) => {
                    &&& res.wf()
                    &&& res.spec_resp().spec_status_code() == 200
                    &&& res.spec_headers()@ == headers@
                    &&& res.has_body()
                },
                Err(_) => false,
            },
            headers.owners() != 1 ==> r == Err::<OutgoingResponseResource, crate::fields::FreezeError>(
                crate::fields::FreezeError::OwnershipViolation,
            ),
    {
        let mut headers = headers;
        match headers.freeze() {
            Ok(()) => Ok(OutgoingResponseResource {
                resp: OutgoingResponse::new(),
                headers,
                body: Some(OutgoingBody {}),
            }),
            Err(e) => Err(e),
        }
    }

    /// The current status code.
    pub fn status_code(&self) -> (r: StatusCode)
        ensures
            r == self.spec_resp().spec_status_code(),
    {
        self.resp.status_code()
    }

    /// Set the status code; values of 600 and above are rejected.
    pub fn set_status_code(&mut self, code: StatusCode) -> (r: Result<(), ()>)
        ensures
            code < 600 ==> r is Ok && final(self).spec_resp().spec_status_code() == code,
            code >= 600 ==> r is Err && final(self).spec_resp() == old(self).spec_resp(),
            final(self).spec_headers() == old(self).spec_headers(),
            final(self).has_body() == old(self).has_body(),
            final(self).wf() == old(self).wf(),
    {
        self.resp.set_status_code(code)
    }

    /// Read access to the headers.
    pub fn headers(&self) -> (r: &FieldsResource)
        ensures
            r == self.spec_headers(),
    {
        &self.headers
    }

    /// Record that one more handle to the headers has been handed out.
    pub fn share_headers(&mut self)
        requires
            old(self).spec_headers().owners() < u64::MAX,
        ensures
            final(self).spec_headers()@ == old(self).spec_headers()@,
            final(self).spec_headers().is_mut() == old(self).spec_headers().is_mut(),
            final(self).spec_headers().owners() == old(self).spec_headers().owners() + 1,
            final(self).spec_resp() == old(self).spec_resp(),
            final(self).has_body() == old(self).has_body(),
            final(self).wf() == old(self).wf(),
    {
        self.headers.share();
    }

    /// Take the body — at most once.
    pub fn body(&mut self) -> (r: Result<OutgoingBodyResource, BodyError>)
        ensures
            old(self).has_body() ==> r is Ok && !final(self).has_body(),
            !old(self).has_body() ==> r == Err::<OutgoingBodyResource, BodyError>(
                BodyError::AlreadyConsumed,
            ),
            final(self).spec_resp() == old(self).spec_resp(),
            final(self).spec_headers() == old(self).spec_headers(),
            !final(self).has_body(),
            final(self).wf() == old(self).wf(),
    {
        match self.body.take() {
            Some(body) => Ok(OutgoingBodyResource::new(body)),
            None => Err(BodyError::AlreadyConsumed),
        }
    }

    /// Break the resource up into the response, its frozen headers and its
    /// remaining body; the caller must hold the only handle to the headers.
    pub fn into_parts(self) -> (r: (OutgoingResponse, ImmutFields, Option<OutgoingBody>))
        requires
            self.wf(),
            self.spec_headers().owners() == 1,
        ensures
            r.0 == self.spec_resp(),
            r.1@ == self.spec_headers()@,
            (r.2 is Some) == self.has_body(),
    {
        let OutgoingResponseResource { resp, headers, body } = self;
        (resp, headers.unwrap_immut(), body)
    }
}

/// The request a guest is building for an outbound exchange, with its
/// frozen headers and its consume-once body.
pub struct OutgoingRequestResource {
    req: OutgoingRequest,
    headers: FieldsResource,
    body: Option<OutgoingBody>,
}

impl OutgoingRequestResource {
    /// The request descriptor.
    pub closed spec fn spec_req(&self) -> OutgoingRequest {
        self.req
    }

    /// The header resource.
    pub closed spec fn spec_headers(&self) -> FieldsResource {
        self.headers
    }

    /// Whether the body is still unconsumed.
    pub closed spec fn has_body(&self) -> bool {
        self.body is Some
    }

    /// The headers of an outgoing exchange are frozen from construction on.
    pub open spec fn wf(&self) -> bool {
        !self.spec_headers().is_mut()
    }

    /// Wrap a request with already-frozen headers and a body.
    pub fn new(req: OutgoingRequest, headers: ImmutFields, body: OutgoingBody) -> (r:
        OutgoingRequestResource)
        ensures
            r.wf(),
            r.spec_req() == req,
            r.spec_headers()@ == headers@,
            r.spec_headers().owners() == 1,
            r.has_body(),
    {
        OutgoingRequestResource {
            req,
            headers: FieldsResource::from_immut(headers),
            body: Some(body),
        }
    }

    /// Build a fresh request around a header collection, freezing it.  The
    /// freeze — and so the construction — fails unless the caller's handle
    /// to the headers is the only one.
    pub fn from_headers(headers: FieldsResource) -> (r: Result<
        OutgoingRequestResource,
        crate::fields::FreezeError,
    >)
        requires
            headers.is_mut(),
        ensures
            headers.owners() == 1 ==> match r {
                Ok(res) => {
                    &&& res.wf()
                    &&& res.spec_req().spec_method() == crate::http::MethodModel::Get
                    &&& res.spec_headers()@ == headers@
                    &&& res.has_body()
                },
                Err(_) => false,
            },
            headers.owners() != 1 ==> r == Err::<OutgoingRequestResource, crate::fields::FreezeError>(
                crate::fields::FreezeError::OwnershipViolation,
            ),
    {
        let mut headers = headers;
        match headers.freeze() {
            Ok(()) => Ok(OutgoingRequestResource {
                req: OutgoingRequest::new(),
                headers,
                body: Some(OutgoingBody {}),
            }),
            Err(e) => Err(e),
        }
    }

    /// Mutable access to the request descriptor, for its getters and
    /// setters.
    pub fn req_mut(&mut self) -> (r: &mut OutgoingRequest)
        ensures
            *r == old(self).spec_req(),
            final(self).spec_req() == *final(r),
            final(self).spec_headers() == old(self).spec_headers(),
            final(self).has_body() == old(self).has_body(),
    {
        &mut self.req
    }

    /// Read access to the request descriptor.
    pub fn req(&self) -> (r: &OutgoingRequest)
        ensures
            r == self.spec_req(),
    {
        &self.req
    }

    /// Read access to the headers.
    pub fn headers(&self) -> (r: &FieldsResource)
        ensures
            r == self.spec_headers(),
    {
        &self.headers
    }

    /// Record that one more handle to the headers has been handed out.
    pub fn share_headers(&mut self)
        requires
            old(self).spec_headers().owners() < u64::MAX,
        ensures
            final(self).spec_headers()@ == old(self).spec_headers()@,
            final(self).spec_headers().is_mut() == old(self).spec_headers().is_mut(),
            final(self).spec_headers().owners() == old(self).spec_headers().owners() + 1,
            final(self).spec_req() == old(self).spec_req(),
            final(self).has_body() == old(self).has_body(),
    {
        self.headers.share();
    }

    /// Take the body — at most once.
    pub fn body(&mut self) -> (r: Result<OutgoingBodyResource, BodyError>)
        ensures
            old(self).has_body() ==> r is Ok && !final(self).has_body(),
            !old(self).has_body() ==> r == Err::<OutgoingBodyResource, BodyError>(
                BodyError::AlreadyConsumed,
            ),
            final(self).spec_req() == old(self).spec_req(),
            final(self).spec_headers() == old(self).spec_headers(),
            !final(self).has_body(),
    {
        match self.body.take() {
            Some(body) => Ok(OutgoingBodyResource::new(body)),
            None => Err(BodyError::AlreadyConsumed),
        }
    }
}

/// The guest-side capability to answer the driver's request.  It is
/// consumed by [`ResponseOutparamResource::set`], so the answer can be
/// attempted through it only once.
pub struct ResponseOutparamResource {
    capability: (),
}

impl ResponseOutparamResource {
    /// The capability handed to the guest when a run is created.
    pub fn new() -> (r: ResponseOutparamResource) {
        ResponseOutparamResource { capability: () }
    }

    /// Deliver the guest's answer into the driver's slot: a built response,
    /// whose frozen headers must no longer be shared, or an error code.
    pub fn set(
        self,
        outparam: &mut crate::outparam::ResponseOutparam,
        result: Result<OutgoingResponseResource, ErrorCode>,
    ) -> (r: Result<(), crate::outparam::OutparamError>)
        requires
            match result {
                Ok(res) => res.wf() && res.spec_headers().owners() == 1,
                Err(_) => true,
            },
        ensures
            old(outparam).model() is Some ==> {
                &&& r == Err::<(), crate::outparam::OutparamError>(
                    crate::outparam::OutparamError::AlreadySent,
                )
                &&& final(outparam).model() == old(outparam).model()
            },
            old(outparam).model() is None ==> r is Ok && match result {
                Ok(res) => final(outparam).model() == Some(
                    Ok::<(StatusCode, Seq<(Seq<char>, Seq<u8>)>), ErrorCode>(
                        (res.spec_resp().spec_status_code(), res.spec_headers()@),
                    ),
                ),
                Err(code) => final(outparam).model() == Some(
                    Err::<(StatusCode, Seq<(Seq<char>, Seq<u8>)>), ErrorCode>(code),
                ),
            },
    {
        match result {
            Ok(res) => {
                let (resp, headers, body) = res.into_parts();
                outparam.send_success(resp, headers, body)
            },
            Err(code) => outparam.send_error(code),
        }
    }
}

/// The options of an outbound exchange, held as a resource.
#[derive(Debug)]
pub struct RequestOptionsResource {
    opts: RequestOptions,
}

impl RequestOptionsResource {
    /// The options themselves.
    pub closed spec fn spec_opts(&self) -> RequestOptions {
        self.opts
    }

    /// Fresh options: every timeout unset.
    pub fn new() -> (r: RequestOptionsResource)
        ensures
            r.spec_opts().connect_timeout is None,
            r.spec_opts().first_byte_timeout is None,
            r.spec_opts().between_bytes_timeout is None,
    {
        RequestOptionsResource { opts: RequestOptions::default() }
    }

    /// Give the options up as a plain value.
    pub fn into_options(self) -> (r: RequestOptions)
        ensures
            r == self.spec_opts(),
    {
        self.opts
    }

    /// The connect timeout, in virtual-clock units.
    pub fn connect_timeout(&self) -> (r: Option<u64>)
        ensures
            r == self.spec_opts().connect_timeout,
    {
        self.opts.connect_timeout
    }

    /// Replace the connect timeout.
    pub fn set_connect_timeout(&mut self, val: Option<u64>) -> (r: Result<(), ()>)
        ensures
            r is Ok,
            final(self).spec_opts().connect_timeout == val,
            final(self).spec_opts().first_byte_timeout == old(self).spec_opts().first_byte_timeout,
            final(self).spec_opts().between_bytes_timeout == old(
                self,
            ).spec_opts().between_bytes_timeout,
    {
        self.opts.connect_timeout = val;
        Ok(())
    }

    /// The first-byte timeout, in virtual-clock units.
    pub fn first_byte_timeout(&self) -> (r: Option<u64>)
        ensures
            r == self.spec_opts().first_byte_timeout,
    {
        self.opts.first_byte_timeout
    }

    /// Replace the first-byte timeout.
    pub fn set_first_byte_timeout(&mut self, val: Option<u64>) -> (r: Result<(), ()>)
        ensures
            r is Ok,
            final(self).spec_opts().first_byte_timeout == val,
            final(self).spec_opts().connect_timeout == old(self).spec_opts().connect_timeout,
            final(self).spec_opts().between_bytes_timeout == old(
                self,
            ).spec_opts().between_bytes_timeout,
    {
        self.opts.first_byte_timeout = val;
        Ok(())
    }

    /// The between-bytes timeout, in virtual-clock units.
    pub fn between_bytes_timeout(&self) -> (r: Option<u64>)
        ensures
            r == self.spec_opts().between_bytes_timeout,
    {
        self.opts.between_bytes_timeout
    }

    /// Replace the between-bytes timeout.
    pub fn set_between_bytes_timeout(&mut self, val: Option<u64>) -> (r: Result<(), ()>)
        ensures
            r is Ok,
            final(self).spec_opts().between_bytes_timeout == val,
            final(self).spec_opts().connect_timeout == old(self).spec_opts().connect_timeout,
            final(self).spec_opts().first_byte_timeout == old(self).spec_opts().first_byte_timeout,
    {
        self.opts.between_bytes_timeout = val;
        Ok(())
    }
}

/// The pseudo-future an outbound exchange hands back: a job whose value is
/// the exchange's outcome.
pub type FutureIncomingResponse = Job<Result<IncomingResponseResource, ErrorCode>>;

/// The outbound-exchange entry: the request resource is given up (its
/// headers must no longer be shared), the options are given up, and the job
/// standing for the exchange is spawned.  The transport itself is outside
/// this core, so the caller supplies the outcome the exchange will yield
/// (`reply`) and the virtual instants it awaits before yielding (`waits`).
pub fn handle<T>(
    exec: &mut Executor<T>,
    request: OutgoingRequestResource,
    options: Option<RequestOptionsResource>,
    waits: Vec<u64>,
    reply: T,
) -> (r: Result<Job<T>, ErrorCode>)
    requires
        old(exec).wf(),
        old(exec).tasks_model().len() < usize::MAX,
        request.wf(),
        request.spec_headers().owners() == 1,
    ensures
        final(exec).wf(),
        match r {
            Ok(job) => {
                &&& job.model() == (JobModel::<T> {
                    task: old(exec).tasks_model().len() as int,
                    received: None,
                    gone: false,
                })
                &&& final(exec).tasks_model() =~= old(exec).tasks_model().push(
                    TaskModel::Active { waits: waits@, result: reply },
                )
                &&& final(exec).queue() =~= old(exec).queue().push(
                    old(exec).tasks_model().len() as usize,
                )
                &&& final(exec).pending() == old(exec).pending()
            },
            Err(_) => false,
        },
{
    let _ = request;
    let _ = options;
    let comp = Computation::new(waits, reply);
    Ok(Job::spawn(exec, comp))
}

/// The stub future for trailers: always ready, reports "no trailers" once,
/// then that the value is gone.
pub struct FutureTrailers {
    gone: bool,
}

impl FutureTrailers {
    /// Whether the (absent) trailers were already reported.
    pub closed spec fn spec_gone(&self) -> bool {
        self.gone
    }

    /// A fresh trailers future.
    pub fn new() -> (r: FutureTrailers)
        ensures
            !r.spec_gone(),
    {
        FutureTrailers { gone: false }
    }

    /// Fetch the trailers: the first call reports that there are none, every
    /// later call that the value is gone.  It is never pending.
    pub fn get(&mut self) -> (r: Mailbox<Option<ImmutFields>>)
        ensures
            !old(self).spec_gone() ==> r is Done && (r matches Mailbox::Done(t) ==> t is None),
            old(self).spec_gone() ==> r is Gone,
            final(self).spec_gone(),
    {
        if self.gone {
            Mailbox::Gone
        } else {
            self.gone = true;
            Mailbox::Done(None)
        }
    }
}

} // verus!
