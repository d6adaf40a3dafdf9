//! The single-shot response slot: the one place the guest's final answer is
//! delivered, written at most once and read out exactly as written.

use vstd::prelude::*;

use crate::fields::ImmutFields;
use crate::http::{ErrorCode, OutgoingBody, OutgoingResponse, StatusCode};

verus! {

/// Why reading or writing the slot failed.
#[derive(Debug, Clone, Copy, PartialEq, Eq, Structural)]
pub enum OutparamError {
    /// The slot was read before anything was sent.
    NoResponseSent,
    /// A second send was attempted.
    AlreadySent,
    /// The guest sent an error code instead of a response.
    Code(ErrorCode),
}

/// The single-shot delivery slot for the guest's final response.
pub struct ResponseOutparam {
    slot: Option<Result<(OutgoingResponse, ImmutFields), ErrorCode>>,
}

impl ResponseOutparam {
    /// What the slot holds: nothing yet, a response (status code and header
    /// entries), or an error code.
    pub closed spec fn model(&self) -> Option<
        Result<(StatusCode, Seq<(Seq<char>, Seq<u8>)>), ErrorCode>,
    > {
        match &self.slot {
            None => None,
            Some(Ok((resp, headers))) => Some(Ok((resp.spec_status_code(), headers@))),
            Some(Err(code)) => Some(Err(*code)),
        }
    }

    /// An empty slot.
    pub fn new() -> (r: ResponseOutparam)
        ensures
            r.model() is None,
    {
        ResponseOutparam { slot: None }
    }

    /// Deliver a successful response — allowed at most once, counting both
    /// kinds of send.  The body, if any, is given up with the delivery.
    pub fn send_success(
        &mut self,
        resp: OutgoingResponse,
        headers: ImmutFields,
        body: Option<OutgoingBody>,
    ) -> (r: Result<(), OutparamError>)
        ensures
            old(self).model() is None ==> {
                &&& r is Ok
                &&& final(self).model() == Some(
                    Ok::<(StatusCode, Seq<(Seq<char>, Seq<u8>)>), ErrorCode>(
                        (resp.spec_status_code(), headers@),
                    ),
                )
            },
            old(self).model() is Some ==> {
                &&& r == Err::<(), OutparamError>(OutparamError::AlreadySent)
                &&& final(self).model() == old(self).model()
            },
    {
        let _ = body;
        if self.slot.is_none() {
            self.slot = Some(Ok((resp, headers)));
            Ok(())
        } else {
            Err(OutparamError::AlreadySent)
        }
    }

    /// Deliver an error code — allowed at most once, counting both kinds of
    /// send.
    pub fn send_error(&mut self, err: ErrorCode) -> (r: Result<(), OutparamError>)
        ensures
            old(self).model() is None ==> {
                &&& r is Ok
                &&& final(self).model() == Some(
                    Err::<(StatusCode, Seq<(Seq<char>, Seq<u8>)>), ErrorCode>(err),
                )
            },
            old(self).model() is Some ==> {
                &&& r == Err::<(), OutparamError>(OutparamError::AlreadySent)
                &&& final(self).model() == old(self).model()
            },
    {
        if self.slot.is_none() {
            self.slot = Some(Err(err));
            Ok(())
        } else {
            Err(OutparamError::AlreadySent)
        }
    }

    /// Read the slot out.  Before any send this is `NoResponseSent`; after a
    /// send it is exactly what was sent.
    pub fn into_inner(self) -> (r: Result<(OutgoingResponse, ImmutFields), OutparamError>)
        ensures
            match self.model() {
                None => r == Err::<(OutgoingResponse, ImmutFields), OutparamError>(
                    OutparamError::NoResponseSent,
                ),
                Some(Err(code)) => r == Err::<(OutgoingResponse, ImmutFields), OutparamError>(
                    OutparamError::Code(code),
                ),
                Some(Ok((sc, hv))) => match r {
                    Ok((resp, headers)) => resp.spec_status_code() == sc && headers@ == hv,
                    Err(_) => false,
                },
            },
    {
        match self.slot {
            None => Err(OutparamError::NoResponseSent),
            Some(Err(code)) => Err(OutparamError::Code(code)),
            Some(Ok(v)) => Ok(v),
        }
    }
}

} // verus!
