use embedding::clock::Clock;
use embedding::executor::Executor;
use embedding::fields::{Fields, FieldsResource, FreezeError};
use embedding::http::{
    ErrorCode, IncomingBody, IncomingRequest, Method, OutgoingBody, OutgoingResponse, Scheme,
};
use embedding::job::Mailbox;
use embedding::outparam::{OutparamError, ResponseOutparam};
use embedding::resources::{
    handle, BodyError, FutureTrailers, IncomingRequestResource, OutgoingRequestResource,
    OutgoingResponseResource, RequestOptionsResource,
};

fn sample_request() -> IncomingRequest {
    IncomingRequest {
        method: Method::Get,
        path_with_query: Some("/".to_string()),
        scheme: Some(Scheme::Https),
        authority: Some("example.com".to_string()),
    }
}

#[test]
fn consuming_a_body_twice_fails_the_second_time() {
    let mut r = IncomingRequestResource::new(sample_request(), Fields::new(), IncomingBody {});
    assert!(r.consume().is_ok());
    assert_eq!(r.consume().err(), Some(BodyError::AlreadyConsumed));
    assert_eq!(r.consume().err(), Some(BodyError::AlreadyConsumed));
}

#[test]
fn an_outgoing_response_hands_its_body_out_once() {
    let mut headers = Fields::new();
    headers
        .insert("Content-Type".to_string(), b"text/plain".to_vec())
        .unwrap();
    let mut r = OutgoingResponseResource::from_headers(FieldsResource::new(headers)).unwrap();
    assert!(r.body().is_ok());
    assert_eq!(r.body().err(), Some(BodyError::AlreadyConsumed));
}

#[test]
fn incoming_request_getters_reflect_the_descriptor() {
    let r = IncomingRequestResource::new(sample_request(), Fields::new(), IncomingBody {});
    assert!(matches!(r.method(), Method::Get));
    assert_eq!(r.path_with_query(), Some("/".to_string()));
    assert!(matches!(r.scheme(), Some(Scheme::Https)));
    assert_eq!(r.authority(), Some("example.com".to_string()));
}

#[test]
fn outparam_reads_nothing_before_any_send() {
    let outparam = ResponseOutparam::new();
    assert_eq!(
        outparam.into_inner().err(),
        Some(OutparamError::NoResponseSent)
    );
}

#[test]
fn outparam_returns_exactly_what_was_sent() {
    let mut outparam = ResponseOutparam::new();
    let mut resp = OutgoingResponse::new();
    resp.set_status_code(404).unwrap();
    let mut headers = Fields::new();
    headers.insert("X-Tag".to_string(), b"t1".to_vec()).unwrap();
    let frozen = headers.into_immut();
    assert!(outparam
        .send_success(resp, frozen, Some(OutgoingBody {}))
        .is_ok());
    let (got_resp, got_headers) = outparam.into_inner().unwrap();
    assert_eq!(got_resp.status_code(), 404);
    let entries = got_headers.entries();
    assert_eq!(entries, vec![("x-tag".to_string(), b"t1".to_vec())]);
}

#[test]
fn a_second_send_is_refused() {
    let mut outparam = ResponseOutparam::new();
    assert!(outparam.send_error(ErrorCode::ConnectionRefused).is_ok());
    assert_eq!(
        outparam.send_error(ErrorCode::DnsTimeout),
        Err(OutparamError::AlreadySent)
    );
    let mut second = ResponseOutparam::new();
    assert!(second
        .send_success(OutgoingResponse::new(), Fields::new().into_immut(), None)
        .is_ok());
    assert_eq!(
        second.send_success(OutgoingResponse::new(), Fields::new().into_immut(), None),
        Err(OutparamError::AlreadySent)
    );
}

#[test]
fn a_sent_error_code_comes_back_out() {
    let mut outparam = ResponseOutparam::new();
    outparam.send_error(ErrorCode::ConnectionTimeout).unwrap();
    assert_eq!(
        outparam.into_inner().err(),
        Some(OutparamError::Code(ErrorCode::ConnectionTimeout))
    );
}

#[test]
fn status_codes_of_600_and_above_are_rejected() {
    let mut resp = OutgoingResponse::new();
    assert_eq!(resp.status_code(), 200);
    assert!(resp.set_status_code(599).is_ok());
    assert!(resp.set_status_code(600).is_err());
    assert_eq!(resp.status_code(), 599);
}

#[test]
fn building_a_response_around_shared_headers_is_refused() {
    let mut shared = FieldsResource::new(Fields::new());
    shared.share();
    assert!(matches!(
        OutgoingResponseResource::from_headers(shared),
        Err(FreezeError::OwnershipViolation)
    ));
}

#[test]
fn request_options_keep_their_three_timeouts_apart() {
    let mut opts = RequestOptionsResource::new();
    assert_eq!(opts.connect_timeout(), None);
    assert_eq!(opts.first_byte_timeout(), None);
    assert_eq!(opts.between_bytes_timeout(), None);
    opts.set_connect_timeout(Some(10)).unwrap();
    opts.set_first_byte_timeout(Some(20)).unwrap();
    opts.set_between_bytes_timeout(Some(30)).unwrap();
    assert_eq!(opts.connect_timeout(), Some(10));
    assert_eq!(opts.first_byte_timeout(), Some(20));
    assert_eq!(opts.between_bytes_timeout(), Some(30));
    opts.set_between_bytes_timeout(None).unwrap();
    assert_eq!(opts.first_byte_timeout(), Some(20));
    assert_eq!(opts.between_bytes_timeout(), None);
}

#[test]
fn outgoing_request_setters_round_trip() {
    let mut r = OutgoingRequestResource::from_headers(FieldsResource::new(Fields::new())).unwrap();
    let req = r.req_mut();
    req.set_method(Method::Post).unwrap();
    req.set_path_with_query(Some("/x?q=1".to_string())).unwrap();
    req.set_scheme(Some(Scheme::Http)).unwrap();
    req.set_authority(Some("host".to_string())).unwrap();
    assert!(matches!(r.req().method(), Method::Post));
    assert_eq!(r.req().path_with_query(), Some("/x?q=1".to_string()));
    assert!(matches!(r.req().scheme(), Some(Scheme::Http)));
    assert_eq!(r.req().authority(), Some("host".to_string()));
}

#[test]
fn an_outbound_exchange_resolves_through_its_job() {
    let mut clock = Clock::new();
    let mut exec: Executor<Result<u16, ErrorCode>> = Executor::new();
    let request = OutgoingRequestResource::from_headers(FieldsResource::new(Fields::new())).unwrap();
    let options = Some(RequestOptionsResource::new());
    let mut job = handle(&mut exec, request, options, vec![30], Ok(200)).unwrap();

    exec.step(&clock);
    assert!(matches!(job.mailbox(&mut exec), Mailbox::Pending));
    assert_eq!(exec.earliest_deadline(), Some(30));

    clock.set(30);
    for id in exec.ready_deadlines(clock.get()) {
        exec.wake(id);
    }
    exec.step(&clock);
    match job.mailbox(&mut exec) {
        Mailbox::Done(Ok(status)) => assert_eq!(status, 200),
        _ => panic!("expected the exchange's outcome"),
    }
    assert!(matches!(job.mailbox(&mut exec), Mailbox::Gone));
}

#[test]
fn trailers_report_none_once_then_gone() {
    let mut t = FutureTrailers::new();
    assert!(matches!(t.get(), Mailbox::Done(None)));
    assert!(matches!(t.get(), Mailbox::Gone));
    assert!(matches!(t.get(), Mailbox::Gone));
}
