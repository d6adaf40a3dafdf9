use embedding::ctx::{EmbeddingCtx, RunningComponent};
use embedding::executor::Computation;
use embedding::fields::{Fields, FieldsResource};
use embedding::http::{ErrorCode, IncomingBody, IncomingRequest, Method, Scheme};
use embedding::job::Mailbox;
use embedding::outparam::OutparamError;
use embedding::resources::OutgoingResponseResource;

fn sample_request() -> IncomingRequest {
    IncomingRequest {
        method: Method::Get,
        path_with_query: Some("".to_string()),
        scheme: Some(Scheme::Https),
        authority: Some("example.com".to_string()),
    }
}

#[test]
fn the_driver_loop_runs_a_guest_to_completion() {
    // The guest model: a computation that waits for virtual time 100, while
    // its answer is delivered through the outparam capability.
    let (mut component, _incoming, capability) = RunningComponent::<u64>::create(
        sample_request(),
        Fields::new(),
        IncomingBody {},
        Computation::new(vec![100], 0),
    );

    // First step: the guest runs to its suspension point.
    assert_eq!(component.step(), 1);
    assert_eq!(component.step(), 0);
    assert!(component.check_complete().is_none());
    assert_eq!(component.earliest_deadline(), Some(100));

    // The guest answers before the deadline (the binding layer would drive
    // this; the test plays that role).
    let mut headers = Fields::new();
    headers
        .insert("Content-Type".to_string(), b"text/plain".to_vec())
        .unwrap();
    let mut resp = OutgoingResponseResource::from_headers(FieldsResource::new(headers)).unwrap();
    resp.set_status_code(204).unwrap();
    component.set(capability, Ok(resp)).unwrap();

    // Jump to the next interesting instant and run again.
    component.advance_clock(100);
    assert_eq!(component.step(), 1);

    let (report, outcome) = component.check_complete().expect("the run is complete");
    assert_eq!(report, "stdout:\nstderr:\n");
    let (response, headers) = outcome.unwrap();
    assert_eq!(response.status_code(), 204);
    assert_eq!(
        headers.entries(),
        vec![("content-type".to_string(), b"text/plain".to_vec())]
    );

    // The result was handed out; later checks find nothing.
    assert!(component.check_complete().is_none());
}

#[test]
fn a_run_without_a_send_reports_no_response_sent() {
    let (mut component, _incoming, _capability) = RunningComponent::<u64>::create(
        sample_request(),
        Fields::new(),
        IncomingBody {},
        Computation::new(Vec::new(), 0),
    );
    component.step();
    let (_, outcome) = component.check_complete().unwrap();
    assert_eq!(outcome.err(), Some(OutparamError::NoResponseSent));
}

#[test]
fn increment_clock_moves_one_tick_and_wakes_what_became_due() {
    let (mut component, _incoming, _capability) = RunningComponent::<u64>::create(
        sample_request(),
        Fields::new(),
        IncomingBody {},
        Computation::new(vec![1], 0),
    );
    component.step();
    assert_eq!(component.earliest_deadline(), Some(1));
    component.increment_clock();
    assert_eq!(component.step(), 1);
    assert!(component.check_complete().is_some());
}

#[test]
fn the_guest_can_send_an_error_code() {
    let (mut component, _incoming, capability) = RunningComponent::<u64>::create(
        sample_request(),
        Fields::new(),
        IncomingBody {},
        Computation::new(Vec::new(), 0),
    );
    component.set(capability, Err(ErrorCode::HttpProtocolError)).unwrap();
    component.step();
    let (_, outcome) = component.check_complete().unwrap();
    assert_eq!(
        outcome.err(),
        Some(OutparamError::Code(ErrorCode::HttpProtocolError))
    );
}

#[test]
fn captured_writes_are_stamped_and_quoted_in_the_report() {
    let mut ctx: EmbeddingCtx<u64> = EmbeddingCtx::new();
    ctx.write_stdout(bytes::Bytes::from(b"hello".to_vec()));
    assert_eq!(ctx.monotonic_now(), 0);
    assert_eq!(ctx.report(), "stdout:\n00000000 \"hello\"\nstderr:\n");
}

#[test]
fn the_host_stubs_answer_deterministically() {
    let ctx: EmbeddingCtx<u64> = EmbeddingCtx::new();
    assert_eq!(ctx.resolution(), 1);
    assert_eq!(ctx.get_arguments(), Vec::<String>::new());
    assert_eq!(ctx.get_environment(), Vec::<(String, String)>::new());
    assert_eq!(ctx.initial_cwd(), None);
    assert_eq!(ctx.get_random_bytes(4), vec![0u8, 0, 0, 0]);
    assert_eq!(ctx.get_random_u64(), 0);
    let timer = ctx.monotonic_timer(10);
    assert_eq!(timer.due_time(), 10);
    let after = ctx.monotonic_timer_after(3);
    assert_eq!(after.due_time(), 3);
}

#[test]
fn an_outbound_job_driven_through_the_component() {
    let (mut component, _incoming, _capability) = RunningComponent::<u64>::create(
        sample_request(),
        Fields::new(),
        IncomingBody {},
        Computation::new(vec![500], 0),
    );
    component.step();

    let request = embedding::resources::OutgoingRequestResource::from_headers(
        FieldsResource::new(Fields::new()),
    )
    .unwrap();
    let mut job = component.handle(request, None, vec![50], 7).unwrap();
    assert!(matches!(component.mailbox(&mut job), Mailbox::Pending));
    component.step();
    component.advance_clock(50);
    component.step();
    assert!(matches!(component.mailbox(&mut job), Mailbox::Done(7)));
    assert!(matches!(component.mailbox(&mut job), Mailbox::Gone));
}
