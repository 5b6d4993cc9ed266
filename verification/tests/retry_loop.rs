use http_api_client::httpbin::{ParseBodyError, UuidEndpoint};
use http_api_client::message::Response;
use http_api_client::retry::{
    respond_endpoint_until_done, respond_endpoint_until_done_with_callback,
    RetryableClientRespondEndpointUntilDoneError,
};
use http_api_client::testing::{
    CountingRetryPostResponseCallback, CountingRetryPreRequestCallback, FailingRenderEndpoint,
    MockClient, MockTransportError, StatusProbeEndpoint,
};

fn ok_response(status: u16, body: &[u8]) -> Result<Response, MockTransportError> {
    Ok(Response::new(status, body.to_vec()))
}

#[test]
fn first_attempt_success_never_sleeps() {
    let mut client = MockClient {
        script: vec![ok_response(200, b"payload")],
        slept: vec![],
    };
    let out = respond_endpoint_until_done(&mut client, &StatusProbeEndpoint).unwrap();
    assert_eq!(out, b"payload".to_vec());
    assert_eq!(client.slept, Vec::<u64>::new());
    assert_eq!(client.script.len(), 0);
}

#[test]
fn default_ceiling_reached_after_three_failed_cycles() {
    let mut client = MockClient {
        script: vec![
            ok_response(503, b""),
            ok_response(503, b""),
            ok_response(503, b""),
        ],
        slept: vec![],
    };
    let r = respond_endpoint_until_done(&mut client, &StatusProbeEndpoint);
    assert!(matches!(
        r,
        Err(RetryableClientRespondEndpointUntilDoneError::ReachedMaxRetries)
    ));
    // three failed parse cycles, two sleeps: none after the final attempt
    assert_eq!(client.script.len(), 0);
    assert_eq!(client.slept, vec![500, 500]);
}

#[test]
fn uuid_endpoint_sleeps_through_the_backoff_steps() {
    // UuidEndpoint raises the ceiling to 5; a uuid that starts with a digit
    // is a retry reason, so the loop sleeps 500, 500, 500, 1000 ms.
    let body: &[u8] = b"{\"uuid\":\"1b9d6bcd-bbfd-4b2d-9b5d-ab8dfbbd4bed\"}";
    let mut client = MockClient {
        script: vec![
            ok_response(200, body),
            ok_response(200, body),
            ok_response(200, body),
            ok_response(200, body),
            ok_response(200, body),
        ],
        slept: vec![],
    };
    let r = respond_endpoint_until_done(&mut client, &UuidEndpoint);
    assert!(matches!(
        r,
        Err(RetryableClientRespondEndpointUntilDoneError::ReachedMaxRetries)
    ));
    assert_eq!(client.script.len(), 0);
    assert_eq!(client.slept, vec![500, 500, 500, 1000]);
}

#[test]
fn uuid_endpoint_accepts_a_letter_first_uuid() {
    let mut client = MockClient {
        script: vec![ok_response(200, b"{\"uuid\":\"b9d6bcd0-bbfd-4b2d-9b5d-ab8dfbbd4bed\"}")],
        slept: vec![],
    };
    let out = respond_endpoint_until_done(&mut client, &UuidEndpoint).unwrap();
    assert_eq!(out.uuid, "b9d6bcd0-bbfd-4b2d-9b5d-ab8dfbbd4bed");
    assert_eq!(client.slept, Vec::<u64>::new());
}

#[test]
fn success_after_two_retries() {
    let mut client = MockClient {
        script: vec![
            ok_response(429, b""),
            ok_response(429, b""),
            ok_response(200, b"finally"),
        ],
        slept: vec![],
    };
    let out = respond_endpoint_until_done(&mut client, &StatusProbeEndpoint).unwrap();
    assert_eq!(out, b"finally".to_vec());
    assert_eq!(client.slept, vec![500, 500]);
}

#[test]
fn transport_failure_mid_loop_is_fatal() {
    let mut client = MockClient {
        script: vec![ok_response(503, b""), Err(MockTransportError)],
        slept: vec![],
    };
    let r = respond_endpoint_until_done(&mut client, &StatusProbeEndpoint);
    assert!(matches!(
        r,
        Err(RetryableClientRespondEndpointUntilDoneError::RespondFailed(MockTransportError))
    ));
    // slept once for the one retry, never after the failing attempt
    assert_eq!(client.slept, vec![500]);
    assert_eq!(client.script.len(), 0);
}

#[test]
fn render_failure_ends_the_loop_at_once() {
    let mut client = MockClient {
        script: vec![ok_response(200, b"")],
        slept: vec![],
    };
    let r = respond_endpoint_until_done(&mut client, &FailingRenderEndpoint { code: 9 });
    assert!(matches!(
        r,
        Err(RetryableClientRespondEndpointUntilDoneError::EndpointRenderRequestFailed(9))
    ));
    assert_eq!(client.script.len(), 1);
    assert_eq!(client.slept, Vec::<u64>::new());
}

#[test]
fn parse_failure_ends_the_loop_at_once() {
    let mut client = MockClient {
        script: vec![ok_response(200, b"not json")],
        slept: vec![],
    };
    let r = respond_endpoint_until_done(&mut client, &UuidEndpoint);
    assert!(matches!(
        r,
        Err(RetryableClientRespondEndpointUntilDoneError::EndpointParseResponseFailed(
            ParseBodyError::InvalidJson
        ))
    ));
    assert_eq!(client.slept, Vec::<u64>::new());
}

#[test]
fn retry_callbacks_see_every_attempt() {
    let mut client = MockClient {
        script: vec![
            ok_response(503, b""),
            ok_response(503, b""),
            ok_response(200, b"done"),
        ],
        slept: vec![],
    };
    let mut pre = CountingRetryPreRequestCallback { calls: 0 };
    let mut post = CountingRetryPostResponseCallback { calls: 0, calls_with_retry_state: 0 };
    let out = respond_endpoint_until_done_with_callback(
        &mut client,
        &StatusProbeEndpoint,
        &mut pre,
        &mut post,
    )
    .unwrap();
    assert_eq!(out, b"done".to_vec());
    assert_eq!(pre.calls, 3);
    assert_eq!(post.calls, 3);
    // the first attempt has no retry state yet; the two later ones do
    assert_eq!(post.calls_with_retry_state, 2);
}

#[test]
fn an_exhausted_script_is_a_transport_failure() {
    let mut client = MockClient {
        script: vec![],
        slept: vec![],
    };
    let r = respond_endpoint_until_done(&mut client, &StatusProbeEndpoint);
    assert!(matches!(
        r,
        Err(RetryableClientRespondEndpointUntilDoneError::RespondFailed(MockTransportError))
    ));
    assert_eq!(client.slept, Vec::<u64>::new());
}
