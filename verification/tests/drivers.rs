use http_api_client::client::{
    respond_endpoint, respond_endpoint_with_callback, ClientRespondEndpointError,
};
use http_api_client::httpbin::{IpEndpoint, ParseBodyError};
use http_api_client::message::Response;
use http_api_client::testing::{
    CountingPostResponseCallback, CountingPreRequestCallback, EchoClient, EchoPayloadEndpoint,
    FailingRenderEndpoint, MockClient, MockTransportError,
};

fn ok_response(status: u16, body: &[u8]) -> Result<Response, MockTransportError> {
    Ok(Response::new(status, body.to_vec()))
}

#[test]
fn respond_endpoint_parses_ip_origin() {
    let mut client = MockClient {
        script: vec![ok_response(200, b"{\"origin\":\"1.2.3.4\"}")],
        slept: vec![],
    };
    let out = respond_endpoint(&mut client, &IpEndpoint).unwrap();
    assert_eq!(out.origin, "1.2.3.4");
    assert_eq!(client.script.len(), 0);
    assert_eq!(client.slept.len(), 0);
}

#[test]
fn respond_endpoint_reports_invalid_json() {
    let mut client = MockClient {
        script: vec![ok_response(200, b"not json at all")],
        slept: vec![],
    };
    let r = respond_endpoint(&mut client, &IpEndpoint);
    assert!(matches!(
        r,
        Err(ClientRespondEndpointError::EndpointParseResponseFailed(ParseBodyError::InvalidJson))
    ));
}

#[test]
fn respond_endpoint_reports_unexpected_body() {
    let mut client = MockClient {
        script: vec![ok_response(200, b"{\"other\":\"1.2.3.4\"}")],
        slept: vec![],
    };
    let r = respond_endpoint(&mut client, &IpEndpoint);
    assert!(matches!(
        r,
        Err(ClientRespondEndpointError::EndpointParseResponseFailed(
            ParseBodyError::UnexpectedBody
        ))
    ));
}

#[test]
fn respond_endpoint_reports_render_failure_without_sending() {
    let mut client = MockClient {
        script: vec![ok_response(200, b"{}")],
        slept: vec![],
    };
    let r = respond_endpoint(&mut client, &FailingRenderEndpoint { code: 7 });
    assert!(matches!(r, Err(ClientRespondEndpointError::EndpointRenderRequestFailed(7))));
    // the transport was never touched
    assert_eq!(client.script.len(), 1);
}

#[test]
fn respond_endpoint_reports_transport_failure() {
    let mut client = MockClient {
        script: vec![Err(MockTransportError)],
        slept: vec![],
    };
    let r = respond_endpoint(&mut client, &IpEndpoint);
    assert!(matches!(r, Err(ClientRespondEndpointError::RespondFailed(MockTransportError))));
}

#[test]
fn callbacks_run_exactly_once_around_the_exchange() {
    let mut client = MockClient {
        script: vec![ok_response(200, b"{\"origin\":\"::1\"}")],
        slept: vec![],
    };
    let mut pre = CountingPreRequestCallback { calls: 0 };
    let mut post = CountingPostResponseCallback { calls: 0, last_status: 0 };
    let out = respond_endpoint_with_callback(&mut client, &IpEndpoint, &mut pre, &mut post)
        .unwrap();
    assert_eq!(out.origin, "::1");
    assert_eq!(pre.calls, 1);
    assert_eq!(post.calls, 1);
    assert_eq!(post.last_status, 200);
}

#[test]
fn callbacks_do_not_run_when_rendering_fails() {
    let mut client = MockClient {
        script: vec![],
        slept: vec![],
    };
    let mut pre = CountingPreRequestCallback { calls: 0 };
    let mut post = CountingPostResponseCallback { calls: 0, last_status: 0 };
    let r = respond_endpoint_with_callback(
        &mut client,
        &FailingRenderEndpoint { code: 1 },
        &mut pre,
        &mut post,
    );
    assert!(matches!(r, Err(ClientRespondEndpointError::EndpointRenderRequestFailed(1))));
    assert_eq!(pre.calls, 0);
    assert_eq!(post.calls, 0);
}

#[test]
fn post_callback_does_not_run_on_transport_failure() {
    let mut client = MockClient {
        script: vec![Err(MockTransportError)],
        slept: vec![],
    };
    let mut pre = CountingPreRequestCallback { calls: 0 };
    let mut post = CountingPostResponseCallback { calls: 0, last_status: 0 };
    let r = respond_endpoint_with_callback(&mut client, &IpEndpoint, &mut pre, &mut post);
    assert!(matches!(r, Err(ClientRespondEndpointError::RespondFailed(_))));
    assert_eq!(pre.calls, 1);
    assert_eq!(post.calls, 0);
}

#[test]
fn echo_round_trip_returns_the_payload() {
    let payload: Vec<u8> = vec![104, 101, 108, 108, 111];
    let endpoint = EchoPayloadEndpoint { payload: payload.clone() };
    let mut client = EchoClient;
    let out = respond_endpoint(&mut client, &endpoint).unwrap();
    assert_eq!(out, payload);
}

#[test]
fn echo_round_trip_empty_payload() {
    let endpoint = EchoPayloadEndpoint { payload: vec![] };
    let mut client = EchoClient;
    let out = respond_endpoint(&mut client, &endpoint).unwrap();
    assert_eq!(out, Vec::<u8>::new());
}
