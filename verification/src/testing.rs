use vstd::prelude::*;

use crate::callback::{
    IdentityPreRequestCallback, NoopPostResponseCallback, PostResponseCallback,
    PreRequestCallback, RetryPostResponseCallback, RetryPreRequestCallback,
};
use crate::client::{respond_endpoint_outcome, Client, ClientRespondEndpointError};
use crate::endpoint::{Endpoint, RetryableEndpoint, RetryableEndpointRetry};
use crate::httpbin::ParseBodyError;
use crate::message::{Request, Response};
use crate::retry::RetryableClient;

verus! {

/// The error a test transport fails with.
#[derive(Debug, Clone, Copy, PartialEq, Eq, Structural)]
pub struct MockTransportError;

/// A scripted transport: each `respond` call consumes the next entry of the
/// script, and the sleeps taken between retries are recorded for inspection.
/// An exhausted script fails.
pub struct MockClient {
    pub script: Vec<Result<Response, MockTransportError>>,
    pub slept: Vec<u64>,
}

impl Client for MockClient {
    type RespondError = MockTransportError;

    open spec fn sleep_log(&self) -> Seq<u64> {
        self.slept@
    }

    open spec fn respond_rel(
        &self,
        request: Request,
        next: Self,
        r: Result<Response, MockTransportError>,
    ) -> bool {
        if self.script@.len() > 0 {
            &&& r == self.script@[0]
            &&& next.script@ == self.script@.subrange(1, self.script@.len() as int)
            &&& next.slept@ == self.slept@
        } else {
            &&& r == Result::<Response, MockTransportError>::Err(MockTransportError)
            &&& next.script@ == self.script@
            &&& next.slept@ == self.slept@
        }
    }

    fn respond(&mut self, request: Request) -> (r: Result<Response, MockTransportError>) {
        if self.script.len() > 0 {
            self.script.remove(0)
        } else {
            Err(MockTransportError)
        }
    }
}

impl RetryableClient for MockClient {
    fn sleep(&mut self, millis: u64) {
        self.slept.push(millis);
    }
}

/// A stateless transport that answers every request with status 200 and the
/// request's own body: the mock collaborator of the round-trip law.
pub struct EchoClient;

impl Client for EchoClient {
    type RespondError = MockTransportError;

    open spec fn sleep_log(&self) -> Seq<u64> {
        Seq::empty()
    }

    open spec fn respond_rel(
        &self,
        request: Request,
        next: Self,
        r: Result<Response, MockTransportError>,
    ) -> bool {
        &&& r matches Ok(resp)
        &&& resp.status == 200
        &&& resp.headers@ == Seq::<(String, String)>::empty()
        &&& resp.body@ == request.body@
    }

    fn respond(&mut self, request: Request) -> (r: Result<Response, MockTransportError>) {
        Ok(Response::new(200, request.body))
    }
}

/// A pre-request callback that counts its calls and changes nothing else.
pub struct CountingPreRequestCallback {
    pub calls: u64,
}

impl PreRequestCallback for CountingPreRequestCallback {
    open spec fn on_request_state(self, request: Request) -> Self {
        CountingPreRequestCallback { calls: self.calls.saturating_add(1) }
    }

    open spec fn on_request_output(self, request: Request) -> Request {
        request
    }

    fn on_request(&mut self, request: Request) -> (r: Request) {
        self.calls = self.calls.saturating_add(1);
        request
    }
}

/// A post-response callback that counts its calls and remembers the last
/// status it saw.
pub struct CountingPostResponseCallback {
    pub calls: u64,
    pub last_status: u16,
}

impl PostResponseCallback for CountingPostResponseCallback {
    open spec fn on_response_state(self, response: Response) -> Self {
        CountingPostResponseCallback {
            calls: self.calls.saturating_add(1),
            last_status: response.status,
        }
    }

    fn on_response(&mut self, response: &Response) {
        self.calls = self.calls.saturating_add(1);
        self.last_status = response.status;
    }
}

/// A retry-loop pre-request callback that counts its calls.
pub struct CountingRetryPreRequestCallback {
    pub calls: u64,
}

impl<Reason> RetryPreRequestCallback<Reason> for CountingRetryPreRequestCallback {
    open spec fn on_request_state(
        self,
        request: Request,
        retry: Option<RetryableEndpointRetry<Reason>>,
    ) -> Self {
        CountingRetryPreRequestCallback { calls: self.calls.saturating_add(1) }
    }

    open spec fn on_request_output(
        self,
        request: Request,
        retry: Option<RetryableEndpointRetry<Reason>>,
    ) -> Request {
        request
    }

    fn on_request(
        &mut self,
        request: Request,
        retry: Option<&RetryableEndpointRetry<Reason>>,
    ) -> (r: Request) {
        self.calls = self.calls.saturating_add(1);
        request
    }
}

/// A retry-loop post-response callback that counts its calls and the retry
/// states it was shown.
pub struct CountingRetryPostResponseCallback {
    pub calls: u64,
    pub calls_with_retry_state: u64,
}

impl<Reason> RetryPostResponseCallback<Reason> for CountingRetryPostResponseCallback {
    open spec fn on_response_state(
        self,
        response: Response,
        retry: Option<RetryableEndpointRetry<Reason>>,
    ) -> Self {
        CountingRetryPostResponseCallback {
            calls: self.calls.saturating_add(1),
            calls_with_retry_state: if retry is Some {
                self.calls_with_retry_state.saturating_add(1)
            } else {
                self.calls_with_retry_state
            },
        }
    }

    fn on_response(&mut self, response: &Response, retry: Option<&RetryableEndpointRetry<Reason>>) {
        self.calls = self.calls.saturating_add(1);
        if retry.is_some() {
            self.calls_with_retry_state = self.calls_with_retry_state.saturating_add(1);
        }
    }
}

/// An endpoint whose render and parse are inverses over its payload: it
/// posts the payload as the request body and reads the response body back
/// verbatim.
pub struct EchoPayloadEndpoint {
    pub payload: Vec<u8>,
}

impl Endpoint for EchoPayloadEndpoint {
    type RenderRequestError = ();

    type ParseResponseOutput = Vec<u8>;

    type ParseResponseError = ParseBodyError;

    open spec fn render_rel(&self, r: Result<Request, ()>) -> bool {
        &&& r matches Ok(req)
        &&& req.method@ == "POST"@
        &&& req.uri@ == "https://httpbin.org/anything"@
        &&& req.headers@ == Seq::<(String, String)>::empty()
        &&& req.body@ == self.payload@
    }

    open spec fn parse_rel(&self, response: Response, r: Result<Vec<u8>, ParseBodyError>) -> bool {
        r matches Ok(out) && out@ == response.body@
    }

    fn render_request(&self) -> (r: Result<Request, ()>) {
        let mut body: Vec<u8> = Vec::new();
        let mut k: usize = 0;
        while k < self.payload.len()
            invariant
                k <= self.payload@.len(),
                body@ == self.payload@.subrange(0, k as int),
            decreases self.payload@.len() - k,
        {
            body.push(self.payload[k]);
            k += 1;
        }
        proof {
            assert(body@ =~= self.payload@);
        }
        Ok(Request::post(String::from_str("https://httpbin.org/anything"), body))
    }

    fn parse_response(&self, response: Response) -> (r: Result<Vec<u8>, ParseBodyError>) {
        Ok(response.body)
    }
}

/// An endpoint that treats status 200 as done and any other status as a
/// reason to try again; it keeps the default retry ceiling and backoff.
pub struct StatusProbeEndpoint;

impl RetryableEndpoint for StatusProbeEndpoint {
    type RetryReason = u16;

    type RenderRequestError = ();

    type ParseResponseOutput = Vec<u8>;

    type ParseResponseError = ParseBodyError;

    open spec fn render_rel(
        &self,
        retry: Option<RetryableEndpointRetry<u16>>,
        r: Result<Request, ()>,
    ) -> bool {
        &&& r matches Ok(req)
        &&& req.method@ == "GET"@
        &&& req.uri@ == "https://httpbin.org/status/200"@
        &&& req.headers@ == Seq::<(String, String)>::empty()
        &&& req.body@ == Seq::<u8>::empty()
    }

    open spec fn parse_rel(
        &self,
        response: Response,
        retry: Option<RetryableEndpointRetry<u16>>,
        r: Result<Result<Vec<u8>, u16>, ParseBodyError>,
    ) -> bool {
        if response.status == 200 {
            r matches Ok(Ok(out)) && out@ == response.body@
        } else {
            r == Result::<Result<Vec<u8>, u16>, ParseBodyError>::Ok(Err(response.status))
        }
    }

    fn render_request(&self, retry: Option<&RetryableEndpointRetry<u16>>) -> (r: Result<
        Request,
        (),
    >) {
        Ok(Request::get(String::from_str("https://httpbin.org/status/200")))
    }

    fn parse_response(
        &self,
        response: Response,
        retry: Option<&RetryableEndpointRetry<u16>>,
    ) -> (r: Result<Result<Vec<u8>, u16>, ParseBodyError>) {
        if response.status == 200 {
            Ok(Ok(response.body))
        } else {
            Ok(Err(response.status))
        }
    }

    fn max_retry_count(&self) -> (r: usize) {
        crate::endpoint::DEFAULT_MAX_RETRY_COUNT
    }

    fn next_retry_in(&self, retry: &RetryableEndpointRetry<u16>) -> (r: u64) {
        crate::endpoint::default_next_retry_in_millis(retry.count)
    }
}

/// An endpoint that cannot construct its request: rendering always fails
/// with the configured code.
pub struct FailingRenderEndpoint {
    pub code: u8,
}

impl Endpoint for FailingRenderEndpoint {
    type RenderRequestError = u8;

    type ParseResponseOutput = ();

    type ParseResponseError = ParseBodyError;

    open spec fn render_rel(&self, r: Result<Request, u8>) -> bool {
        r == Result::<Request, u8>::Err(self.code)
    }

    open spec fn parse_rel(&self, response: Response, r: Result<(), ParseBodyError>) -> bool {
        r == Result::<(), ParseBodyError>::Ok(())
    }

    fn render_request(&self) -> (r: Result<Request, u8>) {
        Err(self.code)
    }

    fn parse_response(&self, response: Response) -> (r: Result<(), ParseBodyError>) {
        Ok(())
    }
}

impl RetryableEndpoint for FailingRenderEndpoint {
    type RetryReason = u16;

    type RenderRequestError = u8;

    type ParseResponseOutput = ();

    type ParseResponseError = ParseBodyError;

    open spec fn render_rel(
        &self,
        retry: Option<RetryableEndpointRetry<u16>>,
        r: Result<Request, u8>,
    ) -> bool {
        r == Result::<Request, u8>::Err(self.code)
    }

    open spec fn parse_rel(
        &self,
        response: Response,
        retry: Option<RetryableEndpointRetry<u16>>,
        r: Result<Result<(), u16>, ParseBodyError>,
    ) -> bool {
        r == Result::<Result<(), u16>, ParseBodyError>::Ok(Ok(()))
    }

    fn render_request(&self, retry: Option<&RetryableEndpointRetry<u16>>) -> (r: Result<
        Request,
        u8,
    >) {
        Err(self.code)
    }

    fn parse_response(
        &self,
        response: Response,
        retry: Option<&RetryableEndpointRetry<u16>>,
    ) -> (r: Result<Result<(), u16>, ParseBodyError>) {
        Ok(Ok(()))
    }

    fn max_retry_count(&self) -> (r: usize) {
        crate::endpoint::DEFAULT_MAX_RETRY_COUNT
    }

    fn next_retry_in(&self, retry: &RetryableEndpointRetry<u16>) -> (r: u64) {
        crate::endpoint::default_next_retry_in_millis(retry.count)
    }
}

/// Round trip: an endpoint whose render and parse are inverses over its
/// payload, driven once through the echoing transport, always succeeds and
/// yields exactly the payload it rendered.
pub proof fn lemma_echo_round_trip(
    endpoint: EchoPayloadEndpoint,
    client0: EchoClient,
    client1: EchoClient,
    pre0: IdentityPreRequestCallback,
    pre1: IdentityPreRequestCallback,
    post0: NoopPostResponseCallback,
    post1: NoopPostResponseCallback,
    r: Result<Vec<u8>, ClientRespondEndpointError<MockTransportError, (), ParseBodyError>>,
)
    requires
        respond_endpoint_outcome(client0, client1, endpoint, pre0, pre1, post0, post1, r),
    ensures
        r matches Ok(out) && out@ == endpoint.payload@,
{
}

} // verus!
