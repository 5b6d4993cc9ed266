use vstd::prelude::*;

use crate::endpoint::RetryableEndpointRetry;
use crate::message::{Request, Response};

verus! {

/// A pre-request hook for the single-shot driver: it may rewrite the rendered
/// request (header injection, signing) and may keep state of its own. Each
/// implementation gives its behaviour as a pure state machine: one call moves
/// the hook from `self` to `on_request_state` and hands the transport
/// `on_request_output`.
pub trait PreRequestCallback where Self: Sized {
    /// The hook's state after one call on `request`. The default keeps the
    /// state; a verified hook overrides it with its own behaviour.
    open spec fn on_request_state(self, request: Request) -> Self {
        self
    }

    /// The request handed on to the transport in place of `request`. The
    /// default passes it through unchanged; a verified hook overrides it
    /// with its own behaviour.
    open spec fn on_request_output(self, request: Request) -> Request {
        request
    }

    fn on_request(&mut self, request: Request) -> (r: Request)
        ensures
            *final(self) == old(self).on_request_state(request),
            r == old(self).on_request_output(request),
    ;
}

/// A post-response hook for the single-shot driver: it observes the response
/// (for example to capture a header) but cannot alter the flow.
pub trait PostResponseCallback where Self: Sized {
    /// The hook's state after one call on `response`. The default keeps the
    /// state; a verified hook overrides it with its own behaviour.
    open spec fn on_response_state(self, response: Response) -> Self {
        self
    }

    fn on_response(&mut self, response: &Response)
        ensures
            *final(self) == old(self).on_response_state(*response),
    ;
}

/// Pre-request hook for the retry-loop driver; it also sees the retry state
/// of the previous attempt, absent on the first one.
pub trait RetryPreRequestCallback<Reason> where Self: Sized {
    /// The hook's state after one call. The default keeps the state; a
    /// verified hook overrides it with its own behaviour.
    open spec fn on_request_state(
        self,
        request: Request,
        retry: Option<RetryableEndpointRetry<Reason>>,
    ) -> Self {
        self
    }

    /// The request handed on to the transport. The default passes it through
    /// unchanged; a verified hook overrides it with its own behaviour.
    open spec fn on_request_output(
        self,
        request: Request,
        retry: Option<RetryableEndpointRetry<Reason>>,
    ) -> Request {
        request
    }

    fn on_request(
        &mut self,
        request: Request,
        retry: Option<&RetryableEndpointRetry<Reason>>,
    ) -> (r: Request)
        ensures
            *final(self) == old(self).on_request_state(
                request,
                crate::endpoint::peek_retry(retry),
            ),
            r == old(self).on_request_output(request, crate::endpoint::peek_retry(retry)),
    ;
}

/// Post-response hook for the retry-loop driver.
pub trait RetryPostResponseCallback<Reason> where Self: Sized {
    /// The hook's state after one call. The default keeps the state; a
    /// verified hook overrides it with its own behaviour.
    open spec fn on_response_state(
        self,
        response: Response,
        retry: Option<RetryableEndpointRetry<Reason>>,
    ) -> Self {
        self
    }

    fn on_response(&mut self, response: &Response, retry: Option<&RetryableEndpointRetry<Reason>>)
        ensures
            *final(self) == old(self).on_response_state(
                *response,
                crate::endpoint::peek_retry(retry),
            ),
    ;
}

/// The default pre-request hook: hands the request on unchanged.
pub struct IdentityPreRequestCallback;

impl PreRequestCallback for IdentityPreRequestCallback {
    open spec fn on_request_state(self, request: Request) -> Self {
        self
    }

    open spec fn on_request_output(self, request: Request) -> Request {
        request
    }

    fn on_request(&mut self, request: Request) -> (r: Request) {
        request
    }
}

/// The default post-response hook: looks at nothing.
pub struct NoopPostResponseCallback;

impl PostResponseCallback for NoopPostResponseCallback {
    open spec fn on_response_state(self, response: Response) -> Self {
        self
    }

    fn on_response(&mut self, response: &Response) {
    }
}

/// The default retry-loop pre-request hook: hands the request on unchanged.
pub struct IdentityRetryPreRequestCallback;

impl<Reason> RetryPreRequestCallback<Reason> for IdentityRetryPreRequestCallback {
    open spec fn on_request_state(
        self,
        request: Request,
        retry: Option<RetryableEndpointRetry<Reason>>,
    ) -> Self {
        self
    }

    open spec fn on_request_output(
        self,
        request: Request,
        retry: Option<RetryableEndpointRetry<Reason>>,
    ) -> Request {
        request
    }

    fn on_request(
        &mut self,
        request: Request,
        retry: Option<&RetryableEndpointRetry<Reason>>,
    ) -> (r: Request) {
        request
    }
}

/// The default retry-loop post-response hook: looks at nothing.
pub struct NoopRetryPostResponseCallback;

impl<Reason> RetryPostResponseCallback<Reason> for NoopRetryPostResponseCallback {
    open spec fn on_response_state(
        self,
        response: Response,
        retry: Option<RetryableEndpointRetry<Reason>>,
    ) -> Self {
        self
    }

    fn on_response(
        &mut self,
        response: &Response,
        retry: Option<&RetryableEndpointRetry<Reason>>,
    ) {
    }
}

} // verus!
