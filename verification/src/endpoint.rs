use vstd::prelude::*;

use crate::message::{Request, Response};

verus! {

/// Accumulated retry state: how many attempts have signalled "retry" so far,
/// and the reason the latest attempt gave. The retry loop creates the first
/// value with `count == 1` and increments the count on every further retry.
#[derive(Debug)]
pub struct RetryableEndpointRetry<T> {
    pub count: usize,
    pub reason: T,
}

impl<T> RetryableEndpointRetry<T> {
    pub fn new(count: usize, reason: T) -> (r: Self)
        ensures
            r.count == count,
            r.reason == reason,
    {
        Self { count, reason }
    }
}

/// The spec-level value behind an optional borrowed retry state.
pub open spec fn peek_retry<T>(retry: Option<&RetryableEndpointRetry<T>>) -> Option<
    RetryableEndpointRetry<T>,
> {
    match retry {
        Some(r) => Some(*r),
        None => None,
    }
}

/// Retry ceiling used by endpoints that do not override `max_retry_count`.
pub const DEFAULT_MAX_RETRY_COUNT: usize = 3;

/// Default backoff policy, in milliseconds: a step function of the retry
/// count, which starts at 1. Counts 1 through 3 wait half a second; later
/// counts wait a full second.
pub open spec fn default_next_retry_in(count: usize) -> u64 {
    if count <= 3 {
        500
    } else {
        1000
    }
}

/// Executable twin of [`default_next_retry_in`].
pub fn default_next_retry_in_millis(count: usize) -> (r: u64)
    ensures
        r == default_next_retry_in(count),
{
    if count <= 3 {
        500
    } else {
        1000
    }
}

/// The default backoff is a two-step function: retry counts 1, 2 and 3 are
/// answered with 500 ms, and every count from 4 on with 1000 ms.
pub proof fn lemma_default_backoff_steps(count: usize)
    ensures
        1 <= count <= 3 ==> default_next_retry_in(count) == 500,
        count >= 4 ==> default_next_retry_in(count) == 1000,
{
}

/// A policy object that knows how to build one request and how to interpret
/// the response it got back. Each implementation describes its own behaviour
/// with the two spec relations; the executable methods are bound to them, so
/// an endpoint cannot return anything its relations do not allow.
pub trait Endpoint {
    type RenderRequestError;

    type ParseResponseOutput;

    type ParseResponseError;

    /// Which results `render_request` may return. The default allows
    /// anything; a verified endpoint overrides it with its own behaviour.
    open spec fn render_rel(&self, r: Result<Request, Self::RenderRequestError>) -> bool {
        true
    }

    /// Which results `parse_response` may return for `response`. The default
    /// allows anything; a verified endpoint overrides it with its own
    /// behaviour.
    open spec fn parse_rel(
        &self,
        response: Response,
        r: Result<Self::ParseResponseOutput, Self::ParseResponseError>,
    ) -> bool {
        true
    }

    /// Pure construction of a request; performs no I/O.
    fn render_request(&self) -> (r: Result<Request, Self::RenderRequestError>)
        ensures
            self.render_rel(r),
    ;

    /// Pure interpretation of a completed response into a typed output.
    fn parse_response(&self, response: Response) -> (r: Result<
        Self::ParseResponseOutput,
        Self::ParseResponseError,
    >)
        ensures
            self.parse_rel(response, r),
    ;
}

/// An endpoint whose response interpretation may yield, instead of a final
/// output, a reason to try again. Render and parse receive the retry state of
/// the previous attempt (absent on the first one), so they can vary the
/// request or the interpretation across attempts.
pub trait RetryableEndpoint {
    type RetryReason;

    type RenderRequestError;

    type ParseResponseOutput;

    type ParseResponseError;

    /// Which results `render_request` may return given the previous retry
    /// state. The default allows anything; a verified endpoint overrides it
    /// with its own behaviour.
    open spec fn render_rel(
        &self,
        retry: Option<RetryableEndpointRetry<Self::RetryReason>>,
        r: Result<Request, Self::RenderRequestError>,
    ) -> bool {
        true
    }

    /// Which results `parse_response` may return for `response` given the
    /// previous retry state. `Ok(Err(reason))` means: parsed fine, but the
    /// operation is not done yet and should be retried. The default allows
    /// anything; a verified endpoint overrides it with its own behaviour.
    open spec fn parse_rel(
        &self,
        response: Response,
        retry: Option<RetryableEndpointRetry<Self::RetryReason>>,
        r: Result<
            Result<Self::ParseResponseOutput, Self::RetryReason>,
            Self::ParseResponseError,
        >,
    ) -> bool {
        true
    }

    /// Policy: retry ceiling. The loop stops with a retry-exhaustion error
    /// once the retry count reaches this value.
    open spec fn max_retry_count_spec(&self) -> usize {
        DEFAULT_MAX_RETRY_COUNT
    }

    /// Policy: how long to wait, in milliseconds, before the next attempt.
    open spec fn next_retry_in_spec(&self, retry: RetryableEndpointRetry<Self::RetryReason>) -> u64 {
        default_next_retry_in(retry.count)
    }

    fn render_request(&self, retry: Option<&RetryableEndpointRetry<Self::RetryReason>>) -> (r:
        Result<Request, Self::RenderRequestError>)
        ensures
            self.render_rel(peek_retry(retry), r),
    ;

    fn parse_response(
        &self,
        response: Response,
        retry: Option<&RetryableEndpointRetry<Self::RetryReason>>,
    ) -> (r: Result<
        Result<Self::ParseResponseOutput, Self::RetryReason>,
        Self::ParseResponseError,
    >)
        ensures
            self.parse_rel(response, peek_retry(retry), r),
    ;

    fn max_retry_count(&self) -> (r: usize)
        ensures
            r == self.max_retry_count_spec(),
    ;

    fn next_retry_in(&self, retry: &RetryableEndpointRetry<Self::RetryReason>) -> (r: u64)
        ensures
            r == self.next_retry_in_spec(*retry),
    ;
}

} // verus!
