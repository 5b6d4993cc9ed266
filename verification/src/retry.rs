use vstd::prelude::*;

use crate::callback::{
    IdentityRetryPreRequestCallback, NoopRetryPostResponseCallback, RetryPostResponseCallback,
    RetryPreRequestCallback,
};
use crate::client::Client;
use crate::endpoint::{peek_retry, RetryableEndpoint, RetryableEndpointRetry};
use crate::message::{Request, Response};

verus! {

/// How one retry-loop driver call can end, besides success: the three
/// single-shot failures, which all abort the loop at once, plus exhaustion of
/// the retry budget. A transport failure is never retried; only
/// endpoint-signalled retry reasons are.
#[derive(Debug)]
pub enum RetryableClientRespondEndpointUntilDoneError<RE, EPRRE, EPPRE> {
    RespondFailed(RE),
    EndpointRenderRequestFailed(EPRRE),
    EndpointParseResponseFailed(EPPRE),
    ReachedMaxRetries,
}

/// A transport that can also suspend between attempts. Sleeping is recorded
/// in the client's ghost sleep log, which is how the retry driver's contract
/// accounts for every pause it takes.
pub trait RetryableClient: Client {
    /// Suspends the calling task for `millis` milliseconds.
    fn sleep(&mut self, millis: u64)
        ensures
            final(self).sleep_log() == old(self).sleep_log().push(millis),
    ;
}

/// Spec-level evidence of one attempt of the retry loop: either rendering
/// failed, or the transport failed on the request that was rendered, or a
/// response came back and was parsed. Each event carries the client states it
/// passed through, so that [`retry_step`] can hold every transport outcome to
/// the client's own `respond_rel` and every pause to its sleep log;
/// `client_after_sleep` matters only on an attempt the loop retries after.
pub enum RetryAttemptEvent<C, Out, Reason, RRE, RE, PE> {
    RenderFailed { render_error: RRE },
    SendFailed { request: Request, client_after_send: C, transport_error: RE },
    Completed {
        request: Request,
        client_after_send: C,
        response: Response,
        parsed: Result<Result<Out, Reason>, PE>,
        client_after_sleep: C,
    },
}

/// The state of one run of the retry loop over a sequence of attempt events:
/// whether the events seen so far were possible at all (`ok`), the client and
/// callback states, the current retry state, every sleep taken and every
/// retry state constructed so far, and the terminal result once one is
/// reached.
pub struct RetryRun<C, Out, Reason, Pre, Post, RRE, RE, PE> {
    pub ok: bool,
    pub client: C,
    pub retry: Option<RetryableEndpointRetry<Reason>>,
    pub pre: Pre,
    pub post: Post,
    pub sleeps: Seq<u64>,
    pub retries: Seq<RetryableEndpointRetry<Reason>>,
    pub outcome: Option<Result<Out, RetryableClientRespondEndpointUntilDoneError<RE, RRE, PE>>>,
}

/// The loop's starting state: no retries yet, client and callbacks as given.
pub open spec fn retry_run_init<C, Out, Reason, Pre, Post, RRE, RE, PE>(
    client: C,
    pre: Pre,
    post: Post,
) -> RetryRun<C, Out, Reason, Pre, Post, RRE, RE, PE> {
    RetryRun {
        ok: true,
        client,
        retry: None,
        pre,
        post,
        sleeps: Seq::empty(),
        retries: Seq::empty(),
        outcome: None,
    }
}

/// The retry count carried by an optional retry state.
pub open spec fn retry_count_of<Reason>(retry: Option<RetryableEndpointRetry<Reason>>) -> int {
    match retry {
        None => 0,
        Some(rs) => rs.count as int,
    }
}

/// One transition of the retry loop's state machine on one attempt event.
/// An event after a terminal state, a render outcome the endpoint's
/// `render_rel` does not allow, a transport outcome the client's
/// `respond_rel` does not allow (or one that touches the sleep log), a parse
/// outcome the endpoint's `parse_rel` does not allow, or a pause that is not
/// exactly the endpoint's backoff, invalidates the run. Otherwise this
/// follows the loop body: render, pre-request callback, send, post-response
/// callback, parse; on a retry reason the retry count grows by one, and the
/// loop either trips the retry ceiling or sleeps for the endpoint's backoff.
pub open spec fn retry_step<C: Client, EP: RetryableEndpoint, Pre: RetryPreRequestCallback<EP::RetryReason>, Post: RetryPostResponseCallback<EP::RetryReason>>(
    ep: EP,
    s: RetryRun<
        C,
        EP::ParseResponseOutput,
        EP::RetryReason,
        Pre,
        Post,
        EP::RenderRequestError,
        C::RespondError,
        EP::ParseResponseError,
    >,
    ev: RetryAttemptEvent<
            C,
            EP::ParseResponseOutput,
            EP::RetryReason,
            EP::RenderRequestError,
            C::RespondError,
            EP::ParseResponseError,
        >,
) -> RetryRun<
        C,
        EP::ParseResponseOutput,
        EP::RetryReason,
        Pre,
        Post,
        EP::RenderRequestError,
        C::RespondError,
        EP::ParseResponseError,
    > {
    if !s.ok || s.outcome is Some {
        RetryRun { ok: false, ..s }
    } else {
        match ev {
            RetryAttemptEvent::RenderFailed { render_error } => {
                if ep.render_rel(s.retry, Result::Err(render_error)) {
                    RetryRun {
                        outcome: Some(
                            Result::Err(
                                RetryableClientRespondEndpointUntilDoneError::EndpointRenderRequestFailed(
                                    render_error,
                                ),
                            ),
                        ),
                        ..s
                    }
                } else {
                    RetryRun { ok: false, ..s }
                }
            },
            RetryAttemptEvent::SendFailed { request, client_after_send, transport_error } => {
                let sent = s.pre.on_request_output(request, s.retry);
                if ep.render_rel(s.retry, Result::Ok(request)) && s.client.respond_rel(
                    sent,
                    client_after_send,
                    Result::Err(transport_error),
                ) && client_after_send.sleep_log() == s.client.sleep_log() {
                    RetryRun {
                        client: client_after_send,
                        pre: s.pre.on_request_state(request, s.retry),
                        outcome: Some(
                            Result::Err(
                                RetryableClientRespondEndpointUntilDoneError::RespondFailed(
                                    transport_error,
                                ),
                            ),
                        ),
                        ..s
                    }
                } else {
                    RetryRun { ok: false, ..s }
                }
            },
            RetryAttemptEvent::Completed {
                request,
                client_after_send,
                response,
                parsed,
                client_after_sleep,
            } => {
                let sent = s.pre.on_request_output(request, s.retry);
                if ep.render_rel(s.retry, Result::Ok(request)) && s.client.respond_rel(
                    sent,
                    client_after_send,
                    Result::Ok(response),
                ) && client_after_send.sleep_log() == s.client.sleep_log() && ep.parse_rel(
                    response,
                    s.retry,
                    parsed,
                ) {
                    let pre2 = s.pre.on_request_state(request, s.retry);
                    let post2 = s.post.on_response_state(response, s.retry);
                    match parsed {
                        Result::Err(e) => RetryRun {
                            client: client_after_send,
                            pre: pre2,
                            post: post2,
                            outcome: Some(
                                Result::Err(
                                    RetryableClientRespondEndpointUntilDoneError::EndpointParseResponseFailed(
                                        e,
                                    ),
                                ),
                            ),
                            ..s
                        },
                        Result::Ok(Result::Ok(out)) => RetryRun {
                            client: client_after_send,
                            pre: pre2,
                            post: post2,
                            outcome: Some(Result::Ok(out)),
                            ..s
                        },
                        Result::Ok(Result::Err(reason)) => {
                            let rs2 = RetryableEndpointRetry {
                                count: (retry_count_of(s.retry) + 1) as usize,
                                reason,
                            };
                            if rs2.count >= ep.max_retry_count_spec() {
                                RetryRun {
                                    client: client_after_send,
                                    pre: pre2,
                                    post: post2,
                                    retry: Some(rs2),
                                    retries: s.retries.push(rs2),
                                    outcome: Some(
                                        Result::Err(
                                            RetryableClientRespondEndpointUntilDoneError::ReachedMaxRetries,
                                        ),
                                    ),
                                    ..s
                                }
                            } else if client_after_sleep.sleep_log() == client_after_send.sleep_log().push(
                                ep.next_retry_in_spec(rs2),
                            ) {
                                RetryRun {
                                    client: client_after_sleep,
                                    pre: pre2,
                                    post: post2,
                                    retry: Some(rs2),
                                    retries: s.retries.push(rs2),
                                    sleeps: s.sleeps.push(ep.next_retry_in_spec(rs2)),
                                    ..s
                                }
                            } else {
                                RetryRun { ok: false, ..s }
                            }
                        },
                    }
                } else {
                    RetryRun { ok: false, ..s }
                }
            },
        }
    }
}

/// The state machine folded over a whole sequence of attempt events.
pub open spec fn retry_run<C: Client, EP: RetryableEndpoint, Pre: RetryPreRequestCallback<EP::RetryReason>, Post: RetryPostResponseCallback<EP::RetryReason>>(
    ep: EP,
    s: RetryRun<
        C,
        EP::ParseResponseOutput,
        EP::RetryReason,
        Pre,
        Post,
        EP::RenderRequestError,
        C::RespondError,
        EP::ParseResponseError,
    >,
    events: Seq<
        RetryAttemptEvent<
            C,
            EP::ParseResponseOutput,
            EP::RetryReason,
            EP::RenderRequestError,
            C::RespondError,
            EP::ParseResponseError,
        >,
    >,
) -> RetryRun<
        C,
        EP::ParseResponseOutput,
        EP::RetryReason,
        Pre,
        Post,
        EP::RenderRequestError,
        C::RespondError,
        EP::ParseResponseError,
    >
    decreases events.len(),
{
    if events.len() == 0 {
        s
    } else {
        retry_run(ep, retry_step(ep, s, events[0]), events.subrange(1, events.len() as int))
    }
}

/// Folding one more event at the end of a run is one more step.
pub proof fn lemma_retry_run_snoc<C: Client, EP: RetryableEndpoint, Pre: RetryPreRequestCallback<EP::RetryReason>, Post: RetryPostResponseCallback<EP::RetryReason>>(
    ep: EP,
    s: RetryRun<
        C,
        EP::ParseResponseOutput,
        EP::RetryReason,
        Pre,
        Post,
        EP::RenderRequestError,
        C::RespondError,
        EP::ParseResponseError,
    >,
    events: Seq<
        RetryAttemptEvent<
            C,
            EP::ParseResponseOutput,
            EP::RetryReason,
            EP::RenderRequestError,
            C::RespondError,
            EP::ParseResponseError,
        >,
    >,
    ev: RetryAttemptEvent<
            C,
            EP::ParseResponseOutput,
            EP::RetryReason,
            EP::RenderRequestError,
            C::RespondError,
            EP::ParseResponseError,
        >,
)
    ensures
        retry_run(ep, s, events.push(ev)) == retry_step(ep, retry_run(ep, s, events), ev),
    decreases events.len(),
{
    if events.len() == 0 {
        let single = events.push(ev);
        assert(single.len() == 1);
        assert(single[0] == ev);
        assert(single.subrange(1, 1) =~= Seq::<
            RetryAttemptEvent<
            C,
            EP::ParseResponseOutput,
            EP::RetryReason,
            EP::RenderRequestError,
            C::RespondError,
            EP::ParseResponseError,
        >,
        >::empty());
        assert(retry_run(ep, s, single) == retry_run(
            ep,
            retry_step(ep, s, ev),
            single.subrange(1, 1),
        ));
        assert(retry_run(ep, retry_step(ep, s, ev), single.subrange(1, 1)) == retry_step(
            ep,
            s,
            ev,
        ));
    } else {
        assert(events.push(ev)[0] == events[0]);
        assert(events.push(ev).subrange(1, events.push(ev).len() as int) =~= events.subrange(
            1,
            events.len() as int,
        ).push(ev));
        lemma_retry_run_snoc(
            ep,
            retry_step(ep, s, events[0]),
            events.subrange(1, events.len() as int),
            ev,
        );
    }
}

/// One concrete event sequence `events` accounts for a driver call that took
/// the client from `client0` to `client1` and the callbacks from
/// `pre0`/`post0` to `pre1`/`post1` and returned `r`; the client slept
/// exactly for the run's sleeps.
pub open spec fn respond_until_done_witnessed<C: Client, EP: RetryableEndpoint, Pre: RetryPreRequestCallback<EP::RetryReason>, Post: RetryPostResponseCallback<EP::RetryReason>>(
    endpoint: EP,
    client0: C,
    client1: C,
    pre0: Pre,
    pre1: Pre,
    post0: Post,
    post1: Post,
    r: Result<
        EP::ParseResponseOutput,
        RetryableClientRespondEndpointUntilDoneError<
            C::RespondError,
            EP::RenderRequestError,
            EP::ParseResponseError,
        >,
    >,
    events: Seq<
        RetryAttemptEvent<
            C,
            EP::ParseResponseOutput,
            EP::RetryReason,
            EP::RenderRequestError,
            C::RespondError,
            EP::ParseResponseError,
        >,
    >,
) -> bool {
    let run = retry_run(endpoint, retry_run_init(client0, pre0, post0), events);
    &&& run.ok
    &&& run.outcome == Some(r)
    &&& client1 == run.client
    &&& client1.sleep_log() == client0.sleep_log() + run.sleeps
    &&& pre1 == run.pre
    &&& post1 == run.post
}

/// Everything the retry-loop driver promises: there is a sequence of attempt
/// events - each one possible under the endpoint's relations and the
/// client's own transport relation - whose run ends in exactly the returned
/// result, passes through exactly the client states the transport produced,
/// leaves the callbacks in exactly the states the run computes, and extends
/// the client's sleep log by exactly the sleeps the run took.
pub open spec fn respond_until_done_outcome<C: Client, EP: RetryableEndpoint, Pre: RetryPreRequestCallback<EP::RetryReason>, Post: RetryPostResponseCallback<EP::RetryReason>>(
    endpoint: EP,
    client0: C,
    client1: C,
    pre0: Pre,
    pre1: Pre,
    post0: Post,
    post1: Post,
    r: Result<
        EP::ParseResponseOutput,
        RetryableClientRespondEndpointUntilDoneError<
            C::RespondError,
            EP::RenderRequestError,
            EP::ParseResponseError,
        >,
    >,
) -> bool {
    exists|
        events: Seq<
            RetryAttemptEvent<
            C,
            EP::ParseResponseOutput,
            EP::RetryReason,
            EP::RenderRequestError,
            C::RespondError,
            EP::ParseResponseError,
        >,
        >,
    | #[trigger] respond_until_done_witnessed(
        endpoint,
        client0,
        client1,
        pre0,
        pre1,
        post0,
        post1,
        r,
        events,
    )
}

/// Drives `endpoint` through the bounded retry loop over `client`: render,
/// pre-request callback, send, post-response callback, parse; then return the
/// output, abort on any failure, or record the retry reason and either trip
/// the retry ceiling or sleep for the endpoint's backoff and go round again.
/// See [`respond_until_done_outcome`] for the full statement of each result.
pub fn respond_endpoint_until_done_with_callback<C, EP, Pre, Post>(
    client: &mut C,
    endpoint: &EP,
    pre_request_callback: &mut Pre,
    post_request_callback: &mut Post,
) -> (r: Result<
    EP::ParseResponseOutput,
    RetryableClientRespondEndpointUntilDoneError<
        C::RespondError,
        EP::RenderRequestError,
        EP::ParseResponseError,
    >,
>) where
    C: RetryableClient,
    EP: RetryableEndpoint,
    Pre: RetryPreRequestCallback<EP::RetryReason>,
    Post: RetryPostResponseCallback<EP::RetryReason>,

    ensures
        respond_until_done_outcome(
            *endpoint,
            *old(client),
            *final(client),
            *old(pre_request_callback),
            *final(pre_request_callback),
            *old(post_request_callback),
            *final(post_request_callback),
            r,
        ),
{
    let ghost client0 = *client;
    let ghost pre0 = *pre_request_callback;
    let ghost post0 = *post_request_callback;
    let ghost mut events: Seq<
        RetryAttemptEvent<
            C,
            EP::ParseResponseOutput,
            EP::RetryReason,
            EP::RenderRequestError,
            C::RespondError,
            EP::ParseResponseError,
        >,
    > = Seq::empty();
    let mut retry: Option<RetryableEndpointRetry<EP::RetryReason>> = None;
    loop
        invariant
            ({
                let run = retry_run::<C, EP, Pre, Post>(
                    *endpoint,
                    retry_run_init(client0, pre0, post0),
                    events,
                );
                &&& run.ok
                &&& run.outcome is None
                &&& run.retry == retry
                &&& run.client == *client
                &&& run.pre == *pre_request_callback
                &&& run.post == *post_request_callback
                &&& client.sleep_log() == client0.sleep_log() + run.sleeps
            }),
            match retry {
                Some(rs) => rs.count < endpoint.max_retry_count_spec(),
                None => true,
            },
            client0 == *old(client),
            pre0 == *old(pre_request_callback),
            post0 == *old(post_request_callback),
        decreases endpoint.max_retry_count_spec() - retry_count_of(retry),
    {
        let retry_ref: Option<&RetryableEndpointRetry<EP::RetryReason>> = match &retry {
            Some(rs) => Some(rs),
            None => None,
        };
        proof {
            assert(peek_retry(retry_ref) == retry);
        }
        let request = match endpoint.render_request(retry_ref) {
            Ok(req) => req,
            Err(e) => {
                proof {
                    let ev = RetryAttemptEvent::RenderFailed { render_error: e };
                    lemma_retry_run_snoc(
                        *endpoint,
                        retry_run_init::<
                        C,
                        EP::ParseResponseOutput,
                        EP::RetryReason,
                        Pre,
                        Post,
                        EP::RenderRequestError,
                        C::RespondError,
                        EP::ParseResponseError,
                    >(client0, pre0, post0),
                        events,
                        ev,
                    );
                    events = events.push(ev);
                    assert(respond_until_done_witnessed::<C, EP, Pre, Post>(
                        *endpoint,
                        client0,
                        *client,
                        pre0,
                        *pre_request_callback,
                        post0,
                        *post_request_callback,
                        Result::Err(RetryableClientRespondEndpointUntilDoneError::EndpointRenderRequestFailed(e)),
                        events,
                    ));
                    assert(respond_until_done_outcome::<C, EP, Pre, Post>(
                        *endpoint,
                        *old(client),
                        *client,
                        *old(pre_request_callback),
                        *pre_request_callback,
                        *old(post_request_callback),
                        *post_request_callback,
                        Result::Err(RetryableClientRespondEndpointUntilDoneError::EndpointRenderRequestFailed(e)),
                    ));
                }
                return Err(
                    RetryableClientRespondEndpointUntilDoneError::EndpointRenderRequestFailed(e),
                );
            },
        };
        let ghost rendered = request;
        let ghost client_before_send = *client;
        let sent = pre_request_callback.on_request(request, retry_ref);
        let response = match client.respond(sent) {
            Ok(resp) => resp,
            Err(e) => {
                proof {
                    let client_after_send = *client;
                    let ev = RetryAttemptEvent::SendFailed {
                        request: rendered,
                        client_after_send,
                        transport_error: e,
                    };
                    lemma_retry_run_snoc(
                        *endpoint,
                        retry_run_init::<
                        C,
                        EP::ParseResponseOutput,
                        EP::RetryReason,
                        Pre,
                        Post,
                        EP::RenderRequestError,
                        C::RespondError,
                        EP::ParseResponseError,
                    >(client0, pre0, post0),
                        events,
                        ev,
                    );
                    events = events.push(ev);
                    assert(respond_until_done_witnessed::<C, EP, Pre, Post>(
                        *endpoint,
                        client0,
                        *client,
                        pre0,
                        *pre_request_callback,
                        post0,
                        *post_request_callback,
                        Result::Err(RetryableClientRespondEndpointUntilDoneError::RespondFailed(e)),
                        events,
                    ));
                    assert(respond_until_done_outcome::<C, EP, Pre, Post>(
                        *endpoint,
                        *old(client),
                        *client,
                        *old(pre_request_callback),
                        *pre_request_callback,
                        *old(post_request_callback),
                        *post_request_callback,
                        Result::Err(RetryableClientRespondEndpointUntilDoneError::RespondFailed(e)),
                    ));
                }
                return Err(RetryableClientRespondEndpointUntilDoneError::RespondFailed(e));
            },
        };
        let ghost client_after_send = *client;
        let ghost received = response;
        post_request_callback.on_response(&response, retry_ref);
        let parsed = endpoint.parse_response(response, retry_ref);
        let ghost parsed_g = parsed;
        match parsed {
            Err(e) => {
                proof {
                    let ev = RetryAttemptEvent::Completed {
                        request: rendered,
                        client_after_send,
                        response: received,
                        parsed: parsed_g,
                        client_after_sleep: client_after_send,
                    };
                    lemma_retry_run_snoc(
                        *endpoint,
                        retry_run_init::<
                        C,
                        EP::ParseResponseOutput,
                        EP::RetryReason,
                        Pre,
                        Post,
                        EP::RenderRequestError,
                        C::RespondError,
                        EP::ParseResponseError,
                    >(client0, pre0, post0),
                        events,
                        ev,
                    );
                    events = events.push(ev);
                    assert(respond_until_done_witnessed::<C, EP, Pre, Post>(
                        *endpoint,
                        client0,
                        *client,
                        pre0,
                        *pre_request_callback,
                        post0,
                        *post_request_callback,
                        Result::Err(RetryableClientRespondEndpointUntilDoneError::EndpointParseResponseFailed(e)),
                        events,
                    ));
                    assert(respond_until_done_outcome::<C, EP, Pre, Post>(
                        *endpoint,
                        *old(client),
                        *client,
                        *old(pre_request_callback),
                        *pre_request_callback,
                        *old(post_request_callback),
                        *post_request_callback,
                        Result::Err(RetryableClientRespondEndpointUntilDoneError::EndpointParseResponseFailed(e)),
                    ));
                }
                return Err(
                    RetryableClientRespondEndpointUntilDoneError::EndpointParseResponseFailed(e),
                );
            },
            Ok(Ok(out)) => {
                proof {
                    let ev = RetryAttemptEvent::Completed {
                        request: rendered,
                        client_after_send,
                        response: received,
                        parsed: parsed_g,
                        client_after_sleep: client_after_send,
                    };
                    lemma_retry_run_snoc(
                        *endpoint,
                        retry_run_init::<
                        C,
                        EP::ParseResponseOutput,
                        EP::RetryReason,
                        Pre,
                        Post,
                        EP::RenderRequestError,
                        C::RespondError,
                        EP::ParseResponseError,
                    >(client0, pre0, post0),
                        events,
                        ev,
                    );
                    events = events.push(ev);
                    assert(respond_until_done_witnessed::<C, EP, Pre, Post>(
                        *endpoint,
                        client0,
                        *client,
                        pre0,
                        *pre_request_callback,
                        post0,
                        *post_request_callback,
                        Result::Ok(out),
                        events,
                    ));
                    assert(respond_until_done_outcome::<C, EP, Pre, Post>(
                        *endpoint,
                        *old(client),
                        *client,
                        *old(pre_request_callback),
                        *pre_request_callback,
                        *old(post_request_callback),
                        *post_request_callback,
                        Result::Ok(out),
                    ));
                }
                return Ok(out);
            },
            Ok(Err(reason)) => {
                let count: usize = match &retry {
                    None => 0,
                    Some(rs) => rs.count,
                };
                let next_count = count + 1;
                let rs = RetryableEndpointRetry::new(next_count, reason);
                let millis = endpoint.next_retry_in(&rs);
                retry = Some(rs);
                if next_count >= endpoint.max_retry_count() {
                    proof {
                        let ev = RetryAttemptEvent::Completed {
                            request: rendered,
                            client_after_send,
                            response: received,
                            parsed: parsed_g,
                            client_after_sleep: client_after_send,
                        };
                        lemma_retry_run_snoc(
                            *endpoint,
                            retry_run_init::<
                        C,
                        EP::ParseResponseOutput,
                        EP::RetryReason,
                        Pre,
                        Post,
                        EP::RenderRequestError,
                        C::RespondError,
                        EP::ParseResponseError,
                    >(client0, pre0, post0),
                            events,
                            ev,
                        );
                        events = events.push(ev);
                        assert(respond_until_done_witnessed::<C, EP, Pre, Post>(
                            *endpoint,
                            client0,
                            *client,
                            pre0,
                            *pre_request_callback,
                            post0,
                            *post_request_callback,
                            Result::Err(RetryableClientRespondEndpointUntilDoneError::ReachedMaxRetries),
                            events,
                        ));
                        assert(respond_until_done_outcome::<C, EP, Pre, Post>(
                            *endpoint,
                            *old(client),
                            *client,
                            *old(pre_request_callback),
                            *pre_request_callback,
                            *old(post_request_callback),
                            *post_request_callback,
                            Result::Err(RetryableClientRespondEndpointUntilDoneError::ReachedMaxRetries),
                        ));
                    }
                    return Err(RetryableClientRespondEndpointUntilDoneError::ReachedMaxRetries);
                }
                client.sleep(millis);
                proof {
                    let ev = RetryAttemptEvent::Completed {
                        request: rendered,
                        client_after_send,
                        response: received,
                        parsed: parsed_g,
                        client_after_sleep: *client,
                    };
                    lemma_retry_run_snoc(
                        *endpoint,
                        retry_run_init::<
                        C,
                        EP::ParseResponseOutput,
                        EP::RetryReason,
                        Pre,
                        Post,
                        EP::RenderRequestError,
                        C::RespondError,
                        EP::ParseResponseError,
                    >(client0, pre0, post0),
                        events,
                        ev,
                    );
                    events = events.push(ev);
                }
            },
        }
    }
}

/// [`respond_endpoint_until_done_with_callback`] with the default callbacks.
pub fn respond_endpoint_until_done<C, EP>(client: &mut C, endpoint: &EP) -> (r: Result<
    EP::ParseResponseOutput,
    RetryableClientRespondEndpointUntilDoneError<
        C::RespondError,
        EP::RenderRequestError,
        EP::ParseResponseError,
    >,
>) where C: RetryableClient, EP: RetryableEndpoint
    ensures
        respond_until_done_outcome(
            *endpoint,
            *old(client),
            *final(client),
            IdentityRetryPreRequestCallback,
            IdentityRetryPreRequestCallback,
            NoopRetryPostResponseCallback,
            NoopRetryPostResponseCallback,
            r,
        ),
{
    let mut pre = IdentityRetryPreRequestCallback;
    let mut post = NoopRetryPostResponseCallback;
    respond_endpoint_until_done_with_callback(client, endpoint, &mut pre, &mut post)
}

/// Structural invariant of every reachable loop state: the retry count equals
/// the number of retry states constructed so far; the `i`-th retry state ever
/// constructed carries count `i + 1` (counts start at 1); while the loop is
/// still running it has slept once per retry and is below the retry ceiling;
/// a run that tripped the ceiling slept once per retry except the last; any
/// other ending slept exactly once per retry (never after the final attempt)
/// and happened while the retry budget still stood.
pub open spec fn retry_run_shape<C: Client, EP: RetryableEndpoint, Pre: RetryPreRequestCallback<EP::RetryReason>, Post: RetryPostResponseCallback<EP::RetryReason>>(
    ep: EP,
    s: RetryRun<
        C,
        EP::ParseResponseOutput,
        EP::RetryReason,
        Pre,
        Post,
        EP::RenderRequestError,
        C::RespondError,
        EP::ParseResponseError,
    >,
) -> bool {
    &&& match s.retry {
        None => s.retries.len() == 0,
        Some(rs) => rs.count == s.retries.len(),
    }
    &&& forall|i: int| 0 <= i < s.retries.len() ==> (#[trigger] s.retries[i]).count == i + 1
    &&& match s.outcome {
        None => {
            &&& s.sleeps.len() == s.retries.len()
            &&& (s.retries.len() == 0 || s.retries.len() < ep.max_retry_count_spec())
        },
        Some(r) => match r {
            Result::Err(RetryableClientRespondEndpointUntilDoneError::ReachedMaxRetries) => {
                &&& s.sleeps.len() + 1 == s.retries.len()
                &&& s.retries.len() == if ep.max_retry_count_spec() >= 1 {
                    ep.max_retry_count_spec() as int
                } else {
                    1
                }
            },
            _ => {
                &&& s.sleeps.len() == s.retries.len()
                &&& (s.retries.len() == 0 || s.retries.len() < ep.max_retry_count_spec())
            },
        },
    }
}

proof fn lemma_retry_run_shape_from<C: Client, EP: RetryableEndpoint, Pre: RetryPreRequestCallback<EP::RetryReason>, Post: RetryPostResponseCallback<EP::RetryReason>>(
    ep: EP,
    s: RetryRun<
        C,
        EP::ParseResponseOutput,
        EP::RetryReason,
        Pre,
        Post,
        EP::RenderRequestError,
        C::RespondError,
        EP::ParseResponseError,
    >,
    events: Seq<
        RetryAttemptEvent<
            C,
            EP::ParseResponseOutput,
            EP::RetryReason,
            EP::RenderRequestError,
            C::RespondError,
            EP::ParseResponseError,
        >,
    >,
)
    requires
        retry_run_shape(ep, s),
    ensures
        retry_run_shape(ep, retry_run(ep, s, events)),
    decreases events.len(),
{
    if events.len() > 0 {
        assert(retry_run_shape(ep, retry_step(ep, s, events[0])));
        lemma_retry_run_shape_from(
            ep,
            retry_step(ep, s, events[0]),
            events.subrange(1, events.len() as int),
        );
    }
}

/// Every run of the loop from its starting state satisfies
/// [`retry_run_shape`]: in particular, retry counts start at 1 and go up by
/// one, and the loop never sleeps after its final attempt.
pub proof fn lemma_retry_run_shape<C: Client, EP: RetryableEndpoint, Pre: RetryPreRequestCallback<EP::RetryReason>, Post: RetryPostResponseCallback<EP::RetryReason>>(
    ep: EP,
    client0: C,
    pre0: Pre,
    post0: Post,
    events: Seq<
        RetryAttemptEvent<
            C,
            EP::ParseResponseOutput,
            EP::RetryReason,
            EP::RenderRequestError,
            C::RespondError,
            EP::ParseResponseError,
        >,
    >,
)
    ensures
        retry_run_shape(ep, retry_run(ep, retry_run_init(client0, pre0, post0), events)),
{
    lemma_retry_run_shape_from(
        ep,
        retry_run_init::<
        C,
        EP::ParseResponseOutput,
        EP::RetryReason,
        Pre,
        Post,
        EP::RenderRequestError,
        C::RespondError,
        EP::ParseResponseError,
    >(client0, pre0, post0),
        events,
    );
}

/// A terminal state is reached on the last event and not before: once the
/// loop has ended, a valid run records no further attempt of any kind.
pub proof fn lemma_terminal_event_is_last<C: Client, EP: RetryableEndpoint, Pre: RetryPreRequestCallback<EP::RetryReason>, Post: RetryPostResponseCallback<EP::RetryReason>>(
    ep: EP,
    client0: C,
    pre0: Pre,
    post0: Post,
    events: Seq<
        RetryAttemptEvent<
            C,
            EP::ParseResponseOutput,
            EP::RetryReason,
            EP::RenderRequestError,
            C::RespondError,
            EP::ParseResponseError,
        >,
    >,
)
    requires
        retry_run(ep, retry_run_init(client0, pre0, post0), events).ok,
        retry_run(ep, retry_run_init(client0, pre0, post0), events).outcome is Some,
    ensures
        events.len() >= 1,
        retry_run(
            ep,
            retry_run_init(client0, pre0, post0),
            events.subrange(0, events.len() - 1),
        ).outcome is None,
        retry_run(
            ep,
            retry_run_init(client0, pre0, post0),
            events.subrange(0, events.len() - 1),
        ).ok,
    decreases events.len(),
{
    let init = retry_run_init::<
        C,
        EP::ParseResponseOutput,
        EP::RetryReason,
        Pre,
        Post,
        EP::RenderRequestError,
        C::RespondError,
        EP::ParseResponseError,
    >(client0, pre0, post0);
    assert(events.len() >= 1);
    let prefix = events.subrange(0, events.len() - 1);
    let last = events[events.len() - 1];
    assert(events =~= prefix.push(last));
    lemma_retry_run_snoc(ep, init, prefix, last);
    let before = retry_run(ep, init, prefix);
    if !before.ok {
        assert(!retry_step(ep, before, last).ok);
    } else if before.outcome is Some {
        assert(!retry_step(ep, before, last).ok);
    }
}

/// How many attempts a valid run records: one per retry state, plus one for
/// a terminal attempt that did not come from tripping the ceiling.
pub proof fn lemma_run_attempt_count<C: Client, EP: RetryableEndpoint, Pre: RetryPreRequestCallback<EP::RetryReason>, Post: RetryPostResponseCallback<EP::RetryReason>>(
    ep: EP,
    client0: C,
    pre0: Pre,
    post0: Post,
    events: Seq<
        RetryAttemptEvent<
            C,
            EP::ParseResponseOutput,
            EP::RetryReason,
            EP::RenderRequestError,
            C::RespondError,
            EP::ParseResponseError,
        >,
    >,
)
    ensures
        ({
            let run = retry_run(ep, retry_run_init(client0, pre0, post0), events);
            run.ok ==> events.len() == run.retries.len() + (match run.outcome {
                None => 0int,
                Some(Result::Err(RetryableClientRespondEndpointUntilDoneError::ReachedMaxRetries)) => 0int,
                Some(_) => 1int,
            })
        }),
    decreases events.len(),
{
    let init = retry_run_init::<
        C,
        EP::ParseResponseOutput,
        EP::RetryReason,
        Pre,
        Post,
        EP::RenderRequestError,
        C::RespondError,
        EP::ParseResponseError,
    >(client0, pre0, post0);
    if events.len() > 0 {
        let prefix = events.subrange(0, events.len() - 1);
        let last = events[events.len() - 1];
        assert(events =~= prefix.push(last));
        lemma_retry_run_snoc(ep, init, prefix, last);
        lemma_run_attempt_count(ep, client0, pre0, post0, prefix);
    }
}

/// The loop makes at most `max(max_retry_count, 1)` attempts before it ends,
/// and consults the transport at most once per attempt.
pub proof fn lemma_attempts_bounded<C: Client, EP: RetryableEndpoint, Pre: RetryPreRequestCallback<EP::RetryReason>, Post: RetryPostResponseCallback<EP::RetryReason>>(
    ep: EP,
    client0: C,
    pre0: Pre,
    post0: Post,
    events: Seq<
        RetryAttemptEvent<
            C,
            EP::ParseResponseOutput,
            EP::RetryReason,
            EP::RenderRequestError,
            C::RespondError,
            EP::ParseResponseError,
        >,
    >,
)
    requires
        retry_run(ep, retry_run_init(client0, pre0, post0), events).ok,
        retry_run(ep, retry_run_init(client0, pre0, post0), events).outcome is Some,
    ensures
        events.len() <= if ep.max_retry_count_spec() >= 1 {
            ep.max_retry_count_spec() as int
        } else {
            1
        },
{
    lemma_retry_run_shape(ep, client0, pre0, post0, events);
    lemma_run_attempt_count(ep, client0, pre0, post0, events);
}

proof fn lemma_always_retry_from<C: Client, EP: RetryableEndpoint, Pre: RetryPreRequestCallback<EP::RetryReason>, Post: RetryPostResponseCallback<EP::RetryReason>>(
    ep: EP,
    s: RetryRun<
        C,
        EP::ParseResponseOutput,
        EP::RetryReason,
        Pre,
        Post,
        EP::RenderRequestError,
        C::RespondError,
        EP::ParseResponseError,
    >,
    events: Seq<
        RetryAttemptEvent<
            C,
            EP::ParseResponseOutput,
            EP::RetryReason,
            EP::RenderRequestError,
            C::RespondError,
            EP::ParseResponseError,
        >,
    >,
)
    requires
        forall|resp: Response, rs: Option<RetryableEndpointRetry<EP::RetryReason>>, pr: Result<
            Result<EP::ParseResponseOutput, EP::RetryReason>,
            EP::ParseResponseError,
        >| #[trigger] ep.parse_rel(resp, rs, pr) ==> pr matches Result::Ok(Result::Err(_)),
        s.ok ==> match s.outcome {
            Some(r) => !(r matches Result::Ok(_)) && !(r matches Result::Err(
                RetryableClientRespondEndpointUntilDoneError::EndpointParseResponseFailed(_),
            )),
            None => true,
        },
    ensures
        retry_run(ep, s, events).ok ==> match retry_run(ep, s, events).outcome {
            Some(r) => !(r matches Result::Ok(_)) && !(r matches Result::Err(
                RetryableClientRespondEndpointUntilDoneError::EndpointParseResponseFailed(_),
            )),
            None => true,
        },
    decreases events.len(),
{
    if events.len() > 0 {
        lemma_always_retry_from(
            ep,
            retry_step(ep, s, events[0]),
            events.subrange(1, events.len() as int),
        );
    }
}

proof fn lemma_no_transport_failure_from<C: Client, EP: RetryableEndpoint, Pre: RetryPreRequestCallback<EP::RetryReason>, Post: RetryPostResponseCallback<EP::RetryReason>>(
    ep: EP,
    s: RetryRun<
        C,
        EP::ParseResponseOutput,
        EP::RetryReason,
        Pre,
        Post,
        EP::RenderRequestError,
        C::RespondError,
        EP::ParseResponseError,
    >,
    events: Seq<
        RetryAttemptEvent<
            C,
            EP::ParseResponseOutput,
            EP::RetryReason,
            EP::RenderRequestError,
            C::RespondError,
            EP::ParseResponseError,
        >,
    >,
)
    requires
        forall|c: C, request: Request, next: C, res: Result<Response, C::RespondError>| #[trigger] c.respond_rel(request, next, res) ==> res is Ok,
        forall|rs: Option<RetryableEndpointRetry<EP::RetryReason>>, x: Result<Request, EP::RenderRequestError>| #[trigger] ep.render_rel(rs, x) ==> x is Ok,
        s.ok ==> match s.outcome {
            Some(r) => !(r matches Result::Err(RetryableClientRespondEndpointUntilDoneError::RespondFailed(_)))
                && !(r matches Result::Err(
                RetryableClientRespondEndpointUntilDoneError::EndpointRenderRequestFailed(_),
            )),
            None => true,
        },
    ensures
        retry_run(ep, s, events).ok ==> match retry_run(ep, s, events).outcome {
            Some(r) => !(r matches Result::Err(RetryableClientRespondEndpointUntilDoneError::RespondFailed(_)))
                && !(r matches Result::Err(
                RetryableClientRespondEndpointUntilDoneError::EndpointRenderRequestFailed(_),
            )),
            None => true,
        },
    decreases events.len(),
{
    if events.len() > 0 {
        lemma_no_transport_failure_from(
            ep,
            retry_step(ep, s, events[0]),
            events.subrange(1, events.len() as int),
        );
    }
}

/// Against a transport that can only succeed and an endpoint whose
/// rendering can only succeed, the loop never reports a transport or render
/// failure: if it ends at all, it ends with the output, a parse failure, or
/// retry exhaustion.
pub proof fn lemma_no_transport_failure<C: Client, EP: RetryableEndpoint, Pre: RetryPreRequestCallback<EP::RetryReason>, Post: RetryPostResponseCallback<EP::RetryReason>>(
    ep: EP,
    client0: C,
    pre0: Pre,
    post0: Post,
    events: Seq<
        RetryAttemptEvent<
            C,
            EP::ParseResponseOutput,
            EP::RetryReason,
            EP::RenderRequestError,
            C::RespondError,
            EP::ParseResponseError,
        >,
    >,
)
    requires
        forall|c: C, request: Request, next: C, res: Result<Response, C::RespondError>| #[trigger] c.respond_rel(request, next, res) ==> res is Ok,
        forall|rs: Option<RetryableEndpointRetry<EP::RetryReason>>, x: Result<Request, EP::RenderRequestError>| #[trigger] ep.render_rel(rs, x) ==> x is Ok,
        retry_run(ep, retry_run_init(client0, pre0, post0), events).ok,
    ensures
        match retry_run(ep, retry_run_init(client0, pre0, post0), events).outcome {
            Some(r) => !(r matches Result::Err(
                RetryableClientRespondEndpointUntilDoneError::RespondFailed(_),
            )) && !(r matches Result::Err(
                RetryableClientRespondEndpointUntilDoneError::EndpointRenderRequestFailed(_),
            )),
            None => true,
        },
{
    let init = retry_run_init::<
        C,
        EP::ParseResponseOutput,
        EP::RetryReason,
        Pre,
        Post,
        EP::RenderRequestError,
        C::RespondError,
        EP::ParseResponseError,
    >(client0, pre0, post0);
    lemma_no_transport_failure_from(ep, init, events);
}

/// An endpoint that can only ever signal "retry" can never end the loop with
/// an output or a parse failure: if the loop ends at all, it ends with a
/// render failure, a transport failure, or retry exhaustion; and when it
/// ends with retry exhaustion it has constructed exactly `max_retry_count`
/// retry states and slept exactly `max_retry_count - 1` times.
pub proof fn lemma_always_retry_exhausts<C: Client, EP: RetryableEndpoint, Pre: RetryPreRequestCallback<EP::RetryReason>, Post: RetryPostResponseCallback<EP::RetryReason>>(
    ep: EP,
    client0: C,
    pre0: Pre,
    post0: Post,
    events: Seq<
        RetryAttemptEvent<
            C,
            EP::ParseResponseOutput,
            EP::RetryReason,
            EP::RenderRequestError,
            C::RespondError,
            EP::ParseResponseError,
        >,
    >,
)
    requires
        forall|resp: Response, rs: Option<RetryableEndpointRetry<EP::RetryReason>>, pr: Result<
            Result<EP::ParseResponseOutput, EP::RetryReason>,
            EP::ParseResponseError,
        >| #[trigger] ep.parse_rel(resp, rs, pr) ==> pr matches Result::Ok(Result::Err(_)),
        ep.max_retry_count_spec() >= 1,
        retry_run(ep, retry_run_init(client0, pre0, post0), events).ok,
    ensures
        match retry_run(ep, retry_run_init(client0, pre0, post0), events).outcome {
            Some(r) => !(r matches Result::Ok(_)) && !(r matches Result::Err(
                RetryableClientRespondEndpointUntilDoneError::EndpointParseResponseFailed(_),
            )),
            None => true,
        },
        retry_run(ep, retry_run_init(client0, pre0, post0), events).outcome == Some(
            Result::<
                EP::ParseResponseOutput,
                RetryableClientRespondEndpointUntilDoneError<
                    C::RespondError,
                    EP::RenderRequestError,
                    EP::ParseResponseError,
                >,
            >::Err(RetryableClientRespondEndpointUntilDoneError::ReachedMaxRetries),
        ) ==> {
            let run = retry_run(ep, retry_run_init(client0, pre0, post0), events);
            &&& run.retries.len() == ep.max_retry_count_spec()
            &&& run.sleeps.len() == ep.max_retry_count_spec() - 1
            &&& forall|i: int|
                0 <= i < run.retries.len() ==> (#[trigger] run.retries[i]).count == i + 1
        },
{
    let init = retry_run_init::<
        C,
        EP::ParseResponseOutput,
        EP::RetryReason,
        Pre,
        Post,
        EP::RenderRequestError,
        C::RespondError,
        EP::ParseResponseError,
    >(client0, pre0, post0);
    lemma_always_retry_from(ep, init, events);
    lemma_retry_run_shape(ep, client0, pre0, post0, events);
}

/// Retry exhaustion in full: against a transport that can only succeed and
/// an endpoint whose rendering can only succeed and whose interpretation can
/// only signal "retry", the loop always ends with `ReachedMaxRetries`, after
/// exactly `max_retry_count` failed parse cycles with one sleep after each
/// but the last.
pub proof fn lemma_always_retry_reaches_max<C: Client, EP: RetryableEndpoint, Pre: RetryPreRequestCallback<EP::RetryReason>, Post: RetryPostResponseCallback<EP::RetryReason>>(
    ep: EP,
    client0: C,
    pre0: Pre,
    post0: Post,
    events: Seq<
        RetryAttemptEvent<
            C,
            EP::ParseResponseOutput,
            EP::RetryReason,
            EP::RenderRequestError,
            C::RespondError,
            EP::ParseResponseError,
        >,
    >,
)
    requires
        forall|resp: Response, rs: Option<RetryableEndpointRetry<EP::RetryReason>>, pr: Result<
            Result<EP::ParseResponseOutput, EP::RetryReason>,
            EP::ParseResponseError,
        >| #[trigger] ep.parse_rel(resp, rs, pr) ==> pr matches Result::Ok(Result::Err(_)),
        forall|c: C, request: Request, next: C, res: Result<Response, C::RespondError>| #[trigger] c.respond_rel(request, next, res) ==> res is Ok,
        forall|rs: Option<RetryableEndpointRetry<EP::RetryReason>>, x: Result<Request, EP::RenderRequestError>| #[trigger] ep.render_rel(rs, x) ==> x is Ok,
        ep.max_retry_count_spec() >= 1,
        retry_run(ep, retry_run_init(client0, pre0, post0), events).ok,
        retry_run(ep, retry_run_init(client0, pre0, post0), events).outcome is Some,
    ensures
        ({
            let run = retry_run(ep, retry_run_init(client0, pre0, post0), events);
            &&& run.outcome == Some(
                Result::<
                    EP::ParseResponseOutput,
                    RetryableClientRespondEndpointUntilDoneError<
                        C::RespondError,
                        EP::RenderRequestError,
                        EP::ParseResponseError,
                    >,
                >::Err(RetryableClientRespondEndpointUntilDoneError::ReachedMaxRetries),
            )
            &&& run.retries.len() == ep.max_retry_count_spec()
            &&& run.sleeps.len() == ep.max_retry_count_spec() - 1
            &&& forall|i: int|
                0 <= i < run.retries.len() ==> (#[trigger] run.retries[i]).count == i + 1
        }),
{
    let init = retry_run_init::<
        C,
        EP::ParseResponseOutput,
        EP::RetryReason,
        Pre,
        Post,
        EP::RenderRequestError,
        C::RespondError,
        EP::ParseResponseError,
    >(client0, pre0, post0);
    lemma_always_retry_from(ep, init, events);
    lemma_no_transport_failure_from(ep, init, events);
    lemma_retry_run_shape(ep, client0, pre0, post0, events);
}

/// A transport failure ends the loop at once: the run records no sleep after
/// the failing attempt (one sleep per completed retry and none afterwards),
/// and no further attempt of any kind follows it.
pub proof fn lemma_transport_failure_is_final<C: Client, EP: RetryableEndpoint, Pre: RetryPreRequestCallback<EP::RetryReason>, Post: RetryPostResponseCallback<EP::RetryReason>>(
    ep: EP,
    client0: C,
    pre0: Pre,
    post0: Post,
    events: Seq<
        RetryAttemptEvent<
            C,
            EP::ParseResponseOutput,
            EP::RetryReason,
            EP::RenderRequestError,
            C::RespondError,
            EP::ParseResponseError,
        >,
    >,
)
    requires
        retry_run(ep, retry_run_init(client0, pre0, post0), events).ok,
        retry_run(ep, retry_run_init(client0, pre0, post0), events).outcome matches Some(
            Result::Err(RetryableClientRespondEndpointUntilDoneError::RespondFailed(_)),
        ),
    ensures
        ({
            let run = retry_run(ep, retry_run_init(client0, pre0, post0), events);
            run.sleeps.len() == run.retries.len()
        }),
        events.len() >= 1,
        retry_run(
            ep,
            retry_run_init(client0, pre0, post0),
            events.subrange(0, events.len() - 1),
        ).outcome is None,
{
    lemma_retry_run_shape(ep, client0, pre0, post0, events);
    lemma_terminal_event_is_last(ep, client0, pre0, post0, events);
}

proof fn lemma_first_success_from<C: Client, EP: RetryableEndpoint, Pre: RetryPreRequestCallback<EP::RetryReason>, Post: RetryPostResponseCallback<EP::RetryReason>>(
    ep: EP,
    s: RetryRun<
        C,
        EP::ParseResponseOutput,
        EP::RetryReason,
        Pre,
        Post,
        EP::RenderRequestError,
        C::RespondError,
        EP::ParseResponseError,
    >,
    events: Seq<
        RetryAttemptEvent<
            C,
            EP::ParseResponseOutput,
            EP::RetryReason,
            EP::RenderRequestError,
            C::RespondError,
            EP::ParseResponseError,
        >,
    >,
)
    requires
        forall|resp: Response, pr: Result<
            Result<EP::ParseResponseOutput, EP::RetryReason>,
            EP::ParseResponseError,
        >| #[trigger] ep.parse_rel(resp, None, pr) ==> pr matches Result::Ok(Result::Ok(_)),
        s.ok ==> {
            &&& s.retry is None
            &&& s.retries.len() == 0
            &&& s.sleeps.len() == 0
            &&& match s.outcome {
                Some(r) => !(r matches Result::Err(
                    RetryableClientRespondEndpointUntilDoneError::ReachedMaxRetries,
                )) && !(r matches Result::Err(
                    RetryableClientRespondEndpointUntilDoneError::EndpointParseResponseFailed(_),
                )),
                None => true,
            }
        },
    ensures
        retry_run(ep, s, events).ok ==> {
            let run = retry_run(ep, s, events);
            &&& run.retries.len() == 0
            &&& run.sleeps.len() == 0
            &&& match run.outcome {
                Some(r) => !(r matches Result::Err(
                    RetryableClientRespondEndpointUntilDoneError::ReachedMaxRetries,
                )) && !(r matches Result::Err(
                    RetryableClientRespondEndpointUntilDoneError::EndpointParseResponseFailed(_),
                )),
                None => true,
            }
        },
    decreases events.len(),
{
    if events.len() > 0 {
        lemma_first_success_from(
            ep,
            retry_step(ep, s, events[0]),
            events.subrange(1, events.len() as int),
        );
    }
}

/// An endpoint whose first-attempt interpretation can only succeed never has
/// a retry state constructed for it and is never slept for: whatever the
/// transport does, the loop ends on the first attempt, with the output or
/// with a render or transport failure.
pub proof fn lemma_first_attempt_success_never_retries<C: Client, EP: RetryableEndpoint, Pre: RetryPreRequestCallback<EP::RetryReason>, Post: RetryPostResponseCallback<EP::RetryReason>>(
    ep: EP,
    client0: C,
    pre0: Pre,
    post0: Post,
    events: Seq<
        RetryAttemptEvent<
            C,
            EP::ParseResponseOutput,
            EP::RetryReason,
            EP::RenderRequestError,
            C::RespondError,
            EP::ParseResponseError,
        >,
    >,
)
    requires
        forall|resp: Response, pr: Result<
            Result<EP::ParseResponseOutput, EP::RetryReason>,
            EP::ParseResponseError,
        >| #[trigger] ep.parse_rel(resp, None, pr) ==> pr matches Result::Ok(Result::Ok(_)),
        retry_run(ep, retry_run_init(client0, pre0, post0), events).ok,
    ensures
        ({
            let run = retry_run(ep, retry_run_init(client0, pre0, post0), events);
            &&& run.retries.len() == 0
            &&& run.sleeps.len() == 0
            &&& match run.outcome {
                Some(r) => !(r matches Result::Err(
                    RetryableClientRespondEndpointUntilDoneError::ReachedMaxRetries,
                )) && !(r matches Result::Err(
                    RetryableClientRespondEndpointUntilDoneError::EndpointParseResponseFailed(_),
                )),
                None => true,
            }
        }),
{
    let init = retry_run_init::<
        C,
        EP::ParseResponseOutput,
        EP::RetryReason,
        Pre,
        Post,
        EP::RenderRequestError,
        C::RespondError,
        EP::ParseResponseError,
    >(client0, pre0, post0);
    lemma_first_success_from(ep, init, events);
}

/// Retry exhaustion, seen at the driver's boundary: against a transport that
/// can only succeed and an endpoint whose rendering can only succeed and
/// whose interpretation can only signal "retry", the driver returns
/// `ReachedMaxRetries` and the client slept exactly `max_retry_count - 1`
/// times over the call.
pub proof fn lemma_always_retry_sleep_count<C: Client, EP: RetryableEndpoint, Pre: RetryPreRequestCallback<EP::RetryReason>, Post: RetryPostResponseCallback<EP::RetryReason>>(
    ep: EP,
    client0: C,
    client1: C,
    pre0: Pre,
    pre1: Pre,
    post0: Post,
    post1: Post,
    r: Result<
        EP::ParseResponseOutput,
        RetryableClientRespondEndpointUntilDoneError<
            C::RespondError,
            EP::RenderRequestError,
            EP::ParseResponseError,
        >,
    >,
)
    requires
        respond_until_done_outcome(ep, client0, client1, pre0, pre1, post0, post1, r),
        forall|resp: Response, rs: Option<RetryableEndpointRetry<EP::RetryReason>>, pr: Result<
            Result<EP::ParseResponseOutput, EP::RetryReason>,
            EP::ParseResponseError,
        >| #[trigger] ep.parse_rel(resp, rs, pr) ==> pr matches Result::Ok(Result::Err(_)),
        forall|c: C, request: Request, next: C, res: Result<Response, C::RespondError>| #[trigger] c.respond_rel(request, next, res) ==> res is Ok,
        forall|rs: Option<RetryableEndpointRetry<EP::RetryReason>>, x: Result<Request, EP::RenderRequestError>| #[trigger] ep.render_rel(rs, x) ==> x is Ok,
        ep.max_retry_count_spec() >= 1,
    ensures
        r == Result::<
            EP::ParseResponseOutput,
            RetryableClientRespondEndpointUntilDoneError<
                C::RespondError,
                EP::RenderRequestError,
                EP::ParseResponseError,
            >,
        >::Err(RetryableClientRespondEndpointUntilDoneError::ReachedMaxRetries),
        client1.sleep_log().len() == client0.sleep_log().len() + ep.max_retry_count_spec() - 1,
{
    let events = choose|
        events: Seq<
            RetryAttemptEvent<
                C,
                EP::ParseResponseOutput,
                EP::RetryReason,
                EP::RenderRequestError,
                C::RespondError,
                EP::ParseResponseError,
            >,
        >,
    | respond_until_done_witnessed(ep, client0, client1, pre0, pre1, post0, post1, r, events);
    assert(respond_until_done_witnessed(ep, client0, client1, pre0, pre1, post0, post1, r, events));
    lemma_always_retry_reaches_max::<C, EP, Pre, Post>(ep, client0, pre0, post0, events);
}

/// First-attempt success, seen at the driver's boundary: when an endpoint's
/// first interpretation can only succeed, the client never sleeps over the
/// call, whatever the transport did, and neither retry exhaustion nor a
/// parse failure can come back.
pub proof fn lemma_first_attempt_success_never_sleeps<C: Client, EP: RetryableEndpoint, Pre: RetryPreRequestCallback<EP::RetryReason>, Post: RetryPostResponseCallback<EP::RetryReason>>(
    ep: EP,
    client0: C,
    client1: C,
    pre0: Pre,
    pre1: Pre,
    post0: Post,
    post1: Post,
    r: Result<
        EP::ParseResponseOutput,
        RetryableClientRespondEndpointUntilDoneError<
            C::RespondError,
            EP::RenderRequestError,
            EP::ParseResponseError,
        >,
    >,
)
    requires
        respond_until_done_outcome(ep, client0, client1, pre0, pre1, post0, post1, r),
        forall|resp: Response, pr: Result<
            Result<EP::ParseResponseOutput, EP::RetryReason>,
            EP::ParseResponseError,
        >| #[trigger] ep.parse_rel(resp, None, pr) ==> pr matches Result::Ok(Result::Ok(_)),
    ensures
        client1.sleep_log() == client0.sleep_log(),
        !(r matches Result::Err(RetryableClientRespondEndpointUntilDoneError::ReachedMaxRetries)),
        !(r matches Result::Err(
            RetryableClientRespondEndpointUntilDoneError::EndpointParseResponseFailed(_),
        )),
{
    let events = choose|
        events: Seq<
            RetryAttemptEvent<
                C,
                EP::ParseResponseOutput,
                EP::RetryReason,
                EP::RenderRequestError,
                C::RespondError,
                EP::ParseResponseError,
            >,
        >,
    | respond_until_done_witnessed(ep, client0, client1, pre0, pre1, post0, post1, r, events);
    assert(respond_until_done_witnessed(ep, client0, client1, pre0, pre1, post0, post1, r, events));
    lemma_first_attempt_success_never_retries::<C, EP, Pre, Post>(ep, client0, pre0, post0, events);
    let run = retry_run(
        ep,
        retry_run_init::<
            C,
            EP::ParseResponseOutput,
            EP::RetryReason,
            Pre,
            Post,
            EP::RenderRequestError,
            C::RespondError,
            EP::ParseResponseError,
        >(client0, pre0, post0),
        events,
    );
    assert(run.sleeps =~= Seq::<u64>::empty());
    assert(client1.sleep_log() =~= client0.sleep_log());
}

/// First-attempt success in full: when the transport and the rendering can
/// only succeed as well, the driver returns the endpoint's output.
pub proof fn lemma_first_attempt_success_returns_output<C: Client, EP: RetryableEndpoint, Pre: RetryPreRequestCallback<EP::RetryReason>, Post: RetryPostResponseCallback<EP::RetryReason>>(
    ep: EP,
    client0: C,
    client1: C,
    pre0: Pre,
    pre1: Pre,
    post0: Post,
    post1: Post,
    r: Result<
        EP::ParseResponseOutput,
        RetryableClientRespondEndpointUntilDoneError<
            C::RespondError,
            EP::RenderRequestError,
            EP::ParseResponseError,
        >,
    >,
)
    requires
        respond_until_done_outcome(ep, client0, client1, pre0, pre1, post0, post1, r),
        forall|resp: Response, pr: Result<
            Result<EP::ParseResponseOutput, EP::RetryReason>,
            EP::ParseResponseError,
        >| #[trigger] ep.parse_rel(resp, None, pr) ==> pr matches Result::Ok(Result::Ok(_)),
        forall|c: C, request: Request, next: C, res: Result<Response, C::RespondError>| #[trigger] c.respond_rel(request, next, res) ==> res is Ok,
        forall|rs: Option<RetryableEndpointRetry<EP::RetryReason>>, x: Result<Request, EP::RenderRequestError>| #[trigger] ep.render_rel(rs, x) ==> x is Ok,
    ensures
        r matches Result::Ok(_),
        client1.sleep_log() == client0.sleep_log(),
{
    let events = choose|
        events: Seq<
            RetryAttemptEvent<
                C,
                EP::ParseResponseOutput,
                EP::RetryReason,
                EP::RenderRequestError,
                C::RespondError,
                EP::ParseResponseError,
            >,
        >,
    | respond_until_done_witnessed(ep, client0, client1, pre0, pre1, post0, post1, r, events);
    assert(respond_until_done_witnessed(ep, client0, client1, pre0, pre1, post0, post1, r, events));
    lemma_first_attempt_success_never_retries::<C, EP, Pre, Post>(ep, client0, pre0, post0, events);
    let init = retry_run_init::<
        C,
        EP::ParseResponseOutput,
        EP::RetryReason,
        Pre,
        Post,
        EP::RenderRequestError,
        C::RespondError,
        EP::ParseResponseError,
    >(client0, pre0, post0);
    lemma_no_transport_failure_from(ep, init, events);
    let run = retry_run(ep, init, events);
    assert(run.sleeps =~= Seq::<u64>::empty());
    assert(client1.sleep_log() =~= client0.sleep_log());
}

} // verus!
