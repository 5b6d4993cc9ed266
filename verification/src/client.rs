use vstd::prelude::*;

use crate::callback::{
    IdentityPreRequestCallback, NoopPostResponseCallback, PostResponseCallback,
    PreRequestCallback,
};
use crate::endpoint::Endpoint;
use crate::message::{Request, Response};

verus! {

/// How one single-shot driver call can fail: each stage of the round trip is
/// attributed its own tagged cause.
#[derive(Debug)]
pub enum ClientRespondEndpointError<RE, EPRRE, EPPRE> {
    RespondFailed(RE),
    EndpointRenderRequestFailed(EPRRE),
    EndpointParseResponseFailed(EPPRE),
}

/// A transport: something that can send one fully-formed request and hand
/// back a fully-formed response, or a transport error. This is the sole I/O
/// boundary of the library; everything around it is pure.
pub trait Client where Self: Sized {
    type RespondError;

    /// Ghost log of the backoff sleeps this client has performed so far, in
    /// milliseconds, oldest first. `respond` never sleeps; only the retry
    /// driver does, through [`crate::retry::RetryableClient::sleep`]. A
    /// transport that never records sleeps can leave the default, but then it
    /// cannot implement `RetryableClient`'s `sleep` contract.
    open spec fn sleep_log(&self) -> Seq<u64> {
        Seq::empty()
    }

    /// Which (next state, result) pairs one `respond` call may produce for
    /// `request`. A real network transport leaves this wide open, as the
    /// default does; a test transport can pin its answers down exactly.
    open spec fn respond_rel(
        &self,
        request: Request,
        next: Self,
        r: Result<Response, Self::RespondError>,
    ) -> bool {
        true
    }

    /// One request/response exchange over the transport.
    fn respond(&mut self, request: Request) -> (r: Result<Response, Self::RespondError>)
        ensures
            old(self).respond_rel(request, *final(self), r),
            final(self).sleep_log() == old(self).sleep_log(),
    ;
}

/// Everything the single-shot driver promises, for a call that took the
/// client from `client0` to `client1` and the callbacks from `pre0` and
/// `post0` to `pre1` and `post1` and returned `r`:
///
/// - a render failure is returned as `EndpointRenderRequestFailed` before
///   anything else happens: neither callback runs and the transport is not
///   touched;
/// - otherwise the rendered request is put through the pre-request callback
///   exactly once, and its output is what the transport is given;
/// - a transport failure is returned as `RespondFailed` and the response
///   callback does not run;
/// - a received response is put through the post-response callback exactly
///   once and then parsed: a parse failure is returned as
///   `EndpointParseResponseFailed`, a parsed output is returned as `Ok`.
pub open spec fn respond_endpoint_outcome<C: Client, EP: Endpoint, Pre: PreRequestCallback, Post: PostResponseCallback>(
    client0: C,
    client1: C,
    endpoint: EP,
    pre0: Pre,
    pre1: Pre,
    post0: Post,
    post1: Post,
    r: Result<
        EP::ParseResponseOutput,
        ClientRespondEndpointError<C::RespondError, EP::RenderRequestError, EP::ParseResponseError>,
    >,
) -> bool {
    match r {
        Result::Err(ClientRespondEndpointError::EndpointRenderRequestFailed(e)) => {
            &&& endpoint.render_rel(Result::Err(e))
            &&& pre1 == pre0
            &&& post1 == post0
            &&& client1 == client0
        },
        Result::Err(ClientRespondEndpointError::RespondFailed(e)) => exists|req: Request|
            {
                &&& #[trigger] endpoint.render_rel(Result::Ok(req))
                &&& pre1 == pre0.on_request_state(req)
                &&& client0.respond_rel(pre0.on_request_output(req), client1, Result::Err(e))
                &&& post1 == post0
            },
        Result::Err(ClientRespondEndpointError::EndpointParseResponseFailed(e)) => exists|
            req: Request,
            resp: Response,
        |
            #![trigger endpoint.render_rel(Result::Ok(req)), endpoint.parse_rel(resp, Result::Err(e))]
            {
                &&& endpoint.render_rel(Result::Ok(req))
                &&& pre1 == pre0.on_request_state(req)
                &&& client0.respond_rel(pre0.on_request_output(req), client1, Result::Ok(resp))
                &&& post1 == post0.on_response_state(resp)
                &&& endpoint.parse_rel(resp, Result::Err(e))
            },
        Result::Ok(out) => exists|req: Request, resp: Response|
            #![trigger endpoint.render_rel(Result::Ok(req)), endpoint.parse_rel(resp, Result::Ok(out))]
            {
                &&& endpoint.render_rel(Result::Ok(req))
                &&& pre1 == pre0.on_request_state(req)
                &&& client0.respond_rel(pre0.on_request_output(req), client1, Result::Ok(resp))
                &&& post1 == post0.on_response_state(resp)
                &&& endpoint.parse_rel(resp, Result::Ok(out))
            },
    }
}

/// Drives `endpoint` through exactly one round trip over `client`, threading
/// the two callbacks around the transport call: render, pre-request callback,
/// send, post-response callback, parse. No retries and no sleeping; see
/// [`respond_endpoint_outcome`] for the full statement of each result.
pub fn respond_endpoint_with_callback<C, EP, Pre, Post>(
    client: &mut C,
    endpoint: &EP,
    pre_request_callback: &mut Pre,
    post_request_callback: &mut Post,
) -> (r: Result<
    EP::ParseResponseOutput,
    ClientRespondEndpointError<C::RespondError, EP::RenderRequestError, EP::ParseResponseError>,
>) where C: Client, EP: Endpoint, Pre: PreRequestCallback, Post: PostResponseCallback
    ensures
        respond_endpoint_outcome(
            *old(client),
            *final(client),
            *endpoint,
            *old(pre_request_callback),
            *final(pre_request_callback),
            *old(post_request_callback),
            *final(post_request_callback),
            r,
        ),
        final(client).sleep_log() == old(client).sleep_log(),
{
    let request = match endpoint.render_request() {
        Ok(req) => req,
        Err(e) => {
            return Err(ClientRespondEndpointError::EndpointRenderRequestFailed(e));
        },
    };
    let ghost rendered = request;
    let request = pre_request_callback.on_request(request);
    let response = match client.respond(request) {
        Ok(resp) => resp,
        Err(e) => {
            return Err(ClientRespondEndpointError::RespondFailed(e));
        },
    };
    let ghost received = response;
    post_request_callback.on_response(&response);
    let r = match endpoint.parse_response(response) {
        Ok(out) => Ok(out),
        Err(e) => Err(ClientRespondEndpointError::EndpointParseResponseFailed(e)),
    };
    let ghost returned = r;
    proof {
        assert(endpoint.render_rel(Result::Ok(rendered)));
        match returned {
            Result::Ok(out) => {
                assert(endpoint.parse_rel(received, Result::Ok(out)));
            },
            Result::Err(ClientRespondEndpointError::EndpointParseResponseFailed(e)) => {
                assert(endpoint.parse_rel(received, Result::Err(e)));
            },
            _ => {},
        }
    }
    r
}

/// [`respond_endpoint_with_callback`] with the default callbacks: the request
/// goes out exactly as rendered and the response is not observed.
pub fn respond_endpoint<C, EP>(client: &mut C, endpoint: &EP) -> (r: Result<
    EP::ParseResponseOutput,
    ClientRespondEndpointError<C::RespondError, EP::RenderRequestError, EP::ParseResponseError>,
>) where C: Client, EP: Endpoint
    ensures
        respond_endpoint_outcome(
            *old(client),
            *final(client),
            *endpoint,
            IdentityPreRequestCallback,
            IdentityPreRequestCallback,
            NoopPostResponseCallback,
            NoopPostResponseCallback,
            r,
        ),
        final(client).sleep_log() == old(client).sleep_log(),
{
    let mut pre = IdentityPreRequestCallback;
    let mut post = NoopPostResponseCallback;
    respond_endpoint_with_callback(client, endpoint, &mut pre, &mut post)
}

} // verus!
