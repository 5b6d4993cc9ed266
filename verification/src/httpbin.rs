use vstd::prelude::*;
use vstd::string::StrSliceExecFns;

use crate::endpoint::{
    default_next_retry_in_millis, Endpoint, RetryableEndpoint, RetryableEndpointRetry,
};
use crate::json::{
    json_from_slice, json_str_field, json_str_map_field, json_doc, json_parses, lookup_str,
    lookup_str_map, pairs_match_map,
};
use crate::message::{Request, Response};

verus! {

/// How interpreting an httpbin response body can fail: the body is not JSON
/// at all, or it is JSON without the expected shape.
#[derive(Debug, Clone, Copy, PartialEq, Eq, Structural)]
pub enum ParseBodyError {
    InvalidJson,
    UnexpectedBody,
}

/// Whether a character counts as alphabetic, exactly as
/// `char::is_alphabetic` decides it.
pub uninterp spec fn alphabetic_of(c: char) -> bool;

/// Relies on `char::is_alphabetic`: a pure Unicode property, a function of
/// the character alone.
#[verifier::external_body]
fn char_is_alphabetic(c: char) -> (r: bool)
    ensures
        r == alphabetic_of(c),
{
    c.is_alphabetic()
}

/// Asks httpbin for the caller's IP address.
pub struct IpEndpoint;

/// The body of an httpbin IP response: `{"origin": "..."}`.
#[derive(Debug)]
pub struct IpEndpointResponseBodyJson {
    pub origin: String,
}

impl Endpoint for IpEndpoint {
    type RenderRequestError = ();

    type ParseResponseOutput = IpEndpointResponseBodyJson;

    type ParseResponseError = ParseBodyError;

    open spec fn render_rel(&self, r: Result<Request, ()>) -> bool {
        &&& r matches Ok(req)
        &&& req.method@ == "GET"@
        &&& req.uri@ == "https://httpbin.org/ip"@
        &&& req.headers@ == Seq::<(String, String)>::empty()
        &&& req.body@ == Seq::<u8>::empty()
    }

    open spec fn parse_rel(
        &self,
        response: Response,
        r: Result<IpEndpointResponseBodyJson, ParseBodyError>,
    ) -> bool {
        if !json_parses(response.body@) {
            r == Result::<IpEndpointResponseBodyJson, ParseBodyError>::Err(
                ParseBodyError::InvalidJson,
            )
        } else {
            match lookup_str(json_doc(response.body@), "origin"@) {
                Some(s) => r matches Ok(out) && out.origin@ == s,
                None => r == Result::<IpEndpointResponseBodyJson, ParseBodyError>::Err(
                    ParseBodyError::UnexpectedBody,
                ),
            }
        }
    }

    fn render_request(&self) -> (r: Result<Request, ()>) {
        Ok(Request::get(String::from_str("https://httpbin.org/ip")))
    }

    fn parse_response(&self, response: Response) -> (r: Result<
        IpEndpointResponseBodyJson,
        ParseBodyError,
    >) {
        let v = match json_from_slice(&response.body) {
            Ok(v) => v,
            Err(_) => {
                return Err(ParseBodyError::InvalidJson);
            },
        };
        match json_str_field(&v, "origin") {
            Some(origin) => Ok(IpEndpointResponseBodyJson { origin }),
            None => Err(ParseBodyError::UnexpectedBody),
        }
    }
}

/// Asks httpbin to echo the request headers back.
pub struct HeadersEndpoint;

/// The body of an httpbin headers response: `{"headers": {...}}`, all
/// members strings.
#[derive(Debug)]
pub struct HeadersEndpointResponseBodyJson {
    pub headers: Vec<(String, String)>,
}

impl Endpoint for HeadersEndpoint {
    type RenderRequestError = ();

    type ParseResponseOutput = HeadersEndpointResponseBodyJson;

    type ParseResponseError = ParseBodyError;

    open spec fn render_rel(&self, r: Result<Request, ()>) -> bool {
        &&& r matches Ok(req)
        &&& req.method@ == "GET"@
        &&& req.uri@ == "https://httpbin.org/headers"@
        &&& req.headers@ == Seq::<(String, String)>::empty()
        &&& req.body@ == Seq::<u8>::empty()
    }

    open spec fn parse_rel(
        &self,
        response: Response,
        r: Result<HeadersEndpointResponseBodyJson, ParseBodyError>,
    ) -> bool {
        if !json_parses(response.body@) {
            r == Result::<HeadersEndpointResponseBodyJson, ParseBodyError>::Err(
                ParseBodyError::InvalidJson,
            )
        } else {
            match lookup_str_map(json_doc(response.body@), "headers"@) {
                Some(m) => r matches Ok(out) && pairs_match_map(out.headers@, m),
                None => r == Result::<HeadersEndpointResponseBodyJson, ParseBodyError>::Err(
                    ParseBodyError::UnexpectedBody,
                ),
            }
        }
    }

    fn render_request(&self) -> (r: Result<Request, ()>) {
        Ok(Request::get(String::from_str("https://httpbin.org/headers")))
    }

    fn parse_response(&self, response: Response) -> (r: Result<
        HeadersEndpointResponseBodyJson,
        ParseBodyError,
    >) {
        let v = match json_from_slice(&response.body) {
            Ok(v) => v,
            Err(_) => {
                return Err(ParseBodyError::InvalidJson);
            },
        };
        match json_str_map_field(&v, "headers") {
            Some(headers) => Ok(HeadersEndpointResponseBodyJson { headers }),
            None => Err(ParseBodyError::UnexpectedBody),
        }
    }
}

/// Asks httpbin to set a cookie; the response body is not interpreted.
pub struct CookiesSetEndpoint;

impl Endpoint for CookiesSetEndpoint {
    type RenderRequestError = ();

    type ParseResponseOutput = ();

    type ParseResponseError = ParseBodyError;

    open spec fn render_rel(&self, r: Result<Request, ()>) -> bool {
        &&& r matches Ok(req)
        &&& req.method@ == "GET"@
        &&& req.uri@ == "https://httpbin.org/cookies/set?foo=bar"@
        &&& req.headers@ == Seq::<(String, String)>::empty()
        &&& req.body@ == Seq::<u8>::empty()
    }

    open spec fn parse_rel(&self, response: Response, r: Result<(), ParseBodyError>) -> bool {
        r == Result::<(), ParseBodyError>::Ok(())
    }

    fn render_request(&self) -> (r: Result<Request, ()>) {
        Ok(Request::get(String::from_str("https://httpbin.org/cookies/set?foo=bar")))
    }

    fn parse_response(&self, response: Response) -> (r: Result<(), ParseBodyError>) {
        Ok(())
    }
}

/// Asks httpbin for a fresh UUID, and accepts it only when it starts with an
/// alphabetic character; a uuid starting with anything else - the empty
/// uuid, which has no first character, included - is signalled as a reason
/// to try again, so interpreting a well-formed body never fails and never
/// panics.
pub struct UuidEndpoint;

/// The body of an httpbin UUID response: `{"uuid": "..."}`.
#[derive(Debug)]
pub struct UuidEndpointResponseBodyJson {
    pub uuid: String,
}

impl RetryableEndpoint for UuidEndpoint {
    type RetryReason = String;

    type RenderRequestError = ();

    type ParseResponseOutput = UuidEndpointResponseBodyJson;

    type ParseResponseError = ParseBodyError;

    open spec fn render_rel(
        &self,
        retry: Option<RetryableEndpointRetry<String>>,
        r: Result<Request, ()>,
    ) -> bool {
        &&& r matches Ok(req)
        &&& req.method@ == "GET"@
        &&& req.uri@ == "https://httpbin.org/uuid"@
        &&& req.headers@ == Seq::<(String, String)>::empty()
        &&& req.body@ == Seq::<u8>::empty()
    }

    open spec fn parse_rel(
        &self,
        response: Response,
        retry: Option<RetryableEndpointRetry<String>>,
        r: Result<Result<UuidEndpointResponseBodyJson, String>, ParseBodyError>,
    ) -> bool {
        if !json_parses(response.body@) {
            r == Result::<Result<UuidEndpointResponseBodyJson, String>, ParseBodyError>::Err(
                ParseBodyError::InvalidJson,
            )
        } else {
            match lookup_str(json_doc(response.body@), "uuid"@) {
                Some(u) => {
                    if u.len() > 0 && alphabetic_of(u[0]) {
                        r matches Ok(Ok(out)) && out.uuid@ == u
                    } else {
                        r matches Ok(Err(reason)) && reason@ == u
                    }
                },
                None => r == Result::<
                    Result<UuidEndpointResponseBodyJson, String>,
                    ParseBodyError,
                >::Err(ParseBodyError::UnexpectedBody),
            }
        }
    }

    open spec fn max_retry_count_spec(&self) -> usize {
        5
    }

    fn render_request(&self, retry: Option<&RetryableEndpointRetry<String>>) -> (r: Result<
        Request,
        (),
    >) {
        Ok(Request::get(String::from_str("https://httpbin.org/uuid")))
    }

    fn parse_response(
        &self,
        response: Response,
        retry: Option<&RetryableEndpointRetry<String>>,
    ) -> (r: Result<Result<UuidEndpointResponseBodyJson, String>, ParseBodyError>) {
        let v = match json_from_slice(&response.body) {
            Ok(v) => v,
            Err(_) => {
                return Err(ParseBodyError::InvalidJson);
            },
        };
        let uuid = match json_str_field(&v, "uuid") {
            Some(uuid) => uuid,
            None => {
                return Err(ParseBodyError::UnexpectedBody);
            },
        };
        let s = uuid.as_str();
        if s.unicode_len() > 0 {
            let c = s.get_char(0);
            if char_is_alphabetic(c) {
                return Ok(Ok(UuidEndpointResponseBodyJson { uuid }));
            }
        }
        Ok(Err(uuid))
    }

    fn max_retry_count(&self) -> (r: usize) {
        5
    }

    fn next_retry_in(&self, retry: &RetryableEndpointRetry<String>) -> (r: u64) {
        default_next_retry_in_millis(retry.count)
    }
}

} // verus!
