//! Blocking reqwest resolver.
use vstd::prelude::*;

verus! {

use crate::HrefStringResolver;
use crate::utils::{FetchedResponse, ImageKind, spec_classify, spec_is_remote, spec_opt_string_view, str_starts_with};

#[verifier::external_type_specification]
#[verifier::external_body]
pub struct ExBlockingClient(reqwest::blocking::Client);

#[verifier::external_type_specification]
#[verifier::external_body]
pub struct ExBlockingResponse(reqwest::blocking::Response);

/// Relies on reqwest::blocking::Client being a shared handle: cloning it
/// hands out another handle to the same connection pool.
pub assume_specification[ <reqwest::blocking::Client as Clone>::clone ](
    c: &reqwest::blocking::Client,
) -> reqwest::blocking::Client;

/// Relies on reqwest::blocking::Client::get and RequestBuilder::send:
/// issues an HTTP GET for the href, failing on transport errors.
#[verifier::external_body]
fn send_get(client: &reqwest::blocking::Client, href: &str) -> Option<reqwest::blocking::Response> {
    client.get(href).send().ok()
}

/// Relies on reqwest::blocking::Response::status and StatusCode::as_u16:
/// the response's HTTP status code as a number.
#[verifier::external_body]
fn response_status(resp: &reqwest::blocking::Response) -> u16 {
    resp.status().as_u16()
}

/// Relies on reqwest::blocking::Response::headers, HeaderMap::get and
/// HeaderValue::to_str: the Content-Type header value, when it is present
/// and readable as a string.
#[verifier::external_body]
fn response_content_type(resp: &reqwest::blocking::Response) -> Option<String> {
    let v = resp.headers().get(reqwest::header::CONTENT_TYPE)?;
    Some(v.to_str().ok()?.to_string())
}

/// Relies on reqwest::blocking::Response::bytes: reads the full response
/// body into owned bytes, failing on read errors.
#[verifier::external_body]
fn response_bytes(resp: reqwest::blocking::Response) -> Option<Vec<u8>> {
    Some(resp.bytes().ok()?.to_vec())
}

/// Blocking reqwest resolver.
///
/// This resolver uses `reqwest::blocking::Client` to fetch images. It cannot
/// be used inside an async context; there, use the resolver driven through
/// the async client instead.
#[derive(Debug, Default, Clone)]
pub struct BlockingReqwestResolver {
    client: reqwest::blocking::Client,
}

impl From<reqwest::blocking::Client> for BlockingReqwestResolver {
    fn from(client: reqwest::blocking::Client) -> Self {
        BlockingReqwestResolver { client }
    }
}

impl vstd::std_specs::convert::FromSpecImpl<reqwest::blocking::Client> for BlockingReqwestResolver {
    open spec fn obeys_from_spec() -> bool {
        true
    }

    closed spec fn from_spec(client: reqwest::blocking::Client) -> Self {
        BlockingReqwestResolver { client }
    }
}

impl HrefStringResolver for BlockingReqwestResolver {
    /// Claims exactly the hrefs that literally start with `http://` or
    /// `https://`.
    open spec fn spec_claims(&self, href: Seq<char>) -> bool {
        spec_is_remote(href)
    }

    /// A successful resolution classified some fetched response: its kind is
    /// what the classifier returns for that response's content type together
    /// with this href.
    open spec fn spec_may_resolve_to(&self, href: Seq<char>, r: Option<ImageKind>) -> bool {
        match r {
            None => true,
            Some(k) => exists|ct: Option<Seq<char>>| spec_classify(ct, href) == Some(k.tag()),
        }
    }

    fn is_target(&self, href: &str) -> bool {
        str_starts_with(href, "https://") || str_starts_with(href, "http://")
    }

    fn get_image_kind(&self, href: &str, options: &usvg::Options) -> Option<ImageKind> {
        let resp = match send_get(&self.client, href) {
            Some(resp) => resp,
            None => { return None },
        };
        let status = response_status(&resp);
        let content_type = response_content_type(&resp);
        let body = match response_bytes(resp) {
            Some(b) => b,
            None => { return None },
        };
        let fetched = FetchedResponse { status, content_type, body };
        let ghost gct = spec_opt_string_view(fetched.content_type);
        let r = crate::utils::resolve_fetched(fetched, href, options);
        proof {
            match &r {
                Some(k) => {
                    assert(spec_classify(gct, href@) == Some(k.tag()));
                },
                None => {},
            }
        }
        r
    }
}

} // verus!
