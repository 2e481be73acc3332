//! Resolver driven through reqwest's async client.
use vstd::prelude::*;

verus! {

use crate::HrefStringResolver;
use crate::utils::{FetchedResponse, ImageKind, spec_classify, spec_is_remote, spec_opt_string_view, str_starts_with};
use futures_util::TryFutureExt;

#[verifier::external_type_specification]
#[verifier::external_body]
pub struct ExClient(reqwest::Client);

/// Relies on reqwest::Client being a shared handle: cloning it hands out
/// another handle to the same connection pool.
pub assume_specification[ <reqwest::Client as Clone>::clone ](
    c: &reqwest::Client,
) -> reqwest::Client;

/// Relies on reqwest::Client::get/send/bytes driven through tokio: runs the
/// GET to completion on the ambient multi-thread runtime, blocking the
/// calling thread until status, Content-Type header and body arrive; fails
/// on transport errors. As documented for tokio's block_in_place, it panics
/// on a current-thread runtime, where blocking the only thread would
/// deadlock.
#[verifier::external_body]
fn fetch_on_runtime(client: &reqwest::Client, href: &str) -> Option<FetchedResponse> {
    let fut = client.get(href).send().and_then(|resp| {
        let status = resp.status().as_u16();
        let content_type =
            resp.headers().get(reqwest::header::CONTENT_TYPE).and_then(|v| v.to_str().ok()).map(
                |s| s.to_string(),
            );
        resp.bytes().map_ok(move |b| FetchedResponse { status, content_type, body: b.to_vec() })
    });
    tokio::task::block_in_place(|| tokio::runtime::Handle::current().block_on(fut).ok())
}

/// A resolver that uses reqwest's async client to fetch images.
///
/// It can be used inside a tokio runtime, but it blocks the current thread
/// while resolving images, and it panics when used with a current-thread
/// runtime.
#[derive(Debug, Default, Clone)]
pub struct ReqwestResolver {
    client: reqwest::Client,
}

impl ReqwestResolver {
    /// The client handle this resolver fetches with.
    pub closed spec fn spec_client(&self) -> reqwest::Client {
        self.client
    }

    /// Build a resolver around an existing client.
    pub fn new(client: reqwest::Client) -> (r: Self)
        ensures
            r.spec_client() == client,
    {
        ReqwestResolver { client }
    }
}

impl From<reqwest::Client> for ReqwestResolver {
    fn from(client: reqwest::Client) -> Self {
        ReqwestResolver { client }
    }
}

impl vstd::std_specs::convert::FromSpecImpl<reqwest::Client> for ReqwestResolver {
    open spec fn obeys_from_spec() -> bool {
        true
    }

    closed spec fn from_spec(client: reqwest::Client) -> Self {
        ReqwestResolver { client }
    }
}

impl HrefStringResolver for ReqwestResolver {
    /// Claims exactly the hrefs that literally start with `http://` or
    /// `https://`.
    open spec fn spec_claims(&self, href: Seq<char>) -> bool {
        spec_is_remote(href)
    }

    /// A successful resolution classified some fetched response: its kind is
    /// what the classifier returns for that response's content type together
    /// with this href.
    open spec fn spec_may_resolve_to(&self, href: Seq<char>, r: Option<ImageKind>) -> bool {
        match r {
            None => true,
            Some(k) => exists|ct: Option<Seq<char>>| spec_classify(ct, href) == Some(k.tag()),
        }
    }

    fn is_target(&self, href: &str) -> bool {
        str_starts_with(href, "https://") || str_starts_with(href, "http://")
    }

    fn get_image_kind(&self, href: &str, options: &usvg::Options) -> Option<ImageKind> {
        let fetched = match fetch_on_runtime(&self.client, href) {
            Some(f) => f,
            None => { return None },
        };
        let ghost gct = spec_opt_string_view(fetched.content_type);
        let r = crate::utils::resolve_fetched(fetched, href, options);
        proof {
            match &r {
                Some(k) => {
                    assert(spec_classify(gct, href@) == Some(k.tag()));
                },
                None => {},
            }
        }
        r
    }
}

} // verus!
