//! Resolver driven through reqwest-middleware's client, so that middleware
//! such as an HTTP cache can sit between the resolver and the network.
use vstd::prelude::*;

verus! {

use crate::HrefStringResolver;
use crate::utils::{FetchedResponse, ImageKind, spec_classify, spec_is_remote, spec_opt_string_view, str_starts_with};
use futures_util::TryFutureExt;

#[verifier::external_type_specification]
#[verifier::external_body]
pub struct ExClientWithMiddleware(reqwest_middleware::ClientWithMiddleware);

/// Relies on reqwest_middleware::ClientWithMiddleware::get/send and
/// reqwest::Response::bytes driven through tokio: runs the GET, and every
/// middleware around it, to completion on the ambient multi-thread runtime,
/// blocking the calling thread until status, Content-Type header and body
/// arrive; fails on transport or middleware errors. As documented for
/// tokio's block_in_place, it panics on a current-thread runtime, where
/// blocking the only thread would deadlock.
#[verifier::external_body]
fn fetch_on_runtime(
    client: &reqwest_middleware::ClientWithMiddleware,
    href: &str,
) -> Option<FetchedResponse> {
    let fut = client.get(href).send().and_then(|resp| {
        let status = resp.status().as_u16();
        let content_type =
            resp.headers().get(reqwest::header::CONTENT_TYPE).and_then(|v| v.to_str().ok()).map(
                |s| s.to_string(),
            );
        resp.bytes().map_ok(move |b| FetchedResponse {
            status,
            content_type,
            body: b.to_vec(),
        }).map_err(reqwest_middleware::Error::Reqwest)
    });
    tokio::task::block_in_place(|| tokio::runtime::Handle::current().block_on(fut).ok())
}

/// A resolver that uses a reqwest client wrapped in middleware to fetch
/// images.
///
/// It can be used inside a tokio runtime, but it blocks the current thread
/// while resolving images, and it panics when used with a current-thread
/// runtime.
pub struct ReqwestWithMiddlewareResolver {
    client: reqwest_middleware::ClientWithMiddleware,
}

impl ReqwestWithMiddlewareResolver {
    /// The client handle this resolver fetches with.
    pub closed spec fn spec_client(&self) -> reqwest_middleware::ClientWithMiddleware {
        self.client
    }

    /// Create a new resolver with the given client with middleware.
    pub fn new(client: reqwest_middleware::ClientWithMiddleware) -> (r: Self)
        ensures
            r.spec_client() == client,
    {
        ReqwestWithMiddlewareResolver { client }
    }

    /// Get the underlying client with middleware of this resolver.
    pub fn client(&self) -> (r: &reqwest_middleware::ClientWithMiddleware)
        ensures
            r == self.spec_client(),
    {
        &self.client
    }
}

impl HrefStringResolver for ReqwestWithMiddlewareResolver {
    /// Claims exactly the hrefs that literally start with `http://` or
    /// `https://`.
    open spec fn spec_claims(&self, href: Seq<char>) -> bool {
        spec_is_remote(href)
    }

    /// A successful resolution classified some fetched response: its kind is
    /// what the classifier returns for that response's content type together
    /// with this href.
    open spec fn spec_may_resolve_to(&self, href: Seq<char>, r: Option<ImageKind>) -> bool {
        match r {
            None => true,
            Some(k) => exists|ct: Option<Seq<char>>| spec_classify(ct, href) == Some(k.tag()),
        }
    }

    fn is_target(&self, href: &str) -> bool {
        str_starts_with(href, "https://") || str_starts_with(href, "http://")
    }

    fn get_image_kind(&self, href: &str, options: &usvg::Options) -> Option<ImageKind> {
        let fetched = match fetch_on_runtime(&self.client, href) {
            Some(f) => f,
            None => { return None },
        };
        let ghost gct = spec_opt_string_view(fetched.content_type);
        let r = crate::utils::resolve_fetched(fetched, href, options);
        proof {
            match &r {
                Some(k) => {
                    assert(spec_classify(gct, href@) == Some(k.tag()));
                },
                None => {},
            }
        }
        r
    }
}

} // verus!
