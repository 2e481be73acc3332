//! Resolvers for the `href` attribute of `<image>` elements in SVG documents:
//! a content-type/extension classifier, HTTP-backed fetch strategies, and a
//! fallback combinator that chains strategies in priority order.
use vstd::prelude::*;

pub mod middleware;
pub mod reqwest_async;
pub mod reqwest_blocking;
pub mod utils;

verus! {

use crate::utils::ImageKind;

/// A strategy for resolving the `href` attribute of an `<image>` element.
///
/// `spec_claims` is the routing predicate `is_target` decides, and
/// `spec_may_resolve_to` is the set of outcomes `get_image_kind` can have
/// for an href: resolution may depend on the network or the file system, so
/// a strategy promises which results are possible, not which one occurs.
pub trait HrefStringResolver: Sized {
    /// Whether this resolver claims the href.
    spec fn spec_claims(&self, href: Seq<char>) -> bool;

    /// The outcomes resolution may have for this href.
    spec fn spec_may_resolve_to(&self, href: Seq<char>, r: Option<ImageKind>) -> bool;

    /// Check if the `href` is the target of this resolver.
    /// If it returns false, it will resolve to `None`.
    fn is_target(&self, href: &str) -> (b: bool)
        ensures
            b == self.spec_claims(href@),
    ;

    /// This is where the logic for resolving the `href` is implemented.
    fn get_image_kind(&self, href: &str, options: &usvg::Options) -> (r: Option<ImageKind>)
        ensures
            self.spec_may_resolve_to(href@, r),
    ;
}

/// Add a fallback to a resolver in case the href is not its target, or it
/// fails to resolve.
pub fn with_fallback<S: HrefStringResolver, T: HrefStringResolver>(primary: S, fallback: T) -> (r:
    FallbackResolver<S, T>)
    ensures
        r.primary == primary,
        r.fallback == fallback,
{
    FallbackResolver::new(primary, fallback)
}

/// Resolver using usvg's built-in string resolution for local paths.
#[derive(Debug, Default, Clone, Copy)]
pub struct DefaultResolver;

/// Relies on usvg::ImageHrefResolver::default_string_resolver: delegates the
/// href to usvg's built-in resolution (file paths on disk), converting the
/// returned kind's shared payload into owned bytes.
#[verifier::external_body]
fn default_string_resolve(href: &str, options: &usvg::Options) -> Option<ImageKind> {
    match usvg::ImageHrefResolver::default_string_resolver()(href, options)? {
        usvg::ImageKind::JPEG(b) => Some(ImageKind::Jpeg(b.as_ref().clone())),
        usvg::ImageKind::PNG(b) => Some(ImageKind::Png(b.as_ref().clone())),
        usvg::ImageKind::GIF(b) => Some(ImageKind::Gif(b.as_ref().clone())),
        usvg::ImageKind::WEBP(b) => Some(ImageKind::Webp(b.as_ref().clone())),
        usvg::ImageKind::SVG(t) => Some(ImageKind::Svg(t)),
    }
}

impl HrefStringResolver for DefaultResolver {
    /// The passthrough resolver claims every href.
    open spec fn spec_claims(&self, href: Seq<char>) -> bool {
        true
    }

    /// Its outcome comes wholly from the host toolkit; nothing more is
    /// promised of it.
    open spec fn spec_may_resolve_to(&self, href: Seq<char>, r: Option<ImageKind>) -> bool {
        true
    }

    fn is_target(&self, href: &str) -> bool {
        true
    }

    fn get_image_kind(&self, href: &str, options: &usvg::Options) -> Option<ImageKind> {
        default_string_resolve(href, options)
    }
}

/// An ordered pair of resolvers: the primary is always consulted first, and
/// the fallback only when the primary declines the href or fails on it.
#[derive(Debug, Default, Clone, Copy)]
pub struct FallbackResolver<T, U> {
    pub primary: T,
    pub fallback: U,
}

impl<T, U> FallbackResolver<T, U> {
    /// Pair a primary resolver with a fallback.
    pub fn new(primary: T, fallback: U) -> (r: Self)
        ensures
            r.primary == primary,
            r.fallback == fallback,
    {
        FallbackResolver { primary, fallback }
    }
}

impl<T: HrefStringResolver, U: HrefStringResolver> FallbackResolver<T, U> {
    /// The outcome of consulting the fallback member: its own outcome when it
    /// claims the href, and nothing otherwise.
    pub open spec fn spec_fallback_outcome(&self, href: Seq<char>, r: Option<ImageKind>) -> bool {
        ||| (self.fallback.spec_claims(href) && self.fallback.spec_may_resolve_to(href, r))
        ||| (!self.fallback.spec_claims(href) && r is None)
    }
}

impl<T: HrefStringResolver, U: HrefStringResolver> HrefStringResolver for FallbackResolver<T, U> {
    /// The pair claims an href when either member claims it.
    open spec fn spec_claims(&self, href: Seq<char>) -> bool {
        self.primary.spec_claims(href) || self.fallback.spec_claims(href)
    }

    /// Strict two-level short-circuit: a successful primary result is
    /// returned as is; the fallback is consulted only when the primary
    /// declines the href or resolves it to nothing.
    open spec fn spec_may_resolve_to(&self, href: Seq<char>, r: Option<ImageKind>) -> bool {
        ||| (self.primary.spec_claims(href) && r is Some && self.primary.spec_may_resolve_to(
            href,
            r,
        ))
        ||| (self.primary.spec_claims(href) && self.primary.spec_may_resolve_to(href, None)
            && self.spec_fallback_outcome(href, r))
        ||| (!self.primary.spec_claims(href) && self.spec_fallback_outcome(href, r))
    }

    fn is_target(&self, href: &str) -> bool {
        self.primary.is_target(href) || self.fallback.is_target(href)
    }

    fn get_image_kind(&self, href: &str, options: &usvg::Options) -> Option<ImageKind> {
        if self.primary.is_target(href) {
            let r1 = self.primary.get_image_kind(href, options);
            if r1.is_some() {
                return r1;
            }
            if self.fallback.is_target(href) {
                return self.fallback.get_image_kind(href, options);
            }
            return None;
        }
        if self.fallback.is_target(href) {
            return self.fallback.get_image_kind(href, options);
        }
        None
    }
}

impl<T, U> From<(T, U)> for FallbackResolver<T, U> {
    fn from(pair: (T, U)) -> Self {
        let (primary, fallback) = pair;
        FallbackResolver { primary, fallback }
    }
}

impl<T, U> vstd::std_specs::convert::FromSpecImpl<(T, U)> for FallbackResolver<T, U> {
    open spec fn obeys_from_spec() -> bool {
        true
    }

    open spec fn from_spec(pair: (T, U)) -> Self {
        FallbackResolver { primary: pair.0, fallback: pair.1 }
    }
}

impl<T, U, V> From<(T, U, V)> for FallbackResolver<T, FallbackResolver<U, V>> {
    fn from(triple: (T, U, V)) -> Self {
        let (primary, secondary, tertiary) = triple;
        FallbackResolver {
            primary,
            fallback: FallbackResolver { primary: secondary, fallback: tertiary },
        }
    }
}

impl<T, U, V> vstd::std_specs::convert::FromSpecImpl<(T, U, V)> for FallbackResolver<T, FallbackResolver<U, V>> {
    open spec fn obeys_from_spec() -> bool {
        true
    }

    open spec fn from_spec(triple: (T, U, V)) -> Self {
        FallbackResolver {
            primary: triple.0,
            fallback: FallbackResolver { primary: triple.1, fallback: triple.2 },
        }
    }
}

/// When the primary claims an href and may resolve it successfully, the pair
/// may return exactly that result.
pub proof fn lemma_fallback_primary_wins<T: HrefStringResolver, U: HrefStringResolver>(
    pair: FallbackResolver<T, U>,
    href: Seq<char>,
    r: Option<ImageKind>,
)
    requires
        pair.primary.spec_claims(href),
        r is Some,
        pair.primary.spec_may_resolve_to(href, r),
    ensures
        pair.spec_may_resolve_to(href, r),
{
}

/// When the primary claims an href but may resolve it to nothing, and the
/// fallback claims it and may resolve it to a result, the pair may return
/// the fallback's result.
pub proof fn lemma_fallback_takes_over<T: HrefStringResolver, U: HrefStringResolver>(
    pair: FallbackResolver<T, U>,
    href: Seq<char>,
    r: Option<ImageKind>,
)
    requires
        pair.primary.spec_claims(href),
        pair.primary.spec_may_resolve_to(href, None),
        pair.fallback.spec_claims(href),
        pair.fallback.spec_may_resolve_to(href, r),
    ensures
        pair.spec_may_resolve_to(href, r),
{
}

/// When neither member of a pair claims an href, resolution returns nothing.
pub proof fn lemma_fallback_unclaimed_yields_nothing<
    T: HrefStringResolver,
    U: HrefStringResolver,
>(pair: FallbackResolver<T, U>, href: Seq<char>, r: Option<ImageKind>)
    requires
        !pair.primary.spec_claims(href),
        !pair.fallback.spec_claims(href),
        pair.spec_may_resolve_to(href, r),
    ensures
        r is None,
{
}

/// A three-way chain nests right: its outcomes are exactly those where the
/// second strategy is consulted only when the first declines or fails, and
/// the third only when the first two both decline or fail.
pub proof fn lemma_chain_of_three<
    T: HrefStringResolver,
    U: HrefStringResolver,
    V: HrefStringResolver,
>(a: T, b: U, c: V, href: Seq<char>, r: Option<ImageKind>)
    ensures
        ({
            let chain = FallbackResolver {
                primary: a,
                fallback: FallbackResolver { primary: b, fallback: c },
            };
            chain.spec_may_resolve_to(href, r) <==> {
                ||| (a.spec_claims(href) && r is Some && a.spec_may_resolve_to(href, r))
                ||| ((!a.spec_claims(href) || (a.spec_claims(href) && a.spec_may_resolve_to(
                    href,
                    None,
                ))) && {
                    ||| (b.spec_claims(href) && r is Some && b.spec_may_resolve_to(href, r))
                    ||| ((!b.spec_claims(href) || (b.spec_claims(href) && b.spec_may_resolve_to(
                        href,
                        None,
                    ))) && {
                        ||| (c.spec_claims(href) && c.spec_may_resolve_to(href, r))
                        ||| (!c.spec_claims(href) && r is None)
                    })
                })
            }
        }),
{
}

} // verus!
