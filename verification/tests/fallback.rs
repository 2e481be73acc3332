use std::cell::Cell;
use usvg_remote_resolvers::utils::ImageKind;
use usvg_remote_resolvers::{with_fallback, DefaultResolver, FallbackResolver, HrefStringResolver};

struct Stub<'a> {
    claims: bool,
    payload: Option<Vec<u8>>,
    calls: &'a Cell<u32>,
}

impl<'a> Stub<'a> {
    fn new(claims: bool, payload: Option<Vec<u8>>, calls: &'a Cell<u32>) -> Self {
        Stub { claims, payload, calls }
    }
}

impl<'a> HrefStringResolver for Stub<'a> {
    fn spec_claims(&self, _href: vstd::seq::Seq<char>) -> bool {
        self.claims
    }

    fn spec_may_resolve_to(&self, _href: vstd::seq::Seq<char>, _r: Option<ImageKind>) -> bool {
        true
    }

    fn is_target(&self, _href: &str) -> bool {
        self.claims
    }

    fn get_image_kind(&self, _href: &str, _options: &usvg::Options) -> Option<ImageKind> {
        self.calls.set(self.calls.get() + 1);
        self.payload.clone().map(ImageKind::Png)
    }
}

struct NeverCalled;

impl HrefStringResolver for NeverCalled {
    fn spec_claims(&self, _href: vstd::seq::Seq<char>) -> bool {
        true
    }

    fn spec_may_resolve_to(&self, _href: vstd::seq::Seq<char>, _r: Option<ImageKind>) -> bool {
        true
    }

    fn is_target(&self, _href: &str) -> bool {
        true
    }

    fn get_image_kind(&self, _href: &str, _options: &usvg::Options) -> Option<ImageKind> {
        panic!("the fallback must not be consulted when the primary succeeds");
    }
}

fn png_bytes(r: Option<ImageKind>) -> Vec<u8> {
    match r {
        Some(ImageKind::Png(b)) => b,
        _ => panic!("expected a PNG payload"),
    }
}

#[test]
fn primary_success_skips_fallback() {
    let calls = Cell::new(0);
    let options = usvg::Options::default();
    let pair = FallbackResolver::new(
        Stub::new(true, Some(vec![1, 2, 3]), &calls),
        NeverCalled,
    );
    let r = pair.get_image_kind("anything", &options);
    assert_eq!(png_bytes(r), vec![1, 2, 3]);
    assert_eq!(calls.get(), 1);
}

#[test]
fn fallback_takes_over_on_primary_failure() {
    let primary_calls = Cell::new(0);
    let fallback_calls = Cell::new(0);
    let options = usvg::Options::default();
    let pair = FallbackResolver::new(
        Stub::new(true, None, &primary_calls),
        Stub::new(true, Some(vec![9]), &fallback_calls),
    );
    let r = pair.get_image_kind("anything", &options);
    assert_eq!(png_bytes(r), vec![9]);
    assert_eq!(primary_calls.get(), 1);
    assert_eq!(fallback_calls.get(), 1);
}

#[test]
fn fallback_takes_over_on_primary_decline() {
    let primary_calls = Cell::new(0);
    let fallback_calls = Cell::new(0);
    let options = usvg::Options::default();
    let pair = FallbackResolver::new(
        Stub::new(false, Some(vec![7]), &primary_calls),
        Stub::new(true, Some(vec![8]), &fallback_calls),
    );
    let r = pair.get_image_kind("anything", &options);
    assert_eq!(png_bytes(r), vec![8]);
    assert_eq!(primary_calls.get(), 0);
    assert_eq!(fallback_calls.get(), 1);
}

#[test]
fn unclaimed_href_resolves_to_nothing_without_calls() {
    let primary_calls = Cell::new(0);
    let fallback_calls = Cell::new(0);
    let options = usvg::Options::default();
    let pair = FallbackResolver::new(
        Stub::new(false, Some(vec![1]), &primary_calls),
        Stub::new(false, Some(vec![2]), &fallback_calls),
    );
    assert!(!pair.is_target("anything"));
    assert!(pair.get_image_kind("anything", &options).is_none());
    assert_eq!(primary_calls.get(), 0);
    assert_eq!(fallback_calls.get(), 0);
}

#[test]
fn pair_claims_when_either_member_claims() {
    let calls = Cell::new(0);
    for (p, f, expected) in
        [(false, false, false), (false, true, true), (true, false, true), (true, true, true)]
    {
        let pair =
            FallbackResolver::new(Stub::new(p, None, &calls), Stub::new(f, None, &calls));
        assert_eq!(pair.is_target("x"), expected);
    }
}

#[test]
fn three_way_chain_tries_in_order() {
    let a_calls = Cell::new(0);
    let b_calls = Cell::new(0);
    let c_calls = Cell::new(0);
    let options = usvg::Options::default();
    let chain: FallbackResolver<_, FallbackResolver<_, _>> = FallbackResolver::from((
        Stub::new(true, None, &a_calls),
        Stub::new(true, None, &b_calls),
        Stub::new(true, Some(vec![3]), &c_calls),
    ));
    let r = chain.get_image_kind("anything", &options);
    assert_eq!(png_bytes(r), vec![3]);
    assert_eq!(a_calls.get(), 1);
    assert_eq!(b_calls.get(), 1);
    assert_eq!(c_calls.get(), 1);
}

#[test]
fn three_way_chain_stops_at_the_second() {
    let a_calls = Cell::new(0);
    let b_calls = Cell::new(0);
    let options = usvg::Options::default();
    let chain = FallbackResolver::from((
        Stub::new(true, None, &a_calls),
        Stub::new(true, Some(vec![2]), &b_calls),
        NeverCalled,
    ));
    let r = chain.get_image_kind("anything", &options);
    assert_eq!(png_bytes(r), vec![2]);
    assert_eq!(a_calls.get(), 1);
    assert_eq!(b_calls.get(), 1);
}

#[test]
fn chain_of_three_is_a_nested_pair() {
    let calls = Cell::new(0);
    let options = usvg::Options::default();
    let nested = FallbackResolver::new(
        Stub::new(true, None, &calls),
        FallbackResolver::new(Stub::new(true, None, &calls), Stub::new(true, Some(vec![5]), &calls)),
    );
    let flat = FallbackResolver::from((
        Stub::new(true, None, &calls),
        Stub::new(true, None, &calls),
        Stub::new(true, Some(vec![5]), &calls),
    ));
    let r1 = nested.get_image_kind("x", &options);
    let r2 = flat.get_image_kind("x", &options);
    assert_eq!(png_bytes(r1), png_bytes(r2));
}

#[test]
fn pair_from_tuple_keeps_the_order() {
    let primary_calls = Cell::new(0);
    let fallback_calls = Cell::new(0);
    let options = usvg::Options::default();
    let pair = FallbackResolver::from((
        Stub::new(true, Some(vec![4]), &primary_calls),
        Stub::new(true, Some(vec![6]), &fallback_calls),
    ));
    let r = pair.get_image_kind("x", &options);
    assert_eq!(png_bytes(r), vec![4]);
    assert_eq!(fallback_calls.get(), 0);
}

#[test]
fn with_fallback_builds_the_pair() {
    let primary_calls = Cell::new(0);
    let fallback_calls = Cell::new(0);
    let options = usvg::Options::default();
    let pair = with_fallback(
        Stub::new(true, None, &primary_calls),
        Stub::new(true, Some(vec![1]), &fallback_calls),
    );
    let r = pair.get_image_kind("x", &options);
    assert_eq!(png_bytes(r), vec![1]);
    assert_eq!(primary_calls.get(), 1);
    assert_eq!(fallback_calls.get(), 1);
}

#[test]
fn default_resolver_claims_everything() {
    let d = DefaultResolver::default();
    assert!(d.is_target("https://x/y.png"));
    assert!(d.is_target("./local.png"));
    assert!(d.is_target(""));
}

#[test]
fn default_resolver_yields_nothing_for_a_missing_path() {
    let d = DefaultResolver::default();
    let options = usvg::Options::default();
    assert!(d.get_image_kind("no-such-file-anywhere.png", &options).is_none());
}
