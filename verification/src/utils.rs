//! Image-kind classification: maps a declared content type and an href string
//! to one of the five recognized image kinds.
use vstd::prelude::*;

verus! {

/// The closed set of image kinds a resolver can recognize.
#[derive(Clone, Copy, PartialEq, Eq, Structural, Debug)]
pub enum ImageKindTypes {
    Jpeg,
    Png,
    Gif,
    Webp,
    Svg,
}

/// The image kind a declared MIME content type maps to, if it is one of the
/// five recognized values.
pub open spec fn spec_mime_kind(ct: Seq<char>) -> Option<ImageKindTypes> {
    if ct == "image/png"@ {
        Some(ImageKindTypes::Png)
    } else if ct == "image/jpeg"@ {
        Some(ImageKindTypes::Jpeg)
    } else if ct == "image/webp"@ {
        Some(ImageKindTypes::Webp)
    } else if ct == "image/gif"@ {
        Some(ImageKindTypes::Gif)
    } else if ct == "image/svg+xml"@ {
        Some(ImageKindTypes::Svg)
    } else {
        None
    }
}

/// The image kind a file extension (the part after the last `.`) maps to,
/// if it is one of the six recognized spellings; `jpg` and `jpeg` both map
/// to JPEG.
pub open spec fn spec_ext_kind(ext: Seq<char>) -> Option<ImageKindTypes> {
    if ext == "png"@ {
        Some(ImageKindTypes::Png)
    } else if ext == "jpg"@ || ext == "jpeg"@ {
        Some(ImageKindTypes::Jpeg)
    } else if ext == "webp"@ {
        Some(ImageKindTypes::Webp)
    } else if ext == "gif"@ {
        Some(ImageKindTypes::Gif)
    } else if ext == "svg"@ {
        Some(ImageKindTypes::Svg)
    } else {
        None
    }
}

/// The index of the last `.` in `s`, if any.
pub open spec fn spec_last_dot(s: Seq<char>) -> Option<int>
    decreases s.len(),
{
    if s.len() == 0 {
        None
    } else if s[s.len() - 1] == '.' {
        Some(s.len() - 1)
    } else {
        spec_last_dot(s.drop_last())
    }
}

/// The extension of an href: the characters after the last `.`, if a `.`
/// occurs at all.
pub open spec fn spec_href_ext(s: Seq<char>) -> Option<Seq<char>> {
    match spec_last_dot(s) {
        Some(i) => Some(s.subrange(i + 1, s.len() as int)),
        None => None,
    }
}

/// Classification: a recognized declared content type always wins; otherwise
/// the href's extension decides; otherwise nothing.
pub open spec fn spec_classify(ct: Option<Seq<char>>, href: Seq<char>) -> Option<ImageKindTypes> {
    let from_mime = match ct {
        Some(c) => spec_mime_kind(c),
        None => None,
    };
    if from_mime is Some {
        from_mime
    } else {
        match spec_href_ext(href) {
            Some(e) => spec_ext_kind(e),
            None => None,
        }
    }
}

/// The view of an optional string.
pub open spec fn spec_opt_view(ct: Option<&str>) -> Option<Seq<char>> {
    match ct {
        Some(s) => Some(s@),
        None => None,
    }
}

/// Whether `p` is a prefix of `s`.
pub open spec fn spec_starts_with(s: Seq<char>, p: Seq<char>) -> bool {
    p.len() <= s.len() && s.subrange(0, p.len() as int) == p
}

/// Whether an href names a remote HTTP resource: it literally starts with
/// `http://` or `https://`, with no scheme normalization.
pub open spec fn spec_is_remote(href: Seq<char>) -> bool {
    spec_starts_with(href, "https://"@) || spec_starts_with(href, "http://"@)
}

/// Whether the string starts with the given prefix.
pub fn str_starts_with(s: &str, p: &str) -> (b: bool)
    ensures
        b == spec_starts_with(s@, p@),
{
    let n: usize = s.unicode_len();
    let m: usize = p.unicode_len();
    if m > n {
        return false;
    }
    let mut i: usize = 0;
    while i < m
        invariant
            n == s@.len(),
            m == p@.len(),
            m <= n,
            i <= m,
            forall|j: int| 0 <= j < i ==> s@[j] == p@[j],
        decreases m - i,
    {
        if s.get_char(i) != p.get_char(i) {
            return false;
        }
        i = i + 1;
    }
    proof {
        assert(s@.subrange(0, p@.len() as int) =~= p@);
    }
    true
}

/// Character-for-character string equality.
fn str_eq_chars(s: &str, t: &str) -> (b: bool)
    ensures
        b == (s@ == t@),
{
    let n: usize = s.unicode_len();
    if n != t.unicode_len() {
        return false;
    }
    let mut i: usize = 0;
    while i < n
        invariant
            n == s@.len(),
            n == t@.len(),
            i <= n,
            forall|j: int| 0 <= j < i ==> s@[j] == t@[j],
        decreases n - i,
    {
        if s.get_char(i) != t.get_char(i) {
            return false;
        }
        i = i + 1;
    }
    proof {
        assert(s@ =~= t@);
    }
    true
}

/// Whether the characters of `s` from `start` on equal `t`.
fn suffix_eq(s: &str, start: usize, t: &str) -> (b: bool)
    requires
        start <= s@.len(),
    ensures
        b == (s@.subrange(start as int, s@.len() as int) == t@),
{
    let n: usize = s.unicode_len();
    let m: usize = t.unicode_len();
    if n - start != m {
        return false;
    }
    let mut i: usize = 0;
    while i < m
        invariant
            n == s@.len(),
            m == t@.len(),
            start + m == n,
            i <= m,
            forall|j: int| 0 <= j < i ==> s@[start + j] == t@[j],
        decreases m - i,
    {
        if s.get_char(start + i) != t.get_char(i) {
            return false;
        }
        i = i + 1;
    }
    proof {
        assert(s@.subrange(start as int, s@.len() as int) =~= t@);
    }
    true
}

/// The index of the last `.` in `s`, if any.
fn find_last_dot(s: &str) -> (r: Option<usize>)
    ensures
        match r {
            Some(i) => i < usize::MAX && spec_last_dot(s@) == Some(i as int),
            None => spec_last_dot(s@) is None,
        },
{
    let n: usize = s.unicode_len();
    proof {
        assert(s@.take(n as int) =~= s@);
    }
    let mut i: usize = n;
    while i > 0
        invariant
            i <= n,
            n == s@.len(),
            spec_last_dot(s@) == spec_last_dot(s@.take(i as int)),
        decreases i,
    {
        if s.get_char(i - 1) == '.' {
            proof {
                assert(s@.take(i as int)[i - 1] == '.');
            }
            return Some(i - 1);
        }
        proof {
            assert(s@.take(i as int)[i - 1] != '.');
            assert(s@.take(i as int).drop_last() =~= s@.take(i as int - 1));
        }
        i = i - 1;
    }
    None
}

/// Everything that holds of the last-dot position: it is a `.`, nothing after
/// it is a `.`, and when there is none, `s` holds no `.` at all.
pub proof fn lemma_last_dot_props(s: Seq<char>)
    ensures
        match spec_last_dot(s) {
            Some(i) => 0 <= i < s.len() && s[i] == '.' && (forall|j: int|
                i < j < s.len() ==> s[j] != '.'),
            None => forall|j: int| 0 <= j < s.len() ==> s[j] != '.',
        },
    decreases s.len(),
{
    if s.len() == 0 {
    } else if s[s.len() - 1] == '.' {
    } else {
        lemma_last_dot_props(s.drop_last());
        assert forall|j: int| 0 <= j < s.len() - 1 implies s[j] == s.drop_last()[j] by {}
    }
}

impl ImageKindTypes {
    /// Classify an optional declared content type together with an href: an
    /// exactly recognized content type wins; otherwise the href's extension
    /// after its last `.` decides; anything else is nothing.
    pub fn get_image_type(content_type: Option<&str>, href: &str) -> (r: Option<ImageKindTypes>)
        ensures
            r == spec_classify(spec_opt_view(content_type), href@),
    {
        if let Some(ct) = content_type {
            if str_eq_chars(ct, "image/png") {
                return Some(ImageKindTypes::Png);
            }
            if str_eq_chars(ct, "image/jpeg") {
                return Some(ImageKindTypes::Jpeg);
            }
            if str_eq_chars(ct, "image/webp") {
                return Some(ImageKindTypes::Webp);
            }
            if str_eq_chars(ct, "image/gif") {
                return Some(ImageKindTypes::Gif);
            }
            if str_eq_chars(ct, "image/svg+xml") {
                return Some(ImageKindTypes::Svg);
            }
        }
        match find_last_dot(href) {
            None => None,
            Some(i) => {
                proof {
                    lemma_last_dot_props(href@);
                }
                if suffix_eq(href, i + 1, "png") {
                    Some(ImageKindTypes::Png)
                } else if suffix_eq(href, i + 1, "jpg") {
                    Some(ImageKindTypes::Jpeg)
                } else if suffix_eq(href, i + 1, "jpeg") {
                    Some(ImageKindTypes::Jpeg)
                } else if suffix_eq(href, i + 1, "webp") {
                    Some(ImageKindTypes::Webp)
                } else if suffix_eq(href, i + 1, "gif") {
                    Some(ImageKindTypes::Gif)
                } else if suffix_eq(href, i + 1, "svg") {
                    Some(ImageKindTypes::Svg)
                } else {
                    None
                }
            },
        }
    }
}

/// Content-type precedence: a recognized declared content type decides the
/// classification by itself, whatever the href holds.
pub proof fn lemma_content_type_precedence(ct: Seq<char>, href: Seq<char>)
    requires
        spec_mime_kind(ct) is Some,
    ensures
        spec_classify(Some(ct), href) == spec_mime_kind(ct),
{
}

/// Extension classification: when the declared content type is missing or
/// not one of the five recognized values, the href's extension alone decides.
pub proof fn lemma_extension_decides(ct: Option<Seq<char>>, href: Seq<char>)
    requires
        (match ct {
            Some(c) => spec_mime_kind(c) is None,
            None => true,
        }),
    ensures
        spec_classify(ct, href) == (match spec_href_ext(href) {
            Some(e) => spec_ext_kind(e),
            None => None,
        }),
{
}

/// `jpg` and `jpeg` are equivalent spellings of the JPEG extension.
pub proof fn lemma_jpg_jpeg_equivalent()
    ensures
        spec_ext_kind("jpg"@) == Some(ImageKindTypes::Jpeg),
        spec_ext_kind("jpeg"@) == Some(ImageKindTypes::Jpeg),
{
    reveal_strlit("png");
    reveal_strlit("jpg");
    reveal_strlit("jpeg");
    assert("jpg"@[0] == 'j' && "png"@[0] == 'p');
    assert("jpg"@ != "png"@);
    assert("jpeg"@.len() == 4 && "png"@.len() == 3);
    assert("jpeg"@ != "png"@);
}

/// An href with no `.` in it has no extension to classify by.
pub proof fn lemma_no_dot_no_extension(href: Seq<char>)
    requires
        forall|j: int| 0 <= j < href.len() ==> href[j] != '.',
    ensures
        spec_href_ext(href) is None,
{
    lemma_last_dot_props(href);
}

/// Classification yields nothing when the declared content type is unusable
/// and the href's extension is unrecognized or missing.
pub proof fn lemma_unclassifiable(ct: Option<Seq<char>>, href: Seq<char>)
    requires
        (match ct {
            Some(c) => spec_mime_kind(c) is None,
            None => true,
        }),
        (match spec_href_ext(href) {
            Some(e) => spec_ext_kind(e) is None,
            None => true,
        }),
    ensures
        spec_classify(ct, href) is None,
{
}

#[verifier::external_type_specification]
#[verifier::external_body]
pub struct ExOptions<'a>(usvg::Options<'a>);

#[verifier::external_type_specification]
#[verifier::external_body]
pub struct ExTree(usvg::Tree);

/// A classified image payload: raw bytes for the bitmap kinds, a parsed
/// sub-document for SVG.
pub enum ImageKind {
    Jpeg(Vec<u8>),
    Png(Vec<u8>),
    Gif(Vec<u8>),
    Webp(Vec<u8>),
    Svg(usvg::Tree),
}

impl ImageKind {
    /// The kind tag this payload was classified as.
    pub open spec fn tag(&self) -> ImageKindTypes {
        match self {
            ImageKind::Jpeg(_) => ImageKindTypes::Jpeg,
            ImageKind::Png(_) => ImageKindTypes::Png,
            ImageKind::Gif(_) => ImageKindTypes::Gif,
            ImageKind::Webp(_) => ImageKindTypes::Webp,
            ImageKind::Svg(_) => ImageKindTypes::Svg,
        }
    }

    /// The raw byte payload of a bitmap kind.
    pub open spec fn payload_bytes(&self) -> Seq<u8>
        recommends
            !(self is Svg),
    {
        match self {
            ImageKind::Jpeg(b) => b@,
            ImageKind::Png(b) => b@,
            ImageKind::Gif(b) => b@,
            ImageKind::Webp(b) => b@,
            ImageKind::Svg(_) => Seq::empty(),
        }
    }
}

/// Relies on usvg::Tree::from_data: parses the bytes as a nested SVG
/// document under the given options, or fails; the parse error is dropped.
#[verifier::external_body]
fn parse_svg_tree(data: &Vec<u8>, options: &usvg::Options) -> Option<usvg::Tree> {
    usvg::Tree::from_data(data.as_slice(), options).ok()
}

impl ImageKindTypes {
    /// Materialize a byte payload under this tag: the four bitmap kinds wrap
    /// the bytes unconditionally; SVG parses them as a nested document and
    /// fails when the parse fails.
    pub fn to_image_kind(self, vec: Vec<u8>, options: &usvg::Options) -> (r: Option<ImageKind>)
        ensures
            self is Jpeg ==> (r matches Some(ImageKind::Jpeg(b)) && b@ == vec@),
            self is Png ==> (r matches Some(ImageKind::Png(b)) && b@ == vec@),
            self is Gif ==> (r matches Some(ImageKind::Gif(b)) && b@ == vec@),
            self is Webp ==> (r matches Some(ImageKind::Webp(b)) && b@ == vec@),
            self is Svg ==> (r is None || r matches Some(ImageKind::Svg(_))),
            r matches Some(k) ==> k.tag() == self,
    {
        match self {
            ImageKindTypes::Jpeg => Some(ImageKind::Jpeg(vec)),
            ImageKindTypes::Png => Some(ImageKind::Png(vec)),
            ImageKindTypes::Gif => Some(ImageKind::Gif(vec)),
            ImageKindTypes::Webp => Some(ImageKind::Webp(vec)),
            ImageKindTypes::Svg => match parse_svg_tree(&vec, options) {
                Some(tree) => Some(ImageKind::Svg(tree)),
                None => None,
            },
        }
    }
}

/// An HTTP response reduced to what resolution needs: the status code, the
/// declared content type, and the body bytes.
pub struct FetchedResponse {
    pub status: u16,
    pub content_type: Option<String>,
    pub body: Vec<u8>,
}

/// Whether an HTTP status code signals success.
pub open spec fn spec_is_success(status: u16) -> bool {
    200 <= status < 300
}

/// The view of an optional owned string.
pub open spec fn spec_opt_string_view(ct: Option<String>) -> Option<Seq<char>> {
    match ct {
        Some(s) => Some(s@),
        None => None,
    }
}

/// The tag a fetched response resolves under: nothing unless the status is a
/// success, otherwise whatever the classifier decides.
pub open spec fn spec_accepted_kind(status: u16, ct: Option<Seq<char>>, href: Seq<char>) -> Option<
    ImageKindTypes,
> {
    if spec_is_success(status) {
        spec_classify(ct, href)
    } else {
        None
    }
}

/// Turn a fetched response into an image kind: reject non-success statuses,
/// classify by declared content type and href, and materialize the body
/// under the resulting tag.
pub fn resolve_fetched(resp: FetchedResponse, href: &str, options: &usvg::Options) -> (r: Option<
    ImageKind,
>)
    ensures
        ({
            let tag = spec_accepted_kind(resp.status, spec_opt_string_view(resp.content_type), href@);
            match tag {
                None => r is None,
                Some(t) => if t is Svg {
                    r is None || (r matches Some(ImageKind::Svg(_)))
                } else {
                    r matches Some(k) && k.tag() == t && k.payload_bytes() == resp.body@
                },
            }
        }),
{
    let FetchedResponse { status, content_type, body } = resp;
    if !(200 <= status && status < 300) {
        return None;
    }
    let ct: Option<&str> = match &content_type {
        Some(s) => Some(s.as_str()),
        None => None,
    };
    match ImageKindTypes::get_image_type(ct, href) {
        None => None,
        Some(t) => t.to_image_kind(body, options),
    }
}

} // verus!
