//! URL previews: the data of a preview, and the rules on which URLs may be
//! previewed at all.

use vstd::prelude::*;
use crate::info::opt_text;
use crate::text::{
    contains_text, list_contains, occurs_at, occurs_in, same_text, split_once, split_once_at,
    starts_with, texts,
};
use crate::tokens::opt_str;

verus! {

/// What a preview says of a page or an image.
#[derive(Debug, PartialEq, Eq)]
pub struct UrlPreviewData {
    pub title: Option<String>,
    pub description: Option<String>,
    pub image: Option<String>,
    pub image_size: Option<usize>,
    pub image_width: Option<u32>,
    pub image_height: Option<u32>,
}

/// The mathematical value of a [`UrlPreviewData`].
pub struct Preview {
    pub title: Option<Seq<char>>,
    pub description: Option<Seq<char>>,
    pub image: Option<Seq<char>>,
    pub image_size: Option<usize>,
    pub image_width: Option<u32>,
    pub image_height: Option<u32>,
}

impl Preview {
    /// The preview that says nothing.
    pub open spec fn empty() -> Preview {
        Preview {
            title: None,
            description: None,
            image: None,
            image_size: None,
            image_width: None,
            image_height: None,
        }
    }
}

/// The first of two optional values that is there.
pub open spec fn first_of<T>(a: Option<T>, b: Option<T>) -> Option<T> {
    if a is Some {
        a
    } else {
        b
    }
}

/// The preview of an image of the given dimensions that is stored under
/// `location` and is `size` bytes long.
pub open spec fn image_preview(location: Seq<char>, size: usize, dimensions: Option<(u32, u32)>) -> Preview {
    Preview {
        image: Some(location),
        image_size: Some(size),
        image_width: match dimensions {
            Some((width, _)) => Some(width),
            None => None,
        },
        image_height: match dimensions {
            Some((_, height)) => Some(height),
            None => None,
        },
        ..Preview::empty()
    }
}

impl View for UrlPreviewData {
    type V = Preview;

    open spec fn view(&self) -> Preview {
        Preview {
            title: opt_text(self.title),
            description: opt_text(self.description),
            image: opt_text(self.image),
            image_size: self.image_size,
            image_width: self.image_width,
            image_height: self.image_height,
        }
    }
}

impl Default for UrlPreviewData {
    fn default() -> (r: Self)
        ensures
            r@ == Preview::empty(),
    {
        UrlPreviewData {
            title: None,
            description: None,
            image: None,
            image_size: None,
            image_width: None,
            image_height: None,
        }
    }
}

impl UrlPreviewData {
    /// The preview of an image stored under `location`, `size` bytes long,
    /// with its width and height where they could be read.
    pub fn for_image(location: String, size: usize, dimensions: Option<(u32, u32)>) -> (r: Self)
        ensures
            r@ == image_preview(location@, size, dimensions),
    {
        let (image_width, image_height) = match dimensions {
            Some((width, height)) => (Some(width), Some(height)),
            None => (None, None),
        };
        UrlPreviewData {
            title: None,
            description: None,
            image: Some(location),
            image_size: Some(size),
            image_width,
            image_height,
        }
    }

    /// Gives the preview the title and description of a page: those of its
    /// Open Graph properties, and where one is missing there, that of the
    /// document itself.
    pub fn with_metadata(
        self,
        graph_title: Option<String>,
        page_title: Option<String>,
        graph_description: Option<String>,
        page_description: Option<String>,
    ) -> (r: Self)
        ensures
            r@ == (Preview {
                title: first_of(opt_text(graph_title), opt_text(page_title)),
                description: first_of(opt_text(graph_description), opt_text(page_description)),
                ..self@
            }),
    {
        let title = match graph_title {
            Some(t) => Some(t),
            None => page_title,
        };
        let description = match graph_description {
            Some(d) => Some(d),
            None => page_description,
        };
        UrlPreviewData {
            title,
            description,
            image: self.image,
            image_size: self.image_size,
            image_width: self.image_width,
            image_height: self.image_height,
        }
    }
}

/// Why no preview is made.
#[derive(Clone, Copy, Debug, PartialEq, Eq, Structural)]
pub enum PreviewError {
    /// The address is one that the server must not request from.
    ForbiddenAddress,
    /// The response does not say what it holds.
    MissingContentType,
    /// The response holds neither a page nor an image.
    UnsupportedContentType,
    /// The page cannot be read as HTML.
    InvalidHtml,
}

impl PreviewError {
    pub open spec fn spec_message(self) -> Seq<char> {
        match self {
            PreviewError::ForbiddenAddress => "Requesting from this address is forbidden"@,
            PreviewError::MissingContentType => "Unknown or invalid Content-Type header"@,
            PreviewError::UnsupportedContentType => "Unsupported Content-Type"@,
            PreviewError::InvalidHtml => "Failed to parse HTML"@,
        }
    }

    /// The text with which the error is reported.
    pub fn message(self) -> (m: String)
        ensures
            m@ == self.spec_message(),
    {
        match self {
            PreviewError::ForbiddenAddress => "Requesting from this address is forbidden".to_owned(),
            PreviewError::MissingContentType => "Unknown or invalid Content-Type header".to_owned(),
            PreviewError::UnsupportedContentType => "Unsupported Content-Type".to_owned(),
            PreviewError::InvalidHtml => "Failed to parse HTML".to_owned(),
        }
    }
}

/// What a response holds that a preview can be made of.
#[derive(Clone, Copy, Debug, PartialEq, Eq, Structural)]
pub enum PreviewKind {
    Html,
    Image,
}

/// What a content type stands for: a page where it begins with `text/html`,
/// an image where it begins with `image/`.
pub open spec fn kind_of(content_type: Seq<char>) -> Option<PreviewKind> {
    if occurs_at("text/html"@, content_type, 0) {
        Some(PreviewKind::Html)
    } else if occurs_at("image/"@, content_type, 0) {
        Some(PreviewKind::Image)
    } else {
        None
    }
}

/// Whether a host that is written as an address may be requested from:
/// `address_allowed` is `None` where the host is no address, and else says
/// whether the address is in a permitted range.
pub fn check_address(address_allowed: Option<bool>) -> (r: Result<(), PreviewError>)
    ensures
        r == (if address_allowed == Some(false) {
            Err::<(), PreviewError>(PreviewError::ForbiddenAddress)
        } else {
            Ok(())
        }),
{
    match address_allowed {
        Some(false) => Err(PreviewError::ForbiddenAddress),
        _ => Ok(()),
    }
}

/// What to fetch after the first response: nothing where the responding
/// address is not permitted or the content type is missing or unsupported.
pub fn classify_response(remote_allowed: Option<bool>, content_type: Option<&str>) -> (r: Result<
    PreviewKind,
    PreviewError,
>)
    ensures
        r == (if remote_allowed == Some(false) {
            Err::<PreviewKind, PreviewError>(PreviewError::ForbiddenAddress)
        } else {
            match opt_str(content_type) {
                None => Err(PreviewError::MissingContentType),
                Some(t) => match kind_of(t) {
                    Some(kind) => Ok(kind),
                    None => Err(PreviewError::UnsupportedContentType),
                },
            }
        }),
{
    match check_address(remote_allowed) {
        Err(e) => {
            return Err(e);
        },
        Ok(()) => {},
    }
    let Some(content_type) = content_type else {
        return Err(PreviewError::MissingContentType);
    };
    if starts_with(content_type, "text/html") {
        Ok(PreviewKind::Html)
    } else if starts_with(content_type, "image/") {
        Ok(PreviewKind::Image)
    } else {
        Err(PreviewError::UnsupportedContentType)
    }
}

/// Whether enough of a page has been read: more than `limit` bytes.
pub fn spider_limit_reached(received: usize, limit: usize) -> (r: bool)
    ensures
        r == (received > limit),
{
    received > limit
}

/// What the rules read of a URL.
#[derive(Debug, PartialEq, Eq)]
pub struct PreviewUrl {
    pub scheme: String,
    pub host: Option<String>,
    /// The URL as it is written.
    pub text: String,
}

/// The rules on which URLs may be previewed.
#[derive(Debug, PartialEq, Eq)]
pub struct UrlPreviewPolicy {
    /// A host is allowed when one of these entries contains it.
    pub domain_contains_allowlist: Vec<String>,
    /// A host is allowed when it is one of these.
    pub domain_explicit_allowlist: Vec<String>,
    /// A host is refused when it is one of these.
    pub domain_explicit_denylist: Vec<String>,
    /// A URL is allowed when it contains one of these.
    pub url_contains_allowlist: Vec<String>,
    /// Whether the domain above the host is consulted when the host itself
    /// is on no list.
    pub check_root_domain: bool,
}

/// The mathematical value of a [`UrlPreviewPolicy`].
pub struct Rules {
    pub domain_contains_allowlist: Seq<Seq<char>>,
    pub domain_explicit_allowlist: Seq<Seq<char>>,
    pub domain_explicit_denylist: Seq<Seq<char>>,
    pub url_contains_allowlist: Seq<Seq<char>>,
    pub check_root_domain: bool,
}

impl View for UrlPreviewPolicy {
    type V = Rules;

    open spec fn view(&self) -> Rules {
        Rules {
            domain_contains_allowlist: texts(self.domain_contains_allowlist@),
            domain_explicit_allowlist: texts(self.domain_explicit_allowlist@),
            domain_explicit_denylist: texts(self.domain_explicit_denylist@),
            url_contains_allowlist: texts(self.url_contains_allowlist@),
            check_root_domain: self.check_root_domain,
        }
    }
}

/// Some entry of `list` contains `part`.
pub open spec fn some_entry_contains(list: Seq<Seq<char>>, part: Seq<char>) -> bool {
    exists|k: int| 0 <= k < list.len() && occurs_in(part, #[trigger] list[k])
}

/// `text` contains some entry of `list`.
pub open spec fn contains_some_entry(text: Seq<char>, list: Seq<Seq<char>>) -> bool {
    exists|k: int| 0 <= k < list.len() && occurs_in(#[trigger] list[k], text)
}

/// What `str::to_lowercase` makes of a string.
pub uninterp spec fn lowercase(s: Seq<char>) -> Seq<char>;

/// The lower-case form of a string, by `str::to_lowercase`.
///
/// Not proved here: that the result depends on the string alone, which is
/// all the contract claims.
#[verifier::external_body]
pub(crate) fn to_lowercase(s: &str) -> (r: String)
    ensures
        r@ == lowercase(s@),
{
    s.to_lowercase()
}

impl Rules {
    /// One of the three allow lists holds the entry `*`.
    pub open spec fn allows_all(self) -> bool {
        ||| self.domain_contains_allowlist.contains("*"@)
        ||| self.domain_explicit_allowlist.contains("*"@)
        ||| self.url_contains_allowlist.contains("*"@)
    }

    /// What the lists say of the domain above the host: it is allowed when
    /// it stands on the deny list or on the list of allowed hosts, or when an
    /// entry of the list of allowed domains contains it.
    pub open spec fn root_allowed(self, root: Seq<char>) -> bool {
        ||| self.domain_explicit_denylist.contains(root)
        ||| self.domain_explicit_allowlist.contains(root)
        ||| some_entry_contains(self.domain_contains_allowlist, root)
    }

    /// Whether a URL may be previewed, given its scheme in lower case, its
    /// host and the URL as written.
    ///
    /// Only `http` and `https` URLs with a host are ever allowed. An entry
    /// `*` on an allow list allows all of them. Otherwise a URL with an empty
    /// host is refused, and the lists are asked in this order: the host on
    /// the deny list refuses; the host on the list of allowed hosts, an
    /// entry of the list of allowed domains that contains the host, and an
    /// entry of the list of URL parts that the URL contains each allow. A
    /// URL that none of them settles is refused, unless the domain above the
    /// host is to be consulted and `root_allowed` allows it.
    pub open spec fn allowed(self, scheme: Seq<char>, host: Option<Seq<char>>, text: Seq<char>) -> bool {
        if scheme != "http"@ && scheme != "https"@ {
            false
        } else if host is None {
            false
        } else if self.allows_all() {
            true
        } else if host->0.len() == 0 {
            false
        } else if self.domain_explicit_denylist.contains(host->0) {
            false
        } else if self.domain_explicit_allowlist.contains(host->0) {
            true
        } else if some_entry_contains(self.domain_contains_allowlist, host->0) {
            true
        } else if contains_some_entry(text, self.url_contains_allowlist) {
            true
        } else if !self.check_root_domain {
            false
        } else {
            match split_once_at(host->0, '.') {
                None => false,
                Some((_, root)) => self.root_allowed(root),
            }
        }
    }
}

/// Whether some entry of `list` contains `part`.
pub fn any_entry_contains(list: &Vec<String>, part: &str) -> (r: bool)
    ensures
        r == some_entry_contains(texts(list@), part@),
{
    let mut i: usize = 0;
    while i < list.len()
        invariant
            0 <= i <= list.len(),
            forall|k: int| 0 <= k < i ==> !occurs_in(part@, #[trigger] texts(list@)[k]),
        decreases list.len() - i,
    {
        if contains_text(list[i].as_str(), part) {
            assert(occurs_in(part@, texts(list@)[i as int]));
            return true;
        }
        assert(texts(list@)[i as int] == list@[i as int]@);
        i += 1;
    }
    false
}

/// Whether `text` contains some entry of `list`.
pub fn contains_any_entry(text: &str, list: &Vec<String>) -> (r: bool)
    ensures
        r == contains_some_entry(text@, texts(list@)),
{
    let mut i: usize = 0;
    while i < list.len()
        invariant
            0 <= i <= list.len(),
            forall|k: int| 0 <= k < i ==> !occurs_in(#[trigger] texts(list@)[k], text@),
        decreases list.len() - i,
    {
        if contains_text(text, list[i].as_str()) {
            assert(occurs_in(texts(list@)[i as int], text@));
            return true;
        }
        assert(texts(list@)[i as int] == list@[i as int]@);
        i += 1;
    }
    false
}

impl UrlPreviewPolicy {
    /// Whether a URL may be previewed, given its scheme in lower case, its
    /// host and the URL as written.
    pub fn allows(&self, scheme: &str, host: Option<&str>, text: &str) -> (r: bool)
        ensures
            r == self@.allowed(scheme@, opt_str(host), text@),
    {
        if !same_text(scheme, "http") && !same_text(scheme, "https") {
            return false;
        }
        let Some(host) = host else {
            return false;
        };
        if list_contains(&self.domain_contains_allowlist, "*") || list_contains(
            &self.domain_explicit_allowlist,
            "*",
        ) || list_contains(&self.url_contains_allowlist, "*") {
            return true;
        }
        if host.unicode_len() == 0 {
            return false;
        }
        if list_contains(&self.domain_explicit_denylist, host) {
            return false;
        }
        if list_contains(&self.domain_explicit_allowlist, host) {
            return true;
        }
        if any_entry_contains(&self.domain_contains_allowlist, host) {
            return true;
        }
        if contains_any_entry(text, &self.url_contains_allowlist) {
            return true;
        }
        if !self.check_root_domain {
            return false;
        }
        match split_once(host, '.') {
            None => false,
            Some((_, root)) => list_contains(&self.domain_explicit_denylist, root) || list_contains(
                &self.domain_explicit_allowlist,
                root,
            ) || any_entry_contains(&self.domain_contains_allowlist, root),
        }
    }

    /// Whether `url` may be previewed. The scheme is read without regard to
    /// case.
    pub fn url_preview_allowed(&self, url: &PreviewUrl) -> (r: bool)
        ensures
            r == self@.allowed(lowercase(url.scheme@), opt_text(url.host), url.text@),
    {
        let scheme = to_lowercase(url.scheme.as_str());
        let host = match &url.host {
            Some(h) => Some(h.as_str()),
            None => None,
        };
        self.allows(scheme.as_str(), host, url.text.as_str())
    }
}

} // verus!
