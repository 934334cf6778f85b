//! What is made of a fetched page or image, and which addresses may be
//! fetched from.

use vstd::prelude::*;
use crate::address::{address_like, is_address_like, is_plain_address, plain_address};
use crate::info::opt_text;
use crate::preview::{first_of, image_preview, Preview, PreviewError, UrlPreviewData};
use crate::text::{texts, to_chars};

verus! {

/// Whether the address range `range` includes `address`, as `ipaddress`
/// reads the two; `None` where it reads one of them as neither an address
/// nor a range.
pub uninterp spec fn range_holds(range: Seq<char>, address: Seq<char>) -> Option<bool>;

/// Asks `ipaddress` whether a range includes an address, with
/// `IPAddress::parse` on each and `IPAddress::includes`.
///
/// Both strings must be plain addresses. On other strings the parser is not
/// called: it subtracts without a check where an IPv6 address has more
/// than eight groups, and it prints and formats where the address stands
/// for an IPv4 address, which nothing here has followed to its end.
///
/// Not proved here: that the call returns on plain addresses, and that the
/// answer depends on the two strings alone.
#[verifier::external_body]
pub(crate) fn range_includes(range: &str, address: &str) -> (r: Option<bool>)
    requires
        plain_address(range@),
        plain_address(address@),
    ensures
        r == range_holds(range@, address@),
{
    let address = ipaddress::IPAddress::parse(address).ok()?;
    let range = ipaddress::IPAddress::parse(range).ok()?;
    Some(range.includes(&address))
}

/// The address must not be fetched from.
///
/// A plain address is denied where a range of `denied` includes it, and
/// where an entry of `denied` is no plain range, since such an entry cannot
/// be asked. A string that is no plain address is denied where it is
/// written like an address, since it cannot be held against the ranges;
/// every other string is a host name and is not denied.
pub open spec fn address_denied(denied: Seq<Seq<char>>, address: Seq<char>) -> bool {
    if plain_address(address) {
        exists|k: int|
            0 <= k < denied.len() && (!plain_address(#[trigger] denied[k]) || range_holds(
                denied[k],
                address,
            ) == Some(true))
    } else {
        address_like(address)
    }
}

/// Whether `address` may be fetched from: it is a host name, or it is a
/// plain address that none of the denied ranges includes. What is written
/// like an address and cannot be checked is refused; `is_plain_address`
/// tells which strings can be checked.
pub fn valid_cidr_range(denied: &Vec<String>, address: &str) -> (r: bool)
    ensures
        r == !address_denied(texts(denied@), address@),
{
    if !is_plain_address(address) {
        return !is_address_like(address);
    }
    let mut i: usize = 0;
    while i < denied.len()
        invariant
            0 <= i <= denied.len(),
            plain_address(address@),
            forall|k: int|
                0 <= k < i ==> plain_address(#[trigger] texts(denied@)[k]) && range_holds(
                    texts(denied@)[k],
                    address@,
                ) != Some(true),
        decreases denied.len() - i,
    {
        assert(texts(denied@)[i as int] == denied@[i as int]@);
        if !is_plain_address(denied[i].as_str()) {
            return false;
        }
        match range_includes(denied[i].as_str(), address) {
            Some(true) => {
                return false;
            },
            _ => {},
        }
        i += 1;
    }
    true
}

/// The width and height of the image that `bytes` hold, as `image` reads
/// them; `None` where it reads none.
pub uninterp spec fn image_dimensions(bytes: Seq<u8>) -> Option<(u32, u32)>;

/// Reads the dimensions of an image with `image`: `guess_format` tells the
/// format by the signature that the bytes begin with, and the decoder that
/// `ImageReader::with_format` makes for it reads the header.
///
/// Not proved here: that the decoders return on every input, and that the
/// result depends on the bytes alone.
#[verifier::external_body]
pub(crate) fn read_dimensions(bytes: &[u8]) -> (r: Option<(u32, u32)>)
    ensures
        r == image_dimensions(bytes@),
{
    let format = image::guess_format(bytes).ok()?;
    image::ImageReader::with_format(std::io::Cursor::new(bytes), format).into_dimensions().ok()
}

/// The text that `String::from_utf8_lossy` makes of bytes.
pub uninterp spec fn lossy_text(bytes: Seq<u8>) -> Seq<char>;

/// Reads bytes as text with `String::from_utf8_lossy`.
///
/// Not proved here: that the result depends on the bytes alone, which is
/// all the contract claims.
#[verifier::external_body]
pub(crate) fn from_utf8_lossy(bytes: &[u8]) -> (r: String)
    ensures
        r@ == lossy_text(bytes@),
{
    String::from_utf8_lossy(bytes).into_owned()
}

/// What a preview takes from a page.
#[derive(Debug, PartialEq, Eq)]
pub struct Page {
    /// The document's title.
    pub title: Option<String>,
    /// The document's description.
    pub description: Option<String>,
    /// The Open Graph property `title`.
    pub graph_title: Option<String>,
    /// The Open Graph property `description`.
    pub graph_description: Option<String>,
    /// The address of the first Open Graph image.
    pub graph_image: Option<String>,
}

/// The mathematical value of a [`Page`].
pub struct Document {
    pub title: Option<Seq<char>>,
    pub description: Option<Seq<char>>,
    pub graph_title: Option<Seq<char>>,
    pub graph_description: Option<Seq<char>>,
    pub graph_image: Option<Seq<char>>,
}

impl View for Page {
    type V = Document;

    open spec fn view(&self) -> Document {
        Document {
            title: opt_text(self.title),
            description: opt_text(self.description),
            graph_title: opt_text(self.graph_title),
            graph_description: opt_text(self.graph_description),
            graph_image: opt_text(self.graph_image),
        }
    }
}

/// The view of an optional page.
pub open spec fn opt_page(o: Option<Page>) -> Option<Document> {
    match o {
        Some(page) => Some(page@),
        None => None,
    }
}

/// The greatest number of `<` in a page that is handed to the parser. The
/// parser descends once for every level of nesting, and a page has at most
/// two levels for each `<`; this bound keeps the descent within a third of
/// a stack of two mebibytes.
pub const MAX_TAG_OPENERS: usize = 512;

/// The number of `<` in `s`. No element of a page stands deeper than twice
/// this number.
pub open spec fn tag_openers(s: Seq<char>) -> nat
    decreases s.len(),
{
    if s.len() == 0 {
        0
    } else {
        tag_openers(s.drop_last()) + if s.last() == '<' {
            1nat
        } else {
            0nat
        }
    }
}

/// The position at or after `i` of the first `<` that has `left` others
/// before it, or the length of `s` when there is none.
pub open spec fn opener_after(s: Seq<char>, i: int, left: nat) -> int
    decreases s.len() - i,
{
    if i < 0 || i >= s.len() {
        s.len() as int
    } else if s[i] == '<' {
        if left == 0 {
            i
        } else {
            opener_after(s, i + 1, (left - 1) as nat)
        }
    } else {
        opener_after(s, i + 1, left)
    }
}

/// The beginning of a page that is read: all of it up to the `<` that
/// exceeds the bound, and the whole page where none does.
pub open spec fn page_head(s: Seq<char>) -> Seq<char> {
    s.take(opener_after(s, 0, MAX_TAG_OPENERS as nat))
}

/// Cuts a page before the `<` that exceeds the bound.
pub fn cut_page(text: String) -> (r: String)
    ensures
        r@ == page_head(text@),
        tag_openers(r@) <= MAX_TAG_OPENERS,
{
    let chars = to_chars(text.as_str());
    let n = chars.len();
    let mut seen: usize = 0;
    let mut i: usize = 0;
    assert(text@.take(0) =~= Seq::<char>::empty());
    while i < n
        invariant
            n == chars@.len(),
            chars@ == text@,
            0 <= i <= n,
            seen <= MAX_TAG_OPENERS,
            seen == tag_openers(text@.take(i as int)),
            opener_after(text@, 0, MAX_TAG_OPENERS as nat) == opener_after(
                text@,
                i as int,
                (MAX_TAG_OPENERS - seen) as nat,
            ),
        decreases n - i,
    {
        assert(text@.take(i + 1).drop_last() =~= text@.take(i as int));
        if chars[i] == '<' {
            if seen == MAX_TAG_OPENERS {
                return text.as_str().substring_char(0, i).to_owned();
            }
            seen += 1;
        }
        i += 1;
    }
    assert(text@.take(n as int) =~= text@);
    text
}

/// What `webpage` reads out of the HTML text `body` of the page at `url`;
/// `None` where it cannot read the text.
pub uninterp spec fn document_of(body: Seq<char>, url: Seq<char>) -> Option<Document>;

/// Reads a page with `webpage`'s `HTML::from_string`, and takes from what it
/// finds the document's title and description, the Open Graph properties of
/// the same names, and the first Open Graph image.
///
/// The page must hold no more `<` than the bound: the parser walks the
/// page's tree by calling itself once for every level, without a limit.
///
/// Not proved here: that the call returns on a page within the bound, and
/// that the result depends on the two strings alone.
#[verifier::external_body]
pub(crate) fn parse_page(body: String, url: &str) -> (r: Option<Page>)
    requires
        tag_openers(body@) <= MAX_TAG_OPENERS,
    ensures
        opt_page(r) == document_of(body@, url@),
{
    let html = webpage::HTML::from_string(body, Some(url.to_owned())).ok()?;
    Some(
        Page {
            graph_title: html.opengraph.properties.get("title").cloned(),
            graph_description: html.opengraph.properties.get("description").cloned(),
            graph_image: html.opengraph.images.first().map(|image| image.url.clone()),
            title: html.title,
            description: html.description,
        },
    )
}

/// The view of what `read_page` returns.
pub open spec fn page_read(r: Result<Page, PreviewError>) -> Result<Document, PreviewError> {
    match r {
        Ok(page) => Ok(page@),
        Err(e) => Err(e),
    }
}

/// Reads the page at `url` from the bytes of its body. Bytes that are no
/// UTF-8 are replaced, and the page is read up to the `<` that exceeds the
/// bound; what a preview takes from a page stands in its head.
pub fn read_page(bytes: &[u8], url: &str) -> (r: Result<Page, PreviewError>)
    ensures
        page_read(r) == (match document_of(page_head(lossy_text(bytes@)), url@) {
            Some(document) => Ok(document),
            None => Err(PreviewError::InvalidHtml),
        }),
{
    match parse_page(cut_page(from_utf8_lossy(bytes)), url) {
        Some(page) => Ok(page),
        None => Err(PreviewError::InvalidHtml),
    }
}

impl UrlPreviewData {
    /// The preview of the image that `bytes` hold and that is stored under
    /// `location`.
    pub fn of_image(location: String, bytes: &[u8]) -> (r: Self)
        ensures
            r@ == image_preview(location@, bytes@.len() as usize, image_dimensions(bytes@)),
    {
        UrlPreviewData::for_image(location, bytes.len(), read_dimensions(bytes))
    }

    /// Gives the preview the title and description of a page: its Open
    /// Graph properties, and where one is missing, the document's own.
    pub fn with_page(self, page: Page) -> (r: Self)
        ensures
            r@ == (Preview {
                title: first_of(page@.graph_title, page@.title),
                description: first_of(page@.graph_description, page@.description),
                ..self@
            }),
    {
        self.with_metadata(page.graph_title, page.title, page.graph_description, page.description)
    }
}

} // verus!
