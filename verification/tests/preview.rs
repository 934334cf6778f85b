use uiaa::address::{is_address_like, is_plain_address};
use uiaa::fetch::{cut_page, read_page, valid_cidr_range, Page, MAX_TAG_OPENERS};
use uiaa::preview::{
    any_entry_contains, check_address, classify_response, contains_any_entry,
    spider_limit_reached, PreviewError, PreviewKind, PreviewUrl, UrlPreviewData,
    UrlPreviewPolicy,
};

fn list(items: &[&str]) -> Vec<String> {
    items.iter().map(|s| s.to_string()).collect()
}

fn policy() -> UrlPreviewPolicy {
    UrlPreviewPolicy {
        domain_contains_allowlist: vec![],
        domain_explicit_allowlist: vec![],
        domain_explicit_denylist: vec![],
        url_contains_allowlist: vec![],
        check_root_domain: false,
    }
}

fn url(scheme: &str, host: Option<&str>, text: &str) -> PreviewUrl {
    PreviewUrl { scheme: scheme.to_owned(), host: host.map(|h| h.to_owned()), text: text.to_owned() }
}

fn page(host: &str) -> PreviewUrl {
    url("https", Some(host), &format!("https://{}/page", host))
}

#[test]
fn nothing_is_allowed_by_empty_lists() {
    assert!(!policy().url_preview_allowed(&page("example.org")));
}

#[test]
fn only_http_and_https_are_previewed() {
    let mut p = policy();
    p.domain_explicit_allowlist = list(&["*"]);
    assert!(p.url_preview_allowed(&url("http", Some("example.org"), "http://example.org/")));
    assert!(p.url_preview_allowed(&url("https", Some("example.org"), "https://example.org/")));
    assert!(p.url_preview_allowed(&url("HTTPS", Some("example.org"), "HTTPS://example.org/")));
    assert!(p.url_preview_allowed(&url("Http", Some("example.org"), "Http://example.org/")));
    assert!(!p.url_preview_allowed(&url("ftp", Some("example.org"), "ftp://example.org/")));
    assert!(!p.url_preview_allowed(&url("httpx", Some("example.org"), "httpx://example.org/")));
    assert!(!p.url_preview_allowed(&url("", Some("example.org"), "example.org")));
    assert!(!p.allows("HTTPS", Some("example.org"), "https://example.org/"));
    assert!(p.allows("https", Some("example.org"), "https://example.org/"));
}

#[test]
fn a_url_without_host_is_refused() {
    let mut p = policy();
    p.domain_explicit_allowlist = list(&["*"]);
    assert!(!p.url_preview_allowed(&url("https", None, "https:///x")));
}

#[test]
fn a_star_on_any_allow_list_allows_everything() {
    for which in 0..3 {
        let mut p = policy();
        p.domain_explicit_denylist = list(&["example.org"]);
        match which {
            0 => p.domain_contains_allowlist = list(&["a", "*"]),
            1 => p.domain_explicit_allowlist = list(&["*"]),
            _ => p.url_contains_allowlist = list(&["*", "b"]),
        }
        assert!(p.url_preview_allowed(&page("example.org")));
        assert!(p.url_preview_allowed(&url("http", Some(""), "http:///x")));
    }
    let mut denied = policy();
    denied.domain_explicit_denylist = list(&["*"]);
    assert!(!denied.url_preview_allowed(&page("example.org")));
}

#[test]
fn an_empty_host_is_refused_without_a_star() {
    let mut p = policy();
    p.url_contains_allowlist = list(&["http"]);
    p.domain_explicit_allowlist = list(&[""]);
    assert!(!p.url_preview_allowed(&url("http", Some(""), "http:///x")));
}

#[test]
fn the_deny_list_comes_first() {
    let mut p = policy();
    p.domain_explicit_denylist = list(&["bad.example.org"]);
    p.domain_explicit_allowlist = list(&["bad.example.org", "good.example.org"]);
    p.domain_contains_allowlist = list(&["example.org"]);
    p.url_contains_allowlist = list(&["page"]);
    assert!(!p.url_preview_allowed(&page("bad.example.org")));
    assert!(p.url_preview_allowed(&page("good.example.org")));
}

#[test]
fn the_host_must_be_an_allowed_host_exactly() {
    let mut p = policy();
    p.domain_explicit_allowlist = list(&["example.org"]);
    assert!(p.url_preview_allowed(&page("example.org")));
    assert!(!p.url_preview_allowed(&page("www.example.org")));
    assert!(!p.url_preview_allowed(&page("example.or")));
    assert!(!p.url_preview_allowed(&page("Example.org")));
}

#[test]
fn an_allowed_domain_entry_must_contain_the_host() {
    let mut p = policy();
    p.domain_contains_allowlist = list(&["cdn.example.org"]);
    assert!(p.url_preview_allowed(&page("cdn.example.org")));
    assert!(p.url_preview_allowed(&page("example.org")));
    assert!(p.url_preview_allowed(&page("cdn")));
    assert!(!p.url_preview_allowed(&page("img.cdn.example.org")));
    assert!(any_entry_contains(&list(&["abc", "xyz"]), "yz"));
    assert!(!any_entry_contains(&list(&["abc", "xyz"]), "abcd"));
    assert!(!any_entry_contains(&vec![], ""));
}

#[test]
fn the_url_must_contain_an_allowed_part() {
    let mut p = policy();
    p.url_contains_allowlist = list(&["/wiki/", "example.net"]);
    assert!(p.url_preview_allowed(&url("https", Some("a.org"), "https://a.org/wiki/Rust")));
    assert!(p.url_preview_allowed(&url("https", Some("example.net"), "https://example.net/")));
    assert!(!p.url_preview_allowed(&url("https", Some("a.org"), "https://a.org/wik/i/")));
    assert!(contains_any_entry("https://a.org/x", &list(&["zzz", "a.org"])));
    assert!(!contains_any_entry("https://a.org/x", &list(&["zzz", "b.org"])));
    assert!(!contains_any_entry("anything", &vec![]));
}

#[test]
fn the_domain_above_the_host_is_asked_only_on_request() {
    let mut p = policy();
    p.domain_explicit_allowlist = list(&["example.org"]);
    assert!(!p.url_preview_allowed(&page("www.example.org")));
    p.check_root_domain = true;
    assert!(p.url_preview_allowed(&page("www.example.org")));
    assert!(!p.url_preview_allowed(&page("a.www.example.org")));
    assert!(!p.url_preview_allowed(&page("localhost")));
    assert!(!p.url_preview_allowed(&page("www.example.net")));
}

#[test]
fn the_domain_above_the_host_on_each_list() {
    let mut contains = policy();
    contains.check_root_domain = true;
    contains.domain_contains_allowlist = list(&["cdn.example.org"]);
    assert!(contains.url_preview_allowed(&page("img.cdn.example.org")));
    assert!(contains.url_preview_allowed(&page("x.example.org")));
    assert!(!contains.url_preview_allowed(&page("x.y.cdn.example.org")));

    let mut denied = policy();
    denied.check_root_domain = true;
    denied.domain_explicit_denylist = list(&["example.org"]);
    assert!(!denied.url_preview_allowed(&page("example.org")));
    assert!(denied.url_preview_allowed(&page("www.example.org")));
    denied.check_root_domain = false;
    assert!(!denied.url_preview_allowed(&page("www.example.org")));
}

#[test]
fn addresses_outside_the_permitted_ranges_are_forbidden() {
    assert_eq!(check_address(None), Ok(()));
    assert_eq!(check_address(Some(true)), Ok(()));
    assert_eq!(check_address(Some(false)), Err(PreviewError::ForbiddenAddress));
}

#[test]
fn responses_are_classified_by_content_type() {
    assert_eq!(classify_response(None, Some("text/html")), Ok(PreviewKind::Html));
    assert_eq!(
        classify_response(Some(true), Some("text/html; charset=utf-8")),
        Ok(PreviewKind::Html)
    );
    assert_eq!(classify_response(None, Some("image/png")), Ok(PreviewKind::Image));
    assert_eq!(classify_response(None, Some("image/")), Ok(PreviewKind::Image));
    assert_eq!(
        classify_response(None, Some("application/json")),
        Err(PreviewError::UnsupportedContentType)
    );
    assert_eq!(classify_response(None, Some("Text/HTML")), Err(PreviewError::UnsupportedContentType));
    assert_eq!(classify_response(None, Some(" text/html")), Err(PreviewError::UnsupportedContentType));
    assert_eq!(classify_response(None, Some("image")), Err(PreviewError::UnsupportedContentType));
    assert_eq!(classify_response(None, None), Err(PreviewError::MissingContentType));
    assert_eq!(
        classify_response(Some(false), Some("text/html")),
        Err(PreviewError::ForbiddenAddress)
    );
    assert_eq!(classify_response(Some(false), None), Err(PreviewError::ForbiddenAddress));
}

#[test]
fn preview_errors_have_their_texts() {
    assert_eq!(
        PreviewError::ForbiddenAddress.message(),
        "Requesting from this address is forbidden"
    );
    assert_eq!(
        PreviewError::MissingContentType.message(),
        "Unknown or invalid Content-Type header"
    );
    assert_eq!(PreviewError::UnsupportedContentType.message(), "Unsupported Content-Type");
    assert_eq!(PreviewError::InvalidHtml.message(), "Failed to parse HTML");
}

#[test]
fn addresses_in_denied_ranges_are_not_valid() {
    let denied = list(&["127.0.0.0/8", "10.0.0.0/8", "192.168.0.0/16", "::1/128", "fe80::/64"]);
    assert!(!valid_cidr_range(&denied, "127.0.0.1"));
    assert!(!valid_cidr_range(&denied, "10.255.0.7"));
    assert!(!valid_cidr_range(&denied, "192.168.1.1"));
    assert!(!valid_cidr_range(&denied, "::1"));
    assert!(!valid_cidr_range(&denied, "fe80::1"));
    assert!(!valid_cidr_range(&denied, "fe80::ffff:1"));
    assert!(!valid_cidr_range(&denied, "FE80:0:0:0:ffff:FFFF:ffff:ffff"));
    assert!(valid_cidr_range(&denied, "fe80:0:0:1::ffff"));
    assert!(valid_cidr_range(&denied, "192.169.1.1"));
    assert!(valid_cidr_range(&denied, "8.8.8.8"));
    assert!(valid_cidr_range(&denied, "2001:db8::1"));
    assert!(valid_cidr_range(&denied, "ffff::1"));
    assert!(valid_cidr_range(&vec![], "127.0.0.1"));
    assert!(valid_cidr_range(&vec![], "::"));
}

#[test]
fn host_names_are_in_no_range() {
    let denied = list(&["::/0", "0.0.0.0/0"]);
    for host in ["example.org", "localhost", "bad.de", "cafe.ee", "fee.de", "[::1]", "[fe80::1]", "g::1", "", "1234", "a-b.c"] {
        assert!(!is_plain_address(host), "{:?}", host);
        assert!(!is_address_like(host), "{:?}", host);
        assert!(valid_cidr_range(&denied, host), "{:?}", host);
        assert!(valid_cidr_range(&list(&["not a range"]), host), "{:?}", host);
    }
}

#[test]
fn what_is_written_like_an_address_and_cannot_be_checked_is_refused() {
    for other in [
        "1:2:3:4:5:6:7:8:9::1",
        "1:2:3:4:5:6:7:8:9",
        "::ffff:127.0.0.1",
        "::ffff:7f00:1",
        "0:0:0:0:0:ffff:7f00:1",
        "::FFFF:0:0",
        "127.1",
        " 127.0.0.1",
        "127.0.0.1 ",
        "+127.0.0.1",
        "1.2.3.4.5",
        "1.2.3.256",
        "1.2.3.0004",
        "1::2::3",
        ":::",
        "12345::",
        "1.2.3.4/33",
        "::1/129",
        "1.2.3.4:5",
        "ab:cd",
    ] {
        assert!(!is_plain_address(other), "{:?}", other);
        assert!(is_address_like(other), "{:?}", other);
        assert!(!valid_cidr_range(&vec![], other), "{:?}", other);
        assert!(!valid_cidr_range(&list(&["10.0.0.0/8"]), other), "{:?}", other);
    }
}

#[test]
fn a_range_that_cannot_be_read_denies_every_address() {
    for entry in ["not a range", "1:2:3:4:5:6:7:8:9::1/64", "::ffff:0:0/96", "10.0.0.0/33", ""] {
        let denied = list(&["192.168.0.0/16", entry]);
        assert!(!valid_cidr_range(&denied, "8.8.8.8"), "{:?}", entry);
        assert!(!valid_cidr_range(&denied, "2001:db8::1"), "{:?}", entry);
        assert!(valid_cidr_range(&denied, "example.org"), "{:?}", entry);
    }
}

#[test]
fn plain_addresses_are_told_by_their_spelling() {
    for plain in [
        "0.0.0.0",
        "255.255.255.255",
        "001.02.3.4",
        "10.0.0.0/8",
        "10.0.0.0/0",
        "10.0.0.0/32",
        "::",
        "::1",
        "1::",
        "fe80::/10",
        "2001:db8::8:800:200C:417A",
        "2001:0db8:0000:0000:0008:0800:200c:417a",
        "1:2:3:4:5:6:7:8/128",
        "1:2:3::5:6:7:8",
        "fff::1",
        "FFF0::ffF",
        "ffff::",
        "2001:db8:fFfF::1",
        "fe80::ffff:1",
        "::ffff",
        "::ffff:0",
        "0:0:0:0:1:ffff:0:0",
        "::1:ffff:0:0",
        "::/0",
    ] {
        assert!(is_plain_address(plain), "{:?}", plain);
        assert!(is_address_like(plain), "{:?}", plain);
    }
    for other in [
        "10.0.0.0/33",
        "10.0.0.0/",
        "10.0.0.0/8/8",
        "10.0.0/8",
        "10.0.0.0/008",
        "::/129",
        "::1/1280",
        "1:2:3:4:5:6:7::8",
        "1:2:3:4:5:6:7",
        "::ffff:0:0",
        "::FFFF:1:2",
        "0::ffff:1:2",
        "0:0::0:ffff:1:2",
        "0000:0:00:000:0:fFfF:1:2",
        "::ffff:0:0/96",
        "1.2.3.4:5",
        "1:2:3:4:5:6:7:8:",
        ":1:2:3:4:5:6:7:8",
        "/",
        "/8",
    ] {
        assert!(!is_plain_address(other), "{:?}", other);
    }
}

fn nested(depth: usize, opener: &str) -> Vec<u8> {
    let mut page = String::from(
        "<html><head><title>Deep</title><meta property=\"og:title\" content=\"Graph\"></head><body>",
    );
    for _ in 0..depth {
        page.push_str(opener);
    }
    page.into_bytes()
}

#[test]
fn a_deeply_nested_page_is_read_up_to_the_bound() {
    for opener in ["<div>", "<table><td>", "<table><tr><td>", "<b><p>", "<p><b><i></p>x", "<a><div>"] {
        for depth in [100, 1000, 20_000, 200_000] {
            let page = read_page(&nested(depth, opener), "https://example.org/").unwrap();
            assert_eq!(page.title, Some("Deep".to_owned()), "{} {}", opener, depth);
            assert_eq!(page.graph_title, Some("Graph".to_owned()), "{} {}", opener, depth);
        }
    }
}

#[test]
fn a_page_is_cut_before_the_opener_that_exceeds_the_bound() {
    assert_eq!(MAX_TAG_OPENERS, 512);
    assert_eq!(cut_page(String::new()), "");
    assert_eq!(cut_page("no tags at all".to_owned()), "no tags at all");
    let within = "<p>é</p>".repeat(256);
    assert_eq!(cut_page(within.clone()), within);
    let over = format!("{}text<b>more<i>", within);
    assert_eq!(cut_page(over), format!("{}text", within));
    let openers = "<".repeat(600);
    assert_eq!(cut_page(openers), "<".repeat(512));
    let late = format!("{}{}", "x".repeat(5000), "<a>".repeat(513));
    assert_eq!(cut_page(late), format!("{}{}", "x".repeat(5000), "<a>".repeat(512)));
}

#[test]
fn what_stands_behind_the_bound_is_not_read() {
    let mut page = String::from("<html><head><title>Early</title>");
    page.push_str(&"<link>".repeat(520));
    page.push_str("<meta property=\"og:title\" content=\"Late\"></head></html>");
    let read = read_page(page.as_bytes(), "https://example.org/").unwrap();
    assert_eq!(read.title, Some("Early".to_owned()));
    assert_eq!(read.graph_title, None);
}

fn chunk(kind: &[u8; 4], data: &[u8]) -> Vec<u8> {
    let mut body = kind.to_vec();
    body.extend_from_slice(data);
    let mut crc: u32 = 0xFFFF_FFFF;
    for byte in &body {
        crc ^= u32::from(*byte);
        for _ in 0..8 {
            crc = if crc & 1 == 1 { (crc >> 1) ^ 0xEDB8_8320 } else { crc >> 1 };
        }
    }
    let mut bytes = (data.len() as u32).to_be_bytes().to_vec();
    bytes.extend_from_slice(&body);
    bytes.extend_from_slice(&(!crc).to_be_bytes());
    bytes
}

fn png(width: u32, height: u32) -> Vec<u8> {
    let mut header = width.to_be_bytes().to_vec();
    header.extend_from_slice(&height.to_be_bytes());
    header.extend_from_slice(&[8, 6, 0, 0, 0]);
    let mut bytes = vec![0x89, 0x50, 0x4E, 0x47, 0x0D, 0x0A, 0x1A, 0x0A];
    bytes.extend_from_slice(&chunk(b"IHDR", &header));
    bytes.extend_from_slice(&chunk(b"IDAT", &[0x78, 0x9C, 0x03, 0x00, 0x00, 0x00, 0x00, 0x01]));
    bytes.extend_from_slice(&chunk(b"IEND", &[]));
    bytes
}

#[test]
fn image_preview_reads_the_dimensions_from_the_bytes() {
    let bytes = png(640, 480);
    let data = UrlPreviewData::of_image("mxc://example.org/abc".to_owned(), &bytes);
    assert_eq!(
        data,
        UrlPreviewData {
            title: None,
            description: None,
            image: Some("mxc://example.org/abc".to_owned()),
            image_size: Some(bytes.len()),
            image_width: Some(640),
            image_height: Some(480),
        }
    );
    let other = UrlPreviewData::of_image("mxc://example.org/def".to_owned(), &png(3, 70000));
    assert_eq!(other.image_width, Some(3));
    assert_eq!(other.image_height, Some(70000));
}

#[test]
fn image_preview_of_unreadable_bytes_has_no_dimensions() {
    for bytes in [&b"not an image"[..], &[][..], &png(640, 480)[..20]] {
        let data = UrlPreviewData::of_image("mxc://example.org/abc".to_owned(), bytes);
        assert_eq!(data.image, Some("mxc://example.org/abc".to_owned()));
        assert_eq!(data.image_size, Some(bytes.len()));
        assert_eq!(data.image_width, None);
        assert_eq!(data.image_height, None);
    }
}

#[test]
fn pages_are_read_for_their_titles_and_first_image() {
    let html = "<html><head><title>Plain title</title>\
        <meta name=\"description\" content=\"Plain text\">\
        <meta property=\"og:title\" content=\"Graph title\">\
        <meta property=\"og:image\" content=\"https://example.org/one.png\">\
        <meta property=\"og:image\" content=\"https://example.org/two.png\">\
        </head><body>hello</body></html>";
    assert_eq!(
        read_page(html.as_bytes(), "https://example.org/"),
        Ok(Page {
            title: Some("Plain title".to_owned()),
            description: Some("Plain text".to_owned()),
            graph_title: Some("Graph title".to_owned()),
            graph_description: None,
            graph_image: Some("https://example.org/one.png".to_owned()),
        })
    );
    let empty = Page {
        title: None,
        description: None,
        graph_title: None,
        graph_description: None,
        graph_image: None,
    };
    assert_eq!(read_page(b"", "https://example.org/"), Ok(empty));
    let mut broken = b"<title>caf".to_vec();
    broken.extend_from_slice(&[0xC3]);
    broken.extend_from_slice(b"</title>");
    assert_eq!(
        read_page(&broken, "https://example.org/").unwrap().title,
        Some("caf\u{FFFD}".to_owned())
    );
}

#[test]
fn a_page_gives_the_preview_its_title_and_description() {
    let page = Page {
        title: Some("Plain title".to_owned()),
        description: Some("Plain text".to_owned()),
        graph_title: Some("Graph title".to_owned()),
        graph_description: None,
        graph_image: Some("https://example.org/one.png".to_owned()),
    };
    let data = UrlPreviewData::of_image("mxc://example.org/abc".to_owned(), &png(2, 2))
        .with_page(page);
    assert_eq!(data.title, Some("Graph title".to_owned()));
    assert_eq!(data.description, Some("Plain text".to_owned()));
    assert_eq!(data.image, Some("mxc://example.org/abc".to_owned()));
    assert_eq!(data.image_width, Some(2));
}

#[test]
fn reading_stops_once_the_limit_is_passed() {
    assert!(!spider_limit_reached(0, 0));
    assert!(!spider_limit_reached(1000, 1000));
    assert!(spider_limit_reached(1001, 1000));
    assert!(!spider_limit_reached(5, usize::MAX));
}

#[test]
fn default_preview_says_nothing() {
    let data = UrlPreviewData::default();
    assert_eq!(
        data,
        UrlPreviewData {
            title: None,
            description: None,
            image: None,
            image_size: None,
            image_width: None,
            image_height: None,
        }
    );
}

#[test]
fn image_preview_holds_location_size_and_dimensions() {
    let data = UrlPreviewData::for_image("mxc://example.org/abc".to_owned(), 2048, Some((640, 480)));
    assert_eq!(
        data,
        UrlPreviewData {
            title: None,
            description: None,
            image: Some("mxc://example.org/abc".to_owned()),
            image_size: Some(2048),
            image_width: Some(640),
            image_height: Some(480),
        }
    );
    let blind = UrlPreviewData::for_image("mxc://example.org/abc".to_owned(), 0, None);
    assert_eq!(blind.image_size, Some(0));
    assert_eq!(blind.image_width, None);
    assert_eq!(blind.image_height, None);
}

#[test]
fn open_graph_metadata_comes_before_the_documents_own() {
    let base = || UrlPreviewData::for_image("mxc://example.org/abc".to_owned(), 7, Some((1, 2)));
    let s = |t: &str| Some(t.to_owned());
    let both = base().with_metadata(s("og title"), s("html title"), s("og text"), s("html text"));
    assert_eq!(both.title, s("og title"));
    assert_eq!(both.description, s("og text"));
    assert_eq!(both.image, s("mxc://example.org/abc"));
    assert_eq!(both.image_size, Some(7));
    assert_eq!(both.image_width, Some(1));
    assert_eq!(both.image_height, Some(2));
    let fallback = base().with_metadata(None, s("html title"), None, s("html text"));
    assert_eq!(fallback.title, s("html title"));
    assert_eq!(fallback.description, s("html text"));
    let mixed = base().with_metadata(s(""), s("html title"), None, None);
    assert_eq!(mixed.title, s(""));
    assert_eq!(mixed.description, None);
    let none = UrlPreviewData::default().with_metadata(None, None, None, None);
    assert_eq!(none, UrlPreviewData::default());
}
