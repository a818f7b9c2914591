//! The origin of a page, as it goes out with a notification.

use crate::decimal::{decimal, decimal_text};
use vstd::prelude::*;

verus! {

/// What an origin is made of, out of a parsed URL.
pub struct UrlParts {
    pub scheme: String,
    pub host: Option<String>,
    pub port: Option<u16>,
}

impl View for UrlParts {
    type V = (Seq<char>, Option<Seq<char>>, Option<u16>);

    open spec fn view(&self) -> (Seq<char>, Option<Seq<char>>, Option<u16>) {
        (
            self.scheme@,
            match self.host {
                Some(host) => Some(host@),
                None => None,
            },
            self.port,
        )
    }
}

/// What `url::Url::parse` reads out of a text: scheme, host and port of the URL, or `None` where the
/// text is no absolute URL.
pub uninterp spec fn parsed_url(url: Seq<char>) -> Option<
    (Seq<char>, Option<Seq<char>>, Option<u16>),
>;

/// `url::Url::parse`, and of the URL that it returns `scheme`, `host_str` and `port`, each copied as
/// it is. Claims that the parts are a function of the text alone, the one that `parsed_url` names,
/// and that they are missing exactly where the parser reports an error. What the parts of a given
/// text are is left unsaid.
#[verifier::external_body]
fn parse_url(url: &str) -> (parts: Option<UrlParts>)
    ensures
        parsed_url(url@) == (match parts {
            Some(parts) => Some(parts@),
            None => None,
        }),
{
    match url::Url::parse(url) {
        Ok(parsed) => Some(
            UrlParts {
                scheme: parsed.scheme().to_string(),
                host: match parsed.host_str() {
                    Some(host) => Some(host.to_string()),
                    None => None,
                },
                port: parsed.port(),
            },
        ),
        Err(_) => None,
    }
}

/// The origin that the parts of a URL spell: scheme and host, and the port where there is one.
/// Without a host, and without a URL, it is empty.
pub open spec fn origin_text(
    parts: Option<(Seq<char>, Option<Seq<char>>, Option<u16>)>,
) -> Seq<char> {
    match parts {
        Some((scheme, Some(host), Some(port))) => scheme + seq![':', '/', '/'] + host + seq![':']
            + decimal_text(port as nat),
        Some((scheme, Some(host), None)) => scheme + seq![':', '/', '/'] + host,
        Some((_, None, _)) => Seq::empty(),
        None => Seq::empty(),
    }
}

/// Spells the origin of a URL out of its parts.
pub fn origin_from_parts(parts: &Option<UrlParts>) -> (origin: String)
    ensures
        origin@ == origin_text(
            match *parts {
                Some(parts) => Some(parts@),
                None => None,
            },
        ),
{
    proof {
        reveal_strlit("://");
        reveal_strlit(":");
        assert("://"@ =~= seq![':', '/', '/']);
        assert(":"@ =~= seq![':']);
    }
    match parts {
        Some(parts) => match &parts.host {
            Some(host) => {
                let mut origin = parts.scheme.clone();
                origin.append("://");
                origin.append(host.as_str());
                if let Some(port) = parts.port {
                    origin.append(":");
                    origin.append(decimal(port).as_str());
                }
                origin
            },
            None => String::new(),
        },
        None => String::new(),
    }
}

/// The origin of the page at `url`, by a full parse of the URL.
pub fn origin_from_url(url: &str) -> (origin: String)
    ensures
        origin@ == origin_text(parsed_url(url@)),
{
    origin_from_parts(&parse_url(url))
}

/// The three characters `://` stand at `at`.
pub open spec fn separator_at(url: Seq<char>, at: int) -> bool {
    0 <= at && at + 3 <= url.len() && url[at] == ':' && url[at + 1] == '/' && url[at + 2] == '/'
}

/// `at` is where the first `://` stands.
pub open spec fn first_separator(url: Seq<char>, at: int) -> bool {
    separator_at(url, at) && forall|before: int| before < at ==> !#[trigger] separator_at(url, before)
}

/// `end` is where the first `/` stands behind the `://` at `at`, or the end of the text where there
/// is none.
pub open spec fn host_ends(url: Seq<char>, at: int, end: int) -> bool {
    &&& at + 3 <= end <= url.len()
    &&& forall|i: int| at + 3 <= i < end ==> #[trigger] url[i] != '/'
    &&& end < url.len() ==> url[end] == '/'
}

/// `origin` is the start of `url` up to and without the `/` that ends the host, or empty where `url`
/// holds no `://`.
pub open spec fn cuts_origin(url: Seq<char>, origin: Seq<char>) -> bool {
    if exists|at: int| separator_at(url, at) {
        exists|at: int, end: int|
            #[trigger] first_separator(url, at) && #[trigger] host_ends(url, at, end) && origin
                == url.take(end)
    } else {
        origin.len() == 0
    }
}

/// The characters of a text.
fn characters(text: &str) -> (chars: Vec<char>)
    ensures
        chars@ == text@,
{
    let mut chars: Vec<char> = Vec::new();
    for c in iter: text.chars()
        invariant
            chars@ == iter.seq().take(iter.index()),
            iter.seq() == text@,
    {
        chars.push(c);
    }
    chars
}

/// Where the first `://` stands, if any.
fn find_separator(chars: &Vec<char>) -> (found: Option<usize>)
    ensures
        match found {
            Some(at) => first_separator(chars@, at as int),
            None => forall|at: int| !separator_at(chars@, at),
        },
{
    let mut at: usize = 0;
    while at < chars.len() && chars.len() - at >= 3
        invariant
            at <= chars@.len(),
            forall|before: int| before < at ==> !#[trigger] separator_at(chars@, before),
        decreases chars@.len() - at,
    {
        if chars[at] == ':' && chars[at + 1] == '/' && chars[at + 2] == '/' {
            return Some(at);
        }
        at += 1;
    }
    None
}

/// Where the host behind the `://` at `at` ends.
fn find_host_end(chars: &Vec<char>, at: usize) -> (end: usize)
    requires
        separator_at(chars@, at as int),
    ensures
        host_ends(chars@, at as int, end as int),
{
    let count: usize = chars.len();
    let mut end: usize = at + 3;
    while end < count && chars[end] != '/'
        invariant
            count == chars@.len(),
            at + 3 <= end <= count,
            forall|i: int| at + 3 <= i < end ==> #[trigger] chars@[i] != '/',
        decreases count - end,
    {
        end += 1;
    }
    end
}

/// The origin of the page at `url`, cut out of the text without parsing it: everything before the
/// path. A text without `://` has none.
pub fn origin_from(url: &str) -> (origin: String)
    ensures
        cuts_origin(url@, origin@),
{
    let chars = characters(url);
    match find_separator(&chars) {
        Some(at) => {
            let end = find_host_end(&chars, at);
            url.substring_char(0, end).to_owned()
        },
        None => String::new(),
    }
}

/// A text has one cut-out origin only.
pub proof fn cut_origin_is_unique(url: Seq<char>, one: Seq<char>, other: Seq<char>)
    requires
        cuts_origin(url, one),
        cuts_origin(url, other),
    ensures
        one == other,
{
    if exists|at: int| separator_at(url, at) {
        let (at1, end1) = choose|at: int, end: int|
            #[trigger] first_separator(url, at) && #[trigger] host_ends(url, at, end) && one
                == url.take(end);
        let (at2, end2) = choose|at: int, end: int|
            #[trigger] first_separator(url, at) && #[trigger] host_ends(url, at, end) && other
                == url.take(end);
        assert(separator_at(url, at1) && separator_at(url, at2));
        assert(at1 == at2);
        assert(end1 == end2) by {
            if end1 < end2 {
                assert(url[end1] != '/');
            } else if end2 < end1 {
                assert(url[end2] != '/');
            }
        }
    } else {
        assert(one =~= other);
    }
}

/// A cut-out origin is its own origin.
pub proof fn cut_origin_is_stable(url: Seq<char>, origin: Seq<char>)
    requires
        cuts_origin(url, origin),
    ensures
        cuts_origin(origin, origin),
{
    if exists|at: int| separator_at(url, at) {
        let (at, end) = choose|at: int, end: int|
            #[trigger] first_separator(url, at) && #[trigger] host_ends(url, at, end) && origin
                == url.take(end);
        assert(separator_at(origin, at));
        assert forall|before: int| before < at implies !#[trigger] separator_at(origin, before) by {
            assert(!separator_at(url, before));
        }
        assert(first_separator(origin, at));
        assert(host_ends(origin, at, end));
        assert(origin =~= origin.take(end));
    }
}

/// What comes behind the host of a URL, from a `/` on, does not show in the cut-out origin.
pub proof fn cut_origin_ignores_path(url: Seq<char>, path: Seq<char>, origin: Seq<char>)
    requires
        cuts_origin(url, origin),
        exists|at: int| separator_at(url, at),
        path.len() > 0,
        path[0] == '/',
    ensures
        cuts_origin(url + path, origin),
{
    let whole = url + path;
    let (at, end) = choose|at: int, end: int|
        #[trigger] first_separator(url, at) && #[trigger] host_ends(url, at, end) && origin
            == url.take(end);
    assert(separator_at(whole, at));
    assert forall|before: int| before < at implies !#[trigger] separator_at(whole, before) by {
        assert(!separator_at(url, before));
    }
    assert(first_separator(whole, at));
    assert(host_ends(whole, at, end));
    assert(origin =~= whole.take(end));
}

/// The parsed origin is empty exactly for a text that is no URL and for a URL without a host.
pub proof fn parsed_origin_is_empty(
    parts: Option<(Seq<char>, Option<Seq<char>>, Option<u16>)>,
)
    ensures
        origin_text(parts).len() == 0 <==> (parts matches Some((_, host, _)) ==> host is None),
{
}

} // verus!
