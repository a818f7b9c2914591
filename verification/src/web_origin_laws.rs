//! What the two ways to work out an origin give, and what can be read back from it.

use crate::decimal::{decimal_text, decimal_text_has_value, value_of};
use crate::web_origin::{cuts_origin, first_separator, host_ends, origin_from,
    origin_from_parts, origin_from_url, origin_text, parsed_url, separator_at, UrlParts};
use vstd::prelude::*;

verus! {

/// `origin` spells scheme and host, and behind them the digits of the port where there is one.
pub open spec fn spells_origin(
    origin: Seq<char>,
    scheme: Seq<char>,
    host: Seq<char>,
    port: Option<u16>,
) -> bool {
    let page = scheme + seq![':', '/', '/'] + host;
    match port {
        None => origin == page,
        Some(number) => {
            &&& origin.len() > page.len() + 1
            &&& origin.take(page.len() as int) == page
            &&& origin[page.len() as int] == ':'
            &&& forall|i: int| page.len() < i < origin.len() ==> '0' <= #[trigger] origin[i] <= '9'
            &&& value_of(origin.skip(page.len() as int + 1)) == number
            &&& number > 0 ==> origin[page.len() as int + 1] != '0'
            &&& number == 0 ==> origin.len() == page.len() + 2
        },
    }
}

/// The text of an origin spells its parts.
proof fn origin_text_spells(scheme: Seq<char>, host: Seq<char>, port: Option<u16>)
    ensures
        spells_origin(origin_text(Some((scheme, Some(host), port))), scheme, host, port),
{
    if let Some(number) = port {
        let page = scheme + seq![':', '/', '/'] + host;
        let digits = decimal_text(number as nat);
        let origin = origin_text(Some((scheme, Some(host), port)));
        decimal_text_has_value(number as nat);
        assert(origin.take(page.len() as int) =~= page);
        assert(origin.skip(page.len() as int + 1) =~= digits);
        assert forall|i: int| page.len() < i < origin.len() implies '0' <= #[trigger] origin[i]
            <= '9' by {
            assert(origin[i] == digits[i - page.len() - 1]);
        }
        assert(origin[page.len() as int + 1] == digits[0]);
    }
}

/// `origin` is what the parser finds in `url`: scheme, host and port, or nothing without a host.
pub open spec fn is_parsed_origin(url: Seq<char>, origin: Seq<char>) -> bool {
    match parsed_url(url) {
        Some((scheme, Some(host), port)) => spells_origin(origin, scheme, host, port),
        _ => origin.len() == 0,
    }
}

/// The text of the parts that the parser finds is the parsed origin.
pub proof fn parsed_text_is_origin(url: Seq<char>)
    ensures
        is_parsed_origin(url, origin_text(parsed_url(url))),
{
    if let Some((scheme, Some(host), port)) = parsed_url(url) {
        origin_text_spells(scheme, host, port);
    }
}

/// What `origin_from_parts` gives: scheme, host and port of a URL with a host, whatever the port is,
/// and nothing for a URL without one.
pub proof fn origin_shows_all_parts(parts: Option<UrlParts>, origin: String)
    requires
        call_ensures(origin_from_parts, (&parts,), origin),
    ensures
        match parts {
            Some(parts) => match parts.host {
                Some(host) => spells_origin(origin@, parts.scheme@, host@, parts.port),
                None => origin@.len() == 0,
            },
            None => origin@.len() == 0,
        },
{
    if let Some(parts) = parts {
        if let Some(host) = parts.host {
            origin_text_spells(parts.scheme@, host@, parts.port);
        }
    }
}

/// What `origin_from_url` gives: scheme, host and port that the parser finds in the text, whatever
/// the port is, and nothing where it finds no URL or no host.
pub proof fn parsed_origin_shows_all_parts(url: &str, origin: String)
    requires
        call_ensures(origin_from_url, (url,), origin),
    ensures
        is_parsed_origin(url@, origin@),
{
    parsed_text_is_origin(url@);
}

/// Two URLs that differ in their ports only have different origins.
pub proof fn origins_tell_ports_apart(
    one: UrlParts,
    other: UrlParts,
    origin_of_one: String,
    origin_of_other: String,
)
    requires
        one.host is Some,
        other.host is Some,
        one.scheme@ == other.scheme@,
        (one.host->0)@ == (other.host->0)@,
        one.port != other.port,
        call_ensures(origin_from_parts, (&Some(one),), origin_of_one),
        call_ensures(origin_from_parts, (&Some(other),), origin_of_other),
    ensures
        origin_of_one@ != origin_of_other@,
{
    origin_shows_all_parts(Some(one), origin_of_one);
    origin_shows_all_parts(Some(other), origin_of_other);
}

/// Scheme, host and port can be read back from an origin, as far as the scheme holds no colon: two
/// URLs that both have a port, or both have none, have the same origin only where all three are the
/// same.
pub proof fn origins_tell_pages_apart(
    one: UrlParts,
    other: UrlParts,
    origin_of_one: String,
    origin_of_other: String,
)
    requires
        one.host is Some,
        other.host is Some,
        one.port is Some <==> other.port is Some,
        forall|i: int| 0 <= i < one.scheme@.len() ==> #[trigger] one.scheme@[i] != ':',
        forall|i: int| 0 <= i < other.scheme@.len() ==> #[trigger] other.scheme@[i] != ':',
        call_ensures(origin_from_parts, (&Some(one),), origin_of_one),
        call_ensures(origin_from_parts, (&Some(other),), origin_of_other),
        origin_of_one@ == origin_of_other@,
    ensures
        one.scheme@ == other.scheme@,
        (one.host->0)@ == (other.host->0)@,
        one.port == other.port,
{
    origin_shows_all_parts(Some(one), origin_of_one);
    origin_shows_all_parts(Some(other), origin_of_other);
    let origin = origin_of_one@;
    let (s1, s2) = (one.scheme@, other.scheme@);
    let (h1, h2) = ((one.host->0)@, (other.host->0)@);
    let page1 = s1 + seq![':', '/', '/'] + h1;
    let page2 = s2 + seq![':', '/', '/'] + h2;
    assert(origin.take(page1.len() as int) =~= page1);
    assert(origin.take(page2.len() as int) =~= page2);
    assert forall|i: int| 0 <= i < page1.len() implies #[trigger] page1[i] == origin[i] by {
        assert(origin.take(page1.len() as int)[i] == origin[i]);
    }
    assert forall|i: int| 0 <= i < page2.len() implies #[trigger] page2[i] == origin[i] by {
        assert(origin.take(page2.len() as int)[i] == origin[i]);
    }
    assert(s1.len() == s2.len()) by {
        assert(page1[s1.len() as int] == ':');
        assert(page2[s2.len() as int] == ':');
        if s1.len() < s2.len() {
            assert(page2[s1.len() as int] == s2[s1.len() as int]);
        } else if s2.len() < s1.len() {
            assert(page1[s2.len() as int] == s1[s2.len() as int]);
        }
    }
    assert forall|i: int| 0 <= i < s1.len() implies s1[i] == s2[i] by {
        assert(page1[i] == s1[i]);
        assert(page2[i] == s2[i]);
    }
    assert(s1 =~= s2);
    assert(h1.len() == h2.len());
    assert forall|i: int| 0 <= i < h1.len() implies h1[i] == h2[i] by {
        assert(page1[s1.len() + 3 + i] == h1[i]);
        assert(page2[s2.len() + 3 + i] == h2[i]);
    }
    assert(h1 =~= h2);
}

/// `origin` is the start of `url` up to the first `/` behind its first `://`, or nothing where it
/// holds none.
pub open spec fn is_cut_origin(url: Seq<char>, origin: Seq<char>) -> bool {
    &&& (forall|i: int|
        0 <= i < url.len() - 2 ==> !(#[trigger] url[i] == ':' && url[i + 1] == '/' && url[i + 2]
            == '/')) ==> origin.len() == 0
    &&& forall|at: int|
        0 <= at < url.len() - 2 && #[trigger] url[at] == ':' && url[at + 1] == '/' && url[at + 2]
            == '/' && (forall|i: int|
            0 <= i < at ==> !(#[trigger] url[i] == ':' && url[i + 1] == '/' && url[i + 2] == '/'))
            ==> {
            &&& at + 3 <= origin.len() <= url.len()
            &&& origin == url.take(origin.len() as int)
            &&& forall|i: int| at + 3 <= i < origin.len() ==> #[trigger] origin[i] != '/'
            &&& origin.len() < url.len() ==> url[origin.len() as int] == '/'
        }
}

/// A cut-out origin is the start of its URL.
pub proof fn cut_is_start(url: Seq<char>, origin: Seq<char>)
    requires
        cuts_origin(url, origin),
    ensures
        is_cut_origin(url, origin),
{
    assert forall|at: int|
        0 <= at < url.len() - 2 && #[trigger] url[at] == ':' && url[at + 1] == '/' && url[at + 2]
            == '/' && (forall|i: int|
            0 <= i < at ==> !(#[trigger] url[i] == ':' && url[i + 1] == '/' && url[i + 2] == '/'))
        implies {
        &&& at + 3 <= origin.len() <= url.len()
        &&& origin == url.take(origin.len() as int)
        &&& forall|i: int| at + 3 <= i < origin.len() ==> #[trigger] origin[i] != '/'
        &&& origin.len() < url.len() ==> url[origin.len() as int] == '/'
    } by {
        assert(separator_at(url, at));
        let (first, end) = choose|first: int, end: int|
            #[trigger] first_separator(url, first) && #[trigger] host_ends(url, first, end)
                && origin == url.take(end);
        assert(separator_at(url, first));
        assert(first == at);
        assert forall|i: int| at + 3 <= i < origin.len() implies #[trigger] origin[i] != '/' by {
            assert(origin[i] == url[i]);
        }
    }
    if forall|i: int|
        0 <= i < url.len() - 2 ==> !(#[trigger] url[i] == ':' && url[i + 1] == '/' && url[i + 2]
            == '/') {
        assert forall|at: int| !separator_at(url, at) by {
            if separator_at(url, at) {
                assert(url[at] == ':');
            }
        }
    }
}

/// What `origin_from` gives: for a text with `://` in it, its start up to the first `/` behind the
/// first `://`, or all of it where there is no such `/`; for any other text nothing.
pub proof fn cut_origin_is_start_of_url(url: &str, origin: String)
    requires
        call_ensures(origin_from, (url,), origin),
    ensures
        is_cut_origin(url@, origin@),
{
    cut_is_start(url@, origin@);
}

} // verus!
