//! Target URL normalisation: the default scheme and the parsed form.
use vstd::prelude::*;
use vstd::string::StrSliceExecFns;
use vstd::string::StringExecFns;

verus! {

/// What `url::Url::parse` gives for a string: its serialisation and its host,
/// or `None` where the string is no absolute URL.
pub uninterp spec fn url_parse(s: Seq<char>) -> Option<(Seq<char>, Option<Seq<char>>)>;

/// The parts of a parsed URL as plain values.
pub open spec fn parts_view(p: Option<(String, Option<String>)>) -> Option<(Seq<char>, Option<Seq<char>>)> {
    match p {
        Some((u, Some(h))) => Some((u@, Some(h@))),
        Some((u, None)) => Some((u@, None)),
        None => None,
    }
}

/// Relies on `url::Url::parse`, `Url::as_str` and `Url::host_str`: the result
/// is the URL's serialisation and its host, and depends on the input alone.
#[verifier::external_body]
fn parse_url(s: &str) -> (r: Option<(String, Option<String>)>)
    ensures
        parts_view(r) == url_parse(s@),
{
    url::Url::parse(s).ok().map(|u| (u.as_str().to_string(), u.host_str().map(|h| h.to_string())))
}

pub open spec fn is_ascii_letter(c: char) -> bool {
    ('a' <= c && c <= 'z') || ('A' <= c && c <= 'Z')
}

/// Characters allowed after the first one in a URL scheme.
pub open spec fn is_scheme_char(c: char) -> bool {
    is_ascii_letter(c) || ('0' <= c && c <= '9') || c == '+' || c == '-' || c == '.'
}

/// `s` starts with a scheme followed by `://`.
pub open spec fn scheme_present(s: Seq<char>) -> bool {
    exists|i: int|
        1 <= i && i + 3 <= s.len() && is_ascii_letter(s[0])
            && (forall|j: int| 0 <= j < i ==> is_scheme_char(#[trigger] s[j]))
            && #[trigger] s[i] == ':' && s[i + 1] == '/' && s[i + 2] == '/'
}

pub open spec fn http_prefix() -> Seq<char> {
    seq!['h', 't', 't', 'p', ':', '/', '/']
}

/// The target string with `http://` put in front where it has no scheme.
pub open spec fn with_scheme(s: Seq<char>) -> Seq<char> {
    if scheme_present(s) {
        s
    } else {
        http_prefix() + s
    }
}

/// Tells whether `s` starts with a scheme followed by `://`.
pub fn has_scheme(s: &str) -> (r: bool)
    ensures
        r == scheme_present(s@),
{
    let n = s.unicode_len();
    if n == 0 || !is_letter(s.get_char(0)) {
        return false;
    }
    let mut i: usize = 1;
    while i < n && is_scheme_char_exec(s.get_char(i))
        invariant
            1 <= i <= n,
            n == s@.len(),
            is_ascii_letter(s@[0]),
            forall|j: int| 0 <= j < i ==> is_scheme_char(#[trigger] s@[j]),
        decreases n - i,
    {
        i = i + 1;
    }
    if n - i >= 3 && s.get_char(i) == ':' && s.get_char(i + 1) == '/' && s.get_char(i + 2) == '/' {
        assert(s@[i as int] == ':');
        true
    } else {
        assert forall|k: int|
            1 <= k && k + 3 <= s@.len() && is_ascii_letter(s@[0])
                && (forall|j: int| 0 <= j < k ==> is_scheme_char(#[trigger] s@[j]))
                implies !(#[trigger] s@[k] == ':' && s@[k + 1] == '/' && s@[k + 2] == '/') by {
            if k < i {
                assert(is_scheme_char(s@[k]));
            } else if k > i {
                assert(is_scheme_char(s@[i as int]));
            }
        }
        false
    }
}

fn is_letter(c: char) -> (r: bool)
    ensures
        r == is_ascii_letter(c),
{
    ('a' <= c && c <= 'z') || ('A' <= c && c <= 'Z')
}

fn is_scheme_char_exec(c: char) -> (r: bool)
    ensures
        r == is_scheme_char(c),
{
    is_letter(c) || ('0' <= c && c <= '9') || c == '+' || c == '-' || c == '.'
}

/// The target string, with `http://` in front where it names no scheme.
pub fn with_default_scheme(s: &str) -> (r: String)
    ensures
        r@ == with_scheme(s@),
{
    if has_scheme(s) {
        String::from_str(s)
    } else {
        let mut r = String::from_str("http://");
        proof {
            reveal_strlit("http://");
        }
        r.append(s);
        r
    }
}

/// A target URL after normalisation: its serialisation and its host.
pub struct Target {
    pub url: String,
    pub host: String,
}

/// What parsing the target string gives: the serialisation and host of the
/// URL with the default scheme, where it parses and has a host.
pub open spec fn target_of(s: Seq<char>) -> Option<(Seq<char>, Seq<char>)> {
    match url_parse(with_scheme(s)) {
        Some((u, Some(h))) => Some((u, h)),
        _ => None,
    }
}

/// Parses a target string: fails where it is no URL or has no host.
pub fn parse_target(s: &str) -> (r: Option<Target>)
    ensures
        r is Some <==> target_of(s@) is Some,
        r matches Some(t) ==> target_of(s@) == Some((t.url@, t.host@)),
{
    let full = with_default_scheme(s);
    match parse_url(full.as_str()) {
        Some((u, Some(h))) => Some(Target { url: u, host: h }),
        _ => None,
    }
}

/// Whether `url` parses as a URL whose host is `host`.
pub open spec fn host_is(url: Seq<char>, host: Seq<char>) -> bool {
    url_parse(url) matches Some((_, Some(h))) && h == host
}

/// Tells whether `url` parses as a URL whose host equals `host`.
pub fn url_has_host(url: &String, host: &String) -> (r: bool)
    ensures
        r == host_is(url@, host@),
{
    match parse_url(url.as_str()) {
        Some((_, Some(h))) => h == *host,
        _ => false,
    }
}

/// A target string without a scheme becomes the same string after `http://`.
pub proof fn lemma_default_scheme(s: Seq<char>)
    requires
        !scheme_present(s),
    ensures
        with_scheme(s) == http_prefix() + s,
        with_scheme(s).subrange(7, with_scheme(s).len() as int) == s,
{
    assert((http_prefix() + s).subrange(7, 7 + s.len() as int) =~= s);
}

} // verus!
