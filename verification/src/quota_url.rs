//! Where a gateway on this machine answers quota requests.
use crate::text::{ends_with, same_text, strip_prefix, to_lower, trim, trim_end, CharClass};
use vstd::prelude::*;

verus! {

#[verifier::external_type_specification]
#[verifier::external_body]
pub struct ExUrl(reqwest::Url);

/// A URL in parts. Its text is what stands in front of the path (the scheme, the credentials, the
/// host and the port, with their punctuation), the path, the query and the fragment.
pub struct UrlParts {
    pub before_path: Seq<char>,
    pub host: Option<Seq<char>>,
    pub path: Seq<char>,
    pub query: Option<Seq<char>>,
    pub fragment: Option<Seq<char>>,
}

/// The text of a URL.
pub open spec fn url_text(parts: UrlParts) -> Seq<char> {
    let with_query = match parts.query {
        Some(query) => (parts.before_path + parts.path).push('?') + query,
        None => parts.before_path + parts.path,
    };
    match parts.fragment {
        Some(fragment) => with_query.push('#') + fragment,
        None => with_query,
    }
}

/// The parts of a parsed URL.
pub uninterp spec fn url_parts(url: reqwest::Url) -> UrlParts;

/// The parts of the URL that a text writes down; `None` where the text is no URL.
pub uninterp spec fn parsed_url(text: Seq<char>) -> Option<UrlParts>;

/// How a path stands in a URL, given what stands in front of it: with its dot segments resolved
/// and what a URL cannot hold percent-encoded.
pub uninterp spec fn encoded_path(before_path: Seq<char>, path: Seq<char>) -> Seq<char>;

/// A character that stands in a path as it is, in any URL: every other one is percent-encoded.
pub open spec fn stands_in_path(c: char) -> bool {
    &&& '!' <= c <= '~'
    &&& c != '"' && c != '#' && c != '<' && c != '>' && c != '?' && c != '`' && c != '{' && c != '}'
}

/// Every character of a path stands as it is.
pub open spec fn is_path_text(path: Seq<char>) -> bool {
    forall|i: int| 0 <= i < path.len() ==> stands_in_path(#[trigger] path[i])
}

/// `Url::parse`: the parts are decided by the text alone, and the path of a URL with a host is
/// percent-encoded where it has to be.
#[verifier::external_body]
fn parse_url(text: &str) -> (url: Option<reqwest::Url>)
    ensures
        parsed_url(text@) == match url {
            Some(u) => Some(url_parts(u)),
            None => None,
        },
        url matches Some(u) ==> url_parts(u).host is Some ==> is_path_text(url_parts(u).path),
{
    reqwest::Url::parse(text).ok()
}

/// `Url::host_str`: the host as it stands in the URL.
#[verifier::external_body]
fn url_host(url: &reqwest::Url) -> (host: Option<String>)
    ensures
        host.deep_view() == url_parts(*url).host,
{
    url.host_str().map(str::to_string)
}

/// `Url::path`: the path as it stands in the URL.
#[verifier::external_body]
fn url_path(url: &reqwest::Url) -> (path: String)
    ensures
        path@ == url_parts(*url).path,
{
    url.path().to_string()
}

/// `Url::as_str`: the text of the URL.
#[verifier::external_body]
fn url_string(url: &reqwest::Url) -> (text: String)
    ensures
        text@ == url_text(url_parts(*url)),
{
    url.as_str().to_string()
}

/// The bytes of a text.
pub open spec fn size_of_text(text: Seq<char>) -> nat {
    vstd::utf8::encode_utf8(text).len()
}

/// The bytes that a path takes up in a URL, where each of its characters stands as it is: its own,
/// and that of a slash in front where it has none.
pub open spec fn size_of_path(path: Seq<char>) -> nat {
    size_of_text(path) + if path.len() > 0 && path[0] == '/' {
        0nat
    } else {
        1nat
    }
}

/// A URL ends, with its own path and with the given one, within the 32-bit positions that a URL is
/// indexed by.
pub open spec fn path_fits(parts: UrlParts, path: Seq<char>) -> bool {
    &&& size_of_text(parts.before_path) + size_of_text(parts.path) <= u32::MAX
    &&& size_of_text(parts.before_path) + size_of_path(path) <= u32::MAX
}

/// A segment that means its own directory or the one above, in any spelling.
pub open spec fn is_dot_segment(segment: Seq<char>) -> bool {
    let name = crate::text::lowered(segment);
    ||| name == "."@
    ||| name == "%2e"@
    ||| name == ".."@
    ||| name == ".%2e"@
    ||| name == "%2e."@
    ||| name == "%2e%2e"@
}

/// What stands in a path from one place to another is a whole segment of it.
pub open spec fn is_segment(path: Seq<char>, from: int, to: int) -> bool {
    &&& 0 < from <= to <= path.len()
    &&& path[from - 1] == '/'
    &&& to == path.len() || path[to] == '/'
    &&& forall|i: int| from <= i < to ==> path[i] != '/'
}

/// A path that is taken over as it is behind the given front of a URL: it is absolute, has
/// neither a backslash nor a dot segment, and the URL is none of a file.
pub open spec fn stays_as_it_is(before_path: Seq<char>, path: Seq<char>) -> bool {
    &&& !crate::text::has_prefix(before_path, "file:"@)
    &&& path.len() > 0 && path[0] == '/'
    &&& forall|i: int| 0 <= i < path.len() ==> path[i] != '\\'
    &&& forall|from: int, to: int| #[trigger]
        is_segment(path, from, to) ==> !is_dot_segment(path.subrange(from, to))
}

/// `Url::set_path`, with a path whose characters stand as they are, on a URL with a host and with
/// nothing behind its path: only the path changes. Outside files an absolute path without
/// backslashes and dot segments is taken over as it is.
#[verifier::external_body]
fn set_url_path(url: &mut reqwest::Url, path: &str)
    requires
        url_parts(*old(url)).host is Some,
        url_parts(*old(url)).query is None,
        url_parts(*old(url)).fragment is None,
        is_path_text(path@),
        path_fits(url_parts(*old(url)), path@),
    ensures
        url_parts(*final(url)) == (UrlParts {
            path: encoded_path(url_parts(*old(url)).before_path, path@),
            ..url_parts(*old(url))
        }),
        stays_as_it_is(url_parts(*old(url)).before_path, path@) ==> url_parts(*final(url)).path
            == path@,
{
    url.set_path(path);
}

/// `Url::set_query` with `None`, on a URL with a host: only the query goes.
#[verifier::external_body]
fn clear_url_query(url: &mut reqwest::Url)
    requires
        url_parts(*old(url)).host is Some,
    ensures
        url_parts(*final(url)) == (UrlParts { query: None, ..url_parts(*old(url)) }),
{
    url.set_query(None);
}

/// `Url::set_fragment` with `None`, on a URL with a host: only the fragment goes.
#[verifier::external_body]
fn clear_url_fragment(url: &mut reqwest::Url)
    requires
        url_parts(*old(url)).host is Some,
    ensures
        url_parts(*final(url)) == (UrlParts { fragment: None, ..url_parts(*old(url)) }),
{
    url.set_fragment(None);
}

/// A host that names this machine.
pub open spec fn local_host(host: Seq<char>) -> bool {
    let name = crate::text::lowered(host);
    name == "localhost"@ || name == "127.0.0.1"@ || name == "::1"@
}

pub fn is_local_host(host: &str) -> (local: bool)
    ensures
        local == local_host(host@),
{
    let name = to_lower(host);
    same_text(name.as_str(), "localhost") || same_text(name.as_str(), "127.0.0.1") || same_text(
        name.as_str(),
        "::1",
    )
}

/// The path of the quota endpoint of a gateway whose API stands under `path`.
pub open spec fn quota_path(path: Seq<char>) -> Seq<char> {
    let base = crate::text::trimmed_end(path, CharClass::Slash);
    if crate::text::has_suffix(base, "/v1"@) {
        base + "/cockpit/quota"@
    } else {
        base + "/v1/cockpit/quota"@
    }
}

pub fn quota_endpoint_path(path: &str) -> (endpoint: String)
    ensures
        endpoint@ == quota_path(path@),
{
    let base = trim_end(path, CharClass::Slash);
    let mut endpoint = base.to_owned();
    if ends_with(base, "/v1") {
        endpoint.append("/cockpit/quota");
    } else {
        endpoint.append("/v1/cockpit/quota");
    }
    endpoint
}

/// The quota endpoint of the gateway at a URL with the given parts.
pub open spec fn quota_url_parts(parts: UrlParts) -> UrlParts {
    UrlParts {
        path: encoded_path(parts.before_path, quota_path(parts.path)),
        query: None,
        fragment: None,
        ..parts
    }
}

/// Whether the gateway at `base_url` is on this machine.
pub open spec fn is_local_gateway(base_url: Seq<char>) -> bool {
    parsed_url(crate::text::trimmed(base_url, CharClass::Space)) matches Some(parts)
        && parts.host matches Some(host) && local_host(host)
}

/// The URL of a local gateway has room for the path of its quota endpoint.
pub open spec fn quota_path_fits(base_url: Seq<char>) -> bool {
    is_local_gateway(base_url) ==> {
        let parts = parsed_url(crate::text::trimmed(base_url, CharClass::Space))->0;
        path_fits(parts, quota_path(parts.path))
    }
}

/// Where the gateway at a URL answers quota requests; `None` where it is on another machine.
pub open spec fn quota_url(base_url: Seq<char>) -> Option<Seq<char>> {
    if is_local_gateway(base_url) {
        Some(
            url_text(
                quota_url_parts(parsed_url(crate::text::trimmed(base_url, CharClass::Space))->0),
            ),
        )
    } else {
        None
    }
}

proof fn lemma_size_of_joined(front: Seq<char>, back: Seq<char>)
    ensures
        size_of_text(front + back) == size_of_text(front) + size_of_text(back),
    decreases front.len(),
{
    if front.len() == 0 {
        assert(front + back =~= back);
    } else {
        assert((front + back).drop_first() =~= front.drop_first() + back);
        lemma_size_of_joined(front.drop_first(), back);
    }
}

proof fn lemma_quota_path_is_path_text(path: Seq<char>)
    requires
        is_path_text(path),
    ensures
        is_path_text(quota_path(path)),
{
    reveal_strlit("/cockpit/quota");
    reveal_strlit("/v1/cockpit/quota");
    lemma_trimmed_end_is_front(path);
}

proof fn lemma_trimmed_end_is_front(path: Seq<char>)
    ensures
        ({
            let base = crate::text::trimmed_end(path, CharClass::Slash);
            &&& base.len() <= path.len()
            &&& base == path.take(base.len() as int)
        }),
    decreases path.len(),
{
    if path.len() > 0 && CharClass::Slash.has(path.last()) {
        lemma_trimmed_end_is_front(path.drop_last());
    }
    let base = crate::text::trimmed_end(path, CharClass::Slash);
    assert(base =~= path.take(base.len() as int));
}

/// The URL of a local gateway, without its query and its fragment.
fn local_gateway(base_url: &str) -> (url: Option<reqwest::Url>)
    ensures
        url is Some <==> is_local_gateway(base_url@),
        url matches Some(u) ==> {
            let parts = parsed_url(crate::text::trimmed(base_url@, CharClass::Space))->0;
            &&& url_parts(u) == (UrlParts { query: None, fragment: None, ..parts })
            &&& is_path_text(parts.path)
        },
{
    match parse_url(trim(base_url, CharClass::Space)) {
        Some(parsed) => {
            let mut url = parsed;
            match url_host(&url) {
                Some(host) => {
                    if !is_local_host(host.as_str()) {
                        return None;
                    }
                },
                None => {
                    return None;
                },
            }
            clear_url_query(&mut url);
            clear_url_fragment(&mut url);
            Some(url)
        },
        None => None,
    }
}

/// The path of a local gateway's quota endpoint is taken over as it is.
pub open spec fn quota_path_stays(base_url: Seq<char>) -> bool {
    let parts = parsed_url(crate::text::trimmed(base_url, CharClass::Space))->0;
    is_local_gateway(base_url) && stays_as_it_is(parts.before_path, quota_path(parts.path))
}

/// The URL of a local gateway's quota endpoint, where its path is taken over as it is.
pub open spec fn plain_quota_url(base_url: Seq<char>) -> Seq<char> {
    let parts = parsed_url(crate::text::trimmed(base_url, CharClass::Space))->0;
    parts.before_path + quota_path(parts.path)
}

/// Where the gateway at `base_url` answers quota requests; `None` where it is on another machine.
pub fn quota_url_in_room(base_url: &str) -> (url: Option<String>)
    requires
        quota_path_fits(base_url@),
    ensures
        url.deep_view() == quota_url(base_url@),
        quota_path_stays(base_url@) ==> url.deep_view() == Some(plain_quota_url(base_url@)),
{
    match local_gateway(base_url) {
        Some(gateway) => {
            let mut url = gateway;
            let path = quota_endpoint_path(url_path(&url).as_str());
            proof {
                lemma_quota_path_is_path_text(url_parts(url).path);
            }
            set_url_path(&mut url, path.as_str());
            Some(url_string(&url))
        },
        None => None,
    }
}

/// Where the gateway at `base_url` answers quota requests; `None` where it is on another machine,
/// or where its URL, with its own path or with the endpoint's, would run past the positions that a
/// URL is indexed by.
pub fn local_quota_url(base_url: &str) -> (url: Option<String>)
    ensures
        quota_path_fits(base_url@) ==> url.deep_view() == quota_url(base_url@),
        quota_path_fits(base_url@) && quota_path_stays(base_url@) ==> url.deep_view() == Some(
            plain_quota_url(base_url@),
        ),
        !quota_path_fits(base_url@) ==> url is None,
{
    match local_gateway(base_url) {
        Some(gateway) => {
            let text = url_string(&gateway);
            let path = url_path(&gateway);
            let endpoint = quota_endpoint_path(path.as_str());
            proof {
                let parts = url_parts(gateway);
                lemma_size_of_joined(parts.before_path, parts.path);
            }
            let text_size: u128 = text.as_str().as_bytes().len() as u128;
            let path_size: u128 = path.as_str().as_bytes().len() as u128;
            let slash_size: u128 = if strip_prefix(endpoint.as_str(), "/").is_some() {
                0
            } else {
                1
            };
            proof {
                reveal_strlit("/");
                assert(endpoint@.len() > 0 && endpoint@[0] == '/' ==> endpoint@.take(1) =~= "/"@);
                assert(endpoint@.len() > 0 ==> endpoint@.take(1)[0] == endpoint@[0]);
            }
            let endpoint_size: u128 = endpoint.as_str().as_bytes().len() as u128 + slash_size;
            if text_size > u32::MAX as u128 || text_size - path_size + endpoint_size
                > u32::MAX as u128 {
                return None;
            }
        },
        None => {},
    }
    quota_url_in_room(base_url)
}

/// A quota request never leaves this machine: it goes to the gateway's own scheme, host and port,
/// and only where the host names this machine.
pub proof fn law_quota_requests_stay_local(base_url: Seq<char>)
    ensures
        quota_url(base_url) is Some <==> is_local_gateway(base_url),
        quota_url(base_url) matches Some(url) ==> {
            let parts = parsed_url(crate::text::trimmed(base_url, CharClass::Space))->0;
            &&& parts.host matches Some(host)
            &&& local_host(host)
            &&& quota_url_parts(parts).host == parts.host
            &&& crate::text::has_prefix(url, parts.before_path)
        },
{
    if is_local_gateway(base_url) {
        let parts = parsed_url(crate::text::trimmed(base_url, CharClass::Space))->0;
        let url = url_text(quota_url_parts(parts));
        assert(url.take(parts.before_path.len() as int) =~= parts.before_path);
    }
}

/// A gateway's query and fragment play no part in where its quota is asked for.
pub proof fn law_query_and_fragment_do_not_matter(parts: UrlParts, other: UrlParts)
    requires
        parts.before_path == other.before_path,
        parts.path == other.path,
    ensures
        url_text(quota_url_parts(parts)) == url_text(quota_url_parts(other)),
{
}

/// Slashes at the end of a gateway's path do not matter.
pub proof fn law_trailing_slash_does_not_matter(path: Seq<char>)
    ensures
        quota_path(path.push('/')) == quota_path(path),
{
    assert(path.push('/').drop_last() =~= path);
}

/// This machine goes by three names, in capital or small letters.
pub proof fn law_names_of_this_machine(host: Seq<char>)
    ensures
        local_host(host) <==> {
            let name = crate::text::lowered(host);
            name == "localhost"@ || name == "127.0.0.1"@ || name == "::1"@
        },
        local_host("localhost"@),
        local_host("127.0.0.1"@),
{
    reveal_strlit("localhost");
    reveal_strlit("127.0.0.1");
    assert(crate::text::lowered("localhost"@) =~= "localhost"@);
    assert(crate::text::lowered("127.0.0.1"@) =~= "127.0.0.1"@);
}

/// The quota is asked for under the first version of the gateway's API, whether the gateway's path
/// names that version already or not; slashes at the end of the path do not count.
pub proof fn law_quota_path_is_under_the_version(base: Seq<char>, slashes: Seq<char>)
    requires
        base.len() > 0 ==> base.last() != '/',
        forall|i: int| 0 <= i < slashes.len() ==> #[trigger] slashes[i] == '/',
    ensures
        quota_path(base + slashes) == quota_path(base),
        crate::text::has_suffix(base, "/v1"@) ==> quota_path(base) == base + "/cockpit/quota"@,
        !crate::text::has_suffix(base, "/v1"@) ==> quota_path(base) == base + "/v1/cockpit/quota"@,
        crate::text::has_suffix(quota_path(base), "/v1/cockpit/quota"@),
{
    reveal_strlit("/v1");
    reveal_strlit("/cockpit/quota");
    reveal_strlit("/v1/cockpit/quota");
    lemma_slashes_are_cut(base, slashes);
    lemma_slashes_are_cut(base, seq![]);
    assert(base + Seq::<char>::empty() =~= base);
    let path = quota_path(base);
    let tail = "/v1/cockpit/quota"@;
    if crate::text::has_suffix(base, "/v1"@) {
        crate::text::law_prefixes_and_suffixes(base, "/v1"@, seq![]);
        let front = base.take(base.len() - 3);
        assert("/v1"@ + "/cockpit/quota"@ =~= tail);
        assert(path =~= front + tail);
        crate::text::law_prefixes_and_suffixes(path, tail, front);
    } else {
        crate::text::law_prefixes_and_suffixes(path, tail, base);
    }
}

proof fn lemma_slashes_are_cut(base: Seq<char>, slashes: Seq<char>)
    requires
        base.len() > 0 ==> base.last() != '/',
        forall|i: int| 0 <= i < slashes.len() ==> #[trigger] slashes[i] == '/',
    ensures
        crate::text::trimmed_end(base + slashes, CharClass::Slash) == base,
    decreases slashes.len(),
{
    let whole = base + slashes;
    if slashes.len() > 0 {
        let less = slashes.drop_last();
        assert(forall|i: int| 0 <= i < less.len() ==> less[i] == slashes[i]);
        assert(slashes.last() == slashes[slashes.len() - 1]);
        lemma_slashes_are_cut(base, less);
        assert(whole.last() == '/');
        assert(whole.drop_last() =~= base + less);
    } else {
        assert(whole =~= base);
    }
}

/// A quota request goes where the gateway is, to the path of its quota endpoint, without query and
/// fragment; to no other gateway than one that is named as this machine.
pub proof fn law_quota_url_is_the_endpoint(base_url: Seq<char>, parts: UrlParts)
    ensures
        ({
            let text = crate::text::trimmed(base_url, CharClass::Space);
            &&& parsed_url(text) is None ==> quota_url(base_url) is None
            &&& parsed_url(text) == Some(parts) ==> {
                &&& parts.host is None ==> quota_url(base_url) is None
                &&& parts.host matches Some(host) ==> {
                    &&& !local_host(host) ==> quota_url(base_url) is None
                    &&& local_host(host) ==> quota_url(base_url) == Some(
                        parts.before_path + encoded_path(
                            parts.before_path,
                            quota_path(parts.path),
                        ),
                    )
                }
            }
        }),
{
}

/// The text of a URL: the front, the path, the query behind a question mark and the fragment
/// behind a number sign, as far as there are any.
pub proof fn law_url_texts(front: Seq<char>, path: Seq<char>, query: Seq<char>, fragment: Seq<char>)
    ensures
        ({
            let bare = UrlParts {
                before_path: front,
                host: None,
                path,
                query: None,
                fragment: None,
            };
            let asked = UrlParts { query: Some(query), ..bare };
            &&& url_text(bare) == front + path
            &&& url_text(asked) == front + path + seq!['?'] + query
            &&& url_text(UrlParts { fragment: Some(fragment), ..bare }) == front + path + seq!['#']
                + fragment
            &&& url_text(UrlParts { fragment: Some(fragment), ..asked }) == front + path + seq!['?']
                + query + seq!['#'] + fragment
        }),
{
    let whole = front + path;
    assert(whole.push('?') + query =~= whole + seq!['?'] + query);
    assert(whole.push('#') + fragment =~= whole + seq!['#'] + fragment);
    assert((whole.push('?') + query).push('#') + fragment =~= whole + seq!['?'] + query + seq!['#']
        + fragment);
}

/// There is room for the endpoint of every gateway whose URL, with its own path and with that of
/// the endpoint, has fewer bytes than a 32-bit number counts, and for no local gateway beyond.
pub proof fn law_room_is_counted_in_bytes(base_url: Seq<char>, parts: UrlParts)
    requires
        parsed_url(crate::text::trimmed(base_url, CharClass::Space)) == Some(parts),
        parts.path.len() > 0 ==> parts.path[0] == '/',
    ensures
        ({
            let front = vstd::utf8::encode_utf8(parts.before_path).len();
            let path = vstd::utf8::encode_utf8(parts.path).len();
            let endpoint = vstd::utf8::encode_utf8(quota_path(parts.path)).len();
            let local = parts.host matches Some(host) && local_host(host);
            quota_path_fits(base_url) <==> !local || (front + path < 0x1_0000_0000 && front
                + endpoint < 0x1_0000_0000)
        }),
{
    reveal_strlit("/cockpit/quota");
    reveal_strlit("/v1/cockpit/quota");
    lemma_trimmed_end_is_front(parts.path);
}

/// An endpoint's path is taken over as it is where the gateway is local, its scheme is not that of
/// files, and its path is empty or absolute and has neither a backslash nor a dot.
pub proof fn law_dotless_paths_stay(base_url: Seq<char>, parts: UrlParts)
    requires
        parsed_url(crate::text::trimmed(base_url, CharClass::Space)) == Some(parts),
        parts.host matches Some(host) && local_host(host),
        !crate::text::has_prefix(parts.before_path, "file:"@),
        parts.path.len() > 0 ==> parts.path[0] == '/',
        forall|i: int|
            0 <= i < parts.path.len() ==> (#[trigger] parts.path[i]) != '\\' && parts.path[i] != '.'
                && parts.path[i] != '%',
    ensures
        quota_path_stays(base_url),
        plain_quota_url(base_url) == parts.before_path + quota_path(parts.path),
{
    reveal_strlit("/cockpit/quota");
    reveal_strlit("/v1/cockpit/quota");
    reveal_strlit(".");
    reveal_strlit("..");
    reveal_strlit("%2e");
    reveal_strlit(".%2e");
    reveal_strlit("%2e.");
    reveal_strlit("%2e%2e");
    lemma_trimmed_end_is_front(parts.path);
    let path = quota_path(parts.path);
    assert forall|i: int| 0 <= i < path.len() implies path[i] != '\\' && path[i] != '.' && path[i]
        != '%' by {
        let base = crate::text::trimmed_end(parts.path, CharClass::Slash);
        if i < base.len() {
            assert(path[i] == parts.path[i]);
        }
    }
    assert forall|from: int, to: int| #[trigger] is_segment(path, from, to) implies !is_dot_segment(
        path.subrange(from, to),
    ) by {
        let segment = path.subrange(from, to);
        let name = crate::text::lowered(segment);
        if is_dot_segment(segment) {
            assert(name.len() > 0 && (name[0] == '.' || name[0] == '%'));
            crate::text::law_lowering_changes_capitals_only(segment, 0);
            assert(segment[0] == path[from]);
        }
    }
}

} // verus!
