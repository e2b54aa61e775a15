//! Repository URLs: what the URL parser reports of them, the checks this
//! transport makes on top, and the service URLs derived from them.
use vstd::prelude::*;

verus! {

/// What the URL parser reports of a URL: scheme, host, port (written, or the
/// scheme's default) and the normalized text.
#[derive(Debug)]
pub struct UrlParts {
    pub scheme: String,
    pub host: Option<String>,
    pub port: Option<u16>,
    pub text: String,
}

/// The view of `UrlParts` as plain values.
pub type PartsView = (Seq<char>, Option<Seq<char>>, Option<u16>, Seq<char>);

pub open spec fn opt_view(o: Option<String>) -> Option<Seq<char>> {
    match o {
        Some(s) => Some(s@),
        None => None,
    }
}

pub open spec fn opt_str_view(o: Option<&str>) -> Option<Seq<char>> {
    match o {
        Some(s) => Some(s@),
        None => None,
    }
}

pub open spec fn segments_view(v: Seq<&str>) -> Seq<Seq<char>> {
    v.map_values(|s: &str| s@)
}

impl UrlParts {
    pub open spec fn view(&self) -> PartsView {
        (self.scheme@, opt_view(self.host), self.port, self.text@)
    }
}

pub open spec fn parts_opt_view(o: Option<UrlParts>) -> Option<PartsView> {
    match o {
        Some(p) => Some(p.view()),
        None => None,
    }
}

/// What the URL parser makes of a text: `None` where it refuses it.
pub uninterp spec fn parsed_url_of(s: Seq<char>) -> Option<PartsView>;

/// The text of `base` with `segments` appended to its path and its query set
/// to `query`; `None` where `base` does not parse or cannot take a path.
pub uninterp spec fn service_url_of(
    base: Seq<char>,
    segments: Seq<Seq<char>>,
    query: Option<Seq<char>>,
) -> Option<Seq<char>>;

/// Relies on `Url::parse` of the url crate (re-exported by hyper) and on the
/// parsed URL's `scheme`, `host_str`, `port_or_known_default` and `as_str`:
/// the parts depend on the text alone.
#[verifier::external_body]
pub(crate) fn parse_parts(s: &str) -> (r: Option<UrlParts>)
    ensures
        parts_opt_view(r) == parsed_url_of(s@),
{
    let u = hyper::Url::parse(s).ok()?;
    Some(UrlParts {
        scheme: u.scheme().to_string(),
        host: u.host_str().map(String::from),
        port: u.port_or_known_default(),
        text: u.as_str().to_string(),
    })
}

/// Relies on the url crate's `Url::parse`, `path_segments_mut().extend` and
/// `set_query`: the joined text depends on the arguments alone.
#[verifier::external_body]
pub(crate) fn join_service_url(base: &str, segments: &[&str], query: Option<&str>) -> (r: Option<
    String,
>)
    ensures
        opt_view(r) == service_url_of(base@, segments_view(segments@), opt_str_view(query)),
{
    let mut u = hyper::Url::parse(base).ok()?;
    u.path_segments_mut().ok()?.extend(segments);
    u.set_query(query);
    Some(u.as_str().to_string())
}

/// Why a URL was refused.
#[derive(PartialEq, Eq, Structural, Clone, Copy, Debug)]
pub enum UrlErrorKind {
    NoHost,
    NoPort,
    NotHttp,
    /// The URL cannot take a path below it.
    CannotBeABase,
}

/// A URL that this transport cannot use.
#[derive(PartialEq, Eq, Structural, Clone, Copy, Debug)]
pub struct UrlError {
    pub kind: UrlErrorKind,
}

impl UrlError {
    /// A sentence for the user.
    pub fn description(&self) -> &'static str {
        match self.kind {
            UrlErrorKind::NoHost => "there is no host in the url",
            UrlErrorKind::NoPort => "there is no port for this url",
            UrlErrorKind::NotHttp => "only plain http urls are supported",
            UrlErrorKind::CannotBeABase => "the url cannot take a service path",
        }
    }
}

/// Where requests go: host and port to connect to, and the URL text that
/// service paths are appended to.
#[derive(Debug)]
pub struct Endpoint {
    pub host: String,
    pub port: u16,
    pub url: String,
}

impl Endpoint {
    pub open spec fn view(&self) -> (Seq<char>, u16, Seq<char>) {
        (self.host@, self.port, self.url@)
    }
}

/// The text writes a host after `scheme://`: the first `:` is followed by two
/// slashes and then by something other than a third one.
pub open spec fn written_host(s: Seq<char>) -> bool {
    exists|i: int|
        0 <= i && i + 3 < s.len() && #[trigger] s[i] == ':' && s[i + 1] == '/' && s[i + 2] == '/'
            && s[i + 3] != '/' && forall|j: int| 0 <= j < i ==> s[j] != ':'
}

/// Checks `written_host`.
pub fn has_written_host(s: &str) -> (r: bool)
    ensures
        r == written_host(s@),
{
    let n = s.unicode_len();
    let mut i: usize = 0;
    while i < n
        invariant
            n == s@.len(),
            i <= n,
            forall|j: int| 0 <= j < i ==> s@[j] != ':',
        decreases n - i,
    {
        if s.get_char(i) == ':' {
            let ok = n >= 3 && i < n - 3 && s.get_char(i + 1) == '/' && s.get_char(i + 2) == '/' && s.get_char(i + 3)
                != '/';
            if !ok {
                assert forall|k: int|
                    0 <= k && k + 3 < s@.len() && #[trigger] s@[k] == ':' && s@[k + 1] == '/' && s@[k + 2]
                        == '/' && s@[k + 3] != '/' implies exists|j: int| 0 <= j < k && s@[j] == ':' by {
                    if k != i {
                        assert(k > i);
                        assert(s@[i as int] == ':');
                    }
                }
            }
            return ok;
        }
        i = i + 1;
    }
    false
}

pub open spec fn is_http_scheme(s: Seq<char>) -> bool {
    s == seq!['h', 't', 't', 'p']
}

fn scheme_is_http(s: &str) -> (r: bool)
    ensures
        r == is_http_scheme(s@),
{
    if s.unicode_len() != 4 {
        return false;
    }
    let r = s.get_char(0) == 'h' && s.get_char(1) == 't' && s.get_char(2) == 't' && s.get_char(3) == 'p';
    proof {
        if r {
            assert(s@ =~= seq!['h', 't', 't', 'p']);
        }
    }
    r
}

/// What checking `raw` gives, from what the parser reported of it: `None` for
/// text the parser refused, else the endpoint or the first reason to refuse.
pub open spec fn spec_check_url(raw: Seq<char>, parsed: Option<PartsView>) -> Option<
    Result<(Seq<char>, u16, Seq<char>), UrlError>,
> {
    match parsed {
        None => None,
        Some((scheme, host, port, text)) => Some(
            if host.is_none() || !written_host(raw) {
                Err(UrlError { kind: UrlErrorKind::NoHost })
            } else if port.is_none() {
                Err(UrlError { kind: UrlErrorKind::NoPort })
            } else if !is_http_scheme(scheme) {
                Err(UrlError { kind: UrlErrorKind::NotHttp })
            } else {
                Ok((host.unwrap(), port.unwrap(), text))
            },
        ),
    }
}

pub open spec fn checked_view(r: Option<Result<Endpoint, UrlError>>) -> Option<
    Result<(Seq<char>, u16, Seq<char>), UrlError>,
> {
    match r {
        None => None,
        Some(Ok(e)) => Some(Ok(e.view())),
        Some(Err(e)) => Some(Err(e)),
    }
}

/// Checks a URL from what the parser reported of it: a host must be written,
/// a port must be known and the scheme must be `http`.
pub fn check_url(raw: &str, parsed: Option<UrlParts>) -> (r: Option<Result<Endpoint, UrlError>>)
    ensures
        checked_view(r) == spec_check_url(raw@, parts_opt_view(parsed)),
{
    let p = match parsed {
        None => return None,
        Some(p) => p,
    };
    let host = match p.host {
        Some(h) => h,
        None => return Some(Err(UrlError { kind: UrlErrorKind::NoHost })),
    };
    if !has_written_host(raw) {
        return Some(Err(UrlError { kind: UrlErrorKind::NoHost }));
    }
    let port = match p.port {
        Some(n) => n,
        None => return Some(Err(UrlError { kind: UrlErrorKind::NoPort })),
    };
    if !scheme_is_http(p.scheme.as_str()) {
        return Some(Err(UrlError { kind: UrlErrorKind::NotHttp }));
    }
    Some(Ok(Endpoint { host, port, url: p.text }))
}

} // verus!
