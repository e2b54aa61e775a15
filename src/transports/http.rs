//! The smart-HTTP subtransport. `Http` holds the repository URL and the
//! connection state; each call of `action` yields an `HttpStream` that drives
//! one request/response cycle. Streams do no I/O: each step returns the
//! commands the caller must carry out on the wire, in order, and the caller
//! reports each response back through `HttpStream::on_response`.
use vstd::prelude::*;

use crate::transports::url::{
    check_url,
    join_service_url,
    opt_str_view,
    parse_parts,
    parsed_url_of,
    segments_view,
    service_url_of,
    spec_check_url,
    Endpoint,
    UrlError,
    UrlErrorKind,
};
use crate::transports::GitSmartService;

verus! {

/// Product token sent with every request.
pub const USER_AGENT: &'static str = "git/1.0 (libgit2core)";

pub const UPLOAD_PACK_REQUEST: &'static str = "application/x-git-upload-pack-request";

pub const UPLOAD_PACK_RESULT: &'static str = "application/x-git-upload-pack-result";

pub const RECEIVE_PACK_REQUEST: &'static str = "application/x-git-receive-pack-request";

pub const RECEIVE_PACK_RESULT: &'static str = "application/x-git-receive-pack-result";

/// Redirects a stream follows before it gives up, unless configured otherwise.
pub const DEFAULT_MAX_REDIRECTS: u32 = 5;

#[derive(PartialEq, Eq, Structural, Clone, Copy, Debug)]
pub enum HttpVerb {
    Get,
    Post,
}

#[derive(PartialEq, Eq, Structural, Clone, Copy, Debug)]
pub enum GitService {
    UploadPack,
    ReceivePack,
}

/// A failure of the exchange at the HTTP level.
#[derive(PartialEq, Eq, Structural, Clone, Copy, Debug)]
pub enum HttpError {
    /// The server answered with this status, neither 200 nor a redirect.
    Status(u16),
    RedirectWithoutLocation,
    TooManyRedirects,
    /// A second body for a request that announced its length.
    RepeatedWrite,
    /// A body for a listing request, which has none.
    WriteOnListing,
    /// A body after the response was asked for.
    WriteAfterRead,
}

#[derive(PartialEq, Eq, Structural, Clone, Copy, Debug)]
pub enum Error {
    /// The URL parser refused the text.
    ParseError,
    UrlError(UrlError),
    HttpError(HttpError),
    /// No connection is established.
    IoError,
}

/// What a phase of the protocol sends: verb, path segments appended to the
/// repository URL, query, and whether the body is chunked.
#[derive(Debug)]
pub struct ActionDescriptor {
    pub service: GitService,
    pub verb: HttpVerb,
    pub path: Vec<&'static str>,
    pub query: Option<&'static str>,
    pub chunked: bool,
}

pub type DescView = (GitService, HttpVerb, Seq<Seq<char>>, Option<Seq<char>>, bool);

impl ActionDescriptor {
    pub open spec fn view(&self) -> DescView {
        (self.service, self.verb, segments_view(self.path@), opt_str_view(self.query), self.chunked)
    }
}

/// The wire table of the four phases.
pub open spec fn descriptor_spec(a: GitSmartService) -> DescView {
    match a {
        GitSmartService::UploadPackLs => (
            GitService::UploadPack,
            HttpVerb::Get,
            seq!["info"@, "refs"@],
            Some("service=git-upload-pack"@),
            false,
        ),
        GitSmartService::UploadPack => (
            GitService::UploadPack,
            HttpVerb::Post,
            seq!["git-upload-pack"@],
            None,
            false,
        ),
        GitSmartService::ReceivePackLs => (
            GitService::ReceivePack,
            HttpVerb::Get,
            seq!["info"@, "refs"@],
            Some("service=git-receive-pack"@),
            false,
        ),
        GitSmartService::ReceivePack => (
            GitService::ReceivePack,
            HttpVerb::Post,
            seq!["git-receive-pack"@],
            None,
            true,
        ),
    }
}

/// The descriptor of a protocol phase.
pub fn descriptor(a: GitSmartService) -> (r: ActionDescriptor)
    ensures
        r.view() == descriptor_spec(a),
{
    let r = match a {
        GitSmartService::UploadPackLs => ActionDescriptor {
            service: GitService::UploadPack,
            verb: HttpVerb::Get,
            path: vec!["info", "refs"],
            query: Some("service=git-upload-pack"),
            chunked: false,
        },
        GitSmartService::UploadPack => ActionDescriptor {
            service: GitService::UploadPack,
            verb: HttpVerb::Post,
            path: vec!["git-upload-pack"],
            query: None,
            chunked: false,
        },
        GitSmartService::ReceivePackLs => ActionDescriptor {
            service: GitService::ReceivePack,
            verb: HttpVerb::Get,
            path: vec!["info", "refs"],
            query: Some("service=git-receive-pack"),
            chunked: false,
        },
        GitSmartService::ReceivePack => ActionDescriptor {
            service: GitService::ReceivePack,
            verb: HttpVerb::Post,
            path: vec!["git-receive-pack"],
            query: None,
            chunked: true,
        },
    };
    assert(segments_view(r.path@) =~= descriptor_spec(a).2);
    r
}

/// Media type of a request body for `service`.
pub open spec fn spec_content_type(service: GitService) -> Seq<char> {
    match service {
        GitService::UploadPack => "application/x-git-upload-pack-request"@,
        GitService::ReceivePack => "application/x-git-receive-pack-request"@,
    }
}

/// Media type of the response that `service` expects.
pub open spec fn spec_accept(service: GitService) -> Seq<char> {
    match service {
        GitService::UploadPack => "application/x-git-upload-pack-result"@,
        GitService::ReceivePack => "application/x-git-receive-pack-result"@,
    }
}

pub fn content_type_for_service(service: GitService) -> (r: &'static str)
    ensures
        r@ == spec_content_type(service),
{
    match service {
        GitService::UploadPack => UPLOAD_PACK_REQUEST,
        GitService::ReceivePack => RECEIVE_PACK_REQUEST,
    }
}

pub fn accept_for_service(service: GitService) -> (r: &'static str)
    ensures
        r@ == spec_accept(service),
{
    match service {
        GitService::UploadPack => UPLOAD_PACK_RESULT,
        GitService::ReceivePack => RECEIVE_PACK_RESULT,
    }
}

/// The header of one request.
#[derive(Debug)]
pub struct RequestHead {
    pub verb: HttpVerb,
    /// Full URL of the service.
    pub url: String,
    /// Where to connect.
    pub host: String,
    pub port: u16,
    pub user_agent: &'static str,
    pub accept: Option<&'static str>,
    pub content_type: Option<&'static str>,
    /// The body goes in chunks (`Transfer-Encoding: chunked`).
    pub chunked: bool,
    pub content_length: Option<u64>,
}

pub struct HeadView {
    pub verb: HttpVerb,
    pub url: Seq<char>,
    pub host: Seq<char>,
    pub port: u16,
    pub user_agent: Seq<char>,
    pub accept: Option<Seq<char>>,
    pub content_type: Option<Seq<char>>,
    pub chunked: bool,
    pub content_length: Option<u64>,
}

impl RequestHead {
    pub open spec fn view(&self) -> HeadView {
        HeadView {
            verb: self.verb,
            url: self.url@,
            host: self.host@,
            port: self.port,
            user_agent: self.user_agent@,
            accept: opt_str_view(self.accept),
            content_type: opt_str_view(self.content_type),
            chunked: self.chunked,
            content_length: self.content_length,
        }
    }
}

/// The header for phase `d` against endpoint `ep`. `body` is the length of
/// the body written for it, or `None` for a request sent without one. A
/// written body announces its length, zero included, unless it is chunked;
/// the media types go with any chunked or non-empty body. `None` where the
/// service URL cannot be formed.
pub open spec fn spec_head(d: DescView, ep: (Seq<char>, u16, Seq<char>), body: Option<nat>) -> Option<
    HeadView,
> {
    let (service, verb, path, query, chunked) = d;
    let has_body = chunked || (body is Some && body->Some_0 > 0);
    match service_url_of(ep.2, path, query) {
        None => None,
        Some(url) => Some(
            HeadView {
                verb,
                url,
                host: ep.0,
                port: ep.1,
                user_agent: "git/1.0 (libgit2core)"@,
                accept: if has_body {
                    Some(spec_accept(service))
                } else {
                    None
                },
                content_type: if has_body {
                    Some(spec_content_type(service))
                } else {
                    None
                },
                chunked,
                content_length: if !chunked && body is Some {
                    Some(body->Some_0 as u64)
                } else {
                    None
                },
            },
        ),
    }
}

/// A step the caller carries out on the wire.
#[derive(Debug)]
pub enum Command {
    /// Connect to the head's host and port and send the header.
    Open(RequestHead),
    /// Send these bytes of the open request's body.
    Body(Vec<u8>),
    /// Finish the open request and wait for the response; report its status
    /// and `Location` header through `HttpStream::on_response`.
    Send,
    /// Serve the caller's read from the response body (0 at its end).
    ReadBody,
}

pub enum CmdView {
    Open(HeadView),
    Body(Seq<u8>),
    Send,
    ReadBody,
}

impl Command {
    pub open spec fn view(&self) -> CmdView {
        match self {
            Command::Open(h) => CmdView::Open(h.view()),
            Command::Body(b) => CmdView::Body(b@),
            Command::Send => CmdView::Send,
            Command::ReadBody => CmdView::ReadBody,
        }
    }
}

pub open spec fn cmds_view(v: Seq<Command>) -> Seq<CmdView> {
    v.map_values(|c: Command| c.view())
}

pub open spec fn opt_len(o: Option<usize>) -> Option<nat> {
    match o {
        Some(n) => Some(n as nat),
        None => None,
    }
}

/// Builds the header for phase `d` against `ep`, for a written body of
/// `body` bytes or for a request without one (`None`).
pub fn gen_request(d: &ActionDescriptor, ep: &Endpoint, body: Option<usize>) -> (r: Result<RequestHead, Error>)
    ensures
        match spec_head(d.view(), ep.view(), opt_len(body)) {
            Some(h) => r matches Ok(head) && head.view() == h,
            None => r == Err::<RequestHead, Error>(Error::UrlError(UrlError { kind: UrlErrorKind::CannotBeABase })),
        },
{
    let url = match join_service_url(ep.url.as_str(), d.path.as_slice(), d.query) {
        Some(u) => u,
        None => return Err(Error::UrlError(UrlError { kind: UrlErrorKind::CannotBeABase })),
    };
    let has_body = d.chunked || match body {
        Some(n) => n > 0,
        None => false,
    };
    let head = RequestHead {
        verb: d.verb,
        url,
        host: ep.host.clone(),
        port: ep.port,
        user_agent: USER_AGENT,
        accept: if has_body {
            Some(accept_for_service(d.service))
        } else {
            None
        },
        content_type: if has_body {
            Some(content_type_for_service(d.service))
        } else {
            None
        },
        chunked: d.chunked,
        content_length: match body {
            Some(n) if !d.chunked => Some(n as u64),
            _ => None,
        },
    };
    Ok(head)
}

pub type EndpointView = (Seq<char>, u16, Seq<char>);

pub open spec fn endpoint_opt_view(o: Option<Endpoint>) -> Option<EndpointView> {
    match o {
        Some(e) => Some(e.view()),
        None => None,
    }
}

/// The subtransport's state: the repository URL, if set, and whether a
/// connection to it stands. Every URL change drops the connection.
#[derive(Debug)]
pub struct Http {
    url: Option<Endpoint>,
    connected: bool,
    max_redirects: u32,
}

pub struct HttpView {
    pub url: Option<EndpointView>,
    pub connected: bool,
    pub max_redirects: u32,
}

impl HttpView {
    pub open spec fn wf(&self) -> bool {
        self.connected ==> self.url.is_some()
    }
}

/// What `Http::parse_url` makes of `h` given `raw`.
pub open spec fn parse_url_outcome(h: HttpView, raw: Seq<char>) -> Result<HttpView, Error> {
    match spec_check_url(raw, parsed_url_of(raw)) {
        None => Err(Error::ParseError),
        Some(Err(e)) => Err(Error::UrlError(e)),
        Some(Ok(ep)) => Ok(HttpView { url: Some(ep), connected: false, max_redirects: h.max_redirects }),
    }
}

impl Http {
    pub closed spec fn view(&self) -> HttpView {
        HttpView { url: endpoint_opt_view(self.url), connected: self.connected, max_redirects: self.max_redirects }
    }

    /// A subtransport with no URL yet, owned by `owner`.
    pub fn new(_owner: &crate::transports::GitTransport) -> (r: Http)
        ensures
            r.view().url.is_none(),
            !r.view().connected,
            r.view().max_redirects == DEFAULT_MAX_REDIRECTS,
    {
        Http { url: None, connected: false, max_redirects: DEFAULT_MAX_REDIRECTS }
    }

    /// Sets how many redirects a stream follows before it fails.
    pub fn set_max_redirects(&mut self, n: u32)
        ensures
            final(self).view() == (HttpView { max_redirects: n, ..old(self).view() }),
    {
        self.max_redirects = n;
    }

    pub fn is_connected(&self) -> (r: bool)
        ensures
            r == self.view().connected,
    {
        self.connected
    }

    pub fn endpoint(&self) -> (r: Option<&Endpoint>)
        ensures
            match r {
                Some(e) => self.view().url == Some(e.view()),
                None => self.view().url.is_none(),
            },
    {
        self.url.as_ref()
    }

    /// Parses and checks `raw`; on success it becomes the URL and the
    /// connection is dropped. On failure nothing changes.
    pub fn parse_url(&mut self, raw: &str) -> (r: Result<(), Error>)
        ensures
            match parse_url_outcome(old(self).view(), raw@) {
                Ok(h) => r is Ok && final(self).view() == h,
                Err(e) => r == Err::<(), Error>(e) && final(self).view() == old(self).view(),
            },
    {
        let parsed = parse_parts(raw);
        match check_url(raw, parsed) {
            None => Err(Error::ParseError),
            Some(Err(e)) => Err(Error::UrlError(e)),
            Some(Ok(ep)) => {
                self.url = Some(ep);
                self.connected = false;
                Ok(())
            },
        }
    }

    /// Marks the connection to the current URL as established; a new one is
    /// opened for every request. Fails when there is no URL.
    pub fn connect(&mut self) -> (r: Result<(), Error>)
        ensures
            old(self).view().url.is_some() ==> r is Ok && final(self).view() == (HttpView {
                connected: true,
                ..old(self).view()
            }),
            old(self).view().url.is_none() ==> r == Err::<(), Error>(Error::IoError) && final(self).view()
                == old(self).view(),
    {
        if self.url.is_none() {
            return Err(Error::IoError);
        }
        self.connected = true;
        Ok(())
    }

    /// Drops the connection; the URL stays.
    pub fn close(&mut self)
        ensures
            final(self).view() == (HttpView { connected: false, ..old(self).view() }),
    {
        self.connected = false;
    }
}

/// Where a stream stands in its request/response cycle.
#[derive(PartialEq, Eq, Structural, Clone, Copy, Debug)]
pub enum Phase {
    /// Nothing sent yet.
    Idle,
    /// A request is open and its body is being sent.
    Writing,
    /// The request is sent; its response is awaited.
    Awaiting,
    /// A 200 response came; its body is being read.
    Streaming,
}

/// One request/response cycle of a protocol phase. It keeps the body written
/// so far so that a redirect can send the same request again.
#[derive(Debug)]
pub struct HttpStream {
    desc: ActionDescriptor,
    body: Vec<u8>,
    phase: Phase,
    /// A body was written, possibly empty.
    written: bool,
    redirects: u32,
}

pub struct StreamView {
    pub desc: DescView,
    pub body: Seq<u8>,
    pub phase: Phase,
    pub written: bool,
    pub redirects: u32,
}

/// A stream of phase `d` that has done nothing yet.
pub open spec fn fresh_stream(d: DescView) -> StreamView {
    StreamView { desc: d, body: Seq::empty(), phase: Phase::Idle, written: false, redirects: 0 }
}

pub open spec fn no_base() -> Error {
    Error::UrlError(UrlError { kind: UrlErrorKind::CannotBeABase })
}

/// What `HttpStream::write` does with `data`: the new state and the commands.
pub open spec fn write_outcome(s: StreamView, h: HttpView, data: Seq<u8>) -> Result<
    (StreamView, Seq<CmdView>),
    Error,
> {
    if !h.connected || h.url.is_none() {
        Err(Error::IoError)
    } else if s.desc.1 == HttpVerb::Get {
        Err(Error::HttpError(HttpError::WriteOnListing))
    } else {
        match s.phase {
            Phase::Awaiting | Phase::Streaming => Err(Error::HttpError(HttpError::WriteAfterRead)),
            Phase::Writing => if s.desc.4 {
                Ok((StreamView { body: s.body + data, ..s }, seq![CmdView::Body(data)]))
            } else {
                Err(Error::HttpError(HttpError::RepeatedWrite))
            },
            Phase::Idle => match spec_head(s.desc, h.url.unwrap(), Some(data.len())) {
                None => Err(no_base()),
                Some(hd) => Ok(
                    (
                        StreamView { body: s.body + data, phase: Phase::Writing, written: true, ..s },
                        seq![CmdView::Open(hd), CmdView::Body(data)],
                    ),
                ),
            },
        }
    }
}

/// What `HttpStream::read` does: the new state and the commands.
pub open spec fn read_outcome(s: StreamView, h: HttpView) -> Result<(StreamView, Seq<CmdView>), Error> {
    match s.phase {
        Phase::Streaming => Ok((s, seq![CmdView::ReadBody])),
        Phase::Awaiting => Ok((s, Seq::empty())),
        Phase::Writing => Ok((StreamView { phase: Phase::Awaiting, ..s }, seq![CmdView::Send])),
        Phase::Idle => if !h.connected || h.url.is_none() {
            Err(Error::IoError)
        } else {
            match spec_head(s.desc, h.url.unwrap(), None) {
                None => Err(no_base()),
                Some(hd) => Ok(
                    (StreamView { phase: Phase::Awaiting, ..s }, seq![CmdView::Open(hd), CmdView::Send]),
                ),
            }
        },
    }
}

pub open spec fn is_redirect(status: u16) -> bool {
    300 <= status <= 399
}

/// The length of the body written on stream `s`, if one was.
pub open spec fn written_len(s: StreamView) -> Option<nat> {
    if s.written {
        Some(s.body.len())
    } else {
        None
    }
}

/// The commands that send a request again: header, the body if one was
/// written, send.
pub open spec fn reissue(hd: HeadView, s: StreamView) -> Seq<CmdView> {
    if s.written {
        seq![CmdView::Open(hd), CmdView::Body(s.body), CmdView::Send]
    } else {
        seq![CmdView::Open(hd), CmdView::Send]
    }
}

/// What `HttpStream::on_response` does with a response of `status` and
/// `Location` header `loc`: the new stream and subtransport states and the
/// commands.
pub open spec fn response_outcome(s: StreamView, h: HttpView, status: u16, loc: Option<Seq<char>>) -> Result<
    (StreamView, HttpView, Seq<CmdView>),
    Error,
> {
    if is_redirect(status) {
        match loc {
            None => Err(Error::HttpError(HttpError::RedirectWithoutLocation)),
            Some(l) => if s.redirects >= h.max_redirects {
                Err(Error::HttpError(HttpError::TooManyRedirects))
            } else {
                match spec_check_url(l, parsed_url_of(l)) {
                    None => Err(Error::ParseError),
                    Some(Err(e)) => Err(Error::UrlError(e)),
                    Some(Ok(ep)) => match spec_head(s.desc, ep, written_len(s)) {
                        None => Err(no_base()),
                        Some(hd) => Ok(
                            (
                                StreamView { redirects: (s.redirects + 1) as u32, ..s },
                                HttpView { url: Some(ep), connected: true, ..h },
                                reissue(hd, s),
                            ),
                        ),
                    },
                }
            },
        }
    } else if status == 200 {
        Ok((StreamView { phase: Phase::Streaming, ..s }, h, seq![CmdView::ReadBody]))
    } else {
        Err(Error::HttpError(HttpError::Status(status)))
    }
}

/// Appends `data` to `v`.
fn append_bytes(v: &mut Vec<u8>, data: &[u8])
    ensures
        final(v)@ == old(v)@ + data@,
{
    let ghost start = v@;
    let mut i: usize = 0;
    while i < data.len()
        invariant
            i <= data@.len(),
            v@ == start + data@.subrange(0, i as int),
        decreases data@.len() - i,
    {
        v.push(data[i]);
        i = i + 1;
        assert(v@ =~= start + data@.subrange(0, i as int));
    }
    assert(data@.subrange(0, data@.len() as int) =~= data@);
}

fn copy_bytes(data: &[u8]) -> (r: Vec<u8>)
    ensures
        r@ == data@,
{
    let mut v: Vec<u8> = Vec::new();
    append_bytes(&mut v, data);
    assert(v@ =~= data@);
    v
}

impl HttpStream {
    pub closed spec fn view(&self) -> StreamView {
        StreamView {
            desc: self.desc.view(),
            body: self.body@,
            phase: self.phase,
            written: self.written,
            redirects: self.redirects,
        }
    }

    /// A stream for phase `desc` that has sent nothing.
    pub fn new(desc: ActionDescriptor) -> (r: HttpStream)
        ensures
            r.view() == fresh_stream(desc.view()),
    {
        let r = HttpStream { desc, body: Vec::new(), phase: Phase::Idle, written: false, redirects: 0 };
        assert(r.view().body =~= Seq::<u8>::empty());
        r
    }

    pub fn phase(&self) -> (r: Phase)
        ensures
            r == self.view().phase,
    {
        self.phase
    }

    /// Sends `data` as (part of) the request body. A chunked request is opened
    /// by the first write and stays open for more; a request with a length
    /// takes one write only.
    pub fn write(&mut self, http: &Http, data: &[u8]) -> (r: Result<Vec<Command>, Error>)
        ensures
            match write_outcome(old(self).view(), http.view(), data@) {
                Ok((s, c)) => r matches Ok(cmds) && cmds_view(cmds@) == c && final(self).view() == s,
                Err(e) => r == Err::<Vec<Command>, Error>(e) && final(self).view() == old(self).view(),
            },
    {
        if !http.connected || http.url.is_none() {
            return Err(Error::IoError);
        }
        if self.desc.verb == HttpVerb::Get {
            return Err(Error::HttpError(HttpError::WriteOnListing));
        }
        match self.phase {
            Phase::Awaiting | Phase::Streaming => Err(Error::HttpError(HttpError::WriteAfterRead)),
            Phase::Writing => {
                if !self.desc.chunked {
                    return Err(Error::HttpError(HttpError::RepeatedWrite));
                }
                append_bytes(&mut self.body, data);
                let cmds = vec![Command::Body(copy_bytes(data))];
                assert(cmds_view(cmds@) =~= seq![CmdView::Body(data@)]);
                Ok(cmds)
            },
            Phase::Idle => {
                let ep = http.url.as_ref().unwrap();
                let head = match gen_request(&self.desc, ep, Some(data.len())) {
                    Ok(h) => h,
                    Err(e) => return Err(e),
                };
                append_bytes(&mut self.body, data);
                self.phase = Phase::Writing;
                self.written = true;
                let cmds = vec![Command::Open(head), Command::Body(copy_bytes(data))];
                assert(cmds_view(cmds@) =~= seq![CmdView::Open(head.view()), CmdView::Body(data@)]);
                Ok(cmds)
            },
        }
    }

    /// Asks for the response: sends the request if that has not been done
    /// (a bodiless one if nothing was written), or reads from the body of a
    /// response already in.
    pub fn read(&mut self, http: &Http) -> (r: Result<Vec<Command>, Error>)
        ensures
            match read_outcome(old(self).view(), http.view()) {
                Ok((s, c)) => r matches Ok(cmds) && cmds_view(cmds@) == c && final(self).view() == s,
                Err(e) => r == Err::<Vec<Command>, Error>(e) && final(self).view() == old(self).view(),
            },
    {
        match self.phase {
            Phase::Streaming => {
                let cmds = vec![Command::ReadBody];
                assert(cmds_view(cmds@) =~= seq![CmdView::ReadBody]);
                Ok(cmds)
            },
            Phase::Awaiting => {
                let cmds: Vec<Command> = Vec::new();
                assert(cmds_view(cmds@) =~= Seq::<CmdView>::empty());
                Ok(cmds)
            },
            Phase::Writing => {
                self.phase = Phase::Awaiting;
                let cmds = vec![Command::Send];
                assert(cmds_view(cmds@) =~= seq![CmdView::Send]);
                Ok(cmds)
            },
            Phase::Idle => {
                if !http.connected || http.url.is_none() {
                    return Err(Error::IoError);
                }
                let ep = http.url.as_ref().unwrap();
                let head = match gen_request(&self.desc, ep, None) {
                    Ok(h) => h,
                    Err(e) => return Err(e),
                };
                self.phase = Phase::Awaiting;
                let cmds = vec![Command::Open(head), Command::Send];
                assert(cmds_view(cmds@) =~= seq![CmdView::Open(head.view()), CmdView::Send]);
                Ok(cmds)
            },
        }
    }

    /// Takes the status and `Location` header of the response to the request
    /// just sent. A 200 response is then read from; a redirect moves the
    /// subtransport to the new URL and sends the same request there, at most
    /// as often as the subtransport allows; any other status fails.
    pub fn on_response(&mut self, http: &mut Http, status: u16, location: Option<&str>) -> (r: Result<
        Vec<Command>,
        Error,
    >)
        requires
            old(self).view().phase == Phase::Awaiting,
        ensures
            match response_outcome(old(self).view(), old(http).view(), status, opt_str_view(location)) {
                Ok((s, h, c)) => r matches Ok(cmds) && cmds_view(cmds@) == c && final(self).view() == s
                    && final(http).view() == h,
                Err(e) => r == Err::<Vec<Command>, Error>(e) && final(self).view() == old(self).view()
                    && final(http).view() == old(http).view(),
            },
    {
        if 300 <= status && status <= 399 {
            let loc = match location {
                None => return Err(Error::HttpError(HttpError::RedirectWithoutLocation)),
                Some(l) => l,
            };
            if self.redirects >= http.max_redirects {
                return Err(Error::HttpError(HttpError::TooManyRedirects));
            }
            let ep = match check_url(loc, parse_parts(loc)) {
                None => return Err(Error::ParseError),
                Some(Err(e)) => return Err(Error::UrlError(e)),
                Some(Ok(ep)) => ep,
            };
            let written = if self.written {
                Some(self.body.len())
            } else {
                None
            };
            let head = match gen_request(&self.desc, &ep, written) {
                Ok(h) => h,
                Err(e) => return Err(e),
            };
            // The connection to the old URL goes with it; the `Open` below
            // establishes the one to the new URL.
            http.url = Some(ep);
            http.connected = true;
            self.redirects = self.redirects + 1;
            let cmds = if self.written {
                vec![Command::Open(head), Command::Body(copy_bytes(self.body.as_slice())), Command::Send]
            } else {
                vec![Command::Open(head), Command::Send]
            };
            assert(cmds_view(cmds@) =~= reissue(head.view(), old(self).view()));
            Ok(cmds)
        } else if status == 200 {
            self.phase = Phase::Streaming;
            let cmds = vec![Command::ReadBody];
            assert(cmds_view(cmds@) =~= seq![CmdView::ReadBody]);
            Ok(cmds)
        } else {
            Err(Error::HttpError(HttpError::Status(status)))
        }
    }
}

/// What `Http::action` leaves of the subtransport: the URL set from `raw` if
/// there was none, then connected.
pub open spec fn action_outcome(h: HttpView, raw: Seq<char>) -> Result<HttpView, Error> {
    let set = if h.url.is_none() {
        parse_url_outcome(h, raw)
    } else {
        Ok(h)
    };
    match set {
        Err(e) => Err(e),
        Ok(h1) => Ok(HttpView { connected: true, ..h1 }),
    }
}

impl Http {
    /// A stream for phase `action`. The URL is taken from `url` on the first
    /// call only; every call connects. No I/O happens here.
    pub fn action(&mut self, url: &str, action: GitSmartService) -> (r: Result<HttpStream, Error>)
        ensures
            match action_outcome(old(self).view(), url@) {
                Ok(h) => r matches Ok(st) && st.view() == fresh_stream(descriptor_spec(action))
                    && final(self).view() == h,
                Err(e) => r is Err && r == Err::<HttpStream, Error>(e) && final(self).view() == old(
                    self,
                ).view(),
            },
    {
        if self.url.is_none() {
            match self.parse_url(url) {
                Ok(()) => {},
                Err(e) => return Err(e),
            }
        }
        match self.connect() {
            Ok(()) => {},
            Err(e) => return Err(e),
        }
        Ok(HttpStream::new(descriptor(action)))
    }
}

/// On an exchange of fetch, whose body announces its length, one write
/// followed by a read sends exactly one request: its header carries the
/// body's exact length (zero included), the whole body follows, and the
/// request is sent.
pub proof fn lemma_single_write_announces_length(h: HttpView, data: Seq<u8>)
    requires
        h.connected,
        h.url.is_some(),
        data.len() <= u64::MAX,
        service_url_of(h.url.unwrap().2, seq!["git-upload-pack"@], None).is_some(),
    ensures
        ({
            let d = descriptor_spec(GitSmartService::UploadPack);
            let hd = spec_head(d, h.url.unwrap(), Some(data.len())).unwrap();
            &&& hd.content_length == Some(data.len() as u64)
            &&& !hd.chunked
            &&& hd.verb == HttpVerb::Post
            &&& write_outcome(fresh_stream(d), h, data) is Ok
            &&& read_outcome(write_outcome(fresh_stream(d), h, data)->Ok_0.0, h) is Ok
            &&& {
                let (s1, c1) = write_outcome(fresh_stream(d), h, data)->Ok_0;
                let (s2, c2) = read_outcome(s1, h)->Ok_0;
                c1 + c2 == seq![CmdView::Open(hd), CmdView::Body(data), CmdView::Send] && s2.phase == Phase::Awaiting
            }
        }),
{
    let d = descriptor_spec(GitSmartService::UploadPack);
    let hd = spec_head(d, h.url.unwrap(), Some(data.len())).unwrap();
    let (s1, c1) = write_outcome(fresh_stream(d), h, data)->Ok_0;
    let (s2, c2) = read_outcome(s1, h)->Ok_0;
    assert(c1 + c2 =~= seq![CmdView::Open(hd), CmdView::Body(data), CmdView::Send]);
}

/// On a push exchange, whose body is chunked, two writes followed by a read
/// send exactly one request: one header, then both buffers as chunks in
/// order, then the send.
pub proof fn lemma_chunked_writes_one_request(h: HttpView, a: Seq<u8>, b: Seq<u8>)
    requires
        h.connected,
        h.url.is_some(),
        service_url_of(h.url.unwrap().2, seq!["git-receive-pack"@], None).is_some(),
    ensures
        ({
            let d = descriptor_spec(GitSmartService::ReceivePack);
            let hd = spec_head(d, h.url.unwrap(), Some(a.len())).unwrap();
            &&& hd.chunked
            &&& hd.content_length.is_none()
            &&& write_outcome(fresh_stream(d), h, a) is Ok
            &&& write_outcome(write_outcome(fresh_stream(d), h, a)->Ok_0.0, h, b) is Ok
            &&& read_outcome(write_outcome(write_outcome(fresh_stream(d), h, a)->Ok_0.0, h, b)->Ok_0.0, h) is Ok
            &&& {
                let (s1, c1) = write_outcome(fresh_stream(d), h, a)->Ok_0;
                let (s2, c2) = write_outcome(s1, h, b)->Ok_0;
                let (s3, c3) = read_outcome(s2, h)->Ok_0;
                &&& c1 + c2 + c3 == seq![CmdView::Open(hd), CmdView::Body(a), CmdView::Body(b), CmdView::Send]
                &&& s3.body == a + b
            }
        }),
{
    let d = descriptor_spec(GitSmartService::ReceivePack);
    let hd = spec_head(d, h.url.unwrap(), Some(a.len())).unwrap();
    let (s1, c1) = write_outcome(fresh_stream(d), h, a)->Ok_0;
    let (s2, c2) = write_outcome(s1, h, b)->Ok_0;
    let (s3, c3) = read_outcome(s2, h)->Ok_0;
    assert(s1.body =~= a);
    assert(c1 + c2 + c3 =~= seq![CmdView::Open(hd), CmdView::Body(a), CmdView::Body(b), CmdView::Send]);
}

/// A redirect with a usable `Location`, within the bound, moves the
/// subtransport to the new URL and sends the same request there: same phase,
/// same body, a header for the new endpoint. A 200 to that second request then
/// makes reads come from its body.
pub proof fn lemma_redirect_reissues(s: StreamView, h: HttpView, status: u16, loc: Seq<char>)
    requires
        s.phase == Phase::Awaiting,
        is_redirect(status),
        s.redirects < h.max_redirects,
        spec_check_url(loc, parsed_url_of(loc)) matches Some(Ok(ep)),
        spec_head(s.desc, spec_check_url(loc, parsed_url_of(loc))->Some_0->Ok_0, written_len(s)).is_some(),
    ensures
        ({
            let ep = spec_check_url(loc, parsed_url_of(loc))->Some_0->Ok_0;
            let hd = spec_head(s.desc, ep, written_len(s)).unwrap();
            &&& response_outcome(s, h, status, Some(loc)) is Ok
            &&& {
                let (s1, h1, c) = response_outcome(s, h, status, Some(loc))->Ok_0;
                let (s2, h2, c2) = response_outcome(s1, h1, 200, None)->Ok_0;
                &&& h1.url == Some(ep) && h1.connected
                &&& c == reissue(hd, s)
                &&& s1.phase == Phase::Awaiting && s1.desc == s.desc && s1.body == s.body
                &&& response_outcome(s1, h1, 200, None) is Ok
                &&& c2 == seq![CmdView::ReadBody] && s2.phase == Phase::Streaming
                &&& read_outcome(s2, h2) == Ok::<(StreamView, Seq<CmdView>), Error>((s2, seq![CmdView::ReadBody]))
            }
        }),
{
}

/// A redirect without `Location` fails the stream.
pub proof fn lemma_redirect_needs_location(s: StreamView, h: HttpView, status: u16)
    requires
        is_redirect(status),
    ensures
        response_outcome(s, h, status, None) == Err::<(StreamView, HttpView, Seq<CmdView>), Error>(
            Error::HttpError(HttpError::RedirectWithoutLocation),
        ),
{
}

/// Redirects are bounded: each one followed counts, the count never passes
/// the subtransport's bound, and one more redirect at the bound fails.
pub proof fn lemma_redirects_bounded(s: StreamView, h: HttpView, status: u16, loc: Option<Seq<char>>)
    requires
        s.redirects <= h.max_redirects,
    ensures
        response_outcome(s, h, status, loc) is Ok ==> {
            let (s1, h1, c) = response_outcome(s, h, status, loc)->Ok_0;
            &&& s1.redirects <= h1.max_redirects
            &&& h1.max_redirects == h.max_redirects
            &&& is_redirect(status) ==> s1.redirects == s.redirects + 1
        },
        is_redirect(status) && loc.is_some() && s.redirects == h.max_redirects ==> response_outcome(
            s,
            h,
            status,
            loc,
        ) == Err::<(StreamView, HttpView, Seq<CmdView>), Error>(Error::HttpError(HttpError::TooManyRedirects)),
{
}

/// Any status other than 200 and outside the redirect class fails the stream
/// with that status.
pub proof fn lemma_bad_status_fails(s: StreamView, h: HttpView, status: u16, loc: Option<Seq<char>>)
    requires
        status != 200,
        !is_redirect(status),
    ensures
        response_outcome(s, h, status, loc) == Err::<(StreamView, HttpView, Seq<CmdView>), Error>(
            Error::HttpError(HttpError::Status(status)),
        ),
{
}

} // verus!
