use gitrs::transports::http::{
    descriptor, Command, Error, GitService, Http, HttpError, HttpStream, HttpVerb, Phase, RequestHead,
    DEFAULT_MAX_REDIRECTS, USER_AGENT,
};
use gitrs::transports::url::{UrlError, UrlErrorKind};
use gitrs::transports::{GitSmartService, GitTransport};

fn transport() -> Http {
    Http::new(&GitTransport)
}

fn stream_for(http: &mut Http, action: GitSmartService) -> HttpStream {
    http.action("http://example.com/repo", action).expect("action")
}

fn open_head(cmd: &Command) -> &RequestHead {
    match cmd {
        Command::Open(h) => h,
        other => panic!("expected an open command, got {:?}", other),
    }
}

fn count_opens(cmds: &[Command]) -> usize {
    cmds.iter().filter(|c| matches!(c, Command::Open(_))).count()
}

#[test]
fn descriptor_table_matches_wire_protocol() {
    let d = descriptor(GitSmartService::UploadPackLs);
    assert_eq!(d.service, GitService::UploadPack);
    assert_eq!(d.verb, HttpVerb::Get);
    assert_eq!(d.path, vec!["info", "refs"]);
    assert_eq!(d.query, Some("service=git-upload-pack"));
    assert!(!d.chunked);

    let d = descriptor(GitSmartService::UploadPack);
    assert_eq!(d.service, GitService::UploadPack);
    assert_eq!(d.verb, HttpVerb::Post);
    assert_eq!(d.path, vec!["git-upload-pack"]);
    assert_eq!(d.query, None);
    assert!(!d.chunked);

    let d = descriptor(GitSmartService::ReceivePackLs);
    assert_eq!(d.service, GitService::ReceivePack);
    assert_eq!(d.verb, HttpVerb::Get);
    assert_eq!(d.path, vec!["info", "refs"]);
    assert_eq!(d.query, Some("service=git-receive-pack"));
    assert!(!d.chunked);

    let d = descriptor(GitSmartService::ReceivePack);
    assert_eq!(d.service, GitService::ReceivePack);
    assert_eq!(d.verb, HttpVerb::Post);
    assert_eq!(d.path, vec!["git-receive-pack"]);
    assert_eq!(d.query, None);
    assert!(d.chunked);
}

#[test]
fn action_streams_send_the_table_request() {
    let cases = [
        (GitSmartService::UploadPackLs, HttpVerb::Get, "http://example.com/repo/info/refs?service=git-upload-pack", false),
        (GitSmartService::UploadPack, HttpVerb::Post, "http://example.com/repo/git-upload-pack", false),
        (GitSmartService::ReceivePackLs, HttpVerb::Get, "http://example.com/repo/info/refs?service=git-receive-pack", false),
        (GitSmartService::ReceivePack, HttpVerb::Post, "http://example.com/repo/git-receive-pack", true),
    ];
    for (action, verb, url, chunked) in cases {
        let mut http = transport();
        let mut st = stream_for(&mut http, action);
        assert!(http.is_connected());
        let cmds = st.read(&http).expect("read");
        assert_eq!(cmds.len(), 2);
        let head = open_head(&cmds[0]);
        assert_eq!(head.verb, verb);
        assert_eq!(head.url, url);
        assert_eq!(head.chunked, chunked);
        assert_eq!(head.host, "example.com");
        assert_eq!(head.port, 80);
        assert_eq!(head.user_agent, USER_AGENT);
        assert!(matches!(cmds[1], Command::Send));
        assert_eq!(st.phase(), Phase::Awaiting);
    }
}

#[test]
fn listing_request_has_no_body_headers() {
    let mut http = transport();
    let mut st = stream_for(&mut http, GitSmartService::UploadPackLs);
    let cmds = st.read(&http).unwrap();
    let head = open_head(&cmds[0]);
    assert_eq!(head.accept, None);
    assert_eq!(head.content_type, None);
    assert_eq!(head.content_length, None);
    assert_eq!(head.user_agent, "git/1.0 (libgit2core)");
}

#[test]
fn url_with_explicit_port_is_accepted() {
    let mut http = transport();
    assert_eq!(http.parse_url("http://host:80/path"), Ok(()));
    let ep = http.endpoint().unwrap();
    assert_eq!(ep.host, "host");
    assert_eq!(ep.port, 80);
    assert_eq!(ep.url, "http://host/path");
    assert!(!http.is_connected());
}

#[test]
fn url_with_default_port_is_accepted() {
    let mut http = transport();
    assert_eq!(http.parse_url("http://host/path"), Ok(()));
    let ep = http.endpoint().unwrap();
    assert_eq!(ep.host, "host");
    assert_eq!(ep.port, 80);
    assert_eq!(ep.url, "http://host/path");
}

#[test]
fn url_with_other_port_keeps_it() {
    let mut http = transport();
    assert_eq!(http.parse_url("http://host:8080/path"), Ok(()));
    assert_eq!(http.endpoint().unwrap().port, 8080);
}

#[test]
fn https_url_is_rejected() {
    let mut http = transport();
    assert_eq!(
        http.parse_url("https://host/path"),
        Err(Error::UrlError(UrlError { kind: UrlErrorKind::NotHttp }))
    );
    assert!(http.endpoint().is_none());
}

#[test]
fn ftp_url_is_rejected() {
    let mut http = transport();
    assert_eq!(
        http.parse_url("ftp://host/path"),
        Err(Error::UrlError(UrlError { kind: UrlErrorKind::NotHttp }))
    );
}

#[test]
fn url_without_host_is_rejected() {
    let mut http = transport();
    assert_eq!(
        http.parse_url("http:///path"),
        Err(Error::UrlError(UrlError { kind: UrlErrorKind::NoHost }))
    );
    assert!(http.endpoint().is_none());
}

#[test]
fn unparsable_url_is_rejected() {
    let mut http = transport();
    assert_eq!(http.parse_url("not a url"), Err(Error::ParseError));
}

#[test]
fn rejected_url_leaves_action_unconnected() {
    let mut http = transport();
    let r = http.action("https://host/path", GitSmartService::UploadPackLs);
    assert!(matches!(r, Err(Error::UrlError(UrlError { kind: UrlErrorKind::NotHttp }))));
    assert!(!http.is_connected());
    assert!(http.endpoint().is_none());
}

#[test]
fn action_keeps_first_url() {
    let mut http = transport();
    let _ = stream_for(&mut http, GitSmartService::UploadPackLs);
    let _ = http.action("http://elsewhere.org/x", GitSmartService::UploadPack).unwrap();
    assert_eq!(http.endpoint().unwrap().host, "example.com");
}

#[test]
fn single_write_then_read_announces_exact_length() {
    let mut http = transport();
    let mut st = stream_for(&mut http, GitSmartService::UploadPack);
    let data = b"0032want 0123456789abcdef\n".to_vec();
    let cmds = st.write(&http, &data).unwrap();
    assert_eq!(cmds.len(), 2);
    let head = open_head(&cmds[0]);
    assert_eq!(head.content_length, Some(data.len() as u64));
    assert!(!head.chunked);
    assert_eq!(head.accept, Some("application/x-git-upload-pack-result"));
    assert_eq!(head.content_type, Some("application/x-git-upload-pack-request"));
    match &cmds[1] {
        Command::Body(b) => assert_eq!(b, &data),
        other => panic!("expected body, got {:?}", other),
    }
    let cmds = st.read(&http).unwrap();
    assert_eq!(cmds.len(), 1);
    assert!(matches!(cmds[0], Command::Send));
    let cmds = st.on_response(&mut http, 200, None).unwrap();
    assert!(matches!(cmds[..], [Command::ReadBody]));
    let cmds = st.read(&http).unwrap();
    assert!(matches!(cmds[..], [Command::ReadBody]));
    assert_eq!(st.phase(), Phase::Streaming);
}

#[test]
fn second_write_with_length_is_refused() {
    let mut http = transport();
    let mut st = stream_for(&mut http, GitSmartService::UploadPack);
    st.write(&http, b"abc").unwrap();
    assert_eq!(st.write(&http, b"def").unwrap_err(), Error::HttpError(HttpError::RepeatedWrite));
}

#[test]
fn chunked_writes_make_one_request() {
    let mut http = transport();
    let mut st = stream_for(&mut http, GitSmartService::ReceivePack);
    let mut all = Vec::new();
    all.extend(st.write(&http, b"first").unwrap());
    all.extend(st.write(&http, b"second").unwrap());
    all.extend(st.read(&http).unwrap());
    assert_eq!(count_opens(&all), 1);
    assert_eq!(all.len(), 4);
    let head = open_head(&all[0]);
    assert!(head.chunked);
    assert_eq!(head.content_length, None);
    assert_eq!(head.accept, Some("application/x-git-receive-pack-result"));
    assert_eq!(head.content_type, Some("application/x-git-receive-pack-request"));
    let bodies: Vec<u8> = all
        .iter()
        .filter_map(|c| match c {
            Command::Body(b) => Some(b.clone()),
            _ => None,
        })
        .flatten()
        .collect();
    assert_eq!(bodies, b"firstsecond".to_vec());
    assert!(matches!(all[3], Command::Send));
}

#[test]
fn write_on_listing_is_refused() {
    let mut http = transport();
    let mut st = stream_for(&mut http, GitSmartService::ReceivePackLs);
    assert_eq!(st.write(&http, b"x").unwrap_err(), Error::HttpError(HttpError::WriteOnListing));
}

#[test]
fn write_after_read_is_refused() {
    let mut http = transport();
    let mut st = stream_for(&mut http, GitSmartService::ReceivePack);
    st.read(&http).unwrap();
    assert_eq!(st.write(&http, b"x").unwrap_err(), Error::HttpError(HttpError::WriteAfterRead));
}

#[test]
fn write_without_connection_is_refused() {
    let mut http = transport();
    let mut st = stream_for(&mut http, GitSmartService::ReceivePack);
    http.close();
    assert_eq!(st.write(&http, b"x").unwrap_err(), Error::IoError);
    assert_eq!(st.phase(), Phase::Idle);
}

#[test]
fn redirect_reissues_request_at_new_location() {
    let mut http = transport();
    let mut st = stream_for(&mut http, GitSmartService::UploadPack);
    st.write(&http, b"body").unwrap();
    st.read(&http).unwrap();
    for status in [301u16, 302, 307] {
        let cmds = st.on_response(&mut http, status, Some("http://mirror.example.org:8080/other")).unwrap();
        assert_eq!(cmds.len(), 3);
        let head = open_head(&cmds[0]);
        assert_eq!(head.url, "http://mirror.example.org:8080/other/git-upload-pack");
        assert_eq!(head.host, "mirror.example.org");
        assert_eq!(head.port, 8080);
        assert_eq!(head.verb, HttpVerb::Post);
        assert_eq!(head.content_length, Some(4));
        assert!(matches!(&cmds[1], Command::Body(b) if b == b"body"));
        assert!(matches!(cmds[2], Command::Send));
        assert_eq!(http.endpoint().unwrap().host, "mirror.example.org");
        assert!(http.is_connected());
        assert_eq!(st.phase(), Phase::Awaiting);
    }
    let cmds = st.on_response(&mut http, 200, None).unwrap();
    assert!(matches!(cmds[..], [Command::ReadBody]));
}

#[test]
fn redirect_without_location_fails() {
    let mut http = transport();
    let mut st = stream_for(&mut http, GitSmartService::UploadPackLs);
    st.read(&http).unwrap();
    assert_eq!(
        st.on_response(&mut http, 302, None).unwrap_err(),
        Error::HttpError(HttpError::RedirectWithoutLocation)
    );
}

#[test]
fn redirects_beyond_bound_fail() {
    let mut http = transport();
    http.set_max_redirects(2);
    let mut st = stream_for(&mut http, GitSmartService::UploadPackLs);
    st.read(&http).unwrap();
    assert!(st.on_response(&mut http, 301, Some("http://a.example/r")).is_ok());
    assert!(st.on_response(&mut http, 301, Some("http://b.example/r")).is_ok());
    assert_eq!(
        st.on_response(&mut http, 301, Some("http://c.example/r")).unwrap_err(),
        Error::HttpError(HttpError::TooManyRedirects)
    );
    assert_eq!(http.endpoint().unwrap().host, "b.example");
}

#[test]
fn default_redirect_bound_stops_a_loop() {
    let mut http = transport();
    let mut st = stream_for(&mut http, GitSmartService::UploadPackLs);
    st.read(&http).unwrap();
    let mut followed = 0u32;
    loop {
        match st.on_response(&mut http, 302, Some("http://example.com/repo")) {
            Ok(_) => followed += 1,
            Err(e) => {
                assert_eq!(e, Error::HttpError(HttpError::TooManyRedirects));
                break;
            }
        }
        assert!(followed <= DEFAULT_MAX_REDIRECTS);
    }
    assert_eq!(followed, DEFAULT_MAX_REDIRECTS);
}

#[test]
fn redirect_to_https_fails_with_url_error() {
    let mut http = transport();
    let mut st = stream_for(&mut http, GitSmartService::UploadPackLs);
    st.read(&http).unwrap();
    assert_eq!(
        st.on_response(&mut http, 301, Some("https://secure.example/repo")).unwrap_err(),
        Error::UrlError(UrlError { kind: UrlErrorKind::NotHttp })
    );
    assert_eq!(http.endpoint().unwrap().host, "example.com");
}

#[test]
fn other_statuses_fail_with_their_code() {
    for status in [404u16, 500, 201, 204, 403, 100] {
        let mut http = transport();
        let mut st = stream_for(&mut http, GitSmartService::UploadPackLs);
        st.read(&http).unwrap();
        assert_eq!(
            st.on_response(&mut http, status, None).unwrap_err(),
            Error::HttpError(HttpError::Status(status))
        );
    }
}

#[test]
fn read_while_awaiting_issues_nothing() {
    let mut http = transport();
    let mut st = stream_for(&mut http, GitSmartService::UploadPackLs);
    st.read(&http).unwrap();
    assert!(st.read(&http).unwrap().is_empty());
}

#[test]
fn url_error_descriptions() {
    assert_eq!(UrlError { kind: UrlErrorKind::NoHost }.description(), "there is no host in the url");
    assert_eq!(UrlError { kind: UrlErrorKind::NoPort }.description(), "there is no port for this url");
}

#[test]
fn empty_write_announces_zero_length() {
    let mut http = transport();
    let mut st = stream_for(&mut http, GitSmartService::UploadPack);
    let cmds = st.write(&http, b"").unwrap();
    let head = open_head(&cmds[0]);
    assert_eq!(head.content_length, Some(0));
    assert!(!head.chunked);
    assert_eq!(head.accept, None);
    assert_eq!(head.content_type, None);
    assert!(matches!(&cmds[1], Command::Body(b) if b.is_empty()));
}

#[test]
fn bodiless_exchange_announces_no_length() {
    let mut http = transport();
    let mut st = stream_for(&mut http, GitSmartService::UploadPack);
    let cmds = st.read(&http).unwrap();
    let head = open_head(&cmds[0]);
    assert_eq!(head.content_length, None);
    assert_eq!(head.verb, HttpVerb::Post);
}

#[test]
fn redirect_after_empty_write_keeps_zero_length() {
    let mut http = transport();
    let mut st = stream_for(&mut http, GitSmartService::UploadPack);
    st.write(&http, b"").unwrap();
    st.read(&http).unwrap();
    let cmds = st.on_response(&mut http, 307, Some("http://other.example/r")).unwrap();
    assert_eq!(cmds.len(), 3);
    assert_eq!(open_head(&cmds[0]).content_length, Some(0));
}

#[test]
fn redirect_of_chunked_push_resends_body() {
    let mut http = transport();
    let mut st = stream_for(&mut http, GitSmartService::ReceivePack);
    st.write(&http, b"ab").unwrap();
    st.write(&http, b"cd").unwrap();
    st.read(&http).unwrap();
    let cmds = st.on_response(&mut http, 302, Some("http://other.example/r")).unwrap();
    assert_eq!(cmds.len(), 3);
    assert!(open_head(&cmds[0]).chunked);
    assert_eq!(open_head(&cmds[0]).url, "http://other.example/r/git-receive-pack");
    assert!(matches!(&cmds[1], Command::Body(b) if b == b"abcd"));
}
