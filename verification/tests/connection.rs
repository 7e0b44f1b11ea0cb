use httpd_core::HttpErrorKind;
use httpd_core::HttpVerb;
use httpd_core::StatusCode;
use httpd_core::config::Configuration;
use httpd_core::fs_model::FsModel;
use httpd_core::response::Response;
use httpd_core::server::declare_routes;
use httpd_core::server::handle_connection;
use httpd_core::stream::ByteSink;

fn run(fs: &mut FsModel, input: Vec<u8>) -> Result<Vec<u8>, HttpErrorKind> {
    let config = Configuration::new(Some(b"/srv".to_vec()));
    let routes = declare_routes();
    let cwd = b"/cwd".to_vec();
    let mut out = ByteSink::new();
    match handle_connection(&config, &cwd, fs, &routes, input, &mut out) {
        Ok(()) => Ok(out.into_bytes()),
        Err(e) => Err(e.kind),
    }
}

#[test]
fn root_answers_bare_ok() {
    let mut fs = FsModel::new();
    let out = run(&mut fs, b"GET / HTTP/1.1\r\n\r\n".to_vec()).expect("served");
    assert_eq!(out, b"HTTP/1.1 200 OK\r\n\r\n".to_vec());
}

#[test]
fn echo_answers_stripped_text_on_the_wire() {
    let mut fs = FsModel::new();
    let out = run(&mut fs, b"GET /echo/hi HTTP/1.1\r\n\r\n".to_vec()).expect("served");
    assert_eq!(
        out,
        b"HTTP/1.1 200 OK\r\nContent-Type: text/plain\r\nContent-Length: 2\r\n\r\nhi".to_vec()
    );
}

#[test]
fn user_agent_round_trip_on_the_wire() {
    let mut fs = FsModel::new();
    let out = run(
        &mut fs,
        b"GET /user-agent HTTP/1.1\r\nUser-Agent: foo/1.0\r\n\r\n".to_vec(),
    )
    .expect("served");
    assert_eq!(
        out,
        b"HTTP/1.1 200 OK\r\nContent-Type: text/plain\r\nContent-Length: 7\r\n\r\nfoo/1.0"
            .to_vec()
    );
}

#[test]
fn user_agent_missing_terminates_without_bytes() {
    let mut fs = FsModel::new();
    let err = run(&mut fs, b"GET /user-agent HTTP/1.1\r\n\r\n".to_vec())
        .expect_err("dispatch failure");
    assert_eq!(err, HttpErrorKind::MissingHeader);
}

#[test]
fn unmatched_request_gets_the_catch_all() {
    let mut fs = FsModel::new();
    let out = run(&mut fs, b"GET /nothing-here HTTP/1.1\r\n\r\n".to_vec()).expect("served");
    assert_eq!(out, b"HTTP/1.1 404 Not Found\r\n\r\n".to_vec());
}

#[test]
fn missing_file_answers_not_found() {
    let mut fs = FsModel::new();
    let out = run(&mut fs, b"GET /files/does-not-exist HTTP/1.1\r\n\r\n".to_vec())
        .expect("served");
    assert_eq!(out, b"HTTP/1.1 404 Not Found\r\n\r\n".to_vec());
}

#[test]
fn unreadable_file_answers_forbidden() {
    let mut fs = FsModel::new();
    fs.add_entry(b"/srv/secret.txt".to_vec(), b"hidden".to_vec(), false);
    let out = run(&mut fs, b"GET /files/secret.txt HTTP/1.1\r\n\r\n".to_vec()).expect("served");
    assert_eq!(out, b"HTTP/1.1 403 Forbidden\r\n\r\n".to_vec());
}

#[test]
fn download_streams_an_existing_file() {
    let mut fs = FsModel::new();
    fs.add_entry(b"/srv/a.txt".to_vec(), b"payload".to_vec(), true);
    let out = run(&mut fs, b"GET /files/a.txt HTTP/1.1\r\n\r\n".to_vec()).expect("served");
    let expected = b"HTTP/1.1 200 OK\r\nContent-Length: 7\r\nContent-Type: application/octet-stream\r\nContent-Disposition: attachment\r\n\r\npayload".to_vec();
    assert_eq!(out, expected);
}

#[test]
fn malformed_request_line_is_isolated() {
    let mut fs = FsModel::new();
    fs.add_entry(b"/srv/a.txt".to_vec(), b"payload".to_vec(), true);
    let err = run(&mut fs, b"GET\r\n\r\n".to_vec()).expect_err("no path");
    assert_eq!(err, HttpErrorKind::InvalidRequestLine);
    // The filesystem is untouched and the engine still serves others.
    assert_eq!(fs.contents(&b"/srv/a.txt".to_vec()), Some(b"payload".to_vec()));
    let out = run(&mut fs, b"GET /echo/ok HTTP/1.1\r\n\r\n".to_vec()).expect("served");
    assert!(out.ends_with(b"ok"));
}

fn upload_then_download(body: Vec<u8>) {
    let mut fs = FsModel::new();
    let mut upload = format!(
        "POST /files/test.bin HTTP/1.1\r\nContent-Length: {}\r\n\r\n",
        body.len()
    )
    .into_bytes();
    upload.extend_from_slice(&body);
    let out = run(&mut fs, upload).expect("upload served");
    assert_eq!(out, b"HTTP/1.1 201 Created\r\n\r\n".to_vec());
    assert_eq!(
        fs.contents(&b"/srv/test.bin".to_vec()),
        Some(body.clone()),
        "stored bytes must equal the uploaded body"
    );

    let out = run(&mut fs, b"GET /files/test.bin HTTP/1.1\r\n\r\n".to_vec())
        .expect("download served");
    let mut expected = if body.is_empty() {
        b"HTTP/1.1 200 OK\r\nContent-Type: application/octet-stream\r\nContent-Disposition: attachment\r\n\r\n".to_vec()
    } else {
        format!(
            "HTTP/1.1 200 OK\r\nContent-Length: {}\r\nContent-Type: application/octet-stream\r\nContent-Disposition: attachment\r\n\r\n",
            body.len()
        )
        .into_bytes()
    };
    expected.extend_from_slice(&body);
    assert_eq!(out, expected, "downloaded body must be byte-identical");
}

#[test]
fn upload_download_round_trip_empty() {
    upload_then_download(Vec::new());
}

#[test]
fn upload_download_round_trip_one_byte() {
    upload_then_download(b"x".to_vec());
}

#[test]
fn upload_download_round_trip_exactly_buffer_size() {
    let body: Vec<u8> = (0..1024u32).map(|i| (i % 251) as u8).collect();
    upload_then_download(body);
}

#[test]
fn upload_download_round_trip_multiple_buffers_plus_remainder() {
    let body: Vec<u8> = (0..5000u32).map(|i| (i % 241) as u8).collect();
    upload_then_download(body);
}

#[test]
fn upload_overwrites_an_existing_file() {
    let mut fs = FsModel::new();
    fs.add_entry(b"/srv/test.bin".to_vec(), b"old-old-old".to_vec(), true);
    let out = run(
        &mut fs,
        b"POST /files/test.bin HTTP/1.1\r\nContent-Length: 3\r\n\r\nnew".to_vec(),
    )
    .expect("upload served");
    assert_eq!(out, b"HTTP/1.1 201 Created\r\n\r\n".to_vec());
    assert_eq!(fs.contents(&b"/srv/test.bin".to_vec()), Some(b"new".to_vec()));
}

#[test]
fn upload_without_length_answers_internal_error() {
    let mut fs = FsModel::new();
    let out = run(
        &mut fs,
        b"POST /files/test.bin HTTP/1.1\r\n\r\nbody".to_vec(),
    )
    .expect("structured answer");
    assert_eq!(out, b"HTTP/1.1 500 Internal Server Error\r\n\r\n".to_vec());
}

#[test]
fn write_header_emits_the_fixed_order() {
    let mut response = Response::from_status(StatusCode::Created);
    response.add_header(&b"A".to_vec(), &b"1".to_vec());
    response.add_header(&b"B".to_vec(), &b"2".to_vec());
    let mut sink = ByteSink::new();
    response.write_header(&mut sink).expect("in-memory sink");
    assert_eq!(
        sink.into_bytes(),
        b"HTTP/1.1 201 Created\r\nA: 1\r\nB: 2\r\n\r\n".to_vec()
    );
}

#[test]
fn routes_are_declared_in_standard_order() {
    let routes = declare_routes();
    assert_eq!(routes.len(), 6);
    let echo = httpd_core::request::Request::new(HttpVerb::Get, b"/echo/z".to_vec());
    let (idx, len) = httpd_core::route::find_route(&routes, &echo).expect("matches");
    assert_eq!((idx, len), (1, 6));
}
