use httpd_core::HttpErrorKind;
use httpd_core::HttpVerb;
use httpd_core::StatusCode;
use httpd_core::config::Configuration;
use httpd_core::fs_model::FileCreateOutcome;
use httpd_core::fs_model::FileOpenOutcome;
use httpd_core::fs_model::FsErrorKind;
use httpd_core::handlers::fs_error_response;
use httpd_core::handlers::handle_download_file;
use httpd_core::handlers::handle_echo;
use httpd_core::handlers::handle_upload_file;
use httpd_core::handlers::handle_user_agent;
use httpd_core::request::Request;
use httpd_core::response::Response;
use httpd_core::response::write_payload;
use httpd_core::stream::ByteSink;
use httpd_core::stream::ByteStream;

fn response_body(mut response: Response) -> Vec<u8> {
    match response.payload() {
        None => Vec::new(),
        Some(payload) => {
            let mut sink = ByteSink::new();
            write_payload(payload, &mut sink).expect("in-memory body");
            sink.into_bytes()
        }
    }
}

fn header_value(response: &Response, name: &[u8]) -> Option<Vec<u8>> {
    for field in response.headers() {
        if field.name == name.to_vec() {
            return Some(field.value.clone());
        }
    }
    None
}

#[test]
fn echo_returns_path_as_text() {
    let config = Configuration::new(None);
    let request = Request::new(HttpVerb::Get, b"abc".to_vec());
    let response = handle_echo(&config, request).expect("echo cannot fail");
    assert_eq!(response.code(), StatusCode::HttpOk);
    assert_eq!(
        header_value(&response, b"Content-Type"),
        Some(b"text/plain".to_vec())
    );
    assert_eq!(
        header_value(&response, b"Content-Length"),
        Some(b"3".to_vec())
    );
    assert_eq!(response_body(response), b"abc".to_vec());
}

#[test]
fn echo_of_empty_text_has_no_content_length() {
    let config = Configuration::new(None);
    let request = Request::new(HttpVerb::Get, Vec::new());
    let response = handle_echo(&config, request).expect("echo cannot fail");
    assert_eq!(response.code(), StatusCode::HttpOk);
    assert_eq!(header_value(&response, b"Content-Length"), None);
    assert_eq!(response_body(response), Vec::<u8>::new());
}

#[test]
fn echo_gzip_decodes_back_to_the_text() {
    let config = Configuration::new(None);
    let mut request = Request::new(HttpVerb::Get, b"round trip".to_vec());
    request.add_header(&b"Accept-Encoding".to_vec(), &b"gzip".to_vec());
    let response = handle_echo(&config, request).expect("echo cannot fail");
    assert_eq!(response.code(), StatusCode::HttpOk);
    let declared = header_value(&response, b"Content-Length").expect("coded body is non-empty");
    let compressed = response_body(response);
    assert_eq!(
        declared,
        compressed.len().to_string().into_bytes(),
        "declared length must be the post-transform length"
    );
    assert_ne!(compressed, b"round trip".to_vec());

    let rt = tokio::runtime::Builder::new_current_thread()
        .build()
        .expect("runtime");
    let mut decoded: Vec<u8> = Vec::new();
    let cursor = std::io::Cursor::new(compressed.as_slice());
    let mut decoder = async_compression::tokio::bufread::GzipDecoder::new(cursor);
    rt.block_on(tokio::io::AsyncReadExt::read_to_end(
        &mut decoder,
        &mut decoded,
    ))
    .expect("valid gzip stream");
    assert_eq!(decoded, b"round trip".to_vec());
}

#[test]
fn user_agent_is_echoed() {
    let config = Configuration::new(None);
    let mut request = Request::new(HttpVerb::Get, Vec::new());
    request.add_header(&b"User-Agent".to_vec(), &b"foo/1.0".to_vec());
    let response = handle_user_agent(&config, request).expect("header present");
    assert_eq!(response.code(), StatusCode::HttpOk);
    assert_eq!(
        header_value(&response, b"Content-Length"),
        Some(b"7".to_vec())
    );
    assert_eq!(response_body(response), b"foo/1.0".to_vec());
}

#[test]
fn missing_user_agent_is_an_error() {
    let config = Configuration::new(None);
    let request = Request::new(HttpVerb::Get, Vec::new());
    let err = match handle_user_agent(&config, request) {
        Ok(_) => panic!("a missing User-Agent header must not yield a response"),
        Err(err) => err,
    };
    assert_eq!(err.kind, HttpErrorKind::MissingHeader);
}

#[test]
fn download_streams_the_opened_file() {
    let config = Configuration::new(None);
    let request = Request::new(HttpVerb::Get, b"a.bin".to_vec());
    let outcome = FileOpenOutcome::Opened {
        size: 4,
        content: ByteStream::new(b"data".to_vec()),
    };
    let response = handle_download_file(&config, &request, outcome).expect("always structured");
    assert_eq!(response.code(), StatusCode::HttpOk);
    assert_eq!(
        header_value(&response, b"Content-Type"),
        Some(b"application/octet-stream".to_vec())
    );
    assert_eq!(
        header_value(&response, b"Content-Disposition"),
        Some(b"attachment".to_vec())
    );
    assert_eq!(
        header_value(&response, b"Content-Length"),
        Some(b"4".to_vec())
    );
    assert_eq!(response_body(response), b"data".to_vec());
}

#[test]
fn download_failures_map_to_statuses() {
    let config = Configuration::new(None);
    let request = Request::new(HttpVerb::Get, b"a".to_vec());
    let cases = [
        (FsErrorKind::NotFound, StatusCode::NotFound),
        (FsErrorKind::PermissionDenied, StatusCode::Forbidden),
        (FsErrorKind::Other, StatusCode::InternalServerError),
    ];
    for (kind, code) in cases {
        let response =
            handle_download_file(&config, &request, FileOpenOutcome::Failed(kind))
                .expect("always structured");
        assert_eq!(response.code(), code);
        assert!(response.headers().is_empty());
    }
}

#[test]
fn fs_error_response_maps_all_kinds() {
    assert_eq!(
        fs_error_response(FsErrorKind::NotFound).code(),
        StatusCode::NotFound
    );
    assert_eq!(
        fs_error_response(FsErrorKind::PermissionDenied).code(),
        StatusCode::Forbidden
    );
    assert_eq!(
        fs_error_response(FsErrorKind::Other).code(),
        StatusCode::InternalServerError
    );
}

#[test]
fn upload_copies_declared_length_into_the_file() {
    let config = Configuration::new(None);
    let mut request = Request::new(HttpVerb::Post, b"a.bin".to_vec());
    request.add_header(&b"Content-Length".to_vec(), &b"5".to_vec());
    request.set_payload(httpd_core::Payload::ReadStream(ByteStream::new(
        b"hellorest".to_vec(),
    )));
    let mut file = ByteSink::new();
    let response = handle_upload_file(&config, request, FileCreateOutcome::Created, &mut file)
        .expect("body long enough");
    assert_eq!(response.code(), StatusCode::Created);
    assert_eq!(file.bytes().as_slice(), b"hello");
}

#[test]
fn upload_without_length_is_internal_error() {
    let config = Configuration::new(None);
    let mut request = Request::new(HttpVerb::Post, b"a.bin".to_vec());
    request.set_payload(httpd_core::Payload::ReadStream(ByteStream::new(
        b"hello".to_vec(),
    )));
    let mut file = ByteSink::new();
    let response = handle_upload_file(&config, request, FileCreateOutcome::Created, &mut file)
        .expect("structured answer");
    assert_eq!(response.code(), StatusCode::InternalServerError);
    assert!(file.bytes().is_empty());
}

#[test]
fn upload_with_short_body_fails_with_eof() {
    let config = Configuration::new(None);
    let mut request = Request::new(HttpVerb::Post, b"a.bin".to_vec());
    request.add_header(&b"Content-Length".to_vec(), &b"10".to_vec());
    request.set_payload(httpd_core::Payload::ReadStream(ByteStream::new(
        b"abc".to_vec(),
    )));
    let mut file = ByteSink::new();
    let err = match handle_upload_file(&config, request, FileCreateOutcome::Created, &mut file) {
        Ok(_) => panic!("a short body must not yield a response"),
        Err(err) => err,
    };
    assert_eq!(err.kind, HttpErrorKind::UnexpectedEof);
}

#[test]
fn upload_create_failure_maps_to_status() {
    let config = Configuration::new(None);
    let request = Request::new(HttpVerb::Post, b"a.bin".to_vec());
    let mut file = ByteSink::new();
    let response = handle_upload_file(
        &config,
        request,
        FileCreateOutcome::Failed(FsErrorKind::PermissionDenied),
        &mut file,
    )
    .expect("structured answer");
    assert_eq!(response.code(), StatusCode::Forbidden);
}
