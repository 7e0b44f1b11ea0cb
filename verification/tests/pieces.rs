use httpd_core::byteseq::parse_usize;
use httpd_core::byteseq::to_decimal;
use httpd_core::byteseq::to_decimal_u64;
use httpd_core::config::Configuration;
use httpd_core::stream::ByteSink;
use httpd_core::stream::ByteStream;
use httpd_core::stream::copy_bytes;

#[test]
fn decimal_formatting() {
    assert_eq!(to_decimal(0), b"0".to_vec());
    assert_eq!(to_decimal(7), b"7".to_vec());
    assert_eq!(to_decimal(1024), b"1024".to_vec());
    assert_eq!(to_decimal_u64(18446744073709551615), b"18446744073709551615".to_vec());
}

#[test]
fn decimal_parsing() {
    assert_eq!(parse_usize(&b"0".to_vec()), Some(0));
    assert_eq!(parse_usize(&b"1024".to_vec()), Some(1024));
    assert_eq!(parse_usize(&b"".to_vec()), None);
    assert_eq!(parse_usize(&b"12a".to_vec()), None);
    assert_eq!(parse_usize(&b"-3".to_vec()), None);
    assert_eq!(parse_usize(&b"18446744073709551615".to_vec()), Some(usize::MAX));
    assert_eq!(parse_usize(&b"18446744073709551616".to_vec()), None);
}

#[test]
fn copy_loop_moves_exactly_the_declared_count() {
    let mut reader = ByteStream::new((0..100u8).collect());
    let mut writer = ByteSink::new();
    let copied = copy_bytes(&mut reader, &mut writer, 60, 7).expect("enough bytes");
    assert_eq!(copied, 60);
    assert_eq!(writer.bytes().as_slice(), (0..60u8).collect::<Vec<u8>>().as_slice());
    assert_eq!(reader.remaining(), 40);
}

#[test]
fn copy_loop_fails_on_short_stream() {
    let mut reader = ByteStream::new(b"abc".to_vec());
    let mut writer = ByteSink::new();
    assert!(copy_bytes(&mut reader, &mut writer, 10, 4).is_err());
}

#[test]
fn copy_loop_of_zero_bytes_writes_nothing() {
    let mut reader = ByteStream::new(b"abc".to_vec());
    let mut writer = ByteSink::new();
    let copied = copy_bytes(&mut reader, &mut writer, 0, 1024).expect("trivial");
    assert_eq!(copied, 0);
    assert!(writer.bytes().is_empty());
    assert_eq!(reader.remaining(), 3);
}

#[test]
fn stream_read_exact_consumes_from_the_front() {
    let mut stream = ByteStream::new(b"abcdef".to_vec());
    assert_eq!(stream.read_exact(2).expect("enough"), b"ab".to_vec());
    assert_eq!(stream.read_exact(3).expect("enough"), b"cde".to_vec());
    assert!(stream.read_exact(2).is_err());
    assert_eq!(stream.remaining(), 1);
}

#[test]
fn resolve_path_joins_on_the_root() {
    let config = Configuration::new(Some(b"/srv".to_vec()));
    let cwd = b"/cwd".to_vec();
    assert_eq!(
        config.resolve_path(&cwd, &b"a.txt".to_vec()),
        b"/srv/a.txt".to_vec()
    );
    let slashed = Configuration::new(Some(b"/srv/".to_vec()));
    assert_eq!(
        slashed.resolve_path(&cwd, &b"a.txt".to_vec()),
        b"/srv/a.txt".to_vec()
    );
}

#[test]
fn resolve_path_falls_back_to_the_working_directory() {
    let config = Configuration::new(None);
    let cwd = b"/cwd".to_vec();
    assert_eq!(
        config.resolve_path(&cwd, &b"a.txt".to_vec()),
        b"/cwd/a.txt".to_vec()
    );
}

#[test]
fn resolve_path_keeps_an_absolute_path() {
    let config = Configuration::new(Some(b"/srv".to_vec()));
    let cwd = b"/cwd".to_vec();
    assert_eq!(
        config.resolve_path(&cwd, &b"/etc/x".to_vec()),
        b"/etc/x".to_vec()
    );
}
