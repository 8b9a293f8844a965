use anytree::index_cache::{convert_index_line_to_cache, convert_index_to_cache};
use anytree::errors::Error;

const ETAG: &[u8] = b"etag: W/\"bbbf8771a5922743c5e0b466d90e7ab6\"";

fn expected_prefix() -> Vec<u8> {
    let mut out = vec![3u8, 2, 0, 0, 0];
    out.extend_from_slice(ETAG);
    out.push(0);
    out
}

#[test]
fn test_index_cache_framing() {
    let line1 = br#"{"name":"demo","vers":"0.1.0"}"#;
    let line2 = br#"{"name":"demo","vers":"0.2.1"}"#;
    let mut listing = Vec::new();
    listing.extend_from_slice(line1);
    listing.push(b'\n');
    listing.extend_from_slice(line2);
    listing.push(b'\n');

    let out = convert_index_to_cache(&listing).unwrap();
    assert_eq!(&out[..5], &[3u8, 2, 0, 0, 0]);
    let prefix = expected_prefix();
    assert_eq!(&out[..prefix.len()], prefix.as_slice());

    // The rest splits on zero bytes into version / line pairs, in order.
    let rest = &out[prefix.len()..];
    assert_eq!(*rest.last().unwrap(), 0u8);
    let segments: Vec<&[u8]> = rest[..rest.len() - 1].split(|b| *b == 0).collect();
    assert_eq!(segments.len(), 4);
    assert_eq!(segments[0], b"0.1.0");
    assert_eq!(segments[1], line1.as_slice());
    assert_eq!(segments[2], b"0.2.1");
    assert_eq!(segments[3], line2.as_slice());
}

#[test]
fn test_index_cache_stops_at_empty_line() {
    let listing = b"{\"vers\":\"1.0.0\"}\n\n{\"vers\":\"9.9.9\"}\n";
    let out = convert_index_to_cache(listing).unwrap();
    let text = String::from_utf8_lossy(&out);
    assert!(text.contains("1.0.0"));
    assert!(!text.contains("9.9.9"));
}

#[test]
fn test_index_cache_without_trailing_newline() {
    let listing = br#"{"vers":"2.0.0"}"#;
    let out = convert_index_to_cache(listing).unwrap();
    let prefix = expected_prefix();
    let rest = &out[prefix.len()..];
    let segments: Vec<&[u8]> = rest[..rest.len() - 1].split(|b| *b == 0).collect();
    assert_eq!(segments.len(), 2);
    assert_eq!(segments[0], b"2.0.0");
    assert_eq!(segments[1], listing.as_slice());
}

#[test]
fn test_index_cache_empty_listing() {
    let out = convert_index_to_cache(b"").unwrap();
    assert_eq!(out, expected_prefix());
}

#[test]
fn test_index_cache_malformed_line() {
    assert!(matches!(
        convert_index_to_cache(b"not json\n"),
        Err(Error::MalformedIndex)
    ));
}

#[test]
fn test_index_cache_missing_vers_field() {
    assert!(matches!(
        convert_index_to_cache(br#"{"name":"demo"}"#),
        Err(Error::MalformedIndex)
    ));
}

#[test]
fn test_index_cache_vers_must_be_string() {
    assert!(matches!(
        convert_index_to_cache(br#"{"vers":3}"#),
        Err(Error::MalformedIndex)
    ));
}

#[test]
fn test_single_record_fallback() {
    let line = br#"{"name":"demo","vers":"0.3.3"}"#;
    let out = convert_index_line_to_cache(line).unwrap();
    let prefix = expected_prefix();
    let rest = &out[prefix.len()..];
    let segments: Vec<&[u8]> = rest[..rest.len() - 1].split(|b| *b == 0).collect();
    assert_eq!(segments.len(), 2);
    assert_eq!(segments[0], b"0.3.3");
    assert_eq!(segments[1], line.as_slice());

    assert!(matches!(
        convert_index_line_to_cache(b"{}"),
        Err(Error::MalformedIndex)
    ));
}
