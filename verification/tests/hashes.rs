use anytree::crypto::check_hashes;
use anytree::errors::Error;
use md5::Digest;

fn declared(alg: &str, content: String) -> anytree::sbom::Hash {
    anytree::sbom::Hash { alg: alg.to_string(), content }
}

fn digest_hex(alg: &str, data: &[u8]) -> String {
    match alg {
        "MD5" => hex::encode(md5::Md5::digest(data)),
        "SHA-1" => hex::encode(sha1::Sha1::digest(data)),
        "SHA-256" => hex::encode(sha2::Sha256::digest(data)),
        "SHA-512" => hex::encode(sha2::Sha512::digest(data)),
        _ => panic!("unsupported algorithm in test"),
    }
}

#[test]
fn test_check_hashes_round_trip_all_algorithms() {
    // A few byte sequences of varying length and content.
    let mut samples: Vec<Vec<u8>> = vec![b"".to_vec(), b"abc".to_vec(), b"ok".to_vec()];
    let mut pseudo: Vec<u8> = Vec::new();
    let mut x: u32 = 0x12345678;
    for _ in 0..257 {
        x = x.wrapping_mul(1664525).wrapping_add(1013904223);
        pseudo.push((x >> 24) as u8);
    }
    samples.push(pseudo);
    for data in &samples {
        for alg in ["MD5", "SHA-1", "SHA-256", "SHA-512"] {
            let hashes = vec![declared(alg, digest_hex(alg, data))];
            assert!(check_hashes(&hashes, data).is_ok());
        }
    }
}

#[test]
fn test_check_hashes_known_vectors() {
    let data = b"abc";
    let hashes = vec![
        declared("MD5", "900150983cd24fb0d6963f7d28e17f72".to_string()),
        declared("SHA-1", "a9993e364706816aba3e25717850c26c9cd0d89d".to_string()),
        declared(
            "SHA-256",
            "ba7816bf8f01cfea414140de5dae2223b00361a396177a9cb410ff61f20015ad".to_string(),
        ),
    ];
    assert!(check_hashes(&hashes, data).is_ok());
}

#[test]
fn test_check_hashes_flipped_bit_is_mismatch() {
    let data = b"some archive bytes";
    for alg in ["MD5", "SHA-1", "SHA-256", "SHA-512"] {
        let good = digest_hex(alg, data);
        // Flip one bit of the first hex digit.
        let mut chars: Vec<char> = good.chars().collect();
        chars[0] = if chars[0] == '0' { '1' } else { '0' };
        let bad: String = chars.into_iter().collect();
        let hashes = vec![declared(alg, bad.clone())];
        match check_hashes(&hashes, data) {
            Err(Error::HashMismatch { alg: a, expected, actual }) => {
                assert_eq!(a, alg);
                assert_eq!(expected, bad);
                assert_eq!(actual, good);
            }
            other => panic!("expected a hash mismatch, got {:?}", other),
        }
    }
}

#[test]
fn test_check_hashes_unsupported_algorithm() {
    let data = b"bytes";
    let hashes = vec![declared("SHA-3", "00".to_string())];
    match check_hashes(&hashes, data) {
        Err(Error::UnsupportedAlgorithm { alg }) => assert_eq!(alg, "SHA-3"),
        other => panic!("expected an unsupported algorithm error, got {:?}", other),
    }
}

#[test]
fn test_check_hashes_lowercase_labels_rejected() {
    // Labels are matched exactly as they appear in documents.
    let data = b"bytes";
    let hashes = vec![declared("sha-256", digest_hex("SHA-256", data))];
    assert!(matches!(
        check_hashes(&hashes, data),
        Err(Error::UnsupportedAlgorithm { .. })
    ));
}

#[test]
fn test_check_hashes_empty_list_is_ok() {
    assert!(check_hashes(&Vec::new(), b"anything").is_ok());
}

#[test]
fn test_check_hashes_first_failure_wins() {
    let data = b"payload";
    let hashes = vec![
        declared("MD5", digest_hex("MD5", data)),
        declared("NOPE", "beef".to_string()),
        declared("SHA-1", "0000".to_string()),
    ];
    assert!(matches!(
        check_hashes(&hashes, data),
        Err(Error::UnsupportedAlgorithm { .. })
    ));
}
