//! Digest computation and verification of declared hashes.
//!
//! A component may declare digests of its archive under the labels `MD5`,
//! `SHA-1`, `SHA-256` and `SHA-512`; labels are matched exactly as they
//! appear in documents.  The digest primitives come from outside crates and
//! are trusted; everything around them is verified.

use vstd::prelude::*;
use vstd::string::*;
use sha2::Digest;

use crate::errors::{Error, ErrorModel};
use crate::sbom::HashModel;

verus! {

/// The MD5 digest of a byte sequence; the algorithm is left uninterpreted.
pub uninterp spec fn md5_digest_spec(data: Seq<u8>) -> Seq<u8>;

/// The SHA-1 digest of a byte sequence; the algorithm is left uninterpreted.
pub uninterp spec fn sha1_digest_spec(data: Seq<u8>) -> Seq<u8>;

/// The SHA-256 digest of a byte sequence; the algorithm is left uninterpreted.
pub uninterp spec fn sha256_digest_spec(data: Seq<u8>) -> Seq<u8>;

/// The SHA-512 digest of a byte sequence; the algorithm is left uninterpreted.
pub uninterp spec fn sha512_digest_spec(data: Seq<u8>) -> Seq<u8>;

/// Relies on md5::Md5 through digest::Digest::digest: a 16-byte digest that
/// depends on the input bytes alone.
#[verifier::external_body]
fn md5_digest(data: &[u8]) -> (r: Vec<u8>)
    ensures
        r@ == md5_digest_spec(data@),
        r@.len() == 16,
{
    md5::Md5::digest(data).to_vec()
}

/// Relies on sha1::Sha1 through digest::Digest::digest: a 20-byte digest that
/// depends on the input bytes alone.
#[verifier::external_body]
fn sha1_digest(data: &[u8]) -> (r: Vec<u8>)
    ensures
        r@ == sha1_digest_spec(data@),
        r@.len() == 20,
{
    sha1::Sha1::digest(data).to_vec()
}

/// Relies on sha2::Sha256 through digest::Digest::digest: a 32-byte digest
/// that depends on the input bytes alone.
#[verifier::external_body]
fn sha256_digest(data: &[u8]) -> (r: Vec<u8>)
    ensures
        r@ == sha256_digest_spec(data@),
        r@.len() == 32,
{
    sha2::Sha256::digest(data).to_vec()
}

/// Relies on sha2::Sha512 through digest::Digest::digest: a 64-byte digest
/// that depends on the input bytes alone.
#[verifier::external_body]
fn sha512_digest(data: &[u8]) -> (r: Vec<u8>)
    ensures
        r@ == sha512_digest_spec(data@),
        r@.len() == 64,
{
    sha2::Sha512::digest(data).to_vec()
}

/// The lowercase hex digit of a value below sixteen.
pub open spec fn hex_digit_char(n: u8) -> char {
    if n == 0 {
        '0'
    } else if n == 1 {
        '1'
    } else if n == 2 {
        '2'
    } else if n == 3 {
        '3'
    } else if n == 4 {
        '4'
    } else if n == 5 {
        '5'
    } else if n == 6 {
        '6'
    } else if n == 7 {
        '7'
    } else if n == 8 {
        '8'
    } else if n == 9 {
        '9'
    } else if n == 10 {
        'a'
    } else if n == 11 {
        'b'
    } else if n == 12 {
        'c'
    } else if n == 13 {
        'd'
    } else if n == 14 {
        'e'
    } else {
        'f'
    }
}

/// Lowercase hex text of a byte sequence: two digits per byte, high nibble
/// first.
pub open spec fn hex_of(data: Seq<u8>) -> Seq<char>
    decreases data.len(),
{
    if data.len() == 0 {
        Seq::empty()
    } else {
        seq![
            hex_digit_char(data.first() >> 4),
            hex_digit_char(data.first() & 0x0f),
        ] + hex_of(data.drop_first())
    }
}

/// Relies on hex::encode: lowercase hex, two digits per byte, high nibble
/// first.
#[verifier::external_body]
pub fn hex_encode(data: &[u8]) -> (r: String)
    ensures
        r@ == hex_of(data@),
{
    hex::encode(data)
}

/// The digest of `data` under the algorithm named `alg`, or `None` when the
/// label is not one of the four supported ones.
pub open spec fn digest_spec(alg: Seq<char>, data: Seq<u8>) -> Option<Seq<u8>> {
    if alg == "MD5"@ {
        Some(md5_digest_spec(data))
    } else if alg == "SHA-1"@ {
        Some(sha1_digest_spec(data))
    } else if alg == "SHA-256"@ {
        Some(sha256_digest_spec(data))
    } else if alg == "SHA-512"@ {
        Some(sha512_digest_spec(data))
    } else {
        None
    }
}

/// A declared hash agrees with the data: the label is supported and the
/// declared content is the lowercase hex of the computed digest.
pub open spec fn hash_matches(h: HashModel, data: Seq<u8>) -> bool {
    match digest_spec(h.alg, data) {
        Some(d) => h.content == hex_of(d),
        None => false,
    }
}

/// The error that a disagreeing declared hash produces.
pub open spec fn hash_error_spec(h: HashModel, data: Seq<u8>) -> ErrorModel {
    match digest_spec(h.alg, data) {
        Some(d) => ErrorModel::HashMismatch { alg: h.alg, expected: h.content, actual: hex_of(d) },
        None => ErrorModel::UnsupportedAlgorithm { alg: h.alg },
    }
}

/// What verifying a list of declared hashes yields: success when every
/// declared hash agrees, otherwise the error of the first one that does not.
pub open spec fn check_hashes_spec(hs: Seq<HashModel>, data: Seq<u8>) -> Result<(), ErrorModel>
    decreases hs.len(),
{
    if hs.len() == 0 {
        Ok(())
    } else if !hash_matches(hs.first(), data) {
        Err(hash_error_spec(hs.first(), data))
    } else {
        check_hashes_spec(hs.drop_first(), data)
    }
}

/// Verifying a list of declared hashes succeeds exactly when every declared
/// hash agrees with the data.
pub proof fn lemma_check_hashes_ok(hs: Seq<HashModel>, data: Seq<u8>)
    ensures
        check_hashes_spec(hs, data) is Ok <==> (forall|i: int|
            0 <= i < hs.len() ==> hash_matches(#[trigger] hs[i], data)),
    decreases hs.len(),
{
    if hs.len() > 0 {
        lemma_check_hashes_ok(hs.drop_first(), data);
        if check_hashes_spec(hs, data) is Ok {
            assert forall|i: int| 0 <= i < hs.len() implies hash_matches(
                #[trigger] hs[i],
                data,
            ) by {
                if i > 0 {
                    assert(hs.drop_first()[i - 1] == hs[i]);
                }
            }
        } else {
            if hash_matches(hs.first(), data) {
                let i = choose|i: int|
                    0 <= i < hs.drop_first().len() && !hash_matches(
                        #[trigger] hs.drop_first()[i],
                        data,
                    );
                assert(hs[i + 1] == hs.drop_first()[i]);
            }
        }
    }
}

/// Hash verification round trip: a single declared hash under a supported
/// algorithm verifies exactly when its content is the lowercase hex of the
/// computed digest; any other content fails with a mismatch that carries
/// both texts.
pub proof fn lemma_hash_round_trip(alg: Seq<char>, content: Seq<char>, data: Seq<u8>)
    requires
        digest_spec(alg, data) is Some,
    ensures
        check_hashes_spec(seq![HashModel { alg, content }], data) == if content == hex_of(
            digest_spec(alg, data)->0,
        ) {
            Ok::<(), ErrorModel>(())
        } else {
            Err::<(), ErrorModel>(
                ErrorModel::HashMismatch {
                    alg,
                    expected: content,
                    actual: hex_of(digest_spec(alg, data)->0),
                },
            )
        },
{
    let h = HashModel { alg, content };
    assert(seq![h].first() == h);
    if content == hex_of(digest_spec(alg, data)->0) {
        assert(hash_matches(h, data));
        assert(seq![h].drop_first() =~= Seq::<HashModel>::empty());
        assert(check_hashes_spec(Seq::<HashModel>::empty(), data) == Ok::<(), ErrorModel>(()));
        assert(check_hashes_spec(seq![h], data) == Ok::<(), ErrorModel>(()));
    } else {
        assert(!hash_matches(h, data));
        assert(hash_error_spec(h, data) == (ErrorModel::HashMismatch {
            alg,
            expected: content,
            actual: hex_of(digest_spec(alg, data)->0),
        }));
    }
}

/// Computes the digest of `data` under the algorithm named `alg` and returns
/// its lowercase hex text, or reports an unsupported label.
fn count_hash(alg: &String, data: &[u8]) -> (r: Result<String, Error>)
    ensures
        match r {
            Ok(s) => digest_spec(alg@, data@) matches Some(d) && s@ == hex_of(d),
            Err(e) => digest_spec(alg@, data@) is None && e@ == (ErrorModel::UnsupportedAlgorithm {
                alg: alg@,
            }),
        },
{
    let digest: Vec<u8> = if *alg == String::from_str("MD5") {
        md5_digest(data)
    } else if *alg == String::from_str("SHA-1") {
        sha1_digest(data)
    } else if *alg == String::from_str("SHA-256") {
        sha256_digest(data)
    } else if *alg == String::from_str("SHA-512") {
        sha512_digest(data)
    } else {
        return Err(Error::UnsupportedAlgorithm { alg: alg.clone() });
    };
    Ok(hex_encode(digest.as_slice()))
}

/// Checks every declared hash against the data: computes the digest under
/// the named algorithm and compares its lowercase hex text with the declared
/// content.  Succeeds exactly when every declared hash agrees; fails with
/// the error of the first one that does not.
pub fn check_hashes(hashes: &Vec<crate::sbom::Hash>, data: &[u8]) -> (r: Result<(), Error>)
    ensures
        match r {
            Ok(()) => check_hashes_spec(hashes.deep_view(), data@) == Ok::<(), ErrorModel>(()),
            Err(e) => check_hashes_spec(hashes.deep_view(), data@) == Err::<(), ErrorModel>(e@),
        },
        r is Ok <==> (forall|i: int|
            0 <= i < hashes.deep_view().len() ==> hash_matches(
                #[trigger] hashes.deep_view()[i],
                data@,
            )),
{
    let ghost hs = hashes.deep_view();
    let n = hashes.len();
    let mut i: usize = 0;
    proof {
        assert(hs.skip(0) =~= hs);
    }
    while i < n
        invariant
            i <= n,
            n == hashes.len(),
            hs == hashes.deep_view(),
            forall|j: int| 0 <= j < i ==> hash_matches(#[trigger] hs[j], data@),
            check_hashes_spec(hs, data@) == check_hashes_spec(hs.skip(i as int), data@),
        decreases n - i,
    {
        let h = &hashes[i];
        match count_hash(&h.alg, data) {
            Ok(hex_text) => {
                proof {
                    assert(hs.skip(i as int).first() == hs[i as int]);
                }
                if h.content == hex_text {
                    proof {
                        assert(hash_matches(hs[i as int], data@));
                        assert(hs.skip(i as int).drop_first() =~= hs.skip(i + 1 as int));
                    }
                } else {
                    proof {
                        assert(!hash_matches(hs[i as int], data@));
                    }
                    return Err(
                        Error::HashMismatch {
                            alg: h.alg.clone(),
                            expected: h.content.clone(),
                            actual: hex_text,
                        },
                    );
                }
            },
            Err(e) => {
                proof {
                    assert(hs.skip(i as int).first() == hs[i as int]);
                    assert(!hash_matches(hs[i as int], data@));
                }
                return Err(e);
            },
        }
        i = i + 1;
    }
    proof {
        assert(hs.skip(n as int) =~= Seq::<HashModel>::empty());
        lemma_check_hashes_ok(hs, data@);
    }
    Ok(())
}

} // verus!
