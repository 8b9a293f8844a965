//! The binary registry index cache encoder.
//!
//! The toolchain keeps, for each package, a cached copy of its index
//! listing in a binary form: five header bytes, a synthetic ETag line
//! terminated by `0x00`, then for each listing line the version text and
//! the whole line, each terminated by `0x00`.  Lines are read up to the
//! first empty one; a line that is not a JSON object with a string `vers`
//! field makes the listing malformed.

use vstd::prelude::*;
use vstd::string::*;
use vstd::utf8::*;
use vstd::slice::slice_to_vec;

use crate::errors::{Error, ErrorModel};

verus! {

/// The five header bytes: cache version 3, index format version 2, padding.
pub open spec fn index_cache_header() -> Seq<u8> {
    seq![3u8, 2u8, 0u8, 0u8, 0u8]
}

/// The synthetic ETag pseudo-header, without its terminator.  The value is
/// a fixed constant; the toolchain re-validates by other means offline.
pub open spec fn etag_bytes() -> Seq<u8> {
    encode_utf8("etag: W/\"bbbf8771a5922743c5e0b466d90e7ab6\""@)
}

/// Everything the encoder writes before the per-version records.
pub open spec fn index_cache_prefix() -> Seq<u8> {
    index_cache_header() + etag_bytes() + seq![0u8]
}

/// The `vers` string field of the JSON object a line encodes, if the line
/// parses as such an object; what serde_json extracts, left uninterpreted.
pub uninterp spec fn json_vers_of(line: Seq<u8>) -> Option<Seq<u8>>;

/// Relies on serde_json::from_slice, Value::get and Value::as_str: returns
/// the `vers` string field of the JSON object the line encodes, or nothing
/// when the line does not parse as an object with a string `vers`; the
/// result depends on the line's bytes alone.
#[verifier::external_body]
fn parse_version_field(line: &[u8]) -> (r: Option<Vec<u8>>)
    ensures
        match r {
            Some(v) => json_vers_of(line@) == Some(v@),
            None => json_vers_of(line@) is None,
        },
{
    let value: serde_json::Value = match serde_json::from_slice(line) {
        Ok(v) => v,
        Err(_) => {
            return None;
        },
    };
    match value.get("vers") {
        Some(field) => match field.as_str() {
            Some(s) => Some(s.as_bytes().to_vec()),
            None => None,
        },
        None => None,
    }
}

/// The number of bytes before the first newline, or the whole length when
/// there is none.
pub open spec fn line_len(text: Seq<u8>) -> nat
    decreases text.len(),
{
    if text.len() == 0 {
        0
    } else if text.first() == 10u8 {
        0
    } else {
        1 + line_len(text.drop_first())
    }
}

/// A position with no newline before it, and a newline or the end at it, is
/// where the first line ends.
pub proof fn lemma_line_len_at(text: Seq<u8>, l: int)
    requires
        0 <= l <= text.len(),
        forall|i: int| 0 <= i < l ==> text[i] != 10u8,
        l == text.len() || text[l] == 10u8,
    ensures
        line_len(text) == l,
    decreases text.len(),
{
    if l == 0 {
    } else {
        lemma_line_len_at(text.drop_first(), l - 1);
    }
}

/// One encoded record: the version text, a terminator, the line, a
/// terminator.
pub open spec fn encode_record(line: Seq<u8>) -> Seq<u8>
    recommends
        json_vers_of(line) is Some,
{
    json_vers_of(line)->Some_0 + seq![0u8] + line + seq![0u8]
}

/// The concatenated records of the listing that starts at `text`: lines are
/// taken until the first empty one (or the end); a line without a parsable
/// version makes the whole listing fail.
pub open spec fn encode_records_from(text: Seq<u8>) -> Result<Seq<u8>, ()>
    decreases text.len(),
{
    let l = line_len(text);
    let line = text.take(l as int);
    if l == 0 {
        Ok(Seq::empty())
    } else if json_vers_of(line) is None {
        Err(())
    } else if l >= text.len() {
        Ok(encode_record(line))
    } else {
        match encode_records_from(text.skip(l + 1 as int)) {
            Ok(rest) => Ok(encode_record(line) + rest),
            Err(e) => Err(e),
        }
    }
}

/// What encoding a listing yields: the header, the ETag line and the
/// records, or a malformed-index error.
pub open spec fn convert_index_spec(text: Seq<u8>) -> Result<Seq<u8>, ErrorModel> {
    match encode_records_from(text) {
        Ok(records) => Ok(index_cache_prefix() + records),
        Err(_) => Err(ErrorModel::MalformedIndex),
    }
}

/// Relates the encoding of a whole listing to the encoding of its not yet
/// processed tail: the records already produced, followed by whatever the
/// tail yields.
pub open spec fn records_continue(
    whole: Result<Seq<u8>, ()>,
    acc: Seq<u8>,
    tail: Result<Seq<u8>, ()>,
) -> bool {
    match tail {
        Ok(rest) => whole == Ok::<Seq<u8>, ()>(acc + rest),
        Err(_) => whole is Err,
    }
}

/// Encodes a textual index listing into the toolchain's binary cache form.
/// Succeeds with the header, ETag line and one record per non-empty line,
/// in listing order, stopping at the first empty line; fails with a
/// malformed-index error when a kept line has no parsable version.
pub fn convert_index_to_cache(index_text: &[u8]) -> (r: Result<Vec<u8>, Error>)
    ensures
        match r {
            Ok(out) => convert_index_spec(index_text@) == Ok::<Seq<u8>, ErrorModel>(out@),
            Err(e) => convert_index_spec(index_text@) == Err::<Seq<u8>, ErrorModel>(e@) && e@
                == ErrorModel::MalformedIndex,
        },
{
    let n = index_text.len();
    let mut out: Vec<u8> = Vec::new();
    out.push(3u8);
    out.push(2u8);
    out.push(0u8);
    out.push(0u8);
    out.push(0u8);
    let mut etag = "etag: W/\"bbbf8771a5922743c5e0b466d90e7ab6\"".as_bytes_vec();
    out.append(&mut etag);
    out.push(0u8);
    proof {
        assert(out@ =~= index_cache_prefix());
    }
    let ghost whole: Seq<u8> = index_text@;
    let ghost mut acc: Seq<u8> = Seq::empty();
    let mut pos: usize = 0;
    proof {
        assert(whole.skip(0) =~= whole);
        assert(acc + whole == whole);
    }
    loop
        invariant
            pos <= n,
            n == index_text@.len(),
            whole == index_text@,
            out@ == index_cache_prefix() + acc,
            records_continue(
                encode_records_from(whole),
                acc,
                encode_records_from(whole.skip(pos as int)),
            ),
        decreases n - pos,
    {
        let ghost tail = whole.skip(pos as int);
        let mut end: usize = pos;
        while end < n && index_text[end] != 10u8
            invariant
                pos <= end <= n,
                n == index_text@.len(),
                whole == index_text@,
                forall|i: int| pos <= i < end ==> whole[i] != 10u8,
            decreases n - end,
        {
            end = end + 1;
        }
        proof {
            assert forall|i: int| 0 <= i < end - pos implies tail[i] != 10u8 by {
                assert(tail[i] == whole[pos + i]);
            }
            if end < n {
                assert(tail[end - pos] == whole[end as int]);
            }
            lemma_line_len_at(tail, end - pos);
        }
        if end == pos {
            // An empty line (or the end of the listing) stops the encoding.
            proof {
                assert(encode_records_from(tail) == Ok::<Seq<u8>, ()>(Seq::empty()));
                assert(acc + Seq::<u8>::empty() =~= acc);
            }
            return Ok(out);
        }
        let line: &[u8] = &index_text[pos..end];
        proof {
            assert(line@ =~= tail.take((end - pos) as int));
        }
        match parse_version_field(line) {
            None => {
                proof {
                    assert(encode_records_from(tail) is Err);
                }
                return Err(Error::MalformedIndex);
            },
            Some(mut vers) => {
                out.append(&mut vers);
                out.push(0u8);
                let mut line_bytes = slice_to_vec(line);
                out.append(&mut line_bytes);
                out.push(0u8);
                let ghost l = (end - pos) as int;
                let ghost enc = encode_record(tail.take(l));
                proof {
                    assert(out@ =~= index_cache_prefix() + (acc + enc));
                }
                if end == n {
                    // The listing ends without a trailing newline: the last
                    // record is already written.
                    proof {
                        assert(l >= tail.len());
                        assert(encode_records_from(tail) == Ok::<Seq<u8>, ()>(enc));
                    }
                    return Ok(out);
                }
                proof {
                    let next = tail.skip(l + 1);
                    assert(whole.skip((end + 1) as int) =~= next);
                    if encode_records_from(next) is Ok {
                        let rest = encode_records_from(next)->Ok_0;
                        assert((acc + enc) + rest =~= acc + (enc + rest));
                    }
                    acc = acc + enc;
                }
                pos = end + 1;
            },
        }
    }
}

/// The number of bytes before the first `0x00`, or the whole length when
/// there is none.
pub open spec fn seg_len(b: Seq<u8>) -> nat
    decreases b.len(),
{
    if b.len() == 0 {
        0
    } else if b.first() == 0u8 {
        0
    } else {
        1 + seg_len(b.drop_first())
    }
}

/// A position with no `0x00` before it, and a `0x00` or the end at it, is
/// where the first segment ends.
pub proof fn lemma_seg_len_at(b: Seq<u8>, l: int)
    requires
        0 <= l <= b.len(),
        forall|i: int| 0 <= i < l ==> b[i] != 0u8,
        l == b.len() || b[l] == 0u8,
    ensures
        seg_len(b) == l,
    decreases b.len(),
{
    if l == 0 {
    } else {
        lemma_seg_len_at(b.drop_first(), l - 1);
    }
}

/// The text holds no `0x00` byte.
pub open spec fn no_zero(b: Seq<u8>) -> bool {
    forall|i: int| 0 <= i < b.len() ==> b[i] != 0u8
}

/// The `0x00`-separated segments of the bytes, in order.
pub open spec fn zero_segments(b: Seq<u8>) -> Seq<Seq<u8>>
    decreases b.len(),
{
    let l = seg_len(b);
    if b.len() == 0 {
        Seq::empty()
    } else if l >= b.len() {
        seq![b]
    } else {
        seq![b.take(l as int)] + zero_segments(b.skip(l + 1 as int))
    }
}

/// Splitting after a zero-free segment and its terminator yields that
/// segment followed by the split of the rest.
pub proof fn lemma_zero_segments_cons(a: Seq<u8>, rest: Seq<u8>)
    requires
        no_zero(a),
    ensures
        zero_segments(a + seq![0u8] + rest) == seq![a] + zero_segments(rest),
{
    let b = a + seq![0u8] + rest;
    assert forall|i: int| 0 <= i < a.len() implies b[i] != 0u8 by {
        assert(b[i] == a[i]);
    }
    assert(b[a.len() as int] == 0u8);
    lemma_seg_len_at(b, a.len() as int);
    assert(b.take(a.len() as int) =~= a);
    assert(b.skip(a.len() + 1 as int) =~= rest);
}

/// The lines the encoder keeps: every line before the first empty one (or
/// the end of the listing).
pub open spec fn listing_lines(text: Seq<u8>) -> Seq<Seq<u8>>
    decreases text.len(),
{
    let l = line_len(text);
    if l == 0 {
        Seq::empty()
    } else if l >= text.len() {
        seq![text.take(l as int)]
    } else {
        seq![text.take(l as int)] + listing_lines(text.skip(l + 1 as int))
    }
}

/// The segments a well-formed listing encodes: for each kept line, its
/// version text then the line itself.
pub open spec fn record_segments(lines: Seq<Seq<u8>>) -> Seq<Seq<u8>>
    decreases lines.len(),
{
    if lines.len() == 0 {
        Seq::empty()
    } else {
        seq![json_vers_of(lines.first())->Some_0, lines.first()] + record_segments(
            lines.drop_first(),
        )
    }
}

/// Every kept line, and every kept line's version, is free of `0x00`
/// bytes.
pub open spec fn listing_no_zero(text: Seq<u8>) -> bool {
    forall|i: int|
        0 <= i < listing_lines(text).len() ==> no_zero(#[trigger] listing_lines(text)[i])
            && (json_vers_of(listing_lines(text)[i]) matches Some(v) && no_zero(v))
}

/// Splitting the encoded records on `0x00` recovers, in listing order, the
/// version and the line of each record.
pub proof fn lemma_records_round_trip(text: Seq<u8>)
    requires
        encode_records_from(text) is Ok,
        listing_no_zero(text),
    ensures
        zero_segments(encode_records_from(text)->Ok_0) == record_segments(listing_lines(text)),
    decreases text.len(),
{
    let l = line_len(text);
    let lines = listing_lines(text);
    if l == 0 {
        assert(zero_segments(Seq::<u8>::empty()) =~= Seq::<Seq<u8>>::empty());
    } else {
        let line = text.take(l as int);
        assert(lines[0] == line);
        let vers = json_vers_of(line)->Some_0;
        let enc = encode_record(line);
        if l >= text.len() {
            assert(enc =~= vers + seq![0u8] + (line + seq![0u8]));
            lemma_zero_segments_cons(vers, line + seq![0u8]);
            assert(line + seq![0u8] =~= line + seq![0u8] + Seq::<u8>::empty());
            lemma_zero_segments_cons(line, Seq::empty());
            assert(zero_segments(Seq::<u8>::empty()) =~= Seq::<Seq<u8>>::empty());
            assert(zero_segments(line + seq![0u8]) =~= seq![line]);
            assert(zero_segments(enc) =~= seq![vers, line]);
            assert(lines =~= seq![line]);
            assert(lines.drop_first() =~= Seq::<Seq<u8>>::empty());
            assert(record_segments(lines.drop_first()) =~= Seq::<Seq<u8>>::empty());
            assert(record_segments(lines) =~= seq![vers, line]);
            assert(zero_segments(enc) =~= record_segments(lines));
        } else {
            let next = text.skip(l + 1 as int);
            assert(lines =~= seq![line] + listing_lines(next));
            assert forall|i: int| 0 <= i < listing_lines(next).len() implies no_zero(
                #[trigger] listing_lines(next)[i],
            ) && (json_vers_of(listing_lines(next)[i]) matches Some(v) && no_zero(v)) by {
                assert(listing_lines(next)[i] == lines[i + 1]);
            }
            lemma_records_round_trip(next);
            let rest = encode_records_from(next)->Ok_0;
            assert(encode_records_from(text)->Ok_0 == enc + rest);
            assert(enc + rest =~= vers + seq![0u8] + (line + seq![0u8] + rest));
            lemma_zero_segments_cons(vers, line + seq![0u8] + rest);
            lemma_zero_segments_cons(line, rest);
            assert(lines.drop_first() =~= listing_lines(next));
            assert(zero_segments(enc + rest) =~= record_segments(lines));
        }
    }
}

/// The encoded bytes of a well-formed listing begin with the fixed header,
/// continue with the ETag line and its terminator, and their remaining
/// `0x00`-separated segments are exactly the version and the line of each
/// record, in listing order.
pub proof fn lemma_index_cache_framing(text: Seq<u8>, out: Seq<u8>)
    requires
        convert_index_spec(text) == Ok::<Seq<u8>, ErrorModel>(out),
        listing_no_zero(text),
    ensures
        out.len() >= index_cache_prefix().len(),
        out.take(5) == index_cache_header(),
        out.subrange(5, 5 + etag_bytes().len() as int) == etag_bytes(),
        out[5 + etag_bytes().len() as int] == 0u8,
        zero_segments(out.skip(index_cache_prefix().len() as int)) == record_segments(
            listing_lines(text),
        ),
{
    let records = encode_records_from(text)->Ok_0;
    assert(out == index_cache_prefix() + records);
    assert(out.take(5) =~= index_cache_header());
    assert(out.subrange(5, 5 + etag_bytes().len() as int) =~= etag_bytes());
    assert(out.skip(index_cache_prefix().len() as int) =~= records);
    lemma_records_round_trip(text);
}

/// Encodes a single index record: the fallback form that carries only one
/// version, used when the full upstream listing is not available.
pub fn convert_index_line_to_cache(line: &[u8]) -> (r: Result<Vec<u8>, Error>)
    ensures
        match r {
            Ok(out) => json_vers_of(line@) is Some && out@ == index_cache_prefix() + encode_record(
                line@,
            ),
            Err(e) => json_vers_of(line@) is None && e@ == ErrorModel::MalformedIndex,
        },
{
    match parse_version_field(line) {
        None => Err(Error::MalformedIndex),
        Some(mut vers) => {
            let mut out: Vec<u8> = Vec::new();
            out.push(3u8);
            out.push(2u8);
            out.push(0u8);
            out.push(0u8);
            out.push(0u8);
            let mut etag = "etag: W/\"bbbf8771a5922743c5e0b466d90e7ab6\"".as_bytes_vec();
            out.append(&mut etag);
            out.push(0u8);
            out.append(&mut vers);
            out.push(0u8);
            let mut line_bytes = slice_to_vec(line);
            out.append(&mut line_bytes);
            out.push(0u8);
            proof {
                assert(out@ =~= index_cache_prefix() + encode_record(line@));
            }
            Ok(out)
        },
    }
}

} // verus!
