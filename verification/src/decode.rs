//! The key decoder: recovers a parent node identifier from an opaque
//! position/identity token.
//!
//! A token is padded with `=` to a multiple of four characters,
//! base64-decoded, and read as UTF-8 with invalid sequences replaced. The
//! parent identifier is the stretch strictly between two delimiters in the
//! decoded bytes: for quiz attempts between the first `U+0011` and the first
//! `U+000C` after it, for unit-test attempts between the first `:` and the
//! first `U+000C` after it. This offset scraping mirrors an undocumented
//! upstream encoding, so it all stands behind these few functions.

use vstd::prelude::*;
use crate::error::{AppError, ErrModel};

verus! {

/// How many `=` characters padding to a multiple of four adds to a length.
pub open spec fn pad_len(n: nat) -> nat {
    if n % 4 == 0 {
        0
    } else {
        (4 - n % 4) as nat
    }
}

/// `s` padded with `=` to a multiple of four characters.
pub open spec fn pad4(s: Seq<char>) -> Seq<char> {
    s + Seq::new(pad_len(s.len()), |i: int| '=')
}

/// What the standard base64 alphabet with padding decodes `s` to: `None`
/// when `s` is not valid base64.
pub uninterp spec fn b64_decoded(s: Seq<char>) -> Option<Seq<u8>>;

/// Relies on base64's `Engine::decode` with the `STANDARD` engine: whether
/// the input decodes, and to which bytes, depend on the characters alone.
#[verifier::external_body]
fn b64_decode(key: &str) -> (r: Option<Vec<u8>>)
    ensures
        match r {
            Some(v) => b64_decoded(key@) == Some(v@),
            None => b64_decoded(key@) is None,
        },
{
    match base64::Engine::decode(&base64::engine::general_purpose::STANDARD, key) {
        Ok(v) => Some(v),
        Err(_) => None,
    }
}

/// What `String::from_utf8_lossy` turns `bytes` into: UTF-8 decoding with
/// invalid sequences replaced by `U+FFFD`. Its documentation promises that
/// valid UTF-8 — in particular plain ASCII — comes through unchanged.
pub uninterp spec fn utf8_lossy_of(bytes: Seq<u8>) -> Seq<char>;

/// Relies on `String::from_utf8_lossy`: the result depends on the bytes
/// alone, and ASCII bytes decode to themselves.
#[verifier::external_body]
fn utf8_lossy(bytes: &Vec<u8>) -> (r: String)
    ensures
        r@ == utf8_lossy_of(bytes@),
        (forall|i: int| 0 <= i < bytes@.len() ==> bytes@[i] < 128) ==> r@ == bytes@.map_values(
            |b: u8| b as char,
        ),
{
    String::from_utf8_lossy(bytes).into_owned()
}

/// The first position at or after `from` where `d` occurs in `bs`.
pub open spec fn find_byte_from(bs: Seq<u8>, from: int, d: u8) -> Option<int>
    decreases bs.len() - from,
{
    if from < 0 || from >= bs.len() {
        None
    } else if bs[from] == d {
        Some(from)
    } else {
        find_byte_from(bs, from + 1, d)
    }
}

/// The bytes strictly between the first `d1` and the first `d2` after it,
/// when both delimiters occur.
pub open spec fn span_between(bs: Seq<u8>, d1: u8, d2: u8) -> Option<Seq<u8>> {
    match find_byte_from(bs, 0, d1) {
        None => None,
        Some(i) => match find_byte_from(bs, i + 1, d2) {
            None => None,
            Some(j) => Some(bs.subrange(i + 1, j)),
        },
    }
}

/// Finds the first occurrence of `d` at or after `from`.
fn find_byte(bs: &Vec<u8>, from: usize, d: u8) -> (r: Option<usize>)
    ensures
        match r {
            Some(i) => from <= i < bs@.len() && find_byte_from(bs@, from as int, d) == Some(
                i as int,
            ),
            None => find_byte_from(bs@, from as int, d) is None,
        },
{
    let mut i: usize = from;
    while i < bs.len()
        invariant
            from <= i,
            find_byte_from(bs@, from as int, d) == find_byte_from(bs@, i as int, d),
        decreases bs.len() - i,
    {
        if bs[i] == d {
            return Some(i);
        }
        i = i + 1;
    }
    None
}

/// Copies the bytes strictly between the first `d1` and the first `d2` after
/// it.
fn bytes_between(bs: &Vec<u8>, d1: u8, d2: u8) -> (r: Option<Vec<u8>>)
    ensures
        match r {
            Some(v) => span_between(bs@, d1, d2) == Some(v@),
            None => span_between(bs@, d1, d2) is None,
        },
{
    let i = match find_byte(bs, 0, d1) {
        Some(i) => i,
        None => {
            return None;
        },
    };
    let n = bs.len();
    assert(i < n);
    let j = match find_byte(bs, i + 1, d2) {
        Some(j) => j,
        None => {
            return None;
        },
    };
    let mut out: Vec<u8> = Vec::new();
    let mut k: usize = i + 1;
    while k < j
        invariant
            i + 1 <= k <= j < bs@.len(),
            out@ == bs@.subrange(i + 1, k as int),
        decreases j - k,
    {
        out.push(bs[k]);
        proof {
            assert(out@ =~= bs@.subrange(i + 1, k + 1));
        }
        k = k + 1;
    }
    Some(out)
}

/// Pads `key` with `=` to a multiple of four characters.
fn pad_key(key: &str) -> (r: String)
    ensures
        r@ == pad4(key@),
{
    let len = key.unicode_len();
    let mut out = key.to_owned();
    let rem = len % 4;
    if rem == 1 {
        out.append("===");
    } else if rem == 2 {
        out.append("==");
    } else if rem == 3 {
        out.append("=");
    }
    proof {
        reveal_strlit("=");
        reveal_strlit("==");
        reveal_strlit("===");
        assert(out@ =~= pad4(key@));
    }
    out
}

/// The whole decoded text of a token: base64 after padding, then UTF-8 with
/// replacement.
pub open spec fn decoded_text_of(key: Seq<char>) -> Result<Seq<char>, ErrModel> {
    match b64_decoded(pad4(key)) {
        None => Err(ErrModel::Decode("invalid base64"@)),
        Some(bs) => Ok(utf8_lossy_of(bs)),
    }
}

/// Decodes a token: pads it to a multiple of four characters, base64-decodes
/// it, and reads the bytes as UTF-8, replacing invalid sequences.
///
/// Fails with `Decode` exactly when the padded token is not valid base64.
pub fn decode_base64(position_key: &str) -> (r: Result<String, AppError>)
    ensures
        match r {
            Ok(out) => decoded_text_of(position_key@) == Ok::<Seq<char>, ErrModel>(out@),
            Err(e) => decoded_text_of(position_key@) == Err::<Seq<char>, ErrModel>(e@),
        },
{
    let padded = pad_key(position_key);
    match b64_decode(padded.as_str()) {
        Some(bytes) => Ok(utf8_lossy(&bytes)),
        None => Err(AppError::Decode("invalid base64".to_owned())),
    }
}

/// The parent identifier hidden in a token: the decoded bytes strictly
/// between the first `d1` and the first `d2` after it, read as UTF-8.
pub open spec fn parent_segment_of(key: Seq<char>, d1: u8, d2: u8) -> Result<Seq<char>, ErrModel> {
    match b64_decoded(pad4(key)) {
        None => Err(ErrModel::Decode("invalid base64"@)),
        Some(bs) => match span_between(bs, d1, d2) {
            None => Err(ErrModel::Decode("delimiter not found"@)),
            Some(seg) => Ok(utf8_lossy_of(seg)),
        },
    }
}

/// The parent identifier of a quiz attempt: between `U+0011` and `U+000C`.
pub open spec fn quiz_parent_of(key: Seq<char>) -> Result<Seq<char>, ErrModel> {
    parent_segment_of(key, 0x11, 0x0c)
}

/// The parent identifier of a unit-test attempt: between `:` and `U+000C`.
pub open spec fn test_parent_of(key: Seq<char>) -> Result<Seq<char>, ErrModel> {
    parent_segment_of(key, 0x3a, 0x0c)
}

/// Decodes a token and extracts the stretch between the two delimiter bytes.
fn decode_parent_segment(key: &str, d1: u8, d2: u8) -> (r: Result<String, AppError>)
    ensures
        match r {
            Ok(pid) => parent_segment_of(key@, d1, d2) == Ok::<Seq<char>, ErrModel>(pid@),
            Err(e) => parent_segment_of(key@, d1, d2) == Err::<Seq<char>, ErrModel>(e@),
        },
{
    let padded = pad_key(key);
    let bytes = match b64_decode(padded.as_str()) {
        Some(bytes) => bytes,
        None => {
            return Err(AppError::Decode("invalid base64".to_owned()));
        },
    };
    match bytes_between(&bytes, d1, d2) {
        Some(seg) => Ok(utf8_lossy(&seg)),
        None => Err(AppError::Decode("delimiter not found".to_owned())),
    }
}

/// Recovers the parent id a quiz attempt's `positionKey` encodes.
pub fn decode_quiz_parent(position_key: &str) -> (r: Result<String, AppError>)
    ensures
        match r {
            Ok(pid) => quiz_parent_of(position_key@) == Ok::<Seq<char>, ErrModel>(pid@),
            Err(e) => quiz_parent_of(position_key@) == Err::<Seq<char>, ErrModel>(e@),
        },
{
    decode_parent_segment(position_key, 0x11, 0x0c)
}

/// Recovers the parent id a unit-test attempt's `id` encodes.
pub fn decode_test_parent(id: &str) -> (r: Result<String, AppError>)
    ensures
        match r {
            Ok(pid) => test_parent_of(id@) == Ok::<Seq<char>, ErrModel>(pid@),
            Err(e) => test_parent_of(id@) == Err::<Seq<char>, ErrModel>(e@),
        },
{
    decode_parent_segment(id, 0x3a, 0x0c)
}

} // verus!
