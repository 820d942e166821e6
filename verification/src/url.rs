use vstd::prelude::*;
use vstd::string::StringSliceAdditionalSpecFns;

use crate::error::Error;
use crate::lang::{spec_lang_of, LangCode};

verus! {

/// The UTF-8 bytes of each path segment, in path order.
pub open spec fn spec_segments_bytes(segs: Seq<String>) -> Seq<Seq<u8>> {
    Seq::new(segs.len(), |i: int| vstd::utf8::encode_utf8(segs[i]@))
}

/// The code that URL-segment resolution selects: the segment at `pos` from
/// the start when `pos` is non-negative, the segment `|pos|` from the end
/// when it is negative (`-1` is the last).  `None` when the position is out
/// of range or the selected segment does not spell a known code.
pub open spec fn spec_url_lang(segs: Seq<Seq<u8>>, pos: int) -> Option<LangCode> {
    let idx = if pos >= 0 {
        pos
    } else {
        segs.len() + pos
    };
    if 0 <= idx < segs.len() {
        spec_lang_of(segs[idx])
    } else {
        None
    }
}

/// What URL-segment resolution yields: the selected code, or `NotFound`.
/// A bad segment is a hard failure here, unlike in header parsing, because
/// the operator explicitly designated this segment as the language slot.
pub open spec fn spec_url_get(segs: Seq<Seq<u8>>, pos: int) -> Result<LangCode, Error> {
    match spec_url_lang(segs, pos) {
        Some(c) => Ok(c),
        None => Err(Error::NotFound),
    }
}

/// The segment at a non-negative position, parsed as a code.
fn parse_positive(segments: &Vec<String>, pos: i32) -> (r: Option<LangCode>)
    requires
        pos >= 0,
    ensures
        r == spec_url_lang(spec_segments_bytes(segments@), pos as int),
{
    let n = segments.len();
    if pos as usize >= n {
        return None;
    }
    let idx = pos as usize;
    let seg: &String = &segments[idx];
    LangCode::lang_of_bytes(seg.as_str().as_bytes())
}

/// The segment counted from the end, parsed as a code: `-1` selects the
/// last segment, `-2` the second to last, and so on.
fn parse_negative(segments: &Vec<String>, pos: i32) -> (r: Option<LangCode>)
    requires
        pos < 0,
    ensures
        r == spec_url_lang(spec_segments_bytes(segments@), pos as int),
{
    let n = segments.len();
    let mag64: i64 = -(pos as i64);
    let mag: usize = mag64 as usize;
    if mag > n {
        return None;
    }
    let idx = n - mag;
    let seg: &String = &segments[idx];
    LangCode::lang_of_bytes(seg.as_str().as_bytes())
}

/// The segment that `pos` designates, parsed as a code.
fn parse(segments: &Vec<String>, pos: i32) -> (r: Option<LangCode>)
    ensures
        r == spec_url_lang(spec_segments_bytes(segments@), pos as int),
{
    if pos < 0 {
        parse_negative(segments, pos)
    } else {
        parse_positive(segments, pos)
    }
}

/// Resolves a language code from the path segments: the segment at the
/// designated position must exist and spell a known code, else the result
/// is [`Error::NotFound`].
pub fn get(segments: &Vec<String>, pos: i32) -> (r: Result<LangCode, Error>)
    ensures
        r == spec_url_get(spec_segments_bytes(segments@), pos as int),
{
    match parse(segments, pos) {
        Some(c) => Ok(c),
        None => Err(Error::NotFound),
    }
}

} // verus!
