//! Extraction of the JSON document from the language model's raw reply.

use vstd::prelude::*;
use crate::text::{
    chars_of, find_char, first_index, last_index, lemma_first_index_after, lemma_last_index,
    lemma_last_index_before, lemma_trim_end_after, lemma_trim_end_prefix, lemma_trim_start_before,
    lemma_trim_start_suffix, lemma_first_index, lemma_trim_idempotent, push_range, rfind_char, trim, trim_bounds, trim_end, trim_start,
    is_white_space,
};

verus! {

#[verifier::external_type_specification]
#[verifier::external_body]
pub struct ExJsonValue(serde_json::Value);

/// What `serde_json::from_str::<serde_json::Value>` gives for `text`: the
/// parsed value, or the `Debug` rendering of its error. With serde_json's
/// default features objects are ordered maps, so the value depends on the
/// text alone.
pub uninterp spec fn json_parse_outcome(text: Seq<char>) -> Result<serde_json::Value, Seq<char>>;

/// Parses `text` as a JSON value with `serde_json::from_str`. The contract
/// claims only that the result is [`json_parse_outcome`] of the text, with
/// the error turned into its `Debug` text.
#[verifier::external_body]
fn parse_json(text: &str) -> (r: Result<serde_json::Value, String>)
    ensures
        match r {
            Ok(v) => json_parse_outcome(text@) == Ok::<serde_json::Value, Seq<char>>(v),
            Err(e) => json_parse_outcome(text@) == Err::<serde_json::Value, Seq<char>>(e@),
        },
{
    match serde_json::from_str::<serde_json::Value>(text) {
        Ok(v) => Ok(v),
        Err(e) => Err(format!("{:?}", e)),
    }
}

/// The part of a raw reply that is parsed: within the trimmed reply, the span
/// from the first `{` to the last `}` when both exist in that order, else the
/// whole trimmed reply.
pub open spec fn json_region(raw: Seq<char>) -> Seq<char> {
    let t = trim(raw);
    let a = first_index(t, '{');
    let b = last_index(t, '}');
    if a >= 0 && b >= 0 && a <= b {
        t.subrange(a, b + 1)
    } else {
        t
    }
}

/// Prefix of the error message of [`extract_json_payload`].
pub const PARSE_ERROR_PREFIX: &'static str = "Failed to parse JSON payload: ";

/// Cuts the JSON document out of a raw reply, as [`json_region`] describes.
pub fn extract_json_region(raw_text: &str) -> (region: String)
    ensures
        region@ == json_region(raw_text@),
{
    let v = chars_of(raw_text);
    let (lo, hi) = trim_bounds(&v);
    let ghost t = v@.subrange(lo as int, hi as int);
    let mut region = String::new();
    match (find_char(&v, lo, hi, '{'), rfind_char(&v, lo, hi, '}')) {
        (Some(a), Some(b)) if a <= b => {
            proof {
                lemma_last_index(t, '}');
            }
            push_range(&mut region, &v, lo + a, lo + b + 1);
            assert(v@.subrange(lo + a, lo + b + 1) == t.subrange(a as int, b + 1));
        },
        _ => {
            push_range(&mut region, &v, lo, hi);
        },
    }
    region
}

/// Extracts the JSON document from a raw model reply (which may wrap it in
/// prose or a Markdown code block) and parses it.
pub fn extract_json_payload(raw_text: &str) -> (r: Result<serde_json::Value, String>)
    ensures
        match json_parse_outcome(json_region(raw_text@)) {
            Ok(v) => r == Ok::<serde_json::Value, String>(v),
            Err(detail) => r matches Err(m) && m@ == PARSE_ERROR_PREFIX@ + detail,
        },
{
    let region = extract_json_region(raw_text);
    match parse_json(region.as_str()) {
        Ok(value) => Ok(value),
        Err(detail) => {
            let mut message = PARSE_ERROR_PREFIX.to_owned();
            message.append(detail.as_str());
            Err(message)
        },
    }
}

/// A JSON document wrapped in text that opens no brace before it and closes
/// none after it (prose, a Markdown code fence) is extracted exactly.
pub proof fn lemma_wrapped_document_extracted(prefix: Seq<char>, doc: Seq<char>, suffix: Seq<char>)
    requires
        doc.len() > 0,
        doc[0] == '{',
        doc.last() == '}',
        !prefix.contains('{'),
        !suffix.contains('}'),
    ensures
        json_region(prefix + doc + suffix) == doc,
{
    let p = trim_start(prefix);
    let q = trim_end(suffix);
    assert(!is_white_space('{') && !is_white_space('}'));
    assert(prefix + doc + suffix == prefix + (doc + suffix));
    assert((doc + suffix)[0] == '{');
    lemma_trim_start_before(prefix, doc + suffix);
    assert(p + (doc + suffix) == (p + doc) + suffix);
    assert((p + doc).last() == '}');
    lemma_trim_end_after(p + doc, suffix);
    let t = p + doc + q;
    assert(trim(prefix + doc + suffix) == t);
    lemma_trim_start_suffix(prefix);
    lemma_trim_end_prefix(suffix);
    assert(!p.contains('{')) by {
        if p.contains('{') {
            let i = choose|i: int| 0 <= i < p.len() && p[i] == '{';
            assert(p[i] == prefix[prefix.len() - p.len() + i]);
        }
    }
    assert(!q.contains('}')) by {
        if q.contains('}') {
            let i = choose|i: int| 0 <= i < q.len() && q[i] == '}';
            assert(q[i] == suffix[i]);
        }
    }
    assert(t == p + (doc + q));
    assert((doc + q)[0] == '{');
    lemma_first_index_after(p, doc + q, '{');
    lemma_last_index_before(p + doc, q, '}');
    assert(t.subrange(p.len() as int, (p.len() + doc.len()) as int) == doc);
}

/// Extracting from an extracted document changes nothing.
pub proof fn lemma_region_idempotent(raw: Seq<char>)
    ensures
        json_region(json_region(raw)) == json_region(raw),
{
    let t = trim(raw);
    let a = first_index(t, '{');
    let b = last_index(t, '}');
    lemma_first_index(t, '{');
    lemma_last_index(t, '}');
    if a >= 0 && b >= 0 && a <= b {
        let doc = t.subrange(a, b + 1);
        assert(doc[0] == '{');
        assert(doc.last() == '}');
        assert(Seq::<char>::empty() + doc + Seq::<char>::empty() == doc);
        lemma_wrapped_document_extracted(Seq::empty(), doc, Seq::empty());
    } else {
        lemma_trim_idempotent(raw);
    }
}

} // verus!
