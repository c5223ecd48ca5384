//! News search results and the prompt context built from them.

use vstd::prelude::*;
use vstd::utf8::*;
use crate::text::{decimal, join, push_decimal};

verus! {

/// One article returned by the news search service.
#[derive(Clone, Debug, PartialEq)]
pub struct TavilyResult {
    pub title: String,
    pub content: String,
    pub url: String,
}

/// Largest number of UTF-8 bytes of an article's content kept in the context.
pub const CONTENT_BYTE_LIMIT: usize = 400;

/// The part of `content` kept in the context: the first 400 bytes of its
/// UTF-8 encoding when it is longer, otherwise all of it.
pub open spec fn content_excerpt(content: Seq<char>) -> Seq<char> {
    let bytes = encode_utf8(content);
    if bytes.len() > CONTENT_BYTE_LIMIT {
        decode_utf8(bytes.take(CONTENT_BYTE_LIMIT as int))
    } else {
        content
    }
}

/// `content` can be cut at the byte limit: it is short enough, or the limit
/// falls on a character boundary.
pub open spec fn excerpt_cuttable(content: Seq<char>) -> bool {
    encode_utf8(content).len() > CONTENT_BYTE_LIMIT ==> is_char_boundary(
        encode_utf8(content),
        CONTENT_BYTE_LIMIT as int,
    )
}

/// An excerpt is a prefix of the content whose encoding is at most 400 bytes
/// long, and it is the whole content when that fits in 400 bytes.
pub proof fn lemma_excerpt_is_bounded_prefix(content: Seq<char>)
    requires
        excerpt_cuttable(content),
    ensures
        content_excerpt(content).is_prefix_of(content),
        encode_utf8(content_excerpt(content)).len() <= CONTENT_BYTE_LIMIT,
        encode_utf8(content).len() <= CONTENT_BYTE_LIMIT ==> content_excerpt(content) == content,
        encode_utf8(content).len() > CONTENT_BYTE_LIMIT ==> encode_utf8(content_excerpt(content)).len()
            == CONTENT_BYTE_LIMIT,
{
    let bytes = encode_utf8(content);
    let limit = CONTENT_BYTE_LIMIT as int;
    if bytes.len() > limit {
        encode_utf8_valid_utf8(content);
        encode_utf8_decode_utf8(content);
        decode_utf8_split(bytes, limit);
        valid_utf8_split(bytes, limit);
        assert(bytes.take(limit) == bytes.subrange(0, limit));
        decode_utf8_encode_utf8(bytes.take(limit));
        let head = decode_utf8(bytes.take(limit));
        assert(content == head + decode_utf8(bytes.subrange(limit, bytes.len() as int)));
        assert(head == content.subrange(0, head.len() as int));
    }
}

/// Every result's content can be cut at the byte limit.
pub open spec fn all_cuttable(results: Seq<TavilyResult>) -> bool {
    forall|i: int| 0 <= i < results.len() ==> excerpt_cuttable(#[trigger] results[i].content@)
}

/// The context entry of the `i`-th result (numbered from one).
pub open spec fn news_entry(i: int, r: TavilyResult) -> Seq<char> {
    "["@ + decimal((i + 1) as nat) + "] Title: "@ + r.title@ + "\n    URL: "@ + r.url@
        + "\n    Content: "@ + content_excerpt(r.content@)
}

/// The entries of all results, in order.
pub open spec fn news_entries(results: Seq<TavilyResult>) -> Seq<Seq<char>> {
    Seq::new(results.len(), |i: int| news_entry(i, results[i]))
}

/// The whole context: the entries separated by blank lines.
pub open spec fn news_context(results: Seq<TavilyResult>) -> Seq<char> {
    join(news_entries(results), "\n\n"@)
}

/// The source URL reported with the context: that of the first result.
pub open spec fn lead_source_url(results: Seq<TavilyResult>) -> Seq<char> {
    if results.len() == 0 {
        Seq::empty()
    } else {
        results[0].url@
    }
}

/// Checks that every result's content can be cut at the byte limit, which
/// [`format_news_context`] needs.
pub fn news_context_formattable(results: &[TavilyResult]) -> (ok: bool)
    ensures
        ok == all_cuttable(results@),
{
    for i in 0..results.len()
        invariant
            forall|j: int| 0 <= j < i ==> excerpt_cuttable(#[trigger] results@[j].content@),
    {
        let content = results[i].content.as_str();
        if content.as_bytes().len() > CONTENT_BYTE_LIMIT && !content.is_char_boundary(CONTENT_BYTE_LIMIT) {
            return false;
        }
        assert(excerpt_cuttable(results@[i as int].content@));
    }
    true
}

/// The content of one result, cut to the byte limit.
fn content_excerpt_of(content: &str) -> (excerpt: &str)
    requires
        excerpt_cuttable(content@),
    ensures
        excerpt@ == content_excerpt(content@),
{
    if content.as_bytes().len() > CONTENT_BYTE_LIMIT {
        let excerpt = content.split_at(CONTENT_BYTE_LIMIT).0;
        proof {
            let bytes = encode_utf8(content@);
            assert(encode_utf8(excerpt@) == bytes.subrange(0, CONTENT_BYTE_LIMIT as int));
            assert(bytes.subrange(0, CONTENT_BYTE_LIMIT as int) == bytes.take(CONTENT_BYTE_LIMIT as int));
            encode_utf8_decode_utf8(excerpt@);
        }
        excerpt
    } else {
        content
    }
}

/// Formats search results into the prompt's news context and returns it with
/// the URL of the first result; both are empty when there are no results.
#[verifier::rlimit(40)]
pub fn format_news_context(results: &[TavilyResult]) -> (out: (String, String))
    requires
        all_cuttable(results@),
    ensures
        out.0@ == news_context(results@),
        out.1@ == lead_source_url(results@),
{
    if results.len() == 0 {
        return (String::new(), String::new());
    }
    let source_url = results[0].url.clone();
    let ghost entries = news_entries(results@);
    let mut context = String::new();
    for i in 0..results.len()
        invariant
            all_cuttable(results@),
            entries == news_entries(results@),
            context@ == join(entries.take(i as int), "\n\n"@),
    {
        let r = &results[i];
        if i > 0 {
            context.append("\n\n");
        }
        let ghost before = context@;
        context.append("[");
        push_decimal(&mut context, i + 1);
        context.append("] Title: ");
        context.append(r.title.as_str());
        context.append("\n    URL: ");
        context.append(r.url.as_str());
        context.append("\n    Content: ");
        assert(excerpt_cuttable(results@[i as int].content@));
        context.append(content_excerpt_of(r.content.as_str()));
        proof {
            assert(entries.take(i + 1).drop_last() == entries.take(i as int));
            assert(entries[i as int] == news_entry(i as int, results@[i as int]));
            if i == 0 {
                assert(entries.take(1).len() == 1);
            }
        }
    }
    assert(entries.take(results@.len() as int) == entries);
    (context, source_url)
}

/// The context holds every result's content cut to 400 bytes, at every
/// position: cutting the contents beforehand (each to a prefix of at most
/// 400 bytes, exactly 400 when longer) leaves the context and the source URL
/// unchanged.
pub proof fn lemma_context_holds_only_excerpts(results: Seq<TavilyResult>, cut: Seq<TavilyResult>)
    requires
        all_cuttable(results),
        cut.len() == results.len(),
        forall|i: int|
            0 <= i < results.len() ==> {
                &&& (#[trigger] cut[i]).title@ == results[i].title@
                &&& cut[i].url@ == results[i].url@
                &&& cut[i].content@ == content_excerpt(results[i].content@)
            },
    ensures
        news_context(cut) == news_context(results),
        lead_source_url(cut) == lead_source_url(results),
        forall|i: int|
            0 <= i < cut.len() ==> {
                &&& (#[trigger] cut[i]).content@.is_prefix_of(results[i].content@)
                &&& encode_utf8(cut[i].content@).len() <= CONTENT_BYTE_LIMIT
                &&& encode_utf8(results[i].content@).len() > CONTENT_BYTE_LIMIT ==> encode_utf8(
                    cut[i].content@,
                ).len() == CONTENT_BYTE_LIMIT
                &&& encode_utf8(results[i].content@).len() <= CONTENT_BYTE_LIMIT ==> cut[i].content@
                    == results[i].content@
            },
{
    assert forall|i: int| 0 <= i < cut.len() implies {
        &&& (#[trigger] cut[i]).content@.is_prefix_of(results[i].content@)
        &&& encode_utf8(cut[i].content@).len() <= CONTENT_BYTE_LIMIT
        &&& encode_utf8(results[i].content@).len() > CONTENT_BYTE_LIMIT ==> encode_utf8(
            cut[i].content@,
        ).len() == CONTENT_BYTE_LIMIT
        &&& encode_utf8(results[i].content@).len() <= CONTENT_BYTE_LIMIT ==> cut[i].content@
            == results[i].content@
    } by {
        assert(excerpt_cuttable(results[i].content@));
        lemma_excerpt_is_bounded_prefix(results[i].content@);
    }
    assert forall|i: int| 0 <= i < cut.len() implies #[trigger] news_entries(cut)[i] == news_entries(
        results,
    )[i] by {
        assert(excerpt_cuttable(results[i].content@));
        lemma_excerpt_is_bounded_prefix(results[i].content@);
        assert(content_excerpt(cut[i].content@) == cut[i].content@);
    }
    assert(news_entries(cut) == news_entries(results));
}

/// A single result gives one entry numbered 1: its title, its URL and its
/// content cut to 400 bytes.
pub proof fn lemma_context_of_one(r: TavilyResult)
    ensures
        news_context(seq![r]) == "[1] Title: "@ + r.title@ + "\n    URL: "@ + r.url@
            + "\n    Content: "@ + content_excerpt(r.content@),
{
    reveal_strlit("[");
    reveal_strlit("] Title: ");
    reveal_strlit("[1] Title: ");
    let e = news_entries(seq![r]);
    assert(e.len() == 1);
    assert(decimal(1) == seq!['1']);
    assert("["@ + decimal(1) + "] Title: "@ == "[1] Title: "@);
}

/// One more result appends a blank line and its entry, numbered one past
/// the results before it; nothing before changes.
pub proof fn lemma_context_extend(rs: Seq<TavilyResult>, r: TavilyResult)
    requires
        rs.len() > 0,
    ensures
        news_context(rs.push(r)) == news_context(rs) + "\n\n["@ + decimal(rs.len() + 1) + "] Title: "@
            + r.title@ + "\n    URL: "@ + r.url@ + "\n    Content: "@ + content_excerpt(r.content@),
{
    reveal_strlit("[");
    reveal_strlit("\n\n");
    reveal_strlit("\n\n[");
    let e = news_entries(rs.push(r));
    assert(e.drop_last() == news_entries(rs));
    assert(e.last() == news_entry(rs.len() as int, r));
    assert("\n\n["@ == "\n\n"@ + "["@);
}

} // verus!
