//! Prompts sent to the language model.

use vstd::prelude::*;
use crate::text::contains_text;

verus! {

/// Opening of the news-based article prompt, up to the quoted topic.
pub const GENERATE_WITH_NEWS_HEAD: &'static str = "You are an English teacher. Based on the following latest news articles retrieved from the web, write a short, highly professional business English article (between 150 to 250 words) about '";

/// Text between the topic and the news context in the news-based prompt.
pub const GENERATE_WITH_NEWS_CONTEXT: &'static str = "' suitable for upper-intermediate to advanced business English learners (TOEIC 800+, CEFR B2-C1). Incorporate practical and advanced business vocabulary from the news context. Do not fabricate facts; base the article on the provided news content.\n\n--- Latest News Context ---\n";

/// Text between the news context and the echoed source URL.
pub const GENERATE_WITH_NEWS_SOURCE: &'static str = "\n---\n\nYou MUST output strictly in valid JSON format matching this schema exactly:\n{\n  \"text\": \"The generated english article based on the news...\",\n  \"source_url\": \"";

/// Closing of the news-based prompt after the source URL.
pub const GENERATE_WITH_NEWS_TAIL: &'static str = "\"\n}";

/// Opening of the plain article prompt, up to the quoted topic.
pub const GENERATE_HEAD: &'static str = "You are an English teacher. Write a short, highly professional business English article (between 150 to 250 words) about '";

/// Closing of the plain article prompt after the topic.
pub const GENERATE_TAIL: &'static str = "' suitable for upper-intermediate to advanced business English learners (TOEIC 800+, CEFR B2-C1). Incorporate practical and advanced business vocabulary.\nFocus on real-world business contexts, modern industry trends, and practical vocabulary.\nYou MUST output strictly in valid JSON format matching this schema exactly:\n{\n  \"text\": \"The generated english article...\",\n  \"source_url\": null\n}";

/// Opening of the analysis prompt, up to the quoted text.
pub const ANALYZE_HEAD: &'static str = "You are an English teacher. Break down the following english text into segments (chunks of meaning), translate each segment into Japanese, and provide a short grammar note for each. Also, extract highly advanced business keywords or idioms (CEFR B2-C1 level) from the text. Skip basic and intermediate words (A1-B2) as the user already knows them (TOEIC 800+). Do NOT include literal slash characters ('/') in the text.\nText to analyze: \"";

/// Closing of the analysis prompt after the quoted text.
pub const ANALYZE_TAIL: &'static str = "\"\nYou MUST output strictly in valid JSON format matching this schema exactly:\n{\n  \"segments\": [\n    { \"id\": 1, \"text\": \"The quick brown fox\", \"translation\": \"素早い茶色のキツネが\", \"grammar_note\": \"主語(S)\" },\n    { \"id\": 2, \"text\": \"jumps over\", \"translation\": \"〜を飛び越える\", \"grammar_note\": \"動詞(V) + 前置詞(prep)\" },\n    { \"id\": 3, \"text\": \"the lazy dog.\", \"translation\": \"怠け者の犬を。\", \"grammar_note\": \"目的語(O)\" }\n  ],\n  \"keywords\": [\n    { \"word\": \"lazy\", \"meaning\": \"怠惰な\", \"part_of_speech\": \"adjective\", \"example\": \"He is a lazy dog.\" }\n  ]\n}";


/// The article prompt: with news context and source URL when both are given,
/// otherwise the plain variant.
pub open spec fn generate_prompt(
    topic: Seq<char>,
    news: Option<(Seq<char>, Seq<char>)>,
) -> Seq<char> {
    match news {
        Some((context, url)) => GENERATE_WITH_NEWS_HEAD@ + topic + GENERATE_WITH_NEWS_CONTEXT@
            + context + GENERATE_WITH_NEWS_SOURCE@ + url + GENERATE_WITH_NEWS_TAIL@,
        None => GENERATE_HEAD@ + topic + GENERATE_TAIL@,
    }
}

/// The news part handed to [`generate_prompt`]: present only when both the
/// context and the source URL are.
pub open spec fn news_pair(news_context: Option<&str>, source_url: Option<&str>) -> Option<(Seq<char>, Seq<char>)> {
    match (news_context, source_url) {
        (Some(c), Some(u)) => Some((c@, u@)),
        _ => None,
    }
}

/// The analysis prompt for `text`.
pub open spec fn analyze_prompt(text: Seq<char>) -> Seq<char> {
    ANALYZE_HEAD@ + text + ANALYZE_TAIL@
}

/// Builds the article-generation prompt. The news-based variant is used
/// exactly when both `news_context` and `source_url` are present.
pub fn build_generate_prompt(
    topic_name: &str,
    news_context: Option<&str>,
    source_url: Option<&str>,
) -> (prompt: String)
    ensures
        prompt@ == generate_prompt(topic_name@, news_pair(news_context, source_url)),
{
    match (news_context, source_url) {
        (Some(context), Some(url)) => {
            let mut prompt = GENERATE_WITH_NEWS_HEAD.to_owned();
            prompt.append(topic_name);
            prompt.append(GENERATE_WITH_NEWS_CONTEXT);
            prompt.append(context);
            prompt.append(GENERATE_WITH_NEWS_SOURCE);
            prompt.append(url);
            prompt.append(GENERATE_WITH_NEWS_TAIL);
            prompt
        },
        _ => {
            let mut prompt = GENERATE_HEAD.to_owned();
            prompt.append(topic_name);
            prompt.append(GENERATE_TAIL);
            prompt
        },
    }
}

/// Builds the prompt that asks for segments, translations and keywords of
/// `text_to_analyze`.
pub fn build_analyze_prompt(text_to_analyze: &str) -> (prompt: String)
    ensures
        prompt@ == analyze_prompt(text_to_analyze@),
{
    let mut prompt = ANALYZE_HEAD.to_owned();
    prompt.append(text_to_analyze);
    prompt.append(ANALYZE_TAIL);
    prompt
}

/// Heading of the news section of the news-based prompt.
pub const NEWS_HEADER: &'static str = "Latest News Context";

/// Marker in front of the text of the analysis prompt.
pub const ANALYZE_MARKER: &'static str = "Text to analyze: \"";

/// The plain article prompt grows by exactly the topic, quotes it after
/// `about`, ends with the schema's null source URL, and holds no news
/// section unless the topic itself brings the heading along.
pub proof fn lemma_plain_prompt_shape(topic: Seq<char>)
    ensures
        generate_prompt(topic, None).len() == generate_prompt(Seq::empty(), None).len()
            + topic.len(),
        generate_prompt(topic, None).subrange(
            GENERATE_HEAD@.len() - 7,
            (GENERATE_HEAD@.len() + topic.len() + 1) as int,
        ) == "about '"@ + topic + "'"@,
        "\"source_url\": null\n}"@.is_suffix_of(generate_prompt(topic, None)),
        !contains_text(topic, NEWS_HEADER@) ==> !contains_text(
            generate_prompt(topic, None),
            NEWS_HEADER@,
        ),
{
    reveal_strlit("You are an English teacher. Write a short, highly professional business English article (between 150 to 250 words) about '");
    reveal_strlit("' suitable for upper-intermediate to advanced business English learners (TOEIC 800+, CEFR B2-C1). Incorporate practical and advanced business vocabulary.\nFocus on real-world business contexts, modern industry trends, and practical vocabulary.\nYou MUST output strictly in valid JSON format matching this schema exactly:\n{\n  \"text\": \"The generated english article...\",\n  \"source_url\": null\n}");
    reveal_strlit("about '");
    reveal_strlit("'");
    reveal_strlit("\"source_url\": null\n}");
    reveal_strlit("Latest News Context");
    let h = GENERATE_HEAD@;
    let t = GENERATE_TAIL@;
    let p = NEWS_HEADER@;
    let r = generate_prompt(topic, None);
    assert(r == h + topic + t);
    assert(generate_prompt(Seq::empty(), None) == h + t);
    assert(h.subrange(h.len() - 7, h.len() as int) == "about '"@);
    assert(r.subrange(h.len() - 7, (h.len() + topic.len() + 1) as int) == h.subrange(h.len() - 7, h.len() as int)
        + topic + t.subrange(0, 1));
    assert(t.subrange(0, 1) == "'"@);
    let sfx = "\"source_url\": null\n}"@;
    assert(t.subrange(t.len() - sfx.len(), t.len() as int) == sfx);
    assert(r.subrange(r.len() - sfx.len(), r.len() as int) == t.subrange(t.len() - sfx.len(), t.len() as int));
    if contains_text(r, p) && !contains_text(topic, p) {
        let i = choose|i: int| 0 <= i <= r.len() - p.len() && #[trigger] r.subrange(i, i + p.len()) == p;
        assert(!h.contains('L'));
        assert(!p.contains('\''));
        assert(p[0] == 'L');
        assert(r[i] == p[0]);
        if i < h.len() {
            assert(r[i] == h[i]);
        }
        let e = (h.len() + topic.len()) as int;
        if i + p.len() > e {
            assert(r[e] == t[0]);
            assert(r.subrange(i, i + p.len())[e - i] == r[e]);
        }
        let j = i - h.len();
        assert(topic.subrange(j, j + p.len()) == r.subrange(i, i + p.len()));
    }
}

/// The analysis prompt is the empty-text prompt with the text inserted
/// verbatim right after the first occurrence of the marker.
pub proof fn lemma_analyze_prompt_insertion(text: Seq<char>)
    ensures
        ({
            let e = analyze_prompt(Seq::empty());
            let m = ANALYZE_MARKER@;
            let k = ANALYZE_HEAD@.len() as int;
            &&& m.len() <= k
            &&& e.subrange(k - m.len(), k) == m
            &&& forall|j: int| 0 <= j < k - m.len() ==> #[trigger] e.subrange(j, j + m.len()) != m
            &&& analyze_prompt(text) == e.take(k) + text + e.skip(k)
        }),
{
    reveal_strlit("You are an English teacher. Break down the following english text into segments (chunks of meaning), translate each segment into Japanese, and provide a short grammar note for each. Also, extract highly advanced business keywords or idioms (CEFR B2-C1 level) from the text. Skip basic and intermediate words (A1-B2) as the user already knows them (TOEIC 800+). Do NOT include literal slash characters ('/') in the text.\nText to analyze: \"");
    reveal_strlit("\"\nYou MUST output strictly in valid JSON format matching this schema exactly:\n{\n  \"segments\": [\n    { \"id\": 1, \"text\": \"The quick brown fox\", \"translation\": \"素早い茶色のキツネが\", \"grammar_note\": \"主語(S)\" },\n    { \"id\": 2, \"text\": \"jumps over\", \"translation\": \"〜を飛び越える\", \"grammar_note\": \"動詞(V) + 前置詞(prep)\" },\n    { \"id\": 3, \"text\": \"the lazy dog.\", \"translation\": \"怠け者の犬を。\", \"grammar_note\": \"目的語(O)\" }\n  ],\n  \"keywords\": [\n    { \"word\": \"lazy\", \"meaning\": \"怠惰な\", \"part_of_speech\": \"adjective\", \"example\": \"He is a lazy dog.\" }\n  ]\n}");
    reveal_strlit("Text to analyze: \"");
    let h = ANALYZE_HEAD@;
    let t = ANALYZE_TAIL@;
    let m = ANALYZE_MARKER@;
    let e = analyze_prompt(Seq::empty());
    let k = h.len() as int;
    assert(e == h + t);
    assert(e.take(k) == h);
    assert(e.skip(k) == t);
    assert(h.subrange(k - m.len(), k) == m);
    assert(e.subrange(k - m.len(), k) == h.subrange(k - m.len(), k));
    assert forall|j: int| 0 <= j < k - m.len() implies #[trigger] e.subrange(j, j + m.len()) != m by {
        assert(e.subrange(j, j + m.len()) == h.subrange(j, j + m.len()));
        if h.subrange(j, j + m.len()) == m {
            assert(h[j] == m[0] && h[j + 1] == m[1]);
        }
    }
}

} // verus!
