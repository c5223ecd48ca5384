use eng_app_backend::auth::validate_api_key;
use eng_app_backend::http::{ApiRequest, Method};
use eng_app_backend::news::{format_news_context, news_context_formattable, TavilyResult};
use eng_app_backend::payload::{extract_json_payload, extract_json_region};
use eng_app_backend::prompt::{build_analyze_prompt, build_generate_prompt};

fn request_with_key(key: Option<&str>) -> ApiRequest {
    ApiRequest {
        method: Method::Get,
        api_key: key.map(|k| k.to_string()),
        path: "/".to_string(),
        path_id: None,
    }
}

#[test]
fn test_validate_api_key_valid() {
    let req = request_with_key(Some("secret123"));
    assert!(validate_api_key(&req, "secret123"));
}

#[test]
fn test_validate_api_key_invalid() {
    let req = request_with_key(Some("wrong_key"));
    assert!(!validate_api_key(&req, "secret123"));
}

#[test]
fn test_validate_api_key_missing_header() {
    let req = request_with_key(None);
    assert!(!validate_api_key(&req, "secret123"));
}

#[test]
fn test_validate_api_key_empty_expected() {
    let req = request_with_key(None);
    assert!(!validate_api_key(&req, ""));
}

#[test]
fn empty_header_matches_no_key() {
    // An empty header and an empty configured key are not a match either.
    let req = request_with_key(Some(""));
    assert!(!validate_api_key(&req, ""));
    assert!(!validate_api_key(&req, "secret123"));
}

#[test]
fn test_format_news_context_truncation_and_url() {
    let long_text = "A".repeat(500);
    let results = vec![
        TavilyResult {
            title: "First News".into(),
            content: long_text,
            url: "https://example.com/first".into(),
        },
        TavilyResult {
            title: "Second News".into(),
            content: "Short content".into(),
            url: "https://example.com/second".into(),
        },
    ];

    let (context, source_url) = format_news_context(&results);
    assert_eq!(source_url, "https://example.com/first");
    assert!(context.contains("[1] Title: First News"));
    assert!(context.contains("[2] Title: Second News"));
    assert!(!context.contains(&"A".repeat(401)));
    assert!(context.contains(&"A".repeat(400)));
}

#[test]
fn format_news_context_exact_layout() {
    let results = vec![
        TavilyResult { title: "T1".into(), content: "C1".into(), url: "U1".into() },
        TavilyResult { title: "T2".into(), content: "C2".into(), url: "U2".into() },
    ];
    let (context, source_url) = format_news_context(&results);
    assert_eq!(
        context,
        "[1] Title: T1\n    URL: U1\n    Content: C1\n\n[2] Title: T2\n    URL: U2\n    Content: C2"
    );
    assert_eq!(source_url, "U1");
}

#[test]
fn format_news_context_empty() {
    let (context, source_url) = format_news_context(&[]);
    assert_eq!(context, "");
    assert_eq!(source_url, "");
}

#[test]
fn format_news_context_numbers_past_nine() {
    let results: Vec<TavilyResult> = (0..12)
        .map(|i| TavilyResult {
            title: format!("N{}", i),
            content: String::new(),
            url: String::new(),
        })
        .collect();
    let (context, _) = format_news_context(&results);
    assert!(context.contains("[10] Title: N9"));
    assert!(context.contains("[12] Title: N11"));
}

#[test]
fn format_news_context_cuts_multibyte_content_on_boundary() {
    // 200 two-byte characters make exactly 400 bytes; one more makes 402.
    let content = "é".repeat(201);
    let results = vec![TavilyResult { title: "T".into(), content, url: "U".into() }];
    assert!(news_context_formattable(&results));
    let (context, _) = format_news_context(&results);
    assert!(context.ends_with(&"é".repeat(200)));
    assert!(!context.contains(&"é".repeat(201)));
}

#[test]
fn format_news_context_rejects_cut_inside_a_character() {
    // One ASCII byte then two-byte characters: byte 400 falls inside one.
    let content = format!("a{}", "é".repeat(250));
    let results = vec![TavilyResult { title: "T".into(), content, url: "U".into() }];
    assert!(!news_context_formattable(&results));
}

#[test]
fn test_build_generate_prompt_without_news() {
    let prompt = build_generate_prompt("Fintech", None, None);
    assert!(prompt.contains("'Fintech'"));
    assert!(prompt.contains("150 to 250 words"));
    assert!(prompt.contains("\"source_url\": null"));
    assert!(!prompt.contains("Latest News Context"));
}

#[test]
fn test_build_generate_prompt_with_news() {
    let prompt = build_generate_prompt(
        "AI in Healthcare",
        Some("News Content Here"),
        Some("https://news.example.com"),
    );
    assert!(prompt.contains("'AI in Healthcare'"));
    assert!(prompt.contains("News Content Here"));
    assert!(prompt.contains("\"source_url\": \"https://news.example.com\""));
    assert!(prompt.contains("150 to 250 words"));
}

#[test]
fn generate_prompt_needs_both_context_and_url() {
    let plain = build_generate_prompt("Energy", None, None);
    assert_eq!(build_generate_prompt("Energy", Some("ctx"), None), plain);
    assert_eq!(build_generate_prompt("Energy", None, Some("url")), plain);
}

#[test]
fn test_build_analyze_prompt() {
    let prompt = build_analyze_prompt("Artificial Intelligence is growing rapidly.");
    assert!(prompt.contains("Artificial Intelligence is growing rapidly."));
    assert!(prompt.contains("CEFR B2-C1 level"));
    assert!(prompt.contains("\"segments\""));
    assert!(prompt.contains("\"keywords\""));
}

#[test]
fn analyze_prompt_quotes_the_text() {
    let prompt = build_analyze_prompt("Hello there.");
    assert!(prompt.contains("Text to analyze: \"Hello there.\"\n"));
}

#[test]
fn test_extract_json_payload_clean() {
    let raw = r#"{"text": "Hello world", "source_url": null}"#;
    let val = extract_json_payload(raw).expect("should parse");
    assert_eq!(val["text"], "Hello world");
    assert!(val["source_url"].is_null());
}

#[test]
fn test_extract_json_payload_markdown_wrapped() {
    let raw = "Here is the response:\n```json\n{\"text\": \"From markdown\", \"source_url\": \"https://test.com\"}\n```\nHope this helps!";
    let val = extract_json_payload(raw).expect("should parse markdown wrapped JSON");
    assert_eq!(val["text"], "From markdown");
    assert_eq!(val["source_url"], "https://test.com");
}

#[test]
fn test_extract_json_payload_invalid() {
    let raw = "This is not JSON at all";
    assert!(extract_json_payload(raw).is_err());
}

#[test]
fn extract_json_payload_error_message_prefix() {
    let err = extract_json_payload("nope").unwrap_err();
    assert!(err.starts_with("Failed to parse JSON payload: "));
    assert!(err.len() > "Failed to parse JSON payload: ".len());
}

#[test]
fn json_region_cases() {
    assert_eq!(extract_json_region("  \n{\"a\": 1}\t "), "{\"a\": 1}");
    assert_eq!(extract_json_region("x {\"a\": {\"b\": 2}} y"), "{\"a\": {\"b\": 2}}");
    // Closing brace before the opening one: the trimmed text is kept.
    assert_eq!(extract_json_region("  } text {  "), "} text {");
    assert_eq!(extract_json_region("\u{3000}plain\u{3000}"), "plain");
    assert_eq!(extract_json_region(""), "");
}

#[test]
fn extract_json_payload_array_outside_braces() {
    // Only the span between braces is parsed.
    let val = extract_json_payload("[1, {\"k\": true}]").expect("inner object parses");
    assert_eq!(val["k"], true);
}

#[test]
fn extract_json_payload_returns_the_region_value() {
    // A JSON string holding braces: the region is the braces' span, so the
    // result is the empty object, not the string.
    let val = extract_json_payload("\"{}\"").expect("inner object parses");
    assert!(val.is_object());
    assert_eq!(val.as_object().unwrap().len(), 0);
}
