use eng_app_backend::auth::{lookup_secret, secret_from_store, SecretKind, SecretLookup};
use eng_app_backend::generate::{
    begin_generate, continue_after_search, finish_generate, gemini_endpoint, is_dummy_mode,
    tavily_search_call, tavily_search_outcome, ApiEndpoints, Candidate, Content, GeminiReply,
    GeminiResponse, GenerateBody, GenerateRequest, GenerateSettings, GenerateStep, Part,
    TavilyReply, DUMMY_ANALYSIS_JSON, UNREADABLE_PAYLOAD_JSON,
};
use eng_app_backend::http::{ApiRequest, Method};
use eng_app_backend::news::TavilyResult;
use eng_app_backend::store::{
    created_reply, id_from_sort_key, listed_topics_reply, listed_vocabulary_reply, new_topic,
    new_vocabulary, removed_reply, route_topics, route_vocabulary, sort_key, Collection,
    DeleteRequest, StoreBody, StoreRoute, StoredItem, TopicRequest, VocabularyRequest,
};

fn settings(gemini: &str, tavily: &str, base: &str) -> GenerateSettings {
    GenerateSettings {
        app_api_key: "secret_key".to_string(),
        gemini_api_key: gemini.to_string(),
        tavily_api_key: tavily.to_string(),
        endpoints: ApiEndpoints {
            tavily_url: format!("{}/search", base),
            gemini_base_url: base.to_string(),
        },
    }
}

fn post(key: Option<&str>) -> ApiRequest {
    ApiRequest {
        method: Method::Post,
        api_key: key.map(|k| k.to_string()),
        path: "/generate_text".to_string(),
        path_id: None,
    }
}

fn body(topic: Option<&str>, web: Option<bool>, action: Option<&str>, text: Option<&str>) -> GenerateRequest {
    GenerateRequest {
        topic_name: topic.map(|s| s.to_string()),
        use_web_search: web,
        action: action.map(|s| s.to_string()),
        text: text.map(|s| s.to_string()),
    }
}

fn status_and_text(step: &GenerateStep) -> (u16, String) {
    match step {
        GenerateStep::Respond(r) => match &r.body {
            GenerateBody::Text(t) => (r.status, t.clone()),
            _ => (r.status, String::new()),
        },
        _ => (0, String::new()),
    }
}

#[test]
fn api_endpoints_default() {
    let e = ApiEndpoints::default();
    assert_eq!(e.tavily_url, "https://api.tavily.com/search");
    assert_eq!(e.gemini_base_url, "https://generativelanguage.googleapis.com");
}

#[test]
fn test_unauthorized_when_api_key_missing_or_invalid() {
    let s = settings("dummy_gemini", "dummy_tavily", "http://localhost");
    let step = begin_generate(&s, &post(None), Some(body(Some("business"), None, None, None)), false);
    assert_eq!(status_and_text(&step), (401, "Unauthorized".to_string()));
    let step = begin_generate(&s, &post(Some("other")), Some(body(Some("business"), None, None, None)), false);
    assert_eq!(status_and_text(&step).0, 401);
}

#[test]
fn method_other_than_post_is_refused() {
    let s = settings("g", "t", "http://localhost");
    let mut req = post(Some("secret_key"));
    req.method = Method::Get;
    let step = begin_generate(&s, &req, Some(body(Some("x"), None, None, None)), false);
    assert_eq!(status_and_text(&step), (405, "Method Not Allowed".to_string()));
}

#[test]
fn test_bad_request_on_invalid_json_payload() {
    let s = settings("dummy_gemini", "dummy_tavily", "http://localhost");
    let step = begin_generate(&s, &post(Some("secret_key")), None, false);
    assert_eq!(status_and_text(&step), (400, "Invalid Request Body".to_string()));
}

#[test]
fn test_dummy_mode_skips_external_api_calls() {
    let s = settings("dummy_gemini", "dummy_tavily", "http://localhost");
    let step = begin_generate(
        &s,
        &post(Some("secret_key")),
        Some(body(Some("test-topic"), None, Some("generate"), None)),
        false,
    );
    match step {
        GenerateStep::Respond(r) => {
            assert_eq!(r.status, 200);
            match r.body {
                GenerateBody::DummyArticle { text, source_url } => {
                    assert!(text.contains("Dummy Mode"));
                    assert_eq!(
                        text,
                        "(Dummy Mode) This is a generated test article about 'test-topic'. It does not consume any API tokens."
                    );
                    assert_eq!(source_url, "https://example.com/dummy-news-source");
                }
                _ => panic!("expected the offline article"),
            }
        }
        _ => panic!("offline mode must not call out"),
    }
}

#[test]
fn dummy_mode_triggers() {
    assert!(is_dummy_mode(true, "finance", "real"));
    assert!(is_dummy_mode(false, "TESTING", "real"));
    assert!(is_dummy_mode(false, "Dummy run", "real"));
    assert!(is_dummy_mode(false, "finance", ""));
    assert!(is_dummy_mode(false, "finance", "CHANGE_ME_GEMINI_KEY"));
    assert!(!is_dummy_mode(false, "finance", "real"));
    assert!(!is_dummy_mode(false, "a test", "real"));
}

#[test]
fn dummy_analysis() {
    let s = settings("", "t", "http://localhost");
    let step = begin_generate(&s, &post(Some("secret_key")), Some(body(None, None, Some("analyze"), Some("x"))), false);
    match step {
        GenerateStep::Respond(r) => {
            assert_eq!(r.status, 200);
            assert!(matches!(r.body, GenerateBody::DummyAnalysis));
        }
        _ => panic!("expected the offline analysis"),
    }
}

#[test]
fn test_generate_with_web_search_success() {
    let s = settings("real_gemini_key", "real_tavily_key", "http://mock");
    let step = begin_generate(
        &s,
        &post(Some("secret_key")),
        Some(body(Some("quantum-ai"), Some(true), None, None)),
        false,
    );
    let (call, pending) = match step {
        GenerateStep::Search(call, pending) => (call, pending),
        _ => panic!("expected a news search"),
    };
    assert_eq!(call.url, "http://mock/search");
    assert_eq!(call.authorization, "Bearer real_tavily_key");
    assert_eq!(call.query, "quantum-ai latest news");
    assert_eq!(call.topic, "news");
    assert_eq!((call.days, call.max_results, call.include_answer), (3, 3, false));
    let found = tavily_search_outcome(TavilyReply::Results(vec![TavilyResult {
        title: "Quantum Leap in AI".into(),
        content: "Researchers have discovered new AI paradigms.".into(),
        url: "https://tech.example.com/ai-quantum".into(),
    }]));
    let step = continue_after_search(pending, found);
    let ask = match step {
        GenerateStep::Ask(ask) => ask,
        _ => panic!("expected a model call"),
    };
    assert_eq!(
        ask.url,
        "http://mock/v1beta/models/gemini-3.5-flash-lite:generateContent?key=real_gemini_key"
    );
    assert!(ask.prompt.contains("[1] Title: Quantum Leap in AI"));
    assert!(ask.prompt.contains("\"source_url\": \"https://tech.example.com/ai-quantum\""));
    let reply = finish_generate(GeminiReply::Answered(GeminiResponse {
        candidates: Some(vec![Candidate {
            content: Content {
                parts: vec![Part {
                    text: "{\"text\": \"Recent breakthroughs in quantum computing are accelerating AI development.\", \"source_url\": \"https://tech.example.com/ai-quantum\"}".into(),
                }],
            },
        }]),
    }));
    assert_eq!(reply.status, 200);
    match reply.body {
        GenerateBody::Payload(v) => {
            let body = serde_json::to_string(&v).unwrap();
            assert!(body.contains("https://tech.example.com/ai-quantum"));
            assert!(body.contains("Recent breakthroughs in quantum computing"));
        }
        _ => panic!("expected the model's document"),
    }
}

#[test]
fn test_generate_with_web_search_tavily_500_returns_503() {
    let found = tavily_search_outcome(TavilyReply::Status {
        status: "500 Internal Server Error".into(),
        body: String::new(),
    });
    assert_eq!(found.as_ref().unwrap_err(), "Tavily API error (500 Internal Server Error): ");
    let s = settings("real_gemini_key", "real_tavily_key", "http://mock");
    let pending = match begin_generate(&s, &post(Some("secret_key")), Some(body(Some("quantum-ai"), Some(true), None, None)), false) {
        GenerateStep::Search(_, pending) => pending,
        _ => panic!("expected a news search"),
    };
    let step = continue_after_search(pending, found);
    assert_eq!(
        status_and_text(&step),
        (503, "Web search failed. Please try again or disable web search.".to_string())
    );
}

#[test]
fn test_generate_with_web_search_tavily_empty_results_returns_503() {
    let found = tavily_search_outcome(TavilyReply::Results(vec![]));
    assert_eq!(found.as_ref().unwrap_err(), "Tavily returned no results.");
    let s = settings("real_gemini_key", "real_tavily_key", "http://mock");
    let pending = match begin_generate(&s, &post(Some("secret_key")), Some(body(Some("obscure-topic"), Some(true), None, None)), false) {
        GenerateStep::Search(_, pending) => pending,
        _ => panic!("expected a news search"),
    };
    let step = continue_after_search(pending, found);
    assert_eq!(status_and_text(&step).0, 503);
}

#[test]
fn search_without_key_fails_without_call() {
    assert_eq!(tavily_search_call("u", "", "q").err().unwrap(), "Tavily API key is not configured.");
    assert!(tavily_search_call("u", "CHANGE_ME_TAVILY_KEY", "q").is_err());
    let s = settings("real_gemini_key", "CHANGE_ME_TAVILY_KEY", "http://mock");
    let step = begin_generate(&s, &post(Some("secret_key")), Some(body(Some("ai"), Some(true), None, None)), false);
    assert_eq!(status_and_text(&step).0, 503);
}

#[test]
fn search_error_messages() {
    assert_eq!(
        tavily_search_outcome(TavilyReply::Unreadable("bad".into())).unwrap_err(),
        "Tavily response parse error: bad"
    );
    assert_eq!(
        tavily_search_outcome(TavilyReply::Unreachable("down".into())).unwrap_err(),
        "Tavily HTTP request failed: down"
    );
}

#[test]
fn test_generate_without_web_search_only_calls_gemini() {
    let s = settings("real_gemini_key", "real_tavily_key", "http://mock/");
    let step = begin_generate(&s, &post(Some("secret_key")), Some(body(Some("finance"), Some(false), None, None)), false);
    let ask = match step {
        GenerateStep::Ask(ask) => ask,
        _ => panic!("no search expected"),
    };
    assert_eq!(
        ask.url,
        "http://mock/v1beta/models/gemini-3.5-flash-lite:generateContent?key=real_gemini_key"
    );
    assert!(ask.prompt.contains("'finance'"));
    assert!(ask.prompt.contains("\"source_url\": null"));
    let reply = finish_generate(GeminiReply::Answered(GeminiResponse {
        candidates: Some(vec![Candidate {
            content: Content {
                parts: vec![Part {
                    text: "{\"text\": \"General article on finance.\", \"source_url\": null}".into(),
                }],
            },
        }]),
    }));
    match reply.body {
        GenerateBody::Payload(v) => assert_eq!(v["text"], "General article on finance."),
        _ => panic!("expected the model's document"),
    }
}

#[test]
fn test_analyze_success() {
    let s = settings("real_gemini_key", "real_tavily_key", "http://mock");
    let step = begin_generate(&s, &post(Some("secret_key")), Some(body(None, None, Some("analyze"), Some("Segment one is here."))), false);
    let ask = match step {
        GenerateStep::Ask(ask) => ask,
        _ => panic!("expected a model call"),
    };
    assert!(ask.prompt.contains("Text to analyze: \"Segment one is here.\""));
    let reply = finish_generate(GeminiReply::Answered(GeminiResponse {
        candidates: Some(vec![Candidate {
            content: Content {
                parts: vec![Part {
                    text: "{\"segments\": [{\"id\": 1, \"text\": \"Segment one\", \"translation\": \"セグメント1\", \"grammar_note\": \"S\"}], \"keywords\": [{\"word\": \"paradigm\", \"meaning\": \"パラダイム\", \"part_of_speech\": \"noun\", \"example\": \"A new paradigm.\"}]}".into(),
                }],
            },
        }]),
    }));
    assert_eq!(reply.status, 200);
    match reply.body {
        GenerateBody::Payload(v) => {
            let body = serde_json::to_string(&v).unwrap();
            assert!(body.contains("paradigm"));
            assert!(body.contains("Segment one"));
        }
        _ => panic!("expected the model's document"),
    }
}

#[test]
fn test_gemini_error_returns_500() {
    let reply = finish_generate(GeminiReply::Rejected);
    assert_eq!(reply.status, 500);
    assert!(matches!(reply.body, GenerateBody::Text(ref t) if t == "Gemini API returned an error"));
    let reply = finish_generate(GeminiReply::Unreachable);
    assert!(matches!(reply.body, GenerateBody::Text(ref t) if t == "Internal Server Error"));
}

#[test]
fn model_answer_without_document() {
    let reply = finish_generate(GeminiReply::Answered(GeminiResponse { candidates: None }));
    // The text `{}` parses as an empty object.
    match reply.body {
        GenerateBody::Payload(v) => assert_eq!(serde_json::to_string(&v).unwrap(), "{}"),
        _ => panic!("expected an empty document"),
    }
    let reply = finish_generate(GeminiReply::Answered(GeminiResponse {
        candidates: Some(vec![Candidate { content: Content { parts: vec![Part { text: "no json".into() }] } }]),
    }));
    assert_eq!(reply.status, 200);
    assert!(matches!(reply.body, GenerateBody::PayloadUnreadable));
}

#[test]
fn gemini_endpoint_trims_slashes() {
    assert_eq!(gemini_endpoint("https://h//", "k"), "https://h/v1beta/models/gemini-3.5-flash-lite:generateContent?key=k");
}

#[test]
fn secrets_lookup() {
    match lookup_secret(SecretKind::GeminiApiKey, Some("env".into())) {
        SecretLookup::Found(v) => assert_eq!(v, "env"),
        _ => panic!("environment value wins"),
    }
    match lookup_secret(SecretKind::TavilyApiKey, None) {
        SecretLookup::FetchParameter { name, with_decryption } => {
            assert_eq!(name, "/eng-app/tavily-api-key");
            assert!(with_decryption);
        }
        _ => panic!("store must be asked"),
    }
    assert_eq!(SecretKind::AppApiKey.env_var(), "APP_API_KEY");
    assert_eq!(SecretKind::AppApiKey.parameter_name(), "/eng-app/api-key");
    assert_eq!(secret_from_store(SecretKind::AppApiKey, Err(())), "CHANGE_ME_INITIAL_VALUE");
    assert_eq!(secret_from_store(SecretKind::GeminiApiKey, Err(())), "");
    assert_eq!(secret_from_store(SecretKind::GeminiApiKey, Ok("v".into())), "v");
}

fn store_request(method: Method, path: &str, path_id: Option<&str>, key: Option<&str>) -> ApiRequest {
    ApiRequest {
        method,
        api_key: key.map(|k| k.to_string()),
        path: path.to_string(),
        path_id: path_id.map(|s| s.to_string()),
    }
}

fn item(pairs: &[(&str, &str)]) -> StoredItem {
    StoredItem { attributes: pairs.iter().map(|(k, v)| (k.to_string(), v.to_string())).collect() }
}

#[test]
fn topics_routes() {
    match route_topics(&store_request(Method::Get, "/topics", None, None), None, None) {
        StoreRoute::List { partition } => assert_eq!(partition, "TOPIC"),
        _ => panic!("listing expected"),
    }
    match route_topics(&store_request(Method::Post, "/topics", None, None), Some(TopicRequest { name: "AI".into() }), None) {
        StoreRoute::Create(r) => assert_eq!(r.name, "AI"),
        _ => panic!("creation expected"),
    }
    match route_topics(&store_request(Method::Post, "/topics", None, None), None, None) {
        StoreRoute::Respond(r) => assert_eq!((r.status, r.body.as_str()), (400, "Invalid Request Body")),
        _ => panic!("400 expected"),
    }
    match route_topics(&store_request(Method::Delete, "/topics/abc-1", None, None), None, None) {
        StoreRoute::Remove { partition, sort_key } => {
            assert_eq!(partition, "TOPIC");
            assert_eq!(sort_key, "TOPIC#abc-1");
        }
        _ => panic!("deletion expected"),
    }
    match route_topics(&store_request(Method::Delete, "/anything", Some("xyz"), None), None, None) {
        StoreRoute::Remove { sort_key, .. } => assert_eq!(sort_key, "TOPIC#xyz"),
        _ => panic!("deletion expected"),
    }
    for path in ["/topics", "/topics/", ""] {
        match route_topics(&store_request(Method::Delete, path, None, None), None, None) {
            StoreRoute::Respond(r) => assert_eq!((r.status, r.body.as_str()), (400, "Missing 'id' parameter")),
            _ => panic!("400 expected"),
        }
    }
    match route_topics(&store_request(Method::Other, "/topics", None, None), None, None) {
        StoreRoute::Respond(r) => assert_eq!((r.status, r.body.as_str()), (405, "Method Not Allowed")),
        _ => panic!("405 expected"),
    }
}

#[test]
fn vocabulary_requires_key() {
    match route_vocabulary(&store_request(Method::Get, "/vocabulary", None, None), "k", None, None) {
        StoreRoute::Respond(r) => assert_eq!((r.status, r.body.as_str()), (401, "Unauthorized")),
        _ => panic!("401 expected"),
    }
    // With no key configured every request is refused.
    match route_vocabulary(&store_request(Method::Get, "/vocabulary", None, Some("")), "", None, None) {
        StoreRoute::Respond(r) => assert_eq!(r.status, 401),
        _ => panic!("401 expected"),
    }
    match route_vocabulary(&store_request(Method::Delete, "/vocabulary/w1", None, Some("k")), "k", None, None) {
        StoreRoute::Remove { partition, sort_key } => {
            assert_eq!(partition, "VOCAB");
            assert_eq!(sort_key, "WORD#w1");
        }
        _ => panic!("deletion expected"),
    }
    match route_vocabulary(&store_request(Method::Delete, "/vocabulary", None, Some("k")), "k", None, None) {
        StoreRoute::Respond(r) => assert_eq!(r.status, 400),
        _ => panic!("400 expected"),
    }
}

#[test]
fn sort_keys_round_trip() {
    assert_eq!(sort_key(Collection::Topics, "u-1"), "TOPIC#u-1");
    assert_eq!(id_from_sort_key(Collection::Topics, "TOPIC#u-1"), "u-1");
    assert_eq!(id_from_sort_key(Collection::Topics, "TOPIC#a TOPIC#b"), "a b");
    assert_eq!(id_from_sort_key(Collection::Vocabulary, "WORD#w"), "w");
    assert_eq!(id_from_sort_key(Collection::Vocabulary, "WORDWORD#"), "WORD");
}

#[test]
fn created_topic_is_listed_back() {
    let (stored, topic) = new_topic(TopicRequest { name: "Tech".into() }, "id-1".into(), "2024-01-01T00:00:00+00:00".into());
    assert_eq!(topic.id, "id-1");
    let listed = listed_topics_reply(Ok(Some(vec![stored, item(&[("SK", "TOPIC#x")])])));
    assert_eq!(listed.status, 200);
    match listed.body {
        StoreBody::Records(ts) => {
            assert_eq!(ts.len(), 1);
            assert_eq!((ts[0].id.as_str(), ts[0].name.as_str(), ts[0].created_at.as_str()), ("id-1", "Tech", "2024-01-01T00:00:00+00:00"));
        }
        _ => panic!("records expected"),
    }
    let r = created_reply(Ok(()), topic);
    assert_eq!(r.status, 200);
}

#[test]
fn created_word_is_listed_back() {
    let (stored, word) = new_vocabulary(
        VocabularyRequest { word: "lazy".into(), translation: "怠惰な".into() },
        "w-1".into(),
        "t".into(),
    );
    let names: Vec<&str> = stored.attributes.iter().map(|(k, _)| k.as_str()).collect();
    assert_eq!(names, vec!["PK", "SK", "word", "translation", "created_at"]);
    let listed = listed_vocabulary_reply(Ok(Some(vec![stored])));
    match listed.body {
        StoreBody::Records(vs) => {
            assert_eq!(vs.len(), 1);
            assert_eq!(vs[0].translation, "怠惰な");
            assert_eq!(vs[0].id, word.id);
        }
        _ => panic!("records expected"),
    }
}

#[test]
fn table_failures_are_500() {
    let r = listed_topics_reply(Err(()));
    assert_eq!(r.status, 500);
    assert!(matches!(r.body, StoreBody::Text(ref t) if t == "Internal Server Error"));
    let r = listed_topics_reply(Ok(None));
    assert!(matches!(r.body, StoreBody::Records(ref v) if v.is_empty()));
    let r: eng_app_backend::http::Reply<StoreBody<u8>> = removed_reply(Ok(()));
    assert_eq!(r.status, 200);
    assert!(matches!(r.body, StoreBody::Empty));
    let r: eng_app_backend::http::Reply<StoreBody<u8>> = removed_reply(Err(()));
    assert_eq!(r.status, 500);
    let r = created_reply(Err(()), 0u8);
    assert_eq!(r.status, 500);
}

#[test]
fn offline_documents_are_serialized_json() {
    let analysis: serde_json::Value = serde_json::from_str(
        r#"{
            "segments": [
                { "id": 1, "text": "This is a dummy", "translation": "これはダミーです", "grammar_note": "主語(S)と動詞(V)" },
                { "id": 2, "text": "analysis result", "translation": "解析結果です", "grammar_note": "名詞句" }
            ],
            "keywords": [
                { "word": "dummy", "meaning": "ダミーの", "part_of_speech": "noun", "example": "This is a dummy text." }
            ]
        }"#,
    )
    .unwrap();
    assert_eq!(serde_json::to_string(&analysis).unwrap(), DUMMY_ANALYSIS_JSON);
    let unreadable: serde_json::Value =
        serde_json::from_str(r#"{ "error": "Failed to parse AI response" }"#).unwrap();
    assert_eq!(serde_json::to_string(&unreadable).unwrap(), UNREADABLE_PAYLOAD_JSON);
}

#[test]
fn model_document_equals_parse_of_region() {
    let text = "Sure:\n```json\n{\"a\": [1, 2], \"b\": \"x\"}\n```";
    let reply = finish_generate(GeminiReply::Answered(GeminiResponse {
        candidates: Some(vec![Candidate { content: Content { parts: vec![Part { text: text.into() }] } }]),
    }));
    let expected: serde_json::Value = serde_json::from_str("{\"a\": [1, 2], \"b\": \"x\"}").unwrap();
    match reply.body {
        GenerateBody::Payload(v) => assert_eq!(v, expected),
        _ => panic!("expected the model's document"),
    }
}

#[test]
fn delete_by_body_id() {
    let body = || Some(DeleteRequest { id: "abc".into() });
    match route_topics(&store_request(Method::Delete, "/topics", None, None), None, body()) {
        StoreRoute::Remove { partition, sort_key } => {
            assert_eq!(partition, "TOPIC");
            assert_eq!(sort_key, "TOPIC#abc");
        }
        _ => panic!("deletion expected"),
    }
    // A record named in the path wins over the body.
    match route_topics(&store_request(Method::Delete, "/topics/p1", None, None), None, body()) {
        StoreRoute::Remove { sort_key, .. } => assert_eq!(sort_key, "TOPIC#p1"),
        _ => panic!("deletion expected"),
    }
    match route_vocabulary(&store_request(Method::Delete, "/vocabulary", None, Some("k")), "k", None, body()) {
        StoreRoute::Remove { partition, sort_key } => {
            assert_eq!(partition, "VOCAB");
            assert_eq!(sort_key, "WORD#abc");
        }
        _ => panic!("deletion expected"),
    }
    let r: eng_app_backend::http::Reply<StoreBody<u8>> = removed_reply(Ok(()));
    assert_eq!(r.status, 200);
}
