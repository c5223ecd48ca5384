//! Decisions of the article generation and analysis endpoint.
//!
//! A request is answered in up to three steps: [`begin_generate`] checks it
//! and either answers at once or names the next outside call; a news search
//! is followed by [`continue_after_search`]; the model's reply is turned into
//! the answer by [`finish_generate`]. The caller performs the outside calls.

use vstd::prelude::*;
use crate::auth::{api_key_of, key_accepted, validate_api_key};
use crate::http::{
    text_or_empty, unwrap_text, ApiRequest, Method, Reply, INTERNAL_ERROR, INVALID_BODY,
    METHOD_NOT_ALLOWED, UNAUTHORIZED,
};
use crate::news::{all_cuttable, format_news_context, lead_source_url, news_context, TavilyResult};
use crate::payload::{extract_json_payload, json_parse_outcome, json_region};
use crate::prompt::{analyze_prompt, build_analyze_prompt, build_generate_prompt, generate_prompt};
use crate::text::{lowercase, same_text, starts_with, to_lowercase, trim_end_char, without_trailing};

verus! {

/// Where the outside services are reached.
#[derive(Clone, Debug)]
pub struct ApiEndpoints {
    pub tavily_url: String,
    pub gemini_base_url: String,
}

/// Default address of the news search service.
pub const DEFAULT_TAVILY_URL: &'static str = "https://api.tavily.com/search";

/// Default base address of the language model service.
pub const DEFAULT_GEMINI_BASE_URL: &'static str = "https://generativelanguage.googleapis.com";

impl Default for ApiEndpoints {
    fn default() -> (endpoints: Self)
        ensures
            endpoints.tavily_url@ == DEFAULT_TAVILY_URL@,
            endpoints.gemini_base_url@ == DEFAULT_GEMINI_BASE_URL@,
    {
        ApiEndpoints {
            tavily_url: DEFAULT_TAVILY_URL.to_owned(),
            gemini_base_url: DEFAULT_GEMINI_BASE_URL.to_owned(),
        }
    }
}

/// The body of a generation request; every field is optional.
pub struct GenerateRequest {
    pub topic_name: Option<String>,
    pub use_web_search: Option<bool>,
    pub action: Option<String>,
    pub text: Option<String>,
}

/// Keys and addresses the endpoint works with.
pub struct GenerateSettings {
    pub app_api_key: String,
    pub gemini_api_key: String,
    pub tavily_api_key: String,
    pub endpoints: ApiEndpoints,
}

/// The model every prompt is sent to.
pub const MODEL_NAME: &'static str = "gemini-3.5-flash-lite";

/// Action taken when the request names none.
pub const DEFAULT_ACTION: &'static str = "generate";

/// Action that asks for an analysis of a text.
pub const ANALYZE_ACTION: &'static str = "analyze";

/// Placeholder that marks the model key as not configured.
pub const GEMINI_PLACEHOLDER_KEY: &'static str = "CHANGE_ME_GEMINI_KEY";

/// Placeholder that marks the search key as not configured.
pub const TAVILY_PLACEHOLDER_KEY: &'static str = "CHANGE_ME_TAVILY_KEY";

/// Source URL reported by the offline article.
pub const DUMMY_SOURCE_URL: &'static str = "https://example.com/dummy-news-source";

/// Opening of the offline article, up to the quoted topic.
pub const DUMMY_ARTICLE_HEAD: &'static str = "(Dummy Mode) This is a generated test article about '";

/// Closing of the offline article.
pub const DUMMY_ARTICLE_TAIL: &'static str = "'. It does not consume any API tokens.";

/// The fixed offline analysis, as serialized JSON.
pub const DUMMY_ANALYSIS_JSON: &'static str = "{\"keywords\":[{\"example\":\"This is a dummy text.\",\"meaning\":\"ダミーの\",\"part_of_speech\":\"noun\",\"word\":\"dummy\"}],\"segments\":[{\"grammar_note\":\"主語(S)と動詞(V)\",\"id\":1,\"text\":\"This is a dummy\",\"translation\":\"これはダミーです\"},{\"grammar_note\":\"名詞句\",\"id\":2,\"text\":\"analysis result\",\"translation\":\"解析結果です\"}]}";

/// The reply document when the model's answer held no parsable JSON, as
/// serialized JSON.
pub const UNREADABLE_PAYLOAD_JSON: &'static str = "{\"error\":\"Failed to parse AI response\"}";

/// Body text of the reply when the news search fails.
pub const SEARCH_FAILED: &'static str = "Web search failed. Please try again or disable web search.";

/// Body text of the reply when the model service rejects the request.
pub const MODEL_FAILED: &'static str = "Gemini API returned an error";

/// Error of a search attempted without a configured key.
pub const TAVILY_NOT_CONFIGURED: &'static str = "Tavily API key is not configured.";

/// Error of a search that found nothing.
pub const TAVILY_NO_RESULTS: &'static str = "Tavily returned no results.";

/// Number of days of news the search covers.
pub const TAVILY_DAYS: u32 = 3;

/// Number of articles the search returns at most.
pub const TAVILY_MAX_RESULTS: u32 = 3;

/// The body of an answer.
pub enum GenerateBody {
    /// Plain text (errors).
    Text(String),
    /// The fixed offline analysis, [`DUMMY_ANALYSIS_JSON`].
    DummyAnalysis,
    /// The offline article.
    DummyArticle { text: String, source_url: String },
    /// The JSON document the model produced.
    Payload(serde_json::Value),
    /// The model's reply held no parsable JSON document; answered with
    /// [`UNREADABLE_PAYLOAD_JSON`].
    PayloadUnreadable,
}

/// A news search to perform.
pub struct TavilyCall {
    pub url: String,
    /// Value of the `Authorization` header.
    pub authorization: String,
    pub query: String,
    pub topic: String,
    pub days: u32,
    pub max_results: u32,
    pub include_answer: bool,
}

/// A prompt to send to the model.
pub struct GeminiCall {
    pub url: String,
    pub prompt: String,
}

/// What an article request still needs once the news search has answered.
pub struct PendingArticle {
    pub topic_name: String,
    pub gemini_url: String,
}

/// The next step of a request.
pub enum GenerateStep {
    /// Answer now.
    Respond(Reply<GenerateBody>),
    /// Search the news, then continue with [`continue_after_search`].
    Search(TavilyCall, PendingArticle),
    /// Ask the model, then finish with [`finish_generate`].
    Ask(GeminiCall),
}

/// How the news search answered.
pub enum TavilyReply {
    /// A success status with a readable list of results.
    Results(Vec<TavilyResult>),
    /// A success status whose body could not be read; the reader's error.
    Unreadable(String),
    /// A failure status and the body sent with it.
    Status { status: String, body: String },
    /// The request did not get through; the transport error.
    Unreachable(String),
}

/// One part of a candidate answer of the model.
pub struct Part {
    pub text: String,
}

/// The content of a candidate answer.
pub struct Content {
    pub parts: Vec<Part>,
}

/// A candidate answer of the model.
pub struct Candidate {
    pub content: Content,
}

/// The model's answer.
pub struct GeminiResponse {
    pub candidates: Option<Vec<Candidate>>,
}

/// How the model service answered.
pub enum GeminiReply {
    /// A success status with a readable answer.
    Answered(GeminiResponse),
    /// A failure status.
    Rejected,
    /// The request did not get through.
    Unreachable,
}

/// Offline mode: no outside service is called.
pub open spec fn dummy_mode(mock_ai: bool, topic: Seq<char>, gemini_key: Seq<char>) -> bool {
    ||| mock_ai
    ||| "test"@.is_prefix_of(lowercase(topic))
    ||| "dummy"@.is_prefix_of(lowercase(topic))
    ||| gemini_key.len() == 0
    ||| gemini_key == GEMINI_PLACEHOLDER_KEY@
}

/// The action a request asks for.
pub open spec fn action_of(req: GenerateRequest) -> Seq<char> {
    match req.action {
        Some(a) => a@,
        None => DEFAULT_ACTION@,
    }
}

/// The model's address for a base URL and key.
pub open spec fn gemini_url(base: Seq<char>, key: Seq<char>) -> Seq<char> {
    trim_end_char(base, '/') + "/v1beta/models/"@ + MODEL_NAME@ + ":generateContent?key="@ + key
}

/// The offline article about `topic`.
pub open spec fn dummy_article(topic: Seq<char>) -> Seq<char> {
    DUMMY_ARTICLE_HEAD@ + topic + DUMMY_ARTICLE_TAIL@
}

/// A search key is configured: non-empty and not the placeholder.
pub open spec fn tavily_key_configured(key: Seq<char>) -> bool {
    key.len() > 0 && key != TAVILY_PLACEHOLDER_KEY@
}

/// `call` searches `url` with `key` for the latest news on `topic`.
pub open spec fn is_search_for(call: TavilyCall, url: Seq<char>, key: Seq<char>, topic: Seq<char>) -> bool {
    &&& call.url@ == url
    &&& call.authorization@ == "Bearer "@ + key
    &&& call.query@ == topic + " latest news"@
    &&& call.topic@ == "news"@
    &&& call.days == TAVILY_DAYS
    &&& call.max_results == TAVILY_MAX_RESULTS
    &&& !call.include_answer
}

/// `step` answers `status` with the plain text `text`.
pub open spec fn replies_text(step: GenerateStep, status: u16, text: Seq<char>) -> bool {
    &&& step matches GenerateStep::Respond(r)
    &&& r.status == status
    &&& r.body matches GenerateBody::Text(t)
    &&& t@ == text
}

/// `step` sends `prompt` to the model at `url`.
pub open spec fn asks_model(step: GenerateStep, url: Seq<char>, prompt: Seq<char>) -> bool {
    step matches GenerateStep::Ask(c) && c.url@ == url && c.prompt@ == prompt
}

/// The first step for a request, as the endpoint decides it.
pub open spec fn first_step(
    settings: GenerateSettings,
    request: ApiRequest,
    body: Option<GenerateRequest>,
    mock_ai: bool,
    step: GenerateStep,
) -> bool {
    if !key_accepted(api_key_of(request), settings.app_api_key@) {
        replies_text(step, 401, UNAUTHORIZED@)
    } else if request.method != Method::Post {
        replies_text(step, 405, METHOD_NOT_ALLOWED@)
    } else {
        match body {
            None => replies_text(step, 400, INVALID_BODY@),
            Some(req) => {
                let topic = text_or_empty(req.topic_name);
                let url = gemini_url(settings.endpoints.gemini_base_url@, settings.gemini_api_key@);
                if dummy_mode(mock_ai, topic, settings.gemini_api_key@) {
                    if action_of(req) == ANALYZE_ACTION@ {
                        step matches GenerateStep::Respond(r) && r.status == 200
                            && r.body is DummyAnalysis
                    } else {
                        &&& step matches GenerateStep::Respond(r)
                        &&& r.status == 200
                        &&& r.body matches GenerateBody::DummyArticle { text, source_url }
                        &&& text@ == dummy_article(topic)
                        &&& source_url@ == DUMMY_SOURCE_URL@
                    }
                } else if action_of(req) == ANALYZE_ACTION@ {
                    asks_model(step, url, analyze_prompt(text_or_empty(req.text)))
                } else if req.use_web_search == Some(true) {
                    if tavily_key_configured(settings.tavily_api_key@) {
                        step matches GenerateStep::Search(call, pending) && is_search_for(
                            call,
                            settings.endpoints.tavily_url@,
                            settings.tavily_api_key@,
                            topic,
                        ) && pending.topic_name@ == topic && pending.gemini_url@ == url
                    } else {
                        replies_text(step, 503, SEARCH_FAILED@)
                    }
                } else {
                    asks_model(step, url, generate_prompt(topic, None))
                }
            },
        }
    }
}

/// Whether the request runs in offline mode.
pub fn is_dummy_mode(mock_ai: bool, topic_name: &str, gemini_api_key: &str) -> (b: bool)
    ensures
        b == dummy_mode(mock_ai, topic_name@, gemini_api_key@),
{
    let lower = to_lowercase(topic_name);
    mock_ai || starts_with(lower.as_str(), "test") || starts_with(lower.as_str(), "dummy")
        || gemini_api_key.is_empty() || same_text(gemini_api_key, GEMINI_PLACEHOLDER_KEY)
}

/// The model's address.
pub fn gemini_endpoint(base_url: &str, gemini_api_key: &str) -> (url: String)
    ensures
        url@ == gemini_url(base_url@, gemini_api_key@),
{
    let mut url = without_trailing(base_url, '/');
    url.append("/v1beta/models/");
    url.append(MODEL_NAME);
    url.append(":generateContent?key=");
    url.append(gemini_api_key);
    url
}

/// The offline article about `topic_name`.
pub fn dummy_article_text(topic_name: &str) -> (text: String)
    ensures
        text@ == dummy_article(topic_name@),
{
    let mut text = DUMMY_ARTICLE_HEAD.to_owned();
    text.append(topic_name);
    text.append(DUMMY_ARTICLE_TAIL);
    text
}

/// Prepares the news search for `query`, or fails without calling anything
/// when no search key is configured.
pub fn tavily_search_call(tavily_url: &str, tavily_api_key: &str, query: &str) -> (r: Result<
    TavilyCall,
    String,
>)
    ensures
        match r {
            Ok(call) => tavily_key_configured(tavily_api_key@) && is_search_for(
                call,
                tavily_url@,
                tavily_api_key@,
                query@,
            ),
            Err(e) => !tavily_key_configured(tavily_api_key@) && e@ == TAVILY_NOT_CONFIGURED@,
        },
{
    if tavily_api_key.is_empty() || same_text(tavily_api_key, TAVILY_PLACEHOLDER_KEY) {
        return Err(TAVILY_NOT_CONFIGURED.to_owned());
    }
    let mut authorization = "Bearer ".to_owned();
    authorization.append(tavily_api_key);
    let mut q = query.to_owned();
    q.append(" latest news");
    Ok(
        TavilyCall {
            url: tavily_url.to_owned(),
            authorization,
            query: q,
            topic: "news".to_owned(),
            days: TAVILY_DAYS,
            max_results: TAVILY_MAX_RESULTS,
            include_answer: false,
        },
    )
}

/// What the news search's answer means: its results when there are any,
/// otherwise an error message.
pub open spec fn search_outcome_ok(reply: TavilyReply, r: Result<Vec<TavilyResult>, String>) -> bool {
    match reply {
        TavilyReply::Results(rs) => if rs@.len() == 0 {
            r matches Err(e) && e@ == TAVILY_NO_RESULTS@
        } else {
            r matches Ok(v) && v@ == rs@
        },
        TavilyReply::Unreadable(err) => r matches Err(e) && e@ == "Tavily response parse error: "@
            + err@,
        TavilyReply::Status { status, body } => r matches Err(e) && e@ == "Tavily API error ("@
            + status@ + "): "@ + body@,
        TavilyReply::Unreachable(err) => r matches Err(e) && e@ == "Tavily HTTP request failed: "@
            + err@,
    }
}

/// Interprets the news search's answer.
pub fn tavily_search_outcome(reply: TavilyReply) -> (r: Result<Vec<TavilyResult>, String>)
    ensures
        search_outcome_ok(reply, r),
{
    match reply {
        TavilyReply::Results(rs) => {
            if rs.len() == 0 {
                Err(TAVILY_NO_RESULTS.to_owned())
            } else {
                Ok(rs)
            }
        },
        TavilyReply::Unreadable(err) => {
            let mut e = "Tavily response parse error: ".to_owned();
            e.append(err.as_str());
            Err(e)
        },
        TavilyReply::Status { status, body } => {
            let mut e = "Tavily API error (".to_owned();
            e.append(status.as_str());
            e.append("): ");
            e.append(body.as_str());
            Err(e)
        },
        TavilyReply::Unreachable(err) => {
            let mut e = "Tavily HTTP request failed: ".to_owned();
            e.append(err.as_str());
            Err(e)
        },
    }
}

fn respond_text(status: u16, text: &str) -> (step: GenerateStep)
    ensures
        replies_text(step, status, text@),
{
    GenerateStep::Respond(Reply { status, body: GenerateBody::Text(text.to_owned()) })
}

/// Decides the first step for a request. `body` is the request body read as
/// a [`GenerateRequest`] (`None` when it does not parse); `mock_ai` tells
/// whether offline mode is forced by the environment.
pub fn begin_generate(
    settings: &GenerateSettings,
    request: &ApiRequest,
    body: Option<GenerateRequest>,
    mock_ai: bool,
) -> (step: GenerateStep)
    ensures
        first_step(*settings, *request, body, mock_ai, step),
        step is Search ==> (body matches Some(req) && req.use_web_search == Some(true)),
        step matches GenerateStep::Ask(c) ==> c.url@ == gemini_url(
            settings.endpoints.gemini_base_url@,
            settings.gemini_api_key@,
        ),
        step matches GenerateStep::Search(_, p) ==> p.gemini_url@ == gemini_url(
            settings.endpoints.gemini_base_url@,
            settings.gemini_api_key@,
        ),
        (body matches Some(req) && dummy_mode(
            mock_ai,
            text_or_empty(req.topic_name),
            settings.gemini_api_key@,
        )) ==> step is Respond,
{
    if !validate_api_key(request, settings.app_api_key.as_str()) {
        return respond_text(401, UNAUTHORIZED);
    }
    match request.method {
        Method::Post => {},
        _ => {
            return respond_text(405, METHOD_NOT_ALLOWED);
        },
    }
    let req = match body {
        Some(req) => req,
        None => {
            return respond_text(400, INVALID_BODY);
        },
    };
    let ghost spec_req = req;
    let GenerateRequest { topic_name, use_web_search, action, text } = req;
    let topic_name = unwrap_text(topic_name);
    let analyze = match &action {
        Some(a) => same_text(a.as_str(), ANALYZE_ACTION),
        None => same_text(DEFAULT_ACTION, ANALYZE_ACTION),
    };
    assert(analyze == (action_of(spec_req) == ANALYZE_ACTION@));
    if is_dummy_mode(mock_ai, topic_name.as_str(), settings.gemini_api_key.as_str()) {
        let body = if analyze {
            GenerateBody::DummyAnalysis
        } else {
            GenerateBody::DummyArticle {
                text: dummy_article_text(topic_name.as_str()),
                source_url: DUMMY_SOURCE_URL.to_owned(),
            }
        };
        return GenerateStep::Respond(Reply { status: 200, body });
    }
    let url = gemini_endpoint(
        settings.endpoints.gemini_base_url.as_str(),
        settings.gemini_api_key.as_str(),
    );
    if analyze {
        let text = unwrap_text(text);
        let prompt = build_analyze_prompt(text.as_str());
        return GenerateStep::Ask(GeminiCall { url, prompt });
    }
    let web = match use_web_search {
        Some(b) => b,
        None => false,
    };
    if web {
        match tavily_search_call(
            settings.endpoints.tavily_url.as_str(),
            settings.tavily_api_key.as_str(),
            topic_name.as_str(),
        ) {
            Ok(call) => GenerateStep::Search(call, PendingArticle { topic_name, gemini_url: url }),
            Err(_) => respond_text(503, SEARCH_FAILED),
        }
    } else {
        let prompt = build_generate_prompt(topic_name.as_str(), None, None);
        GenerateStep::Ask(GeminiCall { url, prompt })
    }
}

/// Continues an article request once the news search has answered: a
/// failed search is answered with 503, otherwise the results become the
/// prompt's news context.
pub fn continue_after_search(pending: PendingArticle, found: Result<Vec<TavilyResult>, String>) -> (step: GenerateStep)
    requires
        found matches Ok(rs) ==> all_cuttable(rs@),
    ensures
        match found {
            Ok(rs) => asks_model(
                step,
                pending.gemini_url@,
                generate_prompt(
                    pending.topic_name@,
                    Some((news_context(rs@), lead_source_url(rs@))),
                ),
            ),
            Err(_) => replies_text(step, 503, SEARCH_FAILED@),
        },
{
    match found {
        Ok(rs) => {
            let (context, source_url) = format_news_context(rs.as_slice());
            let prompt = build_generate_prompt(
                pending.topic_name.as_str(),
                Some(context.as_str()),
                Some(source_url.as_str()),
            );
            GenerateStep::Ask(GeminiCall { url: pending.gemini_url, prompt })
        },
        Err(_) => respond_text(503, SEARCH_FAILED),
    }
}

/// The text of the model's answer: the first part of the first candidate,
/// or `{}` when there is none.
pub open spec fn answer_text(resp: GeminiResponse) -> Seq<char> {
    match resp.candidates {
        Some(cs) => if cs@.len() > 0 && cs@[0].content.parts@.len() > 0 {
            cs@[0].content.parts@[0].text@
        } else {
            "{}"@
        },
        None => "{}"@,
    }
}

/// Returns [`answer_text`] of `resp`.
pub fn generated_text(resp: &GeminiResponse) -> (text: String)
    ensures
        text@ == answer_text(*resp),
{
    match &resp.candidates {
        Some(cs) => {
            if cs.len() > 0 && cs[0].content.parts.len() > 0 {
                cs[0].content.parts[0].text.clone()
            } else {
                "{}".to_owned()
            }
        },
        None => "{}".to_owned(),
    }
}

/// Turns the model service's answer into the reply: the JSON document found
/// in the model's text (or a marker that none parsed) with status 200, or 500
/// when the service failed.
pub fn finish_generate(reply: GeminiReply) -> (r: Reply<GenerateBody>)
    ensures
        match reply {
            GeminiReply::Answered(resp) => r.status == 200 && match json_parse_outcome(
                json_region(answer_text(resp)),
            ) {
                Ok(v) => r.body == GenerateBody::Payload(v),
                Err(_) => r.body is PayloadUnreadable,
            },
            GeminiReply::Rejected => r.status == 500 && (r.body matches GenerateBody::Text(t)
                && t@ == MODEL_FAILED@),
            GeminiReply::Unreachable => r.status == 500 && (r.body matches GenerateBody::Text(t)
                && t@ == INTERNAL_ERROR@),
        },
{
    match reply {
        GeminiReply::Answered(resp) => {
            let text = generated_text(&resp);
            let body = match extract_json_payload(text.as_str()) {
                Ok(v) => GenerateBody::Payload(v),
                Err(_) => GenerateBody::PayloadUnreadable,
            };
            Reply { status: 200, body }
        },
        GeminiReply::Rejected => Reply { status: 500, body: GenerateBody::Text(MODEL_FAILED.to_owned()) },
        GeminiReply::Unreachable => Reply {
            status: 500,
            body: GenerateBody::Text(INTERNAL_ERROR.to_owned()),
        },
    }
}

/// Every model call a request leads to goes to the configured base URL
/// with the model's own key, whatever the action; the client's key is never
/// sent to the model.
pub proof fn lemma_model_called_with_model_key(
    settings: GenerateSettings,
    request: ApiRequest,
    body: Option<GenerateRequest>,
    mock_ai: bool,
    step: GenerateStep,
)
    requires
        first_step(settings, request, body, mock_ai, step),
    ensures
        step matches GenerateStep::Ask(c) ==> c.url@ == trim_end_char(
            settings.endpoints.gemini_base_url@,
            '/',
        ) + "/v1beta/models/gemini-3.5-flash-lite:generateContent?key="@
            + settings.gemini_api_key@,
        step matches GenerateStep::Search(_, p) ==> p.gemini_url@ == trim_end_char(
            settings.endpoints.gemini_base_url@,
            '/',
        ) + "/v1beta/models/gemini-3.5-flash-lite:generateContent?key="@
            + settings.gemini_api_key@,
{
    reveal_strlit("/v1beta/models/");
    reveal_strlit("gemini-3.5-flash-lite");
    reveal_strlit(":generateContent?key=");
    reveal_strlit("/v1beta/models/gemini-3.5-flash-lite:generateContent?key=");
    let base = trim_end_char(settings.endpoints.gemini_base_url@, '/');
    assert("/v1beta/models/"@ + MODEL_NAME@ + ":generateContent?key="@
        == "/v1beta/models/gemini-3.5-flash-lite:generateContent?key="@);
    assert(gemini_url(settings.endpoints.gemini_base_url@, settings.gemini_api_key@) == base + (
    "/v1beta/models/"@ + MODEL_NAME@ + ":generateContent?key="@) + settings.gemini_api_key@);
}

/// How a request is answered before any outside call: 401 without the key,
/// 405 for another method, 400 for an unreadable body, 200 in offline mode;
/// the model or the search is reached only past all of these.
pub proof fn lemma_first_step_answers(
    settings: GenerateSettings,
    request: ApiRequest,
    body: Option<GenerateRequest>,
    mock_ai: bool,
    step: GenerateStep,
)
    requires
        first_step(settings, request, body, mock_ai, step),
    ensures
        !key_accepted(api_key_of(request), settings.app_api_key@) ==> (step matches GenerateStep::Respond(r)
            && r.status == 401),
        key_accepted(api_key_of(request), settings.app_api_key@) && request.method != Method::Post
            ==> (step matches GenerateStep::Respond(r) && r.status == 405),
        key_accepted(api_key_of(request), settings.app_api_key@) && request.method == Method::Post
            && body is None ==> (step matches GenerateStep::Respond(r) && r.status == 400),
        key_accepted(api_key_of(request), settings.app_api_key@) && request.method == Method::Post
            && (body matches Some(req) && dummy_mode(
            mock_ai,
            text_or_empty(req.topic_name),
            settings.gemini_api_key@,
        )) ==> (step matches GenerateStep::Respond(r) && r.status == 200),
        !(step is Respond) ==> key_accepted(api_key_of(request), settings.app_api_key@)
            && request.method == Method::Post && (body matches Some(req) && !dummy_mode(
            mock_ai,
            text_or_empty(req.topic_name),
            settings.gemini_api_key@,
        )),
{
}

} // verus!
