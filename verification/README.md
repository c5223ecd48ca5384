# eng_app_backend

Backend of an English-learning service: it generates business English
articles with a language model (optionally grounded in a news search),
analyses texts, and keeps topics and vocabulary in a key-value table.

- `src/` is the verified library (Verus): prompt construction, the news
  context with its byte-limited excerpts, extraction of the model's JSON
  document, API-key checks and secret lookup, and the decisions of the three
  HTTP endpoints, each written as steps that name the next outside call.
- `app/` holds the Lambda functions that read requests and secrets, perform
  the outside calls (model, news search, table, parameter store) and render
  the library's replies.
- `tests/` exercises the library on concrete values.
