//! Decisions of the topic and vocabulary endpoints, which keep their records
//! in one key-value table: a partition key per collection and a sort key made
//! of a prefix and the record's id.
//!
//! [`route_topics`] and [`route_vocabulary`] decide what a request asks of
//! the table; the caller performs that call and hands its outcome to
//! [`listed_topics_reply`], [`listed_vocabulary_reply`], [`created_reply`] or
//! [`removed_reply`].

use vstd::prelude::*;
use crate::auth::{api_key_of, key_accepted, validate_api_key};
use crate::http::{ApiRequest, Method, Reply, INTERNAL_ERROR, INVALID_BODY, METHOD_NOT_ALLOWED, UNAUTHORIZED};
use crate::text::{chars_of, last_index, lemma_last_index, rfind_char, push_char, push_range, same_text};

verus! {

/// Name of the table that holds both collections.
pub const TABLE_NAME: &'static str = "eng-app-table";

/// Attribute that holds an item's partition key.
pub const PARTITION_ATTRIBUTE: &'static str = "PK";

/// Attribute that holds an item's sort key.
pub const SORT_ATTRIBUTE: &'static str = "SK";

/// Condition of a listing: the partition key equals [`PARTITION_PLACEHOLDER`].
pub const PARTITION_CONDITION: &'static str = "PK = :pk";

/// Placeholder of the partition key in [`PARTITION_CONDITION`].
pub const PARTITION_PLACEHOLDER: &'static str = ":pk";

/// Body text of a delete request that names no record.
pub const MISSING_ID: &'static str = "Missing 'id' parameter";

/// The two collections of the table.
#[derive(Clone, Copy, Debug, PartialEq, Eq, Structural)]
pub enum Collection {
    Topics,
    Vocabulary,
}

impl Collection {
    /// The partition key of the collection's records.
    pub open spec fn partition_spec(self) -> Seq<char> {
        match self {
            Collection::Topics => "TOPIC"@,
            Collection::Vocabulary => "VOCAB"@,
        }
    }

    /// The prefix of the sort keys, in front of the record's id.
    pub open spec fn prefix_spec(self) -> Seq<char> {
        match self {
            Collection::Topics => "TOPIC#"@,
            Collection::Vocabulary => "WORD#"@,
        }
    }

    /// The last path segment of the collection's endpoint.
    pub open spec fn segment_spec(self) -> Seq<char> {
        match self {
            Collection::Topics => "topics"@,
            Collection::Vocabulary => "vocabulary"@,
        }
    }

    /// See [`Collection::partition_spec`].
    pub fn partition_key(self) -> (r: &'static str)
        ensures
            r@ == self.partition_spec(),
    {
        match self {
            Collection::Topics => "TOPIC",
            Collection::Vocabulary => "VOCAB",
        }
    }

    /// See [`Collection::prefix_spec`].
    pub fn sort_prefix(self) -> (r: &'static str)
        ensures
            r@ == self.prefix_spec(),
    {
        match self {
            Collection::Topics => "TOPIC#",
            Collection::Vocabulary => "WORD#",
        }
    }

    /// See [`Collection::segment_spec`].
    pub fn path_segment(self) -> (r: &'static str)
        ensures
            r@ == self.segment_spec(),
    {
        match self {
            Collection::Topics => "topics",
            Collection::Vocabulary => "vocabulary",
        }
    }
}

/// Body of a request that creates a topic.
pub struct TopicRequest {
    pub name: String,
}

/// A stored topic.
pub struct Topic {
    pub id: String,
    pub name: String,
    pub created_at: String,
}

/// Body of a request that deletes the record `id`.
pub struct DeleteRequest {
    pub id: String,
}

/// Body of a request that adds a word.
pub struct VocabularyRequest {
    pub word: String,
    pub translation: String,
}

/// A stored word.
pub struct Vocabulary {
    pub id: String,
    pub word: String,
    pub translation: String,
    pub created_at: String,
}

/// The string attributes of a stored item, as name and value.
pub struct StoredItem {
    pub attributes: Vec<(String, String)>,
}

/// The attributes of `item` as character sequences.
pub open spec fn attrs_of(item: StoredItem) -> Seq<(Seq<char>, Seq<char>)> {
    item.attributes@.map_values(|a: (String, String)| (a.0@, a.1@))
}

/// The value of the first attribute called `name`.
pub open spec fn lookup(attrs: Seq<(Seq<char>, Seq<char>)>, name: Seq<char>) -> Option<Seq<char>>
    decreases attrs.len(),
{
    if attrs.len() == 0 {
        None
    } else if attrs[0].0 == name {
        Some(attrs[0].1)
    } else {
        lookup(attrs.drop_first(), name)
    }
}

/// `s` with every occurrence of `pat` removed, scanning from the left, as
/// `str::replace(pat, "")` gives it.
pub open spec fn remove_all(s: Seq<char>, pat: Seq<char>) -> Seq<char>
    decreases s.len(),
{
    if pat.len() == 0 || s.len() < pat.len() {
        s
    } else if pat.is_prefix_of(s) {
        remove_all(s.skip(pat.len() as int), pat)
    } else {
        seq![s[0]] + remove_all(s.drop_first(), pat)
    }
}

/// The sort key of the record `id` of `collection`.
pub open spec fn sort_key_of(collection: Collection, id: Seq<char>) -> Seq<char> {
    collection.prefix_spec() + id
}

/// The id read back from a sort key.
pub open spec fn id_of_sort_key(collection: Collection, sort_key: Seq<char>) -> Seq<char> {
    remove_all(sort_key, collection.prefix_spec())
}

/// The path segment after the last `/`.
pub open spec fn last_segment(path: Seq<char>) -> Seq<char> {
    path.skip(last_index(path, '/') + 1)
}

/// The record a delete request names: the `id` path parameter, or else the
/// last path segment when it is neither empty nor the collection's own, or
/// else the `id` of the request body.
pub open spec fn delete_id(
    collection: Collection,
    path_id: Option<Seq<char>>,
    path: Seq<char>,
    body_id: Option<Seq<char>>,
) -> Option<Seq<char>> {
    match path_id {
        Some(id) => Some(id),
        None => {
            let seg = last_segment(path);
            if seg.len() > 0 && seg != collection.segment_spec() {
                Some(seg)
            } else {
                body_id
            }
        },
    }
}

/// The optional text `s` as a character sequence.
pub open spec fn opt_view(s: Option<String>) -> Option<Seq<char>> {
    match s {
        Some(t) => Some(t@),
        None => None,
    }
}

/// The `id` of a delete request's body.
pub open spec fn body_id_of(body: Option<DeleteRequest>) -> Option<Seq<char>> {
    match body {
        Some(d) => Some(d.id@),
        None => None,
    }
}

/// The `id` path parameter of `request`.
pub open spec fn path_id_of(request: ApiRequest) -> Option<Seq<char>> {
    match request.path_id {
        Some(id) => Some(id@),
        None => None,
    }
}

/// What a request asks of the table.
pub enum StoreRoute<P> {
    /// Answer at once with a status and a text.
    Respond(Reply<String>),
    /// Read all records of the partition.
    List { partition: String },
    /// Create a record from the parsed body.
    Create(P),
    /// Delete the record with this key.
    Remove { partition: String, sort_key: String },
}

/// The body of an answer after a table call.
pub enum StoreBody<R> {
    Empty,
    Text(String),
    Record(R),
    Records(Vec<R>),
}

/// `route` answers `status` with the text `text`.
pub open spec fn routes_text<P>(route: StoreRoute<P>, status: u16, text: Seq<char>) -> bool {
    route matches StoreRoute::Respond(r) && r.status == status && r.body@ == text
}

/// The route of an authorized request to `collection`.
pub open spec fn collection_route<P>(
    collection: Collection,
    request: ApiRequest,
    payload: Option<P>,
    delete_body: Option<DeleteRequest>,
    route: StoreRoute<P>,
) -> bool {
    match request.method {
        Method::Get => route matches StoreRoute::List { partition } && partition@
            == collection.partition_spec(),
        Method::Post => match payload {
            Some(p) => route matches StoreRoute::Create(q) && q == p,
            None => routes_text(route, 400, INVALID_BODY@),
        },
        Method::Delete => match delete_id(
            collection,
            path_id_of(request),
            request.path@,
            body_id_of(delete_body),
        ) {
            Some(id) => {
                &&& route matches StoreRoute::Remove { partition, sort_key }
                &&& partition@ == collection.partition_spec()
                &&& sort_key@ == sort_key_of(collection, id)
            },
            None => routes_text(route, 400, MISSING_ID@),
        },
        Method::Other => routes_text(route, 405, METHOD_NOT_ALLOWED@),
    }
}

/// Builds the sort key of the record `id`.
pub fn sort_key(collection: Collection, id: &str) -> (key: String)
    ensures
        key@ == sort_key_of(collection, id@),
{
    let mut key = collection.sort_prefix().to_owned();
    key.append(id);
    key
}

/// Whether `pat` occurs in `v` at position `i`.
fn occurs_at(v: &Vec<char>, i: usize, pat: &Vec<char>) -> (b: bool)
    requires
        i <= v.len(),
    ensures
        b == pat@.is_prefix_of(v@.skip(i as int)),
{
    if pat.len() > v.len() - i {
        return false;
    }
    for j in 0..pat.len()
        invariant
            i + pat.len() <= v.len(),
            forall|k: int| 0 <= k < j ==> pat@[k] == v@[i + k],
    {
        if pat[j] != v[i + j] {
            assert(v@.skip(i as int).subrange(0, pat@.len() as int)[j as int] == v@[i + j]);
            return false;
        }
    }
    assert(pat@ == v@.skip(i as int).subrange(0, pat@.len() as int));
    true
}

/// Reads the id back from a sort key by removing every occurrence of the
/// collection's prefix.
pub fn id_from_sort_key(collection: Collection, sort_key: &str) -> (id: String)
    ensures
        id@ == id_of_sort_key(collection, sort_key@),
{
    let v = chars_of(sort_key);
    let pat = chars_of(collection.sort_prefix());
    let ghost p = collection.prefix_spec();
    proof {
        reveal_strlit("TOPIC#");
        reveal_strlit("WORD#");
    }
    let mut id = String::new();
    let mut i: usize = 0;
    assert(v@.skip(0) == v@);
    while i < v.len()
        invariant
            i <= v.len(),
            pat@ == p,
            p.len() > 0,
            v@ == sort_key@,
            remove_all(v@, p) == id@ + remove_all(v@.skip(i as int), p),
        decreases v.len() - i,
    {
        let ghost rest = v@.skip(i as int);
        if occurs_at(&v, i, &pat) {
            assert(rest.skip(p.len() as int) == v@.skip(i + p.len()));
            i = i + pat.len();
        } else {
            assert(rest.drop_first() == v@.skip(i + 1));
            assert(rest[0] == v@[i as int]);
            push_char(&mut id, v[i]);
            i = i + 1;
        }
    }
    id
}

/// Finds the record named by a delete request, as [`delete_id`] describes.
pub fn delete_target_id(
    collection: Collection,
    path_id: Option<String>,
    path: &str,
    body_id: Option<String>,
) -> (id: Option<String>)
    ensures
        opt_view(id) == delete_id(collection, opt_view(path_id), path@, opt_view(body_id)),
{
    match path_id {
        Some(p) => Some(p),
        None => {
            let v = chars_of(path);
            assert(v@.subrange(0, v@.len() as int) == v@);
            proof {
                lemma_last_index(v@, '/');
            }
            let start = match rfind_char(&v, 0, v.len(), '/') {
                Some(k) => k + 1,
                None => 0,
            };
            assert(v@.subrange(0, v@.len() as int) == v@);
            let mut seg = String::new();
            push_range(&mut seg, &v, start, v.len());
            assert(v@.subrange(start as int, v@.len() as int) == last_segment(path@));
            if !seg.as_str().is_empty() && !same_text(seg.as_str(), collection.path_segment()) {
                Some(seg)
            } else {
                body_id
            }
        },
    }
}

fn route_text<P>(status: u16, text: &str) -> (route: StoreRoute<P>)
    ensures
        routes_text(route, status, text@),
{
    StoreRoute::Respond(Reply { status, body: text.to_owned() })
}

/// Routes an authorized request to `collection`; `payload` and
/// `delete_body` are the request body read as the collection's creation
/// request and as a delete request (`None` when it does not parse so).
pub fn route_collection<P>(
    collection: Collection,
    request: &ApiRequest,
    payload: Option<P>,
    delete_body: Option<DeleteRequest>,
) -> (route: StoreRoute<P>)
    ensures
        collection_route(collection, *request, payload, delete_body, route),
{
    match request.method {
        Method::Get => StoreRoute::List { partition: collection.partition_key().to_owned() },
        Method::Post => match payload {
            Some(p) => StoreRoute::Create(p),
            None => route_text(400, INVALID_BODY),
        },
        Method::Delete => {
            let path_id = match &request.path_id {
                Some(p) => Some(p.clone()),
                None => None,
            };
            let body_id = match delete_body {
                Some(d) => Some(d.id),
                None => None,
            };
            match delete_target_id(collection, path_id, request.path.as_str(), body_id) {
                Some(id) => StoreRoute::Remove {
                    partition: collection.partition_key().to_owned(),
                    sort_key: sort_key(collection, id.as_str()),
                },
                None => route_text(400, MISSING_ID),
            }
        },
        Method::Other => route_text(405, METHOD_NOT_ALLOWED),
    }
}

/// Routes a request to the topic endpoint, which asks for no key.
pub fn route_topics(
    request: &ApiRequest,
    payload: Option<TopicRequest>,
    delete_body: Option<DeleteRequest>,
) -> (route: StoreRoute<TopicRequest>)
    ensures
        collection_route(Collection::Topics, *request, payload, delete_body, route),
        request.method == Method::Get ==> (route matches StoreRoute::List { partition }
            && partition@ == "TOPIC"@),
{
    proof {
        reveal_strlit("TOPIC");
    }
    route_collection(Collection::Topics, request, payload, delete_body)
}

/// Routes a request to the vocabulary endpoint: without the configured key
/// it is answered 401 before anything else.
pub fn route_vocabulary(
    request: &ApiRequest,
    api_key: &str,
    payload: Option<VocabularyRequest>,
    delete_body: Option<DeleteRequest>,
) -> (route: StoreRoute<VocabularyRequest>)
    ensures
        !key_accepted(api_key_of(*request), api_key@) ==> routes_text(route, 401, UNAUTHORIZED@),
        key_accepted(api_key_of(*request), api_key@) && request.method == Method::Get ==> (
        route matches StoreRoute::List { partition } && partition@ == "VOCAB"@),
        key_accepted(api_key_of(*request), api_key@) ==> collection_route(
            Collection::Vocabulary,
            *request,
            payload,
            delete_body,
            route,
        ),
{
    if !validate_api_key(request, api_key) {
        return route_text(401, UNAUTHORIZED);
    }
    proof {
        reveal_strlit("VOCAB");
    }
    route_collection(Collection::Vocabulary, request, payload, delete_body)
}

/// The value of the first attribute of `item` called `name`.
pub fn attribute(item: &StoredItem, name: &str) -> (r: Option<String>)
    ensures
        match r {
            Some(v) => lookup(attrs_of(*item), name@) == Some(v@),
            None => lookup(attrs_of(*item), name@) is None,
        },
{
    let ghost attrs = attrs_of(*item);
    assert(attrs.skip(0) == attrs);
    for i in 0..item.attributes.len()
        invariant
            attrs == attrs_of(*item),
            lookup(attrs, name@) == lookup(attrs.skip(i as int), name@),
    {
        let ghost rest = attrs.skip(i as int);
        assert(rest[0] == (item.attributes@[i as int].0@, item.attributes@[i as int].1@));
        if same_text(item.attributes[i].0.as_str(), name) {
            return Some(item.attributes[i].1.clone());
        }
        assert(rest.drop_first() == attrs.skip(i + 1));
    }
    assert(attrs.skip(attrs.len() as int).len() == 0);
    None
}

/// A topic as its id, name and creation time.
pub open spec fn topic_view(t: Topic) -> (Seq<char>, Seq<char>, Seq<char>) {
    (t.id@, t.name@, t.created_at@)
}

/// A word as its id, word, translation and creation time.
pub open spec fn vocabulary_view(v: Vocabulary) -> (Seq<char>, Seq<char>, Seq<char>, Seq<char>) {
    (v.id@, v.word@, v.translation@, v.created_at@)
}

/// The topic an item holds, when it has a sort key, a name and a creation
/// time.
pub open spec fn topic_of(attrs: Seq<(Seq<char>, Seq<char>)>) -> Option<(Seq<char>, Seq<char>, Seq<char>)> {
    match (lookup(attrs, SORT_ATTRIBUTE@), lookup(attrs, "name"@), lookup(attrs, "created_at"@)) {
        (Some(sk), Some(name), Some(created_at)) => Some(
            (id_of_sort_key(Collection::Topics, sk), name, created_at),
        ),
        _ => None,
    }
}

/// The word an item holds, when it has a sort key, a word, a translation
/// and a creation time.
pub open spec fn vocabulary_of(attrs: Seq<(Seq<char>, Seq<char>)>) -> Option<
    (Seq<char>, Seq<char>, Seq<char>, Seq<char>),
> {
    match (
        lookup(attrs, SORT_ATTRIBUTE@),
        lookup(attrs, "word"@),
        lookup(attrs, "translation"@),
        lookup(attrs, "created_at"@),
    ) {
        (Some(sk), Some(word), Some(translation), Some(created_at)) => Some(
            (id_of_sort_key(Collection::Vocabulary, sk), word, translation, created_at),
        ),
        _ => None,
    }
}

/// The topics held by `items`, in order; items that hold none are skipped.
pub open spec fn topics_listed(items: Seq<StoredItem>) -> Seq<(Seq<char>, Seq<char>, Seq<char>)>
    decreases items.len(),
{
    if items.len() == 0 {
        Seq::empty()
    } else {
        let rest = topics_listed(items.drop_last());
        match topic_of(attrs_of(items.last())) {
            Some(t) => rest.push(t),
            None => rest,
        }
    }
}

/// The words held by `items`, in order; items that hold none are skipped.
pub open spec fn vocabulary_listed(items: Seq<StoredItem>) -> Seq<
    (Seq<char>, Seq<char>, Seq<char>, Seq<char>),
>
    decreases items.len(),
{
    if items.len() == 0 {
        Seq::empty()
    } else {
        let rest = vocabulary_listed(items.drop_last());
        match vocabulary_of(attrs_of(items.last())) {
            Some(v) => rest.push(v),
            None => rest,
        }
    }
}

/// Reads the topic an item holds.
pub fn topic_from_item(item: &StoredItem) -> (t: Option<Topic>)
    ensures
        match t {
            Some(t) => topic_of(attrs_of(*item)) == Some(topic_view(t)),
            None => topic_of(attrs_of(*item)) is None,
        },
{
    let sk = attribute(item, SORT_ATTRIBUTE);
    let name = attribute(item, "name");
    let created_at = attribute(item, "created_at");
    match (sk, name, created_at) {
        (Some(sk), Some(name), Some(created_at)) => Some(
            Topic { id: id_from_sort_key(Collection::Topics, sk.as_str()), name, created_at },
        ),
        _ => None,
    }
}

/// Reads the word an item holds.
pub fn vocabulary_from_item(item: &StoredItem) -> (v: Option<Vocabulary>)
    ensures
        match v {
            Some(v) => vocabulary_of(attrs_of(*item)) == Some(vocabulary_view(v)),
            None => vocabulary_of(attrs_of(*item)) is None,
        },
{
    let sk = attribute(item, SORT_ATTRIBUTE);
    let word = attribute(item, "word");
    let translation = attribute(item, "translation");
    let created_at = attribute(item, "created_at");
    match (sk, word, translation, created_at) {
        (Some(sk), Some(word), Some(translation), Some(created_at)) => Some(
            Vocabulary {
                id: id_from_sort_key(Collection::Vocabulary, sk.as_str()),
                word,
                translation,
                created_at,
            },
        ),
        _ => None,
    }
}

/// Reads the topics of a listing.
pub fn topics_from_items(items: &Vec<StoredItem>) -> (topics: Vec<Topic>)
    ensures
        topics@.map_values(|t: Topic| topic_view(t)) == topics_listed(items@),
{
    let mut topics: Vec<Topic> = Vec::new();
    assert(items@.take(0) == Seq::<StoredItem>::empty());
    for i in 0..items.len()
        invariant
            topics@.map_values(|t: Topic| topic_view(t)) == topics_listed(items@.take(i as int)),
    {
        assert(items@.take(i + 1).drop_last() == items@.take(i as int));
        assert(items@.take(i + 1).last() == items@[i as int]);
        let ghost before = topics@;
        match topic_from_item(&items[i]) {
            Some(t) => {
                topics.push(t);
                assert(topics@.map_values(|t: Topic| topic_view(t)) == before.map_values(
                    |t: Topic| topic_view(t),
                ).push(topic_view(topics@.last())));
            },
            None => {},
        }
    }
    assert(items@.take(items@.len() as int) == items@);
    topics
}

/// Reads the words of a listing.
pub fn vocabulary_from_items(items: &Vec<StoredItem>) -> (words: Vec<Vocabulary>)
    ensures
        words@.map_values(|v: Vocabulary| vocabulary_view(v)) == vocabulary_listed(items@),
{
    let mut words: Vec<Vocabulary> = Vec::new();
    assert(items@.take(0) == Seq::<StoredItem>::empty());
    for i in 0..items.len()
        invariant
            words@.map_values(|v: Vocabulary| vocabulary_view(v)) == vocabulary_listed(
                items@.take(i as int),
            ),
    {
        assert(items@.take(i + 1).drop_last() == items@.take(i as int));
        assert(items@.take(i + 1).last() == items@[i as int]);
        let ghost before = words@;
        match vocabulary_from_item(&items[i]) {
            Some(v) => {
                words.push(v);
                assert(words@.map_values(|v: Vocabulary| vocabulary_view(v)) == before.map_values(
                    |v: Vocabulary| vocabulary_view(v),
                ).push(vocabulary_view(words@.last())));
            },
            None => {},
        }
    }
    assert(items@.take(items@.len() as int) == items@);
    words
}

/// The attributes written for a new topic.
pub open spec fn topic_attrs(id: Seq<char>, name: Seq<char>, created_at: Seq<char>) -> Seq<
    (Seq<char>, Seq<char>),
> {
    seq![
        (PARTITION_ATTRIBUTE@, Collection::Topics.partition_spec()),
        (SORT_ATTRIBUTE@, sort_key_of(Collection::Topics, id)),
        ("name"@, name),
        ("created_at"@, created_at),
    ]
}

/// The attributes written for a new word.
pub open spec fn vocabulary_attrs(
    id: Seq<char>,
    word: Seq<char>,
    translation: Seq<char>,
    created_at: Seq<char>,
) -> Seq<(Seq<char>, Seq<char>)> {
    seq![
        (PARTITION_ATTRIBUTE@, Collection::Vocabulary.partition_spec()),
        (SORT_ATTRIBUTE@, sort_key_of(Collection::Vocabulary, id)),
        ("word"@, word),
        ("translation"@, translation),
        ("created_at"@, created_at),
    ]
}

fn pair(name: &str, value: String) -> (a: (String, String))
    ensures
        a.0@ == name@,
        a.1@ == value@,
{
    (name.to_owned(), value)
}

/// The item to store for a new topic with the given id and creation time,
/// and the topic it holds.
pub fn new_topic(req: TopicRequest, id: String, created_at: String) -> (r: (StoredItem, Topic))
    ensures
        attrs_of(r.0) == topic_attrs(id@, req.name@, created_at@),
        topic_view(r.1) == (id@, req.name@, created_at@),
        lookup(attrs_of(r.0), "PK"@) == Some("TOPIC"@),
        lookup(attrs_of(r.0), "SK"@) == Some("TOPIC#"@ + id@),
{
    proof {
        lemma_topic_item_keys(id@, req.name@, created_at@);
    }
    let mut attributes: Vec<(String, String)> = Vec::new();
    attributes.push(pair(PARTITION_ATTRIBUTE, Collection::Topics.partition_key().to_owned()));
    attributes.push(pair(SORT_ATTRIBUTE, sort_key(Collection::Topics, id.as_str())));
    attributes.push(pair("name", req.name.clone()));
    attributes.push(pair("created_at", created_at.clone()));
    let item = StoredItem { attributes };
    assert(attrs_of(item) == topic_attrs(id@, req.name@, created_at@));
    (item, Topic { id, name: req.name, created_at })
}

/// The item to store for a new word with the given id and creation time,
/// and the word it holds.
pub fn new_vocabulary(req: VocabularyRequest, id: String, created_at: String) -> (r: (
    StoredItem,
    Vocabulary,
))
    ensures
        attrs_of(r.0) == vocabulary_attrs(id@, req.word@, req.translation@, created_at@),
        vocabulary_view(r.1) == (id@, req.word@, req.translation@, created_at@),
        lookup(attrs_of(r.0), "PK"@) == Some("VOCAB"@),
        lookup(attrs_of(r.0), "SK"@) == Some("WORD#"@ + id@),
{
    proof {
        lemma_vocabulary_item_keys(id@, req.word@, req.translation@, created_at@);
    }
    let mut attributes: Vec<(String, String)> = Vec::new();
    attributes.push(pair(PARTITION_ATTRIBUTE, Collection::Vocabulary.partition_key().to_owned()));
    attributes.push(pair(SORT_ATTRIBUTE, sort_key(Collection::Vocabulary, id.as_str())));
    attributes.push(pair("word", req.word.clone()));
    attributes.push(pair("translation", req.translation.clone()));
    attributes.push(pair("created_at", created_at.clone()));
    let item = StoredItem { attributes };
    assert(attrs_of(item) == vocabulary_attrs(id@, req.word@, req.translation@, created_at@));
    (item, Vocabulary { id, word: req.word, translation: req.translation, created_at })
}

/// `r` answers 500 with the internal-error text.
pub open spec fn is_internal_error<R>(r: Reply<StoreBody<R>>) -> bool {
    r.status == 500 && (r.body matches StoreBody::Text(t) && t@ == INTERNAL_ERROR@)
}

fn internal_error<R>() -> (r: Reply<StoreBody<R>>)
    ensures
        is_internal_error(r),
{
    Reply { status: 500, body: StoreBody::Text(INTERNAL_ERROR.to_owned()) }
}

/// The answer to a topic listing: the topics found (none when the table
/// returned no item list), or 500 when the table call failed.
pub fn listed_topics_reply(outcome: Result<Option<Vec<StoredItem>>, ()>) -> (r: Reply<
    StoreBody<Topic>,
>)
    ensures
        match outcome {
            Ok(items) => r.status == 200 && (r.body matches StoreBody::Records(ts) && ts@.map_values(
                |t: Topic| topic_view(t),
            ) == match items {
                Some(v) => topics_listed(v@),
                None => Seq::empty(),
            }),
            Err(_) => is_internal_error(r),
        },
{
    match outcome {
        Ok(Some(items)) => Reply { status: 200, body: StoreBody::Records(topics_from_items(&items)) },
        Ok(None) => {
            let none: Vec<Topic> = Vec::new();
            assert(none@.map_values(|t: Topic| topic_view(t)) == Seq::<(Seq<char>, Seq<char>, Seq<char>)>::empty());
            Reply { status: 200, body: StoreBody::Records(none) }
        },
        Err(_) => internal_error(),
    }
}

/// The answer to a word listing: the words found (none when the table
/// returned no item list), or 500 when the table call failed.
pub fn listed_vocabulary_reply(outcome: Result<Option<Vec<StoredItem>>, ()>) -> (r: Reply<
    StoreBody<Vocabulary>,
>)
    ensures
        match outcome {
            Ok(items) => r.status == 200 && (r.body matches StoreBody::Records(vs)
                && vs@.map_values(|v: Vocabulary| vocabulary_view(v)) == match items {
                Some(v) => vocabulary_listed(v@),
                None => Seq::empty(),
            }),
            Err(_) => is_internal_error(r),
        },
{
    match outcome {
        Ok(Some(items)) => Reply {
            status: 200,
            body: StoreBody::Records(vocabulary_from_items(&items)),
        },
        Ok(None) => {
            let none: Vec<Vocabulary> = Vec::new();
            assert(none@.map_values(|v: Vocabulary| vocabulary_view(v)) == Seq::<
                (Seq<char>, Seq<char>, Seq<char>, Seq<char>),
            >::empty());
            Reply { status: 200, body: StoreBody::Records(none) }
        },
        Err(_) => internal_error(),
    }
}

/// The answer to a creation: 200 with the new record once stored, else 500.
pub fn created_reply<R>(outcome: Result<(), ()>, record: R) -> (r: Reply<StoreBody<R>>)
    ensures
        match outcome {
            Ok(_) => r.status == 200 && r.body == StoreBody::Record(record),
            Err(_) => is_internal_error(r),
        },
{
    match outcome {
        Ok(_) => Reply { status: 200, body: StoreBody::Record(record) },
        Err(_) => internal_error(),
    }
}

/// The answer to a deletion: 200 without body once done, else 500.
pub fn removed_reply<R>(outcome: Result<(), ()>) -> (r: Reply<StoreBody<R>>)
    ensures
        match outcome {
            Ok(_) => r.status == 200 && r.body is Empty,
            Err(_) => is_internal_error(r),
        },
{
    match outcome {
        Ok(_) => Reply { status: 200, body: StoreBody::Empty },
        Err(_) => internal_error(),
    }
}

/// Removing a pattern that holds a character `s` lacks leaves `s` unchanged.
proof fn lemma_remove_absent(s: Seq<char>, pat: Seq<char>, c: char)
    requires
        pat.contains(c),
        !s.contains(c),
    ensures
        remove_all(s, pat) == s,
    decreases s.len(),
{
    if pat.len() == 0 || s.len() < pat.len() {
    } else {
        if pat.is_prefix_of(s) {
            let k = choose|k: int| 0 <= k < pat.len() && pat[k] == c;
            assert(s[k] == pat[k]);
        }
        assert(!s.drop_first().contains(c)) by {
            if s.drop_first().contains(c) {
                let k = choose|k: int| 0 <= k < s.drop_first().len() && s.drop_first()[k] == c;
                assert(s[k + 1] == c);
            }
        }
        lemma_remove_absent(s.drop_first(), pat, c);
        assert(seq![s[0]] + s.drop_first() == s);
    }
}

/// The id written into a sort key reads back unchanged, as long as it holds
/// no `#` (the character that ends both prefixes).
pub proof fn lemma_sort_key_round_trip(collection: Collection, id: Seq<char>)
    requires
        !id.contains('#'),
    ensures
        id_of_sort_key(collection, sort_key_of(collection, id)) == id,
{
    reveal_strlit("TOPIC#");
    reveal_strlit("WORD#");
    let p = collection.prefix_spec();
    assert(p.contains('#')) by {
        assert(p[p.len() - 1] == '#');
    }
    let k = p + id;
    assert(p.is_prefix_of(k)) by {
        assert(k.subrange(0, p.len() as int) == p);
    }
    assert(k.skip(p.len() as int) == id);
    lemma_remove_absent(id, p, '#');
}

/// A topic stored by [`new_topic`] is read back by a listing with the same
/// id, name and creation time; its deletion key is the sort key it was
/// stored under.
pub proof fn lemma_created_topic_reads_back(id: Seq<char>, name: Seq<char>, created_at: Seq<char>)
    requires
        !id.contains('#'),
    ensures
        topic_of(topic_attrs(id, name, created_at)) == Some((id, name, created_at)),
        delete_id(Collection::Topics, Some(id), Seq::empty(), None) == Some(id),
{
    reveal_strlit("PK");
    reveal_strlit("SK");
    reveal_strlit("name");
    reveal_strlit("created_at");
    let attrs = topic_attrs(id, name, created_at);
    assert(attrs.drop_first() == seq![
        (SORT_ATTRIBUTE@, sort_key_of(Collection::Topics, id)),
        ("name"@, name),
        ("created_at"@, created_at),
    ]);
    assert(attrs.drop_first().drop_first() == seq![("name"@, name), ("created_at"@, created_at)]);
    assert(attrs.drop_first().drop_first().drop_first() == seq![("created_at"@, created_at)]);
    // The attribute names differ already in their first characters.
    assert("PK"@[0] == 'P' && "SK"@[0] == 'S' && "name"@[0] == 'n' && "created_at"@[0] == 'c');
    reveal_with_fuel(lookup, 5);
    lemma_sort_key_round_trip(Collection::Topics, id);
}

/// A word stored by [`new_vocabulary`] is read back by a listing with the
/// same id, word, translation and creation time.
pub proof fn lemma_created_word_reads_back(
    id: Seq<char>,
    word: Seq<char>,
    translation: Seq<char>,
    created_at: Seq<char>,
)
    requires
        !id.contains('#'),
    ensures
        vocabulary_of(vocabulary_attrs(id, word, translation, created_at)) == Some(
            (id, word, translation, created_at),
        ),
{
    reveal_strlit("PK");
    reveal_strlit("SK");
    reveal_strlit("word");
    reveal_strlit("translation");
    reveal_strlit("created_at");
    let attrs = vocabulary_attrs(id, word, translation, created_at);
    let a1 = attrs.drop_first();
    let a2 = a1.drop_first();
    let a3 = a2.drop_first();
    let a4 = a3.drop_first();
    assert(a1 == seq![
        (SORT_ATTRIBUTE@, sort_key_of(Collection::Vocabulary, id)),
        ("word"@, word),
        ("translation"@, translation),
        ("created_at"@, created_at),
    ]);
    assert(a2 == seq![("word"@, word), ("translation"@, translation), ("created_at"@, created_at)]);
    assert(a3 == seq![("translation"@, translation), ("created_at"@, created_at)]);
    assert(a4 == seq![("created_at"@, created_at)]);
    // The attribute names differ already in their first characters.
    assert("PK"@[0] == 'P' && "SK"@[0] == 'S' && "word"@[0] == 'w' && "translation"@[0] == 't'
        && "created_at"@[0] == 'c');
    reveal_with_fuel(lookup, 6);
    lemma_sort_key_round_trip(Collection::Vocabulary, id);
}

/// A new topic's item lies in the topic partition under the key `TOPIC#id`.
pub proof fn lemma_topic_item_keys(id: Seq<char>, name: Seq<char>, created_at: Seq<char>)
    ensures
        lookup(topic_attrs(id, name, created_at), "PK"@) == Some("TOPIC"@),
        lookup(topic_attrs(id, name, created_at), "SK"@) == Some("TOPIC#"@ + id),
{
    reveal_strlit("PK");
    reveal_strlit("SK");
    reveal_strlit("TOPIC");
    reveal_strlit("TOPIC#");
    let attrs = topic_attrs(id, name, created_at);
    assert("PK"@[0] == 'P' && "SK"@[0] == 'S');
    assert(attrs.drop_first()[0] == (SORT_ATTRIBUTE@, sort_key_of(Collection::Topics, id)));
    reveal_with_fuel(lookup, 3);
}

/// A new word's item lies in the vocabulary partition under the key
/// `WORD#id`.
pub proof fn lemma_vocabulary_item_keys(
    id: Seq<char>,
    word: Seq<char>,
    translation: Seq<char>,
    created_at: Seq<char>,
)
    ensures
        lookup(vocabulary_attrs(id, word, translation, created_at), "PK"@) == Some("VOCAB"@),
        lookup(vocabulary_attrs(id, word, translation, created_at), "SK"@) == Some("WORD#"@ + id),
{
    reveal_strlit("PK");
    reveal_strlit("SK");
    reveal_strlit("VOCAB");
    reveal_strlit("WORD#");
    let attrs = vocabulary_attrs(id, word, translation, created_at);
    assert("PK"@[0] == 'P' && "SK"@[0] == 'S');
    assert(attrs.drop_first()[0] == (SORT_ATTRIBUTE@, sort_key_of(Collection::Vocabulary, id)));
    reveal_with_fuel(lookup, 3);
}

/// A listing reads the collection's own partition: topics from `TOPIC`,
/// words from `VOCAB`.
pub proof fn lemma_listing_reads_own_partition<P>(
    collection: Collection,
    request: ApiRequest,
    payload: Option<P>,
    delete_body: Option<DeleteRequest>,
    route: StoreRoute<P>,
)
    requires
        collection_route(collection, request, payload, delete_body, route),
        request.method == Method::Get,
    ensures
        route matches StoreRoute::List { partition } && partition@ == match collection {
            Collection::Topics => "TOPIC"@,
            Collection::Vocabulary => "VOCAB"@,
        },
{
}

/// What is created is what the listing reads: the partition a new topic or
/// word is stored in is the partition a listing of its collection queries.
pub proof fn lemma_created_items_are_in_listed_partition<P>(
    collection: Collection,
    request: ApiRequest,
    payload: Option<P>,
    delete_body: Option<DeleteRequest>,
    route: StoreRoute<P>,
    id: Seq<char>,
    a: Seq<char>,
    b: Seq<char>,
    c: Seq<char>,
)
    requires
        collection_route(collection, request, payload, delete_body, route),
        request.method == Method::Get,
    ensures
        route matches StoreRoute::List { partition } && Some(partition@) == match collection {
            Collection::Topics => lookup(topic_attrs(id, a, c), "PK"@),
            Collection::Vocabulary => lookup(vocabulary_attrs(id, a, b, c), "PK"@),
        },
{
    lemma_topic_item_keys(id, a, c);
    lemma_vocabulary_item_keys(id, a, b, c);
}

/// Listing two runs of items one after the other gives the two listings one
/// after the other: no readable item is dropped and the order is kept.
pub proof fn lemma_topics_listed_append(a: Seq<StoredItem>, b: Seq<StoredItem>)
    ensures
        topics_listed(a + b) == topics_listed(a) + topics_listed(b),
    decreases b.len(),
{
    if b.len() == 0 {
        assert(a + b == a);
    } else {
        assert((a + b).drop_last() == a + b.drop_last());
        assert((a + b).last() == b.last());
        lemma_topics_listed_append(a, b.drop_last());
    }
}

/// One item lists as its topic when it holds one, else as nothing.
pub proof fn lemma_topics_listed_single(item: StoredItem)
    ensures
        topics_listed(seq![item]) == match topic_of(attrs_of(item)) {
            Some(t) => seq![t],
            None => Seq::empty(),
        },
{
    assert(seq![item].drop_last() == Seq::<StoredItem>::empty());
    assert(seq![item].last() == item);
    reveal_with_fuel(topics_listed, 2);
    match topic_of(attrs_of(item)) {
        Some(t) => assert(Seq::empty().push(t) == seq![t]),
        None => {},
    }
}

/// Listing two runs of items one after the other gives the two listings one
/// after the other: no readable item is dropped and the order is kept.
pub proof fn lemma_vocabulary_listed_append(a: Seq<StoredItem>, b: Seq<StoredItem>)
    ensures
        vocabulary_listed(a + b) == vocabulary_listed(a) + vocabulary_listed(b),
    decreases b.len(),
{
    if b.len() == 0 {
        assert(a + b == a);
    } else {
        assert((a + b).drop_last() == a + b.drop_last());
        assert((a + b).last() == b.last());
        lemma_vocabulary_listed_append(a, b.drop_last());
    }
}

/// One item lists as its word when it holds one, else as nothing.
pub proof fn lemma_vocabulary_listed_single(item: StoredItem)
    ensures
        vocabulary_listed(seq![item]) == match vocabulary_of(attrs_of(item)) {
            Some(v) => seq![v],
            None => Seq::empty(),
        },
{
    assert(seq![item].drop_last() == Seq::<StoredItem>::empty());
    assert(seq![item].last() == item);
    reveal_with_fuel(vocabulary_listed, 2);
    match vocabulary_of(attrs_of(item)) {
        Some(t) => assert(Seq::empty().push(t) == seq![t]),
        None => {},
    }
}

} // verus!
