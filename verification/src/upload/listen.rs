//! LISTEN (listen.style) episode upload: the request variables sent and
//! the interpretation of the GraphQL replies.
//!
//! Flow:
//!   1. `createPresignedUploadUrl` returns `{uploadUrl, path, publicUrl}`
//!   2. HTTP PUT the audio bytes to `uploadUrl`
//!   3. `createEpisode` with `audioPath = path` creates the episode
use vstd::prelude::*;

verus! {

#[derive(Debug, Clone, Copy)]
pub enum Visibility {
    Public,
}

impl Visibility {
    /// The GraphQL enum literal for this visibility.
    pub fn as_str(self) -> (r: &'static str)
        ensures
            r@ == "PUBLIC"@,
    {
        match self {
            Visibility::Public => "PUBLIC",
        }
    }
}

#[derive(Debug, Clone, Copy)]
pub enum EpisodeStatus {
    Draft,
}

impl EpisodeStatus {
    /// The GraphQL enum literal for this status.
    pub fn as_str(self) -> (r: &'static str)
        ensures
            r@ == "DRAFT"@,
    {
        match self {
            EpisodeStatus::Draft => "DRAFT",
        }
    }
}

#[derive(Debug, Clone, PartialEq, Eq)]
pub struct PresignedUpload {
    pub upload_url: String,
    pub path: String,
    pub public_url: String,
}

#[derive(Debug, Clone, PartialEq, Eq)]
pub struct UploadedEpisode {
    pub id: String,
    pub webview_url: String,
}

/// Fixed metadata for a new episode.
#[derive(Debug, Clone, Copy)]
pub struct EpisodeSpec<'a> {
    pub podcast_id: &'a str,
    pub title: &'a str,
    pub description: Option<&'a str>,
    pub visibility: Visibility,
    pub status: EpisodeStatus,
}

/// What LISTEN currently says about an episode: its id, its title (which
/// the server may report as null) and its public page.
#[derive(Debug, Clone, PartialEq, Eq)]
pub struct EpisodeSummary {
    pub id: String,
    pub title: Option<String>,
    pub webview_url: String,
}

pub const CREATE_PRESIGNED_MUTATION: &'static str = "
mutation($fileName: String!, $type: MediaType!, $contentType: String) {
  createPresignedUploadUrl(fileName: $fileName, type: $type, contentType: $contentType) {
    uploadUrl
    path
    publicUrl
  }
}
";

pub const CREATE_EPISODE_MUTATION: &'static str = "
mutation($podcastId: ID!, $title: String!, $description: String,
         $visibility: EpisodeVisibilityType!, $audioPath: String!,
         $status: EpisodeStatus) {
  createEpisode(podcastId: $podcastId, title: $title, description: $description,
                visibility: $visibility, audioPath: $audioPath, status: $status) {
    id
    webviewUrl
  }
}
";

/// A JSON document as exchanged with the GraphQL endpoint. Numbers keep
/// their textual form; object members keep their order.
#[derive(Debug, PartialEq)]
pub enum Json {
    Null,
    Bool(bool),
    Number(String),
    Str(String),
    Array(Vec<Json>),
    Object(Vec<(String, Json)>),
}

/// Why a LISTEN reply could not be used.
#[derive(Debug, PartialEq)]
pub enum ListenError {
    /// The reply carried a non-empty (or non-array) `errors` member.
    GraphqlErrors(Json),
    /// The reply had neither usable errors nor a `data` member.
    MissingData,
    /// The named node was absent from `data`.
    MissingNode(&'static str),
    /// The named member was absent or not a string.
    MissingField(String),
}

/// Index of the first member of `fields` named `key`.
pub open spec fn first_member(fields: Seq<(String, Json)>, key: Seq<char>, i: int) -> bool {
    &&& 0 <= i < fields.len()
    &&& fields[i].0@ == key
    &&& forall|j: int| 0 <= j < i ==> #[trigger] fields[j].0@ != key
}

/// The member `key` of an object (the first one of that name), `None` for
/// a missing member or a value that is not an object.
pub open spec fn json_get(v: Json, key: Seq<char>) -> Option<Json> {
    match v {
        Json::Object(fields) => if exists|i: int| first_member(fields@, key, i) {
            Some(fields@[choose|i: int| first_member(fields@, key, i)].1)
        } else {
            None
        },
        _ => None,
    }
}

fn member_index(fields: &Vec<(String, Json)>, key: &str) -> (r: Option<usize>)
    ensures
        match r {
            Some(i) => first_member(fields@, key@, i as int),
            None => forall|j: int| 0 <= j < fields@.len() ==> #[trigger] fields@[j].0@ != key@,
        },
{
    let key_s = String::from_str(key);
    let mut i: usize = 0;
    while i < fields.len()
        invariant
            i <= fields@.len(),
            key_s@ == key@,
            forall|j: int| 0 <= j < i ==> #[trigger] fields@[j].0@ != key@,
        decreases fields@.len() - i,
    {
        if fields[i].0 == key_s {
            return Some(i);
        }
        i = i + 1;
    }
    None
}

proof fn lemma_first_member_unique(fields: Seq<(String, Json)>, key: Seq<char>, i: int, k: int)
    requires
        first_member(fields, key, i),
        first_member(fields, key, k),
    ensures
        i == k,
{
    if i < k {
        assert(fields[i].0@ != key);
    } else if k < i {
        assert(fields[k].0@ != key);
    }
}

/// The member `key` of `v`, borrowed.
pub fn get<'a>(v: &'a Json, key: &str) -> (r: Option<&'a Json>)
    ensures
        match r {
            Some(x) => json_get(*v, key@) == Some(*x),
            None => json_get(*v, key@) is None,
        },
{
    match v {
        Json::Object(fields) => {
            match member_index(fields, key) {
                Some(i) => {
                    proof {
                        assert forall|k: int| first_member(fields@, key@, k) implies k == i by {
                            lemma_first_member_unique(fields@, key@, i as int, k);
                        }
                    }
                    Some(&fields[i].1)
                },
                None => None,
            }
        },
        _ => None,
    }
}

/// The member `key` of `v`, moved out of it.
pub fn take(v: Json, key: &str) -> (r: Option<Json>)
    ensures
        r == json_get(v, key@),
{
    match v {
        Json::Object(mut fields) => {
            let ghost before = fields@;
            match member_index(&fields, key) {
                Some(i) => {
                    proof {
                        assert forall|k: int| first_member(before, key@, k) implies k == i by {
                            lemma_first_member_unique(before, key@, i as int, k);
                        }
                    }
                    let (_, x) = fields.remove(i);
                    Some(x)
                },
                None => None,
            }
        },
        _ => None,
    }
}

/// An absent, null or empty-array `errors` member means "no errors"; any
/// other payload is an error report.
pub open spec fn no_errors(errors: Json) -> bool {
    match errors {
        Json::Null => true,
        Json::Array(items) => items@.len() == 0,
        _ => false,
    }
}

pub fn is_empty_errors(errors: &Json) -> (r: bool)
    ensures
        r == no_errors(*errors),
{
    match errors {
        Json::Null => true,
        Json::Array(items) => items.len() == 0,
        _ => false,
    }
}

/// What a decoded GraphQL reply amounts to: its `data` member, unless an
/// error report is present or `data` is missing.
pub open spec fn graphql_outcome(reply: Json) -> Result<Json, ListenError> {
    match json_get(reply, "errors"@) {
        Some(e) if !no_errors(e) => Err(ListenError::GraphqlErrors(e)),
        _ => match json_get(reply, "data"@) {
            Some(d) => Ok(d),
            None => Err(ListenError::MissingData),
        },
    }
}

/// GraphQL errors are reported before the data is looked at: a reply whose
/// `errors` member is present and neither null nor an empty array is the
/// error report of that member, whatever `data` holds. A reply without such
/// errors gives its `data` member, or the missing-data error without one.
pub proof fn graphql_errors_come_first(reply: Json)
    ensures
        json_get(reply, "errors"@) matches Some(e) ==> (e != Json::Null
            && !(e matches Json::Array(items) && items@.len() == 0)
            ==> graphql_outcome(reply) == Err::<Json, ListenError>(ListenError::GraphqlErrors(e))),
        (json_get(reply, "errors"@) is None || json_get(reply, "errors"@) == Some(Json::Null)
            || (json_get(reply, "errors"@) matches Some(Json::Array(items)) && items@.len() == 0))
            ==> graphql_outcome(reply) == match json_get(reply, "data"@) {
                Some(d) => Ok::<Json, ListenError>(d),
                None => Err(ListenError::MissingData),
            },
{
}

/// Interpret a decoded GraphQL reply (after a successful HTTP status).
pub fn graphql_data(reply: Json) -> (r: Result<Json, ListenError>)
    ensures
        r == graphql_outcome(reply),
{
    let report = match get(&reply, "errors") {
        Some(e) => !is_empty_errors(e),
        None => false,
    };
    if report {
        match take(reply, "errors") {
            Some(e) => Err(ListenError::GraphqlErrors(e)),
            None => Err(ListenError::MissingData),
        }
    } else {
        match take(reply, "data") {
            Some(d) => Ok(d),
            None => Err(ListenError::MissingData),
        }
    }
}

/// The string member `key` of `v`.
pub open spec fn string_member(v: Json, key: Seq<char>) -> Option<String> {
    match json_get(v, key) {
        Some(Json::Str(s)) => Some(s),
        _ => None,
    }
}

/// The string member `key` of `value`, or the error naming it.
pub fn string_field(value: &Json, key: &str) -> (r: Result<String, ListenError>)
    ensures
        match string_member(*value, key@) {
            Some(s) => r matches Ok(t) && t@ == s@,
            None => r matches Err(ListenError::MissingField(k)) && k@ == key@,
        },
{
    match get(value, key) {
        Some(Json::Str(s)) => Ok(s.clone()),
        _ => Err(ListenError::MissingField(String::from_str(key))),
    }
}

/// The upload slot described by a `createPresignedUploadUrl` reply.
pub open spec fn presigned_outcome(data: Json, r: Result<PresignedUpload, ListenError>) -> bool {
    match json_get(data, "createPresignedUploadUrl"@) {
        None => r == Err::<PresignedUpload, ListenError>(ListenError::MissingNode("createPresignedUploadUrl")),
        Some(node) => match (string_member(node, "uploadUrl"@), string_member(node, "path"@), string_member(node, "publicUrl"@)) {
            (Some(u), Some(p), Some(q)) => r matches Ok(x) && x.upload_url@ == u@ && x.path@ == p@ && x.public_url@ == q@,
            (None, _, _) => r matches Err(ListenError::MissingField(k)) && k@ == "uploadUrl"@,
            (Some(_), None, _) => r matches Err(ListenError::MissingField(k)) && k@ == "path"@,
            (Some(_), Some(_), None) => r matches Err(ListenError::MissingField(k)) && k@ == "publicUrl"@,
        },
    }
}

/// Read the upload slot out of a `createPresignedUploadUrl` reply's data.
pub fn parse_presigned_upload(data: &Json) -> (r: Result<PresignedUpload, ListenError>)
    ensures
        presigned_outcome(*data, r),
{
    let node = match get(data, "createPresignedUploadUrl") {
        Some(n) => n,
        None => return Err(ListenError::MissingNode("createPresignedUploadUrl")),
    };
    let upload_url = match string_field(node, "uploadUrl") {
        Ok(s) => s,
        Err(e) => return Err(e),
    };
    let path = match string_field(node, "path") {
        Ok(s) => s,
        Err(e) => return Err(e),
    };
    let public_url = match string_field(node, "publicUrl") {
        Ok(s) => s,
        Err(e) => return Err(e),
    };
    Ok(PresignedUpload { upload_url, path, public_url })
}

/// The episode described by a `createEpisode` reply.
pub open spec fn created_outcome(data: Json, r: Result<UploadedEpisode, ListenError>) -> bool {
    match json_get(data, "createEpisode"@) {
        None => r == Err::<UploadedEpisode, ListenError>(ListenError::MissingNode("createEpisode")),
        Some(node) => match (string_member(node, "id"@), string_member(node, "webviewUrl"@)) {
            (Some(i), Some(w)) => r matches Ok(x) && x.id@ == i@ && x.webview_url@ == w@,
            (None, _) => r matches Err(ListenError::MissingField(k)) && k@ == "id"@,
            (Some(_), None) => r matches Err(ListenError::MissingField(k)) && k@ == "webviewUrl"@,
        },
    }
}

/// Read the created episode out of a `createEpisode` reply's data.
pub fn parse_created_episode(data: &Json) -> (r: Result<UploadedEpisode, ListenError>)
    ensures
        created_outcome(*data, r),
{
    let node = match get(data, "createEpisode") {
        Some(n) => n,
        None => return Err(ListenError::MissingNode("createEpisode")),
    };
    let id = match string_field(node, "id") {
        Ok(s) => s,
        Err(e) => return Err(e),
    };
    let webview_url = match string_field(node, "webviewUrl") {
        Ok(s) => s,
        Err(e) => return Err(e),
    };
    Ok(UploadedEpisode { id, webview_url })
}

fn str_json(s: &str) -> (r: Json)
    ensures
        r matches Json::Str(t) && t@ == s@,
{
    Json::Str(String::from_str(s))
}

fn member(name: &str, value: Json) -> (r: (String, Json))
    ensures
        r.0@ == name@,
        r.1 == value,
{
    (String::from_str(name), value)
}

/// Whether `v` is an object whose members are exactly `names`, in order,
/// with the string values `values` (`None` standing for null).
pub open spec fn object_of(v: Json, names: Seq<Seq<char>>, values: Seq<Option<Seq<char>>>) -> bool {
    &&& v matches Json::Object(fields)
    &&& fields@.len() == names.len()
    &&& names.len() == values.len()
    &&& forall|i: int| 0 <= i < names.len() ==> {
        &&& #[trigger] fields@[i].0@ == names[i]
        &&& match values[i] {
            Some(s) => fields@[i].1 matches Json::Str(t) && t@ == s,
            None => fields@[i].1 == Json::Null,
        }
    }
}

/// Variables of the `createPresignedUploadUrl` mutation.
pub fn presigned_variables(file_name: &str, content_type: &str) -> (r: Json)
    ensures
        object_of(r, seq!["fileName"@, "type"@, "contentType"@],
            seq![Some(file_name@), Some("AUDIO"@), Some(content_type@)]),
{
    let mut fields: Vec<(String, Json)> = Vec::new();
    fields.push(member("fileName", str_json(file_name)));
    fields.push(member("type", str_json("AUDIO")));
    fields.push(member("contentType", str_json(content_type)));
    let r = Json::Object(fields);
    assert(object_of(r, seq!["fileName"@, "type"@, "contentType"@],
            seq![Some(file_name@), Some("AUDIO"@), Some(content_type@)])) by {
        assert(fields@[0].0@ == "fileName"@);
    }
    r
}

/// Variables of the `createEpisode` mutation; a missing description is
/// sent as null.
pub fn create_episode_variables(
    podcast_id: &str,
    title: &str,
    description: Option<&str>,
    audio_path: &str,
    visibility: Visibility,
    status: EpisodeStatus,
) -> (r: Json)
    ensures
        object_of(r, seq!["podcastId"@, "title"@, "description"@, "visibility"@, "audioPath"@, "status"@],
            seq![Some(podcast_id@), Some(title@), match description { Some(d) => Some(d@), None => None },
                Some("PUBLIC"@), Some(audio_path@), Some("DRAFT"@)]),
{
    let mut fields: Vec<(String, Json)> = Vec::new();
    fields.push(member("podcastId", str_json(podcast_id)));
    fields.push(member("title", str_json(title)));
    let d = match description {
        Some(d) => str_json(d),
        None => Json::Null,
    };
    fields.push(member("description", d));
    fields.push(member("visibility", str_json(visibility.as_str())));
    fields.push(member("audioPath", str_json(audio_path)));
    fields.push(member("status", str_json(status.as_str())));
    Json::Object(fields)
}

/// The request body: the query text and its variables.
pub fn request_body(query: &str, variables: Json) -> (r: Json)
    ensures
        r matches Json::Object(fields) && fields@.len() == 2
            && fields@[0].0@ == "query"@ && (fields@[0].1 matches Json::Str(q) && q@ == query@)
            && fields@[1].0@ == "variables"@ && fields@[1].1 == variables,
{
    let mut fields: Vec<(String, Json)> = Vec::new();
    fields.push(member("query", str_json(query)));
    fields.push(member("variables", variables));
    Json::Object(fields)
}

/// The summary one row of an episode listing describes: its id and page
/// (both strings, required) and its title (a string, or null/absent).
pub open spec fn summary_row(item: Json, r: Result<EpisodeSummary, ListenError>) -> bool {
    match (string_member(item, "id"@), string_member(item, "webviewUrl"@)) {
        (Some(i), Some(w)) => r matches Ok(x) && x.id@ == i@ && x.webview_url@ == w@
            && match string_member(item, "title"@) {
                Some(t) => x.title matches Some(u) && u@ == t@,
                None => x.title is None,
            },
        (None, _) => r matches Err(ListenError::MissingField(k)) && k@ == "id"@,
        (Some(_), None) => r matches Err(ListenError::MissingField(k)) && k@ == "webviewUrl"@,
    }
}

/// A listing row that carries the required id and page URL.
pub open spec fn row_ok(item: Json) -> bool {
    string_member(item, "id"@) is Some && string_member(item, "webviewUrl"@) is Some
}

/// Read one row of an episode listing.
pub fn parse_summary(item: &Json) -> (r: Result<EpisodeSummary, ListenError>)
    ensures
        summary_row(*item, r),
{
    let id = match string_field(item, "id") {
        Ok(s) => s,
        Err(e) => return Err(e),
    };
    let webview_url = match string_field(item, "webviewUrl") {
        Ok(s) => s,
        Err(e) => return Err(e),
    };
    let title = match string_field(item, "title") {
        Ok(t) => Some(t),
        Err(_) => None,
    };
    Ok(EpisodeSummary { id, title, webview_url })
}

/// One page of `podcast.episodes`: its rows and whether more pages follow
/// (`paginatorInfo.hasMorePages`).
pub open spec fn episode_page(data: Json) -> Option<(Seq<Json>, bool)> {
    match json_get(data, "podcast"@) {
        Some(podcast) => match json_get(podcast, "episodes"@) {
            Some(episodes) => match (json_get(episodes, "data"@), json_get(episodes, "paginatorInfo"@)) {
                (Some(Json::Array(items)), Some(info)) => match json_get(info, "hasMorePages"@) {
                    Some(Json::Bool(more)) => Some((items@, more)),
                    _ => None,
                },
                _ => None,
            },
            None => None,
        },
        None => None,
    }
}

/// Read one page of a `podcast.episodes` listing: every row must carry an
/// id and a page URL; the first row that does not is reported.
pub fn parse_episode_page(data: &Json) -> (r: Result<(Vec<EpisodeSummary>, bool), ListenError>)
    ensures
        match episode_page(*data) {
            None => r == Err::<(Vec<EpisodeSummary>, bool), ListenError>(ListenError::MissingNode("podcast.episodes")),
            Some((items, more)) => match r {
                Ok((rows, m)) => m == more && rows@.len() == items.len()
                    && forall|k: int| 0 <= k < items.len() ==> summary_row(#[trigger] items[k], Ok(rows@[k])),
                Err(e) => exists|k: int| 0 <= k < items.len() && summary_row(#[trigger] items[k], Err(e))
                    && forall|j: int| 0 <= j < k ==> row_ok(#[trigger] items[j]),
            },
        },
{
    let missing = ListenError::MissingNode("podcast.episodes");
    let podcast = match get(data, "podcast") {
        Some(p) => p,
        None => return Err(missing),
    };
    let episodes = match get(podcast, "episodes") {
        Some(e) => e,
        None => return Err(missing),
    };
    let items = match get(episodes, "data") {
        Some(Json::Array(items)) => items,
        _ => return Err(missing),
    };
    let info = match get(episodes, "paginatorInfo") {
        Some(i) => i,
        None => return Err(missing),
    };
    let more = match get(info, "hasMorePages") {
        Some(Json::Bool(b)) => *b,
        _ => return Err(missing),
    };
    assert(episode_page(*data) == Some((items@, more)));
    let mut rows: Vec<EpisodeSummary> = Vec::new();
    let mut k: usize = 0;
    while k < items.len()
        invariant
            episode_page(*data) == Some((items@, more)),
            k <= items@.len(),
            rows@.len() == k,
            forall|j: int| 0 <= j < k ==> summary_row(#[trigger] items@[j], Ok(rows@[j])),
        decreases items@.len() - k,
    {
        match parse_summary(&items[k]) {
            Ok(s) => rows.push(s),
            Err(e) => {
                assert(summary_row(items@[k as int], Err(e)));
                assert(forall|j: int| 0 <= j < k ==> row_ok(#[trigger] items@[j]));
                let r: Result<(Vec<EpisodeSummary>, bool), ListenError> = Err(e);
                assert(match r {
                    Ok((rows, m)) => false,
                    Err(e2) => exists|j: int| 0 <= j < items@.len() && summary_row(#[trigger] items@[j], Err(e2))
                        && forall|i: int| 0 <= i < j ==> row_ok(#[trigger] items@[i]),
                });
                assert(match episode_page(*data) {
                    None => false,
                    Some((its, more)) => its == items@,
                });
                return r;
            },
        }
        k = k + 1;
    }
    Ok((rows, more))
}

/// The upload slot is read from the `createPresignedUploadUrl` node: a
/// parse succeeds exactly when the node carries the three strings, and then
/// the upload URL, storage path and public URL are those members, each in
/// its own field.
pub proof fn presigned_slot_takes_node_fields(data: Json, r: Result<PresignedUpload, ListenError>)
    requires
        presigned_outcome(data, r),
    ensures
        json_get(data, "createPresignedUploadUrl"@) is None
            ==> r == Err::<PresignedUpload, ListenError>(ListenError::MissingNode("createPresignedUploadUrl")),
        json_get(data, "createPresignedUploadUrl"@) matches Some(node) ==> ((r is Ok) <==> (
            string_member(node, "uploadUrl"@) is Some && string_member(node, "path"@) is Some
                && string_member(node, "publicUrl"@) is Some)),
        r matches Ok(x) ==> (json_get(data, "createPresignedUploadUrl"@) matches Some(node)
            && string_member(node, "uploadUrl"@) matches Some(u) && u@ == x.upload_url@),
        r matches Ok(x) ==> (json_get(data, "createPresignedUploadUrl"@) matches Some(node)
            && string_member(node, "path"@) matches Some(p) && p@ == x.path@),
        r matches Ok(x) ==> (json_get(data, "createPresignedUploadUrl"@) matches Some(node)
            && string_member(node, "publicUrl"@) matches Some(q) && q@ == x.public_url@),
{
}

/// The created episode is read from the `createEpisode` node: its id and
/// page URL are the node's `id` and `webviewUrl` strings, and the parse
/// succeeds exactly when both are there.
pub proof fn created_episode_takes_node_fields(data: Json, r: Result<UploadedEpisode, ListenError>)
    requires
        created_outcome(data, r),
    ensures
        json_get(data, "createEpisode"@) is None
            ==> r == Err::<UploadedEpisode, ListenError>(ListenError::MissingNode("createEpisode")),
        json_get(data, "createEpisode"@) matches Some(node) ==> ((r is Ok) <==> (
            string_member(node, "id"@) is Some && string_member(node, "webviewUrl"@) is Some)),
        r matches Ok(x) ==> (json_get(data, "createEpisode"@) matches Some(node)
            && string_member(node, "id"@) matches Some(i) && i@ == x.id@),
        r matches Ok(x) ==> (json_get(data, "createEpisode"@) matches Some(node)
            && string_member(node, "webviewUrl"@) matches Some(w) && w@ == x.webview_url@),
{
}

/// A listing row gives its `id`, `webviewUrl` and (when it is a string)
/// `title` members, and is refused exactly when the id or the page URL is
/// missing.
pub proof fn summary_row_takes_item_fields(item: Json, r: Result<EpisodeSummary, ListenError>)
    requires
        summary_row(item, r),
    ensures
        (r is Ok) <==> (string_member(item, "id"@) is Some && string_member(item, "webviewUrl"@) is Some),
        r matches Ok(x) ==> (string_member(item, "id"@) matches Some(i) && i@ == x.id@),
        r matches Ok(x) ==> (string_member(item, "webviewUrl"@) matches Some(w) && w@ == x.webview_url@),
        r matches Ok(x) ==> match string_member(item, "title"@) {
            Some(t) => x.title matches Some(u) && u@ == t@,
            None => x.title is None,
        },
{
}

} // verus!
