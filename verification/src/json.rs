//! The response decoder: it parses the raw response body as JSON and reads
//! the wire shape `{ "status": string, "articles": [ { "title": string,
//! "url": string } ], "code": string|null }` into a [`NewsAPIResponse`].
//! Unknown fields are ignored; any missing required field or type mismatch
//! fails the decode atomically.
//!
//! Parsing the text into a JSON document is delegated to `serde_json`; the
//! shape of the document is this library's own logic and is verified against
//! the model below.

use vstd::prelude::*;

use crate::error::NewsAPIError;
use crate::response::Article;
use crate::response::ArticleModel;
use crate::response::NewsAPIResponse;
use crate::response::ResponseModel;

verus! {

/// A mathematical model of a JSON document. Numbers carry no meaning for
/// the wire shape read here, so the model does not record their value; an
/// object is modelled as a map from field name to field value (for a
/// repeated field, the last occurrence wins, as in `serde_json`).
pub enum Jv {
    Null,
    Bool(bool),
    Num,
    Str(Seq<char>),
    Arr(Seq<Jv>),
    Obj(Map<Seq<char>, Jv>),
}

#[verifier::external_type_specification]
#[verifier::external_body]
pub struct ExValue(serde_json::Value);

/// What parsing a text as JSON yields: `None` on text that is not a single
/// valid JSON document, otherwise the model of the parsed document. The
/// result is a function of the text alone.
pub uninterp spec fn json_of(s: Seq<char>) -> Option<Jv>;

/// The model of a parsed `serde_json::Value`.
pub uninterp spec fn json_model(v: serde_json::Value) -> Jv;

/// Relies on `serde_json::from_str::<serde_json::Value>`: it returns `Ok`
/// exactly on text that parses as one JSON document, and the parsed value is
/// a function of the text alone.
#[verifier::external_body]
fn parse_json(s: &str) -> (r: Option<serde_json::Value>)
    ensures
        (r is Some) <==> (json_of(s@) is Some),
        (r matches Some(v) ==> json_of(s@) == Some(json_model(v))),
{
    serde_json::from_str::<serde_json::Value>(s).ok()
}

/// Relies on `serde_json::Value::get` with a string index: it returns `Some`
/// exactly when the value is an object whose map holds the key, and then
/// returns that entry.
#[verifier::external_body]
fn get_field<'a>(v: &'a serde_json::Value, key: &str) -> (r: Option<&'a serde_json::Value>)
    ensures
        (r is Some) <==> (json_model(*v) matches Jv::Obj(m) && m.dom().contains(key@)),
        (r matches Some(f) ==> (json_model(*v) matches Jv::Obj(m) && json_model(*f) == m[key@])),
{
    v.get(key)
}

/// Relies on `serde_json::Value::as_str`: it returns `Some` exactly on a
/// JSON string, and then returns its characters.
#[verifier::external_body]
fn value_as_string(v: &serde_json::Value) -> (r: Option<String>)
    ensures
        (r is Some) <==> (json_model(*v) is Str),
        (r matches Some(s) ==> json_model(*v) == Jv::Str(s@)),
{
    v.as_str().map(|s| s.to_string())
}

/// Relies on `serde_json::Value::as_array`: it returns `Some` exactly on a
/// JSON array, and then returns its elements in order.
#[verifier::external_body]
fn value_as_array<'a>(v: &'a serde_json::Value) -> (r: Option<&'a Vec<serde_json::Value>>)
    ensures
        (r is Some) <==> (json_model(*v) is Arr),
        (r matches Some(a) ==> (json_model(*v) matches Jv::Arr(s) && a@.len() == s.len()
            && (forall|i: int| 0 <= i < s.len() ==> json_model(a@[i]) == s[i]))),
{
    v.as_array()
}

/// Relies on `serde_json::Value::is_null`.
#[verifier::external_body]
fn value_is_null(v: &serde_json::Value) -> (r: bool)
    ensures
        r == (json_model(*v) is Null),
{
    v.is_null()
}

/// The article record read from one element of the `articles` array: the
/// element must be an object with string fields `title` and `url`; other
/// fields are ignored.
pub open spec fn article_of(j: Jv) -> Option<ArticleModel> {
    match j {
        Jv::Obj(m) => if m.dom().contains("title"@) && m["title"@] is Str && m.dom().contains(
            "url"@,
        ) && m["url"@] is Str {
            Some(ArticleModel { title: m["title"@]->Str_0, url: m["url"@]->Str_0 })
        } else {
            None
        },
        _ => None,
    }
}

/// The article list read from the `articles` array: every element must read
/// as an article, or the whole decode fails.
pub open spec fn articles_of(s: Seq<Jv>) -> Option<Seq<ArticleModel>> {
    if forall|i: int| 0 <= i < s.len() ==> article_of(s[i]) is Some {
        Some(Seq::new(s.len(), |i: int| article_of(s[i])->Some_0))
    } else {
        None
    }
}

/// Whether the optional `code` field is acceptable: absent, null, or a
/// string.
pub open spec fn code_field_ok(m: Map<Seq<char>, Jv>) -> bool {
    !m.dom().contains("code"@) || m["code"@] is Null || m["code"@] is Str
}

/// The error code read from the response object: present only when the
/// `code` field holds a string.
pub open spec fn code_of(m: Map<Seq<char>, Jv>) -> Option<Seq<char>> {
    if m.dom().contains("code"@) && m["code"@] is Str {
        Some(m["code"@]->Str_0)
    } else {
        None
    }
}

/// The response read from a JSON document: an object with a string `status`,
/// an array `articles` of articles, and an acceptable `code` field. Other
/// fields are ignored.
pub open spec fn response_of(j: Jv) -> Option<ResponseModel> {
    match j {
        Jv::Obj(m) => if m.dom().contains("status"@) && m["status"@] is Str && m.dom().contains(
            "articles"@,
        ) && m["articles"@] is Arr && articles_of(m["articles"@]->Arr_0) is Some && code_field_ok(
            m,
        ) {
            Some(
                ResponseModel {
                    status: m["status"@]->Str_0,
                    articles: articles_of(m["articles"@]->Arr_0)->Some_0,
                    code: code_of(m),
                },
            )
        } else {
            None
        },
        _ => None,
    }
}

/// What decoding a raw response body yields: `None` exactly when the body
/// is not JSON or does not have the wire shape.
pub open spec fn decoded(body: Seq<char>) -> Option<ResponseModel> {
    match json_of(body) {
        Some(j) => response_of(j),
        None => None,
    }
}

/// Law: a response object without an `articles` field never decodes; a
/// missing article list is a decode failure, not a silent empty list.
pub proof fn lemma_missing_articles_fails(j: Jv)
    requires
        j matches Jv::Obj(m) && !m.dom().contains("articles"@),
    ensures
        response_of(j) is None,
{
}

/// Parses the raw response body into a [`NewsAPIResponse`]. Decoding either
/// fully succeeds or fails atomically with `ArticlesParsingFailed`.
#[verifier::loop_isolation(false)]
pub fn decode_response(body: &str) -> (r: Result<NewsAPIResponse, NewsAPIError>)
    ensures
        (decoded(body@) matches Some(m) ==> (r matches Ok(resp) && resp@ == m)),
        (decoded(body@) is None ==> (r matches Err(e) && e is ArticlesParsingFailed)),
{
    let v = match parse_json(body) {
        Some(v) => v,
        None => {
            return Err(NewsAPIError::ArticlesParsingFailed);
        },
    };
    let status = match get_field(&v, "status") {
        Some(f) => match value_as_string(f) {
            Some(s) => s,
            None => {
                return Err(NewsAPIError::ArticlesParsingFailed);
            },
        },
        None => {
            return Err(NewsAPIError::ArticlesParsingFailed);
        },
    };
    let articles_field = match get_field(&v, "articles") {
        Some(f) => f,
        None => {
            return Err(NewsAPIError::ArticlesParsingFailed);
        },
    };
    let arr = match value_as_array(articles_field) {
        Some(a) => a,
        None => {
            return Err(NewsAPIError::ArticlesParsingFailed);
        },
    };
    let ghost s: Seq<Jv> = json_model(*articles_field)->Arr_0;
    let n = arr.len();
    let mut articles: Vec<Article> = Vec::new();
    let mut i: usize = 0;
    while i < n
        invariant
            n == arr@.len(),
            i <= n,
            s.len() == arr@.len(),
            forall|k: int| 0 <= k < s.len() ==> json_model(arr@[k]) == s[k],
            forall|k: int| 0 <= k < i ==> article_of(s[k]) is Some,
            articles@.len() == i as int,
            forall|k: int| 0 <= k < i ==> articles@[k]@ == article_of(s[k])->Some_0,
        decreases n - i,
    {
        let item = &arr[i];
        assert(json_model(*item) == s[i as int]);
        let title = match get_field(item, "title") {
            Some(f) => match value_as_string(f) {
                Some(t) => t,
                None => {
                    proof {
                        lemma_article_failure(s, i as int);
                    }
                    return Err(NewsAPIError::ArticlesParsingFailed);
                },
            },
            None => {
                proof {
                    lemma_article_failure(s, i as int);
                }
                return Err(NewsAPIError::ArticlesParsingFailed);
            },
        };
        let url = match get_field(item, "url") {
            Some(f) => match value_as_string(f) {
                Some(u) => u,
                None => {
                    proof {
                        lemma_article_failure(s, i as int);
                    }
                    return Err(NewsAPIError::ArticlesParsingFailed);
                },
            },
            None => {
                proof {
                    lemma_article_failure(s, i as int);
                }
                return Err(NewsAPIError::ArticlesParsingFailed);
            },
        };
        articles.push(Article::new(title, url));
        i = i + 1;
    }
    let code: Option<String> = match get_field(&v, "code") {
        Some(f) => {
            if value_is_null(f) {
                None
            } else {
                match value_as_string(f) {
                    Some(c) => Some(c),
                    None => {
                        return Err(NewsAPIError::ArticlesParsingFailed);
                    },
                }
            }
        },
        None => None,
    };
    proof {
        assert(articles.deep_view() =~= articles_of(s)->Some_0);
    }
    let resp = NewsAPIResponse::assemble(status, articles, code);
    proof {
        assert(resp@ == decoded(body@)->Some_0);
    }
    Ok(resp)
}

/// If one element of the array does not read as an article, the whole list
/// fails to read.
proof fn lemma_article_failure(s: Seq<Jv>, i: int)
    requires
        0 <= i < s.len(),
        article_of(s[i]) is None,
    ensures
        articles_of(s) is None,
{
    assert(!(forall|k: int| 0 <= k < s.len() ==> article_of(s[k]) is Some)) by {
        assert(article_of(s[i]) is None);
    }
}

} // verus!
