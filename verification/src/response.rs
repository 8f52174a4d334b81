//! The typed result of one API call: the overall status, the ordered list of
//! article records, and the optional service-reported error code; and the
//! gating step that decides success or failure from the status.

use vstd::prelude::*;

use crate::error::map_response_err;
use crate::error::reason_for;
use crate::error::NewsAPIError;

verus! {

/// The mathematical value of an [`Article`]: title and URL as character
/// sequences.
pub struct ArticleModel {
    pub title: Seq<char>,
    pub url: Seq<char>,
}

/// The mathematical value of a [`NewsAPIResponse`].
pub struct ResponseModel {
    pub status: Seq<char>,
    pub articles: Seq<ArticleModel>,
    pub code: Option<Seq<char>>,
}

/// A single news item's title and canonical URL. An immutable value type
/// with no identity beyond its fields.
#[derive(Debug, Clone)]
pub struct Article {
    pub(crate) title: String,
    pub(crate) url: String,
}

impl View for Article {
    type V = ArticleModel;

    closed spec fn view(&self) -> ArticleModel {
        ArticleModel { title: self.title@, url: self.url@ }
    }
}

impl DeepView for Article {
    type V = ArticleModel;

    open spec fn deep_view(&self) -> ArticleModel {
        self.view()
    }
}

impl Article {
    /// Builds an article record from its title and canonical URL.
    pub fn new(title: String, url: String) -> (r: Article)
        ensures
            r@ == (ArticleModel { title: title@, url: url@ }),
    {
        Article { title, url }
    }

    pub fn title(&self) -> (r: &str)
        ensures
            r@ == self@.title,
    {
        self.title.as_str()
    }

    pub fn url(&self) -> (r: &str)
        ensures
            r@ == self@.url,
    {
        self.url.as_str()
    }
}

/// The decoded result of one API call. Immutable after construction;
/// produced once per request. `articles` keeps the service's response order;
/// `error_code` is the authoritative failure signal only when the status is
/// not `"ok"`.
#[derive(Debug)]
pub struct NewsAPIResponse {
    pub(crate) status: String,
    pub(crate) articles: Vec<Article>,
    pub(crate) code: Option<String>,
}

impl View for NewsAPIResponse {
    type V = ResponseModel;

    closed spec fn view(&self) -> ResponseModel {
        ResponseModel {
            status: self.status@,
            articles: self.articles.deep_view(),
            code: self.code.deep_view(),
        }
    }
}

impl NewsAPIResponse {
    /// Assembles a response from its decoded parts.
    pub(crate) fn assemble(status: String, articles: Vec<Article>, code: Option<String>) -> (r:
        NewsAPIResponse)
        ensures
            r@ == (ResponseModel {
                status: status@,
                articles: articles.deep_view(),
                code: code.deep_view(),
            }),
    {
        NewsAPIResponse { status, articles, code }
    }

    /// The overall status string the service reported.
    pub fn status(&self) -> (r: &str)
        ensures
            r@ == self@.status,
    {
        self.status.as_str()
    }

    /// The article records, in the service's response order.
    pub fn articles(&self) -> (r: &Vec<Article>)
        ensures
            r.deep_view() == self@.articles,
    {
        &self.articles
    }
}

/// Error-mapper gating. The status is authoritative: an `"ok"` response is
/// returned unchanged, whatever its error code holds; any other status is
/// translated by the error mapper's lookup table into a `BadRequest`.
pub fn process_response(response: NewsAPIResponse) -> (r: Result<
    NewsAPIResponse,
    NewsAPIError,
>)
    ensures
        response@.status == "ok"@ ==> (r matches Ok(out) && out == response),
        response@.status != "ok"@ ==> (r matches Err(e) && (e matches NewsAPIError::BadRequest(
            reason,
        ) && reason@ == reason_for(response@.code))),
{
    let ok_label = "ok".to_owned();
    if response.status == ok_label {
        Ok(response)
    } else {
        Err(map_response_err(response.code))
    }
}

} // verus!
