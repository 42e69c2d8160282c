//! Article shapes: rows from the listing query, assembled responses, requests.
use vstd::prelude::*;
use crate::database::Profile;

verus! {

/// Why an article operation was refused.
#[derive(Debug, Clone, Copy, PartialEq, Eq, Structural)]
pub enum ArticleError {
    /// An offset was given without a limit.
    InvalidPagination,
    /// A slug or a username names nothing.
    NotFound,
    /// The acting user does not own the article.
    Forbidden,
    /// A uniqueness rule of the storage was violated.
    Conflict,
    /// More tags than one statement can bind.
    TooManyTags,
}

impl ArticleError {
    /// HTTP status that the boundary answers with.
    pub fn status(&self) -> (r: u16)
        ensures
            r == match *self {
                ArticleError::InvalidPagination => 400u16,
                ArticleError::NotFound => 404u16,
                ArticleError::Forbidden => 403u16,
                ArticleError::Conflict => 409u16,
                ArticleError::TooManyTags => 400u16,
            },
    {
        match self {
            ArticleError::InvalidPagination => 400,
            ArticleError::NotFound => 404,
            ArticleError::Forbidden => 403,
            ArticleError::Conflict => 409,
            ArticleError::TooManyTags => 400,
        }
    }
}

/// One row of a listing query, before tags and author are attached.
#[derive(Debug, Clone)]
pub struct SimpleNoBodyArticle {
    pub id: i64,
    pub slug: String,
    pub title: String,
    pub description: String,
    pub created_at: String,
    pub updated_at: String,
    pub author: i64,
    pub favorited: bool,
    pub favorites_count: i64,
}

/// An assembled list item.
#[derive(Debug, Clone)]
pub struct NoBodyArticle {
    pub slug: String,
    pub title: String,
    pub description: String,
    pub tag_list: Vec<String>,
    pub created_at: String,
    pub updated_at: String,
    pub favorited: bool,
    pub favorites_count: i64,
    pub author: Profile,
}

/// A listing: the articles and how many were returned.
#[derive(Debug, Clone)]
pub struct ResponseMultipleArticles {
    pub articles: Vec<NoBodyArticle>,
    pub articles_count: usize,
}

/// Filters and pagination of the general listing.
#[derive(Debug, Clone)]
pub struct ListArticlesConstraints {
    pub tag: Option<String>,
    pub author: Option<String>,
    pub favorited: Option<String>,
    pub limit: Option<i64>,
    pub offset: Option<i64>,
}

/// Pagination of the feed.
#[derive(Debug, Clone, Copy)]
pub struct FeedArticlesConstraints {
    pub limit: Option<i64>,
    pub offset: Option<i64>,
}

/// The row of a single-article query, which carries the body.
#[derive(Debug, Clone)]
pub struct SimpleBodyArticle {
    pub id: i64,
    pub slug: String,
    pub title: String,
    pub description: String,
    pub body: String,
    pub created_at: String,
    pub updated_at: String,
    pub author: i64,
    pub favorited: bool,
    pub favorites_count: i64,
}

/// An assembled single article.
#[derive(Debug, Clone)]
pub struct BodyArticle {
    pub slug: String,
    pub title: String,
    pub description: String,
    pub body: String,
    pub tag_list: Vec<String>,
    pub created_at: String,
    pub updated_at: String,
    pub favorited: bool,
    pub favorites_count: i64,
    pub author: Profile,
}

#[derive(Debug, Clone)]
pub struct ResponseSingleArticle {
    pub article: BodyArticle,
}

#[derive(Debug, Clone)]
pub struct CreateArticleRequest {
    pub article: CreateArticle,
}

/// A new article as the author submits it.
#[derive(Debug, Clone)]
pub struct CreateArticle {
    pub title: String,
    pub description: String,
    pub body: String,
    pub tag_list: Option<Vec<String>>,
}

#[derive(Debug, Clone)]
pub struct UpdateArticleRequest {
    pub article: UpdateArticle,
}

/// The fields of an article to change; absent ones stay as they are.
#[derive(Debug, Clone)]
pub struct UpdateArticle {
    pub title: Option<String>,
    pub description: Option<String>,
    pub body: Option<String>,
}

} // verus!
