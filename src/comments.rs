//! Comments on articles.
use vstd::prelude::*;
use crate::assemble::{profile_for, profile_seen_by};
use crate::auth::Viewer;
use crate::database::Profile;
use crate::query::{viewer_id, viewer_id_of, BindValue, BindView, Statement};
use crate::statements::{make_statement, statement_of, text};

verus! {

/// A comment row as stored.
#[derive(Debug, Clone)]
pub struct Comment {
    pub id: i64,
    pub created_at: String,
    pub updated_at: String,
    pub body: String,
    pub author: i64,
}

#[derive(Debug, Clone)]
pub struct ResponseComment {
    pub id: i64,
    pub created_at: String,
    pub updated_at: String,
    pub body: String,
    pub author: Profile,
}

#[derive(Debug, Clone)]
pub struct ResponseSingleComment {
    pub comment: ResponseComment,
}

#[derive(Debug, Clone)]
pub struct AddComment {
    pub body: String,
}

#[derive(Debug, Clone)]
pub struct RequestAddComment {
    pub comment: AddComment,
}

/// A comment row joined with its author, as the listing query returns it.
#[derive(Debug, Clone)]
pub struct CommentWithAuthor {
    pub id: i64,
    pub created_at: String,
    pub updated_at: String,
    pub body: String,
    pub username: String,
    pub bio: Option<String>,
    pub image: Option<String>,
    pub following: bool,
}

#[derive(Debug, Clone)]
pub struct ResponseMultipleComments {
    pub comments: Vec<ResponseComment>,
}

pub const ARTICLE_ID_BY_SLUG_SQL: &'static str = "SELECT `id` FROM `articles` WHERE `slug`=?";

/// Resolves a slug to the article's id.
pub fn article_id_statement(slug: &str) -> (r: Statement)
    ensures
        r@ == statement_of(ARTICLE_ID_BY_SLUG_SQL, seq![BindView::Text(slug@)]),
{
    let r = make_statement(ARTICLE_ID_BY_SLUG_SQL, vec![text(slug)]);
    assert(r@.binds =~= seq![BindView::Text(slug@)]);
    r
}

pub const INSERT_COMMENT_SQL: &'static str = "INSERT INTO `comments` (`article`, `body`, `author`) VALUES (?, ?, ?) RETURNING `id`, strftime('%Y-%m-%dT%H:%M:%fZ', `createdAt`) AS `createdAt`, strftime('%Y-%m-%dT%H:%M:%fZ', `updatedAt`) AS `updatedAt`, `body`, `author`";

/// User `author` comments `body` on article `article_id`.
pub fn insert_comment_statement(article_id: i64, comment: &AddComment, author: i64) -> (r: Statement)
    ensures
        r@ == statement_of(
            INSERT_COMMENT_SQL,
            seq![BindView::Int(article_id), BindView::Text(comment.body@), BindView::Int(author)],
        ),
{
    let r = make_statement(
        INSERT_COMMENT_SQL,
        vec![BindValue::Int(article_id), BindValue::Text(comment.body.clone()), BindValue::Int(author)],
    );
    assert(r@.binds =~= seq![
        BindView::Int(article_id),
        BindView::Text(comment.body@),
        BindView::Int(author),
    ]);
    r
}

pub const COMMENTS_SQL: &'static str = "SELECT `comments`.`id`, strftime('%Y-%m-%dT%H:%M:%fZ', `comments`.`createdAt`) AS `createdAt`, strftime('%Y-%m-%dT%H:%M:%fZ', `comments`.`updatedAt`) AS `updatedAt`, `comments`.`body`, `users`.`username`, `users`.`bio`, `users`.`image`, (SELECT COUNT(*) FROM `follows` WHERE `follows`.`source`=? AND `follows`.`target`=`users`.`id`) AS `following` FROM `comments` JOIN `users` ON `users`.`id`=`comments`.`author` WHERE `comments`.`article`=? ORDER BY `comments`.`id` ASC";

/// The comments of article `article_id` with their authors as `viewer` sees them.
pub fn comments_statement(viewer: Viewer, article_id: i64) -> (r: Statement)
    ensures
        r@ == statement_of(
            COMMENTS_SQL,
            seq![BindView::Int(viewer_id(viewer)), BindView::Int(article_id)],
        ),
{
    let r = make_statement(
        COMMENTS_SQL,
        vec![BindValue::Int(viewer_id_of(viewer)), BindValue::Int(article_id)],
    );
    assert(r@.binds =~= seq![BindView::Int(viewer_id(viewer)), BindView::Int(article_id)]);
    r
}

/// The response to a new comment, with its author as `viewer` sees it.
pub fn comment_response(comment: &Comment, author: &Profile, viewer: Viewer) -> (r: ResponseSingleComment)
    ensures
        r.comment.id == comment.id,
        r.comment.created_at == comment.created_at,
        r.comment.updated_at == comment.updated_at,
        r.comment.body == comment.body,
        profile_for(r.comment.author, *author, viewer),
{
    ResponseSingleComment {
        comment: ResponseComment {
            id: comment.id,
            created_at: comment.created_at.clone(),
            updated_at: comment.updated_at.clone(),
            body: comment.body.clone(),
            author: profile_seen_by(author, viewer),
        },
    }
}

/// A comment of the listing made from its joined row.
pub open spec fn comment_from_row(c: ResponseComment, row: CommentWithAuthor, viewer: Viewer) -> bool {
    &&& c.id == row.id
    &&& c.created_at == row.created_at
    &&& c.updated_at == row.updated_at
    &&& c.body == row.body
    &&& c.author.username == row.username
    &&& c.author.bio == row.bio
    &&& c.author.image == row.image
    &&& c.author.following == (row.following && viewer is Authenticated)
}

fn row_author(row: &CommentWithAuthor) -> (r: Profile)
    ensures
        r.username == row.username,
        r.bio == row.bio,
        r.image == row.image,
        r.following == row.following,
{
    Profile {
        username: row.username.clone(),
        bio: match &row.bio {
            Some(b) => Some(b.clone()),
            None => None,
        },
        image: match &row.image {
            Some(i) => Some(i.clone()),
            None => None,
        },
        following: row.following,
    }
}

/// The comments of an article, in the order of the rows.
pub fn comments_response(rows: &Vec<CommentWithAuthor>, viewer: Viewer) -> (r: ResponseMultipleComments)
    ensures
        r.comments@.len() == rows@.len(),
        forall|i: int|
            0 <= i < rows@.len() ==> comment_from_row(#[trigger] r.comments@[i], rows@[i], viewer),
{
    let mut comments: Vec<ResponseComment> = Vec::new();
    let mut i: usize = 0;
    while i < rows.len()
        invariant
            i <= rows@.len(),
            comments@.len() == i,
            forall|j: int|
                0 <= j < i ==> comment_from_row(#[trigger] comments@[j], rows@[j], viewer),
        decreases rows@.len() - i,
    {
        let row = &rows[i];
        let author = row_author(row);
        comments.push(
            ResponseComment {
                id: row.id,
                created_at: row.created_at.clone(),
                updated_at: row.updated_at.clone(),
                body: row.body.clone(),
                author: profile_seen_by(&author, viewer),
            },
        );
        i = i + 1;
    }
    ResponseMultipleComments { comments }
}

} // verus!
