//! Result assembler: attaches tag lists and author profiles to query rows.
//!
//! The viewer-relative flags are forced to `false` for an anonymous viewer,
//! whatever the rows say.
use vstd::prelude::*;
use crate::articles::{
    BodyArticle, NoBodyArticle, ResponseMultipleArticles, ResponseSingleArticle,
    SimpleBodyArticle, SimpleNoBodyArticle,
};
use crate::auth::Viewer;
use crate::database::Profile;

verus! {

/// The author as the viewer sees it.
pub open spec fn profile_for(p: Profile, author: Profile, viewer: Viewer) -> bool {
    &&& p.username == author.username
    &&& p.bio == author.bio
    &&& p.image == author.image
    &&& p.following == (author.following && viewer is Authenticated)
}

/// A list item made of its row, its tags and its author.
pub open spec fn assembled(
    a: NoBodyArticle,
    row: SimpleNoBodyArticle,
    tags: Seq<String>,
    author: Profile,
    viewer: Viewer,
) -> bool {
    &&& a.slug == row.slug
    &&& a.title == row.title
    &&& a.description == row.description
    &&& a.tag_list@ == tags
    &&& a.created_at == row.created_at
    &&& a.updated_at == row.updated_at
    &&& a.favorited == (row.favorited && viewer is Authenticated)
    &&& a.favorites_count == row.favorites_count
    &&& profile_for(a.author, author, viewer)
}

/// A single article made of its row, its tags and its author.
pub open spec fn assembled_single(
    a: BodyArticle,
    row: SimpleBodyArticle,
    tags: Seq<String>,
    author: Profile,
    viewer: Viewer,
) -> bool {
    &&& a.slug == row.slug
    &&& a.title == row.title
    &&& a.description == row.description
    &&& a.body == row.body
    &&& a.tag_list@ == tags
    &&& a.created_at == row.created_at
    &&& a.updated_at == row.updated_at
    &&& a.favorited == (row.favorited && viewer is Authenticated)
    &&& a.favorites_count == row.favorites_count
    &&& profile_for(a.author, author, viewer)
}

fn copy_text(o: &Option<String>) -> (r: Option<String>)
    ensures
        r == *o,
{
    match o {
        Some(s) => Some(s.clone()),
        None => None,
    }
}

fn copy_strings(v: &Vec<String>) -> (r: Vec<String>)
    ensures
        r@ == v@,
{
    let mut r: Vec<String> = Vec::new();
    let mut i: usize = 0;
    while i < v.len()
        invariant
            i <= v@.len(),
            r@ == v@.subrange(0, i as int),
        decreases v@.len() - i,
    {
        r.push(v[i].clone());
        assert(r@ =~= v@.subrange(0, i + 1));
        i = i + 1;
    }
    assert(r@ =~= v@);
    r
}

fn not_anonymous(viewer: Viewer) -> (r: bool)
    ensures
        r == (viewer is Authenticated),
{
    match viewer {
        Viewer::Anonymous => false,
        Viewer::Authenticated(_) => true,
    }
}

/// The author profile as `viewer` sees it.
pub fn profile_seen_by(author: &Profile, viewer: Viewer) -> (r: Profile)
    ensures
        profile_for(r, *author, viewer),
{
    Profile {
        username: author.username.clone(),
        bio: copy_text(&author.bio),
        image: copy_text(&author.image),
        following: author.following && not_anonymous(viewer),
    }
}

/// Zips rows, tag lists and authors by position into a listing.
pub fn assemble_articles(
    viewer: Viewer,
    rows: &Vec<SimpleNoBodyArticle>,
    tags: &Vec<Vec<String>>,
    authors: &Vec<Profile>,
) -> (r: ResponseMultipleArticles)
    requires
        tags@.len() == rows@.len(),
        authors@.len() == rows@.len(),
    ensures
        r.articles@.len() == rows@.len(),
        r.articles_count == r.articles@.len(),
        forall|i: int|
            0 <= i < rows@.len() ==> assembled(
                #[trigger] r.articles@[i],
                rows@[i],
                tags@[i]@,
                authors@[i],
                viewer,
            ),
        viewer is Anonymous ==> forall|i: int|
            0 <= i < r.articles@.len() ==> !(#[trigger] r.articles@[i]).favorited
                && !r.articles@[i].author.following,
{
    let mut articles: Vec<NoBodyArticle> = Vec::new();
    let authenticated = not_anonymous(viewer);
    let mut i: usize = 0;
    while i < rows.len()
        invariant
            i <= rows@.len(),
            tags@.len() == rows@.len(),
            authors@.len() == rows@.len(),
            authenticated == (viewer is Authenticated),
            articles@.len() == i,
            forall|j: int|
                0 <= j < i ==> assembled(
                    #[trigger] articles@[j],
                    rows@[j],
                    tags@[j]@,
                    authors@[j],
                    viewer,
                ),
        decreases rows@.len() - i,
    {
        let row = &rows[i];
        let a = NoBodyArticle {
            slug: row.slug.clone(),
            title: row.title.clone(),
            description: row.description.clone(),
            tag_list: copy_strings(&tags[i]),
            created_at: row.created_at.clone(),
            updated_at: row.updated_at.clone(),
            favorited: row.favorited && authenticated,
            favorites_count: row.favorites_count,
            author: profile_seen_by(&authors[i], viewer),
        };
        articles.push(a);
        i = i + 1;
    }
    let n = articles.len();
    ResponseMultipleArticles { articles, articles_count: n }
}

/// Builds the single-article response from its row, tags and author.
pub fn assemble_article(
    viewer: Viewer,
    row: &SimpleBodyArticle,
    tags: &Vec<String>,
    author: &Profile,
) -> (r: ResponseSingleArticle)
    ensures
        assembled_single(r.article, *row, tags@, *author, viewer),
        viewer is Anonymous ==> !r.article.favorited && !r.article.author.following,
{
    ResponseSingleArticle {
        article: BodyArticle {
            slug: row.slug.clone(),
            title: row.title.clone(),
            description: row.description.clone(),
            body: row.body.clone(),
            tag_list: copy_strings(tags),
            created_at: row.created_at.clone(),
            updated_at: row.updated_at.clone(),
            favorited: row.favorited && not_anonymous(viewer),
            favorites_count: row.favorites_count,
            author: profile_seen_by(author, viewer),
        },
    }
}

} // verus!
