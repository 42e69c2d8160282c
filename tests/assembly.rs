use realworld::articles::{SimpleBodyArticle, SimpleNoBodyArticle};
use realworld::assemble::{assemble_article, assemble_articles, profile_seen_by};
use realworld::auth::Viewer;
use realworld::comments::{comment_response, comments_response, Comment, CommentWithAuthor};
use realworld::database::Profile;
use realworld::profile::profile_response;

fn row(id: i64, slug: &str, favorited: bool, count: i64) -> SimpleNoBodyArticle {
    SimpleNoBodyArticle {
        id,
        slug: String::from(slug),
        title: String::from("A New Post"),
        description: String::from("about it"),
        created_at: String::from("2024-01-01T00:00:00.000Z"),
        updated_at: String::from("2024-01-02T00:00:00.000Z"),
        author: 2,
        favorited,
        favorites_count: count,
    }
}

fn author(following: bool) -> Profile {
    Profile {
        username: String::from("u2"),
        bio: Some(String::from("writer")),
        image: None,
        following,
    }
}

#[test]
fn anonymous_viewer_sees_no_flags() {
    let rows = vec![row(1, "a", true, 3), row(2, "b", true, 1)];
    let tags = vec![vec![String::from("x")], vec![]];
    let authors = vec![author(true), author(true)];
    let r = assemble_articles(Viewer::Anonymous, &rows, &tags, &authors);
    assert_eq!(r.articles_count, 2);
    for a in &r.articles {
        assert!(!a.favorited);
        assert!(!a.author.following);
    }
    assert_eq!(r.articles[0].favorites_count, 3);
}

#[test]
fn assembly_keeps_order_and_fields() {
    let rows = vec![row(5, "first", false, 0), row(4, "second", true, 2)];
    let tags = vec![vec![String::from("b"), String::from("a")], vec![String::from("c")]];
    let authors = vec![author(false), author(true)];
    let r = assemble_articles(Viewer::Authenticated(1), &rows, &tags, &authors);
    assert_eq!(r.articles.len(), 2);
    assert_eq!(r.articles_count, 2);
    assert_eq!(r.articles[0].slug, "first");
    assert_eq!(r.articles[1].slug, "second");
    assert_eq!(r.articles[0].tag_list, vec![String::from("b"), String::from("a")]);
    assert!(!r.articles[0].favorited);
    assert!(r.articles[1].favorited);
    assert!(r.articles[1].author.following);
    assert_eq!(r.articles[1].author.username, "u2");
    assert_eq!(r.articles[1].author.bio.as_deref(), Some("writer"));
    assert_eq!(r.articles[0].title, "A New Post");
    assert_eq!(r.articles[0].updated_at, "2024-01-02T00:00:00.000Z");
}

#[test]
fn empty_listing_counts_zero() {
    let r = assemble_articles(Viewer::Anonymous, &vec![], &vec![], &vec![]);
    assert!(r.articles.is_empty());
    assert_eq!(r.articles_count, 0);
}

#[test]
fn favorite_scenario_seen_by_favoriter_and_anonymous() {
    // u1 favorited "a-new-post" by u2: the row that the query yields for u1
    // says favorited, and the count is one either way.
    let for_u1 = vec![row(1, "a-new-post", true, 1)];
    let tags = vec![vec![]];
    let authors = vec![author(false)];
    let seen_by_u1 = assemble_articles(Viewer::Authenticated(1), &for_u1, &tags, &authors);
    assert_eq!(seen_by_u1.articles_count, 1);
    assert!(seen_by_u1.articles[0].favorited);
    assert_eq!(seen_by_u1.articles[0].favorites_count, 1);
    let for_anonymous = vec![row(1, "a-new-post", false, 1)];
    let seen_anonymously = assemble_articles(Viewer::Anonymous, &for_anonymous, &tags, &authors);
    assert_eq!(seen_anonymously.articles_count, 1);
    assert!(!seen_anonymously.articles[0].favorited);
    assert_eq!(seen_anonymously.articles[0].favorites_count, 1);
}

#[test]
fn single_article_assembly() {
    let r = SimpleBodyArticle {
        id: 1,
        slug: String::from("a-new-post"),
        title: String::from("A New Post"),
        description: String::from("d"),
        body: String::from("b"),
        created_at: String::from("c"),
        updated_at: String::from("u"),
        author: 2,
        favorited: true,
        favorites_count: 1,
    };
    let tags = vec![String::from("t1"), String::from("t2")];
    let a = assemble_article(Viewer::Authenticated(1), &r, &tags, &author(true)).article;
    assert_eq!(a.slug, "a-new-post");
    assert_eq!(a.title, "A New Post");
    assert_eq!(a.description, "d");
    assert_eq!(a.body, "b");
    assert_eq!(a.tag_list, tags);
    assert!(a.favorited);
    assert!(a.author.following);
    let anon = assemble_article(Viewer::Anonymous, &r, &tags, &author(true)).article;
    assert!(!anon.favorited);
    assert!(!anon.author.following);
    assert_eq!(anon.favorites_count, 1);
}

#[test]
fn profile_following_is_viewer_relative() {
    assert!(profile_seen_by(&author(true), Viewer::Authenticated(1)).following);
    assert!(!profile_seen_by(&author(true), Viewer::Anonymous).following);
    let resp = profile_response(&author(true), Viewer::Anonymous);
    assert_eq!(resp.profile.username, "u2");
    assert!(!resp.profile.following);
}

#[test]
fn comments_keep_order_and_hide_following_from_anonymous() {
    let rows = vec![
        CommentWithAuthor {
            id: 1,
            created_at: String::from("c1"),
            updated_at: String::from("u1"),
            body: String::from("first"),
            username: String::from("u2"),
            bio: None,
            image: Some(String::from("img")),
            following: true,
        },
        CommentWithAuthor {
            id: 2,
            created_at: String::from("c2"),
            updated_at: String::from("u2"),
            body: String::from("second"),
            username: String::from("u3"),
            bio: None,
            image: None,
            following: false,
        },
    ];
    let anon = comments_response(&rows, Viewer::Anonymous);
    assert_eq!(anon.comments.len(), 2);
    assert_eq!(anon.comments[0].body, "first");
    assert_eq!(anon.comments[1].author.username, "u3");
    assert!(!anon.comments[0].author.following);
    let seen = comments_response(&rows, Viewer::Authenticated(9));
    assert!(seen.comments[0].author.following);
    assert_eq!(seen.comments[0].author.image.as_deref(), Some("img"));
}

#[test]
fn new_comment_response() {
    let c = Comment {
        id: 7,
        created_at: String::from("c"),
        updated_at: String::from("u"),
        body: String::from("nice"),
        author: 2,
    };
    let r = comment_response(&c, &author(false), Viewer::Authenticated(2));
    assert_eq!(r.comment.id, 7);
    assert_eq!(r.comment.body, "nice");
    assert_eq!(r.comment.author.username, "u2");
}
