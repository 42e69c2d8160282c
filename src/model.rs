//! The meaning of the composed queries over a mathematical model of the
//! stored relations, and the laws that hold of them.
use vstd::prelude::*;
use crate::articles::ListArticlesConstraints;
use crate::auth::Viewer;
use crate::profile::FollowChange;
use crate::articles::CreateArticle;
use crate::statements::{first_occurrences, lemma_first_occurrences_members, new_article_of, slug_of, NewArticle};
use crate::query::{
    conditions_sql, listing_spec, query_sql, select_sql, single_spec, viewer_id, ConditionView,
    QueryView, ANONYMOUS_ID, ORDER_SQL,
};

verus! {

/// What the queries read of an article.
pub struct ArticleRecord {
    pub id: i64,
    pub slug: Seq<char>,
    pub author: i64,
    pub updated_at: int,
    pub title: Seq<char>,
    pub description: Seq<char>,
    pub body: Seq<char>,
}

/// The stored relations.
pub struct Relations {
    /// Username of each user id.
    pub users: Map<i64, Seq<char>>,
    pub articles: Seq<ArticleRecord>,
    /// `(user, article)`: the user favorited the article.
    pub favorites: Set<(i64, i64)>,
    /// `(follower, followed)`.
    pub follows: Set<(i64, i64)>,
    /// `(article, tag name)`.
    pub tagged: Set<(i64, Seq<char>)>,
}

/// User ids are positive, and favorites and follows are made by users.
pub open spec fn well_formed(db: Relations) -> bool {
    &&& forall|u: i64| #[trigger] db.users.contains_key(u) ==> u > 0
    &&& forall|p: (i64, i64)| #[trigger] db.favorites.contains(p) ==> db.users.contains_key(p.0)
    &&& forall|p: (i64, i64)| #[trigger] db.follows.contains(p) ==> db.users.contains_key(p.0)
}

/// Whether article `a` meets condition `c`.
pub open spec fn holds(c: ConditionView, db: Relations, a: ArticleRecord) -> bool {
    match c {
        ConditionView::AlwaysTrue => true,
        ConditionView::FavoritedBy(u) => db.favorites.contains((u, a.id)),
        ConditionView::TagNamed(t) => db.tagged.contains((a.id, t)),
        ConditionView::AuthorNamed(n) => db.users.contains_key(a.author) && db.users[a.author] == n,
        ConditionView::FollowedBy(u) => db.follows.contains((u, a.author)),
        ConditionView::SlugIs(s) => a.slug == s,
    }
}

/// Whether the query selects article `a`, before pagination.
pub open spec fn selects(q: QueryView, db: Relations, a: ArticleRecord) -> bool {
    forall|i: int| 0 <= i < q.conditions.len() ==> holds(#[trigger] q.conditions[i], db, a)
}

/// The `favorited` column of the row of `a`.
pub open spec fn favorited_column(q: QueryView, db: Relations, a: ArticleRecord) -> bool {
    db.favorites.contains((q.viewer_id, a.id))
}

/// `a` comes before `b` in a result: newer update first, then lower id.
pub open spec fn precedes(a: ArticleRecord, b: ArticleRecord) -> bool {
    a.updated_at > b.updated_at || (a.updated_at == b.updated_at && a.id < b.id)
}

/// The follow relation after `source` stops following `target`.
pub open spec fn after_unfollow(db: Relations, source: i64, target: i64) -> Relations {
    Relations { follows: db.follows.remove((source, target)), ..db }
}

/// The follow relation after `source` starts following `target`.
pub open spec fn after_follow(db: Relations, source: i64, target: i64) -> Relations {
    Relations { follows: db.follows.insert((source, target)), ..db }
}

/// The id of the user named `name`, if there is one.
pub open spec fn user_named(db: Relations, name: Seq<char>) -> Option<i64> {
    if exists|u: i64| db.users.contains_key(u) && db.users[u] == name {
        Some(choose|u: i64| db.users.contains_key(u) && db.users[u] == name)
    } else {
        None
    }
}

/// What a change of the follow relation does to the stored relations: a
/// name that belongs to no user changes nothing.
pub open spec fn apply_follow_change(c: FollowChange, db: Relations) -> Relations {
    match user_named(db, c.target) {
        None => db,
        Some(t) => if c.follow {
            after_follow(db, c.source, t)
        } else {
            after_unfollow(db, c.source, t)
        },
    }
}

/// What storing a new article under `id`, then attaching `tags` to it (the
/// statements of `insert_article_statement` and `tag_statements`), does to
/// the stored relations.
pub open spec fn apply_create(
    n: NewArticle,
    id: i64,
    updated_at: int,
    tags: Seq<Seq<char>>,
    db: Relations,
) -> Relations {
    Relations {
        articles: db.articles.push(
            ArticleRecord {
                id,
                slug: n.slug,
                author: n.author,
                updated_at,
                title: n.title,
                description: n.description,
                body: n.body,
            },
        ),
        tagged: db.tagged.union(Set::new(|p: (i64, Seq<char>)| p.0 == id && tags.contains(p.1))),
        ..db
    }
}

/// An anonymous viewer has favorited nothing: in every row of a listing or
/// of a single fetch made for it, `favorited` is false, whatever is stored.
pub proof fn lemma_anonymous_favorites_nothing(
    filter: ListArticlesConstraints,
    favorited_id: Option<i64>,
    author_id: Option<i64>,
    slug: Seq<char>,
    db: Relations,
    a: ArticleRecord,
)
    requires
        well_formed(db),
    ensures
        listing_spec(filter, Viewer::Anonymous, favorited_id, author_id) matches Ok(q)
            ==> !favorited_column(q, db, a),
        !favorited_column(single_spec(slug, Viewer::Anonymous), db, a),
{
    assert(viewer_id(Viewer::Anonymous) == ANONYMOUS_ID);
    if db.favorites.contains((ANONYMOUS_ID, a.id)) {
        assert(db.users.contains_key(ANONYMOUS_ID));
    }
}

/// With no filter and no pagination, the listing selects every article,
/// has no window, and is ordered by last update, newest first.
pub proof fn lemma_unfiltered_listing_is_everything(
    filter: ListArticlesConstraints,
    viewer: Viewer,
    favorited_id: Option<i64>,
    author_id: Option<i64>,
    db: Relations,
    a: ArticleRecord,
)
    requires
        filter.tag is None,
        filter.author is None,
        filter.favorited is None,
        filter.limit is None,
        filter.offset is None,
    ensures
        listing_spec(filter, viewer, favorited_id, author_id) matches Ok(q) && {
            &&& selects(q, db, a)
            &&& q.limit is None
            &&& q.offset is None
            &&& query_sql(q) == select_sql(false) + conditions_sql(q.conditions) + ORDER_SQL@
        },
{
    let q = listing_spec(filter, viewer, favorited_id, author_id)->Ok_0;
    assert forall|i: int| 0 <= i < q.conditions.len() implies holds(
        #[trigger] q.conditions[i],
        db,
        a,
    ) by {
        assert(q.conditions[i] == ConditionView::AlwaysTrue);
    }
    assert(query_sql(q) =~= select_sql(false) + conditions_sql(q.conditions) + ORDER_SQL@);
}

/// The result order is total on distinct articles, so equal update times
/// give the same relative order on every request: the lower id first.
pub proof fn lemma_order_is_deterministic(a: ArticleRecord, b: ArticleRecord, c: ArticleRecord)
    ensures
        a.id != b.id ==> (precedes(a, b) <==> !precedes(b, a)),
        a.updated_at == b.updated_at ==> (precedes(a, b) <==> a.id < b.id),
        !precedes(a, a),
        precedes(a, b) && precedes(b, c) ==> precedes(a, c),
{
}

/// The fetch that follows the creation of an article with `title` selects
/// exactly the articles stored under the slug that creation assigned.
pub proof fn lemma_fetch_by_assigned_slug(title: Seq<char>, viewer: Viewer, db: Relations, a: ArticleRecord)
    ensures
        selects(single_spec(slug_of(title), viewer), db, a) <==> a.slug == slug_of(title),
{
    let q = single_spec(slug_of(title), viewer);
    if a.slug == slug_of(title) {
        assert forall|i: int| 0 <= i < q.conditions.len() implies holds(
            #[trigger] q.conditions[i],
            db,
            a,
        ) by {
            assert(i == 0);
        }
    } else {
        assert(!holds(q.conditions[0], db, a));
    }
}

/// Unfollowing twice in a row leaves the relations as unfollowing once does:
/// the second time finds nothing to remove and changes nothing. Afterwards
/// the follower does not follow the named user.
pub proof fn lemma_unfollow_idempotent(db: Relations, user_id: i64, username: Seq<char>)
    ensures
        ({
            let c = FollowChange { source: user_id, target: username, follow: false };
            &&& apply_follow_change(c, apply_follow_change(c, db)) == apply_follow_change(c, db)
            &&& user_named(db, username) matches Some(t) ==> !apply_follow_change(
                c,
                db,
            ).follows.contains((user_id, t))
        }),
{
    let c = FollowChange { source: user_id, target: username, follow: false };
    let once = apply_follow_change(c, db);
    assert(once.users == db.users);
    assert(user_named(once, username) == user_named(db, username));
    if let Some(t) = user_named(db, username) {
        assert(once.follows.remove((user_id, t)) =~= once.follows);
    }
}

/// Following twice in a row leaves the relations as following once does.
pub proof fn lemma_follow_idempotent(db: Relations, user_id: i64, username: Seq<char>)
    ensures
        ({
            let c = FollowChange { source: user_id, target: username, follow: true };
            &&& apply_follow_change(c, apply_follow_change(c, db)) == apply_follow_change(c, db)
            &&& user_named(db, username) matches Some(t) ==> apply_follow_change(
                c,
                db,
            ).follows.contains((user_id, t))
        }),
{
    let c = FollowChange { source: user_id, target: username, follow: true };
    let once = apply_follow_change(c, db);
    assert(once.users == db.users);
    assert(user_named(once, username) == user_named(db, username));
    if let Some(t) = user_named(db, username) {
        assert(once.follows.insert((user_id, t)) =~= once.follows);
    }
}

/// Creating an article and then fetching it by the slug that creation
/// assigned finds exactly that article, with the title, description and body
/// given, and with each given tag attached once the tags are reduced to their
/// first occurrences. The slug must not be taken and the id must be new, with
/// no tag attached to it yet.
pub proof fn lemma_create_then_fetch(
    article: CreateArticle,
    author: i64,
    given_tags: Seq<Seq<char>>,
    id: i64,
    updated_at: int,
    viewer: Viewer,
    db: Relations,
)
    requires
        forall|k: int|
            0 <= k < db.articles.len() ==> (#[trigger] db.articles[k]).slug != slug_of(
                article.title@,
            ) && db.articles[k].id != id,
        forall|t: Seq<char>| !(#[trigger] db.tagged.contains((id, t))),
    ensures
        ({
            let after = apply_create(
                new_article_of(article, author),
                id,
                updated_at,
                first_occurrences(given_tags),
                db,
            );
            let q = single_spec(slug_of(article.title@), viewer);
            let created = after.articles.last();
            &&& forall|k: int|
                0 <= k < after.articles.len() ==> (selects(q, after, #[trigger] after.articles[k])
                    <==> k == db.articles.len())
            &&& created.id == id
            &&& created.title == article.title@
            &&& created.description == article.description@
            &&& created.body == article.body@
            &&& forall|t: Seq<char>| #[trigger] after.tagged.contains((id, t)) <==> given_tags.contains(t)
        }),
{
    let after = apply_create(
        new_article_of(article, author),
        id,
        updated_at,
        first_occurrences(given_tags),
        db,
    );
    let slug = slug_of(article.title@);
    let q = single_spec(slug, viewer);
    assert forall|k: int| 0 <= k < after.articles.len() implies (selects(
        q,
        after,
        #[trigger] after.articles[k],
    ) <==> k == db.articles.len()) by {
        lemma_fetch_by_assigned_slug(article.title@, viewer, after, after.articles[k]);
        if k < db.articles.len() {
            assert(after.articles[k] == db.articles[k]);
        }
    }
    lemma_first_occurrences_members(given_tags);
    assert forall|t: Seq<char>| #[trigger] after.tagged.contains((id, t)) <==> given_tags.contains(t) by {
        assert(!db.tagged.contains((id, t)));
    }
}

} // verus!
