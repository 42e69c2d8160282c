//! Query composer: one structured plan for the listing, the feed and the
//! single-article fetch, rendered into statement text and ordered binds.
//!
//! Every optional filter is a condition that is either a real test or
//! `AlwaysTrue`, so the conditions are joined by `AND` uniformly, and each
//! condition contributes its text and its bind values together.
use vstd::prelude::*;
use crate::auth::Viewer;
use crate::articles::{ArticleError, FeedArticlesConstraints, ListArticlesConstraints};

verus! {

/// User id bound for an anonymous viewer; no user ever has it.
pub const ANONYMOUS_ID: i64 = -1;

/// The id under which the viewer's own favorites and follows are looked up.
pub open spec fn viewer_id(v: Viewer) -> i64 {
    match v {
        Viewer::Anonymous => ANONYMOUS_ID,
        Viewer::Authenticated(id) => id,
    }
}

pub fn viewer_id_of(v: Viewer) -> (r: i64)
    ensures
        r == viewer_id(v),
{
    match v {
        Viewer::Anonymous => ANONYMOUS_ID,
        Viewer::Authenticated(id) => id,
    }
}

/// A value bound to one `?` of a statement.
#[derive(Debug, Clone, PartialEq, Eq)]
pub enum BindValue {
    Int(i64),
    Text(String),
}

pub enum BindView {
    Int(i64),
    Text(Seq<char>),
}

impl View for BindValue {
    type V = BindView;

    open spec fn view(&self) -> BindView {
        match self {
            BindValue::Int(i) => BindView::Int(*i),
            BindValue::Text(s) => BindView::Text(s@),
        }
    }
}

/// Statement text with its bind values, in the order of the placeholders.
#[derive(Debug, Clone, PartialEq, Eq)]
pub struct Statement {
    pub sql: String,
    pub binds: Vec<BindValue>,
}

pub struct StatementView {
    pub sql: Seq<char>,
    pub binds: Seq<BindView>,
}

impl View for Statement {
    type V = StatementView;

    open spec fn view(&self) -> StatementView {
        StatementView { sql: self.sql@, binds: self.binds@.map_values(|b: BindValue| b@) }
    }
}

/// One condition that an article must meet to be selected.
#[derive(Debug, Clone, PartialEq, Eq)]
pub enum Condition {
    /// Stands in for a filter that was not given.
    AlwaysTrue,
    /// The user with this id has favorited the article.
    FavoritedBy(i64),
    /// The article carries a tag of this name.
    TagNamed(String),
    /// The article's author has this username.
    AuthorNamed(String),
    /// The user with this id follows the article's author.
    FollowedBy(i64),
    /// The article has this slug.
    SlugIs(String),
}

pub enum ConditionView {
    AlwaysTrue,
    FavoritedBy(i64),
    TagNamed(Seq<char>),
    AuthorNamed(Seq<char>),
    FollowedBy(i64),
    SlugIs(Seq<char>),
}

impl View for Condition {
    type V = ConditionView;

    open spec fn view(&self) -> ConditionView {
        match self {
            Condition::AlwaysTrue => ConditionView::AlwaysTrue,
            Condition::FavoritedBy(u) => ConditionView::FavoritedBy(*u),
            Condition::TagNamed(t) => ConditionView::TagNamed(t@),
            Condition::AuthorNamed(a) => ConditionView::AuthorNamed(a@),
            Condition::FollowedBy(u) => ConditionView::FollowedBy(*u),
            Condition::SlugIs(s) => ConditionView::SlugIs(s@),
        }
    }
}

/// A query over articles: who is viewing, which conditions select, and the
/// pagination window. Rows come ordered by last update, newest first, ties by
/// id (the order of insertion).
#[derive(Debug, Clone, PartialEq, Eq)]
pub struct ArticleQuery {
    pub viewer_id: i64,
    pub with_body: bool,
    pub conditions: Vec<Condition>,
    pub limit: Option<i64>,
    pub offset: Option<i64>,
}

pub struct QueryView {
    pub viewer_id: i64,
    pub with_body: bool,
    pub conditions: Seq<ConditionView>,
    pub limit: Option<i64>,
    pub offset: Option<i64>,
}

impl View for ArticleQuery {
    type V = QueryView;

    open spec fn view(&self) -> QueryView {
        QueryView {
            viewer_id: self.viewer_id,
            with_body: self.with_body,
            conditions: self.conditions@.map_values(|c: Condition| c@),
            limit: self.limit,
            offset: self.offset,
        }
    }
}

/// An offset is only meaningful together with a limit.
pub open spec fn pagination_ok(limit: Option<i64>, offset: Option<i64>) -> bool {
    !(offset is Some && limit is None)
}

/// Rejects an offset without a limit; this is decided before any storage access.
pub fn validate_pagination(limit: Option<i64>, offset: Option<i64>) -> (r: Result<(), ArticleError>)
    ensures
        r is Ok <==> pagination_ok(limit, offset),
        r is Err ==> r == Err::<(), ArticleError>(ArticleError::InvalidPagination),
{
    if offset.is_some() && limit.is_none() {
        Err(ArticleError::InvalidPagination)
    } else {
        Ok(())
    }
}

/// The plan of the general listing, given the ids that the `favorited` and
/// `author` usernames resolved to (`None`: no such user).
pub open spec fn listing_spec(
    f: ListArticlesConstraints,
    viewer: Viewer,
    favorited_id: Option<i64>,
    author_id: Option<i64>,
) -> Result<QueryView, ArticleError> {
    if !pagination_ok(f.limit, f.offset) {
        Err(ArticleError::InvalidPagination)
    } else if f.favorited is Some && favorited_id is None {
        Err(ArticleError::NotFound)
    } else if f.author is Some && author_id is None {
        Err(ArticleError::NotFound)
    } else {
        Ok(
            QueryView {
                viewer_id: viewer_id(viewer),
                with_body: false,
                conditions: seq![
                    match f.favorited {
                        Some(_) => ConditionView::FavoritedBy(favorited_id.unwrap()),
                        None => ConditionView::AlwaysTrue,
                    },
                    match f.tag {
                        Some(t) => ConditionView::TagNamed(t@),
                        None => ConditionView::AlwaysTrue,
                    },
                    match f.author {
                        Some(a) => ConditionView::AuthorNamed(a@),
                        None => ConditionView::AlwaysTrue,
                    },
                ],
                limit: f.limit,
                offset: f.offset,
            },
        )
    }
}

/// The plan of the feed of the user `user_id`: articles by authors that
/// the user follows.
pub open spec fn feed_spec(c: FeedArticlesConstraints, user_id: i64) -> Result<
    QueryView,
    ArticleError,
> {
    if !pagination_ok(c.limit, c.offset) {
        Err(ArticleError::InvalidPagination)
    } else {
        Ok(
            QueryView {
                viewer_id: user_id,
                with_body: false,
                conditions: seq![ConditionView::FollowedBy(user_id)],
                limit: c.limit,
                offset: c.offset,
            },
        )
    }
}

/// The plan of the fetch of one article by slug.
pub open spec fn single_spec(slug: Seq<char>, viewer: Viewer) -> QueryView {
    QueryView {
        viewer_id: viewer_id(viewer),
        with_body: true,
        conditions: seq![ConditionView::SlugIs(slug)],
        limit: None,
        offset: None,
    }
}

pub open spec fn agrees_query(r: Result<ArticleQuery, ArticleError>, s: Result<QueryView, ArticleError>) -> bool {
    match (r, s) {
        (Ok(q), Ok(v)) => q@ == v,
        (Err(e), Err(f)) => e == f,
        _ => false,
    }
}

/// Composes the general listing.
pub fn compose_listing(
    filter: &ListArticlesConstraints,
    viewer: Viewer,
    favorited_id: Option<i64>,
    author_id: Option<i64>,
) -> (r: Result<ArticleQuery, ArticleError>)
    ensures
        agrees_query(r, listing_spec(*filter, viewer, favorited_id, author_id)),
{
    validate_pagination(filter.limit, filter.offset)?;
    let favorited = match (&filter.favorited, favorited_id) {
        (Some(_), None) => return Err(ArticleError::NotFound),
        (Some(_), Some(id)) => Condition::FavoritedBy(id),
        (None, _) => Condition::AlwaysTrue,
    };
    let author = match (&filter.author, author_id) {
        (Some(_), None) => return Err(ArticleError::NotFound),
        (Some(name), Some(_)) => Condition::AuthorNamed(name.clone()),
        (None, _) => Condition::AlwaysTrue,
    };
    let tag = match &filter.tag {
        Some(name) => Condition::TagNamed(name.clone()),
        None => Condition::AlwaysTrue,
    };
    let conditions = vec![favorited, tag, author];
    let q = ArticleQuery {
        viewer_id: viewer_id_of(viewer),
        with_body: false,
        conditions,
        limit: filter.limit,
        offset: filter.offset,
    };
    assert(q@.conditions =~= listing_spec(*filter, viewer, favorited_id, author_id)->Ok_0.conditions);
    Ok(q)
}

/// Composes the feed of the authenticated user `user_id`.
pub fn compose_feed(constraints: &FeedArticlesConstraints, user_id: i64) -> (r: Result<
    ArticleQuery,
    ArticleError,
>)
    ensures
        agrees_query(r, feed_spec(*constraints, user_id)),
{
    validate_pagination(constraints.limit, constraints.offset)?;
    let q = ArticleQuery {
        viewer_id: user_id,
        with_body: false,
        conditions: vec![Condition::FollowedBy(user_id)],
        limit: constraints.limit,
        offset: constraints.offset,
    };
    assert(q@.conditions =~= feed_spec(*constraints, user_id)->Ok_0.conditions);
    Ok(q)
}

/// Composes the fetch of the article with `slug`.
pub fn compose_single(slug: &str, viewer: Viewer) -> (r: ArticleQuery)
    ensures
        r@ == single_spec(slug@, viewer),
{
    let q = ArticleQuery {
        viewer_id: viewer_id_of(viewer),
        with_body: true,
        conditions: vec![Condition::SlugIs(String::from_str(slug))],
        limit: None,
        offset: None,
    };
    assert(q@.conditions =~= single_spec(slug@, viewer).conditions);
    q
}

/// Columns of every article query, up to the description.
pub const SELECT_HEAD: &'static str = "SELECT `articles`.`id`, `articles`.`slug`, `articles`.`title`, `articles`.`description`, ";

/// The body column, selected by the single-article fetch only.
pub const BODY_COLUMN: &'static str = "`articles`.`body`, ";

/// The remaining columns: timestamps, author, and the two favorite counts.
/// The first placeholder is the viewer's id.
pub const SELECT_TAIL: &'static str = "strftime('%Y-%m-%dT%H:%M:%fZ', `articles`.`createdAt`) AS `createdAt`, strftime('%Y-%m-%dT%H:%M:%fZ', `articles`.`updatedAt`) AS `updatedAt`, `articles`.`author`, (SELECT COUNT(*) FROM `favorites` WHERE `favorites`.`source`=? AND `favorites`.`target`=`articles`.`id`) AS `favorited`, (SELECT COUNT(*) FROM `favorites` WHERE `favorites`.`target`=`articles`.`id`) AS `favoritesCount` FROM `articles` WHERE TRUE";

pub const AND: &'static str = " AND ";

pub const ALWAYS_TRUE_SQL: &'static str = "TRUE";

pub const FAVORITED_BY_SQL: &'static str = "EXISTS (SELECT 1 FROM `favorites` WHERE `favorites`.`source`=? AND `favorites`.`target`=`articles`.`id`)";

pub const TAG_NAMED_SQL: &'static str = "EXISTS (SELECT 1 FROM `taglist` JOIN `tags` ON `tags`.`id`=`taglist`.`tag` WHERE `taglist`.`article`=`articles`.`id` AND `tags`.`name`=?)";

pub const AUTHOR_NAMED_SQL: &'static str = "EXISTS (SELECT 1 FROM `users` WHERE `users`.`id`=`articles`.`author` AND `users`.`username`=?)";

pub const FOLLOWED_BY_SQL: &'static str = "EXISTS (SELECT 1 FROM `follows` WHERE `follows`.`source`=? AND `follows`.`target`=`articles`.`author`)";

pub const SLUG_IS_SQL: &'static str = "`articles`.`slug`=?";

/// Newest update first; equal update times keep the order of insertion.
pub const ORDER_SQL: &'static str = " ORDER BY `articles`.`updatedAt` DESC, `articles`.`id` ASC";

pub const LIMIT_SQL: &'static str = " LIMIT ?";

pub const OFFSET_SQL: &'static str = " OFFSET ?";

pub open spec fn condition_sql(c: ConditionView) -> Seq<char> {
    match c {
        ConditionView::AlwaysTrue => ALWAYS_TRUE_SQL@,
        ConditionView::FavoritedBy(_) => FAVORITED_BY_SQL@,
        ConditionView::TagNamed(_) => TAG_NAMED_SQL@,
        ConditionView::AuthorNamed(_) => AUTHOR_NAMED_SQL@,
        ConditionView::FollowedBy(_) => FOLLOWED_BY_SQL@,
        ConditionView::SlugIs(_) => SLUG_IS_SQL@,
    }
}

pub open spec fn condition_binds(c: ConditionView) -> Seq<BindView> {
    match c {
        ConditionView::AlwaysTrue => seq![],
        ConditionView::FavoritedBy(u) => seq![BindView::Int(u)],
        ConditionView::TagNamed(t) => seq![BindView::Text(t)],
        ConditionView::AuthorNamed(a) => seq![BindView::Text(a)],
        ConditionView::FollowedBy(u) => seq![BindView::Int(u)],
        ConditionView::SlugIs(s) => seq![BindView::Text(s)],
    }
}

/// Each condition in turn, prefixed by `AND`.
pub open spec fn conditions_sql(cs: Seq<ConditionView>) -> Seq<char>
    decreases cs.len(),
{
    if cs.len() == 0 {
        seq![]
    } else {
        conditions_sql(cs.drop_last()) + AND@ + condition_sql(cs.last())
    }
}

/// The binds of each condition in turn.
pub open spec fn conditions_binds(cs: Seq<ConditionView>) -> Seq<BindView>
    decreases cs.len(),
{
    if cs.len() == 0 {
        seq![]
    } else {
        conditions_binds(cs.drop_last()) + condition_binds(cs.last())
    }
}

pub open spec fn select_sql(with_body: bool) -> Seq<char> {
    if with_body {
        SELECT_HEAD@ + BODY_COLUMN@ + SELECT_TAIL@
    } else {
        SELECT_HEAD@ + SELECT_TAIL@
    }
}

pub open spec fn query_sql(q: QueryView) -> Seq<char> {
    select_sql(q.with_body) + conditions_sql(q.conditions) + ORDER_SQL@ + (if q.limit is Some {
        LIMIT_SQL@
    } else {
        seq![]
    }) + (if q.offset is Some {
        OFFSET_SQL@
    } else {
        seq![]
    })
}

/// Viewer id, the conditions' values in order, then limit and offset.
pub open spec fn query_binds(q: QueryView) -> Seq<BindView> {
    seq![BindView::Int(q.viewer_id)] + conditions_binds(q.conditions) + (match q.limit {
        Some(l) => seq![BindView::Int(l)],
        None => seq![],
    }) + (match q.offset {
        Some(o) => seq![BindView::Int(o)],
        None => seq![],
    })
}

pub open spec fn render(q: QueryView) -> StatementView {
    StatementView { sql: query_sql(q), binds: query_binds(q) }
}

fn condition_text(c: &Condition) -> (r: &'static str)
    ensures
        r@ == condition_sql(c@),
{
    match c {
        Condition::AlwaysTrue => ALWAYS_TRUE_SQL,
        Condition::FavoritedBy(_) => FAVORITED_BY_SQL,
        Condition::TagNamed(_) => TAG_NAMED_SQL,
        Condition::AuthorNamed(_) => AUTHOR_NAMED_SQL,
        Condition::FollowedBy(_) => FOLLOWED_BY_SQL,
        Condition::SlugIs(_) => SLUG_IS_SQL,
    }
}

/// Appends the bind values of `c` to `binds`.
fn push_condition_binds(c: &Condition, binds: &mut Vec<BindValue>)
    ensures
        final(binds)@.map_values(|b: BindValue| b@) == old(binds)@.map_values(|b: BindValue| b@)
            + condition_binds(c@),
{
    let ghost before = binds@;
    match c {
        Condition::AlwaysTrue => {},
        Condition::FavoritedBy(u) => binds.push(BindValue::Int(*u)),
        Condition::TagNamed(t) => binds.push(BindValue::Text(t.clone())),
        Condition::AuthorNamed(a) => binds.push(BindValue::Text(a.clone())),
        Condition::FollowedBy(u) => binds.push(BindValue::Int(*u)),
        Condition::SlugIs(s) => binds.push(BindValue::Text(s.clone())),
    }
    assert(binds@.map_values(|b: BindValue| b@) =~= before.map_values(|b: BindValue| b@)
        + condition_binds(c@));
}

impl ArticleQuery {
    /// Renders the plan into statement text and its binds.
    pub fn to_statement(&self) -> (r: Statement)
        ensures
            r@ == render(self@),
    {
        let mut sql = String::from_str(SELECT_HEAD);
        if self.with_body {
            sql.append(BODY_COLUMN);
        }
        sql.append(SELECT_TAIL);
        let mut binds: Vec<BindValue> = Vec::new();
        binds.push(BindValue::Int(self.viewer_id));
        let ghost prefix = sql@;
        let ghost cs = self@.conditions;
        assert(binds@.map_values(|b: BindValue| b@) =~= seq![BindView::Int(self.viewer_id)]);
        let mut i: usize = 0;
        while i < self.conditions.len()
            invariant
                i <= self.conditions@.len(),
                cs == self@.conditions,
                cs.len() == self.conditions@.len(),
                prefix == select_sql(self.with_body),
                sql@ == prefix + conditions_sql(cs.subrange(0, i as int)),
                binds@.map_values(|b: BindValue| b@) == seq![BindView::Int(self.viewer_id)]
                    + conditions_binds(cs.subrange(0, i as int)),
            decreases self.conditions@.len() - i,
        {
            let c = &self.conditions[i];
            sql.append(AND);
            sql.append(condition_text(c));
            push_condition_binds(c, &mut binds);
            proof {
                let next = cs.subrange(0, i + 1);
                assert(next.drop_last() =~= cs.subrange(0, i as int));
                assert(next.last() == c@);
            }
            i = i + 1;
        }
        assert(cs.subrange(0, i as int) =~= cs);
        sql.append(ORDER_SQL);
        if let Some(l) = self.limit {
            sql.append(LIMIT_SQL);
            binds.push(BindValue::Int(l));
        }
        if let Some(o) = self.offset {
            sql.append(OFFSET_SQL);
            binds.push(BindValue::Int(o));
        }
        let r = Statement { sql, binds };
        assert(r@.sql =~= query_sql(self@));
        assert(r@.binds =~= query_binds(self@));
        r
    }
}

} // verus!
