//! Statements of the secondary lookups and of the article mutations.
use vstd::prelude::*;
use crate::articles::{ArticleError, CreateArticle, UpdateArticle};
use crate::auth::Viewer;
use crate::query::{BindValue, BindView, Statement, StatementView};
use crate::slug::{create_slug, hyphenated, lower_of};

verus! {

pub open spec fn statement_of(sql: &'static str, binds: Seq<BindView>) -> StatementView {
    StatementView { sql: sql@, binds }
}

pub fn make_statement(sql: &'static str, binds: Vec<BindValue>) -> (r: Statement)
    ensures
        r@ == statement_of(sql, binds@.map_values(|b: BindValue| b@)),
{
    Statement { sql: String::from_str(sql), binds }
}

pub fn text(s: &str) -> (r: BindValue)
    ensures
        r@ == BindView::Text(s@),
{
    BindValue::Text(String::from_str(s))
}

/// A lookup that must find its row: the row, or `NotFound` when there is none.
pub fn require_row<T>(row: Option<T>) -> (r: Result<T, ArticleError>)
    ensures
        match row {
            Some(v) => r == Ok::<T, ArticleError>(v),
            None => r == Err::<T, ArticleError>(ArticleError::NotFound),
        },
{
    match row {
        Some(v) => Ok(v),
        None => Err(ArticleError::NotFound),
    }
}

pub const TAG_LIST_SQL: &'static str = "SELECT `tags`.`name` FROM `taglist` JOIN `tags` ON `tags`.`id`=`taglist`.`tag` WHERE `taglist`.`article`=? ORDER BY `taglist`.`rowid` ASC";

/// The tags of one article, in the order they were attached.
pub fn tag_list_statement(article_id: i64) -> (r: Statement)
    ensures
        r@ == statement_of(TAG_LIST_SQL, seq![BindView::Int(article_id)]),
{
    let r = make_statement(TAG_LIST_SQL, vec![BindValue::Int(article_id)]);
    assert(r@.binds =~= seq![BindView::Int(article_id)]);
    r
}

pub const PROFILE_BY_ID_ANONYMOUS_SQL: &'static str = "SELECT `username`, `bio`, `image`, FALSE AS `following` FROM `users` WHERE `users`.`id`=?";

pub const PROFILE_BY_ID_SQL: &'static str = "SELECT `username`, `bio`, `image`, (SELECT COUNT(*) FROM `follows` WHERE `follows`.`source`=? AND `follows`.`target`=`users`.`id`) AS `following` FROM `users` WHERE `users`.`id`=?";

/// The profile of user `user_id` as `viewer` sees it; an anonymous viewer
/// follows nobody, which the statement states without a lookup.
pub open spec fn profile_by_id_spec(viewer: Viewer, user_id: i64) -> StatementView {
    match viewer {
        Viewer::Anonymous => statement_of(PROFILE_BY_ID_ANONYMOUS_SQL, seq![BindView::Int(user_id)]),
        Viewer::Authenticated(v) => statement_of(
            PROFILE_BY_ID_SQL,
            seq![BindView::Int(v), BindView::Int(user_id)],
        ),
    }
}

pub fn profile_by_id_statement(viewer: Viewer, user_id: i64) -> (r: Statement)
    ensures
        r@ == profile_by_id_spec(viewer, user_id),
{
    match viewer {
        Viewer::Anonymous => {
            let r = make_statement(PROFILE_BY_ID_ANONYMOUS_SQL, vec![BindValue::Int(user_id)]);
            assert(r@.binds =~= seq![BindView::Int(user_id)]);
            r
        },
        Viewer::Authenticated(v) => {
            let r = make_statement(PROFILE_BY_ID_SQL, vec![BindValue::Int(v), BindValue::Int(user_id)]);
            assert(r@.binds =~= seq![BindView::Int(v), BindView::Int(user_id)]);
            r
        },
    }
}

pub const PROFILE_BY_NAME_ANONYMOUS_SQL: &'static str = "SELECT `username`, `bio`, `image`, FALSE AS `following` FROM `users` WHERE `users`.`username`=?";

pub const PROFILE_BY_NAME_SQL: &'static str = "SELECT `username`, `bio`, `image`, (SELECT COUNT(*) FROM `follows` WHERE `follows`.`source`=? AND `follows`.`target`=`users`.`id`) AS `following` FROM `users` WHERE `users`.`username`=?";

pub open spec fn profile_by_name_spec(viewer: Viewer, username: Seq<char>) -> StatementView {
    match viewer {
        Viewer::Anonymous => statement_of(PROFILE_BY_NAME_ANONYMOUS_SQL, seq![BindView::Text(username)]),
        Viewer::Authenticated(v) => statement_of(
            PROFILE_BY_NAME_SQL,
            seq![BindView::Int(v), BindView::Text(username)],
        ),
    }
}

/// The profile of the user named `username` as `viewer` sees it.
pub fn profile_by_name_statement(viewer: Viewer, username: &str) -> (r: Statement)
    ensures
        r@ == profile_by_name_spec(viewer, username@),
{
    match viewer {
        Viewer::Anonymous => {
            let r = make_statement(PROFILE_BY_NAME_ANONYMOUS_SQL, vec![text(username)]);
            assert(r@.binds =~= seq![BindView::Text(username@)]);
            r
        },
        Viewer::Authenticated(v) => {
            let r = make_statement(PROFILE_BY_NAME_SQL, vec![BindValue::Int(v), text(username)]);
            assert(r@.binds =~= seq![BindView::Int(v), BindView::Text(username@)]);
            r
        },
    }
}

pub const USER_ID_BY_NAME_SQL: &'static str = "SELECT `id` FROM `users` WHERE `username`=?";

/// Resolves a username to a user id (the dependent lookup of a filter).
pub fn user_id_by_name_statement(username: &str) -> (r: Statement)
    ensures
        r@ == statement_of(USER_ID_BY_NAME_SQL, seq![BindView::Text(username@)]),
{
    let r = make_statement(USER_ID_BY_NAME_SQL, vec![text(username)]);
    assert(r@.binds =~= seq![BindView::Text(username@)]);
    r
}

pub const ARTICLE_OWNER_SQL: &'static str = "SELECT `id`, `author` FROM `articles` WHERE `slug`=?";

/// Looks up an article's id and author by slug.
pub fn article_owner_statement(slug: &str) -> (r: Statement)
    ensures
        r@ == statement_of(ARTICLE_OWNER_SQL, seq![BindView::Text(slug@)]),
{
    let r = make_statement(ARTICLE_OWNER_SQL, vec![text(slug)]);
    assert(r@.binds =~= seq![BindView::Text(slug@)]);
    r
}

/// Decides, from the `(id, author)` that the owner lookup found, whether
/// `user_id` may change the article: its id, or why not.
pub fn authorize_owner(found: Option<(i64, i64)>, user_id: i64) -> (r: Result<i64, ArticleError>)
    ensures
        r == match found {
            None => Err(ArticleError::NotFound),
            Some((id, author)) => if author == user_id {
                Ok(id)
            } else {
                Err(ArticleError::Forbidden)
            },
        },
{
    match found {
        None => Err(ArticleError::NotFound),
        Some((id, author)) => if author == user_id {
            Ok(id)
        } else {
            Err(ArticleError::Forbidden)
        },
    }
}

pub const INSERT_ARTICLE_SQL: &'static str = "INSERT INTO `articles` (`slug`, `title`, `description`, `body`, `author`) VALUES (?, ?, ?, ?, ?) RETURNING `id`";

/// The slug that an article with `title` gets.
pub open spec fn slug_of(title: Seq<char>) -> Seq<char> {
    lower_of(hyphenated(title))
}

/// The stored fields of a new article. Its effect on the stored relations
/// is `model::apply_create`.
pub struct NewArticle {
    pub slug: Seq<char>,
    pub title: Seq<char>,
    pub description: Seq<char>,
    pub body: Seq<char>,
    pub author: i64,
}

/// The new article that a request by `author` describes.
pub open spec fn new_article_of(article: CreateArticle, author: i64) -> NewArticle {
    NewArticle {
        slug: slug_of(article.title@),
        title: article.title@,
        description: article.description@,
        body: article.body@,
        author,
    }
}

/// The statement that stores a new article.
pub open spec fn insert_article_spec(n: NewArticle) -> StatementView {
    statement_of(
        INSERT_ARTICLE_SQL,
        seq![
            BindView::Text(n.slug),
            BindView::Text(n.title),
            BindView::Text(n.description),
            BindView::Text(n.body),
            BindView::Int(n.author),
        ],
    )
}

/// Inserts a new article by `author`; also yields its slug.
pub fn insert_article_statement(article: &CreateArticle, author: i64) -> (r: (Statement, String))
    ensures
        r.1@ == slug_of(article.title@),
        r.0@ == insert_article_spec(new_article_of(*article, author)),
{
    let slug = create_slug(article.title.as_str());
    let binds = vec![
        BindValue::Text(slug.clone()),
        BindValue::Text(article.title.clone()),
        BindValue::Text(article.description.clone()),
        BindValue::Text(article.body.clone()),
        BindValue::Int(author),
    ];
    let r = make_statement(INSERT_ARTICLE_SQL, binds);
    assert(r@.binds =~= seq![
        BindView::Text(slug_of(article.title@)),
        BindView::Text(article.title@),
        BindView::Text(article.description@),
        BindView::Text(article.body@),
        BindView::Int(author),
    ]);
    (r, slug)
}

/// The most tags that one article may be created with.
pub const MAX_TAGS: usize = 999;

/// The texts in order, each kept at its first occurrence only.
pub open spec fn first_occurrences(s: Seq<Seq<char>>) -> Seq<Seq<char>>
    decreases s.len(),
{
    if s.len() == 0 {
        seq![]
    } else {
        let p = first_occurrences(s.drop_last());
        if p.contains(s.last()) {
            p
        } else {
            p.push(s.last())
        }
    }
}

/// Keeping first occurrences loses no text and adds none.
pub proof fn lemma_first_occurrences_members(s: Seq<Seq<char>>)
    ensures
        forall|t: Seq<char>| first_occurrences(s).contains(t) <==> s.contains(t),
    decreases s.len(),
{
    if s.len() > 0 {
        let init = s.drop_last();
        lemma_first_occurrences_members(init);
        assert(s =~= init.push(s.last()));
        let p = first_occurrences(init);
        assert(first_occurrences(s) == if p.contains(s.last()) {
            p
        } else {
            p.push(s.last())
        });
        assert forall|t: Seq<char>| first_occurrences(s).contains(t) <==> s.contains(t) by {
            if s.contains(t) {
                let k = choose|k: int| 0 <= k < s.len() && s[k] == t;
                if k < init.len() {
                    assert(init[k] == t);
                    assert(init.contains(t));
                    let j = choose|j: int| 0 <= j < p.len() && p[j] == t;
                    if !p.contains(s.last()) {
                        assert(p.push(s.last())[j] == t);
                    }
                } else {
                    assert(s.last() == t);
                    if !p.contains(t) {
                        assert(p.push(t)[p.len() as int] == t);
                    }
                }
            }
            if first_occurrences(s).contains(t) {
                if p.contains(t) {
                    assert(init.contains(t));
                    let k = choose|k: int| 0 <= k < init.len() && init[k] == t;
                    assert(s[k] == t);
                } else {
                    let q = p.push(s.last());
                    assert(first_occurrences(s) == q);
                    let k = choose|k: int| 0 <= k < q.len() && q[k] == t;
                    if k < p.len() {
                        assert(p[k] == t);
                    } else {
                        assert(s[s.len() - 1] == t);
                    }
                }
            }
        }
    }
}

pub open spec fn texts(v: Seq<String>) -> Seq<Seq<char>> {
    v.map_values(|s: String| s@)
}

fn contains_text(v: &Vec<String>, t: &String) -> (r: bool)
    ensures
        r == texts(v@).contains(t@),
{
    let mut i: usize = 0;
    while i < v.len()
        invariant
            i <= v@.len(),
            forall|j: int| 0 <= j < i ==> v@[j]@ != t@,
        decreases v@.len() - i,
    {
        if v[i] == *t {
            assert(texts(v@)[i as int] == t@);
            return true;
        }
        i = i + 1;
    }
    proof {
        if texts(v@).contains(t@) {
            let k = choose|k: int| 0 <= k < texts(v@).len() && texts(v@)[k] == t@;
            assert(v@[k]@ == t@);
        }
    }
    false
}

/// The tags of a new article, each once, in the order first given.
pub fn unique_tags(tags: &Vec<String>) -> (r: Result<Vec<String>, ArticleError>)
    ensures
        tags@.len() > MAX_TAGS ==> r == Err::<Vec<String>, ArticleError>(ArticleError::TooManyTags),
        tags@.len() <= MAX_TAGS ==> (r matches Ok(u) && texts(u@) == first_occurrences(texts(tags@))),
{
    if tags.len() > MAX_TAGS {
        return Err(ArticleError::TooManyTags);
    }
    let mut out: Vec<String> = Vec::new();
    let mut i: usize = 0;
    while i < tags.len()
        invariant
            i <= tags@.len(),
            texts(out@) == first_occurrences(texts(tags@.subrange(0, i as int))),
        decreases tags@.len() - i,
    {
        let t = &tags[i];
        let seen = contains_text(&out, t);
        proof {
            assert(texts(tags@.subrange(0, i + 1)).drop_last() =~= texts(tags@.subrange(0, i as int)));
            assert(texts(tags@.subrange(0, i + 1)).last() == t@);
        }
        if !seen {
            out.push(t.clone());
            assert(texts(out@) =~= first_occurrences(texts(tags@.subrange(0, i as int))).push(t@));
        }
        i = i + 1;
    }
    assert(tags@.subrange(0, i as int) =~= tags@);
    Ok(out)
}

pub const ENSURE_TAG_SQL: &'static str = "INSERT OR IGNORE INTO `tags` (`name`) VALUES (?)";

pub const LINK_TAG_SQL: &'static str = "INSERT INTO `taglist` (`article`, `tag`) SELECT ?, `id` FROM `tags` WHERE `name`=?";

/// For each tag in order: make sure the tag exists, then attach it to the
/// article, so that the article's tags keep the order given.
pub fn tag_statements(article_id: i64, tags: &Vec<String>) -> (r: Vec<Statement>)
    ensures
        r@.len() == 2 * tags@.len(),
        forall|i: int|
            0 <= i < tags@.len() ==> (#[trigger] r@[2 * i])@ == statement_of(
                ENSURE_TAG_SQL,
                seq![BindView::Text(tags@[i]@)],
            ) && r@[2 * i + 1]@ == statement_of(
                LINK_TAG_SQL,
                seq![BindView::Int(article_id), BindView::Text(tags@[i]@)],
            ),
{
    let mut r: Vec<Statement> = Vec::new();
    let mut i: usize = 0;
    while i < tags.len()
        invariant
            i <= tags@.len(),
            r@.len() == 2 * i,
            forall|j: int|
                0 <= j < i ==> (#[trigger] r@[2 * j])@ == statement_of(
                    ENSURE_TAG_SQL,
                    seq![BindView::Text(tags@[j]@)],
                ) && r@[2 * j + 1]@ == statement_of(
                    LINK_TAG_SQL,
                    seq![BindView::Int(article_id), BindView::Text(tags@[j]@)],
                ),
        decreases tags@.len() - i,
    {
        let ensure = make_statement(ENSURE_TAG_SQL, vec![BindValue::Text(tags[i].clone())]);
        assert(ensure@.binds =~= seq![BindView::Text(tags@[i as int]@)]);
        let link = make_statement(
            LINK_TAG_SQL,
            vec![BindValue::Int(article_id), BindValue::Text(tags[i].clone())],
        );
        assert(link@.binds =~= seq![BindView::Int(article_id), BindView::Text(tags@[i as int]@)]);
        let ghost before = r@;
        r.push(ensure);
        r.push(link);
        assert forall|j: int| 0 <= j < i + 1 implies (#[trigger] r@[2 * j])@ == statement_of(
            ENSURE_TAG_SQL,
            seq![BindView::Text(tags@[j]@)],
        ) && r@[2 * j + 1]@ == statement_of(
            LINK_TAG_SQL,
            seq![BindView::Int(article_id), BindView::Text(tags@[j]@)],
        ) by {
            if j < i {
                assert(r@[2 * j] == before[2 * j]);
                assert(r@[2 * j + 1] == before[2 * j + 1]);
            }
        }
        i = i + 1;
    }
    r
}

pub const UPDATE_HEAD_SQL: &'static str = "UPDATE `articles` SET `updatedAt`=CURRENT_TIMESTAMP";

pub const SET_SLUG_SQL: &'static str = ", `slug`=?";

pub const SET_TITLE_SQL: &'static str = ", `title`=?";

pub const SET_DESCRIPTION_SQL: &'static str = ", `description`=?";

pub const SET_BODY_SQL: &'static str = ", `body`=?";

pub const WHERE_ID_SQL: &'static str = " WHERE `id`=?";

/// What an update of an article does: the statement to run, if any field
/// changes, and the slug under which the article is found afterwards.
#[derive(Debug, Clone)]
pub struct ArticleUpdate {
    pub statement: Option<Statement>,
    pub slug: String,
}

pub open spec fn opt_sql(o: Option<String>, sql: &'static str) -> Seq<char> {
    if o is Some {
        sql@
    } else {
        seq![]
    }
}

pub open spec fn opt_bind(o: Option<String>) -> Seq<BindView> {
    match o {
        Some(s) => seq![BindView::Text(s@)],
        None => seq![],
    }
}

/// The statement of an update that changes at least one field. A new title
/// also moves the article to the slug of that title.
pub open spec fn update_spec(article_id: i64, u: UpdateArticle) -> StatementView {
    StatementView {
        sql: UPDATE_HEAD_SQL@ + opt_sql(u.title, SET_SLUG_SQL) + opt_sql(u.title, SET_TITLE_SQL)
            + opt_sql(u.description, SET_DESCRIPTION_SQL) + opt_sql(u.body, SET_BODY_SQL)
            + WHERE_ID_SQL@,
        binds: (match u.title {
            Some(t) => seq![BindView::Text(slug_of(t@)), BindView::Text(t@)],
            None => seq![],
        }) + opt_bind(u.description) + opt_bind(u.body) + seq![BindView::Int(article_id)],
    }
}

/// Plans the update of article `article_id`, now found under `slug`.
pub fn compose_update(article_id: i64, slug: &str, update: &UpdateArticle) -> (r: ArticleUpdate)
    ensures
        r.slug@ == match update.title {
            Some(t) => slug_of(t@),
            None => slug@,
        },
        update.title is None && update.description is None && update.body is None
            ==> r.statement is None,
        !(update.title is None && update.description is None && update.body is None) ==> (
        r.statement matches Some(st) && st@ == update_spec(article_id, *update)),
{
    let new_slug = match &update.title {
        Some(t) => create_slug(t.as_str()),
        None => String::from_str(slug),
    };
    if update.title.is_none() && update.description.is_none() && update.body.is_none() {
        return ArticleUpdate { statement: None, slug: new_slug };
    }
    let mut sql = String::from_str(UPDATE_HEAD_SQL);
    let mut binds: Vec<BindValue> = Vec::new();
    if let Some(t) = &update.title {
        sql.append(SET_SLUG_SQL);
        sql.append(SET_TITLE_SQL);
        binds.push(BindValue::Text(new_slug.clone()));
        binds.push(BindValue::Text(t.clone()));
    }
    if let Some(d) = &update.description {
        sql.append(SET_DESCRIPTION_SQL);
        binds.push(BindValue::Text(d.clone()));
    }
    if let Some(b) = &update.body {
        sql.append(SET_BODY_SQL);
        binds.push(BindValue::Text(b.clone()));
    }
    sql.append(WHERE_ID_SQL);
    binds.push(BindValue::Int(article_id));
    let st = Statement { sql, binds };
    assert(st@.sql =~= update_spec(article_id, *update).sql);
    assert(st@.binds =~= update_spec(article_id, *update).binds);
    ArticleUpdate { statement: Some(st), slug: new_slug }
}

pub const DELETE_FAVORITES_SQL: &'static str = "DELETE FROM `favorites` WHERE `target`=?";

pub const DELETE_TAGLIST_SQL: &'static str = "DELETE FROM `taglist` WHERE `article`=?";

pub const DELETE_COMMENTS_SQL: &'static str = "DELETE FROM `comments` WHERE `article`=?";

pub const DELETE_ARTICLE_SQL: &'static str = "DELETE FROM `articles` WHERE `id`=?";

/// Removes an article: first what refers to it, then the article itself.
/// Each step can be run again safely.
pub fn delete_statements(article_id: i64) -> (r: Vec<Statement>)
    ensures
        r@.len() == 4,
        r@[0]@ == statement_of(DELETE_FAVORITES_SQL, seq![BindView::Int(article_id)]),
        r@[1]@ == statement_of(DELETE_TAGLIST_SQL, seq![BindView::Int(article_id)]),
        r@[2]@ == statement_of(DELETE_COMMENTS_SQL, seq![BindView::Int(article_id)]),
        r@[3]@ == statement_of(DELETE_ARTICLE_SQL, seq![BindView::Int(article_id)]),
{
    let a = make_statement(DELETE_FAVORITES_SQL, vec![BindValue::Int(article_id)]);
    let b = make_statement(DELETE_TAGLIST_SQL, vec![BindValue::Int(article_id)]);
    let c = make_statement(DELETE_COMMENTS_SQL, vec![BindValue::Int(article_id)]);
    let d = make_statement(DELETE_ARTICLE_SQL, vec![BindValue::Int(article_id)]);
    assert(a@.binds =~= seq![BindView::Int(article_id)]);
    assert(b@.binds =~= seq![BindView::Int(article_id)]);
    assert(c@.binds =~= seq![BindView::Int(article_id)]);
    assert(d@.binds =~= seq![BindView::Int(article_id)]);
    vec![a, b, c, d]
}

pub const FAVORITE_SQL: &'static str = "INSERT OR IGNORE INTO `favorites` (`source`, `target`) SELECT ?, `id` FROM `articles` WHERE `articles`.`slug`=?";

pub const UNFAVORITE_SQL: &'static str = "DELETE FROM `favorites` WHERE `source`=? AND `target`=(SELECT `id` FROM `articles` WHERE `articles`.`slug`=?)";

/// User `user_id` favorites the article with `slug`.
pub fn favorite_statement(user_id: i64, slug: &str) -> (r: Statement)
    ensures
        r@ == statement_of(FAVORITE_SQL, seq![BindView::Int(user_id), BindView::Text(slug@)]),
{
    let r = make_statement(FAVORITE_SQL, vec![BindValue::Int(user_id), text(slug)]);
    assert(r@.binds =~= seq![BindView::Int(user_id), BindView::Text(slug@)]);
    r
}

/// User `user_id` takes back a favorite of the article with `slug`.
pub fn unfavorite_statement(user_id: i64, slug: &str) -> (r: Statement)
    ensures
        r@ == statement_of(UNFAVORITE_SQL, seq![BindView::Int(user_id), BindView::Text(slug@)]),
{
    let r = make_statement(UNFAVORITE_SQL, vec![BindValue::Int(user_id), text(slug)]);
    assert(r@.binds =~= seq![BindView::Int(user_id), BindView::Text(slug@)]);
    r
}

} // verus!
