use realworld::articles::{ArticleError, CreateArticle, UpdateArticle};
use realworld::auth::Viewer;
use realworld::comments::{article_id_statement, comments_statement, insert_comment_statement, AddComment};
use realworld::profile::{follow_statement, unfollow_statement};
use realworld::query::BindValue;
use realworld::statements::{
    authorize_owner, compose_update, delete_statements, favorite_statement, insert_article_statement,
    profile_by_id_statement, profile_by_name_statement, tag_list_statement, tag_statements,
    require_row, unfavorite_statement, unique_tags, MAX_TAGS,
};
use realworld::tags::all_tags_statement;

fn text(s: &str) -> BindValue {
    BindValue::Text(String::from(s))
}

#[test]
fn create_binds_slug_and_fields() {
    let article = CreateArticle {
        title: String::from("A New Post"),
        description: String::from("desc"),
        body: String::from("body"),
        tag_list: Some(vec![String::from("t")]),
    };
    let (st, slug) = insert_article_statement(&article, 2);
    assert_eq!(slug, "a-new-post");
    assert_eq!(
        st.binds,
        vec![text("a-new-post"), text("A New Post"), text("desc"), text("body"), BindValue::Int(2)]
    );
    assert!(st.sql.starts_with("INSERT INTO `articles`"));
}

#[test]
fn tags_deduplicated_in_given_order() {
    let tags = vec![String::from("b"), String::from("a"), String::from("b"), String::from("c"), String::from("a")];
    assert_eq!(
        unique_tags(&tags),
        Ok(vec![String::from("b"), String::from("a"), String::from("c")])
    );
    assert_eq!(unique_tags(&vec![]), Ok(vec![]));
}

#[test]
fn too_many_tags_rejected() {
    let tags: Vec<String> = (0..(MAX_TAGS + 1)).map(|i| format!("t{}", i)).collect();
    assert_eq!(unique_tags(&tags), Err(ArticleError::TooManyTags));
    let most: Vec<String> = (0..MAX_TAGS).map(|i| format!("t{}", i)).collect();
    assert_eq!(unique_tags(&most).unwrap().len(), MAX_TAGS);
}

#[test]
fn tag_statements_pair_up() {
    let st = tag_statements(8, &vec![String::from("x"), String::from("y")]);
    assert_eq!(st.len(), 4);
    assert_eq!(st[0].binds, vec![text("x")]);
    assert_eq!(st[1].binds, vec![BindValue::Int(8), text("x")]);
    assert_eq!(st[3].binds, vec![BindValue::Int(8), text("y")]);
    assert_eq!(tag_list_statement(8).binds, vec![BindValue::Int(8)]);
}

#[test]
fn owner_check() {
    assert_eq!(authorize_owner(None, 1), Err(ArticleError::NotFound));
    assert_eq!(authorize_owner(Some((10, 2)), 1), Err(ArticleError::Forbidden));
    assert_eq!(authorize_owner(Some((10, 1)), 1), Ok(10));
}

#[test]
fn update_without_fields_changes_nothing() {
    let u = UpdateArticle { title: None, description: None, body: None };
    let plan = compose_update(3, "old-slug", &u);
    assert!(plan.statement.is_none());
    assert_eq!(plan.slug, "old-slug");
}

#[test]
fn update_title_moves_slug() {
    let u = UpdateArticle { title: Some(String::from("Better Title")), description: None, body: Some(String::from("b2")) };
    let plan = compose_update(3, "old-slug", &u);
    assert_eq!(plan.slug, "better-title");
    let st = plan.statement.unwrap();
    assert_eq!(
        st.sql,
        "UPDATE `articles` SET `updatedAt`=CURRENT_TIMESTAMP, `slug`=?, `title`=?, `body`=? WHERE `id`=?"
    );
    assert_eq!(st.binds, vec![text("better-title"), text("Better Title"), text("b2"), BindValue::Int(3)]);
}

#[test]
fn update_description_keeps_slug() {
    let u = UpdateArticle { title: None, description: Some(String::from("d")), body: None };
    let plan = compose_update(3, "old-slug", &u);
    assert_eq!(plan.slug, "old-slug");
    assert_eq!(plan.statement.unwrap().binds, vec![text("d"), BindValue::Int(3)]);
}

#[test]
fn delete_removes_dependents_first() {
    let st = delete_statements(6);
    assert_eq!(st.len(), 4);
    assert!(st[0].sql.contains("`favorites`"));
    assert!(st[3].sql.starts_with("DELETE FROM `articles`"));
    for s in &st {
        assert_eq!(s.binds, vec![BindValue::Int(6)]);
    }
}

#[test]
fn unfollow_twice_composes_same_statement() {
    let a = unfollow_statement(1, "u2");
    let b = unfollow_statement(1, "u2");
    assert_eq!(a, b);
    assert!(a.sql.starts_with("DELETE FROM `follows`"));
    assert_eq!(a.binds, vec![BindValue::Int(1), text("u2")]);
    let f = follow_statement(1, "u2");
    assert!(f.sql.starts_with("INSERT OR IGNORE INTO `follows`"));
    assert_eq!(f.binds, vec![BindValue::Int(1), text("u2")]);
}

#[test]
fn favorite_statements() {
    assert_eq!(favorite_statement(1, "a-new-post").binds, vec![BindValue::Int(1), text("a-new-post")]);
    assert_eq!(unfavorite_statement(1, "a-new-post").binds, vec![BindValue::Int(1), text("a-new-post")]);
}

#[test]
fn profile_lookups_depend_on_viewer() {
    let anon = profile_by_id_statement(Viewer::Anonymous, 2);
    assert!(anon.sql.contains("FALSE AS `following`"));
    assert_eq!(anon.binds, vec![BindValue::Int(2)]);
    let seen = profile_by_id_statement(Viewer::Authenticated(1), 2);
    assert_eq!(seen.binds, vec![BindValue::Int(1), BindValue::Int(2)]);
    let by_name = profile_by_name_statement(Viewer::Authenticated(1), "u2");
    assert_eq!(by_name.binds, vec![BindValue::Int(1), text("u2")]);
}

#[test]
fn comment_statements() {
    assert_eq!(article_id_statement("s").binds, vec![text("s")]);
    let add = insert_comment_statement(4, &AddComment { body: String::from("hi") }, 2);
    assert_eq!(add.binds, vec![BindValue::Int(4), text("hi"), BindValue::Int(2)]);
    assert_eq!(comments_statement(Viewer::Anonymous, 4).binds, vec![BindValue::Int(-1), BindValue::Int(4)]);
    assert!(all_tags_statement().binds.is_empty());
}

#[test]
fn missing_row_is_not_found() {
    assert_eq!(require_row(Some(5i64)), Ok(5));
    assert_eq!(require_row::<i64>(None), Err(ArticleError::NotFound));
}
