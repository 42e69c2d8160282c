use realworld::articles::{ArticleError, FeedArticlesConstraints, ListArticlesConstraints};
use realworld::auth::Viewer;
use realworld::query::{
    compose_feed, compose_listing, compose_single, validate_pagination, BindValue, Condition,
    ANONYMOUS_ID, ORDER_SQL,
};
use realworld::statements::user_id_by_name_statement;

fn unfiltered() -> ListArticlesConstraints {
    ListArticlesConstraints { tag: None, author: None, favorited: None, limit: None, offset: None }
}

#[test]
fn offset_without_limit_is_rejected() {
    assert_eq!(validate_pagination(None, Some(5)), Err(ArticleError::InvalidPagination));
    let filter = ListArticlesConstraints { offset: Some(5), ..unfiltered() };
    assert_eq!(
        compose_listing(&filter, Viewer::Anonymous, None, None),
        Err(ArticleError::InvalidPagination)
    );
    let feed = FeedArticlesConstraints { limit: None, offset: Some(5) };
    assert_eq!(compose_feed(&feed, 1), Err(ArticleError::InvalidPagination));
}

#[test]
fn pagination_accepted_combinations() {
    assert_eq!(validate_pagination(None, None), Ok(()));
    assert_eq!(validate_pagination(Some(10), None), Ok(()));
    assert_eq!(validate_pagination(Some(10), Some(5)), Ok(()));
}

#[test]
fn pagination_is_checked_before_user_lookup() {
    let filter = ListArticlesConstraints {
        favorited: Some(String::from("nobody")),
        offset: Some(5),
        ..unfiltered()
    };
    assert_eq!(
        compose_listing(&filter, Viewer::Anonymous, None, None),
        Err(ArticleError::InvalidPagination)
    );
}

#[test]
fn unknown_favoriting_user_is_not_found() {
    let filter = ListArticlesConstraints { favorited: Some(String::from("ghost")), ..unfiltered() };
    assert_eq!(
        compose_listing(&filter, Viewer::Authenticated(1), None, None),
        Err(ArticleError::NotFound)
    );
}

#[test]
fn unknown_author_is_not_found() {
    let filter = ListArticlesConstraints { author: Some(String::from("ghost")), ..unfiltered() };
    assert_eq!(compose_listing(&filter, Viewer::Anonymous, None, None), Err(ArticleError::NotFound));
}

#[test]
fn unfiltered_listing_has_only_true_conditions() {
    let q = compose_listing(&unfiltered(), Viewer::Anonymous, None, None).unwrap();
    assert_eq!(q.viewer_id, ANONYMOUS_ID);
    assert_eq!(q.conditions, vec![Condition::AlwaysTrue, Condition::AlwaysTrue, Condition::AlwaysTrue]);
    let st = q.to_statement();
    assert_eq!(st.binds, vec![BindValue::Int(-1)]);
    assert!(st.sql.ends_with(" WHERE TRUE AND TRUE AND TRUE AND TRUE ORDER BY `articles`.`updatedAt` DESC, `articles`.`id` ASC"));
    assert!(!st.sql.contains("LIMIT"));
    assert!(!st.sql.contains("OFFSET"));
    assert_eq!(st.sql.matches('?').count(), st.binds.len());
}

#[test]
fn all_filters_bind_in_order() {
    let filter = ListArticlesConstraints {
        tag: Some(String::from("dragons")),
        author: Some(String::from("jake")),
        favorited: Some(String::from("anna")),
        limit: Some(20),
        offset: Some(40),
    };
    let q = compose_listing(&filter, Viewer::Authenticated(3), Some(11), Some(12)).unwrap();
    let st = q.to_statement();
    assert_eq!(
        st.binds,
        vec![
            BindValue::Int(3),
            BindValue::Int(11),
            BindValue::Text(String::from("dragons")),
            BindValue::Text(String::from("jake")),
            BindValue::Int(20),
            BindValue::Int(40),
        ]
    );
    assert!(st.sql.ends_with(" LIMIT ? OFFSET ?"));
    assert_eq!(st.sql.matches('?').count(), st.binds.len());
}

#[test]
fn limit_alone_binds_limit() {
    let filter = ListArticlesConstraints { limit: Some(3), ..unfiltered() };
    let st = compose_listing(&filter, Viewer::Authenticated(2), None, None).unwrap().to_statement();
    assert_eq!(st.binds, vec![BindValue::Int(2), BindValue::Int(3)]);
    assert!(st.sql.ends_with(" LIMIT ?"));
}

#[test]
fn identical_requests_compose_identically() {
    let filter = ListArticlesConstraints { tag: Some(String::from("x")), limit: Some(2), ..unfiltered() };
    let a = compose_listing(&filter, Viewer::Authenticated(1), None, None).unwrap().to_statement();
    let b = compose_listing(&filter, Viewer::Authenticated(1), None, None).unwrap().to_statement();
    assert_eq!(a, b);
    assert!(a.sql.contains(ORDER_SQL));
    assert!(ORDER_SQL.ends_with("`articles`.`id` ASC"));
}

#[test]
fn feed_restricts_to_followed_authors() {
    let c = FeedArticlesConstraints { limit: Some(10), offset: Some(0) };
    let q = compose_feed(&c, 4).unwrap();
    assert_eq!(q.conditions, vec![Condition::FollowedBy(4)]);
    let st = q.to_statement();
    assert_eq!(st.binds, vec![BindValue::Int(4), BindValue::Int(4), BindValue::Int(10), BindValue::Int(0)]);
    assert!(st.sql.contains("`follows`.`source`=?"));
    assert_eq!(st.sql.matches('?').count(), st.binds.len());
}

#[test]
fn single_fetch_selects_body_by_slug() {
    let st = compose_single("a-new-post", Viewer::Anonymous).to_statement();
    assert!(st.sql.contains("`articles`.`body`"));
    assert!(st.sql.contains("`articles`.`slug`=?"));
    assert_eq!(st.binds, vec![BindValue::Int(-1), BindValue::Text(String::from("a-new-post"))]);
}

#[test]
fn favorited_filter_scenario_binds_the_favoriting_user() {
    let lookup = user_id_by_name_statement("u1");
    assert_eq!(lookup.binds, vec![BindValue::Text(String::from("u1"))]);
    let filter = ListArticlesConstraints { favorited: Some(String::from("u1")), ..unfiltered() };
    let as_u1 = compose_listing(&filter, Viewer::Authenticated(1), Some(1), None).unwrap();
    assert_eq!(as_u1.conditions[0], Condition::FavoritedBy(1));
    assert_eq!(as_u1.to_statement().binds, vec![BindValue::Int(1), BindValue::Int(1)]);
    let anonymous = compose_listing(&filter, Viewer::Anonymous, Some(1), None).unwrap();
    assert_eq!(anonymous.to_statement().binds, vec![BindValue::Int(-1), BindValue::Int(1)]);
}

#[test]
fn error_statuses() {
    assert_eq!(ArticleError::InvalidPagination.status(), 400);
    assert_eq!(ArticleError::NotFound.status(), 404);
    assert_eq!(ArticleError::Forbidden.status(), 403);
    assert_eq!(ArticleError::Conflict.status(), 409);
    assert_eq!(ArticleError::TooManyTags.status(), 400);
}
