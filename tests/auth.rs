use realworld::auth::{
    authenticate, bearer_token, create_token, login_response, optional_verdict, required_verdict,
    resolve_optional, resolve_required, user_by_id_statement, user_update_statement,
    AuthenticationFailure, UpdateUser, Viewer,
};
use realworld::database::User;
use realworld::query::BindValue;

const SECRET: &[u8] = b"nuclear launch codes";

fn stored_user(id: i64) -> User {
    User {
        id,
        email: String::from("jake@jake.jake"),
        password: String::from("jakejake"),
        username: String::from("jake"),
        bio: Some(String::from("I work at statefarm")),
        image: None,
    }
}

#[test]
fn missing_header_is_missing_token() {
    assert_eq!(bearer_token(None), Err(AuthenticationFailure::MissingToken));
}

#[test]
fn token_scheme_yields_credential() {
    assert_eq!(bearer_token(Some(b"Token abc.def.ghi")), Ok(String::from("abc.def.ghi")));
}

#[test]
fn other_scheme_is_invalid() {
    assert_eq!(bearer_token(Some(b"Bearer abc")), Err(AuthenticationFailure::InvalidToken));
    assert_eq!(bearer_token(Some(b"token abc")), Err(AuthenticationFailure::InvalidToken));
    assert_eq!(bearer_token(Some(b"Token")), Err(AuthenticationFailure::InvalidToken));
}

#[test]
fn empty_credential_after_prefix() {
    assert_eq!(bearer_token(Some(b"Token ")), Ok(String::new()));
}

#[test]
fn unreadable_header_is_invalid() {
    assert_eq!(bearer_token(Some(b"Token ab\x01c")), Err(AuthenticationFailure::InvalidToken));
    assert_eq!(bearer_token(Some(b"Token \xc3\xa9")), Err(AuthenticationFailure::InvalidToken));
}

#[test]
fn verdicts_combine() {
    assert_eq!(required_verdict(Ok(String::from("t")), Some(7)), Ok(7));
    assert_eq!(
        required_verdict(Ok(String::from("t")), None),
        Err(AuthenticationFailure::InvalidToken)
    );
    assert_eq!(
        required_verdict(Err(AuthenticationFailure::MissingToken), Some(7)),
        Err(AuthenticationFailure::MissingToken)
    );
    assert_eq!(optional_verdict(Ok(7)), Ok(Viewer::Authenticated(7)));
    assert_eq!(optional_verdict(Err(AuthenticationFailure::MissingToken)), Ok(Viewer::Anonymous));
    assert_eq!(
        optional_verdict(Err(AuthenticationFailure::InvalidToken)),
        Err(AuthenticationFailure::InvalidToken)
    );
}

#[test]
fn issued_token_verifies() {
    let token = create_token(42, SECRET);
    assert_eq!(token.split('.').count(), 3);
    assert_eq!(authenticate(&token, SECRET), Some(42));
    assert_eq!(authenticate(&token, b"another secret"), None);
    assert_eq!(authenticate("not a token", SECRET), None);
}

#[test]
fn resolve_with_headers() {
    let token = create_token(9, SECRET);
    let header = format!("Token {}", token);
    assert_eq!(resolve_required(Some(header.as_bytes()), SECRET), Ok(9));
    assert_eq!(resolve_optional(Some(header.as_bytes()), SECRET), Ok(Viewer::Authenticated(9)));
    assert_eq!(resolve_required(None, SECRET), Err(AuthenticationFailure::MissingToken));
    assert_eq!(resolve_optional(None, SECRET), Ok(Viewer::Anonymous));
    assert_eq!(
        resolve_optional(Some(b"Token garbage"), SECRET),
        Err(AuthenticationFailure::InvalidToken)
    );
    let bare = token.clone();
    assert_eq!(
        resolve_optional(Some(bare.as_bytes()), SECRET),
        Err(AuthenticationFailure::InvalidToken)
    );
}

#[test]
fn auth_failures_answer_401() {
    assert_eq!(AuthenticationFailure::MissingToken.status(), 401);
    assert_eq!(AuthenticationFailure::InvalidToken.status(), 401);
}

#[test]
fn login_response_carries_token() {
    let user = stored_user(3);
    let resp = login_response(&user, SECRET);
    assert_eq!(resp.user.email, "jake@jake.jake");
    assert_eq!(resp.user.username, "jake");
    assert_eq!(resp.user.bio.as_deref(), Some("I work at statefarm"));
    assert_eq!(resp.user.image, None);
    assert_eq!(authenticate(&resp.user.token, SECRET), Some(3));
}

#[test]
fn user_update_binds_present_fields() {
    let nothing = UpdateUser { email: None, password: None, username: None, bio: None, image: None };
    assert_eq!(user_update_statement(1, &nothing), None);
    let some = UpdateUser {
        email: None,
        password: None,
        username: Some(String::from("jacob")),
        bio: Some(String::from("hi")),
        image: None,
    };
    let st = user_update_statement(5, &some).unwrap();
    assert_eq!(st.sql, "UPDATE `users` SET `id`=`id`, `username`=?, `bio`=? WHERE `id`=?");
    assert_eq!(
        st.binds,
        vec![BindValue::Text(String::from("jacob")), BindValue::Text(String::from("hi")), BindValue::Int(5)]
    );
    assert_eq!(user_by_id_statement(5).binds, vec![BindValue::Int(5)]);
}
