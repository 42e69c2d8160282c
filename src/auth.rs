//! Authentication resolver: turns the `authorization` header into a viewer.
use vstd::prelude::*;
use crate::query::{BindValue, BindView, Statement, StatementView};
use crate::statements::{make_statement, statement_of};

verus! {

/// Why a request could not be authenticated.
#[derive(Debug, Clone, Copy, PartialEq, Eq, Structural)]
pub enum AuthenticationFailure {
    /// No `authorization` header was sent.
    MissingToken,
    /// A header was sent, but it is malformed or the token does not verify.
    InvalidToken,
}

impl AuthenticationFailure {
    /// HTTP status that the boundary answers with.
    pub fn status(&self) -> (r: u16)
        ensures
            r == 401,
    {
        401
    }
}

/// The identity of an authenticated requester.
#[derive(Debug, Clone, Copy, PartialEq, Eq, Structural)]
pub struct Auth(pub i64);

/// Who is asking: nobody in particular, or a known user.
#[derive(Debug, Clone, Copy, PartialEq, Eq, Structural)]
pub enum Viewer {
    Anonymous,
    Authenticated(i64),
}

/// Length of the scheme prefix `Token ` in front of the credential.
pub const PREFIX_LEN: usize = 6;

/// A byte that may stand in a header value read as text: visible ASCII or tab.
pub open spec fn is_visible_ascii(b: u8) -> bool {
    b == 9 || (32 <= b && b < 127)
}

/// The header value can be read as text.
pub open spec fn readable(h: Seq<u8>) -> bool {
    forall|i: int| 0 <= i < h.len() ==> is_visible_ascii(#[trigger] h[i])
}

/// The bytes of `Token ` (capital T, one space).
pub open spec fn token_prefix() -> Seq<u8> {
    seq![84u8, 111u8, 107u8, 101u8, 110u8, 32u8]
}

/// A header of the form `Token <credential>`.
pub open spec fn well_formed_header(h: Seq<u8>) -> bool {
    &&& readable(h)
    &&& h.len() >= PREFIX_LEN
    &&& h.subrange(0, PREFIX_LEN as int) == token_prefix()
}

/// The text of a sequence of ASCII bytes.
pub open spec fn ascii_text(b: Seq<u8>) -> Seq<char> {
    b.map_values(|x: u8| x as char)
}

/// The credential carried by a well-formed header.
pub open spec fn credential_of(h: Seq<u8>) -> Seq<char> {
    ascii_text(h.subrange(PREFIX_LEN as int, h.len() as int))
}

/// What extraction of the credential yields for an optional header value.
pub open spec fn bearer_spec(header: Option<Seq<u8>>) -> Result<Seq<char>, AuthenticationFailure> {
    match header {
        None => Err(AuthenticationFailure::MissingToken),
        Some(h) => if well_formed_header(h) {
            Ok(credential_of(h))
        } else {
            Err(AuthenticationFailure::InvalidToken)
        },
    }
}

pub open spec fn header_view(header: Option<&[u8]>) -> Option<Seq<u8>> {
    match header {
        None => None,
        Some(h) => Some(h@),
    }
}

/// Relies on String::from_utf8_lossy: ASCII bytes are valid UTF-8, so each
/// byte becomes the char of the same code.
#[verifier::external_body]
fn text_of_ascii(bytes: &[u8]) -> (r: String)
    requires
        forall|i: int| 0 <= i < bytes@.len() ==> bytes@[i] < 128,
    ensures
        r@ == ascii_text(bytes@),
{
    String::from_utf8_lossy(bytes).into_owned()
}

/// A string result matches a result over character sequences.
pub open spec fn agrees<E>(r: Result<String, E>, s: Result<Seq<char>, E>) -> bool {
    match (r, s) {
        (Ok(t), Ok(u)) => t@ == u,
        (Err(e), Err(f)) => e == f,
        _ => false,
    }
}

/// Extracts the credential from the `authorization` header value, if any.
pub fn bearer_token(header: Option<&[u8]>) -> (r: Result<String, AuthenticationFailure>)
    ensures
        agrees(r, bearer_spec(header_view(header))),
{
    match header {
        None => Err(AuthenticationFailure::MissingToken),
        Some(h) => credential_from_header(h),
    }
}

fn credential_from_header(h: &[u8]) -> (r: Result<String, AuthenticationFailure>)
    ensures
        agrees(r, bearer_spec(Some(h@))),
{
    let mut i: usize = 0;
    while i < h.len()
        invariant
            i <= h@.len(),
            forall|j: int| 0 <= j < i ==> is_visible_ascii(#[trigger] h@[j]),
        decreases h@.len() - i,
    {
        let b = h[i];
        if !(b == 9 || (32 <= b && b < 127)) {
            assert(!is_visible_ascii(h@[i as int]));
            return Err(AuthenticationFailure::InvalidToken);
        }
        i = i + 1;
    }
    if h.len() < PREFIX_LEN {
        return Err(AuthenticationFailure::InvalidToken);
    }
    let (head, rest) = h.split_at(PREFIX_LEN);
    if !(head[0] == 84 && head[1] == 111 && head[2] == 107 && head[3] == 101 && head[4] == 110
        && head[5] == 32) {
        proof {
            if h@.subrange(0, PREFIX_LEN as int) == token_prefix() {
                assert(head@ == token_prefix());
                assert(head@[0] == 84u8);
            }
        }
        return Err(AuthenticationFailure::InvalidToken);
    }
    assert(head@ =~= token_prefix());
    assert forall|j: int| 0 <= j < rest@.len() implies rest@[j] < 128 by {
        assert(is_visible_ascii(h@[j + PREFIX_LEN]));
    }
    Ok(text_of_ascii(rest))
}

/// Combines the credential extraction with the verifier's verdict on it
/// (`None`: the token did not verify), for an endpoint that needs a user.
pub fn required_verdict(
    credential: Result<String, AuthenticationFailure>,
    verdict: Option<i64>,
) -> (r: Result<i64, AuthenticationFailure>)
    ensures
        credential is Err ==> r == Err::<i64, AuthenticationFailure>(credential->Err_0),
        credential is Ok ==> r == match verdict {
            Some(id) => Ok(id),
            None => Err(AuthenticationFailure::InvalidToken),
        },
{
    match credential {
        Err(e) => Err(e),
        Ok(_) => match verdict {
            Some(id) => Ok(id),
            None => Err(AuthenticationFailure::InvalidToken),
        },
    }
}

/// For an endpoint that also serves anonymous requests: a missing credential
/// is an anonymous viewer, an invalid one stays an error.
pub fn optional_verdict(required: Result<i64, AuthenticationFailure>) -> (r: Result<
    Viewer,
    AuthenticationFailure,
>)
    ensures
        r == match required {
            Ok(id) => Ok(Viewer::Authenticated(id)),
            Err(AuthenticationFailure::MissingToken) => Ok(Viewer::Anonymous),
            Err(AuthenticationFailure::InvalidToken) => Err(AuthenticationFailure::InvalidToken),
        },
{
    match required {
        Ok(id) => Ok(Viewer::Authenticated(id)),
        Err(AuthenticationFailure::MissingToken) => Ok(Viewer::Anonymous),
        Err(AuthenticationFailure::InvalidToken) => Err(AuthenticationFailure::InvalidToken),
    }
}

/// Expiry written into every issued token, in seconds since the epoch.
pub const TOKEN_EXPIRY: i64 = 10000000000;

/// The token that signing `exp` and `user_id` claims under a secret yields.
pub uninterp spec fn signed_token(user_id: i64, expires_at: i64, secret: Seq<u8>) -> Seq<char>;

/// Relies on jsonwebtoken::encode with an HS256 header and a key made by
/// `EncodingKey::from_secret`: signs the claims `exp` and `user_id`. The
/// result depends on the claims and the secret alone. `encode` fails only on
/// a key of another algorithm family or on claims that do not serialize;
/// neither can happen with an HMAC key and a map of integers.
#[verifier::external_body]
fn sign_claims(user_id: i64, expires_at: i64, secret: &[u8]) -> (r: Option<String>)
    ensures
        r is Some,
        r matches Some(t) ==> t@ == signed_token(user_id, expires_at, secret@),
{
    let mut claims = std::collections::BTreeMap::new();
    claims.insert("exp", expires_at);
    claims.insert("user_id", user_id);
    let header = jsonwebtoken::Header::new(jsonwebtoken::Algorithm::HS256);
    let key = jsonwebtoken::EncodingKey::from_secret(secret);
    jsonwebtoken::encode(&header, &claims, &key).ok()
}

/// Issues the token that identifies `user_id`, signed with `secret`.
pub fn create_token(user_id: i64, secret: &[u8]) -> (r: String)
    ensures
        r@ == signed_token(user_id, TOKEN_EXPIRY, secret@),
{
    sign_claims(user_id, TOKEN_EXPIRY, secret).unwrap()
}

/// Relies on jsonwebtoken::decode with HS256 validation and a key made by
/// `DecodingKey::from_secret`: checks the signature and the expiry against
/// the clock, then reads the `user_id` claim. `None` when any of that fails.
/// The outcome depends on the time, so nothing is promised of it.
#[verifier::external_body]
pub fn authenticate(token: &str, secret: &[u8]) -> (r: Option<i64>) {
    let validation = jsonwebtoken::Validation::new(jsonwebtoken::Algorithm::HS256);
    let key = jsonwebtoken::DecodingKey::from_secret(secret);
    match jsonwebtoken::decode::<std::collections::BTreeMap<String, i64>>(token, &key, &validation) {
        Ok(data) => data.claims.get("user_id").copied(),
        Err(_) => None,
    }
}

/// Resolves the header for an endpoint that requires a user.
pub fn resolve_required(header: Option<&[u8]>, secret: &[u8]) -> (r: Result<
    i64,
    AuthenticationFailure,
>)
    ensures
        header is None <==> r == Err::<i64, AuthenticationFailure>(
            AuthenticationFailure::MissingToken,
        ),
        header matches Some(h) && !well_formed_header(h@) ==> r == Err::<i64, AuthenticationFailure>(
            AuthenticationFailure::InvalidToken,
        ),
        r is Ok ==> (header matches Some(h) && well_formed_header(h@)),
        (header matches Some(h) && well_formed_header(h@)) ==> (r is Ok || r
            == Err::<i64, AuthenticationFailure>(AuthenticationFailure::InvalidToken)),
{
    let credential = bearer_token(header);
    let verdict = match &credential {
        Ok(token) => authenticate(token.as_str(), secret),
        Err(_) => None,
    };
    required_verdict(credential, verdict)
}

/// Resolves the header for an endpoint that also serves anonymous requests.
pub fn resolve_optional(header: Option<&[u8]>, secret: &[u8]) -> (r: Result<
    Viewer,
    AuthenticationFailure,
>)
    ensures
        header is None <==> r == Ok::<Viewer, AuthenticationFailure>(Viewer::Anonymous),
        header matches Some(h) && !well_formed_header(h@) ==> r == Err::<Viewer, AuthenticationFailure>(
            AuthenticationFailure::InvalidToken,
        ),
        r matches Ok(Viewer::Authenticated(_)) ==> (header matches Some(h) && well_formed_header(h@)),
        (header matches Some(h) && well_formed_header(h@)) ==> (r matches Ok(
            Viewer::Authenticated(_),
        ) || r == Err::<Viewer, AuthenticationFailure>(AuthenticationFailure::InvalidToken)),
{
    optional_verdict(resolve_required(header, secret))
}

/// A user as the account endpoints answer it.
#[derive(Debug, Clone)]
pub struct User {
    pub email: String,
    pub token: String,
    pub username: String,
    pub bio: Option<String>,
    pub image: Option<String>,
}

#[derive(Debug, Clone)]
pub struct ResponseUser {
    pub user: User,
}

#[derive(Debug, Clone)]
pub struct Authentication {
    pub user: AuthenticationUser,
}

/// Login credentials.
#[derive(Debug, Clone)]
pub struct AuthenticationUser {
    pub email: String,
    pub password: String,
}

#[derive(Debug, Clone)]
pub struct Registration {
    pub user: RegistrationUser,
}

/// A new account.
#[derive(Debug, Clone)]
pub struct RegistrationUser {
    pub username: String,
    pub email: String,
    pub password: String,
}

#[derive(Debug, Clone)]
pub struct Update {
    pub user: UpdateUser,
}

/// The account fields to change; absent ones stay as they are.
#[derive(Debug, Clone)]
pub struct UpdateUser {
    pub email: Option<String>,
    pub password: Option<String>,
    pub username: Option<String>,
    pub bio: Option<String>,
    pub image: Option<String>,
}

fn copy_text(o: &Option<String>) -> (r: Option<String>)
    ensures
        r == *o,
{
    match o {
        Some(s) => Some(s.clone()),
        None => None,
    }
}

/// The account response for a stored user and the token it is known by.
pub fn user_response(user: &crate::database::User, token: String) -> (r: ResponseUser)
    ensures
        r.user.email == user.email,
        r.user.token == token,
        r.user.username == user.username,
        r.user.bio == user.bio,
        r.user.image == user.image,
{
    ResponseUser {
        user: User {
            email: user.email.clone(),
            token,
            username: user.username.clone(),
            bio: copy_text(&user.bio),
            image: copy_text(&user.image),
        },
    }
}

/// The response to a successful login: the user with a freshly issued token.
pub fn login_response(user: &crate::database::User, secret: &[u8]) -> (r: ResponseUser)
    ensures
        r.user.token@ == signed_token(user.id, TOKEN_EXPIRY, secret@),
        r.user.email == user.email,
        r.user.username == user.username,
        r.user.bio == user.bio,
        r.user.image == user.image,
{
    user_response(user, create_token(user.id, secret))
}

pub const LOGIN_SQL: &'static str = "SELECT `id`, `email`, `password`, `username`, `bio`, `image` FROM `users` WHERE `email`=? AND `password`=?";

/// Finds the user with these credentials.
pub fn login_statement(credentials: &AuthenticationUser) -> (r: Statement)
    ensures
        r@ == statement_of(
            LOGIN_SQL,
            seq![BindView::Text(credentials.email@), BindView::Text(credentials.password@)],
        ),
{
    let r = make_statement(
        LOGIN_SQL,
        vec![BindValue::Text(credentials.email.clone()), BindValue::Text(credentials.password.clone())],
    );
    assert(r@.binds =~= seq![BindView::Text(credentials.email@), BindView::Text(credentials.password@)]);
    r
}

pub const REGISTER_SQL: &'static str = "INSERT INTO `users` (`email`, `password`, `username`) VALUES (?, ?, ?)";

/// Creates the account.
pub fn register_statement(user: &RegistrationUser) -> (r: Statement)
    ensures
        r@ == statement_of(
            REGISTER_SQL,
            seq![BindView::Text(user.email@), BindView::Text(user.password@), BindView::Text(user.username@)],
        ),
{
    let r = make_statement(
        REGISTER_SQL,
        vec![
            BindValue::Text(user.email.clone()),
            BindValue::Text(user.password.clone()),
            BindValue::Text(user.username.clone()),
        ],
    );
    assert(r@.binds =~= seq![
        BindView::Text(user.email@),
        BindView::Text(user.password@),
        BindView::Text(user.username@),
    ]);
    r
}

pub const USER_BY_ID_SQL: &'static str = "SELECT `id`, `email`, `password`, `username`, `bio`, `image` FROM `users` WHERE `id`=?";

/// Finds the user with id `user_id`.
pub fn user_by_id_statement(user_id: i64) -> (r: Statement)
    ensures
        r@ == statement_of(USER_BY_ID_SQL, seq![BindView::Int(user_id)]),
{
    let r = make_statement(USER_BY_ID_SQL, vec![BindValue::Int(user_id)]);
    assert(r@.binds =~= seq![BindView::Int(user_id)]);
    r
}

pub const UPDATE_USER_HEAD_SQL: &'static str = "UPDATE `users` SET `id`=`id`";

pub const SET_EMAIL_SQL: &'static str = ", `email`=?";

pub const SET_PASSWORD_SQL: &'static str = ", `password`=?";

pub const SET_USERNAME_SQL: &'static str = ", `username`=?";

pub const SET_BIO_SQL: &'static str = ", `bio`=?";

pub const SET_IMAGE_SQL: &'static str = ", `image`=?";

pub const WHERE_USER_SQL: &'static str = " WHERE `id`=?";

pub open spec fn set_sql(o: Option<String>, sql: &'static str) -> Seq<char> {
    if o is Some {
        sql@
    } else {
        seq![]
    }
}

pub open spec fn set_bind(o: Option<String>) -> Seq<BindView> {
    match o {
        Some(s) => seq![BindView::Text(s@)],
        None => seq![],
    }
}

/// The statement that changes the given fields of user `user_id`.
pub open spec fn user_update_spec(user_id: i64, u: UpdateUser) -> StatementView {
    StatementView {
        sql: UPDATE_USER_HEAD_SQL@ + set_sql(u.email, SET_EMAIL_SQL) + set_sql(u.password, SET_PASSWORD_SQL)
            + set_sql(u.username, SET_USERNAME_SQL) + set_sql(u.bio, SET_BIO_SQL) + set_sql(
            u.image,
            SET_IMAGE_SQL,
        ) + WHERE_USER_SQL@,
        binds: set_bind(u.email) + set_bind(u.password) + set_bind(u.username) + set_bind(u.bio)
            + set_bind(u.image) + seq![BindView::Int(user_id)],
    }
}

fn push_field(
    sql: &mut String,
    binds: &mut Vec<BindValue>,
    value: &Option<String>,
    fragment: &'static str,
)
    ensures
        final(sql)@ == old(sql)@ + set_sql(*value, fragment),
        final(binds)@.map_values(|b: BindValue| b@) == old(binds)@.map_values(|b: BindValue| b@)
            + set_bind(*value),
{
    let ghost before = binds@;
    if let Some(v) = value {
        sql.append(fragment);
        binds.push(BindValue::Text(v.clone()));
    } else {
        assert(sql@ =~= old(sql)@ + set_sql(*value, fragment));
    }
    assert(binds@.map_values(|b: BindValue| b@) =~= before.map_values(|b: BindValue| b@) + set_bind(
        *value,
    ));
}

/// Changes the given fields of user `user_id`; `None` when nothing changes.
pub fn user_update_statement(user_id: i64, update: &UpdateUser) -> (r: Option<Statement>)
    ensures
        (update.email is None && update.password is None && update.username is None
            && update.bio is None && update.image is None) <==> r is None,
        r matches Some(st) ==> st@ == user_update_spec(user_id, *update),
{
    if update.email.is_none() && update.password.is_none() && update.username.is_none()
        && update.bio.is_none() && update.image.is_none() {
        return None;
    }
    let mut sql = String::from_str(UPDATE_USER_HEAD_SQL);
    let mut binds: Vec<BindValue> = Vec::new();
    assert(binds@.map_values(|b: BindValue| b@) =~= seq![]);
    push_field(&mut sql, &mut binds, &update.email, SET_EMAIL_SQL);
    push_field(&mut sql, &mut binds, &update.password, SET_PASSWORD_SQL);
    push_field(&mut sql, &mut binds, &update.username, SET_USERNAME_SQL);
    push_field(&mut sql, &mut binds, &update.bio, SET_BIO_SQL);
    push_field(&mut sql, &mut binds, &update.image, SET_IMAGE_SQL);
    let ghost mid = binds@.map_values(|b: BindValue| b@);
    sql.append(WHERE_USER_SQL);
    binds.push(BindValue::Int(user_id));
    assert(binds@.map_values(|b: BindValue| b@) =~= mid + seq![BindView::Int(user_id)]);
    let st = Statement { sql, binds };
    assert(st@.sql =~= user_update_spec(user_id, *update).sql);
    assert(st@.binds =~= user_update_spec(user_id, *update).binds);
    Some(st)
}

} // verus!
