//! Profiles and the follow relation.
use vstd::prelude::*;
use crate::assemble::profile_seen_by;
use crate::auth::Viewer;
use crate::query::{BindValue, BindView, Statement, StatementView};
use crate::statements::{make_statement, statement_of, text};

verus! {

/// A profile as the profile endpoints answer it.
#[derive(Debug, Clone)]
pub struct Profile {
    pub username: String,
    pub bio: Option<String>,
    pub image: Option<String>,
    pub following: bool,
}

#[derive(Debug, Clone)]
pub struct ResponseProfile {
    pub profile: Profile,
}

/// The profile response for a fetched row, as `viewer` sees it.
pub fn profile_response(row: &crate::database::Profile, viewer: Viewer) -> (r: ResponseProfile)
    ensures
        r.profile.username == row.username,
        r.profile.bio == row.bio,
        r.profile.image == row.image,
        r.profile.following == (row.following && viewer is Authenticated),
{
    let p = profile_seen_by(row, viewer);
    ResponseProfile {
        profile: Profile {
            username: p.username,
            bio: p.bio,
            image: p.image,
            following: p.following,
        },
    }
}

pub const FOLLOW_SQL: &'static str = "INSERT OR IGNORE INTO `follows` (`source`, `target`) SELECT ?, `id` FROM `users` WHERE `username`=?";

pub const UNFOLLOW_SQL: &'static str = "DELETE FROM `follows` WHERE `source`=? AND `target`=(SELECT `id` FROM `users` WHERE `username`=?)";

/// A change of the follow relation: `source` starts (`follow`) or stops
/// following the user named `target`. Its effect on the stored relations is
/// `model::apply_follow_change`.
pub struct FollowChange {
    pub source: i64,
    pub target: Seq<char>,
    pub follow: bool,
}

/// The statement that carries out a change of the follow relation.
pub open spec fn follow_change_statement(c: FollowChange) -> StatementView {
    statement_of(
        if c.follow {
            FOLLOW_SQL
        } else {
            UNFOLLOW_SQL
        },
        seq![BindView::Int(c.source), BindView::Text(c.target)],
    )
}

/// User `user_id` starts following the user named `username`.
pub fn follow_statement(user_id: i64, username: &str) -> (r: Statement)
    ensures
        r@ == follow_change_statement(FollowChange { source: user_id, target: username@, follow: true }),
{
    let r = make_statement(FOLLOW_SQL, vec![BindValue::Int(user_id), text(username)]);
    assert(r@.binds =~= seq![BindView::Int(user_id), BindView::Text(username@)]);
    r
}

/// User `user_id` stops following the user named `username`.
pub fn unfollow_statement(user_id: i64, username: &str) -> (r: Statement)
    ensures
        r@ == follow_change_statement(FollowChange { source: user_id, target: username@, follow: false }),
{
    let r = make_statement(UNFOLLOW_SQL, vec![BindValue::Int(user_id), text(username)]);
    assert(r@.binds =~= seq![BindView::Int(user_id), BindView::Text(username@)]);
    r
}

} // verus!
