//! The identity and session check.
//!
//! A caller's identity is whatever pair of values the transport
//! presented — two plaintext, unsigned cookie values. The check never
//! verifies them against the user table: any presented `user_id`
//! counts as a valid session, and both values are surfaced verbatim
//! for display. That weakness is deliberate and documented, not an
//! oversight.

use vstd::prelude::*;

verus! {

/// The identity a request presented: the two optional transport
/// values, untouched.
#[derive(Debug)]
pub struct Identity {
    pub user_id: Option<String>,
    pub username: Option<String>,
}

/// The pair surfaced for display when both identity values are
/// present.
#[derive(Debug)]
pub struct CurrentUser {
    pub id: String,
    pub username: String,
}

/// True exactly when a `user_id` value was presented. Nothing is
/// looked up: presence alone passes the check.
pub fn is_authenticated(identity: &Identity) -> (r: bool)
    ensures
        r == (identity.user_id is Some),
{
    identity.user_id.is_some()
}

/// The presented pair, verbatim, when both values are there.
pub fn current_user(identity: &Identity) -> (r: Option<CurrentUser>)
    ensures
        match r {
            Some(u) => identity.user_id is Some && identity.username is Some && u.id
                == identity.user_id->0 && u.username == identity.username->0,
            None => identity.user_id is None || identity.username is None,
        },
{
    match (&identity.user_id, &identity.username) {
        (Some(id), Some(name)) => Some(CurrentUser { id: id.clone(), username: name.clone() }),
        _ => None,
    }
}

/// Drops both identity values, ending the session: the one transition
/// back from `Authenticated` to `Anonymous`.
pub fn logout(identity: &mut Identity)
    ensures
        final(identity).user_id is None,
        final(identity).username is None,
{
    identity.user_id = None;
    identity.username = None;
}

} // verus!
