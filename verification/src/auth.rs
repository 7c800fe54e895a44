//! Registration and login against the user table.
//!
//! Registration is guarded by a query-before-insert existence check,
//! not by a table constraint; login demands that exactly one row match
//! the presented pair, anything else being the one "Invalid account"
//! outcome.

use vstd::prelude::*;

use crate::rows::{creds_matching, lemma_no_name_no_creds, users_named, User, UserV};
use crate::store::Store;

verus! {

/// What submitting the registration form comes to.
#[derive(Clone, Copy, Debug, PartialEq, Eq, Structural)]
pub enum RegisterOutcome {
    /// The account was written; the store assigned this user id.
    Registered(u64),
    /// A user of that name already exists; nothing was written.
    UsernameTaken,
}

/// What submitting the login form comes to.
#[derive(Debug)]
pub enum LoginOutcome {
    /// Exactly one row matched the pair; its values back the new
    /// session.
    LoggedIn(User),
    /// No row — or, after a duplicate registration race, several —
    /// matched.
    InvalidAccount,
}

/// Creates an account unless the username is already taken.
///
/// The existence check and the insert are two steps with no lock
/// between them; a concurrent pair of registrations can slip a
/// duplicate past the check. That race is accepted, not fixed.
pub fn register(store: &mut Store, username: String, password: String) -> (r: RegisterOutcome)
    requires
        old(store).wf(),
        old(store)@.users.len() < u64::MAX,
        old(store)@.clock < u64::MAX,
    ensures
        final(store).wf(),
        users_named(old(store)@.users, username@).len() > 0 ==> r == RegisterOutcome::UsernameTaken
            && final(store)@ == old(store)@,
        users_named(old(store)@.users, username@).len() == 0 ==> {
            &&& r == RegisterOutcome::Registered(((old(store)@.users.len() + 1) as u64))
            &&& final(store)@.users == old(store)@.users.push(
                (UserV {
                    id: ((old(store)@.users.len() + 1) as u64),
                    username: username@,
                    password: password@,
                    time_created: old(store)@.clock,
                }),
            )
            &&& final(store)@.messages == old(store)@.messages
            &&& final(store)@.replies == old(store)@.replies
            &&& final(store)@.direct_messages == old(store)@.direct_messages
            &&& final(store)@.members == old(store)@.members
            &&& final(store)@.clock == old(store)@.clock + 1
        },
{
    let existing = store.find_user_by_name(&username);
    if existing.is_some() {
        RegisterOutcome::UsernameTaken
    } else {
        let id = store.insert_user(username, password);
        RegisterOutcome::Registered(id)
    }
}

/// Checks the presented pair against the user table.
///
/// The session values are taken from the matched row, not from the
/// form; any count of matching rows other than one is rejected.
pub fn login(store: &Store, username: &String, password: &String) -> (r: LoginOutcome)
    ensures
        match r {
            LoginOutcome::LoggedIn(u) => creds_matching(store@.users, username@, password@).len()
                == 1 && u@ == creds_matching(store@.users, username@, password@)[0],
            LoginOutcome::InvalidAccount => creds_matching(store@.users, username@, password@).len()
                != 1,
        },
{
    match store.find_user_by_credentials(username, password) {
        Some(u) => LoginOutcome::LoggedIn(u),
        None => LoginOutcome::InvalidAccount,
    }
}

/// Law: a freshly registered account is found by exactly its
/// credentials. Writing a user row under a name no row carries leaves
/// a table in which that pair matches one row — the new one — and the
/// name is carried by one row.
pub proof fn lemma_registered_found_by_credentials(users: Seq<UserV>, u: UserV)
    requires
        users_named(users, u.username).len() == 0,
    ensures
        creds_matching(users.push(u), u.username, u.password).len() == 1,
        creds_matching(users.push(u), u.username, u.password)[0] == u,
        users_named(users.push(u), u.username).len() == 1,
        users_named(users.push(u), u.username)[0] == u,
{
    lemma_no_name_no_creds(users, u.username, u.password);
    assert(users.push(u).drop_last() =~= users);
    assert(users.push(u).last() == u);
}

} // verus!
