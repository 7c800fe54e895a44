//! The compute part of each route: identity gating, the store
//! operation, and the context or failure handed back to the excluded
//! HTTP layer.
//!
//! Every function here is a whole-request decision from plain values
//! to plain values; reading forms and cookies and writing responses
//! stay outside the library.

use vstd::prelude::*;

use crate::context::{
    conversation_context, message_list_context, profile_context, thread_context,
    ConversationContext, MessageListContext, ProfileContext, ThreadContext,
};
use crate::errors::StoreError;
use crate::resolver::{members_after_resolve, resolve_conversation, resolved_id};
use crate::rows::{
    dms_between, max_member_id, member_ids_of, partners_in, partners_list, replies_to,
    view_direct_messages, view_names, view_replies, DirectMessageV, MessageV, ReplyV,
};
use crate::session::{is_authenticated, Identity};
use crate::store::Store;

verus! {

/// What a gated form view comes to: the form itself, or a redirect to
/// the profile when a session is already present.
#[derive(Clone, Copy, Debug, PartialEq, Eq, Structural)]
pub enum FormGate {
    ShowForm,
    RedirectToProfile,
}

/// What the profile view comes to: the profile context, or a redirect
/// to the login view when no session is present.
#[derive(Debug)]
pub enum ProfileResponse {
    RedirectToLogin,
    Show(ProfileContext),
}

/// The profile view: gated on a presented `user_id`, surfacing the
/// identity values verbatim.
pub fn profile_page(identity: &Identity) -> (r: ProfileResponse)
    ensures
        match r {
            ProfileResponse::Show(c) => identity.user_id is Some && c.username
                == identity.username && c.user_id == identity.user_id,
            ProfileResponse::RedirectToLogin => identity.user_id is None,
        },
{
    if is_authenticated(identity) {
        ProfileResponse::Show(profile_context(identity))
    } else {
        ProfileResponse::RedirectToLogin
    }
}

/// The registration form: shown only to callers without a session.
pub fn register_page(identity: &Identity) -> (r: FormGate)
    ensures
        r == (if identity.user_id is Some {
            FormGate::RedirectToProfile
        } else {
            FormGate::ShowForm
        }),
{
    if is_authenticated(identity) {
        FormGate::RedirectToProfile
    } else {
        FormGate::ShowForm
    }
}

/// The login form: shown only to callers without a session.
pub fn login_page(identity: &Identity) -> (r: FormGate)
    ensures
        r == (if identity.user_id is Some {
            FormGate::RedirectToProfile
        } else {
            FormGate::ShowForm
        }),
{
    if is_authenticated(identity) {
        FormGate::RedirectToProfile
    } else {
        FormGate::ShowForm
    }
}

/// The message board: every message, in insertion order, for a caller
/// with a session.
pub fn message_board(store: &Store, identity: &Identity) -> (r: Result<
    MessageListContext,
    StoreError,
>)
    ensures
        match r {
            Ok(c) => identity.user_id is Some && c.messages@ == store.messages@,
            Err(e) => e == StoreError::Unauthenticated && identity.user_id is None,
        },
{
    if is_authenticated(identity) {
        let listing = store.list_messages();
        Ok(message_list_context(listing))
    } else {
        Err(StoreError::Unauthenticated)
    }
}

/// One thread: the message carrying `message_id` and its replies, in
/// insertion order.
pub fn message_thread(store: &Store, message_id: u64) -> (r: Result<ThreadContext, StoreError>)
    requires
        store.wf(),
    ensures
        match r {
            Ok(t) => 1 <= message_id <= store@.messages.len() && t.message@
                == store@.messages[message_id - 1] && t.message.id == message_id && view_replies(
                t.replies@,
            ) == replies_to(store@.replies, message_id),
            Err(e) => e == StoreError::NotFound && !(1 <= message_id <= store@.messages.len()),
        },
{
    let message = match store.get_message(message_id) {
        Ok(m) => m,
        Err(e) => {
            return Err(e);
        },
    };
    let replies = store.list_replies(message_id);
    Ok(thread_context(message, replies))
}

/// Posts a top-level message under the acting username.
pub fn post_message(store: &mut Store, identity: &Identity, title: String, content: String) -> (r:
    Result<u64, StoreError>)
    requires
        old(store).wf(),
        old(store)@.messages.len() < u64::MAX,
        old(store)@.clock < u64::MAX,
    ensures
        final(store).wf(),
        match r {
            Ok(id) => {
                &&& identity.username is Some
                &&& id == old(store)@.messages.len() + 1
                &&& final(store)@.messages == old(store)@.messages.push(
                    (MessageV {
                        id,
                        title: title@,
                        content: content@,
                        username: identity.username->0@,
                        time_created: old(store)@.clock,
                    }),
                )
                &&& final(store)@.users == old(store)@.users
                &&& final(store)@.replies == old(store)@.replies
                &&& final(store)@.direct_messages == old(store)@.direct_messages
                &&& final(store)@.members == old(store)@.members
                &&& final(store)@.clock == old(store)@.clock + 1
            },
            Err(e) => {
                &&& e == StoreError::Unauthenticated
                &&& identity.username is None
                &&& final(store)@ == old(store)@
            },
        },
{
    match &identity.username {
        Some(name) => {
            let id = store.insert_message(title, content, name.clone());
            Ok(id)
        },
        None => Err(StoreError::Unauthenticated),
    }
}

/// Posts a reply under `message_id` with the acting username. As in
/// the store, no check that the parent exists is made.
pub fn post_reply(store: &mut Store, identity: &Identity, message_id: u64, content: String) -> (r:
    Result<u64, StoreError>)
    requires
        old(store).wf(),
        old(store)@.replies.len() < u64::MAX,
        old(store)@.clock < u64::MAX,
    ensures
        final(store).wf(),
        match r {
            Ok(id) => {
                &&& identity.username is Some
                &&& id == old(store)@.replies.len() + 1
                &&& final(store)@.replies == old(store)@.replies.push(
                    (ReplyV {
                        id,
                        parent: message_id,
                        content: content@,
                        username: identity.username->0@,
                        time_created: old(store)@.clock,
                    }),
                )
                &&& final(store)@.users == old(store)@.users
                &&& final(store)@.messages == old(store)@.messages
                &&& final(store)@.direct_messages == old(store)@.direct_messages
                &&& final(store)@.members == old(store)@.members
                &&& final(store)@.clock == old(store)@.clock + 1
            },
            Err(e) => {
                &&& e == StoreError::Unauthenticated
                &&& identity.username is None
                &&& final(store)@ == old(store)@
            },
        },
{
    match &identity.username {
        Some(name) => {
            let id = store.insert_reply(message_id, content, name.clone());
            Ok(id)
        },
        None => Err(StoreError::Unauthenticated),
    }
}

/// Sends a direct message to `target`, resolving the conversation id
/// first and creating it on first contact. Returns the conversation id
/// used.
pub fn send_direct_message(
    store: &mut Store,
    identity: &Identity,
    target: &String,
    content: String,
) -> (r: Result<u64, StoreError>)
    requires
        old(store).wf(),
        max_member_id(old(store)@.members) < u64::MAX,
        old(store)@.direct_messages.len() < u64::MAX,
        old(store)@.clock < u64::MAX,
    ensures
        final(store).wf(),
        match r {
            Ok(cid) => {
                &&& identity.username is Some
                &&& cid == resolved_id(old(store)@.members, identity.username->0@, target@)
                &&& final(store)@.members == members_after_resolve(
                    old(store)@.members,
                    identity.username->0@,
                    target@,
                )
                &&& final(store)@.direct_messages == old(store)@.direct_messages.push(
                    (DirectMessageV {
                        id: ((old(store)@.direct_messages.len() + 1) as u64),
                        sender: identity.username->0@,
                        receiver: target@,
                        content: content@,
                        reference: None,
                        conversation_id: cid,
                        time_created: old(store)@.clock,
                    }),
                )
                &&& final(store)@.users == old(store)@.users
                &&& final(store)@.messages == old(store)@.messages
                &&& final(store)@.replies == old(store)@.replies
                &&& final(store)@.clock == old(store)@.clock + 1
            },
            Err(e) => {
                &&& e == StoreError::Unauthenticated
                &&& identity.username is None
                &&& final(store)@ == old(store)@
            },
        },
{
    match &identity.username {
        Some(name) => {
            let sender = name.clone();
            let cid = resolve_conversation(store, &sender, target);
            store.insert_direct_message(sender, target.clone(), content, cid);
            Ok(cid)
        },
        None => Err(StoreError::Unauthenticated),
    }
}

/// The direct messages exchanged with `target`, in insertion order,
/// for a caller who presented both identity values.
pub fn conversation_view(store: &Store, identity: &Identity, target: &String) -> (r: Result<
    ConversationContext,
    StoreError,
>)
    ensures
        match r {
            Ok(c) => identity.user_id is Some && identity.username is Some
                && view_direct_messages(c.messages@) == dms_between(
                store@.direct_messages,
                identity.username->0@,
                target@,
            ) && c.target == *target,
            Err(e) => e == StoreError::Unauthenticated && (identity.user_id is None
                || identity.username is None),
        },
{
    if !is_authenticated(identity) {
        return Err(StoreError::Unauthenticated);
    }
    match &identity.username {
        Some(name) => {
            let listing = store.list_conversation(name, target);
            Ok(conversation_context(listing, target.clone()))
        },
        None => Err(StoreError::Unauthenticated),
    }
}

/// The conversation partners of the acting user: for each of their
/// membership rows, in insertion order, the other members of that
/// conversation.
pub fn conversation_partners(store: &Store, identity: &Identity) -> (r: Result<
    Vec<String>,
    StoreError,
>)
    ensures
        match r {
            Ok(v) => identity.username is Some && view_names(v@) == partners_list(
                store@.members,
                member_ids_of(store@.members, identity.username->0@),
                identity.username->0@,
            ),
            Err(e) => e == StoreError::Unauthenticated && identity.username is None,
        },
{
    let name = match &identity.username {
        Some(name) => name,
        None => {
            return Err(StoreError::Unauthenticated);
        },
    };
    let ghost m = store@.members;
    let ghost me = name@;
    let own = store.list_conversation_members(name);
    let mut out: Vec<String> = Vec::new();
    let mut k: usize = 0;
    while k < own.len()
        invariant
            k <= own.len(),
            own@ == member_ids_of(m, me),
            m == store@.members,
            me == identity.username->0@,
            name@ == me,
            identity.username is Some,
            view_names(out@) == partners_list(m, own@.take(k as int), me),
        decreases own.len() - k,
    {
        proof {
            assert(own@.take(k + 1).drop_last() =~= own@.take(k as int));
            assert(own@.take(k + 1).last() == own@[k as int]);
        }
        let ghost before = out@;
        let mut part = store.list_members_of(own[k], name);
        let ghost p = part@;
        out.append(&mut part);
        proof {
            assert(out@ == before + p);
            assert(view_names(out@) =~= view_names(before) + view_names(p));
            assert(partners_list(m, own@.take(k + 1), me) == partners_list(
                m,
                own@.take(k as int),
                me,
            ) + partners_in(m, own@[k as int], me));
            assert(view_names(out@) =~= partners_list(m, own@.take(k + 1), me));
        }
        k = k + 1;
    }
    proof {
        assert(own@.take(own@.len() as int) =~= own@);
    }
    Ok(out)
}

} // verus!
