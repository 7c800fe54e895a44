//! Render contexts: the pure shapes handed to the excluded template
//! layer.
//!
//! Assembly has no side effects; each builder carries its inputs
//! through unchanged.

use vstd::prelude::*;

use crate::rows::{DirectMessage, Message, Reply};
use crate::session::Identity;

verus! {

/// Context of the message board: every message, in insertion order.
#[derive(Debug)]
pub struct MessageListContext {
    pub messages: Vec<Message>,
}

/// Context of a thread: one message and its replies, in insertion
/// order.
#[derive(Debug)]
pub struct ThreadContext {
    pub message: Message,
    pub replies: Vec<Reply>,
}

/// Context of a direct-message view: the exchanged messages, in
/// insertion order, and the partner they are shown against.
#[derive(Debug)]
pub struct ConversationContext {
    pub messages: Vec<DirectMessage>,
    pub target: String,
}

/// Context of the profile view: the presented identity values,
/// verbatim.
#[derive(Debug)]
pub struct ProfileContext {
    pub username: Option<String>,
    pub user_id: Option<String>,
}

/// Wraps a message listing for rendering.
pub fn message_list_context(messages: Vec<Message>) -> (c: MessageListContext)
    ensures
        c.messages == messages,
{
    MessageListContext { messages }
}

/// Wraps one message and its replies for rendering.
pub fn thread_context(message: Message, replies: Vec<Reply>) -> (c: ThreadContext)
    ensures
        c.message == message,
        c.replies == replies,
{
    ThreadContext { message, replies }
}

/// Wraps a direct-message listing for rendering.
pub fn conversation_context(messages: Vec<DirectMessage>, target: String) -> (c:
    ConversationContext)
    ensures
        c.messages == messages,
        c.target == target,
{
    ConversationContext { messages, target }
}

/// Surfaces the presented identity values for rendering, verbatim and
/// unverified.
pub fn profile_context(identity: &Identity) -> (c: ProfileContext)
    ensures
        c.username == identity.username,
        c.user_id == identity.user_id,
{
    let username = match &identity.username {
        Some(n) => Some(n.clone()),
        None => None,
    };
    let user_id = match &identity.user_id {
        Some(i) => Some(i.clone()),
        None => None,
    };
    ProfileContext { username, user_id }
}

} // verus!
