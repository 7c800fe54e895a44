//! The record store: an in-memory relational store with the five
//! tables of the forum's persisted layout, exposing the typed read and
//! write operations the forum is built on.
//!
//! The store is the sole owner of the rows. Identifiers of the four
//! row-per-id tables are assigned on insert as one past the table
//! length, so a table's ids are exactly `1..=len` in order, and every
//! `time_created` value is drawn from a store-owned logical clock that
//! advances on each write — callers never supply either. The
//! membership table instead shares one conversation id between two
//! rows; its ids start at `1` and are allocated by the resolver.

use vstd::prelude::*;

use crate::errors::StoreError;
use crate::rows::{
    DirectMessage, DirectMessageV, Member, MemberV, Message, MessageV, Reply, ReplyV, User, UserV,
};
use crate::rows::{
    creds_matching, dms_between, exchanged_between, max_member_id, member_ids_of, partners_in,
    replies_to, users_named, view_direct_messages, view_members, view_messages, view_names,
    view_replies, view_users,
};

verus! {

/// Mathematical image of the whole store: the five tables as
/// sequences in insertion order, and the logical clock.
#[verifier::ext_equal]
pub struct StoreV {
    pub users: Seq<UserV>,
    pub messages: Seq<MessageV>,
    pub replies: Seq<ReplyV>,
    pub direct_messages: Seq<DirectMessageV>,
    pub members: Seq<MemberV>,
    pub clock: u64,
}

/// The store before anything was written.
pub open spec fn empty_store() -> StoreV {
    StoreV {
        users: Seq::empty(),
        messages: Seq::empty(),
        replies: Seq::empty(),
        direct_messages: Seq::empty(),
        members: Seq::empty(),
        clock: 0u64,
    }
}

/// A user table is well formed when its ids are exactly the positions
/// shifted by one and its timestamps were drawn, in order, from a
/// clock that now reads `clock`.
pub open spec fn users_table_ok(users: Seq<UserV>, clock: u64) -> bool {
    &&& forall|i: int| 0 <= i < users.len() ==> (#[trigger] users[i]).id == i + 1
    &&& forall|i: int| 0 <= i < users.len() ==> (#[trigger] users[i]).time_created < clock
    &&& forall|i: int, j: int|
        0 <= i < j < users.len() ==> (#[trigger] users[i]).time_created < (
        #[trigger] users[j]).time_created
}

/// Well-formedness of the message table; see [`users_table_ok`].
pub open spec fn messages_table_ok(messages: Seq<MessageV>, clock: u64) -> bool {
    &&& forall|i: int| 0 <= i < messages.len() ==> (#[trigger] messages[i]).id == i + 1
    &&& forall|i: int| 0 <= i < messages.len() ==> (#[trigger] messages[i]).time_created < clock
    &&& forall|i: int, j: int|
        0 <= i < j < messages.len() ==> (#[trigger] messages[i]).time_created < (
        #[trigger] messages[j]).time_created
}

/// Well-formedness of the reply table; see [`users_table_ok`].
pub open spec fn replies_table_ok(replies: Seq<ReplyV>, clock: u64) -> bool {
    &&& forall|i: int| 0 <= i < replies.len() ==> (#[trigger] replies[i]).id == i + 1
    &&& forall|i: int| 0 <= i < replies.len() ==> (#[trigger] replies[i]).time_created < clock
    &&& forall|i: int, j: int|
        0 <= i < j < replies.len() ==> (#[trigger] replies[i]).time_created < (
        #[trigger] replies[j]).time_created
}

/// Well-formedness of the direct-message table; see
/// [`users_table_ok`].
pub open spec fn dms_table_ok(dms: Seq<DirectMessageV>, clock: u64) -> bool {
    &&& forall|i: int| 0 <= i < dms.len() ==> (#[trigger] dms[i]).id == i + 1
    &&& forall|i: int| 0 <= i < dms.len() ==> (#[trigger] dms[i]).time_created < clock
    &&& forall|i: int, j: int|
        0 <= i < j < dms.len() ==> (#[trigger] dms[i]).time_created < (
        #[trigger] dms[j]).time_created
}

/// Conversation ids are never zero: the membership table only ever
/// receives ids allocated from `1` upward.
pub open spec fn members_ok(members: Seq<MemberV>) -> bool {
    forall|i: int| 0 <= i < members.len() ==> (#[trigger] members[i]).id >= 1
}

impl StoreV {
    /// The store's invariant: every table is well formed against the
    /// shared clock.
    pub open spec fn wf(&self) -> bool {
        &&& users_table_ok(self.users, self.clock)
        &&& messages_table_ok(self.messages, self.clock)
        &&& replies_table_ok(self.replies, self.clock)
        &&& dms_table_ok(self.direct_messages, self.clock)
        &&& members_ok(self.members)
    }
}

/// The in-memory record store.
pub struct Store {
    pub users: Vec<User>,
    pub messages: Vec<Message>,
    pub replies: Vec<Reply>,
    pub direct_messages: Vec<DirectMessage>,
    pub members: Vec<Member>,
    pub clock: u64,
}

impl View for Store {
    type V = StoreV;

    open spec fn view(&self) -> StoreV {
        StoreV {
            users: view_users(self.users@),
            messages: view_messages(self.messages@),
            replies: view_replies(self.replies@),
            direct_messages: view_direct_messages(self.direct_messages@),
            members: view_members(self.members@),
            clock: self.clock,
        }
    }
}

impl Store {
    /// The store's invariant, stated over its view.
    pub open spec fn wf(&self) -> bool {
        self@.wf()
    }

    /// A fresh, empty store.
    pub fn new() -> (s: Store)
        ensures
            s.wf(),
            s@ == empty_store(),
    {
        let s = Store {
            users: Vec::new(),
            messages: Vec::new(),
            replies: Vec::new(),
            direct_messages: Vec::new(),
            members: Vec::new(),
            clock: 0,
        };
        proof {
            assert(s@ =~= empty_store());
        }
        s
    }

    /// Writes a user row. The store assigns the id and the timestamp.
    pub fn insert_user(&mut self, username: String, password: String) -> (id: u64)
        requires
            old(self).wf(),
            old(self)@.users.len() < u64::MAX,
            old(self)@.clock < u64::MAX,
        ensures
            final(self).wf(),
            id == old(self)@.users.len() + 1,
            final(self)@.users == old(self)@.users.push(
                (UserV {
                    id,
                    username: username@,
                    password: password@,
                    time_created: old(self)@.clock,
                }),
            ),
            final(self)@.messages == old(self)@.messages,
            final(self)@.replies == old(self)@.replies,
            final(self)@.direct_messages == old(self)@.direct_messages,
            final(self)@.members == old(self)@.members,
            final(self)@.clock == old(self)@.clock + 1,
    {
        let ghost uname = username@;
        let ghost pw = password@;
        let ghost prior = self@;
        let id = (self.users.len() as u64) + 1;
        let row = User { id, username, password, time_created: self.clock };
        self.users.push(row);
        self.clock = self.clock + 1;
        proof {
            assert(self@.users =~= prior.users.push(
                (UserV { id, username: uname, password: pw, time_created: prior.clock }),
            ));
            assert(self@.wf());
        }
        id
    }

    /// The first user carrying `name`, if the table holds any.
    pub fn find_user_by_name(&self, name: &String) -> (r: Option<User>)
        ensures
            match r {
                Some(u) => users_named(self@.users, name@).len() > 0 && u@ == users_named(
                    self@.users,
                    name@,
                )[0],
                None => users_named(self@.users, name@).len() == 0,
            },
    {
        let ghost table = self@.users;
        let mut found: Option<User> = None;
        let mut i: usize = 0;
        while i < self.users.len()
            invariant
                i <= self.users.len(),
                table == self@.users,
                table.len() == self.users.len(),
                match found {
                    Some(u) => users_named(table.take(i as int), name@).len() > 0 && u@
                        == users_named(table.take(i as int), name@)[0],
                    None => users_named(table.take(i as int), name@).len() == 0,
                },
            decreases self.users.len() - i,
        {
            proof {
                assert(table.take(i + 1).drop_last() =~= table.take(i as int));
                assert(table.take(i + 1).last() == table[i as int]);
            }
            if found.is_none() && self.users[i].username == *name {
                found = Some(self.users[i].clone());
            }
            i = i + 1;
        }
        proof {
            assert(table.take(table.len() as int) =~= table);
        }
        found
    }

    /// The unique user carrying exactly `(name, password)`, or `None`
    /// unless exactly one row matches.
    pub fn find_user_by_credentials(&self, name: &String, password: &String) -> (r: Option<User>)
        ensures
            match r {
                Some(u) => creds_matching(self@.users, name@, password@).len() == 1 && u@
                    == creds_matching(self@.users, name@, password@)[0],
                None => creds_matching(self@.users, name@, password@).len() != 1,
            },
    {
        let ghost table = self@.users;
        let mut first: Option<User> = None;
        let mut count: usize = 0;
        let mut i: usize = 0;
        while i < self.users.len()
            invariant
                i <= self.users.len(),
                table == self@.users,
                table.len() == self.users.len(),
                count <= i,
                count == creds_matching(table.take(i as int), name@, password@).len(),
                count > 0 ==> first is Some && first->0@ == creds_matching(
                    table.take(i as int),
                    name@,
                    password@,
                )[0],
                count == 0 ==> first is None,
            decreases self.users.len() - i,
        {
            proof {
                assert(table.take(i + 1).drop_last() =~= table.take(i as int));
                assert(table.take(i + 1).last() == table[i as int]);
            }
            if self.users[i].username == *name && self.users[i].password == *password {
                if first.is_none() {
                    first = Some(self.users[i].clone());
                }
                count = count + 1;
            }
            i = i + 1;
        }
        proof {
            assert(table.take(table.len() as int) =~= table);
        }
        if count == 1 {
            first
        } else {
            None
        }
    }

    /// The largest user id, which by the invariant is the table
    /// length.
    pub fn max_user_id(&self) -> (r: u64)
        requires
            self.wf(),
        ensures
            r == self@.users.len(),
    {
        self.users.len() as u64
    }

    /// Writes a message row. The store assigns the id and the
    /// timestamp.
    pub fn insert_message(&mut self, title: String, content: String, username: String) -> (id: u64)
        requires
            old(self).wf(),
            old(self)@.messages.len() < u64::MAX,
            old(self)@.clock < u64::MAX,
        ensures
            final(self).wf(),
            id == old(self)@.messages.len() + 1,
            final(self)@.messages == old(self)@.messages.push(
                (MessageV {
                    id,
                    title: title@,
                    content: content@,
                    username: username@,
                    time_created: old(self)@.clock,
                }),
            ),
            final(self)@.users == old(self)@.users,
            final(self)@.replies == old(self)@.replies,
            final(self)@.direct_messages == old(self)@.direct_messages,
            final(self)@.members == old(self)@.members,
            final(self)@.clock == old(self)@.clock + 1,
    {
        let ghost t = title@;
        let ghost c = content@;
        let ghost un = username@;
        let ghost prior = self@;
        let id = (self.messages.len() as u64) + 1;
        let row = Message { id, title, content, username, time_created: self.clock };
        self.messages.push(row);
        self.clock = self.clock + 1;
        proof {
            assert(self@.messages =~= prior.messages.push(
                (MessageV { id, title: t, content: c, username: un, time_created: prior.clock }),
            ));
            assert(self@.wf());
        }
        id
    }

    /// Every message, in insertion order.
    pub fn list_messages(&self) -> (r: Vec<Message>)
        ensures
            r@ == self.messages@,
    {
        let mut out: Vec<Message> = Vec::new();
        let mut i: usize = 0;
        while i < self.messages.len()
            invariant
                i <= self.messages.len(),
                out@ == self.messages@.take(i as int),
            decreases self.messages.len() - i,
        {
            out.push(self.messages[i].clone());
            proof {
                assert(out@ =~= self.messages@.take(i + 1));
            }
            i = i + 1;
        }
        proof {
            assert(self.messages@.take(self.messages@.len() as int) =~= self.messages@);
        }
        out
    }

    /// The message whose id is `id`, or `NotFound` when the table
    /// holds no such row.
    pub fn get_message(&self, id: u64) -> (r: Result<Message, StoreError>)
        requires
            self.wf(),
        ensures
            match r {
                Ok(m) => 1 <= id <= self@.messages.len() && m@ == self@.messages[id - 1] && m.id
                    == id,
                Err(e) => e == StoreError::NotFound && !(1 <= id <= self@.messages.len()),
            },
    {
        if 1 <= id && id <= self.messages.len() as u64 {
            let m = self.messages[(id - 1) as usize].clone();
            proof {
                assert(m == self.messages@[id - 1]);
                assert(m@ == self@.messages[id - 1]);
                assert(self@.messages[id - 1].id == id);
            }
            Ok(m)
        } else {
            Err(StoreError::NotFound)
        }
    }

    /// Writes a reply row under the parent message id. The store does
    /// not check that the parent exists; it assigns the id and the
    /// timestamp.
    pub fn insert_reply(&mut self, parent: u64, content: String, username: String) -> (id: u64)
        requires
            old(self).wf(),
            old(self)@.replies.len() < u64::MAX,
            old(self)@.clock < u64::MAX,
        ensures
            final(self).wf(),
            id == old(self)@.replies.len() + 1,
            final(self)@.replies == old(self)@.replies.push(
                (ReplyV {
                    id,
                    parent,
                    content: content@,
                    username: username@,
                    time_created: old(self)@.clock,
                }),
            ),
            final(self)@.users == old(self)@.users,
            final(self)@.messages == old(self)@.messages,
            final(self)@.direct_messages == old(self)@.direct_messages,
            final(self)@.members == old(self)@.members,
            final(self)@.clock == old(self)@.clock + 1,
    {
        let ghost c = content@;
        let ghost un = username@;
        let ghost prior = self@;
        let id = (self.replies.len() as u64) + 1;
        let row = Reply { id, parent, content, username, time_created: self.clock };
        self.replies.push(row);
        self.clock = self.clock + 1;
        proof {
            assert(self@.replies =~= prior.replies.push(
                (ReplyV { id, parent, content: c, username: un, time_created: prior.clock }),
            ));
            assert(self@.wf());
        }
        id
    }

    /// The replies whose parent is `parent`, in insertion order.
    pub fn list_replies(&self, parent: u64) -> (r: Vec<Reply>)
        ensures
            view_replies(r@) == replies_to(self@.replies, parent),
    {
        let ghost table = self@.replies;
        let mut out: Vec<Reply> = Vec::new();
        let mut i: usize = 0;
        while i < self.replies.len()
            invariant
                i <= self.replies.len(),
                table == self@.replies,
                table.len() == self.replies.len(),
                view_replies(out@) == replies_to(table.take(i as int), parent),
            decreases self.replies.len() - i,
        {
            proof {
                assert(table.take(i + 1).drop_last() =~= table.take(i as int));
                assert(table.take(i + 1).last() == table[i as int]);
            }
            if self.replies[i].parent == parent {
                out.push(self.replies[i].clone());
                proof {
                    assert(view_replies(out@) =~= replies_to(table.take(i + 1), parent));
                }
            } else {
                proof {
                    assert(view_replies(out@) =~= replies_to(table.take(i + 1), parent));
                }
            }
            i = i + 1;
        }
        proof {
            assert(table.take(table.len() as int) =~= table);
        }
        out
    }

    /// Writes a direct-message row under an already resolved
    /// conversation id. The store assigns the id and the timestamp;
    /// the `reference` column is left empty, as every writer leaves
    /// it.
    pub fn insert_direct_message(
        &mut self,
        sender: String,
        receiver: String,
        content: String,
        conversation_id: u64,
    ) -> (id: u64)
        requires
            old(self).wf(),
            old(self)@.direct_messages.len() < u64::MAX,
            old(self)@.clock < u64::MAX,
        ensures
            final(self).wf(),
            id == old(self)@.direct_messages.len() + 1,
            final(self)@.direct_messages == old(self)@.direct_messages.push(
                (DirectMessageV {
                    id,
                    sender: sender@,
                    receiver: receiver@,
                    content: content@,
                    reference: None,
                    conversation_id,
                    time_created: old(self)@.clock,
                }),
            ),
            final(self)@.users == old(self)@.users,
            final(self)@.messages == old(self)@.messages,
            final(self)@.replies == old(self)@.replies,
            final(self)@.members == old(self)@.members,
            final(self)@.clock == old(self)@.clock + 1,
    {
        let ghost s = sender@;
        let ghost rc = receiver@;
        let ghost c = content@;
        let ghost prior = self@;
        let id = (self.direct_messages.len() as u64) + 1;
        let row = DirectMessage {
            id,
            sender,
            receiver,
            content,
            reference: None,
            conversation_id,
            time_created: self.clock,
        };
        self.direct_messages.push(row);
        self.clock = self.clock + 1;
        proof {
            assert(self@.direct_messages =~= prior.direct_messages.push(
                (DirectMessageV {
                    id,
                    sender: s,
                    receiver: rc,
                    content: c,
                    reference: None,
                    conversation_id,
                    time_created: prior.clock,
                }),
            ));
            assert(self@.wf());
        }
        id
    }

    /// The direct messages exchanged between `a` and `b`, in either
    /// direction, in insertion order.
    pub fn list_conversation(&self, a: &String, b: &String) -> (r: Vec<DirectMessage>)
        ensures
            view_direct_messages(r@) == dms_between(self@.direct_messages, a@, b@),
    {
        let ghost table = self@.direct_messages;
        let mut out: Vec<DirectMessage> = Vec::new();
        let mut i: usize = 0;
        while i < self.direct_messages.len()
            invariant
                i <= self.direct_messages.len(),
                table == self@.direct_messages,
                table.len() == self.direct_messages.len(),
                view_direct_messages(out@) == dms_between(table.take(i as int), a@, b@),
            decreases self.direct_messages.len() - i,
        {
            proof {
                assert(table.take(i + 1).drop_last() =~= table.take(i as int));
                assert(table.take(i + 1).last() == table[i as int]);
            }
            let row = &self.direct_messages[i];
            if (row.sender == *a && row.receiver == *b) || (row.sender == *b && row.receiver
                == *a) {
                out.push(self.direct_messages[i].clone());
                proof {
                    assert(view_direct_messages(out@) =~= dms_between(table.take(i + 1), a@, b@));
                }
            } else {
                proof {
                    assert(!exchanged_between(table[i as int], a@, b@));
                    assert(view_direct_messages(out@) =~= dms_between(table.take(i + 1), a@, b@));
                }
            }
            i = i + 1;
        }
        proof {
            assert(table.take(table.len() as int) =~= table);
        }
        out
    }

    /// The conversation ids of the membership rows naming `user`, in
    /// insertion order, duplicates kept.
    pub fn list_conversation_members(&self, user: &String) -> (r: Vec<u64>)
        ensures
            r@ == member_ids_of(self@.members, user@),
    {
        let ghost table = self@.members;
        let mut out: Vec<u64> = Vec::new();
        let mut i: usize = 0;
        while i < self.members.len()
            invariant
                i <= self.members.len(),
                table == self@.members,
                table.len() == self.members.len(),
                out@ == member_ids_of(table.take(i as int), user@),
            decreases self.members.len() - i,
        {
            proof {
                assert(table.take(i + 1).drop_last() =~= table.take(i as int));
                assert(table.take(i + 1).last() == table[i as int]);
            }
            if self.members[i].user == *user {
                out.push(self.members[i].id);
                proof {
                    assert(out@ =~= member_ids_of(table.take(i + 1), user@));
                }
            } else {
                proof {
                    assert(out@ =~= member_ids_of(table.take(i + 1), user@));
                }
            }
            i = i + 1;
        }
        proof {
            assert(table.take(table.len() as int) =~= table);
        }
        out
    }

    /// The users other than `excluding` among the membership rows of
    /// conversation `conversation_id`, in insertion order.
    pub fn list_members_of(&self, conversation_id: u64, excluding: &String) -> (r: Vec<String>)
        ensures
            view_names(r@) == partners_in(self@.members, conversation_id, excluding@),
    {
        let ghost table = self@.members;
        let mut out: Vec<String> = Vec::new();
        let mut i: usize = 0;
        while i < self.members.len()
            invariant
                i <= self.members.len(),
                table == self@.members,
                table.len() == self.members.len(),
                view_names(out@) == partners_in(table.take(i as int), conversation_id, excluding@),
            decreases self.members.len() - i,
        {
            proof {
                assert(table.take(i + 1).drop_last() =~= table.take(i as int));
                assert(table.take(i + 1).last() == table[i as int]);
            }
            if self.members[i].id == conversation_id && !(self.members[i].user == *excluding) {
                out.push(self.members[i].user.clone());
                proof {
                    assert(view_names(out@) =~= partners_in(
                        table.take(i + 1),
                        conversation_id,
                        excluding@,
                    ));
                }
            } else {
                proof {
                    assert(view_names(out@) =~= partners_in(
                        table.take(i + 1),
                        conversation_id,
                        excluding@,
                    ));
                }
            }
            i = i + 1;
        }
        proof {
            assert(table.take(table.len() as int) =~= table);
        }
        out
    }

    /// The largest conversation id the membership table holds, or `0`
    /// when it is empty.
    pub fn max_conversation_id(&self) -> (r: u64)
        ensures
            r == max_member_id(self@.members),
    {
        let ghost table = self@.members;
        let mut best: u64 = 0;
        let mut i: usize = 0;
        while i < self.members.len()
            invariant
                i <= self.members.len(),
                table == self@.members,
                table.len() == self.members.len(),
                best == max_member_id(table.take(i as int)),
            decreases self.members.len() - i,
        {
            proof {
                assert(table.take(i + 1).drop_last() =~= table.take(i as int));
                assert(table.take(i + 1).last() == table[i as int]);
            }
            if self.members[i].id > best {
                best = self.members[i].id;
            }
            i = i + 1;
        }
        proof {
            assert(table.take(table.len() as int) =~= table);
        }
        best
    }

    /// Writes one membership row binding `user` into conversation
    /// `id`. Resolution inserts two such rows, one per participant;
    /// ids are allocated from `1` upward, so `0` never names a
    /// conversation.
    pub fn insert_conversation_member(&mut self, id: u64, user: String)
        requires
            old(self).wf(),
            id >= 1,
        ensures
            final(self).wf(),
            final(self)@.members == old(self)@.members.push((MemberV { id, user: user@ })),
            final(self)@.users == old(self)@.users,
            final(self)@.messages == old(self)@.messages,
            final(self)@.replies == old(self)@.replies,
            final(self)@.direct_messages == old(self)@.direct_messages,
            final(self)@.clock == old(self)@.clock,
    {
        let ghost u = user@;
        let ghost prior = self@;
        let row = Member { id, user };
        self.members.push(row);
        proof {
            assert(self@.members =~= prior.members.push((MemberV { id, user: u })));
            assert(self@.wf());
        }
    }
}

} // verus!
