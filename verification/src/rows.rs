//! Row types of the five tables, their mathematical views, and the
//! spec-level selections that the store's contracts are stated over.
//!
//! Each table row is immutable once written. Identifiers and
//! timestamps are produced by the store, never by callers.

use vstd::prelude::*;

verus! {

/// An account row: unique id, username, plaintext password, and the
/// tick at which the store wrote the row.
#[derive(Debug)]
pub struct User {
    pub id: u64,
    pub username: String,
    pub password: String,
    pub time_created: u64,
}

/// Mathematical image of a [`User`] row.
pub struct UserV {
    pub id: u64,
    pub username: Seq<char>,
    pub password: Seq<char>,
    pub time_created: u64,
}

impl View for User {
    type V = UserV;

    open spec fn view(&self) -> UserV {
        UserV {
            id: self.id,
            username: self.username@,
            password: self.password@,
            time_created: self.time_created,
        }
    }
}

impl Clone for User {
    fn clone(&self) -> (res: Self)
        ensures
            res == *self,
    {
        User {
            id: self.id,
            username: self.username.clone(),
            password: self.password.clone(),
            time_created: self.time_created,
        }
    }
}

/// A top-level message row. The author is recorded by username, not by
/// a foreign key.
#[derive(Debug)]
pub struct Message {
    pub id: u64,
    pub title: String,
    pub content: String,
    pub username: String,
    pub time_created: u64,
}

/// Mathematical image of a [`Message`] row.
pub struct MessageV {
    pub id: u64,
    pub title: Seq<char>,
    pub content: Seq<char>,
    pub username: Seq<char>,
    pub time_created: u64,
}

impl View for Message {
    type V = MessageV;

    open spec fn view(&self) -> MessageV {
        MessageV {
            id: self.id,
            title: self.title@,
            content: self.content@,
            username: self.username@,
            time_created: self.time_created,
        }
    }
}

impl Clone for Message {
    fn clone(&self) -> (res: Self)
        ensures
            res == *self,
    {
        Message {
            id: self.id,
            title: self.title.clone(),
            content: self.content.clone(),
            username: self.username.clone(),
            time_created: self.time_created,
        }
    }
}

/// A reply row. `parent` names the message id it answers; the store
/// does not enforce that such a message exists.
#[derive(Debug)]
pub struct Reply {
    pub id: u64,
    pub parent: u64,
    pub content: String,
    pub username: String,
    pub time_created: u64,
}

/// Mathematical image of a [`Reply`] row.
pub struct ReplyV {
    pub id: u64,
    pub parent: u64,
    pub content: Seq<char>,
    pub username: Seq<char>,
    pub time_created: u64,
}

impl View for Reply {
    type V = ReplyV;

    open spec fn view(&self) -> ReplyV {
        ReplyV {
            id: self.id,
            parent: self.parent,
            content: self.content@,
            username: self.username@,
            time_created: self.time_created,
        }
    }
}

impl Clone for Reply {
    fn clone(&self) -> (res: Self)
        ensures
            res == *self,
    {
        Reply {
            id: self.id,
            parent: self.parent,
            content: self.content.clone(),
            username: self.username.clone(),
            time_created: self.time_created,
        }
    }
}

/// A direct message row. `conversation_id` points into the member
/// mapping; `reference` is carried but unused for threading.
#[derive(Debug)]
pub struct DirectMessage {
    pub id: u64,
    pub sender: String,
    pub receiver: String,
    pub content: String,
    pub reference: Option<u64>,
    pub conversation_id: u64,
    pub time_created: u64,
}

/// Mathematical image of a [`DirectMessage`] row.
pub struct DirectMessageV {
    pub id: u64,
    pub sender: Seq<char>,
    pub receiver: Seq<char>,
    pub content: Seq<char>,
    pub reference: Option<u64>,
    pub conversation_id: u64,
    pub time_created: u64,
}

impl View for DirectMessage {
    type V = DirectMessageV;

    open spec fn view(&self) -> DirectMessageV {
        DirectMessageV {
            id: self.id,
            sender: self.sender@,
            receiver: self.receiver@,
            content: self.content@,
            reference: self.reference,
            conversation_id: self.conversation_id,
            time_created: self.time_created,
        }
    }
}

impl Clone for DirectMessage {
    fn clone(&self) -> (res: Self)
        ensures
            res == *self,
    {
        DirectMessage {
            id: self.id,
            sender: self.sender.clone(),
            receiver: self.receiver.clone(),
            content: self.content.clone(),
            reference: self.reference,
            conversation_id: self.conversation_id,
            time_created: self.time_created,
        }
    }
}

/// A conversation membership row. Two rows share an `id` to say
/// "these two users are in conversation `id`"; the `id` is not unique
/// per row.
#[derive(Debug)]
pub struct Member {
    pub id: u64,
    pub user: String,
}

/// Mathematical image of a [`Member`] row.
pub struct MemberV {
    pub id: u64,
    pub user: Seq<char>,
}

impl View for Member {
    type V = MemberV;

    open spec fn view(&self) -> MemberV {
        MemberV { id: self.id, user: self.user@ }
    }
}

impl Clone for Member {
    fn clone(&self) -> (res: Self)
        ensures
            res == *self,
    {
        Member { id: self.id, user: self.user.clone() }
    }
}

/// View of a whole user table.
pub open spec fn view_users(rows: Seq<User>) -> Seq<UserV> {
    rows.map_values(|r: User| r@)
}

/// View of a whole message table.
pub open spec fn view_messages(rows: Seq<Message>) -> Seq<MessageV> {
    rows.map_values(|r: Message| r@)
}

/// View of a whole reply table.
pub open spec fn view_replies(rows: Seq<Reply>) -> Seq<ReplyV> {
    rows.map_values(|r: Reply| r@)
}

/// View of a whole direct-message table.
pub open spec fn view_direct_messages(rows: Seq<DirectMessage>) -> Seq<DirectMessageV> {
    rows.map_values(|r: DirectMessage| r@)
}

/// View of a whole membership table.
pub open spec fn view_members(rows: Seq<Member>) -> Seq<MemberV> {
    rows.map_values(|r: Member| r@)
}

/// View of a list of usernames.
pub open spec fn view_names(names: Seq<String>) -> Seq<Seq<char>> {
    names.map_values(|n: String| n@)
}

/// The users carrying `name`, in table order.
pub open spec fn users_named(users: Seq<UserV>, name: Seq<char>) -> Seq<UserV>
    decreases users.len(),
{
    if users.len() == 0 {
        Seq::empty()
    } else {
        let rest = users_named(users.drop_last(), name);
        if users.last().username == name {
            rest.push(users.last())
        } else {
            rest
        }
    }
}

/// The users carrying exactly the pair `(name, password)`, in table
/// order.
pub open spec fn creds_matching(users: Seq<UserV>, name: Seq<char>, password: Seq<char>) -> Seq<
    UserV,
>
    decreases users.len(),
{
    if users.len() == 0 {
        Seq::empty()
    } else {
        let rest = creds_matching(users.drop_last(), name, password);
        if users.last().username == name && users.last().password == password {
            rest.push(users.last())
        } else {
            rest
        }
    }
}

/// The replies whose parent is `parent`, in table order.
pub open spec fn replies_to(replies: Seq<ReplyV>, parent: u64) -> Seq<ReplyV>
    decreases replies.len(),
{
    if replies.len() == 0 {
        Seq::empty()
    } else {
        let rest = replies_to(replies.drop_last(), parent);
        if replies.last().parent == parent {
            rest.push(replies.last())
        } else {
            rest
        }
    }
}

/// Whether a direct message was exchanged between `a` and `b`, in
/// either direction.
pub open spec fn exchanged_between(dm: DirectMessageV, a: Seq<char>, b: Seq<char>) -> bool {
    (dm.sender == a && dm.receiver == b) || (dm.sender == b && dm.receiver == a)
}

/// The direct messages exchanged between `a` and `b`, in table order.
pub open spec fn dms_between(dms: Seq<DirectMessageV>, a: Seq<char>, b: Seq<char>) -> Seq<
    DirectMessageV,
>
    decreases dms.len(),
{
    if dms.len() == 0 {
        Seq::empty()
    } else {
        let rest = dms_between(dms.drop_last(), a, b);
        if exchanged_between(dms.last(), a, b) {
            rest.push(dms.last())
        } else {
            rest
        }
    }
}

/// The conversation ids of the membership rows naming `user`, in table
/// order. Duplicates are kept as the table holds them.
pub open spec fn member_ids_of(members: Seq<MemberV>, user: Seq<char>) -> Seq<u64>
    decreases members.len(),
{
    if members.len() == 0 {
        Seq::empty()
    } else {
        let rest = member_ids_of(members.drop_last(), user);
        if members.last().user == user {
            rest.push(members.last().id)
        } else {
            rest
        }
    }
}

/// The users other than `me` among the membership rows of conversation
/// `cid`, in table order.
pub open spec fn partners_in(members: Seq<MemberV>, cid: u64, me: Seq<char>) -> Seq<Seq<char>>
    decreases members.len(),
{
    if members.len() == 0 {
        Seq::empty()
    } else {
        let rest = partners_in(members.drop_last(), cid, me);
        if members.last().id == cid && members.last().user != me {
            rest.push(members.last().user)
        } else {
            rest
        }
    }
}

/// The partners of `me`, one run per id in `ids`, each run in table
/// order.
pub open spec fn partners_list(members: Seq<MemberV>, ids: Seq<u64>, me: Seq<char>) -> Seq<
    Seq<char>,
>
    decreases ids.len(),
{
    if ids.len() == 0 {
        Seq::empty()
    } else {
        partners_list(members, ids.drop_last(), me) + partners_in(members, ids.last(), me)
    }
}

/// The largest conversation id the membership table holds, or `0` when
/// it is empty.
pub open spec fn max_member_id(members: Seq<MemberV>) -> u64
    decreases members.len(),
{
    if members.len() == 0 {
        0u64
    } else {
        let rest = max_member_id(members.drop_last());
        if members.last().id > rest {
            members.last().id
        } else {
            rest
        }
    }
}

/// Every id the membership table holds is bounded by
/// [`max_member_id`].
pub proof fn lemma_max_member_id_bounds(members: Seq<MemberV>)
    ensures
        forall|k: int|
            0 <= k < members.len() ==> (#[trigger] members[k]).id <= max_member_id(members),
    decreases members.len(),
{
    if members.len() > 0 {
        lemma_max_member_id_bounds(members.drop_last());
        assert(forall|k: int|
            0 <= k < members.len() - 1 ==> members.drop_last()[k] == #[trigger] members[k]);
    }
}

/// An id stands in `member_ids_of(members, user)` exactly when the
/// table holds the row `(id, user)`.
pub proof fn lemma_member_ids_of_contains(members: Seq<MemberV>, user: Seq<char>, id: u64)
    ensures
        member_ids_of(members, user).contains(id) <==> members.contains(
            (MemberV { id, user }),
        ),
    decreases members.len(),
{
    if members.len() == 0 {
    } else {
        let prefix = members.drop_last();
        lemma_member_ids_of_contains(prefix, user, id);
        assert(members =~= prefix.push(members.last()));
        if members.contains((MemberV { id, user })) {
            let k = choose|k: int|
                0 <= k < members.len() && members[k] == (MemberV { id, user });
            if k < prefix.len() {
                assert(prefix[k] == (MemberV { id, user }));
                assert(prefix.contains((MemberV { id, user })));
                let ids = member_ids_of(prefix, user);
                let j = choose|j: int| 0 <= j < ids.len() && ids[j] == id;
                assert(member_ids_of(members, user).contains(id)) by {
                    if members.last().user == user {
                        assert(member_ids_of(members, user)[j] == id);
                    } else {
                        assert(member_ids_of(members, user)[j] == id);
                    }
                }
            } else {
                assert(members.last() == (MemberV { id, user }));
                let ids = member_ids_of(members, user);
                assert(ids.last() == id);
                assert(ids.contains(id));
            }
        }
        if member_ids_of(members, user).contains(id) {
            let ids = member_ids_of(members, user);
            let j = choose|j: int| 0 <= j < ids.len() && ids[j] == id;
            if members.last().user == user {
                if j < ids.len() - 1 {
                    assert(member_ids_of(prefix, user)[j] == id);
                    assert(member_ids_of(prefix, user).contains(id));
                    assert(prefix.contains((MemberV { id, user })));
                    let k = choose|k: int|
                        0 <= k < prefix.len() && prefix[k] == (MemberV { id, user });
                    assert(members[k] == (MemberV { id, user }));
                } else {
                    assert(members.last() == (MemberV { id, user }));
                    assert(members[members.len() - 1] == (MemberV { id, user }));
                }
            } else {
                assert(member_ids_of(prefix, user).contains(id));
                assert(prefix.contains((MemberV { id, user })));
                let k = choose|k: int|
                    0 <= k < prefix.len() && prefix[k] == (MemberV { id, user });
                assert(members[k] == (MemberV { id, user }));
            }
        }
    }
}

/// When no user carries `name`, no credential pair under `name`
/// matches either.
pub proof fn lemma_no_name_no_creds(users: Seq<UserV>, name: Seq<char>, password: Seq<char>)
    requires
        users_named(users, name).len() == 0,
    ensures
        creds_matching(users, name, password).len() == 0,
    decreases users.len(),
{
    if users.len() > 0 {
        lemma_no_name_no_creds(users.drop_last(), name, password);
    }
}

/// Listing the replies of `parent` after a reply to `parent` was
/// written shows exactly the old run with the new row at its end.
pub proof fn lemma_reply_listed_after_post(replies: Seq<ReplyV>, r: ReplyV)
    ensures
        replies_to(replies.push(r), r.parent) == replies_to(replies, r.parent).push(r),
        replies_to(replies.push(r), r.parent).contains(r),
{
    let pushed = replies.push(r);
    assert(pushed.drop_last() =~= replies);
    assert(pushed.last() == r);
    let run = replies_to(pushed, r.parent);
    assert(run == replies_to(replies, r.parent).push(r));
    assert(run.last() == r);
    assert(run.contains(r));
}

} // verus!
