//! End-to-end tests of the forum core: accounts, messages, replies,
//! direct messages, and the conversation resolver.

use grapevine::auth::{login, register, LoginOutcome, RegisterOutcome};
use grapevine::context::profile_context;
use grapevine::errors::StoreError;
use grapevine::resolver::resolve_conversation;
use grapevine::routes::{
    conversation_partners, conversation_view, login_page, message_board, message_thread,
    post_message, post_reply, profile_page, register_page, send_direct_message, FormGate,
    ProfileResponse,
};
use grapevine::session::{current_user, is_authenticated, logout, Identity};
use grapevine::store::Store;

fn identity(user_id: Option<&str>, username: Option<&str>) -> Identity {
    Identity {
        user_id: user_id.map(|v| v.to_string()),
        username: username.map(|v| v.to_string()),
    }
}

#[test]
fn register_then_login_succeeds() {
    let mut store = Store::new();
    let outcome = register(&mut store, "alice".to_string(), "pw1".to_string());
    assert_eq!(outcome, RegisterOutcome::Registered(1));

    match login(&store, &"alice".to_string(), &"pw1".to_string()) {
        LoginOutcome::LoggedIn(u) => {
            assert_eq!(u.id, 1);
            assert_eq!(u.username, "alice");
            assert_eq!(u.password, "pw1");
        }
        LoginOutcome::InvalidAccount => panic!("fresh credentials must log in"),
    }
}

#[test]
fn duplicate_registration_rejected_before_write() {
    let mut store = Store::new();
    assert_eq!(
        register(&mut store, "alice".to_string(), "pw1".to_string()),
        RegisterOutcome::Registered(1)
    );
    assert_eq!(
        register(&mut store, "alice".to_string(), "pw2".to_string()),
        RegisterOutcome::UsernameTaken
    );
    // The table still holds exactly one row for that username, the
    // first one written.
    assert_eq!(store.users.len(), 1);
    let found = store.find_user_by_name(&"alice".to_string()).unwrap();
    assert_eq!(found.password, "pw1");
}

#[test]
fn login_wrong_password_is_invalid_account() {
    let mut store = Store::new();
    register(&mut store, "alice".to_string(), "pw1".to_string());
    assert!(matches!(
        login(&store, &"alice".to_string(), &"wrong".to_string()),
        LoginOutcome::InvalidAccount
    ));
}

#[test]
fn login_unknown_user_is_invalid_account() {
    let store = Store::new();
    assert!(matches!(
        login(&store, &"ghost".to_string(), &"pw".to_string()),
        LoginOutcome::InvalidAccount
    ));
}

#[test]
fn resolve_fresh_store_allocates_one() {
    let mut store = Store::new();
    let cid = resolve_conversation(&mut store, &"alice".to_string(), &"bob".to_string());
    assert_eq!(cid, 1);
    assert_eq!(store.members.len(), 2);
    assert_eq!(store.members[0].id, 1);
    assert_eq!(store.members[0].user, "alice");
    assert_eq!(store.members[1].id, 1);
    assert_eq!(store.members[1].user, "bob");
}

#[test]
fn resolve_second_pair_allocates_two() {
    let mut store = Store::new();
    assert_eq!(
        resolve_conversation(&mut store, &"alice".to_string(), &"bob".to_string()),
        1
    );
    assert_eq!(
        resolve_conversation(&mut store, &"carol".to_string(), &"dave".to_string()),
        2
    );
}

#[test]
fn resolve_is_idempotent_and_symmetric() {
    let mut store = Store::new();
    let first = resolve_conversation(&mut store, &"alice".to_string(), &"bob".to_string());
    let again = resolve_conversation(&mut store, &"alice".to_string(), &"bob".to_string());
    let reversed = resolve_conversation(&mut store, &"bob".to_string(), &"alice".to_string());
    assert_eq!(first, again);
    assert_eq!(first, reversed);
    // No further membership rows were written after the first contact.
    assert_eq!(store.members.len(), 2);
}

#[test]
fn reply_listed_after_post() {
    let mut store = Store::new();
    let author = identity(Some("1"), Some("alice"));
    let message_id =
        post_message(&mut store, &author, "title".to_string(), "hello".to_string()).unwrap();
    let replier = identity(Some("2"), Some("bob"));
    post_reply(&mut store, &replier, message_id, "welcome".to_string()).unwrap();

    let listed = store.list_replies(message_id);
    assert_eq!(listed.len(), 1);
    assert_eq!(listed[0].parent, message_id);
    assert_eq!(listed[0].content, "welcome");
    assert_eq!(listed[0].username, "bob");
}

#[test]
fn listings_keep_insertion_order() {
    let mut store = Store::new();
    let author = identity(Some("1"), Some("alice"));
    for title in ["zeta", "alpha", "midway"] {
        post_message(&mut store, &author, title.to_string(), "body".to_string()).unwrap();
    }
    let listed = store.list_messages();
    assert_eq!(listed.len(), 3);
    // Insertion order, not any sorted order.
    assert_eq!(listed[0].title, "zeta");
    assert_eq!(listed[1].title, "alpha");
    assert_eq!(listed[2].title, "midway");
    assert_eq!(listed[0].id, 1);
    assert_eq!(listed[1].id, 2);
    assert_eq!(listed[2].id, 3);

    post_reply(&mut store, &author, 1, "second".to_string()).unwrap();
    post_reply(&mut store, &author, 1, "third".to_string()).unwrap();
    let replies = store.list_replies(1);
    assert_eq!(replies.len(), 2);
    assert_eq!(replies[0].content, "second");
    assert_eq!(replies[1].content, "third");
}

#[test]
fn direct_messages_both_ways_share_one_conversation() {
    let mut store = Store::new();
    let alice = identity(Some("1"), Some("alice"));
    let bob = identity(Some("2"), Some("bob"));

    let cid_a = send_direct_message(&mut store, &alice, &"bob".to_string(), "hi bob".to_string())
        .unwrap();
    let cid_b = send_direct_message(&mut store, &bob, &"alice".to_string(), "hi alice".to_string())
        .unwrap();
    assert_eq!(cid_a, cid_b);
    assert_eq!(cid_a, 1);

    let listed = store.list_conversation(&"alice".to_string(), &"bob".to_string());
    assert_eq!(listed.len(), 2);
    assert_eq!(listed[0].sender, "alice");
    assert_eq!(listed[0].receiver, "bob");
    assert_eq!(listed[0].content, "hi bob");
    assert_eq!(listed[1].sender, "bob");
    assert_eq!(listed[1].receiver, "alice");
    assert_eq!(listed[1].content, "hi alice");
    assert_eq!(listed[0].conversation_id, cid_a);
    assert_eq!(listed[1].conversation_id, cid_a);
}

#[test]
fn conversation_view_lists_exchange_for_the_acting_user() {
    let mut store = Store::new();
    let alice = identity(Some("1"), Some("alice"));
    send_direct_message(&mut store, &alice, &"bob".to_string(), "one".to_string()).unwrap();
    send_direct_message(&mut store, &alice, &"carol".to_string(), "two".to_string()).unwrap();

    let view = conversation_view(&store, &alice, &"bob".to_string()).unwrap();
    assert_eq!(view.target, "bob");
    assert_eq!(view.messages.len(), 1);
    assert_eq!(view.messages[0].content, "one");
}

#[test]
fn conversation_partners_lists_other_members() {
    let mut store = Store::new();
    let alice = identity(Some("1"), Some("alice"));
    send_direct_message(&mut store, &alice, &"bob".to_string(), "one".to_string()).unwrap();
    send_direct_message(&mut store, &alice, &"carol".to_string(), "two".to_string()).unwrap();

    let partners = conversation_partners(&store, &alice).unwrap();
    assert_eq!(partners, vec!["bob".to_string(), "carol".to_string()]);

    let bob = identity(Some("2"), Some("bob"));
    let partners_of_bob = conversation_partners(&store, &bob).unwrap();
    assert_eq!(partners_of_bob, vec!["alice".to_string()]);
}

#[test]
fn message_thread_returns_message_and_its_replies() {
    let mut store = Store::new();
    let author = identity(Some("1"), Some("alice"));
    let first = post_message(&mut store, &author, "first".to_string(), "a".to_string()).unwrap();
    let second = post_message(&mut store, &author, "second".to_string(), "b".to_string()).unwrap();
    post_reply(&mut store, &author, first, "to first".to_string()).unwrap();
    post_reply(&mut store, &author, second, "to second".to_string()).unwrap();

    let thread = message_thread(&store, first).unwrap();
    assert_eq!(thread.message.id, first);
    assert_eq!(thread.message.title, "first");
    assert_eq!(thread.replies.len(), 1);
    assert_eq!(thread.replies[0].content, "to first");
}

#[test]
fn message_thread_missing_id_is_not_found() {
    let store = Store::new();
    assert!(matches!(
        message_thread(&store, 1),
        Err(StoreError::NotFound)
    ));
    let mut store = Store::new();
    let author = identity(Some("1"), Some("alice"));
    post_message(&mut store, &author, "t".to_string(), "c".to_string()).unwrap();
    assert!(matches!(store.get_message(0), Err(StoreError::NotFound)));
    assert!(matches!(store.get_message(2), Err(StoreError::NotFound)));
    assert!(store.get_message(1).is_ok());
}

#[test]
fn missing_identity_is_rejected_everywhere_it_matters() {
    let mut store = Store::new();
    let anonymous = identity(None, None);

    assert!(matches!(
        message_board(&store, &anonymous),
        Err(StoreError::Unauthenticated)
    ));
    assert!(matches!(
        post_message(&mut store, &anonymous, "t".to_string(), "c".to_string()),
        Err(StoreError::Unauthenticated)
    ));
    assert!(matches!(
        post_reply(&mut store, &anonymous, 1, "c".to_string()),
        Err(StoreError::Unauthenticated)
    ));
    assert!(matches!(
        send_direct_message(&mut store, &anonymous, &"bob".to_string(), "c".to_string()),
        Err(StoreError::Unauthenticated)
    ));
    assert!(matches!(
        conversation_view(&store, &anonymous, &"bob".to_string()),
        Err(StoreError::Unauthenticated)
    ));
    assert!(matches!(
        conversation_partners(&store, &anonymous),
        Err(StoreError::Unauthenticated)
    ));
    assert!(matches!(
        profile_page(&anonymous),
        ProfileResponse::RedirectToLogin
    ));
    // Nothing was written by any rejected call.
    assert_eq!(store.messages.len(), 0);
    assert_eq!(store.replies.len(), 0);
    assert_eq!(store.direct_messages.len(), 0);
    assert_eq!(store.members.len(), 0);
}

#[test]
fn any_presented_user_id_counts_as_a_session() {
    // The check never consults the user table: a forged value passes.
    let forged = identity(Some("999"), None);
    assert!(is_authenticated(&forged));
    assert!(!is_authenticated(&identity(None, Some("alice"))));

    let store = Store::new();
    assert!(message_board(&store, &forged).is_ok());
}

#[test]
fn current_user_surfaces_both_values_verbatim() {
    let both = identity(Some("7"), Some("alice"));
    let u = current_user(&both).unwrap();
    assert_eq!(u.id, "7");
    assert_eq!(u.username, "alice");

    assert!(current_user(&identity(Some("7"), None)).is_none());
    assert!(current_user(&identity(None, Some("alice"))).is_none());
}

#[test]
fn logout_clears_the_session() {
    let mut id = identity(Some("7"), Some("alice"));
    logout(&mut id);
    assert!(id.user_id.is_none());
    assert!(id.username.is_none());
    assert!(!is_authenticated(&id));
}

#[test]
fn form_views_redirect_once_logged_in() {
    let logged_in = identity(Some("1"), Some("alice"));
    let anonymous = identity(None, None);
    assert_eq!(register_page(&logged_in), FormGate::RedirectToProfile);
    assert_eq!(register_page(&anonymous), FormGate::ShowForm);
    assert_eq!(login_page(&logged_in), FormGate::RedirectToProfile);
    assert_eq!(login_page(&anonymous), FormGate::ShowForm);
}

#[test]
fn profile_shows_presented_values() {
    let id = identity(Some("3"), Some("carol"));
    match profile_page(&id) {
        ProfileResponse::Show(c) => {
            assert_eq!(c.user_id.as_deref(), Some("3"));
            assert_eq!(c.username.as_deref(), Some("carol"));
        }
        ProfileResponse::RedirectToLogin => panic!("a presented user_id must show the profile"),
    }
    let ctx = profile_context(&id);
    assert_eq!(ctx.user_id.as_deref(), Some("3"));
    assert_eq!(ctx.username.as_deref(), Some("carol"));
}

#[test]
fn store_assigns_ids_and_timestamps() {
    let mut store = Store::new();
    assert_eq!(store.max_user_id(), 0);
    assert_eq!(store.max_conversation_id(), 0);

    let first = store.insert_user("alice".to_string(), "pw1".to_string());
    let second = store.insert_user("bob".to_string(), "pw2".to_string());
    assert_eq!((first, second), (1, 2));
    assert_eq!(store.max_user_id(), 2);

    let message = store.insert_message("t".to_string(), "c".to_string(), "alice".to_string());
    assert_eq!(message, 1);

    // One shared clock stamps every write, in order.
    assert_eq!(store.users[0].time_created, 0);
    assert_eq!(store.users[1].time_created, 1);
    assert_eq!(store.messages[0].time_created, 2);
}

#[test]
fn membership_rows_are_listed_per_user_and_per_conversation() {
    let mut store = Store::new();
    store.insert_conversation_member(1, "alice".to_string());
    store.insert_conversation_member(1, "bob".to_string());
    store.insert_conversation_member(2, "alice".to_string());
    store.insert_conversation_member(2, "carol".to_string());

    assert_eq!(store.list_conversation_members(&"alice".to_string()), vec![1, 2]);
    assert_eq!(store.list_conversation_members(&"bob".to_string()), vec![1]);
    assert_eq!(store.max_conversation_id(), 2);

    assert_eq!(
        store.list_members_of(1, &"alice".to_string()),
        vec!["bob".to_string()]
    );
    assert_eq!(
        store.list_members_of(2, &"alice".to_string()),
        vec!["carol".to_string()]
    );
}

#[test]
fn message_board_lists_for_a_session() {
    let mut store = Store::new();
    let author = identity(Some("1"), Some("alice"));
    post_message(&mut store, &author, "only".to_string(), "body".to_string()).unwrap();
    let board = message_board(&store, &author).unwrap();
    assert_eq!(board.messages.len(), 1);
    assert_eq!(board.messages[0].title, "only");
}

#[test]
fn error_descriptions_are_stable() {
    assert_eq!(StoreError::StoreUnavailable.describe(), "store unavailable");
    assert_eq!(
        StoreError::StoreOperationFailed.describe(),
        "store operation failed"
    );
    assert_eq!(StoreError::NotFound.describe(), "not found");
    assert_eq!(StoreError::Unauthenticated.describe(), "unauthenticated");
}
