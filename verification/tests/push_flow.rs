use bottle_bot::model::{Bottle, Prefix, Timestamp, User, MAX_TICKETS};
use bottle_bot::push::{
    new_bottle, pushed_reply, stamp, test_prefix, ticket_res, Draft, Incoming, PushAction, PushEvent,
    PushState, Refusal,
};

fn incoming(content: &str, url: Option<&str>, image: Option<&str>) -> Incoming {
    Incoming {
        author: 100,
        message: 5000,
        channel: 300,
        guild: Some(9),
        content: content.to_string(),
        url: url.map(|s| s.to_string()),
        image: image.map(|s| s.to_string()),
    }
}

fn user(admin: bool, tickets: i32) -> User {
    User { id: 100, session: None, xp: 10, admin, tickets }
}

fn bottle(id: i64, author: i64) -> Bottle {
    Bottle {
        id,
        reply_to: None,
        user: author,
        message: 1,
        guild: None,
        time_pushed: Timestamp { secs: 0, nanos: 0 },
        contents: "earlier".to_string(),
        url: None,
        image: None,
        channel: 300,
        deleted: false,
    }
}

fn started(content: &str, url: Option<&str>, image: Option<&str>) -> PushState {
    let (state, action) = new_bottle(incoming(content, url, image));
    match action {
        PushAction::LoadAuthor { user } => assert_eq!(user, 100),
        _ => panic!("expected the author to be loaded"),
    }
    state
}

fn draft_of(state: &PushState) -> &Draft {
    match state {
        PushState::AwaitAuthor { draft } => draft,
        _ => panic!("expected a draft"),
    }
}

#[test]
fn test_prefix_strips_only_a_matching_prefix() {
    let mut s = "->> hi".to_string();
    assert_eq!(test_prefix(&mut s, "->>", 3), Some(3));
    assert_eq!(s, " hi");
    let mut t = "-> hi".to_string();
    assert_eq!(test_prefix(&mut t, "->>", 3), None);
    assert_eq!(t, "-> hi");
}

#[test]
fn messages_without_prefix_are_ignored() {
    let (state, action) = new_bottle(incoming("hello there", None, None));
    assert!(matches!(action, PushAction::Ignore));
    assert!(matches!(state, PushState::Finished));
    let (_, action) = new_bottle(incoming("-x", None, None));
    assert!(matches!(action, PushAction::Ignore));
}

#[test]
fn prefixes_are_read_longest_first() {
    let s = started("  >  a message in a bottle ", None, None);
    assert_eq!(draft_of(&s).prefix, Prefix::SendPrefix);
    assert_eq!(draft_of(&s).contents, "  a message in a bottle");
    let s = started("->>branch reply", None, None);
    assert_eq!(draft_of(&s).prefix, Prefix::BranchReplyPrefix);
    assert_eq!(draft_of(&s).contents, "branch reply");
    let s = started("->plain reply", None, None);
    assert_eq!(draft_of(&s).prefix, Prefix::ReplyPrefix);
    assert_eq!(draft_of(&s).contents, "plain reply");
    assert_eq!(draft_of(&s).channel, 300);
    assert_eq!(draft_of(&s).guild, Some(9));
}

#[test]
fn admin_send_is_published_at_once() {
    let s = started(">hi", Some("https://l.ink"), Some("https://i.mg"));
    let (s, action) = s.step(PushEvent::AuthorLoaded { user: user(true, 3), last_push: None });
    assert!(matches!(s, PushState::Finished));
    match action {
        PushAction::Publish { user, draft, reply_to, credit_reply, xp } => {
            assert_eq!(user.tickets, 0);
            assert!(user.admin);
            assert_eq!(draft.contents, "hi");
            assert!(reply_to.is_none());
            assert!(!credit_reply);
            assert_eq!(xp, 15 + 2 + 6);
        },
        _ => panic!("expected a publication"),
    }
}

#[test]
fn banned_author_is_refused() {
    let s = started("> a long enough bottle", None, None);
    let (s, action) = s.step(PushEvent::AuthorLoaded { user: user(false, 0), last_push: None });
    assert!(matches!(action, PushAction::CheckBan { user: 100 }));
    let (_, action) = s.step(PushEvent::BanChecked { banned: true });
    match action {
        PushAction::Refuse { user, refusal } => {
            assert_eq!(refusal, Refusal::Banned);
            assert_eq!(user.tickets, 0);
            assert_eq!(
                refusal.text(),
                "You are banned from using Bottle! Appeal by dming the global admins!"
            );
        },
        _ => panic!("expected a refusal"),
    }
}

#[test]
fn cooldown_tells_the_remaining_seconds() {
    let last = Timestamp { secs: 1_000_000, nanos: 0 };
    let s = started("> a long enough bottle", None, None);
    let (s, _) = s.step(PushEvent::AuthorLoaded { user: user(false, 0), last_push: Some(last) });
    let (s, action) = s.step(PushEvent::BanChecked { banned: false });
    assert!(matches!(action, PushAction::ReadClock));
    let (_, action) = s.step(PushEvent::Clock { now: Timestamp { secs: 1_000_020, nanos: 500_000_000 } });
    match action {
        PushAction::Refuse { refusal, .. } => {
            assert_eq!(refusal, Refusal::Cooldown { seconds: 39 });
            assert_eq!(refusal.text(), "You must wait 39 seconds before sending another bottle!");
        },
        _ => panic!("expected a refusal"),
    }
}

#[test]
fn cooldown_over_lets_the_bottle_through() {
    let last = Timestamp { secs: 1_000_000, nanos: 0 };
    let s = started("> a long enough bottle", None, None);
    let (s, _) = s.step(PushEvent::AuthorLoaded { user: user(false, 2), last_push: Some(last) });
    let (s, _) = s.step(PushEvent::BanChecked { banned: false });
    let (_, action) = s.step(PushEvent::Clock { now: Timestamp { secs: 1_000_060, nanos: 0 } });
    assert!(matches!(action, PushAction::Publish { xp: 15, .. }));
}

#[test]
fn short_bottles_need_a_link_or_image() {
    let s = started(">short", None, None);
    let (s, _) = s.step(PushEvent::AuthorLoaded { user: user(false, 0), last_push: None });
    let (_, action) = s.step(PushEvent::BanChecked { banned: false });
    match action {
        PushAction::Refuse { refusal, .. } => {
            assert_eq!(refusal, Refusal::TooShort);
            assert_eq!(refusal.text(), "Your bottle cannot be less than 10 characters!");
        },
        _ => panic!("expected a refusal"),
    }
    // five characters, but ten bytes
    let s = started(">ééééé", None, None);
    let (s, _) = s.step(PushEvent::AuthorLoaded { user: user(false, 0), last_push: None });
    let (_, action) = s.step(PushEvent::BanChecked { banned: false });
    assert!(matches!(action, PushAction::Publish { .. }));
    let s = started(">short", None, Some("https://i.mg"));
    let (s, _) = s.step(PushEvent::AuthorLoaded { user: user(false, 0), last_push: None });
    let (_, action) = s.step(PushEvent::BanChecked { banned: false });
    assert!(matches!(action, PushAction::Publish { xp: 21, .. }));
}

#[test]
fn replies_need_a_target() {
    let s = started("-> a reply to the last one", None, None);
    let (s, action) = s.step(PushEvent::AuthorLoaded { user: user(true, 0), last_push: None });
    assert!(matches!(action, PushAction::FindLastBottle { channel: 300 }));
    let (_, action) = s.step(PushEvent::TargetFound { target: None });
    match action {
        PushAction::Refuse { refusal, .. } => {
            assert_eq!(refusal, Refusal::NoTarget);
            assert_eq!(refusal.text(), "No bottle to reply to was found!");
        },
        _ => panic!("expected a refusal"),
    }
}

#[test]
fn replies_credit_other_authors_only() {
    let s = started("->> a branch off the last one", None, None);
    let (s, action) = s.step(PushEvent::AuthorLoaded { user: user(true, 0), last_push: None });
    assert!(matches!(action, PushAction::FindLastReceived { channel: 300 }));
    let (_, action) = s.step(PushEvent::TargetFound { target: Some(bottle(77, 555)) });
    match action {
        PushAction::Publish { reply_to, credit_reply, .. } => {
            assert_eq!(reply_to.unwrap().id, 77);
            assert!(credit_reply);
        },
        _ => panic!("expected a publication"),
    }
    let s = started("-> answering myself here", None, None);
    let (s, _) = s.step(PushEvent::AuthorLoaded { user: user(true, 0), last_push: None });
    let (_, action) = s.step(PushEvent::TargetFound { target: Some(bottle(78, 100)) });
    assert!(matches!(action, PushAction::Publish { credit_reply: false, .. }));
}

#[test]
fn tickets_silence_repeated_refusals() {
    let (u, reply) = ticket_res(user(false, MAX_TICKETS - 1), &Refusal::TooShort);
    assert_eq!(u.tickets, MAX_TICKETS);
    assert_eq!(reply.unwrap(), "Your bottle cannot be less than 10 characters!");
    let (u, reply) = ticket_res(user(false, MAX_TICKETS), &Refusal::TooShort);
    assert_eq!(u.tickets, MAX_TICKETS + 1);
    assert!(reply.is_none());
}

#[test]
fn published_record_and_answer() {
    let s = started(">message body", None, None);
    let draft = match s {
        PushState::AwaitAuthor { draft } => draft,
        _ => panic!(),
    };
    let rec = stamp(draft, Some(4), Timestamp { secs: 9, nanos: 1 });
    assert_eq!(rec.user, 100);
    assert_eq!(rec.message, 5000);
    assert_eq!(rec.channel, 300);
    assert_eq!(rec.guild, Some(9));
    assert_eq!(rec.reply_to, Some(4));
    assert_eq!(rec.contents, "message body");
    assert_eq!(rec.time_pushed, Timestamp { secs: 9, nanos: 1 });
    assert_eq!(pushed_reply(), "Your message has been ~~discarded~~ pushed into the dark seas of discord!");
}
