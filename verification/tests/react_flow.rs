use bottle_bot::model::{Bottle, Config, ReceivedBottle, Report, Timestamp, User};
use bottle_bot::react::{react, ReactAction, ReactEvent, ReactState};

fn config() -> Config {
    Config {
        token: String::new(),
        discord_bots_token: String::new(),
        debug_log: false,
        client_id: String::new(),
        client_secret: String::new(),
        database_url: String::new(),
        host_url: "https://h".to_string(),
        admin_channel: 1,
        ban_emoji: "🔨".to_string(),
        delete_emoji: "❌".to_string(),
        auto_admin: 1,
        cookie_sig: String::new(),
    }
}

fn reactor(admin: bool) -> User {
    User { id: 11, session: None, xp: 0, admin, tickets: 0 }
}

fn bottle(id: i64, author: i64) -> Bottle {
    Bottle {
        id,
        reply_to: None,
        user: author,
        message: 1,
        guild: None,
        time_pushed: Timestamp { secs: 0, nanos: 0 },
        contents: "x".to_string(),
        url: None,
        image: None,
        channel: 2,
        deleted: false,
    }
}

fn received(id: i64, bottle: i64) -> ReceivedBottle {
    ReceivedBottle { id, bottle, message: 900, time_recieved: Timestamp { secs: 0, nanos: 0 }, channel: 3 }
}

fn loaded(emoji: Option<&str>, add: bool, admin: bool) -> (ReactState, ReactAction) {
    let (s, a) = react(false, 11, 900, emoji.map(|e| e.to_string()), add);
    assert!(matches!(a, ReactAction::LoadReactor { user: 11 }));
    s.step(ReactEvent::Reactor { user: reactor(admin) }, &config())
}

#[test]
fn bots_and_custom_emoji_and_non_admins_do_nothing() {
    let (s, a) = react(true, 11, 900, Some("🔨".to_string()), true);
    assert!(matches!(a, ReactAction::Finish));
    assert!(matches!(s, ReactState::Finished));
    let (_, a) = loaded(None, true, true);
    assert!(matches!(a, ReactAction::Finish));
    let (_, a) = loaded(Some("🔨"), true, false);
    assert!(matches!(a, ReactAction::Finish));
}

#[test]
fn ban_on_a_delivery_with_an_existing_report() {
    let cfg = config();
    let (s, a) = loaded(Some("🔨"), true, true);
    assert!(matches!(a, ReactAction::FindReceived { message: 900 }));
    let (s, a) = s.step(ReactEvent::Received { found: Some(received(40, 50)) }, &cfg);
    assert!(matches!(a, ReactAction::LoadBottle { bottle: 50 }));
    let (s, a) = s.step(ReactEvent::BottleLoaded { bottle: bottle(50, 77) }, &cfg);
    assert!(matches!(a, ReactAction::FindReport { received: 40, user: 11 }));
    let existing = Report { bottle: 50, user: 11, received_bottle: Some(40) };
    let (s, a) = s.step(ReactEvent::ReportFound { found: Some(existing) }, &cfg);
    assert!(matches!(s, ReactState::Finished));
    match a {
        ReactAction::Ban { ban } => {
            assert_eq!(ban.user, 77);
            assert_eq!(ban.report, Some(50));
        },
        _ => panic!("expected a ban"),
    }
}

#[test]
fn ban_on_a_delivery_files_a_report_first() {
    let cfg = config();
    let (s, _) = loaded(Some("🔨"), false, true);
    let (s, _) = s.step(ReactEvent::Received { found: Some(received(40, 50)) }, &cfg);
    let (s, _) = s.step(ReactEvent::BottleLoaded { bottle: bottle(50, 77) }, &cfg);
    let (s, a) = s.step(ReactEvent::ReportFound { found: None }, &cfg);
    match a {
        ReactAction::FileReport { report } => {
            assert_eq!(report, Report { bottle: 50, user: 11, received_bottle: Some(40) });
        },
        _ => panic!("expected a report"),
    }
    let (_, a) = s.step(
        ReactEvent::ReportFiled { report: Report { bottle: 50, user: 11, received_bottle: Some(40) } },
        &cfg,
    );
    match a {
        ReactAction::Unban { ban } => assert_eq!((ban.user, ban.report), (77, Some(50))),
        _ => panic!("expected the ban to be lifted"),
    }
}

#[test]
fn ban_on_an_original_bottle() {
    let cfg = config();
    let (s, _) = loaded(Some("🔨"), true, true);
    let (s, a) = s.step(ReactEvent::Received { found: None }, &cfg);
    assert!(matches!(a, ReactAction::FindBottle { message: 900 }));
    let (s, a) = s.step(ReactEvent::BottleFound { found: Some(bottle(60, 88)) }, &cfg);
    match a {
        ReactAction::FileReport { report } => {
            assert_eq!(report, Report { bottle: 60, user: 11, received_bottle: None });
        },
        _ => panic!("expected a report"),
    }
    let (_, a) = s.step(ReactEvent::ReportFiled { report: Report { bottle: 60, user: 11, received_bottle: None } }, &cfg);
    match a {
        ReactAction::Ban { ban } => assert_eq!((ban.user, ban.report), (88, Some(60))),
        _ => panic!("expected a ban"),
    }
    let (s, _) = loaded(Some("🔨"), true, true);
    let (s, _) = s.step(ReactEvent::Received { found: None }, &cfg);
    let (_, a) = s.step(ReactEvent::BottleFound { found: None }, &cfg);
    assert!(matches!(a, ReactAction::Finish));
}

#[test]
fn delete_emoji_deletes_only_when_added() {
    let cfg = config();
    let (s, a) = loaded(Some("❌"), true, true);
    assert!(matches!(a, ReactAction::FindAnyBottle { message: 900 }));
    let (_, a) = s.step(ReactEvent::BottleFound { found: Some(bottle(5, 6)) }, &cfg);
    match a {
        ReactAction::Delete { bottle } => assert_eq!(bottle.id, 5),
        _ => panic!("expected a deletion"),
    }
    let (s, _) = loaded(Some("❌"), false, true);
    let (_, a) = s.step(ReactEvent::BottleFound { found: Some(bottle(5, 6)) }, &cfg);
    assert!(matches!(a, ReactAction::Finish));
    let (s, _) = loaded(Some("👍"), true, true);
    let (_, a) = s.step(ReactEvent::BottleFound { found: Some(bottle(5, 6)) }, &cfg);
    assert!(matches!(a, ReactAction::Finish));
}

#[test]
fn taking_the_ban_back_lifts_the_same_ban() {
    let cfg = config();
    let mut results = vec![];
    for add in [true, false] {
        let (s, _) = loaded(Some("🔨"), add, true);
        let (s, _) = s.step(ReactEvent::Received { found: Some(received(40, 50)) }, &cfg);
        let (s, _) = s.step(ReactEvent::BottleLoaded { bottle: bottle(50, 77) }, &cfg);
        let existing = Report { bottle: 50, user: 11, received_bottle: Some(40) };
        let (_, a) = s.step(ReactEvent::ReportFound { found: Some(existing) }, &cfg);
        results.push(a);
    }
    match (&results[0], &results[1]) {
        (ReactAction::Ban { ban: b1 }, ReactAction::Unban { ban: b2 }) => assert_eq!(b1, b2),
        _ => panic!("expected a ban and the lifting of the same ban"),
    }
}
