use bottle_bot::model::{Bottle, Config, Guild, GuildContribution, Timestamp, User};
use bottle_bot::pages::{bottle_card, guild_page, user_page, FIRST_SHOWN_SECS, LAST_SHOWN_SECS};
use bottle_bot::web::{report_page, ReportStep, SessionData};

fn site() -> Config {
    Config {
        token: String::new(),
        discord_bots_token: String::new(),
        debug_log: false,
        client_id: "1234".to_string(),
        client_secret: "hush".to_string(),
        database_url: String::new(),
        host_url: "https://b.io".to_string(),
        admin_channel: 1,
        ban_emoji: "🔨".to_string(),
        delete_emoji: "❌".to_string(),
        auto_admin: 1,
        cookie_sig: String::new(),
    }
}

fn pushed(id: i64, guild: Option<i64>, secs: i64) -> Bottle {
    Bottle {
        id,
        reply_to: None,
        user: 9,
        message: 1,
        guild,
        time_pushed: Timestamp { secs, nanos: 0 },
        contents: format!("bottle {}", id),
        url: None,
        image: Some("https://i.mg".to_string()),
        channel: 2,
        deleted: false,
    }
}

#[test]
fn shown_range_is_chronos() {
    assert!(chrono::DateTime::from_timestamp(LAST_SHOWN_SECS, 999_999_999).is_some());
    assert!(chrono::DateTime::from_timestamp(LAST_SHOWN_SECS + 1, 0).is_none());
    assert!(chrono::DateTime::from_timestamp(FIRST_SHOWN_SECS, 0).is_some());
    assert!(chrono::DateTime::from_timestamp(FIRST_SHOWN_SECS - 1, 999_999_999).is_none());
}

#[test]
fn bottle_cards_show_the_short_date() {
    let c = bottle_card(pushed(1, Some(5), 1_500_000_000), Some("Harbour".to_string()));
    assert_eq!(c.time_pushed, "07/14/17 - 02:40");
    assert_eq!(c.contents, "bottle 1");
    assert_eq!(c.image.as_deref(), Some("https://i.mg"));
    assert_eq!(c.guild.as_deref(), Some("Harbour"));
    let c = bottle_card(pushed(2, None, 0), Some("ignored".to_string()));
    assert_eq!(c.time_pushed, "01/01/70 - 00:00");
    assert!(c.guild.is_none());
}

#[test]
fn user_page_keeps_order() {
    let u = User { id: 9, session: None, xp: 44, admin: true, tickets: 0 };
    let p = user_page(
        "sea#0001".to_string(),
        None,
        &u,
        3,
        12,
        vec![
            ("First".to_string(), GuildContribution { guild: 5, user: 9, xp: 30 }),
            ("Second".to_string(), GuildContribution { guild: 6, user: 9, xp: 14 }),
        ],
        vec![(pushed(1, Some(5), 1_500_000_000), Some("First".to_string())), (pushed(2, None, 60), None)],
        &site(),
    );
    assert_eq!(p.tag, "sea#0001");
    assert!(p.admin);
    assert_eq!(p.pfp, "https://b.io/img/anonymous.png");
    assert_eq!((p.xp, p.ranked, p.num_bottles), (44, 3, 12));
    let lines: Vec<(String, i64, i32)> = p.contributions.iter().map(|c| (c.guild.clone(), c.gid, c.xp)).collect();
    assert_eq!(lines, vec![("First".to_string(), 5, 30), ("Second".to_string(), 6, 14)]);
    assert_eq!(p.recent_bottles.len(), 2);
    assert_eq!(p.recent_bottles[1].time_pushed, "01/01/70 - 00:01");
    assert_eq!(p.recent_bottles[0].guild.as_deref(), Some("First"));
}

#[test]
fn guild_page_shows_members() {
    let g = Guild { id: 5, invite: Some("https://inv".to_string()), bottle_channel: Some(7), admin_channel: None, prefix: None };
    let p = guild_page(
        "Harbour".to_string(),
        Some("icon.png".to_string()),
        &g,
        120,
        None,
        4,
        vec![("sailor".to_string(), GuildContribution { guild: 5, user: 9, xp: 120 })],
        &site(),
    );
    assert_eq!(p.name, "Harbour");
    assert_eq!(p.pfp, "icon.png");
    assert_eq!(p.invite.as_deref(), Some("https://inv"));
    assert_eq!((p.xp, p.ranked, p.num_bottles), (120, None, 4));
    assert_eq!(p.contributions.len(), 1);
    assert_eq!((p.contributions[0].user.as_str(), p.contributions[0].uid, p.contributions[0].xp), ("sailor", 9, 120));
}

#[test]
fn report_page_answers() {
    let cfg = site();
    let session = SessionData { id: 0x67e5504410b1426f9247bb680e5fe0c8, redirect: None };
    assert!(matches!(report_page(None, false, None, &session, &cfg), ReportStep::BadRequest));
    assert!(matches!(report_page(Some(4), false, Some(9), &session, &cfg), ReportStep::NotFound));
    assert!(matches!(report_page(Some(4), true, Some(9), &session, &cfg), ReportStep::File { bottle: 4, user: 9 }));
    match report_page(Some(4), true, None, &session, &cfg) {
        ReportStep::SignIn { state, return_to, address } => {
            assert_eq!(state, session.id);
            assert_eq!(return_to, "https://b.io/report/4");
            assert!(address.starts_with("https://discordapp.com/api/oauth2/authorize?"));
            assert!(address.contains("client_id=1234"));
            assert!(address.contains("scope=identify"));
            assert!(address.contains("response_type=code"));
            assert!(address.contains("redirect_uri=https%3A%2F%2Fb.io%2Foauth"));
            assert!(address.contains("state=67e55044-10b1-426f-9247-bb680e5fe0c8"));
            assert!(!address.contains("hush"));
        },
        _ => panic!("expected a sign-in"),
    }
}
