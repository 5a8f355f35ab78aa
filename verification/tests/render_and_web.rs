use bottle_bot::bottle::{
    bottle_embed, col_wheel, contribution_of, credit_guild, credit_xp, deleted_description, deleted_title,
    feed_message, guild_footer, guild_name_or_missing, member_author, profile_picture, report_notice,
    user_name_or_missing, AuthorPlan, BottleRender,
};
use bottle_bot::model::{Bottle, Config, GuildContribution, Timestamp, User};
use bottle_bot::web::{oauth_callback, oauth_redirect_url, report_outcome, session_token, Callback, SessionData};

fn config() -> Config {
    Config {
        token: String::new(),
        discord_bots_token: String::new(),
        debug_log: false,
        client_id: String::new(),
        client_secret: String::new(),
        database_url: String::new(),
        host_url: "https://b.io".to_string(),
        admin_channel: 1,
        ban_emoji: "🔨".to_string(),
        delete_emoji: "❌".to_string(),
        auto_admin: 1,
        cookie_sig: String::new(),
    }
}

fn bottle() -> Bottle {
    Bottle {
        id: 42,
        reply_to: Some(41),
        user: 1234,
        message: 1,
        guild: Some(77),
        time_pushed: Timestamp { secs: 1_500_000_000, nanos: 5 },
        contents: "ahoy".to_string(),
        url: None,
        image: None,
        channel: 2,
        deleted: false,
    }
}

#[test]
fn wheel_colours_repeat_every_eight() {
    let expected = [0x7289DA, 0x3498DB, 0x1ABC9C, 0x1F8B4C, 0xBADA55, 0xF1C40F, 0x992D22, 0xE91E63];
    for n in 0..24usize {
        assert_eq!(col_wheel(n), expected[n % 8]);
    }
    assert_eq!(col_wheel(0), serenity::utils::Colour::BLURPLE.0);
}

#[test]
fn shown_bottle_from_a_server() {
    let cfg = config();
    match bottle_embed(&bottle(), 0, false, &cfg) {
        BottleRender::Shown { embed } => {
            assert_eq!(embed.title, "You have recovered a bottle!");
            assert_eq!(
                embed.description,
                "ahoy [Guild](https://b.io/g/77) [Report](https://b.io/report/42)"
            );
            assert_eq!(embed.colour, 0x7289DA);
            assert_eq!(embed.guild, Some(77));
            assert_eq!(embed.timestamp, Timestamp { secs: 1_500_000_000, nanos: 5 });
            match embed.author {
                AuthorPlan::Member { user, url } => {
                    assert_eq!(user, 1234);
                    assert_eq!(url, "https://b.io/u/1234");
                },
                _ => panic!("expected a member author"),
            }
            assert!(embed.url.is_none() && embed.image.is_none());
        },
        _ => panic!("expected a shown bottle"),
    }
}

#[test]
fn shown_bottle_in_a_reply_with_link_only() {
    let cfg = config();
    let mut b = bottle();
    b.guild = None;
    b.contents = String::new();
    b.url = Some("https://l.ink".to_string());
    b.image = Some("https://i.mg/p.png".to_string());
    match bottle_embed(&b, 2, true, &cfg) {
        BottleRender::Shown { embed } => {
            assert_eq!(embed.title, "You have found a message glued to the bottle!");
            assert_eq!(embed.description, " [Link](https://l.ink) [Report](https://b.io/report/42)");
            assert_eq!(embed.colour, 0x1F8B4C);
            match embed.author {
                AuthorPlan::Anonymous { icon } => assert_eq!(icon, "https://b.io/img/anonymous.png"),
                _ => panic!("expected an anonymous author"),
            }
            assert_eq!(embed.url.as_deref(), Some("https://l.ink"));
            assert_eq!(embed.image.as_deref(), Some("https://i.mg/p.png"));
        },
        _ => panic!("expected a shown bottle"),
    }
    b.url = None;
    match bottle_embed(&b, 0, false, &cfg) {
        BottleRender::Shown { embed } => assert_eq!(embed.url.as_deref(), Some("https://i.mg/p.png")),
        _ => panic!(),
    }
}

#[test]
fn deleted_bottle() {
    let cfg = config();
    let mut b = bottle();
    b.deleted = true;
    assert!(matches!(bottle_embed(&b, 0, false, &cfg), BottleRender::Deleted { author: 1234 }));
    assert_eq!(deleted_title("sailor"), "BOTTLE FROM sailor IS DELETED");
    assert_eq!(deleted_description(), "This bottle has been deleted.");
}

#[test]
fn names_and_pictures_fall_back() {
    let cfg = config();
    assert_eq!(profile_picture(None, &cfg), "https://b.io/img/anonymous.png");
    assert_eq!(profile_picture(Some("a.png".to_string()), &cfg), "a.png");
    assert_eq!(member_author(None, &cfg), ("Error fetching username".to_string(), "https://b.io/img/anonymous.png".to_string()));
    assert_eq!(
        member_author(Some(("sea#1".to_string(), None)), &cfg),
        ("sea#1".to_string(), "https://b.io/img/anonymous.png".to_string())
    );
    assert_eq!(guild_footer(None), "No guild found");
    assert_eq!(guild_footer(Some("Harbour".to_string())), "Harbour");
    assert_eq!(user_name_or_missing(None), "User not found");
    assert_eq!(guild_name_or_missing(None), "Guild not found");
}

#[test]
fn report_notice_text() {
    assert_eq!(
        report_notice("sea#0001", 18446744073709551615, -5),
        "REPORT FROM sea#0001. USER ID 18446744073709551615, BOTTLE ID -5."
    );
}

#[test]
fn feed_lines() {
    let mut b = bottle();
    b.url = Some("https://l.ink".to_string());
    assert_eq!(feed_message(&b), "**<@1234> / 42:**\n>>41 ahoy https://l.ink");
    b.guild = None;
    b.reply_to = None;
    b.url = None;
    b.image = Some("https://i.mg".to_string());
    assert_eq!(feed_message(&b), "**anon / 42:**\nahoy https://i.mg");
}

#[test]
fn experience_credits() {
    let mut u = User { id: 1, session: None, xp: 5, admin: false, tickets: 2 };
    credit_xp(&mut u, 65);
    assert_eq!(u.xp, 70);
    assert_eq!(u.tickets, 2);
    let mut c = GuildContribution { guild: 77, user: 1234, xp: 1 };
    credit_guild(&mut c, 23);
    assert_eq!(c.xp, 24);
    assert_eq!(contribution_of(&bottle()), Some((77, 1234)));
    let mut b = bottle();
    b.guild = None;
    assert_eq!(contribution_of(&b), None);
    report_outcome(&mut u, true);
    assert_eq!(u.xp, 70);
    report_outcome(&mut u, false);
    assert_eq!(u.xp, 90);
}

#[test]
fn sessions_and_sign_in() {
    let cfg = config();
    assert_eq!(oauth_redirect_url(&cfg), "https://b.io/oauth");
    let id: u128 = 0x67e5504410b1426f9247bb680e5fe0c8;
    assert_eq!(session_token(id), "67e55044-10b1-426f-9247-bb680e5fe0c8");
    assert_eq!(session_token(0), "00000000-0000-0000-0000-000000000000");
    let ok = oauth_callback(
        Some("67e55044-10b1-426f-9247-bb680e5fe0c8".to_string()),
        Some("code".to_string()),
        SessionData { id, redirect: Some("https://b.io/report/1".to_string()) },
    );
    match ok {
        Callback::Accept { code, redirect } => {
            assert_eq!(code.as_deref(), Some("code"));
            assert_eq!(redirect.as_deref(), Some("https://b.io/report/1"));
        },
        _ => panic!("expected acceptance"),
    }
    let bad = oauth_callback(Some("nope".to_string()), None, SessionData { id, redirect: None });
    assert!(matches!(bad, Callback::Refuse));
    let missing = oauth_callback(None, None, SessionData { id, redirect: None });
    assert!(matches!(missing, Callback::Refuse));
    let a = SessionData::new();
    let b = SessionData::new();
    assert_ne!(a.id, b.id);
    assert!(a.redirect.is_none());
    let text: Vec<char> = session_token(a.id).chars().collect();
    assert_eq!(text[14], '4');
    assert!("89ab".contains(text[19]));
}
