use bottle_bot::model::{
    anonymous_url, error_url, guild_url, now, report_url, user_url, Config, Guild, GuildContribution, User,
};
use bottle_bot::text::{decimal_i128, decimal_i64, decimal_u64, skip_chars, starts_with, trim};

fn config(host: &str) -> Config {
    Config {
        token: "tok".to_string(),
        discord_bots_token: "dbt".to_string(),
        debug_log: false,
        client_id: "cid".to_string(),
        client_secret: "secret".to_string(),
        database_url: "postgres://db".to_string(),
        host_url: host.to_string(),
        admin_channel: 77,
        ban_emoji: "🔨".to_string(),
        delete_emoji: "🗑".to_string(),
        auto_admin: 1,
        cookie_sig: "sig".to_string(),
    }
}

#[test]
fn decimal_notation_matches_display() {
    assert_eq!(decimal_i64(0), "0");
    assert_eq!(decimal_i64(7), "7");
    assert_eq!(decimal_i64(-42), "-42");
    assert_eq!(decimal_i64(1234567890), "1234567890");
    assert_eq!(decimal_i64(i64::MIN), i64::MIN.to_string());
    assert_eq!(decimal_i64(i64::MAX), i64::MAX.to_string());
    assert_eq!(decimal_u64(u64::MAX), u64::MAX.to_string());
    assert_eq!(decimal_i128(i128::MIN), i128::MIN.to_string());
}

#[test]
fn trim_removes_unicode_white_space() {
    assert_eq!(trim("  > hi \n"), "> hi");
    assert_eq!(trim("\u{3000}\t->x\u{2003}"), "->x");
    assert_eq!(trim("   "), "");
    assert_eq!(trim("a b"), "a b");
}

#[test]
fn prefix_tests_and_skips() {
    assert!(starts_with("->> hello", "->>"));
    assert!(starts_with("->> hello", "->"));
    assert!(!starts_with("-> hello", "->>"));
    assert!(!starts_with("", ">"));
    assert!(starts_with("anything", ""));
    assert_eq!(skip_chars("héllo", 2), "llo");
    assert_eq!(skip_chars("abc", 3), "");
}

#[test]
fn page_addresses() {
    let cfg = config("https://bottle.example");
    assert_eq!(user_url(42, &cfg), "https://bottle.example/u/42");
    assert_eq!(guild_url(-7, &cfg), "https://bottle.example/g/-7");
    assert_eq!(report_url(900, &cfg), "https://bottle.example/report/900");
    assert_eq!(anonymous_url(&cfg), "https://bottle.example/img/anonymous.png");
    assert_eq!(error_url(&cfg), "https://bottle.example/img/fetcherror.png");
}

#[test]
fn fresh_records() {
    let u = User::new(12);
    assert_eq!(u.id, 12);
    assert!(u.session.is_none());
    assert_eq!(u.xp, 0);
    assert!(!u.admin);
    assert_eq!(u.tickets, 0);
    let g = Guild::new(5);
    assert_eq!(g.id, 5);
    assert!(g.invite.is_none() && g.bottle_channel.is_none() && g.admin_channel.is_none() && g.prefix.is_none());
    let c = GuildContribution::empty((3, 4));
    assert_eq!((c.guild, c.user, c.xp), (3, 4, 0));
}

#[test]
fn clock_reads_the_present() {
    let t = now();
    assert!(t.secs > 1_600_000_000);
    assert!(t.nanos < 1_000_000_000);
}
