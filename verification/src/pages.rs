//! The profile pages of users and servers, put together from what was read.
use vstd::prelude::*;
use crate::bottle::profile_picture;
use crate::model::{Bottle, Config, Guild, GuildContribution, Timestamp, User};

verus! {

/// The earliest second that `chrono` can show: the first second of year -262143.
pub const FIRST_SHOWN_SECS: i64 = -8334601228800;
/// The latest second that `chrono` can show: the last second of year 262142.
pub const LAST_SHOWN_SECS: i64 = 8210266876799;

/// Whether `chrono` can turn `t` into a date and time: within its years, and
/// less than a second of nanoseconds.
pub open spec fn showable(t: Timestamp) -> bool {
    &&& FIRST_SHOWN_SECS <= t.secs <= LAST_SHOWN_SECS
    &&& t.nanos < 1_000_000_000
}

/// The short date of a time, as `chrono` writes it with `%m/%d/%y - %H:%M`.
pub uninterp spec fn short_date_text(secs: i64, nanos: u32) -> Seq<char>;

/// The short date of `t`: `chrono::DateTime::from_timestamp` turns it into a
/// date and time (it gives `None` outside `chrono`'s years and for a second
/// part of 10^9 or more, which `requires` leaves out), and `format` with
/// `%m/%d/%y - %H:%M` writes it. The text is named, not stated: it depends on
/// the time alone.
#[verifier::external_body]
pub(crate) fn short_date(t: Timestamp) -> (s: String)
    requires
        showable(t),
    ensures
        s@ == short_date_text(t.secs, t.nanos),
{
    chrono::DateTime::from_timestamp(t.secs, t.nanos).unwrap().naive_utc().format("%m/%d/%y - %H:%M").to_string()
}

/// A bottle on a profile page.
pub struct BottleCard {
    pub contents: String,
    pub time_pushed: String,
    pub image: Option<String>,
    /// The name of the server it came from.
    pub guild: Option<String>,
}

/// The card of bottle `b`, whose server (if any) is called `guild_name`.
pub open spec fn is_card_of(c: BottleCard, b: Bottle, guild_name: Option<String>) -> bool {
    &&& c.contents == b.contents
    &&& c.time_pushed@ == short_date_text(b.time_pushed.secs, b.time_pushed.nanos)
    &&& c.image == b.image
    &&& c.guild == (if b.guild is Some { guild_name } else { None })
}

/// The card of a bottle: its text, when it was pushed, its image and the name
/// of its server, `guild_name` (a bottle from outside any server shows none).
pub fn bottle_card(b: Bottle, guild_name: Option<String>) -> (c: BottleCard)
    requires
        showable(b.time_pushed),
    ensures
        is_card_of(c, b, guild_name),
{
    let time_pushed = short_date(b.time_pushed);
    let guild = match b.guild {
        Some(_) => guild_name,
        None => None,
    };
    BottleCard { contents: b.contents, time_pushed, image: b.image, guild }
}

/// A server on a user's page.
pub struct UserContribution {
    pub guild: String,
    pub gid: i64,
    pub xp: i32,
}

/// A user's page.
pub struct UserPage {
    pub tag: String,
    pub admin: bool,
    pub pfp: String,
    pub xp: i32,
    pub ranked: i64,
    pub num_bottles: i64,
    pub contributions: Vec<UserContribution>,
    pub recent_bottles: Vec<BottleCard>,
}

/// The page of user `u`, known to the chat as `tag` with `avatar`: its rank,
/// its count of bottles, its contributions (each with its server's name) and
/// its recent bottles (each with its server's name), in the order given.
pub fn user_page(
    tag: String,
    avatar: Option<String>,
    u: &User,
    ranked: i64,
    num_bottles: i64,
    contributions: Vec<(String, GuildContribution)>,
    recent: Vec<(Bottle, Option<String>)>,
    cfg: &Config,
) -> (p: UserPage)
    requires
        forall|i: int| 0 <= i < recent@.len() ==> showable(#[trigger] recent@[i].0.time_pushed),
    ensures
        p.tag == tag,
        p.admin == u.admin,
        p.xp == u.xp,
        p.ranked == ranked,
        p.num_bottles == num_bottles,
        avatar matches Some(a) ==> p.pfp == a,
        avatar is None ==> p.pfp@ == cfg.host_url@ + "/img/anonymous.png"@,
        p.contributions@.len() == contributions@.len(),
        forall|i: int|
            0 <= i < contributions@.len() ==> (#[trigger] p.contributions@[i]).guild
                == contributions@[i].0 && p.contributions@[i].gid == contributions@[i].1.guild
                && p.contributions@[i].xp == contributions@[i].1.xp,
        p.recent_bottles@.len() == recent@.len(),
        forall|i: int|
            0 <= i < recent@.len() ==> is_card_of(
                #[trigger] p.recent_bottles@[i],
                recent@[i].0,
                recent@[i].1,
            ),
{
    let mut lines: Vec<UserContribution> = Vec::new();
    let mut rest = contributions;
    let ghost all = rest@;
    while rest.len() > 0
        invariant
            lines@.len() + rest@.len() == all.len(),
            rest@ == all.subrange(lines@.len() as int, all.len() as int),
            forall|i: int|
                0 <= i < lines@.len() ==> (#[trigger] lines@[i]).guild == all[i].0 && lines@[i].gid
                    == all[i].1.guild && lines@[i].xp == all[i].1.xp,
        decreases rest.len(),
    {
        let (name, c) = rest.remove(0);
        lines.push(UserContribution { guild: name, gid: c.guild, xp: c.xp });
    }
    let mut cards: Vec<BottleCard> = Vec::new();
    let mut left = recent;
    let ghost given = left@;
    while left.len() > 0
        invariant
            cards@.len() + left@.len() == given.len(),
            left@ == given.subrange(cards@.len() as int, given.len() as int),
            forall|i: int| 0 <= i < given.len() ==> showable(#[trigger] given[i].0.time_pushed),
            forall|i: int|
                0 <= i < cards@.len() ==> is_card_of(#[trigger] cards@[i], given[i].0, given[i].1),
        decreases left.len(),
    {
        let ghost k = cards@.len() as int;
        assert(left@[0] == given[k]);
        let (b, name) = left.remove(0);
        cards.push(bottle_card(b, name));
    }
    UserPage {
        tag,
        admin: u.admin,
        pfp: profile_picture(avatar, cfg),
        xp: u.xp,
        ranked,
        num_bottles,
        contributions: lines,
        recent_bottles: cards,
    }
}

/// A member on a server's page.
pub struct MemberContribution {
    pub user: String,
    pub uid: i64,
    pub xp: i32,
}

/// A server's page.
pub struct GuildPage {
    pub name: String,
    pub pfp: String,
    pub invite: Option<String>,
    pub xp: i64,
    pub ranked: Option<i64>,
    pub num_bottles: i64,
    pub contributions: Vec<MemberContribution>,
}

/// The page of server `g`, known to the chat as `name` with `icon`: its
/// experience, rank, count of received bottles and its members'
/// contributions (each with the member's name), in the order given.
pub fn guild_page(
    name: String,
    icon: Option<String>,
    g: &Guild,
    xp: i64,
    ranked: Option<i64>,
    num_bottles: i64,
    contributions: Vec<(String, GuildContribution)>,
    cfg: &Config,
) -> (p: GuildPage)
    ensures
        p.name == name,
        icon matches Some(a) ==> p.pfp == a,
        icon is None ==> p.pfp@ == cfg.host_url@ + "/img/anonymous.png"@,
        p.invite == g.invite,
        p.xp == xp,
        p.ranked == ranked,
        p.num_bottles == num_bottles,
        p.contributions@.len() == contributions@.len(),
        forall|i: int|
            0 <= i < contributions@.len() ==> (#[trigger] p.contributions@[i]).user
                == contributions@[i].0 && p.contributions@[i].uid == contributions@[i].1.user
                && p.contributions@[i].xp == contributions@[i].1.xp,
{
    let mut lines: Vec<MemberContribution> = Vec::new();
    let mut rest = contributions;
    let ghost all = rest@;
    while rest.len() > 0
        invariant
            lines@.len() + rest@.len() == all.len(),
            rest@ == all.subrange(lines@.len() as int, all.len() as int),
            forall|i: int|
                0 <= i < lines@.len() ==> (#[trigger] lines@[i]).user == all[i].0 && lines@[i].uid
                    == all[i].1.user && lines@[i].xp == all[i].1.xp,
        decreases rest.len(),
    {
        let (member, c) = rest.remove(0);
        lines.push(MemberContribution { user: member, uid: c.user, xp: c.xp });
    }
    let invite = match &g.invite {
        Some(s) => Some(s.clone()),
        None => None,
    };
    GuildPage {
        name,
        pfp: profile_picture(icon, cfg),
        invite,
        xp,
        ranked,
        num_bottles,
        contributions: lines,
    }
}

} // verus!
