//! The records of the service, its constants, and the addresses of its web pages.
use vstd::prelude::*;
use crate::text::{decimal, push_decimal_i128};

verus! {

/// Opens a bottle that starts a new thread.
pub const SEND_PREFIX: &'static str = ">";
/// Opens a bottle that replies to the last bottle of the channel.
pub const REPLY_PREFIX: &'static str = "->";
/// Opens a bottle that replies to the last bottle the channel received.
pub const BRANCH_REPLY_PREFIX: &'static str = "->>";

/// Which prefix a message opened with.
#[derive(Clone, Copy, Debug, PartialEq, Eq, Structural)]
pub enum Prefix {
    SendPrefix,
    ReplyPrefix,
    BranchReplyPrefix,
}

/// Experience for pushing a bottle.
pub const PUSHXP: i32 = 15;
/// Experience for the author of a bottle that someone else replied to.
pub const REPLYXP: i32 = 65;
/// Experience for a bottle that carries a link.
pub const URLXP: i32 = 2;
/// Experience for a bottle that carries an image.
pub const IMAGEXP: i32 = 6;
/// Experience for filing a report.
pub const REPORTXP: i32 = 20;
/// Minutes an author waits between two bottles.
pub const COOLDOWN: i64 = 1;
/// Refusals that are still answered; later ones are met with silence.
pub const MAX_TICKETS: i32 = 5;
/// Bytes that a bottle without link or image must at least hold.
pub const MIN_CHARS: usize = 10;

pub type BottleId = i64;
pub type GuildId = i64;
pub type UserId = i64;
pub type ReceivedBottleId = i64;
pub type GuildContributionId = (GuildId, UserId);
pub type ReportId = i64;
/// A web session, the 128 bits of its UUID read big-endian.
pub type SessionId = u128;

/// A point in time, UTC: whole seconds since the Unix epoch and nanoseconds into that second.
#[derive(Clone, Copy, Debug, PartialEq, Eq, Structural)]
pub struct Timestamp {
    pub secs: i64,
    pub nanos: u32,
}

impl Timestamp {
    /// Nanoseconds since the Unix epoch.
    pub open spec fn as_nanos(self) -> int {
        self.secs * 1_000_000_000 + self.nanos
    }
}

/// The current time: `chrono::Utc::now()`, read as seconds and nanoseconds.
/// Its source reads the system clock (it panics when the clock stands before
/// 1970) and builds the time from whole seconds and a sub-second part below
/// one second, so the seconds are not negative and the nanoseconds below 10^9.
/// Which time it returns is not stated: it is the clock's.
#[verifier::external_body]
pub fn now() -> (t: Timestamp)
    ensures
        t.secs >= 0,
        t.nanos < 1_000_000_000,
{
    let n = chrono::Utc::now();
    Timestamp { secs: n.timestamp(), nanos: n.timestamp_subsec_nanos() }
}

/// A bottle about to be stored.
pub struct MakeBottle {
    pub user: UserId,
    pub message: i64,
    pub guild: Option<GuildId>,
    pub reply_to: Option<BottleId>,
    pub time_pushed: Timestamp,
    pub contents: String,
    pub url: Option<String>,
    pub image: Option<String>,
    pub channel: i64,
}

/// A user of the service.
pub struct User {
    pub id: UserId,
    pub session: Option<SessionId>,
    pub xp: i32,
    pub admin: bool,
    pub tickets: i32,
}

/// A stored bottle.
pub struct Bottle {
    pub id: BottleId,
    pub reply_to: Option<BottleId>,
    pub user: UserId,
    pub message: i64,
    pub guild: Option<GuildId>,
    pub time_pushed: Timestamp,
    pub contents: String,
    pub url: Option<String>,
    pub image: Option<String>,
    pub channel: i64,
    pub deleted: bool,
}

/// A chat server that takes part.
pub struct Guild {
    pub id: GuildId,
    pub invite: Option<String>,
    pub bottle_channel: Option<i64>,
    pub admin_channel: Option<i64>,
    pub prefix: Option<String>,
}

impl Guild {
    /// A server with nothing configured yet.
    pub fn new(gid: GuildId) -> (g: Guild)
        ensures
            g.id == gid,
            g.bottle_channel is None,
            g.invite is None,
            g.admin_channel is None,
            g.prefix is None,
    {
        Guild { id: gid, bottle_channel: None, invite: None, admin_channel: None, prefix: None }
    }
}

/// A delivery of a bottle to a channel, about to be stored.
pub struct MakeReceivedBottle {
    pub bottle: BottleId,
    pub channel: i64,
    pub message: i64,
    pub time_recieved: Timestamp,
}

/// A stored delivery of a bottle to a channel.
#[derive(Clone, Copy, Debug, PartialEq, Eq, Structural)]
pub struct ReceivedBottle {
    pub id: ReceivedBottleId,
    pub bottle: BottleId,
    pub message: i64,
    pub time_recieved: Timestamp,
    pub channel: i64,
}

/// The experience a user earned for one server.
#[derive(Clone, Copy, Debug, PartialEq, Eq, Structural)]
pub struct GuildContribution {
    pub guild: GuildId,
    pub user: UserId,
    pub xp: i32,
}

impl GuildContribution {
    /// A contribution not earned yet.
    pub fn empty(id: GuildContributionId) -> (c: GuildContribution)
        ensures
            c == (GuildContribution { guild: id.0, user: id.1, xp: 0 }),
    {
        GuildContribution { guild: id.0, user: id.1, xp: 0 }
    }
}

impl User {
    /// A user seen for the first time.
    pub fn new(uid: UserId) -> (u: User)
        ensures
            u.id == uid,
            u.session is None,
            u.xp == 0,
            !u.admin,
            u.tickets == 0,
    {
        User { id: uid, session: None, xp: 0, admin: false, tickets: 0 }
    }
}

/// A report of a bottle.
#[derive(Clone, Copy, Debug, PartialEq, Eq, Structural)]
pub struct Report {
    pub bottle: BottleId,
    pub user: UserId,
    pub received_bottle: Option<ReceivedBottleId>,
}

/// A ban of a user, with the report that led to it.
#[derive(Clone, Copy, Debug, PartialEq, Eq, Structural)]
pub struct Ban {
    pub report: Option<ReportId>,
    pub user: UserId,
}

/// The settings the service runs with.
pub struct Config {
    pub token: String,
    pub discord_bots_token: String,
    pub debug_log: bool,
    pub client_id: String,
    pub client_secret: String,
    pub database_url: String,
    pub host_url: String,
    pub admin_channel: i64,
    pub ban_emoji: String,
    pub delete_emoji: String,
    pub auto_admin: UserId,
    pub cookie_sig: String,
}

/// `host` followed by `path` and the decimal notation of `id`.
pub open spec fn page_of(host: Seq<char>, path: Seq<char>, id: int) -> Seq<char> {
    host + path + decimal(id)
}

fn numbered_page(cfg: &Config, path: &str, id: i64) -> (s: String)
    ensures
        s@ == page_of(cfg.host_url@, path@, id as int),
{
    let mut s = cfg.host_url.clone();
    s.append(path);
    push_decimal_i128(&mut s, id as i128);
    assert(s@ =~= page_of(cfg.host_url@, path@, id as int));
    s
}

/// The page of a user: `{host}/u/{uid}`.
pub fn user_url(uid: UserId, cfg: &Config) -> (s: String)
    ensures
        s@ == page_of(cfg.host_url@, "/u/"@, uid as int),
{
    numbered_page(cfg, "/u/", uid)
}

/// The page of a server: `{host}/g/{gid}`.
pub fn guild_url(gid: GuildId, cfg: &Config) -> (s: String)
    ensures
        s@ == page_of(cfg.host_url@, "/g/"@, gid as int),
{
    numbered_page(cfg, "/g/", gid)
}

/// The page that files a report of a bottle: `{host}/report/{bid}`.
pub fn report_url(bid: BottleId, cfg: &Config) -> (s: String)
    ensures
        s@ == page_of(cfg.host_url@, "/report/"@, bid as int),
{
    numbered_page(cfg, "/report/", bid)
}

fn host_file(cfg: &Config, path: &str) -> (s: String)
    ensures
        s@ == cfg.host_url@ + path@,
{
    let mut s = cfg.host_url.clone();
    s.append(path);
    s
}

/// The picture shown for anonymous authors: `{host}/img/anonymous.png`.
pub fn anonymous_url(cfg: &Config) -> (s: String)
    ensures
        s@ == cfg.host_url@ + "/img/anonymous.png"@,
{
    host_file(cfg, "/img/anonymous.png")
}

/// The picture shown when a fetch failed: `{host}/img/fetcherror.png`.
pub fn error_url(cfg: &Config) -> (s: String)
    ensures
        s@ == cfg.host_url@ + "/img/fetcherror.png"@,
{
    host_file(cfg, "/img/fetcherror.png")
}

} // verus!
