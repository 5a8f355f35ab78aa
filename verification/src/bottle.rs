//! How bottles are shown, which bottles go to which channels, and the
//! experience that bottles earn.
use vstd::prelude::*;
use crate::model::{
    anonymous_url, guild_url, page_of, report_url, user_url, Bottle, BottleId, Config, GuildContribution,
    GuildContributionId, GuildId, Timestamp, User, UserId,
};
use crate::text::{decimal, push_decimal_i128, push_decimal_u128};

verus! {

/// `serenity::utils::Colour::BLURPLE`, whose source gives it the value `0x7289DA`.
#[verifier::external_body]
fn blurple() -> (rgb: u32)
    ensures
        rgb == 0x7289DA,
{
    serenity::utils::Colour::BLURPLE.0
}

/// `serenity::utils::Colour::BLUE`, whose source gives it the value `0x3498DB`.
#[verifier::external_body]
fn blue() -> (rgb: u32)
    ensures
        rgb == 0x3498DB,
{
    serenity::utils::Colour::BLUE.0
}

/// `serenity::utils::Colour::TEAL`, whose source gives it the value `0x1ABC9C`.
#[verifier::external_body]
fn teal() -> (rgb: u32)
    ensures
        rgb == 0x1ABC9C,
{
    serenity::utils::Colour::TEAL.0
}

/// `serenity::utils::Colour::DARK_GREEN`, whose source gives it the value `0x1F8B4C`.
#[verifier::external_body]
fn dark_green() -> (rgb: u32)
    ensures
        rgb == 0x1F8B4C,
{
    serenity::utils::Colour::DARK_GREEN.0
}

/// `serenity::utils::Colour::KERBAL`, whose source gives it the value `0xBADA55`.
#[verifier::external_body]
fn kerbal() -> (rgb: u32)
    ensures
        rgb == 0xBADA55,
{
    serenity::utils::Colour::KERBAL.0
}

/// `serenity::utils::Colour::GOLD`, whose source gives it the value `0xF1C40F`.
#[verifier::external_body]
fn gold() -> (rgb: u32)
    ensures
        rgb == 0xF1C40F,
{
    serenity::utils::Colour::GOLD.0
}

/// `serenity::utils::Colour::DARK_RED`, whose source gives it the value `0x992D22`.
#[verifier::external_body]
fn dark_red() -> (rgb: u32)
    ensures
        rgb == 0x992D22,
{
    serenity::utils::Colour::DARK_RED.0
}

/// `serenity::utils::Colour::MAGENTA`, whose source gives it the value `0xE91E63`.
#[verifier::external_body]
fn magenta() -> (rgb: u32)
    ensures
        rgb == 0xE91E63,
{
    serenity::utils::Colour::MAGENTA.0
}

/// The colour of the `slot`-th place on the wheel (0 to 7), as an RGB value.
pub open spec fn wheel_rgb(slot: int) -> u32 {
    if slot == 0 {
        0x7289DA
    } else if slot == 1 {
        0x3498DB
    } else if slot == 2 {
        0x1ABC9C
    } else if slot == 3 {
        0x1F8B4C
    } else if slot == 4 {
        0xBADA55
    } else if slot == 5 {
        0xF1C40F
    } else if slot == 6 {
        0x992D22
    } else {
        0xE91E63
    }
}

/// The colour (RGB) of the `num`-th bottle of a thread: the eight colours of
/// the wheel blurple, blue, teal, dark green, kerbal, gold, dark red and
/// magenta, over and over.
pub fn col_wheel(num: usize) -> (rgb: u32)
    ensures
        rgb == wheel_rgb((num % 8) as int),
{
    let slot = num % 8;
    if slot == 0 {
        blurple()
    } else if slot == 1 {
        blue()
    } else if slot == 2 {
        teal()
    } else if slot == 3 {
        dark_green()
    } else if slot == 4 {
        kerbal()
    } else if slot == 5 {
        gold()
    } else if slot == 6 {
        dark_red()
    } else {
        magenta()
    }
}

/// The wheel turns every eight bottles.
pub proof fn lemma_wheel_period(num: usize)
    requires
        num + 8 <= usize::MAX,
    ensures
        wheel_rgb(((num + 8) as usize % 8) as int) == wheel_rgb((num % 8) as int),
{
}

fn clone_text(o: &Option<String>) -> (r: Option<String>)
    ensures
        r == *o,
{
    match o {
        Some(s) => Some(s.clone()),
        None => None,
    }
}

/// Who an embed names as the author of a bottle.
pub enum AuthorPlan {
    /// A bottle pushed outside any server: "Anonymous", with the anonymous picture.
    Anonymous { icon: String },
    /// A bottle pushed from a server: the author's name and avatar, linking to their page.
    Member { user: UserId, url: String },
}

/// The embed that shows a bottle.
pub struct EmbedPlan {
    pub title: String,
    pub description: String,
    pub colour: u32,
    pub timestamp: Timestamp,
    /// The server named in the footer, if the bottle came from one.
    pub guild: Option<GuildId>,
    pub author: AuthorPlan,
    pub image: Option<String>,
    pub url: Option<String>,
}

/// How a bottle is shown.
pub enum BottleRender {
    /// A deleted bottle: titled with its author's name (`deleted_title`) and
    /// described by `deleted_description`.
    Deleted { author: UserId },
    Shown { embed: EmbedPlan },
}

/// The title of a bottle at depth `level` of its thread.
pub open spec fn title_text(level: int) -> Seq<char> {
    if level > 0 {
        "You have found a message glued to the bottle!"@
    } else {
        "You have recovered a bottle!"@
    }
}

/// The links after a bottle's text: its link when it has no text, and its server's page.
pub open spec fn extra_text(b: Bottle, host: Seq<char>) -> Seq<char> {
    (match b.url {
        Some(x) => if b.contents@.len() == 0 {
            " [Link]("@ + x@ + ")"@
        } else {
            Seq::empty()
        },
        None => Seq::empty(),
    }) + (match b.guild {
        Some(g) => " [Guild]("@ + page_of(host, "/g/"@, g as int) + ")"@,
        None => Seq::empty(),
    })
}

/// The description of a shown bottle: its text, its links and the link that reports it.
pub open spec fn description_text(b: Bottle, host: Seq<char>) -> Seq<char> {
    b.contents@ + extra_text(b, host) + " [Report]("@ + page_of(host, "/report/"@, b.id as int)
        + ")"@
}

/// How `bottle` is shown at depth `level` of its thread (one deeper when it is
/// shown as part of a reply).
pub fn bottle_embed(bottle: &Bottle, level: usize, in_reply: bool, cfg: &Config) -> (r: BottleRender)
    requires
        in_reply ==> level < usize::MAX,
    ensures
        bottle.deleted ==> r == (BottleRender::Deleted { author: bottle.user }),
        !bottle.deleted ==> (r matches BottleRender::Shown { embed } && {
            let depth = if in_reply { level + 1 } else { level as int };
            &&& embed.title@ == title_text(depth)
            &&& depth >= 1 ==> embed.title@ == "You have found a message glued to the bottle!"@
            &&& depth == 0 ==> embed.title@ == "You have recovered a bottle!"@
            &&& embed.description@ == description_text(*bottle, cfg.host_url@)
            &&& embed.colour == wheel_rgb(depth % 8)
            &&& embed.timestamp == bottle.time_pushed
            &&& embed.guild == bottle.guild
            &&& (bottle.guild is Some ==> (embed.author matches AuthorPlan::Member { user, url }
                && user == bottle.user && url@ == page_of(cfg.host_url@, "/u/"@, bottle.user as int)))
            &&& (bottle.guild is None ==> (embed.author matches AuthorPlan::Anonymous { icon }
                && icon@ == cfg.host_url@ + "/img/anonymous.png"@))
            &&& embed.image == bottle.image
            &&& embed.url == (if bottle.url is Some { bottle.url } else { bottle.image })
        }),
{
    let level = if in_reply { level + 1 } else { level };
    if bottle.deleted {
        return BottleRender::Deleted { author: bottle.user };
    }
    let title = if level > 0 {
        "You have found a message glued to the bottle!".to_owned()
    } else {
        "You have recovered a bottle!".to_owned()
    };
    let mut description = bottle.contents.clone();
    match &bottle.url {
        Some(x) => {
            if bottle.contents.as_str().is_empty() {
                description.append(" [Link](");
                description.append(x.as_str());
                description.append(")");
            }
        },
        None => {},
    }
    match bottle.guild {
        Some(g) => {
            let page = guild_url(g, cfg);
            description.append(" [Guild](");
            description.append(page.as_str());
            description.append(")");
        },
        None => {},
    }
    let report = report_url(bottle.id, cfg);
    description.append(" [Report](");
    description.append(report.as_str());
    description.append(")");
    assert(description@ =~= description_text(*bottle, cfg.host_url@));
    let author = match bottle.guild {
        Some(_) => AuthorPlan::Member { user: bottle.user, url: user_url(bottle.user, cfg) },
        None => AuthorPlan::Anonymous { icon: anonymous_url(cfg) },
    };
    let image = clone_text(&bottle.image);
    let url = match &bottle.url {
        Some(u) => Some(u.clone()),
        None => clone_text(&bottle.image),
    };
    BottleRender::Shown {
        embed: EmbedPlan {
            title,
            description,
            colour: col_wheel(level),
            timestamp: bottle.time_pushed,
            guild: bottle.guild,
            author,
            image,
            url,
        },
    }
}

/// The title of a deleted bottle, given its author's name.
pub fn deleted_title(author_name: &str) -> (s: String)
    ensures
        s@ == "BOTTLE FROM "@ + author_name@ + " IS DELETED"@,
{
    let mut s = "BOTTLE FROM ".to_owned();
    s.append(author_name);
    s.append(" IS DELETED");
    s
}

/// The description of a deleted bottle.
pub fn deleted_description() -> (s: String)
    ensures
        s@ == "This bottle has been deleted."@,
{
    "This bottle has been deleted.".to_owned()
}

/// A profile picture: the avatar when there is one, else the anonymous picture.
pub fn profile_picture(avatar: Option<String>, cfg: &Config) -> (s: String)
    ensures
        avatar matches Some(a) ==> s == a,
        avatar is None ==> s@ == cfg.host_url@ + "/img/anonymous.png"@,
{
    match avatar {
        Some(a) => a,
        None => anonymous_url(cfg),
    }
}

/// The name and picture of a bottle's author, given what fetching the user gave:
/// the tag and avatar, or nothing when the fetch failed.
pub fn member_author(fetched: Option<(String, Option<String>)>, cfg: &Config) -> (r: (String, String))
    ensures
        fetched matches Some((tag, _)) ==> r.0 == tag,
        fetched is None ==> r.0@ == "Error fetching username"@,
        fetched matches Some((_, Some(a))) ==> r.1 == a,
        !(fetched matches Some((_, Some(_)))) ==> r.1@ == cfg.host_url@ + "/img/anonymous.png"@,
{
    match fetched {
        Some((tag, avatar)) => (tag, profile_picture(avatar, cfg)),
        None => ("Error fetching username".to_owned(), anonymous_url(cfg)),
    }
}

/// The footer of a bottle: its server's name, or a note that none was found.
pub fn guild_footer(guild_name: Option<String>) -> (s: String)
    ensures
        guild_name matches Some(n) ==> s == n,
        guild_name is None ==> s@ == "No guild found"@,
{
    match guild_name {
        Some(n) => n,
        None => "No guild found".to_owned(),
    }
}

/// A user's name, or a note that the user was not found.
pub fn user_name_or_missing(name: Option<String>) -> (s: String)
    ensures
        name matches Some(n) ==> s == n,
        name is None ==> s@ == "User not found"@,
{
    match name {
        Some(n) => n,
        None => "User not found".to_owned(),
    }
}

/// A server's name, or a note that the server was not found.
pub fn guild_name_or_missing(name: Option<String>) -> (s: String)
    ensures
        name matches Some(n) ==> s == n,
        name is None ==> s@ == "Guild not found"@,
{
    match name {
        Some(n) => n,
        None => "Guild not found".to_owned(),
    }
}

/// The message posted in the admin channel when a user reports a bottle.
pub fn report_notice(tag: &str, user_id: u64, bottle_id: BottleId) -> (s: String)
    ensures
        s@ == "REPORT FROM "@ + tag@ + ". USER ID "@ + decimal(user_id as int) + ", BOTTLE ID "@
            + decimal(bottle_id as int) + "."@,
{
    let mut s = "REPORT FROM ".to_owned();
    s.append(tag);
    s.append(". USER ID ");
    push_decimal_u128(&mut s, user_id as u128);
    s.append(", BOTTLE ID ");
    push_decimal_i128(&mut s, bottle_id as i128);
    s.append(".");
    assert(s@ =~= "REPORT FROM "@ + tag@ + ". USER ID "@ + decimal(user_id as int) + ", BOTTLE ID "@
        + decimal(bottle_id as int) + "."@);
    s
}

/// How the chat writes a mention of user `id`: `serenity`'s `Mentionable::mention`
/// for a `UserId`, whose source formats it as `<@{id}>`.
#[verifier::external_body]
fn mention_user(id: u64) -> (s: String)
    ensures
        s@ == "<@"@ + decimal(id as int) + ">"@,
{
    serenity::model::misc::Mentionable::mention(&serenity::model::id::UserId(id))
}

/// The plain-text line of a bottle in the feed: who pushed it (a mention,
/// or "anon" outside servers), its id, the bottle it answers, its text, link and image.
pub open spec fn feed_text(b: Bottle) -> Seq<char> {
    "**"@ + (if b.guild is Some {
        "<@"@ + decimal(b.user as u64 as int) + ">"@
    } else {
        "anon"@
    }) + " / "@ + decimal(b.id as int) + ":**\n"@ + (match b.reply_to {
        Some(r) => ">>"@ + decimal(r as int) + " "@,
        None => Seq::empty(),
    }) + b.contents@ + (match b.url {
        Some(u) => " "@ + u@,
        None => Seq::empty(),
    }) + (match b.image {
        Some(i) => " "@ + i@,
        None => Seq::empty(),
    })
}

/// The plain-text line of a bottle in the feed.
pub fn feed_message(bottle: &Bottle) -> (s: String)
    ensures
        s@ == feed_text(*bottle),
        bottle.image matches Some(i) ==> s@ == feed_text(Bottle { image: None, ..*bottle }) + " "@ + i@,
{
    let mut s = "**".to_owned();
    match bottle.guild {
        Some(_) => {
            let m = mention_user(bottle.user as u64);
            s.append(m.as_str());
        },
        None => s.append("anon"),
    }
    s.append(" / ");
    push_decimal_i128(&mut s, bottle.id as i128);
    s.append(":**\n");
    match bottle.reply_to {
        Some(r) => {
            s.append(">>");
            push_decimal_i128(&mut s, r as i128);
            s.append(" ");
        },
        None => {},
    }
    s.append(bottle.contents.as_str());
    match &bottle.url {
        Some(u) => {
            s.append(" ");
            s.append(u.as_str());
        },
        None => {},
    }
    match &bottle.image {
        Some(i) => {
            s.append(" ");
            s.append(i.as_str());
        },
        None => {},
    }
    assert(s@ =~= feed_text(*bottle));
    s
}

/// The server contribution that a bottle's experience also goes to: its
/// author's, for the server it came from.
pub fn contribution_of(bottle: &Bottle) -> (id: Option<GuildContributionId>)
    ensures
        id == (match bottle.guild {
            Some(g) => Some((g, bottle.user)),
            None => None,
        }),
{
    match bottle.guild {
        Some(g) => Some((g, bottle.user)),
        None => None,
    }
}

/// Adds `xp` to a user's experience.
pub fn credit_xp(user: &mut User, xp: i32)
    requires
        i32::MIN <= old(user).xp + xp <= i32::MAX,
    ensures
        *final(user) == (User { xp: (old(user).xp + xp) as i32, ..*old(user) }),
{
    user.xp = user.xp + xp;
}

/// Adds `xp` to a contribution.
pub fn credit_guild(c: &mut GuildContribution, xp: i32)
    requires
        i32::MIN <= old(c).xp + xp <= i32::MAX,
    ensures
        *final(c) == (GuildContribution { xp: (old(c).xp + xp) as i32, ..*old(c) }),
{
    c.xp = c.xp + xp;
}

/// A bottle at depth 0 of its thread is "recovered"; at any deeper level
/// (a bottle replied to, shown under its reply) it is "glued to the bottle".
pub proof fn lemma_titles(depth: int)
    requires
        depth >= 0,
    ensures
        depth == 0 ==> title_text(depth) == "You have recovered a bottle!"@,
        depth >= 1 ==> title_text(depth) == "You have found a message glued to the bottle!"@,
{
}

/// The feed line is built of independent parts: a bottle's image always
/// closes the line after a space, whatever its link; its link comes after its
/// text after a space, whatever its image; and its text follows the header
/// `**{who} / {id}:**` and the reply marker, which depend on nothing else.
pub proof fn lemma_feed_parts(b: Bottle)
    ensures
        b.image matches Some(i) ==> feed_text(b) == feed_text(Bottle { image: None, ..b }) + " "@ + i@,
        b.image matches Some(i) ==> feed_text(b).subrange(
            feed_text(b).len() - i@.len(),
            feed_text(b).len() as int,
        ) == i@,
        b.url matches Some(u) ==> feed_text(Bottle { image: None, ..b }) == feed_text(
            Bottle { url: None, image: None, ..b },
        ) + " "@ + u@,
        feed_text(Bottle { url: None, image: None, ..b }) == "**"@ + (if b.guild is Some {
            "<@"@ + decimal(b.user as u64 as int) + ">"@
        } else {
            "anon"@
        }) + " / "@ + decimal(b.id as int) + ":**\n"@ + (match b.reply_to {
            Some(r) => ">>"@ + decimal(r as int) + " "@,
            None => Seq::empty(),
        }) + b.contents@,
{
    let no_image = Bottle { image: None, ..b };
    let bare = Bottle { url: None, image: None, ..b };
    assert(feed_text(bare) =~= "**"@ + (if b.guild is Some {
        "<@"@ + decimal(b.user as u64 as int) + ">"@
    } else {
        "anon"@
    }) + " / "@ + decimal(b.id as int) + ":**\n"@ + (match b.reply_to {
        Some(r) => ">>"@ + decimal(r as int) + " "@,
        None => Seq::empty(),
    }) + b.contents@);
    if let Some(u) = b.url {
        assert(feed_text(no_image) =~= feed_text(bare) + " "@ + u@);
    }
    if let Some(i) = b.image {
        assert(feed_text(b) =~= feed_text(no_image) + " "@ + i@);
        let f = feed_text(b);
        assert(f.subrange(f.len() - i@.len(), f.len() as int) =~= i@);
    }
}

/// The description of a shown bottle: its text comes first and the link
/// that reports it last; in between stand its link (only when it has no text)
/// and its server's page (only when it came from a server).
pub proof fn lemma_description_parts(b: Bottle, host: Seq<char>)
    ensures
        ({
            let report = " [Report]("@ + host + "/report/"@ + decimal(b.id as int) + ")"@;
            let link = match b.url {
                Some(x) => if b.contents@.len() == 0 {
                    " [Link]("@ + x@ + ")"@
                } else {
                    Seq::empty()
                },
                None => Seq::empty(),
            };
            let server = match b.guild {
                Some(g) => " [Guild]("@ + host + "/g/"@ + decimal(g as int) + ")"@,
                None => Seq::empty(),
            };
            description_text(b, host) == b.contents@ + link + server + report
        }),
        b.guild is None && (b.url is None || b.contents@.len() > 0) ==> description_text(b, host)
            == b.contents@ + " [Report]("@ + host + "/report/"@ + decimal(b.id as int) + ")"@,
{
    assert(description_text(b, host) =~= b.contents@ + extra_text(b, host) + (" [Report]("@ + host
        + "/report/"@ + decimal(b.id as int) + ")"@));
    assert(extra_text(b, host) =~= (match b.url {
        Some(x) => if b.contents@.len() == 0 {
            " [Link]("@ + x@ + ")"@
        } else {
            Seq::empty()
        },
        None => Seq::empty(),
    }) + (match b.guild {
        Some(g) => " [Guild]("@ + host + "/g/"@ + decimal(g as int) + ")"@,
        None => Seq::empty(),
    }));
    if b.guild is None && (b.url is None || b.contents@.len() > 0) {
        assert(extra_text(b, host) =~= Seq::<char>::empty());
    }
}

/// A thread's colours start at blurple and no two of eight neighbouring depths share one.
pub proof fn lemma_wheel_distinct()
    ensures
        wheel_rgb(0) == 0x7289DA,
        forall|i: int, j: int| 0 <= i < j < 8 ==> wheel_rgb(i) != wheel_rgb(j),
{
}

} // verus!
