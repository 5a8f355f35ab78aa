//! Pushing a bottle: the decisions taken on a new chat message, as a state
//! machine that asks its caller for each record it needs.
use vstd::prelude::*;
use crate::model::{
    Bottle, BottleId, GuildId, MakeBottle, Prefix, Timestamp, User, UserId, BRANCH_REPLY_PREFIX,
    COOLDOWN, IMAGEXP, MAX_TICKETS, MIN_CHARS, PUSHXP, REPLY_PREFIX, SEND_PREFIX, URLXP,
};
use crate::text::{decimal, has_prefix, push_decimal_u128, skip_chars, starts_with, trim, trimmed};

verus! {

/// Nanoseconds an author waits between two bottles.
pub open spec fn cooldown_nanos() -> int {
    COOLDOWN * 60 * 1_000_000_000
}

/// Nanoseconds from `then` to `now` (negative when `then` is later).
pub open spec fn elapsed(now: Timestamp, then: Timestamp) -> int {
    now.as_nanos() - then.as_nanos()
}

/// Bytes of the UTF-8 encoding of `s`; `str::len` gives this count as a `usize`.
pub open spec fn utf8_len(s: Seq<char>) -> nat {
    vstd::utf8::encode_utf8(s).len()
}

/// The prefix that opens `t` and the text after it, if any; the three prefixes
/// are tried in the order `>`, `->>`, `->`, so that `->>` is never read as `->`.
pub open spec fn split_prefix(t: Seq<char>) -> Option<(Prefix, Seq<char>)> {
    if has_prefix(t, SEND_PREFIX@) {
        Some((Prefix::SendPrefix, t.skip(SEND_PREFIX@.len() as int)))
    } else if has_prefix(t, BRANCH_REPLY_PREFIX@) {
        Some((Prefix::BranchReplyPrefix, t.skip(BRANCH_REPLY_PREFIX@.len() as int)))
    } else if has_prefix(t, REPLY_PREFIX@) {
        Some((Prefix::ReplyPrefix, t.skip(REPLY_PREFIX@.len() as int)))
    } else {
        None
    }
}

/// Strips the prefix `p` from `content` and hands back `v` when `content`
/// starts with `p`; otherwise leaves `content` as it was and hands back nothing.
pub fn test_prefix<T>(content: &mut String, p: &str, v: T) -> (res: Option<T>)
    ensures
        has_prefix(old(content)@, p@) ==> res == Some(v) && final(content)@ == old(content)@.skip(
            p@.len() as int,
        ),
        !has_prefix(old(content)@, p@) ==> res is None && final(content)@ == old(content)@,
{
    if starts_with(content.as_str(), p) {
        let n = p.unicode_len();
        let rest = skip_chars(content.as_str(), n);
        *content = rest;
        Some(v)
    } else {
        None
    }
}

/// What a chat message offers: its author, ids, text, the link of its first
/// embed and the address of its first attachment.
pub struct Incoming {
    pub author: UserId,
    pub message: i64,
    pub channel: i64,
    pub guild: Option<GuildId>,
    pub content: String,
    pub url: Option<String>,
    pub image: Option<String>,
}

/// A bottle that opened with a prefix, waiting for its checks.
pub struct Draft {
    pub prefix: Prefix,
    pub author: UserId,
    pub message: i64,
    pub channel: i64,
    pub guild: Option<GuildId>,
    pub contents: String,
    pub url: Option<String>,
    pub image: Option<String>,
}

/// Why a bottle was refused.
#[derive(Clone, Copy, Debug, PartialEq, Eq, Structural)]
pub enum Refusal {
    Banned,
    Cooldown { seconds: u128 },
    TooShort,
    NoTarget,
}

/// The answer to a refusal.
pub open spec fn refusal_text(r: Refusal) -> Seq<char> {
    match r {
        Refusal::Banned => "You are banned from using Bottle! Appeal by dming the global admins!"@,
        Refusal::Cooldown { seconds } => "You must wait "@ + decimal(seconds as int)
            + " seconds before sending another bottle!"@,
        Refusal::TooShort => "Your bottle cannot be less than 10 characters!"@,
        Refusal::NoTarget => "No bottle to reply to was found!"@,
    }
}

impl Refusal {
    /// The answer to this refusal.
    pub fn text(&self) -> (s: String)
        ensures
            s@ == refusal_text(*self),
    {
        match self {
            Refusal::Banned => "You are banned from using Bottle! Appeal by dming the global admins!".to_owned(),
            Refusal::Cooldown { seconds } => {
                let mut s = "You must wait ".to_owned();
                push_decimal_u128(&mut s, *seconds);
                s.append(" seconds before sending another bottle!");
                assert(s@ =~= refusal_text(*self));
                s
            },
            Refusal::TooShort => "Your bottle cannot be less than 10 characters!".to_owned(),
            Refusal::NoTarget => "No bottle to reply to was found!".to_owned(),
        }
    }
}

/// The answer to a bottle that was pushed.
pub open spec fn pushed_text() -> Seq<char> {
    "Your message has been ~~discarded~~ pushed into the dark seas of discord!"@
}

/// The answer to a bottle that was pushed.
pub fn pushed_reply() -> (s: String)
    ensures
        s@ == pushed_text(),
{
    "Your message has been ~~discarded~~ pushed into the dark seas of discord!".to_owned()
}

/// A refused author gets one more ticket; the refusal is answered while the
/// tickets do not exceed `MAX_TICKETS`, and met with silence after that.
pub fn ticket_res(user: User, refusal: &Refusal) -> (res: (User, Option<String>))
    requires
        user.tickets < i32::MAX,
    ensures
        res.0 == (User { tickets: (user.tickets + 1) as i32, ..user }),
        res.1 is Some <==> user.tickets + 1 <= MAX_TICKETS,
        res.1 matches Some(t) ==> t@ == refusal_text(*refusal),
{
    let mut user = user;
    user.tickets = user.tickets + 1;
    if user.tickets > MAX_TICKETS {
        (user, None)
    } else {
        let t = refusal.text();
        (user, Some(t))
    }
}

/// What the caller does next.
pub enum PushAction {
    /// The message opens with no prefix: nothing is read, stored or answered.
    Ignore,
    /// Load the author's record (a fresh one when there is none) and the time
    /// of the author's latest bottle; answer with `AuthorLoaded`.
    LoadAuthor { user: UserId },
    /// Ask whether the author is banned; answer with `BanChecked`.
    CheckBan { user: UserId },
    /// Read the clock; answer with `Clock`.
    ReadClock,
    /// Find the latest bottle of `channel`; answer with `TargetFound`.
    FindLastBottle { channel: i64 },
    /// Find the bottle that `channel` received last; answer with `TargetFound`.
    FindLastReceived { channel: i64 },
    /// Refuse the bottle: give the author a ticket (`ticket_res`), store the
    /// author and send the answer, if any.
    Refuse { user: User, refusal: Refusal },
    /// Store `user`, store the bottle (`stamp`), credit `REPLYXP` to the bottle
    /// replied to when `credit_reply`, credit `xp` to the new bottle, deliver
    /// it and answer with `pushed_reply`.
    Publish { user: User, draft: Draft, reply_to: Option<Bottle>, credit_reply: bool, xp: i32 },
}

/// Where the push of a bottle stands.
pub enum PushState {
    AwaitAuthor { draft: Draft },
    AwaitBan { draft: Draft, user: User, last_push: Option<Timestamp> },
    AwaitClock { draft: Draft, user: User, last_push: Timestamp },
    AwaitTarget { draft: Draft, user: User },
    Finished,
}

/// What the caller found out.
pub enum PushEvent {
    AuthorLoaded { user: User, last_push: Option<Timestamp> },
    BanChecked { banned: bool },
    Clock { now: Timestamp },
    TargetFound { target: Option<Bottle> },
}

/// Experience for a bottle: `PUSHXP`, plus `URLXP` with a link and `IMAGEXP` with an image.
pub open spec fn bottle_xp(url: bool, image: bool) -> int {
    PUSHXP + (if url { URLXP as int } else { 0 }) + (if image { IMAGEXP as int } else { 0 })
}

/// The bottle goes out: the author's tickets are cleared.
pub open spec fn publish(draft: Draft, user: User, target: Option<Bottle>) -> PushAction {
    PushAction::Publish {
        user: User { tickets: 0, ..user },
        credit_reply: match target {
            Some(t) => t.user != draft.author,
            None => false,
        },
        xp: bottle_xp(draft.url is Some, draft.image is Some) as i32,
        draft,
        reply_to: target,
    }
}

/// Whether the length rule refuses the draft: a bottle from a user who is not
/// an admin, with neither link nor image, needs `MIN_CHARS` bytes of text.
pub open spec fn too_short(draft: Draft, user: User) -> bool {
    &&& draft.url is None
    &&& draft.image is None
    &&& (utf8_len(draft.contents@) as usize) < MIN_CHARS
    &&& !user.admin
}

/// The steps once the ban and the cooldown have been passed.
pub open spec fn after_checks(draft: Draft, user: User) -> (PushState, PushAction) {
    if too_short(draft, user) {
        (PushState::Finished, PushAction::Refuse { user, refusal: Refusal::TooShort })
    } else {
        match draft.prefix {
            Prefix::SendPrefix => (PushState::Finished, publish(draft, user, None)),
            Prefix::ReplyPrefix => (
                PushState::AwaitTarget { draft, user },
                PushAction::FindLastBottle { channel: draft.channel },
            ),
            Prefix::BranchReplyPrefix => (
                PushState::AwaitTarget { draft, user },
                PushAction::FindLastReceived { channel: draft.channel },
            ),
        }
    }
}

/// Seconds still to wait, as `chrono`'s `num_seconds` counts a positive duration.
pub open spec fn wait_seconds(now: Timestamp, then: Timestamp) -> int {
    (cooldown_nanos() - elapsed(now, then)) / 1_000_000_000
}

impl PushState {
    /// What every state of a push keeps: only authors who are not admins
    /// wait for the ban check or the clock, and only replies wait for a target.
    pub open spec fn wf(self) -> bool {
        match self {
            PushState::AwaitBan { user, .. } => !user.admin,
            PushState::AwaitClock { user, .. } => !user.admin,
            PushState::AwaitTarget { draft, .. } => draft.prefix != Prefix::SendPrefix,
            _ => true,
        }
    }

    /// Whether this is the state that waits for the answer to `action`: each
    /// question is followed by the state that expects its answer, and the
    /// actions that end the push leave it finished.
    pub open spec fn awaits(self, action: PushAction) -> bool {
        match action {
            PushAction::LoadAuthor { .. } => self is AwaitAuthor,
            PushAction::CheckBan { .. } => self is AwaitBan,
            PushAction::ReadClock => self is AwaitClock,
            PushAction::FindLastBottle { .. } => self is AwaitTarget,
            PushAction::FindLastReceived { .. } => self is AwaitTarget,
            PushAction::Ignore => self is Finished,
            PushAction::Refuse { .. } => self is Finished,
            PushAction::Publish { .. } => self is Finished,
        }
    }

    /// Whether `event` answers the action that led to this state.
    pub open spec fn expects(self, event: PushEvent) -> bool {
        match self {
            PushState::AwaitAuthor { .. } => event is AuthorLoaded,
            PushState::AwaitBan { .. } => event is BanChecked,
            PushState::AwaitClock { .. } => event is Clock,
            PushState::AwaitTarget { .. } => event is TargetFound,
            PushState::Finished => false,
        }
    }

    /// The next state and action.
    pub open spec fn next(self, event: PushEvent) -> (PushState, PushAction)
        recommends
            self.expects(event),
    {
        match (self, event) {
            (PushState::AwaitAuthor { draft }, PushEvent::AuthorLoaded { user, last_push }) => {
                if user.admin {
                    after_checks(draft, user)
                } else {
                    (
                        PushState::AwaitBan { draft, user, last_push },
                        PushAction::CheckBan { user: user.id },
                    )
                }
            },
            (PushState::AwaitBan { draft, user, last_push }, PushEvent::BanChecked { banned }) => {
                if banned {
                    (PushState::Finished, PushAction::Refuse { user, refusal: Refusal::Banned })
                } else {
                    match last_push {
                        Some(t) => (
                            PushState::AwaitClock { draft, user, last_push: t },
                            PushAction::ReadClock,
                        ),
                        None => after_checks(draft, user),
                    }
                }
            },
            (PushState::AwaitClock { draft, user, last_push }, PushEvent::Clock { now }) => {
                if elapsed(now, last_push) < cooldown_nanos() {
                    (
                        PushState::Finished,
                        PushAction::Refuse {
                            user,
                            refusal: Refusal::Cooldown {
                                seconds: wait_seconds(now, last_push) as u128,
                            },
                        },
                    )
                } else {
                    after_checks(draft, user)
                }
            },
            (PushState::AwaitTarget { draft, user }, PushEvent::TargetFound { target }) => {
                match target {
                    Some(b) => (PushState::Finished, publish(draft, user, Some(b))),
                    None => (
                        PushState::Finished,
                        PushAction::Refuse { user, refusal: Refusal::NoTarget },
                    ),
                }
            },
            _ => (PushState::Finished, PushAction::Ignore),
        }
    }
}

fn finish_checks(draft: Draft, user: User) -> (res: (PushState, PushAction))
    ensures
        res == after_checks(draft, user),
        res.0.awaits(res.1),
        res.0.wf(),
        !user.admin && draft.url is None && draft.image is None && (utf8_len(draft.contents@) as usize)
            < 10 ==> res == (PushState::Finished, PushAction::Refuse { user, refusal: Refusal::TooShort }),
        (user.admin || draft.url is Some || draft.image is Some || (utf8_len(draft.contents@) as usize)
            >= 10) ==> {
            &&& draft.prefix == Prefix::ReplyPrefix ==> res == (PushState::AwaitTarget { draft, user },
                PushAction::FindLastBottle { channel: draft.channel })
            &&& draft.prefix == Prefix::BranchReplyPrefix ==> res == (PushState::AwaitTarget {
                draft,
                user,
            }, PushAction::FindLastReceived { channel: draft.channel })
            &&& draft.prefix == Prefix::SendPrefix ==> res.0 is Finished && res.1 is Publish
                && res.1->Publish_draft == draft && res.1->Publish_reply_to is None
        },
{
    let short = draft.url.is_none() && draft.image.is_none() && draft.contents.as_str().len()
        < MIN_CHARS && !user.admin;
    if short {
        return (PushState::Finished, PushAction::Refuse { user, refusal: Refusal::TooShort });
    }
    match draft.prefix {
        Prefix::SendPrefix => {
            let act = publish_action(draft, user, None);
            (PushState::Finished, act)
        },
        Prefix::ReplyPrefix => {
            let channel = draft.channel;
            (PushState::AwaitTarget { draft, user }, PushAction::FindLastBottle { channel })
        },
        Prefix::BranchReplyPrefix => {
            let channel = draft.channel;
            (PushState::AwaitTarget { draft, user }, PushAction::FindLastReceived { channel })
        },
    }
}

fn publish_action(draft: Draft, user: User, target: Option<Bottle>) -> (act: PushAction)
    ensures
        act == publish(draft, user, target),
{
    let credit_reply = match &target {
        Some(t) => t.user != draft.author,
        None => false,
    };
    let mut xp: i32 = PUSHXP;
    if draft.url.is_some() {
        xp = xp + URLXP;
    }
    if draft.image.is_some() {
        xp = xp + IMAGEXP;
    }
    PushAction::Publish {
        user: User { tickets: 0, ..user },
        credit_reply,
        xp,
        draft,
        reply_to: target,
    }
}

impl PushState {
    /// Takes the answer to the last action and decides what comes next.
    pub fn step(self, event: PushEvent) -> (res: (PushState, PushAction))
        requires
            self.expects(event),
        ensures
            res == self.next(event),
            res.0.awaits(res.1),
            self.wf() ==> res.0.wf(),
    {
        match self {
            PushState::AwaitAuthor { draft } => match event {
                PushEvent::AuthorLoaded { user, last_push } => {
                    if user.admin {
                        finish_checks(draft, user)
                    } else {
                        let id = user.id;
                        (PushState::AwaitBan { draft, user, last_push }, PushAction::CheckBan { user: id })
                    }
                },
                _ => (PushState::Finished, PushAction::Ignore),
            },
            PushState::AwaitBan { draft, user, last_push } => match event {
                PushEvent::BanChecked { banned } => {
                    if banned {
                        (PushState::Finished, PushAction::Refuse { user, refusal: Refusal::Banned })
                    } else {
                        match last_push {
                            Some(t) => (
                                PushState::AwaitClock { draft, user, last_push: t },
                                PushAction::ReadClock,
                            ),
                            None => finish_checks(draft, user),
                        }
                    }
                },
                _ => (PushState::Finished, PushAction::Ignore),
            },
            PushState::AwaitClock { draft, user, last_push } => match event {
                PushEvent::Clock { now } => {
                    let elapsed: i128 = ((now.secs as i128) - (last_push.secs as i128))
                        * 1_000_000_000 + ((now.nanos as i128) - (last_push.nanos as i128));
                    let cooldown: i128 = (COOLDOWN as i128) * 60 * 1_000_000_000;
                    if elapsed < cooldown {
                        let wait: u128 = (cooldown - elapsed) as u128;
                        let seconds: u128 = wait / 1_000_000_000;
                        (
                            PushState::Finished,
                            PushAction::Refuse { user, refusal: Refusal::Cooldown { seconds } },
                        )
                    } else {
                        finish_checks(draft, user)
                    }
                },
                _ => (PushState::Finished, PushAction::Ignore),
            },
            PushState::AwaitTarget { draft, user } => match event {
                PushEvent::TargetFound { target } => match target {
                    Some(b) => {
                        let act = publish_action(draft, user, Some(b));
                        (PushState::Finished, act)
                    },
                    None => (
                        PushState::Finished,
                        PushAction::Refuse { user, refusal: Refusal::NoTarget },
                    ),
                },
                _ => (PushState::Finished, PushAction::Ignore),
            },
            PushState::Finished => (PushState::Finished, PushAction::Ignore),
        }
    }
}

/// Reads a new chat message: a message whose text, once trimmed, opens with
/// one of the three prefixes becomes a draft and the author is loaded next;
/// any other message is ignored.
pub fn new_bottle(msg: Incoming) -> (res: (PushState, PushAction))
    ensures
        res.0.wf(),
        res.0.awaits(res.1),
        match split_prefix(trimmed(msg.content@)) {
            None => res.0 is Finished && res.1 is Ignore,
            Some((p, rest)) => {
                &&& res.1 == (PushAction::LoadAuthor { user: msg.author })
                &&& res.0 matches PushState::AwaitAuthor { draft } && {
                    &&& draft.prefix == p
                    &&& draft.contents@ == rest
                    &&& draft.author == msg.author
                    &&& draft.message == msg.message
                    &&& draft.channel == msg.channel
                    &&& draft.guild == msg.guild
                    &&& draft.url == msg.url
                    &&& draft.image == msg.image
                }
            },
        },
{
    let mut contents = trim(msg.content.as_str()).to_owned();
    let prefix = match test_prefix(&mut contents, SEND_PREFIX, Prefix::SendPrefix) {
        Some(p) => Some(p),
        None => match test_prefix(&mut contents, BRANCH_REPLY_PREFIX, Prefix::BranchReplyPrefix) {
            Some(p) => Some(p),
            None => test_prefix(&mut contents, REPLY_PREFIX, Prefix::ReplyPrefix),
        },
    };
    match prefix {
        None => (PushState::Finished, PushAction::Ignore),
        Some(prefix) => {
            let draft = Draft {
                prefix,
                author: msg.author,
                message: msg.message,
                channel: msg.channel,
                guild: msg.guild,
                contents,
                url: msg.url,
                image: msg.image,
            };
            (PushState::AwaitAuthor { draft }, PushAction::LoadAuthor { user: msg.author })
        },
    }
}

/// The record of a published draft, pushed at `time` in reply to `reply_to`.
pub fn stamp(draft: Draft, reply_to: Option<BottleId>, time: Timestamp) -> (b: MakeBottle)
    ensures
        b == (MakeBottle {
            user: draft.author,
            message: draft.message,
            guild: draft.guild,
            reply_to,
            time_pushed: time,
            contents: draft.contents,
            url: draft.url,
            image: draft.image,
            channel: draft.channel,
        }),
{
    MakeBottle {
        user: draft.author,
        message: draft.message,
        guild: draft.guild,
        reply_to,
        time_pushed: time,
        contents: draft.contents,
        url: draft.url,
        image: draft.image,
        channel: draft.channel,
    }
}

/// An admin's bottle skips the ban check, the cooldown and the length rule:
/// once the author is loaded, it is published or its reply target is looked up.
pub proof fn lemma_admin_skips_checks(draft: Draft, user: User, last_push: Option<Timestamp>)
    requires
        user.admin,
    ensures
        ({
            let act = (PushState::AwaitAuthor { draft }).next(
                PushEvent::AuthorLoaded { user, last_push },
            ).1;
            act is Publish || act is FindLastBottle || act is FindLastReceived
        }),
{
}

/// A banned author who is not an admin is refused as banned.
pub proof fn lemma_banned_refused(draft: Draft, user: User, last_push: Option<Timestamp>)
    ensures
        (PushState::AwaitBan { draft, user, last_push }).next(
            PushEvent::BanChecked { banned: true },
        ).1 == (PushAction::Refuse { user, refusal: Refusal::Banned }),
{
}

/// An author whose latest bottle is younger than the cooldown is refused and
/// told how many whole seconds remain; the seconds are never more than the
/// cooldown allows when the latest bottle lies in the past.
pub proof fn lemma_cooldown_refused(draft: Draft, user: User, last: Timestamp, now: Timestamp)
    requires
        elapsed(now, last) < cooldown_nanos(),
    ensures
        ({
            let act = (PushState::AwaitClock { draft, user, last_push: last }).next(
                PushEvent::Clock { now },
            ).1;
            &&& act matches PushAction::Refuse { refusal: Refusal::Cooldown { seconds }, .. }
            &&& 0 <= elapsed(now, last) ==> seconds <= COOLDOWN * 60
            &&& seconds * 1_000_000_000 <= cooldown_nanos() - elapsed(now, last) < (seconds + 1)
                * 1_000_000_000
        }),
{
}

/// Every bottle that goes out clears its author's tickets, earns `bottle_xp`
/// for its link and image, and credits the bottle it replies to exactly when
/// that bottle has another author.
pub proof fn lemma_publish(state: PushState, event: PushEvent)
    requires
        state.wf(),
        state.expects(event),
    ensures
        state.next(event).1 matches PushAction::Publish { user, draft, reply_to, credit_reply, xp }
            ==> {
            &&& user.tickets == 0
            &&& xp == bottle_xp(draft.url is Some, draft.image is Some)
            &&& credit_reply == (reply_to matches Some(t) && t.user != draft.author)
            &&& (draft.prefix == Prefix::SendPrefix <==> reply_to is None)
        },
{
}

/// Whatever the machine refuses or publishes carries the author it loaded:
/// a refusal or a publication never changes anything of the author but the tickets.
pub proof fn lemma_author_kept(state: PushState, event: PushEvent)
    requires
        state.expects(event),
    ensures
        ({
            let author = match (state, event) {
                (PushState::AwaitAuthor { .. }, PushEvent::AuthorLoaded { user, .. }) => user,
                (PushState::AwaitBan { user, .. }, _) => user,
                (PushState::AwaitClock { user, .. }, _) => user,
                (PushState::AwaitTarget { user, .. }, _) => user,
                _ => arbitrary(),
            };
            match state.next(event).1 {
                PushAction::Refuse { user, .. } => user == author,
                PushAction::Publish { user, .. } => user == (User { tickets: 0, ..author }),
                _ => true,
            }
        }),
{
}

/// How many answers a push can still wait for.
pub open spec fn push_rank(state: PushState) -> nat {
    match state {
        PushState::AwaitAuthor { .. } => 4,
        PushState::AwaitBan { .. } => 3,
        PushState::AwaitClock { .. } => 2,
        PushState::AwaitTarget { .. } => 1,
        PushState::Finished => 0,
    }
}

/// Every push ends: each answer moves it closer to its end, so it asks for at
/// most four records, and it ends exactly when it ignores, refuses or publishes.
pub proof fn lemma_push_ends(state: PushState, event: PushEvent)
    requires
        state.expects(event),
    ensures
        push_rank(state.next(event).0) < push_rank(state),
        state.next(event).0 is Finished <==> (state.next(event).1 is Ignore || state.next(
            event,
        ).1 is Refuse || state.next(event).1 is Publish),
{
}

/// A message that opens with `->>` is a reply to the last bottle the channel
/// received, never a reply to the channel's last bottle, and its text starts
/// after the three characters of the prefix.
pub proof fn lemma_branch_reply_wins(t: Seq<char>)
    requires
        has_prefix(t, BRANCH_REPLY_PREFIX@),
    ensures
        split_prefix(t) == Some((Prefix::BranchReplyPrefix, t.skip(3))),
{
    reveal_strlit(">");
    reveal_strlit("->>");
    assert(t.subrange(0, 3)[0] == '-');
    assert(t[0] == '-');
    assert(!has_prefix(t, SEND_PREFIX@)) by {
        if has_prefix(t, SEND_PREFIX@) {
            assert(t.subrange(0, 1)[0] == t[0]);
        }
    }
}

/// The reply target that a draft asks for once it has passed the checks: a
/// `->` reply asks for the channel's latest bottle, a `->>` reply for the
/// bottle the channel received last, and a `>` bottle for none.
pub open spec fn asks_for_target(draft: Draft, act: PushAction) -> bool {
    match draft.prefix {
        Prefix::ReplyPrefix => act == (PushAction::FindLastBottle { channel: draft.channel }),
        Prefix::BranchReplyPrefix => act == (PushAction::FindLastReceived { channel: draft.channel }),
        Prefix::SendPrefix => act is Publish,
    }
}

/// Whatever way a draft passes the checks (an admin's at once; anyone
/// else's when not banned, with no earlier bottle or one at least a minute
/// old, and with a link, an image or ten bytes of text), a `->` reply looks
/// for the latest bottle of its own channel and a `->>` reply for the bottle
/// its channel received last, waiting for that answer with the same draft and
/// author; a `>` bottle is published at once.
pub proof fn lemma_reply_targets(draft: Draft, user: User, last: Timestamp, now: Timestamp)
    requires
        user.admin || draft.url is Some || draft.image is Some || (utf8_len(draft.contents@) as usize)
            >= 10,
    ensures
        user.admin ==> {
            let (st, act) = (PushState::AwaitAuthor { draft }).next(
                PushEvent::AuthorLoaded { user, last_push: Some(last) },
            );
            &&& asks_for_target(draft, act)
            &&& draft.prefix != Prefix::SendPrefix ==> st == (PushState::AwaitTarget { draft, user })
        },
        !user.admin ==> {
            let (st, act) = (PushState::AwaitBan { draft, user, last_push: None }).next(
                PushEvent::BanChecked { banned: false },
            );
            &&& asks_for_target(draft, act)
            &&& draft.prefix != Prefix::SendPrefix ==> st == (PushState::AwaitTarget { draft, user })
        },
        !user.admin && now.as_nanos() - last.as_nanos() >= 60_000_000_000 ==> {
            let (st, act) = (PushState::AwaitClock { draft, user, last_push: last }).next(
                PushEvent::Clock { now },
            );
            &&& asks_for_target(draft, act)
            &&& draft.prefix != Prefix::SendPrefix ==> st == (PushState::AwaitTarget { draft, user })
        },
{
}

/// A bottle from an author who is not an admin, with neither link nor image
/// and fewer than ten bytes of text, is refused as too short, whatever its
/// prefix; with ten bytes or more it is not refused for its length.
pub proof fn lemma_length_rule(draft: Draft, user: User)
    requires
        !user.admin,
        draft.url is None,
        draft.image is None,
    ensures
        (utf8_len(draft.contents@) as usize) < 10 ==> (PushState::AwaitBan {
            draft,
            user,
            last_push: None,
        }).next(PushEvent::BanChecked { banned: false }).1 == (PushAction::Refuse {
            user,
            refusal: Refusal::TooShort,
        }),
        (utf8_len(draft.contents@) as usize) >= 10 ==> !((PushState::AwaitBan {
            draft,
            user,
            last_push: None,
        }).next(PushEvent::BanChecked { banned: false }).1 is Refuse),
{
}

/// A reply whose target was found goes out attached to that very bottle,
/// with the draft unchanged and the author's tickets cleared; the replied-to
/// bottle is credited exactly when someone else wrote it. A reply whose target
/// was not found is refused, and nothing is published.
pub proof fn lemma_target_answer(draft: Draft, user: User, target: Option<Bottle>)
    ensures
        ({
            let act = (PushState::AwaitTarget { draft, user }).next(PushEvent::TargetFound { target }).1;
            match target {
                Some(t) => act matches PushAction::Publish { user: u, draft: d, reply_to, credit_reply, .. }
                    && u == (User { tickets: 0, ..user }) && d == draft && reply_to == Some(t)
                    && credit_reply == (t.user != draft.author),
                None => act == (PushAction::Refuse { user, refusal: Refusal::NoTarget }),
            }
        }),
{
}

/// The experience of a bottle: 15, plus 2 with a link and 6 with an image.
pub proof fn lemma_bottle_xp_values()
    ensures
        bottle_xp(false, false) == 15,
        bottle_xp(true, false) == 17,
        bottle_xp(false, true) == 21,
        bottle_xp(true, true) == 23,
{
}

/// The three prefixes: `>` sends the text after one character; `->` that is
/// not `->>` replies with the text after two; text opening with none of them
/// is no bottle.
pub proof fn lemma_prefixes(t: Seq<char>)
    ensures
        t.len() >= 1 && t[0] == '>' ==> split_prefix(t) == Some((Prefix::SendPrefix, t.skip(1))),
        t.len() >= 2 && t[0] == '-' && t[1] == '>' && !(t.len() >= 3 && t[2] == '>') ==> split_prefix(t)
            == Some((Prefix::ReplyPrefix, t.skip(2))),
        !(t.len() >= 1 && t[0] == '>') && !(t.len() >= 2 && t[0] == '-' && t[1] == '>')
            ==> split_prefix(t) is None,
{
    reveal_strlit(">");
    reveal_strlit("->");
    reveal_strlit("->>");
    assert(SEND_PREFIX@ =~= seq!['>']);
    assert(REPLY_PREFIX@ =~= seq!['-', '>']);
    assert(BRANCH_REPLY_PREFIX@ =~= seq!['-', '>', '>']);
    if t.len() >= 1 && t[0] == '>' {
        assert(t.subrange(0, 1) =~= seq!['>']);
    }
    if t.len() >= 2 && t[0] == '-' && t[1] == '>' {
        assert(t.subrange(0, 2) =~= seq!['-', '>']);
        if t.len() >= 3 && t[2] == '>' {
            assert(t.subrange(0, 3) =~= seq!['-', '>', '>']);
        }
    }
    if has_prefix(t, SEND_PREFIX@) {
        assert(t.subrange(0, 1)[0] == t[0]);
    }
    if has_prefix(t, BRANCH_REPLY_PREFIX@) {
        assert(t.subrange(0, 3)[0] == t[0]);
        assert(t.subrange(0, 3)[1] == t[1]);
        assert(t.subrange(0, 3)[2] == t[2]);
    }
    if has_prefix(t, REPLY_PREFIX@) {
        assert(t.subrange(0, 2)[0] == t[0]);
        assert(t.subrange(0, 2)[1] == t[1]);
    }
}

} // verus!
