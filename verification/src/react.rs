//! Reactions on delivered bottles: admins ban the author of a bottle with the
//! ban emoji (and lift the ban by taking the reaction back), and delete a
//! bottle with the delete emoji. A state machine that asks its caller for
//! each record it needs.
use vstd::prelude::*;
use crate::model::{Ban, Bottle, BottleId, Config, ReceivedBottle, ReceivedBottleId, Report, User, UserId};

verus! {

/// What the caller does next.
pub enum ReactAction {
    /// Nothing more to do.
    Finish,
    /// Load the record of the user who reacted; answer with `Reactor`.
    LoadReactor { user: UserId },
    /// Find the delivery that posted `message`; answer with `Received`.
    FindReceived { message: i64 },
    /// Load bottle `bottle`; answer with `BottleLoaded` (a failure ends the reaction with it).
    LoadBottle { bottle: BottleId },
    /// Find the report that `user` filed on delivery `received`; answer with `ReportFound`.
    FindReport { received: ReceivedBottleId, user: UserId },
    /// Store `report`; answer with `ReportFiled` (a failure ends the reaction with it).
    FileReport { report: Report },
    /// Find the bottle posted as `message` or delivered as `message`; answer with `BottleFound`.
    FindBottle { message: i64 },
    /// Delete every bottle of `ban.user`, then store `ban`.
    Ban { ban: Ban },
    /// Remove `ban`.
    Unban { ban: Ban },
    /// Find the bottle behind `message`; answer with `BottleFound`.
    FindAnyBottle { message: i64 },
    /// Delete `bottle` and show it as deleted wherever it was delivered.
    Delete { bottle: Bottle },
}

/// Where a reaction stands.
pub enum ReactState {
    AwaitReactor { message: i64, emoji: Option<String>, add: bool },
    AwaitReceived { admin: UserId, message: i64, add: bool },
    AwaitOwner { admin: UserId, received: ReceivedBottle, add: bool },
    AwaitReport { admin: UserId, received: ReceivedBottle, owner: UserId, add: bool },
    AwaitFiled { owner: UserId, add: bool },
    AwaitBottle { admin: UserId, add: bool },
    AwaitAny { delete: bool },
    Finished,
}

/// What the caller found out.
pub enum ReactEvent {
    Reactor { user: User },
    Received { found: Option<ReceivedBottle> },
    BottleLoaded { bottle: Bottle },
    ReportFound { found: Option<Report> },
    ReportFiled { report: Report },
    BottleFound { found: Option<Bottle> },
}

/// The ban of `owner` that `report` led to: stored when the reaction was
/// added, removed when it was taken back.
pub open spec fn ban_step(report: Report, owner: UserId, add: bool) -> (ReactState, ReactAction) {
    let ban = Ban { user: owner, report: Some(report.bottle) };
    (ReactState::Finished, if add { ReactAction::Ban { ban } } else { ReactAction::Unban { ban } })
}

fn ban_action(report: Report, owner: UserId, add: bool) -> (res: (ReactState, ReactAction))
    ensures
        res == ban_step(report, owner, add),
        res.0.awaits(res.1),
{
    let ban = Ban { user: owner, report: Some(report.bottle) };
    if add {
        (ReactState::Finished, ReactAction::Ban { ban })
    } else {
        (ReactState::Finished, ReactAction::Unban { ban })
    }
}

impl ReactState {
    /// Whether this is the state that waits for the answer to `action`: each
    /// question is followed by the state that expects its answer, and the
    /// actions that end the reaction leave it finished.
    pub open spec fn awaits(self, action: ReactAction) -> bool {
        match action {
            ReactAction::LoadReactor { .. } => self is AwaitReactor,
            ReactAction::FindReceived { .. } => self is AwaitReceived,
            ReactAction::LoadBottle { .. } => self is AwaitOwner,
            ReactAction::FindReport { .. } => self is AwaitReport,
            ReactAction::FileReport { .. } => self is AwaitFiled,
            ReactAction::FindBottle { .. } => self is AwaitBottle,
            ReactAction::FindAnyBottle { .. } => self is AwaitAny,
            ReactAction::Finish => self is Finished,
            ReactAction::Ban { .. } => self is Finished,
            ReactAction::Unban { .. } => self is Finished,
            ReactAction::Delete { .. } => self is Finished,
        }
    }

    /// Whether `event` answers the action that led to this state.
    pub open spec fn expects(self, event: ReactEvent) -> bool {
        match self {
            ReactState::AwaitReactor { .. } => event is Reactor,
            ReactState::AwaitReceived { .. } => event is Received,
            ReactState::AwaitOwner { .. } => event is BottleLoaded,
            ReactState::AwaitReport { .. } => event is ReportFound,
            ReactState::AwaitFiled { .. } => event is ReportFiled,
            ReactState::AwaitBottle { .. } => event is BottleFound,
            ReactState::AwaitAny { .. } => event is BottleFound,
            ReactState::Finished => false,
        }
    }

    /// The next state and action.
    pub open spec fn next(self, event: ReactEvent, cfg: Config) -> (ReactState, ReactAction)
        recommends
            self.expects(event),
    {
        match (self, event) {
            (ReactState::AwaitReactor { message, emoji, add }, ReactEvent::Reactor { user }) => {
                match emoji {
                    None => (ReactState::Finished, ReactAction::Finish),
                    Some(e) => if !user.admin {
                        (ReactState::Finished, ReactAction::Finish)
                    } else if e@ == cfg.ban_emoji@ {
                        (
                            ReactState::AwaitReceived { admin: user.id, message, add },
                            ReactAction::FindReceived { message },
                        )
                    } else {
                        (
                            ReactState::AwaitAny { delete: e@ == cfg.delete_emoji@ && add },
                            ReactAction::FindAnyBottle { message },
                        )
                    },
                }
            },
            (ReactState::AwaitReceived { admin, message, add }, ReactEvent::Received { found }) => {
                match found {
                    Some(r) => (
                        ReactState::AwaitOwner { admin, received: r, add },
                        ReactAction::LoadBottle { bottle: r.bottle },
                    ),
                    None => (
                        ReactState::AwaitBottle { admin, add },
                        ReactAction::FindBottle { message },
                    ),
                }
            },
            (ReactState::AwaitOwner { admin, received, add }, ReactEvent::BottleLoaded { bottle }) => {
                (
                    ReactState::AwaitReport { admin, received, owner: bottle.user, add },
                    ReactAction::FindReport { received: received.id, user: admin },
                )
            },
            (
                ReactState::AwaitReport { admin, received, owner, add },
                ReactEvent::ReportFound { found },
            ) => {
                match found {
                    Some(report) => ban_step(report, owner, add),
                    None => (
                        ReactState::AwaitFiled { owner, add },
                        ReactAction::FileReport {
                            report: Report {
                                bottle: received.bottle,
                                user: admin,
                                received_bottle: Some(received.id),
                            },
                        },
                    ),
                }
            },
            (ReactState::AwaitFiled { owner, add }, ReactEvent::ReportFiled { report }) => {
                ban_step(report, owner, add)
            },
            (ReactState::AwaitBottle { admin, add }, ReactEvent::BottleFound { found }) => {
                match found {
                    Some(b) => (
                        ReactState::AwaitFiled { owner: b.user, add },
                        ReactAction::FileReport {
                            report: Report { bottle: b.id, user: admin, received_bottle: None },
                        },
                    ),
                    None => (ReactState::Finished, ReactAction::Finish),
                }
            },
            (ReactState::AwaitAny { delete }, ReactEvent::BottleFound { found }) => {
                match found {
                    Some(b) => if delete {
                        (ReactState::Finished, ReactAction::Delete { bottle: b })
                    } else {
                        (ReactState::Finished, ReactAction::Finish)
                    },
                    None => (ReactState::Finished, ReactAction::Finish),
                }
            },
            _ => (ReactState::Finished, ReactAction::Finish),
        }
    }

    /// Takes the answer to the last action and decides what comes next.
    pub fn step(self, event: ReactEvent, cfg: &Config) -> (res: (ReactState, ReactAction))
        requires
            self.expects(event),
        ensures
            res == self.next(event, *cfg),
            res.0.awaits(res.1),
            self is AwaitAny && event is BottleFound && event->BottleFound_found is Some ==> res == (
            ReactState::Finished,
            if self->AwaitAny_delete {
                ReactAction::Delete { bottle: event->BottleFound_found->Some_0 }
            } else {
                ReactAction::Finish
            },
        ),
    {
        match self {
            ReactState::AwaitReactor { message, emoji, add } => match event {
                ReactEvent::Reactor { user } => match emoji {
                    None => (ReactState::Finished, ReactAction::Finish),
                    Some(e) => {
                        if !user.admin {
                            (ReactState::Finished, ReactAction::Finish)
                        } else if e == cfg.ban_emoji {
                            (
                                ReactState::AwaitReceived { admin: user.id, message, add },
                                ReactAction::FindReceived { message },
                            )
                        } else {
                            let delete = e == cfg.delete_emoji && add;
                            (ReactState::AwaitAny { delete }, ReactAction::FindAnyBottle { message })
                        }
                    },
                },
                _ => (ReactState::Finished, ReactAction::Finish),
            },
            ReactState::AwaitReceived { admin, message, add } => match event {
                ReactEvent::Received { found } => match found {
                    Some(r) => {
                        let bottle = r.bottle;
                        (
                            ReactState::AwaitOwner { admin, received: r, add },
                            ReactAction::LoadBottle { bottle },
                        )
                    },
                    None => (ReactState::AwaitBottle { admin, add }, ReactAction::FindBottle { message }),
                },
                _ => (ReactState::Finished, ReactAction::Finish),
            },
            ReactState::AwaitOwner { admin, received, add } => match event {
                ReactEvent::BottleLoaded { bottle } => {
                    let rid = received.id;
                    (
                        ReactState::AwaitReport { admin, received, owner: bottle.user, add },
                        ReactAction::FindReport { received: rid, user: admin },
                    )
                },
                _ => (ReactState::Finished, ReactAction::Finish),
            },
            ReactState::AwaitReport { admin, received, owner, add } => match event {
                ReactEvent::ReportFound { found } => match found {
                    Some(report) => ban_action(report, owner, add),
                    None => {
                        let report = Report {
                            bottle: received.bottle,
                            user: admin,
                            received_bottle: Some(received.id),
                        };
                        (ReactState::AwaitFiled { owner, add }, ReactAction::FileReport { report })
                    },
                },
                _ => (ReactState::Finished, ReactAction::Finish),
            },
            ReactState::AwaitFiled { owner, add } => match event {
                ReactEvent::ReportFiled { report } => ban_action(report, owner, add),
                _ => (ReactState::Finished, ReactAction::Finish),
            },
            ReactState::AwaitBottle { admin, add } => match event {
                ReactEvent::BottleFound { found } => match found {
                    Some(b) => {
                        let report = Report { bottle: b.id, user: admin, received_bottle: None };
                        (
                            ReactState::AwaitFiled { owner: b.user, add },
                            ReactAction::FileReport { report },
                        )
                    },
                    None => (ReactState::Finished, ReactAction::Finish),
                },
                _ => (ReactState::Finished, ReactAction::Finish),
            },
            ReactState::AwaitAny { delete } => match event {
                ReactEvent::BottleFound { found } => match found {
                    Some(b) => {
                        if delete {
                            (ReactState::Finished, ReactAction::Delete { bottle: b })
                        } else {
                            (ReactState::Finished, ReactAction::Finish)
                        }
                    },
                    None => (ReactState::Finished, ReactAction::Finish),
                },
                _ => (ReactState::Finished, ReactAction::Finish),
            },
            ReactState::Finished => (ReactState::Finished, ReactAction::Finish),
        }
    }
}

/// Begins a reaction on `message`: `emoji` is the name of a Unicode emoji
/// (`None` for a custom one) and `add` tells whether the reaction was added or
/// taken back. A bot's reaction ends at once; anyone else's loads the reactor.
pub fn react(reactor_is_bot: bool, reactor: UserId, message: i64, emoji: Option<String>, add: bool)
    -> (res: (ReactState, ReactAction))
    ensures
        res.0.awaits(res.1),
        reactor_is_bot ==> res.0 is Finished && res.1 is Finish,
        !reactor_is_bot ==> res.0 == (ReactState::AwaitReactor { message, emoji, add })
            && res.1 == (ReactAction::LoadReactor { user: reactor }),
{
    if reactor_is_bot {
        (ReactState::Finished, ReactAction::Finish)
    } else {
        (ReactState::AwaitReactor { message, emoji, add }, ReactAction::LoadReactor { user: reactor })
    }
}

/// Only admins act: the reaction of anyone else ends once the reactor is loaded.
pub proof fn lemma_only_admins_act(
    message: i64,
    emoji: Option<String>,
    add: bool,
    user: User,
    cfg: Config,
)
    requires
        !user.admin,
    ensures
        (ReactState::AwaitReactor { message, emoji, add }).next(ReactEvent::Reactor { user }, cfg)
            == (ReactState::Finished, ReactAction::Finish),
{
}

/// An admin's ban emoji leads to the reported deliveries, any other Unicode
/// emoji to the bottle behind the message, which is deleted only when the
/// emoji is the delete emoji (and not the ban emoji) and the reaction was added.
pub proof fn lemma_admin_emoji(message: i64, e: String, add: bool, user: User, cfg: Config)
    requires
        user.admin,
    ensures
        ({
            let (s, a) = (ReactState::AwaitReactor { message, emoji: Some(e), add }).next(
                ReactEvent::Reactor { user },
                cfg,
            );
            &&& e@ == cfg.ban_emoji@ ==> a == (ReactAction::FindReceived { message })
            &&& e@ != cfg.ban_emoji@ ==> a == (ReactAction::FindAnyBottle { message }) && s == (
            ReactState::AwaitAny { delete: e@ == cfg.delete_emoji@ && add })
        }),
{
}

/// A ban always hits the author of the reported bottle and cites that bottle;
/// it is stored when the reaction was added and removed when it was taken back.
pub proof fn lemma_ban_targets_owner(state: ReactState, event: ReactEvent, cfg: Config)
    requires
        state.expects(event),
    ensures
        ({
            let a = state.next(event, cfg).1;
            &&& a matches ReactAction::Ban { ban } ==> match (state, event) {
                (ReactState::AwaitReport { owner, add, .. }, ReactEvent::ReportFound { found }) =>
                    add && ban.user == owner && (found matches Some(r) && ban.report == Some(r.bottle)),
                (ReactState::AwaitFiled { owner, add }, ReactEvent::ReportFiled { report }) => add
                    && ban.user == owner && ban.report == Some(report.bottle),
                _ => false,
            }
            &&& a matches ReactAction::Unban { ban } ==> match state {
                ReactState::AwaitReport { owner, add, .. } => !add && ban.user == owner,
                ReactState::AwaitFiled { owner, add } => !add && ban.user == owner,
                _ => false,
            }
            &&& a is Delete ==> (state matches ReactState::AwaitAny { delete } && delete)
        }),
{
}

/// How many answers a reaction can still wait for.
pub open spec fn react_rank(state: ReactState) -> nat {
    match state {
        ReactState::AwaitReactor { .. } => 5,
        ReactState::AwaitReceived { .. } => 4,
        ReactState::AwaitOwner { .. } => 3,
        ReactState::AwaitBottle { .. } => 2,
        ReactState::AwaitReport { .. } => 2,
        ReactState::AwaitAny { .. } => 1,
        ReactState::AwaitFiled { .. } => 1,
        ReactState::Finished => 0,
    }
}

/// Every reaction ends: each answer moves it closer to its end, and it ends
/// exactly when it bans, lifts a ban, deletes, or has nothing to do.
pub proof fn lemma_reaction_ends(state: ReactState, event: ReactEvent, cfg: Config)
    requires
        state.expects(event),
    ensures
        react_rank(state.next(event, cfg).0) < react_rank(state),
        ({
            let (s, a) = state.next(event, cfg);
            s is Finished <==> (a is Finish || a is Ban || a is Unban || a is Delete)
        }),
{
}

/// `state` with its reaction marked as added (`add`) or taken back.
pub open spec fn with_add(state: ReactState, add: bool) -> ReactState {
    match state {
        ReactState::AwaitReactor { message, emoji, .. } => ReactState::AwaitReactor { message, emoji, add },
        ReactState::AwaitReceived { admin, message, .. } => ReactState::AwaitReceived { admin, message, add },
        ReactState::AwaitOwner { admin, received, .. } => ReactState::AwaitOwner { admin, received, add },
        ReactState::AwaitReport { admin, received, owner, .. } => ReactState::AwaitReport {
            admin,
            received,
            owner,
            add,
        },
        ReactState::AwaitFiled { owner, .. } => ReactState::AwaitFiled { owner, add },
        ReactState::AwaitBottle { admin, .. } => ReactState::AwaitBottle { admin, add },
        _ => state,
    }
}

/// What a taken-back reaction does where the added one does `a`: a ban
/// becomes the lifting of the same ban, anything else stays as it is.
pub open spec fn taken_back(a: ReactAction) -> ReactAction {
    match a {
        ReactAction::Ban { ban } => ReactAction::Unban { ban },
        _ => a,
    }
}

/// A state on the way of the ban emoji: not waiting for the bottle behind a
/// message for a deletion, and, before the reactor is known, holding no emoji
/// or the ban emoji.
pub open spec fn on_ban_path(state: ReactState, cfg: Config) -> bool {
    match state {
        ReactState::AwaitAny { .. } => false,
        ReactState::AwaitReactor { emoji, .. } => match emoji {
            Some(e) => e@ == cfg.ban_emoji@,
            None => true,
        },
        _ => true,
    }
}

/// The actions and state after answering `events` one by one, from `state`;
/// the last action comes out (`Finish` when there are no events).
pub open spec fn run(state: ReactState, events: Seq<ReactEvent>, cfg: Config) -> (ReactState, ReactAction)
    decreases events.len(),
{
    if events.len() == 0 {
        (state, ReactAction::Finish)
    } else if events.len() == 1 {
        state.next(events[0], cfg)
    } else {
        run(state.next(events[0], cfg).0, events.drop_first(), cfg)
    }
}

/// One step of the ban emoji: taking the reaction back asks the same things as
/// adding it, and ends with the lifting of the very ban that adding it stores.
pub proof fn lemma_taken_back_step(state: ReactState, event: ReactEvent, cfg: Config)
    requires
        on_ban_path(state, cfg),
    ensures
        ({
            let (s1, a1) = with_add(state, true).next(event, cfg);
            &&& with_add(state, false).next(event, cfg) == (with_add(s1, false), taken_back(a1))
            &&& on_ban_path(s1, cfg)
            &&& with_add(s1, true) == s1
            &&& !(a1 is Unban)
        }),
{
}

/// Ban, then take it back: answered alike, the ban emoji's reaction taken back
/// ends in `Unban` of exactly the `Ban` that adding the reaction ends in, and
/// asks the same questions on the way. Lifting a ban stores and deletes
/// nothing else: the `Unban` action removes only that ban.
pub proof fn lemma_ban_then_unban(
    message: i64,
    emoji: Option<String>,
    events: Seq<ReactEvent>,
    cfg: Config,
)
    requires
        emoji matches Some(e) ==> e@ == cfg.ban_emoji@,
    ensures
        ({
            let added = run(ReactState::AwaitReactor { message, emoji, add: true }, events, cfg);
            let taken = run(ReactState::AwaitReactor { message, emoji, add: false }, events, cfg);
            &&& taken.1 == taken_back(added.1)
            &&& (added.1 matches ReactAction::Ban { ban } ==> taken.1 == (ReactAction::Unban { ban }))
            &&& taken.0 == with_add(added.0, false)
        }),
{
    lemma_run_taken_back(ReactState::AwaitReactor { message, emoji, add: true }, events, cfg);
}

proof fn lemma_run_taken_back(state: ReactState, events: Seq<ReactEvent>, cfg: Config)
    requires
        on_ban_path(state, cfg),
        with_add(state, true) == state,
    ensures
        ({
            let added = run(state, events, cfg);
            run(with_add(state, false), events, cfg) == (with_add(added.0, false), taken_back(added.1))
        }),
    decreases events.len(),
{
    if events.len() == 0 {
    } else {
        lemma_taken_back_step(state, events[0], cfg);
        if events.len() > 1 {
            let s1 = state.next(events[0], cfg).0;
            lemma_run_taken_back(s1, events.drop_first(), cfg);
        }
    }
}

/// Ban on a delivery, then take it back, with the answers each run really
/// gets: adding the ban emoji files a report of the delivery by the admin and
/// stores the ban of the bottle's author; taking it back asks for exactly that
/// report, finds it, and lifts exactly that ban.
pub proof fn lemma_ban_then_unban_filed(
    message: i64,
    e: String,
    admin: User,
    recv: ReceivedBottle,
    b: Bottle,
    cfg: Config,
)
    requires
        admin.admin,
        e@ == cfg.ban_emoji@,
    ensures
        ({
            let filed = Report { bottle: recv.bottle, user: admin.id, received_bottle: Some(recv.id) };
            let ban = Ban { user: b.user, report: Some(recv.bottle) };
            let add = ReactState::AwaitReactor { message, emoji: Some(e), add: true };
            let back = ReactState::AwaitReactor { message, emoji: Some(e), add: false };
            let to_owner = seq![
                ReactEvent::Reactor { user: admin },
                ReactEvent::Received { found: Some(recv) },
                ReactEvent::BottleLoaded { bottle: b },
            ];
            &&& run(add, to_owner.push(ReactEvent::ReportFound { found: None }), cfg).1 == (
            ReactAction::FileReport { report: filed })
            &&& run(
                add,
                to_owner.push(ReactEvent::ReportFound { found: None }).push(
                    ReactEvent::ReportFiled { report: filed },
                ),
                cfg,
            ).1 == (ReactAction::Ban { ban })
            &&& run(back, to_owner, cfg).1 == (ReactAction::FindReport {
                received: filed.received_bottle->0,
                user: filed.user,
            })
            &&& run(back, to_owner.push(ReactEvent::ReportFound { found: Some(filed) }), cfg).1 == (
            ReactAction::Unban { ban })
        }),
{
    let filed = Report { bottle: recv.bottle, user: admin.id, received_bottle: Some(recv.id) };
    let add = ReactState::AwaitReactor { message, emoji: Some(e), add: true };
    let back = ReactState::AwaitReactor { message, emoji: Some(e), add: false };
    let to_owner = seq![
        ReactEvent::Reactor { user: admin },
        ReactEvent::Received { found: Some(recv) },
        ReactEvent::BottleLoaded { bottle: b },
    ];
    let a4 = to_owner.push(ReactEvent::ReportFound { found: None });
    let a5 = a4.push(ReactEvent::ReportFiled { report: filed });
    let b4 = to_owner.push(ReactEvent::ReportFound { found: Some(filed) });
    reveal_with_fuel(run, 6);
    assert(to_owner.drop_first().drop_first() =~= seq![ReactEvent::BottleLoaded { bottle: b }]);
    assert(a4.drop_first().drop_first().drop_first() =~= seq![
        ReactEvent::ReportFound { found: None },
    ]);
    assert(a5.drop_first().drop_first().drop_first().drop_first() =~= seq![
        ReactEvent::ReportFiled { report: filed },
    ]);
    assert(b4.drop_first().drop_first().drop_first() =~= seq![
        ReactEvent::ReportFound { found: Some(filed) },
    ]);
}

/// Once an admin's delete emoji was added, the bottle found behind the
/// message is deleted, whatever bottle it is (from a server or not, replying
/// or not); without that emoji, or when the reaction was taken back, nothing is
/// deleted; and when no bottle is found, nothing happens.
pub proof fn lemma_delete_any_bottle(b: Bottle, cfg: Config)
    ensures
        (ReactState::AwaitAny { delete: true }).next(ReactEvent::BottleFound { found: Some(b) }, cfg)
            == (ReactState::Finished, ReactAction::Delete { bottle: b }),
        (ReactState::AwaitAny { delete: false }).next(ReactEvent::BottleFound { found: Some(b) }, cfg)
            == (ReactState::Finished, ReactAction::Finish),
        (ReactState::AwaitAny { delete: true }).next(ReactEvent::BottleFound { found: None }, cfg) == (
        ReactState::Finished, ReactAction::Finish),
{
}

/// An admin's added delete emoji (that is not the ban emoji) on a message
/// behind which bottle `b` is found deletes `b`.
pub proof fn lemma_delete_emoji_deletes(message: i64, e: String, admin: User, b: Bottle, cfg: Config)
    requires
        admin.admin,
        e@ == cfg.delete_emoji@,
        e@ != cfg.ban_emoji@,
    ensures
        run(
            ReactState::AwaitReactor { message, emoji: Some(e), add: true },
            seq![ReactEvent::Reactor { user: admin }, ReactEvent::BottleFound { found: Some(b) }],
            cfg,
        ) == (ReactState::Finished, ReactAction::Delete { bottle: b }),
{
    reveal_with_fuel(run, 3);
    assert(seq![ReactEvent::Reactor { user: admin }, ReactEvent::BottleFound { found: Some(b) }].drop_first()
        =~= seq![ReactEvent::BottleFound { found: Some(b) }]);
}

} // verus!
