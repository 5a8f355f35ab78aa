//! Delivering a bottle: the thread of bottles it replies to, and the channels
//! that receive it.
use vstd::prelude::*;
use crate::model::{Bottle, BottleId, GuildId};

verus! {

/// The longest thread that is gathered for a delivery.
pub const MAX_THREAD: usize = 10;

/// Each bottle of `s` replies to the next one.
pub open spec fn linked(s: Seq<Bottle>) -> bool {
    forall|i: int| 0 <= i < s.len() - 1 ==> #[trigger] s[i].reply_to == Some(s[i + 1].id)
}

/// What to do once the thread holds `s`.
pub enum ChainAction {
    /// Load bottle `bottle` and hand it to `ReplyChain::step`.
    Fetch { bottle: BottleId },
    /// The thread is complete; `truncated` tells that it stopped at `MAX_THREAD` bottles.
    Complete { truncated: bool },
}

/// What follows a thread that holds `s`: a full thread stops, truncated; else
/// the bottle that the last one replies to is fetched, if any.
pub open spec fn chain_next(s: Seq<Bottle>) -> ChainAction {
    if s.len() >= MAX_THREAD {
        ChainAction::Complete { truncated: true }
    } else {
        match s.last().reply_to {
            Some(x) => ChainAction::Fetch { bottle: x },
            None => ChainAction::Complete { truncated: false },
        }
    }
}

/// The thread of a bottle: the bottle, the bottle it replies to, the bottle
/// that one replies to, and so on, newest first.
pub struct ReplyChain {
    bottles: Vec<Bottle>,
}

impl ReplyChain {
    /// The bottles gathered so far, newest first.
    pub closed spec fn view(self) -> Seq<Bottle> {
        self.bottles@
    }

    /// A thread holds one to `MAX_THREAD` bottles, each replying to the next.
    pub open spec fn wf(self) -> bool {
        &&& 1 <= self.view().len() <= MAX_THREAD
        &&& linked(self.view())
    }

    /// Starts the thread of `origin`.
    pub fn start(origin: Bottle) -> (res: (ReplyChain, ChainAction))
        ensures
            follows(origin, res.0.view().drop_first()),
            res.0.wf(),
            res.0.view() == seq![origin],
            res.1 == chain_next(res.0.view()),
    {
        let mut bottles = Vec::new();
        let reply = origin.reply_to;
        bottles.push(origin);
        let chain = ReplyChain { bottles };
        let act = match reply {
            Some(x) => ChainAction::Fetch { bottle: x },
            None => ChainAction::Complete { truncated: false },
        };
        (chain, act)
    }

    /// Adds the bottle that `Fetch` asked for.
    pub fn step(&mut self, fetched: Bottle) -> (act: ChainAction)
        requires
            old(self).wf(),
            chain_next(old(self).view()) == (ChainAction::Fetch { bottle: fetched.id }),
        ensures
            final(self).wf(),
            final(self).view() == old(self).view().push(fetched),
            act == chain_next(final(self).view()),
            follows(old(self).view()[0], old(self).view().drop_first()) ==> follows(
                final(self).view()[0],
                final(self).view().drop_first(),
            ),
    {
        let ghost before = self.bottles@;
        let reply = fetched.reply_to;
        self.bottles.push(fetched);
        assert(linked(self.bottles@));
        proof {
            let origin = before[0];
            let after = self.bottles@;
            assert(after[0] == origin);
            if follows(origin, before.drop_first()) {
                assert forall|i: int| 0 <= i < after.drop_first().len() implies chain_next(
                    seq![origin] + after.drop_first().take(i),
                ) == (ChainAction::Fetch { bottle: #[trigger] after.drop_first()[i].id }) by {
                    assert(seq![origin] + before.drop_first() =~= before);
                    if i < before.drop_first().len() {
                        assert(after.drop_first().take(i) =~= before.drop_first().take(i));
                        assert(after.drop_first()[i] == before.drop_first()[i]);
                    } else {
                        assert(seq![origin] + after.drop_first().take(i) =~= before);
                    }
                }
            }
        }
        if self.bottles.len() >= MAX_THREAD {
            ChainAction::Complete { truncated: true }
        } else {
            match reply {
                Some(x) => ChainAction::Fetch { bottle: x },
                None => ChainAction::Complete { truncated: false },
            }
        }
    }

    /// The bottles of the thread, newest first.
    pub fn into_bottles(self) -> (v: Vec<Bottle>)
        ensures
            v@ == self.view(),
    {
        self.bottles
    }
}

/// A thread never grows past `MAX_THREAD`: a full thread asks for nothing more,
/// and a thread that ends short of it ends at a bottle that replies to nothing.
pub proof fn lemma_thread_bounded(s: Seq<Bottle>)
    requires
        1 <= s.len() <= MAX_THREAD,
    ensures
        s.len() == MAX_THREAD ==> chain_next(s) == (ChainAction::Complete { truncated: true }),
        chain_next(s) == (ChainAction::Complete { truncated: false }) ==> s.last().reply_to is None,
        chain_next(s) matches ChainAction::Fetch { bottle } ==> s.len() < MAX_THREAD
            && s.last().reply_to == Some(bottle),
{
}

/// Whether `fetched` are the bottles that a thread started at `origin` asked
/// for, in order: each one has the id that the thread asked for next. Nothing
/// is assumed of the replies themselves: they may run in a circle.
pub open spec fn follows(origin: Bottle, fetched: Seq<Bottle>) -> bool {
    forall|i: int|
        0 <= i < fetched.len() ==> chain_next(seq![origin] + fetched.take(i)) == (ChainAction::Fetch {
            bottle: #[trigger] fetched[i].id,
        })
}

/// Gathering a thread reads at most `MAX_THREAD - 1` bottles, whatever the
/// replies are (a circle of replies too): after that many the thread is full
/// and asks for nothing more.
pub proof fn lemma_at_most_nine_lookups(origin: Bottle, fetched: Seq<Bottle>)
    requires
        follows(origin, fetched),
    ensures
        fetched.len() <= MAX_THREAD - 1,
        fetched.len() == MAX_THREAD - 1 ==> chain_next(seq![origin] + fetched) == (
        ChainAction::Complete { truncated: true }),
{
    if fetched.len() > MAX_THREAD - 1 {
        let i = (MAX_THREAD - 1) as int;
        assert((seq![origin] + fetched.take(i)).len() == MAX_THREAD);
        assert(chain_next(seq![origin] + fetched.take(i)) == (ChainAction::Fetch {
            bottle: fetched[i].id,
        }));
    }
}

/// Numbers a thread for display: the newest of `n` bottles has depth `n - 1`,
/// the oldest depth 0.
pub fn number_chain(bottles: Vec<Bottle>) -> (res: Vec<(usize, Bottle)>)
    ensures
        res@.len() == bottles@.len(),
        forall|k: int| 0 <= k < res@.len() ==> #[trigger] res@[k] == (
        (bottles@.len() - 1 - k) as usize, bottles@[k]),
{
    let n = bottles.len();
    let mut rest = bottles;
    let mut res: Vec<(usize, Bottle)> = Vec::new();
    let ghost all = rest@;
    while rest.len() > 0
        invariant
            n == all.len(),
            res@.len() + rest@.len() == n,
            rest@ == all.subrange(res@.len() as int, n as int),
            forall|k: int| 0 <= k < res@.len() ==> #[trigger] res@[k] == (
            (n - 1 - k) as usize, all[k]),
        decreases rest.len(),
    {
        let b = rest.remove(0);
        let depth = n - 1 - res.len();
        res.push((depth, b));
    }
    res
}

/// How many bottles at the front of `s` come before the one with id `last`
/// (all of them when none has it).
pub open spec fn fresh_count(s: Seq<(usize, Bottle)>, last: Option<BottleId>) -> nat
    decreases s.len(),
{
    if s.len() == 0 {
        0
    } else if Some(s[0].1.id) == last {
        0
    } else {
        1 + fresh_count(s.drop_first(), last)
    }
}

/// The bottles a channel has not received are exactly those in front of the
/// first with id `last`: none of them has that id, and the one after them has it
/// (unless all of them were taken).
pub proof fn lemma_fresh_count_bound(s: Seq<(usize, Bottle)>, last: Option<BottleId>)
    ensures
        fresh_count(s, last) <= s.len(),
        forall|i: int| 0 <= i < fresh_count(s, last) ==> Some(#[trigger] s[i].1.id) != last,
        fresh_count(s, last) < s.len() ==> Some(s[fresh_count(s, last) as int].1.id) == last,
    decreases s.len(),
{
    if s.len() > 0 && Some(s[0].1.id) != last {
        lemma_fresh_count_bound(s.drop_first(), last);
        assert forall|i: int| 0 <= i < fresh_count(s, last) implies Some(#[trigger] s[i].1.id)
            != last by {
            if i > 0 {
                assert(s[i] == s.drop_first()[i - 1]);
            }
        }
    }
}

/// The thread bottles a channel has not received yet, oldest first: those in
/// front of the last bottle the channel received (`last`), taken from the
/// newest-first thread `bottles` and given as positions in it.
pub fn undelivered(bottles: &Vec<(usize, Bottle)>, last: Option<BottleId>) -> (order: Vec<usize>)
    ensures
        ({
            let k = fresh_count(bottles@, last);
            &&& order@.len() == k
            &&& forall|i: int| 0 <= i < k ==> #[trigger] order@[i] == k - 1 - i
        }),
        order@.len() <= bottles@.len(),
        forall|i: int|
            0 <= i < order@.len() ==> Some(bottles@[#[trigger] order@[i] as int].1.id) != last,
        order@.len() < bottles@.len() ==> Some(bottles@[order@.len() as int].1.id) == last,
        forall|i: int, j: int| 0 <= i < j < order@.len() ==> order@[i] > order@[j],
{
    proof {
        lemma_fresh_count_bound(bottles@, last);
    }
    let mut k: usize = 0;
    while k < bottles.len()
        invariant
            k <= bottles@.len(),
            k <= fresh_count(bottles@, last),
            fresh_count(bottles@, last) <= bottles@.len(),
            forall|i: int| 0 <= i < fresh_count(bottles@, last) ==> Some(#[trigger] bottles@[i].1.id)
                != last,
            fresh_count(bottles@, last) < bottles@.len() ==> Some(
                bottles@[fresh_count(bottles@, last) as int].1.id,
            ) == last,
        ensures
            k == fresh_count(bottles@, last),
        decreases bottles.len() - k,
    {
        let found = match last {
            Some(id) => bottles[k].1.id == id,
            None => false,
        };
        if found {
            break;
        }
        k = k + 1;
    }
    let mut order: Vec<usize> = Vec::new();
    let mut j: usize = k;
    while j > 0
        invariant
            j <= k,
            order@.len() == k - j,
            forall|i: int| 0 <= i < order@.len() ==> #[trigger] order@[i] == k - 1 - i,
        decreases j,
    {
        j = j - 1;
        order.push(j);
    }
    order
}

/// The channels that are offered a bottle, before duplicates are merged: the
/// servers' channels, then the channels the thread's bottles came from.
pub open spec fn candidates(guilds: Seq<(GuildId, i64)>, chain: Seq<(usize, Bottle)>) -> Seq<
    (Option<GuildId>, i64),
> {
    Seq::new(guilds.len(), |i: int| (Some(guilds[i].0), guilds[i].1)) + Seq::new(
        chain.len(),
        |i: int| (None::<GuildId>, chain[i].1.channel),
    )
}

/// `s` with every run of equal neighbours merged into its first entry, as `Vec::dedup` does.
pub open spec fn dedup(s: Seq<(Option<GuildId>, i64)>) -> Seq<(Option<GuildId>, i64)>
    decreases s.len(),
{
    if s.len() == 0 {
        s
    } else {
        let d = dedup(s.drop_last());
        if d.len() > 0 && d.last() == s.last() {
            d
        } else {
            d.push(s.last())
        }
    }
}

/// `s` without the entries for channel `origin`.
pub open spec fn without_channel(s: Seq<(Option<GuildId>, i64)>, origin: i64) -> Seq<
    (Option<GuildId>, i64),
>
    decreases s.len(),
{
    if s.len() == 0 {
        s
    } else {
        let r = without_channel(s.drop_last(), origin);
        if s.last().1 == origin {
            r
        } else {
            r.push(s.last())
        }
    }
}

/// The channels that receive a bottle pushed from `origin`, each with the
/// server it belongs to when it came from the server list (whose server is
/// dropped when delivery fails): `guilds` (server, channel) pairs, then the
/// channels of the thread `chain`, with neighbouring duplicates merged and
/// `origin` left out.
pub fn delivery_channels(guilds: &Vec<(GuildId, i64)>, chain: &Vec<(usize, Bottle)>, origin: i64)
    -> (res: Vec<(Option<GuildId>, i64)>)
    ensures
        res@ == without_channel(dedup(candidates(guilds@, chain@)), origin),
        forall|k: int|
            0 <= k < chain@.len() && #[trigger] chain@[k].1.channel != origin ==> res@.contains(
                (None::<GuildId>, chain@[k].1.channel),
            ),
        forall|i: int|
            0 <= i < guilds@.len() && #[trigger] guilds@[i].1 != origin ==> res@.contains(
                (Some(guilds@[i].0), guilds@[i].1),
            ),
        forall|j: int| 0 <= j < res@.len() ==> #[trigger] res@[j].1 != origin,
        res@.len() <= guilds@.len() + chain@.len(),
        forall|j: int|
            0 <= j < res@.len() ==> match #[trigger] res@[j] {
                (Some(g), c) => exists|i: int| 0 <= i < guilds@.len() && guilds@[i] == (g, c),
                (None, c) => exists|k: int| 0 <= k < chain@.len() && chain@[k].1.channel == c,
            },
{
    let ghost cand = candidates(guilds@, chain@);
    let mut all: Vec<(Option<GuildId>, i64)> = Vec::new();
    let mut i: usize = 0;
    while i < guilds.len()
        invariant
            i <= guilds@.len(),
            cand == candidates(guilds@, chain@),
            all@ == cand.subrange(0, i as int),
        decreases guilds.len() - i,
    {
        let (g, c) = guilds[i];
        all.push((Some(g), c));
        i = i + 1;
        assert(all@ =~= cand.subrange(0, i as int));
    }
    let mut j: usize = 0;
    while j < chain.len()
        invariant
            j <= chain@.len(),
            cand == candidates(guilds@, chain@),
            all@ == cand.subrange(0, guilds@.len() + j),
        decreases chain.len() - j,
    {
        all.push((None, chain[j].1.channel));
        j = j + 1;
        assert(all@ =~= cand.subrange(0, guilds@.len() + j));
    }
    assert(all@ =~= cand);
    let mut merged: Vec<(Option<GuildId>, i64)> = Vec::new();
    let mut k: usize = 0;
    while k < all.len()
        invariant
            k <= all@.len(),
            merged@ == dedup(all@.subrange(0, k as int)),
        decreases all.len() - k,
    {
        let e = all[k];
        assert(all@.subrange(0, k + 1).drop_last() =~= all@.subrange(0, k as int));
        let n = merged.len();
        let same = n > 0 && {
            let prev = merged[n - 1];
            prev.1 == e.1 && match (prev.0, e.0) {
                (Some(a), Some(b)) => a == b,
                (None, None) => true,
                _ => false,
            }
        };
        if same {
        } else {
            merged.push(e);
        }
        k = k + 1;
    }
    assert(all@.subrange(0, all@.len() as int) =~= all@);
    let mut res: Vec<(Option<GuildId>, i64)> = Vec::new();
    let mut m: usize = 0;
    while m < merged.len()
        invariant
            m <= merged@.len(),
            res@ == without_channel(merged@.subrange(0, m as int), origin),
        decreases merged.len() - m,
    {
        let e = merged[m];
        assert(merged@.subrange(0, m + 1).drop_last() =~= merged@.subrange(0, m as int));
        if e.1 != origin {
            res.push(e);
        }
        m = m + 1;
    }
    assert(merged@.subrange(0, merged@.len() as int) =~= merged@);
    proof {
        lemma_every_channel_offered(guilds@, chain@, origin);
        let cand = candidates(guilds@, chain@);
        lemma_origin_left_out(dedup(cand), origin);
        lemma_dedup_within(cand);
        lemma_without_within(dedup(cand), origin);
        assert forall|j: int| 0 <= j < res@.len() implies match #[trigger] res@[j] {
            (Some(g), c) => exists|i: int| 0 <= i < guilds@.len() && guilds@[i] == (g, c),
            (None, c) => exists|k: int| 0 <= k < chain@.len() && chain@[k].1.channel == c,
        } by {
            let d = dedup(cand);
            let a = choose|a: int| 0 <= a < d.len() && d[a] == res@[j];
            let b = choose|b: int| 0 <= b < cand.len() && cand[b] == d[a];
            if b < guilds@.len() {
                assert(guilds@[b] == (guilds@[b].0, guilds@[b].1));
            } else {
                let k = b - guilds@.len();
                assert(chain@[k].1.channel == cand[b].1);
            }
        }
    }
    res
}

/// No channel receives a bottle it was pushed from.
pub proof fn lemma_origin_left_out(s: Seq<(Option<GuildId>, i64)>, origin: i64)
    ensures
        forall|i: int|
            0 <= i < without_channel(s, origin).len() ==> #[trigger] without_channel(s, origin)[i].1
                != origin,
    decreases s.len(),
{
    if s.len() > 0 {
        lemma_origin_left_out(s.drop_last(), origin);
        let r = without_channel(s.drop_last(), origin);
        assert forall|i: int| 0 <= i < without_channel(s, origin).len() implies #[trigger] without_channel(
            s,
            origin,
        )[i].1 != origin by {
            if s.last().1 != origin && i < r.len() {
                assert(r.push(s.last())[i] == r[i]);
            }
        }
    }
}

/// Every other channel on offer keeps its place in the delivery list.
pub proof fn lemma_others_kept(s: Seq<(Option<GuildId>, i64)>, origin: i64)
    ensures
        forall|i: int|
            0 <= i < s.len() && s[i].1 != origin ==> without_channel(s, origin).contains(
                #[trigger] s[i],
            ),
    decreases s.len(),
{
    if s.len() > 0 {
        lemma_others_kept(s.drop_last(), origin);
        let r = without_channel(s.drop_last(), origin);
        assert forall|i: int| 0 <= i < s.len() && s[i].1 != origin implies without_channel(
            s,
            origin,
        ).contains(#[trigger] s[i]) by {
            if i < s.len() - 1 {
                assert(s.drop_last()[i] == s[i]);
                let j = choose|j: int| 0 <= j < r.len() && r[j] == s[i];
                if s.last().1 != origin {
                    assert(r.push(s.last())[j] == s[i]);
                }
            } else {
                assert(r.push(s.last())[r.len() as int] == s[i]);
            }
        }
    }
}

/// Merging keeps every channel on offer and leaves no two equal neighbours.
pub proof fn lemma_dedup(s: Seq<(Option<GuildId>, i64)>)
    ensures
        forall|i: int| 0 <= i < s.len() ==> dedup(s).contains(#[trigger] s[i]),
        forall|i: int| 0 <= i < dedup(s).len() - 1 ==> #[trigger] dedup(s)[i] != dedup(s)[i + 1],
        s.len() > 0 ==> dedup(s).len() > 0 && dedup(s).last() == s.last(),
    decreases s.len(),
{
    if s.len() > 0 {
        let p = s.drop_last();
        lemma_dedup(p);
        let d = dedup(p);
        assert forall|i: int| 0 <= i < s.len() implies dedup(s).contains(#[trigger] s[i]) by {
            if i < s.len() - 1 {
                assert(p[i] == s[i]);
                let j = choose|j: int| 0 <= j < d.len() && d[j] == s[i];
                if !(d.len() > 0 && d.last() == s.last()) {
                    assert(d.push(s.last())[j] == s[i]);
                }
            } else {
                if d.len() > 0 && d.last() == s.last() {
                    assert(d[d.len() - 1] == s[i]);
                } else {
                    assert(d.push(s.last())[d.len() as int] == s[i]);
                }
            }
        }
        assert forall|i: int| 0 <= i < dedup(s).len() - 1 implies #[trigger] dedup(s)[i] != dedup(
            s,
        )[i + 1] by {
            if !(d.len() > 0 && d.last() == s.last()) && i == d.len() - 1 {
                assert(dedup(s)[i] == d.last());
            } else if !(d.len() > 0 && d.last() == s.last()) {
                assert(dedup(s)[i] == d[i]);
                assert(dedup(s)[i + 1] == d[i + 1]);
            }
        }
    }
}

/// Merging equal neighbours brings in nothing new and never lengthens the list.
pub proof fn lemma_dedup_within(s: Seq<(Option<GuildId>, i64)>)
    ensures
        dedup(s).len() <= s.len(),
        forall|i: int| 0 <= i < dedup(s).len() ==> s.contains(#[trigger] dedup(s)[i]),
    decreases s.len(),
{
    if s.len() > 0 {
        let p = s.drop_last();
        lemma_dedup_within(p);
        let d = dedup(p);
        assert forall|i: int| 0 <= i < dedup(s).len() implies s.contains(#[trigger] dedup(s)[i]) by {
            if i < d.len() {
                assert(dedup(s)[i] == d[i]);
                let j = choose|j: int| 0 <= j < p.len() && p[j] == d[i];
                assert(s[j] == p[j]);
            } else {
                assert(dedup(s)[i] == s[s.len() - 1]);
            }
        }
    }
}

/// Leaving out the origin brings in nothing new and never lengthens the list.
pub proof fn lemma_without_within(s: Seq<(Option<GuildId>, i64)>, origin: i64)
    ensures
        without_channel(s, origin).len() <= s.len(),
        forall|i: int|
            0 <= i < without_channel(s, origin).len() ==> s.contains(
                #[trigger] without_channel(s, origin)[i],
            ),
    decreases s.len(),
{
    if s.len() > 0 {
        let p = s.drop_last();
        lemma_without_within(p, origin);
        let r = without_channel(p, origin);
        assert forall|i: int| 0 <= i < without_channel(s, origin).len() implies s.contains(
            #[trigger] without_channel(s, origin)[i],
        ) by {
            if i < r.len() {
                assert(without_channel(s, origin)[i] == r[i]);
                let j = choose|j: int| 0 <= j < p.len() && p[j] == r[i];
                assert(s[j] == p[j]);
            } else {
                assert(without_channel(s, origin)[i] == s[s.len() - 1]);
            }
        }
    }
}

/// The server to drop after a delivery to one of the channels of
/// `delivery_channels`: a channel that came from the server list and could not
/// be delivered to costs its server its place; a channel of the thread costs nothing.
pub fn server_to_drop(guild: Option<GuildId>, delivered: bool) -> (drop: Option<GuildId>)
    ensures
        drop == (if delivered { None } else { guild }),
{
    if delivered {
        None
    } else {
        guild
    }
}

/// Every channel of the thread that is not the origin receives the bottle:
/// the bottle it replies to, the one before, and so on to the thread's root,
/// each in its own channel; and so does every server channel on offer but the origin.
pub proof fn lemma_every_channel_offered(
    guilds: Seq<(GuildId, i64)>,
    chain: Seq<(usize, Bottle)>,
    origin: i64,
)
    ensures
        forall|k: int|
            0 <= k < chain.len() && #[trigger] chain[k].1.channel != origin ==> without_channel(
                dedup(candidates(guilds, chain)),
                origin,
            ).contains((None::<GuildId>, chain[k].1.channel)),
        forall|i: int|
            0 <= i < guilds.len() && #[trigger] guilds[i].1 != origin ==> without_channel(
                dedup(candidates(guilds, chain)),
                origin,
            ).contains((Some(guilds[i].0), guilds[i].1)),
{
    let cand = candidates(guilds, chain);
    let d = dedup(cand);
    lemma_dedup(cand);
    lemma_others_kept(d, origin);
    assert forall|k: int|
        0 <= k < chain.len() && #[trigger] chain[k].1.channel != origin implies without_channel(
            d,
            origin,
        ).contains((None::<GuildId>, chain[k].1.channel)) by {
        let e = (None::<GuildId>, chain[k].1.channel);
        assert(cand[guilds.len() + k] == e);
        assert(d.contains(cand[guilds.len() + k]));
        let j = choose|j: int| 0 <= j < d.len() && d[j] == e;
        assert(d[j].1 != origin);
    }
    assert forall|i: int|
        0 <= i < guilds.len() && #[trigger] guilds[i].1 != origin implies without_channel(
            d,
            origin,
        ).contains((Some(guilds[i].0), guilds[i].1)) by {
        let e = (Some(guilds[i].0), guilds[i].1);
        assert(cand[i] == e);
        assert(d.contains(cand[i]));
        let j = choose|j: int| 0 <= j < d.len() && d[j] == e;
        assert(d[j].1 != origin);
    }
}

} // verus!
