use bottle_bot::deliver::{delivery_channels, number_chain, server_to_drop, undelivered, ChainAction, ReplyChain};
use bottle_bot::model::{Bottle, Timestamp};

fn bottle(id: i64, reply_to: Option<i64>, channel: i64) -> Bottle {
    Bottle {
        id,
        reply_to,
        user: 1,
        message: id * 10,
        guild: None,
        time_pushed: Timestamp { secs: id, nanos: 0 },
        contents: format!("bottle {}", id),
        url: None,
        image: None,
        channel,
        deleted: false,
    }
}

#[test]
fn short_thread_follows_replies_to_the_start() {
    let (mut chain, mut act) = ReplyChain::start(bottle(3, Some(2), 30));
    let mut fetched = vec![];
    while let ChainAction::Fetch { bottle: id } = act {
        fetched.push(id);
        let reply = if id > 1 { Some(id - 1) } else { None };
        act = chain.step(bottle(id, reply, 30));
    }
    assert_eq!(fetched, vec![2, 1]);
    assert!(matches!(act, ChainAction::Complete { truncated: false }));
    let ids: Vec<i64> = chain.into_bottles().iter().map(|b| b.id).collect();
    assert_eq!(ids, vec![3, 2, 1]);
}

#[test]
fn long_thread_stops_at_ten() {
    let (mut chain, mut act) = ReplyChain::start(bottle(100, Some(99), 30));
    let mut steps = 0;
    while let ChainAction::Fetch { bottle: id } = act {
        steps += 1;
        act = chain.step(bottle(id, Some(id - 1), 30));
    }
    assert_eq!(steps, 9);
    assert!(matches!(act, ChainAction::Complete { truncated: true }));
    assert_eq!(chain.into_bottles().len(), 10);
}

#[test]
fn newest_bottle_is_deepest() {
    let numbered = number_chain(vec![bottle(3, Some(2), 1), bottle(2, Some(1), 2), bottle(1, None, 3)]);
    let view: Vec<(usize, i64)> = numbered.iter().map(|(d, b)| (*d, b.id)).collect();
    assert_eq!(view, vec![(2, 3), (1, 2), (0, 1)]);
}

#[test]
fn channel_gets_only_what_it_missed_oldest_first() {
    let numbered = number_chain(vec![
        bottle(4, Some(3), 1),
        bottle(3, Some(2), 1),
        bottle(2, Some(1), 1),
        bottle(1, None, 1),
    ]);
    assert_eq!(undelivered(&numbered, Some(2)), vec![1, 0]);
    assert_eq!(undelivered(&numbered, None), vec![3, 2, 1, 0]);
    assert_eq!(undelivered(&numbered, Some(99)), vec![3, 2, 1, 0]);
    assert_eq!(undelivered(&numbered, Some(4)), Vec::<usize>::new());
}

#[test]
fn channels_merge_neighbours_and_skip_the_origin() {
    let numbered = number_chain(vec![bottle(3, Some(2), 500), bottle(2, Some(1), 600), bottle(1, None, 600)]);
    let guilds = vec![(7, 100), (8, 100), (9, 500), (10, 200)];
    let plan = delivery_channels(&guilds, &numbered, 500);
    assert_eq!(
        plan,
        vec![(Some(7), 100), (Some(8), 100), (Some(10), 200), (None, 600)]
    );
    let plan = delivery_channels(&vec![(7, 100), (7, 100)], &vec![], 1);
    assert_eq!(plan, vec![(Some(7), 100)]);
}

#[test]
fn only_failing_servers_are_dropped() {
    assert_eq!(server_to_drop(Some(7), false), Some(7));
    assert_eq!(server_to_drop(Some(7), true), None);
    assert_eq!(server_to_drop(None, false), None);
}

#[test]
fn circular_replies_stop_at_ten() {
    let (mut chain, mut act) = ReplyChain::start(bottle(1, Some(2), 30));
    let mut lookups = 0;
    while let ChainAction::Fetch { bottle: id } = act {
        lookups += 1;
        let reply = if id == 1 { 2 } else { 1 };
        act = chain.step(bottle(id, Some(reply), 30));
    }
    assert_eq!(lookups, 9);
    assert!(matches!(act, ChainAction::Complete { truncated: true }));
}
