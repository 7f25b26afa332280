use mm_load::fanout::{plan_workers, WorkerSpec};
use mm_load::oracle::{same_anchor, Action, Event, OracleState, Phase};
use mm_load::orders::{
    find_open_orders, plan_order_triple, validate_universe, ConfigError, OpenOrdersEntry, ParticipantAccounts,
    PlanError, Side,
};
use mm_load::rate_gate::gate_delay;
use mm_load::sampler::{offset_from_word, size_from_word, ParamStream};
use mm_load::worker::{OrderTicket, Worker};
use rand::rngs::StdRng;
use rand::{Rng, SeedableRng};

fn key(b: u8) -> [u8; 32] {
    [b; 32]
}

#[test]
fn gate_sleeps_rest_of_second() {
    assert_eq!(gate_delay(0), 1_000_000_000);
    assert_eq!(gate_delay(400_000_000), 600_000_000);
    assert_eq!(gate_delay(999_999_999), 1);
}

#[test]
fn gate_never_negative_after_overrun() {
    assert_eq!(gate_delay(1_000_000_000), 0);
    assert_eq!(gate_delay(2_500_000_000), 0);
    // The cycle after an overrun still gets its full pause.
    assert_eq!(gate_delay(100_000_000), 900_000_000);
}

#[test]
fn offset_keeps_sign_of_sample() {
    assert_eq!(offset_from_word(5), 5);
    assert_eq!(offset_from_word(250), 50);
    assert_eq!(offset_from_word(u64::MAX), -1);
    assert_eq!(offset_from_word((-150i64) as u64), -50);
    assert_eq!(offset_from_word(i64::MIN as u64), -8);
    assert_eq!(offset_from_word(i64::MAX as u64), 7);
    assert_eq!(offset_from_word((-100i64) as u64), 0);
}

#[test]
fn size_lies_between_ten_and_1009() {
    assert_eq!(size_from_word(0), 10);
    assert_eq!(size_from_word(999), 1009);
    assert_eq!(size_from_word(1000), 10);
    assert_eq!(size_from_word(u64::MAX), 625);
}

#[test]
fn stream_matches_seeded_generator() {
    let mut rng = StdRng::seed_from_u64(3);
    let mut s = ParamStream::new(3);
    for _ in 0..50 {
        let offset: i64 = rng.gen::<i64>() % 100;
        let size: u64 = rng.gen::<u64>() % 1000 + 10;
        assert_eq!(s.next_params(), (offset, size));
    }
}

#[test]
fn stream_reproducible_for_fixed_seed() {
    let mut a = ParamStream::new(42);
    let mut b = ParamStream::new(42);
    let xs: Vec<(i64, u64)> = (0..100).map(|_| a.next_params()).collect();
    let ys: Vec<(i64, u64)> = (0..100).map(|_| b.next_params()).collect();
    assert_eq!(xs, ys);
    let mut c = ParamStream::new(43);
    let zs: Vec<(i64, u64)> = (0..100).map(|_| c.next_params()).collect();
    assert_ne!(xs, zs);
}

#[test]
fn client_ids_start_at_one_and_step_by_one() {
    let mut w = Worker::new(0);
    assert_eq!(w.next_client_order_id(), 1);
    let first = w.next_orders(5);
    let ids: Vec<u64> = first.iter().map(|t| t.client_order_id).collect();
    assert_eq!(ids, vec![1, 2, 3, 4, 5]);
    let t = w.next_order();
    assert_eq!(t.client_order_id, 6);
    assert_eq!(w.next_client_order_id(), 7);
}

#[test]
fn worker_tickets_follow_its_seed() {
    let mut w = Worker::new(9);
    assert_eq!(w.seed(), 9);
    let mut rng = StdRng::seed_from_u64(9);
    for id in 1..=20u64 {
        let offset: i64 = rng.gen::<i64>() % 100;
        let size: u64 = rng.gen::<u64>() % 1000 + 10;
        assert_eq!(w.next_order(), OrderTicket { client_order_id: id, offset, size });
    }
}

#[test]
fn workers_with_same_seed_agree() {
    let mut a = Worker::new(5);
    let mut b = Worker::new(5);
    assert_eq!(a.next_orders(30), b.next_orders(30));
}

#[test]
fn anchor_comparison() {
    assert!(same_anchor(&key(1), &key(1)));
    let mut k = key(1);
    k[31] = 2;
    assert!(!same_anchor(&key(1), &k));
}

#[test]
fn oracle_stores_height_then_queries_anchor() {
    let mut s = OracleState::new(key(1), 3, 0);
    let o = s.step(Event::Height(Some(10)), 100);
    assert_eq!(o.action, Action::QueryAnchor);
    assert_eq!(o.store_height, Some(10));
    assert!(o.publish.is_none());
    assert_eq!(s.height, 10);
    assert_eq!(s.phase, Phase::Refreshing { started_ms: 100 });
}

#[test]
fn oracle_retries_failed_height_at_once() {
    let mut s = OracleState::new(key(1), 3, 0);
    let o = s.step(Event::Height(None), 100);
    assert_eq!(o.action, Action::QueryHeight);
    assert_eq!(o.store_height, None);
    assert_eq!(s.height, 3);
    assert_eq!(s.phase, Phase::Polling);
}

#[test]
fn oracle_publishes_a_different_anchor() {
    let mut s = OracleState::new(key(1), 3, 0);
    s.step(Event::Height(Some(4)), 1_000);
    let o = s.step(Event::AnchorReply(Some(key(2))), 1_050);
    assert_eq!(o.publish, Some(key(2)));
    assert_eq!(o.action, Action::Sleep(300));
    assert_eq!(s.anchor, key(2));
    assert_eq!(s.last_updated_ms, 1_050);
    assert_eq!(s.phase, Phase::Polling);
    let o = s.step(Event::Woke, 1_350);
    assert_eq!(o.action, Action::QueryHeight);
}

#[test]
fn oracle_gives_up_after_refresh_budget_on_same_anchor() {
    let mut s = OracleState::new(key(1), 3, 0);
    s.step(Event::Height(Some(4)), 1_000);
    let mut now = 1_000;
    while now < 6_000 {
        let o = s.step(Event::AnchorReply(Some(key(1))), now);
        assert_eq!(o.action, Action::Sleep(200));
        assert!(o.publish.is_none());
        now += 200;
        let o = s.step(Event::Woke, now);
        if now - 1_000 < 5_000 {
            assert_eq!(o.action, Action::QueryAnchor);
        } else {
            assert_eq!(o.action, Action::Sleep(300));
            assert_eq!(s.phase, Phase::Polling);
        }
    }
    assert_eq!(now, 6_000);
    assert_eq!(s.anchor, key(1));
    assert_eq!(s.last_updated_ms, 0);
}

#[test]
fn oracle_failed_anchor_query_retries() {
    let mut s = OracleState::new(key(1), 3, 0);
    s.step(Event::Height(Some(4)), 10);
    let o = s.step(Event::AnchorReply(None), 20);
    assert_eq!(o.action, Action::Sleep(200));
    assert_eq!(s.phase, Phase::Refreshing { started_ms: 10 });
}

#[test]
fn oracle_stops_when_stale_past_limit() {
    let mut s = OracleState::new(key(1), 3, 0);
    s.step(Event::Height(Some(4)), 115_001);
    let o = s.step(Event::Woke, 120_001);
    assert_eq!(o.action, Action::Halt);
    assert!(s.is_stopped());
    for e in [Event::Woke, Event::Height(Some(9)), Event::AnchorReply(Some(key(7)))] {
        let o = s.step(e, 200_000);
        assert_eq!(o.action, Action::Halt);
        assert!(o.publish.is_none() && o.store_height.is_none());
    }
    assert_eq!(s.anchor, key(1));
    assert_eq!(s.height, 4);
}

#[test]
fn oracle_keeps_going_within_stale_limit() {
    let mut s = OracleState::new(key(1), 3, 0);
    s.step(Event::Height(Some(4)), 115_000);
    let o = s.step(Event::Woke, 120_000);
    assert_eq!(o.action, Action::Sleep(300));
    assert!(!s.is_stopped());
    assert_eq!(s.phase, Phase::Polling);
}

#[test]
fn oracle_stops_when_height_fails_past_limit() {
    let mut s = OracleState::new(key(1), 3, 0);
    let o = s.step(Event::Height(None), 120_000);
    assert_eq!(o.action, Action::QueryHeight);
    assert_eq!(s.phase, Phase::Polling);
    let o = s.step(Event::Height(None), 120_001);
    assert_eq!(o.action, Action::Halt);
    assert!(s.is_stopped());
    assert_eq!(s.anchor, key(1));
    assert_eq!(s.height, 3);
}

#[test]
fn open_orders_lookup_takes_first_match() {
    let entries = vec![
        OpenOrdersEntry { market: key(1), open_orders: key(10) },
        OpenOrdersEntry { market: key(2), open_orders: key(20) },
        OpenOrdersEntry { market: key(2), open_orders: key(21) },
    ];
    assert_eq!(find_open_orders(&entries, &key(2)), Some(key(20)));
    assert_eq!(find_open_orders(&entries, &key(3)), None);
    assert_eq!(find_open_orders(&vec![], &key(1)), None);
}

#[test]
fn triple_prices_around_reference() {
    let entries = vec![OpenOrdersEntry { market: key(1), open_orders: key(10) }];
    let t = OrderTicket { client_order_id: 7, offset: -30, size: 500 };
    let p = plan_order_triple(&entries, &key(1), 1_000, t).unwrap();
    assert_eq!(p.open_orders, key(10));
    assert_eq!(p.bid.side, Side::Bid);
    assert_eq!(p.bid.price_lots, 970);
    assert_eq!(p.bid.max_base_lots, 500);
    assert_eq!(p.bid.max_quote_lots_including_fees, i64::MAX);
    assert_eq!(p.bid.client_order_id, 7);
    assert_eq!(p.ask.side, Side::Ask);
    assert_eq!(p.ask.price_lots, 1_030);
    assert_eq!(p.ask.max_base_lots, i64::MAX);
    assert_eq!(p.ask.max_quote_lots_including_fees, 500);
    assert_eq!(p.ask.client_order_id, 7);
}

#[test]
fn triple_errors() {
    let entries = vec![OpenOrdersEntry { market: key(1), open_orders: key(10) }];
    let t = OrderTicket { client_order_id: 1, offset: 5, size: 10 };
    assert_eq!(plan_order_triple(&entries, &key(2), 1_000, t).unwrap_err(), PlanError::MissingOpenOrders);
    assert_eq!(plan_order_triple(&entries, &key(1), i64::MAX, t).unwrap_err(), PlanError::PriceOutOfRange);
    assert_eq!(plan_order_triple(&entries, &key(1), i64::MIN, t).unwrap_err(), PlanError::PriceOutOfRange);
}

#[test]
fn universe_validation() {
    let ready = ParticipantAccounts {
        token_accounts: vec![key(9)],
        open_orders: vec![
            OpenOrdersEntry { market: key(1), open_orders: key(10) },
            OpenOrdersEntry { market: key(2), open_orders: key(11) },
        ],
    };
    let markets = vec![key(1), key(2)];
    assert_eq!(validate_universe(&vec![ready.clone(), ready.clone()], &markets), Ok(()));
    let no_token = ParticipantAccounts { token_accounts: vec![], open_orders: ready.open_orders.clone() };
    assert_eq!(
        validate_universe(&vec![ready.clone(), no_token], &markets),
        Err(ConfigError::NoTokenAccount { participant: 1 })
    );
    let partial = ParticipantAccounts {
        token_accounts: vec![key(9)],
        open_orders: vec![OpenOrdersEntry { market: key(1), open_orders: key(10) }],
    };
    assert_eq!(
        validate_universe(&vec![partial, ready], &markets),
        Err(ConfigError::MissingOpenOrders { participant: 0, market: 1 })
    );
    let bare = ParticipantAccounts { token_accounts: vec![], open_orders: vec![] };
    assert_eq!(
        validate_universe(&vec![bare], &markets),
        Err(ConfigError::NoTokenAccount { participant: 0 })
    );
    assert_eq!(validate_universe(&vec![], &markets), Ok(()));
}

#[test]
fn fanout_one_worker_per_pair_with_sequential_seeds() {
    let specs = plan_workers(2, 3);
    assert_eq!(specs.len(), 6);
    for (i, s) in specs.iter().enumerate() {
        assert_eq!(*s, WorkerSpec { seed: i as u64, participant: i / 3, market: i % 3 });
    }
    assert!(plan_workers(0, 5).is_empty());
    assert!(plan_workers(4, 0).is_empty());
}
