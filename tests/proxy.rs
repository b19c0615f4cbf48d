use tcpproxy::proxy::{poll_desp, token_of, transfers};
use tcpproxy::{Action, Direction, Outcome, Owner, PipeBuf, PollDesp, Proxy, Readiness, LISTEN_TOKEN, MAX_SLOTS};

fn ev(readable: bool, writable: bool, error: bool, read_hup: bool, hangup: bool) -> Readiness {
    Readiness { readable, writable, error, read_hup, hangup }
}

fn add(p: &mut Proxy, c: i32, b: i32) -> (usize, u64, u64) {
    p.register(c, b, PipeBuf::new(c + 100, c + 101, 64), PipeBuf::new(b + 100, b + 101, 64))
        .unwrap()
}

#[test]
fn tokens_encode_role_and_slot() {
    assert_eq!(token_of(PollDesp { who: Owner::Client, slot: 0 }), 1);
    assert_eq!(token_of(PollDesp { who: Owner::Backend, slot: 0 }), 2);
    assert_eq!(token_of(PollDesp { who: Owner::Client, slot: 7 }), 15);
    assert_eq!(token_of(PollDesp { who: Owner::Backend, slot: 7 }), 16);
}

#[test]
fn tokens_round_trip() {
    for slot in [0usize, 1, 2, 1000, MAX_SLOTS - 1] {
        for who in [Owner::Client, Owner::Backend] {
            let pd = PollDesp { who, slot };
            let t = token_of(pd);
            assert_ne!(t, LISTEN_TOKEN);
            assert_eq!(poll_desp(t), Some(pd));
        }
    }
}

#[test]
fn listen_token_and_out_of_range_tokens_decode_to_none() {
    assert_eq!(poll_desp(LISTEN_TOKEN), None);
    assert_eq!(poll_desp(u64::MAX), None);
    assert_eq!(poll_desp(MAX_SLOTS as u64 * 2 + 1), None);
}

#[test]
fn role_to_direction_table() {
    assert_eq!(transfers(Owner::Client, ev(true, false, false, false, false)), (Some(Direction::Inbound), None));
    assert_eq!(transfers(Owner::Client, ev(false, true, false, false, false)), (None, Some(Direction::Outbound)));
    assert_eq!(transfers(Owner::Backend, ev(true, false, false, false, false)), (Some(Direction::Outbound), None));
    assert_eq!(transfers(Owner::Backend, ev(false, true, false, false, false)), (None, Some(Direction::Inbound)));
    assert_eq!(
        transfers(Owner::Client, ev(false, false, true, false, false)),
        (Some(Direction::Inbound), Some(Direction::Outbound))
    );
    assert_eq!(transfers(Owner::Backend, ev(false, false, false, true, false)), (Some(Direction::Outbound), None));
    assert_eq!(transfers(Owner::Backend, ev(false, false, false, false, true)), (None, Some(Direction::Inbound)));
    assert_eq!(transfers(Owner::Client, ev(false, false, false, false, false)), (None, None));
}

#[test]
fn register_fills_slots_in_order_and_reuses_freed_ones() {
    let mut p = Proxy::new();
    assert_eq!(p.len(), 0);
    assert_eq!(add(&mut p, 10, 11), (0, 1, 2));
    assert_eq!(add(&mut p, 20, 21), (1, 3, 4));
    assert_eq!(p.len(), 2);
    let (mut t, _) = p.begin(0, Direction::Inbound);
    assert_eq!(p.advance(0, &mut t, Outcome::Failed(5)), Action::Done(Err(tcpproxy::Terminal::Fatal(5))));
    let gone = p.finish_batch();
    assert_eq!(gone.len(), 1);
    assert!(p.get(0).is_none());
    assert_eq!(add(&mut p, 30, 31), (0, 1, 2));
    assert_eq!(p.get(0).unwrap().client_fd, 30);
    assert_eq!(p.len(), 2);
}

#[test]
fn resolve_finds_live_connections_only() {
    let mut p = Proxy::new();
    let (_, tc, tb) = add(&mut p, 10, 11);
    assert_eq!(p.resolve(tc), Some(PollDesp { who: Owner::Client, slot: 0 }));
    assert_eq!(p.resolve(tb), Some(PollDesp { who: Owner::Backend, slot: 0 }));
    assert_eq!(p.resolve(LISTEN_TOKEN), None);
    assert_eq!(p.resolve(token_of(PollDesp { who: Owner::Client, slot: 5 })), None);
}

#[test]
fn finished_connection_is_not_dispatched_again_in_the_batch() {
    let mut p = Proxy::new();
    let (_, tc, tb) = add(&mut p, 10, 11);
    let (mut t, _) = p.begin(0, Direction::Outbound);
    p.advance(0, &mut t, Outcome::Moved(0));
    assert!(p.is_pending(0));
    assert_eq!(p.resolve(tc), None);
    assert_eq!(p.resolve(tb), None);
    let (t, a) = p.begin(0, Direction::Inbound);
    assert_eq!(a, Action::Done(Err(tcpproxy::Terminal::Closed)));
    assert_eq!(t.phase, tcpproxy::Phase::Finished);
    assert!(!p.get(0).unwrap().bad);
}

#[test]
fn route_gives_slot_and_steps() {
    let mut p = Proxy::new();
    add(&mut p, 10, 11);
    let (_, tc, tb) = add(&mut p, 20, 21);
    assert_eq!(p.route(tc, ev(true, true, false, false, false)), Some((1, Some(Direction::Inbound), Some(Direction::Outbound))));
    assert_eq!(p.route(tb, ev(false, true, false, false, false)), Some((1, None, Some(Direction::Inbound))));
    assert_eq!(p.route(LISTEN_TOKEN, ev(true, false, false, false, false)), None);
}

#[test]
fn teardown_is_deduplicated() {
    let mut p = Proxy::new();
    add(&mut p, 10, 11);
    let (mut t1, _) = p.begin(0, Direction::Inbound);
    let (mut t2, _) = p.begin(0, Direction::Outbound);
    p.advance(0, &mut t1, Outcome::Failed(104));
    assert!(p.is_pending(0));
    p.advance(0, &mut t2, Outcome::Failed(104));
    assert!(p.is_pending(0));
    let gone = p.finish_batch();
    assert_eq!(gone.len(), 1);
    assert_eq!((gone[0].client_fd, gone[0].backend_fd), (10, 11));
    assert!(gone[0].bad);
    assert!(!p.is_pending(0));
    assert!(p.finish_batch().is_empty());
}

#[test]
fn empty_batch_releases_nothing() {
    let mut p = Proxy::new();
    add(&mut p, 10, 11);
    assert!(p.finish_batch().is_empty());
    assert!(p.get(0).is_some());
}
