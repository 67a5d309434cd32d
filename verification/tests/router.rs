use automate::bridge::{Bridge, BridgeError, Frame, Routed};
use automate::reply::Reply;
use tokio::sync::mpsc::error::TryRecvError;
use tokio::sync::mpsc::unbounded_channel;
use tokio::sync::oneshot::error::TryRecvError as NothingYet;

fn answer(text: &str) -> Reply {
    Reply::failure(text.to_string())
}

#[test]
fn a_request_goes_out_under_a_fresh_id() {
    let mut bridge: Bridge<String> = Bridge::new();
    let (tx, mut wire) = unbounded_channel();
    bridge.append_client("agent-1".to_string(), tx);
    assert!(bridge.is_connected("agent-1"));
    let first = bridge.send_msg("agent-1", "hello".to_string()).unwrap();
    let second = bridge.send_msg("agent-1", "again".to_string()).unwrap();
    assert_eq!(first.id, 0);
    assert_eq!(second.id, 1);
    assert_eq!(bridge.pending(), 2);
    match wire.try_recv().unwrap() {
        Frame::Request { id, msg } => {
            assert_eq!(id, 0);
            assert_eq!(msg, "hello");
        }
        _ => panic!("a request went out"),
    }
    match wire.try_recv().unwrap() {
        Frame::Request { id, msg } => {
            assert_eq!(id, 1);
            assert_eq!(msg, "again");
        }
        _ => panic!("a request went out"),
    }
    assert!(matches!(wire.try_recv(), Err(TryRecvError::Empty)));
}

#[test]
fn a_reply_reaches_the_request_that_waits() {
    let mut bridge: Bridge<String> = Bridge::new();
    let (tx, _wire) = unbounded_channel();
    bridge.append_client("agent-1".to_string(), tx);
    let mut first = bridge.send_msg("agent-1", "a".to_string()).unwrap();
    let mut second = bridge.send_msg("agent-1", "b".to_string()).unwrap();
    let routed = bridge.route(Frame::Reply { id: second.id, reply: answer("for b") });
    assert!(matches!(routed, Routed::Delivered { id: 1, taken: true }));
    assert_eq!(second.reply.try_recv(), Ok(answer("for b")));
    assert_eq!(first.reply.try_recv(), Err(NothingYet::Empty));
    assert_eq!(bridge.pending(), 1);
    let routed = bridge.route(Frame::Reply { id: first.id, reply: Reply::success(None) });
    assert!(matches!(routed, Routed::Delivered { id: 0, taken: true }));
    assert_eq!(first.reply.try_recv(), Ok(Reply::success(None)));
    assert_eq!(bridge.pending(), 0);
}

#[test]
fn a_second_reply_under_the_same_id_is_dropped() {
    let mut bridge: Bridge<String> = Bridge::new();
    let (tx, _wire) = unbounded_channel();
    bridge.append_client("agent-1".to_string(), tx);
    let sent = bridge.send_msg("agent-1", "a".to_string()).unwrap();
    assert!(matches!(
        bridge.route(Frame::Reply { id: sent.id, reply: answer("one") }),
        Routed::Delivered { id: 0, taken: true }
    ));
    assert!(matches!(
        bridge.route(Frame::Reply { id: sent.id, reply: answer("two") }),
        Routed::Dropped { id: 0 }
    ));
    assert!(matches!(
        bridge.route(Frame::Reply { id: 77, reply: answer("stray") }),
        Routed::Dropped { id: 77 }
    ));
}

#[test]
fn a_reply_for_a_caller_that_left_is_not_taken() {
    let mut bridge: Bridge<String> = Bridge::new();
    let (tx, _wire) = unbounded_channel();
    bridge.append_client("agent-1".to_string(), tx);
    let sent = bridge.send_msg("agent-1", "a".to_string()).unwrap();
    let id = sent.id;
    drop(sent);
    assert!(matches!(
        bridge.route(Frame::Reply { id, reply: answer("late") }),
        Routed::Delivered { id: 0, taken: false }
    ));
    let forgotten = bridge.send_msg("agent-1", "b".to_string()).unwrap();
    assert!(bridge.forget(forgotten.id));
    assert!(!bridge.forget(forgotten.id));
    assert_eq!(bridge.pending(), 0);
}

#[test]
fn frames_are_made_of_id_and_content() {
    match Frame::request(7, "ask".to_string()) {
        Frame::Request { id, msg } => {
            assert_eq!(id, 7);
            assert_eq!(msg, "ask");
        }
        _ => panic!("a request frame was made"),
    }
    match Frame::<String>::reply(8, answer("told")) {
        Frame::Reply { id, reply } => {
            assert_eq!(id, 8);
            assert_eq!(reply, answer("told"));
        }
        _ => panic!("a reply frame was made"),
    }
}

#[test]
fn settling_spends_the_id_and_keeps_a_slot_for_what_the_link_took() {
    let mut bridge: Bridge<String> = Bridge::new();
    assert!(matches!(bridge.settle(false), Err(BridgeError::Closed)));
    assert_eq!(bridge.pending(), 0);
    let mut sent = bridge.settle(true).unwrap();
    assert_eq!(sent.id, 1);
    assert_eq!(bridge.pending(), 1);
    assert!(matches!(
        bridge.route(Frame::Reply { id: 1, reply: answer("back") }),
        Routed::Delivered { id: 1, taken: true }
    ));
    assert_eq!(sent.reply.try_recv(), Ok(answer("back")));
    assert_eq!(bridge.settle(true).unwrap().id, 2);
}

#[test]
fn inbound_requests_are_handed_back() {
    let mut bridge: Bridge<String> = Bridge::new();
    match bridge.route(Frame::Request { id: 9, msg: "run".to_string() }) {
        Routed::Handle { id, msg } => {
            assert_eq!(id, 9);
            assert_eq!(msg, "run");
        }
        _ => panic!("a request is to be handled"),
    }
    assert_eq!(bridge.pending(), 0);
}

#[test]
fn sending_fails_without_a_live_link() {
    let mut bridge: Bridge<String> = Bridge::new();
    assert!(matches!(bridge.send_msg("agent-1", "a".to_string()), Err(BridgeError::NotConnected)));
    assert_eq!(bridge.answer("agent-1", 1, answer("x")), Err(BridgeError::NotConnected));
    let (tx, wire) = unbounded_channel();
    bridge.append_client("agent-1".to_string(), tx);
    drop(wire);
    assert!(matches!(bridge.send_msg("agent-1", "a".to_string()), Err(BridgeError::Closed)));
    assert_eq!(bridge.pending(), 0);
    assert_eq!(bridge.answer("agent-1", 1, answer("x")), Err(BridgeError::Closed));
    let (tx, mut wire) = unbounded_channel();
    bridge.append_client("agent-1".to_string(), tx);
    let sent = bridge.send_msg("agent-1", "b".to_string()).unwrap();
    assert_eq!(sent.id, 1);
    assert!(matches!(wire.try_recv(), Ok(Frame::Request { id: 1, .. })));
    assert!(bridge.remove_client("agent-1"));
    assert!(!bridge.remove_client("agent-1"));
    assert!(!bridge.is_connected("agent-1"));
}

#[test]
fn answers_carry_the_id_of_their_request() {
    let mut bridge: Bridge<String> = Bridge::new();
    let (tx, mut wire) = unbounded_channel();
    bridge.append_client("agent-1".to_string(), tx);
    assert_eq!(bridge.answer("agent-1", 41, Reply::success(None)), Ok(()));
    match wire.try_recv().unwrap() {
        Frame::Reply { id, reply } => {
            assert_eq!(id, 41);
            assert_eq!(reply.code, 20000);
            assert_eq!(reply.msg, "success");
        }
        _ => panic!("a reply went out"),
    }
}
