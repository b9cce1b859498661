use spambot::command::{classify, Command};
use spambot::event_loop::{broadcast_batch, handle_event, Event, MessageKind, Outgoing, Reply};
use spambot::random_text::RandomTextGenerator;
use spambot::state::BotState;

fn message(peer: u32, text: &str) -> Event {
    Event::Message { peer, kind: MessageKind::Normal, text: text.to_string() }
}

#[test]
fn classify_id() {
    assert_eq!(classify("id"), Command::Identify);
    assert_eq!(classify("ID"), Command::Identify);
}

#[test]
fn classify_start_stop() {
    assert_eq!(classify("start"), Command::Subscribe);
    assert_eq!(classify("stop"), Command::Unsubscribe);
}

#[test]
fn classify_is_exact_match() {
    assert_eq!(classify("Id"), Command::Freeform);
    assert_eq!(classify("iD"), Command::Freeform);
    assert_eq!(classify(" start"), Command::Freeform);
    assert_eq!(classify("start "), Command::Freeform);
    assert_eq!(classify("startx"), Command::Freeform);
    assert_eq!(classify("STOP"), Command::Freeform);
    assert_eq!(classify(""), Command::Freeform);
    assert_eq!(classify("hello"), Command::Freeform);
}

#[test]
fn fresh_state_is_empty() {
    let s = BotState::new(1234);
    assert_eq!(s.subscribers, Vec::<u32>::new());
    assert_eq!(s.last_save, 1234);
}

#[test]
fn start_subscribes_once() {
    let mut s = BotState::new(0);
    let mut gen = RandomTextGenerator::new();
    let out = handle_event(&mut s, &mut gen, message(5, "start"), "ADDR");
    assert!(out.is_none());
    assert_eq!(s.subscribers, vec![5]);
    let out = handle_event(&mut s, &mut gen, message(5, "start"), "ADDR");
    assert!(out.is_none());
    assert_eq!(s.subscribers, vec![5]);
    let out = handle_event(&mut s, &mut gen, message(5, "stop"), "ADDR");
    assert!(out.is_none());
    assert_eq!(s.subscribers, Vec::<u32>::new());
}

#[test]
fn start_keeps_insertion_order() {
    let mut s = BotState::new(0);
    let mut gen = RandomTextGenerator::new();
    handle_event(&mut s, &mut gen, message(7, "start"), "ADDR");
    handle_event(&mut s, &mut gen, message(3, "start"), "ADDR");
    handle_event(&mut s, &mut gen, message(9, "start"), "ADDR");
    handle_event(&mut s, &mut gen, message(3, "start"), "ADDR");
    assert_eq!(s.subscribers, vec![7, 3, 9]);
}

#[test]
fn stop_removes_every_occurrence() {
    let mut s = BotState { subscribers: vec![3, 5, 3, 8, 3], last_save: 0 };
    s.unsubscribe(3);
    assert_eq!(s.subscribers, vec![5, 8]);
}

#[test]
fn stop_of_absent_peer_changes_nothing() {
    let mut s = BotState { subscribers: vec![1, 2], last_save: 0 };
    s.unsubscribe(9);
    assert_eq!(s.subscribers, vec![1, 2]);
}

#[test]
fn id_reply_is_own_address() {
    let mut s = BotState::new(0);
    let mut gen = RandomTextGenerator::new();
    for text in ["id", "ID"] {
        let out = handle_event(&mut s, &mut gen, message(5, text), "ADDR123");
        match out {
            Some(Outgoing::Send { peer, reply: Reply::Address(a) }) => {
                assert_eq!(peer, 5);
                assert_eq!(a, "ADDR123");
            },
            _ => panic!("expected exactly one address reply"),
        }
        assert_eq!(s.subscribers, Vec::<u32>::new());
    }
}

#[test]
fn freeform_draws_random_reply() {
    let mut s = BotState::new(0);
    let mut gen = RandomTextGenerator::new();
    let out = handle_event(&mut s, &mut gen, message(5, "hello"), "ADDR");
    match out {
        Some(Outgoing::Send { peer, reply: Reply::Random(bytes) }) => {
            assert_eq!(peer, 5);
            assert!(bytes.len() < 1372);
        },
        _ => panic!("expected exactly one random reply"),
    }
    assert_eq!(s.subscribers, Vec::<u32>::new());
}

#[test]
fn contact_request_is_accepted_without_reply() {
    let mut s = BotState::new(0);
    let mut gen = RandomTextGenerator::new();
    let ev = Event::ContactRequest { key: vec![1, 2, 3], text: "hi".to_string() };
    let out = handle_event(&mut s, &mut gen, ev, "ADDR");
    match out {
        Some(Outgoing::Accept { key }) => assert_eq!(key, vec![1, 2, 3]),
        _ => panic!("expected the request to be accepted"),
    }
    assert_eq!(s.subscribers, Vec::<u32>::new());
}

#[test]
fn other_events_are_ignored() {
    let mut s = BotState { subscribers: vec![4], last_save: 7 };
    let mut gen = RandomTextGenerator::new();
    let out = handle_event(&mut s, &mut gen, Event::Other, "ADDR");
    assert!(out.is_none());
    assert_eq!(s.subscribers, vec![4]);
    assert_eq!(s.last_save, 7);
}

#[test]
fn random_message_length_is_bounded() {
    let mut gen = RandomTextGenerator::new();
    for _ in 0..200 {
        let msg = gen.random_message();
        assert!(msg.len() < 1372);
    }
}

#[test]
fn payload_has_requested_length() {
    let mut gen = RandomTextGenerator::new();
    for len in [0usize, 1, 17, 1371] {
        assert_eq!(gen.payload(len).len(), len);
    }
}

#[test]
fn drawn_lengths_vary() {
    let mut gen = RandomTextGenerator::new();
    let first = gen.draw_len();
    let mut saw_other = false;
    for _ in 0..200 {
        if gen.draw_len() != first {
            saw_other = true;
        }
    }
    assert!(saw_other, "200 uniform draws from [0, 1372) all came out equal");
}

#[test]
fn broadcast_covers_subscribers_in_order() {
    let s = BotState { subscribers: vec![7, 3, 9], last_save: 0 };
    let mut gen = RandomTextGenerator::new();
    let batch = broadcast_batch(&s, &mut gen);
    assert_eq!(batch.len(), 3);
    let peers: Vec<u32> = batch.iter().map(|e| e.0).collect();
    assert_eq!(peers, vec![7, 3, 9]);
    for (_, msg) in &batch {
        assert!(msg.len() < 1372);
    }
}

#[test]
fn broadcast_of_empty_list_sends_nothing() {
    let s = BotState::new(0);
    let mut gen = RandomTextGenerator::new();
    let batch = broadcast_batch(&s, &mut gen);
    assert!(batch.is_empty());
}

#[test]
fn save_due_strictly_after_window() {
    let mut s = BotState::new(100);
    assert!(!s.persistence_tick(100));
    assert!(!s.persistence_tick(164));
    assert_eq!(s.last_save, 100);
    assert!(s.persistence_tick(165));
    assert_eq!(s.last_save, 165);
}

#[test]
fn no_second_save_within_window() {
    let mut s = BotState::new(0);
    assert!(s.persistence_tick(65));
    assert!(!s.persistence_tick(100));
    assert!(!s.persistence_tick(129));
    assert_eq!(s.last_save, 65);
    assert!(s.persistence_tick(130));
    assert_eq!(s.last_save, 130);
}

#[test]
fn failed_write_still_resets_clock() {
    // The decision layer resets the clock on every due save, whether or
    // not the write that the caller then performs succeeds.
    let mut s = BotState::new(0);
    assert!(s.persistence_tick(70));
    assert_eq!(s.last_save, 70);
    assert!(!s.persistence_tick(71));
}
