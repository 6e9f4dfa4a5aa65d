use std::sync::Arc;

use futures::channel::mpsc;
use shaved_iced::{announce, broadcast, deliver, ready_sender, receive, FanOut};
use shaved_iced::{Error, Message, SendFailure, Sender};

fn fresh<T>() -> (Sender<T>, mpsc::UnboundedReceiver<T>) {
    let (tx, rx) = mpsc::unbounded();
    (Sender::from_channel(tx), rx)
}

#[test]
fn announce_emits_ready_then_stops() {
    let (sender, mut rx) = fresh::<u32>();
    let step = announce(Some(sender));
    let (message, next) = step.expect("a pending sender is announced");
    assert!(next.is_none());
    match message {
        Message::Ready(mut announced) => {
            assert_eq!(announced.start_send(7), Ok(()));
            assert_eq!(rx.try_next().unwrap(), Some(7));
        }
        Message::Update(_) => panic!("expected Ready"),
    }
    assert!(announce::<u32>(next).is_none());
}

#[test]
fn announce_without_pending_sender_stops() {
    assert!(announce::<u32>(None).is_none());
}

#[test]
fn receive_updates_state_before_forwarding() {
    let update = |total: &mut u64, m: u64| *total += m;
    let mut total: u64 = 10;
    let forwarded = receive(&mut total, &update, 5u64);
    assert_eq!(total, 15);
    assert_eq!(*forwarded, 5);
    let forwarded = receive(&mut total, &update, 2u64);
    assert_eq!(total, 17);
    assert_eq!(*forwarded, 2);
}

#[test]
fn receive_hands_update_a_copy_of_the_message() {
    let update = |log: &mut Vec<String>, m: String| log.push(m);
    let mut log: Vec<String> = Vec::new();
    let forwarded: Arc<String> = receive(&mut log, &update, "ping".to_string());
    assert_eq!(log, vec!["ping".to_string()]);
    assert_eq!(forwarded.as_str(), "ping");
}

#[test]
fn deliver_feeds_back_and_updates() {
    let (mut sender, mut rx) = fresh::<&'static str>();
    let out = deliver(&mut sender, "pong");
    assert!(matches!(out, Some(Message::Update("pong"))));
    assert_eq!(rx.try_next().unwrap(), Some("pong"));
}

#[test]
fn deliver_on_closed_channel_still_updates() {
    let (mut sender, rx) = fresh::<u8>();
    drop(rx);
    let out = deliver(&mut sender, 3);
    assert!(matches!(out, Some(Message::Update(3))));
}

#[test]
fn ready_sender_accepts_ready() {
    let (sender, mut rx) = fresh::<u8>();
    let result = ready_sender(Some(Message::Ready(sender)));
    let mut got = result.expect("Ready connects");
    assert_eq!(got.start_send(9), Ok(()));
    assert_eq!(rx.try_next().unwrap(), Some(9));
}

#[test]
fn ready_sender_rejects_update() {
    let result = ready_sender(Some(Message::Update(1u8)));
    assert!(matches!(result, Err(Error::ConnectionFailed)));
}

#[test]
fn ready_sender_rejects_missing_message() {
    let result = ready_sender::<u8>(None);
    assert!(matches!(result, Err(Error::ConnectionFailed)));
}

#[test]
fn error_message_text() {
    assert_eq!(Error::ConnectionFailed.message(), "connection failed");
}

#[test]
fn start_send_fails_once_receiver_is_gone() {
    let (mut sender, rx) = fresh::<u8>();
    assert_eq!(sender.start_send(1), Ok(()));
    drop(rx);
    assert_eq!(sender.start_send(2), Err(SendFailure));
}

#[test]
fn into_channel_gives_back_the_same_channel() {
    let (sender, mut rx) = fresh::<u8>();
    let mut raw = sender.into_channel();
    raw.start_send(4).unwrap();
    assert_eq!(rx.try_next().unwrap(), Some(4));
}

#[test]
fn broadcast_reaches_both_operators() {
    let (tx_a, mut rx_a) = mpsc::unbounded::<u32>();
    let (tx_b, mut rx_b) = mpsc::unbounded::<u32>();
    let mut fanout = FanOut::new(tx_a, tx_b);
    let out: Option<Option<String>> = broadcast(&mut fanout, 11u32);
    assert_eq!(out, Some(None));
    assert_eq!(rx_a.try_next().unwrap(), Some(11));
    assert_eq!(rx_b.try_next().unwrap(), Some(11));
}

#[test]
fn connection_stream_is_ready_then_updates() {
    let (sender, mut rx) = fresh::<u32>();
    let mut feedback = sender.clone();
    let mut stream: Vec<Message<u32>> = Vec::new();
    let mut pending = Some(sender);
    while let Some((message, next)) = announce(pending) {
        stream.push(message);
        pending = next;
    }
    for output in [1u32, 2, 3] {
        if let Some(message) = deliver(&mut feedback, output) {
            stream.push(message);
        }
    }
    assert_eq!(stream.len(), 4);
    assert!(matches!(stream[0], Message::Ready(_)));
    assert!(matches!(stream[1], Message::Update(1)));
    assert!(matches!(stream[2], Message::Update(2)));
    assert!(matches!(stream[3], Message::Update(3)));
    assert_eq!(rx.try_next().unwrap(), Some(1));
    assert_eq!(rx.try_next().unwrap(), Some(2));
    assert_eq!(rx.try_next().unwrap(), Some(3));
    let first = stream.into_iter().next();
    assert!(ready_sender(first).is_ok());
}

#[test]
fn send_outcome_reads_the_channel_answer() {
    let (mut raw, rx) = mpsc::unbounded::<u8>();
    assert_eq!(shaved_iced::send_outcome(raw.start_send(1)), Ok(()));
    drop(rx);
    assert_eq!(shaved_iced::send_outcome(raw.start_send(2)), Err(SendFailure));
}

#[test]
fn broadcast_keeps_order_for_both_operators() {
    let (tx_a, mut rx_a) = mpsc::unbounded::<u32>();
    let (tx_b, mut rx_b) = mpsc::unbounded::<u32>();
    let mut fanout = FanOut::new(tx_a, tx_b);
    for item in [1u32, 2, 3] {
        let out: Option<Option<u8>> = broadcast(&mut fanout, item);
        assert_eq!(out, Some(None));
    }
    for expected in [1u32, 2, 3] {
        assert_eq!(rx_a.try_next().unwrap(), Some(expected));
        assert_eq!(rx_b.try_next().unwrap(), Some(expected));
    }
}

#[test]
fn broadcast_skips_second_once_first_is_gone() {
    let (tx_a, rx_a) = mpsc::unbounded::<u32>();
    let (tx_b, mut rx_b) = mpsc::unbounded::<u32>();
    drop(rx_a);
    let mut fanout = FanOut::new(tx_a, tx_b);
    let out: Option<Option<u8>> = broadcast(&mut fanout, 5u32);
    assert_eq!(out, Some(None));
    assert!(rx_b.try_next().is_err());
}

#[test]
fn receive_folds_messages_in_order() {
    let update = |s: &mut Vec<u32>, m: u32| s.push(m);
    let mut state: Vec<u32> = vec![0];
    for m in [4u32, 5, 6] {
        let forwarded = receive(&mut state, &update, m);
        assert_eq!(*forwarded, m);
    }
    assert_eq!(state, vec![0, 4, 5, 6]);
}

#[test]
fn feedback_reaches_the_operator_input_after_updating_state() {
    let (sender, mut rx) = fresh::<i32>();
    let mut feedback = sender.clone();
    let update = |s: &mut i32, t: i32| *s += t;
    let mut state: i32 = 0;
    let mut updates: Vec<i32> = Vec::new();
    let mut next_output = 1;
    for _ in 0..3 {
        if let Some(Message::Update(v)) = deliver(&mut feedback, next_output) {
            updates.push(v);
        }
        let fed_back = rx.try_next().unwrap().expect("output was fed back");
        let seen = receive(&mut state, &update, fed_back);
        next_output = *seen + 1;
    }
    assert_eq!(updates, vec![1, 2, 3]);
    assert_eq!(state, 6);
}
