use mpsc::channel;
use mpsc::text::DebugError;
use std::fmt;

struct Unshowable;

impl fmt::Debug for Unshowable {
    fn fmt(&self, _f: &mut fmt::Formatter<'_>) -> fmt::Result {
        Err(fmt::Error)
    }
}

#[test]
fn ping_pong() {
    let (tx, mut rx) = channel::<usize>();
    tx.send(43);
    let tx2 = tx.clone();
    tx2.send(434);
    tx.send(4399);
    drop(tx2);
    let result1 = rx.receive();
    let result2 = rx.receive();
    assert_eq!(result1, Some(43));
    assert_eq!(result2, Some(434));
}

#[test]
fn drop_tx() {
    let (tx, mut rx) = channel::<usize>();
    println!("tx {}", tx.to_string().unwrap());
    let tx2 = tx.clone();
    tx2.send(443);
    println!("num senders1 {}", rx.to_string().unwrap());
    drop(tx);
    println!("num senders2 {}", rx.to_string().unwrap());
    tx2.send(4434);
    println!("num senders2 {}", rx.to_string().unwrap());
    drop(tx2);
    println!("num senders3 {}", rx.to_string().unwrap());
    let result1 = rx.receive();
    assert_eq!(result1, Some(443));
    let result2 = rx.receive();
    assert_eq!(result2, Some(4434));
    let result3 = rx.receive();
    assert_eq!(result3, None);
}

#[test]
fn third_message_of_ping_pong_is_still_queued() {
    let (tx, mut rx) = channel::<usize>();
    tx.send(43);
    let tx2 = tx.clone();
    tx2.send(434);
    tx.send(4399);
    drop(tx2);
    assert_eq!(rx.receive(), Some(43));
    assert_eq!(rx.receive(), Some(434));
    assert_eq!(rx.receive(), Some(4399));
    drop(tx);
    assert_eq!(rx.receive(), None);
}

#[test]
fn one_producer_is_received_in_order() {
    let (tx, mut rx) = channel::<u32>();
    for msg in 0..1000u32 {
        tx.send(msg);
    }
    for msg in 0..1000u32 {
        assert_eq!(rx.receive(), Some(msg));
    }
}

#[test]
fn closed_channel_answers_at_once_and_again() {
    let (tx, mut rx) = channel::<String>();
    drop(tx);
    assert_eq!(rx.receive(), None);
    assert_eq!(rx.receive(), None);
}

#[test]
fn queued_messages_come_before_the_closed_answer() {
    let (tx, mut rx) = channel::<String>();
    tx.send(String::from("last words"));
    drop(tx);
    assert_eq!(rx.receive(), Some(String::from("last words")));
    assert_eq!(rx.receive(), None);
}

#[test]
fn clone_keeps_the_channel_open_when_the_first_handle_goes() {
    let (tx, mut rx) = channel::<u8>();
    let tx2 = tx.clone();
    drop(tx);
    assert_eq!(rx.to_string().unwrap(), "Sender: 1, Deque: []");
    tx2.send(1);
    assert_eq!(rx.receive(), Some(1));
    assert_eq!(rx.to_string().unwrap(), "Sender: 1, Deque: []");
    drop(tx2);
    assert_eq!(rx.to_string().unwrap(), "Sender: 0, Deque: []");
    assert_eq!(rx.receive(), None);
}

#[test]
fn every_clone_is_counted() {
    let (tx, rx) = channel::<u8>();
    let clones: Vec<_> = (0..5).map(|_| tx.clone()).collect();
    assert_eq!(tx.to_string().unwrap(), "Sender: 6, Deque: []");
    drop(clones);
    assert_eq!(rx.to_string().unwrap(), "Sender: 1, Deque: []");
}

#[test]
fn both_handles_describe_the_same_channel() {
    let (tx, rx) = channel::<usize>();
    assert_eq!(tx.to_string().unwrap(), "Sender: 1, Deque: []");
    let tx2 = tx.clone();
    tx2.send(443);
    assert_eq!(tx.to_string().unwrap(), "Sender: 2, Deque: [443]");
    assert_eq!(tx2.to_string().unwrap(), "Sender: 2, Deque: [443]");
    assert_eq!(rx.to_string().unwrap(), "Sender: 2, Deque: [443]");
    tx.send(4434);
    assert_eq!(rx.to_string().unwrap(), "Sender: 2, Deque: [443, 4434]");
}

#[test]
fn channels_do_not_share_state() {
    let (tx_a, mut rx_a) = channel::<u8>();
    let (tx_b, mut rx_b) = channel::<u8>();
    tx_a.send(1);
    tx_b.send(2);
    drop(tx_a);
    assert_eq!(rx_b.receive(), Some(2));
    assert_eq!(rx_a.receive(), Some(1));
    assert_eq!(rx_a.receive(), None);
    assert_eq!(rx_b.to_string().unwrap(), "Sender: 1, Deque: []");
}

#[test]
fn send_after_the_consumer_is_gone_is_accepted() {
    let (tx, rx) = channel::<u8>();
    drop(rx);
    tx.send(1);
    assert_eq!(tx.to_string().unwrap(), "Sender: 1, Deque: [1]");
}

#[test]
fn messages_are_moved_not_copied() {
    let (tx, mut rx) = channel::<Vec<u8>>();
    tx.send(vec![1, 2, 3]);
    let received = rx.receive().unwrap();
    assert_eq!(received, vec![1, 2, 3]);
    assert_eq!(rx.to_string().unwrap(), "Sender: 1, Deque: []");
}

#[test]
fn handles_hand_on_the_error_of_a_debug_impl() {
    let (tx, mut rx) = channel::<Unshowable>();
    tx.send(Unshowable);
    assert_eq!(tx.to_string(), Err(DebugError));
    assert_eq!(rx.to_string(), Err(DebugError));
    assert!(rx.receive().is_some());
    assert_eq!(rx.to_string().unwrap(), "Sender: 1, Deque: []");
}
