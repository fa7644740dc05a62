use mpsc_channel::channel;

#[test]
fn ping_pong() {
    let (mut sender, mut receiver) = channel();
    sender.send(3);
    assert_eq!(receiver.recv(), Some(3));
}

#[test]
fn closed_tx() {
    let (sender, mut receiver) = channel::<()>();
    drop(sender);
    assert_eq!(receiver.recv(), None);
}

#[test]
fn iterate() {
    let (mut sender, mut receiver) = channel();
    sender.send(1);
    sender.send(2);
    assert_eq!(receiver.next(), Some(1));
    assert_eq!(receiver.next(), Some(2));
    drop(sender);
    assert_eq!(receiver.next(), None);
}

#[test]
fn single_sender_order() {
    let (mut sender, mut receiver) = channel();
    sender.send(10);
    sender.send(20);
    sender.send(30);
    sender.send(40);
    drop(sender);
    assert_eq!(receiver.recv(), Some(10));
    assert_eq!(receiver.recv(), Some(20));
    assert_eq!(receiver.recv(), Some(30));
    assert_eq!(receiver.recv(), Some(40));
    assert_eq!(receiver.recv(), None);
}

#[test]
fn drain_before_close() {
    let (mut sender, mut receiver) = channel();
    let n: usize = 5;
    for i in 0..n {
        sender.send(i);
    }
    drop(sender);
    let mut delivered: usize = 0;
    while let Some(i) = receiver.recv() {
        assert_eq!(i, delivered);
        delivered += 1;
    }
    assert_eq!(delivered, n);
}

#[test]
fn end_stays_end() {
    let (mut sender, mut receiver) = channel();
    sender.send(1);
    sender.send(2);
    assert_eq!(receiver.next(), Some(1));
    assert_eq!(receiver.next(), Some(2));
    drop(sender);
    assert_eq!(receiver.next(), None);
    assert_eq!(receiver.next(), None);
    assert_eq!(receiver.recv(), None);
}

#[test]
fn burst_drains_through_buffer() {
    let (mut sender, mut receiver) = channel();
    sender.send('a');
    sender.send('b');
    sender.send('c');
    // The first delivery moves the rest of the shared queue into the
    // receiver's private buffer; an item sent afterwards must still come
    // out behind the buffered ones.
    assert_eq!(receiver.recv(), Some('a'));
    sender.send('d');
    assert_eq!(receiver.recv(), Some('b'));
    assert_eq!(receiver.recv(), Some('c'));
    assert_eq!(receiver.recv(), Some('d'));
    drop(sender);
    assert_eq!(receiver.recv(), None);
}

#[test]
fn clone_keeps_channel_open() {
    let (sender, mut receiver) = channel();
    let mut second = sender.clone();
    drop(sender);
    second.send(7);
    assert_eq!(receiver.recv(), Some(7));
    drop(second);
    assert_eq!(receiver.recv(), None);
}

#[test]
fn two_producers_interleaved() {
    let (mut first, mut receiver) = channel();
    let mut second = first.clone();
    first.send(1);
    second.send(2);
    first.send(3);
    drop(first);
    drop(second);
    assert_eq!(receiver.recv(), Some(1));
    assert_eq!(receiver.recv(), Some(2));
    assert_eq!(receiver.recv(), Some(3));
    assert_eq!(receiver.recv(), None);
}

#[test]
fn owned_items_move_through() {
    let (mut sender, mut receiver) = channel();
    sender.send(String::from("first"));
    sender.send(String::from("second"));
    drop(sender);
    assert_eq!(receiver.recv().as_deref(), Some("first"));
    assert_eq!(receiver.recv().as_deref(), Some("second"));
    assert_eq!(receiver.recv(), None);
}

#[test]
fn send_without_receiver_is_fine() {
    let (mut sender, receiver) = channel();
    drop(receiver);
    sender.send(5);
    sender.send(6);
}
