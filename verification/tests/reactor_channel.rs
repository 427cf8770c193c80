use simple_reactor::reactor_channel::{Receiver, Sender};

#[test]
fn take_all_gives_signals_in_sending_order_and_empties() {
    let mut receiver: Receiver<u32> = Receiver::new(Vec::new());
    let sender = Sender::new(7);
    for signal in [3u32, 1, 4, 1, 5, 9, 2, 6] {
        sender.send(&mut receiver, signal, 8);
    }
    assert_eq!(receiver.take_all(), vec![3, 1, 4, 1, 5, 9, 2, 6]);
    assert_eq!(receiver.take_all(), Vec::<u32>::new());
    sender.send(&mut receiver, 10, 8);
    assert_eq!(receiver.take_all(), vec![10]);
}

#[test]
fn receiver_starts_with_what_it_is_given() {
    let mut receiver = Receiver::new(vec!["a", "b"]);
    Sender::new(0).send(&mut receiver, "c", 0);
    assert_eq!(receiver.queue, vec!["a", "b", "c"]);
    assert_eq!(receiver.take_all(), vec!["a", "b", "c"]);
    assert!(receiver.queue.is_empty());
}

#[test]
fn no_wake_from_the_reactor_thread() {
    let mut receiver: Receiver<u8> = Receiver::new(Vec::new());
    let sender = Sender::new(42);
    assert!(!sender.send(&mut receiver, 1, 42));
    assert!(sender.send(&mut receiver, 2, 43));
    assert!(sender.send(&mut receiver, 3, 0));
    assert_eq!(receiver.take_all(), vec![1, 2, 3]);
    let copy = sender;
    assert!(!copy.send(&mut receiver, 4, 42));
}
