use nu_pipes::{Channel, PeekableReceiver, Pipe, TryRecvError, TrySendError, DEFAULT_PIPE_SIZE};

#[test]
fn channel_is_first_in_first_out() {
    let mut ch: Channel<u32> = Channel::new(4);
    assert!(ch.try_send(1).is_ok());
    assert!(ch.try_send(2).is_ok());
    assert!(ch.try_send(3).is_ok());
    assert_eq!(ch.len(), 3);
    assert_eq!(ch.try_recv().unwrap(), 1);
    assert_eq!(ch.try_recv().unwrap(), 2);
    assert_eq!(ch.try_recv().unwrap(), 3);
    assert_eq!(ch.try_recv().unwrap_err(), TryRecvError::Empty);
    assert_eq!(ch.taken(), 3);
}

#[test]
fn channel_refuses_when_full() {
    let mut ch: Channel<u32> = Channel::new(2);
    assert!(ch.try_send(1).is_ok());
    assert!(ch.try_send(2).is_ok());
    match ch.try_send(3) {
        Err(TrySendError::Full(v)) => assert_eq!(v, 3),
        other => panic!("expected Full, got {:?}", other),
    }
    assert_eq!(ch.len(), 2);
    assert_eq!(ch.try_recv().unwrap(), 1);
    assert!(ch.try_send(3).is_ok());
    assert_eq!(ch.try_recv().unwrap(), 2);
    assert_eq!(ch.try_recv().unwrap(), 3);
}

#[test]
fn rendezvous_channel_holds_one_value() {
    let mut ch: Channel<&str> = Channel::new(0);
    assert_eq!(ch.capacity(), 0);
    assert!(ch.try_send("a").is_ok());
    match ch.try_send("b") {
        Err(TrySendError::Full(v)) => assert_eq!(v, "b"),
        other => panic!("expected Full, got {:?}", other),
    }
    assert_eq!(ch.taken(), 0);
    assert_eq!(ch.try_recv().unwrap(), "a");
    assert_eq!(ch.taken(), 1);
}

#[test]
fn channel_without_reader_hands_value_back() {
    let mut ch: Channel<u8> = Channel::new(8);
    ch.remove_receiver();
    assert_eq!(ch.receivers(), 0);
    match ch.try_send(7) {
        Err(TrySendError::Disconnected(v)) => assert_eq!(v, 7),
        other => panic!("expected Disconnected, got {:?}", other),
    }
    assert_eq!(ch.len(), 0);
}

#[test]
fn channel_without_writer_drains_then_disconnects() {
    let mut ch: Channel<u8> = Channel::new(8);
    assert!(ch.try_send(1).is_ok());
    ch.remove_sender();
    assert_eq!(ch.senders(), 0);
    assert_eq!(ch.try_recv().unwrap(), 1);
    assert_eq!(ch.try_recv().unwrap_err(), TryRecvError::Disconnected);
    ch.add_sender();
    assert_eq!(ch.try_recv().unwrap_err(), TryRecvError::Empty);
}

#[test]
fn peek_does_not_consume() {
    let mut ch: Channel<u32> = Channel::new(3);
    assert!(ch.try_send(10).is_ok());
    assert!(ch.try_send(20).is_ok());
    let mut rx = PeekableReceiver::new(ch);
    assert_eq!(*rx.peek().unwrap(), 10);
    assert_eq!(*rx.peek().unwrap(), 10);
    assert_eq!(rx.recv().unwrap(), 10);
    assert_eq!(rx.recv().unwrap(), 20);
    assert_eq!(rx.peek().unwrap_err(), TryRecvError::Empty);
    assert_eq!(rx.recv().unwrap_err(), TryRecvError::Empty);
}

#[test]
fn pipe_counts_endpoints() {
    let mut p: Pipe<u32> = Pipe::new(DEFAULT_PIPE_SIZE);
    assert_eq!(p.capacity(), 32);
    assert_eq!(p.writers(), 1);
    assert_eq!(p.readers(), 1);
    p.get_writer();
    p.get_receiver();
    assert_eq!(p.writers(), 2);
    assert_eq!(p.readers(), 2);
    p.release_writer();
    p.release_receiver();
    assert_eq!(p.writers(), 1);
    assert_eq!(p.readers(), 1);
}

#[test]
fn closed_pipe_keeps_values_for_attached_readers() {
    let mut p: Pipe<&str> = Pipe::new(4);
    p.get_receiver();
    assert!(p.try_send("x").is_ok());
    assert!(p.try_send("y").is_ok());
    // the registry lets go of the pipe
    p.release_writer();
    p.release_receiver();
    assert_eq!(p.recv().unwrap(), "x");
    assert_eq!(*p.peek().unwrap(), "y");
    assert_eq!(p.recv().unwrap(), "y");
    assert_eq!(p.recv().unwrap_err(), TryRecvError::Disconnected);
    assert_eq!(p.taken(), 2);
}

#[test]
fn pipe_with_no_reader_refuses_writes() {
    let mut p: Pipe<i32> = Pipe::new(4);
    p.release_receiver();
    assert!(matches!(p.try_send(5), Err(TrySendError::Disconnected(5))));
}
