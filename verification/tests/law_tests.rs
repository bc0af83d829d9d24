use nu_pipes::{CommandError, Pipe, PipeId, PipeState, TrySendError};

#[test]
fn reads_give_back_writes_in_order() {
    let mut p: Pipe<u32> = Pipe::new(3);
    let mut written = Vec::new();
    let mut read = Vec::new();
    for round in 0..5u32 {
        for k in 0..3u32 {
            let v = round * 10 + k;
            match p.try_send(v) {
                Ok(()) => written.push(v),
                Err(TrySendError::Full(_)) => {}
                Err(TrySendError::Disconnected(_)) => panic!("reader is attached"),
            }
        }
        if round % 2 == 0 {
            read.push(p.recv().unwrap());
        }
    }
    while let Ok(v) = p.recv() {
        read.push(v);
    }
    assert_eq!(read, written);
}

#[test]
fn a_pipe_holds_at_most_its_size() {
    let mut p: Pipe<u8> = Pipe::new(2);
    assert!(p.try_send(1).is_ok());
    assert!(p.try_send(2).is_ok());
    assert!(matches!(p.try_send(3), Err(TrySendError::Full(3))));
    // a peek moves one value out of the buffer, which makes room for one more
    assert_eq!(*p.peek().unwrap(), 1);
    assert!(p.try_send(3).is_ok());
    assert!(matches!(p.try_send(4), Err(TrySendError::Full(4))));
}

#[test]
fn creating_then_closing_leaves_the_rest() {
    let mut s: PipeState<u8> = PipeState::new();
    s.new_pipe("keep".to_string(), 1);
    let id = s.new_pipe("tmp".to_string(), 2);
    s.drop_pipe(&id);
    assert!(!s.pipe_exists("tmp"));
    assert_eq!(s.get_pipe(&PipeId::new("keep".to_string())), Some(&1));
    assert_eq!(s.list_pipes().len(), 1);
}

#[test]
fn every_error_has_its_message() {
    assert_eq!(CommandError::NoFreeName.message(), "failed to create a name");
    assert_eq!(CommandError::NameNotString.message(), "name arg is not a string");
    assert_eq!(
        CommandError::PipeGone.message(),
        "pipe with that name either does not exist or has been closed"
    );
    assert_eq!(
        CommandError::WriteFailed.message(),
        "something happened. Probably the pipe was closed somewhere."
    );
    assert_eq!(CommandError::WriteFailed.label(), None);
}

#[test]
fn pipes_live_until_closed() {
    let mut s: PipeState<u8> = PipeState::new();
    let keep = s.new_pipe("keep".to_string(), 7);
    for i in 0..5u8 {
        let other = s.new_pipe(format!("other{}", i), i);
        assert!(s.pipe_exists("keep"));
        let _ = s.list_pipes();
        let _ = s.get_pipe_value(&keep);
        if i % 2 == 0 {
            s.drop_pipe(&other);
        }
    }
    assert_eq!(s.get_pipe(&keep), Some(&7));
    s.drop_pipe(&keep);
    assert!(!s.pipe_exists("keep"));
}
