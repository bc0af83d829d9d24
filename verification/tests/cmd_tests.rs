use nu_pipes::cmds::drop::{ClosePipeCmd, NO_ERROR_ON_NOT_FOUND_FLAG};
use nu_pipes::cmds::get_pipe::{GetPipeCmd, GetPipeReceiverCmd, GetPipeSenderCmd};
use nu_pipes::cmds::list::ListPipesCmd;
use nu_pipes::cmds::new::NewPipeCmd;
use nu_pipes::cmds::recv::{ConditionArg, ReadFromPipeCmd, RecvFromPipeCmd};
use nu_pipes::cmds::write::{Delivery, WriteIntoPipeCmd, WriteStep};
use nu_pipes::cmds::read::ReadFromPipeCmd as PlainReadCmd;
use nu_pipes::{
    CommandError, ObjectRemovalResult, PipeArgValue, PipeId, PipeReaderReadCondition, PipeState,
    Pipe, PipeValue, TrySendError,
};

fn by_name(name: &str) -> Option<PipeArgValue> {
    Some(PipeArgValue { as_pipe_value: None, as_string: Some(name.to_string()) })
}

fn state_with(names: &[&str]) -> PipeState<usize> {
    let mut s = PipeState::new();
    for (i, n) in names.iter().enumerate() {
        s.new_pipe(n.to_string(), i);
    }
    s
}

#[test]
fn close_removes_the_pipe() {
    let mut s = state_with(&["a", "b"]);
    let cmd = ClosePipeCmd;
    assert_eq!(cmd.name(), "pipe close");
    assert_eq!(cmd.run(&mut s, by_name("a"), None), Ok(ObjectRemovalResult::Removed));
    assert!(!s.pipe_exists("a"));
    assert!(s.pipe_exists("b"));
}

#[test]
fn close_of_unknown_pipe_fails_unless_told_not_to() {
    let mut s = state_with(&["a"]);
    let cmd = ClosePipeCmd;
    assert_eq!(cmd.run(&mut s, by_name("zz"), None), Err(CommandError::PipeDoesNotExist));
    assert_eq!(cmd.run(&mut s, by_name("zz"), Some(false)), Err(CommandError::PipeDoesNotExist));
    assert_eq!(cmd.run(&mut s, by_name("zz"), Some(true)), Ok(ObjectRemovalResult::DoesntExist));
    assert_eq!(CommandError::PipeDoesNotExist.message(), "The pipe does not exist");
    assert_eq!(NO_ERROR_ON_NOT_FOUND_FLAG, "no-error-on-not-found");
    assert!(s.pipe_exists("a"));
}

#[test]
fn close_checks_its_argument() {
    let mut s = state_with(&["a"]);
    let cmd = ClosePipeCmd;
    assert_eq!(cmd.run(&mut s, None, None), Err(CommandError::MissingPipeArgument));
    let bad = Some(PipeArgValue { as_pipe_value: None, as_string: None });
    assert_eq!(cmd.run(&mut s, bad, None), Err(CommandError::InvalidPipeArgument));
    assert_eq!(CommandError::MissingPipeArgument.message(), "Missing pipe argument");
    assert_eq!(CommandError::InvalidPipeArgument.label(), Some("here"));
}

#[test]
fn new_registers_under_given_name_with_size() {
    let mut s: PipeState<usize> = PipeState::new();
    let cmd = NewPipeCmd;
    let v = cmd.run(&mut s, Some("p".to_string()), None, Some(5), |n| n).unwrap();
    assert_eq!(v, PipeValue::new(PipeId::new("p".to_string())));
    assert_eq!(s.get_pipe(&PipeId::new("p".to_string())), Some(&5));
    let v = cmd.run(&mut s, Some("q".to_string()), None, None, |n| n).unwrap();
    assert_eq!(s.get_pipe(&v.0), Some(&32));
}

#[test]
fn new_size_converts_as_a_cast() {
    assert_eq!(NewPipeCmd::pipe_size(None), 32);
    assert_eq!(NewPipeCmd::pipe_size(Some(7)), 7);
    assert_eq!(NewPipeCmd::pipe_size(Some(-1)), usize::MAX);
}

#[test]
fn new_on_taken_name_hands_back_existing_or_fails() {
    let mut s = state_with(&["p"]);
    let cmd = NewPipeCmd;
    assert_eq!(
        cmd.run(&mut s, Some("p".to_string()), Some(true), Some(3), |n| n),
        Err(CommandError::NameExists)
    );
    assert_eq!(s.get_pipe(&PipeId::new("p".to_string())), Some(&0));
    let v = cmd.run(&mut s, Some("p".to_string()), Some(false), Some(3), |n| n).unwrap();
    assert_eq!(v.0.as_str(), "p");
    assert_eq!(s.get_pipe(&PipeId::new("p".to_string())), Some(&0));
    let v = cmd.run(&mut s, Some("p".to_string()), None, None, |n| n).unwrap();
    assert_eq!(v.0.as_str(), "p");
    assert_eq!(s.get_pipe(&PipeId::new("p".to_string())), Some(&0));
    assert_eq!(s.list_pipes().len(), 1);
    assert_eq!(CommandError::NameExists.message(), "a pipe with that name already exists");
}

#[test]
fn new_without_name_draws_a_free_one() {
    let mut s = state_with(&["a", "b"]);
    let cmd = NewPipeCmd;
    let v = cmd.run(&mut s, None, None, None, |n| n).unwrap();
    assert!(v.0.as_str().contains('-'));
    assert_eq!(s.list_pipes().len(), 3);
    assert_eq!(s.get_pipe(&v.0), Some(&32));
}

#[test]
fn list_gives_all_names() {
    let s = state_with(&["a", "b", "c"]);
    let cmd = ListPipesCmd;
    assert_eq!(cmd.name(), "pipe list");
    let mut names = cmd.run(&s);
    names.sort();
    assert_eq!(names, vec!["a".to_string(), "b".to_string(), "c".to_string()]);
}

#[test]
fn recv_resolves_and_finishes() {
    let mut s = state_with(&["a", "b"]);
    let cmd = RecvFromPipeCmd;
    assert_eq!(cmd.name(), "pipe recv");
    let (id, p) = cmd.resolve(&s, by_name("b")).unwrap();
    assert_eq!(id.as_str(), "b");
    assert_eq!(*p, 1);
    assert_eq!(cmd.resolve(&s, by_name("zz")).unwrap_err(), CommandError::PipeNotFound);
    assert_eq!(cmd.resolve(&s, None).unwrap_err(), CommandError::MissingPipeArgument);
    assert_eq!(cmd.finish(&mut s, &id, Some("v")), Some("v"));
    assert!(s.pipe_exists("b"));
    assert_eq!(cmd.finish::<usize, &str>(&mut s, &id, None), None);
    assert!(!s.pipe_exists("b"));
    assert_eq!(CommandError::PipeNotFound.message(), "pipe does not exist or is closed");
}

#[test]
fn read_condition_from_argument() {
    let cmd = ReadFromPipeCmd;
    assert_eq!(cmd.name(), "pipe read");
    assert!(matches!(cmd.condition::<()>(ConditionArg::Int(3)), Ok(Some(PipeReaderReadCondition::Count(3)))));
    assert!(matches!(cmd.condition::<()>(ConditionArg::Int(0)), Ok(Some(PipeReaderReadCondition::Count(0)))));
    assert!(matches!(cmd.condition::<()>(ConditionArg::Int(-1)), Err(CommandError::NegativeCount)));
    assert!(matches!(cmd.condition(ConditionArg::Closure(7u8)), Ok(Some(PipeReaderReadCondition::Filter(7)))));
    assert!(matches!(cmd.condition::<()>(ConditionArg::Nothing), Ok(None)));
    assert!(matches!(cmd.condition::<()>(ConditionArg::Other), Err(CommandError::InvalidCondition)));
    assert_eq!(CommandError::NegativeCount.message(), "Condition number cant be negative");
    assert_eq!(CommandError::InvalidCondition.message(), "Condition has invalid type.");
}

#[test]
fn read_resolves_pipe() {
    let s = state_with(&["a"]);
    assert_eq!(*ReadFromPipeCmd.resolve(&s, by_name("a")).unwrap().1, 0);
    assert_eq!(*PlainReadCmd.resolve(&s, by_name("a")).unwrap().1, 0);
    assert_eq!(PlainReadCmd.resolve(&s, by_name("x")).unwrap_err(), CommandError::PipeNotFound);
}

#[test]
fn write_steps_follow_send_outcome() {
    let cmd = WriteIntoPipeCmd;
    assert_eq!(cmd.name(), "pipe write");
    assert!(matches!(cmd.after_send::<u8>(Ok(())), WriteStep::Sent));
    assert!(matches!(cmd.after_send(Err(TrySendError::Full(4u8))), WriteStep::Wait(4)));
    assert!(matches!(
        cmd.after_send(Err(TrySendError::Disconnected(4u8))),
        WriteStep::Failed(CommandError::WriteFailed)
    ));
    let s = state_with(&["w"]);
    assert_eq!(*cmd.resolve(&s, by_name("w")).unwrap().1, 0);
}

#[test]
fn get_commands_check_name_and_existence() {
    let s = state_with(&["a"]);
    assert_eq!(GetPipeCmd.run(&s, Some(Some("a".to_string()))).unwrap().0.as_str(), "a");
    assert_eq!(GetPipeCmd.run(&s, None).unwrap_err(), CommandError::MissingNameArgument);
    assert_eq!(GetPipeCmd.run(&s, Some(None)).unwrap_err(), CommandError::NameNotString);
    assert_eq!(GetPipeCmd.run(&s, Some(Some("b".to_string()))).unwrap_err(), CommandError::PipeGone);
    assert_eq!(GetPipeSenderCmd.run(&s, Some(Some("a".to_string()))).unwrap().0.as_str(), "a");
    assert_eq!(GetPipeReceiverCmd.run(&s, Some(Some("a".to_string()))).unwrap().0.as_str(), "a");
    assert_eq!(CommandError::MissingNameArgument.label(), Some("this motherfucker"));
    assert_eq!(GetPipeReceiverCmd.name(), "pipe get --receiver");
}

#[test]
fn rendezvous_write_completes_when_taken() {
    let cmd = WriteIntoPipeCmd;
    let mut p: Pipe<u8> = Pipe::new(0);
    let ticket = p.taken();
    assert!(p.try_send(9).is_ok());
    assert_eq!(cmd.delivery(&p, ticket), Delivery::Pending);
    assert_eq!(p.recv().unwrap(), 9);
    assert_eq!(cmd.delivery(&p, ticket), Delivery::Delivered);

    let mut q: Pipe<u8> = Pipe::new(0);
    let ticket = q.taken();
    assert!(q.try_send(1).is_ok());
    q.release_receiver();
    assert_eq!(cmd.delivery(&q, ticket), Delivery::Lost);

    let mut b: Pipe<u8> = Pipe::new(4);
    let ticket = b.taken();
    assert!(b.try_send(1).is_ok());
    assert_eq!(cmd.delivery(&b, ticket), Delivery::Delivered);
}

#[test]
fn new_without_name_on_empty_registry_succeeds() {
    let mut s: PipeState<usize> = PipeState::new();
    let v = NewPipeCmd.run(&mut s, None, None, Some(4), |n| n).unwrap();
    let words: Vec<&str> = v.0.as_str().split('-').collect();
    assert_eq!(words.len(), 2);
    assert_eq!(s.get_pipe(&v.0), Some(&4));
}

#[test]
fn read_checks_pipe_argument_before_condition() {
    let s = state_with(&["a"]);
    let cmd = ReadFromPipeCmd;
    assert!(matches!(
        cmd.run::<usize, ()>(&s, None, ConditionArg::Int(-1)),
        Err(CommandError::MissingPipeArgument)
    ));
    let bad = Some(PipeArgValue { as_pipe_value: None, as_string: None });
    assert!(matches!(
        cmd.run::<usize, ()>(&s, bad, ConditionArg::Other),
        Err(CommandError::InvalidPipeArgument)
    ));
    assert!(matches!(
        cmd.run::<usize, ()>(&s, by_name("zz"), ConditionArg::Int(-1)),
        Err(CommandError::NegativeCount)
    ));
    assert!(matches!(
        cmd.run::<usize, ()>(&s, by_name("zz"), ConditionArg::Int(2)),
        Err(CommandError::PipeNotFound)
    ));
    match cmd.run::<usize, ()>(&s, by_name("a"), ConditionArg::Int(2)) {
        Ok((id, p, Some(PipeReaderReadCondition::Count(2)))) => {
            assert_eq!(id.as_str(), "a");
            assert_eq!(*p, 0);
        }
        _ => panic!("expected a count read of pipe a"),
    }
    assert!(matches!(cmd.run::<usize, ()>(&s, by_name("a"), ConditionArg::Nothing), Ok((_, _, None))));
}
