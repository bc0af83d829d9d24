use nu_pipes::{ObjectRemovalResult, PipeId, PipeState, PipeValue, GetsPipe, PipeReaderValue};

#[test]
fn registry_starts_empty() {
    let s: PipeState<u32> = PipeState::new();
    assert!(!s.pipe_exists("a"));
    assert!(s.list_pipes().is_empty());
}

#[test]
fn new_pipe_registers_and_returns_id() {
    let mut s: PipeState<u32> = PipeState::new();
    let id = s.new_pipe("alpha".to_string(), 1);
    assert_eq!(id, PipeId::new("alpha".to_string()));
    assert!(s.pipe_exists("alpha"));
    assert_eq!(s.get_pipe(&id), Some(&1));
    assert_eq!(s.get_pipe_value(&id), Some(PipeValue::new(id.clone())));
    assert!(!s.pipe_exists("beta"));
    assert_eq!(s.get_pipe(&PipeId::new("beta".to_string())), None);
    assert_eq!(s.get_pipe_value(&PipeId::new("beta".to_string())), None);
}

#[test]
fn new_pipe_replaces_existing_pipe() {
    let mut s: PipeState<u32> = PipeState::new();
    s.new_pipe("a".to_string(), 1);
    s.new_pipe("b".to_string(), 2);
    s.new_pipe("a".to_string(), 3);
    let a = PipeId::new("a".to_string());
    assert_eq!(s.get_pipe(&a), Some(&3));
    assert_eq!(s.get_pipe(&PipeId::new("b".to_string())), Some(&2));
    assert_eq!(s.list_pipes().len(), 2);
}

#[test]
fn drop_pipe_reports_what_it_found() {
    let mut s: PipeState<u32> = PipeState::new();
    s.new_pipe("a".to_string(), 1);
    s.new_pipe("b".to_string(), 2);
    let a = PipeId::new("a".to_string());
    assert_eq!(s.drop_pipe(&a), ObjectRemovalResult::Removed);
    assert!(!s.pipe_exists("a"));
    assert!(s.pipe_exists("b"));
    assert_eq!(s.drop_pipe(&a), ObjectRemovalResult::DoesntExist);
    assert_eq!(s.get_pipe(&PipeId::new("b".to_string())), Some(&2));
}

#[test]
fn list_pipes_names_each_pipe_once() {
    let mut s: PipeState<u8> = PipeState::new();
    s.new_pipe("x".to_string(), 0);
    s.new_pipe("y".to_string(), 0);
    s.new_pipe("x".to_string(), 1);
    s.new_pipe("z".to_string(), 0);
    s.drop_pipe(&PipeId::new("y".to_string()));
    let mut names: Vec<String> = s.list_pipes().into_iter().map(|p| p.as_str().to_string()).collect();
    names.sort();
    assert_eq!(names, vec!["x".to_string(), "z".to_string()]);
}

#[test]
fn from_removed_tells_presence() {
    assert_eq!(ObjectRemovalResult::from_removed(Some(3)), ObjectRemovalResult::Removed);
    assert_eq!(ObjectRemovalResult::from_removed::<u8>(None), ObjectRemovalResult::DoesntExist);
}

#[test]
fn handles_designate_their_pipe() {
    let id = PipeId::new("p".to_string());
    let v = PipeValue::new(id.clone());
    assert_eq!(v.pipe_id(), &id);
    let r = PipeReaderValue(id.clone());
    assert_eq!(r.pipe_id(), &id);
    assert_eq!(v.clone(), v);
    assert_eq!(id.as_str(), "p");
}
