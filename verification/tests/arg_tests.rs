use nu_pipes::{
    pipe_arg_from_value, pipe_arg_type, PipeArgAllowedTypes, PipeArgError, PipeArgType,
    PipeArgValue, PipeId, PipeValue,
};

fn handle(name: &str) -> PipeValue {
    PipeValue::new(PipeId::new(name.to_string()))
}

#[test]
fn all_accepts_handles_and_strings() {
    let all = PipeArgAllowedTypes::all();
    assert!(all.full && all.string);
    let by_string = PipeArgValue { as_pipe_value: None, as_string: Some("s".to_string()) };
    assert_eq!(pipe_arg_from_value(by_string, &all).unwrap().as_str(), "s");
    let by_handle = PipeArgValue { as_pipe_value: Some(handle("h")), as_string: None };
    assert_eq!(pipe_arg_from_value(by_handle, &all).unwrap().as_str(), "h");
}

#[test]
fn handle_wins_over_string() {
    let both = PipeArgValue { as_pipe_value: Some(handle("h")), as_string: Some("s".to_string()) };
    assert_eq!(PipeArgAllowedTypes::all().parse_value(both).unwrap().as_str(), "h");
}

#[test]
fn typed_refuses_plain_strings() {
    let typed = PipeArgAllowedTypes::all().only_typed();
    assert!(typed.full && !typed.string);
    let by_string = PipeArgValue { as_pipe_value: None, as_string: Some("s".to_string()) };
    assert_eq!(typed.parse_value(by_string).unwrap_err(), PipeArgError::NotAPipe);
    assert_eq!(typed.arg_type(), vec![PipeArgType::PipeValue]);
}

#[test]
fn neither_is_an_error() {
    let none = PipeArgValue { as_pipe_value: None, as_string: None };
    let err = pipe_arg_from_value(none, &PipeArgAllowedTypes::all()).unwrap_err();
    assert_eq!(err, PipeArgError::NotAPipe);
    assert_eq!(err.message(), "argument is not a valid pipe input");
    assert_eq!(err.label(), "here");
}

#[test]
fn readers_and_writers_change_nothing() {
    let all = PipeArgAllowedTypes::all();
    assert_eq!(all.only_readers(), all);
    assert_eq!(all.only_writers(), all);
}

#[test]
fn arg_types_in_order() {
    assert_eq!(
        pipe_arg_type(&PipeArgAllowedTypes::all()),
        vec![PipeArgType::PipeValue, PipeArgType::String]
    );
    let strings_only = PipeArgAllowedTypes { full: false, string: true };
    assert_eq!(strings_only.arg_type(), vec![PipeArgType::String]);
    let nothing = PipeArgAllowedTypes { full: false, string: false };
    assert!(nothing.arg_type().is_empty());
}
