use sorcerer::context::RequestContext;
use sorcerer::error::{CallError, Failure, Operation, SpellError, ValidationError};
use sorcerer::identity::Identity;
use sorcerer::inspect::{get_spell_arg, store_error, store_response};
use sorcerer::json::JsonValue;
use sorcerer::service::{
    CallArg, Event, Reply, Request, ServiceCall, SpellMethod, StringValue, UnitValue,
};
use sorcerer::step::Step;

fn context() -> RequestContext {
    RequestContext {
        id: "spell_s1_7".to_string(),
        init_peer_id: Identity::new("w1".to_string()),
        host_id: Identity::new("w1".to_string()),
        ttl: 1500,
        timestamp: 1_700_000_123,
    }
}

fn json(text: &str) -> JsonValue {
    JsonValue::parse(text).unwrap()
}

fn call(method: SpellMethod, args: Vec<CallArg>) -> Step<(), ()> {
    Step::Perform(Request::Call(ServiceCall {
        worker: Identity::new("w1".to_string()),
        spell_id: "s1".to_string(),
        method,
        args,
        particle_id: Some("spell_s1_7".to_string()),
        caller: Identity::new("w1".to_string()),
        ttl: 1500,
    }))
}

fn text_reply(text: &str) -> Event {
    Event::Called(Ok(Reply::Text(StringValue {
        str: text.to_string(),
        success: true,
        error: String::new(),
        absent: false,
    })))
}

fn stored() -> Event {
    Event::Called(Ok(Reply::Unit(UnitValue { success: true, error: String::new() })))
}

fn arg_error(failure: Failure) -> SpellError {
    SpellError { operation: Operation::GetArg, spell_id: Some("s1".to_string()), failure }
}

#[test]
fn an_argument_is_asked_for_by_its_key() {
    let (reading, step) = get_spell_arg::<()>("limit".to_string(), &context(), "s1".to_string());
    assert!(!reading.is_finished());
    assert_eq!(
        step,
        Step::Perform(Request::Call(ServiceCall {
            worker: Identity::new("w1".to_string()),
            spell_id: "s1".to_string(),
            method: SpellMethod::GetString,
            args: vec![CallArg::Text("limit".to_string())],
            particle_id: Some("spell_s1_7".to_string()),
            caller: Identity::new("w1".to_string()),
            ttl: 1500,
        }))
    );
}

#[test]
fn an_argument_comes_back_decoded() {
    let (reading, _) = get_spell_arg::<()>("limit".to_string(), &context(), "s1".to_string());
    let (reading, step) = reading.advance::<()>(text_reply("{\"max\": 10}"));
    assert_eq!(step, Step::Done(Ok(json("{\"max\": 10}"))));
    assert!(reading.is_finished());
    match step {
        Step::Done(Ok(value)) => assert_eq!(value.as_str(), "{\"max\": 10}"),
        _ => unreachable!(),
    }
}

#[test]
fn an_argument_that_is_a_bare_text_is_no_document() {
    let (reading, _) = get_spell_arg::<()>("limit".to_string(), &context(), "s1".to_string());
    let (_, step) = reading.advance::<()>(text_reply("echo 1"));
    assert_eq!(
        step,
        Step::Done(Err(arg_error(Failure::Validation(ValidationError {
            reason: "expected value at line 1 column 1".to_string()
        }))))
    );
}

#[test]
fn an_argument_that_the_spell_does_not_hold_is_a_validation_error() {
    let (reading, _) = get_spell_arg::<()>("limit".to_string(), &context(), "s1".to_string());
    let absent = Event::Called(Ok(Reply::Text(StringValue {
        str: String::new(),
        success: true,
        error: String::new(),
        absent: true,
    })));
    let (_, step) = reading.advance::<()>(absent);
    assert_eq!(
        step,
        Step::Done(Err(arg_error(Failure::Validation(ValidationError {
            reason: "EOF while parsing a value at line 1 column 0".to_string()
        }))))
    );
}

#[test]
fn an_argument_whose_call_fails_names_the_key() {
    let (reading, _) = get_spell_arg::<()>("limit".to_string(), &context(), "s1".to_string());
    let (_, step) = reading.advance::<()>(Event::Called(Err(CallError::Timeout)));
    assert_eq!(
        step,
        Step::Done(Err(arg_error(Failure::Argument {
            key: "limit".to_string(),
            cause: CallError::Timeout
        })))
    );
}

#[test]
fn an_argument_that_the_spell_refuses_fails_with_its_reason() {
    let (reading, _) = get_spell_arg::<()>("limit".to_string(), &context(), "s1".to_string());
    let refused = Event::Called(Ok(Reply::Text(StringValue {
        str: "{}".to_string(),
        success: false,
        error: "Key 'limit' does not exist".to_string(),
        absent: false,
    })));
    let (_, step) = reading.advance::<()>(refused);
    assert_eq!(
        step,
        Step::Done(Err(arg_error(Failure::Argument {
            key: "limit".to_string(),
            cause: CallError::Refused { error: "Key 'limit' does not exist".to_string() },
        })))
    );
}

#[test]
fn a_text_that_came_is_judged_by_what_reading_it_said() {
    let (reading, _) = get_spell_arg::<()>("limit".to_string(), &context(), "s1".to_string());
    assert_eq!(reading.value_of("[1, 2]", Ok(())), Ok(json("[1, 2]")));
    assert_eq!(
        reading.value_of("[1, 2", Err("EOF while parsing a list".to_string())),
        Err(arg_error(Failure::Validation(ValidationError {
            reason: "EOF while parsing a list".to_string()
        })))
    );
}

#[test]
fn an_argument_is_read_once() {
    let (reading, _) = get_spell_arg::<()>("limit".to_string(), &context(), "s1".to_string());
    let (reading, _) = reading.advance::<()>(text_reply("1"));
    let (reading, step) = reading.advance::<()>(text_reply("2"));
    assert_eq!(step, Step::Done(Err(arg_error(Failure::OutOfTurn))));
    assert!(reading.is_finished());
    let (fresh, _) = get_spell_arg::<()>("limit".to_string(), &context(), "s1".to_string());
    let (_, step) = fresh.advance::<()>(Event::Subscribed(Ok(())));
    assert_eq!(step, Step::Done(Err(arg_error(Failure::OutOfTurn))));
}

#[test]
fn an_error_is_stored_with_the_time_of_the_request() {
    let payload = vec![json("\"boom\""), json("{\"code\": 3}")];
    let (storing, step) = store_error::<()>(payload, &context(), "s1".to_string());
    assert!(!storing.is_finished());
    assert_eq!(
        step,
        call(
            SpellMethod::StoreError,
            vec![
                CallArg::Json(json("\"boom\"")),
                CallArg::Json(json("{\"code\": 3}")),
                CallArg::Timestamp(1_700_000_123),
            ]
        )
    );
    let (storing, step) = storing.advance::<()>(stored());
    assert_eq!(step, Step::Done(Ok(())));
    assert!(storing.is_finished());
}

#[test]
fn an_error_without_payload_is_stored_as_the_time_alone() {
    let (_, step) = store_error::<()>(vec![], &context(), "s1".to_string());
    assert_eq!(step, call(SpellMethod::StoreError, vec![CallArg::Timestamp(1_700_000_123)]));
}

#[test]
fn an_error_that_cannot_be_stored_comes_back_with_its_payload() {
    let payload = vec![json("\"boom\""), json("3")];
    let (storing, _) = store_error::<()>(payload, &context(), "s1".to_string());
    let (_, step) = storing.advance::<()>(Event::Called(Err(CallError::Failed {
        reason: "no such function".to_string(),
    })));
    assert_eq!(
        step,
        Step::Done(Err(SpellError {
            operation: Operation::StoreError,
            spell_id: Some("s1".to_string()),
            failure: Failure::Store {
                payload: vec![json("\"boom\""), json("3")],
                cause: CallError::Failed { reason: "no such function".to_string() },
            },
        }))
    );
}

#[test]
fn a_response_is_stored_as_the_text_of_its_fields() {
    let (storing, step) = store_response::<()>(json("{ \"answer\": 42 }"), &context(), "s1".to_string());
    assert_eq!(
        step,
        call(SpellMethod::SetJsonFields, vec![CallArg::Text("{ \"answer\": 42 }".to_string())])
    );
    let (_, step) = storing.advance::<()>(stored());
    assert_eq!(step, Step::Done(Ok(())));
}

#[test]
fn a_response_that_cannot_be_stored_comes_back_with_the_response() {
    let (storing, _) = store_response::<()>(json("{\"answer\":42}"), &context(), "s1".to_string());
    let refused = Event::Called(Ok(Reply::Unit(UnitValue {
        success: false,
        error: "not an object".to_string(),
    })));
    let (storing, step) = storing.advance::<()>(refused);
    assert_eq!(
        step,
        Step::Done(Err(SpellError {
            operation: Operation::StoreResponse,
            spell_id: Some("s1".to_string()),
            failure: Failure::Store {
                payload: vec![json("{\"answer\":42}")],
                cause: CallError::Refused { error: "not an object".to_string() },
            },
        }))
    );
    let (_, step) = storing.advance::<()>(stored());
    assert_eq!(
        step,
        Step::Done(Err(SpellError {
            operation: Operation::StoreResponse,
            spell_id: Some("s1".to_string()),
            failure: Failure::OutOfTurn,
        }))
    );
}

#[test]
fn the_names_of_the_spell_functions() {
    assert_eq!(SpellMethod::SetScriptSource.name(), "set_script_source_to_file");
    assert_eq!(SpellMethod::SetJsonFields.name(), "set_json_fields");
    assert_eq!(SpellMethod::SetTriggerConfig.name(), "set_trigger_config");
    assert_eq!(SpellMethod::GetTriggerConfig.name(), "get_trigger_config");
    assert_eq!(SpellMethod::GetScriptSource.name(), "get_script_source_from_file");
    assert_eq!(SpellMethod::GetString.name(), "get_string");
    assert_eq!(SpellMethod::StoreError.name(), "store_error");
}
