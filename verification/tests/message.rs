use sorcerer::error::{
    CallError, Failure, Operation, ServiceError, SpellError, SubscriptionError, ValidationError,
};
use sorcerer::identity::Identity;
use sorcerer::json::JsonValue;
use sorcerer::message::{bare_list, join, list};
use sorcerer::permission::PermissionError;
use sorcerer::service::SpellMethod;

fn id(text: &str) -> Identity {
    Identity::new(text.to_string())
}

fn error(operation: Operation, spell_id: Option<&str>, failure: Failure) -> SpellError {
    SpellError { operation, spell_id: spell_id.map(|spell| spell.to_string()), failure }
}

fn stranger() -> Failure {
    Failure::Permission(PermissionError::Unauthorized {
        caller: id("12D3Caller"),
        management: id("12D3Mgmt"),
        worker: Some(id("12D3Worker")),
        creator: Some(id("12D3Creator")),
    })
}

fn bus_down() -> Failure {
    Failure::Subscription(SubscriptionError { reason: "send error".to_string() })
}

#[test]
fn texts_are_joined_in_order() {
    assert_eq!(join(&vec![]), "");
    assert_eq!(join(&vec!["a"]), "a");
    assert_eq!(join(&vec!["a", "", "bc", "d"]), "abcd");
}

#[test]
fn payloads_are_listed_between_brackets() {
    let one = JsonValue::parse("1").unwrap();
    let text = JsonValue::parse("\"x\"").unwrap();
    assert_eq!(list(&vec![]), "[]");
    assert_eq!(list(&vec![one.clone()]), "[1]");
    assert_eq!(list(&vec![one.clone(), text.clone(), one.clone()]), "[1, \"x\", 1]");
    assert_eq!(bare_list(&vec![]), "");
    assert_eq!(bare_list(&vec![text.clone()]), "\"x\"");
    assert_eq!(bare_list(&vec![one, text]), "1, \"x\"");
}

#[test]
fn message_of_a_refused_install() {
    assert_eq!(
        error(Operation::Install, None, stranger()).message(),
        "Failed to install spell on 12D3Worker, spell can be installed by worker creator \
         12D3Creator, worker itself 12D3Worker or peer manager; init_peer_id=12D3Caller"
    );
}

#[test]
fn message_of_a_refused_install_in_the_root_scope() {
    let refused = Failure::Permission(PermissionError::Unauthorized {
        caller: id("12D3Caller"),
        management: id("12D3Mgmt"),
        worker: None,
        creator: None,
    });
    assert_eq!(
        error(Operation::Install, None, refused).message(),
        "Failed to install spell in the root scope, only management peer id can install \
         top-level spells"
    );
}

#[test]
fn message_of_a_refused_removal() {
    assert_eq!(
        error(Operation::Remove, Some("spell-1"), stranger()).message(),
        "Failed to remove spell spell-1, spell can be removed by worker creator 12D3Creator, \
         worker itself 12D3Worker or peer manager"
    );
}

#[test]
fn message_of_a_refused_reconfiguration() {
    assert_eq!(
        error(Operation::UpdateConfig, Some("spell-1"), stranger()).message(),
        "Failed to update spell config spell-1, spell config can be updated by worker creator \
         12D3Creator, worker itself 12D3Worker or peer manager; init_peer_id=12D3Caller"
    );
}

#[test]
fn message_of_an_unknown_worker() {
    let unknown = Failure::Permission(PermissionError::UnknownWorker { worker: id("12D3W") });
    assert_eq!(
        error(Operation::Remove, Some("s"), unknown).message(),
        "Worker 12D3W is not known: it has no recorded creator"
    );
}

#[test]
fn message_of_a_failed_subscription() {
    assert_eq!(
        error(Operation::Install, Some("spell-1"), bus_down()).message(),
        "can't install a spell due to an internal error while subscribing to the triggers: \
         send error"
    );
    assert_eq!(
        error(Operation::Remove, Some("spell-1"), bus_down()).message(),
        "can't remove a spell spell-1 due to an internal error while unsubscribing from the \
         triggers: send error"
    );
    assert_eq!(
        error(Operation::UpdateConfig, Some("spell-1"), bus_down()).message(),
        "can't update a spell spell-1 config due to an internal error while updating the \
         triggers: send error"
    );
}

#[test]
fn message_of_a_validation_error_is_its_reason() {
    let malformed = Failure::Validation(ValidationError { reason: "period is too big".to_string() });
    assert_eq!(error(Operation::Install, None, malformed).message(), "period is too big");
}

#[test]
fn message_of_a_service_error_is_its_reason() {
    let failed = Failure::Service(ServiceError { reason: "service not found".to_string() });
    assert_eq!(error(Operation::Remove, Some("s"), failed).message(), "service not found");
}

#[test]
fn message_of_a_failed_read_of_a_spell() {
    let timeout = Failure::Call { method: SpellMethod::GetScriptSource, cause: CallError::Timeout };
    assert_eq!(
        error(Operation::GetInfo, Some("spell-1"), timeout).message(),
        "Failed to get trigger_config for spell spell-1: the call took longer than it was given"
    );
    let refused = Failure::Call {
        method: SpellMethod::GetTriggerConfig,
        cause: CallError::Refused { error: "Trigger Config is not set".to_string() },
    };
    assert_eq!(
        error(Operation::GetInfo, Some("spell-1"), refused).message(),
        "Trigger Config is not set"
    );
}

#[test]
fn message_of_a_failed_call_names_the_function() {
    let failed = Failure::Call {
        method: SpellMethod::SetJsonFields,
        cause: CallError::Failed { reason: "no such service".to_string() },
    };
    assert_eq!(
        error(Operation::Install, Some("spell-1"), failed).message(),
        "Failed to call set_json_fields of spell spell-1: no such service"
    );
    let malformed =
        Failure::Call { method: SpellMethod::SetTriggerConfig, cause: CallError::Malformed };
    assert_eq!(
        error(Operation::UpdateConfig, Some("spell-1"), malformed).message(),
        "Failed to call set_trigger_config of spell spell-1: the answer is not what the function \
         answers with"
    );
}

#[test]
fn message_of_a_failed_read_of_an_argument() {
    let failed = Failure::Argument { key: "limit".to_string(), cause: CallError::Timeout };
    assert_eq!(
        error(Operation::GetArg, Some("spell-1"), failed).message(),
        "Failed to get argument limit for spell spell-1: the call took longer than it was given"
    );
}

#[test]
fn message_of_a_record_that_could_not_be_stored() {
    let payload = || vec![JsonValue::parse("\"boom\"").unwrap(), JsonValue::parse("3").unwrap()];
    let cause = || CallError::Refused { error: "disk full".to_string() };
    let failed = Failure::Store { payload: payload(), cause: cause() };
    assert_eq!(
        error(Operation::StoreError, Some("spell-1"), failed).message(),
        "Failed to store error [\"boom\", 3] for spell spell-1: disk full"
    );
    let response = vec![JsonValue::parse("{\"a\":1}").unwrap()];
    let failed = Failure::Store { payload: response, cause: cause() };
    assert_eq!(
        error(Operation::StoreResponse, Some("spell-1"), failed).message(),
        "Failed to store response {\"a\":1} for spell spell-1: disk full"
    );
}

#[test]
fn message_of_an_event_out_of_turn() {
    assert_eq!(
        error(Operation::Install, None, Failure::OutOfTurn).message(),
        "an event came that does not answer what the operation asked for"
    );
}

#[test]
fn message_of_a_call_error() {
    assert_eq!(CallError::Timeout.message(), "the call took longer than it was given");
    assert_eq!(CallError::Failed { reason: "x".to_string() }.message(), "x");
    assert_eq!(CallError::Refused { error: "y".to_string() }.message(), "y");
    assert_eq!(CallError::Malformed.clone(), CallError::Malformed);
}
