use std::collections::{BTreeMap, BTreeSet};

use sorcerer::context::RequestContext;
use sorcerer::error::{
    CallError, Failure, Operation, ServiceError, SpellError, SubscriptionError, ValidationError,
};
use sorcerer::identity::Identity;
use sorcerer::inspect::{get_spell_info, spell_list, SpellInfo};
use sorcerer::install::{install_spell, spell_install};
use sorcerer::json::JsonValue;
use sorcerer::permission::{PermissionError, PermissionGuard};
use sorcerer::registry::SpellRegistry;
use sorcerer::remove::{remove_spell, spell_remove};
use sorcerer::service::{
    CallArg, Event, Reply, Request, ScriptValue, ServiceCall, SpellMethod, TriggerConfigValue,
    UnitValue,
};
use sorcerer::step::Step;
use sorcerer::trigger::{BlockChainConfig, ClockConfig, ConnectionPoolConfig, TriggerConfig};
use sorcerer::update::spell_update_config;

/// What stands for a resolved trigger configuration in these tests.
type Triggers = Vec<&'static str>;

fn id(text: &str) -> Identity {
    Identity::new(text.to_string())
}

fn json(text: &str) -> JsonValue {
    JsonValue::parse(text).unwrap()
}

fn every_minute() -> TriggerConfig {
    TriggerConfig {
        clock: ClockConfig { start_sec: 1, end_sec: 0, period_sec: 60 },
        connections: ConnectionPoolConfig { connect: false, disconnect: false },
        blockchain: BlockChainConfig { start_block: 0, end_block: 0 },
    }
}

fn on_connect() -> TriggerConfig {
    TriggerConfig {
        clock: ClockConfig { start_sec: 0, end_sec: 0, period_sec: 0 },
        connections: ConnectionPoolConfig { connect: true, disconnect: false },
        blockchain: BlockChainConfig { start_block: 0, end_block: 0 },
    }
}

fn params(caller: &str, worker: &str) -> RequestContext {
    RequestContext {
        id: "particle-1".to_string(),
        init_peer_id: id(caller),
        host_id: id(worker),
        ttl: 5000,
        timestamp: 1700000000,
    }
}

/// What a spell's service holds.
#[derive(Clone, Debug, Default, PartialEq)]
struct Stored {
    owner: String,
    script: Option<String>,
    data: Option<String>,
    config: Option<TriggerConfig>,
}

/// A node in memory: the registry and the guard of the library, and stand-ins
/// for the service host and the trigger service that can be told to fail.
struct Node {
    registry: SpellRegistry,
    guard: PermissionGuard,
    services: BTreeMap<String, Stored>,
    subscribed: BTreeMap<String, Triggers>,
    created: u32,
    log: Vec<String>,
    fail_create: bool,
    fail_remove: bool,
    fail_subscribe: bool,
    fail_unsubscribe: bool,
    fail_call: Option<SpellMethod>,
}

impl Node {
    fn new() -> Node {
        let mut guard = PermissionGuard::new(id("mgmt"), id("host"));
        assert!(guard.add_worker(id("w1"), id("alice")));
        assert!(guard.add_worker(id("w2"), id("bob")));
        assert!(guard.add_worker(id("host"), id("host")));
        Node {
            registry: SpellRegistry::new("spell-blueprint".to_string()),
            guard,
            services: BTreeMap::new(),
            subscribed: BTreeMap::new(),
            created: 0,
            log: Vec::new(),
            fail_create: false,
            fail_remove: false,
            fail_subscribe: false,
            fail_unsubscribe: false,
            fail_call: None,
        }
    }

    fn call(&mut self, call: ServiceCall) -> Result<Reply, CallError> {
        self.log.push(call.method.name().to_string());
        if self.fail_call == Some(call.method) {
            return Err(CallError::Timeout);
        }
        let done = Reply::Unit(UnitValue { success: true, error: String::new() });
        let Some(stored) = self.services.get_mut(&call.spell_id) else {
            return Err(CallError::Failed { reason: "no such service".to_string() });
        };
        match (call.method, call.args.as_slice()) {
            (SpellMethod::SetScriptSource, [CallArg::Text(script)]) => {
                stored.script = Some(script.clone());
                Ok(done)
            }
            (SpellMethod::SetJsonFields, [CallArg::Text(data)]) => {
                stored.data = Some(data.clone());
                Ok(done)
            }
            (SpellMethod::SetTriggerConfig, [CallArg::Config(config)]) => {
                stored.config = Some(*config);
                Ok(done)
            }
            (SpellMethod::GetTriggerConfig, []) => Ok(Reply::TriggerConfig(match stored.config {
                Some(config) => TriggerConfigValue { config, success: true, error: String::new() },
                None => TriggerConfigValue {
                    config: TriggerConfig::default(),
                    success: false,
                    error: "no trigger config".to_string(),
                },
            })),
            (SpellMethod::GetScriptSource, []) => Ok(Reply::Script(match &stored.script {
                Some(script) => ScriptValue {
                    source_code: script.clone(),
                    success: true,
                    error: String::new(),
                },
                None => ScriptValue {
                    source_code: String::new(),
                    success: false,
                    error: "no script".to_string(),
                },
            })),
            _ => Err(CallError::Malformed),
        }
    }

    fn perform(&mut self, request: Request<Triggers>) -> Event {
        match request {
            Request::CreateService { blueprint, owner } => {
                self.log.push("create".to_string());
                assert_eq!(blueprint, "spell-blueprint");
                if self.fail_create {
                    return Event::ServiceCreated(Err(ServiceError { reason: "no room".to_string() }));
                }
                self.created += 1;
                let spell_id = format!("spell-{}", self.created);
                let stored = Stored { owner: owner.as_str().to_string(), ..Stored::default() };
                self.services.insert(spell_id.clone(), stored);
                Event::ServiceCreated(Ok(spell_id))
            }
            Request::RemoveService { particle_id: _, owner, spell_id } => {
                self.log.push("remove".to_string());
                if self.fail_remove {
                    return Event::ServiceRemoved(Err(ServiceError { reason: "stuck".to_string() }));
                }
                if let Some(stored) = self.services.get(&spell_id) {
                    assert_eq!(stored.owner, owner.as_str());
                }
                self.services.remove(&spell_id);
                Event::ServiceRemoved(Ok(()))
            }
            Request::Call(call) => Event::Called(self.call(call)),
            Request::Subscribe { spell_id, config } => {
                self.log.push("subscribe".to_string());
                if self.fail_subscribe {
                    return Event::Subscribed(Err(SubscriptionError { reason: "bus down".to_string() }));
                }
                self.subscribed.insert(spell_id, config);
                Event::Subscribed(Ok(()))
            }
            Request::Unsubscribe { spell_id } => {
                self.log.push("unsubscribe".to_string());
                if self.fail_unsubscribe {
                    return Event::Unsubscribed(
                        Err(SubscriptionError { reason: "bus down".to_string() }),
                    );
                }
                self.subscribed.remove(&spell_id);
                Event::Unsubscribed(Ok(()))
            }
        }
    }

    fn install(
        &mut self,
        caller: &str,
        worker: &str,
        script: &str,
        data: &str,
        user_config: TriggerConfig,
        config: Result<Option<Triggers>, ValidationError>,
    ) -> Result<String, SpellError> {
        let (mut install, mut step) = spell_install(
            script.to_string(),
            json(data),
            user_config,
            config,
            &params(caller, worker),
            &self.registry,
            &self.guard,
        );
        loop {
            match step {
                Step::Done(result) => {
                    assert!(install.is_finished());
                    return result;
                }
                Step::Perform(request) => {
                    assert!(!install.is_finished());
                    let event = self.perform(request);
                    (install, step) = install.advance(&mut self.registry, event);
                }
            }
        }
    }

    fn remove(&mut self, caller: &str, worker: &str, spell_id: &str) -> Result<(), SpellError> {
        let (mut removal, mut step) =
            spell_remove(spell_id.to_string(), &params(caller, worker), &self.guard);
        loop {
            match step {
                Step::Done(result) => {
                    assert!(removal.is_finished());
                    return result;
                }
                Step::Perform(request) => {
                    let event = self.perform(request);
                    (removal, step) = removal.advance(&mut self.registry, event);
                }
            }
        }
    }

    fn update(
        &mut self,
        caller: &str,
        worker: &str,
        spell_id: &str,
        user_config: TriggerConfig,
        config: Result<Option<Triggers>, ValidationError>,
    ) -> Result<(), SpellError> {
        let (mut update, mut step) = spell_update_config(
            spell_id.to_string(),
            user_config,
            config,
            &params(caller, worker),
            &self.guard,
        );
        loop {
            match step {
                Step::Done(result) => {
                    assert!(update.is_finished());
                    return result;
                }
                Step::Perform(request) => {
                    let event = self.perform(request);
                    (update, step) = update.advance(event);
                }
            }
        }
    }

    fn info(&mut self, worker: &str, spell_id: &str) -> Result<SpellInfo, SpellError> {
        let (mut reading, mut step) = get_spell_info(id(worker), 5000, spell_id.to_string());
        loop {
            match step {
                Step::Done(result) => {
                    assert!(reading.is_finished());
                    return result;
                }
                Step::Perform(request) => {
                    let event = self.perform(request);
                    (reading, step) = reading.advance(event);
                }
            }
        }
    }

    fn list(&self, worker: &str) -> BTreeSet<String> {
        spell_list(&params(worker, worker), &self.registry).into_iter().collect()
    }

    /// The registry, the services and the subscriptions, to compare before
    /// and after.
    fn state(&self) -> (Vec<BTreeSet<String>>, BTreeMap<String, Stored>, BTreeMap<String, Triggers>) {
        let lists = ["host", "w1", "w2"].iter().map(|worker| self.list(worker)).collect();
        (lists, self.services.clone(), self.subscribed.clone())
    }
}

fn names(spells: &[&str]) -> BTreeSet<String> {
    spells.iter().map(|spell| spell.to_string()).collect()
}

fn unauthorized(caller: &str, worker: &str, creator: &str) -> Failure {
    Failure::Permission(PermissionError::Unauthorized {
        caller: id(caller),
        management: id("mgmt"),
        worker: Some(id(worker)),
        creator: Some(id(creator)),
    })
}

#[test]
fn install_goes_through_every_step_in_order() {
    let mut node = Node::new();
    let result = node.install("alice", "w1", "echo 1", "{}", every_minute(), Ok(Some(vec!["timer"])));
    assert_eq!(result, Ok("spell-1".to_string()));
    assert_eq!(
        node.log,
        vec![
            "create",
            "set_script_source_to_file",
            "set_json_fields",
            "set_trigger_config",
            "subscribe"
        ]
    );
    assert_eq!(node.list("w1"), names(&["spell-1"]));
    assert_eq!(
        node.services["spell-1"],
        Stored {
            owner: "w1".to_string(),
            script: Some("echo 1".to_string()),
            data: Some("{}".to_string()),
            config: Some(every_minute()),
        }
    );
    assert_eq!(node.subscribed["spell-1"], vec!["timer"]);
}

#[test]
fn install_asks_for_each_request_with_its_exact_arguments() {
    let registry = SpellRegistry::new("bp".to_string());
    let mut registry_after = SpellRegistry::new("bp".to_string());
    let (install, step) = install_spell(
        &registry,
        id("w1"),
        "p-7".to_string(),
        250,
        on_connect(),
        Ok(Some(vec!["connect"])),
        "script".to_string(),
        json("{\"k\": 1}"),
    );
    assert_eq!(
        step,
        Step::Perform(Request::CreateService { blueprint: "bp".to_string(), owner: id("w1") })
    );
    let saving = |method: SpellMethod, arg: CallArg| {
        Step::Perform(Request::Call(ServiceCall {
            worker: id("w1"),
            spell_id: "s".to_string(),
            method,
            args: vec![arg],
            particle_id: None,
            caller: id("w1"),
            ttl: 250,
        }))
    };
    let saved = || Event::Called(Ok(Reply::Unit(UnitValue { success: true, error: String::new() })));
    let (install, step) =
        install.advance(&mut registry_after, Event::ServiceCreated(Ok("s".to_string())));
    assert!(registry_after.contains(&id("w1"), "s"));
    assert_eq!(step, saving(SpellMethod::SetScriptSource, CallArg::Text("script".to_string())));
    let (install, step) = install.advance(&mut registry_after, saved());
    assert_eq!(step, saving(SpellMethod::SetJsonFields, CallArg::Text("{\"k\": 1}".to_string())));
    let (install, step) = install.advance(&mut registry_after, saved());
    assert_eq!(step, saving(SpellMethod::SetTriggerConfig, CallArg::Config(on_connect())));
    let (install, step) = install.advance(&mut registry_after, saved());
    assert_eq!(
        step,
        Step::Perform(Request::Subscribe { spell_id: "s".to_string(), config: vec!["connect"] })
    );
    let (install, step) = install.advance(&mut registry_after, Event::Subscribed(Ok(())));
    assert_eq!(step, Step::Done(Ok("s".to_string())));
    assert!(install.is_finished());
    assert!(registry_after.contains(&id("w1"), "s"));
}

#[test]
fn install_without_triggers_registers_and_never_subscribes() {
    let mut node = Node::new();
    let result = node.install("w1", "w1", "echo 1", "{}", TriggerConfig::default(), Ok(None));
    assert_eq!(result, Ok("spell-1".to_string()));
    assert!(!node.log.contains(&"subscribe".to_string()));
    assert_eq!(node.list("w1"), names(&["spell-1"]));
    assert!(node.subscribed.is_empty());
    assert_eq!(node.services["spell-1"].config, Some(TriggerConfig::default()));
}

#[test]
fn install_by_a_stranger_is_refused_and_changes_nothing() {
    let mut node = Node::new();
    node.install("alice", "w1", "echo 0", "{}", every_minute(), Ok(Some(vec!["timer"]))).unwrap();
    let before = node.state();
    let steps = node.log.len();
    let result = node.install("mallory", "w1", "echo 1", "{}", every_minute(), Ok(Some(vec!["t"])));
    assert_eq!(
        result,
        Err(SpellError {
            operation: Operation::Install,
            spell_id: None,
            failure: unauthorized("mallory", "w1", "alice"),
        })
    );
    assert_eq!(node.state(), before);
    assert_eq!(node.log.len(), steps);
}

#[test]
fn install_by_the_creator_of_another_worker_is_refused() {
    let mut node = Node::new();
    let result = node.install("bob", "w1", "echo 1", "{}", every_minute(), Ok(None));
    assert_eq!(result.unwrap_err().failure, unauthorized("bob", "w1", "alice"));
    assert!(node.log.is_empty());
}

#[test]
fn install_on_the_host_is_refused_to_all_but_management() {
    for caller in ["host", "alice", "mallory"] {
        let mut node = Node::new();
        let before = node.state();
        let result = node.install(caller, "host", "echo 1", "{}", every_minute(), Ok(None));
        assert_eq!(
            result,
            Err(SpellError {
                operation: Operation::Install,
                spell_id: None,
                failure: Failure::Permission(PermissionError::Unauthorized {
                    caller: id(caller),
                    management: id("mgmt"),
                    worker: None,
                    creator: None,
                }),
            })
        );
        assert_eq!(node.state(), before);
        assert!(node.log.is_empty());
    }
}

#[test]
fn install_on_the_host_by_management_goes_through() {
    let mut node = Node::new();
    let result = node.install("mgmt", "host", "echo 1", "{}", every_minute(), Ok(Some(vec!["t"])));
    assert_eq!(result, Ok("spell-1".to_string()));
    assert_eq!(node.list("host"), names(&["spell-1"]));
}

#[test]
fn install_with_a_malformed_configuration_touches_nothing() {
    let mut node = Node::new();
    let before = node.state();
    let malformed = ValidationError { reason: "period is too big".to_string() };
    let result = node.install("alice", "w1", "echo 1", "{}", every_minute(), Err(malformed.clone()));
    assert_eq!(
        result,
        Err(SpellError {
            operation: Operation::Install,
            spell_id: None,
            failure: Failure::Validation(malformed),
        })
    );
    assert_eq!(node.state(), before);
    assert!(node.log.is_empty());
}

#[test]
fn a_malformed_configuration_is_reported_before_a_missing_role() {
    let mut node = Node::new();
    let malformed = ValidationError { reason: "end before start".to_string() };
    let result = node.install("mallory", "w1", "echo 1", "{}", every_minute(), Err(malformed.clone()));
    assert_eq!(result.unwrap_err().failure, Failure::Validation(malformed.clone()));
    let result = node.update("mallory", "w1", "spell-1", every_minute(), Err(malformed));
    assert_eq!(result.unwrap_err().failure, unauthorized("mallory", "w1", "alice"));
}

#[test]
fn install_rolls_back_when_the_subscription_fails() {
    let mut node = Node::new();
    node.fail_subscribe = true;
    let result = node.install("alice", "w1", "echo 1", "{}", every_minute(), Ok(Some(vec!["timer"])));
    assert_eq!(
        result,
        Err(SpellError {
            operation: Operation::Install,
            spell_id: Some("spell-1".to_string()),
            failure: Failure::Subscription(SubscriptionError { reason: "bus down".to_string() }),
        })
    );
    assert_eq!(node.log.last().unwrap(), "remove");
    assert_eq!(node.list("w1"), names(&[]));
    assert!(node.services.is_empty());
    assert!(node.subscribed.is_empty());
}

#[test]
fn a_rollback_that_cannot_remove_the_service_reports_that() {
    let mut node = Node::new();
    node.fail_subscribe = true;
    node.fail_remove = true;
    let result = node.install("alice", "w1", "echo 1", "{}", every_minute(), Ok(Some(vec!["timer"])));
    assert_eq!(
        result,
        Err(SpellError {
            operation: Operation::Install,
            spell_id: Some("spell-1".to_string()),
            failure: Failure::Service(ServiceError { reason: "stuck".to_string() }),
        })
    );
    assert_eq!(node.list("w1"), names(&[]));
    assert!(node.services.contains_key("spell-1"));
}

#[test]
fn install_that_cannot_create_the_service_registers_nothing() {
    let mut node = Node::new();
    node.fail_create = true;
    let result = node.install("alice", "w1", "echo 1", "{}", every_minute(), Ok(None));
    assert_eq!(
        result,
        Err(SpellError {
            operation: Operation::Install,
            spell_id: None,
            failure: Failure::Service(ServiceError { reason: "no room".to_string() }),
        })
    );
    assert_eq!(node.log, vec!["create"]);
    assert_eq!(node.list("w1"), names(&[]));
}

#[test]
fn a_failed_store_during_install_is_not_compensated() {
    for (method, stored_calls) in [
        (SpellMethod::SetScriptSource, 1),
        (SpellMethod::SetJsonFields, 2),
        (SpellMethod::SetTriggerConfig, 3),
    ] {
        let mut node = Node::new();
        node.fail_call = Some(method);
        let result = node.install("alice", "w1", "echo 1", "{}", every_minute(), Ok(Some(vec!["t"])));
        assert_eq!(
            result,
            Err(SpellError {
                operation: Operation::Install,
                spell_id: Some("spell-1".to_string()),
                failure: Failure::Call { method, cause: CallError::Timeout },
            })
        );
        assert_eq!(node.log.len(), 1 + stored_calls);
        assert!(!node.log.contains(&"remove".to_string()));
        assert!(!node.log.contains(&"subscribe".to_string()));
        assert_eq!(node.list("w1"), names(&["spell-1"]));
        assert!(node.services.contains_key("spell-1"));
    }
}

#[test]
fn a_store_that_the_spell_refuses_fails_the_install_with_its_reason() {
    let registry = SpellRegistry::new("bp".to_string());
    let mut registry_after = SpellRegistry::new("bp".to_string());
    let (install, _) = install_spell::<Triggers>(
        &registry,
        id("w1"),
        "p".to_string(),
        1,
        every_minute(),
        Ok(None),
        "s".to_string(),
        json("{}"),
    );
    let (install, _) = install.advance(&mut registry_after, Event::ServiceCreated(Ok("x".to_string())));
    let refused = Reply::Unit(UnitValue { success: false, error: "disk full".to_string() });
    let (_, step) = install.advance(&mut registry_after, Event::Called(Ok(refused)));
    assert_eq!(
        step,
        Step::Done(Err(SpellError {
            operation: Operation::Install,
            spell_id: Some("x".to_string()),
            failure: Failure::Call {
                method: SpellMethod::SetScriptSource,
                cause: CallError::Refused { error: "disk full".to_string() },
            },
        }))
    );
}

#[test]
fn an_answer_of_the_wrong_shape_is_malformed() {
    let registry = SpellRegistry::new("bp".to_string());
    let mut registry_after = SpellRegistry::new("bp".to_string());
    let (install, _) = install_spell::<Triggers>(
        &registry,
        id("w1"),
        "p".to_string(),
        1,
        every_minute(),
        Ok(None),
        "s".to_string(),
        json("{}"),
    );
    let (install, _) = install.advance(&mut registry_after, Event::ServiceCreated(Ok("x".to_string())));
    let script = Reply::Script(ScriptValue {
        source_code: "s".to_string(),
        success: true,
        error: String::new(),
    });
    let (_, step) = install.advance(&mut registry_after, Event::Called(Ok(script)));
    assert_eq!(
        step,
        Step::Done(Err(SpellError {
            operation: Operation::Install,
            spell_id: Some("x".to_string()),
            failure: Failure::Call { method: SpellMethod::SetScriptSource, cause: CallError::Malformed },
        }))
    );
}

#[test]
fn an_event_out_of_turn_ends_the_operation() {
    let registry = SpellRegistry::new("bp".to_string());
    let mut registry_after = SpellRegistry::new("bp".to_string());
    let (install, _) = install_spell::<Triggers>(
        &registry,
        id("w1"),
        "p".to_string(),
        1,
        every_minute(),
        Ok(None),
        "s".to_string(),
        json("{}"),
    );
    let (install, step) = install.advance(&mut registry_after, Event::Subscribed(Ok(())));
    let out_of_turn = Step::Done(Err(SpellError {
        operation: Operation::Install,
        spell_id: None,
        failure: Failure::OutOfTurn,
    }));
    assert_eq!(step, out_of_turn);
    assert!(install.is_finished());
    let (_, step) = install.advance(&mut registry_after, Event::ServiceCreated(Ok("x".to_string())));
    assert_eq!(step, out_of_turn);
    assert!(!registry_after.contains(&id("w1"), "x"));
}

#[test]
fn round_trip_of_script_and_configuration() {
    let mut node = Node::new();
    let config = TriggerConfig {
        clock: ClockConfig { start_sec: 10, end_sec: 99, period_sec: 3 },
        connections: ConnectionPoolConfig { connect: true, disconnect: true },
        blockchain: BlockChainConfig { start_block: 5, end_block: 6 },
    };
    let spell_id = node.install("alice", "w1", "echo 1", "{}", config, Ok(Some(vec!["t"]))).unwrap();
    assert_eq!(
        node.info("w1", &spell_id),
        Ok(SpellInfo { script: "echo 1".to_string(), trigger_config: config })
    );
}

#[test]
fn round_trip_keeps_a_configuration_that_resolved_to_nothing() {
    let mut node = Node::new();
    let spell_id =
        node.install("alice", "w1", "echo 1", "{}", TriggerConfig::default(), Ok(None)).unwrap();
    assert_eq!(
        node.info("w1", &spell_id),
        Ok(SpellInfo { script: "echo 1".to_string(), trigger_config: TriggerConfig::default() })
    );
}

#[test]
fn info_asks_for_the_configuration_first_and_the_script_second() {
    let (reading, step) = get_spell_info::<Triggers>(id("w1"), 77, "s".to_string());
    let reads = |method: SpellMethod| {
        Step::Perform(Request::Call(ServiceCall {
            worker: id("w1"),
            spell_id: "s".to_string(),
            method,
            args: vec![],
            particle_id: None,
            caller: id("w1"),
            ttl: 77,
        }))
    };
    assert_eq!(step, reads(SpellMethod::GetTriggerConfig));
    let config = Reply::TriggerConfig(TriggerConfigValue {
        config: on_connect(),
        success: true,
        error: String::new(),
    });
    let (reading, step) = reading.advance::<Triggers>(Event::Called(Ok(config)));
    assert_eq!(step, reads(SpellMethod::GetScriptSource));
    let script = Reply::Script(ScriptValue {
        source_code: "echo 2".to_string(),
        success: true,
        error: String::new(),
    });
    let (reading, step) = reading.advance::<Triggers>(Event::Called(Ok(script)));
    assert_eq!(
        step,
        Step::Done(Ok(SpellInfo { script: "echo 2".to_string(), trigger_config: on_connect() }))
    );
    assert!(reading.is_finished());
}

#[test]
fn info_surfaces_a_failed_read_as_it_came() {
    let mut node = Node::new();
    let spell_id = node.install("alice", "w1", "echo 1", "{}", every_minute(), Ok(None)).unwrap();
    node.fail_call = Some(SpellMethod::GetTriggerConfig);
    assert_eq!(
        node.info("w1", &spell_id),
        Err(SpellError {
            operation: Operation::GetInfo,
            spell_id: Some(spell_id.clone()),
            failure: Failure::Call { method: SpellMethod::GetTriggerConfig, cause: CallError::Timeout },
        })
    );
    node.fail_call = Some(SpellMethod::GetScriptSource);
    assert_eq!(
        node.info("w1", &spell_id),
        Err(SpellError {
            operation: Operation::GetInfo,
            spell_id: Some(spell_id),
            failure: Failure::Call { method: SpellMethod::GetScriptSource, cause: CallError::Timeout },
        })
    );
}

#[test]
fn info_of_a_spell_that_answers_with_a_failure() {
    let (reading, _) = get_spell_info::<Triggers>(id("w1"), 77, "s".to_string());
    let refused = Reply::TriggerConfig(TriggerConfigValue {
        config: TriggerConfig::default(),
        success: false,
        error: "Trigger Config is not set".to_string(),
    });
    let (_, step) = reading.advance::<Triggers>(Event::Called(Ok(refused)));
    assert_eq!(
        step,
        Step::Done(Err(SpellError {
            operation: Operation::GetInfo,
            spell_id: Some("s".to_string()),
            failure: Failure::Call {
                method: SpellMethod::GetTriggerConfig,
                cause: CallError::Refused { error: "Trigger Config is not set".to_string() },
            },
        }))
    );
}

#[test]
fn remove_unsubscribes_unregisters_and_removes_the_service() {
    let mut node = Node::new();
    let spell_id =
        node.install("alice", "w1", "echo 1", "{}", every_minute(), Ok(Some(vec!["t"]))).unwrap();
    node.log.clear();
    assert_eq!(node.remove("alice", "w1", &spell_id), Ok(()));
    assert_eq!(node.log, vec!["unsubscribe", "remove"]);
    assert_eq!(node.list("w1"), names(&[]));
    assert!(node.services.is_empty());
    assert!(node.subscribed.is_empty());
}

#[test]
fn remove_asks_for_each_request_with_its_exact_arguments() {
    let mut registry = SpellRegistry::new("bp".to_string());
    registry.register_spell(id("w1"), "s".to_string());
    let (removal, step) = remove_spell::<Triggers>("p-3", "s".to_string(), id("w1"));
    assert_eq!(step, Step::Perform(Request::Unsubscribe { spell_id: "s".to_string() }));
    assert!(registry.contains(&id("w1"), "s"));
    let (removal, step) = removal.advance::<Triggers>(&mut registry, Event::Unsubscribed(Ok(())));
    assert_eq!(
        step,
        Step::Perform(Request::RemoveService {
            particle_id: "p-3".to_string(),
            owner: id("w1"),
            spell_id: "s".to_string(),
        })
    );
    assert!(!registry.contains(&id("w1"), "s"));
    let (removal, step) = removal.advance::<Triggers>(&mut registry, Event::ServiceRemoved(Ok(())));
    assert_eq!(step, Step::Done(Ok(())));
    assert!(removal.is_finished());
}

#[test]
fn remove_stops_when_the_unsubscription_fails() {
    let mut node = Node::new();
    let spell_id =
        node.install("alice", "w1", "echo 1", "{}", every_minute(), Ok(Some(vec!["t"]))).unwrap();
    let before = node.state();
    node.log.clear();
    node.fail_unsubscribe = true;
    assert_eq!(
        node.remove("alice", "w1", &spell_id),
        Err(SpellError {
            operation: Operation::Remove,
            spell_id: Some(spell_id.clone()),
            failure: Failure::Subscription(SubscriptionError { reason: "bus down".to_string() }),
        })
    );
    assert_eq!(node.log, vec!["unsubscribe"]);
    assert_eq!(node.state(), before);
    assert_eq!(node.list("w1"), names(&[spell_id.as_str()]));
    assert!(node.services.contains_key(&spell_id));
}

#[test]
fn remove_by_a_stranger_is_refused_and_changes_nothing() {
    let mut node = Node::new();
    let spell_id =
        node.install("alice", "w1", "echo 1", "{}", every_minute(), Ok(Some(vec!["t"]))).unwrap();
    let before = node.state();
    node.log.clear();
    assert_eq!(
        node.remove("mallory", "w1", &spell_id),
        Err(SpellError {
            operation: Operation::Remove,
            spell_id: Some(spell_id),
            failure: unauthorized("mallory", "w1", "alice"),
        })
    );
    assert!(node.log.is_empty());
    assert_eq!(node.state(), before);
}

#[test]
fn remove_is_granted_to_management_and_to_the_worker() {
    let mut node = Node::new();
    let first = node.install("alice", "w1", "a", "{}", every_minute(), Ok(None)).unwrap();
    let second = node.install("alice", "w1", "b", "{}", every_minute(), Ok(None)).unwrap();
    assert_eq!(node.remove("mgmt", "w1", &first), Ok(()));
    assert_eq!(node.remove("w1", "w1", &second), Ok(()));
    assert_eq!(node.list("w1"), names(&[]));
}

#[test]
fn a_removal_whose_service_cannot_be_removed_reports_that() {
    let mut node = Node::new();
    let spell_id = node.install("alice", "w1", "a", "{}", every_minute(), Ok(None)).unwrap();
    node.fail_remove = true;
    assert_eq!(
        node.remove("alice", "w1", &spell_id),
        Err(SpellError {
            operation: Operation::Remove,
            spell_id: Some(spell_id.clone()),
            failure: Failure::Service(ServiceError { reason: "stuck".to_string() }),
        })
    );
    assert_eq!(node.list("w1"), names(&[]));
    assert!(node.services.contains_key(&spell_id));
}

#[test]
fn removing_twice_leaves_the_registry_as_the_first_removal_left_it() {
    let mut node = Node::new();
    let kept = node.install("alice", "w1", "keep", "{}", every_minute(), Ok(Some(vec!["t"]))).unwrap();
    let gone = node.install("alice", "w1", "drop", "{}", every_minute(), Ok(Some(vec!["t"]))).unwrap();
    assert_eq!(node.remove("alice", "w1", &gone), Ok(()));
    let after_first = node.state();
    assert_eq!(node.remove("alice", "w1", &gone), Ok(()));
    assert_eq!(node.state(), after_first);
    node.fail_unsubscribe = true;
    assert!(node.remove("alice", "w1", &gone).is_err());
    assert_eq!(node.state(), after_first);
    assert_eq!(node.list("w1"), names(&[kept.as_str()]));
}

#[test]
fn update_stores_unsubscribes_and_subscribes_anew() {
    let mut node = Node::new();
    let spell_id =
        node.install("alice", "w1", "echo 1", "{}", every_minute(), Ok(Some(vec!["timer"]))).unwrap();
    node.log.clear();
    assert_eq!(node.update("alice", "w1", &spell_id, on_connect(), Ok(Some(vec!["connect"]))), Ok(()));
    assert_eq!(node.log, vec!["set_trigger_config", "unsubscribe", "subscribe"]);
    assert_eq!(node.subscribed[&spell_id], vec!["connect"]);
    assert_eq!(node.services[&spell_id].config, Some(on_connect()));
    assert_eq!(node.info("w1", &spell_id).unwrap().trigger_config, on_connect());
}

#[test]
fn update_asks_for_each_request_with_its_exact_arguments() {
    let node = Node::new();
    let mut context = params("alice", "w1");
    context.ttl = 4_000_000_000;
    let (update, step) = spell_update_config(
        "s".to_string(),
        on_connect(),
        Ok(Some(vec!["connect"])),
        &context,
        &node.guard,
    );
    assert_eq!(
        step,
        Step::Perform(Request::Call(ServiceCall {
            worker: id("w1"),
            spell_id: "s".to_string(),
            method: SpellMethod::SetTriggerConfig,
            args: vec![CallArg::Config(on_connect())],
            particle_id: None,
            caller: id("w1"),
            ttl: 4_000_000_000,
        }))
    );
    let saved = Event::Called(Ok(Reply::Unit(UnitValue { success: true, error: String::new() })));
    let (update, step) = update.advance(saved);
    assert_eq!(step, Step::Perform(Request::Unsubscribe { spell_id: "s".to_string() }));
    let (update, step) = update.advance(Event::Unsubscribed(Ok(())));
    assert_eq!(
        step,
        Step::Perform(Request::Subscribe { spell_id: "s".to_string(), config: vec!["connect"] })
    );
    let (update, step) = update.advance(Event::Subscribed(Ok(())));
    assert_eq!(step, Step::Done(Ok(())));
    assert!(update.is_finished());
}

#[test]
fn update_to_no_triggers_unsubscribes_and_leaves_the_spell_registered() {
    let mut node = Node::new();
    let spell_id =
        node.install("alice", "w1", "echo 1", "{}", every_minute(), Ok(Some(vec!["timer"]))).unwrap();
    node.log.clear();
    assert_eq!(node.update("alice", "w1", &spell_id, TriggerConfig::default(), Ok(None)), Ok(()));
    assert_eq!(node.log, vec!["set_trigger_config", "unsubscribe"]);
    assert!(node.subscribed.is_empty());
    assert_eq!(node.list("w1"), names(&[spell_id.as_str()]));
    assert!(node.services.contains_key(&spell_id));
}

#[test]
fn update_by_a_stranger_is_refused_and_changes_nothing() {
    let mut node = Node::new();
    let spell_id =
        node.install("alice", "w1", "echo 1", "{}", every_minute(), Ok(Some(vec!["timer"]))).unwrap();
    let before = node.state();
    node.log.clear();
    assert_eq!(
        node.update("mallory", "w1", &spell_id, on_connect(), Ok(Some(vec!["connect"]))),
        Err(SpellError {
            operation: Operation::UpdateConfig,
            spell_id: Some(spell_id),
            failure: unauthorized("mallory", "w1", "alice"),
        })
    );
    assert!(node.log.is_empty());
    assert_eq!(node.state(), before);
}

#[test]
fn update_with_a_malformed_configuration_touches_nothing() {
    let mut node = Node::new();
    let spell_id =
        node.install("alice", "w1", "echo 1", "{}", every_minute(), Ok(Some(vec!["timer"]))).unwrap();
    let before = node.state();
    node.log.clear();
    let malformed = ValidationError { reason: "period is too big".to_string() };
    assert_eq!(
        node.update("alice", "w1", &spell_id, on_connect(), Err(malformed.clone())),
        Err(SpellError {
            operation: Operation::UpdateConfig,
            spell_id: Some(spell_id),
            failure: Failure::Validation(malformed),
        })
    );
    assert!(node.log.is_empty());
    assert_eq!(node.state(), before);
}

#[test]
fn update_that_cannot_store_the_configuration_leaves_the_subscription() {
    let mut node = Node::new();
    let spell_id =
        node.install("alice", "w1", "echo 1", "{}", every_minute(), Ok(Some(vec!["timer"]))).unwrap();
    node.log.clear();
    node.fail_call = Some(SpellMethod::SetTriggerConfig);
    assert_eq!(
        node.update("alice", "w1", &spell_id, on_connect(), Ok(Some(vec!["connect"]))),
        Err(SpellError {
            operation: Operation::UpdateConfig,
            spell_id: Some(spell_id.clone()),
            failure: Failure::Call { method: SpellMethod::SetTriggerConfig, cause: CallError::Timeout },
        })
    );
    assert_eq!(node.log, vec!["set_trigger_config"]);
    assert_eq!(node.subscribed[&spell_id], vec!["timer"]);
}

#[test]
fn update_does_not_take_back_the_stored_configuration_when_the_triggers_fail() {
    let mut node = Node::new();
    let spell_id =
        node.install("alice", "w1", "echo 1", "{}", every_minute(), Ok(Some(vec!["timer"]))).unwrap();
    node.log.clear();
    node.fail_subscribe = true;
    let failed = Err(SpellError {
        operation: Operation::UpdateConfig,
        spell_id: Some(spell_id.clone()),
        failure: Failure::Subscription(SubscriptionError { reason: "bus down".to_string() }),
    });
    assert_eq!(node.update("alice", "w1", &spell_id, on_connect(), Ok(Some(vec!["connect"]))), failed);
    assert_eq!(node.log, vec!["set_trigger_config", "unsubscribe", "subscribe"]);
    assert_eq!(node.services[&spell_id].config, Some(on_connect()));
    assert!(node.subscribed.is_empty());

    node.log.clear();
    node.fail_subscribe = false;
    node.fail_unsubscribe = true;
    assert_eq!(node.update("alice", "w1", &spell_id, every_minute(), Ok(Some(vec!["timer"]))), failed);
    assert_eq!(node.log, vec!["set_trigger_config", "unsubscribe"]);
    assert_eq!(node.services[&spell_id].config, Some(every_minute()));
}

#[test]
fn spells_are_listed_for_their_own_worker_only() {
    let mut node = Node::new();
    let a1 = node.install("alice", "w1", "a", "{}", every_minute(), Ok(None)).unwrap();
    let b1 = node.install("bob", "w2", "b", "{}", every_minute(), Ok(None)).unwrap();
    let a2 = node.install("w1", "w1", "c", "{}", every_minute(), Ok(None)).unwrap();
    assert_eq!(node.list("w1"), names(&[a1.as_str(), a2.as_str()]));
    assert_eq!(node.list("w2"), names(&[b1.as_str()]));
    assert_eq!(node.list("host"), names(&[]));
    assert_eq!(node.remove("bob", "w2", &b1), Ok(()));
    assert_eq!(node.list("w1"), names(&[a1.as_str(), a2.as_str()]));
    assert_eq!(node.list("w2"), names(&[]));
}
