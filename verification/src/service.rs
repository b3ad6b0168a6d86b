//! The boundary to the host of the spells' services and to the trigger
//! service: what is asked of them, and what they answer.

use vstd::prelude::*;
use crate::error::{CallError, CallErrorView, ServiceError, SubscriptionError};
use crate::identity::Identity;
use crate::json::JsonValue;
use crate::text::{view_of, views};
use crate::trigger::TriggerConfig;

verus! {

/// The functions of a spell's own service that this library calls.
#[derive(Clone, Copy, Debug, PartialEq, Eq, Structural)]
pub enum SpellMethod {
    SetScriptSource,
    SetJsonFields,
    SetTriggerConfig,
    GetTriggerConfig,
    GetScriptSource,
    GetString,
    StoreError,
}

impl SpellMethod {
    /// The name by which the spell's service knows the function.
    pub open spec fn name_of(self) -> Seq<char> {
        match self {
            SpellMethod::SetScriptSource => "set_script_source_to_file"@,
            SpellMethod::SetJsonFields => "set_json_fields"@,
            SpellMethod::SetTriggerConfig => "set_trigger_config"@,
            SpellMethod::GetTriggerConfig => "get_trigger_config"@,
            SpellMethod::GetScriptSource => "get_script_source_from_file"@,
            SpellMethod::GetString => "get_string"@,
            SpellMethod::StoreError => "store_error"@,
        }
    }

    /// The name by which the spell's service knows the function.
    pub fn name(&self) -> (r: &'static str)
        ensures
            r@ == self.name_of(),
    {
        match self {
            SpellMethod::SetScriptSource => "set_script_source_to_file",
            SpellMethod::SetJsonFields => "set_json_fields",
            SpellMethod::SetTriggerConfig => "set_trigger_config",
            SpellMethod::GetTriggerConfig => "get_trigger_config",
            SpellMethod::GetScriptSource => "get_script_source_from_file",
            SpellMethod::GetString => "get_string",
            SpellMethod::StoreError => "store_error",
        }
    }
}

/// One argument of a call into a spell's service.
#[derive(Debug, PartialEq, Eq)]
pub enum CallArg {
    /// A text, passed as a JSON string.
    Text(String),
    /// A JSON document, passed as it is.
    Json(JsonValue),
    /// A trigger configuration as its user wrote it.
    Config(TriggerConfig),
    /// A point in time, passed as a JSON number.
    Timestamp(u64),
}

pub enum CallArgView {
    Text(Seq<char>),
    Json(Seq<char>),
    Config(TriggerConfig),
    Timestamp(u64),
}

impl View for CallArg {
    type V = CallArgView;

    open spec fn view(&self) -> CallArgView {
        match self {
            CallArg::Text(text) => CallArgView::Text(text@),
            CallArg::Json(document) => CallArgView::Json(document@),
            CallArg::Config(config) => CallArgView::Config(*config),
            CallArg::Timestamp(at) => CallArgView::Timestamp(*at),
        }
    }
}

/// A call into a spell's own service: which function of which spell on which
/// worker, with what arguments, on whose behalf, and how long it may take.
#[derive(Debug, PartialEq, Eq)]
pub struct ServiceCall {
    pub worker: Identity,
    pub spell_id: String,
    pub method: SpellMethod,
    pub args: Vec<CallArg>,
    /// The request the call is made for, where the spell's service is to
    /// know it.
    pub particle_id: Option<String>,
    pub caller: Identity,
    /// The time the call may take, in milliseconds.
    pub ttl: u64,
}

pub struct ServiceCallView {
    pub worker: Seq<char>,
    pub spell_id: Seq<char>,
    pub method: SpellMethod,
    pub args: Seq<CallArgView>,
    pub particle_id: Option<Seq<char>>,
    pub caller: Seq<char>,
    pub ttl: u64,
}

impl View for ServiceCall {
    type V = ServiceCallView;

    open spec fn view(&self) -> ServiceCallView {
        ServiceCallView {
            worker: self.worker@,
            spell_id: self.spell_id@,
            method: self.method,
            args: views(self.args@),
            particle_id: view_of(self.particle_id),
            caller: self.caller@,
            ttl: self.ttl,
        }
    }
}

/// What an operation asks of the world outside this library. `C` is a
/// resolved trigger configuration: the library hands it on and never looks
/// inside.
#[derive(Debug, PartialEq, Eq)]
pub enum Request<C> {
    /// Make a service from `blueprint`, owned by `owner`.
    CreateService { blueprint: String, owner: Identity },
    /// Destroy the service of spell `spell_id`, owned by `owner`.
    RemoveService { particle_id: String, owner: Identity, spell_id: String },
    /// Call a function of a spell's service.
    Call(ServiceCall),
    /// Bind the triggers of `config` to the spell, in place of any it had:
    /// all of them or, where that fails, none.
    Subscribe { spell_id: String, config: C },
    /// Remove every trigger of the spell. A spell without triggers is to be
    /// answered with success. A trigger service that answers it with a
    /// failure instead is taken at its word: the failure ends the operation
    /// like any other.
    Unsubscribe { spell_id: String },
}

pub enum RequestView<C> {
    CreateService { blueprint: Seq<char>, owner: Seq<char> },
    RemoveService { particle_id: Seq<char>, owner: Seq<char>, spell_id: Seq<char> },
    Call(ServiceCallView),
    Subscribe { spell_id: Seq<char>, config: C },
    Unsubscribe { spell_id: Seq<char> },
}

impl<C> View for Request<C> {
    type V = RequestView<C>;

    open spec fn view(&self) -> RequestView<C> {
        match self {
            Request::CreateService { blueprint, owner } => RequestView::CreateService {
                blueprint: blueprint@,
                owner: owner@,
            },
            Request::RemoveService { particle_id, owner, spell_id } => RequestView::RemoveService {
                particle_id: particle_id@,
                owner: owner@,
                spell_id: spell_id@,
            },
            Request::Call(call) => RequestView::Call(call@),
            Request::Subscribe { spell_id, config } => RequestView::Subscribe {
                spell_id: spell_id@,
                config: *config,
            },
            Request::Unsubscribe { spell_id } => RequestView::Unsubscribe { spell_id: spell_id@ },
        }
    }
}

/// The answer of a function that gives nothing back but whether it worked.
#[derive(Debug, PartialEq, Eq)]
pub struct UnitValue {
    pub success: bool,
    pub error: String,
}

/// The answer of the function that reads a spell's script.
#[derive(Debug, PartialEq, Eq)]
pub struct ScriptValue {
    pub source_code: String,
    pub success: bool,
    pub error: String,
}

/// The answer of the function that reads a spell's trigger configuration.
#[derive(Debug, PartialEq, Eq)]
pub struct TriggerConfigValue {
    pub config: TriggerConfig,
    pub success: bool,
    pub error: String,
}

/// The answer of the function that reads one text of a spell's data.
#[derive(Debug, PartialEq, Eq)]
pub struct StringValue {
    pub str: String,
    pub success: bool,
    pub error: String,
    pub absent: bool,
}

/// What a spell's service answers a call with.
#[derive(Debug, PartialEq, Eq)]
pub enum Reply {
    Unit(UnitValue),
    Script(ScriptValue),
    TriggerConfig(TriggerConfigValue),
    Text(StringValue),
}

pub enum ReplyView {
    Unit { success: bool, error: Seq<char> },
    Script { source_code: Seq<char>, success: bool, error: Seq<char> },
    TriggerConfig { config: TriggerConfig, success: bool, error: Seq<char> },
    Text { str: Seq<char>, success: bool, error: Seq<char>, absent: bool },
}

impl View for Reply {
    type V = ReplyView;

    open spec fn view(&self) -> ReplyView {
        match self {
            Reply::Unit(value) => ReplyView::Unit { success: value.success, error: value.error@ },
            Reply::Script(value) => ReplyView::Script {
                source_code: value.source_code@,
                success: value.success,
                error: value.error@,
            },
            Reply::TriggerConfig(value) => ReplyView::TriggerConfig {
                config: value.config,
                success: value.success,
                error: value.error@,
            },
            Reply::Text(value) => ReplyView::Text {
                str: value.str@,
                success: value.success,
                error: value.error@,
                absent: value.absent,
            },
        }
    }
}

/// How the last request ended, as the one who performed it reports it.
#[derive(Debug, PartialEq, Eq)]
pub enum Event {
    /// A service was created, with the identifier given; or it was not.
    ServiceCreated(Result<String, ServiceError>),
    /// A service was removed; or it was not.
    ServiceRemoved(Result<(), ServiceError>),
    /// A call was answered; or it was not.
    Called(Result<Reply, CallError>),
    /// The spell's triggers were bound; or they were not.
    Subscribed(Result<(), SubscriptionError>),
    /// The spell's triggers were removed; or they were not.
    Unsubscribed(Result<(), SubscriptionError>),
}

pub enum EventView {
    ServiceCreated(Result<Seq<char>, Seq<char>>),
    ServiceRemoved(Result<(), Seq<char>>),
    Called(Result<ReplyView, CallErrorView>),
    Subscribed(Result<(), Seq<char>>),
    Unsubscribed(Result<(), Seq<char>>),
}

impl View for Event {
    type V = EventView;

    open spec fn view(&self) -> EventView {
        match self {
            Event::ServiceCreated(Ok(spell_id)) => EventView::ServiceCreated(Ok(spell_id@)),
            Event::ServiceCreated(Err(error)) => EventView::ServiceCreated(Err(error@)),
            Event::ServiceRemoved(Ok(_)) => EventView::ServiceRemoved(Ok(())),
            Event::ServiceRemoved(Err(error)) => EventView::ServiceRemoved(Err(error@)),
            Event::Called(Ok(reply)) => EventView::Called(Ok(reply@)),
            Event::Called(Err(error)) => EventView::Called(Err(error@)),
            Event::Subscribed(Ok(_)) => EventView::Subscribed(Ok(())),
            Event::Subscribed(Err(error)) => EventView::Subscribed(Err(error@)),
            Event::Unsubscribed(Ok(_)) => EventView::Unsubscribed(Ok(())),
            Event::Unsubscribed(Err(error)) => EventView::Unsubscribed(Err(error@)),
        }
    }
}

} // verus!
