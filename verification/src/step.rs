//! What an operation does next, and how the answers to its calls are read.

use vstd::prelude::*;
use crate::error::{CallError, CallErrorView, SpellError, SpellErrorView};
use crate::identity::Identity;
use crate::service::{
    CallArg, CallArgView, Event, EventView, Reply, ReplyView, Request, RequestView, ServiceCall,
    ServiceCallView, SpellMethod,
};
use crate::context::{RequestContext, RequestContextView};
use crate::text::views;
use crate::trigger::TriggerConfig;

verus! {

/// What an operation does next: it asks for something and waits for the
/// event that answers it, or it is over and has its result.
#[derive(Debug, PartialEq, Eq)]
pub enum Step<C, T> {
    Perform(Request<C>),
    Done(Result<T, SpellError>),
}

pub enum StepView<C, V> {
    Perform(RequestView<C>),
    Done(Result<V, SpellErrorView>),
}

impl<C, T: View> View for Step<C, T> {
    type V = StepView<C, T::V>;

    open spec fn view(&self) -> StepView<C, T::V> {
        match self {
            Step::Perform(request) => StepView::Perform(request@),
            Step::Done(Ok(value)) => StepView::Done(Ok(value@)),
            Step::Done(Err(error)) => StepView::Done(Err(error@)),
        }
    }
}

/// An operation after one event: its new state, the registry as it then
/// stands, and what the operation does next.
pub struct Turn<S, C, V> {
    pub state: S,
    pub registry: Set<(Seq<char>, Seq<char>)>,
    pub step: StepView<C, V>,
}

/// The call that a worker makes into one of its own spells: on its own
/// behalf, tied to no request.
pub open spec fn own_call(
    worker: Seq<char>,
    spell_id: Seq<char>,
    method: SpellMethod,
    args: Seq<CallArgView>,
    ttl: u64,
) -> ServiceCallView {
    ServiceCallView { worker, spell_id, method, args, particle_id: None, caller: worker, ttl }
}

/// Builds the call that a worker makes into one of its own spells.
pub fn make_own_call(
    worker: &Identity,
    spell_id: &String,
    method: SpellMethod,
    args: Vec<CallArg>,
    ttl: u64,
) -> (r: ServiceCall)
    ensures
        r@ == own_call(worker@, spell_id@, method, views(args@), ttl),
{
    ServiceCall {
        worker: worker.clone(),
        spell_id: spell_id.clone(),
        method,
        args,
        particle_id: None,
        caller: worker.clone(),
        ttl,
    }
}

/// How an event answers a call that is made for its effect alone: it went
/// through, or it failed and why. A call that was answered with a failure
/// was refused for the reason the answer gives; one answered with anything
/// but a bare verdict was malformed. An event that reports no call answers
/// none.
pub open spec fn effect_of(event: EventView) -> Option<Result<(), CallErrorView>> {
    match event {
        EventView::Called(Ok(ReplyView::Unit { success, error })) => Some(
            if success {
                Ok(())
            } else {
                Err(CallErrorView::Refused { error })
            },
        ),
        EventView::Called(Ok(_)) => Some(Err(CallErrorView::Malformed)),
        EventView::Called(Err(cause)) => Some(Err(cause)),
        _ => None,
    }
}

/// Reads an event as the answer to a call made for its effect alone.
pub fn read_effect(event: Event) -> (r: Option<Result<(), CallError>>)
    ensures
        match effect_of(event@) {
            Some(Ok(_)) => r == Some(Ok::<(), CallError>(())),
            Some(Err(cause)) => r matches Some(Err(error)) && error@ == cause,
            None => r is None,
        },
{
    match event {
        Event::Called(Ok(Reply::Unit(verdict))) => {
            if verdict.success {
                Some(Ok(()))
            } else {
                Some(Err(CallError::Refused { error: verdict.error }))
            }
        },
        Event::Called(Ok(_)) => Some(Err(CallError::Malformed)),
        Event::Called(Err(cause)) => Some(Err(cause)),
        _ => None,
    }
}

/// The call that is made into a spell for a request: on behalf of the peer
/// that made the request, tied to it, and with the time it allows.
pub open spec fn call_for(
    params: RequestContextView,
    spell_id: Seq<char>,
    method: SpellMethod,
    args: Seq<CallArgView>,
) -> ServiceCallView {
    ServiceCallView {
        worker: params.host_id,
        spell_id,
        method,
        args,
        particle_id: Some(params.id),
        caller: params.init_peer_id,
        ttl: params.ttl as u64,
    }
}

/// Builds the call that is made into a spell for a request.
pub fn make_call_for(
    params: &RequestContext,
    spell_id: &String,
    method: SpellMethod,
    args: Vec<CallArg>,
) -> (r: ServiceCall)
    ensures
        r@ == call_for(params@, spell_id@, method, views(args@)),
{
    ServiceCall {
        worker: params.host_id.clone(),
        spell_id: spell_id.clone(),
        method,
        args,
        particle_id: Some(params.id.clone()),
        caller: params.init_peer_id.clone(),
        ttl: params.ttl as u64,
    }
}

/// How an event answers the call that reads a spell's trigger
/// configuration: with the configuration, or with why there is none. An
/// answer of another shape is malformed; an event that reports no call
/// answers none.
pub open spec fn config_in(event: EventView) -> Option<Result<TriggerConfig, CallErrorView>> {
    match event {
        EventView::Called(Ok(ReplyView::TriggerConfig { config, success, error })) => Some(
            if success {
                Ok(config)
            } else {
                Err(CallErrorView::Refused { error })
            },
        ),
        EventView::Called(Ok(_)) => Some(Err(CallErrorView::Malformed)),
        EventView::Called(Err(cause)) => Some(Err(cause)),
        _ => None,
    }
}

/// Reads an event as the answer to the call that reads a spell's trigger
/// configuration.
pub fn read_config(event: Event) -> (r: Option<Result<TriggerConfig, CallError>>)
    ensures
        match config_in(event@) {
            Some(Ok(config)) => r == Some(Ok::<TriggerConfig, CallError>(config)),
            Some(Err(cause)) => r matches Some(Err(error)) && error@ == cause,
            None => r is None,
        },
{
    match event {
        Event::Called(Ok(Reply::TriggerConfig(answer))) => {
            if answer.success {
                Some(Ok(answer.config))
            } else {
                Some(Err(CallError::Refused { error: answer.error }))
            }
        },
        Event::Called(Ok(_)) => Some(Err(CallError::Malformed)),
        Event::Called(Err(cause)) => Some(Err(cause)),
        _ => None,
    }
}

/// How an event answers the call that reads a spell's script: with the
/// script, or with why there is none.
pub open spec fn script_in(event: EventView) -> Option<Result<Seq<char>, CallErrorView>> {
    match event {
        EventView::Called(Ok(ReplyView::Script { source_code, success, error })) => Some(
            if success {
                Ok(source_code)
            } else {
                Err(CallErrorView::Refused { error })
            },
        ),
        EventView::Called(Ok(_)) => Some(Err(CallErrorView::Malformed)),
        EventView::Called(Err(cause)) => Some(Err(cause)),
        _ => None,
    }
}

/// Reads an event as the answer to the call that reads a spell's script.
pub fn read_script(event: Event) -> (r: Option<Result<String, CallError>>)
    ensures
        match script_in(event@) {
            Some(Ok(script)) => r matches Some(Ok(found)) && found@ == script,
            Some(Err(cause)) => r matches Some(Err(error)) && error@ == cause,
            None => r is None,
        },
{
    match event {
        Event::Called(Ok(Reply::Script(answer))) => {
            if answer.success {
                Some(Ok(answer.source_code))
            } else {
                Some(Err(CallError::Refused { error: answer.error }))
            }
        },
        Event::Called(Ok(_)) => Some(Err(CallError::Malformed)),
        Event::Called(Err(cause)) => Some(Err(cause)),
        _ => None,
    }
}

/// How an event answers the call that reads one text of a spell's data:
/// with the text, or with why there is none. A text that the spell does not
/// hold is answered as the empty text.
pub open spec fn text_in(event: EventView) -> Option<Result<Seq<char>, CallErrorView>> {
    match event {
        EventView::Called(Ok(ReplyView::Text { str, success, error, absent })) => Some(
            if success {
                Ok(str)
            } else {
                Err(CallErrorView::Refused { error })
            },
        ),
        EventView::Called(Ok(_)) => Some(Err(CallErrorView::Malformed)),
        EventView::Called(Err(cause)) => Some(Err(cause)),
        _ => None,
    }
}

/// Reads an event as the answer to the call that reads one text of a
/// spell's data.
pub fn read_text(event: Event) -> (r: Option<Result<String, CallError>>)
    ensures
        match text_in(event@) {
            Some(Ok(text)) => r matches Some(Ok(found)) && found@ == text,
            Some(Err(cause)) => r matches Some(Err(error)) && error@ == cause,
            None => r is None,
        },
{
    match event {
        Event::Called(Ok(Reply::Text(answer))) => {
            if answer.success {
                Some(Ok(answer.str))
            } else {
                Some(Err(CallError::Refused { error: answer.error }))
            }
        },
        Event::Called(Ok(_)) => Some(Err(CallError::Malformed)),
        Event::Called(Err(cause)) => Some(Err(cause)),
        _ => None,
    }
}

} // verus!
