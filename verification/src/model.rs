//! Whole runs of the operations: the world they act on, what an answered
//! request does to it, and how far an operation gets on a sequence of events.
//! Nothing here is executed: it is what the laws are stated over.

use vstd::prelude::*;
use crate::error::SpellErrorView;
use crate::inspect::{info_next, ReadSpellInfoView, SpellInfoView};
use crate::install::{install_next, InstallSpellView};
use crate::remove::{remove_next, RemoveSpellView};
use crate::service::{CallArgView, EventView, ReplyView, RequestView, ServiceCallView, SpellMethod};
use crate::step::StepView;
use crate::trigger::TriggerConfig;
use crate::update::{update_next, UpdateConfigView};

verus! {

/// What a spell's service holds of what was stored with it: the script and
/// the trigger configuration, each as it was stored last.
pub struct Record {
    pub script: Option<Seq<char>>,
    pub config: Option<TriggerConfig>,
}

/// What the operations act on. The registry is this library's own. The rest
/// is kept elsewhere, and stands here for what the answers to requests say
/// of it: a service exists from the answer that it was created until the
/// answer that it was removed; a spell is subscribed from the answer that its
/// triggers were bound until the answer that they were removed; a spell holds
/// what the last call that it accepted stored with it.
#[verifier::ext_equal]
pub struct World {
    /// The pairs of a worker and a spell installed on it.
    pub registry: Set<(Seq<char>, Seq<char>)>,
    /// The pairs of an owner and the spell whose service exists.
    pub services: Set<(Seq<char>, Seq<char>)>,
    /// The spells whose triggers are bound.
    pub subscribed: Set<Seq<char>>,
    /// What the spell of a worker holds, by the pair of the two.
    pub stored: Map<(Seq<char>, Seq<char>), Record>,
}

/// What a spell holds, where it holds anything.
pub open spec fn record_of(
    stored: Map<(Seq<char>, Seq<char>), Record>,
    key: (Seq<char>, Seq<char>),
) -> Record {
    if stored.dom().contains(key) {
        stored[key]
    } else {
        Record { script: None, config: None }
    }
}

/// What the spells hold after a call that its spell accepted: the call that
/// stores a script or a trigger configuration replaces the one held; any
/// other changes nothing that is kept track of here.
pub open spec fn stored_after(
    stored: Map<(Seq<char>, Seq<char>), Record>,
    call: ServiceCallView,
) -> Map<(Seq<char>, Seq<char>), Record> {
    let key = (call.worker, call.spell_id);
    let record = record_of(stored, key);
    if call.args.len() != 1 {
        stored
    } else {
        match (call.method, call.args[0]) {
            (SpellMethod::SetScriptSource, CallArgView::Text(script)) => stored.insert(
                key,
                Record { script: Some(script), ..record },
            ),
            (SpellMethod::SetTriggerConfig, CallArgView::Config(config)) => stored.insert(
                key,
                Record { config: Some(config), ..record },
            ),
            _ => stored,
        }
    }
}

/// The world after `request` was performed and answered by `event`. Only a
/// request that went through changes anything, and only what it is about. An
/// event that does not answer the request says nothing.
pub open spec fn answered<C>(world: World, request: RequestView<C>, event: EventView) -> World {
    match (request, event) {
        (RequestView::CreateService { owner, .. }, EventView::ServiceCreated(Ok(spell_id))) => World {
            services: world.services.insert((owner, spell_id)),
            ..world
        },
        (
            RequestView::RemoveService { owner, spell_id, .. },
            EventView::ServiceRemoved(Ok(_)),
        ) => World {
            services: world.services.remove((owner, spell_id)),
            stored: world.stored.remove((owner, spell_id)),
            ..world
        },
        (
            RequestView::Call(call),
            EventView::Called(Ok(ReplyView::Unit { success: true, .. })),
        ) => World { stored: stored_after(world.stored, call), ..world },
        (RequestView::Subscribe { spell_id, .. }, EventView::Subscribed(Ok(_))) => World {
            subscribed: world.subscribed.insert(spell_id),
            ..world
        },
        (RequestView::Unsubscribe { spell_id }, EventView::Unsubscribed(Ok(_))) => World {
            subscribed: world.subscribed.remove(spell_id),
            ..world
        },
        _ => world,
    }
}

/// Whether `event` answers `request` as a spell does that gives back what it
/// holds: a read of the script or of the trigger configuration is answered
/// with the one that was stored last. Of any other request nothing is asked.
pub open spec fn answers_faithfully<C>(
    world: World,
    request: RequestView<C>,
    event: EventView,
) -> bool {
    match request {
        RequestView::Call(call) => {
            let record = record_of(world.stored, (call.worker, call.spell_id));
            match call.method {
                SpellMethod::GetTriggerConfig => match (record.config, event) {
                    (
                        Some(held),
                        EventView::Called(Ok(ReplyView::TriggerConfig { config, success, .. })),
                    ) => success && config == held,
                    _ => false,
                },
                SpellMethod::GetScriptSource => match (record.script, event) {
                    (
                        Some(held),
                        EventView::Called(Ok(ReplyView::Script { source_code, success, .. })),
                    ) => success && source_code == held,
                    _ => false,
                },
                _ => true,
            }
        },
        _ => true,
    }
}

/// What a request asks for, without what it asks it of.
pub enum RequestKind {
    CreateService,
    RemoveService,
    Call(SpellMethod),
    Subscribe,
    Unsubscribe,
}

/// What `request` asks for.
pub open spec fn kind_of<C>(request: RequestView<C>) -> RequestKind {
    match request {
        RequestView::CreateService { .. } => RequestKind::CreateService,
        RequestView::RemoveService { .. } => RequestKind::RemoveService,
        RequestView::Call(call) => RequestKind::Call(call.method),
        RequestView::Subscribe { .. } => RequestKind::Subscribe,
        RequestView::Unsubscribe { .. } => RequestKind::Unsubscribe,
    }
}

/// What each of the requests asks for, in the same order.
pub open spec fn kinds<C>(requests: Seq<RequestView<C>>) -> Seq<RequestKind> {
    Seq::new(requests.len(), |i: int| kind_of(requests[i]))
}

/// Whether an error says that the triggers of a spell could not be bound or
/// removed.
pub open spec fn failed_to_subscribe(error: SpellErrorView) -> bool {
    error.failure is Subscription && error.spell_id is Some
}

/// Whether an error says that the service of a spell could not be removed.
pub open spec fn failed_to_remove(error: SpellErrorView) -> bool {
    error.failure is Service && error.spell_id is Some
}

/// How far an operation got on the events it was given.
#[verifier::ext_equal]
pub struct Outcome<C, V> {
    /// The world as the operation left it.
    pub world: World,
    /// Every request the operation made, in the order it made them.
    pub requests: Seq<RequestView<C>>,
    /// The operation's result, once it is over; nothing while it still waits
    /// for an event.
    pub result: Option<Result<V, SpellErrorView>>,
}

/// An install run on `events`: each request the install makes is answered by
/// the next event, until the install is over or the events have run out.
pub open spec fn install_run<C>(
    state: InstallSpellView<C>,
    step: StepView<C, Seq<char>>,
    world: World,
    events: Seq<EventView>,
) -> Outcome<C, Seq<char>>
    decreases events.len(),
{
    match step {
        StepView::Done(result) => Outcome { world, requests: Seq::empty(), result: Some(result) },
        StepView::Perform(request) => if events.len() == 0 {
            Outcome { world, requests: seq![request], result: None }
        } else {
            let turn = install_next(state, world.registry, events[0]);
            let rest = install_run(
                turn.state,
                turn.step,
                answered(World { registry: turn.registry, ..world }, request, events[0]),
                events.drop_first(),
            );
            Outcome { requests: seq![request] + rest.requests, ..rest }
        },
    }
}

/// A removal run on `events`.
pub open spec fn remove_run<C>(
    state: RemoveSpellView,
    step: StepView<C, ()>,
    world: World,
    events: Seq<EventView>,
) -> Outcome<C, ()>
    decreases events.len(),
{
    match step {
        StepView::Done(result) => Outcome { world, requests: Seq::empty(), result: Some(result) },
        StepView::Perform(request) => if events.len() == 0 {
            Outcome { world, requests: seq![request], result: None }
        } else {
            let turn = remove_next::<C>(state, world.registry, events[0]);
            let rest = remove_run(
                turn.state,
                turn.step,
                answered(World { registry: turn.registry, ..world }, request, events[0]),
                events.drop_first(),
            );
            Outcome { requests: seq![request] + rest.requests, ..rest }
        },
    }
}

/// A reconfiguration run on `events`.
pub open spec fn update_run<C>(
    state: UpdateConfigView<C>,
    step: StepView<C, ()>,
    world: World,
    events: Seq<EventView>,
) -> Outcome<C, ()>
    decreases events.len(),
{
    match step {
        StepView::Done(result) => Outcome { world, requests: Seq::empty(), result: Some(result) },
        StepView::Perform(request) => if events.len() == 0 {
            Outcome { world, requests: seq![request], result: None }
        } else {
            let turn = update_next(state, events[0]);
            let rest = update_run(
                turn.0,
                turn.1,
                answered(world, request, events[0]),
                events.drop_first(),
            );
            Outcome { requests: seq![request] + rest.requests, ..rest }
        },
    }
}

/// The reading of a spell run on `events`.
pub open spec fn info_run<C>(
    state: ReadSpellInfoView,
    step: StepView<C, SpellInfoView>,
    world: World,
    events: Seq<EventView>,
) -> Outcome<C, SpellInfoView>
    decreases events.len(),
{
    match step {
        StepView::Done(result) => Outcome { world, requests: Seq::empty(), result: Some(result) },
        StepView::Perform(request) => if events.len() == 0 {
            Outcome { world, requests: seq![request], result: None }
        } else {
            let turn = info_next::<C>(state, events[0]);
            let rest = info_run(
                turn.0,
                turn.1,
                answered(world, request, events[0]),
                events.drop_first(),
            );
            Outcome { requests: seq![request] + rest.requests, ..rest }
        },
    }
}

/// Whether every event of a run of the reading of a spell answers
/// faithfully the request before it.
pub open spec fn info_is_read_faithfully<C>(
    state: ReadSpellInfoView,
    step: StepView<C, SpellInfoView>,
    world: World,
    events: Seq<EventView>,
) -> bool
    decreases events.len(),
{
    match step {
        StepView::Done(_) => true,
        StepView::Perform(request) => if events.len() == 0 {
            true
        } else {
            let turn = info_next::<C>(state, events[0]);
            &&& answers_faithfully(world, request, events[0])
            &&& info_is_read_faithfully(
                turn.0,
                turn.1,
                answered(world, request, events[0]),
                events.drop_first(),
            )
        },
    }
}

} // verus!
