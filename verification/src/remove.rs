//! The removal of a spell.

use vstd::prelude::*;
use crate::context::{RequestContext, RequestContextView};
use crate::error::{Failure, FailureView, Operation, SpellError, SpellErrorView};
use crate::identity::Identity;
use crate::permission::{mutate_allowed, PermissionGuard};
use crate::registry::SpellRegistry;
use crate::service::{Event, EventView, Request, RequestView};
use crate::step::{Step, StepView, Turn};

verus! {

/// Where a removal stands: what it has asked for and is waiting on.
#[derive(Clone, Copy, Debug, PartialEq, Eq, Structural)]
pub enum RemoveStage {
    /// The spell's triggers are being removed.
    Unsubscribing,
    /// The spell has left the registry and its service is being removed.
    RemovingService,
    /// The removal is over.
    Finished,
}

/// A removal under way.
pub struct RemoveSpell {
    stage: RemoveStage,
    particle_id: String,
    spell_id: String,
    worker_id: Identity,
}

pub struct RemoveSpellView {
    pub stage: RemoveStage,
    /// The request that the removal is made for.
    pub particle_id: Seq<char>,
    pub spell_id: Seq<char>,
    /// The worker that the spell is installed on.
    pub worker_id: Seq<char>,
}

impl View for RemoveSpell {
    type V = RemoveSpellView;

    closed spec fn view(&self) -> RemoveSpellView {
        RemoveSpellView {
            stage: self.stage,
            particle_id: self.particle_id@,
            spell_id: self.spell_id@,
            worker_id: self.worker_id@,
        }
    }
}

impl RemoveSpellView {
    /// The same removal at another stage.
    pub open spec fn at(self, stage: RemoveStage) -> RemoveSpellView {
        RemoveSpellView { stage, ..self }
    }

    /// The removal is over with `result`.
    pub open spec fn finish<C>(
        self,
        registry: Set<(Seq<char>, Seq<char>)>,
        result: Result<(), SpellErrorView>,
    ) -> Turn<RemoveSpellView, C, ()> {
        Turn { state: self.at(RemoveStage::Finished), registry, step: StepView::Done(result) }
    }

    /// What is reported when the removal fails.
    pub open spec fn error(self, failure: FailureView) -> SpellErrorView {
        SpellErrorView { operation: Operation::Remove, spell_id: Some(self.spell_id), failure }
    }

    /// The removal is over because of `failure`.
    pub open spec fn fail<C>(
        self,
        registry: Set<(Seq<char>, Seq<char>)>,
        failure: FailureView,
    ) -> Turn<RemoveSpellView, C, ()> {
        self.finish(registry, Err(self.error(failure)))
    }
}

/// The removal of `spell_id` from `worker_id`, and its first step: the
/// spell's triggers are to go before anything else does.
pub open spec fn remove_begin<C>(
    particle_id: Seq<char>,
    spell_id: Seq<char>,
    worker_id: Seq<char>,
) -> (RemoveSpellView, StepView<C, ()>) {
    (
        RemoveSpellView { stage: RemoveStage::Unsubscribing, particle_id, spell_id, worker_id },
        StepView::Perform(RequestView::Unsubscribe { spell_id }),
    )
}

/// How a removal goes on when `event` comes.
///
/// Once the triggers are gone, the spell leaves the registry and its service
/// is removed. If the triggers could not be removed the removal stops there
/// with the error: the spell stays registered and keeps its service.
pub open spec fn remove_next<C>(
    state: RemoveSpellView,
    registry: Set<(Seq<char>, Seq<char>)>,
    event: EventView,
) -> Turn<RemoveSpellView, C, ()> {
    match state.stage {
        RemoveStage::Unsubscribing => match event {
            EventView::Unsubscribed(Ok(_)) => Turn {
                state: state.at(RemoveStage::RemovingService),
                registry: registry.remove((state.worker_id, state.spell_id)),
                step: StepView::Perform(
                    RequestView::RemoveService {
                        particle_id: state.particle_id,
                        owner: state.worker_id,
                        spell_id: state.spell_id,
                    },
                ),
            },
            EventView::Unsubscribed(Err(cause)) => state.fail(
                registry,
                FailureView::Subscription(cause),
            ),
            _ => state.fail(registry, FailureView::OutOfTurn),
        },
        RemoveStage::RemovingService => match event {
            EventView::ServiceRemoved(Ok(_)) => state.finish(registry, Ok(())),
            EventView::ServiceRemoved(Err(failure)) => state.fail(
                registry,
                FailureView::Service(failure),
            ),
            _ => state.fail(registry, FailureView::OutOfTurn),
        },
        RemoveStage::Finished => state.fail(registry, FailureView::OutOfTurn),
    }
}

/// The removal that a request starts, and its first step: a caller that may
/// not change the worker's spells is turned away before anything is asked
/// for; for any other the removal begins.
pub open spec fn spell_remove_begin<C>(
    key_manager: &PermissionGuard,
    params: RequestContextView,
    spell_id: Seq<char>,
) -> (RemoveSpellView, StepView<C, ()>) {
    let begun = remove_begin::<C>(params.id, spell_id, params.host_id);
    if mutate_allowed(key_manager.roles_of(params.init_peer_id, params.host_id)) {
        begun
    } else {
        (
            begun.0.at(RemoveStage::Finished),
            StepView::Done(
                Err(
                    begun.0.error(
                        FailureView::Permission(
                            key_manager.refusal(params.init_peer_id, params.host_id, false),
                        ),
                    ),
                ),
            ),
        )
    }
}

/// Starts the removal of spell `spell_id` from `worker_id`, with no question
/// asked about who wants it. Whoever runs the removal performs each request
/// it asks for and hands the outcome to `advance`, until it is `Done`.
pub fn remove_spell<C>(particle_id: &str, spell_id: String, worker_id: Identity) -> (r: (
    RemoveSpell,
    Step<C, ()>,
))
    ensures
        (r.0@, r.1@) == remove_begin::<C>(particle_id@, spell_id@, worker_id@),
{
    let request = Request::Unsubscribe { spell_id: spell_id.clone() };
    (
        RemoveSpell {
            stage: RemoveStage::Unsubscribing,
            particle_id: particle_id.to_owned(),
            spell_id,
            worker_id,
        },
        Step::Perform(request),
    )
}

/// Starts the removal that the request `params` asks for: that of spell
/// `spell_id` from the worker the request addresses. A caller that is
/// neither the management peer, nor the worker, nor its creator gets a
/// permission error; for any other the removal begins as `remove_spell`
/// begins it.
pub fn spell_remove<C>(spell_id: String, params: &RequestContext, key_manager: &PermissionGuard) -> (r:
    (RemoveSpell, Step<C, ()>))
    ensures
        (r.0@, r.1@) == spell_remove_begin::<C>(key_manager, params@, spell_id@),
{
    match key_manager.authorize_mutate(&params.init_peer_id, &params.host_id) {
        Ok(_) => remove_spell(params.id.as_str(), spell_id, params.host_id.clone()),
        Err(refusal) => {
            let error = SpellError {
                operation: Operation::Remove,
                spell_id: Some(spell_id.clone()),
                failure: Failure::Permission(refusal),
            };
            (
                RemoveSpell {
                    stage: RemoveStage::Finished,
                    particle_id: params.id.clone(),
                    spell_id,
                    worker_id: params.host_id.clone(),
                },
                Step::Done(Err(error)),
            )
        },
    }
}

impl RemoveSpell {
    /// Whether the removal is over.
    pub fn is_finished(&self) -> (r: bool)
        ensures
            r == (self@.stage == RemoveStage::Finished),
    {
        match self.stage {
            RemoveStage::Finished => true,
            _ => false,
        }
    }

    /// The removal, over with `result`.
    fn finish<C>(self, result: Result<(), SpellError>) -> (r: (RemoveSpell, Step<C, ()>))
        ensures
            r.0@ == self@.at(RemoveStage::Finished),
            r.1@ == StepView::<C, ()>::Done(
                match result {
                    Ok(_) => Ok(()),
                    Err(error) => Err(error@),
                },
            ),
    {
        (RemoveSpell { stage: RemoveStage::Finished, ..self }, Step::Done(result))
    }

    /// The removal, over because of `failure`.
    fn fail<C>(self, failure: Failure) -> (r: (RemoveSpell, Step<C, ()>))
        ensures
            r.0@ == self@.at(RemoveStage::Finished),
            r.1@ == StepView::<C, ()>::Done(Err(self@.error(failure@))),
    {
        let error = SpellError {
            operation: Operation::Remove,
            spell_id: Some(self.spell_id.clone()),
            failure,
        };
        self.finish(Err(error))
    }

    /// Takes the outcome of the request that the removal was waiting on and
    /// says what the removal does next, as `remove_next` has it. The spell
    /// leaves the registry when its triggers are gone, and not before.
    pub fn advance<C>(self, spell_storage: &mut SpellRegistry, event: Event) -> (r: (
        RemoveSpell,
        Step<C, ()>,
    ))
        ensures
            final(spell_storage).blueprint() == old(spell_storage).blueprint(),
            r.0@ == remove_next::<C>(self@, old(spell_storage)@, event@).state,
            final(spell_storage)@ == remove_next::<C>(self@, old(spell_storage)@, event@).registry,
            r.1@ == remove_next::<C>(self@, old(spell_storage)@, event@).step,
    {
        match self.stage {
            RemoveStage::Unsubscribing => match event {
                Event::Unsubscribed(Ok(_)) => {
                    spell_storage.unregister_spell(&self.worker_id, self.spell_id.as_str());
                    let request = Request::RemoveService {
                        particle_id: self.particle_id.clone(),
                        owner: self.worker_id.clone(),
                        spell_id: self.spell_id.clone(),
                    };
                    (
                        RemoveSpell { stage: RemoveStage::RemovingService, ..self },
                        Step::Perform(request),
                    )
                },
                Event::Unsubscribed(Err(cause)) => self.fail(Failure::Subscription(cause)),
                _ => self.fail(Failure::OutOfTurn),
            },
            RemoveStage::RemovingService => match event {
                Event::ServiceRemoved(Ok(_)) => self.finish(Ok(())),
                Event::ServiceRemoved(Err(failure)) => self.fail(Failure::Service(failure)),
                _ => self.fail(Failure::OutOfTurn),
            },
            RemoveStage::Finished => self.fail(Failure::OutOfTurn),
        }
    }
}

} // verus!
