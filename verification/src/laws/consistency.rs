//! That the registry and the services stay in agreement.

use vstd::prelude::*;
use crate::error::SpellErrorView;
use crate::install::{install_begin, install_next, InstallSpellView, InstallStageView};
use crate::model::{answered, install_run, remove_run, World};
use crate::remove::{remove_begin, remove_next, RemoveSpellView, RemoveStage};
use crate::service::{EventView, RequestView};
use crate::step::StepView;
use crate::trigger::TriggerConfig;

verus! {

/// Whether the registry and the services agree: a spell is registered on a
/// worker exactly when its service exists and that worker owns it.
pub open spec fn consistent(world: World) -> bool {
    world.registry == world.services
}

/// Whether an operation ended as it can end when every event answers the
/// request before it and no service refuses to be removed.
pub open spec fn ended_in_order<V>(result: Option<Result<V, SpellErrorView>>) -> bool {
    match result {
        Some(Ok(_)) => true,
        Some(Err(error)) => !(error.failure is OutOfTurn) && !(error.failure is Service
            && error.spell_id is Some),
        None => false,
    }
}

/// What holds of an install at every point of a run, for consistency: the
/// registry and the services agree, but for the spell whose service is just
/// being removed.
spec fn install_agrees<C>(
    state: InstallSpellView<C>,
    step: StepView<C, Seq<char>>,
    world: World,
) -> bool {
    match state.stage {
        InstallStageView::CreatingService => {
            &&& step matches StepView::Perform(RequestView::CreateService { owner, .. }) && owner
                == state.worker_id
            &&& consistent(world)
        },
        InstallStageView::SavingScript { .. } => {
            &&& step matches StepView::Perform(RequestView::Call(_))
            &&& consistent(world)
        },
        InstallStageView::SavingData { .. } => {
            &&& step matches StepView::Perform(RequestView::Call(_))
            &&& consistent(world)
        },
        InstallStageView::SavingConfig { .. } => {
            &&& step matches StepView::Perform(RequestView::Call(_))
            &&& consistent(world)
        },
        InstallStageView::Subscribing { .. } => {
            &&& step matches StepView::Perform(RequestView::Subscribe { .. })
            &&& consistent(world)
        },
        InstallStageView::RemovingService { spell_id, .. } => {
            &&& step == StepView::<C, Seq<char>>::Perform(
                RequestView::RemoveService {
                    particle_id: state.particle_id,
                    owner: state.worker_id,
                    spell_id,
                },
            )
            &&& world.registry == world.services.remove((state.worker_id, spell_id))
        },
        InstallStageView::Finished => {
            &&& step matches StepView::Done(result)
            &&& ended_in_order(Some(result)) ==> consistent(world)
        },
    }
}

proof fn lemma_install_agrees<C>(
    state: InstallSpellView<C>,
    step: StepView<C, Seq<char>>,
    world: World,
    events: Seq<EventView>,
)
    requires
        install_agrees(state, step, world),
    ensures
        ({
            let out = install_run(state, step, world, events);
            ended_in_order(out.result) ==> consistent(out.world)
        }),
    decreases events.len(),
{
    if let StepView::Perform(request) = step {
        if events.len() > 0 {
            let turn = install_next(state, world.registry, events[0]);
            let next = answered(World { registry: turn.registry, ..world }, request, events[0]);
            assert(turn.state.worker_id == state.worker_id);
            match state.stage {
                InstallStageView::CreatingService => {
                    if let EventView::ServiceCreated(Ok(spell_id)) = events[0] {
                        assert(next.registry =~= next.services);
                    }
                },
                InstallStageView::Subscribing { spell_id } => {
                    if let EventView::Subscribed(Err(cause)) = events[0] {
                        assert(next.registry =~= next.services.remove((state.worker_id, spell_id)));
                    }
                },
                InstallStageView::RemovingService { spell_id, .. } => {
                    if let EventView::ServiceRemoved(Ok(_)) = events[0] {
                        assert(next.registry =~= next.services);
                    }
                },
                _ => {},
            }
            assert(install_agrees(turn.state, turn.step, next));
            lemma_install_agrees(turn.state, turn.step, next, events.drop_first());
        }
    }
}

/// What holds of a removal at every point of a run, for consistency.
spec fn remove_agrees<C>(state: RemoveSpellView, step: StepView<C, ()>, world: World) -> bool {
    match state.stage {
        RemoveStage::Unsubscribing => {
            &&& step == StepView::<C, ()>::Perform(
                RequestView::Unsubscribe { spell_id: state.spell_id },
            )
            &&& consistent(world)
        },
        RemoveStage::RemovingService => {
            &&& step == StepView::<C, ()>::Perform(
                RequestView::RemoveService {
                    particle_id: state.particle_id,
                    owner: state.worker_id,
                    spell_id: state.spell_id,
                },
            )
            &&& world.registry == world.services.remove((state.worker_id, state.spell_id))
        },
        RemoveStage::Finished => {
            &&& step matches StepView::Done(result)
            &&& ended_in_order(Some(result)) ==> consistent(world)
        },
    }
}

proof fn lemma_remove_agrees<C>(
    state: RemoveSpellView,
    step: StepView<C, ()>,
    world: World,
    events: Seq<EventView>,
)
    requires
        remove_agrees(state, step, world),
    ensures
        ({
            let out = remove_run(state, step, world, events);
            ended_in_order(out.result) ==> consistent(out.world)
        }),
    decreases events.len(),
{
    if let StepView::Perform(request) = step {
        if events.len() > 0 {
            let turn = remove_next::<C>(state, world.registry, events[0]);
            let next = answered(World { registry: turn.registry, ..world }, request, events[0]);
            assert(turn.state.worker_id == state.worker_id);
            assert(turn.state.spell_id == state.spell_id);
            match state.stage {
                RemoveStage::Unsubscribing => {
                    if let EventView::Unsubscribed(Ok(_)) = events[0] {
                        assert(next.registry =~= next.services.remove(
                            (state.worker_id, state.spell_id),
                        ));
                    }
                },
                RemoveStage::RemovingService => {
                    if let EventView::ServiceRemoved(Ok(_)) = events[0] {
                        assert(next.registry =~= next.services);
                    }
                },
                _ => {},
            }
            assert(remove_agrees(turn.state, turn.step, next));
            lemma_remove_agrees(turn.state, turn.step, next, events.drop_first());
        }
    }
}

/// The registry and the services stay in agreement. If a spell is
/// registered on a worker exactly when that worker owns its service, then
/// the same holds after an install and after a removal that ended in order:
/// no entry without a service, no service without an entry. An operation
/// that is still waiting, one that was handed an event out of turn, and one
/// whose service could not be removed are not covered.
pub proof fn law_registry_and_services_agree<C>(
    blueprint: Seq<char>,
    worker_id: Seq<char>,
    particle_id: Seq<char>,
    ttl: u64,
    user_config: TriggerConfig,
    config: Result<Option<C>, Seq<char>>,
    script: Seq<char>,
    init_data: Seq<char>,
    spell_id: Seq<char>,
    world: World,
    events: Seq<EventView>,
)
    requires
        consistent(world),
    ensures
        ({
            let begun = install_begin(
                blueprint,
                worker_id,
                particle_id,
                ttl,
                user_config,
                config,
                script,
                init_data,
            );
            let out = install_run(begun.0, begun.1, world, events);
            ended_in_order(out.result) ==> consistent(out.world)
        }),
        ({
            let begun = remove_begin::<C>(particle_id, spell_id, worker_id);
            let out = remove_run(begun.0, begun.1, world, events);
            ended_in_order(out.result) ==> consistent(out.world)
        }),
{
    let installing = install_begin(
        blueprint,
        worker_id,
        particle_id,
        ttl,
        user_config,
        config,
        script,
        init_data,
    );
    lemma_install_agrees(installing.0, installing.1, world, events);
    let removing = remove_begin::<C>(particle_id, spell_id, worker_id);
    lemma_remove_agrees(removing.0, removing.1, world, events);
}

} // verus!
