//! What a removal leaves behind, however it ends.

use vstd::prelude::*;
use crate::error::SpellErrorView;
use crate::model::{answered, failed_to_subscribe, remove_run, World};
use crate::remove::{remove_begin, remove_next, RemoveSpellView, RemoveStage};
use crate::service::{EventView, RequestView};
use crate::step::StepView;

verus! {

/// What holds of a removal at every point of a run, for the abort: until
/// the triggers are gone nothing has changed; and a removal that ended with a
/// subscription error has changed nothing.
spec fn aborts_clean<C>(
    state: RemoveSpellView,
    step: StepView<C, ()>,
    world: World,
    origin: World,
) -> bool {
    match state.stage {
        RemoveStage::Unsubscribing => {
            &&& step == StepView::<C, ()>::Perform(
                RequestView::Unsubscribe { spell_id: state.spell_id },
            )
            &&& world == origin
        },
        RemoveStage::RemovingService => step is Perform,
        RemoveStage::Finished => {
            &&& step is Done
            &&& step matches StepView::Done(Err(error)) ==> failed_to_subscribe(error) ==> world
                == origin
        },
    }
}

proof fn lemma_remove_aborts_clean<C>(
    state: RemoveSpellView,
    step: StepView<C, ()>,
    world: World,
    origin: World,
    events: Seq<EventView>,
)
    requires
        aborts_clean(state, step, world, origin),
    ensures
        ({
            let out = remove_run(state, step, world, events);
            out.result matches Some(Err(error)) ==> failed_to_subscribe(error) ==> out.world
                == origin
        }),
    decreases events.len(),
{
    if let StepView::Perform(request) = step {
        if events.len() > 0 {
            let turn = remove_next::<C>(state, world.registry, events[0]);
            let next = answered(World { registry: turn.registry, ..world }, request, events[0]);
            assert(aborts_clean(turn.state, turn.step, next, origin));
            lemma_remove_aborts_clean(turn.state, turn.step, next, origin, events.drop_first());
        }
    }
}

/// A removal that could not remove the spell's triggers removes nothing
/// else. Whatever events answered its requests: if the removal ended with a
/// subscription error, the registry, the services and the subscriptions are
/// as they were, so a spell that was registered and had its service still is
/// and still has it.
pub proof fn law_remove_stops_at_a_failed_unsubscribe<C>(
    particle_id: Seq<char>,
    spell_id: Seq<char>,
    worker_id: Seq<char>,
    world: World,
    events: Seq<EventView>,
)
    ensures
        ({
            let begun = remove_begin::<C>(particle_id, spell_id, worker_id);
            let out = remove_run(begun.0, begun.1, world, events);
            out.result matches Some(Err(error)) ==> failed_to_subscribe(error) ==> out.world
                == world
        }),
{
    let begun = remove_begin::<C>(particle_id, spell_id, worker_id);
    lemma_remove_aborts_clean(begun.0, begun.1, world, world, events);
}

/// Whether nothing is left of a spell: no registry entry, no service, no
/// triggers, nothing stored.
pub open spec fn gone(world: World, worker_id: Seq<char>, spell_id: Seq<char>) -> bool {
    &&& !world.registry.contains((worker_id, spell_id))
    &&& !world.services.contains((worker_id, spell_id))
    &&& !world.subscribed.contains(spell_id)
    &&& !world.stored.dom().contains((worker_id, spell_id))
}

/// What holds of a removal at every point of a run, for its end: each
/// request is about the spell that is being removed, what has gone stays
/// gone, and after a removal that ended well nothing is left of the spell.
spec fn clears<C>(state: RemoveSpellView, step: StepView<C, ()>, world: World) -> bool {
    match state.stage {
        RemoveStage::Unsubscribing => step == StepView::<C, ()>::Perform(
            RequestView::Unsubscribe { spell_id: state.spell_id },
        ),
        RemoveStage::RemovingService => {
            &&& step == StepView::<C, ()>::Perform(
                RequestView::RemoveService {
                    particle_id: state.particle_id,
                    owner: state.worker_id,
                    spell_id: state.spell_id,
                },
            )
            &&& !world.registry.contains((state.worker_id, state.spell_id))
            &&& !world.subscribed.contains(state.spell_id)
        },
        RemoveStage::Finished => {
            &&& step is Done
            &&& step == StepView::<C, ()>::Done(Ok(())) ==> gone(
                world,
                state.worker_id,
                state.spell_id,
            )
        },
    }
}

proof fn lemma_remove_clears<C>(
    state: RemoveSpellView,
    step: StepView<C, ()>,
    world: World,
    events: Seq<EventView>,
)
    requires
        clears(state, step, world),
    ensures
        ({
            let out = remove_run(state, step, world, events);
            out.result == Some(Ok::<(), SpellErrorView>(())) ==> gone(
                out.world,
                state.worker_id,
                state.spell_id,
            )
        }),
    decreases events.len(),
{
    if let StepView::Perform(request) = step {
        if events.len() > 0 {
            let turn = remove_next::<C>(state, world.registry, events[0]);
            let next = answered(World { registry: turn.registry, ..world }, request, events[0]);
            assert(turn.state.worker_id == state.worker_id);
            assert(turn.state.spell_id == state.spell_id);
            assert(clears(turn.state, turn.step, next));
            lemma_remove_clears(turn.state, turn.step, next, events.drop_first());
        }
    }
}

/// A removal that ended well has left nothing of the spell: no registry
/// entry, no service, no triggers.
pub proof fn law_remove_leaves_nothing<C>(
    particle_id: Seq<char>,
    spell_id: Seq<char>,
    worker_id: Seq<char>,
    world: World,
    events: Seq<EventView>,
)
    ensures
        ({
            let begun = remove_begin::<C>(particle_id, spell_id, worker_id);
            let out = remove_run(begun.0, begun.1, world, events);
            out.result == Some(Ok::<(), SpellErrorView>(())) ==> gone(out.world, worker_id, spell_id)
        }),
{
    let begun = remove_begin::<C>(particle_id, spell_id, worker_id);
    lemma_remove_clears(begun.0, begun.1, world, events);
}

/// What holds of the removal of a spell of which nothing is left, at every
/// point of a run: each request is about that spell, and the world is as it
/// was.
spec fn finds_nothing<C>(
    state: RemoveSpellView,
    step: StepView<C, ()>,
    world: World,
    origin: World,
) -> bool {
    &&& world == origin
    &&& gone(origin, state.worker_id, state.spell_id)
    &&& match state.stage {
        RemoveStage::Unsubscribing => step == StepView::<C, ()>::Perform(
            RequestView::Unsubscribe { spell_id: state.spell_id },
        ),
        RemoveStage::RemovingService => step == StepView::<C, ()>::Perform(
            RequestView::RemoveService {
                particle_id: state.particle_id,
                owner: state.worker_id,
                spell_id: state.spell_id,
            },
        ),
        RemoveStage::Finished => step is Done,
    }
}

proof fn lemma_remove_finds_nothing<C>(
    state: RemoveSpellView,
    step: StepView<C, ()>,
    world: World,
    origin: World,
    events: Seq<EventView>,
)
    requires
        finds_nothing(state, step, world, origin),
    ensures
        remove_run(state, step, world, events).world == origin,
    decreases events.len(),
{
    if let StepView::Perform(request) = step {
        if events.len() > 0 {
            let turn = remove_next::<C>(state, world.registry, events[0]);
            let next = answered(World { registry: turn.registry, ..world }, request, events[0]);
            assert(turn.state.worker_id == state.worker_id);
            assert(turn.state.spell_id == state.spell_id);
            assert(next.registry =~= origin.registry);
            assert(next.services =~= origin.services);
            assert(next.subscribed =~= origin.subscribed);
            assert(next.stored =~= origin.stored);
            assert(next =~= origin);
            assert(finds_nothing(turn.state, turn.step, next, origin));
            lemma_remove_finds_nothing(turn.state, turn.step, next, origin, events.drop_first());
        }
    }
}

/// Removing a spell a second time does no harm. After a removal that ended
/// well, a second removal of the same spell from the same worker, however it
/// goes and however it ends, leaves the registry, the services and the
/// subscriptions exactly as the first one left them.
pub proof fn law_remove_twice_changes_nothing_more<C>(
    first_particle: Seq<char>,
    second_particle: Seq<char>,
    spell_id: Seq<char>,
    worker_id: Seq<char>,
    world: World,
    first_events: Seq<EventView>,
    second_events: Seq<EventView>,
)
    ensures
        ({
            let first = remove_begin::<C>(first_particle, spell_id, worker_id);
            let once = remove_run(first.0, first.1, world, first_events);
            let second = remove_begin::<C>(second_particle, spell_id, worker_id);
            let twice = remove_run(second.0, second.1, once.world, second_events);
            once.result == Some(Ok::<(), SpellErrorView>(())) ==> twice.world == once.world
        }),
{
    let first = remove_begin::<C>(first_particle, spell_id, worker_id);
    let once = remove_run(first.0, first.1, world, first_events);
    if once.result == Some(Ok::<(), SpellErrorView>(())) {
        law_remove_leaves_nothing::<C>(first_particle, spell_id, worker_id, world, first_events);
        let second = remove_begin::<C>(second_particle, spell_id, worker_id);
        lemma_remove_finds_nothing(second.0, second.1, once.world, once.world, second_events);
    }
}

} // verus!
