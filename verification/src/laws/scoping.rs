//! That the spells of one worker are no business of another.

use vstd::prelude::*;
use crate::install::{install_begin, install_next, InstallSpellView};
use crate::model::{answered, install_run, remove_run, World};
use crate::registry::spells_on;
use crate::remove::{remove_begin, remove_next, RemoveSpellView};
use crate::service::EventView;
use crate::step::StepView;
use crate::trigger::TriggerConfig;

verus! {

/// What one worker's spells are does not depend on what is registered or
/// unregistered for another.
pub proof fn law_registry_keeps_workers_apart(
    registry: Set<(Seq<char>, Seq<char>)>,
    worker: Seq<char>,
    other: Seq<char>,
    spell_id: Seq<char>,
)
    requires
        worker != other,
    ensures
        spells_on(registry.insert((other, spell_id)), worker) == spells_on(registry, worker),
        spells_on(registry.remove((other, spell_id)), worker) == spells_on(registry, worker),
{
    assert(spells_on(registry.insert((other, spell_id)), worker) =~= spells_on(registry, worker));
    assert(spells_on(registry.remove((other, spell_id)), worker) =~= spells_on(registry, worker));
}

proof fn lemma_install_stays_on_its_worker<C>(
    state: InstallSpellView<C>,
    step: StepView<C, Seq<char>>,
    world: World,
    events: Seq<EventView>,
    other: Seq<char>,
)
    requires
        other != state.worker_id,
    ensures
        spells_on(install_run(state, step, world, events).world.registry, other) == spells_on(
            world.registry,
            other,
        ),
    decreases events.len(),
{
    if let StepView::Perform(request) = step {
        if events.len() > 0 {
            let turn = install_next(state, world.registry, events[0]);
            let next = answered(World { registry: turn.registry, ..world }, request, events[0]);
            assert(turn.state.worker_id == state.worker_id);
            assert(spells_on(next.registry, other) =~= spells_on(world.registry, other));
            lemma_install_stays_on_its_worker(turn.state, turn.step, next, events.drop_first(), other);
        }
    }
}

proof fn lemma_remove_stays_on_its_worker<C>(
    state: RemoveSpellView,
    step: StepView<C, ()>,
    world: World,
    events: Seq<EventView>,
    other: Seq<char>,
)
    requires
        other != state.worker_id,
    ensures
        spells_on(remove_run(state, step, world, events).world.registry, other) == spells_on(
            world.registry,
            other,
        ),
    decreases events.len(),
{
    if let StepView::Perform(request) = step {
        if events.len() > 0 {
            let turn = remove_next::<C>(state, world.registry, events[0]);
            let next = answered(World { registry: turn.registry, ..world }, request, events[0]);
            assert(turn.state.worker_id == state.worker_id);
            assert(spells_on(next.registry, other) =~= spells_on(world.registry, other));
            lemma_remove_stays_on_its_worker(turn.state, turn.step, next, events.drop_first(), other);
        }
    }
}

/// The spells listed for one worker never include what was installed on
/// another: an install on `worker_id` and a removal from it, however they
/// go, leave the spells of every other worker as they were.
pub proof fn law_listing_is_scoped<C>(
    blueprint: Seq<char>,
    worker_id: Seq<char>,
    particle_id: Seq<char>,
    ttl: u64,
    user_config: TriggerConfig,
    config: Result<Option<C>, Seq<char>>,
    script: Seq<char>,
    init_data: Seq<char>,
    spell_id: Seq<char>,
    other: Seq<char>,
    world: World,
    events: Seq<EventView>,
)
    requires
        other != worker_id,
    ensures
        ({
            let begun = install_begin(
                blueprint,
                worker_id,
                particle_id,
                ttl,
                user_config,
                config,
                script,
                init_data,
            );
            spells_on(install_run(begun.0, begun.1, world, events).world.registry, other)
                == spells_on(world.registry, other)
        }),
        ({
            let begun = remove_begin::<C>(particle_id, spell_id, worker_id);
            spells_on(remove_run(begun.0, begun.1, world, events).world.registry, other)
                == spells_on(world.registry, other)
        }),
{
    let installing = install_begin(
        blueprint,
        worker_id,
        particle_id,
        ttl,
        user_config,
        config,
        script,
        init_data,
    );
    lemma_install_stays_on_its_worker(installing.0, installing.1, world, events, other);
    let removing = remove_begin::<C>(particle_id, spell_id, worker_id);
    lemma_remove_stays_on_its_worker(removing.0, removing.1, world, events, other);
}

} // verus!
