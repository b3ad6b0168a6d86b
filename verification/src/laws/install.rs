//! What an install leaves behind, however it ends.

use vstd::prelude::*;
use crate::error::SpellErrorView;
use crate::install::{install_begin, install_next, InstallSpellView, InstallStageView};
use crate::model::{
    answered, failed_to_remove, failed_to_subscribe, install_run, record_of, Record, World,
};
use crate::service::{CallArgView, EventView, RequestView, SpellMethod};
use crate::step::StepView;
use crate::trigger::TriggerConfig;

verus! {

/// What holds of an install at every point of a run, for the rollback: while
/// the service is being removed the spell is out of the registry and the
/// request under way is the removal of its own service; and an install that
/// ended with a subscription error has left neither a registry entry nor a
/// service.
spec fn rolls_back<C>(state: InstallSpellView<C>, step: StepView<C, Seq<char>>, world: World) -> bool {
    match state.stage {
        InstallStageView::RemovingService { spell_id, cause } => {
            &&& step == StepView::<C, Seq<char>>::Perform(
                RequestView::RemoveService {
                    particle_id: state.particle_id,
                    owner: state.worker_id,
                    spell_id,
                },
            )
            &&& !world.registry.contains((state.worker_id, spell_id))
        },
        InstallStageView::Finished => {
            &&& step is Done
            &&& step matches StepView::Done(Err(error)) ==> failed_to_subscribe(error) ==> {
                &&& !world.registry.contains((state.worker_id, error.spell_id->0))
                &&& !world.services.contains((state.worker_id, error.spell_id->0))
            }
            &&& step matches StepView::Done(Err(error)) ==> failed_to_remove(error)
                ==> !world.registry.contains((state.worker_id, error.spell_id->0))
        },
        _ => step is Perform,
    }
}

proof fn lemma_install_rolls_back<C>(
    state: InstallSpellView<C>,
    step: StepView<C, Seq<char>>,
    world: World,
    events: Seq<EventView>,
)
    requires
        rolls_back(state, step, world),
    ensures
        ({
            let out = install_run(state, step, world, events);
            &&& out.result matches Some(Err(error)) ==> failed_to_subscribe(error) ==> {
                &&& !out.world.registry.contains((state.worker_id, error.spell_id->0))
                &&& !out.world.services.contains((state.worker_id, error.spell_id->0))
            }
            &&& out.result matches Some(Err(error)) ==> failed_to_remove(error)
                ==> !out.world.registry.contains((state.worker_id, error.spell_id->0))
        }),
    decreases events.len(),
{
    if let StepView::Perform(request) = step {
        if events.len() > 0 {
            let turn = install_next(state, world.registry, events[0]);
            let next = answered(World { registry: turn.registry, ..world }, request, events[0]);
            assert(turn.state.worker_id == state.worker_id);
            assert(rolls_back(turn.state, turn.step, next));
            lemma_install_rolls_back(turn.state, turn.step, next, events.drop_first());
        }
    }
}

/// An install whose subscription failed leaves no trace. Whatever the
/// install was given and whatever events answered its requests: if it ended
/// with a subscription error for a spell, that spell is not registered on the
/// worker and its service does not exist. And if it ended because the
/// service of a spell could not be removed, which happens only on the way
/// back from a failed subscription, that spell is not registered either.
pub proof fn law_install_rolls_back_a_failed_subscription<C>(
    blueprint: Seq<char>,
    worker_id: Seq<char>,
    particle_id: Seq<char>,
    ttl: u64,
    user_config: TriggerConfig,
    config: Result<Option<C>, Seq<char>>,
    script: Seq<char>,
    init_data: Seq<char>,
    world: World,
    events: Seq<EventView>,
)
    ensures
        ({
            let begun = install_begin(
                blueprint,
                worker_id,
                particle_id,
                ttl,
                user_config,
                config,
                script,
                init_data,
            );
            let out = install_run(begun.0, begun.1, world, events);
            &&& out.result matches Some(Err(error)) ==> failed_to_subscribe(error) ==> {
                &&& !out.world.registry.contains((worker_id, error.spell_id->0))
                &&& !out.world.services.contains((worker_id, error.spell_id->0))
            }
            &&& out.result matches Some(Err(error)) ==> failed_to_remove(error)
                ==> !out.world.registry.contains((worker_id, error.spell_id->0))
        }),
{
    let begun = install_begin(
        blueprint,
        worker_id,
        particle_id,
        ttl,
        user_config,
        config,
        script,
        init_data,
    );
    lemma_install_rolls_back(begun.0, begun.1, world, events);
}

/// What holds of an install at every point of a run, for what it builds:
/// from the moment the service exists the spell is registered and has its
/// service; a subscription is asked for exactly where there are triggers to
/// bind; and after an install that ended well the spell is there, with its
/// triggers bound where it was given any.
spec fn builds_the_spell<C>(
    state: InstallSpellView<C>,
    step: StepView<C, Seq<char>>,
    world: World,
    with_triggers: bool,
) -> bool {
    let built = |spell_id: Seq<char>|
        world.registry.contains((state.worker_id, spell_id)) && world.services.contains(
            (state.worker_id, spell_id),
        );
    match state.stage {
        InstallStageView::CreatingService => {
            &&& step matches StepView::Perform(RequestView::CreateService { owner, .. }) && owner
                == state.worker_id
            &&& state.config is Some == with_triggers
        },
        InstallStageView::SavingScript { spell_id } => {
            &&& step matches StepView::Perform(RequestView::Call(_))
            &&& built(spell_id)
            &&& state.config is Some == with_triggers
        },
        InstallStageView::SavingData { spell_id } => {
            &&& step matches StepView::Perform(RequestView::Call(_))
            &&& built(spell_id)
            &&& state.config is Some == with_triggers
        },
        InstallStageView::SavingConfig { spell_id } => {
            &&& step matches StepView::Perform(RequestView::Call(_))
            &&& built(spell_id)
            &&& state.config is Some == with_triggers
        },
        InstallStageView::Subscribing { spell_id } => {
            &&& step matches StepView::Perform(RequestView::Subscribe { spell_id: asked, .. })
                && asked == spell_id
            &&& built(spell_id)
            &&& with_triggers
        },
        InstallStageView::RemovingService { .. } => step is Perform,
        InstallStageView::Finished => {
            &&& step is Done
            &&& step matches StepView::Done(Ok(spell_id)) ==> {
                &&& built(spell_id)
                &&& with_triggers ==> world.subscribed.contains(spell_id)
            }
        },
    }
}

proof fn lemma_install_builds_the_spell<C>(
    state: InstallSpellView<C>,
    step: StepView<C, Seq<char>>,
    world: World,
    with_triggers: bool,
    events: Seq<EventView>,
)
    requires
        builds_the_spell(state, step, world, with_triggers),
    ensures
        ({
            let out = install_run(state, step, world, events);
            out.result matches Some(Ok(spell_id)) ==> {
                &&& out.world.registry.contains((state.worker_id, spell_id))
                &&& out.world.services.contains((state.worker_id, spell_id))
                &&& with_triggers ==> out.world.subscribed.contains(spell_id)
            }
        }),
    decreases events.len(),
{
    if let StepView::Perform(request) = step {
        if events.len() > 0 {
            let turn = install_next(state, world.registry, events[0]);
            let next = answered(World { registry: turn.registry, ..world }, request, events[0]);
            assert(turn.state.worker_id == state.worker_id);
            assert(builds_the_spell(turn.state, turn.step, next, with_triggers));
            lemma_install_builds_the_spell(
                turn.state,
                turn.step,
                next,
                with_triggers,
                events.drop_first(),
            );
        }
    }
}

/// An install that ended well has built the spell. Whatever events answered
/// its requests: the spell whose identifier the install gave back is
/// registered on the worker and has its service, and where the configuration
/// resolved to triggers, they are bound.
pub proof fn law_install_builds_the_spell<C>(
    blueprint: Seq<char>,
    worker_id: Seq<char>,
    particle_id: Seq<char>,
    ttl: u64,
    user_config: TriggerConfig,
    config: Result<Option<C>, Seq<char>>,
    script: Seq<char>,
    init_data: Seq<char>,
    world: World,
    events: Seq<EventView>,
)
    ensures
        ({
            let begun = install_begin(
                blueprint,
                worker_id,
                particle_id,
                ttl,
                user_config,
                config,
                script,
                init_data,
            );
            let out = install_run(begun.0, begun.1, world, events);
            out.result matches Some(Ok(spell_id)) ==> {
                &&& out.world.registry.contains((worker_id, spell_id))
                &&& out.world.services.contains((worker_id, spell_id))
                &&& config matches Ok(Some(_)) ==> out.world.subscribed.contains(spell_id)
            }
        }),
{
    let begun = install_begin(
        blueprint,
        worker_id,
        particle_id,
        ttl,
        user_config,
        config,
        script,
        init_data,
    );
    let with_triggers = config matches Ok(Some(_));
    lemma_install_builds_the_spell(begun.0, begun.1, world, with_triggers, events);
}

/// What holds of an install at every point of a run, for what a failed call
/// leaves behind: from the moment the service exists until the subscription
/// is asked for, the spell is registered and has its service.
spec fn keeps_what_it_built<C>(
    state: InstallSpellView<C>,
    step: StepView<C, Seq<char>>,
    world: World,
) -> bool {
    let built = |spell_id: Seq<char>|
        world.registry.contains((state.worker_id, spell_id)) && world.services.contains(
            (state.worker_id, spell_id),
        );
    match state.stage {
        InstallStageView::CreatingService => step matches StepView::Perform(
            RequestView::CreateService { owner, .. },
        ) && owner == state.worker_id,
        InstallStageView::SavingScript { spell_id } => step matches StepView::Perform(
            RequestView::Call(_),
        ) && built(spell_id),
        InstallStageView::SavingData { spell_id } => step matches StepView::Perform(
            RequestView::Call(_),
        ) && built(spell_id),
        InstallStageView::SavingConfig { spell_id } => step matches StepView::Perform(
            RequestView::Call(_),
        ) && built(spell_id),
        InstallStageView::Finished => {
            &&& step is Done
            &&& step matches StepView::Done(Err(error)) ==> error.failure is Call ==> {
                &&& error.spell_id is Some
                &&& built(error.spell_id->0)
            }
        },
        _ => step is Perform,
    }
}

proof fn lemma_install_keeps_what_it_built<C>(
    state: InstallSpellView<C>,
    step: StepView<C, Seq<char>>,
    world: World,
    events: Seq<EventView>,
)
    requires
        keeps_what_it_built(state, step, world),
    ensures
        ({
            let out = install_run(state, step, world, events);
            out.result matches Some(Err(error)) ==> error.failure is Call ==> {
                &&& error.spell_id is Some
                &&& out.world.registry.contains((state.worker_id, error.spell_id->0))
                &&& out.world.services.contains((state.worker_id, error.spell_id->0))
            }
        }),
    decreases events.len(),
{
    if let StepView::Perform(request) = step {
        if events.len() > 0 {
            let turn = install_next(state, world.registry, events[0]);
            let next = answered(World { registry: turn.registry, ..world }, request, events[0]);
            assert(turn.state.worker_id == state.worker_id);
            assert(keeps_what_it_built(turn.state, turn.step, next));
            lemma_install_keeps_what_it_built(turn.state, turn.step, next, events.drop_first());
        }
    }
}

/// An install that could not store the script, the data or the
/// configuration undoes nothing. Whatever events answered its requests: if
/// the install ended with the failure of a call, the error names the spell,
/// and that spell is still registered on the worker and still has its
/// service.
pub proof fn law_install_keeps_what_a_failed_call_left<C>(
    blueprint: Seq<char>,
    worker_id: Seq<char>,
    particle_id: Seq<char>,
    ttl: u64,
    user_config: TriggerConfig,
    config: Result<Option<C>, Seq<char>>,
    script: Seq<char>,
    init_data: Seq<char>,
    world: World,
    events: Seq<EventView>,
)
    ensures
        ({
            let begun = install_begin(
                blueprint,
                worker_id,
                particle_id,
                ttl,
                user_config,
                config,
                script,
                init_data,
            );
            let out = install_run(begun.0, begun.1, world, events);
            out.result matches Some(Err(error)) ==> error.failure is Call ==> {
                &&& error.spell_id is Some
                &&& out.world.registry.contains((worker_id, error.spell_id->0))
                &&& out.world.services.contains((worker_id, error.spell_id->0))
            }
        }),
{
    let begun = install_begin(
        blueprint,
        worker_id,
        particle_id,
        ttl,
        user_config,
        config,
        script,
        init_data,
    );
    lemma_install_keeps_what_it_built(begun.0, begun.1, world, events);
}

/// What holds of an install at every point of a run, for what it stores:
/// each call stores what the install was given, and what a call has stored
/// the spell holds.
spec fn stores_what_it_was_given<C>(
    state: InstallSpellView<C>,
    step: StepView<C, Seq<char>>,
    world: World,
) -> bool {
    let held = |spell_id: Seq<char>| record_of(world.stored, (state.worker_id, spell_id));
    match state.stage {
        InstallStageView::SavingScript { spell_id } => step == StepView::<
            C,
            Seq<char>,
        >::Perform(
            state.save(spell_id, SpellMethod::SetScriptSource, CallArgView::Text(state.script)),
        ),
        InstallStageView::SavingData { spell_id } => {
            &&& step == StepView::<C, Seq<char>>::Perform(
                state.save(spell_id, SpellMethod::SetJsonFields, CallArgView::Text(state.init_data)),
            )
            &&& held(spell_id).script == Some(state.script)
        },
        InstallStageView::SavingConfig { spell_id } => {
            &&& step == StepView::<C, Seq<char>>::Perform(
                state.save(
                    spell_id,
                    SpellMethod::SetTriggerConfig,
                    CallArgView::Config(state.user_config),
                ),
            )
            &&& held(spell_id).script == Some(state.script)
        },
        InstallStageView::Subscribing { spell_id } => {
            &&& step matches StepView::Perform(RequestView::Subscribe { .. })
            &&& held(spell_id) == Record {
                script: Some(state.script),
                config: Some(state.user_config),
            }
        },
        InstallStageView::Finished => {
            &&& step is Done
            &&& step matches StepView::Done(Ok(spell_id)) ==> held(spell_id) == Record {
                script: Some(state.script),
                config: Some(state.user_config),
            }
        },
        _ => step is Perform,
    }
}

proof fn lemma_install_stores_what_it_was_given<C>(
    state: InstallSpellView<C>,
    step: StepView<C, Seq<char>>,
    world: World,
    events: Seq<EventView>,
)
    requires
        stores_what_it_was_given(state, step, world),
    ensures
        ({
            let out = install_run(state, step, world, events);
            out.result matches Some(Ok(spell_id)) ==> record_of(
                out.world.stored,
                (state.worker_id, spell_id),
            ) == Record { script: Some(state.script), config: Some(state.user_config) }
        }),
    decreases events.len(),
{
    if let StepView::Perform(request) = step {
        if events.len() > 0 {
            let turn = install_next(state, world.registry, events[0]);
            let next = answered(World { registry: turn.registry, ..world }, request, events[0]);
            assert(turn.state.worker_id == state.worker_id);
            assert(turn.state.script == state.script);
            assert(turn.state.user_config == state.user_config);
            assert(stores_what_it_was_given(turn.state, turn.step, next));
            lemma_install_stores_what_it_was_given(turn.state, turn.step, next, events.drop_first());
        }
    }
}

/// A spell holds what it was installed with. Whatever events answered the
/// install's requests: if the install ended well, the spell holds the script
/// and the trigger configuration, as the user wrote it, that the install was
/// given.
pub proof fn law_install_stores_what_it_was_given<C>(
    blueprint: Seq<char>,
    worker_id: Seq<char>,
    particle_id: Seq<char>,
    ttl: u64,
    user_config: TriggerConfig,
    config: Result<Option<C>, Seq<char>>,
    script: Seq<char>,
    init_data: Seq<char>,
    world: World,
    events: Seq<EventView>,
)
    ensures
        ({
            let begun = install_begin(
                blueprint,
                worker_id,
                particle_id,
                ttl,
                user_config,
                config,
                script,
                init_data,
            );
            let out = install_run(begun.0, begun.1, world, events);
            out.result matches Some(Ok(spell_id)) ==> record_of(
                out.world.stored,
                (worker_id, spell_id),
            ) == Record { script: Some(script), config: Some(user_config) }
        }),
{
    let begun = install_begin(
        blueprint,
        worker_id,
        particle_id,
        ttl,
        user_config,
        config,
        script,
        init_data,
    );
    lemma_install_stores_what_it_was_given(begun.0, begun.1, world, events);
}

} // verus!
