//! That what was installed is what is read back.

use vstd::prelude::*;
use crate::error::SpellErrorView;
use crate::inspect::{info_begin, info_next, InfoStage, ReadSpellInfoView, SpellInfoView};
use crate::install::install_begin;
use crate::laws::install::law_install_stores_what_it_was_given;
use crate::model::{
    answered, info_is_read_faithfully, info_run, install_run, record_of, Record, World,
};
use crate::service::{EventView, SpellMethod};
use crate::step::StepView;
use crate::trigger::TriggerConfig;

verus! {

/// What holds of the reading of a spell at every point of a run in which
/// the spell answers faithfully: what has been read is what the spell holds.
spec fn reads_what_is_held<C>(
    state: ReadSpellInfoView,
    step: StepView<C, SpellInfoView>,
    world: World,
    held: SpellInfoView,
) -> bool {
    let record = Record { script: Some(held.script), config: Some(held.trigger_config) };
    match state.stage {
        InfoStage::ReadingConfig => {
            &&& step == StepView::<C, SpellInfoView>::Perform(
                state.read(SpellMethod::GetTriggerConfig),
            )
            &&& record_of(world.stored, (state.worker_id, state.spell_id)) == record
        },
        InfoStage::ReadingScript { trigger_config } => {
            &&& step == StepView::<C, SpellInfoView>::Perform(
                state.read(SpellMethod::GetScriptSource),
            )
            &&& record_of(world.stored, (state.worker_id, state.spell_id)) == record
            &&& trigger_config == held.trigger_config
        },
        InfoStage::Finished => step == StepView::<C, SpellInfoView>::Done(Ok(held)),
    }
}

proof fn lemma_info_reads_what_is_held<C>(
    state: ReadSpellInfoView,
    step: StepView<C, SpellInfoView>,
    world: World,
    events: Seq<EventView>,
    held: SpellInfoView,
)
    requires
        reads_what_is_held(state, step, world, held),
        info_is_read_faithfully(state, step, world, events),
    ensures
        ({
            let out = info_run(state, step, world, events);
            out.result matches Some(result) ==> result == Ok::<SpellInfoView, SpellErrorView>(held)
        }),
    decreases events.len(),
{
    if let StepView::Perform(request) = step {
        if events.len() > 0 {
            let turn = info_next::<C>(state, events[0]);
            let next = answered(world, request, events[0]);
            assert(turn.0.worker_id == state.worker_id);
            assert(turn.0.spell_id == state.spell_id);
            assert(reads_what_is_held(turn.0, turn.1, next, held));
            lemma_info_reads_what_is_held(turn.0, turn.1, next, events.drop_first(), held);
        }
    }
}

/// What was installed is what is read back. After an install that ended
/// well, the reading of the spell, answered by a spell that gives back what
/// it holds, comes to the script that the install was given and to the
/// trigger configuration as the user wrote it, whatever that configuration
/// resolved to.
pub proof fn law_round_trip<C>(
    blueprint: Seq<char>,
    worker_id: Seq<char>,
    particle_id: Seq<char>,
    ttl: u64,
    user_config: TriggerConfig,
    config: Result<Option<C>, Seq<char>>,
    script: Seq<char>,
    init_data: Seq<char>,
    world: World,
    install_events: Seq<EventView>,
    read_ttl: u64,
    read_events: Seq<EventView>,
)
    ensures
        ({
            let begun = install_begin(
                blueprint,
                worker_id,
                particle_id,
                ttl,
                user_config,
                config,
                script,
                init_data,
            );
            let installed = install_run(begun.0, begun.1, world, install_events);
            installed.result matches Some(Ok(spell_id)) ==> {
                let reading = info_begin::<C>(worker_id, read_ttl, spell_id);
                let read = info_run(reading.0, reading.1, installed.world, read_events);
                info_is_read_faithfully(reading.0, reading.1, installed.world, read_events)
                    && read.result is Some ==> read.result == Some(
                    Ok::<SpellInfoView, SpellErrorView>(
                        SpellInfoView { script, trigger_config: user_config },
                    ),
                )
            }
        }),
{
    let begun = install_begin(
        blueprint,
        worker_id,
        particle_id,
        ttl,
        user_config,
        config,
        script,
        init_data,
    );
    let installed = install_run(begun.0, begun.1, world, install_events);
    if let Some(Ok(spell_id)) = installed.result {
        law_install_stores_what_it_was_given(
            blueprint,
            worker_id,
            particle_id,
            ttl,
            user_config,
            config,
            script,
            init_data,
            world,
            install_events,
        );
        let reading = info_begin::<C>(worker_id, read_ttl, spell_id);
        if info_is_read_faithfully(reading.0, reading.1, installed.world, read_events) {
            lemma_info_reads_what_is_held(
                reading.0,
                reading.1,
                installed.world,
                read_events,
                SpellInfoView { script, trigger_config: user_config },
            );
        }
    }
}

} // verus!
