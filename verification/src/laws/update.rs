//! What a reconfiguration to no triggers comes to.

use vstd::prelude::*;
use crate::context::RequestContextView;
use crate::error::SpellErrorView;
use crate::model::{answered, update_run, World};
use crate::permission::PermissionGuard;
use crate::service::{EventView, RequestView};
use crate::step::StepView;
use crate::trigger::TriggerConfig;
use crate::update::{update_begin, update_next, UpdateConfigView, UpdateStage};

verus! {

/// What holds of a reconfiguration to no triggers at every point of a run:
/// there is never a trigger configuration left to bind, the only
/// subscription request it makes is the removal of the spell's own triggers,
/// and once it has ended well the spell is not subscribed.
spec fn binds_nothing<C>(state: UpdateConfigView<C>, step: StepView<C, ()>, world: World) -> bool {
    &&& state.config is None
    &&& match state.stage {
        UpdateStage::SavingConfig => step matches StepView::Perform(RequestView::Call(_)),
        UpdateStage::Unsubscribing => step == StepView::<C, ()>::Perform(
            RequestView::Unsubscribe { spell_id: state.spell_id },
        ),
        UpdateStage::Subscribing => false,
        UpdateStage::Finished => {
            &&& step is Done
            &&& step == StepView::<C, ()>::Done(Ok(())) ==> !world.subscribed.contains(
                state.spell_id,
            )
        },
    }
}

proof fn lemma_update_binds_nothing<C>(
    state: UpdateConfigView<C>,
    step: StepView<C, ()>,
    world: World,
    events: Seq<EventView>,
)
    requires
        binds_nothing(state, step, world),
    ensures
        ({
            let out = update_run(state, step, world, events);
            &&& forall|i: int| 0 <= i < out.requests.len() ==> !(#[trigger] out.requests[i] is Subscribe)
            &&& out.world.registry == world.registry
            &&& out.world.services == world.services
            &&& out.result == Some(Ok::<(), SpellErrorView>(())) ==> !out.world.subscribed.contains(
                state.spell_id,
            )
        }),
    decreases events.len(),
{
    if let StepView::Perform(request) = step {
        if events.len() > 0 {
            let turn = update_next(state, events[0]);
            let next = answered(world, request, events[0]);
            assert(turn.0.spell_id == state.spell_id);
            assert(binds_nothing(turn.0, turn.1, next));
            lemma_update_binds_nothing(turn.0, turn.1, next, events.drop_first());
            let rest = update_run(turn.0, turn.1, next, events.drop_first());
            let out = update_run(state, step, world, events);
            assert(out.requests == seq![request] + rest.requests);
            assert forall|i: int| 0 <= i < out.requests.len() implies !(
            #[trigger] out.requests[i] is Subscribe) by {
                if i > 0 {
                    assert(out.requests[i] == rest.requests[i - 1]);
                }
            }
        }
    }
}

/// A reconfiguration to a configuration without active triggers leaves the
/// spell registered and unsubscribed. Whatever events answered its requests:
/// it never asked for a subscription, it left the registry and the services
/// as they were, and if it ended well the spell is not subscribed.
pub proof fn law_update_to_no_triggers_unsubscribes<C>(
    key_manager: &PermissionGuard,
    params: RequestContextView,
    spell_id: Seq<char>,
    user_config: TriggerConfig,
    world: World,
    events: Seq<EventView>,
)
    ensures
        ({
            let begun = update_begin(
                key_manager,
                params,
                spell_id,
                user_config,
                Ok::<Option<C>, Seq<char>>(None),
            );
            let out = update_run(begun.0, begun.1, world, events);
            &&& forall|i: int| 0 <= i < out.requests.len() ==> !(#[trigger] out.requests[i] is Subscribe)
            &&& out.world.registry == world.registry
            &&& out.world.services == world.services
            &&& out.result == Some(Ok::<(), SpellErrorView>(())) ==> !out.world.subscribed.contains(
                spell_id,
            )
        }),
{
    let begun = update_begin(
        key_manager,
        params,
        spell_id,
        user_config,
        Ok::<Option<C>, Seq<char>>(None),
    );
    lemma_update_binds_nothing(begun.0, begun.1, world, events);
}

} // verus!
