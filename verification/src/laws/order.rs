//! The order in which each operation makes its requests.

use vstd::prelude::*;
use crate::context::RequestContextView;
use crate::install::{install_begin, install_next, InstallSpellView, InstallStageView};
use crate::model::{
    answered, install_run, kind_of, kinds, remove_run, update_run, RequestKind, World,
};
use crate::permission::PermissionGuard;
use crate::remove::{remove_begin, remove_next, RemoveSpellView, RemoveStage};
use crate::service::{EventView, SpellMethod};
use crate::step::StepView;
use crate::trigger::TriggerConfig;
use crate::update::{update_begin, update_next, UpdateConfigView, UpdateStage};

verus! {

/// The requests of an install, in the order in which it makes them. It makes
/// the last but one only where there are triggers to bind, and the last only
/// where binding them failed.
pub open spec fn install_order() -> Seq<RequestKind> {
    seq![
        RequestKind::CreateService,
        RequestKind::Call(SpellMethod::SetScriptSource),
        RequestKind::Call(SpellMethod::SetJsonFields),
        RequestKind::Call(SpellMethod::SetTriggerConfig),
        RequestKind::Subscribe,
        RequestKind::RemoveService,
    ]
}

/// The requests of a removal, in the order in which it makes them.
pub open spec fn remove_order() -> Seq<RequestKind> {
    seq![RequestKind::Unsubscribe, RequestKind::RemoveService]
}

/// The requests of a reconfiguration, in the order in which it makes them.
/// It makes the last only where there are triggers to bind.
pub open spec fn update_order() -> Seq<RequestKind> {
    seq![
        RequestKind::Call(SpellMethod::SetTriggerConfig),
        RequestKind::Unsubscribe,
        RequestKind::Subscribe,
    ]
}

/// How many requests an install has behind it when it stands at `stage`.
spec fn install_progress(stage: InstallStageView) -> int {
    match stage {
        InstallStageView::CreatingService => 0,
        InstallStageView::SavingScript { .. } => 1,
        InstallStageView::SavingData { .. } => 2,
        InstallStageView::SavingConfig { .. } => 3,
        InstallStageView::Subscribing { .. } => 4,
        InstallStageView::RemovingService { .. } => 5,
        InstallStageView::Finished => 6,
    }
}

/// What holds of an install at every point of a run, for the order: the
/// request under way is the one that the order has at this stage.
spec fn install_in_order<C>(state: InstallSpellView<C>, step: StepView<C, Seq<char>>) -> bool {
    match step {
        StepView::Done(_) => state.stage is Finished,
        StepView::Perform(request) => {
            &&& !(state.stage is Finished)
            &&& kind_of(request) == install_order()[install_progress(state.stage)]
        },
    }
}

proof fn lemma_install_keeps_its_order<C>(
    state: InstallSpellView<C>,
    step: StepView<C, Seq<char>>,
    world: World,
    events: Seq<EventView>,
)
    requires
        install_in_order(state, step),
    ensures
        kinds(install_run(state, step, world, events).requests).is_prefix_of(
            install_order().subrange(install_progress(state.stage), 6),
        ),
    decreases events.len(),
{
    let out = install_run(state, step, world, events);
    let ahead = install_order().subrange(install_progress(state.stage), 6);
    match step {
        StepView::Done(_) => {
            assert(kinds(out.requests) =~= Seq::<RequestKind>::empty());
        },
        StepView::Perform(request) => {
            if events.len() == 0 {
                assert(kinds(out.requests) =~= seq![kind_of(request)]);
                assert(ahead[0] == kind_of(request));
                assert(kinds(out.requests) =~= ahead.subrange(0, 1));
            } else {
                let turn = install_next(state, world.registry, events[0]);
                let next = answered(World { registry: turn.registry, ..world }, request, events[0]);
                assert(install_in_order(turn.state, turn.step));
                lemma_install_keeps_its_order(turn.state, turn.step, next, events.drop_first());
                let rest = install_run(turn.state, turn.step, next, events.drop_first());
                assert(out.requests == seq![request] + rest.requests);
                let rest_kinds = kinds(rest.requests);
                assert(kinds(out.requests) =~= seq![kind_of(request)] + rest_kinds);
                assert(ahead[0] == kind_of(request));
                if turn.state.stage is Finished {
                    assert(rest_kinds.len() == 0);
                    assert(kinds(out.requests) =~= ahead.subrange(0, 1));
                } else {
                    assert(install_progress(turn.state.stage) == install_progress(state.stage) + 1);
                    let beyond = install_order().subrange(install_progress(turn.state.stage), 6);
                    assert(rest_kinds =~= beyond.subrange(0, rest_kinds.len() as int));
                    assert(kinds(out.requests) =~= ahead.subrange(0, 1 + rest_kinds.len() as int));
                }
            }
        },
    }
}

/// An install makes its requests in one fixed order. Whatever events
/// answered them, what the install asked for is a beginning of
/// `install_order`: it never asks for anything else, never out of order,
/// and never twice.
pub proof fn law_install_keeps_its_order<C>(
    blueprint: Seq<char>,
    worker_id: Seq<char>,
    particle_id: Seq<char>,
    ttl: u64,
    user_config: TriggerConfig,
    config: Result<Option<C>, Seq<char>>,
    script: Seq<char>,
    init_data: Seq<char>,
    world: World,
    events: Seq<EventView>,
)
    ensures
        ({
            let begun = install_begin(
                blueprint,
                worker_id,
                particle_id,
                ttl,
                user_config,
                config,
                script,
                init_data,
            );
            kinds(install_run(begun.0, begun.1, world, events).requests).is_prefix_of(
                install_order(),
            )
        }),
{
    let begun = install_begin(
        blueprint,
        worker_id,
        particle_id,
        ttl,
        user_config,
        config,
        script,
        init_data,
    );
    lemma_install_keeps_its_order(begun.0, begun.1, world, events);
    let requests = kinds(install_run(begun.0, begun.1, world, events).requests);
    if begun.0.stage is Finished {
        assert(requests.len() == 0);
        assert(requests =~= install_order().subrange(0, 0));
    } else {
        assert(install_order().subrange(0, 6) =~= install_order());
    }
}

/// How many requests a removal has behind it when it stands at `stage`.
spec fn remove_progress(stage: RemoveStage) -> int {
    match stage {
        RemoveStage::Unsubscribing => 0,
        RemoveStage::RemovingService => 1,
        RemoveStage::Finished => 2,
    }
}

spec fn remove_in_order<C>(state: RemoveSpellView, step: StepView<C, ()>) -> bool {
    match step {
        StepView::Done(_) => state.stage == RemoveStage::Finished,
        StepView::Perform(request) => {
            &&& state.stage != RemoveStage::Finished
            &&& kind_of(request) == remove_order()[remove_progress(state.stage)]
        },
    }
}

proof fn lemma_remove_keeps_its_order<C>(
    state: RemoveSpellView,
    step: StepView<C, ()>,
    world: World,
    events: Seq<EventView>,
)
    requires
        remove_in_order(state, step),
    ensures
        kinds(remove_run(state, step, world, events).requests).is_prefix_of(
            remove_order().subrange(remove_progress(state.stage), 2),
        ),
    decreases events.len(),
{
    let out = remove_run(state, step, world, events);
    let ahead = remove_order().subrange(remove_progress(state.stage), 2);
    match step {
        StepView::Done(_) => {
            assert(kinds(out.requests) =~= Seq::<RequestKind>::empty());
        },
        StepView::Perform(request) => {
            if events.len() == 0 {
                assert(kinds(out.requests) =~= seq![kind_of(request)]);
                assert(ahead[0] == kind_of(request));
                assert(kinds(out.requests) =~= ahead.subrange(0, 1));
            } else {
                let turn = remove_next::<C>(state, world.registry, events[0]);
                let next = answered(World { registry: turn.registry, ..world }, request, events[0]);
                assert(remove_in_order(turn.state, turn.step));
                lemma_remove_keeps_its_order(turn.state, turn.step, next, events.drop_first());
                let rest = remove_run(turn.state, turn.step, next, events.drop_first());
                assert(out.requests == seq![request] + rest.requests);
                let rest_kinds = kinds(rest.requests);
                assert(kinds(out.requests) =~= seq![kind_of(request)] + rest_kinds);
                assert(ahead[0] == kind_of(request));
                if turn.state.stage == RemoveStage::Finished {
                    assert(rest_kinds.len() == 0);
                    assert(kinds(out.requests) =~= ahead.subrange(0, 1));
                } else {
                    assert(remove_progress(turn.state.stage) == remove_progress(state.stage) + 1);
                    let beyond = remove_order().subrange(remove_progress(turn.state.stage), 2);
                    assert(rest_kinds =~= beyond.subrange(0, rest_kinds.len() as int));
                    assert(kinds(out.requests) =~= ahead.subrange(0, 1 + rest_kinds.len() as int));
                }
            }
        },
    }
}

/// A removal makes its requests in one fixed order. Whatever events answered
/// them, what the removal asked for is a beginning of `remove_order`: the
/// triggers go first, and the service only after them.
pub proof fn law_remove_keeps_its_order<C>(
    particle_id: Seq<char>,
    spell_id: Seq<char>,
    worker_id: Seq<char>,
    world: World,
    events: Seq<EventView>,
)
    ensures
        ({
            let begun = remove_begin::<C>(particle_id, spell_id, worker_id);
            kinds(remove_run(begun.0, begun.1, world, events).requests).is_prefix_of(
                remove_order(),
            )
        }),
{
    let begun = remove_begin::<C>(particle_id, spell_id, worker_id);
    lemma_remove_keeps_its_order(begun.0, begun.1, world, events);
    assert(remove_order().subrange(0, 2) =~= remove_order());
}

/// How many requests a reconfiguration has behind it when it stands at
/// `stage`.
spec fn update_progress(stage: UpdateStage) -> int {
    match stage {
        UpdateStage::SavingConfig => 0,
        UpdateStage::Unsubscribing => 1,
        UpdateStage::Subscribing => 2,
        UpdateStage::Finished => 3,
    }
}

spec fn update_in_order<C>(state: UpdateConfigView<C>, step: StepView<C, ()>) -> bool {
    match step {
        StepView::Done(_) => state.stage == UpdateStage::Finished,
        StepView::Perform(request) => {
            &&& state.stage != UpdateStage::Finished
            &&& kind_of(request) == update_order()[update_progress(state.stage)]
        },
    }
}

proof fn lemma_update_keeps_its_order<C>(
    state: UpdateConfigView<C>,
    step: StepView<C, ()>,
    world: World,
    events: Seq<EventView>,
)
    requires
        update_in_order(state, step),
    ensures
        kinds(update_run(state, step, world, events).requests).is_prefix_of(
            update_order().subrange(update_progress(state.stage), 3),
        ),
    decreases events.len(),
{
    let out = update_run(state, step, world, events);
    let ahead = update_order().subrange(update_progress(state.stage), 3);
    match step {
        StepView::Done(_) => {
            assert(kinds(out.requests) =~= Seq::<RequestKind>::empty());
        },
        StepView::Perform(request) => {
            if events.len() == 0 {
                assert(kinds(out.requests) =~= seq![kind_of(request)]);
                assert(ahead[0] == kind_of(request));
                assert(kinds(out.requests) =~= ahead.subrange(0, 1));
            } else {
                let turn = update_next(state, events[0]);
                let next = answered(world, request, events[0]);
                assert(update_in_order(turn.0, turn.1));
                lemma_update_keeps_its_order(turn.0, turn.1, next, events.drop_first());
                let rest = update_run(turn.0, turn.1, next, events.drop_first());
                assert(out.requests == seq![request] + rest.requests);
                let rest_kinds = kinds(rest.requests);
                assert(kinds(out.requests) =~= seq![kind_of(request)] + rest_kinds);
                assert(ahead[0] == kind_of(request));
                if turn.0.stage == UpdateStage::Finished {
                    assert(rest_kinds.len() == 0);
                    assert(kinds(out.requests) =~= ahead.subrange(0, 1));
                } else {
                    assert(update_progress(turn.0.stage) == update_progress(state.stage) + 1);
                    let beyond = update_order().subrange(update_progress(turn.0.stage), 3);
                    assert(rest_kinds =~= beyond.subrange(0, rest_kinds.len() as int));
                    assert(kinds(out.requests) =~= ahead.subrange(0, 1 + rest_kinds.len() as int));
                }
            }
        },
    }
}

/// A reconfiguration makes its requests in one fixed order. Whatever events
/// answered them, what the reconfiguration asked for is a beginning of
/// `update_order`: the new configuration is stored before the triggers are
/// touched and is stored once, so a failure after it takes nothing back; and
/// the old triggers are removed before any new ones are bound.
pub proof fn law_update_keeps_its_order<C>(
    key_manager: &PermissionGuard,
    params: RequestContextView,
    spell_id: Seq<char>,
    user_config: TriggerConfig,
    config: Result<Option<C>, Seq<char>>,
    world: World,
    events: Seq<EventView>,
)
    ensures
        ({
            let begun = update_begin(key_manager, params, spell_id, user_config, config);
            kinds(update_run(begun.0, begun.1, world, events).requests).is_prefix_of(
                update_order(),
            )
        }),
{
    let begun = update_begin(key_manager, params, spell_id, user_config, config);
    lemma_update_keeps_its_order(begun.0, begun.1, world, events);
    let requests = kinds(update_run(begun.0, begun.1, world, events).requests);
    if begun.0.stage == UpdateStage::Finished {
        assert(requests.len() == 0);
        assert(requests =~= update_order().subrange(0, 0));
    } else {
        assert(update_order().subrange(0, 3) =~= update_order());
    }
}

} // verus!
