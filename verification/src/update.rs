//! The reconfiguration of a spell's triggers.

use vstd::prelude::*;
use crate::context::{RequestContext, RequestContextView};
use crate::error::{
    Failure, FailureView, Operation, SpellError, SpellErrorView, ValidationError,
};
use crate::identity::Identity;
use crate::permission::{mutate_allowed, PermissionGuard};
use crate::service::{CallArg, CallArgView, Event, EventView, Request, RequestView, SpellMethod};
use crate::step::{effect_of, make_own_call, own_call, read_effect, Step, StepView};
use crate::text::views;
use crate::trigger::TriggerConfig;

verus! {

/// Where a reconfiguration stands: what it has asked for and is waiting on.
#[derive(Clone, Copy, Debug, PartialEq, Eq, Structural)]
pub enum UpdateStage {
    /// The new configuration, as the user wrote it, is being stored with the
    /// spell.
    SavingConfig,
    /// The triggers the spell had are being removed.
    Unsubscribing,
    /// The new triggers are being bound.
    Subscribing,
    /// The reconfiguration is over.
    Finished,
}

/// A reconfiguration under way. `C` is the resolved trigger configuration
/// that validation made of the user's.
pub struct UpdateConfig<C> {
    stage: UpdateStage,
    spell_id: String,
    worker_id: Identity,
    ttl: u64,
    user_config: TriggerConfig,
    config: Option<C>,
}

pub struct UpdateConfigView<C> {
    pub stage: UpdateStage,
    pub spell_id: Seq<char>,
    /// The worker that the spell is installed on.
    pub worker_id: Seq<char>,
    /// The time the call into the spell may take, in milliseconds.
    pub ttl: u64,
    /// The new trigger configuration as the user wrote it.
    pub user_config: TriggerConfig,
    /// The triggers still to be bound: none where the configuration resolved
    /// to none, and none once the subscription has been asked for.
    pub config: Option<C>,
}

impl<C> View for UpdateConfig<C> {
    type V = UpdateConfigView<C>;

    closed spec fn view(&self) -> UpdateConfigView<C> {
        UpdateConfigView {
            stage: self.stage,
            spell_id: self.spell_id@,
            worker_id: self.worker_id@,
            ttl: self.ttl,
            user_config: self.user_config,
            config: self.config,
        }
    }
}

impl<C> UpdateConfigView<C> {
    /// The reconfiguration goes on to `stage` and asks for `request`.
    pub open spec fn proceed(self, stage: UpdateStage, request: RequestView<C>) -> (
        UpdateConfigView<C>,
        StepView<C, ()>,
    ) {
        (UpdateConfigView { stage, ..self }, StepView::Perform(request))
    }

    /// The reconfiguration is over with `result`.
    pub open spec fn finish(self, result: Result<(), SpellErrorView>) -> (
        UpdateConfigView<C>,
        StepView<C, ()>,
    ) {
        (UpdateConfigView { stage: UpdateStage::Finished, ..self }, StepView::Done(result))
    }

    /// What follows once the old triggers are gone: the new ones are bound
    /// where there are any, else the reconfiguration is over and the spell
    /// stays without triggers.
    pub open spec fn after_unsubscribing(self) -> (UpdateConfigView<C>, StepView<C, ()>) {
        match self.config {
            Some(config) => (
                UpdateConfigView { stage: UpdateStage::Subscribing, config: None, ..self },
                StepView::Perform(RequestView::Subscribe { spell_id: self.spell_id, config }),
            ),
            None => self.finish(Ok(())),
        }
    }

    /// What is reported when the reconfiguration fails.
    pub open spec fn error(self, failure: FailureView) -> SpellErrorView {
        SpellErrorView { operation: Operation::UpdateConfig, spell_id: Some(self.spell_id), failure }
    }

    /// The reconfiguration is over because of `failure`.
    pub open spec fn fail(self, failure: FailureView) -> (UpdateConfigView<C>, StepView<C, ()>) {
        self.finish(Err(self.error(failure)))
    }
}

/// The reconfiguration that a request starts, and its first step. The caller
/// is judged first: one who may not change the worker's spells is turned
/// away. Then the new configuration is judged: a malformed one is a
/// validation error. Only then is anything asked for: that the new
/// configuration be stored with the spell, as the user wrote it.
pub open spec fn update_begin<C>(
    key_manager: &PermissionGuard,
    params: RequestContextView,
    spell_id: Seq<char>,
    user_config: TriggerConfig,
    config: Result<Option<C>, Seq<char>>,
) -> (UpdateConfigView<C>, StepView<C, ()>) {
    let idle = UpdateConfigView {
        stage: UpdateStage::Finished,
        spell_id,
        worker_id: params.host_id,
        ttl: params.ttl as u64,
        user_config,
        config: None,
    };
    if !mutate_allowed(key_manager.roles_of(params.init_peer_id, params.host_id)) {
        idle.fail(
            FailureView::Permission(key_manager.refusal(params.init_peer_id, params.host_id, false)),
        )
    } else {
        match config {
            Err(reason) => idle.fail(FailureView::Validation(reason)),
            Ok(config) => (
                UpdateConfigView { stage: UpdateStage::SavingConfig, config, ..idle },
                StepView::Perform(
                    RequestView::Call(
                        own_call(
                            params.host_id,
                            spell_id,
                            SpellMethod::SetTriggerConfig,
                            seq![CallArgView::Config(user_config)],
                            params.ttl as u64,
                        ),
                    ),
                ),
            ),
        }
    }
}

/// How a reconfiguration goes on when `event` comes.
///
/// Once the new configuration is stored, the spell's triggers are removed,
/// whether it had any or not, and the new ones are bound where the
/// configuration resolved to any. A failure ends the reconfiguration with
/// its error; what was stored before it stays stored.
pub open spec fn update_next<C>(state: UpdateConfigView<C>, event: EventView) -> (
    UpdateConfigView<C>,
    StepView<C, ()>,
) {
    match state.stage {
        UpdateStage::SavingConfig => match effect_of(event) {
            Some(Ok(_)) => state.proceed(
                UpdateStage::Unsubscribing,
                RequestView::Unsubscribe { spell_id: state.spell_id },
            ),
            Some(Err(cause)) => state.fail(
                FailureView::Call { method: SpellMethod::SetTriggerConfig, cause },
            ),
            None => state.fail(FailureView::OutOfTurn),
        },
        UpdateStage::Unsubscribing => match event {
            EventView::Unsubscribed(Ok(_)) => state.after_unsubscribing(),
            EventView::Unsubscribed(Err(cause)) => state.fail(FailureView::Subscription(cause)),
            _ => state.fail(FailureView::OutOfTurn),
        },
        UpdateStage::Subscribing => match event {
            EventView::Subscribed(Ok(_)) => state.finish(Ok(())),
            EventView::Subscribed(Err(cause)) => state.fail(FailureView::Subscription(cause)),
            _ => state.fail(FailureView::OutOfTurn),
        },
        UpdateStage::Finished => state.fail(FailureView::OutOfTurn),
    }
}

/// Starts the reconfiguration that the request `params` asks for: spell
/// `spell_id` of the worker the request addresses is to have the triggers of
/// `user_config`. `config` is what validation made of `user_config`: the
/// triggers it resolved to, none where it names no active trigger, or the
/// reason it is malformed.
///
/// A caller that is neither the management peer, nor the worker, nor its
/// creator gets a permission error; a malformed configuration is a
/// validation error. Otherwise the reconfiguration stands where
/// `update_begin` puts it. Whoever runs it performs each request it asks for
/// and hands the outcome to `advance`, until it is `Done`.
pub fn spell_update_config<C>(
    spell_id: String,
    user_config: TriggerConfig,
    config: Result<Option<C>, ValidationError>,
    params: &RequestContext,
    key_manager: &PermissionGuard,
) -> (r: (UpdateConfig<C>, Step<C, ()>))
    ensures
        (r.0@, r.1@) == update_begin(
            key_manager,
            params@,
            spell_id@,
            user_config,
            match config {
                Ok(resolved) => Ok(resolved),
                Err(error) => Err(error@),
            },
        ),
{
    let idle = UpdateConfig {
        stage: UpdateStage::Finished,
        spell_id,
        worker_id: params.host_id.clone(),
        ttl: params.ttl as u64,
        user_config,
        config: None,
    };
    match key_manager.authorize_mutate(&params.init_peer_id, &params.host_id) {
        Err(refusal) => idle.fail(Failure::Permission(refusal)),
        Ok(_) => match config {
            Err(error) => idle.fail(Failure::Validation(error)),
            Ok(config) => {
                let mut args: Vec<CallArg> = Vec::new();
                args.push(CallArg::Config(user_config));
                assert(views(args@) =~= seq![CallArgView::Config(user_config)]);
                let call = make_own_call(
                    &idle.worker_id,
                    &idle.spell_id,
                    SpellMethod::SetTriggerConfig,
                    args,
                    idle.ttl,
                );
                (
                    UpdateConfig { stage: UpdateStage::SavingConfig, config, ..idle },
                    Step::Perform(Request::Call(call)),
                )
            },
        },
    }
}

impl<C> UpdateConfig<C> {
    /// Whether the reconfiguration is over.
    pub fn is_finished(&self) -> (r: bool)
        ensures
            r == (self@.stage == UpdateStage::Finished),
    {
        match self.stage {
            UpdateStage::Finished => true,
            _ => false,
        }
    }

    /// The reconfiguration, over with `result`.
    fn finish(self, result: Result<(), SpellError>) -> (r: (UpdateConfig<C>, Step<C, ()>))
        ensures
            (r.0@, r.1@) == self@.finish(
                match result {
                    Ok(_) => Ok(()),
                    Err(error) => Err(error@),
                },
            ),
    {
        (UpdateConfig { stage: UpdateStage::Finished, ..self }, Step::Done(result))
    }

    /// The reconfiguration, over because of `failure`.
    fn fail(self, failure: Failure) -> (r: (UpdateConfig<C>, Step<C, ()>))
        ensures
            (r.0@, r.1@) == self@.fail(failure@),
    {
        let error = SpellError {
            operation: Operation::UpdateConfig,
            spell_id: Some(self.spell_id.clone()),
            failure,
        };
        self.finish(Err(error))
    }

    /// Takes the outcome of the request that the reconfiguration was waiting
    /// on and says what it does next, as `update_next` has it.
    pub fn advance(self, event: Event) -> (r: (UpdateConfig<C>, Step<C, ()>))
        ensures
            (r.0@, r.1@) == update_next(self@, event@),
    {
        match self.stage {
            UpdateStage::SavingConfig => match read_effect(event) {
                Some(Ok(_)) => {
                    let request = Request::Unsubscribe { spell_id: self.spell_id.clone() };
                    (
                        UpdateConfig { stage: UpdateStage::Unsubscribing, ..self },
                        Step::Perform(request),
                    )
                },
                Some(Err(cause)) => self.fail(
                    Failure::Call { method: SpellMethod::SetTriggerConfig, cause },
                ),
                None => self.fail(Failure::OutOfTurn),
            },
            UpdateStage::Unsubscribing => match event {
                Event::Unsubscribed(Ok(_)) => {
                    let UpdateConfig { stage, spell_id, worker_id, ttl, user_config, config } = self;
                    match config {
                        Some(config) => {
                            let request = Request::Subscribe { spell_id: spell_id.clone(), config };
                            (
                                UpdateConfig {
                                    stage: UpdateStage::Subscribing,
                                    spell_id,
                                    worker_id,
                                    ttl,
                                    user_config,
                                    config: None,
                                },
                                Step::Perform(request),
                            )
                        },
                        None => (
                            UpdateConfig {
                                stage: UpdateStage::Finished,
                                spell_id,
                                worker_id,
                                ttl,
                                user_config,
                                config: None,
                            },
                            Step::Done(Ok(())),
                        ),
                    }
                },
                Event::Unsubscribed(Err(cause)) => self.fail(Failure::Subscription(cause)),
                _ => self.fail(Failure::OutOfTurn),
            },
            UpdateStage::Subscribing => match event {
                Event::Subscribed(Ok(_)) => self.finish(Ok(())),
                Event::Subscribed(Err(cause)) => self.fail(Failure::Subscription(cause)),
                _ => self.fail(Failure::OutOfTurn),
            },
            UpdateStage::Finished => self.fail(Failure::OutOfTurn),
        }
    }
}

} // verus!
