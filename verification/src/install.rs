//! The install of a spell.

use vstd::prelude::*;
use crate::context::{RequestContext, RequestContextView};
use crate::error::{
    Failure, FailureView, Operation, SpellError, SpellErrorView, SubscriptionError, ValidationError,
};
use crate::identity::Identity;
use crate::json::JsonValue;
use crate::permission::{install_allowed, PermissionGuard};
use crate::registry::SpellRegistry;
use crate::service::{CallArg, CallArgView, Event, EventView, Request, RequestView, SpellMethod};
use crate::step::{effect_of, make_own_call, own_call, read_effect, Step, StepView, Turn};
use crate::trigger::TriggerConfig;

verus! {

/// Where an install stands: what it has asked for and is waiting on.
#[derive(Debug, PartialEq, Eq)]
pub enum InstallStage {
    /// The spell's service is being created.
    CreatingService,
    /// The script is being stored with the spell.
    SavingScript { spell_id: String },
    /// The initial data is being stored with the spell.
    SavingData { spell_id: String },
    /// The trigger configuration, as the user wrote it, is being stored with
    /// the spell.
    SavingConfig { spell_id: String },
    /// The spell's triggers are being bound.
    Subscribing { spell_id: String },
    /// Binding the triggers failed for `cause`; the spell has left the
    /// registry and its service is being removed.
    RemovingService { spell_id: String, cause: SubscriptionError },
    /// The install is over.
    Finished,
}

pub enum InstallStageView {
    CreatingService,
    SavingScript { spell_id: Seq<char> },
    SavingData { spell_id: Seq<char> },
    SavingConfig { spell_id: Seq<char> },
    Subscribing { spell_id: Seq<char> },
    RemovingService { spell_id: Seq<char>, cause: Seq<char> },
    Finished,
}

impl View for InstallStage {
    type V = InstallStageView;

    open spec fn view(&self) -> InstallStageView {
        match self {
            InstallStage::CreatingService => InstallStageView::CreatingService,
            InstallStage::SavingScript { spell_id } => InstallStageView::SavingScript {
                spell_id: spell_id@,
            },
            InstallStage::SavingData { spell_id } => InstallStageView::SavingData {
                spell_id: spell_id@,
            },
            InstallStage::SavingConfig { spell_id } => InstallStageView::SavingConfig {
                spell_id: spell_id@,
            },
            InstallStage::Subscribing { spell_id } => InstallStageView::Subscribing {
                spell_id: spell_id@,
            },
            InstallStage::RemovingService { spell_id, cause } => InstallStageView::RemovingService {
                spell_id: spell_id@,
                cause: cause@,
            },
            InstallStage::Finished => InstallStageView::Finished,
        }
    }
}

/// An install under way. `C` is the resolved trigger configuration that
/// validation made of the user's.
pub struct InstallSpell<C> {
    stage: InstallStage,
    worker_id: Identity,
    particle_id: String,
    ttl: u64,
    user_config: TriggerConfig,
    config: Option<C>,
    script: String,
    init_data: JsonValue,
}

pub struct InstallSpellView<C> {
    pub stage: InstallStageView,
    /// The worker that the spell is installed on.
    pub worker_id: Seq<char>,
    /// The request that the install is made for.
    pub particle_id: Seq<char>,
    /// The time each call into the spell may take, in milliseconds.
    pub ttl: u64,
    /// The trigger configuration as the user wrote it.
    pub user_config: TriggerConfig,
    /// The triggers still to be bound: none where the configuration resolved
    /// to none, and none once the subscription has been asked for.
    pub config: Option<C>,
    pub script: Seq<char>,
    pub init_data: Seq<char>,
}

impl<C> View for InstallSpell<C> {
    type V = InstallSpellView<C>;

    closed spec fn view(&self) -> InstallSpellView<C> {
        InstallSpellView {
            stage: self.stage@,
            worker_id: self.worker_id@,
            particle_id: self.particle_id@,
            ttl: self.ttl,
            user_config: self.user_config,
            config: self.config,
            script: self.script@,
            init_data: self.init_data@,
        }
    }
}

impl<C> InstallSpellView<C> {
    /// The same install at another stage.
    pub open spec fn at(self, stage: InstallStageView) -> InstallSpellView<C> {
        InstallSpellView { stage, ..self }
    }

    /// The install goes on to `stage` and asks for `request`.
    pub open spec fn proceed(
        self,
        stage: InstallStageView,
        registry: Set<(Seq<char>, Seq<char>)>,
        request: RequestView<C>,
    ) -> Turn<InstallSpellView<C>, C, Seq<char>> {
        Turn { state: self.at(stage), registry, step: StepView::Perform(request) }
    }

    /// The install is over with `result`.
    pub open spec fn finish(
        self,
        registry: Set<(Seq<char>, Seq<char>)>,
        result: Result<Seq<char>, SpellErrorView>,
    ) -> Turn<InstallSpellView<C>, C, Seq<char>> {
        Turn { state: self.at(InstallStageView::Finished), registry, step: StepView::Done(result) }
    }

    /// The install is over because of `failure`; `spell_id` is the spell, if
    /// there is one yet.
    pub open spec fn fail(
        self,
        registry: Set<(Seq<char>, Seq<char>)>,
        spell_id: Option<Seq<char>>,
        failure: FailureView,
    ) -> Turn<InstallSpellView<C>, C, Seq<char>> {
        self.finish(
            registry,
            Err(SpellErrorView { operation: Operation::Install, spell_id, failure }),
        )
    }

    /// The call that stores something with the spell.
    pub open spec fn save(
        self,
        spell_id: Seq<char>,
        method: SpellMethod,
        arg: CallArgView,
    ) -> RequestView<C> {
        RequestView::Call(own_call(self.worker_id, spell_id, method, seq![arg], self.ttl))
    }

    /// What follows once the user's configuration is stored: the triggers are
    /// bound where there are any, else the install is over.
    pub open spec fn after_saving(
        self,
        registry: Set<(Seq<char>, Seq<char>)>,
        spell_id: Seq<char>,
    ) -> Turn<InstallSpellView<C>, C, Seq<char>> {
        match self.config {
            Some(config) => Turn {
                state: InstallSpellView {
                    stage: InstallStageView::Subscribing { spell_id },
                    config: None,
                    ..self
                },
                registry,
                step: StepView::Perform(RequestView::Subscribe { spell_id, config }),
            },
            None => self.finish(registry, Ok(spell_id)),
        }
    }
}

/// The install that starts from these arguments, and its first step.
/// `config` is what validation made of `user_config`: a malformed
/// configuration ends the install before anything is asked for; else the
/// spell's service is asked for.
pub open spec fn install_begin<C>(
    blueprint: Seq<char>,
    worker_id: Seq<char>,
    particle_id: Seq<char>,
    ttl: u64,
    user_config: TriggerConfig,
    config: Result<Option<C>, Seq<char>>,
    script: Seq<char>,
    init_data: Seq<char>,
) -> (InstallSpellView<C>, StepView<C, Seq<char>>) {
    match config {
        Ok(config) => (
            InstallSpellView {
                stage: InstallStageView::CreatingService,
                worker_id,
                particle_id,
                ttl,
                user_config,
                config,
                script,
                init_data,
            },
            StepView::Perform(RequestView::CreateService { blueprint, owner: worker_id }),
        ),
        Err(reason) => (
            InstallSpellView {
                stage: InstallStageView::Finished,
                worker_id,
                particle_id,
                ttl,
                user_config,
                config: None,
                script,
                init_data,
            },
            StepView::Done(
                Err(
                    SpellErrorView {
                        operation: Operation::Install,
                        spell_id: None,
                        failure: FailureView::Validation(reason),
                    },
                ),
            ),
        ),
    }
}

/// How an install goes on when `event` comes.
///
/// The service, once created, is registered at once and the script, the
/// initial data and the user's configuration are stored with it, one call
/// after the other; then the triggers are bound where the configuration
/// resolved to any. A failure ends the install with its error. Before that,
/// if it was the subscription that failed, the spell leaves the registry and
/// its service is removed; any other failure leaves what was built.
pub open spec fn install_next<C>(
    state: InstallSpellView<C>,
    registry: Set<(Seq<char>, Seq<char>)>,
    event: EventView,
) -> Turn<InstallSpellView<C>, C, Seq<char>> {
    match state.stage {
        InstallStageView::CreatingService => match event {
            EventView::ServiceCreated(Ok(spell_id)) => state.proceed(
                InstallStageView::SavingScript { spell_id },
                registry.insert((state.worker_id, spell_id)),
                state.save(spell_id, SpellMethod::SetScriptSource, CallArgView::Text(state.script)),
            ),
            EventView::ServiceCreated(Err(cause)) => state.fail(
                registry,
                None,
                FailureView::Service(cause),
            ),
            _ => state.fail(registry, None, FailureView::OutOfTurn),
        },
        InstallStageView::SavingScript { spell_id } => match effect_of(event) {
            Some(Ok(_)) => state.proceed(
                InstallStageView::SavingData { spell_id },
                registry,
                state.save(spell_id, SpellMethod::SetJsonFields, CallArgView::Text(state.init_data)),
            ),
            Some(Err(cause)) => state.fail(
                registry,
                Some(spell_id),
                FailureView::Call { method: SpellMethod::SetScriptSource, cause },
            ),
            None => state.fail(registry, Some(spell_id), FailureView::OutOfTurn),
        },
        InstallStageView::SavingData { spell_id } => match effect_of(event) {
            Some(Ok(_)) => state.proceed(
                InstallStageView::SavingConfig { spell_id },
                registry,
                state.save(
                    spell_id,
                    SpellMethod::SetTriggerConfig,
                    CallArgView::Config(state.user_config),
                ),
            ),
            Some(Err(cause)) => state.fail(
                registry,
                Some(spell_id),
                FailureView::Call { method: SpellMethod::SetJsonFields, cause },
            ),
            None => state.fail(registry, Some(spell_id), FailureView::OutOfTurn),
        },
        InstallStageView::SavingConfig { spell_id } => match effect_of(event) {
            Some(Ok(_)) => state.after_saving(registry, spell_id),
            Some(Err(cause)) => state.fail(
                registry,
                Some(spell_id),
                FailureView::Call { method: SpellMethod::SetTriggerConfig, cause },
            ),
            None => state.fail(registry, Some(spell_id), FailureView::OutOfTurn),
        },
        InstallStageView::Subscribing { spell_id } => match event {
            EventView::Subscribed(Ok(_)) => state.finish(registry, Ok(spell_id)),
            EventView::Subscribed(Err(cause)) => state.proceed(
                InstallStageView::RemovingService { spell_id, cause },
                registry.remove((state.worker_id, spell_id)),
                RequestView::RemoveService {
                    particle_id: state.particle_id,
                    owner: state.worker_id,
                    spell_id,
                },
            ),
            _ => state.fail(registry, Some(spell_id), FailureView::OutOfTurn),
        },
        InstallStageView::RemovingService { spell_id, cause } => match event {
            EventView::ServiceRemoved(Ok(_)) => state.fail(
                registry,
                Some(spell_id),
                FailureView::Subscription(cause),
            ),
            EventView::ServiceRemoved(Err(failure)) => state.fail(
                registry,
                Some(spell_id),
                FailureView::Service(failure),
            ),
            _ => state.fail(registry, Some(spell_id), FailureView::OutOfTurn),
        },
        InstallStageView::Finished => state.fail(registry, None, FailureView::OutOfTurn),
    }
}

/// Starts the install of a spell on `worker_id`, with no question asked
/// about who wants it. `config` is what validation made of `user_config`:
/// the triggers it resolved to, none where it names no active trigger, or the
/// reason it is malformed.
///
/// The install then stands where `install_begin` puts it. Whoever runs it
/// performs each request it asks for and hands the outcome to `advance`,
/// until it is `Done`.
pub fn install_spell<C>(
    spell_storage: &SpellRegistry,
    worker_id: Identity,
    particle_id: String,
    ttl: u64,
    user_config: TriggerConfig,
    config: Result<Option<C>, ValidationError>,
    script: String,
    init_data: JsonValue,
) -> (r: (InstallSpell<C>, Step<C, String>))
    ensures
        (r.0@, r.1@) == install_begin(
            spell_storage.blueprint(),
            worker_id@,
            particle_id@,
            ttl,
            user_config,
            match config {
                Ok(resolved) => Ok(resolved),
                Err(error) => Err(error@),
            },
            script@,
            init_data@,
        ),
{
    match config {
        Ok(config) => {
            let request = Request::CreateService {
                blueprint: spell_storage.get_blueprint(),
                owner: worker_id.clone(),
            };
            (
                InstallSpell {
                    stage: InstallStage::CreatingService,
                    worker_id,
                    particle_id,
                    ttl,
                    user_config,
                    config,
                    script,
                    init_data,
                },
                Step::Perform(request),
            )
        },
        Err(error) => (
            InstallSpell {
                stage: InstallStage::Finished,
                worker_id,
                particle_id,
                ttl,
                user_config,
                config: None,
                script,
                init_data,
            },
            Step::Done(
                Err(
                    SpellError {
                        operation: Operation::Install,
                        spell_id: None,
                        failure: Failure::Validation(error),
                    },
                ),
            ),
        ),
    }
}

/// The install that a request starts, and its first step. The user's
/// configuration is judged first: a malformed one ends the install as a
/// validation error, whoever asks. Then the caller is judged: one who may not
/// install on the worker is turned away. Only then does the install begin.
/// In none of the three cases is anything changed yet.
pub open spec fn spell_install_begin<C>(
    key_manager: &PermissionGuard,
    blueprint: Seq<char>,
    params: RequestContextView,
    script: Seq<char>,
    init_data: Seq<char>,
    user_config: TriggerConfig,
    config: Result<Option<C>, Seq<char>>,
) -> (InstallSpellView<C>, StepView<C, Seq<char>>) {
    let begun = install_begin(
        blueprint,
        params.host_id,
        params.id,
        params.ttl as u64,
        user_config,
        config,
        script,
        init_data,
    );
    if config is Ok && !install_allowed(
        key_manager.roles_of(params.init_peer_id, params.host_id),
        params.host_id == key_manager.host(),
    ) {
        (
            InstallSpellView { stage: InstallStageView::Finished, config: None, ..begun.0 },
            StepView::Done(
                Err(
                    SpellErrorView {
                        operation: Operation::Install,
                        spell_id: None,
                        failure: FailureView::Permission(
                            key_manager.refusal(
                                params.init_peer_id,
                                params.host_id,
                                params.host_id == key_manager.host(),
                            ),
                        ),
                    },
                ),
            ),
        )
    } else {
        begun
    }
}

/// Starts the install that the request `params` asks for: a spell with
/// `script`, `init_data` and `user_config` on the worker the request
/// addresses. `config` is what validation made of `user_config`.
///
/// A malformed configuration is a validation error; a caller that is neither
/// the management peer, nor the worker, nor its creator (on the host: that is
/// not the management peer) gets a permission error. Otherwise the install
/// begins as `install_spell` begins it.
pub fn spell_install<C>(
    script: String,
    init_data: JsonValue,
    user_config: TriggerConfig,
    config: Result<Option<C>, ValidationError>,
    params: &RequestContext,
    spell_storage: &SpellRegistry,
    key_manager: &PermissionGuard,
) -> (r: (InstallSpell<C>, Step<C, String>))
    ensures
        (r.0@, r.1@) == spell_install_begin(
            key_manager,
            spell_storage.blueprint(),
            params@,
            script@,
            init_data@,
            user_config,
            match config {
                Ok(resolved) => Ok(resolved),
                Err(error) => Err(error@),
            },
        ),
{
    if config.is_ok() {
        match key_manager.authorize_install(&params.init_peer_id, &params.host_id) {
            Ok(_) => {},
            Err(refusal) => {
                return (
                    InstallSpell {
                        stage: InstallStage::Finished,
                        worker_id: params.host_id.clone(),
                        particle_id: params.id.clone(),
                        ttl: params.ttl as u64,
                        user_config,
                        config: None,
                        script,
                        init_data,
                    },
                    Step::Done(
                        Err(
                            SpellError {
                                operation: Operation::Install,
                                spell_id: None,
                                failure: Failure::Permission(refusal),
                            },
                        ),
                    ),
                );
            },
        }
    }
    install_spell(
        spell_storage,
        params.host_id.clone(),
        params.id.clone(),
        params.ttl as u64,
        user_config,
        config,
        script,
        init_data,
    )
}

impl<C> InstallSpell<C> {
    /// Whether the install is over.
    pub fn is_finished(&self) -> (r: bool)
        ensures
            r == (self@.stage is Finished),
    {
        match self.stage {
            InstallStage::Finished => true,
            _ => false,
        }
    }

    /// The install, over with `result`.
    fn finish(self, result: Result<String, SpellError>) -> (r: (InstallSpell<C>, Step<C, String>))
        ensures
            r.0@ == self@.at(InstallStageView::Finished),
            r.1@ == StepView::<C, Seq<char>>::Done(
                match result {
                    Ok(spell_id) => Ok(spell_id@),
                    Err(error) => Err(error@),
                },
            ),
    {
        (InstallSpell { stage: InstallStage::Finished, ..self }, Step::Done(result))
    }

    /// The install, over because of `failure`.
    fn fail(self, spell_id: Option<String>, failure: Failure) -> (r: (
        InstallSpell<C>,
        Step<C, String>,
    ))
        ensures
            r.0@ == self@.at(InstallStageView::Finished),
            r.1@ == StepView::<C, Seq<char>>::Done(
                Err(
                    SpellErrorView {
                        operation: Operation::Install,
                        spell_id: crate::text::view_of(spell_id),
                        failure: failure@,
                    },
                ),
            ),
    {
        self.finish(Err(SpellError { operation: Operation::Install, spell_id, failure }))
    }

    /// The install, gone on to `stage` and asking for a call that stores
    /// `arg` with the spell.
    fn save(self, stage: InstallStage, spell_id: &String, method: SpellMethod, arg: CallArg) -> (r: (
        InstallSpell<C>,
        Step<C, String>,
    ))
        ensures
            r.0@ == self@.at(stage@),
            r.1@ == StepView::<C, Seq<char>>::Perform(self@.save(spell_id@, method, arg@)),
    {
        let mut args: Vec<CallArg> = Vec::new();
        args.push(arg);
        assert(crate::text::views(args@) =~= seq![arg@]);
        let call = make_own_call(&self.worker_id, spell_id, method, args, self.ttl);
        (InstallSpell { stage, ..self }, Step::Perform(Request::Call(call)))
    }

    /// Takes the outcome of the request that the install was waiting on and
    /// says what the install does next, as `install_next` has it. The
    /// registry gains the spell as soon as its service exists and loses it
    /// again when the subscription fails; nothing else touches it.
    pub fn advance(self, spell_storage: &mut SpellRegistry, event: Event) -> (r: (
        InstallSpell<C>,
        Step<C, String>,
    ))
        ensures
            final(spell_storage).blueprint() == old(spell_storage).blueprint(),
            r.0@ == install_next(self@, old(spell_storage)@, event@).state,
            final(spell_storage)@ == install_next(self@, old(spell_storage)@, event@).registry,
            r.1@ == install_next(self@, old(spell_storage)@, event@).step,
    {
        match &self.stage {
            InstallStage::CreatingService => match event {
                Event::ServiceCreated(Ok(spell_id)) => {
                    spell_storage.register_spell(self.worker_id.clone(), spell_id.clone());
                    let arg = CallArg::Text(self.script.clone());
                    let stage = InstallStage::SavingScript { spell_id: spell_id.clone() };
                    self.save(stage, &spell_id, SpellMethod::SetScriptSource, arg)
                },
                Event::ServiceCreated(Err(cause)) => self.fail(None, Failure::Service(cause)),
                _ => self.fail(None, Failure::OutOfTurn),
            },
            InstallStage::SavingScript { spell_id } => {
                let spell_id = spell_id.clone();
                match read_effect(event) {
                    Some(Ok(_)) => {
                        let arg = CallArg::Text(self.init_data.as_str().to_owned());
                        let stage = InstallStage::SavingData { spell_id: spell_id.clone() };
                        self.save(stage, &spell_id, SpellMethod::SetJsonFields, arg)
                    },
                    Some(Err(cause)) => self.fail(
                        Some(spell_id),
                        Failure::Call { method: SpellMethod::SetScriptSource, cause },
                    ),
                    None => self.fail(Some(spell_id), Failure::OutOfTurn),
                }
            },
            InstallStage::SavingData { spell_id } => {
                let spell_id = spell_id.clone();
                match read_effect(event) {
                    Some(Ok(_)) => {
                        let arg = CallArg::Config(self.user_config);
                        let stage = InstallStage::SavingConfig { spell_id: spell_id.clone() };
                        self.save(stage, &spell_id, SpellMethod::SetTriggerConfig, arg)
                    },
                    Some(Err(cause)) => self.fail(
                        Some(spell_id),
                        Failure::Call { method: SpellMethod::SetJsonFields, cause },
                    ),
                    None => self.fail(Some(spell_id), Failure::OutOfTurn),
                }
            },
            InstallStage::SavingConfig { spell_id } => {
                let spell_id = spell_id.clone();
                match read_effect(event) {
                    Some(Ok(_)) => {
                        let InstallSpell {
                            stage,
                            worker_id,
                            particle_id,
                            ttl,
                            user_config,
                            config,
                            script,
                            init_data,
                        } = self;
                        match config {
                            Some(config) => (
                                InstallSpell {
                                    stage: InstallStage::Subscribing { spell_id: spell_id.clone() },
                                    worker_id,
                                    particle_id,
                                    ttl,
                                    user_config,
                                    config: None,
                                    script,
                                    init_data,
                                },
                                Step::Perform(Request::Subscribe { spell_id, config }),
                            ),
                            None => (
                                InstallSpell {
                                    stage: InstallStage::Finished,
                                    worker_id,
                                    particle_id,
                                    ttl,
                                    user_config,
                                    config: None,
                                    script,
                                    init_data,
                                },
                                Step::Done(Ok(spell_id)),
                            ),
                        }
                    },
                    Some(Err(cause)) => self.fail(
                        Some(spell_id),
                        Failure::Call { method: SpellMethod::SetTriggerConfig, cause },
                    ),
                    None => self.fail(Some(spell_id), Failure::OutOfTurn),
                }
            },
            InstallStage::Subscribing { spell_id } => {
                let spell_id = spell_id.clone();
                match event {
                    Event::Subscribed(Ok(_)) => self.finish(Ok(spell_id)),
                    Event::Subscribed(Err(cause)) => {
                        spell_storage.unregister_spell(&self.worker_id, spell_id.as_str());
                        let request = Request::RemoveService {
                            particle_id: self.particle_id.clone(),
                            owner: self.worker_id.clone(),
                            spell_id: spell_id.clone(),
                        };
                        (
                            InstallSpell {
                                stage: InstallStage::RemovingService { spell_id, cause },
                                ..self
                            },
                            Step::Perform(request),
                        )
                    },
                    _ => self.fail(Some(spell_id), Failure::OutOfTurn),
                }
            },
            InstallStage::RemovingService { spell_id, cause } => {
                let spell_id = spell_id.clone();
                let cause = cause.clone();
                match event {
                    Event::ServiceRemoved(Ok(_)) => self.fail(
                        Some(spell_id),
                        Failure::Subscription(cause),
                    ),
                    Event::ServiceRemoved(Err(failure)) => self.fail(
                        Some(spell_id),
                        Failure::Service(failure),
                    ),
                    _ => self.fail(Some(spell_id), Failure::OutOfTurn),
                }
            },
            InstallStage::Finished => self.fail(None, Failure::OutOfTurn),
        }
    }
}

} // verus!
