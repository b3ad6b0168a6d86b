//! The operations that change nothing of a spell's standing: reading what it
//! is, listing the spells of a worker, reading one of its values, and storing a
//! record with it.

use vstd::prelude::*;
use crate::context::{RequestContext, RequestContextView};
use crate::error::{Failure, FailureView, Operation, SpellError, SpellErrorView};
use crate::identity::Identity;
use crate::json::{json_reading, read_json, JsonValue};
use crate::registry::SpellRegistry;
use crate::service::{CallArg, CallArgView, Event, EventView, Request, RequestView, SpellMethod};
use crate::step::{
    call_for, config_in, effect_of, make_call_for, make_own_call, own_call, read_config,
    read_effect, read_script, read_text, script_in, text_in, Step, StepView,
};
use crate::text::{texts, views};
use crate::trigger::TriggerConfig;

verus! {

/// What a spell is: its script and its trigger configuration, as they are
/// stored with it.
#[derive(Debug, PartialEq, Eq)]
pub struct SpellInfo {
    pub script: String,
    pub trigger_config: TriggerConfig,
}

pub struct SpellInfoView {
    pub script: Seq<char>,
    pub trigger_config: TriggerConfig,
}

impl View for SpellInfo {
    type V = SpellInfoView;

    open spec fn view(&self) -> SpellInfoView {
        SpellInfoView { script: self.script@, trigger_config: self.trigger_config }
    }
}

impl Clone for SpellInfo {
    fn clone(&self) -> (r: SpellInfo)
        ensures
            r@ == self@,
    {
        SpellInfo { script: self.script.clone(), trigger_config: self.trigger_config }
    }
}

/// Where the reading of a spell stands: what it has asked for and is waiting
/// on.
#[derive(Clone, Copy, Debug, PartialEq, Eq, Structural)]
pub enum InfoStage {
    /// The stored trigger configuration is being read.
    ReadingConfig,
    /// The configuration is read; the script is being read.
    ReadingScript { trigger_config: TriggerConfig },
    /// The reading is over.
    Finished,
}

/// The reading of a spell's script and trigger configuration, under way.
pub struct ReadSpellInfo {
    stage: InfoStage,
    worker_id: Identity,
    ttl: u64,
    spell_id: String,
}

pub struct ReadSpellInfoView {
    pub stage: InfoStage,
    /// The worker that the spell is installed on.
    pub worker_id: Seq<char>,
    /// The time each call into the spell may take, in milliseconds.
    pub ttl: u64,
    pub spell_id: Seq<char>,
}

impl View for ReadSpellInfo {
    type V = ReadSpellInfoView;

    closed spec fn view(&self) -> ReadSpellInfoView {
        ReadSpellInfoView {
            stage: self.stage,
            worker_id: self.worker_id@,
            ttl: self.ttl,
            spell_id: self.spell_id@,
        }
    }
}

impl ReadSpellInfoView {
    /// The call that reads something of the spell.
    pub open spec fn read<C>(self, method: SpellMethod) -> RequestView<C> {
        RequestView::Call(
            own_call(self.worker_id, self.spell_id, method, Seq::<CallArgView>::empty(), self.ttl),
        )
    }

    /// The reading is over with `result`.
    pub open spec fn finish<C>(self, result: Result<SpellInfoView, SpellErrorView>) -> (
        ReadSpellInfoView,
        StepView<C, SpellInfoView>,
    ) {
        (ReadSpellInfoView { stage: InfoStage::Finished, ..self }, StepView::Done(result))
    }

    /// What is reported when the reading fails.
    pub open spec fn error(self, failure: FailureView) -> SpellErrorView {
        SpellErrorView { operation: Operation::GetInfo, spell_id: Some(self.spell_id), failure }
    }

    /// The reading is over because of `failure`.
    pub open spec fn fail<C>(self, failure: FailureView) -> (
        ReadSpellInfoView,
        StepView<C, SpellInfoView>,
    ) {
        self.finish(Err(self.error(failure)))
    }
}

/// The reading of spell `spell_id` of `worker_id`, and its first step: the
/// stored trigger configuration is asked for.
pub open spec fn info_begin<C>(worker_id: Seq<char>, ttl: u64, spell_id: Seq<char>) -> (
    ReadSpellInfoView,
    StepView<C, SpellInfoView>,
) {
    let state = ReadSpellInfoView { stage: InfoStage::ReadingConfig, worker_id, ttl, spell_id };
    (state, StepView::Perform(state.read(SpellMethod::GetTriggerConfig)))
}

/// How the reading of a spell goes on when `event` comes: after the trigger
/// configuration the script is read, and both together are the result. A
/// read that fails ends the reading with the failure as it came.
pub open spec fn info_next<C>(state: ReadSpellInfoView, event: EventView) -> (
    ReadSpellInfoView,
    StepView<C, SpellInfoView>,
) {
    match state.stage {
        InfoStage::ReadingConfig => match config_in(event) {
            Some(Ok(trigger_config)) => (
                ReadSpellInfoView { stage: InfoStage::ReadingScript { trigger_config }, ..state },
                StepView::Perform(state.read(SpellMethod::GetScriptSource)),
            ),
            Some(Err(cause)) => state.fail(
                FailureView::Call { method: SpellMethod::GetTriggerConfig, cause },
            ),
            None => state.fail(FailureView::OutOfTurn),
        },
        InfoStage::ReadingScript { trigger_config } => match script_in(event) {
            Some(Ok(script)) => state.finish(Ok(SpellInfoView { script, trigger_config })),
            Some(Err(cause)) => state.fail(
                FailureView::Call { method: SpellMethod::GetScriptSource, cause },
            ),
            None => state.fail(FailureView::OutOfTurn),
        },
        InfoStage::Finished => state.fail(FailureView::OutOfTurn),
    }
}

/// Starts the reading of the script and the trigger configuration stored
/// with spell `spell_id` of `worker_id`. Nothing is changed by it. Whoever
/// runs it performs each request it asks for and hands the outcome to
/// `advance`, until it is `Done`.
pub fn get_spell_info<C>(worker_id: Identity, ttl: u64, spell_id: String) -> (r: (
    ReadSpellInfo,
    Step<C, SpellInfo>,
))
    ensures
        (r.0@, r.1@) == info_begin::<C>(worker_id@, ttl, spell_id@),
{
    let call = make_own_call(&worker_id, &spell_id, SpellMethod::GetTriggerConfig, Vec::new(), ttl);
    assert(call@.args =~= Seq::<CallArgView>::empty());
    (
        ReadSpellInfo { stage: InfoStage::ReadingConfig, worker_id, ttl, spell_id },
        Step::Perform(Request::Call(call)),
    )
}

impl ReadSpellInfo {
    /// Whether the reading is over.
    pub fn is_finished(&self) -> (r: bool)
        ensures
            r == (self@.stage == InfoStage::Finished),
    {
        match self.stage {
            InfoStage::Finished => true,
            _ => false,
        }
    }

    /// The reading, over with `result`.
    fn finish<C>(self, result: Result<SpellInfo, SpellError>) -> (r: (
        ReadSpellInfo,
        Step<C, SpellInfo>,
    ))
        ensures
            (r.0@, r.1@) == self@.finish::<C>(
                match result {
                    Ok(info) => Ok(info@),
                    Err(error) => Err(error@),
                },
            ),
    {
        (ReadSpellInfo { stage: InfoStage::Finished, ..self }, Step::Done(result))
    }

    /// The reading, over because of `failure`.
    fn fail<C>(self, failure: Failure) -> (r: (ReadSpellInfo, Step<C, SpellInfo>))
        ensures
            (r.0@, r.1@) == self@.fail::<C>(failure@),
    {
        let error = SpellError {
            operation: Operation::GetInfo,
            spell_id: Some(self.spell_id.clone()),
            failure,
        };
        self.finish(Err(error))
    }

    /// Takes the outcome of the request that the reading was waiting on and
    /// says what it does next, as `info_next` has it.
    pub fn advance<C>(self, event: Event) -> (r: (ReadSpellInfo, Step<C, SpellInfo>))
        ensures
            (r.0@, r.1@) == info_next::<C>(self@, event@),
    {
        match self.stage {
            InfoStage::ReadingConfig => match read_config(event) {
                Some(Ok(trigger_config)) => {
                    let call = make_own_call(
                        &self.worker_id,
                        &self.spell_id,
                        SpellMethod::GetScriptSource,
                        Vec::new(),
                        self.ttl,
                    );
                    assert(call@.args =~= Seq::<CallArgView>::empty());
                    (
                        ReadSpellInfo { stage: InfoStage::ReadingScript { trigger_config }, ..self },
                        Step::Perform(Request::Call(call)),
                    )
                },
                Some(Err(cause)) => self.fail(
                    Failure::Call { method: SpellMethod::GetTriggerConfig, cause },
                ),
                None => self.fail(Failure::OutOfTurn),
            },
            InfoStage::ReadingScript { trigger_config } => match read_script(event) {
                Some(Ok(script)) => self.finish(Ok(SpellInfo { script, trigger_config })),
                Some(Err(cause)) => self.fail(
                    Failure::Call { method: SpellMethod::GetScriptSource, cause },
                ),
                None => self.fail(Failure::OutOfTurn),
            },
            InfoStage::Finished => self.fail(Failure::OutOfTurn),
        }
    }
}

/// The spells installed on the worker that the request addresses, each
/// once, in no order that means anything. Spells of other workers are never
/// among them; a worker never heard of has none.
pub fn spell_list(params: &RequestContext, spell_storage: &SpellRegistry) -> (r: Vec<String>)
    ensures
        texts(r@).to_set() == spell_storage.spells_of(params.host_id@),
        texts(r@).no_duplicates(),
{
    spell_storage.list_spells(&params.host_id)
}

/// The reading of one value of a spell's data, under way.
pub struct ReadSpellArg {
    waiting: bool,
    spell_id: String,
    key: String,
}

pub struct ReadSpellArgView {
    /// Whether the call has been asked for and not yet answered.
    pub waiting: bool,
    pub spell_id: Seq<char>,
    /// The name under which the spell holds the value.
    pub key: Seq<char>,
}

impl View for ReadSpellArg {
    type V = ReadSpellArgView;

    closed spec fn view(&self) -> ReadSpellArgView {
        ReadSpellArgView { waiting: self.waiting, spell_id: self.spell_id@, key: self.key@ }
    }
}

impl ReadSpellArgView {
    /// What is reported when the reading fails.
    pub open spec fn error(self, failure: FailureView) -> SpellErrorView {
        SpellErrorView { operation: Operation::GetArg, spell_id: Some(self.spell_id), failure }
    }
}

/// The reading of the value that spell `spell_id` holds under `key`, and its
/// one step: the text stored under the key is asked for, for the request
/// `params`.
pub open spec fn arg_begin<C>(key: Seq<char>, params: RequestContextView, spell_id: Seq<char>) -> (
    ReadSpellArgView,
    StepView<C, Seq<char>>,
) {
    (
        ReadSpellArgView { waiting: true, spell_id, key },
        StepView::Perform(
            RequestView::Call(
                call_for(params, spell_id, SpellMethod::GetString, seq![CallArgView::Text(key)]),
            ),
        ),
    )
}

/// What the reading of a value comes to when `event` answers it: the text
/// that came, taken for the JSON document it is; a validation error where
/// the text is no JSON document, as for a key that the spell does not hold;
/// the call's own failure where the call failed.
pub open spec fn arg_result(state: ReadSpellArgView, event: EventView) -> Result<
    Seq<char>,
    SpellErrorView,
> {
    if !state.waiting {
        Err(state.error(FailureView::OutOfTurn))
    } else {
        match text_in(event) {
            Some(Ok(text)) => match json_reading(text) {
                Ok(_) => Ok(text),
                Err(reason) => Err(state.error(FailureView::Validation(reason))),
            },
            Some(Err(cause)) => Err(state.error(FailureView::Argument { key: state.key, cause })),
            None => Err(state.error(FailureView::OutOfTurn)),
        }
    }
}

/// Starts the reading of the value that spell `spell_id` holds under `key`.
/// Nothing is changed by it. Whoever runs it performs the one call it asks
/// for and hands the outcome to `advance`.
pub fn get_spell_arg<C>(key: String, params: &RequestContext, spell_id: String) -> (r: (
    ReadSpellArg,
    Step<C, JsonValue>,
))
    ensures
        (r.0@, r.1@) == arg_begin::<C>(key@, params@, spell_id@),
{
    let mut args: Vec<CallArg> = Vec::new();
    args.push(CallArg::Text(key.clone()));
    assert(views(args@) =~= seq![CallArgView::Text(key@)]);
    let call = make_call_for(params, &spell_id, SpellMethod::GetString, args);
    (ReadSpellArg { waiting: true, spell_id, key }, Step::Perform(Request::Call(call)))
}

impl ReadSpellArg {
    /// Whether the reading is over.
    pub fn is_finished(&self) -> (r: bool)
        ensures
            r == !self@.waiting,
    {
        !self.waiting
    }

    /// The error for a reading that fails.
    fn error(&self, failure: Failure) -> (r: SpellError)
        ensures
            r@ == self@.error(failure@),
    {
        SpellError { operation: Operation::GetArg, spell_id: Some(self.spell_id.clone()), failure }
    }

    /// The value that a text is which came as the answer, given what reading
    /// the text said of it: the text itself, where the reading accepted it
    /// as a JSON document; else a validation error with the reader's message.
    pub fn value_of(&self, text: &str, reading: Result<(), String>) -> (r: Result<
        JsonValue,
        SpellError,
    >)
        ensures
            match reading {
                Ok(_) => r matches Ok(value) && value@ == text@,
                Err(message) => r matches Err(error) && error@ == self@.error(
                    FailureView::Validation(message@),
                ),
            },
    {
        match JsonValue::from_reading(text, reading) {
            Ok(value) => Ok(value),
            Err(error) => Err(self.error(Failure::Validation(error))),
        }
    }

    /// Takes the outcome of the call and gives the value: the text that
    /// came, taken for the JSON document it is.
    pub fn advance<C>(self, event: Event) -> (r: (ReadSpellArg, Step<C, JsonValue>))
        ensures
            r.0@ == (ReadSpellArgView { waiting: false, ..self@ }),
            r.1@ == StepView::<C, Seq<char>>::Done(arg_result(self@, event@)),
    {
        let result = if !self.waiting {
            Err(self.error(Failure::OutOfTurn))
        } else {
            match read_text(event) {
                Some(Ok(text)) => self.value_of(text.as_str(), read_json(text.as_str())),
                Some(Err(cause)) => Err(
                    self.error(Failure::Argument { key: self.key.clone(), cause }),
                ),
                None => Err(self.error(Failure::OutOfTurn)),
            }
        };
        (ReadSpellArg { waiting: false, ..self }, Step::Done(result))
    }
}

/// The storing of a record with a spell, under way.
pub struct StoreRecord {
    operation: Operation,
    waiting: bool,
    spell_id: String,
    payload: Vec<JsonValue>,
}

pub struct StoreRecordView {
    /// What the record is stored for: an error or a response.
    pub operation: Operation,
    /// Whether the call has been asked for and not yet answered.
    pub waiting: bool,
    pub spell_id: Seq<char>,
    /// What is to be stored.
    pub payload: Seq<Seq<char>>,
}

impl View for StoreRecord {
    type V = StoreRecordView;

    closed spec fn view(&self) -> StoreRecordView {
        StoreRecordView {
            operation: self.operation,
            waiting: self.waiting,
            spell_id: self.spell_id@,
            payload: views(self.payload@),
        }
    }
}

impl StoreRecordView {
    /// What is reported when the storing fails.
    pub open spec fn error(self, failure: FailureView) -> SpellErrorView {
        SpellErrorView { operation: self.operation, spell_id: Some(self.spell_id), failure }
    }
}

/// The arguments of the call that stores an error: what the spell reported,
/// then the time of the request.
pub open spec fn error_args(payload: Seq<Seq<char>>, timestamp: u64) -> Seq<CallArgView> {
    Seq::new(payload.len(), |i: int| CallArgView::Json(payload[i])).push(
        CallArgView::Timestamp(timestamp),
    )
}

/// The storing of an error that spell `spell_id` reported, and its one
/// step: the call that stores what was reported, together with the time of
/// the request `params`.
pub open spec fn store_error_begin<C>(
    payload: Seq<Seq<char>>,
    params: RequestContextView,
    spell_id: Seq<char>,
) -> (StoreRecordView, StepView<C, ()>) {
    (
        StoreRecordView { operation: Operation::StoreError, waiting: true, spell_id, payload },
        StepView::Perform(
            RequestView::Call(
                call_for(
                    params,
                    spell_id,
                    SpellMethod::StoreError,
                    error_args(payload, params.timestamp),
                ),
            ),
        ),
    )
}

/// The storing of a response of spell `spell_id`, and its one step: the call
/// that puts the fields of the response among the spell's data.
pub open spec fn store_response_begin<C>(
    response: Seq<char>,
    params: RequestContextView,
    spell_id: Seq<char>,
) -> (StoreRecordView, StepView<C, ()>) {
    (
        StoreRecordView {
            operation: Operation::StoreResponse,
            waiting: true,
            spell_id,
            payload: seq![response],
        },
        StepView::Perform(
            RequestView::Call(
                call_for(
                    params,
                    spell_id,
                    SpellMethod::SetJsonFields,
                    seq![CallArgView::Text(response)],
                ),
            ),
        ),
    )
}

/// What the storing of a record comes to when `event` answers it: nothing
/// more where the call went through; where it failed, an error that names
/// the spell, holds what was to be stored, and gives the call's failure. The
/// call is not made a second time.
pub open spec fn store_result(state: StoreRecordView, event: EventView) -> Result<
    (),
    SpellErrorView,
> {
    if !state.waiting {
        Err(state.error(FailureView::OutOfTurn))
    } else {
        match effect_of(event) {
            Some(Ok(_)) => Ok(()),
            Some(Err(cause)) => Err(state.error(FailureView::Store { payload: state.payload, cause })),
            None => Err(state.error(FailureView::OutOfTurn)),
        }
    }
}

/// Starts the storing of an error that spell `spell_id` reported: `args` is
/// what it reported, and the time of the request is stored with it. Whoever
/// runs it performs the one call it asks for and hands the outcome to
/// `advance`.
pub fn store_error<C>(args: Vec<JsonValue>, params: &RequestContext, spell_id: String) -> (r: (
    StoreRecord,
    Step<C, ()>,
))
    ensures
        (r.0@, r.1@) == store_error_begin::<C>(views(args@), params@, spell_id@),
{
    let mut call_args: Vec<CallArg> = Vec::new();
    let mut at: usize = 0;
    while at < args.len()
        invariant
            at <= args@.len(),
            call_args@.len() == at,
            forall|i: int| 0 <= i < at ==> (#[trigger] call_args@[i])@ == CallArgView::Json(args@[i]@),
        decreases args@.len() - at,
    {
        call_args.push(CallArg::Json(args[at].clone()));
        at += 1;
    }
    call_args.push(CallArg::Timestamp(params.timestamp));
    assert(views(call_args@) =~= error_args(views(args@), params.timestamp));
    let call = make_call_for(params, &spell_id, SpellMethod::StoreError, call_args);
    (
        StoreRecord { operation: Operation::StoreError, waiting: true, spell_id, payload: args },
        Step::Perform(Request::Call(call)),
    )
}

/// Starts the storing of a response of spell `spell_id`. Whoever runs it
/// performs the one call it asks for and hands the outcome to `advance`.
pub fn store_response<C>(response: JsonValue, params: &RequestContext, spell_id: String) -> (r: (
    StoreRecord,
    Step<C, ()>,
))
    ensures
        (r.0@, r.1@) == store_response_begin::<C>(response@, params@, spell_id@),
{
    let mut call_args: Vec<CallArg> = Vec::new();
    call_args.push(CallArg::Text(response.as_str().to_owned()));
    assert(views(call_args@) =~= seq![CallArgView::Text(response@)]);
    let call = make_call_for(params, &spell_id, SpellMethod::SetJsonFields, call_args);
    let mut payload: Vec<JsonValue> = Vec::new();
    payload.push(response);
    assert(views(payload@) =~= seq![response@]);
    (
        StoreRecord { operation: Operation::StoreResponse, waiting: true, spell_id, payload },
        Step::Perform(Request::Call(call)),
    )
}

impl StoreRecord {
    /// Whether the storing is over.
    pub fn is_finished(&self) -> (r: bool)
        ensures
            r == !self@.waiting,
    {
        !self.waiting
    }

    /// Takes the outcome of the call and says how the storing ended, as
    /// `store_result` has it.
    pub fn advance<C>(self, event: Event) -> (r: (StoreRecord, Step<C, ()>))
        ensures
            r.0@ == (StoreRecordView { waiting: false, payload: Seq::empty(), ..self@ }),
            r.1@ == StepView::<C, ()>::Done(store_result(self@, event@)),
    {
        let StoreRecord { operation, waiting, spell_id, payload } = self;
        let failure = if !waiting {
            Some(Failure::OutOfTurn)
        } else {
            match read_effect(event) {
                Some(Ok(_)) => None,
                Some(Err(cause)) => Some(Failure::Store { payload, cause }),
                None => Some(Failure::OutOfTurn),
            }
        };
        let result = match failure {
            Some(failure) => Err(SpellError { operation, spell_id: Some(spell_id.clone()), failure }),
            None => Ok(()),
        };
        let spent = StoreRecord { operation, waiting: false, spell_id, payload: Vec::new() };
        assert(views(spent.payload@) =~= Seq::<Seq<char>>::empty());
        (spent, Step::Done(result))
    }
}

} // verus!
