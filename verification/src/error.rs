//! What can go wrong in an operation, and how it is reported.

use vstd::prelude::*;
use crate::json::JsonValue;
use crate::permission::{PermissionError, PermissionErrorView};
use crate::service::SpellMethod;
use crate::text::{view_of, views};

verus! {

/// A trigger configuration or an argument was malformed. Nothing has been
/// changed when this is reported.
#[derive(Debug, PartialEq, Eq)]
pub struct ValidationError {
    pub reason: String,
}

/// The trigger service could not subscribe or unsubscribe a spell.
#[derive(Debug, PartialEq, Eq)]
pub struct SubscriptionError {
    pub reason: String,
}

/// The service host could not create or remove a spell's service.
#[derive(Debug, PartialEq, Eq)]
pub struct ServiceError {
    pub reason: String,
}

/// A call into a spell's own service did not go through.
#[derive(Debug, PartialEq, Eq)]
pub enum CallError {
    /// The call took longer than the time it was given.
    Timeout,
    /// The call could not be made, or failed on its way.
    Failed { reason: String },
    /// The call was made, and the spell answered that it could not do what
    /// was asked; `error` is what it gave as the reason.
    Refused { error: String },
    /// The call was answered with something other than what its method
    /// answers with.
    Malformed,
}

pub enum CallErrorView {
    Timeout,
    Failed { reason: Seq<char> },
    Refused { error: Seq<char> },
    Malformed,
}

impl View for ValidationError {
    type V = Seq<char>;

    open spec fn view(&self) -> Seq<char> {
        self.reason@
    }
}

impl View for SubscriptionError {
    type V = Seq<char>;

    open spec fn view(&self) -> Seq<char> {
        self.reason@
    }
}

impl View for ServiceError {
    type V = Seq<char>;

    open spec fn view(&self) -> Seq<char> {
        self.reason@
    }
}

impl View for CallError {
    type V = CallErrorView;

    open spec fn view(&self) -> CallErrorView {
        match self {
            CallError::Timeout => CallErrorView::Timeout,
            CallError::Failed { reason } => CallErrorView::Failed { reason: reason@ },
            CallError::Refused { error } => CallErrorView::Refused { error: error@ },
            CallError::Malformed => CallErrorView::Malformed,
        }
    }
}

impl Clone for ValidationError {
    fn clone(&self) -> (r: ValidationError)
        ensures
            r@ == self@,
    {
        ValidationError { reason: self.reason.clone() }
    }
}

impl Clone for SubscriptionError {
    fn clone(&self) -> (r: SubscriptionError)
        ensures
            r@ == self@,
    {
        SubscriptionError { reason: self.reason.clone() }
    }
}

impl Clone for ServiceError {
    fn clone(&self) -> (r: ServiceError)
        ensures
            r@ == self@,
    {
        ServiceError { reason: self.reason.clone() }
    }
}

impl Clone for CallError {
    fn clone(&self) -> (r: CallError)
        ensures
            r@ == self@,
    {
        match self {
            CallError::Timeout => CallError::Timeout,
            CallError::Failed { reason } => CallError::Failed { reason: reason.clone() },
            CallError::Refused { error } => CallError::Refused { error: error.clone() },
            CallError::Malformed => CallError::Malformed,
        }
    }
}

/// The operations on spells.
#[derive(Clone, Copy, Debug, PartialEq, Eq, Structural)]
pub enum Operation {
    Install,
    Remove,
    UpdateConfig,
    GetInfo,
    GetArg,
    StoreError,
    StoreResponse,
}

/// What went wrong in an operation.
#[derive(Debug, PartialEq, Eq)]
pub enum Failure {
    /// A trigger configuration or an argument was malformed.
    Validation(ValidationError),
    /// The caller may not do this.
    Permission(PermissionError),
    /// The spell's service could not be created or removed.
    Service(ServiceError),
    /// A call into the spell's service failed.
    Call { method: SpellMethod, cause: CallError },
    /// The value under `key` could not be read from the spell.
    Argument { key: String, cause: CallError },
    /// A record could not be stored with the spell; `payload` is what was to
    /// be stored.
    Store { payload: Vec<JsonValue>, cause: CallError },
    /// The spell's triggers could not be bound or removed.
    Subscription(SubscriptionError),
    /// An event came that does not answer the request the operation was
    /// waiting on, or came after the operation was over.
    OutOfTurn,
}

pub enum FailureView {
    Validation(Seq<char>),
    Permission(PermissionErrorView),
    Service(Seq<char>),
    Call { method: SpellMethod, cause: CallErrorView },
    Argument { key: Seq<char>, cause: CallErrorView },
    Store { payload: Seq<Seq<char>>, cause: CallErrorView },
    Subscription(Seq<char>),
    OutOfTurn,
}

impl View for Failure {
    type V = FailureView;

    open spec fn view(&self) -> FailureView {
        match self {
            Failure::Validation(error) => FailureView::Validation(error@),
            Failure::Permission(error) => FailureView::Permission(error@),
            Failure::Service(error) => FailureView::Service(error@),
            Failure::Call { method, cause } => FailureView::Call { method: *method, cause: cause@ },
            Failure::Argument { key, cause } => FailureView::Argument { key: key@, cause: cause@ },
            Failure::Store { payload, cause } => FailureView::Store {
                payload: views(payload@),
                cause: cause@,
            },
            Failure::Subscription(error) => FailureView::Subscription(error@),
            Failure::OutOfTurn => FailureView::OutOfTurn,
        }
    }
}

/// Why an operation on a spell did not succeed: which operation it was,
/// which spell it was about as far as that was known, and what went wrong.
/// Nothing that failed is tried a second time.
#[derive(Debug, PartialEq, Eq)]
pub struct SpellError {
    pub operation: Operation,
    pub spell_id: Option<String>,
    pub failure: Failure,
}

pub struct SpellErrorView {
    pub operation: Operation,
    pub spell_id: Option<Seq<char>>,
    pub failure: FailureView,
}

impl View for SpellError {
    type V = SpellErrorView;

    open spec fn view(&self) -> SpellErrorView {
        SpellErrorView {
            operation: self.operation,
            spell_id: view_of(self.spell_id),
            failure: self.failure@,
        }
    }
}

} // verus!
