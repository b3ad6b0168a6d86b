//! Errors in words.

use vstd::prelude::*;
use vstd::string::StringExecFns;
use crate::error::{
    CallError, CallErrorView, Failure, FailureView, Operation, SpellError, SpellErrorView,
};
use crate::json::JsonValue;
use crate::permission::{PermissionError, PermissionErrorView};
use crate::text::views;

verus! {

/// The texts put one after the other.
pub open spec fn joined(parts: Seq<Seq<char>>) -> Seq<char>
    decreases parts.len(),
{
    if parts.len() == 0 {
        Seq::empty()
    } else {
        joined(parts.drop_last()) + parts.last()
    }
}

/// What the string slices of a sequence hold, in the same order.
pub open spec fn slices(parts: Seq<&str>) -> Seq<Seq<char>> {
    Seq::new(parts.len(), |i: int| parts[i]@)
}

/// Puts the texts one after the other.
pub fn join(parts: &Vec<&str>) -> (r: String)
    ensures
        r@ == joined(slices(parts@)),
{
    let mut out = String::new();
    let mut at: usize = 0;
    while at < parts.len()
        invariant
            at <= parts@.len(),
            out@ == joined(slices(parts@.subrange(0, at as int))),
        decreases parts@.len() - at,
    {
        proof {
            let longer = slices(parts@.subrange(0, at + 1));
            assert(longer.drop_last() =~= slices(parts@.subrange(0, at as int)));
            assert(longer.last() == parts@[at as int]@);
        }
        out.append(parts[at]);
        at += 1;
    }
    assert(parts@.subrange(0, at as int) =~= parts@);
    out
}

/// The documents of a payload as they are shown in a message: between square
/// brackets, with a comma and a blank between one and the next.
pub open spec fn listed(payload: Seq<Seq<char>>) -> Seq<char> {
    joined(seq!["["@, enumerated(payload), "]"@])
}

/// The documents of a payload with a comma and a blank between one and the
/// next.
pub open spec fn enumerated(payload: Seq<Seq<char>>) -> Seq<char>
    decreases payload.len(),
{
    if payload.len() == 0 {
        Seq::empty()
    } else if payload.len() == 1 {
        payload[0]
    } else {
        enumerated(payload.drop_last()) + ", "@ + payload.last()
    }
}

/// Shows the documents of a payload with a comma and a blank between one and
/// the next.
pub fn bare_list(payload: &Vec<JsonValue>) -> (r: String)
    ensures
        r@ == enumerated(views(payload@)),
{
    let mut out = String::new();
    let mut at: usize = 0;
    while at < payload.len()
        invariant
            at <= payload@.len(),
            out@ == enumerated(views(payload@.subrange(0, at as int))),
        decreases payload@.len() - at,
    {
        proof {
            let longer = views(payload@.subrange(0, at + 1));
            assert(longer.drop_last() =~= views(payload@.subrange(0, at as int)));
            assert(longer.last() == payload@[at as int]@);
            assert(longer[0] == payload@[0]@);
        }
        let ghost before = out@;
        if at > 0 {
            out.append(", ");
        }
        out.append(payload[at].as_str());
        proof {
            if at == 0 {
                assert(out@ =~= payload@[0]@);
            } else {
                assert(out@ =~= before + ", "@ + payload@[at as int]@);
            }
        }
        at += 1;
    }
    assert(payload@.subrange(0, at as int) =~= payload@);
    out
}

/// Shows the documents of a payload as a message shows them.
pub fn list(payload: &Vec<JsonValue>) -> (r: String)
    ensures
        r@ == listed(views(payload@)),
{
    let inner = bare_list(payload);
    let parts = vec!["[", inner.as_str(), "]"];
    assert(slices(parts@) =~= seq!["["@, inner@, "]"@]);
    join(&parts)
}

impl CallErrorView {
    /// The failure of a call, in words.
    pub open spec fn text(self) -> Seq<char> {
        match self {
            CallErrorView::Timeout => "the call took longer than it was given"@,
            CallErrorView::Failed { reason } => reason,
            CallErrorView::Refused { error } => error,
            CallErrorView::Malformed => "the answer is not what the function answers with"@,
        }
    }
}

impl CallError {
    /// The failure of the call, in words.
    pub fn message(&self) -> (r: String)
        ensures
            r@ == self@.text(),
    {
        match self {
            CallError::Timeout => String::from_str("the call took longer than it was given"),
            CallError::Failed { reason } => reason.clone(),
            CallError::Refused { error } => error.clone(),
            CallError::Malformed => String::from_str(
                "the answer is not what the function answers with",
            ),
        }
    }
}

impl PermissionErrorView {
    /// The refusal in words, for the operation that was refused and the spell
    /// it was about.
    pub open spec fn text(self, operation: Operation, spell: Seq<char>) -> Seq<char> {
        match self {
            PermissionErrorView::UnknownWorker { worker } => joined(
                seq!["Worker "@, worker, " is not known: it has no recorded creator"@],
            ),
            PermissionErrorView::Unauthorized {
                caller,
                management,
                worker: Some(worker),
                creator: Some(creator),
            } => match operation {
                Operation::Remove => joined(
                    seq![
                        "Failed to remove spell "@,
                        spell,
                        ", spell can be removed by worker creator "@,
                        creator,
                        ", worker itself "@,
                        worker,
                        " or peer manager"@,
                    ],
                ),
                Operation::UpdateConfig => joined(
                    seq![
                        "Failed to update spell config "@,
                        spell,
                        ", spell config can be updated by worker creator "@,
                        creator,
                        ", worker itself "@,
                        worker,
                        " or peer manager; init_peer_id="@,
                        caller,
                    ],
                ),
                _ => joined(
                    seq![
                        "Failed to install spell on "@,
                        worker,
                        ", spell can be installed by worker creator "@,
                        creator,
                        ", worker itself "@,
                        worker,
                        " or peer manager; init_peer_id="@,
                        caller,
                    ],
                ),
            },
            PermissionErrorView::Unauthorized {
                ..
            } => "Failed to install spell in the root scope, only management peer id can install top-level spells"@,
        }
    }
}

impl PermissionError {
    /// The refusal in words, for the operation that was refused and the spell
    /// it was about.
    pub fn message(&self, operation: Operation, spell: &str) -> (r: String)
        ensures
            r@ == self@.text(operation, spell@),
    {
        match self {
            PermissionError::UnknownWorker { worker } => {
                let parts = vec![
                    "Worker ",
                    worker.as_str(),
                    " is not known: it has no recorded creator",
                ];
                assert(slices(parts@) =~= seq![
                    "Worker "@,
                    worker@,
                    " is not known: it has no recorded creator"@,
                ]);
                join(&parts)
            },
            PermissionError::Unauthorized {
                caller,
                management,
                worker: Some(worker),
                creator: Some(creator),
            } => match operation {
                Operation::Remove => {
                    let parts = vec![
                        "Failed to remove spell ",
                        spell,
                        ", spell can be removed by worker creator ",
                        creator.as_str(),
                        ", worker itself ",
                        worker.as_str(),
                        " or peer manager",
                    ];
                    assert(slices(parts@) =~= seq![
                        "Failed to remove spell "@,
                        spell@,
                        ", spell can be removed by worker creator "@,
                        creator@,
                        ", worker itself "@,
                        worker@,
                        " or peer manager"@,
                    ]);
                    join(&parts)
                },
                Operation::UpdateConfig => {
                    let parts = vec![
                        "Failed to update spell config ",
                        spell,
                        ", spell config can be updated by worker creator ",
                        creator.as_str(),
                        ", worker itself ",
                        worker.as_str(),
                        " or peer manager; init_peer_id=",
                        caller.as_str(),
                    ];
                    assert(slices(parts@) =~= seq![
                        "Failed to update spell config "@,
                        spell@,
                        ", spell config can be updated by worker creator "@,
                        creator@,
                        ", worker itself "@,
                        worker@,
                        " or peer manager; init_peer_id="@,
                        caller@,
                    ]);
                    join(&parts)
                },
                _ => {
                    let parts = vec![
                        "Failed to install spell on ",
                        worker.as_str(),
                        ", spell can be installed by worker creator ",
                        creator.as_str(),
                        ", worker itself ",
                        worker.as_str(),
                        " or peer manager; init_peer_id=",
                        caller.as_str(),
                    ];
                    assert(slices(parts@) =~= seq![
                        "Failed to install spell on "@,
                        worker@,
                        ", spell can be installed by worker creator "@,
                        creator@,
                        ", worker itself "@,
                        worker@,
                        " or peer manager; init_peer_id="@,
                        caller@,
                    ]);
                    join(&parts)
                },
            },
            PermissionError::Unauthorized { .. } => String::from_str(
                "Failed to install spell in the root scope, only management peer id can install top-level spells",
            ),
        }
    }
}

impl SpellErrorView {
    /// The spell the error is about; the empty text where it names none.
    pub open spec fn spell(self) -> Seq<char> {
        match self.spell_id {
            Some(spell_id) => spell_id,
            None => Seq::empty(),
        }
    }

    /// The error in words.
    pub open spec fn message(self) -> Seq<char> {
        match self.failure {
            FailureView::Validation(reason) => reason,
            FailureView::Permission(refusal) => refusal.text(self.operation, self.spell()),
            FailureView::Service(reason) => reason,
            FailureView::Call { method, cause } => match (self.operation, cause) {
                (Operation::GetInfo, CallErrorView::Refused { error }) => error,
                (Operation::GetInfo, _) => joined(
                    seq![
                        "Failed to get trigger_config for spell "@,
                        self.spell(),
                        ": "@,
                        cause.text(),
                    ],
                ),
                _ => joined(
                    seq![
                        "Failed to call "@,
                        method.name_of(),
                        " of spell "@,
                        self.spell(),
                        ": "@,
                        cause.text(),
                    ],
                ),
            },
            FailureView::Argument { key, cause } => joined(
                seq![
                    "Failed to get argument "@,
                    key,
                    " for spell "@,
                    self.spell(),
                    ": "@,
                    cause.text(),
                ],
            ),
            FailureView::Store { payload, cause } => match self.operation {
                Operation::StoreResponse => joined(
                    seq![
                        "Failed to store response "@,
                        enumerated(payload),
                        " for spell "@,
                        self.spell(),
                        ": "@,
                        cause.text(),
                    ],
                ),
                _ => joined(
                    seq![
                        "Failed to store error "@,
                        listed(payload),
                        " for spell "@,
                        self.spell(),
                        ": "@,
                        cause.text(),
                    ],
                ),
            },
            FailureView::Subscription(reason) => match self.operation {
                Operation::Install => joined(
                    seq![
                        "can't install a spell due to an internal error while subscribing to the triggers: "@,
                        reason,
                    ],
                ),
                Operation::Remove => joined(
                    seq![
                        "can't remove a spell "@,
                        self.spell(),
                        " due to an internal error while unsubscribing from the triggers: "@,
                        reason,
                    ],
                ),
                _ => joined(
                    seq![
                        "can't update a spell "@,
                        self.spell(),
                        " config due to an internal error while updating the triggers: "@,
                        reason,
                    ],
                ),
            },
            FailureView::OutOfTurn => "an event came that does not answer what the operation asked for"@,
        }
    }
}

impl SpellError {
    /// The spell the error is about; the empty text where it names none.
    fn spell(&self) -> (r: &str)
        ensures
            r@ == self@.spell(),
    {
        match &self.spell_id {
            Some(spell_id) => spell_id.as_str(),
            None => {
                let nothing = "";
                proof {
                    reveal_strlit("");
                }
                assert(nothing@ =~= Seq::<char>::empty());
                nothing
            },
        }
    }

    /// The error in words, for whoever made the request.
    pub fn message(&self) -> (r: String)
        ensures
            r@ == self@.message(),
    {
        let spell = self.spell();
        match &self.failure {
            Failure::Validation(error) => error.reason.clone(),
            Failure::Permission(refusal) => refusal.message(self.operation, spell),
            Failure::Service(error) => error.reason.clone(),
            Failure::Call { method, cause } => {
                let why = cause.message();
                match (self.operation, cause) {
                    (Operation::GetInfo, CallError::Refused { error }) => error.clone(),
                    (Operation::GetInfo, _) => {
                        let parts = vec![
                            "Failed to get trigger_config for spell ",
                            spell,
                            ": ",
                            why.as_str(),
                        ];
                        assert(slices(parts@) =~= seq![
                            "Failed to get trigger_config for spell "@,
                            spell@,
                            ": "@,
                            why@,
                        ]);
                        join(&parts)
                    },
                    _ => {
                        let parts = vec![
                            "Failed to call ",
                            method.name(),
                            " of spell ",
                            spell,
                            ": ",
                            why.as_str(),
                        ];
                        assert(slices(parts@) =~= seq![
                            "Failed to call "@,
                            method.name_of(),
                            " of spell "@,
                            spell@,
                            ": "@,
                            why@,
                        ]);
                        join(&parts)
                    },
                }
            },
            Failure::Argument { key, cause } => {
                let why = cause.message();
                let parts = vec![
                    "Failed to get argument ",
                    key.as_str(),
                    " for spell ",
                    spell,
                    ": ",
                    why.as_str(),
                ];
                assert(slices(parts@) =~= seq![
                    "Failed to get argument "@,
                    key@,
                    " for spell "@,
                    spell@,
                    ": "@,
                    why@,
                ]);
                join(&parts)
            },
            Failure::Store { payload, cause } => {
                let why = cause.message();
                let shown = list(payload);
                match self.operation {
                    Operation::StoreResponse => {
                        let bare = bare_list(payload);
                        let parts = vec![
                            "Failed to store response ",
                            bare.as_str(),
                            " for spell ",
                            spell,
                            ": ",
                            why.as_str(),
                        ];
                        assert(slices(parts@) =~= seq![
                            "Failed to store response "@,
                            bare@,
                            " for spell "@,
                            spell@,
                            ": "@,
                            why@,
                        ]);
                        join(&parts)
                    },
                    _ => {
                        let parts = vec![
                            "Failed to store error ",
                            shown.as_str(),
                            " for spell ",
                            spell,
                            ": ",
                            why.as_str(),
                        ];
                        assert(slices(parts@) =~= seq![
                            "Failed to store error "@,
                            shown@,
                            " for spell "@,
                            spell@,
                            ": "@,
                            why@,
                        ]);
                        join(&parts)
                    },
                }
            },
            Failure::Subscription(error) => match self.operation {
                Operation::Install => {
                    let parts = vec![
                        "can't install a spell due to an internal error while subscribing to the triggers: ",
                        error.reason.as_str(),
                    ];
                    assert(slices(parts@) =~= seq![
                        "can't install a spell due to an internal error while subscribing to the triggers: "@,
                        error@,
                    ]);
                    join(&parts)
                },
                Operation::Remove => {
                    let parts = vec![
                        "can't remove a spell ",
                        spell,
                        " due to an internal error while unsubscribing from the triggers: ",
                        error.reason.as_str(),
                    ];
                    assert(slices(parts@) =~= seq![
                        "can't remove a spell "@,
                        spell@,
                        " due to an internal error while unsubscribing from the triggers: "@,
                        error@,
                    ]);
                    join(&parts)
                },
                _ => {
                    let parts = vec![
                        "can't update a spell ",
                        spell,
                        " config due to an internal error while updating the triggers: ",
                        error.reason.as_str(),
                    ];
                    assert(slices(parts@) =~= seq![
                        "can't update a spell "@,
                        spell@,
                        " config due to an internal error while updating the triggers: "@,
                        error@,
                    ]);
                    join(&parts)
                },
            },
            Failure::OutOfTurn => String::from_str(
                "an event came that does not answer what the operation asked for",
            ),
        }
    }
}

} // verus!
