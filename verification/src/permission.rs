//! Who may do what: the roles of a caller toward a worker, the policy that
//! goes by them, and the guard that knows who is who.

use vstd::prelude::*;
use crate::identity::Identity;

verus! {

/// What a caller can be to the worker it addresses.
#[derive(Clone, Copy, Debug, PartialEq, Eq, Structural)]
pub enum Role {
    /// The one peer that may act on every worker.
    Management,
    /// The worker itself.
    Itself,
    /// The peer that brought the worker into being.
    Creator,
    /// None of the others.
    Other,
}

/// The roles one caller holds toward one worker. A caller can hold several
/// at once; it is `Other` exactly when it holds none of the three.
#[derive(Clone, Copy, Debug, PartialEq, Eq, Structural)]
pub struct Roles {
    pub management: bool,
    pub itself: bool,
    pub creator: bool,
}

impl Roles {
    pub open spec fn has(self, role: Role) -> bool {
        match role {
            Role::Management => self.management,
            Role::Itself => self.itself,
            Role::Creator => self.creator,
            Role::Other => !self.management && !self.itself && !self.creator,
        }
    }

    /// Whether `role` is among these roles.
    pub fn holds(&self, role: Role) -> (r: bool)
        ensures
            r == self.has(role),
    {
        match role {
            Role::Management => self.management,
            Role::Itself => self.itself,
            Role::Creator => self.creator,
            Role::Other => !self.management && !self.itself && !self.creator,
        }
    }
}

/// The policy for installing a spell: in the root scope the management peer
/// alone may; on any other worker the management peer, the worker itself and
/// its creator may.
pub open spec fn install_allowed(roles: Roles, target_is_root: bool) -> bool {
    if target_is_root {
        roles.management
    } else {
        roles.management || roles.itself || roles.creator
    }
}

/// The policy for removing or reconfiguring a spell: the management peer,
/// the worker itself and its creator may, whatever the scope.
pub open spec fn mutate_allowed(roles: Roles) -> bool {
    roles.management || roles.itself || roles.creator
}

/// Decides an install by the caller's roles and by whether the target is the
/// root scope.
pub fn may_install(roles: Roles, target_is_root: bool) -> (r: bool)
    ensures
        r == install_allowed(roles, target_is_root),
{
    if target_is_root {
        roles.management
    } else {
        roles.management || roles.itself || roles.creator
    }
}

/// Decides a removal or a reconfiguration by the caller's roles.
pub fn may_mutate(roles: Roles) -> (r: bool)
    ensures
        r == mutate_allowed(roles),
{
    roles.management || roles.itself || roles.creator
}

/// Why a caller was turned away.
#[derive(Debug, PartialEq, Eq)]
#[allow(inconsistent_fields)]
pub enum PermissionError {
    /// The worker has no recorded creator.
    UnknownWorker { worker: Identity },
    /// The caller holds no role that the operation accepts. `management` is
    /// the management peer; `worker` and `creator` are the two other
    /// identities that would have been accepted, and are missing where the
    /// policy accepts the management peer alone.
    Unauthorized {
        caller: Identity,
        management: Identity,
        worker: Option<Identity>,
        creator: Option<Identity>,
    },
}

#[allow(inconsistent_fields)]
pub enum PermissionErrorView {
    UnknownWorker { worker: Seq<char> },
    Unauthorized {
        caller: Seq<char>,
        management: Seq<char>,
        worker: Option<Seq<char>>,
        creator: Option<Seq<char>>,
    },
}

impl View for PermissionError {
    type V = PermissionErrorView;

    open spec fn view(&self) -> PermissionErrorView {
        match self {
            PermissionError::UnknownWorker { worker } => PermissionErrorView::UnknownWorker {
                worker: worker@,
            },
            PermissionError::Unauthorized {
                caller,
                management,
                worker,
                creator,
            } => PermissionErrorView::Unauthorized {
                caller: caller@,
                management: management@,
                worker: match worker {
                    Some(w) => Some(w@),
                    None => None,
                },
                creator: match creator {
                    Some(c) => Some(c@),
                    None => None,
                },
            },
        }
    }
}

/// A worker and the peer that created it.
struct Creation {
    worker: Identity,
    creator: Identity,
}

/// The creator that the entries from `from` on give for `worker`: that of the
/// first entry that names the worker.
spec fn first_creator(entries: Seq<Creation>, worker: Seq<char>, from: int) -> Option<Seq<char>>
    decreases entries.len() - from,
{
    if from < 0 || from >= entries.len() {
        None
    } else if entries[from].worker@ == worker {
        Some(entries[from].creator@)
    } else {
        first_creator(entries, worker, from + 1)
    }
}

/// One more entry at the end answers for its worker only where no earlier
/// entry does.
proof fn lemma_first_creator_push(entries: Seq<Creation>, last: Creation, worker: Seq<char>, from: int)
    requires
        0 <= from <= entries.len(),
    ensures
        first_creator(entries.push(last), worker, from) == match first_creator(entries, worker, from) {
            Some(creator) => Some(creator),
            None => if last.worker@ == worker {
                Some(last.creator@)
            } else {
                None
            },
        },
    decreases entries.len() - from,
{
    let longer = entries.push(last);
    if from < entries.len() {
        assert(longer[from] == entries[from]);
        if entries[from].worker@ != worker {
            lemma_first_creator_push(entries, last, worker, from + 1);
        }
    } else {
        assert(longer[from] == last);
        assert(first_creator(longer, worker, from + 1) is None);
    }
}

/// Knows the management peer, the host, and who created each worker, and
/// decides by them who may install, remove or reconfigure a spell. It changes
/// nothing when it decides.
pub struct PermissionGuard {
    management: Identity,
    host: Identity,
    creations: Vec<Creation>,
}

impl PermissionGuard {
    /// The management peer.
    pub closed spec fn management(&self) -> Seq<char> {
        self.management@
    }

    /// The host: the worker that stands for the root scope.
    pub closed spec fn host(&self) -> Seq<char> {
        self.host@
    }

    /// The recorded creator of `worker`, if it has one.
    pub closed spec fn creator_of(&self, worker: Seq<char>) -> Option<Seq<char>> {
        first_creator(self.creations@, worker, 0)
    }

    /// The roles that `caller` holds toward `target`.
    pub open spec fn roles_of(&self, caller: Seq<char>, target: Seq<char>) -> Roles {
        Roles {
            management: caller == self.management(),
            itself: caller == target,
            creator: self.creator_of(target) == Some(caller),
        }
    }

    /// What a caller is told who may not act on `target`. Where only the
    /// management peer is accepted (`management_only`), it alone is named;
    /// else the worker and its creator are named too, and a worker without a
    /// recorded creator is reported as unknown.
    pub open spec fn refusal(
        &self,
        caller: Seq<char>,
        target: Seq<char>,
        management_only: bool,
    ) -> PermissionErrorView {
        if management_only {
            PermissionErrorView::Unauthorized {
                caller,
                management: self.management(),
                worker: None,
                creator: None,
            }
        } else {
            match self.creator_of(target) {
                Some(creator) => PermissionErrorView::Unauthorized {
                    caller,
                    management: self.management(),
                    worker: Some(target),
                    creator: Some(creator),
                },
                None => PermissionErrorView::UnknownWorker { worker: target },
            }
        }
    }

    /// A guard that knows the management peer and the host, and no worker
    /// yet.
    pub fn new(management: Identity, host: Identity) -> (r: PermissionGuard)
        ensures
            r.management() == management@,
            r.host() == host@,
            forall|worker: Seq<char>| r.creator_of(worker) is None,
    {
        PermissionGuard { management, host, creations: Vec::new() }
    }

    /// Records that `creator` created `worker`. A worker has one creator: for
    /// a worker that already has one, nothing is recorded and the answer is
    /// `false`.
    pub fn add_worker(&mut self, worker: Identity, creator: Identity) -> (r: bool)
        ensures
            r == (old(self).creator_of(worker@) is None),
            final(self).management() == old(self).management(),
            final(self).host() == old(self).host(),
            forall|other: Seq<char>|
                #[trigger] final(self).creator_of(other) == if r && other == worker@ {
                    Some(creator@)
                } else {
                    old(self).creator_of(other)
                },
    {
        if self.find_creator(&worker).is_some() {
            return false;
        }
        let ghost before = self.creations@;
        let entry = Creation { worker, creator };
        proof {
            assert forall|other: Seq<char>|
                first_creator(before.push(entry), other, 0) == if other == entry.worker@ {
                    Some(entry.creator@)
                } else {
                    first_creator(before, other, 0)
                } by {
                lemma_first_creator_push(before, entry, other, 0);
            }
        }
        self.creations.push(entry);
        true
    }

    /// Whether `peer` is the management peer.
    pub fn is_management(&self, peer: &Identity) -> (r: bool)
        ensures
            r == (peer@ == self.management()),
    {
        self.management.same(peer)
    }

    /// Whether `peer` is the host.
    pub fn is_host(&self, peer: &Identity) -> (r: bool)
        ensures
            r == (peer@ == self.host()),
    {
        self.host.same(peer)
    }

    /// The recorded creator of `worker`.
    fn find_creator(&self, worker: &Identity) -> (r: Option<&Identity>)
        ensures
            match r {
                Some(creator) => self.creator_of(worker@) == Some(creator@),
                None => self.creator_of(worker@) is None,
            },
    {
        let mut at: usize = 0;
        while at < self.creations.len()
            invariant
                at <= self.creations@.len(),
                first_creator(self.creations@, worker@, 0) == first_creator(
                    self.creations@,
                    worker@,
                    at as int,
                ),
            decreases self.creations@.len() - at,
        {
            if self.creations[at].worker.same(worker) {
                return Some(&self.creations[at].creator);
            }
            at += 1;
        }
        None
    }

    /// The peer that created `worker`; `UnknownWorker` for a worker without a
    /// recorded creator.
    pub fn resolve_creator(&self, worker: &Identity) -> (r: Result<Identity, PermissionError>)
        ensures
            match self.creator_of(worker@) {
                Some(creator) => r matches Ok(found) && found@ == creator,
                None => r matches Err(error) && error@ == (PermissionErrorView::UnknownWorker {
                    worker: worker@,
                }),
            },
    {
        match self.find_creator(worker) {
            Some(creator) => Ok(creator.clone()),
            None => Err(PermissionError::UnknownWorker { worker: worker.clone() }),
        }
    }

    /// The roles that `caller` holds toward `target`.
    pub fn roles(&self, caller: &Identity, target: &Identity) -> (r: Roles)
        ensures
            r == self.roles_of(caller@, target@),
    {
        let creator = match self.find_creator(target) {
            Some(creator) => creator.same(caller),
            None => false,
        };
        Roles { management: self.management.same(caller), itself: caller.same(target), creator }
    }

    /// The error for a caller that may not act on `target`.
    fn refuse(&self, caller: &Identity, target: &Identity, management_only: bool) -> (r:
        PermissionError)
        ensures
            r@ == self.refusal(caller@, target@, management_only),
    {
        if management_only {
            PermissionError::Unauthorized {
                caller: caller.clone(),
                management: self.management.clone(),
                worker: None,
                creator: None,
            }
        } else {
            match self.find_creator(target) {
                Some(creator) => PermissionError::Unauthorized {
                    caller: caller.clone(),
                    management: self.management.clone(),
                    worker: Some(target.clone()),
                    creator: Some(creator.clone()),
                },
                None => PermissionError::UnknownWorker { worker: target.clone() },
            }
        }
    }

    /// Whether `caller` may install a spell on `target`. On the host only the
    /// management peer may; on any other worker the management peer, the
    /// worker itself and its creator may.
    pub fn authorize_install(&self, caller: &Identity, target: &Identity) -> (r: Result<
        (),
        PermissionError,
    >)
        ensures
            r is Ok <==> install_allowed(self.roles_of(caller@, target@), target@ == self.host()),
            r matches Err(error) ==> error@ == self.refusal(caller@, target@, target@ == self.host()),
    {
        let root = self.is_host(target);
        if may_install(self.roles(caller, target), root) {
            Ok(())
        } else {
            Err(self.refuse(caller, target, root))
        }
    }

    /// Whether `caller` may remove or reconfigure a spell of `target`: the
    /// management peer, the worker itself and its creator may.
    pub fn authorize_mutate(&self, caller: &Identity, target: &Identity) -> (r: Result<
        (),
        PermissionError,
    >)
        ensures
            r is Ok <==> mutate_allowed(self.roles_of(caller@, target@)),
            r matches Err(error) ==> error@ == self.refusal(caller@, target@, false),
    {
        if may_mutate(self.roles(caller, target)) {
            Ok(())
        } else {
            Err(self.refuse(caller, target, false))
        }
    }
}

} // verus!
