use sorcerer::identity::Identity;
use sorcerer::permission::{
    may_install, may_mutate, PermissionError, PermissionGuard, Role, Roles,
};

fn id(text: &str) -> Identity {
    Identity::new(text.to_string())
}

/// A guard with management peer "mgmt", host "host", and a worker "w1" that
/// "alice" created.
fn guard() -> PermissionGuard {
    let mut guard = PermissionGuard::new(id("mgmt"), id("host"));
    assert!(guard.add_worker(id("w1"), id("alice")));
    guard
}

#[test]
fn management_is_told_apart() {
    let guard = guard();
    assert!(guard.is_management(&id("mgmt")));
    assert!(!guard.is_management(&id("alice")));
    assert!(!guard.is_management(&id("host")));
}

#[test]
fn host_is_told_apart() {
    let guard = guard();
    assert!(guard.is_host(&id("host")));
    assert!(!guard.is_host(&id("w1")));
}

#[test]
fn creator_of_a_known_worker_is_resolved() {
    let guard = guard();
    assert_eq!(guard.resolve_creator(&id("w1")), Ok(id("alice")));
}

#[test]
fn creator_of_an_unknown_worker_is_an_error() {
    let guard = guard();
    assert_eq!(
        guard.resolve_creator(&id("w2")),
        Err(PermissionError::UnknownWorker { worker: id("w2") })
    );
}

#[test]
fn a_worker_keeps_its_first_creator() {
    let mut guard = guard();
    assert!(!guard.add_worker(id("w1"), id("bob")));
    assert_eq!(guard.resolve_creator(&id("w1")), Ok(id("alice")));
    assert!(guard.add_worker(id("w2"), id("bob")));
    assert_eq!(guard.resolve_creator(&id("w2")), Ok(id("bob")));
    assert_eq!(guard.resolve_creator(&id("w1")), Ok(id("alice")));
}

#[test]
fn roles_are_resolved_for_each_kind_of_caller() {
    let guard = guard();
    assert_eq!(
        guard.roles(&id("mgmt"), &id("w1")),
        Roles { management: true, itself: false, creator: false }
    );
    assert_eq!(
        guard.roles(&id("w1"), &id("w1")),
        Roles { management: false, itself: true, creator: false }
    );
    assert_eq!(
        guard.roles(&id("alice"), &id("w1")),
        Roles { management: false, itself: false, creator: true }
    );
    let stranger = guard.roles(&id("mallory"), &id("w1"));
    assert_eq!(stranger, Roles { management: false, itself: false, creator: false });
    assert!(stranger.holds(Role::Other));
    assert!(!stranger.holds(Role::Management));
    assert!(!stranger.holds(Role::Itself));
    assert!(!stranger.holds(Role::Creator));
}

#[test]
fn a_caller_can_hold_several_roles() {
    let mut guard = PermissionGuard::new(id("mgmt"), id("host"));
    assert!(guard.add_worker(id("w1"), id("mgmt")));
    let roles = guard.roles(&id("mgmt"), &id("w1"));
    assert!(roles.holds(Role::Management));
    assert!(roles.holds(Role::Creator));
    assert!(!roles.holds(Role::Other));
}

#[test]
fn install_policy_over_every_role_set() {
    for management in [false, true] {
        for itself in [false, true] {
            for creator in [false, true] {
                let roles = Roles { management, itself, creator };
                assert_eq!(may_install(roles, true), management);
                assert_eq!(may_install(roles, false), management || itself || creator);
                assert_eq!(may_mutate(roles), management || itself || creator);
            }
        }
    }
}

#[test]
fn install_is_granted_to_management_worker_and_creator() {
    let guard = guard();
    assert_eq!(guard.authorize_install(&id("mgmt"), &id("w1")), Ok(()));
    assert_eq!(guard.authorize_install(&id("w1"), &id("w1")), Ok(()));
    assert_eq!(guard.authorize_install(&id("alice"), &id("w1")), Ok(()));
}

#[test]
fn install_is_refused_to_a_stranger_with_the_three_accepted_identities() {
    let guard = guard();
    assert_eq!(
        guard.authorize_install(&id("mallory"), &id("w1")),
        Err(PermissionError::Unauthorized {
            caller: id("mallory"),
            management: id("mgmt"),
            worker: Some(id("w1")),
            creator: Some(id("alice")),
        })
    );
}

#[test]
fn install_on_the_host_is_for_management_alone() {
    let mut guard = guard();
    assert!(guard.add_worker(id("host"), id("alice")));
    assert_eq!(guard.authorize_install(&id("mgmt"), &id("host")), Ok(()));
    let refused = |caller: &str| {
        Err(PermissionError::Unauthorized {
            caller: id(caller),
            management: id("mgmt"),
            worker: None,
            creator: None,
        })
    };
    assert_eq!(guard.authorize_install(&id("host"), &id("host")), refused("host"));
    assert_eq!(guard.authorize_install(&id("alice"), &id("host")), refused("alice"));
    assert_eq!(guard.authorize_install(&id("mallory"), &id("host")), refused("mallory"));
}

#[test]
fn mutation_has_no_root_scope_rule() {
    let mut guard = guard();
    assert!(guard.add_worker(id("host"), id("alice")));
    assert_eq!(guard.authorize_mutate(&id("mgmt"), &id("host")), Ok(()));
    assert_eq!(guard.authorize_mutate(&id("host"), &id("host")), Ok(()));
    assert_eq!(guard.authorize_mutate(&id("alice"), &id("host")), Ok(()));
    assert_eq!(
        guard.authorize_mutate(&id("mallory"), &id("host")),
        Err(PermissionError::Unauthorized {
            caller: id("mallory"),
            management: id("mgmt"),
            worker: Some(id("host")),
            creator: Some(id("alice")),
        })
    );
}

#[test]
fn mutation_is_granted_to_management_worker_and_creator() {
    let guard = guard();
    assert_eq!(guard.authorize_mutate(&id("mgmt"), &id("w1")), Ok(()));
    assert_eq!(guard.authorize_mutate(&id("w1"), &id("w1")), Ok(()));
    assert_eq!(guard.authorize_mutate(&id("alice"), &id("w1")), Ok(()));
}

#[test]
fn a_stranger_to_an_unknown_worker_learns_that_it_is_unknown() {
    let guard = guard();
    assert_eq!(
        guard.authorize_mutate(&id("mallory"), &id("w9")),
        Err(PermissionError::UnknownWorker { worker: id("w9") })
    );
    assert_eq!(
        guard.authorize_install(&id("mallory"), &id("w9")),
        Err(PermissionError::UnknownWorker { worker: id("w9") })
    );
}

#[test]
fn management_and_the_worker_itself_need_no_recorded_creator() {
    let guard = guard();
    assert_eq!(guard.authorize_install(&id("mgmt"), &id("w9")), Ok(()));
    assert_eq!(guard.authorize_install(&id("w9"), &id("w9")), Ok(()));
    assert_eq!(guard.authorize_mutate(&id("mgmt"), &id("w9")), Ok(()));
    assert_eq!(guard.authorize_mutate(&id("w9"), &id("w9")), Ok(()));
}

#[test]
fn identities_compare_by_their_text() {
    assert_eq!(id("a"), id("a"));
    assert_ne!(id("a"), id("b"));
    assert!(id("a").same(&id("a")));
    assert!(!id("a").same(&id("A")));
    assert_eq!(id("12D3KooW").as_str(), "12D3KooW");
    assert_eq!(id("x").clone(), id("x"));
}
