//! Who is turned away, and what is turned down, before anything is touched.

use vstd::prelude::*;
use crate::context::RequestContextView;
use crate::error::FailureView;
use crate::install::spell_install_begin;
use crate::model::{install_run, remove_run, update_run, World};
use crate::permission::{PermissionGuard, Role};
use crate::remove::spell_remove_begin;
use crate::service::EventView;
use crate::trigger::TriggerConfig;
use crate::update::update_begin;

verus! {

/// An install by a caller that is neither the management peer, nor the
/// worker, nor the worker's creator ends at once with a permission error,
/// whatever events are offered to it: it makes no request and leaves the
/// registry, the services and the subscriptions as they were. (The
/// configuration is taken to be well formed: a malformed one is reported
/// first, as a validation error.)
pub proof fn law_install_needs_a_role<C>(
    key_manager: &PermissionGuard,
    blueprint: Seq<char>,
    params: RequestContextView,
    script: Seq<char>,
    init_data: Seq<char>,
    user_config: TriggerConfig,
    config: Option<C>,
    world: World,
    events: Seq<EventView>,
)
    requires
        key_manager.roles_of(params.init_peer_id, params.host_id).has(Role::Other),
    ensures
        ({
            let begun = spell_install_begin(
                key_manager,
                blueprint,
                params,
                script,
                init_data,
                user_config,
                Ok::<Option<C>, Seq<char>>(config),
            );
            let out = install_run(begun.0, begun.1, world, events);
            &&& out.world == world
            &&& out.requests.len() == 0
            &&& out.result matches Some(Err(error)) && error.failure is Permission
        }),
{
}

/// A removal by a caller that is neither the management peer, nor the
/// worker, nor the worker's creator ends at once with a permission error: it
/// makes no request and leaves the registry, the services and the
/// subscriptions as they were.
pub proof fn law_remove_needs_a_role<C>(
    key_manager: &PermissionGuard,
    params: RequestContextView,
    spell_id: Seq<char>,
    world: World,
    events: Seq<EventView>,
)
    requires
        key_manager.roles_of(params.init_peer_id, params.host_id).has(Role::Other),
    ensures
        ({
            let begun = spell_remove_begin::<C>(key_manager, params, spell_id);
            let out = remove_run(begun.0, begun.1, world, events);
            &&& out.world == world
            &&& out.requests.len() == 0
            &&& out.result matches Some(Err(error)) && error.failure is Permission
        }),
{
}

/// A reconfiguration by a caller that is neither the management peer, nor
/// the worker, nor the worker's creator ends at once with a permission
/// error, be the new configuration well formed or not: it makes no request
/// and leaves the registry, the services and the subscriptions as they were.
pub proof fn law_update_needs_a_role<C>(
    key_manager: &PermissionGuard,
    params: RequestContextView,
    spell_id: Seq<char>,
    user_config: TriggerConfig,
    config: Result<Option<C>, Seq<char>>,
    world: World,
    events: Seq<EventView>,
)
    requires
        key_manager.roles_of(params.init_peer_id, params.host_id).has(Role::Other),
    ensures
        ({
            let begun = update_begin(key_manager, params, spell_id, user_config, config);
            let out = update_run(begun.0, begun.1, world, events);
            &&& out.world == world
            &&& out.requests.len() == 0
            &&& out.result matches Some(Err(error)) && error.failure is Permission
        }),
{
}

/// An install on the host by any caller but the management peer ends at once
/// with a permission error, even for the host itself and for its creator: it
/// makes no request and leaves the registry, the services and the
/// subscriptions as they were. (The configuration is taken to be well
/// formed: a malformed one is reported first, as a validation error.)
pub proof fn law_root_install_is_for_management<C>(
    key_manager: &PermissionGuard,
    blueprint: Seq<char>,
    params: RequestContextView,
    script: Seq<char>,
    init_data: Seq<char>,
    user_config: TriggerConfig,
    config: Option<C>,
    world: World,
    events: Seq<EventView>,
)
    requires
        params.host_id == key_manager.host(),
        params.init_peer_id != key_manager.management(),
    ensures
        ({
            let begun = spell_install_begin(
                key_manager,
                blueprint,
                params,
                script,
                init_data,
                user_config,
                Ok::<Option<C>, Seq<char>>(config),
            );
            let out = install_run(begun.0, begun.1, world, events);
            &&& out.world == world
            &&& out.requests.len() == 0
            &&& out.result matches Some(Err(error)) && error.failure is Permission
        }),
{
}

/// An install with a malformed configuration ends at once with a
/// validation error, whoever asks for it: it makes no request and leaves the
/// registry, the services and the subscriptions as they were.
pub proof fn law_install_rejects_a_malformed_configuration<C>(
    key_manager: &PermissionGuard,
    blueprint: Seq<char>,
    params: RequestContextView,
    script: Seq<char>,
    init_data: Seq<char>,
    user_config: TriggerConfig,
    reason: Seq<char>,
    world: World,
    events: Seq<EventView>,
)
    ensures
        ({
            let begun = spell_install_begin(
                key_manager,
                blueprint,
                params,
                script,
                init_data,
                user_config,
                Err::<Option<C>, Seq<char>>(reason),
            );
            let out = install_run(begun.0, begun.1, world, events);
            &&& out.world == world
            &&& out.requests.len() == 0
            &&& out.result matches Some(Err(error)) && error.failure == FailureView::Validation(reason)
        }),
{
}

/// A reconfiguration to a malformed configuration, asked for by a caller
/// that may ask for one, ends at once with a validation error: it makes no
/// request and leaves the registry, the services and the subscriptions as
/// they were.
pub proof fn law_update_rejects_a_malformed_configuration<C>(
    key_manager: &PermissionGuard,
    params: RequestContextView,
    spell_id: Seq<char>,
    user_config: TriggerConfig,
    reason: Seq<char>,
    world: World,
    events: Seq<EventView>,
)
    requires
        !key_manager.roles_of(params.init_peer_id, params.host_id).has(Role::Other),
    ensures
        ({
            let begun = update_begin(
                key_manager,
                params,
                spell_id,
                user_config,
                Err::<Option<C>, Seq<char>>(reason),
            );
            let out = update_run(begun.0, begun.1, world, events);
            &&& out.world == world
            &&& out.requests.len() == 0
            &&& out.result matches Some(Err(error)) && error.failure == FailureView::Validation(reason)
        }),
{
}

} // verus!
