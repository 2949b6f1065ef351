//! What the library takes from the engine, and takes on trust.
//!
//! The engine's world, its loading service and the handles of that service
//! are carried through the library unopened. The table in which the tracker
//! keeps one status per registered catalog is the hash map of the engine's
//! utilities. Verus does not look inside it: what the map holds is given a
//! name, [`table_entries`], and each operation on the map is a small
//! function whose contract says, over that name, what the map's
//! documentation says of the operation. Those contracts are believed, not
//! proved.

use crate::plugin::{no_statuses, LoadState, RawManifestStatus};
use bevy::asset::{AssetServer, UntypedHandle};
use bevy::ecs::world::World;
use vstd::prelude::*;

verus! {

/// The world of the host application, through which a conversion reaches
/// sibling catalogs and loading services. The library never looks inside.
#[verifier::external_type_specification]
#[verifier::external_body]
pub struct ExWorld(World);

/// The loading service of the host application. The library only hands it
/// to the call that asks for the state of a load.
#[verifier::external_type_specification]
#[verifier::external_body]
pub struct ExAssetServer(AssetServer);

/// A handle of the loading service to one asset: it keeps the asset alive
/// and names it in requests to the service.
#[verifier::external_type_specification]
#[verifier::external_body]
pub struct ExUntypedHandle(UntypedHandle);

/// A `bevy::utils::HashMap` from the key of a catalog type to the status of
/// its raw manifest.
#[verifier::external_body]
pub struct StatusTable {
    entries: bevy::utils::HashMap<u64, RawManifestStatus>,
}

/// The entries of a table: the status held under each key.
pub uninterp spec fn table_entries(table: StatusTable) -> Map<u64, RawManifestStatus>;

/// Makes a table by `HashMap::default`, which holds nothing.
#[verifier::external_body]
pub(crate) fn table_new() -> (table: StatusTable)
    ensures
        table_entries(table) == no_statuses(),
{
    StatusTable { entries: bevy::utils::HashMap::default() }
}

/// Calls `HashMap::insert`: afterwards `key` holds `status` and every other
/// key holds what it held; the status that `key` held before, if any, is
/// returned.
#[verifier::external_body]
pub(crate) fn table_insert(
    table: &mut StatusTable,
    key: u64,
    status: RawManifestStatus,
) -> (before: Option<RawManifestStatus>)
    ensures
        table_entries(*final(table)) == table_entries(*old(table)).insert(key, status),
        before == (if table_entries(*old(table)).contains_key(key) {
            Some(table_entries(*old(table))[key])
        } else {
            None
        }),
{
    table.entries.insert(key, status)
}

/// Calls `HashMap::get`: the status held under `key`, if any.
#[verifier::external_body]
pub(crate) fn table_get(table: &StatusTable, key: u64) -> (found: Option<&RawManifestStatus>)
    ensures
        match found {
            Some(status) => table_entries(*table).contains_key(key)
                && *status == table_entries(*table)[key],
            None => !table_entries(*table).contains_key(key),
        },
{
    table.entries.get(&key)
}

/// Calls `HashMap::remove`: afterwards `key` holds nothing and every other
/// key holds what it held; the status that `key` held before, if any, is
/// returned.
#[verifier::external_body]
pub(crate) fn table_remove(table: &mut StatusTable, key: u64) -> (before: Option<RawManifestStatus>)
    ensures
        table_entries(*final(table)) == table_entries(*old(table)).remove(key),
        before == (if table_entries(*old(table)).contains_key(key) {
            Some(table_entries(*old(table))[key])
        } else {
            None
        }),
{
    table.entries.remove(&key)
}

/// Collects what `HashMap::keys` visits: every key of the table once, in an
/// order of which nothing is said.
#[verifier::external_body]
pub(crate) fn table_keys(table: &StatusTable) -> (keys: Vec<u64>)
    ensures
        keys@.no_duplicates(),
        forall|key: u64| keys@.contains(key) <==> table_entries(*table).contains_key(key),
{
    table.entries.keys().copied().collect()
}

/// Asks the loading service, by `AssetServer::get_load_state`, for the state
/// of the load behind `handle`. The answer depends on the service, so
/// nothing is promised of it; `None` means that the service does not know
/// the handle.
#[verifier::external_body]
pub(crate) fn poll_load_state(
    asset_server: &AssetServer,
    handle: &UntypedHandle,
) -> (observed: Option<LoadState>) {
    match asset_server.get_load_state(handle) {
        None => None,
        Some(bevy::asset::LoadState::NotLoaded) => Some(LoadState::NotLoaded),
        Some(bevy::asset::LoadState::Loading) => Some(LoadState::Loading),
        Some(bevy::asset::LoadState::Loaded) => Some(LoadState::Loaded),
        Some(bevy::asset::LoadState::Failed(_)) => Some(LoadState::Failed),
    }
}

} // verus!
