//! The tracker of raw manifests and the lifecycle that it drives.
//!
//! Every catalog type is registered under a key of its own. The tracker
//! keeps, per key, where the raw manifest comes from, the handle of its
//! load and the state in which the load was last seen. From those states
//! and from the outcome of the conversions the lifecycle moves from loading
//! over processing to ready, or to failed.

use crate::asset_state::{lemma_simple_phases, AssetLoadingState, SimpleAssetState};
use crate::manifest::Manifest;
use crate::engine::{
    poll_load_state, table_entries, table_get, table_insert, table_keys, table_new, table_remove,
    StatusTable,
};
use bevy::asset::{AssetServer, UntypedHandle};
use bevy::ecs::world::World;
use std::marker::PhantomData;
use vstd::prelude::*;

verus! {

/// How far the load of one raw manifest has come.
#[derive(PartialEq, Eq, Structural, Debug, Hash, Clone, Copy)]
pub enum LoadState {
    /// The load has not started.
    NotLoaded,
    /// The load is under way.
    Loading,
    /// The raw manifest has been loaded.
    Loaded,
    /// The load has failed.
    Failed,
}

/// How far the conversion of the raw manifests has come.
#[derive(PartialEq, Eq, Structural, Debug, Hash, Clone, Copy)]
pub enum ProcessingStatus {
    /// Some raw manifest is still to be converted, and no conversion has
    /// failed.
    Processing,
    /// Every registered raw manifest has been converted.
    Ready,
    /// A conversion has failed.
    Failed,
}

impl Default for ProcessingStatus {
    fn default() -> (status: Self)
        ensures
            status == ProcessingStatus::Processing,
    {
        ProcessingStatus::Processing
    }
}

/// What the tracker knows of one raw manifest.
#[derive(Debug)]
pub struct RawManifestStatus {
    /// Where the raw manifest comes from.
    pub path: String,
    /// The handle of its load.
    pub handle: UntypedHandle,
    /// The state in which the load was last seen.
    pub load_state: LoadState,
    /// Whether the raw manifest has been converted into its catalog.
    pub converted: bool,
}

/// The entries of a tracker in which nothing is registered.
pub open spec fn no_statuses() -> Map<u64, RawManifestStatus> {
    Map::empty()
}

/// The status `status` with its load seen in `load_state`.
pub open spec fn seen_in(status: RawManifestStatus, load_state: LoadState) -> RawManifestStatus {
    RawManifestStatus {
        path: status.path,
        handle: status.handle,
        load_state,
        converted: status.converted,
    }
}

/// The status `status` of a raw manifest that has been converted.
pub open spec fn converted(status: RawManifestStatus) -> RawManifestStatus {
    RawManifestStatus {
        path: status.path,
        handle: status.handle,
        load_state: status.load_state,
        converted: true,
    }
}

/// The entries `entries` after the raw manifest under `key` was converted:
/// an unknown key changes nothing.
pub open spec fn marked_converted(
    entries: Map<u64, RawManifestStatus>,
    key: u64,
) -> Map<u64, RawManifestStatus> {
    if entries.contains_key(key) {
        entries.insert(key, converted(entries[key]))
    } else {
        entries
    }
}

/// Whether the raw manifest under `key` is registered in `entries` and still
/// to be converted.
pub open spec fn awaits_conversion(entries: Map<u64, RawManifestStatus>, key: u64) -> bool {
    entries.contains_key(key) && !entries[key].converted
}

/// Whether every raw manifest in `entries` has been converted.
pub open spec fn all_converted_in(entries: Map<u64, RawManifestStatus>) -> bool {
    forall|key: u64| #[trigger] entries.contains_key(key) ==> entries[key].converted
}

/// The entries `entries` after the load under `key` was seen as `observed`:
/// an unknown key and an observation of nothing change nothing.
pub open spec fn recorded(
    entries: Map<u64, RawManifestStatus>,
    key: u64,
    observed: Option<LoadState>,
) -> Map<u64, RawManifestStatus> {
    match observed {
        Some(load_state) if entries.contains_key(key) => entries.insert(
            key,
            seen_in(entries[key], load_state),
        ),
        _ => entries,
    }
}

/// Whether `after` holds the entries of `before` with nothing changed but
/// the states in which the loads were seen.
pub open spec fn only_load_states_differ(
    before: Map<u64, RawManifestStatus>,
    after: Map<u64, RawManifestStatus>,
) -> bool {
    &&& before.dom() == after.dom()
    &&& forall|key: u64| #[trigger]
        before.contains_key(key) ==> after[key].path == before[key].path && after[key].handle
            == before[key].handle && after[key].converted == before[key].converted
}

/// Recording an observation changes neither which keys are registered nor
/// the path, the handle or the conversion of any of them.
pub proof fn lemma_recorded_changes_load_states_only(
    entries: Map<u64, RawManifestStatus>,
    key: u64,
    observed: Option<LoadState>,
)
    ensures
        only_load_states_differ(entries, recorded(entries, key, observed)),
{
    assert(entries.dom() =~= recorded(entries, key, observed).dom());
}

/// What is registered stays registered: neither a registration, nor an
/// observation of a load, nor a conversion takes an entry away.
pub proof fn law_registered_stays_registered(
    entries: Map<u64, RawManifestStatus>,
    key: u64,
    status: RawManifestStatus,
    observed: Option<LoadState>,
    other: u64,
)
    requires
        entries.contains_key(other),
    ensures
        entries.insert(key, status).contains_key(other),
        recorded(entries, key, observed).contains_key(other),
        marked_converted(entries, key).contains_key(other),
{
}

/// Whether every load in `entries` was last seen as loaded.
pub open spec fn all_loaded_in(entries: Map<u64, RawManifestStatus>) -> bool {
    forall|key: u64| #[trigger]
        entries.contains_key(key) ==> entries[key].load_state == LoadState::Loaded
}

/// Whether some load in `entries` was last seen as failed.
pub open spec fn any_failed_in(entries: Map<u64, RawManifestStatus>) -> bool {
    exists|key: u64| #[trigger]
        entries.contains_key(key) && entries[key].load_state == LoadState::Failed
}

/// The processing status after a conversion that succeeded or failed, given
/// the status `before` it and the entries `entries` after it. A failure is
/// never forgotten; without one, the status is ready when every registered
/// raw manifest has been converted, and processing until then.
pub open spec fn processing_after(
    before: ProcessingStatus,
    entries: Map<u64, RawManifestStatus>,
    succeeded: bool,
) -> ProcessingStatus {
    if !succeeded || before == ProcessingStatus::Failed {
        ProcessingStatus::Failed
    } else if all_converted_in(entries) {
        ProcessingStatus::Ready
    } else {
        ProcessingStatus::Processing
    }
}

/// Keeps track of the raw manifests that are to be loaded, and of the
/// outcome of their conversion.
pub struct RawManifestTracker {
    raw_manifests: StatusTable,
    processing_status: ProcessingStatus,
}

impl RawManifestTracker {
    /// The status of each registered raw manifest, by the key of its catalog
    /// type.
    pub closed spec fn statuses(&self) -> Map<u64, RawManifestStatus> {
        table_entries(self.raw_manifests)
    }

    /// The processing status that the tracker holds.
    pub closed spec fn status_of_processing(&self) -> ProcessingStatus {
        self.processing_status
    }

    /// A tracker with nothing registered, in which no conversion has
    /// finished.
    pub fn new() -> (tracker: Self)
        ensures
            tracker.statuses() == no_statuses(),
            tracker.status_of_processing() == ProcessingStatus::Processing,
    {
        RawManifestTracker {
            raw_manifests: table_new(),
            processing_status: ProcessingStatus::Processing,
        }
    }

    /// Registers under `key` the raw manifest at `path`, whose load `handle`
    /// stands for: the load is under way and nothing is converted yet. A
    /// status that `key` had before is replaced; the processing status is
    /// left as it is.
    ///
    /// Raw manifests are to be registered while the lifecycle is in its
    /// loading state. This is not checked.
    pub fn register(&mut self, key: u64, path: String, handle: UntypedHandle)
        ensures
            final(self).statuses() == old(self).statuses().insert(
                key,
                (RawManifestStatus {
                    path,
                    handle,
                    load_state: LoadState::Loading,
                    converted: false,
                }),
            ),
            final(self).status_of_processing() == old(self).status_of_processing(),
    {
        let status = RawManifestStatus {
            path,
            handle,
            load_state: LoadState::Loading,
            converted: false,
        };
        let _ = table_insert(&mut self.raw_manifests, key, status);
    }

    /// The status registered under `key`, if there is one.
    pub fn status(&self, key: u64) -> (found: Option<&RawManifestStatus>)
        ensures
            match found {
                Some(status) => self.statuses().contains_key(key) && *status
                    == self.statuses()[key],
                None => !self.statuses().contains_key(key),
            },
    {
        table_get(&self.raw_manifests, key)
    }

    /// The handle under which the loading service holds the raw manifest
    /// registered under `key`, where that raw manifest is still to be
    /// converted.
    pub fn handle_of_pending(&self, key: u64) -> (handle: Option<&UntypedHandle>)
        ensures
            match handle {
                Some(handle) => awaits_conversion(self.statuses(), key) && *handle
                    == self.statuses()[key].handle,
                None => !awaits_conversion(self.statuses(), key),
            },
    {
        match table_get(&self.raw_manifests, key) {
            Some(status) => if status.converted {
                None
            } else {
                Some(&status.handle)
            },
            None => None,
        }
    }

    /// The keys under which a raw manifest is registered, each once.
    pub fn iter(&self) -> (keys: Vec<u64>)
        ensures
            keys@.no_duplicates(),
            forall|key: u64| keys@.contains(key) <==> self.statuses().contains_key(key),
    {
        table_keys(&self.raw_manifests)
    }

    /// Records that the load under `key` was seen as `observed`. Nothing
    /// changes where `key` is not registered or nothing was observed.
    pub fn record_load_state(&mut self, key: u64, observed: Option<LoadState>)
        ensures
            final(self).statuses() == recorded(old(self).statuses(), key, observed),
            final(self).status_of_processing() == old(self).status_of_processing(),
    {
        if let Some(load_state) = observed {
            if let Some(status) = table_remove(&mut self.raw_manifests, key) {
                let seen = RawManifestStatus {
                    path: status.path,
                    handle: status.handle,
                    load_state,
                    converted: status.converted,
                };
                let _ = table_insert(&mut self.raw_manifests, key, seen);
                assert(self.statuses() =~= recorded(old(self).statuses(), key, observed));
            } else {
                assert(self.statuses() =~= old(self).statuses());
            }
        }
    }

    /// Asks the loading service for the state of every registered load and
    /// records the answers; a load of which the service knows nothing keeps
    /// the state in which it was last seen. Whatever the service answers,
    /// the same raw manifests stay registered, from the same paths and under
    /// the same handles, and none is converted or unconverted by it.
    pub fn update_load_states(&mut self, asset_server: &AssetServer)
        ensures
            only_load_states_differ(old(self).statuses(), final(self).statuses()),
            final(self).status_of_processing() == old(self).status_of_processing(),
    {
        let keys = table_keys(&self.raw_manifests);
        let mut index: usize = 0;
        while index < keys.len()
            invariant
                0 <= index <= keys.len(),
                only_load_states_differ(old(self).statuses(), self.statuses()),
                self.status_of_processing() == old(self).status_of_processing(),
            decreases keys.len() - index,
        {
            let key = keys[index];
            let observed = match table_get(&self.raw_manifests, key) {
                Some(status) => poll_load_state(asset_server, &status.handle),
                None => None,
            };
            let ghost before = self.statuses();
            self.record_load_state(key, observed);
            proof {
                lemma_recorded_changes_load_states_only(before, key, observed);
                assert(only_load_states_differ(old(self).statuses(), self.statuses()));
            }
            index += 1;
        }
    }

    /// Whether every registered load was last seen as loaded.
    pub fn all_loaded(&self) -> (all: bool)
        ensures
            all == all_loaded_in(self.statuses()),
    {
        let keys = table_keys(&self.raw_manifests);
        let mut index: usize = 0;
        while index < keys.len()
            invariant
                0 <= index <= keys.len(),
                forall|key: u64| keys@.contains(key) <==> self.statuses().contains_key(key),
                forall|i: int|
                    0 <= i < index ==> self.statuses()[#[trigger] keys@[i]].load_state
                        == LoadState::Loaded,
            decreases keys.len() - index,
        {
            let key = keys[index];
            assert(keys@.contains(key));
            let loaded = match table_get(&self.raw_manifests, key) {
                Some(status) => status.load_state == LoadState::Loaded,
                None => false,
            };
            if !loaded {
                return false;
            }
            index += 1;
        }
        assert forall|key: u64| #[trigger]
            self.statuses().contains_key(key) implies self.statuses()[key].load_state
            == LoadState::Loaded by {
            assert(keys@.contains(key));
            let i = choose|i: int| 0 <= i < keys@.len() && keys@[i] == key;
            assert(self.statuses()[keys@[i]].load_state == LoadState::Loaded);
        }
        true
    }

    /// Whether some registered load was last seen as failed.
    pub fn any_failed(&self) -> (any: bool)
        ensures
            any == any_failed_in(self.statuses()),
    {
        let keys = table_keys(&self.raw_manifests);
        let mut index: usize = 0;
        while index < keys.len()
            invariant
                0 <= index <= keys.len(),
                forall|key: u64| keys@.contains(key) <==> self.statuses().contains_key(key),
                forall|i: int|
                    0 <= i < index ==> self.statuses()[#[trigger] keys@[i]].load_state
                        != LoadState::Failed,
            decreases keys.len() - index,
        {
            let key = keys[index];
            assert(keys@.contains(key));
            let failed = match table_get(&self.raw_manifests, key) {
                Some(status) => status.load_state == LoadState::Failed,
                None => false,
            };
            if failed {
                assert(self.statuses().contains_key(key) && self.statuses()[key].load_state
                    == LoadState::Failed);
                return true;
            }
            index += 1;
        }
        assert forall|key: u64| #[trigger]
            self.statuses().contains_key(key) implies self.statuses()[key].load_state
            != LoadState::Failed by {
            assert(keys@.contains(key));
            let i = choose|i: int| 0 <= i < keys@.len() && keys@[i] == key;
            assert(self.statuses()[keys@[i]].load_state != LoadState::Failed);
        }
        false
    }

    /// Records that the raw manifest under `key` was converted. Nothing
    /// changes where `key` is not registered.
    pub fn record_conversion(&mut self, key: u64)
        ensures
            final(self).statuses() == marked_converted(old(self).statuses(), key),
            final(self).status_of_processing() == old(self).status_of_processing(),
    {
        if let Some(status) = table_remove(&mut self.raw_manifests, key) {
            let done = RawManifestStatus {
                path: status.path,
                handle: status.handle,
                load_state: status.load_state,
                converted: true,
            };
            let _ = table_insert(&mut self.raw_manifests, key, done);
            assert(self.statuses() =~= marked_converted(old(self).statuses(), key));
        } else {
            assert(self.statuses() =~= old(self).statuses());
        }
    }

    /// Whether every registered raw manifest has been converted.
    pub fn all_converted(&self) -> (all: bool)
        ensures
            all == all_converted_in(self.statuses()),
    {
        let keys = table_keys(&self.raw_manifests);
        let mut index: usize = 0;
        while index < keys.len()
            invariant
                0 <= index <= keys.len(),
                forall|key: u64| keys@.contains(key) <==> self.statuses().contains_key(key),
                forall|i: int| 0 <= i < index ==> self.statuses()[#[trigger] keys@[i]].converted,
            decreases keys.len() - index,
        {
            let key = keys[index];
            assert(keys@.contains(key));
            let done = match table_get(&self.raw_manifests, key) {
                Some(status) => status.converted,
                None => false,
            };
            if !done {
                return false;
            }
            index += 1;
        }
        assert forall|key: u64| #[trigger]
            self.statuses().contains_key(key) implies self.statuses()[key].converted by {
            assert(keys@.contains(key));
            let i = choose|i: int| 0 <= i < keys@.len() && keys@[i] == key;
            assert(self.statuses()[keys@[i]].converted);
        }
        true
    }

    /// Asks the loading service anew, then says whether every registered
    /// load is now seen as loaded.
    pub fn all_manifests_loaded(&mut self, asset_server: &AssetServer) -> (all: bool)
        ensures
            only_load_states_differ(old(self).statuses(), final(self).statuses()),
            final(self).status_of_processing() == old(self).status_of_processing(),
            all == all_loaded_in(final(self).statuses()),
    {
        self.update_load_states(asset_server);
        self.all_loaded()
    }

    /// Asks the loading service anew, then says whether some registered
    /// load is now seen as failed.
    pub fn any_manifests_failed(&mut self, asset_server: &AssetServer) -> (any: bool)
        ensures
            only_load_states_differ(old(self).statuses(), final(self).statuses()),
            final(self).status_of_processing() == old(self).status_of_processing(),
            any == any_failed_in(final(self).statuses()),
    {
        self.update_load_states(asset_server);
        self.any_failed()
    }

    /// The processing status that the tracker holds.
    pub fn processing_status(&self) -> (status: ProcessingStatus)
        ensures
            status == self.status_of_processing(),
    {
        self.processing_status
    }

    /// Sets the processing status, whatever it was.
    pub fn set_processing_status(&mut self, status: ProcessingStatus)
        ensures
            final(self).status_of_processing() == status,
            final(self).statuses() == old(self).statuses(),
    {
        self.processing_status = status;
    }
}

impl Default for RawManifestTracker {
    fn default() -> (tracker: Self)
        ensures
            tracker.statuses() == no_statuses(),
            tracker.status_of_processing() == ProcessingStatus::Processing,
    {
        RawManifestTracker::new()
    }
}

/// The settings of the lifecycle.
#[derive(Debug)]
pub struct ManifestPlugin<S: AssetLoadingState> {
    /// Whether the lifecycle moves on by itself as manifests load and are
    /// converted. Where it is `false`, the application sets the states.
    pub automatically_advance_states: bool,
    /// Whether the application starts in the loading state.
    pub set_initial_state: bool,
    /// Ties the settings to the state type of the application.
    pub _phantom: PhantomData<S>,
}

impl<S: AssetLoadingState> Default for ManifestPlugin<S> {
    fn default() -> (plugin: Self)
        ensures
            plugin.automatically_advance_states,
            plugin.set_initial_state,
    {
        ManifestPlugin {
            automatically_advance_states: true,
            set_initial_state: true,
            _phantom: PhantomData,
        }
    }
}

/// The state to enter from the loading state, if any, when the loads were
/// last seen as `entries` tells: the failed state if a load has failed,
/// else the processing state if every load has succeeded.
pub open spec fn state_after_loading<S: AssetLoadingState>(
    entries: Map<u64, RawManifestStatus>,
) -> Option<S> {
    if any_failed_in(entries) {
        Some(S::FAILED)
    } else if all_loaded_in(entries) {
        Some(S::PROCESSING)
    } else {
        None
    }
}

/// The state to enter from the processing state, if any, at the processing
/// status `status`.
pub open spec fn state_after_processing<S: AssetLoadingState>(
    status: ProcessingStatus,
) -> Option<S> {
    match status {
        ProcessingStatus::Failed => Some(S::FAILED),
        ProcessingStatus::Ready => Some(S::READY),
        ProcessingStatus::Processing => None,
    }
}

/// Decides, from the states in which the loads were last seen, which state
/// to enter from the loading state, if any.
pub fn state_to_enter_after_loading<S: AssetLoadingState>(
    raw_manifest_tracker: &RawManifestTracker,
) -> (next_state: Option<S>)
    ensures
        next_state == state_after_loading::<S>(raw_manifest_tracker.statuses()),
{
    if raw_manifest_tracker.any_failed() {
        Some(S::FAILED)
    } else if raw_manifest_tracker.all_loaded() {
        Some(S::PROCESSING)
    } else {
        None
    }
}

/// Asks the loading service for the state of every registered load, and
/// decides from the answers which state to enter from the loading state, if
/// any.
pub fn check_if_manifests_have_loaded<S: AssetLoadingState>(
    asset_server: &AssetServer,
    raw_manifest_tracker: &mut RawManifestTracker,
) -> (next_state: Option<S>)
    ensures
        only_load_states_differ(
            old(raw_manifest_tracker).statuses(),
            final(raw_manifest_tracker).statuses(),
        ),
        final(raw_manifest_tracker).status_of_processing()
            == old(raw_manifest_tracker).status_of_processing(),
        next_state == state_after_loading::<S>(final(raw_manifest_tracker).statuses()),
{
    raw_manifest_tracker.update_load_states(asset_server);
    state_to_enter_after_loading(raw_manifest_tracker)
}

/// Decides, from the processing status, which state to enter from the
/// processing state, if any.
pub fn check_if_manifests_are_processed<S: AssetLoadingState>(
    raw_manifest_tracker: &RawManifestTracker,
) -> (next_state: Option<S>)
    ensures
        next_state == state_after_processing::<S>(raw_manifest_tracker.status_of_processing()),
{
    match raw_manifest_tracker.processing_status() {
        ProcessingStatus::Failed => Some(S::FAILED),
        ProcessingStatus::Ready => Some(S::READY),
        ProcessingStatus::Processing => None,
    }
}

/// The state that follows `state` after one tick, when the loads were last
/// seen as `entries` tells and the processing status is `status`.
pub open spec fn state_after_tick(
    state: SimpleAssetState,
    entries: Map<u64, RawManifestStatus>,
    status: ProcessingStatus,
) -> SimpleAssetState {
    match state {
        SimpleAssetState::Loading => if any_failed_in(entries) {
            SimpleAssetState::Failed
        } else if all_loaded_in(entries) {
            SimpleAssetState::Processing
        } else {
            SimpleAssetState::Loading
        },
        SimpleAssetState::Processing => match status {
            ProcessingStatus::Failed => SimpleAssetState::Failed,
            ProcessingStatus::Ready => SimpleAssetState::Ready,
            ProcessingStatus::Processing => SimpleAssetState::Processing,
        },
        SimpleAssetState::Ready => SimpleAssetState::Ready,
        SimpleAssetState::Failed => SimpleAssetState::Failed,
    }
}

/// One tick of the lifecycle: the state that follows `state`, given what
/// the tracker holds.
pub fn advance_state(
    state: SimpleAssetState,
    raw_manifest_tracker: &RawManifestTracker,
) -> (next: SimpleAssetState)
    ensures
        next == state_after_tick(
            state,
            raw_manifest_tracker.statuses(),
            raw_manifest_tracker.status_of_processing(),
        ),
{
    proof {
        lemma_simple_phases();
    }
    let entered: Option<SimpleAssetState> = match state {
        SimpleAssetState::Loading => state_to_enter_after_loading(raw_manifest_tracker),
        SimpleAssetState::Processing => check_if_manifests_are_processed(raw_manifest_tracker),
        SimpleAssetState::Ready => None,
        SimpleAssetState::Failed => None,
    };
    match entered {
        Some(next) => next,
        None => state,
    }
}

/// The ready state and the failed state are final: a tick in either leaves
/// the state as it is, whatever the tracker holds.
pub proof fn law_final_states_stay(
    state: SimpleAssetState,
    entries: Map<u64, RawManifestStatus>,
    status: ProcessingStatus,
)
    requires
        state == SimpleAssetState::Ready || state == SimpleAssetState::Failed,
    ensures
        state_after_tick(state, entries, status) == state,
{
}

/// No tick skips a state or goes back: from loading the lifecycle stays,
/// or goes to processing or to failed; from processing it stays, or goes to
/// ready or to failed.
pub proof fn law_no_state_skipped(
    state: SimpleAssetState,
    entries: Map<u64, RawManifestStatus>,
    status: ProcessingStatus,
)
    ensures
        state == SimpleAssetState::Loading ==> state_after_tick(state, entries, status)
            != SimpleAssetState::Ready,
        state == SimpleAssetState::Processing ==> state_after_tick(state, entries, status)
            != SimpleAssetState::Loading,
{
}

/// A load that was seen as failed ends the loading state in the failed
/// state, and a conversion that failed ends the processing state there.
pub proof fn law_failure_leads_to_failed(
    entries: Map<u64, RawManifestStatus>,
    status: ProcessingStatus,
)
    ensures
        any_failed_in(entries) ==> state_after_tick(SimpleAssetState::Loading, entries, status)
            == SimpleAssetState::Failed,
        status == ProcessingStatus::Failed ==> state_after_tick(
            SimpleAssetState::Processing,
            entries,
            status,
        ) == SimpleAssetState::Failed,
{
}

/// The state after a run of ticks from `state`: at the `i`-th tick the loads
/// were last seen as `entries[i]` tells and the processing status was
/// `statuses[i]`.
pub open spec fn state_after_ticks(
    state: SimpleAssetState,
    entries: Seq<Map<u64, RawManifestStatus>>,
    statuses: Seq<ProcessingStatus>,
) -> SimpleAssetState
    decreases entries.len(),
{
    if entries.len() == 0 || statuses.len() != entries.len() {
        state
    } else {
        state_after_tick(
            state_after_ticks(state, entries.drop_last(), statuses.drop_last()),
            entries.last(),
            statuses.last(),
        )
    }
}

/// Once ready or failed, the lifecycle stays so through any run of ticks,
/// whatever the tracker holds at each of them.
pub proof fn law_final_states_stay_for_good(
    state: SimpleAssetState,
    entries: Seq<Map<u64, RawManifestStatus>>,
    statuses: Seq<ProcessingStatus>,
)
    requires
        state == SimpleAssetState::Ready || state == SimpleAssetState::Failed,
    ensures
        state_after_ticks(state, entries, statuses) == state,
    decreases entries.len(),
{
    if entries.len() != 0 && statuses.len() == entries.len() {
        law_final_states_stay_for_good(state, entries.drop_last(), statuses.drop_last());
    }
}

/// Where a load is seen as failed at the first tick in the loading state,
/// the lifecycle is in the failed state after every run of ticks, and so
/// never in the ready state.
pub proof fn law_failed_load_never_ready(
    entries: Seq<Map<u64, RawManifestStatus>>,
    statuses: Seq<ProcessingStatus>,
)
    requires
        entries.len() > 0,
        statuses.len() == entries.len(),
        any_failed_in(entries[0]),
    ensures
        state_after_ticks(SimpleAssetState::Loading, entries, statuses) == SimpleAssetState::Failed,
    decreases entries.len(),
{
    if entries.len() == 1 {
        assert(state_after_ticks(
            SimpleAssetState::Loading,
            entries.drop_last(),
            statuses.drop_last(),
        ) == SimpleAssetState::Loading);
    } else {
        assert(entries.drop_last()[0] == entries[0]);
        law_failed_load_never_ready(entries.drop_last(), statuses.drop_last());
    }
}

/// A failed conversion is never forgotten: whatever is converted afterwards,
/// the processing status stays failed.
pub proof fn law_failed_processing_is_kept(entries: Map<u64, RawManifestStatus>, succeeded: bool)
    ensures
        processing_after(ProcessingStatus::Failed, entries, succeeded) == ProcessingStatus::Failed,
{
}

/// A conversion makes the processing status ready exactly when it
/// succeeded, no conversion has failed before, and every registered raw
/// manifest has been converted.
pub proof fn law_ready_means_all_converted(
    before: ProcessingStatus,
    entries: Map<u64, RawManifestStatus>,
    succeeded: bool,
)
    ensures
        processing_after(before, entries, succeeded) == ProcessingStatus::Ready <==> succeeded
            && before != ProcessingStatus::Failed && all_converted_in(entries),
{
}

/// What became of an attempt to convert a raw manifest.
#[derive(Debug)]
pub enum ProcessingOutcome<M: Manifest> {
    /// No raw manifest is registered under the key.
    NotRegistered,
    /// The raw manifest under the key had been converted before.
    AlreadyConverted,
    /// The loading service did not have the raw manifest.
    RawManifestMissing,
    /// The catalog was built and is to be installed.
    Converted(M),
    /// The conversion failed.
    Failed(M::ConversionError),
}

/// What is reported, before any conversion is tried, of an attempt on the
/// raw manifest under `key` of which the loading service had something
/// (`present`) or nothing: why nothing is converted, or `None` where the
/// conversion is to be tried.
pub open spec fn reason_to_skip<M: Manifest>(
    entries: Map<u64, RawManifestStatus>,
    key: u64,
    present: bool,
) -> Option<ProcessingOutcome<M>> {
    if !entries.contains_key(key) {
        Some(ProcessingOutcome::NotRegistered)
    } else if entries[key].converted {
        Some(ProcessingOutcome::AlreadyConverted)
    } else if !present {
        Some(ProcessingOutcome::RawManifestMissing)
    } else {
        None
    }
}

/// Records the outcome of the conversion of the raw manifest registered
/// under `key`, and reports it.
///
/// Where a catalog was built, its raw manifest counts as converted; the
/// processing status is ready once that holds of every registered raw
/// manifest and processing until then, unless a conversion has failed
/// before. A failure makes the processing status failed.
pub fn finish_processing<M: Manifest>(
    raw_manifest_tracker: &mut RawManifestTracker,
    key: u64,
    built: Result<M, M::ConversionError>,
) -> (outcome: ProcessingOutcome<M>)
    ensures
        final(raw_manifest_tracker).statuses() == (if built is Ok {
            marked_converted(old(raw_manifest_tracker).statuses(), key)
        } else {
            old(raw_manifest_tracker).statuses()
        }),
        final(raw_manifest_tracker).status_of_processing() == processing_after(
            old(raw_manifest_tracker).status_of_processing(),
            final(raw_manifest_tracker).statuses(),
            built is Ok,
        ),
        match built {
            Ok(manifest) => outcome == ProcessingOutcome::Converted(manifest),
            Err(error) => outcome == ProcessingOutcome::<M>::Failed(error),
        },
{
    match built {
        Ok(manifest) => {
            raw_manifest_tracker.record_conversion(key);
            match raw_manifest_tracker.processing_status() {
                ProcessingStatus::Failed => {},
                _ => {
                    if raw_manifest_tracker.all_converted() {
                        raw_manifest_tracker.set_processing_status(ProcessingStatus::Ready);
                    } else {
                        raw_manifest_tracker.set_processing_status(ProcessingStatus::Processing);
                    }
                },
            }
            ProcessingOutcome::Converted(manifest)
        },
        Err(error) => {
            raw_manifest_tracker.set_processing_status(ProcessingStatus::Failed);
            ProcessingOutcome::Failed(error)
        },
    }
}

/// Converts the raw manifest of the catalog type registered under `key`
/// into the catalog, records the outcome and reports it.
///
/// Nothing is converted and nothing changes where no raw manifest is
/// registered under `key`, where it has been converted already, or where
/// `raw_manifest` is `None` because the loading service did not have it.
/// Otherwise the raw manifest is converted, with `world` at the
/// conversion's disposal; whether a catalog comes back depends on the
/// conversion alone, and the tracker records which it was.
pub fn process_manifest<M: Manifest>(
    raw_manifest_tracker: &mut RawManifestTracker,
    key: u64,
    raw_manifest: Option<M::RawManifest>,
    world: &mut World,
) -> (outcome: ProcessingOutcome<M>)
    ensures
        reason_to_skip::<M>(old(raw_manifest_tracker).statuses(), key, raw_manifest is Some)
            matches Some(reason) ==> {
            &&& outcome == reason
            &&& final(raw_manifest_tracker).statuses() == old(raw_manifest_tracker).statuses()
            &&& final(raw_manifest_tracker).status_of_processing()
                == old(raw_manifest_tracker).status_of_processing()
        },
        reason_to_skip::<M>(old(raw_manifest_tracker).statuses(), key, raw_manifest is Some)
            is None ==> {
            &&& outcome is Converted || outcome is Failed
            &&& final(raw_manifest_tracker).statuses() == (if outcome is Converted {
                marked_converted(old(raw_manifest_tracker).statuses(), key)
            } else {
                old(raw_manifest_tracker).statuses()
            })
            &&& final(raw_manifest_tracker).status_of_processing() == processing_after(
                old(raw_manifest_tracker).status_of_processing(),
                final(raw_manifest_tracker).statuses(),
                outcome is Converted,
            )
        },
{
    match raw_manifest_tracker.status(key) {
        None => {
            return ProcessingOutcome::NotRegistered;
        },
        Some(status) => {
            if status.converted {
                return ProcessingOutcome::AlreadyConverted;
            }
        },
    }
    match raw_manifest {
        Some(raw_manifest) => {
            let built = M::from_raw_manifest(raw_manifest, world);
            finish_processing(raw_manifest_tracker, key, built)
        },
        None => ProcessingOutcome::RawManifestMissing,
    }
}

} // verus!
