use std::collections::HashMap;

use bevy::asset::{Handle, LoadedFolder, UntypedHandle};
use bevy::ecs::system::Resource;
use bevy::ecs::world::World;
use leafwing_manifest::asset_state::{AssetLoadingState, SimpleAssetState};
use leafwing_manifest::identifier::Id;
use leafwing_manifest::manifest::{CatalogView, Manifest, ManifestFormat};
use leafwing_manifest::plugin::{
    advance_state, check_if_manifests_are_processed, finish_processing, process_manifest,
    state_to_enter_after_loading, LoadState, ManifestPlugin, ProcessingOutcome, ProcessingStatus,
    RawManifestTracker,
};

const ITEMS: u64 = 0;
const RECIPES: u64 = 1;

fn handle() -> UntypedHandle {
    Handle::<LoadedFolder>::default().untyped()
}

#[derive(Debug, Clone, PartialEq)]
struct Item {
    name: String,
}

struct ItemManifest {
    items: HashMap<Id<Item>, Item>,
}

impl Resource for ItemManifest {}

impl Manifest for ItemManifest {
    type RawManifest = Vec<String>;
    type RawItem = String;
    type Item = Item;
    type ConversionError = String;

    const FORMAT: ManifestFormat = ManifestFormat::Custom;

    fn items(&self) -> CatalogView<Item> {
        unreachable!()
    }

    fn from_raw_manifest(raw_manifest: Vec<String>, _world: &mut World) -> Result<Self, String> {
        let mut items = HashMap::new();
        for name in raw_manifest {
            if name.is_empty() {
                return Err("an item has no name".to_string());
            }
            items.insert(Id::from_name(&name), Item { name });
        }
        Ok(ItemManifest { items })
    }

    fn get(&self, id: Id<Item>) -> Option<&Item> {
        self.items.get(&id)
    }
}

#[derive(Debug, Clone, PartialEq)]
struct Recipe {
    name: String,
    ingredient: Id<Item>,
}

struct RecipeManifest {
    recipes: HashMap<Id<Recipe>, Recipe>,
}

impl Resource for RecipeManifest {}

impl Manifest for RecipeManifest {
    type RawManifest = Vec<(String, String)>;
    type RawItem = (String, String);
    type Item = Recipe;
    type ConversionError = String;

    const FORMAT: ManifestFormat = ManifestFormat::Custom;

    fn items(&self) -> CatalogView<Recipe> {
        unreachable!()
    }

    fn from_raw_manifest(
        raw_manifest: Vec<(String, String)>,
        world: &mut World,
    ) -> Result<Self, String> {
        let items = match world.get_resource::<ItemManifest>() {
            Some(items) => items,
            None => return Err("the items are not installed".to_string()),
        };
        let mut recipes = HashMap::new();
        for (name, ingredient) in raw_manifest {
            if items.get_by_name(&ingredient).is_none() {
                return Err(format!("unknown ingredient {}", ingredient));
            }
            let recipe = Recipe { name: name.clone(), ingredient: Id::from_name(&ingredient) };
            recipes.insert(Id::from_name(&name), recipe);
        }
        Ok(RecipeManifest { recipes })
    }

    fn get(&self, id: Id<Recipe>) -> Option<&Recipe> {
        self.recipes.get(&id)
    }
}

fn converted<M: Manifest>(outcome: ProcessingOutcome<M>) -> Option<M> {
    match outcome {
        ProcessingOutcome::Converted(manifest) => Some(manifest),
        _ => None,
    }
}

fn raw_items() -> Vec<String> {
    vec!["flour".to_string(), "water".to_string()]
}

fn raw_recipes() -> Vec<(String, String)> {
    vec![("bread".to_string(), "flour".to_string())]
}

fn two_registered() -> RawManifestTracker {
    let mut tracker = RawManifestTracker::new();
    tracker.register(ITEMS, "items.ron".to_string(), handle());
    tracker.register(RECIPES, "recipes.ron".to_string(), handle());
    tracker
}

fn two_loaded() -> RawManifestTracker {
    let mut tracker = two_registered();
    tracker.record_load_state(ITEMS, Some(LoadState::Loaded));
    tracker.record_load_state(RECIPES, Some(LoadState::Loaded));
    tracker
}

#[derive(Debug, PartialEq, Clone, Copy)]
enum GameState {
    Fetching,
    Building,
    Playing,
    Broken,
}

impl AssetLoadingState for GameState {
    const LOADING: Self = GameState::Fetching;
    const PROCESSING: Self = GameState::Building;
    const READY: Self = GameState::Playing;
    const FAILED: Self = GameState::Broken;
}

#[test]
fn a_new_tracker_holds_nothing() {
    let tracker = RawManifestTracker::new();
    assert!(tracker.iter().is_empty());
    assert!(tracker.status(ITEMS).is_none());
    assert_eq!(tracker.processing_status(), ProcessingStatus::Processing);
    assert!(tracker.all_loaded());
    assert!(!tracker.any_failed());
    assert!(tracker.all_converted());
    let by_default = RawManifestTracker::default();
    assert!(by_default.iter().is_empty());
    assert_eq!(by_default.processing_status(), ProcessingStatus::Processing);
}

#[test]
fn register_files_a_status_under_the_key() {
    let mut tracker = RawManifestTracker::new();
    tracker.register(ITEMS, "items.ron".to_string(), handle());
    let status = tracker.status(ITEMS).unwrap();
    assert_eq!(status.path, "items.ron");
    assert_eq!(status.load_state, LoadState::Loading);
    assert!(!status.converted);
    assert!(tracker.status(RECIPES).is_none());
    assert_eq!(tracker.iter(), vec![ITEMS]);
    assert_eq!(tracker.processing_status(), ProcessingStatus::Processing);
}

#[test]
fn registering_again_replaces_the_status() {
    let mut tracker = two_loaded();
    tracker.register(ITEMS, "other.ron".to_string(), handle());
    let status = tracker.status(ITEMS).unwrap();
    assert_eq!(status.path, "other.ron");
    assert_eq!(status.load_state, LoadState::Loading);
    assert_eq!(tracker.status(RECIPES).unwrap().load_state, LoadState::Loaded);
    let mut keys = tracker.iter();
    keys.sort();
    assert_eq!(keys, vec![ITEMS, RECIPES]);
}

#[test]
fn an_observation_changes_one_load_state_only() {
    let mut tracker = two_registered();
    tracker.record_load_state(ITEMS, Some(LoadState::Loaded));
    assert_eq!(tracker.status(ITEMS).unwrap().load_state, LoadState::Loaded);
    assert_eq!(tracker.status(ITEMS).unwrap().path, "items.ron");
    assert_eq!(tracker.status(RECIPES).unwrap().load_state, LoadState::Loading);
    tracker.record_load_state(RECIPES, Some(LoadState::Failed));
    assert_eq!(tracker.status(RECIPES).unwrap().load_state, LoadState::Failed);
    tracker.record_load_state(RECIPES, Some(LoadState::NotLoaded));
    assert_eq!(tracker.status(RECIPES).unwrap().load_state, LoadState::NotLoaded);
}

#[test]
fn an_observation_of_nothing_or_of_an_unknown_key_changes_nothing() {
    let mut tracker = two_registered();
    tracker.record_load_state(ITEMS, None);
    assert_eq!(tracker.status(ITEMS).unwrap().load_state, LoadState::Loading);
    tracker.record_load_state(7, Some(LoadState::Loaded));
    assert!(tracker.status(7).is_none());
    assert_eq!(tracker.iter().len(), 2);
}

#[test]
fn all_loaded_asks_for_every_load() {
    let mut tracker = two_registered();
    assert!(!tracker.all_loaded());
    tracker.record_load_state(ITEMS, Some(LoadState::Loaded));
    assert!(!tracker.all_loaded());
    tracker.record_load_state(RECIPES, Some(LoadState::Loaded));
    assert!(tracker.all_loaded());
    assert!(!tracker.any_failed());
}

#[test]
fn any_failed_asks_for_one_load() {
    let mut tracker = two_registered();
    assert!(!tracker.any_failed());
    tracker.record_load_state(RECIPES, Some(LoadState::Failed));
    assert!(tracker.any_failed());
    assert!(!tracker.all_loaded());
}

#[test]
fn a_failed_load_outweighs_the_loaded_ones() {
    let mut tracker = two_registered();
    assert_eq!(state_to_enter_after_loading::<GameState>(&tracker), None);
    tracker.record_load_state(ITEMS, Some(LoadState::Loaded));
    assert_eq!(state_to_enter_after_loading::<GameState>(&tracker), None);
    tracker.record_load_state(RECIPES, Some(LoadState::Failed));
    assert_eq!(state_to_enter_after_loading::<GameState>(&tracker), Some(GameState::Broken));
    tracker.record_load_state(RECIPES, Some(LoadState::Loaded));
    assert_eq!(state_to_enter_after_loading::<GameState>(&tracker), Some(GameState::Building));
}

#[test]
fn the_processing_status_decides_the_state_after_processing() {
    let mut tracker = RawManifestTracker::new();
    assert_eq!(check_if_manifests_are_processed::<GameState>(&tracker), None);
    tracker.set_processing_status(ProcessingStatus::Ready);
    assert_eq!(tracker.processing_status(), ProcessingStatus::Ready);
    assert_eq!(check_if_manifests_are_processed::<GameState>(&tracker), Some(GameState::Playing));
    tracker.set_processing_status(ProcessingStatus::Failed);
    assert_eq!(check_if_manifests_are_processed::<GameState>(&tracker), Some(GameState::Broken));
    assert_eq!(
        check_if_manifests_are_processed::<SimpleAssetState>(&tracker),
        Some(SimpleAssetState::Failed)
    );
}

#[test]
fn two_catalogs_load_are_converted_and_become_ready() {
    let mut world = World::new();
    let mut tracker = two_registered();
    let mut state = SimpleAssetState::default();
    assert_eq!(state, SimpleAssetState::Loading);

    state = advance_state(state, &tracker);
    assert_eq!(state, SimpleAssetState::Loading);

    tracker.record_load_state(ITEMS, Some(LoadState::Loaded));
    state = advance_state(state, &tracker);
    assert_eq!(state, SimpleAssetState::Loading);

    tracker.record_load_state(RECIPES, Some(LoadState::Loaded));
    state = advance_state(state, &tracker);
    assert_eq!(state, SimpleAssetState::Processing);

    state = advance_state(state, &tracker);
    assert_eq!(state, SimpleAssetState::Processing);

    let items: ItemManifest =
        converted(process_manifest(&mut tracker, ITEMS, Some(raw_items()), &mut world)).unwrap();
    world.insert_resource(items);
    assert!(tracker.status(ITEMS).unwrap().converted);
    assert_eq!(tracker.processing_status(), ProcessingStatus::Processing);
    state = advance_state(state, &tracker);
    assert_eq!(state, SimpleAssetState::Processing);

    let recipes: RecipeManifest =
        converted(process_manifest(&mut tracker, RECIPES, Some(raw_recipes()), &mut world))
            .unwrap();
    world.insert_resource(recipes);
    assert!(tracker.all_converted());
    assert_eq!(tracker.processing_status(), ProcessingStatus::Ready);
    state = advance_state(state, &tracker);
    assert_eq!(state, SimpleAssetState::Ready);

    state = advance_state(state, &tracker);
    assert_eq!(state, SimpleAssetState::Ready);
    let bread = world.resource::<RecipeManifest>().get_by_name("bread").unwrap();
    assert!(bread.ingredient == Id::from_name("flour"));
}

#[test]
fn a_failed_load_ends_in_failed_and_never_in_ready() {
    let mut tracker = two_registered();
    tracker.record_load_state(ITEMS, Some(LoadState::Loaded));
    tracker.record_load_state(RECIPES, Some(LoadState::Failed));
    let mut state = SimpleAssetState::Loading;
    state = advance_state(state, &tracker);
    assert_eq!(state, SimpleAssetState::Failed);

    tracker.record_load_state(RECIPES, Some(LoadState::Loaded));
    tracker.set_processing_status(ProcessingStatus::Ready);
    for _ in 0..5 {
        state = advance_state(state, &tracker);
        assert_eq!(state, SimpleAssetState::Failed);
    }
}

#[test]
fn a_failed_conversion_ends_in_failed_and_is_not_forgotten() {
    let mut world = World::new();
    let mut tracker = two_loaded();
    let mut state = advance_state(SimpleAssetState::Loading, &tracker);
    assert_eq!(state, SimpleAssetState::Processing);

    let nameless = vec!["flour".to_string(), String::new()];
    let items: ProcessingOutcome<ItemManifest> =
        process_manifest(&mut tracker, ITEMS, Some(nameless), &mut world);
    assert!(matches!(items, ProcessingOutcome::Failed(reason) if reason == "an item has no name"));
    assert_eq!(tracker.processing_status(), ProcessingStatus::Failed);
    assert!(!tracker.status(ITEMS).unwrap().converted);

    let items = ItemManifest::from_raw_manifest(raw_items(), &mut world).ok().unwrap();
    world.insert_resource(items);
    let recipes: ProcessingOutcome<RecipeManifest> =
        process_manifest(&mut tracker, RECIPES, Some(raw_recipes()), &mut world);
    assert!(matches!(recipes, ProcessingOutcome::Converted(_)));
    assert!(tracker.status(RECIPES).unwrap().converted);
    assert_eq!(tracker.processing_status(), ProcessingStatus::Failed);

    state = advance_state(state, &tracker);
    assert_eq!(state, SimpleAssetState::Failed);
    state = advance_state(state, &tracker);
    assert_eq!(state, SimpleAssetState::Failed);
}

#[test]
fn processing_without_a_status_has_no_effect() {
    let mut world = World::new();
    let mut tracker = RawManifestTracker::new();
    let items: ProcessingOutcome<ItemManifest> =
        process_manifest(&mut tracker, ITEMS, Some(raw_items()), &mut world);
    assert!(matches!(items, ProcessingOutcome::NotRegistered));
    assert_eq!(tracker.processing_status(), ProcessingStatus::Processing);
    assert!(tracker.iter().is_empty());
}

#[test]
fn processing_without_the_raw_manifest_has_no_effect() {
    let mut world = World::new();
    let mut tracker = two_loaded();
    let items: ProcessingOutcome<ItemManifest> =
        process_manifest(&mut tracker, ITEMS, None, &mut world);
    assert!(matches!(items, ProcessingOutcome::RawManifestMissing));
    assert_eq!(tracker.processing_status(), ProcessingStatus::Processing);
    assert!(!tracker.status(ITEMS).unwrap().converted);
}

#[test]
fn a_catalog_is_converted_once() {
    let mut world = World::new();
    let mut tracker = two_loaded();
    assert!(tracker.handle_of_pending(ITEMS).is_some());
    let first: ProcessingOutcome<ItemManifest> =
        process_manifest(&mut tracker, ITEMS, Some(raw_items()), &mut world);
    assert!(matches!(first, ProcessingOutcome::Converted(_)));
    assert!(tracker.handle_of_pending(ITEMS).is_none());
    assert!(tracker.handle_of_pending(RECIPES).is_some());
    assert!(tracker.handle_of_pending(5).is_none());
    let nameless = vec![String::new()];
    let second: ProcessingOutcome<ItemManifest> =
        process_manifest(&mut tracker, ITEMS, Some(nameless), &mut world);
    assert!(matches!(second, ProcessingOutcome::AlreadyConverted));
    assert_eq!(tracker.processing_status(), ProcessingStatus::Processing);
    assert!(tracker.status(ITEMS).unwrap().converted);
}

#[test]
fn a_conversion_that_reads_another_catalog_fails_before_that_is_installed() {
    let mut world = World::new();
    let mut tracker = two_loaded();
    let recipes: ProcessingOutcome<RecipeManifest> =
        process_manifest(&mut tracker, RECIPES, Some(raw_recipes()), &mut world);
    assert!(
        matches!(recipes, ProcessingOutcome::Failed(reason) if reason == "the items are not installed")
    );
    assert_eq!(tracker.processing_status(), ProcessingStatus::Failed);
    assert_eq!(
        advance_state(SimpleAssetState::Processing, &tracker),
        SimpleAssetState::Failed
    );
}

#[test]
fn a_conversion_that_reads_another_catalog_succeeds_after_that_is_installed() {
    let mut world = World::new();
    let mut tracker = two_loaded();
    let items: ItemManifest =
        converted(process_manifest(&mut tracker, ITEMS, Some(raw_items()), &mut world)).unwrap();
    world.insert_resource(items);
    let recipes: ProcessingOutcome<RecipeManifest> =
        process_manifest(&mut tracker, RECIPES, Some(raw_recipes()), &mut world);
    assert!(matches!(recipes, ProcessingOutcome::Converted(_)));
    assert_eq!(tracker.processing_status(), ProcessingStatus::Ready);

    let mut other = two_loaded();
    let unknown = vec![("soup".to_string(), "leek".to_string())];
    let soup: ProcessingOutcome<RecipeManifest> =
        process_manifest(&mut other, RECIPES, Some(unknown), &mut world);
    assert!(matches!(soup, ProcessingOutcome::Failed(reason) if reason == "unknown ingredient leek"));
    assert_eq!(other.processing_status(), ProcessingStatus::Failed);
}

#[test]
fn the_outcome_of_a_conversion_is_recorded() {
    let mut world = World::new();
    let mut tracker = two_loaded();
    let built = ItemManifest::from_raw_manifest(raw_items(), &mut world);
    let installed = converted(finish_processing(&mut tracker, ITEMS, built));
    assert!(installed.unwrap().get_by_name("water").is_some());
    assert!(tracker.status(ITEMS).unwrap().converted);
    assert_eq!(tracker.processing_status(), ProcessingStatus::Processing);

    let failed: Result<RecipeManifest, String> = Err("broken".to_string());
    let outcome = finish_processing(&mut tracker, RECIPES, failed);
    assert!(matches!(outcome, ProcessingOutcome::Failed(reason) if reason == "broken"));
    assert!(!tracker.status(RECIPES).unwrap().converted);
    assert_eq!(tracker.processing_status(), ProcessingStatus::Failed);
}

#[test]
fn recording_a_conversion_marks_one_raw_manifest() {
    let mut tracker = two_loaded();
    assert!(!tracker.all_converted());
    tracker.record_conversion(RECIPES);
    assert!(tracker.status(RECIPES).unwrap().converted);
    assert!(!tracker.status(ITEMS).unwrap().converted);
    assert_eq!(tracker.status(RECIPES).unwrap().load_state, LoadState::Loaded);
    assert!(!tracker.all_converted());
    tracker.record_conversion(9);
    assert!(tracker.status(9).is_none());
    tracker.record_conversion(ITEMS);
    assert!(tracker.all_converted());
    assert_eq!(tracker.processing_status(), ProcessingStatus::Processing);
}

#[test]
fn with_nothing_registered_loading_is_over_at_once() {
    let tracker = RawManifestTracker::new();
    assert_eq!(
        advance_state(SimpleAssetState::Loading, &tracker),
        SimpleAssetState::Processing
    );
    assert_eq!(
        advance_state(SimpleAssetState::Processing, &tracker),
        SimpleAssetState::Processing
    );
}

#[test]
fn the_settings_default_to_an_automatic_lifecycle() {
    let plugin: ManifestPlugin<SimpleAssetState> = ManifestPlugin::default();
    assert!(plugin.automatically_advance_states);
    assert!(plugin.set_initial_state);
    assert_eq!(ProcessingStatus::default(), ProcessingStatus::Processing);
    assert_eq!(SimpleAssetState::LOADING, SimpleAssetState::Loading);
    assert_eq!(SimpleAssetState::PROCESSING, SimpleAssetState::Processing);
    assert_eq!(SimpleAssetState::READY, SimpleAssetState::Ready);
    assert_eq!(SimpleAssetState::FAILED, SimpleAssetState::Failed);
}
