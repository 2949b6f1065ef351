//! The phases that an application passes through while its catalogs load.

use vstd::prelude::*;

verus! {

/// Names, among the states of an application, the four phases of loading.
///
/// An application with states of its own implements this trait to tell the
/// lifecycle driver which of them stand for the phases.
pub trait AssetLoadingState: Sized {
    /// Catalogs are being loaded.
    const LOADING: Self;

    /// Every catalog has been loaded; conversion is under way.
    const PROCESSING: Self;

    /// Every catalog is ready to be read.
    const READY: Self;

    /// Loading or conversion has failed.
    const FAILED: Self;
}

/// A state type with exactly the four phases of loading.
#[derive(PartialEq, Eq, Structural, Debug, Hash, Clone, Copy)]
pub enum SimpleAssetState {
    /// Catalogs are being loaded.
    Loading,
    /// Every catalog has been loaded; conversion is under way.
    Processing,
    /// Every catalog is ready to be read.
    Ready,
    /// Loading or conversion has failed.
    Failed,
}

impl Default for SimpleAssetState {
    fn default() -> (state: Self)
        ensures
            state == SimpleAssetState::Loading,
    {
        SimpleAssetState::Loading
    }
}

impl AssetLoadingState for SimpleAssetState {
    const LOADING: Self = SimpleAssetState::Loading;

    const PROCESSING: Self = SimpleAssetState::Processing;

    const READY: Self = SimpleAssetState::Ready;

    const FAILED: Self = SimpleAssetState::Failed;
}

/// The four phases of [`SimpleAssetState`] are its four variants.
pub proof fn lemma_simple_phases()
    ensures
        SimpleAssetState::LOADING == SimpleAssetState::Loading,
        SimpleAssetState::PROCESSING == SimpleAssetState::Processing,
        SimpleAssetState::READY == SimpleAssetState::Ready,
        SimpleAssetState::FAILED == SimpleAssetState::Failed,
{
}

} // verus!
