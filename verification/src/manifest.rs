//! Catalogs and the operations that every catalog offers.
//!
//! A catalog maps the identifiers of its items to the items. Its abstract
//! value is a `Map` from the numeric value of an identifier to the item filed
//! under it; the contracts below are stated over that map.

use crate::identifier::{hash_of_name, Id};
use bevy::ecs::world::World;
use vstd::prelude::*;

verus! {

/// The file format of a raw manifest.
#[derive(PartialEq, Eq, Structural, Debug, Hash, Clone, Copy)]
pub enum ManifestFormat {
    /// A Rust-specific configuration format.
    Ron,
    /// A widespread configuration format.
    Json,
    /// A configuration format for complex, human-edited data.
    Yaml,
    /// A configuration format that favours simplicity.
    Toml,
    /// A markup language.
    Xml,
    /// A tabular text format.
    Csv,
    /// A binary format derived from JSON.
    MsgPack,
    /// A format for which the application registers its own loader.
    Custom,
}

/// The abstract value of a catalog: its items, each under the numeric value
/// of its identifier.
pub type CatalogView<T> = Map<u64, T>;

/// The abstract value of a name: its characters.
pub type NameView = Seq<char>;

/// What a lookup of `id` in `items` yields.
pub open spec fn lookup<T>(items: Map<u64, T>, id: u64) -> Option<T> {
    if items.contains_key(id) {
        Some(items[id])
    } else {
        None
    }
}

/// Whether `found` is the answer to a lookup of `id` in `items`.
pub open spec fn is_lookup<T>(items: Map<u64, T>, id: u64, found: Option<&T>) -> bool {
    match found {
        Some(item) => lookup(items, id) == Some(*item),
        None => lookup(items, id) is None,
    }
}

/// The identifier value that the name `name` hashes to.
pub open spec fn key_of_name(name: Seq<char>) -> u64 {
    hash_of_name(name) as u64
}

/// A catalog of ready-to-use items, built once from a raw manifest.
pub trait Manifest: Sized {
    /// The serialized form of the whole catalog.
    type RawManifest;

    /// One record of the serialized form.
    type RawItem;

    /// One item of the catalog.
    type Item;

    /// What can go wrong when a raw manifest is converted.
    type ConversionError;

    /// The file format of the raw manifest.
    const FORMAT: ManifestFormat;

    /// The items of the catalog, by the value of their identifier.
    spec fn items(&self) -> CatalogView<Self::Item>;

    /// Converts a raw manifest into the catalog. The conversion may read and
    /// change `world`, for instance to consult catalogs that are already
    /// installed there.
    fn from_raw_manifest(
        raw_manifest: Self::RawManifest,
        world: &mut World,
    ) -> Result<Self, Self::ConversionError>;

    /// The item filed under `id`, if there is one.
    fn get(&self, id: Id<Self::Item>) -> (found: Option<&Self::Item>)
        ensures
            is_lookup(self.items(), id@, found),
    ;

    /// The identifier of `name`, if an item is filed under it.
    fn id_of(&self, name: &str) -> (known: Option<Id<Self::Item>>)
        ensures
            match known {
                Some(id) => id@ == key_of_name(name@) && self.items().contains_key(id@),
                None => !self.items().contains_key(key_of_name(name@)),
            },
    {
        let id = Id::from_name(name);
        if self.get(id).is_some() {
            Some(id)
        } else {
            None
        }
    }

    /// The item filed under the identifier of `name`, if there is one.
    fn get_by_name(&self, name: &str) -> (found: Option<&Self::Item>)
        ensures
            is_lookup(self.items(), key_of_name(name@), found),
    {
        self.get(Id::from_name(name))
    }
}

/// Why a change to a catalog was refused.
#[derive(Debug, Clone, PartialEq)]
pub enum ManifestModificationError<M: Manifest> {
    /// An item of that name is already in the catalog.
    DuplicateName(String),
    /// The raw item could not be converted.
    ConversionFailed(M::ConversionError),
    /// No item is filed under that identifier.
    NotFound(Id<M::Item>),
    /// No item of that name is in the catalog.
    NameNotFound(String),
}

/// The catalog `items` after an attempt to file `item` under `key`: a key
/// that is taken keeps its item.
pub open spec fn inserted<T>(items: Map<u64, T>, key: u64, item: T) -> Map<u64, T> {
    if items.contains_key(key) {
        items
    } else {
        items.insert(key, item)
    }
}

/// The catalog `items` after the removal of what is filed under `key`.
pub open spec fn removed<T>(items: Map<u64, T>, key: u64) -> Map<u64, T> {
    items.remove(key)
}

/// Whether `outcome` refuses a change because the name `name` is taken.
pub open spec fn is_duplicate_name<M: Manifest>(
    outcome: Result<Id<M::Item>, ManifestModificationError<M>>,
    name: Seq<char>,
) -> bool {
    outcome matches Err(ManifestModificationError::DuplicateName(taken)) && taken@ == name
}

/// Whether `outcome` refuses a change because nothing is filed under `key`.
pub open spec fn is_not_found<M: Manifest>(
    outcome: Result<Id<M::Item>, ManifestModificationError<M>>,
    key: u64,
) -> bool {
    outcome matches Err(ManifestModificationError::NotFound(missing)) && missing@ == key
}

/// Whether `outcome` reports a change made under the identifier `key`.
pub open spec fn is_done<M: Manifest>(
    outcome: Result<Id<M::Item>, ManifestModificationError<M>>,
    key: u64,
) -> bool {
    outcome matches Ok(id) && id@ == key
}

/// Whether `outcome` is what an attempt to file an item called `name` in
/// `items` reports.
pub open spec fn is_insert_outcome<M: Manifest>(
    items: Map<u64, M::Item>,
    name: Seq<char>,
    outcome: Result<Id<M::Item>, ManifestModificationError<M>>,
) -> bool {
    if items.contains_key(key_of_name(name)) {
        is_duplicate_name(outcome, name)
    } else {
        is_done(outcome, key_of_name(name))
    }
}

/// Whether `outcome` is what an attempt to remove what is filed under `key`
/// in `items` reports.
pub open spec fn is_remove_outcome<M: Manifest>(
    items: Map<u64, M::Item>,
    key: u64,
    outcome: Result<Id<M::Item>, ManifestModificationError<M>>,
) -> bool {
    if items.contains_key(key) {
        is_done(outcome, key)
    } else {
        is_not_found(outcome, key)
    }
}

/// A catalog that can be changed after it was built.
pub trait MutableManifest: Manifest {
    /// The name of an item, from which its identifier is computed.
    spec fn item_name(item: &Self::Item) -> NameView;

    /// Files `item` under the identifier of its name, unless that identifier
    /// is taken: then the catalog stays as it is and the name is reported.
    ///
    /// Two names with the same identifier count as the same name: the
    /// second of them is refused as a duplicate, so no item ever takes the
    /// place of another.
    fn insert(
        &mut self,
        item: Self::Item,
    ) -> (outcome: Result<Id<Self::Item>, ManifestModificationError<Self>>)
        ensures
            final(self).items() == inserted(
                old(self).items(),
                key_of_name(Self::item_name(&item)),
                item,
            ),
            is_insert_outcome(old(self).items(), Self::item_name(&item), outcome),
    ;

    /// Files `item` by [`insert`](MutableManifest::insert), unless the
    /// identifier of `name` is taken: then the catalog stays as it is and
    /// `name` is reported.
    fn insert_by_name(
        &mut self,
        name: &str,
        item: Self::Item,
    ) -> (outcome: Result<Id<Self::Item>, ManifestModificationError<Self>>)
        ensures
            old(self).items().contains_key(key_of_name(name@)) ==> final(self).items()
                == old(self).items(),
            old(self).items().contains_key(key_of_name(name@)) ==> is_duplicate_name(
                outcome,
                name@,
            ),
            !old(self).items().contains_key(key_of_name(name@)) ==> final(self).items()
                == inserted(old(self).items(), key_of_name(Self::item_name(&item)), item),
            !old(self).items().contains_key(key_of_name(name@)) ==> is_insert_outcome(
                old(self).items(),
                Self::item_name(&item),
                outcome,
            ),
    {
        let id = Id::from_name(name);
        if self.get(id).is_some() {
            Err(ManifestModificationError::DuplicateName(name.to_owned()))
        } else {
            self.insert(item)
        }
    }

    /// Removes what is filed under `id`; reports `NotFound` where nothing is.
    fn remove(
        &mut self,
        id: &Id<Self::Item>,
    ) -> (outcome: Result<Id<Self::Item>, ManifestModificationError<Self>>)
        ensures
            final(self).items() == removed(old(self).items(), id@),
            is_remove_outcome(old(self).items(), id@, outcome),
    ;

    /// Removes what is filed under the identifier of `name`.
    fn remove_by_name(
        &mut self,
        name: &str,
    ) -> (outcome: Result<Id<Self::Item>, ManifestModificationError<Self>>)
        ensures
            final(self).items() == removed(old(self).items(), key_of_name(name@)),
            is_remove_outcome(old(self).items(), key_of_name(name@), outcome),
    {
        self.remove(&Id::from_name(name))
    }

    /// The item filed under `id`, open to change, if there is one.
    fn get_mut(&mut self, id: Id<Self::Item>) -> (found: Option<&mut Self::Item>)
        ensures
            match found {
                Some(item) => lookup(old(self).items(), id@) == Some(*item) && final(self).items()
                    == old(self).items().insert(id@, *final(item)),
                None => lookup(old(self).items(), id@) is None && final(self).items()
                    == old(self).items(),
            },
    ;

    /// The item filed under the identifier of `name`, open to change, if
    /// there is one.
    fn get_mut_by_name(&mut self, name: &str) -> (found: Option<&mut Self::Item>)
        ensures
            match found {
                Some(item) => lookup(old(self).items(), key_of_name(name@)) == Some(*item)
                    && final(self).items() == old(self).items().insert(
                    key_of_name(name@),
                    *final(item),
                ),
                None => lookup(old(self).items(), key_of_name(name@)) is None
                    && final(self).items() == old(self).items(),
            },
    {
        self.get_mut(Id::from_name(name))
    }
}

/// An item that was filed is found under the identifier of its name, and
/// filing it changes what is found under no other identifier: what was
/// never filed stays absent.
pub proof fn law_get_after_insert<T>(items: Map<u64, T>, name: Seq<char>, item: T, other: u64)
    requires
        !items.contains_key(key_of_name(name)),
        other != key_of_name(name),
    ensures
        lookup(inserted(items, key_of_name(name), item), key_of_name(name)) == Some(item),
        lookup(inserted(items, key_of_name(name), item), other) == lookup(items, other),
{
}

/// Filing an item under a name that is taken changes nothing: the item
/// that had the name keeps it.
pub proof fn law_duplicate_insert_changes_nothing<T>(items: Map<u64, T>, name: Seq<char>, item: T)
    requires
        items.contains_key(key_of_name(name)),
    ensures
        inserted(items, key_of_name(name), item) == items,
        lookup(inserted(items, key_of_name(name), item), key_of_name(name)) == Some(
            items[key_of_name(name)],
        ),
{
}

/// After a removal nothing is found under the identifier that was removed,
/// and what is found under any other identifier is what was found before.
pub proof fn law_get_after_remove<T>(items: Map<u64, T>, key: u64, other: u64)
    requires
        other != key,
    ensures
        lookup(removed(items, key), key) is None,
        lookup(removed(items, key), other) == lookup(items, other),
{
}

/// Equal names have equal identifiers.
pub proof fn law_same_name_same_key(a: Seq<char>, b: Seq<char>)
    requires
        a == b,
    ensures
        key_of_name(a) == key_of_name(b),
{
}

} // verus!
