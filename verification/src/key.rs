//! Keys of the loader's shared state: an asset type and an identifier or a path.
//! Asset types are told apart by a number the driver assigns to each type.
use vstd::prelude::*;

use crate::id::AssetId;

verus! {

/// Key of an asset requested by identifier.
#[derive(Clone, Copy, Debug, PartialEq, Eq, Structural, Hash)]
pub struct IdKey {
    pub type_id: u64,
    pub id: AssetId,
}

impl IdKey {
    /// Key of the asset of type `type_id` with identifier `asset`.
    pub fn new(type_id: u64, asset: AssetId) -> (r: IdKey)
        ensures
            r.type_id == type_id,
            r.id == asset,
    {
        IdKey { type_id, id: asset }
    }

    /// Whether this is the key of the asset of type `type_id` with identifier `asset`.
    pub fn eq_key(&self, type_id: u64, asset: AssetId) -> (r: bool)
        ensures
            r == (self.type_id == type_id && self.id@ == asset@),
    {
        self.type_id == type_id && self.id.get() == asset.get()
    }
}

/// Key of an asset requested by path.
#[derive(Debug)]
pub struct PathKey {
    pub type_id: u64,
    pub path: String,
}

impl Clone for PathKey {
    fn clone(&self) -> (r: Self)
        ensures
            r.type_id == self.type_id,
            r.path@ == self.path@,
    {
        PathKey { type_id: self.type_id, path: self.path.clone() }
    }
}

impl PathKey {
    /// Key of the asset of type `type_id` at `path`.
    pub fn new(type_id: u64, path: String) -> (r: PathKey)
        ensures
            r.type_id == type_id,
            r.path@ == path@,
    {
        PathKey { type_id, path }
    }

    /// Whether this is the key of the asset of type `type_id` at `path`.
    pub fn eq_key(&self, type_id: u64, path: &str) -> (r: bool)
        ensures
            r == (self.type_id == type_id && self.path@ == path@),
    {
        if self.type_id != type_id {
            return false;
        }
        crate::text::str_eq(self.path.as_str(), path)
    }
}

} // verus!
