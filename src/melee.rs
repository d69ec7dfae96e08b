//! The cache of melee weapons and of their components.
use vstd::prelude::*;

use crate::cache_items::{
    add_parts_of, all_parts, copy_components, find_by_name, find_by_unique_name,
    name_slot, name_key, same_weapon, unique_slot, with_parts, CacheItemComponent,
    CacheMelee,
};

verus! {

/// Melee weapons, and their components keyed by unique name; each component
/// is marked as a part of its weapon.
pub struct MeleeModule {
    pub items: Vec<CacheMelee>,
    pub parts: Vec<CacheItemComponent>,
}

impl MeleeModule {
    pub fn new() -> (r: MeleeModule)
        ensures
            r.items@.len() == 0,
            r.parts@.len() == 0,
    {
        MeleeModule { items: Vec::new(), parts: Vec::new() }
    }

    /// Takes `items` as the weapons, and stores the components of each,
    /// marked as its parts.
    pub fn load(&mut self, items: Vec<CacheMelee>)
        ensures
            final(self).items == items,
            final(self).parts@ == with_parts(old(self).parts@, all_parts(items@, true)),
    {
        self.items = items;
        add_parts_of(&mut self.parts, &self.items, true);
    }

    /// All stored components.
    pub fn get_parts(&self) -> (r: Vec<CacheItemComponent>)
        ensures
            r@ == self.parts@,
    {
        copy_components(&self.parts)
    }

    /// The first weapon whose unique name is `id`.
    pub fn get_by_unique_name(&self, id: &str) -> (r: Option<CacheMelee>)
        ensures
            r is None <==> forall|k: int|
                0 <= k < self.items@.len() ==> #[trigger] self.items@[k].unique_name@ != id@,
            r matches Some(x) ==> exists|k: int|
                unique_slot(self.items@, id@, k) && same_weapon(x, self.items@[k]),
    {
        find_by_unique_name(&self.items, id)
    }

    /// The first weapon named `name`, with or without regard to case.
    pub fn get_by_name(&self, name: &str, ignore_case: bool) -> (r: Option<CacheMelee>)
        ensures
            r is None <==> forall|k: int|
                0 <= k < self.items@.len() ==> name_key(#[trigger] self.items@[k].name@, ignore_case)
                    != name_key(name@, ignore_case),
            r matches Some(x) ==> exists|k: int|
                name_slot(self.items@, name@, ignore_case, k) && same_weapon(x, self.items@[k]),
    {
        find_by_name(&self.items, name, ignore_case)
    }
}

} // verus!
