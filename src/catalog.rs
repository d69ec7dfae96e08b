//! The read-only item catalog that every new entry is validated against.
use vstd::prelude::*;

use crate::model::{RivenAttribute, SubType};

verus! {

/// A tradeable item: its marketplace identifiers, the highest rank it can
/// have, and the named variants it comes in.
#[derive(Clone, Debug)]
pub struct CatalogItem {
    pub wfm_id: String,
    pub url_name: String,
    pub name: String,
    pub unique_name: String,
    pub max_rank: u64,
    pub variants: Vec<String>,
}

/// A weapon that rivens can be rolled for.
#[derive(Clone, Debug)]
pub struct RivenWeapon {
    pub wfm_id: String,
    pub url_name: String,
    pub name: String,
    pub riven_type: String,
    pub unique_name: String,
}

/// The catalog: plain items, riven weapons and the identifiers of the
/// attributes a riven can roll.
#[derive(Clone, Debug)]
pub struct ItemCatalog {
    pub items: Vec<CatalogItem>,
    pub riven_weapons: Vec<RivenWeapon>,
    pub riven_attributes: Vec<String>,
}

/// Some string of `names` reads `n`.
pub open spec fn has_name(names: Seq<String>, n: Seq<char>) -> bool {
    exists|i: int| 0 <= i < names.len() && names[i]@ == n
}

/// `sub` is a rank and variant that `item` has.
pub open spec fn sub_type_valid(item: CatalogItem, sub: Option<SubType>) -> bool {
    match sub {
        None => true,
        Some(s) => {
            &&& (s.rank matches Some(r) ==> r <= item.max_rank)
            &&& (s.variant matches Some(v) ==> has_name(item.variants@, v@))
        },
    }
}

/// Every attribute of `attrs` is one the catalog knows.
pub open spec fn attributes_known(c: ItemCatalog, attrs: Seq<RivenAttribute>) -> bool {
    forall|i: int| 0 <= i < attrs.len() ==> has_name(c.riven_attributes@, #[trigger] attrs[i].url_name@)
}

impl ItemCatalog {
    /// `k` is the first item whose url name reads `url`.
    pub open spec fn item_at(self, url: Seq<char>, k: int) -> bool {
        &&& 0 <= k < self.items@.len()
        &&& self.items@[k].url_name@ == url
        &&& forall|j: int| 0 <= j < k ==> #[trigger] self.items@[j].url_name@ != url
    }

    pub open spec fn knows_item(self, url: Seq<char>) -> bool {
        exists|k: int| 0 <= k < self.items@.len() && self.items@[k].url_name@ == url
    }

    /// The item that `url` resolves to.
    pub open spec fn item_of(self, url: Seq<char>) -> CatalogItem {
        self.items@[choose|k: int| self.item_at(url, k)]
    }

    /// `url` and `sub` resolve to a catalog item.
    pub open spec fn resolves(self, url: Seq<char>, sub: Option<SubType>) -> bool {
        self.knows_item(url) && sub_type_valid(self.item_of(url), sub)
    }

    /// `k` is the first riven weapon whose url name reads `url`.
    pub open spec fn weapon_at(self, url: Seq<char>, k: int) -> bool {
        &&& 0 <= k < self.riven_weapons@.len()
        &&& self.riven_weapons@[k].url_name@ == url
        &&& forall|j: int| 0 <= j < k ==> #[trigger] self.riven_weapons@[j].url_name@ != url
    }

    pub open spec fn knows_weapon(self, url: Seq<char>) -> bool {
        exists|k: int| 0 <= k < self.riven_weapons@.len() && self.riven_weapons@[k].url_name@ == url
    }

    pub open spec fn weapon_of(self, url: Seq<char>) -> RivenWeapon {
        self.riven_weapons@[choose|k: int| self.weapon_at(url, k)]
    }

    pub proof fn lemma_item_at_unique(self, url: Seq<char>, k: int)
        requires
            self.item_at(url, k),
        ensures
            self.knows_item(url),
            self.item_of(url) == self.items@[k],
    {
        let c = choose|k: int| self.item_at(url, k);
        assert(self.item_at(url, c));
        assert(c == k) by {
            if c < k {
                assert(self.items@[c].url_name@ != url);
            } else if k < c {
                assert(self.items@[k].url_name@ != url);
            }
        }
    }

    pub proof fn lemma_weapon_at_unique(self, url: Seq<char>, k: int)
        requires
            self.weapon_at(url, k),
        ensures
            self.knows_weapon(url),
            self.weapon_of(url) == self.riven_weapons@[k],
    {
        let c = choose|k: int| self.weapon_at(url, k);
        assert(self.weapon_at(url, c));
        assert(c == k) by {
            if c < k {
                assert(self.riven_weapons@[c].url_name@ != url);
            } else if k < c {
                assert(self.riven_weapons@[k].url_name@ != url);
            }
        }
    }

    /// Resolves an item identifier: the first catalog item that carries it.
    pub fn find_item(&self, url: &String) -> (r: Option<&CatalogItem>)
        ensures
            r.is_some() == self.knows_item(url@),
            r.is_some() ==> *r.unwrap() == self.item_of(url@),
    {
        let mut i: usize = 0;
        while i < self.items.len()
            invariant
                i <= self.items@.len(),
                forall|j: int| 0 <= j < i ==> #[trigger] self.items@[j].url_name@ != url@,
            decreases self.items@.len() - i,
        {
            if self.items[i].url_name == *url {
                proof {
                    self.lemma_item_at_unique(url@, i as int);
                }
                return Some(&self.items[i]);
            }
            i = i + 1;
        }
        None
    }

    /// Resolves a riven weapon identifier.
    pub fn find_weapon(&self, url: &String) -> (r: Option<&RivenWeapon>)
        ensures
            r.is_some() == self.knows_weapon(url@),
            r.is_some() ==> *r.unwrap() == self.weapon_of(url@),
    {
        let mut i: usize = 0;
        while i < self.riven_weapons.len()
            invariant
                i <= self.riven_weapons@.len(),
                forall|j: int| 0 <= j < i ==> #[trigger] self.riven_weapons@[j].url_name@ != url@,
            decreases self.riven_weapons@.len() - i,
        {
            if self.riven_weapons[i].url_name == *url {
                proof {
                    self.lemma_weapon_at_unique(url@, i as int);
                }
                return Some(&self.riven_weapons[i]);
            }
            i = i + 1;
        }
        None
    }

    /// The catalog knows the riven attribute `url`.
    pub fn knows_attribute(&self, url: &String) -> (r: bool)
        ensures
            r == has_name(self.riven_attributes@, url@),
    {
        contains_name(&self.riven_attributes, url)
    }

    /// Every attribute of `attrs` is known to the catalog.
    pub fn validate_attributes(&self, attrs: &Vec<RivenAttribute>) -> (r: bool)
        ensures
            r == attributes_known(*self, attrs@),
    {
        let mut i: usize = 0;
        while i < attrs.len()
            invariant
                i <= attrs@.len(),
                forall|j: int|
                    0 <= j < i ==> has_name(self.riven_attributes@, #[trigger] attrs@[j].url_name@),
            decreases attrs@.len() - i,
        {
            if !self.knows_attribute(&attrs[i].url_name) {
                return false;
            }
            i = i + 1;
        }
        true
    }

    /// Validates an item identifier and sub-type together.
    pub fn resolve(&self, url: &String, sub: &Option<SubType>) -> (r: Option<&CatalogItem>)
        ensures
            r.is_some() == self.resolves(url@, *sub),
            r.is_some() ==> *r.unwrap() == self.item_of(url@),
    {
        match self.find_item(url) {
            None => None,
            Some(item) => {
                let ok = match sub {
                    None => true,
                    Some(s) => {
                        let rank_ok = match s.rank {
                            Some(r) => r <= item.max_rank,
                            None => true,
                        };
                        let variant_ok = match &s.variant {
                            Some(v) => contains_name(&item.variants, v),
                            None => true,
                        };
                        rank_ok && variant_ok
                    },
                };
                if ok {
                    Some(item)
                } else {
                    None
                }
            },
        }
    }
}

/// Some string of `names` equals `n`.
pub fn contains_name(names: &Vec<String>, n: &String) -> (r: bool)
    ensures
        r == has_name(names@, n@),
{
    let mut i: usize = 0;
    while i < names.len()
        invariant
            i <= names@.len(),
            forall|j: int| 0 <= j < i ==> #[trigger] names@[j]@ != n@,
        decreases names@.len() - i,
    {
        if names[i] == *n {
            return true;
        }
        i = i + 1;
    }
    false
}

} // verus!
