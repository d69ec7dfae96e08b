//! Entries of the static game-data cache, and the lookups shared by the
//! weapon caches.
use vstd::prelude::*;

use crate::model::{copy_opt_string, copy_string};
use crate::text::{lower_of, lowercase};

verus! {

/// A component of a craftable item, with the item it belongs to.
#[derive(Clone, Debug)]
pub struct CacheItemComponent {
    pub unique_name: String,
    pub name: String,
    pub part_of: Option<String>,
}

/// A weapon of the cache, with its components.
#[derive(Clone, Debug)]
pub struct CacheWeapon {
    pub unique_name: String,
    pub name: String,
    pub components: Vec<CacheItemComponent>,
}

pub type CacheMelee = CacheWeapon;

pub type CacheArchMelee = CacheWeapon;

/// A cosmetic skin.
#[derive(Clone, Debug)]
pub struct CacheSkin {
    pub unique_name: String,
    pub name: String,
}

impl CacheItemComponent {
    /// A field-for-field copy.
    pub fn copy(&self) -> (r: CacheItemComponent)
        ensures
            r == *self,
    {
        CacheItemComponent {
            unique_name: copy_string(&self.unique_name),
            name: copy_string(&self.name),
            part_of: copy_opt_string(&self.part_of),
        }
    }
}

impl CacheSkin {
    /// A field-for-field copy.
    pub fn copy(&self) -> (r: CacheSkin)
        ensures
            r == *self,
    {
        CacheSkin { unique_name: copy_string(&self.unique_name), name: copy_string(&self.name) }
    }
}

/// `a` and `b` are the same weapon, with the same components in order.
pub open spec fn same_weapon(a: CacheWeapon, b: CacheWeapon) -> bool {
    &&& a.unique_name == b.unique_name
    &&& a.name == b.name
    &&& a.components@ == b.components@
}

/// A copy of `v`, element for element.
pub fn copy_components(v: &Vec<CacheItemComponent>) -> (r: Vec<CacheItemComponent>)
    ensures
        r@ == v@,
{
    let mut r: Vec<CacheItemComponent> = Vec::new();
    let mut i: usize = 0;
    while i < v.len()
        invariant
            i <= v.len(),
            r@ == v@.take(i as int),
        decreases v.len() - i,
    {
        r.push(v[i].copy());
        i = i + 1;
        assert(r@ =~= v@.take(i as int));
    }
    assert(v@.take(v.len() as int) =~= v@);
    r
}

impl CacheWeapon {
    /// A copy; the components keep their order.
    pub fn copy(&self) -> (r: CacheWeapon)
        ensures
            same_weapon(r, *self),
    {
        CacheWeapon {
            unique_name: copy_string(&self.unique_name),
            name: copy_string(&self.name),
            components: copy_components(&self.components),
        }
    }
}

/// `k` is the first part of `parts` named `name`.
pub open spec fn part_slot(parts: Seq<CacheItemComponent>, name: Seq<char>, k: int) -> bool {
    &&& 0 <= k < parts.len()
    &&& parts[k].unique_name@ == name
    &&& forall|j: int| 0 <= j < k ==> #[trigger] parts[j].unique_name@ != name
}

/// `parts` with `p` stored under its unique name: in place of the part of
/// that name, or at the end.
pub open spec fn with_part(parts: Seq<CacheItemComponent>, p: CacheItemComponent) -> Seq<CacheItemComponent> {
    if exists|k: int| part_slot(parts, p.unique_name@, k) {
        parts.update(choose|k: int| part_slot(parts, p.unique_name@, k), p)
    } else {
        parts.push(p)
    }
}

/// `parts` with each of `ps` stored in turn.
pub open spec fn with_parts(parts: Seq<CacheItemComponent>, ps: Seq<CacheItemComponent>) -> Seq<
    CacheItemComponent,
>
    decreases ps.len(),
{
    if ps.len() == 0 {
        parts
    } else {
        with_part(with_parts(parts, ps.drop_last()), ps.last())
    }
}

/// A component as it is stored: with `tag`, marked as a part of `w`.
pub open spec fn stored_part(c: CacheItemComponent, w: CacheWeapon, tag: bool) -> CacheItemComponent {
    if tag {
        CacheItemComponent { part_of: Some(w.unique_name), ..c }
    } else {
        c
    }
}

pub open spec fn parts_of(w: CacheWeapon, tag: bool) -> Seq<CacheItemComponent> {
    w.components@.map_values(|c: CacheItemComponent| stored_part(c, w, tag))
}

/// The components of all `items`, in order, as they are stored.
pub open spec fn all_parts(items: Seq<CacheWeapon>, tag: bool) -> Seq<CacheItemComponent>
    decreases items.len(),
{
    if items.len() == 0 {
        Seq::empty()
    } else {
        all_parts(items.drop_last(), tag) + parts_of(items.last(), tag)
    }
}

/// The key a weapon name is compared by.
pub open spec fn name_key(s: Seq<char>, ignore_case: bool) -> Seq<char> {
    if ignore_case {
        lower_of(s)
    } else {
        s
    }
}

/// `k` is the first of `items` whose unique name is `id`.
pub open spec fn unique_slot(items: Seq<CacheWeapon>, id: Seq<char>, k: int) -> bool {
    &&& 0 <= k < items.len()
    &&& items[k].unique_name@ == id
    &&& forall|j: int| 0 <= j < k ==> #[trigger] items[j].unique_name@ != id
}

/// `k` is the first of `items` whose name matches `name`.
pub open spec fn name_slot(items: Seq<CacheWeapon>, name: Seq<char>, ignore_case: bool, k: int) -> bool {
    &&& 0 <= k < items.len()
    &&& name_key(items[k].name@, ignore_case) == name_key(name, ignore_case)
    &&& forall|j: int|
        0 <= j < k ==> name_key(#[trigger] items[j].name@, ignore_case) != name_key(name, ignore_case)
}

/// Stores `p` under its unique name, replacing the part of that name.
pub fn add_part_to(parts: &mut Vec<CacheItemComponent>, p: CacheItemComponent)
    ensures
        final(parts)@ == with_part(old(parts)@, p),
{
    let mut i: usize = 0;
    while i < parts.len()
        invariant
            i <= parts@.len(),
            parts@ == old(parts)@,
            forall|j: int| 0 <= j < i ==> #[trigger] parts@[j].unique_name@ != p.unique_name@,
        decreases parts@.len() - i,
    {
        if parts[i].unique_name == p.unique_name {
            proof {
                let c = choose|k: int| part_slot(parts@, p.unique_name@, k);
                assert(part_slot(parts@, p.unique_name@, i as int));
                assert(c == i) by {
                    if c < i {
                        assert(parts@[c].unique_name@ != p.unique_name@);
                    } else if i < c {
                        assert(parts@[i as int].unique_name@ != p.unique_name@);
                    }
                }
            }
            parts.set(i, p);
            return;
        }
        i = i + 1;
    }
    parts.push(p);
}

/// Stores the components of each of `items`, in order; with `tag`, each is
/// marked as a part of its weapon.
pub fn add_parts_of(parts: &mut Vec<CacheItemComponent>, items: &Vec<CacheWeapon>, tag: bool)
    ensures
        final(parts)@ == with_parts(old(parts)@, all_parts(items@, tag)),
{
    let mut i: usize = 0;
    while i < items.len()
        invariant
            i <= items@.len(),
            parts@ == with_parts(old(parts)@, all_parts(items@.take(i as int), tag)),
        decreases items@.len() - i,
    {
        let w = &items[i];
        let ghost done = all_parts(items@.take(i as int), tag);
        let mut j: usize = 0;
        while j < w.components.len()
            invariant
                j <= w.components@.len(),
                *w == items@[i as int],
                parts@ == with_parts(old(parts)@, done + parts_of(*w, tag).take(j as int)),
            decreases w.components@.len() - j,
        {
            let mut c = w.components[j].copy();
            if tag {
                c.part_of = Some(copy_string(&w.unique_name));
            }
            assert(c == stored_part(w.components@[j as int], *w, tag));
            add_part_to(parts, c);
            proof {
                let s = done + parts_of(*w, tag).take(j + 1);
                assert(s.drop_last() =~= done + parts_of(*w, tag).take(j as int));
                assert(s.last() == c);
            }
            j = j + 1;
        }
        proof {
            assert(parts_of(*w, tag).take(j as int) =~= parts_of(*w, tag));
            let t = items@.take(i + 1);
            assert(t.drop_last() =~= items@.take(i as int));
            assert(t.last() == *w);
        }
        i = i + 1;
    }
    assert(items@.take(items@.len() as int) =~= items@);
}

/// The first of `items` whose unique name is `id`.
pub fn find_by_unique_name(items: &Vec<CacheWeapon>, id: &str) -> (r: Option<CacheWeapon>)
    ensures
        r is None <==> forall|k: int| 0 <= k < items@.len() ==> #[trigger] items@[k].unique_name@ != id@,
        r matches Some(x) ==> exists|k: int| unique_slot(items@, id@, k) && same_weapon(x, items@[k]),
{
    let key = id.to_owned();
    let mut i: usize = 0;
    while i < items.len()
        invariant
            i <= items@.len(),
            key@ == id@,
            forall|j: int| 0 <= j < i ==> #[trigger] items@[j].unique_name@ != id@,
        decreases items@.len() - i,
    {
        if items[i].unique_name == key {
            assert(unique_slot(items@, id@, i as int));
            return Some(items[i].copy());
        }
        i = i + 1;
    }
    None
}

/// The first of `items` whose name is `name`, or, with `ignore_case`, whose
/// lowercase name is that of `name`.
pub fn find_by_name(items: &Vec<CacheWeapon>, name: &str, ignore_case: bool) -> (r: Option<CacheWeapon>)
    ensures
        r is None <==> forall|k: int|
            0 <= k < items@.len() ==> name_key(#[trigger] items@[k].name@, ignore_case) != name_key(
                name@,
                ignore_case,
            ),
        r matches Some(x) ==> exists|k: int|
            name_slot(items@, name@, ignore_case, k) && same_weapon(x, items@[k]),
{
    let key = if ignore_case {
        lowercase(name)
    } else {
        name.to_owned()
    };
    let mut i: usize = 0;
    while i < items.len()
        invariant
            i <= items@.len(),
            key@ == name_key(name@, ignore_case),
            forall|j: int|
                0 <= j < i ==> name_key(#[trigger] items@[j].name@, ignore_case) != name_key(
                    name@,
                    ignore_case,
                ),
        decreases items@.len() - i,
    {
        let found = if ignore_case {
            lowercase(items[i].name.as_str()) == key
        } else {
            items[i].name == key
        };
        if found {
            assert(name_slot(items@, name@, ignore_case, i as int));
            return Some(items[i].copy());
        }
        i = i + 1;
    }
    None
}

} // verus!
