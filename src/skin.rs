//! The cache of cosmetic skins.
use vstd::prelude::*;

use crate::cache_items::CacheSkin;
use crate::text::{lower_of, lowercase, remove_all, removed_of};

verus! {

/// The options of a lookup: which field to match (`"name"` or
/// `"unique_name"`), whether to ignore case, and a string to strip before
/// comparing.
#[derive(Clone, Debug)]
pub struct GetByArgs {
    pub item_by: Option<String>,
    pub case_insensitive: bool,
    pub remove_string: Option<String>,
}

/// Why a lookup was refused.
#[derive(Clone, Copy, Debug, PartialEq, Eq, Structural)]
pub enum CacheError {
    /// No field to match was given.
    MissingArgument,
    /// The field to match is neither `name` nor `unique_name`.
    InvalidBy,
}

/// The key a skin field is compared by: lowercased if asked, then with
/// `remove` taken out.
pub open spec fn skin_key(s: Seq<char>, case_insensitive: bool, remove: Option<String>) -> Seq<char> {
    let base = if case_insensitive {
        lower_of(s)
    } else {
        s
    };
    match remove {
        Some(r) => removed_of(base, r@),
        None => base,
    }
}

/// The field of `skin` that a lookup by name, or else by unique name, reads.
pub open spec fn skin_field(skin: CacheSkin, by_name: bool) -> Seq<char> {
    if by_name {
        skin.name@
    } else {
        skin.unique_name@
    }
}

/// `k` is the first skin whose key equals `input`.
pub open spec fn skin_slot(items: Seq<CacheSkin>, input: Seq<char>, by_name: bool, args: GetByArgs, k: int) -> bool {
    &&& 0 <= k < items.len()
    &&& skin_key(skin_field(items[k], by_name), args.case_insensitive, args.remove_string) == input
    &&& forall|j: int|
        0 <= j < k ==> skin_key(skin_field(#[trigger] items[j], by_name), args.case_insensitive, args.remove_string)
            != input
}

/// The key of `s` under the options given.
pub fn create_key(s: &str, case_insensitive: bool, remove: &Option<String>) -> (r: String)
    ensures
        r@ == skin_key(s@, case_insensitive, *remove),
{
    let base = if case_insensitive {
        lowercase(s)
    } else {
        s.to_owned()
    };
    match remove {
        Some(pat) => remove_all(base.as_str(), pat.as_str()),
        None => base,
    }
}

/// Skins.
pub struct SkinModule {
    pub items: Vec<CacheSkin>,
}

impl SkinModule {
    pub fn new() -> (r: SkinModule)
        ensures
            r.items@.len() == 0,
    {
        SkinModule { items: Vec::new() }
    }

    /// Takes `items` as the skins.
    pub fn load(&mut self, items: Vec<CacheSkin>)
        ensures
            final(self).items == items,
    {
        self.items = items;
    }

    /// The first skin whose name, or unique name, has the key `input` under
    /// the options of `by`.
    pub fn get_by(&self, input: &str, by: &GetByArgs) -> (r: Result<Option<CacheSkin>, CacheError>)
        ensures
            by.item_by is None ==> r == Err::<Option<CacheSkin>, CacheError>(CacheError::MissingArgument),
            by.item_by matches Some(m) ==> if m@ == "name"@ || m@ == "unique_name"@ {
                let by_name = m@ == "name"@;
                &&& r is Ok
                &&& r->Ok_0 is None <==> forall|k: int|
                    0 <= k < self.items@.len() ==> skin_key(
                        skin_field(#[trigger] self.items@[k], by_name),
                        by.case_insensitive,
                        by.remove_string,
                    ) != input@
                &&& r->Ok_0 matches Some(x) ==> exists|k: int|
                    skin_slot(self.items@, input@, by_name, *by, k) && x == self.items@[k]
            } else {
                r == Err::<Option<CacheSkin>, CacheError>(CacheError::InvalidBy)
            },
    {
        let mode = match &by.item_by {
            Some(m) => m,
            None => return Err(CacheError::MissingArgument),
        };
        let by_name = *mode == "name".to_owned();
        if !by_name && *mode != "unique_name".to_owned() {
            return Err(CacheError::InvalidBy);
        }
        let target = input.to_owned();
        let mut i: usize = 0;
        while i < self.items.len()
            invariant
                i <= self.items@.len(),
                target@ == input@,
                by.item_by == Some(*mode),
                by_name == (mode@ == "name"@),
                mode@ == "name"@ || mode@ == "unique_name"@,
                forall|j: int|
                    0 <= j < i ==> skin_key(
                        skin_field(#[trigger] self.items@[j], by_name),
                        by.case_insensitive,
                        by.remove_string,
                    ) != input@,
            decreases self.items@.len() - i,
        {
            let skin = &self.items[i];
            let field = if by_name {
                skin.name.as_str()
            } else {
                skin.unique_name.as_str()
            };
            if create_key(field, by.case_insensitive, &by.remove_string) == target {
                assert(skin_slot(self.items@, input@, by_name, *by, i as int));
                return Ok(Some(skin.copy()));
            }
            i = i + 1;
        }
        Ok(None)
    }
}

} // verus!
