//! The device snapshot model: a mapping from trait namespace to a group of
//! named values, as last reported by the provider. Every extraction is
//! optional; a missing trait or field is never an error.
//!
//! Numeric values travel as millidegrees (or milli-percent): the caller
//! converts the provider's decimal numbers to thousandths at the boundary.

use vstd::prelude::*;
use vstd::std_specs::vec::vec_index;
use vstd::string::StringExecFns;

verus! {

/// One value inside a trait: free-form text, or a number in thousandths.
pub enum FieldValue {
    Text(String),
    Milli(i64),
}

/// One named value of a trait.
pub struct Field {
    pub key: String,
    pub value: FieldValue,
}

/// One trait: its full namespace name and its values.
pub struct TraitEntry {
    pub name: String,
    pub fields: Vec<Field>,
}

/// A read-only snapshot of everything a device last reported.
pub struct DeviceState {
    pub traits: Vec<TraitEntry>,
}

/// One device as returned by a listing: its full name, its type, and its
/// trait snapshot, each as far as the provider reported them.
pub struct DeviceInfo {
    pub name: Option<String>,
    pub kind: Option<String>,
    pub state: DeviceState,
}

/// The first trait whose name equals `name`, if any.
pub open spec fn find_trait(ts: Seq<TraitEntry>, name: Seq<char>) -> Option<TraitEntry>
    decreases ts.len(),
{
    if ts.len() == 0 {
        None
    } else if ts[0].name@ == name {
        Some(ts[0])
    } else {
        find_trait(ts.subrange(1, ts.len() as int), name)
    }
}

/// The value of the first field whose key equals `key`, if any.
pub open spec fn find_field(fs: Seq<Field>, key: Seq<char>) -> Option<FieldValue>
    decreases fs.len(),
{
    if fs.len() == 0 {
        None
    } else if fs[0].key@ == key {
        Some(fs[0].value)
    } else {
        find_field(fs.subrange(1, fs.len() as int), key)
    }
}

/// The full namespace name of a trait: `sdm.devices.traits.<ns>`.
pub open spec fn trait_full_name(ns: Seq<char>) -> Seq<char> {
    "sdm.devices.traits."@ + ns
}

/// The value stored under trait namespace `ns` and key `key`, if any.
pub open spec fn trait_field(state: DeviceState, ns: Seq<char>, key: Seq<char>) -> Option<
    FieldValue,
> {
    match find_trait(state.traits@, trait_full_name(ns)) {
        None => None,
        Some(t) => find_field(t.fields@, key),
    }
}

proof fn lemma_find_trait_skip(ts: Seq<TraitEntry>, name: Seq<char>, i: int)
    requires
        0 <= i <= ts.len(),
        forall|k: int| 0 <= k < i ==> ts[k].name@ != name,
    ensures
        find_trait(ts, name) == find_trait(ts.subrange(i, ts.len() as int), name),
    decreases i,
{
    if i == 0 {
        assert(ts.subrange(0, ts.len() as int) =~= ts);
    } else {
        let t = ts.subrange(1, ts.len() as int);
        lemma_find_trait_skip(t, name, i - 1);
        assert(t.subrange(i - 1, t.len() as int) =~= ts.subrange(i, ts.len() as int));
    }
}

proof fn lemma_find_field_skip(fs: Seq<Field>, key: Seq<char>, i: int)
    requires
        0 <= i <= fs.len(),
        forall|k: int| 0 <= k < i ==> fs[k].key@ != key,
    ensures
        find_field(fs, key) == find_field(fs.subrange(i, fs.len() as int), key),
    decreases i,
{
    if i == 0 {
        assert(fs.subrange(0, fs.len() as int) =~= fs);
    } else {
        let t = fs.subrange(1, fs.len() as int);
        lemma_find_field_skip(t, key, i - 1);
        assert(t.subrange(i - 1, t.len() as int) =~= fs.subrange(i, fs.len() as int));
    }
}

impl DeviceState {
    /// Looks up the trait stored under `sdm.devices.traits.<ns>`.
    pub fn get_trait<'a>(&'a self, ns: &str) -> (r: Option<&'a TraitEntry>)
        ensures
            r is Some <==> find_trait(self.traits@, trait_full_name(ns@)) is Some,
            r is Some ==> *r->0 == find_trait(self.traits@, trait_full_name(ns@))->0,
    {
        let full = String::from_str("sdm.devices.traits.").concat(ns);
        let n = self.traits.len();
        let mut i: usize = 0;
        while i < n
            invariant
                i <= n,
                n == self.traits@.len(),
                full@ == trait_full_name(ns@),
                forall|k: int| 0 <= k < i ==> self.traits@[k].name@ != trait_full_name(ns@),
            decreases n - i,
        {
            let t = vec_index(&self.traits, i);
            if t.name == full {
                proof {
                    lemma_find_trait_skip(self.traits@, full@, i as int);
                    assert(self.traits@.subrange(i as int, n as int)[0] == self.traits@[i as int]);
                }
                return Some(t);
            }
            i += 1;
        }
        proof {
            lemma_find_trait_skip(self.traits@, full@, n as int);
        }
        None
    }

    /// Looks up one value: trait namespace `ns`, field `key`.
    pub fn get_trait_field<'a>(&'a self, ns: &str, key: &str) -> (r: Option<&'a FieldValue>)
        ensures
            r is Some <==> trait_field(*self, ns@, key@) is Some,
            r is Some ==> *r->0 == trait_field(*self, ns@, key@)->0,
    {
        let entry = match self.get_trait(ns) {
            Some(t) => t,
            None => {
                return None;
            },
        };
        let key_owned = String::from_str(key);
        let n = entry.fields.len();
        let mut i: usize = 0;
        while i < n
            invariant
                i <= n,
                n == entry.fields@.len(),
                key_owned@ == key@,
                *entry == find_trait(self.traits@, trait_full_name(ns@))->0,
                find_trait(self.traits@, trait_full_name(ns@)) is Some,
                forall|k: int| 0 <= k < i ==> entry.fields@[k].key@ != key@,
            decreases n - i,
        {
            let f = vec_index(&entry.fields, i);
            if f.key == key_owned {
                proof {
                    lemma_find_field_skip(entry.fields@, key@, i as int);
                    assert(entry.fields@.subrange(i as int, n as int)[0] == entry.fields@[i as int]);
                }
                return Some(&f.value);
            }
            i += 1;
        }
        proof {
            lemma_find_field_skip(entry.fields@, key@, n as int);
        }
        None
    }
}

} // verus!
