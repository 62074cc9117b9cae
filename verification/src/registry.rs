//! The image registry: an insertion-ordered keyed store.
//!
//! Images are kept as `(key, image)` pairs where the key is the image's
//! composite `"name:tag"` form. Keys are unique and canonical (each key is
//! the composite tag of its own entry), which the spec functions below state
//! and every mutation preserves. A build upserts the entry for its own tag;
//! iteration order is the insertion order.

use vstd::prelude::*;
use vstd::pervasive::VecAdditionalExecFns;

use crate::entity::{composite_tag_view, Image, ImageV};

verus! {

/// The mathematical content of the registry vector.
pub open spec fn reg_model(v: Seq<(String, Image)>) -> Seq<(Seq<char>, ImageV)> {
    v.map_values(|p: (String, Image)| (p.0@, p.1@))
}

/// Whether some entry carries the key.
pub open spec fn reg_contains(s: Seq<(Seq<char>, ImageV)>, k: Seq<char>) -> bool {
    exists|i: int| 0 <= i < s.len() && s[i].0 == k
}

/// The index of the entry carrying the key (unique when keys are unique).
pub open spec fn reg_index_of(s: Seq<(Seq<char>, ImageV)>, k: Seq<char>) -> int {
    choose|i: int| 0 <= i < s.len() && s[i].0 == k
}

/// The image recorded under the key.
pub open spec fn reg_get(s: Seq<(Seq<char>, ImageV)>, k: Seq<char>) -> ImageV {
    s[reg_index_of(s, k)].1
}

/// No two entries carry the same key.
pub open spec fn reg_keys_unique(s: Seq<(Seq<char>, ImageV)>) -> bool {
    forall|i: int, j: int| 0 <= i < j < s.len() ==> s[i].0 != s[j].0
}

/// Every entry is keyed by its own image's composite tag.
pub open spec fn reg_keys_canonical(s: Seq<(Seq<char>, ImageV)>) -> bool {
    forall|i: int| 0 <= i < s.len() ==> s[i].0 == composite_tag_view(s[i].1.name, s[i].1.tag)
}

/// The registry invariant: unique, canonical keys.
pub open spec fn reg_wf(s: Seq<(Seq<char>, ImageV)>) -> bool {
    reg_keys_unique(s) && reg_keys_canonical(s)
}

/// Inserting under a key: replaces the entry carrying the key in place, or
/// appends a new entry.
pub open spec fn reg_upsert(s: Seq<(Seq<char>, ImageV)>, k: Seq<char>, v: ImageV) -> Seq<
    (Seq<char>, ImageV),
> {
    if reg_contains(s, k) {
        s.update(reg_index_of(s, k), (k, v))
    } else {
        s.push((k, v))
    }
}

/// With unique keys, any entry carrying the key is the entry `reg_index_of`
/// picks.
pub proof fn lemma_contains_at(s: Seq<(Seq<char>, ImageV)>, k: Seq<char>, i: int)
    requires
        reg_keys_unique(s),
        0 <= i < s.len(),
        s[i].0 == k,
    ensures
        reg_contains(s, k),
        reg_index_of(s, k) == i,
{
    assert(reg_contains(s, k));
    let j = reg_index_of(s, k);
    assert(0 <= j < s.len() && s[j].0 == k);
    if i < j {
        assert(s[i].0 != s[j].0);
    } else if j < i {
        assert(s[j].0 != s[i].0);
    }
}

/// Round trip: what was inserted under a key is what the key then yields.
/// Together with the contracts of `build_image` and `lookup_image`, this
/// says that an image built and then looked up by its exact composite tag
/// comes back equal to what the build produced.
pub proof fn lemma_upsert_get(s: Seq<(Seq<char>, ImageV)>, k: Seq<char>, v: ImageV)
    requires
        reg_keys_unique(s),
    ensures
        reg_contains(reg_upsert(s, k, v), k),
        reg_get(reg_upsert(s, k, v), k) == v,
{
    let t = reg_upsert(s, k, v);
    if reg_contains(s, k) {
        let i = reg_index_of(s, k);
        assert(0 <= i < s.len() && s[i].0 == k);
        assert(t[i] == (k, v));
        assert(forall|j: int| 0 <= j < t.len() && j != i ==> t[j] == s[j]);
        assert(reg_keys_unique(t));
        lemma_contains_at(t, k, i);
    } else {
        let i = s.len() as int;
        assert(t[i] == (k, v));
        assert(forall|j: int| 0 <= j < i ==> t[j] == s[j]);
        assert(reg_keys_unique(t)) by {
            assert(forall|j: int| 0 <= j < i ==> t[j].0 != k);
        }
        lemma_contains_at(t, k, i);
    }
}

/// Inserting under one key leaves what every other key yields unchanged.
pub proof fn lemma_upsert_frame(
    s: Seq<(Seq<char>, ImageV)>,
    k: Seq<char>,
    v: ImageV,
    k2: Seq<char>,
)
    requires
        reg_keys_unique(s),
        k2 != k,
    ensures
        reg_contains(reg_upsert(s, k, v), k2) <==> reg_contains(s, k2),
        reg_contains(s, k2) ==> reg_get(reg_upsert(s, k, v), k2) == reg_get(s, k2),
{
    let t = reg_upsert(s, k, v);
    if reg_contains(s, k) {
        let i = reg_index_of(s, k);
        assert(0 <= i < s.len() && s[i].0 == k);
        assert(forall|j: int| 0 <= j < t.len() && j != i ==> t[j] == s[j]);
        if reg_contains(s, k2) {
            let j2 = reg_index_of(s, k2);
            assert(0 <= j2 < s.len() && s[j2].0 == k2);
            assert(j2 != i);
            assert(reg_keys_unique(t));
            lemma_contains_at(t, k2, j2);
        }
        if reg_contains(t, k2) {
            let j2 = reg_index_of(t, k2);
            assert(0 <= j2 < t.len() && t[j2].0 == k2);
            assert(j2 != i);
            assert(s[j2].0 == k2);
        }
    } else {
        if reg_contains(s, k2) {
            let j2 = reg_index_of(s, k2);
            assert(0 <= j2 < s.len() && s[j2].0 == k2);
            assert(reg_keys_unique(t)) by {
                assert(forall|j: int| 0 <= j < s.len() ==> t[j].0 != k);
            }
            lemma_contains_at(t, k2, j2);
        }
        if reg_contains(t, k2) {
            let j2 = reg_index_of(t, k2);
            assert(0 <= j2 < t.len() && t[j2].0 == k2);
            assert(j2 < s.len());
        }
    }
}

/// Upserting a canonically keyed entry preserves the registry invariant.
pub proof fn lemma_upsert_wf(s: Seq<(Seq<char>, ImageV)>, k: Seq<char>, v: ImageV)
    requires
        reg_wf(s),
        k == composite_tag_view(v.name, v.tag),
    ensures
        reg_wf(reg_upsert(s, k, v)),
{
    let t = reg_upsert(s, k, v);
    if reg_contains(s, k) {
        let i = reg_index_of(s, k);
        assert(0 <= i < s.len() && s[i].0 == k);
        assert(forall|j: int| 0 <= j < t.len() && j != i ==> t[j] == s[j]);
        assert(reg_keys_unique(t));
        assert(reg_keys_canonical(t));
    } else {
        assert(forall|j: int| 0 <= j < s.len() ==> t[j] == s[j]);
        assert(forall|j: int| 0 <= j < s.len() ==> t[j].0 != k);
        assert(reg_keys_unique(t));
        assert(reg_keys_canonical(t));
    }
}

/// Finds the entry carrying the key, scanning in insertion order.
pub fn reg_find(images: &Vec<(String, Image)>, key: &String) -> (r: Option<usize>)
    ensures
        match r {
            Some(i) => i < images@.len() && reg_model(images@)[i as int].0 == key@,
            None => !reg_contains(reg_model(images@), key@),
        },
{
    let mut i: usize = 0;
    while i < images.len()
        invariant
            i <= images@.len(),
            forall|j: int| 0 <= j < i ==> reg_model(images@)[j].0 != key@,
        decreases images@.len() - i,
    {
        proof {
            assert(reg_model(images@)[i as int].0 == images@[i as int].0@);
        }
        let p = &images[i];
        if p.0 == *key {
            return Some(i);
        }
        i += 1;
    }
    None
}

/// Upserts the image under the key, preserving insertion order.
pub fn reg_upsert_exec(images: &mut Vec<(String, Image)>, key: String, image: Image)
    requires
        reg_keys_unique(reg_model(old(images)@)),
    ensures
        reg_model(final(images)@) == reg_upsert(reg_model(old(images)@), key@, image@),
{
    let ghost s = reg_model(images@);
    match reg_find(images, &key) {
        Some(i) => {
            proof {
                lemma_contains_at(s, key@, i as int);
            }
            images.set(i, (key, image));
            proof {
                assert(reg_model(images@) =~= s.update(reg_index_of(s, key@), (key@, image@)));
            }
        },
        None => {
            images.push((key, image));
            proof {
                assert(reg_model(images@) =~= s.push((key@, image@)));
            }
        },
    }
}

} // verus!
