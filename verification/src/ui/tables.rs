//! Small keyed tables of the UI state, held in vectors whose keys are unique.
#![verifier::loop_isolation(false)]
use vstd::prelude::*;

use crate::text::str_eq;
use crate::ui::RequestKey;

verus! {

/// Set of request keys held by a duplicate-free vector.
pub open spec fn key_set(v: Seq<RequestKey>) -> Set<RequestKey> {
    Set::new(|k: RequestKey| v.contains(k))
}

/// Set of names held by a vector whose names are pairwise distinct.
pub open spec fn name_set(v: Seq<String>) -> Set<Seq<char>> {
    Set::new(|s: Seq<char>| exists|i: int| 0 <= i < v.len() && #[trigger] v[i]@ == s)
}

pub open spec fn names_unique(v: Seq<String>) -> bool {
    forall|i: int, j: int| 0 <= i < v.len() && 0 <= j < v.len() && i != j ==> v[i]@ != v[j]@
}

pub open spec fn has_name(v: Seq<(String, u32)>, k: Seq<char>) -> bool {
    exists|i: int| 0 <= i < v.len() && #[trigger] v[i].0@ == k
}

pub open spec fn name_index(v: Seq<(String, u32)>, k: Seq<char>) -> int {
    choose|i: int| 0 <= i < v.len() && #[trigger] v[i].0@ == k
}

/// Map from names to numbers held by a vector whose names are pairwise distinct.
pub open spec fn name_map(v: Seq<(String, u32)>) -> Map<Seq<char>, u32> {
    Map::new(|k: Seq<char>| has_name(v, k), |k: Seq<char>| v[name_index(v, k)].1)
}

pub open spec fn pair_names_unique(v: Seq<(String, u32)>) -> bool {
    forall|i: int, j: int| 0 <= i < v.len() && 0 <= j < v.len() && i != j ==> v[i].0@ != v[j].0@
}

pub open spec fn has_id(v: Seq<(u64, RequestKey)>, id: u64) -> bool {
    exists|i: int| 0 <= i < v.len() && #[trigger] v[i].0 == id
}

pub open spec fn id_index(v: Seq<(u64, RequestKey)>, id: u64) -> int {
    choose|i: int| 0 <= i < v.len() && #[trigger] v[i].0 == id
}

/// Map from request ids to request keys held by a vector of distinct ids.
pub open spec fn id_map(v: Seq<(u64, RequestKey)>) -> Map<u64, RequestKey> {
    Map::new(|id: u64| has_id(v, id), |id: u64| v[id_index(v, id)].1)
}

pub open spec fn ids_unique(v: Seq<(u64, RequestKey)>) -> bool {
    forall|i: int, j: int| 0 <= i < v.len() && 0 <= j < v.len() && i != j ==> v[i].0 != v[j].0
}

pub open spec fn has_key(v: Seq<(RequestKey, u64)>, k: RequestKey) -> bool {
    exists|i: int| 0 <= i < v.len() && #[trigger] v[i].0 == k
}

pub open spec fn key_index(v: Seq<(RequestKey, u64)>, k: RequestKey) -> int {
    choose|i: int| 0 <= i < v.len() && #[trigger] v[i].0 == k
}

/// Map from request keys to request ids held by a vector of distinct keys.
pub open spec fn key_map(v: Seq<(RequestKey, u64)>) -> Map<RequestKey, u64> {
    Map::new(|k: RequestKey| has_key(v, k), |k: RequestKey| v[key_index(v, k)].1)
}

pub open spec fn keys_unique(v: Seq<(RequestKey, u64)>) -> bool {
    forall|i: int, j: int| 0 <= i < v.len() && 0 <= j < v.len() && i != j ==> v[i].0 != v[j].0
}

pub fn key_set_contains(v: &Vec<RequestKey>, k: RequestKey) -> (r: bool)
    ensures
        r == key_set(v@).contains(k),
{
    let mut i: usize = 0;
    while i < v.len()
        invariant
            i <= v.len(),
            forall|j: int| 0 <= j < i ==> v@[j] != k,
        decreases v.len() - i,
    {
        if v[i] == k {
            assert(v@.contains(k));
            return true;
        }
        i = i + 1;
    }
    false
}

pub fn key_set_insert(v: &mut Vec<RequestKey>, k: RequestKey)
    requires
        old(v)@.no_duplicates(),
    ensures
        final(v)@.no_duplicates(),
        key_set(final(v)@) == key_set(old(v)@).insert(k),
{
    if !key_set_contains(v, k) {
        v.push(k);
        assert(v@.last() == k);
    }
    assert(key_set(v@) =~= key_set(old(v)@).insert(k)) by {
        assert forall|x: RequestKey| #[trigger] key_set(v@).contains(x) == key_set(
            old(v)@,
        ).insert(k).contains(x) by {
            if v@.len() > old(v)@.len() {
                assert(v@ == old(v)@.push(k));
                if old(v)@.contains(x) {
                    let i = choose|i: int| 0 <= i < old(v)@.len() && old(v)@[i] == x;
                    assert(v@[i] == x);
                }
                if v@.contains(x) && x != k {
                    let i = choose|i: int| 0 <= i < v@.len() && v@[i] == x;
                    assert(old(v)@[i] == x);
                }
            }
        }
    }
}

pub fn key_set_remove(v: &mut Vec<RequestKey>, k: RequestKey)
    requires
        old(v)@.no_duplicates(),
    ensures
        final(v)@.no_duplicates(),
        key_set(final(v)@) == key_set(old(v)@).remove(k),
{
    let mut i: usize = 0;
    while i < v.len()
        invariant
            i <= v.len(),
            v@ == old(v)@,
            forall|j: int| 0 <= j < i ==> v@[j] != k,
        decreases v.len() - i,
    {
        if v[i] == k {
            let ghost before = v@;
            v.remove(i);
            assert(v@ == before.remove(i as int));
            assert(v@.no_duplicates()) by {
                assert forall|a: int, b: int| 0 <= a < v@.len() && 0 <= b < v@.len() && a != b
                    implies v@[a] != v@[b] by {
                    let a2 = if a < i { a } else { a + 1 };
                    let b2 = if b < i { b } else { b + 1 };
                    assert(v@[a] == before[a2] && v@[b] == before[b2]);
                }
            }
            assert(key_set(v@) =~= key_set(before).remove(k)) by {
                assert forall|x: RequestKey| #[trigger] key_set(v@).contains(x) == key_set(
                    before,
                ).remove(k).contains(x) by {
                    if v@.contains(x) {
                        let a = choose|a: int| 0 <= a < v@.len() && v@[a] == x;
                        if a < i {
                            assert(before[a] == x);
                        } else {
                            assert(before[a + 1] == x);
                        }
                    }
                    if before.contains(x) && x != k {
                        let a = choose|a: int| 0 <= a < before.len() && before[a] == x;
                        if a < i {
                            assert(v@[a] == x);
                        } else {
                            assert(a != i);
                            assert(v@[a - 1] == x);
                        }
                    }
                }
            }
            return;
        }
        i = i + 1;
    }
    assert(key_set(v@) =~= key_set(old(v)@).remove(k));
}

pub fn name_set_contains(v: &Vec<String>, s: &str) -> (r: bool)
    ensures
        r == name_set(v@).contains(s@),
{
    let mut i: usize = 0;
    while i < v.len()
        invariant
            i <= v.len(),
            forall|j: int| 0 <= j < i ==> v@[j]@ != s@,
        decreases v.len() - i,
    {
        if str_eq(v[i].as_str(), s) {
            assert(v@[i as int]@ == s@);
            return true;
        }
        i = i + 1;
    }
    false
}

pub fn name_set_insert(v: &mut Vec<String>, s: String)
    requires
        names_unique(old(v)@),
    ensures
        names_unique(final(v)@),
        name_set(final(v)@) == name_set(old(v)@).insert(s@),
{
    if !name_set_contains(v, s.as_str()) {
        let ghost sv = s@;
        v.push(s);
        assert(v@.last()@ == sv);
        assert(name_set(v@) =~= name_set(old(v)@).insert(sv)) by {
            assert forall|x: Seq<char>| #[trigger] name_set(v@).contains(x) == name_set(
                old(v)@,
            ).insert(sv).contains(x) by {
                if name_set(old(v)@).contains(x) {
                    let i = choose|i: int| 0 <= i < old(v)@.len() && old(v)@[i]@ == x;
                    assert(v@[i]@ == x);
                }
                if name_set(v@).contains(x) && x != sv {
                    let i = choose|i: int| 0 <= i < v@.len() && v@[i]@ == x;
                    assert(old(v)@[i]@ == x);
                }
            }
        }
    } else {
        assert(name_set(v@) =~= name_set(old(v)@).insert(s@));
    }
}

pub fn name_set_remove(v: &mut Vec<String>, s: &str)
    requires
        names_unique(old(v)@),
    ensures
        names_unique(final(v)@),
        name_set(final(v)@) == name_set(old(v)@).remove(s@),
{
    let mut i: usize = 0;
    while i < v.len()
        invariant
            i <= v.len(),
            v@ == old(v)@,
            forall|j: int| 0 <= j < i ==> v@[j]@ != s@,
        decreases v.len() - i,
    {
        if str_eq(v[i].as_str(), s) {
            let ghost before = v@;
            v.remove(i);
            assert(v@ == before.remove(i as int));
            assert(names_unique(v@)) by {
                assert forall|a: int, b: int| 0 <= a < v@.len() && 0 <= b < v@.len() && a != b
                    implies v@[a]@ != v@[b]@ by {
                    let a2 = if a < i { a } else { a + 1 };
                    let b2 = if b < i { b } else { b + 1 };
                    assert(v@[a] == before[a2] && v@[b] == before[b2]);
                }
            }
            assert(name_set(v@) =~= name_set(before).remove(s@)) by {
                assert forall|x: Seq<char>| #[trigger] name_set(v@).contains(x) == name_set(
                    before,
                ).remove(s@).contains(x) by {
                    if name_set(v@).contains(x) {
                        let a = choose|a: int| 0 <= a < v@.len() && v@[a]@ == x;
                        if a < i {
                            assert(before[a]@ == x);
                        } else {
                            assert(before[a + 1]@ == x);
                        }
                    }
                    if name_set(before).contains(x) && x != s@ {
                        let a = choose|a: int| 0 <= a < before.len() && before[a]@ == x;
                        if a < i {
                            assert(v@[a]@ == x);
                        } else {
                            assert(a != i);
                            assert(v@[a - 1]@ == x);
                        }
                    }
                }
            }
            return;
        }
        i = i + 1;
    }
    assert(name_set(v@) =~= name_set(old(v)@).remove(s@));
}

pub fn name_map_get(v: &Vec<(String, u32)>, s: &str) -> (r: Option<u32>)
    requires
        pair_names_unique(v@),
    ensures
        r is Some <==> name_map(v@).dom().contains(s@),
        r matches Some(d) ==> d == name_map(v@)[s@],
{
    let mut i: usize = 0;
    while i < v.len()
        invariant
            i <= v.len(),
            forall|j: int| 0 <= j < i ==> v@[j].0@ != s@,
        decreases v.len() - i,
    {
        if str_eq(v[i].0.as_str(), s) {
            assert(v@[i as int].0@ == s@);
            assert(has_name(v@, s@));
            let ghost k = name_index(v@, s@);
            assert(k == i);
            return Some(v[i].1);
        }
        i = i + 1;
    }
    None
}

pub fn name_map_insert(v: &mut Vec<(String, u32)>, s: String, d: u32)
    requires
        pair_names_unique(old(v)@),
    ensures
        pair_names_unique(final(v)@),
        name_map(final(v)@) == name_map(old(v)@).insert(s@, d),
{
    let ghost sv = s@;
    let mut i: usize = 0;
    while i < v.len()
        invariant
            i <= v.len(),
            v@ == old(v)@,
            sv == s@,
            forall|j: int| 0 <= j < i ==> v@[j].0@ != sv,
        decreases v.len() - i,
    {
        if v[i].0 == s {
            let ghost before = v@;
            v.set(i, (s, d));
            assert(v@ == before.update(i as int, v@[i as int]));
            assert(name_map(v@) =~= name_map(before).insert(sv, d)) by {
                assert forall|x: Seq<char>| #[trigger] has_name(v@, x) == (has_name(before, x)
                    || x == sv) by {
                    if has_name(before, x) {
                        let a = choose|a: int| 0 <= a < before.len() && before[a].0@ == x;
                        if a == i {
                            assert(v@[a].0@ == sv);
                        } else {
                            assert(v@[a].0@ == x);
                        }
                    }
                    if x == sv {
                        assert(v@[i as int].0@ == x);
                    }
                    if has_name(v@, x) {
                        let a = choose|a: int| 0 <= a < v@.len() && v@[a].0@ == x;
                        if a != i {
                            assert(before[a].0@ == x);
                        }
                    }
                }
                assert forall|x: Seq<char>| #[trigger] has_name(v@, x) implies name_map(v@)[x]
                    == name_map(before).insert(sv, d)[x] by {
                    let a = name_index(v@, x);
                    if x == sv {
                        assert(v@[i as int].0@ == x);
                    } else {
                        let b = name_index(before, x);
                        assert(before[b].0@ == x);
                        assert(b != i);
                        assert(v@[b].0@ == x);
                    }
                }
            }
            return;
        }
        i = i + 1;
    }
    let ghost before = v@;
    v.push((s, d));
    assert(name_map(v@) =~= name_map(before).insert(sv, d)) by {
        let n = before.len() as int;
        assert(v@[n].0@ == sv);
        assert forall|x: Seq<char>| #[trigger] has_name(v@, x) == (has_name(before, x) || x
            == sv) by {
            if has_name(before, x) {
                let a = choose|a: int| 0 <= a < before.len() && before[a].0@ == x;
                assert(v@[a].0@ == x);
            }
            if has_name(v@, x) {
                let a = choose|a: int| 0 <= a < v@.len() && v@[a].0@ == x;
                if a != n {
                    assert(before[a].0@ == x);
                }
            }
        }
        assert forall|x: Seq<char>| #[trigger] has_name(v@, x) implies name_map(v@)[x]
            == name_map(before).insert(sv, d)[x] by {
            if x != sv {
                let b = name_index(before, x);
                assert(before[b].0@ == x);
                assert(v@[b].0@ == x);
            }
        }
    }
}

pub fn id_map_insert(v: &mut Vec<(u64, RequestKey)>, id: u64, k: RequestKey)
    requires
        ids_unique(old(v)@),
    ensures
        ids_unique(final(v)@),
        id_map(final(v)@) == id_map(old(v)@).insert(id, k),
{
    let mut i: usize = 0;
    while i < v.len()
        invariant
            i <= v.len(),
            v@ == old(v)@,
            forall|j: int| 0 <= j < i ==> v@[j].0 != id,
        decreases v.len() - i,
    {
        if v[i].0 == id {
            let ghost before = v@;
            v.set(i, (id, k));
            assert(id_map(v@) =~= id_map(before).insert(id, k)) by {
                assert forall|x: u64| #[trigger] has_id(v@, x) == (has_id(before, x) || x == id) by {
                    if has_id(before, x) {
                        let a = choose|a: int| 0 <= a < before.len() && before[a].0 == x;
                        assert(v@[a].0 == x);
                    }
                    if x == id {
                        assert(v@[i as int].0 == x);
                    }
                    if has_id(v@, x) {
                        let a = choose|a: int| 0 <= a < v@.len() && v@[a].0 == x;
                        assert(before[a].0 == x);
                    }
                }
                assert forall|x: u64| #[trigger] has_id(v@, x) implies id_map(v@)[x] == id_map(
                    before,
                ).insert(id, k)[x] by {
                    if x == id {
                        assert(v@[i as int].0 == x);
                    } else {
                        let b = id_index(before, x);
                        assert(v@[b].0 == x);
                    }
                }
            }
            return;
        }
        i = i + 1;
    }
    let ghost before = v@;
    v.push((id, k));
    assert(id_map(v@) =~= id_map(before).insert(id, k)) by {
        let n = before.len() as int;
        assert(v@[n].0 == id);
        assert forall|x: u64| #[trigger] has_id(v@, x) == (has_id(before, x) || x == id) by {
            if has_id(before, x) {
                let a = choose|a: int| 0 <= a < before.len() && before[a].0 == x;
                assert(v@[a].0 == x);
            }
            if has_id(v@, x) {
                let a = choose|a: int| 0 <= a < v@.len() && v@[a].0 == x;
                if a != n {
                    assert(before[a].0 == x);
                }
            }
        }
        assert forall|x: u64| #[trigger] has_id(v@, x) implies id_map(v@)[x] == id_map(
            before,
        ).insert(id, k)[x] by {
            if x != id {
                let b = id_index(before, x);
                assert(v@[b].0 == x);
            }
        }
    }
}

pub fn id_map_remove(v: &mut Vec<(u64, RequestKey)>, id: u64)
    requires
        ids_unique(old(v)@),
    ensures
        ids_unique(final(v)@),
        id_map(final(v)@) == id_map(old(v)@).remove(id),
{
    let mut i: usize = 0;
    while i < v.len()
        invariant
            i <= v.len(),
            v@ == old(v)@,
            forall|j: int| 0 <= j < i ==> v@[j].0 != id,
        decreases v.len() - i,
    {
        if v[i].0 == id {
            let ghost before = v@;
            v.remove(i);
            assert(v@ == before.remove(i as int));
            assert(ids_unique(v@)) by {
                assert forall|a: int, b: int| 0 <= a < v@.len() && 0 <= b < v@.len() && a != b
                    implies v@[a].0 != v@[b].0 by {
                    let a2 = if a < i { a } else { a + 1 };
                    let b2 = if b < i { b } else { b + 1 };
                    assert(v@[a] == before[a2] && v@[b] == before[b2]);
                }
            }
            assert(id_map(v@) =~= id_map(before).remove(id)) by {
                assert forall|x: u64| #[trigger] has_id(v@, x) == (has_id(before, x) && x != id) by {
                    if has_id(v@, x) {
                        let a = choose|a: int| 0 <= a < v@.len() && v@[a].0 == x;
                        if a < i {
                            assert(before[a].0 == x);
                        } else {
                            assert(before[a + 1].0 == x);
                        }
                    }
                    if has_id(before, x) && x != id {
                        let a = choose|a: int| 0 <= a < before.len() && before[a].0 == x;
                        if a < i {
                            assert(v@[a].0 == x);
                        } else {
                            assert(v@[a - 1].0 == x);
                        }
                    }
                }
                assert forall|x: u64| #[trigger] has_id(v@, x) implies id_map(v@)[x] == id_map(
                    before,
                )[x] by {
                    let a = id_index(v@, x);
                    if a < i {
                        assert(before[a].0 == x);
                    } else {
                        assert(before[a + 1].0 == x);
                    }
                }
            }
            return;
        }
        i = i + 1;
    }
    assert(id_map(v@) =~= id_map(old(v)@).remove(id));
}

/// Whether some tracked request id maps to `k`.
pub fn id_map_has_value(v: &Vec<(u64, RequestKey)>, k: RequestKey) -> (r: bool)
    requires
        ids_unique(v@),
    ensures
        r == exists|id: u64| #[trigger] id_map(v@).dom().contains(id) && id_map(v@)[id] == k,
{
    let mut i: usize = 0;
    while i < v.len()
        invariant
            i <= v.len(),
            forall|j: int| 0 <= j < i ==> v@[j].1 != k,
        decreases v.len() - i,
    {
        if v[i].1 == k {
            let id = v[i].0;
            assert(has_id(v@, id));
            assert(id_index(v@, id) == i);
            assert(id_map(v@).dom().contains(id));
            return true;
        }
        i = i + 1;
    }
    assert forall|id: u64| #[trigger] id_map(v@).dom().contains(id) implies id_map(v@)[id] != k by {
        let a = id_index(v@, id);
        assert(v@[a].1 != k);
    }
    false
}

pub fn key_map_get(v: &Vec<(RequestKey, u64)>, k: RequestKey) -> (r: Option<u64>)
    requires
        keys_unique(v@),
    ensures
        r is Some <==> key_map(v@).dom().contains(k),
        r matches Some(id) ==> id == key_map(v@)[k],
{
    let mut i: usize = 0;
    while i < v.len()
        invariant
            i <= v.len(),
            forall|j: int| 0 <= j < i ==> v@[j].0 != k,
        decreases v.len() - i,
    {
        if v[i].0 == k {
            assert(has_key(v@, k));
            assert(key_index(v@, k) == i);
            return Some(v[i].1);
        }
        i = i + 1;
    }
    None
}

pub fn key_map_insert(v: &mut Vec<(RequestKey, u64)>, k: RequestKey, id: u64)
    requires
        keys_unique(old(v)@),
    ensures
        keys_unique(final(v)@),
        key_map(final(v)@) == key_map(old(v)@).insert(k, id),
{
    let mut i: usize = 0;
    while i < v.len()
        invariant
            i <= v.len(),
            v@ == old(v)@,
            forall|j: int| 0 <= j < i ==> v@[j].0 != k,
        decreases v.len() - i,
    {
        if v[i].0 == k {
            let ghost before = v@;
            v.set(i, (k, id));
            assert(key_map(v@) =~= key_map(before).insert(k, id)) by {
                assert forall|x: RequestKey| #[trigger] has_key(v@, x) == (has_key(before, x) || x
                    == k) by {
                    if has_key(before, x) {
                        let a = choose|a: int| 0 <= a < before.len() && before[a].0 == x;
                        assert(v@[a].0 == x);
                    }
                    if x == k {
                        assert(v@[i as int].0 == x);
                    }
                    if has_key(v@, x) {
                        let a = choose|a: int| 0 <= a < v@.len() && v@[a].0 == x;
                        assert(before[a].0 == x);
                    }
                }
                assert forall|x: RequestKey| #[trigger] has_key(v@, x) implies key_map(v@)[x]
                    == key_map(before).insert(k, id)[x] by {
                    if x == k {
                        assert(v@[i as int].0 == x);
                    } else {
                        let b = key_index(before, x);
                        assert(v@[b].0 == x);
                    }
                }
            }
            return;
        }
        i = i + 1;
    }
    let ghost before = v@;
    v.push((k, id));
    assert(key_map(v@) =~= key_map(before).insert(k, id)) by {
        let n = before.len() as int;
        assert(v@[n].0 == k);
        assert forall|x: RequestKey| #[trigger] has_key(v@, x) == (has_key(before, x) || x == k) by {
            if has_key(before, x) {
                let a = choose|a: int| 0 <= a < before.len() && before[a].0 == x;
                assert(v@[a].0 == x);
            }
            if has_key(v@, x) {
                let a = choose|a: int| 0 <= a < v@.len() && v@[a].0 == x;
                if a != n {
                    assert(before[a].0 == x);
                }
            }
        }
        assert forall|x: RequestKey| #[trigger] has_key(v@, x) implies key_map(v@)[x] == key_map(
            before,
        ).insert(k, id)[x] by {
            if x != k {
                let b = key_index(before, x);
                assert(v@[b].0 == x);
            }
        }
    }
}

pub fn key_map_remove(v: &mut Vec<(RequestKey, u64)>, k: RequestKey)
    requires
        keys_unique(old(v)@),
    ensures
        keys_unique(final(v)@),
        key_map(final(v)@) == key_map(old(v)@).remove(k),
{
    let mut i: usize = 0;
    while i < v.len()
        invariant
            i <= v.len(),
            v@ == old(v)@,
            forall|j: int| 0 <= j < i ==> v@[j].0 != k,
        decreases v.len() - i,
    {
        if v[i].0 == k {
            let ghost before = v@;
            v.remove(i);
            assert(v@ == before.remove(i as int));
            assert(keys_unique(v@)) by {
                assert forall|a: int, b: int| 0 <= a < v@.len() && 0 <= b < v@.len() && a != b
                    implies v@[a].0 != v@[b].0 by {
                    let a2 = if a < i { a } else { a + 1 };
                    let b2 = if b < i { b } else { b + 1 };
                    assert(v@[a] == before[a2] && v@[b] == before[b2]);
                }
            }
            assert(key_map(v@) =~= key_map(before).remove(k)) by {
                assert forall|x: RequestKey| #[trigger] has_key(v@, x) == (has_key(before, x) && x
                    != k) by {
                    if has_key(v@, x) {
                        let a = choose|a: int| 0 <= a < v@.len() && v@[a].0 == x;
                        if a < i {
                            assert(before[a].0 == x);
                        } else {
                            assert(before[a + 1].0 == x);
                        }
                    }
                    if has_key(before, x) && x != k {
                        let a = choose|a: int| 0 <= a < before.len() && before[a].0 == x;
                        if a < i {
                            assert(v@[a].0 == x);
                        } else {
                            assert(v@[a - 1].0 == x);
                        }
                    }
                }
                assert forall|x: RequestKey| #[trigger] has_key(v@, x) implies key_map(v@)[x]
                    == key_map(before)[x] by {
                    let a = key_index(v@, x);
                    if a < i {
                        assert(before[a].0 == x);
                    } else {
                        assert(before[a + 1].0 == x);
                    }
                }
            }
            return;
        }
        i = i + 1;
    }
    assert(key_map(v@) =~= key_map(old(v)@).remove(k));
}

} // verus!
