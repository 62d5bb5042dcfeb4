//! Sets of asset keys, held as strictly increasing vectors of strings: the
//! order in which an ordered set of strings lists its members.
use vstd::prelude::*;

use crate::text::{
    lemma_seq_lt_irreflexive, lemma_seq_lt_total, lemma_seq_lt_transitive, seq_lt, split, split_on,
    str_eq, str_lt, trim, trim_string, views,
};

verus! {

/// Every key is smaller than every key after it.
pub open spec fn strictly_sorted(s: Seq<Seq<char>>) -> bool {
    forall|i: int, j: int| 0 <= i < j < s.len() ==> seq_lt(#[trigger] s[i], #[trigger] s[j])
}

/// The members of a key list.
pub open spec fn key_set(v: Seq<String>) -> Set<Seq<char>> {
    views(v).to_set()
}

/// Whether `key` is one of `keys`.
pub fn contains_key(keys: &Vec<String>, key: &str) -> (r: bool)
    ensures
        r == key_set(keys@).contains(key@),
{
    let mut i: usize = 0;
    while i < keys.len()
        invariant
            i <= keys.len(),
            forall|j: int| 0 <= j < i ==> views(keys@)[j] != key@,
        decreases keys.len() - i,
    {
        if str_eq(keys[i].as_str(), key) {
            assert(views(keys@)[i as int] == key@);
            return true;
        }
        i = i + 1;
    }
    assert(!views(keys@).contains(key@));
    false
}

/// Adds `key` to a sorted key list, keeping it sorted and free of repeats.
pub fn insert_key(keys: &mut Vec<String>, key: String)
    requires
        strictly_sorted(views(old(keys)@)),
    ensures
        strictly_sorted(views(final(keys)@)),
        key_set(final(keys)@) == key_set(old(keys)@).insert(key@),
{
    let ghost old_v = views(keys@);
    let mut i: usize = 0;
    while i < keys.len()
        invariant
            i <= keys.len(),
            views(keys@) == old_v,
            forall|j: int| 0 <= j < i ==> seq_lt(#[trigger] old_v[j], key@),
        ensures
            i <= keys.len(),
            views(keys@) == old_v,
            forall|j: int| 0 <= j < i ==> seq_lt(#[trigger] old_v[j], key@),
            i == keys.len() || !seq_lt(old_v[i as int], key@),
        decreases keys.len() - i,
    {
        if !str_lt(keys[i].as_str(), key.as_str()) {
            break;
        }
        i = i + 1;
    }
    if i < keys.len() && str_eq(keys[i].as_str(), key.as_str()) {
        assert(old_v[i as int] == key@);
        assert(key_set(keys@) =~= key_set(keys@).insert(key@));
        return;
    }
    let ghost k = key@;
    let ghost at = i as int;
    keys.insert(i, key);
    proof {
        let nv = views(keys@);
        assert(nv =~= old_v.insert(at, k));
        if at < old_v.len() {
            lemma_seq_lt_total(old_v[at], k);
        }
        assert forall|a: int, b: int| 0 <= a < b < nv.len() implies seq_lt(
            #[trigger] nv[a],
            #[trigger] nv[b],
        ) by {
            if b < at {
                assert(nv[a] == old_v[a] && nv[b] == old_v[b]);
            } else if b == at {
                assert(nv[a] == old_v[a]);
            } else if a < at {
                assert(nv[a] == old_v[a] && nv[b] == old_v[b - 1]);
            } else if a == at {
                assert(nv[b] == old_v[b - 1]);
                if b - 1 > at {
                    lemma_seq_lt_transitive(k, old_v[at], old_v[b - 1]);
                }
            } else {
                assert(nv[a] == old_v[a - 1] && nv[b] == old_v[b - 1]);
            }
        }
        assert forall|x: Seq<char>| nv.to_set().contains(x) <==> old_v.to_set().insert(
            k,
        ).contains(x) by {
            if nv.contains(x) {
                let idx = choose|idx: int| 0 <= idx < nv.len() && nv[idx] == x;
                if idx < at {
                    assert(old_v[idx] == x);
                } else if idx > at {
                    assert(old_v[idx - 1] == x);
                }
            }
            if old_v.contains(x) {
                let idx = choose|idx: int| 0 <= idx < old_v.len() && old_v[idx] == x;
                if idx < at {
                    assert(nv[idx] == x);
                } else {
                    assert(nv[idx + 1] == x);
                }
            }
            if x == k {
                assert(nv[at] == x);
            }
        }
        assert(nv.to_set() =~= old_v.to_set().insert(k));
    }
}

/// The keys named in a comma-separated list: each piece trimmed, blank pieces dropped.
pub open spec fn listed_keys(raw: Seq<char>) -> Set<Seq<char>> {
    Set::new(
        |k: Seq<char>|
            k.len() > 0 && exists|j: int|
                0 <= j < split(raw, ',').len() && #[trigger] trim(split(raw, ',')[j]) == k,
    )
}

/// The text of an optional parameter; absent reads as empty.
pub open spec fn raw_text(raw: Option<String>) -> Seq<char> {
    match raw {
        Some(s) => s@,
        None => Seq::empty(),
    }
}

/// The set of asset keys in an optional comma-separated parameter, in order.
pub fn parse_asset_key_set(raw: &Option<String>) -> (keys: Vec<String>)
    ensures
        strictly_sorted(views(keys@)),
        key_set(keys@) == listed_keys(raw_text(*raw)),
{
    let text: &str = match raw {
        Some(s) => s.as_str(),
        None => "",
    };
    proof {
        reveal_strlit("");
    }
    let parts = split_on(text, ',');
    let ghost pieces = split(raw_text(*raw), ',');
    let mut keys: Vec<String> = Vec::new();
    let mut i: usize = 0;
    assert(key_set(keys@) =~= Set::<Seq<char>>::empty());
    while i < parts.len()
        invariant
            i <= parts.len(),
            text@ == raw_text(*raw),
            pieces == split(raw_text(*raw), ','),
            parts@.len() == pieces.len(),
            forall|k: int| 0 <= k < parts@.len() ==> #[trigger] parts@[k]@ == pieces[k],
            strictly_sorted(views(keys@)),
            key_set(keys@) == Set::new(
                |k: Seq<char>|
                    k.len() > 0 && exists|j: int| 0 <= j < i && #[trigger] trim(pieces[j]) == k,
            ),
        decreases parts.len() - i,
    {
        let t = trim_string(parts[i].as_str());
        let ghost before = key_set(keys@);
        if t.unicode_len() > 0 {
            let ghost tv = t@;
            insert_key(&mut keys, t);
            assert(key_set(keys@) =~= Set::new(
                |k: Seq<char>|
                    k.len() > 0 && exists|j: int| 0 <= j < i + 1 && #[trigger] trim(pieces[j]) == k,
            )) by {
                assert(trim(pieces[i as int]) == tv);
            }
        } else {
            assert(key_set(keys@) =~= Set::new(
                |k: Seq<char>|
                    k.len() > 0 && exists|j: int| 0 <= j < i + 1 && #[trigger] trim(pieces[j]) == k,
            )) by {
                assert(trim(pieces[i as int]).len() == 0);
            }
        }
        i = i + 1;
    }
    assert(key_set(keys@) =~= listed_keys(raw_text(*raw)));
    keys
}

/// Whether `k` is among the first `n` entries of `v`.
pub open spec fn among(v: Seq<Seq<char>>, n: int, k: Seq<char>) -> bool {
    exists|j: int| 0 <= j < n && #[trigger] v[j] == k
}

/// The keys of `keys`, in order, that are (`listed`) or are not (`!listed`) in `other`.
pub fn keys_filtered(keys: &Vec<String>, other: &Vec<String>, listed: bool) -> (r: Vec<String>)
    ensures
        strictly_sorted(views(keys@)) ==> strictly_sorted(views(r@)),
        key_set(r@) == key_set(keys@).filter(
            |k: Seq<char>| key_set(other@).contains(k) == listed,
        ),
{
    let mut r: Vec<String> = Vec::new();
    let mut i: usize = 0;
    while i < keys.len()
        invariant
            i <= keys.len(),
            forall|a: int|
                0 <= a < r@.len() ==> exists|j: int|
                    0 <= j < i && #[trigger] views(r@)[a] == #[trigger] views(keys@)[j],
            strictly_sorted(views(keys@)) ==> strictly_sorted(views(r@)),
            key_set(r@) == Set::new(
                |k: Seq<char>| key_set(other@).contains(k) == listed && among(views(keys@), i as int, k),
            ),
        decreases keys.len() - i,
    {
        let found = contains_key(other, keys[i].as_str());
        let ghost cur = views(keys@)[i as int];
        let ghost old_r = views(r@);
        if found == listed {
            let s = keys[i].clone();
            r.push(s);
            proof {
                let nr = views(r@);
                assert(nr =~= old_r.push(cur));
                if strictly_sorted(views(keys@)) {
                    assert forall|a: int, b: int| 0 <= a < b < nr.len() implies seq_lt(
                        #[trigger] nr[a],
                        #[trigger] nr[b],
                    ) by {
                        if b == nr.len() - 1 {
                            let j = choose|j: int|
                                0 <= j < i && #[trigger] old_r[a] == #[trigger] views(keys@)[j];
                            assert(seq_lt(views(keys@)[j], views(keys@)[i as int]));
                        } else {
                            assert(nr[a] == old_r[a] && nr[b] == old_r[b]);
                        }
                    }
                }
                assert forall|a: int| 0 <= a < nr.len() implies exists|j: int|
                    0 <= j < i + 1 && #[trigger] nr[a] == #[trigger] views(keys@)[j] by {
                    if a == nr.len() - 1 {
                        assert(nr[a] == views(keys@)[i as int]);
                    } else {
                        assert(nr[a] == old_r[a]);
                    }
                }
                old_r.lemma_push_to_set_commute(cur);
            }
        }
        proof {
            assert(key_set(r@) =~= Set::new(
                |k: Seq<char>|
                    key_set(other@).contains(k) == listed && among(views(keys@), i + 1, k),
            )) by {
                assert forall|k: Seq<char>| #[trigger] among(views(keys@), i + 1, k) implies (among(
                    views(keys@),
                    i as int,
                    k,
                ) || k == cur) by {
                    let j = choose|j: int| 0 <= j < i + 1 && #[trigger] views(keys@)[j] == k;
                    if j < i {
                        assert(views(keys@)[j] == k);
                    }
                }
                assert(among(views(keys@), i + 1, cur)) by {
                    assert(views(keys@)[i as int] == cur);
                }
                assert forall|k: Seq<char>| #[trigger] among(views(keys@), i as int, k) implies among(
                    views(keys@),
                    i + 1,
                    k,
                ) by {
                    let j = choose|j: int| 0 <= j < i && #[trigger] views(keys@)[j] == k;
                }
            }
        }
        i = i + 1;
    }
    proof {
        assert(key_set(r@) =~= key_set(keys@).filter(
            |k: Seq<char>| key_set(other@).contains(k) == listed,
        )) by {
            assert forall|k: Seq<char>| #[trigger] views(keys@).contains(k) implies among(
                views(keys@),
                keys@.len() as int,
                k,
            ) by {
                let j = choose|j: int| 0 <= j < views(keys@).len() && views(keys@)[j] == k;
            }
            assert forall|k: Seq<char>| #[trigger] among(views(keys@), keys@.len() as int, k) implies views(
                keys@,
            ).contains(k) by {
                let j = choose|j: int| 0 <= j < keys@.len() && #[trigger] views(keys@)[j] == k;
            }
        }
    }
    r
}

} // verus!
