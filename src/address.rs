use vstd::prelude::*;

use crate::error::{ConnectionError, Error};

verus! {

/// A server address as the cluster advertises it or as the user dials it.
pub struct Address {
    pub text: String,
}

impl Address {
    pub open spec fn view(&self) -> Seq<char> {
        self.text@
    }

    pub fn new(text: String) -> (r: Address)
        ensures
            r@ == text@,
    {
        Address { text }
    }

    pub fn as_str(&self) -> (r: &str)
        ensures
            r@ == self@,
    {
        self.text.as_str()
    }

    pub fn same(&self, other: &Address) -> (r: bool)
        ensures
            r == (self@ == other@),
    {
        self.text == other.text
    }

    pub fn duplicate(&self) -> (r: Address)
        ensures
            r@ == self@,
    {
        Address { text: self.text.clone() }
    }
}

/// The text of each address, in order.
pub open spec fn views(s: Seq<Address>) -> Seq<Seq<char>> {
    s.map_values(|a: Address| a@)
}

/// The advertised text of each translation entry, in order.
pub open spec fn keys(map: Seq<(Address, Address)>) -> Seq<Seq<char>> {
    map.map_values(|e: (Address, Address)| e.0@)
}

/// Whether the entry at `i` is the first one for `key`.
pub open spec fn first_entry(map: Seq<(Address, Address)>, key: Seq<char>, i: int) -> bool {
    &&& 0 <= i < map.len()
    &&& map[i].0@ == key
    &&& forall|j: int| 0 <= j < i ==> map[j].0@ != key
}

/// The dialable address that the first entry for `key` gives.
pub open spec fn lookup(map: Seq<(Address, Address)>, key: Seq<char>) -> Option<Seq<char>> {
    if keys(map).contains(key) {
        Some(map[choose|i: int| first_entry(map, key, i)].1@)
    } else {
        None
    }
}

pub open spec fn unknown_entries(advertised: Seq<Address>, map: Seq<(Address, Address)>) -> Seq<Seq<char>> {
    keys(map).filter(|k: Seq<char>| !views(advertised).contains(k))
}

pub open spec fn unmapped_entries(advertised: Seq<Address>, map: Seq<(Address, Address)>) -> Seq<Seq<char>> {
    views(advertised).filter(|a: Seq<char>| !keys(map).contains(a))
}

/// Entries of the translation that name no advertised server, each once, in entry order.
pub open spec fn unknown_of(advertised: Seq<Address>, map: Seq<(Address, Address)>) -> Seq<Seq<char>> {
    distinct_views(unknown_entries(advertised, map))
}

/// Advertised servers that the translation does not map, each once, in advertised order.
pub open spec fn unmapped_of(advertised: Seq<Address>, map: Seq<(Address, Address)>) -> Seq<Seq<char>> {
    distinct_views(unmapped_entries(advertised, map))
}

/// The texts in order, each one kept only at its first occurrence.
pub open spec fn distinct_views(s: Seq<Seq<char>>) -> Seq<Seq<char>>
    decreases s.len(),
{
    if s.len() == 0 {
        s
    } else {
        let kept = distinct_views(s.drop_last());
        if kept.contains(s.last()) {
            kept
        } else {
            kept.push(s.last())
        }
    }
}

/// Leaving out repeats keeps every text once and no text twice.
pub proof fn lemma_distinct_views(s: Seq<Seq<char>>)
    ensures
        distinct_views(s).no_duplicates(),
        forall|x: Seq<char>| distinct_views(s).contains(x) <==> s.contains(x),
    decreases s.len(),
{
    if s.len() > 0 {
        let init = s.drop_last();
        lemma_distinct_views(init);
        let kept = distinct_views(init);
        assert forall|x: Seq<char>| s.contains(x) <==> (init.contains(x) || x == s.last()) by {
            if s.contains(x) {
                let k = choose|k: int| 0 <= k < s.len() && s[k] == x;
                if k < s.len() - 1 {
                    assert(init[k] == x);
                }
            }
            if init.contains(x) {
                let k = choose|k: int| 0 <= k < init.len() && init[k] == x;
                assert(s[k] == x);
            }
            if x == s.last() {
                assert(s[s.len() - 1] == x);
            }
        }
        if !kept.contains(s.last()) {
            let out = kept.push(s.last());
            assert forall|i: int, j: int| 0 <= i < out.len() && 0 <= j < out.len() && i != j implies out[i] != out[j] by {
                if i == kept.len() as int {
                    assert(kept[j] == out[j]);
                } else if j == kept.len() as int {
                    assert(kept[i] == out[i]);
                }
            }
            assert forall|x: Seq<char>| out.contains(x) <==> (kept.contains(x) || x == s.last()) by {
                if out.contains(x) {
                    let k = choose|k: int| 0 <= k < out.len() && out[k] == x;
                    if k < kept.len() {
                        assert(kept[k] == x);
                    }
                }
                if kept.contains(x) {
                    let k = choose|k: int| 0 <= k < kept.len() && kept[k] == x;
                    assert(out[k] == x);
                }
                if x == s.last() {
                    assert(out[kept.len() as int] == x);
                }
            }
        }
    }
}

/// The addresses in order, each one kept only at its first occurrence.
pub fn distinct_addresses(list: &Vec<Address>) -> (r: Vec<Address>)
    ensures
        views(r@) == distinct_views(views(list@)),
        views(r@).no_duplicates(),
        forall|x: Seq<char>| views(r@).contains(x) <==> views(list@).contains(x),
{
    let mut out: Vec<Address> = Vec::new();
    let mut i: usize = 0;
    while i < list.len()
        invariant
            i <= list.len(),
            views(out@) == distinct_views(views(list@).subrange(0, i as int)),
        decreases list.len() - i,
    {
        proof {
            let pre = views(list@).subrange(0, i + 1);
            assert(pre.drop_last() =~= views(list@).subrange(0, i as int));
            assert(pre.last() == list@[i as int]@);
        }
        if !contains_address(&out, &list[i]) {
            let ghost before = out@;
            out.push(list[i].duplicate());
            assert(views(out@) =~= views(before).push(list@[i as int]@));
        }
        i = i + 1;
    }
    proof {
        assert(views(list@).subrange(0, i as int) =~= views(list@));
        lemma_distinct_views(views(list@));
    }
    out
}

/// Maps the addresses that servers advertise to the addresses this client dials.
pub struct AddressBook {
    pub translation: Option<Vec<(Address, Address)>>,
}

pub(crate) fn contains_address(list: &Vec<Address>, a: &Address) -> (r: bool)
    ensures
        r == views(list@).contains(a@),
{
    let mut i: usize = 0;
    while i < list.len()
        invariant
            i <= list.len(),
            forall|j: int| 0 <= j < i ==> list@[j]@ != a@,
        decreases list.len() - i,
    {
        if list[i].same(a) {
            assert(views(list@)[i as int] == a@);
            return true;
        }
        i = i + 1;
    }
    assert(!views(list@).contains(a@)) by {
        if views(list@).contains(a@) {
            let k = choose|k: int| 0 <= k < views(list@).len() && views(list@)[k] == a@;
            assert(list@[k]@ == a@);
        }
    }
    false
}

fn find_entry(map: &Vec<(Address, Address)>, key: &Address) -> (r: Option<usize>)
    ensures
        r is None <==> !keys(map@).contains(key@),
        r matches Some(i) ==> first_entry(map@, key@, i as int),
{
    let mut i: usize = 0;
    while i < map.len()
        invariant
            i <= map.len(),
            forall|j: int| 0 <= j < i ==> map@[j].0@ != key@,
        decreases map.len() - i,
    {
        if map[i].0.same(key) {
            assert(keys(map@)[i as int] == key@);
            return Some(i);
        }
        i = i + 1;
    }
    assert(!keys(map@).contains(key@)) by {
        if keys(map@).contains(key@) {
            let k = choose|k: int| 0 <= k < keys(map@).len() && keys(map@)[k] == key@;
            assert(map@[k].0@ == key@);
        }
    }
    None
}

proof fn lemma_first_entry_unique(map: Seq<(Address, Address)>, key: Seq<char>, i: int)
    requires
        first_entry(map, key, i),
    ensures
        lookup(map, key) == Some(map[i].1@),
{
    assert(keys(map)[i] == key);
    let k = choose|k: int| first_entry(map, key, k);
    assert(first_entry(map, key, k));
    if k < i {
        assert(map[k].0@ != key);
    } else if i < k {
        assert(map[i].0@ != key);
    }
}

impl AddressBook {
    /// Resolves the advertised servers to dialable addresses.
    ///
    /// Without a translation the advertised addresses are dialled as they are.
    /// With one, every advertised server must have an entry and every entry
    /// must name an advertised server; otherwise the mismatch error lists the
    /// entries that name no advertised server and the servers left unmapped.
    pub fn resolve(&self, advertised: &Vec<Address>) -> (r: Result<Vec<Address>, Error>)
        ensures
            self.translation is None ==> (r matches Ok(v) && views(v@) == views(advertised@)),
            self.translation matches Some(map) ==> {
                let unknown = unknown_of(advertised@, map@);
                let unmapped = unmapped_of(advertised@, map@);
                &&& (unknown.len() == 0 && unmapped.len() == 0) ==> (r matches Ok(v) && v@.len()
                    == advertised@.len() && forall|i: int|
                    0 <= i < v@.len() ==> lookup(map@, advertised@[i]@) == Some(#[trigger] v@[i]@))
                &&& !(unknown.len() == 0 && unmapped.len() == 0) ==> (r matches Err(
                    Error::Connection(ConnectionError::AddressTranslationMismatch { unknown: u, unmapped: m }),
                ) && views(u@) == unknown && views(m@) == unmapped)
            },
    {
        match &self.translation {
            None => {
                let mut out: Vec<Address> = Vec::new();
                let mut i: usize = 0;
                while i < advertised.len()
                    invariant
                        i <= advertised.len(),
                        out@.len() == i,
                        forall|k: int| 0 <= k < i ==> #[trigger] out@[k]@ == advertised@[k]@,
                    decreases advertised.len() - i,
                {
                    out.push(advertised[i].duplicate());
                    i = i + 1;
                }
                assert(views(out@) =~= views(advertised@));
                Ok(out)
            },
            Some(map) => {
                let mut unknown: Vec<Address> = Vec::new();
                let mut i: usize = 0;
                while i < map.len()
                    invariant
                        i <= map.len(),
                        views(unknown@) == keys(map@.subrange(0, i as int)).filter(
                            |k: Seq<char>| !views(advertised@).contains(k),
                        ),
                    decreases map.len() - i,
                {
                    proof {
                        let f = |k: Seq<char>| !views(advertised@).contains(k);
                        assert(keys(map@.subrange(0, i + 1)) =~= keys(map@.subrange(0, i as int)).push(map@[i as int].0@));
                        keys(map@.subrange(0, i as int)).lemma_filter_push(map@[i as int].0@, f);
                    }
                    if !contains_address(advertised, &map[i].0) {
                        let ghost before = unknown@;
                        unknown.push(map[i].0.duplicate());
                        assert(views(unknown@) =~= views(before).push(map@[i as int].0@));
                    }
                    i = i + 1;
                }
                assert(map@.subrange(0, i as int) =~= map@);
                let mut unmapped: Vec<Address> = Vec::new();
                let mut resolved: Vec<Address> = Vec::new();
                let mut j: usize = 0;
                while j < advertised.len()
                    invariant
                        j <= advertised.len(),
                        views(unknown@) == unknown_entries(advertised@, map@),
                        views(unmapped@) == views(advertised@.subrange(0, j as int)).filter(
                            |a: Seq<char>| !keys(map@).contains(a),
                        ),
                        resolved@.len() == j,
                        forall|k: int|
                            0 <= k < j && keys(map@).contains(advertised@[k]@) ==> lookup(map@, advertised@[k]@)
                                == Some(#[trigger] resolved@[k]@),
                    decreases advertised.len() - j,
                {
                    proof {
                        let f = |a: Seq<char>| !keys(map@).contains(a);
                        assert(views(advertised@.subrange(0, j + 1)) =~= views(advertised@.subrange(0, j as int)).push(advertised@[j as int]@));
                        views(advertised@.subrange(0, j as int)).lemma_filter_push(advertised@[j as int]@, f);
                    }
                    match find_entry(map, &advertised[j]) {
                        Some(k) => {
                            proof {
                                lemma_first_entry_unique(map@, advertised@[j as int]@, k as int);
                            }
                            resolved.push(map[k].1.duplicate());
                        },
                        None => {
                            let ghost before = unmapped@;
                            unmapped.push(advertised[j].duplicate());
                            assert(views(unmapped@) =~= views(before).push(advertised@[j as int]@));
                            resolved.push(advertised[j].duplicate());
                        },
                    }
                    j = j + 1;
                }
                assert(advertised@.subrange(0, j as int) =~= advertised@);
                let unknown = distinct_addresses(&unknown);
                let unmapped = distinct_addresses(&unmapped);
                proof {
                    let raw_unknown = unknown_entries(advertised@, map@);
                    let raw_unmapped = unmapped_entries(advertised@, map@);
                    if raw_unknown.len() > 0 {
                        assert(raw_unknown.contains(raw_unknown[0]));
                        assert(views(unknown@).contains(raw_unknown[0]));
                    }
                    if raw_unmapped.len() > 0 {
                        assert(raw_unmapped.contains(raw_unmapped[0]));
                        assert(views(unmapped@).contains(raw_unmapped[0]));
                    }
                }
                if unknown.len() == 0 && unmapped.len() == 0 {
                    proof {
                        let f = |a: Seq<char>| !keys(map@).contains(a);
                        assert forall|k: int| 0 <= k < advertised@.len() implies keys(map@).contains(
                            #[trigger] advertised@[k]@,
                        ) by {
                            assert(views(advertised@)[k] == advertised@[k]@);
                            if !keys(map@).contains(advertised@[k]@) {
                                views(advertised@).lemma_filter_contains(f, k);
                            }
                        }
                    }
                    Ok(resolved)
                } else {
                    Err(Error::Connection(ConnectionError::AddressTranslationMismatch { unknown, unmapped }))
                }
            },
        }
    }
}

} // verus!
