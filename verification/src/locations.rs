//! The city catalog and its prefix index: city records with their display
//! names, and a radix-trie index keyed by lower-cased display name that
//! answers prefix queries for the search bar.
//!
//! Distinct cities may share a lower-cased display name, so the trie
//! stores a bucket of entries per key; a flat mirror of everything stored
//! answers the empty query, which matches every key.

use another_radix_trie::RadixTrie;
use vstd::prelude::*;

use crate::text::push_char;

verus! {

/// A stored index entry: a display name with its location id.
pub type CityEntry = (String, usize);

/// The entries stored under one key.
pub type Bucket = Vec<CityEntry>;

/// One record of the city catalog.
#[derive(Clone, Debug, PartialEq)]
pub struct City {
    pub id: usize,
    pub name: String,
    pub state: String,
    pub country: String,
}

impl City {
    /// The display name: city name, administrative region where one is
    /// given, and country, joined with commas.
    pub open spec fn spec_full_name(&self) -> Seq<char> {
        self.name@ + (if self.state@.len() == 0 {
            Seq::<char>::empty()
        } else {
            seq![','] + self.state@
        }) + seq![','] + self.country@
    }

    pub fn full_name(&self) -> (r: String)
        ensures
            r@ == self.spec_full_name(),
    {
        let mut builder = self.name.clone();
        if !self.state.as_str().is_empty() {
            push_char(&mut builder, ',');
            builder.append(self.state.as_str());
        }
        push_char(&mut builder, ',');
        builder.append(self.country.as_str());
        proof {
            assert(builder@ =~= self.spec_full_name());
        }
        builder
    }
}

/// The mathematical value of one stored entry.
pub open spec fn entry_view(e: CityEntry) -> (Seq<char>, usize) {
    (e.0@, e.1)
}

/// The mathematical value of one bucket.
pub open spec fn bucket_view(b: Seq<CityEntry>) -> Seq<(Seq<char>, usize)> {
    b.map_values(|e: CityEntry| entry_view(e))
}

#[verifier::external_type_specification]
#[verifier::external_body]
#[verifier::reject_recursive_types(T)]
pub struct ExRadixTrie<T>(RadixTrie<T>);

/// What the trie holds: a map from each stored key to the bucket of
/// (display name, id) pairs stored under it.
pub uninterp spec fn trie_contents(t: RadixTrie<Bucket>) -> Map<Seq<char>, Seq<(Seq<char>, usize)>>;

/// The contents of an index with nothing in it.
pub open spec fn no_entries() -> Map<Seq<char>, Seq<(Seq<char>, usize)>> {
    Map::empty()
}

/// Relies on RadixTrie::new: constructs a trie with nothing in it.
#[verifier::external_body]
fn trie_new() -> (t: RadixTrie<Bucket>)
    ensures
        trie_contents(t) == no_entries(),
{
    RadixTrie::new()
}

/// Relies on RadixTrie::insert: stores the value under the key,
/// overwriting any previous value of that key; an empty key is ignored.
#[verifier::external_body]
fn trie_insert(t: &mut RadixTrie<Bucket>, key: &str, value: Bucket)
    ensures
        key@.len() == 0 ==> trie_contents(*final(t)) == trie_contents(*old(t)),
        key@.len() > 0 ==> trie_contents(*final(t)) == trie_contents(*old(t)).insert(
            key@,
            bucket_view(value@),
        ),
{
    t.insert(key, value);
}

/// Relies on RadixTrie::remove: takes the value stored under the key out
/// of the trie and returns it; an absent or empty key changes nothing.
#[verifier::external_body]
fn trie_remove(t: &mut RadixTrie<Bucket>, key: &str) -> (r: Option<Bucket>)
    ensures
        key@.len() == 0 ==> r is None && trie_contents(*final(t)) == trie_contents(*old(t)),
        key@.len() > 0 ==> trie_contents(*final(t)) == trie_contents(*old(t)).remove(key@),
        key@.len() > 0 ==> (r is Some <==> trie_contents(*old(t)).dom().contains(key@)),
        r matches Some(b) ==> bucket_view(b@) == trie_contents(*old(t))[key@],
{
    t.remove(key)
}

/// Whether some position of `r` holds a bucket with exactly this value.
pub open spec fn bucket_found(r: Seq<Bucket>, b: Seq<(Seq<char>, usize)>) -> bool {
    exists|i: int| 0 <= i < r.len() && bucket_view((#[trigger] r[i])@) == b
}

/// Whether `b` is a bucket the map stores under some key starting with
/// `prefix`.
pub open spec fn bucket_backed(
    m: Map<Seq<char>, Seq<(Seq<char>, usize)>>,
    prefix: Seq<char>,
    b: Bucket,
) -> bool {
    exists|k: Seq<char>|
        #[trigger] m.dom().contains(k) && prefix.is_prefix_of(k) && bucket_view(b@) == m[k]
}

/// Relies on RadixTrie::start_with: returns the bucket of every stored
/// key that starts with the given non-empty prefix (each with its key,
/// which this wrapper drops); for the empty prefix it returns nothing.
#[verifier::external_body]
fn trie_start_with(t: &RadixTrie<Bucket>, prefix: &str) -> (r: Vec<Bucket>)
    ensures
        prefix@.len() == 0 ==> r@.len() == 0,
        prefix@.len() > 0 ==> forall|k: Seq<char>|
            #[trigger] trie_contents(*t).dom().contains(k) && prefix@.is_prefix_of(k)
                ==> bucket_found(r@, trie_contents(*t)[k]),
        forall|i: int| 0 <= i < r@.len() ==> bucket_backed(trie_contents(*t), prefix@, #[trigger] r@[i]),
{
    t.start_with(prefix).into_iter().map(|(_, bucket)| bucket.clone()).collect()
}

/// What lower-casing produces: the result depends on the characters
/// alone.
pub uninterp spec fn lower_of(s: Seq<char>) -> Seq<char>;

/// Relies on str::to_lowercase: the result is a function of the
/// characters alone, and it is empty exactly when the input is empty.
#[verifier::external_body]
pub fn lowercase(s: &str) -> (r: String)
    ensures
        r@ == lower_of(s@),
        s@.len() == 0 <==> r@.len() == 0,
{
    s.to_lowercase()
}

/// What parsing the bundled name-to-id catalog produces: nothing for
/// bytes that are not such a JSON object, else the entries in ascending
/// name order. A function of the bytes alone.
pub uninterp spec fn parsed_city_map(data: Seq<u8>) -> Option<Seq<(Seq<char>, usize)>>;

/// Relies on serde_json::from_slice::<BTreeMap<String, usize>>: parses a
/// JSON object of display names to location ids; the entries and their
/// order (ascending by name) are a function of the bytes alone.
#[verifier::external_body]
fn parse_city_map(data: &[u8]) -> (r: Option<Vec<CityEntry>>)
    ensures
        r is Some <==> parsed_city_map(data@) is Some,
        r matches Some(v) ==> {
            &&& parsed_city_map(data@) matches Some(entries)
            &&& v@.len() == entries.len()
            &&& forall|i: int| 0 <= i < v@.len() ==> entry_view(#[trigger] v@[i]) == entries[i]
        },
{
    match serde_json::from_slice::<std::collections::BTreeMap<String, usize>>(data) {
        Ok(map) => Some(map.into_iter().collect()),
        Err(_) => None,
    }
}

/// One catalog entry added to the index: appended to the bucket of its
/// lower-cased name, unless that key is empty (which the trie ignores).
pub open spec fn entry_inserted(
    m: Map<Seq<char>, Seq<(Seq<char>, usize)>>,
    name: Seq<char>,
    id: usize,
) -> Map<Seq<char>, Seq<(Seq<char>, usize)>> {
    let k = lower_of(name);
    if k.len() == 0 {
        m
    } else if m.dom().contains(k) {
        m.insert(k, m[k].push((name, id)))
    } else {
        m.insert(k, seq![(name, id)])
    }
}

/// A batch of catalog entries added to the index, first to last.
pub open spec fn entries_inserted(
    m: Map<Seq<char>, Seq<(Seq<char>, usize)>>,
    entries: Seq<(Seq<char>, usize)>,
) -> Map<Seq<char>, Seq<(Seq<char>, usize)>>
    decreases entries.len(),
{
    if entries.len() == 0 {
        m
    } else {
        entries_inserted(entry_inserted(m, entries[0].0, entries[0].1), entries.drop_first())
    }
}

/// A city catalog added to the index: each city under its lower-cased
/// full display name.
pub open spec fn cities_inserted(
    m: Map<Seq<char>, Seq<(Seq<char>, usize)>>,
    cities: Seq<City>,
) -> Map<Seq<char>, Seq<(Seq<char>, usize)>>
    decreases cities.len(),
{
    if cities.len() == 0 {
        m
    } else {
        cities_inserted(
            entry_inserted(m, cities[0].spec_full_name(), cities[0].id),
            cities.drop_first(),
        )
    }
}

/// Whether the map stores this (name, id) pair under some key.
pub open spec fn stored_pair(
    m: Map<Seq<char>, Seq<(Seq<char>, usize)>>,
    e: (Seq<char>, usize),
) -> bool {
    exists|k: Seq<char>| #[trigger] m.dom().contains(k) && m[k].contains(e)
}

/// Whether some position of `r` holds exactly this (name, id) pair.
pub open spec fn result_has(r: Seq<CityEntry>, e: (Seq<char>, usize)) -> bool {
    exists|i: int| 0 <= i < r.len() && entry_view(#[trigger] r[i]) == e
}

/// The flat list mirrors the keyed buckets: every stored pair (keyed by
/// its lower-cased name) is in the list, and everything in the list is
/// stored.
spec fn contents_mirrored(
    m: Map<Seq<char>, Seq<(Seq<char>, usize)>>,
    s: Seq<(Seq<char>, usize)>,
) -> bool {
    &&& forall|k: Seq<char>, j: int|
        #![trigger m[k][j]]
        m.dom().contains(k) && 0 <= j < m[k].len() ==> s.contains(m[k][j]) && lower_of(m[k][j].0)
            == k
    &&& forall|i: int| 0 <= i < s.len() ==> stored_pair(m, #[trigger] s[i])
}

proof fn lemma_contains_push(s: Seq<(Seq<char>, usize)>, x: (Seq<char>, usize), e: (
    Seq<char>,
    usize,
))
    requires
        s.contains(e),
    ensures
        s.push(x).contains(e),
{
    let i = choose|i: int| 0 <= i < s.len() && s[i] == e;
    assert(s.push(x)[i] == e);
}

/// Adding one entry to both sides keeps the flat list a mirror of the
/// keyed buckets.
proof fn lemma_mirrored_step(
    m: Map<Seq<char>, Seq<(Seq<char>, usize)>>,
    s: Seq<(Seq<char>, usize)>,
    name: Seq<char>,
    id: usize,
)
    requires
        contents_mirrored(m, s),
    ensures
        contents_mirrored(
            entry_inserted(m, name, id),
            if lower_of(name).len() == 0 {
                s
            } else {
                s.push((name, id))
            },
        ),
{
    let k = lower_of(name);
    if k.len() > 0 {
        let e = (name, id);
        let m2 = entry_inserted(m, name, id);
        let s2 = s.push(e);
        assert(s2[s.len() as int] == e);
        assert forall|k2: Seq<char>, j: int|
            m2.dom().contains(k2) && 0 <= j < m2[k2].len() implies s2.contains(#[trigger] m2[k2][j])
            && lower_of(m2[k2][j].0) == k2 by {
            if k2 == k {
                if m.dom().contains(k) && j < m[k].len() {
                    assert(m2[k2][j] == m[k][j]);
                    lemma_contains_push(s, e, m[k][j]);
                } else {
                    assert(m2[k2][j] == e);
                    assert(s2.contains(e));
                }
            } else {
                assert(m2[k2] == m[k2]);
                lemma_contains_push(s, e, m[k2][j]);
            }
        }
        assert forall|i: int| 0 <= i < s2.len() implies stored_pair(m2, #[trigger] s2[i]) by {
            if i < s.len() {
                assert(stored_pair(m, s[i]));
                let k3 = choose|k3: Seq<char>| #[trigger] m.dom().contains(k3) && m[k3].contains(
                    s[i],
                );
                if k3 == k {
                    lemma_contains_push(m[k], e, s[i]);
                    assert(m2.dom().contains(k) && m2[k].contains(s[i]));
                } else {
                    assert(m2.dom().contains(k3) && m2[k3].contains(s[i]));
                }
            } else {
                assert(s2[i] == e);
                assert(m2[k][m2[k].len() - 1] == e);
                assert(m2.dom().contains(k) && m2[k].contains(e));
            }
        }
    }
}

/// The prefix index over the city catalog: built once, then read-only.
/// The trie buckets the stored pairs by lower-cased display name; the
/// flat entry list mirrors them for the query that matches every key.
pub struct Storage {
    pub(crate) trie: RadixTrie<Bucket>,
    pub(crate) entries: Vec<CityEntry>,
    pub(crate) populated: bool,
}

impl Storage {
    /// The entries the index holds, bucketed by lower-cased display
    /// name.
    pub closed spec fn contents(&self) -> Map<Seq<char>, Seq<(Seq<char>, usize)>> {
        trie_contents(self.trie)
    }

    /// Whether the one-time build has happened.
    pub closed spec fn spec_populated(&self) -> bool {
        self.populated
    }

    spec fn mirror(&self) -> Seq<(Seq<char>, usize)> {
        bucket_view(self.entries@)
    }

    #[verifier::type_invariant]
    spec fn inv(self) -> bool {
        contents_mirrored(self.contents(), self.mirror())
    }

    pub fn new() -> (s: Self)
        ensures
            s.contents() == no_entries(),
            !s.spec_populated(),
    {
        Storage { trie: trie_new(), entries: Vec::new(), populated: false }
    }

    /// Whether the one-time build has happened.
    pub fn is_populated(&self) -> (b: bool)
        ensures
            b == self.spec_populated(),
    {
        self.populated
    }

    /// Fills the index from the raw bytes of the bundled name-to-id
    /// catalog. Returns false (and changes nothing) when the bytes do not
    /// parse; does nothing when the index is already populated.
    pub fn populates(&mut self, data: Vec<u8>) -> (ok: bool)
        ensures
            old(self).spec_populated() ==> ok && *final(self) == *old(self),
            !old(self).spec_populated() ==> match parsed_city_map(data@) {
                Some(entries) => {
                    &&& ok
                    &&& final(self).spec_populated()
                    &&& final(self).contents() == entries_inserted(no_entries(), entries)
                },
                None => !ok && *final(self) == *old(self),
            },
    {
        if self.populated {
            return true;
        }
        match parse_city_map(data.as_slice()) {
            None => false,
            Some(pairs) => {
                let ghost entries = parsed_city_map(data@).unwrap();
                let mut trie = trie_new();
                let mut flat: Vec<CityEntry> = Vec::new();
                let mut i: usize = 0;
                proof {
                    assert(entries.skip(0) =~= entries);
                    assert(bucket_view(flat@) =~= Seq::<(Seq<char>, usize)>::empty());
                }
                while i < pairs.len()
                    invariant
                        0 <= i <= pairs.len(),
                        pairs@.len() == entries.len(),
                        forall|j: int|
                            0 <= j < pairs@.len() ==> entry_view(#[trigger] pairs@[j])
                                == entries[j],
                        entries_inserted(trie_contents(trie), entries.skip(i as int))
                            == entries_inserted(no_entries(), entries),
                        contents_mirrored(trie_contents(trie), bucket_view(flat@)),
                    decreases pairs.len() - i,
                {
                    let ghost rest = entries.skip(i as int);
                    let name = pairs[i].0.clone();
                    let id = pairs[i].1;
                    add_entry(&mut trie, &mut flat, name, id);
                    proof {
                        assert(rest[0] == entries[i as int]);
                        assert(rest.drop_first() =~= entries.skip(i + 1));
                    }
                    i = i + 1;
                }
                proof {
                    assert(entries.skip(i as int) =~= Seq::<(Seq<char>, usize)>::empty());
                }
                *self = Storage { trie, entries: flat, populated: true };
                true
            },
        }
    }

    /// Fills the index from a loaded city catalog: each city is stored
    /// under its lower-cased full display name. Does nothing when the
    /// index is already populated: it is built once, then read-only.
    pub fn populate_cities(&mut self, cities: &Vec<City>)
        ensures
            old(self).spec_populated() ==> *final(self) == *old(self),
            !old(self).spec_populated() ==> final(self).spec_populated() && final(self).contents()
                == cities_inserted(no_entries(), cities@),
    {
        if self.populated {
            return ;
        }
        let mut trie = trie_new();
        let mut flat: Vec<CityEntry> = Vec::new();
        let mut i: usize = 0;
        proof {
            assert(cities@.skip(0) =~= cities@);
            assert(bucket_view(flat@) =~= Seq::<(Seq<char>, usize)>::empty());
        }
        while i < cities.len()
            invariant
                0 <= i <= cities.len(),
                cities_inserted(trie_contents(trie), cities@.skip(i as int)) == cities_inserted(
                    no_entries(),
                    cities@,
                ),
                contents_mirrored(trie_contents(trie), bucket_view(flat@)),
            decreases cities.len() - i,
        {
            let ghost rest = cities@.skip(i as int);
            let name = cities[i].full_name();
            let id = cities[i].id;
            add_entry(&mut trie, &mut flat, name, id);
            proof {
                assert(rest[0] == cities@[i as int]);
                assert(rest.drop_first() =~= cities@.skip(i + 1));
            }
            i = i + 1;
        }
        proof {
            assert(cities@.skip(i as int) =~= Seq::<City>::empty());
        }
        *self = Storage { trie, entries: flat, populated: true };
    }

    /// Prefix query: every stored entry whose key (its lower-cased
    /// display name) starts with the lower-cased query is in the result,
    /// and everything in the result is such an entry. The index imposes
    /// no minimum query length: the empty query matches every key.
    pub fn find(&self, name: &str) -> (r: Vec<CityEntry>)
        ensures
            forall|i: int|
                0 <= i < r@.len() ==> stored_pair(self.contents(), entry_view(#[trigger] r@[i]))
                    && lower_of(name@).is_prefix_of(lower_of(entry_view(r@[i]).0)),
            forall|k: Seq<char>, j: int|
                #![trigger self.contents()[k][j]]
                self.contents().dom().contains(k) && lower_of(name@).is_prefix_of(k) && 0 <= j
                    < self.contents()[k].len() ==> result_has(r@, self.contents()[k][j]),
    {
        proof {
            use_type_invariant(&*self);
        }
        let query = lowercase(name);
        if query.as_str().is_empty() {
            // The empty query is a prefix of every key, so the answer is
            // everything stored: the flat mirror.
            proof {
                assert(lower_of(name@) =~= Seq::<char>::empty());
            }
            let mut out: Vec<CityEntry> = Vec::new();
            let mut i: usize = 0;
            while i < self.entries.len()
                invariant
                    0 <= i <= self.entries.len(),
                    out@.len() == i,
                    forall|j: int|
                        0 <= j < i ==> entry_view(#[trigger] out@[j]) == self.mirror()[j],
                decreases self.entries.len() - i,
            {
                let pair = &self.entries[i];
                out.push((pair.0.clone(), pair.1));
                i = i + 1;
            }
            proof {
                let m = self.contents();
                let s = self.mirror();
                assert forall|i2: int| 0 <= i2 < out@.len() implies stored_pair(
                    m,
                    entry_view(#[trigger] out@[i2]),
                ) && lower_of(name@).is_prefix_of(lower_of(entry_view(out@[i2]).0)) by {
                    assert(entry_view(out@[i2]) == s[i2]);
                    assert(stored_pair(m, s[i2]));
                }
                assert forall|k: Seq<char>, j: int|
                    m.dom().contains(k) && lower_of(name@).is_prefix_of(k) && 0 <= j
                        < m[k].len() implies result_has(out@, #[trigger] m[k][j]) by {
                    assert(s.contains(m[k][j]));
                    let wi = choose|wi: int| 0 <= wi < s.len() && s[wi] == m[k][j];
                    assert(entry_view(out@[wi]) == s[wi]);
                }
            }
            out
        } else {
            let buckets = trie_start_with(&self.trie, query.as_str());
            let ghost m = self.contents();
            let ghost prefix = lower_of(name@);
            let mut out: Vec<CityEntry> = Vec::new();
            let mut b: usize = 0;
            while b < buckets.len()
                invariant
                    0 <= b <= buckets.len(),
                    m == self.contents(),
                    prefix == lower_of(name@),
                    contents_mirrored(m, self.mirror()),
                    forall|i: int|
                        0 <= i < buckets@.len() ==> bucket_backed(m, prefix, #[trigger] buckets@[i]),
                    forall|i: int|
                        0 <= i < out@.len() ==> stored_pair(m, entry_view(#[trigger] out@[i]))
                            && prefix.is_prefix_of(lower_of(entry_view(out@[i]).0)),
                    forall|p: int, j: int|
                        #![trigger buckets@[p]@[j]]
                        0 <= p < b && 0 <= j < buckets@[p]@.len() ==> result_has(
                            out@,
                            entry_view(buckets@[p]@[j]),
                        ),
                decreases buckets.len() - b,
            {
                let bucket = &buckets[b];
                let mut j: usize = 0;
                while j < bucket.len()
                    invariant
                        0 <= j <= bucket@.len(),
                        0 <= b < buckets@.len(),
                        bucket == &buckets@[b as int],
                        m == self.contents(),
                        prefix == lower_of(name@),
                        contents_mirrored(m, self.mirror()),
                        bucket_backed(m, prefix, buckets@[b as int]),
                        forall|i: int|
                            0 <= i < out@.len() ==> stored_pair(m, entry_view(#[trigger] out@[i]))
                                && prefix.is_prefix_of(lower_of(entry_view(out@[i]).0)),
                        forall|p: int, j2: int|
                            #![trigger buckets@[p]@[j2]]
                            0 <= p < b && 0 <= j2 < buckets@[p]@.len() ==> result_has(
                                out@,
                                entry_view(buckets@[p]@[j2]),
                            ),
                        forall|j2: int|
                            0 <= j2 < j ==> result_has(out@, entry_view(#[trigger] bucket@[j2])),
                    decreases bucket@.len() - j,
                {
                    let pair = &bucket[j];
                    proof {
                        let k = choose|k: Seq<char>| #[trigger] m.dom().contains(k)
                            && prefix.is_prefix_of(k) && bucket_view(buckets@[b as int]@) == m[k];
                        assert(entry_view(bucket@[j as int]) == bucket_view(bucket@)[j as int]);
                        assert(bucket_view(bucket@)[j as int] == m[k][j as int]);
                        assert(lower_of(m[k][j as int].0) == k);
                    }
                    let copied: CityEntry = (pair.0.clone(), pair.1);
                    let ghost out_before = out@;
                    proof {
                        assert(entry_view(copied) == entry_view(bucket@[j as int]));
                    }
                    out.push(copied);
                    proof {
                        assert(entry_view(out@[out_before.len() as int]) == entry_view(
                            bucket@[j as int],
                        ));
                        assert forall|p: int, j2: int|
                            #![trigger buckets@[p]@[j2]]
                            0 <= p < b && 0 <= j2 < buckets@[p]@.len() implies result_has(
                            out@,
                            entry_view(buckets@[p]@[j2]),
                        ) by {
                            lemma_result_has_grows(out_before, out@, entry_view(buckets@[p]@[j2]));
                        }
                        assert forall|j2: int| 0 <= j2 < j + 1 implies result_has(
                            out@,
                            entry_view(#[trigger] bucket@[j2]),
                        ) by {
                            if j2 < j {
                                lemma_result_has_grows(out_before, out@, entry_view(bucket@[j2]));
                            }
                        }
                    }
                    j = j + 1;
                }
                b = b + 1;
            }
            proof {
                assert forall|k: Seq<char>, j: int|
                    m.dom().contains(k) && prefix.is_prefix_of(k) && 0 <= j
                        < m[k].len() implies result_has(out@, #[trigger] m[k][j]) by {
                    assert(bucket_found(buckets@, m[k]));
                    let p = choose|p: int|
                        0 <= p < buckets@.len() && bucket_view((#[trigger] buckets@[p])@) == m[k];
                    assert(entry_view(buckets@[p]@[j]) == bucket_view(buckets@[p]@)[j]);
                }
            }
            out
        }
    }
}

/// One result list extends another: whatever the shorter holds, the
/// longer holds too.
proof fn lemma_result_has_grows(shorter: Seq<CityEntry>, longer: Seq<CityEntry>, e: (
    Seq<char>,
    usize,
))
    requires
        result_has(shorter, e),
        longer.len() >= shorter.len(),
        forall|i: int| 0 <= i < shorter.len() ==> longer[i] == shorter[i],
    ensures
        result_has(longer, e),
{
    let i = choose|i: int| 0 <= i < shorter.len() && entry_view(#[trigger] shorter[i]) == e;
    assert(entry_view(longer[i]) == e);
}

/// Appends one entry to the trie bucket of its lower-cased name (via
/// remove and re-insert) and to the flat mirror; an entry whose
/// lower-cased name is empty is skipped on both sides.
fn add_entry(trie: &mut RadixTrie<Bucket>, flat: &mut Vec<CityEntry>, name: String, id: usize)
    requires
        contents_mirrored(trie_contents(*old(trie)), bucket_view(old(flat)@)),
    ensures
        trie_contents(*final(trie)) == entry_inserted(trie_contents(*old(trie)), name@, id),
        contents_mirrored(trie_contents(*final(trie)), bucket_view(final(flat)@)),
{
    let key = lowercase(name.as_str());
    if key.as_str().is_empty() {
        return ;
    }
    let mut bucket: Bucket = match trie_remove(trie, key.as_str()) {
        Some(b) => b,
        None => Vec::new(),
    };
    let ghost old_contents = trie_contents(*old(trie));
    let ghost k = lower_of(name@);
    proof {
        if old_contents.dom().contains(k) {
            assert(bucket_view(bucket@) == old_contents[k]);
        } else {
            assert(bucket_view(bucket@) =~= Seq::<(Seq<char>, usize)>::empty());
        }
    }
    let ghost e = (name@, id);
    bucket.push((name.clone(), id));
    trie_insert(trie, key.as_str(), bucket);
    flat.push((name, id));
    proof {
        if old_contents.dom().contains(k) {
            assert(bucket_view(bucket@) =~= old_contents[k].push(e));
        } else {
            assert(bucket_view(bucket@) =~= seq![e]);
            assert(old_contents.insert(k, bucket_view(bucket@)) == entry_inserted(
                old_contents,
                name@,
                id,
            ));
        }
        assert(trie_contents(*final(trie)) == entry_inserted(old_contents, name@, id));
        assert(bucket_view(final(flat)@) =~= bucket_view(old(flat)@).push(e));
        lemma_mirrored_step(old_contents, bucket_view(old(flat)@), name@, id);
    }
}

/// An entry with a non-empty lower-cased name ends up in the bucket of
/// that name: the index keeps every entry of the batch, colliding names
/// included. Together with `find`'s contract this makes the prefix
/// search complete: `find` returns the entry for every query whose
/// lower-cased text prefixes the key.
pub proof fn lemma_entries_inserted_contains(
    m: Map<Seq<char>, Seq<(Seq<char>, usize)>>,
    entries: Seq<(Seq<char>, usize)>,
    i: int,
)
    requires
        0 <= i < entries.len(),
        lower_of(entries[i].0).len() > 0,
    ensures
        entries_inserted(m, entries).dom().contains(lower_of(entries[i].0)),
        entries_inserted(m, entries)[lower_of(entries[i].0)].contains(entries[i]),
    decreases entries.len(),
{
    let rest = entries.drop_first();
    let m1 = entry_inserted(m, entries[0].0, entries[0].1);
    if i == 0 {
        let k = lower_of(entries[0].0);
        assert(m1[k][m1[k].len() - 1] == entries[0]);
        lemma_entries_inserted_monotone(m1, rest, k, entries[0]);
    } else {
        assert(rest[i - 1] == entries[i]);
        lemma_entries_inserted_contains(m1, rest, i - 1);
    }
}

/// Later insertions never drop what a bucket already holds.
proof fn lemma_entries_inserted_monotone(
    m: Map<Seq<char>, Seq<(Seq<char>, usize)>>,
    entries: Seq<(Seq<char>, usize)>,
    k: Seq<char>,
    e: (Seq<char>, usize),
)
    requires
        m.dom().contains(k),
        m[k].contains(e),
    ensures
        entries_inserted(m, entries).dom().contains(k),
        entries_inserted(m, entries)[k].contains(e),
    decreases entries.len(),
{
    if entries.len() > 0 {
        let m1 = entry_inserted(m, entries[0].0, entries[0].1);
        if lower_of(entries[0].0) == k && lower_of(entries[0].0).len() > 0 {
            lemma_contains_push(m[k], entries[0], e);
        }
        lemma_entries_inserted_monotone(m1, entries.drop_first(), k, e);
    }
}

/// A city with a non-empty lower-cased full name ends up in the bucket
/// of that name with its id, whatever other cities the catalog holds; so
/// `find` returns it for every query whose lower-cased text prefixes
/// that name.
pub proof fn lemma_cities_inserted_contains(
    m: Map<Seq<char>, Seq<(Seq<char>, usize)>>,
    cities: Seq<City>,
    i: int,
)
    requires
        0 <= i < cities.len(),
        lower_of(cities[i].spec_full_name()).len() > 0,
    ensures
        cities_inserted(m, cities).dom().contains(lower_of(cities[i].spec_full_name())),
        cities_inserted(m, cities)[lower_of(cities[i].spec_full_name())].contains(
            (cities[i].spec_full_name(), cities[i].id),
        ),
    decreases cities.len(),
{
    let rest = cities.drop_first();
    let m1 = entry_inserted(m, cities[0].spec_full_name(), cities[0].id);
    if i == 0 {
        let k = lower_of(cities[0].spec_full_name());
        assert(m1[k][m1[k].len() - 1] == (cities[0].spec_full_name(), cities[0].id));
        lemma_cities_inserted_monotone(m1, rest, k, (cities[0].spec_full_name(), cities[0].id));
    } else {
        assert(rest[i - 1] == cities[i]);
        lemma_cities_inserted_contains(m1, rest, i - 1);
    }
}

proof fn lemma_cities_inserted_monotone(
    m: Map<Seq<char>, Seq<(Seq<char>, usize)>>,
    cities: Seq<City>,
    k: Seq<char>,
    e: (Seq<char>, usize),
)
    requires
        m.dom().contains(k),
        m[k].contains(e),
    ensures
        cities_inserted(m, cities).dom().contains(k),
        cities_inserted(m, cities)[k].contains(e),
    decreases cities.len(),
{
    if cities.len() > 0 {
        let m1 = entry_inserted(m, cities[0].spec_full_name(), cities[0].id);
        if lower_of(cities[0].spec_full_name()) == k && lower_of(
            cities[0].spec_full_name(),
        ).len() > 0 {
            lemma_contains_push(m[k], (cities[0].spec_full_name(), cities[0].id), e);
        }
        lemma_cities_inserted_monotone(m1, cities.drop_first(), k, e);
    }
}

} // verus!
