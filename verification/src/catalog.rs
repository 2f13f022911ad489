//! Keyed tables of names (warp locations, hats) and the two tables the bot
//! offers to its viewers.
use vstd::prelude::*;
use vstd::string::*;
use crate::text::{chars_of, joined, join_from, owned};

verus! {

broadcast use vstd::seq_lib::group_seq_properties;

/// A table entry: a key and the value it stands for.
pub type EntryView = (Seq<char>, Seq<char>);

/// The index of the first entry whose key is `k`, or -1.
pub open spec fn index_of_key(s: Seq<EntryView>, k: Seq<char>) -> int
    decreases s.len(),
{
    if s.len() == 0 {
        -1
    } else {
        let j = index_of_key(s.drop_last(), k);
        if j >= 0 {
            j
        } else if s.last().0 == k {
            s.len() - 1
        } else {
            -1
        }
    }
}

/// The value stored under `k`.
pub open spec fn lookup(s: Seq<EntryView>, k: Seq<char>) -> Option<Seq<char>> {
    let j = index_of_key(s, k);
    if j >= 0 {
        Some(s[j].1)
    } else {
        None
    }
}

/// `s` with `k` mapped to `v`: the value replaced in place where `k` is
/// present, a new entry at the end otherwise.
pub open spec fn with_entry(s: Seq<EntryView>, k: Seq<char>, v: Seq<char>) -> Seq<EntryView> {
    let j = index_of_key(s, k);
    if j >= 0 {
        s.update(j, (k, v))
    } else {
        s.push((k, v))
    }
}

/// The table that inserting `pairs` one after another into an empty table
/// gives; a later pair with an earlier key replaces the earlier value.
pub open spec fn from_pairs(pairs: Seq<EntryView>) -> Seq<EntryView>
    decreases pairs.len(),
{
    if pairs.len() == 0 {
        Seq::empty()
    } else {
        with_entry(from_pairs(pairs.drop_last()), pairs.last().0, pairs.last().1)
    }
}

/// The keys of the table, in table order.
pub open spec fn keys_of(s: Seq<EntryView>) -> Seq<Seq<char>> {
    s.map_values(|e: EntryView| e.0)
}

/// No key occurs twice.
pub open spec fn keys_distinct(s: Seq<EntryView>) -> bool {
    forall|i: int, j: int| 0 <= i < j < s.len() ==> #[trigger] s[i].0 != #[trigger] s[j].0
}

proof fn lemma_index_of_key(s: Seq<EntryView>, k: Seq<char>)
    ensures
        -1 <= index_of_key(s, k) < s.len(),
        index_of_key(s, k) >= 0 ==> s[index_of_key(s, k)].0 == k,
        index_of_key(s, k) >= 0 ==> forall|i: int| 0 <= i < index_of_key(s, k) ==> s[i].0 != k,
        index_of_key(s, k) < 0 ==> forall|i: int| 0 <= i < s.len() ==> s[i].0 != k,
    decreases s.len(),
{
    if s.len() > 0 {
        let d = s.drop_last();
        lemma_index_of_key(d, k);
        assert forall|i: int| 0 <= i < d.len() implies d[i] == s[i] by {}
        let j = index_of_key(s, k);
        if j >= 0 {
            assert forall|i: int| 0 <= i < j implies s[i].0 != k by {
                assert(d[i] == s[i]);
            }
        } else {
            assert forall|i: int| 0 <= i < s.len() implies s[i].0 != k by {
                if i < d.len() {
                    assert(d[i] == s[i]);
                }
            }
        }
    }
}

/// Inserting keeps the keys of a table distinct.
pub proof fn lemma_with_entry_distinct(s: Seq<EntryView>, k: Seq<char>, v: Seq<char>)
    requires
        keys_distinct(s),
    ensures
        keys_distinct(with_entry(s, k, v)),
{
    lemma_index_of_key(s, k);
}

/// Every table built from pairs lists each key once.
pub proof fn lemma_from_pairs_distinct(pairs: Seq<EntryView>)
    ensures
        keys_distinct(from_pairs(pairs)),
    decreases pairs.len(),
{
    if pairs.len() > 0 {
        lemma_from_pairs_distinct(pairs.drop_last());
        lemma_with_entry_distinct(
            from_pairs(pairs.drop_last()),
            pairs.last().0,
            pairs.last().1,
        );
    }
}

/// After `k` is mapped to `v`, a lookup of `k` gives `v`, and a lookup
/// of any other key gives what it gave before.
pub proof fn lemma_lookup_after_insert(s: Seq<EntryView>, k: Seq<char>, v: Seq<char>, q: Seq<char>)
    ensures
        lookup(with_entry(s, k, v), q) == if q == k {
            Some(v)
        } else {
            lookup(s, q)
        },
{
    lemma_index_of_key(s, k);
    lemma_index_of_key(s, q);
    let t = with_entry(s, k, v);
    lemma_index_of_key(t, q);
    let jk = index_of_key(s, k);
    let jq = index_of_key(s, q);
    let tq = index_of_key(t, q);
    if jk >= 0 {
        assert(t.len() == s.len());
        if q == k {
            assert(t[jk].0 == q);
            if tq < jk {
                assert(t[tq] == s[tq]);
            }
        } else {
            if tq >= 0 && tq != jk {
                assert(t[tq] == s[tq]);
            }
            if jq >= 0 {
                assert(t[jq] == s[jq]);
            }
        }
    } else {
        if q == k {
            assert(t[s.len() as int].0 == q);
        } else {
            if tq >= 0 && tq < s.len() {
                assert(t[tq] == s[tq]);
            }
            if jq >= 0 {
                assert(t[jq] == s[jq]);
            }
        }
    }
}

/// A table of names keyed by the word that a viewer types.
#[derive(Clone, Debug)]
pub struct Lookup {
    entries: Vec<(String, String)>,
}

impl View for Lookup {
    type V = Seq<EntryView>;

    closed spec fn view(&self) -> Seq<EntryView> {
        self.entries@.map_values(|e: (String, String)| (e.0@, e.1@))
    }
}

impl Lookup {
    /// An empty table.
    pub fn new() -> (r: Lookup)
        ensures
            r@ == Seq::<EntryView>::empty(),
    {
        let r = Lookup { entries: Vec::new() };
        assert(r@ =~= Seq::<EntryView>::empty());
        r
    }

    /// The number of entries.
    pub fn len(&self) -> (r: usize)
        ensures
            r == self@.len(),
    {
        self.entries.len()
    }

    fn find(&self, key: &[char]) -> (r: Option<usize>)
        ensures
            match r {
                Some(j) => j as int == index_of_key(self@, key@) && j < self@.len(),
                None => index_of_key(self@, key@) < 0,
            },
    {
        let mut i: usize = 0;
        while i < self.entries.len()
            invariant
                i <= self.entries@.len(),
                self@.len() == self.entries@.len(),
                forall|j: int| 0 <= j < i ==> self@[j].0 != key@,
            decreases self.entries@.len() - i,
        {
            let k = chars_of(self.entries[i].0.as_str());
            if vec_eq(&k, key) {
                proof {
                    lemma_index_of_key(self@, key@);
                    assert(self@[i as int].0 == key@);
                    let idx = index_of_key(self@, key@);
                    if 0 <= idx < i {
                        assert(self@[idx].0 == key@);
                    }
                }
                return Some(i);
            }
            i = i + 1;
        }
        proof {
            lemma_index_of_key(self@, key@);
        }
        None
    }

    /// Maps `key` to `value`, replacing an earlier value of the same key.
    pub fn insert(&mut self, key: String, value: String)
        ensures
            final(self)@ == with_entry(old(self)@, key@, value@),
    {
        let kc = chars_of(key.as_str());
        let found = self.find(&kc);
        match found {
            Some(j) => {
                self.entries.set(j, (key, value));
                assert(self@ =~= with_entry(old(self)@, kc@, value@));
            },
            None => {
                self.entries.push((key, value));
                assert(self@ =~= with_entry(old(self)@, kc@, value@));
            },
        }
    }

    /// The value stored under `key`.
    pub fn get(&self, key: &[char]) -> (r: Option<String>)
        ensures
            match r {
                Some(v) => lookup(self@, key@) == Some(v@),
                None => lookup(self@, key@) is None,
            },
    {
        match self.find(key) {
            Some(j) => Some(self.entries[j].1.clone()),
            None => None,
        }
    }

    /// The value stored under the key `key`.
    pub fn get_str(&self, key: &str) -> (r: Option<String>)
        ensures
            match r {
                Some(v) => lookup(self@, key@) == Some(v@),
                None => lookup(self@, key@) is None,
            },
    {
        let k = chars_of(key);
        self.get(&k)
    }

    /// The keys, in table order, joined by ", ".
    pub fn listing(&self) -> (r: String)
        ensures
            r@ == joined(keys_of(self@), ", "@),
    {
        let mut ks: Vec<String> = Vec::new();
        let mut i: usize = 0;
        while i < self.entries.len()
            invariant
                i <= self.entries@.len(),
                self@.len() == self.entries@.len(),
                ks@.len() == i,
                forall|j: int| 0 <= j < i ==> #[trigger] ks@[j]@ == self.entries@[j].0@,
            decreases self.entries@.len() - i,
        {
            ks.push(self.entries[i].0.clone());
            i = i + 1;
        }
        assert forall|j: int| 0 <= j < i implies #[trigger] ks.deep_view()[j] == keys_of(self@)[j] by {
            assert(ks@[j]@ == self.entries@[j].0@);
        }
        assert(ks.deep_view() =~= keys_of(self@));
        let r = join_from(&ks, 0, ", ");
        assert(ks.deep_view().skip(0) =~= ks.deep_view());
        r
    }

    /// The table built by inserting `pairs` in order.
    pub fn from_literal_pairs(pairs: &Vec<(&str, &str)>) -> (r: Lookup)
        ensures
            r@ == from_pairs(literal_view(pairs@)),
    {
        let mut t = Lookup::new();
        let mut i: usize = 0;
        while i < pairs.len()
            invariant
                i <= pairs@.len(),
                t@ == from_pairs(literal_view(pairs@).take(i as int)),
            decreases pairs@.len() - i,
        {
            let (k, v) = pairs[i];
            t.insert(owned(k), owned(v));
            i = i + 1;
            assert(literal_view(pairs@).take(i as int).drop_last() =~= literal_view(pairs@).take(
                i - 1,
            ));
        }
        assert(literal_view(pairs@).take(i as int) =~= literal_view(pairs@));
        t
    }
}

/// The characters of a list of string pairs.
pub open spec fn literal_view(pairs: Seq<(&str, &str)>) -> Seq<EntryView> {
    pairs.map_values(|p: (&str, &str)| (p.0@, p.1@))
}

/// Whether two character vectors are equal.
pub fn vec_eq(a: &[char], b: &[char]) -> (r: bool)
    ensures
        r == (a@ == b@),
{
    if a.len() != b.len() {
        return false;
    }
    let mut i: usize = 0;
    while i < a.len()
        invariant
            a@.len() == b@.len(),
            i <= a@.len(),
            forall|j: int| 0 <= j < i ==> a@[j] == b@[j],
        decreases a@.len() - i,
    {
        if a[i] != b[i] {
            return false;
        }
        i = i + 1;
    }
    assert(a@ =~= b@);
    true
}

/// The warp locations: the word a viewer types and the in-game location name.
pub open spec fn warp_pairs() -> Seq<EntryView> {
    seq![
        ("big"@, "Big Island"@),
        ("build"@, "i forgot how to build"@),
        ("fountain"@, "Fountain"@),
        ("fumofas"@, "Fumofas Park"@),
        ("minesweeper"@, "Minesweeper"@),
        ("pof"@, "plates of fate v1.5"@),
        ("poolside"@, "Poolside"@),
        ("radio"@, "Radio Rock + Raging Demon Raceway"@),
        ("ruins"@, "Ruins"@),
        ("shrimp"@, "Shreimp Mart"@),
        ("sky"@, "Floating Island"@),
        ("fire"@, "Fireside Island"@),
        ("beach"@, "Beach"@),
        ("beachhouse"@, "Beach House"@),
        ("devil"@, "Scarlet Devil Mansion"@),
        ("highway"@, "Highway"@),
        ("sewers"@, "Rat Sewers"@),
        ("bowling"@, "Bowling"@),
        ("cave"@, "Cave"@),
        ("ice"@, "Ice Town"@),
    ]
}

/// The hats: the word a viewer types and the in-game hat name. The key
/// "marisa6" appears twice; the later value replaces the earlier.
pub open spec fn hat_pairs() -> Seq<EntryView> {
    seq![
        ("none"@, "none"@),
        ("bird"@, "bird"@),
        ("doremy"@, "DoremyHatOMGG"@),
        ("fire1"@, "Diable Jambe V1"@),
        ("fire2"@, "Diable Jambe V2"@),
        ("glasses1"@, "Keine"@),
        ("glasses2"@, "gagglasses"@),
        ("glasses3"@, "KaminaGlasses"@),
        ("hanyuu"@, "hanyuuhat"@),
        ("koishi"@, "KOISHIIIIIIII"@),
        ("marisa1"@, "MarisaHat"@),
        ("marisa2"@, "Marisav2Hat"@),
        ("marisa3"@, "MarisasoewHat"@),
        ("marisa4"@, "Marisapc98casualHat"@),
        ("marisa5"@, "redmarisahat"@),
        ("marisa6"@, "MarisaufoHat"@),
        ("marisa6"@, "Marisapc98Hat"@),
        ("meiling"@, "meilinghat"@),
        ("miko"@, "MikoCape"@),
        ("niko"@, "NikoHat"@),
        ("pancake"@, "pancak"@),
        ("scythe"@, "ellyscythe"@),
        ("strawberry"@, "Strawberry"@),
        ("youmu"@, "youmumyonandswords"@),
    ]
}

/// The warp locations and their keys listed for viewers.
pub fn get_warp_locations() -> (r: (Lookup, String))
    ensures
        r.0@ == from_pairs(warp_pairs()),
        r.1@ == joined(keys_of(r.0@), ", "@),
{
    let pairs: Vec<(&str, &str)> = vec![
        ("big", "Big Island"),
        ("build", "i forgot how to build"),
        ("fountain", "Fountain"),
        ("fumofas", "Fumofas Park"),
        ("minesweeper", "Minesweeper"),
        ("pof", "plates of fate v1.5"),
        ("poolside", "Poolside"),
        ("radio", "Radio Rock + Raging Demon Raceway"),
        ("ruins", "Ruins"),
        ("shrimp", "Shreimp Mart"),
        ("sky", "Floating Island"),
        ("fire", "Fireside Island"),
        ("beach", "Beach"),
        ("beachhouse", "Beach House"),
        ("devil", "Scarlet Devil Mansion"),
        ("highway", "Highway"),
        ("sewers", "Rat Sewers"),
        ("bowling", "Bowling"),
        ("cave", "Cave"),
        ("ice", "Ice Town"),
    ];
    let t = Lookup::from_literal_pairs(&pairs);
    assert(literal_view(pairs@) =~= warp_pairs());
    let listing = t.listing();
    (t, listing)
}

/// The hats and their keys listed for viewers.
pub fn get_hat_types() -> (r: (Lookup, String))
    ensures
        r.0@ == from_pairs(hat_pairs()),
        r.1@ == joined(keys_of(r.0@), ", "@),
{
    let pairs: Vec<(&str, &str)> = vec![
        ("none", "none"),
        ("bird", "bird"),
        ("doremy", "DoremyHatOMGG"),
        ("fire1", "Diable Jambe V1"),
        ("fire2", "Diable Jambe V2"),
        ("glasses1", "Keine"),
        ("glasses2", "gagglasses"),
        ("glasses3", "KaminaGlasses"),
        ("hanyuu", "hanyuuhat"),
        ("koishi", "KOISHIIIIIIII"),
        ("marisa1", "MarisaHat"),
        ("marisa2", "Marisav2Hat"),
        ("marisa3", "MarisasoewHat"),
        ("marisa4", "Marisapc98casualHat"),
        ("marisa5", "redmarisahat"),
        ("marisa6", "MarisaufoHat"),
        ("marisa6", "Marisapc98Hat"),
        ("meiling", "meilinghat"),
        ("miko", "MikoCape"),
        ("niko", "NikoHat"),
        ("pancake", "pancak"),
        ("scythe", "ellyscythe"),
        ("strawberry", "Strawberry"),
        ("youmu", "youmumyonandswords"),
    ];
    let t = Lookup::from_literal_pairs(&pairs);
    assert(literal_view(pairs@) =~= hat_pairs());
    let listing = t.listing();
    (t, listing)
}

} // verus!

verus! {

/// Every key that a table lists resolves to a value, and a key that it
/// does not list resolves to nothing.
pub proof fn lemma_listed_keys_resolve(s: Seq<EntryView>, k: Seq<char>)
    ensures
        (lookup(s, k) is Some) == keys_of(s).contains(k),
{
    lemma_index_of_key(s, k);
    let j = index_of_key(s, k);
    if j >= 0 {
        assert(keys_of(s)[j] == k);
    } else if keys_of(s).contains(k) {
        let i = choose|i: int| 0 <= i < keys_of(s).len() && keys_of(s)[i] == k;
        assert(s[i].0 == k);
    }
}

} // verus!
