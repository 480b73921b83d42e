//! A table of textual options, ordered by key.

use vstd::prelude::*;

use crate::text::{
    comes_before, lemma_text_less_irreflexive, lemma_text_less_total, lemma_text_less_transitive,
    text_less,
};

verus! {

/// The keys of a list of options, in order.
pub open spec fn keys_increase(s: Seq<(Seq<char>, Seq<char>)>) -> bool {
    forall|i: int, j: int|
        0 <= i < j < s.len() ==> #[trigger] text_less((#[trigger] s[i]).0, (#[trigger] s[j]).0)
}

/// The characters of a list of pairs of strings.
pub open spec fn pair_texts(s: Seq<(String, String)>) -> Seq<(Seq<char>, Seq<char>)> {
    s.map_values(|p: (String, String)| (p.0@, p.1@))
}

/// The options of a list: of two entries with one key the later one counts.
pub open spec fn options_of(s: Seq<(Seq<char>, Seq<char>)>) -> Map<Seq<char>, Seq<char>>
    decreases s.len(),
{
    if s.len() == 0 {
        Map::empty()
    } else {
        options_of(s.drop_last()).insert(s.last().0, s.last().1)
    }
}

/// Options that are kept ordered by key, each key at most once.
pub struct OptionTable {
    entries: Vec<(String, String)>,
}

impl View for OptionTable {
    type V = Map<Seq<char>, Seq<char>>;

    closed spec fn view(&self) -> Map<Seq<char>, Seq<char>> {
        options_of(pair_texts(self.entries@))
    }
}

proof fn lemma_options_lookup(s: Seq<(Seq<char>, Seq<char>)>)
    requires
        keys_increase(s),
    ensures
        forall|i: int|
            0 <= i < s.len() ==> options_of(s).contains_key((#[trigger] s[i]).0) && options_of(
                s,
            )[s[i].0] == s[i].1,
        forall|k: Seq<char>|
            #[trigger] options_of(s).contains_key(k) ==> exists|i: int|
                0 <= i < s.len() && (#[trigger] s[i]).0 == k,
    decreases s.len(),
{
    if s.len() > 0 {
        let t = s.drop_last();
        assert forall|i: int, j: int| 0 <= i < j < t.len() implies #[trigger] text_less(
            (#[trigger] t[i]).0,
            (#[trigger] t[j]).0,
        ) by {
            assert(t[i] == s[i] && t[j] == s[j]);
            assert(text_less(s[i].0, s[j].0));
        }
        lemma_options_lookup(t);
        assert forall|i: int| 0 <= i < s.len() implies options_of(s).contains_key(
            (#[trigger] s[i]).0,
        ) && options_of(s)[s[i].0] == s[i].1 by {
            if i < s.len() - 1 {
                assert(t[i] == s[i]);
                assert(text_less(s[i].0, s[s.len() - 1].0));
                lemma_text_less_irreflexive(s[i].0);
            }
        }
        assert forall|k: Seq<char>| #[trigger] options_of(s).contains_key(k) implies exists|i: int|
            0 <= i < s.len() && (#[trigger] s[i]).0 == k by {
            if k == s.last().0 {
                assert(s[s.len() - 1].0 == k);
            } else {
                assert(options_of(t).contains_key(k));
                let i = choose|i: int| 0 <= i < t.len() && (#[trigger] t[i]).0 == k;
                assert(s[i].0 == k);
            }
        }
    }
}

/// Two ordered lists that hold the same options are the same list.
pub proof fn lemma_ordered_options_unique(
    a: Seq<(Seq<char>, Seq<char>)>,
    b: Seq<(Seq<char>, Seq<char>)>,
)
    requires
        keys_increase(a),
        keys_increase(b),
        forall|p: (Seq<char>, Seq<char>)| a.contains(p) <==> b.contains(p),
    ensures
        a == b,
    decreases a.len(),
{
    if a.len() == 0 {
        if b.len() > 0 {
            assert(b.contains(b[0]));
            assert(a.contains(b[0]));
        }
        assert(a =~= b);
    } else {
        assert(a.contains(a[0]));
        assert(b.contains(a[0]));
        assert(b.len() > 0);
        let x = a[a.len() - 1];
        let y = b[b.len() - 1];
        assert(a.contains(x) && b.contains(y));
        assert(b.contains(x) && a.contains(y));
        let i = choose|i: int| 0 <= i < b.len() && b[i] == x;
        let j = choose|j: int| 0 <= j < a.len() && a[j] == y;
        if i < b.len() - 1 && j < a.len() - 1 {
            assert(text_less(b[i].0, b[b.len() - 1].0));
            assert(text_less(a[j].0, a[a.len() - 1].0));
            lemma_text_less_transitive(x.0, y.0, x.0);
            lemma_text_less_irreflexive(x.0);
        }
        assert(x == y);
        let a1 = a.drop_last();
        let b1 = b.drop_last();
        lemma_prefix_ordered(a);
        lemma_prefix_ordered(b);
        assert forall|p: (Seq<char>, Seq<char>)| a1.contains(p) <==> b1.contains(p) by {
            if a1.contains(p) {
                let k = choose|k: int| 0 <= k < a1.len() && a1[k] == p;
                assert(a[k] == p);
                assert(a.contains(p));
                let l = choose|l: int| 0 <= l < b.len() && b[l] == p;
                if l == b.len() - 1 {
                    assert(text_less(a[k].0, a[a.len() - 1].0));
                    lemma_text_less_irreflexive(p.0);
                }
                assert(b1[l] == p);
            }
            if b1.contains(p) {
                let k = choose|k: int| 0 <= k < b1.len() && b1[k] == p;
                assert(b[k] == p);
                assert(b.contains(p));
                let l = choose|l: int| 0 <= l < a.len() && a[l] == p;
                if l == a.len() - 1 {
                    assert(text_less(b[k].0, b[b.len() - 1].0));
                    lemma_text_less_irreflexive(p.0);
                }
                assert(a1[l] == p);
            }
        }
        lemma_ordered_options_unique(a1, b1);
        assert(a =~= a1.push(x));
        assert(b =~= b1.push(y));
    }
}

proof fn lemma_prefix_ordered(s: Seq<(Seq<char>, Seq<char>)>)
    requires
        s.len() > 0,
        keys_increase(s),
    ensures
        keys_increase(s.drop_last()),
{
    let t = s.drop_last();
    assert forall|i: int, j: int| 0 <= i < j < t.len() implies #[trigger] text_less(
        (#[trigger] t[i]).0,
        (#[trigger] t[j]).0,
    ) by {
        assert(t[i] == s[i] && t[j] == s[j]);
        assert(text_less(s[i].0, s[j].0));
    }
}

impl OptionTable {
    /// The keys of the table increase.
    pub closed spec fn wf(self) -> bool {
        keys_increase(pair_texts(self.entries@))
    }

    /// The options in the order of their keys.
    pub closed spec fn listing(self) -> Seq<(Seq<char>, Seq<char>)> {
        pair_texts(self.entries@)
    }

    /// The listing of a table is ordered and holds exactly its options.
    pub proof fn lemma_listing(self)
        requires
            self.wf(),
        ensures
            keys_increase(self.listing()),
            forall|i: int|
                0 <= i < self.listing().len() ==> self@.contains_key(
                    (#[trigger] self.listing()[i]).0,
                ) && self@[self.listing()[i].0] == self.listing()[i].1,
            forall|k: Seq<char>|
                #[trigger] self@.contains_key(k) ==> exists|i: int|
                    0 <= i < self.listing().len() && (#[trigger] self.listing()[i]).0 == k,
    {
        lemma_options_lookup(self.listing());
    }

    /// A table without options.
    pub fn new() -> (r: Self)
        ensures
            r.wf(),
            r@ == Map::<Seq<char>, Seq<char>>::empty(),
    {
        let r = OptionTable { entries: Vec::new() };
        assert(pair_texts(r.entries@) =~= Seq::empty());
        r
    }

    /// How many options there are.
    pub fn len(&self) -> (r: usize)
        ensures
            r == self.listing().len(),
    {
        self.entries.len()
    }

    /// The option at a position of the listing.
    pub fn entry(&self, i: usize) -> (r: (&str, &str))
        requires
            i < self.listing().len(),
        ensures
            (r.0@, r.1@) == self.listing()[i as int],
    {
        let p = &self.entries[i];
        (p.0.as_str(), p.1.as_str())
    }

    /// Sets an option.
    pub fn insert(&mut self, key: &str, value: String)
        requires
            old(self).wf(),
        ensures
            final(self).wf(),
            final(self)@ == old(self)@.insert(key@, value@),
    {
        let ghost before = pair_texts(self.entries@);
        let mut i: usize = 0;
        while i < self.entries.len() && comes_before(self.entries[i].0.as_str(), key)
            invariant
                i <= self.entries.len(),
                before == pair_texts(self.entries@),
                keys_increase(before),
                forall|j: int| 0 <= j < i ==> text_less((#[trigger] before[j]).0, key@),
            decreases self.entries.len() - i,
        {
            assert(before[i as int].0 == self.entries@[i as int].0@);
            i += 1;
        }
        let found = i < self.entries.len() && self.entries[i].0 == key.to_owned();
        let ghost v = value@;
        if found {
            assert(before[i as int].0 == key@);
            self.entries.set(i, (key.to_owned(), value));
        } else {
            self.entries.insert(i, (key.to_owned(), value));
        }
        proof {
            let after = pair_texts(self.entries@);
            let p = (key@, v);
            if found {
                assert(after =~= before.update(i as int, p));
                assert forall|a: int, b: int| 0 <= a < b < after.len() implies #[trigger] text_less(
                    (#[trigger] after[a]).0,
                    (#[trigger] after[b]).0,
                ) by {
                    assert(text_less(before[a].0, before[b].0));
                }
            } else {
                assert(after =~= before.insert(i as int, p));
                if i < before.len() {
                    assert(before[i as int].0 == self.entries@[i + 1].0@);
                    lemma_text_less_total(before[i as int].0, key@);
                }
                assert forall|a: int, b: int| 0 <= a < b < after.len() implies #[trigger] text_less(
                    (#[trigger] after[a]).0,
                    (#[trigger] after[b]).0,
                ) by {
                    if a < i && b > i {
                        assert(text_less(before[a].0, before[b - 1].0));
                    } else if a < i && b == i {
                        assert(text_less(before[a].0, key@));
                    } else if a < i {
                        assert(text_less(before[a].0, before[b].0));
                    } else if a == i {
                        assert(text_less(key@, before[i as int].0));
                        if b > i + 1 {
                            assert(text_less(before[i as int].0, before[b - 1].0));
                            lemma_text_less_transitive(key@, before[i as int].0, before[b - 1].0);
                        }
                    } else {
                        assert(text_less(before[a - 1].0, before[b - 1].0));
                    }
                }
            }
            lemma_options_lookup(before);
            lemma_options_lookup(after);
            let m = options_of(before).insert(key@, v);
            assert(after[i as int] == p);
            assert forall|k: Seq<char>| options_of(after).contains_key(k) <==> m.contains_key(
                k,
            ) by {
                if options_of(after).contains_key(k) {
                    let a = choose|a: int| 0 <= a < after.len() && (#[trigger] after[a]).0 == k;
                    if a < i {
                        assert(after[a] == before[a]);
                    } else if a > i {
                        if found {
                            assert(after[a] == before[a]);
                        } else {
                            assert(after[a] == before[a - 1]);
                        }
                    }
                }
                if m.contains_key(k) && k != key@ {
                    assert(options_of(before).contains_key(k));
                    let a = choose|a: int| 0 <= a < before.len() && (#[trigger] before[a]).0 == k;
                    if a < i || found {
                        assert(after[a] == before[a]);
                    } else {
                        assert(after[a + 1] == before[a]);
                    }
                }
            }
            assert forall|k: Seq<char>| #[trigger] m.contains_key(k) implies options_of(after)[k]
                == m[k] by {
                if k != key@ {
                    assert(options_of(before).contains_key(k));
                    let a = choose|a: int| 0 <= a < before.len() && (#[trigger] before[a]).0 == k;
                    if a < i || found {
                        assert(after[a] == before[a]);
                    } else {
                        assert(after[a + 1] == before[a]);
                    }
                }
            }
            assert(options_of(after) =~= m);
        }
    }

    /// The value of an option.
    pub fn get(&self, key: &str) -> (r: Option<String>)
        requires
            self.wf(),
        ensures
            match r {
                Some(v) => self@.contains_key(key@) && self@[key@] == v@,
                None => !self@.contains_key(key@),
            },
    {
        let ghost all = pair_texts(self.entries@);
        proof {
            lemma_options_lookup(all);
        }
        let wanted = key.to_owned();
        let mut i: usize = 0;
        while i < self.entries.len()
            invariant
                i <= self.entries.len(),
                all == pair_texts(self.entries@),
                wanted@ == key@,
                self@ == options_of(all),
                forall|j: int| 0 <= j < i ==> (#[trigger] all[j]).0 != key@,
                forall|j: int|
                    0 <= j < all.len() ==> options_of(all).contains_key((#[trigger] all[j]).0)
                        && options_of(all)[all[j].0] == all[j].1,
            decreases self.entries.len() - i,
        {
            assert(all[i as int].0 == self.entries@[i as int].0@);
            if self.entries[i].0 == wanted {
                return Some(self.entries[i].1.clone());
            }
            i += 1;
        }
        None
    }
}

} // verus!
