//! The localization table: a key-to-text mapping flattened from the
//! sections of a key/value configuration source, later entries winning on
//! key collision. Lookups that miss fall back to echoing the key.
use vstd::prelude::*;
use vstd::string::StringExecFns;

use crate::text::str_eq;

verus! {

/// The character-level view of a list of key/value pairs.
pub open spec fn pairs_view(entries: Seq<(String, String)>) -> Seq<(Seq<char>, Seq<char>)> {
    entries.map(|i: int, kv: (String, String)| (kv.0@, kv.1@))
}

/// The mapping that a list of key/value pairs builds when each pair is
/// inserted in order: a later pair overwrites an earlier one with the
/// same key.
pub open spec fn map_of(pairs: Seq<(Seq<char>, Seq<char>)>) -> Map<Seq<char>, Seq<char>>
    decreases pairs.len(),
{
    if pairs.len() == 0 {
        Map::empty()
    } else {
        map_of(pairs.drop_last()).insert(pairs.last().0, pairs.last().1)
    }
}

/// The pairs of every section, joined in section order.
pub open spec fn joined_sections(secs: Seq<Seq<(Seq<char>, Seq<char>)>>) -> Seq<
    (Seq<char>, Seq<char>),
>
    decreases secs.len(),
{
    if secs.len() == 0 {
        Seq::empty()
    } else {
        joined_sections(secs.drop_last()) + secs.last()
    }
}

/// The character-level view of a list of sections of key/value pairs.
pub open spec fn sections_view(secs: Seq<Vec<(String, String)>>) -> Seq<
    Seq<(Seq<char>, Seq<char>)>,
> {
    secs.map(|i: int, sec: Vec<(String, String)>| pairs_view(sec@))
}

/// The single flattened namespace that a sectioned key/value source
/// yields: all sections joined in order, later entries overwriting
/// earlier ones.
pub open spec fn flattened_map(secs: Seq<Seq<(Seq<char>, Seq<char>)>>) -> Map<
    Seq<char>,
    Seq<char>,
> {
    map_of(joined_sections(secs))
}

/// What a lookup in table `m` yields for `key`: the mapped text when the
/// key is present, the key itself otherwise.
pub open spec fn localized(m: Map<Seq<char>, Seq<char>>, key: Seq<char>) -> Seq<char> {
    if m.dom().contains(key) {
        m[key]
    } else {
        key
    }
}

proof fn lemma_pairs_view_push(s: Seq<(String, String)>, p: (String, String))
    ensures
        pairs_view(s.push(p)) =~~= pairs_view(s).push((p.0@, p.1@)),
{
    assert forall|i: int| 0 <= i < s.len() + 1 implies #[trigger] pairs_view(s.push(p))[i]
        == pairs_view(s).push((p.0@, p.1@))[i] by {
        if i < s.len() {
            assert(s.push(p)[i] == s[i]);
        } else {
            assert(s.push(p)[i] == p);
        }
    }
}

proof fn lemma_map_of_absent(pairs: Seq<(Seq<char>, Seq<char>)>, key: Seq<char>)
    requires
        forall|i: int| 0 <= i < pairs.len() ==> (#[trigger] pairs[i]).0 != key,
    ensures
        !map_of(pairs).dom().contains(key),
    decreases pairs.len(),
{
    if pairs.len() > 0 {
        lemma_map_of_absent(pairs.drop_last(), key);
    }
}

proof fn lemma_map_of_found(pairs: Seq<(Seq<char>, Seq<char>)>, key: Seq<char>, i: int)
    requires
        0 <= i < pairs.len(),
        pairs[i].0 == key,
        forall|j: int| i < j < pairs.len() ==> (#[trigger] pairs[j]).0 != key,
    ensures
        map_of(pairs).dom().contains(key),
        map_of(pairs)[key] == pairs[i].1,
    decreases pairs.len(),
{
    if i == pairs.len() - 1 {
    } else {
        lemma_map_of_found(pairs.drop_last(), key, i);
    }
}

/// Every value of `map_of` comes from one of the entries that built it.
pub proof fn lemma_map_of_value_from_entries(pairs: Seq<(Seq<char>, Seq<char>)>, k: Seq<char>)
    requires
        map_of(pairs).dom().contains(k),
    ensures
        exists|i: int|
            0 <= i < pairs.len() && (#[trigger] pairs[i]).0 == k && pairs[i].1 == map_of(pairs)[k],
    decreases pairs.len(),
{
    if pairs.len() > 0 {
        if pairs.last().0 == k {
            assert(pairs[pairs.len() - 1].0 == k && pairs[pairs.len() - 1].1 == map_of(pairs)[k]);
        } else {
            lemma_map_of_value_from_entries(pairs.drop_last(), k);
            let i = choose|i: int|
                0 <= i < pairs.drop_last().len() && (#[trigger] pairs.drop_last()[i]).0 == k
                    && pairs.drop_last()[i].1 == map_of(pairs.drop_last())[k];
            assert(pairs[i].0 == k && pairs[i].1 == map_of(pairs)[k]);
        }
    }
}

/// The flattened localization table. Entries are kept in insertion order;
/// the table a list of entries means is `map_of` of that list, so the
/// last entry for a key wins.
#[derive(Debug)]
pub struct I18Registry {
    entries: Vec<(String, String)>,
}

impl View for I18Registry {
    type V = Map<Seq<char>, Seq<char>>;

    closed spec fn view(&self) -> Map<Seq<char>, Seq<char>> {
        map_of(pairs_view(self.entries@))
    }
}

impl I18Registry {
    /// The empty table.
    pub fn new() -> (r: I18Registry)
        ensures
            r@ == Map::<Seq<char>, Seq<char>>::empty(),
    {
        I18Registry { entries: Vec::new() }
    }

    /// Builds the table from the sections of a key/value source, in
    /// order: a key met again later overwrites its earlier text.
    pub fn from_sections(sections: &Vec<Vec<(String, String)>>) -> (r: I18Registry)
        ensures
            r@ == flattened_map(sections_view(sections@)),
    {
        let ghost secs = sections_view(sections@);
        let mut entries: Vec<(String, String)> = Vec::new();
        let mut i: usize = 0;
        while i < sections.len()
            invariant
                0 <= i <= sections.len(),
                secs == sections_view(sections@),
                pairs_view(entries@) == joined_sections(secs.take(i as int)),
            decreases sections.len() - i,
        {
            let sec = &sections[i];
            let mut j: usize = 0;
            while j < sec.len()
                invariant
                    0 <= i < sections.len(),
                    0 <= j <= sec.len(),
                    secs == sections_view(sections@),
                    sec == &sections[i as int],
                    pairs_view(entries@) == joined_sections(secs.take(i as int)) + pairs_view(
                        sec@.take(j as int),
                    ),
                decreases sec.len() - j,
            {
                let k = sec[j].0.clone();
                let v = sec[j].1.clone();
                let ghost prev = entries@;
                let ghost pair = (k, v);
                entries.push((k, v));
                proof {
                    assert(entries@ == prev.push(pair));
                    lemma_pairs_view_push(prev, pair);
                    assert(sec@.take(j as int + 1) =~= sec@.take(j as int).push(sec@[j as int]));
                    lemma_pairs_view_push(sec@.take(j as int), sec@[j as int]);
                    assert(pairs_view(entries@) =~~= joined_sections(secs.take(i as int))
                        + pairs_view(sec@.take(j as int + 1)));
                }
                j = j + 1;
            }
            proof {
                assert(sec@.take(sec@.len() as int) =~= sec@);
                assert(secs.take(i as int + 1).drop_last() =~= secs.take(i as int));
                assert(secs.take(i as int + 1).last() == pairs_view(sec@));
                assert(joined_sections(secs.take(i as int + 1)) == joined_sections(
                    secs.take(i as int),
                ) + pairs_view(sec@));
            }
            i = i + 1;
        }
        proof {
            assert(secs.take(sections@.len() as int) =~= secs);
        }
        I18Registry { entries }
    }

    /// The text mapped to `key`, if the table holds the key.
    pub fn lookup(&self, key: &str) -> (r: Option<String>)
        ensures
            r is Some <==> self@.dom().contains(key@),
            r is Some ==> r.unwrap()@ == self@[key@],
    {
        let ghost pairs = pairs_view(self.entries@);
        let mut i: usize = self.entries.len();
        while i > 0
            invariant
                0 <= i <= self.entries.len(),
                pairs == pairs_view(self.entries@),
                forall|j: int| i <= j < pairs.len() ==> (#[trigger] pairs[j]).0 != key@,
            decreases i,
        {
            i = i - 1;
            if str_eq(self.entries[i].0.as_str(), key) {
                proof {
                    lemma_map_of_found(pairs, key@, i as int);
                }
                return Some(self.entries[i].1.clone());
            }
        }
        proof {
            lemma_map_of_absent(pairs, key@);
        }
        None
    }

    /// The localized text for `key`: the mapped text when present, the
    /// key itself otherwise — a missing translation never fails.
    pub fn localize(&self, key: &str) -> (r: String)
        ensures
            r@ == localized(self@, key@),
    {
        match self.lookup(key) {
            Some(v) => v,
            None => String::from_str(key),
        }
    }
}

/// The identity fallback is idempotent: a key the table does not hold is
/// echoed unchanged, and echoing it again still yields the key itself.
pub proof fn lemma_localize_fallback_idempotent(m: Map<Seq<char>, Seq<char>>, key: Seq<char>)
    requires
        !m.dom().contains(key),
    ensures
        localized(m, key) == key,
        localized(m, localized(m, key)) == key,
{
}

} // verus!
