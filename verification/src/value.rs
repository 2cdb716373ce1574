//! The recursive value type that render data takes inside helper calls:
//! maps, sequences, strings, numbers (kept as their decimal text),
//! booleans and null.
use vstd::prelude::*;

use crate::text::str_eq;

verus! {

/// A structured render-data value. Numbers carry their textual form, since
/// the helpers never do arithmetic on them.
#[derive(Debug)]
pub enum DataValue {
    Null,
    Bool(bool),
    Num(String),
    Str(String),
    Array(Vec<DataValue>),
    Object(Vec<(String, DataValue)>),
}

/// The value of the first field named `prop` in an object's field list,
/// if any.
pub open spec fn obj_first_match(fields: Seq<(String, DataValue)>, prop: Seq<char>) -> Option<DataValue>
    decreases fields.len(),
{
    if fields.len() == 0 {
        None
    } else if fields[0].0@ == prop {
        Some(fields[0].1)
    } else {
        obj_first_match(fields.drop_first(), prop)
    }
}

/// The string held at field `prop` of `v`: `Some` exactly when `v` is an
/// object whose first field named `prop` holds a string.
pub open spec fn prop_string(v: DataValue, prop: Seq<char>) -> Option<Seq<char>> {
    match v {
        DataValue::Object(fields) => match obj_first_match(fields@, prop) {
            Some(DataValue::Str(s)) => Some(s@),
            _ => None,
        },
        _ => None,
    }
}

/// Element `i` of `coll` carries, at field `prop`, the same string that
/// element `j` of `keys` is.
pub open spec fn pair_matches(
    coll: Seq<DataValue>,
    prop: Seq<char>,
    keys: Seq<DataValue>,
    i: int,
    j: int,
) -> bool {
    &&& 0 <= i < coll.len()
    &&& 0 <= j < keys.len()
    &&& keys[j] is Str
    &&& prop_string(coll[i], prop) == Some(keys[j]->Str_0@)
}

/// The set of strings extracted from `coll` at `prop` intersects the
/// strings among `keys`.
pub open spec fn has_intersection(coll: Seq<DataValue>, prop: Seq<char>, keys: Seq<DataValue>) -> bool {
    exists|i: int, j: int| #[trigger] pair_matches(coll, prop, keys, i, j)
}

proof fn lemma_first_match_skip(fields: Seq<(String, DataValue)>, prop: Seq<char>, k: int)
    requires
        0 <= k <= fields.len(),
        forall|idx: int| 0 <= idx < k ==> #[trigger] fields[idx].0@ != prop,
    ensures
        obj_first_match(fields, prop) == obj_first_match(fields.skip(k), prop),
    decreases k,
{
    if k > 0 {
        lemma_first_match_skip(fields.drop_first(), prop, k - 1);
        assert(fields.drop_first().skip(k - 1) =~= fields.skip(k));
    } else {
        assert(fields.skip(0) =~= fields);
    }
}

impl DataValue {
    /// The string at field `prop`, if this value is an object whose first
    /// field of that name holds a string.
    pub fn prop_string_of(&self, prop: &str) -> (r: Option<String>)
        ensures
            r is Some <==> prop_string(*self, prop@) is Some,
            r is Some ==> r.unwrap()@ == prop_string(*self, prop@).unwrap(),
    {
        match self {
            DataValue::Object(fields) => {
                let ghost all = fields@;
                let mut k: usize = 0;
                while k < fields.len()
                    invariant
                        0 <= k <= fields.len(),
                        all == fields@,
                        *self is Object && self->Object_0@ == all,
                        forall|idx: int| 0 <= idx < k ==> #[trigger] all[idx].0@ != prop@,
                    decreases fields.len() - k,
                {
                    if str_eq(fields[k].0.as_str(), prop) {
                        proof {
                            lemma_first_match_skip(all, prop@, k as int);
                            assert(all.skip(k as int)[0] == all[k as int]);
                            assert(obj_first_match(all.skip(k as int), prop@)
                                == Some(all[k as int].1));
                        }
                        match &fields[k].1 {
                            DataValue::Str(s) => {
                                assert(all[k as int].1 is Str && s@ == all[k as int].1->Str_0@);
                                assert(*self is Object && self->Object_0@ == all);
                                assert(obj_first_match(all, prop@) == Some(all[k as int].1));
                                assert(prop_string(*self, prop@) == Some(s@));
                                return Some(s.clone());
                            },
                            _ => {
                                assert(!(all[k as int].1 is Str));
                                assert(prop_string(*self, prop@) is None);
                                return None;
                            },
                        }
                    }
                    k = k + 1;
                }
                proof {
                    lemma_first_match_skip(all, prop@, all.len() as int);
                    assert(all.skip(all.len() as int) =~= Seq::<(String, DataValue)>::empty());
                }
                None
            },
            _ => None,
        }
    }
}

} // verus!
