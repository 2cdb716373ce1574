//! The template helper library: the pure logic of the three helpers a
//! template may invoke, each over already-resolved argument values.
use vstd::prelude::*;
use vstd::string::StringExecFns;

use crate::i18n::I18Registry;
use crate::i18n::localized;
use crate::text::decimal_digits;
use crate::text::u64_to_decimal;
use crate::value::DataValue;
use crate::value::has_intersection;
use crate::value::pair_matches;
use crate::value::prop_string;

verus! {

/// A helper was invoked with a missing or wrongly shaped argument.
#[derive(Debug)]
pub struct ArgumentError {
    /// The position of the offending argument.
    pub param: u64,
    /// A human-readable cause.
    pub message: String,
}

fn argument_error(param: u64, message: &str) -> (r: ArgumentError)
    ensures
        r.param == param,
{
    ArgumentError { param, message: String::from_str(message) }
}

/// The text the `array_length` helper writes: the element count of its
/// argument as decimal text. Any argument that is not a sequence is
/// rejected.
pub fn array_length_helper(arg: Option<&DataValue>) -> (r: Result<String, ArgumentError>)
    ensures
        match arg {
            Some(v) => match *v {
                DataValue::Array(items) => r is Ok && r->Ok_0@ == decimal_digits(
                    items@.len() as nat,
                ),
                _ => r is Err && r->Err_0.param == 0,
            },
            None => r is Err && r->Err_0.param == 0,
        },
{
    match arg {
        Some(DataValue::Array(items)) => Ok(u64_to_decimal(items.len() as u64)),
        _ => Err(argument_error(0, "Param 0 with 'array' type is required for array_length helper")),
    }
}

/// Whether `arg` is a string value, a sequence value, or anything else —
/// the shapes the `contains` helper sorts its arguments into.
pub open spec fn is_str_arg(arg: Option<&DataValue>) -> bool {
    arg is Some && *arg->0 is Str
}

/// Whether `arg` is a sequence value.
pub open spec fn is_array_arg(arg: Option<&DataValue>) -> bool {
    arg is Some && *arg->0 is Array
}

/// The text the `contains` helper writes: the literal `true` when some
/// element of `collection` carries, at the field named by `property`, a
/// string that also stands among `keys`; nothing at all otherwise.
/// Elements without that field, with a non-string there, and non-string
/// keys are skipped, not rejected.
pub fn contains_helper(
    property: Option<&DataValue>,
    collection: Option<&DataValue>,
    keys: Option<&DataValue>,
) -> (r: Result<String, ArgumentError>)
    ensures
        !is_str_arg(property) ==> r is Err && r->Err_0.param == 0,
        is_str_arg(property) && !is_array_arg(collection) ==> r is Err && r->Err_0.param == 1,
        is_str_arg(property) && is_array_arg(collection) && !is_array_arg(keys) ==> r is Err
            && r->Err_0.param == 2,
        is_str_arg(property) && is_array_arg(collection) && is_array_arg(keys) ==> {
            &&& r is Ok
            &&& has_intersection(
                (*collection->0)->Array_0@,
                (*property->0)->Str_0@,
                (*keys->0)->Array_0@,
            ) ==> r->Ok_0@ == "true"@
            &&& !has_intersection(
                (*collection->0)->Array_0@,
                (*property->0)->Str_0@,
                (*keys->0)->Array_0@,
            ) ==> r->Ok_0@ == Seq::<char>::empty()
        },
{
    let prop: &String = match property {
        Some(DataValue::Str(p)) => p,
        _ => {
            return Err(
                argument_error(0, "Param 0 with 'string' type is required for 'contains' helper"),
            );
        },
    };
    let items: &Vec<DataValue> = match collection {
        Some(DataValue::Array(items)) => items,
        _ => {
            return Err(
                argument_error(1, "Param 1 with 'array' type is required for 'contains' helper"),
            );
        },
    };
    let ks: &Vec<DataValue> = match keys {
        Some(DataValue::Array(ks)) => ks,
        _ => {
            return Err(
                argument_error(2, "Param 2 with 'array' type is required for 'contains' helper"),
            );
        },
    };
    let ghost coll_v = items@;
    let ghost prop_v = prop@;
    let ghost keys_v = ks@;
    let mut i: usize = 0;
    while i < items.len()
        invariant
            0 <= i <= items.len(),
            coll_v == items@,
            prop_v == prop@,
            keys_v == ks@,
            is_str_arg(property) && (*property->0)->Str_0@ == prop_v,
            is_array_arg(collection) && (*collection->0)->Array_0@ == coll_v,
            is_array_arg(keys) && (*keys->0)->Array_0@ == keys_v,
            forall|i2: int, j2: int| 0 <= i2 < i ==> !#[trigger] pair_matches(
                coll_v,
                prop_v,
                keys_v,
                i2,
                j2,
            ),
        decreases items.len() - i,
    {
        let candidate = items[i].prop_string_of(prop.as_str());
        match candidate {
            Some(c) => {
                let mut j: usize = 0;
                while j < ks.len()
                    invariant
                        0 <= i < coll_v.len(),
                        0 <= j <= ks.len(),
                        coll_v == items@,
                        prop_v == prop@,
                        keys_v == ks@,
                        is_str_arg(property) && (*property->0)->Str_0@ == prop_v,
                        is_array_arg(collection) && (*collection->0)->Array_0@ == coll_v,
                        is_array_arg(keys) && (*keys->0)->Array_0@ == keys_v,
                        prop_string(coll_v[i as int], prop_v) == Some(c@),
                        forall|j2: int| 0 <= j2 < j ==> !#[trigger] pair_matches(
                            coll_v,
                            prop_v,
                            keys_v,
                            i as int,
                            j2,
                        ),
                    decreases ks.len() - j,
                {
                    match &ks[j] {
                        DataValue::Str(key) => {
                            if crate::text::str_eq(c.as_str(), key.as_str()) {
                                assert(pair_matches(coll_v, prop_v, keys_v, i as int, j as int));
                                proof {
                                    reveal_strlit("true");
                                }
                                return Ok(String::from_str("true"));
                            }
                        },
                        _ => {},
                    }
                    assert(!pair_matches(coll_v, prop_v, keys_v, i as int, j as int));
                    j = j + 1;
                }
            },
            None => {
                assert(forall|j2: int| !#[trigger] pair_matches(
                    coll_v,
                    prop_v,
                    keys_v,
                    i as int,
                    j2,
                ));
            },
        }
        i = i + 1;
    }
    assert(!has_intersection(coll_v, prop_v, keys_v));
    Ok(String::new())
}

/// The text the `i18` helper writes: the localized value of its string
/// argument when the table holds it, the argument itself otherwise. A
/// missing or non-string argument is rejected.
pub fn i18_helper_text(table: &I18Registry, arg: Option<&DataValue>) -> (r: Result<String, ArgumentError>)
    ensures
        match arg {
            Some(v) => match *v {
                DataValue::Str(key) => r is Ok && r->Ok_0@ == localized(table@, key@),
                _ => r is Err && r->Err_0.param == 0,
            },
            None => r is Err && r->Err_0.param == 0,
        },
{
    match arg {
        Some(DataValue::Str(key)) => Ok(table.localize(key.as_str())),
        _ => Err(argument_error(0, "Param 0 with 'string' type is required for i18 helper")),
    }
}

} // verus!
