use pdf_generator::helpers::array_length_helper;
use pdf_generator::helpers::contains_helper;
use pdf_generator::helpers::i18_helper_text;
use pdf_generator::i18n::I18Registry;
use pdf_generator::text::u64_to_decimal;
use pdf_generator::value::DataValue;

fn s(t: &str) -> String {
    t.to_string()
}

fn obj(fields: Vec<(&str, DataValue)>) -> DataValue {
    DataValue::Object(fields.into_iter().map(|(k, v)| (s(k), v)).collect())
}

fn tagged(tag: &str) -> DataValue {
    obj(vec![("tag", DataValue::Str(s(tag)))])
}

fn str_array(items: Vec<&str>) -> DataValue {
    DataValue::Array(items.into_iter().map(|k| DataValue::Str(s(k))).collect())
}

#[test]
fn decimal_text_exact_values() {
    assert_eq!(u64_to_decimal(0), "0");
    assert_eq!(u64_to_decimal(7), "7");
    assert_eq!(u64_to_decimal(10), "10");
    assert_eq!(u64_to_decimal(40), "40");
    assert_eq!(u64_to_decimal(12345), "12345");
    assert_eq!(u64_to_decimal(u64::MAX), "18446744073709551615");
}

#[test]
fn array_length_counts_elements() {
    let arr = DataValue::Array(vec![
        DataValue::Num(s("1")),
        DataValue::Bool(true),
        DataValue::Null,
    ]);
    assert_eq!(array_length_helper(Some(&arr)).unwrap(), "3");
    let empty = DataValue::Array(vec![]);
    assert_eq!(array_length_helper(Some(&empty)).unwrap(), "0");
}

#[test]
fn array_length_rejects_non_sequences() {
    assert_eq!(array_length_helper(None).unwrap_err().param, 0);
    assert_eq!(array_length_helper(Some(&DataValue::Str(s("x")))).unwrap_err().param, 0);
    assert_eq!(array_length_helper(Some(&DataValue::Num(s("3")))).unwrap_err().param, 0);
}

#[test]
fn contains_finds_intersection() {
    let prop = DataValue::Str(s("tag"));
    let coll = DataValue::Array(vec![tagged("a"), tagged("b")]);
    let keys = str_array(vec!["b", "z"]);
    assert_eq!(contains_helper(Some(&prop), Some(&coll), Some(&keys)).unwrap(), "true");
}

#[test]
fn contains_writes_nothing_without_intersection() {
    let prop = DataValue::Str(s("tag"));
    let coll = DataValue::Array(vec![tagged("a"), tagged("b")]);
    let keys = str_array(vec!["x", "z"]);
    assert_eq!(contains_helper(Some(&prop), Some(&coll), Some(&keys)).unwrap(), "");
}

#[test]
fn contains_skips_shapeless_elements() {
    let prop = DataValue::Str(s("tag"));
    // one element without the field, one with a non-string there, one match
    let coll = DataValue::Array(vec![
        obj(vec![("other", DataValue::Str(s("b")))]),
        obj(vec![("tag", DataValue::Num(s("1")))]),
        tagged("z"),
        DataValue::Str(s("not an object")),
    ]);
    let keys = str_array(vec!["z"]);
    assert_eq!(contains_helper(Some(&prop), Some(&coll), Some(&keys)).unwrap(), "true");
    let keys2 = DataValue::Array(vec![DataValue::Num(s("1")), DataValue::Str(s("q"))]);
    assert_eq!(contains_helper(Some(&prop), Some(&coll), Some(&keys2)).unwrap(), "");
}

#[test]
fn contains_rejects_bad_arguments_in_order() {
    let prop = DataValue::Str(s("tag"));
    let coll = DataValue::Array(vec![tagged("a")]);
    let keys = str_array(vec!["a"]);
    assert_eq!(contains_helper(None, Some(&coll), Some(&keys)).unwrap_err().param, 0);
    assert_eq!(
        contains_helper(Some(&coll), Some(&coll), Some(&keys)).unwrap_err().param,
        0
    );
    assert_eq!(contains_helper(Some(&prop), None, Some(&keys)).unwrap_err().param, 1);
    assert_eq!(
        contains_helper(Some(&prop), Some(&prop), Some(&keys)).unwrap_err().param,
        1
    );
    assert_eq!(contains_helper(Some(&prop), Some(&coll), None).unwrap_err().param, 2);
    assert_eq!(
        contains_helper(Some(&prop), Some(&coll), Some(&prop)).unwrap_err().param,
        2
    );
}

#[test]
fn i18_returns_mapped_value_or_echoes_key() {
    let table = I18Registry::from_sections(&vec![vec![(s("greeting"), s("Hello"))]]);
    let key = DataValue::Str(s("greeting"));
    assert_eq!(i18_helper_text(&table, Some(&key)).unwrap(), "Hello");
    let missing = DataValue::Str(s("missing_key"));
    assert_eq!(i18_helper_text(&table, Some(&missing)).unwrap(), "missing_key");
    // echoing is idempotent: looking the echoed key up again still echoes it
    let echoed = DataValue::Str(i18_helper_text(&table, Some(&missing)).unwrap());
    assert_eq!(i18_helper_text(&table, Some(&echoed)).unwrap(), "missing_key");
    assert_eq!(i18_helper_text(&table, None).unwrap_err().param, 0);
    assert_eq!(i18_helper_text(&table, Some(&DataValue::Null)).unwrap_err().param, 0);
}
