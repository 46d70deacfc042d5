use pathfinder_operator::drift::compare_values;
use pathfinder_operator::value::Value;

fn s(text: &str) -> Value {
    Value::Str(text.to_string())
}

fn obj(entries: Vec<(&str, Value)>) -> Value {
    Value::Object(entries.into_iter().map(|(k, v)| (k.to_string(), v)).collect())
}

#[test]
fn equal_scalars_show_no_drift() {
    assert!(!compare_values(&Value::Int(3), &Value::Int(3)).non_empty());
    assert!(!compare_values(&Value::Bool(true), &Value::Bool(true)).non_empty());
    assert!(!compare_values(&Value::Null, &Value::Null).non_empty());
    assert!(!compare_values(&s("a"), &s("a")).non_empty());
}

#[test]
fn unequal_scalars_drift() {
    assert!(compare_values(&Value::Int(3), &Value::Int(4)).non_empty());
    assert!(compare_values(&Value::Bool(true), &Value::Bool(false)).non_empty());
    assert!(compare_values(&s("a"), &s("b")).non_empty());
}

#[test]
fn different_kinds_drift() {
    assert!(compare_values(&Value::Int(1), &s("1")).non_empty());
    assert!(compare_values(&Value::Null, &Value::Bool(false)).non_empty());
    assert!(compare_values(&obj(vec![]), &Value::Array(vec![])).non_empty());
}

#[test]
fn arrays_compare_element_wise() {
    let a = Value::Array(vec![Value::Int(1), Value::Int(2)]);
    let b = Value::Array(vec![Value::Int(1), Value::Int(2)]);
    assert!(!compare_values(&a, &b).non_empty());
    let c = Value::Array(vec![Value::Int(1), Value::Int(3)]);
    assert!(compare_values(&a, &c).non_empty());
}

#[test]
fn arrays_of_unequal_length_drift() {
    let a = Value::Array(vec![Value::Int(1)]);
    let b = Value::Array(vec![Value::Int(1), Value::Int(2)]);
    assert!(compare_values(&a, &b).non_empty());
    assert!(compare_values(&b, &a).non_empty());
}

#[test]
fn objects_compare_by_key_not_order() {
    let a = obj(vec![("a", Value::Int(1)), ("b", Value::Int(2))]);
    let b = obj(vec![("b", Value::Int(2)), ("a", Value::Int(1))]);
    assert!(!compare_values(&a, &b).non_empty());
}

#[test]
fn key_on_one_side_only_drifts() {
    let a = obj(vec![("a", Value::Int(1))]);
    let b = obj(vec![("a", Value::Int(1)), ("b", Value::Int(2))]);
    assert!(compare_values(&a, &b).non_empty());
    assert!(compare_values(&b, &a).non_empty());
}

#[test]
fn shared_key_with_different_value_drifts() {
    let a = obj(vec![("a", Value::Int(1))]);
    let b = obj(vec![("a", Value::Int(2))]);
    assert!(compare_values(&a, &b).non_empty());
}

#[test]
fn nested_single_field_difference_drifts() {
    let a = obj(vec![("spec", obj(vec![("image", s("v1")), ("replicas", Value::Int(1))]))]);
    let b = obj(vec![("spec", obj(vec![("image", s("v2")), ("replicas", Value::Int(1))]))]);
    let c = obj(vec![("spec", obj(vec![("image", s("v1")), ("replicas", Value::Int(1))]))]);
    assert!(compare_values(&a, &b).non_empty());
    assert!(!compare_values(&a, &c).non_empty());
}

#[test]
fn empty_objects_and_arrays_are_equal() {
    assert!(!compare_values(&obj(vec![]), &obj(vec![])).non_empty());
    assert!(!compare_values(&Value::Array(vec![]), &Value::Array(vec![])).non_empty());
}
