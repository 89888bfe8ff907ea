use fil_pasta_curves::Fq;
use nova_bench::inputs::{
    load_step_inputs, locate_initializer, strip_initializer, InitStrategy, InputFormatError,
};
use nova_bench::json::{find_field, Json, StepInput};

fn text(s: &str) -> Json {
    Json::Text(s.to_string())
}

fn step(fields: Vec<(&str, Json)>) -> StepInput {
    StepInput { fields: fields.into_iter().map(|(k, v)| (k.to_string(), v)).collect() }
}

fn keys(s: &StepInput) -> Vec<String> {
    s.fields.iter().map(|(k, _)| k.clone()).collect()
}

fn well_formed(i: u64) -> StepInput {
    let mut fields = vec![
        ("msgs", Json::List(vec![Json::List(vec![text("1"), text("2")])])),
        ("index", Json::Number(i.to_string())),
    ];
    if i == 0 {
        fields.insert(1, ("step_in", Json::List(vec![text("123"), text("7")])));
    }
    step(fields)
}

#[test]
fn list_head_initializer_is_found() {
    let s = step(vec![("step_in", Json::List(vec![text("123"), text("5")])), ("msg", text("7"))]);
    assert_eq!(locate_initializer(&s), Some((InitStrategy::ListHead, "123".to_string())));
}

#[test]
fn bare_scalar_is_tried_first() {
    let s = step(vec![("step_in", Json::List(vec![text("123")])), ("z0", text("9"))]);
    assert_eq!(locate_initializer(&s), Some((InitStrategy::BareScalar, "9".to_string())));
}

#[test]
fn bare_key_that_is_not_a_string_falls_back_to_list() {
    let s = step(vec![("z0", Json::Number("9".to_string())), ("step_in", Json::List(vec![text("42")]))]);
    assert_eq!(locate_initializer(&s), Some((InitStrategy::ListHead, "42".to_string())));
}

#[test]
fn list_whose_head_is_not_a_string_has_no_initializer() {
    let s = step(vec![("step_in", Json::List(vec![Json::Number("4".to_string())]))]);
    assert_eq!(locate_initializer(&s), None);
    let e = step(vec![("step_in", Json::List(vec![]))]);
    assert_eq!(locate_initializer(&e), None);
}

#[test]
fn step_zero_without_initializer_is_an_input_format_error() {
    let raw = vec![step(vec![("msgs", text("1"))]), well_formed(1), well_formed(2)];
    assert_eq!(load_step_inputs(raw).err(), Some(InputFormatError::MissingInitializer));
}

#[test]
fn no_steps_is_an_input_format_error() {
    assert_eq!(load_step_inputs(vec![]).err(), Some(InputFormatError::MissingInitializer));
}

#[test]
fn initializer_that_is_not_a_numeral_is_rejected() {
    for bad in ["", "0123", "12a", "-5", "1.5"] {
        let raw = vec![step(vec![("z0", text(bad))])];
        assert_eq!(load_step_inputs(raw).err(), Some(InputFormatError::InvalidScalar), "{}", bad);
    }
}

#[test]
fn zero_initializer_parses() {
    let loaded = load_step_inputs(vec![step(vec![("z0", text("0"))])]).unwrap();
    assert_eq!(loaded.z0, Fq::from(0u64));
    assert_eq!(loaded.steps.len(), 1);
    assert!(loaded.steps[0].fields.is_empty());
}

#[test]
fn three_well_formed_steps_load_in_order() {
    let raw = vec![well_formed(0), well_formed(1), well_formed(2)];
    let loaded = load_step_inputs(raw).unwrap();
    assert_eq!(loaded.strategy, InitStrategy::ListHead);
    assert_eq!(loaded.z0_text, "123");
    assert_eq!(loaded.z0, Fq::from(123u64));
    assert_eq!(loaded.steps.len(), 3);
    for (i, s) in loaded.steps.iter().enumerate() {
        assert_eq!(keys(s), vec!["msgs".to_string(), "index".to_string()]);
        assert!(matches!(&s.fields[1].1, Json::Number(n) if *n == i.to_string()));
        assert_eq!(locate_initializer(s), None);
    }
}

#[test]
fn every_step_loses_both_initializer_keys() {
    let raw = vec![
        step(vec![("z0", text("5")), ("a", text("1"))]),
        step(vec![("step_in", Json::List(vec![text("8")])), ("b", text("2")), ("z0", text("3"))]),
    ];
    let loaded = load_step_inputs(raw).unwrap();
    assert_eq!(loaded.strategy, InitStrategy::BareScalar);
    assert_eq!(loaded.z0, Fq::from(5u64));
    assert_eq!(keys(&loaded.steps[0]), vec!["a".to_string()]);
    assert_eq!(keys(&loaded.steps[1]), vec!["b".to_string()]);
}

#[test]
fn strip_keeps_other_fields_in_order() {
    let s = step(vec![("c", text("1")), ("step_in", text("2")), ("a", text("3")), ("z0", text("4")), ("b", text("5"))]);
    let r = strip_initializer(s);
    assert_eq!(keys(&r), vec!["c".to_string(), "a".to_string(), "b".to_string()]);
}

#[test]
fn find_field_gives_first_match() {
    let s = step(vec![("a", text("1")), ("b", text("2")), ("b", text("3"))]);
    assert_eq!(find_field(&s.fields, &"b".to_string()), Some(1));
    assert_eq!(find_field(&s.fields, &"c".to_string()), None);
}
