use pydantic_core::dict::{check_length, strict_setting, sub_validator_name, DictOutput, DictValidator, KeyStep, ValidateToDict};
use pydantic_core::errors::{ErrorType, LocItem, ValError, ValLineError};
use pydantic_core::json::PartialMode;
use pydantic_core::output_dict::{DictKind, OutputDict};

fn reported(code: u64, input_value: u64) -> ValLineError {
    ValLineError { error_type: ErrorType::Reported { code }, location: vec![], input_value }
}

fn s(text: &str) -> LocItem {
    LocItem::S(text.to_string())
}

/// Runs one item through the machine as a caller would: key first, then the
/// value where the key lets it.
fn run_item(
    v: &mut ValidateToDict,
    key: LocItem,
    is_last: bool,
    key_outcome: Result<u64, ValError>,
    value_outcome: Result<u64, ValError>,
) -> Option<ValError> {
    assert_eq!(v.begin_item(Ok(())), None);
    assert_eq!(v.partial_mode(), PartialMode::Off);
    match v.on_key(&key, is_last, key_outcome) {
        KeyStep::Proceed(output_key) => v.on_value(&key, output_key, is_last, value_outcome),
        KeyStep::Skip => None,
        KeyStep::Stop(e) => Some(e),
    }
}

#[test]
fn output_dict_overwrites_in_place() {
    let mut d = OutputDict::new();
    d.set_item(1, 10);
    d.set_item(2, 20);
    d.set_item(1, 11);
    assert_eq!(d.len(), 2);
    assert_eq!(d.into_entries(), vec![(1, 11), (2, 20)]);
}

#[test]
fn validator_name_and_settings() {
    let v = DictValidator::build(true, "int", "str", Some(1), Some(3));
    assert_eq!(v.get_name(), "dict[int,str]");
    assert!(v.strict_mode(None));
    assert!(!v.strict_mode(Some(false)));
    let any = DictValidator::build(false, "any", "any", None, None);
    assert_eq!(any.get_name(), "dict[any,any]");
    assert!(!any.strict_mode(None));
    assert!(any.strict_mode(Some(true)));
}

#[test]
fn all_items_pass() {
    let v = DictValidator::build(false, "int", "int", None, None);
    let mut m = v.start(99, false, PartialMode::Off);
    assert_eq!(run_item(&mut m, s("a"), false, Ok(1), Ok(10)), None);
    assert_eq!(run_item(&mut m, s("b"), true, Ok(2), Ok(20)), None);
    assert_eq!(
        m.finish(),
        Ok(DictOutput { kind: DictKind::Dict, entries: vec![(1, 10), (2, 20)] })
    );
}

#[test]
fn ordered_dict_input_gives_ordered_dict() {
    let v = DictValidator::build(false, "any", "any", None, None);
    let mut m = v.start(0, true, PartialMode::Off);
    assert_eq!(run_item(&mut m, s("z"), false, Ok(5), Ok(50)), None);
    assert_eq!(run_item(&mut m, s("a"), true, Ok(6), Ok(60)), None);
    assert_eq!(
        m.finish(),
        Ok(DictOutput { kind: DictKind::OrderedDict, entries: vec![(5, 50), (6, 60)] })
    );
}

#[test]
fn equal_validated_keys_collapse() {
    // "1" and 1 both validate to the same key
    let v = DictValidator::build(false, "int", "int", Some(2), None);
    let mut m = v.start(7, false, PartialMode::Off);
    assert_eq!(run_item(&mut m, s("1"), false, Ok(1), Ok(10)), None);
    assert_eq!(run_item(&mut m, LocItem::I(1), true, Ok(1), Ok(11)), None);
    let expected = ValError::LineErrors(vec![ValLineError {
        error_type: ErrorType::TooShort { field_type: "Dictionary".to_string(), min_length: 2, actual_length: 1 },
        location: vec![],
        input_value: 7,
    }]);
    assert_eq!(m.finish(), Err(expected));
}

#[test]
fn key_errors_are_located_under_key_marker() {
    let v = DictValidator::build(false, "int", "int", None, None);
    let mut m = v.start(0, false, PartialMode::Off);
    let inner = ValLineError { error_type: ErrorType::Reported { code: 3 }, location: vec![LocItem::I(0)], input_value: 4 };
    assert_eq!(
        run_item(&mut m, s("x"), false, Err(ValError::LineErrors(vec![inner])), Ok(10)),
        None
    );
    assert_eq!(run_item(&mut m, s("y"), true, Ok(2), Ok(20)), None);
    let expected = ValError::LineErrors(vec![ValLineError {
        error_type: ErrorType::Reported { code: 3 },
        location: vec![s("x"), s("[key]"), LocItem::I(0)],
        input_value: 4,
    }]);
    assert_eq!(m.finish(), Err(expected));
}

#[test]
fn value_errors_are_located_under_key() {
    let v = DictValidator::build(false, "str", "int", None, Some(0));
    let mut m = v.start(0, false, PartialMode::Off);
    assert_eq!(
        run_item(&mut m, s("a"), false, Ok(1), Err(ValError::LineErrors(vec![reported(8, 2), reported(9, 2)]))),
        None
    );
    let mut first = reported(8, 2);
    first.location = vec![s("a")];
    let mut second = reported(9, 2);
    second.location = vec![s("a")];
    // the errors are the result; the maximum length is not checked
    assert_eq!(m.finish(), Err(ValError::LineErrors(vec![first, second])));
}

#[test]
fn key_and_value_errors_both_reported() {
    let v = DictValidator::build(false, "int", "int", None, None);
    let mut m = v.start(0, false, PartialMode::Off);
    assert_eq!(
        run_item(
            &mut m,
            s("k"),
            false,
            Err(ValError::LineErrors(vec![reported(1, 0)])),
            Err(ValError::LineErrors(vec![reported(2, 0)]))
        ),
        None
    );
    let mut key_err = reported(1, 0);
    key_err.location = vec![s("k"), s("[key]")];
    let mut value_err = reported(2, 0);
    value_err.location = vec![s("k")];
    assert_eq!(m.finish(), Err(ValError::LineErrors(vec![key_err, value_err])));
}

#[test]
fn last_partial_value_errors_dropped() {
    let v = DictValidator::build(false, "str", "str", None, None);
    let mut m = v.start(0, false, PartialMode::On);
    assert_eq!(run_item(&mut m, s("a"), false, Ok(1), Ok(10)), None);
    assert_eq!(m.begin_item(Ok(())), None);
    match m.on_key(&s("b"), true, Ok(2)) {
        KeyStep::Proceed(k) => {
            // the last value runs under the partial mode validation began with
            assert_eq!(m.partial_mode(), PartialMode::On);
            assert_eq!(m.on_value(&s("b"), k, true, Err(ValError::LineErrors(vec![reported(1, 0)]))), None);
        }
        other => panic!("unexpected step {:?}", other),
    }
    assert_eq!(m.finish(), Ok(DictOutput { kind: DictKind::Dict, entries: vec![(1, 10)] }));
}

#[test]
fn partial_off_keeps_last_value_errors() {
    let v = DictValidator::build(false, "str", "str", None, None);
    let mut m = v.start(0, false, PartialMode::Off);
    assert_eq!(m.begin_item(Ok(())), None);
    let k = m.on_key(&s("b"), true, Ok(2));
    assert_eq!(k, KeyStep::Proceed(Some(2)));
    assert_eq!(m.partial_mode(), PartialMode::Off);
    assert_eq!(m.on_value(&s("b"), Some(2), true, Err(ValError::LineErrors(vec![reported(1, 0)]))), None);
    let mut e = reported(1, 0);
    e.location = vec![s("b")];
    assert_eq!(m.finish(), Err(ValError::LineErrors(vec![e])));
}

#[test]
fn non_last_items_validated_without_partial() {
    let v = DictValidator::build(false, "str", "str", None, None);
    let mut m = v.start(0, false, PartialMode::TrailingStrings);
    assert_eq!(m.partial_mode(), PartialMode::TrailingStrings);
    assert_eq!(m.begin_item(Ok(())), None);
    assert_eq!(m.partial_mode(), PartialMode::Off);
    assert_eq!(m.on_key(&s("a"), false, Ok(1)), KeyStep::Proceed(Some(1)));
    assert_eq!(m.partial_mode(), PartialMode::Off);
    assert_eq!(m.begin_item(Ok(())), None);
    assert_eq!(m.on_key(&s("b"), true, Ok(2)), KeyStep::Proceed(Some(2)));
    assert_eq!(m.partial_mode(), PartialMode::TrailingStrings);
}

#[test]
fn omit_skips_item() {
    let v = DictValidator::build(false, "int", "int", None, None);
    let mut m = v.start(0, false, PartialMode::Off);
    assert_eq!(m.begin_item(Ok(())), None);
    assert_eq!(m.on_key(&s("a"), false, Err(ValError::Omit)), KeyStep::Skip);
    assert_eq!(run_item(&mut m, s("b"), false, Ok(2), Err(ValError::Omit)), None);
    assert_eq!(run_item(&mut m, s("c"), true, Ok(3), Ok(30)), None);
    assert_eq!(m.finish(), Ok(DictOutput { kind: DictKind::Dict, entries: vec![(3, 30)] }));
}

#[test]
fn internal_errors_stop() {
    let v = DictValidator::build(false, "int", "int", None, None);
    let mut m = v.start(0, false, PartialMode::Off);
    assert_eq!(m.begin_item(Ok(())), None);
    assert_eq!(m.on_key(&s("a"), false, Err(ValError::InternalErr(5))), KeyStep::Stop(ValError::InternalErr(5)));
    assert_eq!(
        run_item(&mut m, s("b"), false, Ok(1), Err(ValError::UseDefault)),
        Some(ValError::UseDefault)
    );
    assert_eq!(
        run_item(&mut m, s("c"), false, Ok(1), Err(ValError::InternalErr(6))),
        Some(ValError::InternalErr(6))
    );
}

#[test]
fn failed_key_keeps_value_out_of_output() {
    let v = DictValidator::build(false, "int", "int", None, None);
    let mut m = v.start(0, false, PartialMode::Off);
    assert_eq!(m.begin_item(Ok(())), None);
    assert_eq!(
        m.on_key(&s("a"), false, Err(ValError::LineErrors(vec![]))),
        KeyStep::Proceed(None)
    );
    assert_eq!(m.on_value(&s("a"), None, false, Ok(10)), None);
    // empty line errors add nothing: the output is empty and valid
    assert_eq!(m.finish(), Ok(DictOutput { kind: DictKind::Dict, entries: vec![] }));
}

#[test]
fn length_checks() {
    assert_eq!(check_length(None, None, 5, 0), Ok(()));
    assert_eq!(check_length(Some(5), Some(5), 5, 0), Ok(()));
    assert_eq!(
        check_length(Some(2), None, 1, 3),
        Err(ValError::LineErrors(vec![ValLineError {
            error_type: ErrorType::TooShort { field_type: "Dictionary".to_string(), min_length: 2, actual_length: 1 },
            location: vec![],
            input_value: 3,
        }]))
    );
    assert_eq!(
        check_length(None, Some(2), 3, 3),
        Err(ValError::LineErrors(vec![ValLineError {
            error_type: ErrorType::TooLong { field_type: "Dictionary".to_string(), max_length: 2, actual_length: Some(3) },
            location: vec![],
            input_value: 3,
        }]))
    );
    // the minimum is checked first
    assert_eq!(
        check_length(Some(4), Some(2), 3, 0),
        Err(ValError::LineErrors(vec![ValLineError {
            error_type: ErrorType::TooShort { field_type: "Dictionary".to_string(), min_length: 4, actual_length: 3 },
            location: vec![],
            input_value: 0,
        }]))
    );
}

#[test]
fn too_long_after_items() {
    let v = DictValidator::build(false, "int", "int", None, Some(1));
    let mut m = v.start(42, false, PartialMode::Off);
    assert_eq!(run_item(&mut m, s("a"), false, Ok(1), Ok(10)), None);
    assert_eq!(run_item(&mut m, s("b"), true, Ok(2), Ok(20)), None);
    let expected = ValError::LineErrors(vec![ValLineError {
        error_type: ErrorType::TooLong { field_type: "Dictionary".to_string(), max_length: 1, actual_length: Some(2) },
        location: vec![],
        input_value: 42,
    }]);
    assert_eq!(m.finish(), Err(expected));
}

#[test]
fn empty_input() {
    let m = ValidateToDict::new(None, None, PartialMode::Off, 0, DictKind::Dict);
    assert_eq!(m.finish(), Ok(DictOutput { kind: DictKind::Dict, entries: vec![] }));
    let m = ValidateToDict::new(Some(1), None, PartialMode::Off, 0, DictKind::Dict);
    assert!(m.finish().is_err());
}

#[test]
fn line_error_locations() {
    let e = reported(1, 2).with_outer_location(LocItem::I(3)).with_outer_location(s("a"));
    assert_eq!(e.location, vec![s("a"), LocItem::I(3)]);
    assert_eq!(s("q").duplicate(), s("q"));
    assert_eq!(LocItem::I(-4).duplicate(), LocItem::I(-4));
}

#[test]
fn dict_inputs_accepted() {
    assert!(DictValidator::accepts_input(true, true, true));
    assert!(!DictValidator::accepts_input(true, false, true));
    assert!(DictValidator::accepts_input(false, false, true));
    assert!(!DictValidator::accepts_input(false, false, false));
}

#[test]
fn strictness_from_schema_then_config() {
    assert!(strict_setting(Some(true), Some(false)));
    assert!(!strict_setting(Some(false), Some(true)));
    assert!(strict_setting(None, Some(true)));
    assert!(!strict_setting(None, Some(false)));
    assert!(!strict_setting(None, None));
}

#[test]
fn missing_sub_schema_named_any() {
    assert_eq!(sub_validator_name(Some("int")), "int");
    assert_eq!(sub_validator_name(None), "any");
    let v = DictValidator::build(false, sub_validator_name(None), sub_validator_name(Some("str")), None, None);
    assert_eq!(v.get_name(), "dict[any,str]");
}

#[test]
fn all_errors_collected_in_order_whatever_bounds() {
    let v = DictValidator::build(false, "int", "int", Some(5), Some(0));
    let mut m = v.start(0, false, PartialMode::Off);
    assert_eq!(run_item(&mut m, s("a"), false, Ok(1), Err(ValError::LineErrors(vec![reported(1, 0)]))), None);
    assert_eq!(run_item(&mut m, s("b"), false, Ok(2), Ok(20)), None);
    assert_eq!(
        run_item(&mut m, s("c"), true, Err(ValError::LineErrors(vec![reported(2, 0)])), Err(ValError::LineErrors(vec![reported(3, 0)]))),
        None
    );
    let mut e1 = reported(1, 0);
    e1.location = vec![s("a")];
    let mut e2 = reported(2, 0);
    e2.location = vec![s("c"), s("[key]")];
    let mut e3 = reported(3, 0);
    e3.location = vec![s("c")];
    assert_eq!(m.finish(), Err(ValError::LineErrors(vec![e1, e2, e3])));
}

#[test]
fn bounds_are_inclusive() {
    let v = DictValidator::build(false, "int", "int", Some(2), Some(2));
    let mut m = v.start(0, false, PartialMode::Off);
    assert_eq!(run_item(&mut m, s("a"), false, Ok(1), Ok(10)), None);
    assert_eq!(run_item(&mut m, s("b"), true, Ok(2), Ok(20)), None);
    assert_eq!(m.finish(), Ok(DictOutput { kind: DictKind::Dict, entries: vec![(1, 10), (2, 20)] }));
}

#[test]
fn non_dict_input_refused() {
    let expected = Err(ValError::LineErrors(vec![ValLineError {
        error_type: ErrorType::DictType,
        location: vec![],
        input_value: 4,
    }]));
    assert_eq!(DictValidator::check_input(true, false, true, 4), expected);
    assert_eq!(DictValidator::check_input(false, false, false, 4), expected);
    assert_eq!(DictValidator::check_input(true, true, true, 4), Ok(()));
    assert_eq!(DictValidator::check_input(false, false, true, 4), Ok(()));
}

#[test]
fn read_error_ends_validation() {
    let v = DictValidator::build(false, "int", "int", None, None);
    let mut m = v.start(0, false, PartialMode::On);
    assert_eq!(run_item(&mut m, s("a"), false, Ok(1), Err(ValError::LineErrors(vec![reported(1, 0)]))), None);
    assert_eq!(m.begin_item(Err(ValError::InternalErr(9))), Some(ValError::InternalErr(9)));
    // the state's partial mode was reset before the read
    assert_eq!(m.partial_mode(), PartialMode::Off);
}
